use uav_swarm::formation::{available_formations, FormationType};

#[test]
fn test_formation_type_from_str() {
    assert_eq!(FormationType::from_str("triangle"), Some(FormationType::Triangle));
    assert_eq!(FormationType::from_str("Triangle"), Some(FormationType::Triangle));
    assert_eq!(FormationType::from_str("TRIANGLE"), Some(FormationType::Triangle));

    assert_eq!(FormationType::from_str("line"), Some(FormationType::Line));
    assert_eq!(FormationType::from_str("v_formation"), Some(FormationType::VFormation));

    assert_eq!(FormationType::from_str("invalid"), None);
    assert_eq!(FormationType::from_str(""), None);
}

#[test]
fn formation_parse_is_case_insensitive_throughout() {
    assert_eq!(FormationType::from_str("V_FORMATION"), Some(FormationType::VFormation));
    assert_eq!(FormationType::from_str("LiNe"), Some(FormationType::Line));
    assert_eq!(FormationType::from_str("vformation"), None);
    assert_eq!(FormationType::from_str("v-formation"), None);
}

#[test]
fn available_formations_are_listed_in_order_and_parse() {
    let names = available_formations();
    assert_eq!(names, vec!["triangle".to_string(), "line".to_string(), "v_formation".to_string()]);
    assert_eq!(FormationType::from_str(&names[0]), Some(FormationType::Triangle));
    assert_eq!(FormationType::from_str(&names[1]), Some(FormationType::Line));
    assert_eq!(FormationType::from_str(&names[2]), Some(FormationType::VFormation));
}

#[test]
fn formations_are_reported_by_variant_name() {
    assert_eq!(FormationType::Triangle.report_str(), "triangle");
    assert_eq!(FormationType::Line.report_str(), "line");
    assert_eq!(FormationType::VFormation.report_str(), "vformation");
}
