//! Formation patterns the swarm can fly in.

use vstd::prelude::*;
use vstd::string::StringExecFns;
use crate::text::{lowercase_equals, lower_seq};

verus! {

/// A geometric arrangement of the swarm around its leader.
#[derive(Debug, Clone, Copy, PartialEq, Eq, Structural)]
pub enum FormationType {
    /// Leader in front, two wing drones behind on either side.
    Triangle,
    /// All drones abreast along the x axis.
    Line,
    /// Leader at the apex, wings swept back at 45 degrees.
    VFormation,
}

impl FormationType {
    /// The formation named by `s` (ASCII case is ignored), if any.
    pub open spec fn parse_spec(s: Seq<char>) -> Option<FormationType> {
        let l = lower_seq(s);
        if l == "triangle"@ {
            Some(FormationType::Triangle)
        } else if l == "line"@ {
            Some(FormationType::Line)
        } else if l == "v_formation"@ {
            Some(FormationType::VFormation)
        } else {
            None
        }
    }

    /// The name under which a formation is requested.
    pub open spec fn request_name(self) -> Seq<char> {
        match self {
            FormationType::Triangle => "triangle"@,
            FormationType::Line => "line"@,
            FormationType::VFormation => "v_formation"@,
        }
    }

    /// The name under which the current formation is reported: the variant's
    /// name in lower case.
    pub open spec fn report_name(self) -> Seq<char> {
        match self {
            FormationType::Triangle => "triangle"@,
            FormationType::Line => "line"@,
            FormationType::VFormation => "vformation"@,
        }
    }

    /// Parses a formation name, ignoring case: `triangle`, `line` or `v_formation`.
    pub fn from_str(s: &str) -> (r: Option<FormationType>)
        ensures
            r == FormationType::parse_spec(s@),
    {
        proof {
            reveal_strlit("triangle");
            reveal_strlit("line");
            reveal_strlit("v_formation");
        }
        if lowercase_equals(s, "triangle") {
            Some(FormationType::Triangle)
        } else if lowercase_equals(s, "line") {
            Some(FormationType::Line)
        } else if lowercase_equals(s, "v_formation") {
            Some(FormationType::VFormation)
        } else {
            None
        }
    }

    /// The name reported for the current formation.
    pub fn report_str(&self) -> (r: &'static str)
        ensures
            r@ == self.report_name(),
    {
        match self {
            FormationType::Triangle => "triangle",
            FormationType::Line => "line",
            FormationType::VFormation => "vformation",
        }
    }
}

/// The formation names a client may request, in the order they are listed.
pub open spec fn available_formation_names() -> Seq<Seq<char>> {
    seq!["triangle"@, "line"@, "v_formation"@]
}

/// The formation names a client may request.
pub fn available_formations() -> (r: Vec<String>)
    ensures
        r@.map_values(|s: String| s@) == available_formation_names(),
{
    let mut r: Vec<String> = Vec::new();
    r.push(String::from_str("triangle"));
    r.push(String::from_str("line"));
    r.push(String::from_str("v_formation"));
    assert(r@.map_values(|s: String| s@) =~= available_formation_names());
    r
}

/// Every listed formation name is accepted, and names its own formation.
pub proof fn lemma_available_names_parse()
    ensures
        FormationType::parse_spec(available_formation_names()[0]) == Some(FormationType::Triangle),
        FormationType::parse_spec(available_formation_names()[1]) == Some(FormationType::Line),
        FormationType::parse_spec(available_formation_names()[2]) == Some(FormationType::VFormation),
{
    reveal_strlit("triangle");
    reveal_strlit("line");
    reveal_strlit("v_formation");
    assert(lower_seq("triangle"@) =~= "triangle"@);
    assert(lower_seq("line"@) =~= "line"@);
    assert(lower_seq("v_formation"@) =~= "v_formation"@);
}

/// Parsing the request name of a formation gives the formation back.
pub proof fn lemma_formation_name_round_trip(f: FormationType)
    ensures
        FormationType::parse_spec(f.request_name()) == Some(f),
{
    lemma_available_names_parse();
}

/// Parsing ignores ASCII case.
pub proof fn lemma_formation_parse_ignores_case(s: Seq<char>, t: Seq<char>)
    requires
        lower_seq(s) == lower_seq(t),
    ensures
        FormationType::parse_spec(s) == FormationType::parse_spec(t),
{
}

} // verus!
