# uav_swarm

Management of a small swarm of drones: formations, missions flown through
waypoints, and a choice of simulation back-ends (in-process kinematics, or
Gazebo / ROS2 reached over an HTTP bridge), driven from a command line or a
REST + WebSocket API.

* `src/` is the verified library (Verus): simulation modes and formation names
  with case-insensitive parsing, the mission life cycle and its executor,
  configuration defaults and environment overrides, the pacing of mission
  runs, and the API's errors, checks and response bodies.
* `app/` is the program around it: drone kinematics and formation geometry
  (floating point), the HTTP bridges, the actix-web server, configuration
  files and the command line.
* `tests/` exercises the library.
