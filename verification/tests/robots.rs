use ik_bridge::{init_code, solve_code, EngineOutcome, ErrorCode, Registration, RobotTable};

const URDF: &[u8] = b"<robot name=\"arm\"></robot>";
const POSE: [f32; 7] = [0.1, 0.2, 0.3, 1.0, 0.0, 0.0, 0.0];

fn frames(names: &[&str]) -> Registration {
    Registration::Accepted(names.iter().map(|n| n.to_string()).collect())
}

fn table_with(dof: i32) -> RobotTable {
    let mut table = RobotTable::new();
    assert_eq!(table.init(URDF, dof, frames(&["gripper", "wrist"])), Ok(0));
    table
}

#[test]
fn init_gives_ids_in_order_from_zero() {
    let mut table = RobotTable::new();
    assert_eq!(table.init(URDF, 6, frames(&["gripper"])), Ok(0));
    assert_eq!(table.init(URDF, 7, frames(&["hand"])), Ok(1));
    assert_eq!(table.init(URDF, 3, frames(&[])), Ok(2));
    assert_eq!(init_code(&Ok(2)), 2);
}

#[test]
fn init_with_malformed_text_is_code_five_and_registers_nothing() {
    let mut table = table_with(2);
    let r = table.init(&[0x3c, 0x80, 0x3e], 2, frames(&["gripper"]));
    assert_eq!(r, Err(ErrorCode::EncodingError));
    assert_eq!(init_code(&r), 5);
    assert_eq!(table.len(), 1);
    assert_eq!(table.urdf(1), None);
    let mut out = [9.0f32, 9.0];
    let solved = EngineOutcome::Solved(vec![1.0f32, 2.0]);
    for id in [1, 2, 3, 5] {
        assert_eq!(table.dof(id, b"gripper"), -1);
        let s = table.solve(id, b"gripper", &solved, &mut out);
        assert_eq!(s, Err(ErrorCode::InvalidId));
        assert_eq!(solve_code(&s), -1);
        assert_eq!(out, [9.0, 9.0]);
    }
    assert_eq!(table.init(URDF, 4, frames(&["hand"])), Ok(1));
}

#[test]
fn init_with_malformed_text_fails_whatever_the_engine_said() {
    let mut table = RobotTable::new();
    let r = table.init(&[0xff], 2, Registration::Rejected);
    assert_eq!(r, Err(ErrorCode::EncodingError));
    assert_eq!(init_code(&r), 5);
}

#[test]
fn init_refused_by_the_engine_is_minus_one_and_registers_nothing() {
    let mut table = RobotTable::new();
    let r = table.init(URDF, 6, Registration::Rejected);
    assert_eq!(r, Err(ErrorCode::InitError));
    assert_eq!(init_code(&r), -1);
    assert_eq!(table.dof(0, b"gripper"), -1);
    assert_eq!(table.init(URDF, 6, frames(&["gripper"])), Ok(0));
}

#[test]
fn dof_is_looked_up_by_id_and_frame() {
    let mut table = table_with(6);
    assert_eq!(table.init(URDF, 3, frames(&["hand"])), Ok(1));
    assert_eq!(table.dof(0, b"gripper"), 6);
    assert_eq!(table.dof(0, b"wrist"), 6);
    assert_eq!(table.dof(1, b"hand"), 3);
}

#[test]
fn dof_of_an_unknown_id_or_frame_is_minus_one() {
    let table = table_with(6);
    assert_eq!(table.dof(0, b"hand"), -1);
    assert_eq!(table.dof(0, b"Gripper"), -1);
    assert_eq!(table.dof(0, b""), -1);
    assert_eq!(table.dof(1, b"gripper"), -1);
    assert_eq!(table.dof(-1, b"gripper"), -1);
    assert_eq!(table.dof(i32::MAX, b"gripper"), -1);
    assert_eq!(table.dof(i32::MIN, b"gripper"), -1);
    assert_eq!(table.dof(0, &[0x67, 0xff]), -1);
}

#[test]
fn an_id_names_the_same_robot_after_later_registrations() {
    let mut table = table_with(6);
    for n in 0..5 {
        assert_eq!(table.init(URDF, n, frames(&["hand"])), Ok(n + 1));
        assert_eq!(table.dof(0, b"gripper"), 6);
        assert_eq!(table.dof(0, b"hand"), -1);
    }
    assert_eq!(table.dof(3, b"hand"), 2);
}

#[test]
fn solve_request_holds_the_frame_the_joints_and_the_pose() {
    let table = table_with(2);
    let q = [0.5f32, -0.5];
    let pose = [1.0f32, 2.0, 3.0, 4.0, 5.0, 6.0, 7.0];
    let req = table.solve_request(0, &q, b"wrist", &pose).unwrap();
    assert_eq!(req.id, 0);
    assert_eq!(req.frame, "wrist");
    assert_eq!(req.seed, vec![0.5f32, -0.5]);
    assert_eq!((req.target.x, req.target.y, req.target.z), (1.0, 2.0, 3.0));
    assert_eq!(
        (req.target.qw, req.target.qx, req.target.qy, req.target.qz),
        (4.0, 5.0, 6.0, 7.0)
    );
}

#[test]
fn solve_request_turns_away_bad_text_ids_and_frames() {
    let table = table_with(2);
    let none: [f32; 0] = [];
    let bad_text = table.solve_request(0, &none, &[0xc0, 0xaf], &POSE);
    assert_eq!(bad_text.err(), Some(ErrorCode::EncodingError));
    let bad_frame = table.solve_request(0, &none, b"elbow", &POSE);
    assert_eq!(bad_frame.err(), Some(ErrorCode::InvalidId));
    let bad_id = table.solve_request(4, &none, b"gripper", &POSE);
    assert_eq!(bad_id.err(), Some(ErrorCode::InvalidId));
    let negative_id = table.solve_request(-3, &none, b"gripper", &POSE);
    assert_eq!(negative_id.err(), Some(ErrorCode::InvalidId));
}

#[test]
fn solve_success_is_zero_and_writes_the_joints() {
    let table = table_with(3);
    let mut out = [9.0f32; 3];
    let s = table.solve(0, b"gripper", &EngineOutcome::Solved(vec![0.5f32, 1.5, 2.5]), &mut out);
    assert_eq!(s, Ok(()));
    assert_eq!(solve_code(&s), 0);
    assert_eq!(out, [0.5, 1.5, 2.5]);
}

#[test]
fn solve_with_an_unknown_frame_is_minus_one_and_writes_nothing() {
    let table = table_with(3);
    let mut out = [9.0f32; 3];
    let s = table.solve(0, b"elbow", &EngineOutcome::Solved(vec![0.5f32, 1.5, 2.5]), &mut out);
    assert_eq!(s, Err(ErrorCode::InvalidId));
    assert_eq!(solve_code(&s), -1);
    assert_eq!(out, [9.0, 9.0, 9.0]);
}

#[test]
fn solve_with_malformed_frame_text_is_minus_one_and_writes_nothing() {
    let table = table_with(3);
    let mut out = [9.0f32; 3];
    let s = table.solve(0, &[0xed, 0xa0, 0x80], &EngineOutcome::Solved(vec![0.5f32, 1.5, 2.5]), &mut out);
    assert_eq!(s, Err(ErrorCode::EncodingError));
    assert_eq!(solve_code(&s), -1);
    assert_eq!(out, [9.0, 9.0, 9.0]);
}

#[test]
fn solve_passes_on_the_code_of_an_engine_failure() {
    let table = table_with(2);
    let mut out = [9.0f32; 2];
    for code in [-7, -1, 1, 3, 5, 42] {
        let s = table.solve(0, b"gripper", &EngineOutcome::Failed(code), &mut out);
        assert_eq!(s, Err(ErrorCode::EngineFailure(code)));
        assert_eq!(solve_code(&s), code);
        assert_eq!(out, [9.0, 9.0]);
    }
}

#[test]
fn solve_reports_an_engine_failure_without_a_code_as_unexpected() {
    let table = table_with(2);
    let mut out = [9.0f32; 2];
    let s = table.solve(0, b"gripper", &EngineOutcome::Failed(0), &mut out);
    assert_eq!(s, Err(ErrorCode::UnexpectedFailure));
    assert_eq!(solve_code(&s), 7);
    assert_eq!(out, [9.0, 9.0]);
}

#[test]
fn solve_reports_a_caught_panic_as_seven() {
    let table = table_with(2);
    let mut out = [9.0f32; 2];
    let s = table.solve(0, b"gripper", &EngineOutcome::Panicked, &mut out);
    assert_eq!(s, Err(ErrorCode::UnexpectedFailure));
    assert_eq!(solve_code(&s), 7);
    assert_eq!(out, [9.0, 9.0]);
}

#[test]
fn solve_reports_a_vector_of_the_wrong_length_as_unexpected() {
    let table = table_with(2);
    let mut out = [9.0f32; 2];
    let short = table.solve(0, b"gripper", &EngineOutcome::Solved(vec![1.0f32]), &mut out);
    assert_eq!(short, Err(ErrorCode::UnexpectedFailure));
    let long = table.solve(0, b"gripper", &EngineOutcome::Solved(vec![1.0f32, 2.0, 3.0]), &mut out);
    assert_eq!(solve_code(&long), 7);
    assert_eq!(out, [9.0, 9.0]);
}

#[test]
fn init_refuses_a_negative_declared_dof() {
    let mut table = RobotTable::new();
    for count in [-1, -2, i32::MIN] {
        let r = table.init(URDF, count, frames(&["gripper"]));
        assert_eq!(r, Err(ErrorCode::InitError));
        assert_eq!(init_code(&r), -1);
    }
    assert_eq!(table.len(), 0);
    assert_eq!(table.dof(0, b"gripper"), -1);
    assert_eq!(table.init(URDF, 0, frames(&["gripper"])), Ok(0));
    assert_eq!(table.dof(0, b"gripper"), 0);
}

#[test]
fn init_reports_malformed_text_before_a_negative_dof() {
    let mut table = RobotTable::new();
    let r = table.init(&[0xff], -1, frames(&["gripper"]));
    assert_eq!(init_code(&r), 5);
}

#[test]
fn a_reachable_target_by_id_gives_back_the_current_joints() {
    let table = table_with(1);
    let current = [0.75f32];
    let req = table.solve_request(0, &current, b"gripper", &POSE).unwrap();
    let mut out = [0.0f32];
    let s = table.solve(0, b"gripper", &EngineOutcome::Solved(req.seed), &mut out);
    assert_eq!(solve_code(&s), 0);
    assert_eq!(out, current);
}

#[test]
fn an_unreachable_target_by_id_is_not_zero_and_changes_nothing() {
    let table = table_with(1);
    let mut out = [0.125f32];
    let s = table.solve(0, b"gripper", &EngineOutcome::<f32>::Failed(2), &mut out);
    assert_ne!(solve_code(&s), 0);
    assert_eq!(out, [0.125]);
    assert_eq!(table.dof(0, b"gripper"), 1);
}

#[test]
fn len_counts_the_robots_and_names_the_next_id() {
    let mut table = RobotTable::new();
    assert_eq!(table.len(), 0);
    assert_eq!(table.init(URDF, 6, frames(&["gripper"])), Ok(0));
    assert_eq!(table.len(), 1);
    assert!(table.init(URDF, 6, Registration::Rejected).is_err());
    assert_eq!(table.len(), 1);
    assert_eq!(table.init(URDF, 6, frames(&["gripper"])), Ok(1));
    assert_eq!(table.len(), 2);
}

#[test]
fn urdf_is_the_text_the_robot_was_registered_with() {
    let mut table = RobotTable::new();
    assert_eq!(table.init(b"<robot name=\"a\"/>", 1, frames(&["tip"])), Ok(0));
    assert_eq!(table.init("<robot name=\"b\u{e4}r\"/>".as_bytes(), 1, frames(&["tip"])), Ok(1));
    assert_eq!(table.urdf(0), Some("<robot name=\"a\"/>"));
    assert_eq!(table.urdf(1), Some("<robot name=\"b\u{e4}r\"/>"));
    assert_eq!(table.urdf(2), None);
    assert_eq!(table.urdf(-1), None);
}
