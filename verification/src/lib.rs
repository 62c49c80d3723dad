//! The boundary between foreign callers and an inverse-kinematics engine.
//!
//! The engine itself (chain construction, the numerical solver, collision
//! checks) lives outside this crate. What lives here is the protocol around
//! it: which handles and ids are valid, how text and numeric buffers are
//! checked and laid out before the engine sees them, what is written back
//! afterwards, and which integer each way of failing is reported as.
//!
//! Every operation that needs the engine is split around the engine call:
//! one function prepares what the engine is given, and one takes what the
//! engine answered and decides what the caller is told.

pub mod engine;
pub mod handles;
pub mod joints;
pub mod pose;
pub mod robots;
pub mod status;
pub mod text;

pub use engine::{EngineOutcome, Registration};
pub use handles::{
    deallocate, dof, ee_frame, new_solver, set_self_collision, solve, solve_request, Handle,
    HandleRegistry, SolveRequest,
};
pub use joints::{read_joints, write_joints};
pub use pose::Pose;
pub use robots::{RobotSolveRequest, RobotTable};
pub use status::{init_code, solve_code, ErrorCode};
pub use text::parse_c_str;
