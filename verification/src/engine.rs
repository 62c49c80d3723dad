//! What the kinematics engine answers.
//!
//! The engine is called outside this crate. Its answers come back as these
//! values, and the functions that take them are verified for every answer.

use vstd::prelude::*;

use crate::joints::fits;
use crate::status::ErrorCode;

verus! {

/// How one call of the engine's solver ended.
#[derive(Debug)]
pub enum EngineOutcome<T> {
    /// The solver converged; these are the joint angles it found.
    Solved(Vec<T>),
    /// The solver gave up and reported this code of its own.
    Failed(i32),
    /// The call ended abnormally and was caught.
    Panicked,
}

/// How the engine answered a request to register a robot.
#[derive(Debug)]
pub enum Registration {
    /// The configuration was accepted; these are the names of the frames
    /// that can be solved for.
    Accepted(Vec<String>),
    /// The configuration was refused.
    Rejected,
}

/// Whether the engine's answer is a joint vector that fits a solver of `dof`
/// joints. Only such an answer makes a solve succeed.
pub open spec fn solved<T>(dof: int, outcome: EngineOutcome<T>) -> bool {
    outcome matches EngineOutcome::Solved(q) && fits(q@, dof)
}

/// What a solve by id reports for the engine's answer, once the id and the
/// frame have been found good: success for a joint vector that fits, the
/// engine's own code for a failure that carries one other than zero, and
/// `ErrorCode::UnexpectedFailure` for everything else.
pub open spec fn answer<T>(dof: int, outcome: EngineOutcome<T>) -> Result<(), ErrorCode> {
    match outcome {
        EngineOutcome::Solved(q) => if fits(q@, dof) {
            Ok(())
        } else {
            Err(ErrorCode::UnexpectedFailure)
        },
        EngineOutcome::Failed(code) => if code != 0 {
            Err(ErrorCode::EngineFailure(code))
        } else {
            Err(ErrorCode::UnexpectedFailure)
        },
        EngineOutcome::Panicked => Err(ErrorCode::UnexpectedFailure),
    }
}

/// What a sequence of names spells, name by name.
pub open spec fn names_of(frames: Seq<String>) -> Seq<Seq<char>> {
    frames.map_values(|s: String| s@)
}

} // verus!
