//! The closed set of ways an operation can fail, and the integers they are
//! reported as.

use vstd::prelude::*;

verus! {

/// Reported by a successful solve.
pub const CODE_SUCCESS: i32 = 0;

/// Reported when registering a robot is given text that is not well-formed.
pub const CODE_INIT_ENCODING: i32 = 5;

/// Reported when the engine refuses to register a robot.
pub const CODE_INIT_FAILED: i32 = -1;

/// Reported by a solve whose frame text is not well-formed, or whose id or
/// frame names nothing.
pub const CODE_SOLVE_REJECTED: i32 = -1;

/// Reported when the engine ended abnormally.
pub const CODE_UNEXPECTED: i32 = 7;

/// Reported in place of a joint count for a handle, id or frame that names
/// nothing.
pub const INVALID_DOF: i32 = -1;

/// Why an operation did not succeed.
#[derive(Clone, Copy, Debug, PartialEq, Eq, Structural)]
pub enum ErrorCode {
    /// Text supplied by the caller is not well-formed UTF-8.
    EncodingError,
    /// The id or the frame names nothing in the table.
    InvalidId,
    /// The engine refused to register the configuration.
    InitError,
    /// The engine's solve ended with the engine's own code.
    EngineFailure(i32),
    /// The engine ended abnormally, or answered something it may not answer.
    UnexpectedFailure,
}

/// The integer that stands for the result of registering a robot: the id on
/// success, `CODE_INIT_ENCODING` for malformed text, `CODE_INIT_FAILED` for
/// every other failure.
pub open spec fn spec_init_code(r: Result<i32, ErrorCode>) -> i32 {
    match r {
        Ok(id) => id,
        Err(ErrorCode::EncodingError) => CODE_INIT_ENCODING,
        Err(_) => CODE_INIT_FAILED,
    }
}

/// The integer that stands for the result of a solve by id.
///
/// Zero is kept for success alone: an engine failure that carries the code
/// zero is reported as `CODE_UNEXPECTED`.
pub open spec fn spec_solve_code(r: Result<(), ErrorCode>) -> i32 {
    match r {
        Ok(_) => CODE_SUCCESS,
        Err(ErrorCode::EngineFailure(code)) => if code != 0 {
            code
        } else {
            CODE_UNEXPECTED
        },
        Err(ErrorCode::UnexpectedFailure) => CODE_UNEXPECTED,
        Err(_) => CODE_SOLVE_REJECTED,
    }
}

/// Flattens the result of registering a robot into the integer handed to a
/// foreign caller.
pub fn init_code(r: &Result<i32, ErrorCode>) -> (code: i32)
    ensures
        code == spec_init_code(*r),
{
    match r {
        Ok(id) => *id,
        Err(ErrorCode::EncodingError) => CODE_INIT_ENCODING,
        Err(_) => CODE_INIT_FAILED,
    }
}

/// Flattens the result of a solve by id into the integer handed to a foreign
/// caller.
pub fn solve_code(r: &Result<(), ErrorCode>) -> (code: i32)
    ensures
        code == spec_solve_code(*r),
{
    match r {
        Ok(_) => CODE_SUCCESS,
        Err(ErrorCode::EngineFailure(code)) => {
            if *code != 0 {
                *code
            } else {
                CODE_UNEXPECTED
            }
        },
        Err(ErrorCode::UnexpectedFailure) => CODE_UNEXPECTED,
        Err(_) => CODE_SOLVE_REJECTED,
    }
}

/// A solve reports zero exactly when it succeeded.
pub proof fn lemma_solve_code_zero_iff_ok(r: Result<(), ErrorCode>)
    ensures
        spec_solve_code(r) == CODE_SUCCESS <==> r is Ok,
{
}

/// A negative integer from registering a robot is never the id of a robot
/// that was registered with a non-negative id.
pub proof fn lemma_init_code_negative_is_failure(r: Result<i32, ErrorCode>)
    requires
        r matches Ok(id) ==> id >= 0,
    ensures
        spec_init_code(r) < 0 ==> r is Err,
        r is Ok ==> spec_init_code(r) == r->Ok_0,
{
}

} // verus!
