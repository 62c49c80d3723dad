//! Robots that foreign callers name by a small integer id and a frame.
//!
//! Registering a robot appends it to a table, and its id is its place in
//! the table. Nothing is ever removed or moved, so an id names the same
//! robot for as long as the table exists. A robot is solved for one of the
//! frames that the engine named when it accepted the robot; a frame it did
//! not name is turned away, never replaced by another.

use vstd::prelude::*;
use vstd::string::*;

use crate::engine::{answer, names_of, solved, EngineOutcome, Registration};
use crate::joints::{read_joints, write_joints};
use crate::pose::Pose;
use crate::status::{
    spec_init_code, spec_solve_code, ErrorCode, CODE_INIT_ENCODING, CODE_SOLVE_REJECTED,
    CODE_SUCCESS, CODE_UNEXPECTED, INVALID_DOF,
};
use crate::text::{is_text, parse_c_str, text_of};

verus! {

/// The largest number of robots a table holds: every id is an `i32` that is
/// not negative.
pub const MAX_ROBOTS: usize = 0x7fff_ffff;

/// What the table knows of one robot.
pub struct RobotModel {
    /// The description the robot was registered with.
    pub urdf: Seq<char>,
    /// The number of joints the robot was declared with.
    pub dof: int,
    /// The frames the robot can be solved for.
    pub frames: Seq<Seq<char>>,
}

/// Whether the id names a robot and the frame is one of that robot's.
pub open spec fn knows(table: Seq<RobotModel>, id: int, frame: Seq<char>) -> bool {
    0 <= id < table.len() && table[id].frames.contains(frame)
}

/// The joint count reported for an id and the bytes of a frame name: the
/// robot's declared count if the bytes are text that names one of the
/// robot's frames, `INVALID_DOF` otherwise.
pub open spec fn spec_dof(table: Seq<RobotModel>, id: int, frame: Seq<u8>) -> int {
    if is_text(frame) && knows(table, id, text_of(frame)) {
        table[id].dof
    } else {
        INVALID_DOF as int
    }
}

/// Whether a solve for the id and the frame may go to the engine, and the
/// error it fails with if it may not.
pub open spec fn admits(table: Seq<RobotModel>, id: int, frame: Seq<u8>) -> Result<
    (),
    ErrorCode,
> {
    if !is_text(frame) {
        Err(ErrorCode::EncodingError)
    } else if spec_dof(table, id, frame) < 0 {
        Err(ErrorCode::InvalidId)
    } else {
        Ok(())
    }
}

/// Whether every robot of the table has a number of joints that is not
/// negative.
pub open spec fn counts_are_not_negative(table: Seq<RobotModel>) -> bool {
    forall|id: int| 0 <= id < table.len() ==> (#[trigger] table[id]).dof >= 0
}

/// The result of registering a robot: the next free id if the description
/// is text, the declared number of joints is not negative, the engine
/// accepted the robot and the table has room.
pub open spec fn spec_init(
    table: Seq<RobotModel>,
    urdf: Seq<u8>,
    dof: i32,
    registration: Registration,
) -> Result<i32, ErrorCode> {
    if !is_text(urdf) {
        Err(ErrorCode::EncodingError)
    } else if dof < 0 || registration is Rejected || table.len() >= MAX_ROBOTS {
        Err(ErrorCode::InitError)
    } else {
        Ok(table.len() as i32)
    }
}

/// The robot that `init` appends for its arguments.
pub open spec fn registered_model(urdf: Seq<u8>, dof: i32, registration: Registration) -> RobotModel
    recommends
        registration is Accepted,
{
    RobotModel {
        urdf: text_of(urdf),
        dof: dof as int,
        frames: names_of(registration->Accepted_0@),
    }
}

/// The result of a solve for an id and a frame, given what the engine
/// answered.
pub open spec fn spec_solve<T>(
    table: Seq<RobotModel>,
    id: int,
    frame: Seq<u8>,
    outcome: EngineOutcome<T>,
) -> Result<(), ErrorCode> {
    match admits(table, id, frame) {
        Err(e) => Err(e),
        Ok(_) => answer(spec_dof(table, id, frame), outcome),
    }
}

struct RobotEntry {
    urdf: String,
    dof: i32,
    frames: Vec<String>,
}

impl RobotEntry {
    spec fn model(self) -> RobotModel {
        RobotModel { urdf: self.urdf@, dof: self.dof as int, frames: names_of(self.frames@) }
    }

    /// Whether `frame` is one of the robot's frames.
    fn has_frame(&self, frame: &str) -> (found: bool)
        ensures
            found == self.model().frames.contains(frame@),
    {
        let wanted = frame.to_owned();
        let mut i: usize = 0;
        while i < self.frames.len()
            invariant
                i <= self.frames@.len(),
                wanted@ == frame@,
                forall|j: int| 0 <= j < i ==> self.model().frames[j] != frame@,
            decreases self.frames@.len() - i,
        {
            if self.frames[i] == wanted {
                assert(self.model().frames[i as int] == frame@);
                return true;
            }
            i = i + 1;
        }
        false
    }
}

/// What is handed to the engine for one solve by id.
#[derive(Debug)]
pub struct RobotSolveRequest<T> {
    /// The robot to solve for.
    pub id: i32,
    /// The frame whose pose is solved for.
    pub frame: String,
    /// The current joint angles, from which the solver starts.
    pub seed: Vec<T>,
    /// The pose the frame is to reach.
    pub target: Pose<T>,
}

/// The robots that have been registered, in the order of their ids.
pub struct RobotTable {
    entries: Vec<RobotEntry>,
}

impl View for RobotTable {
    type V = Seq<RobotModel>;

    closed spec fn view(&self) -> Seq<RobotModel> {
        self.entries@.map_values(|e: RobotEntry| e.model())
    }
}

impl RobotTable {
    /// No robot in the table has a negative number of joints.
    #[verifier::type_invariant]
    spec fn sound(&self) -> bool {
        forall|i: int| 0 <= i < self.entries@.len() ==> (#[trigger] self.entries@[i]).dof >= 0
    }

    /// A table with no robot in it.
    pub fn new() -> (table: RobotTable)
        ensures
            table@ == Seq::<RobotModel>::empty(),
    {
        let table = RobotTable { entries: Vec::new() };
        assert(table@ =~= Seq::<RobotModel>::empty());
        table
    }

    /// The number of robots registered so far, which is also the id the
    /// next one gets.
    pub fn len(&self) -> (n: usize)
        ensures
            n == self@.len(),
    {
        self.entries.len()
    }

    /// The description the robot `id` was registered with, or `None` if the
    /// id names no robot.
    pub fn urdf(&self, id: i32) -> (r: Option<&str>)
        ensures
            r is Some <==> 0 <= id < self@.len(),
            r matches Some(text) ==> text@ == self@[id as int].urdf,
    {
        if id < 0 || id as usize >= self.entries.len() {
            return None;
        }
        let entry = &self.entries[id as usize];
        assert(self@[id as int] == entry.model());
        Some(entry.urdf.as_str())
    }

    /// Checks the bytes of a frame name and looks the frame up under the
    /// id. Gives the robot's joint count, which is not negative.
    fn lookup(&self, id: i32, frame: &[u8]) -> (r: Result<i32, ErrorCode>)
        ensures
            r is Ok <==> admits(self@, id as int, frame@) is Ok,
            r matches Ok(d) ==> d == spec_dof(self@, id as int, frame@),
            r matches Err(e) ==> admits(self@, id as int, frame@) == Err::<(), ErrorCode>(e),
    {
        proof {
            use_type_invariant(self);
        }
        let name = match parse_c_str(frame) {
            Ok(s) => s,
            Err(e) => {
                return Err(e);
            },
        };
        if id < 0 || id as usize >= self.entries.len() {
            return Err(ErrorCode::InvalidId);
        }
        let entry = &self.entries[id as usize];
        assert(self@[id as int] == entry.model());
        if !entry.has_frame(name) {
            return Err(ErrorCode::InvalidId);
        }
        Ok(entry.dof)
    }

    /// Registers a robot that the engine was asked to accept.
    ///
    /// `urdf` is the bytes of the description, `dof` the number of joints
    /// the caller declares, and `registration` what the engine answered.
    /// Fails with `ErrorCode::EncodingError` exactly when `urdf` is not
    /// well-formed text; otherwise with `ErrorCode::InitError` exactly when
    /// the declared number of joints is negative, the engine refused or the
    /// table is full. A failure changes nothing. On success the robot is
    /// appended and its id, the number of robots registered before it, is
    /// returned.
    pub fn init(&mut self, urdf: &[u8], dof: i32, registration: Registration) -> (r: Result<
        i32,
        ErrorCode,
    >)
        ensures
            r == spec_init(old(self)@, urdf@, dof, registration),
            r is Ok ==> final(self)@ == old(self)@.push(registered_model(urdf@, dof, registration)),
            r is Err ==> final(self)@ == old(self)@,
            counts_are_not_negative(final(self)@),
    {
        proof {
            use_type_invariant(&*self);
        }
        let text = match parse_c_str(urdf) {
            Ok(s) => s,
            Err(e) => {
                return Err(e);
            },
        };
        if dof < 0 {
            return Err(ErrorCode::InitError);
        }
        let frames = match registration {
            Registration::Accepted(frames) => frames,
            Registration::Rejected => {
                return Err(ErrorCode::InitError);
            },
        };
        if self.entries.len() >= MAX_ROBOTS {
            return Err(ErrorCode::InitError);
        }
        let id: i32 = self.entries.len() as i32;
        let mut entries: Vec<RobotEntry> = Vec::new();
        core::mem::swap(&mut self.entries, &mut entries);
        entries.push(RobotEntry { urdf: text.to_owned(), dof, frames });
        core::mem::swap(&mut self.entries, &mut entries);
        assert(self@ =~= old(self)@.push(registered_model(urdf@, dof, registration)));
        Ok(id)
    }

    /// The declared joint count of the robot `id`, which is not negative,
    /// if `frame` is text that names one of its frames; `INVALID_DOF`
    /// otherwise.
    pub fn dof(&self, id: i32, frame: &[u8]) -> (d: i32)
        ensures
            d == spec_dof(self@, id as int, frame@),
            d >= 0 <==> is_text(frame@) && knows(self@, id as int, text_of(frame@)),
            counts_are_not_negative(self@),
    {
        proof {
            use_type_invariant(self);
            assert forall|i: int| 0 <= i < self@.len() implies (#[trigger] self@[i]).dof >= 0 by {
                assert(self@[i] == self.entries@[i].model());
            }
        }
        let name = match parse_c_str(frame) {
            Ok(s) => s,
            Err(_) => {
                return INVALID_DOF;
            },
        };
        if id < 0 || id as usize >= self.entries.len() {
            return INVALID_DOF;
        }
        let entry = &self.entries[id as usize];
        assert(self@[id as int] == entry.model());
        if entry.has_frame(name) {
            entry.dof
        } else {
            INVALID_DOF
        }
    }

    /// Prepares a solve by id: checks the frame text, the id and the frame,
    /// and lays out what the engine is given.
    ///
    /// Fails with `ErrorCode::EncodingError` exactly when `frame` is not
    /// well-formed text; otherwise with `ErrorCode::InvalidId` exactly when
    /// the id names no robot or the frame is not one of the robot's.
    /// Otherwise the request holds the frame as text, a copy of all of
    /// `current_q`, and the pose that `trans` states.
    pub fn solve_request<T: Copy>(
        &self,
        id: i32,
        current_q: &[T],
        frame: &[u8],
        trans: &[T; 7],
    ) -> (r: Result<RobotSolveRequest<T>, ErrorCode>)
        requires
            spec_dof(self@, id as int, frame@) >= 0 ==> current_q@.len() == spec_dof(
                self@,
                id as int,
                frame@,
            ),
        ensures
            r is Ok <==> admits(self@, id as int, frame@) is Ok,
            r matches Err(e) ==> admits(self@, id as int, frame@) == Err::<(), ErrorCode>(e),
            r matches Ok(req) ==> {
                &&& req.id == id
                &&& req.frame@ == text_of(frame@)
                &&& req.seed@ == current_q@
                &&& req.target == Pose::<T>::spec_from_seq(trans@)
            },
    {
        let d: i32 = match self.lookup(id, frame) {
            Ok(d) => d,
            Err(e) => {
                return Err(e);
            },
        };
        let name = match parse_c_str(frame) {
            Ok(s) => s,
            Err(e) => {
                return Err(e);
            },
        };
        match read_joints(current_q, d) {
            Some(seed) => Ok(
                RobotSolveRequest {
                    id,
                    frame: name.to_owned(),
                    seed,
                    target: Pose::from_array(trans),
                },
            ),
            None => Err(ErrorCode::InvalidId),
        }
    }

    /// Finishes a solve by id: takes what the engine answered and tells the
    /// caller.
    ///
    /// The frame text, the id and the frame are checked as for the
    /// request, and fail in the same way. Past that check, the result goes
    /// by the engine's answer: a joint vector with as many elements as the
    /// robot has joints is written to `q_out`, all of it, and the solve
    /// succeeds; a failure with a code other than zero is passed on; every
    /// other answer is `ErrorCode::UnexpectedFailure`. Unless the solve
    /// succeeds, `q_out` is left as it was.
    pub fn solve<T: Copy>(
        &self,
        id: i32,
        frame: &[u8],
        outcome: &EngineOutcome<T>,
        q_out: &mut [T],
    ) -> (r: Result<(), ErrorCode>)
        requires
            spec_dof(self@, id as int, frame@) >= 0 ==> old(q_out)@.len() == spec_dof(
                self@,
                id as int,
                frame@,
            ),
        ensures
            r == spec_solve(self@, id as int, frame@, *outcome),
            r is Ok ==> final(q_out)@ == outcome->Solved_0@ && final(q_out)@.len() == spec_dof(
                self@,
                id as int,
                frame@,
            ),
            r is Err ==> final(q_out)@ == old(q_out)@,
    {
        let d: i32 = match self.lookup(id, frame) {
            Ok(d) => d,
            Err(e) => {
                return Err(e);
            },
        };
        match outcome {
            EngineOutcome::Solved(q) => {
                if write_joints(q.as_slice(), d, q_out) {
                    Ok(())
                } else {
                    Err(ErrorCode::UnexpectedFailure)
                }
            },
            EngineOutcome::Failed(code) => {
                if *code != 0 {
                    Err(ErrorCode::EngineFailure(*code))
                } else {
                    Err(ErrorCode::UnexpectedFailure)
                }
            },
            EngineOutcome::Panicked => Err(ErrorCode::UnexpectedFailure),
        }
    }
}

/// An id that names no robot gets no joint count, and no answer of the
/// engine makes a solve for it succeed. After a registration that failed,
/// this holds of every id from the number of robots on.
pub proof fn lemma_unregistered_id_fails<T>(
    table: Seq<RobotModel>,
    id: int,
    frame: Seq<u8>,
    outcome: EngineOutcome<T>,
)
    requires
        !(0 <= id < table.len()),
    ensures
        spec_dof(table, id, frame) == INVALID_DOF,
        spec_solve(table, id, frame, outcome) is Err,
        spec_solve_code(spec_solve(table, id, frame, outcome)) == CODE_SOLVE_REJECTED,
{
}

/// Registering a robot with text that is not well-formed fails with
/// `ErrorCode::EncodingError`, which is reported as `CODE_INIT_ENCODING`,
/// whatever the engine answered.
pub proof fn lemma_init_rejects_bad_text(
    table: Seq<RobotModel>,
    urdf: Seq<u8>,
    dof: i32,
    registration: Registration,
)
    requires
        !is_text(urdf),
    ensures
        spec_init(table, urdf, dof, registration) == Err::<i32, ErrorCode>(ErrorCode::EncodingError),
        spec_init_code(spec_init(table, urdf, dof, registration)) == CODE_INIT_ENCODING,
{
}

/// The id of a newly registered robot is not negative, is reported as
/// itself, and is the first id that named nothing before.
pub proof fn lemma_init_id_is_next(
    table: Seq<RobotModel>,
    urdf: Seq<u8>,
    dof: i32,
    registration: Registration,
)
    requires
        spec_init(table, urdf, dof, registration) is Ok,
    ensures
        spec_init(table, urdf, dof, registration)->Ok_0 == table.len(),
        spec_init_code(spec_init(table, urdf, dof, registration)) >= 0,
        spec_init_code(spec_init(table, urdf, dof, registration)) == table.len(),
{
}

/// An id names the same robot after another robot is registered: its joint
/// counts and the results of its solves are what they were.
pub proof fn lemma_registered_robots_stay<T>(
    table: Seq<RobotModel>,
    robot: RobotModel,
    id: int,
    frame: Seq<u8>,
    outcome: EngineOutcome<T>,
)
    requires
        0 <= id < table.len(),
    ensures
        table.push(robot)[id] == table[id],
        spec_dof(table.push(robot), id, frame) == spec_dof(table, id, frame),
        spec_solve(table.push(robot), id, frame, outcome) == spec_solve(table, id, frame, outcome),
{
}

/// A solve for a frame that is not one of the robot's fails with
/// `ErrorCode::InvalidId`, and one whose frame is not well-formed text with
/// `ErrorCode::EncodingError`, whatever the engine answered. Both are
/// reported as `CODE_SOLVE_REJECTED`.
pub proof fn lemma_bad_frame_is_rejected<T>(
    table: Seq<RobotModel>,
    id: int,
    frame: Seq<u8>,
    outcome: EngineOutcome<T>,
)
    requires
        !is_text(frame) || !knows(table, id, text_of(frame)),
    ensures
        !is_text(frame) ==> spec_solve(table, id, frame, outcome) == Err::<(), ErrorCode>(
            ErrorCode::EncodingError,
        ),
        is_text(frame) ==> spec_solve(table, id, frame, outcome) == Err::<(), ErrorCode>(
            ErrorCode::InvalidId,
        ),
        spec_solve_code(spec_solve(table, id, frame, outcome)) == CODE_SOLVE_REJECTED,
{
}

/// Past the check of the id and the frame, a caught abnormal end of the
/// engine is reported as `CODE_UNEXPECTED`, and a solve reports
/// `CODE_SUCCESS` only for a joint vector that fits.
pub proof fn lemma_engine_answer_codes<T>(dof: int, outcome: EngineOutcome<T>)
    ensures
        outcome is Panicked ==> spec_solve_code(answer(dof, outcome)) == CODE_UNEXPECTED,
        spec_solve_code(answer(dof, outcome)) == CODE_SUCCESS <==> solved(dof, outcome),
        outcome matches EngineOutcome::Failed(code) ==> code != 0 ==> spec_solve_code(
            answer(dof, outcome),
        ) == code,
{
}

/// In a table whose robots all have joint counts that are not negative, a
/// joint count that is not negative is reported exactly for an id and a
/// frame that name something, and a solve is turned away with
/// `ErrorCode::InvalidId` only for an id or a frame that names nothing.
pub proof fn lemma_dof_tells_known_from_unknown(table: Seq<RobotModel>, id: int, frame: Seq<u8>)
    requires
        counts_are_not_negative(table),
    ensures
        spec_dof(table, id, frame) >= 0 <==> is_text(frame) && knows(table, id, text_of(frame)),
        spec_dof(table, id, frame) < 0 ==> spec_dof(table, id, frame) == INVALID_DOF,
        admits(table, id, frame) == Err::<(), ErrorCode>(ErrorCode::InvalidId) <==> is_text(frame)
            && !knows(table, id, text_of(frame)),
{
}

/// Registering a robot keeps every joint count of the table not negative.
pub proof fn lemma_init_keeps_counts(
    table: Seq<RobotModel>,
    urdf: Seq<u8>,
    dof: i32,
    registration: Registration,
)
    requires
        counts_are_not_negative(table),
        spec_init(table, urdf, dof, registration) is Ok,
    ensures
        counts_are_not_negative(table.push(registered_model(urdf, dof, registration))),
{
}

} // verus!
