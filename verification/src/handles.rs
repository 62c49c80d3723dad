//! Solvers that foreign callers hold by handle.
//!
//! A handle names one slot of a registry and one generation of that slot.
//! Destroying a solver empties its slot; the next solver to use the slot
//! gets the next generation. A handle that was destroyed therefore never
//! names a solver again, and every operation on it is turned away like an
//! operation on the null handle.
//!
//! The registry keeps what the boundary decides by: the frame a solver was
//! bound to, its number of joints and its self-collision flag. The chain
//! and the solver's working state stay with the engine.

use vstd::prelude::*;
use vstd::string::*;

use crate::engine::{answer, solved, EngineOutcome};
use crate::joints::{read_joints, write_joints};
use crate::pose::Pose;
use crate::status::{ErrorCode, INVALID_DOF};
use crate::text::{is_text, parse_c_str, text_of};

verus! {

/// Names a solver in a `HandleRegistry`.
#[derive(Clone, Copy, Debug, PartialEq, Eq, Hash, Structural)]
pub struct Handle {
    /// The slot of the registry.
    pub index: usize,
    /// Which occupant of the slot is meant. Occupants are counted from one.
    pub generation: u64,
}

impl Handle {
    /// The handle that names no solver in any registry.
    pub open spec fn spec_null() -> Handle {
        Handle { index: 0, generation: 0 }
    }

    /// The handle that names no solver in any registry.
    #[verifier::when_used_as_spec(spec_null)]
    pub fn null() -> (h: Handle)
        ensures
            h == Handle::spec_null(),
    {
        Handle { index: 0, generation: 0 }
    }
}

/// What the registry knows of one live solver.
pub struct SolverModel {
    /// The end-effector frame the solver was bound to.
    pub ee_frame: Seq<char>,
    /// The number of joints the engine reported for the chain.
    pub dof: int,
    /// Whether solves check for self-collision.
    pub self_collision: bool,
}

/// What a registry stands for: the solvers that are live, and every handle
/// it has ever given out.
#[verifier::ext_equal]
pub struct RegistryModel {
    pub live: Map<Handle, SolverModel>,
    pub issued: Set<Handle>,
}

/// One change to a registry.
pub enum RegistryOp {
    /// A new solver is registered under a handle.
    Create(Handle, SolverModel),
    /// The self-collision flag of a solver is set.
    SetSelfCollision(Handle, bool),
    /// A solver is destroyed.
    Destroy(Handle),
}

impl RegistryOp {
    /// The handle the change is about.
    pub open spec fn target(self) -> Handle {
        match self {
            RegistryOp::Create(h, _) => h,
            RegistryOp::SetSelfCollision(h, _) => h,
            RegistryOp::Destroy(h) => h,
        }
    }
}

impl RegistryModel {
    /// The registry that has given out no handle.
    pub open spec fn empty() -> RegistryModel {
        RegistryModel { live: Map::empty(), issued: Set::empty() }
    }

    /// Every live handle was given out, no handle of generation zero ever
    /// was, and no live solver has a negative number of joints.
    pub open spec fn wf(self) -> bool {
        &&& forall|h: Handle| #[trigger] self.live.contains_key(h) ==> self.issued.contains(h)
        &&& forall|h: Handle| #[trigger] self.issued.contains(h) ==> h.generation >= 1
        &&& forall|h: Handle| #[trigger] self.live.contains_key(h) ==> self.live[h].dof >= 0
    }

    /// Whether the handle names a solver.
    pub open spec fn is_live(self, h: Handle) -> bool {
        self.live.contains_key(h)
    }

    /// The joint count reported for a handle: the solver's own for a live
    /// handle, `INVALID_DOF` for any other.
    pub open spec fn dof(self, h: Handle) -> int {
        if self.is_live(h) {
            self.live[h].dof
        } else {
            INVALID_DOF as int
        }
    }

    /// Whether the change can happen: a solver is only ever registered
    /// under a handle that was never given out before, and only with a
    /// number of joints that is not negative.
    pub open spec fn enabled(self, op: RegistryOp) -> bool {
        match op {
            RegistryOp::Create(h, m) => !self.issued.contains(h) && h.generation >= 1 && m.dof
                >= 0,
            _ => true,
        }
    }

    /// The registry after the change. Setting the flag of a handle that is
    /// not live, and destroying one, change nothing.
    pub open spec fn apply(self, op: RegistryOp) -> RegistryModel {
        match op {
            RegistryOp::Create(h, m) => RegistryModel {
                live: self.live.insert(h, m),
                issued: self.issued.insert(h),
            },
            RegistryOp::SetSelfCollision(h, flag) => if self.is_live(h) {
                RegistryModel {
                    live: self.live.insert(
                        h,
                        SolverModel {
                            ee_frame: self.live[h].ee_frame,
                            dof: self.live[h].dof,
                            self_collision: flag,
                        },
                    ),
                    issued: self.issued,
                }
            } else {
                self
            },
            RegistryOp::Destroy(h) => RegistryModel {
                live: self.live.remove(h),
                issued: self.issued,
            },
        }
    }
}

struct Solver {
    ee_frame: String,
    dof: i32,
    self_collision: bool,
}

impl Solver {
    spec fn model(self) -> SolverModel {
        SolverModel {
            ee_frame: self.ee_frame@,
            dof: self.dof as int,
            self_collision: self.self_collision,
        }
    }
}

struct Slot {
    /// The generation of the occupant, or of the last one if the slot is
    /// empty.
    generation: u64,
    solver: Option<Solver>,
}

/// The solvers that foreign callers hold, slot by slot.
pub struct HandleRegistry {
    slots: Vec<Slot>,
}

impl HandleRegistry {
    /// Whether the handle names the occupant of its slot.
    spec fn holds(&self, h: Handle) -> bool {
        &&& h.index < self.slots@.len()
        &&& h.generation >= 1
        &&& self.slots@[h.index as int].generation == h.generation
        &&& self.slots@[h.index as int].solver is Some
    }

    /// Whether the handle names an occupant, present or past, of its slot.
    spec fn gave_out(&self, h: Handle) -> bool {
        &&& h.index < self.slots@.len()
        &&& 1 <= h.generation <= self.slots@[h.index as int].generation
    }

    /// A registry with no solver in it.
    pub fn new() -> (reg: HandleRegistry)
        ensures
            reg@ == RegistryModel::empty(),
    {
        let reg = HandleRegistry { slots: Vec::new() };
        assert(reg@.live =~= Map::empty());
        assert(reg@.issued =~= Set::empty());
        reg
    }

    /// The first empty slot whose generations are not used up, or `None` if
    /// every slot is occupied or used up.
    fn reusable_slot(&self) -> (r: Option<usize>)
        ensures
            r is None <==> forall|j: int| 0 <= j < self.slots@.len() ==> !self.reusable(j),
            r matches Some(i) ==> {
                &&& i < self.slots@.len()
                &&& self.reusable(i as int)
                &&& forall|j: int| 0 <= j < i ==> !self.reusable(j)
            },
    {
        let mut i: usize = 0;
        while i < self.slots.len()
            invariant
                i <= self.slots@.len(),
                forall|j: int| 0 <= j < i ==> !self.reusable(j),
            decreases self.slots@.len() - i,
        {
            if self.slots[i].solver.is_none() && self.slots[i].generation < u64::MAX {
                assert(self.reusable(i as int));
                return Some(i);
            }
            i = i + 1;
        }
        None
    }

    /// The solver a handle names, if it names one.
    fn lookup(&self, h: Handle) -> (r: Option<&Solver>)
        ensures
            r is Some <==> self.holds(h),
            r matches Some(s) ==> s.model() == self@.live[h],
    {
        if h.index < self.slots.len() && h.generation >= 1 && self.slots[h.index].generation
            == h.generation {
            self.slots[h.index].solver.as_ref()
        } else {
            None
        }
    }
}

impl HandleRegistry {
    /// No solver in the registry has a negative number of joints.
    #[verifier::type_invariant]
    spec fn counts_are_not_negative(&self) -> bool {
        Self::sound(self.slots@)
    }

    /// Whether no solver among the slots has a negative number of joints.
    spec fn sound(slots: Seq<Slot>) -> bool {
        forall|i: int|
            0 <= i < slots.len() ==> ((#[trigger] slots[i]).solver matches Some(s) ==> s.dof
                >= 0)
    }

    /// Takes the slots out of the registry, to be changed and put back.
    fn take_slots(&mut self) -> (slots: Vec<Slot>)
        ensures
            slots@ == old(self).slots@,
            Self::sound(slots@),
            final(self).slots@.len() == 0,
    {
        proof {
            use_type_invariant(&*self);
        }
        let mut slots: Vec<Slot> = Vec::new();
        core::mem::swap(&mut self.slots, &mut slots);
        slots
    }

    /// Puts slots into the registry.
    fn put_slots(&mut self, slots: Vec<Slot>)
        requires
            Self::sound(slots@),
        ensures
            final(self).slots@ == slots@,
    {
        let mut slots = slots;
        core::mem::swap(&mut self.slots, &mut slots);
    }

    /// Whether the slot at `i` can take a new solver: it is empty, and its
    /// next generation exists.
    spec fn reusable(&self, i: int) -> bool {
        &&& 0 <= i < self.slots@.len()
        &&& self.slots@[i].solver is None
        &&& self.slots@[i].generation < u64::MAX
    }
}

impl View for HandleRegistry {
    type V = RegistryModel;

    closed spec fn view(&self) -> RegistryModel {
        RegistryModel {
            live: Map::new(
                |h: Handle| self.holds(h),
                |h: Handle| self.slots@[h.index as int].solver->Some_0.model(),
            ),
            issued: Set::new(|h: Handle| self.gave_out(h)),
        }
    }
}

/// What is handed to the engine for one solve.
#[derive(Debug)]
pub struct SolveRequest<T> {
    /// The current joint angles, from which the solver starts.
    pub seed: Vec<T>,
    /// The pose the end effector is to reach.
    pub target: Pose<T>,
    /// Whether the solve is to check for self-collision.
    pub self_collision: bool,
}

/// The solver model that `new_solver` registers for its arguments.
pub open spec fn created_model(ee_frame: Seq<u8>, dof: i32, self_collision: bool) -> SolverModel {
    SolverModel { ee_frame: text_of(ee_frame), dof: dof as int, self_collision }
}

/// The error `new_solver` fails with, if it fails: malformed text comes
/// first, a negative number of joints second.
pub open spec fn creation_error(urdf: Seq<u8>, ee_frame: Seq<u8>, dof: i32) -> Option<ErrorCode> {
    if !(is_text(urdf) && is_text(ee_frame)) {
        Some(ErrorCode::EncodingError)
    } else if dof < 0 {
        Some(ErrorCode::UnexpectedFailure)
    } else {
        None
    }
}

/// Registers a solver that the engine has built from `urdf` for the frame
/// `ee_frame`, and returns the handle that names it from now on.
///
/// `urdf` and `ee_frame` are the bytes the caller supplied. `dof` and
/// `self_collision` are what the engine reports of the solver it built.
/// Fails with `ErrorCode::EncodingError` exactly when one of the two texts
/// is not well-formed; otherwise with `ErrorCode::UnexpectedFailure`
/// exactly when the engine reports a negative number of joints. A failure
/// changes nothing. On success the handle is one that this registry has
/// never given out.
pub fn new_solver(
    reg: &mut HandleRegistry,
    urdf: &[u8],
    ee_frame: &[u8],
    dof: i32,
    self_collision: bool,
) -> (r: Result<Handle, ErrorCode>)
    ensures
        r is Ok <==> creation_error(urdf@, ee_frame@, dof) is None,
        r matches Ok(h) ==> {
            let op = RegistryOp::Create(h, created_model(ee_frame@, dof, self_collision));
            &&& old(reg)@.enabled(op)
            &&& final(reg)@ == old(reg)@.apply(op)
        },
        r matches Err(e) ==> creation_error(urdf@, ee_frame@, dof) == Some(e) && final(reg)@
            == old(reg)@,
        final(reg)@.wf(),
{
    proof {
        use_type_invariant(&*reg);
    }
    if parse_c_str(urdf).is_err() {
        return Err(ErrorCode::EncodingError);
    }
    let frame = match parse_c_str(ee_frame) {
        Ok(s) => s,
        Err(e) => {
            return Err(e);
        },
    };
    if dof < 0 {
        return Err(ErrorCode::UnexpectedFailure);
    }
    let solver = Solver { ee_frame: frame.to_owned(), dof, self_collision };
    let free = reg.reusable_slot();
    let mut slots = reg.take_slots();
    let h = match free {
        Some(i) => {
            let g: u64 = slots[i].generation + 1;
            slots.set(i, Slot { generation: g, solver: Some(solver) });
            Handle { index: i, generation: g }
        },
        None => {
            let i: usize = slots.len();
            slots.push(Slot { generation: 1, solver: Some(solver) });
            Handle { index: i, generation: 1 }
        },
    };
    reg.put_slots(slots);
    proof {
        let op = RegistryOp::Create(h, created_model(ee_frame@, dof, self_collision));
        assert(reg@.live =~= old(reg)@.apply(op).live);
        assert(reg@.issued =~= old(reg)@.apply(op).issued);
    }
    Ok(h)
}

/// Sets the self-collision flag of the solver that `h` names. Every solve
/// requested for `h` afterwards carries the new flag. If `h` names no
/// solver, nothing changes.
pub fn set_self_collision(reg: &mut HandleRegistry, h: Handle, self_collision: bool)
    ensures
        final(reg)@ == old(reg)@.apply(RegistryOp::SetSelfCollision(h, self_collision)),
        final(reg)@.wf(),
{
    proof {
        use_type_invariant(&*reg);
    }
    let mut slots = reg.take_slots();
    if h.index < slots.len() && h.generation >= 1 && slots[h.index].generation == h.generation {
        match &mut slots[h.index].solver {
            Some(s) => {
                s.self_collision = self_collision;
            },
            None => {},
        }
    }
    reg.put_slots(slots);
    proof {
        let op = RegistryOp::SetSelfCollision(h, self_collision);
        assert(reg@.live =~= old(reg)@.apply(op).live);
        assert(reg@.issued =~= old(reg)@.apply(op).issued);
    }
}

/// The number of joints of the solver that `h` names, which is not
/// negative, or `INVALID_DOF` if `h` names none.
pub fn dof(reg: &HandleRegistry, h: Handle) -> (d: i32)
    ensures
        d == reg@.dof(h),
        d >= 0 <==> reg@.is_live(h),
        h == Handle::null() ==> d == INVALID_DOF,
        reg@.wf(),
{
    proof {
        use_type_invariant(reg);
    }
    match reg.lookup(h) {
        Some(s) => s.dof,
        None => INVALID_DOF,
    }
}

/// The end-effector frame that the solver `h` names was bound to, or `None`
/// if `h` names no solver.
pub fn ee_frame(reg: &HandleRegistry, h: Handle) -> (r: Option<&str>)
    ensures
        r is Some <==> reg@.is_live(h),
        r matches Some(frame) ==> frame@ == reg@.live[h].ee_frame,
{
    match reg.lookup(h) {
        Some(s) => Some(s.ee_frame.as_str()),
        None => None,
    }
}

/// Prepares a solve: checks the handle and lays out what the engine is
/// given.
///
/// Returns `None`, for a solve that fails at once, exactly when `h` names no
/// solver. Otherwise the request holds a copy of all of `current_q`, the
/// pose that `trans` states, and the solver's self-collision flag.
pub fn solve_request<T: Copy>(
    reg: &HandleRegistry,
    h: Handle,
    current_q: &[T],
    trans: &[T; 7],
) -> (r: Option<SolveRequest<T>>)
    requires
        reg@.dof(h) >= 0 ==> current_q@.len() == reg@.dof(h),
    ensures
        r is Some <==> reg@.is_live(h),
        r is Some <==> reg@.dof(h) >= 0,
        r matches Some(req) ==> {
            &&& req.seed@ == current_q@
            &&& req.target == Pose::<T>::spec_from_seq(trans@)
            &&& req.self_collision == reg@.live[h].self_collision
        },
{
    proof {
        use_type_invariant(reg);
    }
    let solver = match reg.lookup(h) {
        Some(s) => s,
        None => {
            return None;
        },
    };
    match read_joints(current_q, solver.dof) {
        Some(seed) => Some(
            SolveRequest {
                seed,
                target: Pose::from_array(trans),
                self_collision: solver.self_collision,
            },
        ),
        None => None,
    }
}

/// Finishes a solve: takes what the engine answered and tells the caller.
///
/// Returns `true` exactly when `h` names a solver and the engine found a
/// joint vector with as many elements as the solver has joints; that vector
/// is then written to `q_out`, all of it. In every other case `q_out` is
/// left as it was.
pub fn solve<T: Copy>(
    reg: &HandleRegistry,
    h: Handle,
    outcome: &EngineOutcome<T>,
    q_out: &mut [T],
) -> (ok: bool)
    requires
        reg@.dof(h) >= 0 ==> old(q_out)@.len() == reg@.dof(h),
    ensures
        ok == solved(reg@.dof(h), *outcome),
        ok ==> final(q_out)@ == outcome->Solved_0@ && final(q_out)@.len() == reg@.dof(h),
        !ok ==> final(q_out)@ == old(q_out)@,
{
    let d: i32 = dof(reg, h);
    match outcome {
        EngineOutcome::Solved(q) => write_joints(q.as_slice(), d, q_out),
        _ => false,
    }
}

/// Destroys the solver that `h` names. The handle names nothing afterwards,
/// and never will again. If `h` names no solver, nothing changes. The result
/// says whether a solver was destroyed, so that the engine's part of it can
/// be released.
pub fn deallocate(reg: &mut HandleRegistry, h: Handle) -> (destroyed: bool)
    ensures
        destroyed == old(reg)@.is_live(h),
        final(reg)@ == old(reg)@.apply(RegistryOp::Destroy(h)),
        final(reg)@.wf(),
{
    proof {
        use_type_invariant(&*reg);
    }
    let mut destroyed = false;
    let mut slots = reg.take_slots();
    if h.index < slots.len() && h.generation >= 1 && slots[h.index].generation == h.generation
        && slots[h.index].solver.is_some() {
        slots[h.index].solver = None;
        destroyed = true;
    }
    reg.put_slots(slots);
    proof {
        let op = RegistryOp::Destroy(h);
        assert(reg@.live =~= old(reg)@.apply(op).live);
        assert(reg@.issued =~= old(reg)@.apply(op).issued);
    }
    destroyed
}

impl RegistryModel {
    /// Whether the changes can happen one after the other, starting here.
    pub open spec fn enabled_all(self, ops: Seq<RegistryOp>) -> bool
        decreases ops.len(),
    {
        ops.len() > 0 ==> self.enabled(ops[0]) && self.apply(ops[0]).enabled_all(ops.drop_first())
    }

    /// The registry after the changes, made one after the other.
    pub open spec fn apply_all(self, ops: Seq<RegistryOp>) -> RegistryModel
        decreases ops.len(),
    {
        if ops.len() == 0 {
            self
        } else {
            self.apply(ops[0]).apply_all(ops.drop_first())
        }
    }
}

/// Every change that can happen keeps a well-formed registry well-formed.
pub proof fn lemma_apply_keeps_wf(m: RegistryModel, op: RegistryOp)
    requires
        m.wf(),
        m.enabled(op),
    ensures
        m.apply(op).wf(),
{
}

/// The null handle names no solver: its joint count is `INVALID_DOF`,
/// setting its flag or destroying it changes nothing, and no answer of the
/// engine makes a solve for it succeed.
pub proof fn lemma_null_names_nothing<T>(m: RegistryModel, flag: bool, outcome: EngineOutcome<T>)
    requires
        m.wf(),
    ensures
        !m.is_live(Handle::null()),
        m.dof(Handle::null()) == INVALID_DOF,
        m.apply(RegistryOp::SetSelfCollision(Handle::null(), flag)) == m,
        m.apply(RegistryOp::Destroy(Handle::null())) == m,
        !solved(m.dof(Handle::null()), outcome),
{
    let h = Handle::null();
    assert(!m.is_live(h)) by {
        if m.live.contains_key(h) {
            assert(m.issued.contains(h));
        }
    }
    assert(m.live.remove(h) =~= m.live);
}

/// A handle reports a number that is not negative exactly when it names a
/// solver; every other handle reports `INVALID_DOF`.
pub proof fn lemma_dof_tells_live_from_dead(m: RegistryModel, h: Handle)
    requires
        m.wf(),
    ensures
        m.dof(h) >= 0 <==> m.is_live(h),
        !m.is_live(h) ==> m.dof(h) == INVALID_DOF,
{
}

/// A solver that was registered reports the number of joints it was
/// registered with, and that number is not negative.
pub proof fn lemma_created_dof(m: RegistryModel, h: Handle, solver: SolverModel)
    requires
        m.enabled(RegistryOp::Create(h, solver)),
    ensures
        m.apply(RegistryOp::Create(h, solver)).is_live(h),
        m.apply(RegistryOp::Create(h, solver)).dof(h) == solver.dof,
        m.apply(RegistryOp::Create(h, solver)).dof(h) >= 0,
{
}

/// A change that is about one handle leaves every other handle as it was:
/// live or not, and with the same solver.
pub proof fn lemma_other_handles_untouched(m: RegistryModel, op: RegistryOp, h: Handle)
    requires
        op.target() != h,
    ensures
        m.apply(op).is_live(h) == m.is_live(h),
        m.is_live(h) ==> m.apply(op).live[h] == m.live[h],
        m.apply(op).dof(h) == m.dof(h),
{
}

/// Setting the flag changes the flag and nothing else of the solver.
pub proof fn lemma_flag_is_set(m: RegistryModel, h: Handle, flag: bool)
    requires
        m.is_live(h),
    ensures
        m.apply(RegistryOp::SetSelfCollision(h, flag)).is_live(h),
        m.apply(RegistryOp::SetSelfCollision(h, flag)).live[h].self_collision == flag,
        m.apply(RegistryOp::SetSelfCollision(h, flag)).live[h].dof == m.live[h].dof,
        m.apply(RegistryOp::SetSelfCollision(h, flag)).live[h].ee_frame == m.live[h].ee_frame,
{
}

/// A handle that was destroyed names nothing, whatever happens next.
pub proof fn lemma_destroyed_stays_dead(m: RegistryModel, ops: Seq<RegistryOp>, h: Handle)
    requires
        m.wf(),
        m.enabled_all(ops),
        m.issued.contains(h),
        !m.is_live(h),
    ensures
        !m.apply_all(ops).is_live(h),
        m.apply_all(ops).dof(h) == INVALID_DOF,
    decreases ops.len(),
{
    if ops.len() > 0 {
        let next = m.apply(ops[0]);
        lemma_apply_keeps_wf(m, ops[0]);
        assert(next.issued.contains(h));
        assert(!next.is_live(h));
        lemma_destroyed_stays_dead(next, ops.drop_first(), h);
    }
}

/// Destroying a solver leaves its handle given out and naming nothing.
pub proof fn lemma_destroy_kills(m: RegistryModel, h: Handle)
    requires
        m.wf(),
        m.is_live(h),
    ensures
        !m.apply(RegistryOp::Destroy(h)).is_live(h),
        m.apply(RegistryOp::Destroy(h)).issued.contains(h),
{
}

/// The joint count of a solver stays what it was for as long as its handle
/// is live: if the handle is live before a run of changes and live after
/// it, it reports the same count at both ends.
pub proof fn lemma_dof_fixed_for_life(m: RegistryModel, ops: Seq<RegistryOp>, h: Handle)
    requires
        m.wf(),
        m.enabled_all(ops),
        m.is_live(h),
        m.apply_all(ops).is_live(h),
    ensures
        m.apply_all(ops).dof(h) == m.dof(h),
    decreases ops.len(),
{
    if ops.len() > 0 {
        let next = m.apply(ops[0]);
        lemma_apply_keeps_wf(m, ops[0]);
        assert(m.issued.contains(h));
        if next.is_live(h) {
            assert(next.dof(h) == m.dof(h));
            lemma_dof_fixed_for_life(next, ops.drop_first(), h);
        } else {
            assert(next.issued.contains(h));
            lemma_destroyed_stays_dead(next, ops.drop_first(), h);
        }
    }
}

/// When the engine answers with the very joints it was handed as a seed,
/// the solve succeeds and what is written back is the current joint vector.
/// How close the engine's answer is to its seed is the engine's matter.
pub proof fn lemma_seed_answer_is_written<T>(dof: int, current: Seq<T>, outcome: EngineOutcome<T>)
    requires
        dof >= 0,
        current.len() == dof,
        outcome is Solved,
        outcome->Solved_0@ == current,
    ensures
        solved(dof, outcome),
        answer(dof, outcome) is Ok,
{
}

} // verus!
