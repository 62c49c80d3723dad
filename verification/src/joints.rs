//! Copies joint vectors between a caller's buffers and owned vectors.
//!
//! A joint buffer has exactly as many elements as the solver has degrees of
//! freedom. Both directions are given that count and go by it.

use vstd::prelude::*;

verus! {

/// Copies the caller's joint buffer into an owned vector.
///
/// A negative count cannot size a buffer: nothing is read and `None` is
/// returned. Otherwise the buffer holds `dof` elements and all of them are
/// copied, in order.
pub fn read_joints<T: Copy>(buf: &[T], dof: i32) -> (r: Option<Vec<T>>)
    requires
        dof >= 0 ==> buf@.len() == dof,
    ensures
        r is Some <==> dof >= 0,
        r matches Some(v) ==> v@ == buf@,
{
    if dof < 0 {
        return None;
    }
    let mut v: Vec<T> = Vec::new();
    let mut i: usize = 0;
    while i < buf.len()
        invariant
            i <= buf@.len(),
            v@ == buf@.subrange(0, i as int),
        decreases buf@.len() - i,
    {
        v.push(buf[i]);
        i = i + 1;
    }
    Some(v)
}

/// Whether a joint vector of the engine's may be written to a buffer sized
/// for `dof` joints.
pub open spec fn fits<T>(q: Seq<T>, dof: int) -> bool {
    dof >= 0 && q.len() == dof
}

/// Copies a joint vector into the caller's output buffer.
///
/// The vector is written only if it has exactly `dof` elements, and then
/// all of it is written. Otherwise the buffer is left as it was. The result
/// says whether the buffer was written.
pub fn write_joints<T: Copy>(q: &[T], dof: i32, out: &mut [T]) -> (written: bool)
    requires
        dof >= 0 ==> old(out)@.len() == dof,
    ensures
        written == fits(q@, dof as int),
        written ==> final(out)@ == q@,
        !written ==> final(out)@ == old(out)@,
{
    if dof < 0 || q.len() != dof as usize {
        return false;
    }
    let mut i: usize = 0;
    while i < q.len()
        invariant
            i <= q@.len(),
            out@.len() == q@.len(),
            forall|j: int| 0 <= j < i ==> out@[j] == q@[j],
        decreases q@.len() - i,
    {
        out[i] = q[i];
        i = i + 1;
    }
    true
}

} // verus!
