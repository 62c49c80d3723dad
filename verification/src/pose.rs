//! The seven numbers of a target pose, and the order they travel in.

use vstd::prelude::*;

verus! {

/// The number of elements in a pose buffer.
pub const POSE_LEN: usize = 7;

/// A rigid transform as the caller states it: a translation and a rotation
/// quaternion, not yet normalised.
///
/// In a pose buffer the translation comes first, as `x, y, z`, and the
/// quaternion follows with its scalar part in front: `qw, qx, qy, qz`.
/// The element type is left open: the boundary moves the numbers and never
/// computes with them.
#[derive(Clone, Copy, Debug, PartialEq)]
pub struct Pose<T> {
    pub x: T,
    pub y: T,
    pub z: T,
    pub qw: T,
    pub qx: T,
    pub qy: T,
    pub qz: T,
}

impl<T: Copy> Pose<T> {
    /// The pose that a buffer of seven elements states.
    pub open spec fn spec_from_seq(s: Seq<T>) -> Pose<T>
        recommends
            s.len() == POSE_LEN,
    {
        Pose { x: s[0], y: s[1], z: s[2], qw: s[3], qx: s[4], qy: s[5], qz: s[6] }
    }

    /// The buffer that states this pose.
    pub open spec fn to_seq(self) -> Seq<T> {
        seq![self.x, self.y, self.z, self.qw, self.qx, self.qy, self.qz]
    }

    /// The translation, as `x, y, z`.
    pub open spec fn translation(self) -> Seq<T> {
        seq![self.x, self.y, self.z]
    }

    /// The quaternion, scalar part first: `w, x, y, z`.
    pub open spec fn quaternion(self) -> Seq<T> {
        seq![self.qw, self.qx, self.qy, self.qz]
    }

    /// Reads a pose from its buffer.
    pub fn from_array(a: &[T; 7]) -> (p: Self)
        ensures
            p == Self::spec_from_seq(a@),
            p.translation() == a@.subrange(0, 3),
            p.quaternion() == a@.subrange(3, 7),
    {
        Pose { x: a[0], y: a[1], z: a[2], qw: a[3], qx: a[4], qy: a[5], qz: a[6] }
    }

    /// Writes a pose back into the layout of its buffer.
    pub fn to_array(&self) -> (a: [T; 7])
        ensures
            a@ == self.to_seq(),
    {
        [self.x, self.y, self.z, self.qw, self.qx, self.qy, self.qz]
    }
}

/// Reading a pose from the buffer written for it gives the same pose.
pub proof fn lemma_pose_round_trip<T: Copy>(p: Pose<T>)
    ensures
        Pose::<T>::spec_from_seq(p.to_seq()) == p,
{
}

/// Writing the pose read from a buffer gives the same buffer.
pub proof fn lemma_buffer_round_trip<T: Copy>(s: Seq<T>)
    requires
        s.len() == POSE_LEN,
    ensures
        Pose::<T>::spec_from_seq(s).to_seq() == s,
{
}

/// The buffer holds the translation in its first three places and the
/// quaternion, scalar part first, in the four that follow.
pub proof fn lemma_pose_layout<T: Copy>(p: Pose<T>)
    ensures
        p.to_seq() == p.translation() + p.quaternion(),
        p.to_seq().len() == POSE_LEN,
        p.to_seq()[3] == p.qw,
{
}

} // verus!
