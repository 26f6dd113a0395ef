//! The force-field modifier: a fixed-capacity ordered array of point-source
//! slots, copied verbatim into the update layout for per-frame GPU
//! evaluation.
//!
//! Slot order is evaluation order, and the first zero-mass slot is the
//! sentinel that stops the GPU consumer; see
//! [`ForceFieldParam`](crate::data::ForceFieldParam).

use vstd::prelude::*;

use crate::data::{FFNUM, ForceFieldParam};
use crate::layout::UpdateLayout;
use crate::modifier::UpdateModifier;

verus! {

/// A modifier applying a force field of up to [`FFNUM`] point sources to all
/// particles each frame.
#[derive(Clone, Copy, Debug)]
pub struct ForceFieldModifier {
    /// The force-field slots, in evaluation order.
    pub force_field: [ForceFieldParam; FFNUM],
}

impl ForceFieldModifier {
    /// Builds a modifier from the given sources, preserving their order in
    /// slots `0..point_attractors.len()` and filling the remaining slots with
    /// the sentinel default.  The GPU buffer that receives the slots is
    /// fixed-size, so more than [`FFNUM`] sources cannot be represented; the
    /// caller must not pass more.
    pub fn new(point_attractors: Vec<ForceFieldParam>) -> (r: ForceFieldModifier)
        requires
            point_attractors@.len() <= FFNUM,
        ensures
            r.force_field@.len() == FFNUM,
            forall|i: int| 0 <= i < point_attractors@.len() ==> #[trigger] r.force_field@[i]
                == point_attractors@[i],
            forall|i: int| point_attractors@.len() <= i < FFNUM ==> #[trigger] r.force_field@[i]
                == ForceFieldParam::default_param(),
    {
        let mut force_field = [ForceFieldParam::default(); FFNUM];
        let n = point_attractors.len();
        let mut i: usize = 0;
        while i < n
            invariant
                n == point_attractors@.len(),
                n <= FFNUM,
                0 <= i <= n,
                force_field@.len() == FFNUM,
                forall|j: int| 0 <= j < i ==> #[trigger] force_field@[j]
                    == point_attractors@[j],
                forall|j: int| i <= j < FFNUM ==> #[trigger] force_field@[j]
                    == ForceFieldParam::default_param(),
            decreases n - i,
        {
            force_field[i] = point_attractors[i];
            i = i + 1;
        }
        ForceFieldModifier { force_field }
    }

    /// Replaces the slot at `index` with the given source, leaving every
    /// other slot exactly as it was.
    pub fn add_or_replace(&mut self, point_attractor: ForceFieldParam, index: usize)
        requires
            index < FFNUM,
        ensures
            final(self).force_field@ == old(self).force_field@.update(index as int, point_attractor),
    {
        self.force_field[index] = point_attractor;
    }

    /// Number of slots the GPU consumer will evaluate: the index of the
    /// first sentinel (zero-mass) slot, or [`FFNUM`] when every slot holds a
    /// real source.
    pub fn active_len(&self) -> (r: usize)
        ensures
            r <= FFNUM,
            forall|i: int| 0 <= i < r ==> !(#[trigger] self.force_field@[i]).spec_is_sentinel(),
            r < FFNUM ==> self.force_field@[r as int].spec_is_sentinel(),
    {
        let mut i: usize = 0;
        while i < FFNUM
            invariant
                0 <= i <= FFNUM,
                forall|j: int| 0 <= j < i ==> !(#[trigger] self.force_field@[j]).spec_is_sentinel(),
            decreases FFNUM - i,
        {
            if self.force_field[i].is_sentinel() {
                return i;
            }
            i = i + 1;
        }
        i
    }
}

impl UpdateModifier for ForceFieldModifier {
    /// Overwrites the update layout's force-field array with a copy of the
    /// held slots (value semantics: the layout and the modifier share
    /// nothing afterwards); the acceleration is left as it was.
    fn apply(&self, update_layout: &mut UpdateLayout)
        ensures
            final(update_layout).force_field@ == self.force_field@,
            final(update_layout).accel == old(update_layout).accel,
    {
        update_layout.force_field = self.force_field;
    }
}

} // verus!
