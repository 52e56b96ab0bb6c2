//! A rectangle record with an area method and a width increment.

use vstd::prelude::*;

verus! {

pub struct Rectangle {
    pub width: u32,
    pub height: u32,
}

impl Rectangle {
    /// The mathematical area, free of any machine bound.
    pub open spec fn spec_area(self) -> int {
        self.width * self.height
    }

    pub fn area(&self) -> (r: u32)
        requires
            self.spec_area() <= u32::MAX,
        ensures
            r == self.spec_area(),
    {
        self.width * self.height
    }

    pub fn inc_width(&mut self, delta: u32)
        requires
            old(self).width + delta <= u32::MAX,
        ensures
            final(self).width == old(self).width + delta,
            final(self).height == old(self).height,
            *final(self) == spec_after_increments(*old(self), seq![delta]),
    {
        self.width = self.width + delta;
        proof {
            let ds = seq![delta];
            let stepped = Rectangle {
                width: (old(self).width + delta) as u32,
                height: old(self).height,
            };
            assert(ds.skip(1).len() == 0);
            assert(spec_after_increments(stepped, ds.skip(1)) == stepped);
            assert(spec_after_increments(*old(self), ds) == stepped);
        }
    }
}

/// The sum of a batch of increments.
pub open spec fn spec_increment_sum(deltas: Seq<u32>) -> int
    decreases deltas.len(),
{
    if deltas.len() == 0 {
        0
    } else {
        deltas[0] + spec_increment_sum(deltas.skip(1))
    }
}

/// The rectangle after the increments in `deltas` are applied in order, each
/// as `inc_width` applies one.
pub open spec fn spec_after_increments(r: Rectangle, deltas: Seq<u32>) -> Rectangle
    decreases deltas.len(),
{
    if deltas.len() == 0 {
        r
    } else {
        spec_after_increments(
            Rectangle { width: (r.width + deltas[0]) as u32, height: r.height },
            deltas.skip(1),
        )
    }
}

/// Every increment is non-negative, so the sum is too.
pub proof fn lemma_increment_sum_nonneg(deltas: Seq<u32>)
    ensures
        spec_increment_sum(deltas) >= 0,
    decreases deltas.len(),
{
    if deltas.len() > 0 {
        lemma_increment_sum_nonneg(deltas.skip(1));
    }
}

/// After any sequence of width increments that stays representable, the
/// height is unchanged, the width is the old width plus the sum of the
/// increments, and the area is that width times the height.
pub proof fn lemma_area_after_increments(r: Rectangle, deltas: Seq<u32>)
    requires
        r.width + spec_increment_sum(deltas) <= u32::MAX,
    ensures
        spec_after_increments(r, deltas).height == r.height,
        spec_after_increments(r, deltas).width == r.width + spec_increment_sum(deltas),
        spec_after_increments(r, deltas).spec_area() == (r.width + spec_increment_sum(deltas))
            * r.height,
    decreases deltas.len(),
{
    if deltas.len() == 0 {
    } else {
        lemma_increment_sum_nonneg(deltas.skip(1));
        let stepped = Rectangle { width: (r.width + deltas[0]) as u32, height: r.height };
        lemma_area_after_increments(stepped, deltas.skip(1));
    }
}

} // verus!
