//! Box constraints: the range of sizes a parent allows a child during layout.

use vstd::prelude::*;
use crate::geometry::{Size, UNBOUNDED};

verus! {

/// `v` brought into `lo ..= hi`; `lo` wins where the range is empty.
pub open spec fn clamp(v: int, lo: int, hi: int) -> int {
    if v < lo {
        lo
    } else if v > hi {
        hi
    } else {
        v
    }
}

/// `v - amount`, but not below zero.
pub open spec fn reduce(v: int, amount: int) -> int {
    if v > amount {
        v - amount
    } else {
        0
    }
}

/// A minimum and a maximum size, handed down the tree during layout.
#[derive(Clone, Copy, Debug, PartialEq, Eq, Structural)]
pub struct BoxConstraints {
    pub min: Size,
    pub max: Size,
}

impl BoxConstraints {
    /// The invariant of constraints: the minimum does not exceed the maximum
    /// on either axis.
    pub open spec fn wf(&self) -> bool {
        self.min.fits(self.max)
    }

    /// Whether `size` lies between the minimum and the maximum on both axes.
    pub open spec fn contains(&self, size: Size) -> bool {
        self.min.fits(size) && size.fits(self.max)
    }

    /// Constraints from a minimum and a maximum.
    pub fn new(min: Size, max: Size) -> (bc: BoxConstraints)
        requires
            min.fits(max),
        ensures
            bc == (BoxConstraints { min, max }),
            bc.wf(),
    {
        BoxConstraints { min, max }
    }

    /// Constraints that admit exactly `size`.
    pub fn tight(size: Size) -> (bc: BoxConstraints)
        ensures
            bc == (BoxConstraints { min: size, max: size }),
            bc.wf(),
    {
        BoxConstraints { min: size, max: size }
    }

    /// Whether the invariant holds. Callers that build constraints field by
    /// field test this before they start a layout pass.
    pub fn debug_check(&self) -> (ok: bool)
        ensures
            ok == self.wf(),
    {
        self.min.width <= self.max.width && self.min.height <= self.max.height
    }

    /// Whether something bounds the width.
    pub open spec fn spec_is_width_bounded(&self) -> bool {
        self.max.width < UNBOUNDED
    }

    /// Whether something bounds the height.
    pub open spec fn spec_is_height_bounded(&self) -> bool {
        self.max.height < UNBOUNDED
    }

    /// Whether the maximum width is a real bound.
    pub fn is_width_bounded(&self) -> (b: bool)
        ensures
            b == self.spec_is_width_bounded(),
    {
        self.max.width < UNBOUNDED
    }

    /// Whether the maximum height is a real bound.
    pub fn is_height_bounded(&self) -> (b: bool)
        ensures
            b == self.spec_is_height_bounded(),
    {
        self.max.height < UNBOUNDED
    }

    /// The size nearest to `width` by `height` that the constraints admit.
    pub open spec fn spec_constrain(&self, width: int, height: int) -> Size {
        Size {
            width: clamp(width, self.min.width as int, self.max.width as int) as u32,
            height: clamp(height, self.min.height as int, self.max.height as int) as u32,
        }
    }

    /// Clamps `size` into the constraints.
    pub fn constrain(&self, size: Size) -> (r: Size)
        ensures
            r == self.spec_constrain(size.width as int, size.height as int),
            self.wf() ==> self.contains(r),
            self.contains(size) ==> r == size,
    {
        self.constrain_wide(size.width as u64, size.height as u64)
    }

    /// Clamps a size whose lengths may exceed `u32` into the constraints.
    pub fn constrain_wide(&self, width: u64, height: u64) -> (r: Size)
        ensures
            r == self.spec_constrain(width as int, height as int),
            self.wf() ==> self.contains(r),
    {
        let w: u32 = if width < self.min.width as u64 {
            self.min.width
        } else if width > self.max.width as u64 {
            self.max.width
        } else {
            width as u32
        };
        let h: u32 = if height < self.min.height as u64 {
            self.min.height
        } else if height > self.max.height as u64 {
            self.max.height
        } else {
            height as u32
        };
        Size { width: w, height: h }
    }

    /// The same maximum with no minimum.
    pub open spec fn spec_loosen(&self) -> BoxConstraints {
        BoxConstraints { min: Size { width: 0, height: 0 }, max: self.max }
    }

    /// Drops the minimum.
    pub fn loosen(&self) -> (bc: BoxConstraints)
        ensures
            bc == self.spec_loosen(),
            bc.wf(),
    {
        BoxConstraints { min: Size { width: 0, height: 0 }, max: self.max }
    }

    /// The constraints left for a child when `dx` by `dy` is taken away for
    /// something else; no length goes below zero, and an unbounded maximum
    /// stays unbounded.
    pub open spec fn spec_shrink(&self, dx: int, dy: int) -> BoxConstraints {
        BoxConstraints {
            min: Size {
                width: reduce(self.min.width as int, dx) as u32,
                height: reduce(self.min.height as int, dy) as u32,
            },
            max: Size {
                width: if self.max.width == UNBOUNDED {
                    UNBOUNDED
                } else {
                    reduce(self.max.width as int, dx) as u32
                },
                height: if self.max.height == UNBOUNDED {
                    UNBOUNDED
                } else {
                    reduce(self.max.height as int, dy) as u32
                },
            },
        }
    }

    /// Takes `dx` by `dy` away from the constraints.
    pub fn shrink(&self, dx: u64, dy: u64) -> (bc: BoxConstraints)
        ensures
            bc == self.spec_shrink(dx as int, dy as int),
            self.wf() ==> bc.wf(),
    {
        let min_w: u32 = if self.min.width as u64 > dx {
            (self.min.width as u64 - dx) as u32
        } else {
            0
        };
        let min_h: u32 = if self.min.height as u64 > dy {
            (self.min.height as u64 - dy) as u32
        } else {
            0
        };
        let max_w: u32 = if self.max.width == UNBOUNDED {
            UNBOUNDED
        } else if self.max.width as u64 > dx {
            (self.max.width as u64 - dx) as u32
        } else {
            0
        };
        let max_h: u32 = if self.max.height == UNBOUNDED {
            UNBOUNDED
        } else if self.max.height as u64 > dy {
            (self.max.height as u64 - dy) as u32
        } else {
            0
        };
        BoxConstraints {
            min: Size { width: min_w, height: min_h },
            max: Size { width: max_w, height: max_h },
        }
    }
}

/// Shrinking well-formed constraints gives well-formed constraints.
pub proof fn lemma_shrink_wf(bc: BoxConstraints, dx: int, dy: int)
    requires
        bc.wf(),
        dx >= 0,
        dy >= 0,
    ensures
        bc.spec_shrink(dx, dy).wf(),
{
}

/// A constrained size always lies within well-formed constraints, and a size
/// that already lies within them is left as it is.
pub proof fn lemma_constrain_contains(bc: BoxConstraints, width: int, height: int)
    requires
        bc.wf(),
    ensures
        bc.contains(bc.spec_constrain(width, height)),
        0 <= width <= u32::MAX && 0 <= height <= u32::MAX && bc.contains(
            Size { width: width as u32, height: height as u32 },
        ) ==> bc.spec_constrain(width, height) == (Size {
            width: width as u32,
            height: height as u32,
        }),
{
}

} // verus!
