//! Rectangles, monitors, and the point arithmetic the tiler relies on.

use vstd::prelude::*;

verus! {

/// A screen-space rectangle: top-left corner and size in pixels.
#[derive(Clone, Copy, PartialEq, Eq, Structural, Debug)]
pub struct Rect {
    pub x: i32,
    pub y: i32,
    pub width: u32,
    pub height: u32,
}

impl Rect {
    /// The pixel `(px, py)` lies inside the rectangle.
    pub open spec fn spec_contains(self, px: int, py: int) -> bool {
        &&& self.x <= px < self.x + self.width
        &&& self.y <= py < self.y + self.height
    }

    /// No pixel lies in both rectangles.
    pub open spec fn spec_disjoint(self, other: Rect) -> bool {
        forall|px: int, py: int| !(self.spec_contains(px, py) && #[trigger] other.spec_contains(px, py))
    }

    /// Every pixel of `self` is a pixel of `outer`.
    pub open spec fn spec_inside(self, outer: Rect) -> bool {
        forall|px: int, py: int| #[trigger] self.spec_contains(px, py) ==> outer.spec_contains(px, py)
    }
}

/// One physical monitor as reported by the server at startup.
#[derive(Clone, Copy, PartialEq, Eq, Structural, Debug)]
pub struct Monitor {
    pub x: i32,
    pub y: i32,
    pub width: u32,
    pub height: u32,
}

impl Monitor {
    /// X protocol screen coordinates are 16-bit and sizes are 16-bit
    /// cardinals, so every monitor the server can describe satisfies this.
    pub open spec fn wf(self) -> bool {
        &&& -32768 <= self.x <= 32767
        &&& -32768 <= self.y <= 32767
        &&& self.width <= 65535
        &&& self.height <= 65535
    }

    /// The pixel `(px, py)` lies on this monitor.
    pub open spec fn spec_contains_point(self, px: int, py: int) -> bool {
        &&& self.x <= px < self.x + self.width
        &&& self.y <= py < self.y + self.height
    }

    pub fn contains_point(&self, px: i32, py: i32) -> (r: bool)
        requires
            self.wf(),
        ensures
            r == self.spec_contains_point(px as int, py as int),
    {
        px >= self.x && px < self.x + self.width as i32 && py >= self.y && py < self.y
            + self.height as i32
    }
}

/// Index of the monitor under the pointer; the first monitor when none
/// contains it (the pointer can sit on no monitor during a mode switch).
pub open spec fn spec_monitor_at(monitors: Seq<Monitor>, px: int, py: int) -> int {
    if exists|i: int| 0 <= i < monitors.len() && #[trigger] monitors[i].spec_contains_point(px, py) {
        choose|i: int|
            0 <= i < monitors.len() && #[trigger] monitors[i].spec_contains_point(px, py)
            && forall|j: int|
                0 <= j < i ==> !(#[trigger] monitors[j].spec_contains_point(px, py))
    } else {
        0
    }
}

pub fn monitor_at(monitors: &Vec<Monitor>, px: i32, py: i32) -> (idx: usize)
    requires
        monitors.len() >= 1,
        forall|i: int| 0 <= i < monitors.len() ==> (#[trigger] monitors[i]).wf(),
    ensures
        idx < monitors.len(),
        idx == spec_monitor_at(monitors@, px as int, py as int),
        monitors@[idx as int].spec_contains_point(px as int, py as int) || idx == 0,
{
    let mut i: usize = 0;
    while i < monitors.len()
        invariant
            i <= monitors.len(),
            monitors.len() >= 1,
            forall|k: int| 0 <= k < monitors.len() ==> (#[trigger] monitors[k]).wf(),
            forall|k: int|
                0 <= k < i ==> !(#[trigger] monitors@[k].spec_contains_point(px as int, py as int)),
        decreases monitors.len() - i,
    {
        if monitors[i].contains_point(px, py) {
            proof {
                let s = monitors@;
                assert(s[i as int].spec_contains_point(px as int, py as int));
                let w = choose|k: int|
                    0 <= k < s.len() && #[trigger] s[k].spec_contains_point(px as int, py as int)
                    && forall|j: int|
                        0 <= j < k ==> !(#[trigger] s[j].spec_contains_point(px as int, py as int));
                assert(w == i as int) by {
                    if w < i as int {
                        assert(!s[w].spec_contains_point(px as int, py as int));
                    }
                    if w > i as int {
                        assert(!s[i as int].spec_contains_point(px as int, py as int));
                    }
                }
            }
            return i;
        }
        i += 1;
    }
    proof {
        assert forall|k: int| 0 <= k < monitors@.len() implies !(#[trigger] monitors@[k]
            .spec_contains_point(px as int, py as int)) by {}
    }
    0
}

} // verus!
