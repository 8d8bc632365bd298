//! The per-client window record and its float/fullscreen state machine.

use vstd::prelude::*;

use crate::geometry::Monitor;

verus! {

/// Bookkeeping for one managed top-level client window.
///
/// The saved `pre_float_*` fields are meaningful only while `is_floating`
/// is set, and `pre_fullscreen_*` only while `is_fullscreen` is set.
#[derive(Clone, Copy, Debug, PartialEq, Eq, Structural)]
pub struct Window {
    pub id: u64,
    pub x: i32,
    pub y: i32,
    pub width: u32,
    pub height: u32,
    pub border_width: u32,
    pub is_floating: bool,
    pub pre_float_x: i32,
    pub pre_float_y: i32,
    pub pre_float_width: u32,
    pub pre_float_height: u32,
    pub is_fullscreen: bool,
    pub pre_fullscreen_x: i32,
    pub pre_fullscreen_y: i32,
    pub pre_fullscreen_width: u32,
    pub pre_fullscreen_height: u32,
    pub pre_fullscreen_border_width: u32,
    pub is_dock: bool,
}

impl Window {
    /// A fresh record for a just-mapped client, tiled, with no saved state.
    pub fn new(id: u64, x: i32, y: i32, width: u32, height: u32) -> (w: Window)
        ensures
            w == (Window {
                id,
                x,
                y,
                width,
                height,
                border_width: 0,
                is_floating: false,
                pre_float_x: 0,
                pre_float_y: 0,
                pre_float_width: 0,
                pre_float_height: 0,
                is_fullscreen: false,
                pre_fullscreen_x: 0,
                pre_fullscreen_y: 0,
                pre_fullscreen_width: 0,
                pre_fullscreen_height: 0,
                pre_fullscreen_border_width: 0,
                is_dock: false,
            }),
    {
        Window {
            id,
            x,
            y,
            width,
            height,
            border_width: 0,
            is_floating: false,
            pre_float_x: 0,
            pre_float_y: 0,
            pre_float_width: 0,
            pre_float_height: 0,
            is_fullscreen: false,
            pre_fullscreen_x: 0,
            pre_fullscreen_y: 0,
            pre_fullscreen_width: 0,
            pre_fullscreen_height: 0,
            pre_fullscreen_border_width: 0,
            is_dock: false,
        }
    }

    /// The record after entering fullscreen on `mon`: current geometry and
    /// border saved, border dropped to zero, geometry set to the monitor.
    pub open spec fn spec_enter_fullscreen(self, mon: Monitor) -> Window {
        Window {
            is_fullscreen: true,
            pre_fullscreen_x: self.x,
            pre_fullscreen_y: self.y,
            pre_fullscreen_width: self.width,
            pre_fullscreen_height: self.height,
            pre_fullscreen_border_width: self.border_width,
            x: mon.x,
            y: mon.y,
            width: mon.width,
            height: mon.height,
            border_width: 0,
            ..self
        }
    }

    /// The record after leaving fullscreen: the saved geometry and border
    /// come back; the stale saved fields are left as they were.
    pub open spec fn spec_exit_fullscreen(self) -> Window {
        Window {
            is_fullscreen: false,
            x: self.pre_fullscreen_x,
            y: self.pre_fullscreen_y,
            width: self.pre_fullscreen_width,
            height: self.pre_fullscreen_height,
            border_width: self.pre_fullscreen_border_width,
            ..self
        }
    }

    pub fn enter_fullscreen(&mut self, mon: Monitor)
        ensures
            *final(self) == old(self).spec_enter_fullscreen(mon),
    {
        self.is_fullscreen = true;
        self.pre_fullscreen_x = self.x;
        self.pre_fullscreen_y = self.y;
        self.pre_fullscreen_width = self.width;
        self.pre_fullscreen_height = self.height;
        self.pre_fullscreen_border_width = self.border_width;
        self.x = mon.x;
        self.y = mon.y;
        self.width = mon.width;
        self.height = mon.height;
        self.border_width = 0;
    }

    pub fn exit_fullscreen(&mut self)
        ensures
            *final(self) == old(self).spec_exit_fullscreen(),
    {
        self.is_fullscreen = false;
        self.x = self.pre_fullscreen_x;
        self.y = self.pre_fullscreen_y;
        self.width = self.pre_fullscreen_width;
        self.height = self.pre_fullscreen_height;
        self.border_width = self.pre_fullscreen_border_width;
    }

    /// The record after entering floating mode. `abs_x`/`abs_y` are the
    /// window's root-relative coordinates as the server reports them; they
    /// are what a later unfloat restores.
    pub open spec fn spec_enter_float(self, abs_x: i32, abs_y: i32) -> Window {
        Window {
            is_floating: true,
            pre_float_x: abs_x,
            pre_float_y: abs_y,
            pre_float_width: self.width,
            pre_float_height: self.height,
            ..self
        }
    }

    /// The record after leaving floating mode: the saved position and size
    /// become current again.
    pub open spec fn spec_exit_float(self) -> Window {
        Window {
            is_floating: false,
            x: self.pre_float_x,
            y: self.pre_float_y,
            width: self.pre_float_width,
            height: self.pre_float_height,
            ..self
        }
    }

    pub fn enter_float(&mut self, abs_x: i32, abs_y: i32)
        ensures
            *final(self) == old(self).spec_enter_float(abs_x, abs_y),
    {
        self.is_floating = true;
        self.pre_float_x = abs_x;
        self.pre_float_y = abs_y;
        self.pre_float_width = self.width;
        self.pre_float_height = self.height;
    }

    pub fn exit_float(&mut self)
        ensures
            *final(self) == old(self).spec_exit_float(),
    {
        self.is_floating = false;
        self.x = self.pre_float_x;
        self.y = self.pre_float_y;
        self.width = self.pre_float_width;
        self.height = self.pre_float_height;
    }
}

/// Law: toggling fullscreen twice restores geometry and border width
/// exactly, and leaves the float/dock classification untouched.
pub proof fn lemma_fullscreen_round_trip(w: Window, mon: Monitor)
    ensures
        ({
            let r = w.spec_enter_fullscreen(mon).spec_exit_fullscreen();
            &&& r.x == w.x
            &&& r.y == w.y
            &&& r.width == w.width
            &&& r.height == w.height
            &&& r.border_width == w.border_width
            &&& r.is_floating == w.is_floating
            &&& r.is_dock == w.is_dock
            &&& r.is_fullscreen == false
            &&& r.id == w.id
        }),
{
}

/// Law: making a tiled window float and unfloating it again restores the
/// size exactly, and restores the position whenever the root-relative
/// coordinates handed to the float step were the record's own (that is,
/// the window was not moved in between and was not re-parented).
pub proof fn lemma_float_round_trip(w: Window, abs_x: i32, abs_y: i32)
    ensures
        ({
            let r = w.spec_enter_float(abs_x, abs_y).spec_exit_float();
            &&& r.width == w.width
            &&& r.height == w.height
            &&& r.x == abs_x
            &&& r.y == abs_y
            &&& r.border_width == w.border_width
            &&& r.is_floating == false
            &&& r.is_dock == w.is_dock
            &&& r.id == w.id
        }),
{
}

} // verus!
