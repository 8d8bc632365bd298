//! The master–stack tiler: the deterministic tiling function, the tile
//! list with its operations, and the actions they ask of the server.

use vstd::prelude::*;
use vstd::arithmetic::div_mod::{lemma_fundamental_div_mod, lemma_mod_bound};

use crate::actions::XAction;
use crate::config::Config;
use crate::geometry::{Monitor, Rect};

verus! {

/// Where the dock strut sits on the monitor.
#[derive(Clone, Copy, Debug, PartialEq, Eq, Structural)]
pub enum DockPosition {
    Top,
    Bottom,
    Absent,
}

/// Subtraction that stops at zero, as the geometry arithmetic needs it.
pub open spec fn sat_sub_int(a: int, b: int) -> int {
    if a >= b {
        a - b
    } else {
        0
    }
}

/// The width left for tiles after the outer gaps.
pub open spec fn spec_usable_width(mon: Monitor, gaps: u32) -> int {
    sat_sub_int(mon.width as int, 2 * gaps)
}

/// The height left for tiles after the dock strut and the outer gaps.
pub open spec fn spec_usable_height(mon: Monitor, gaps: u32, dock_h: u32) -> int {
    sat_sub_int(sat_sub_int(mon.height as int, dock_h as int), 2 * gaps)
}

/// How far tiles shift down to clear a dock at the top.
pub open spec fn spec_y_offset(dock_pos: DockPosition, dock_h: u32) -> int {
    if dock_pos is Top {
        dock_h as int
    } else {
        0
    }
}

/// The master column width. The ratio is fixed at one half, for which
/// the documented clamp to `[1/3, 2/3]` of the usable width is the
/// identity.
pub open spec fn spec_master_width(mon: Monitor, gaps: u32) -> int {
    spec_usable_width(mon, gaps) / 2
}

/// The stack column width: what the master column and one gap leave.
pub open spec fn spec_stack_width(mon: Monitor, gaps: u32) -> int {
    sat_sub_int(sat_sub_int(spec_usable_width(mon, gaps), spec_master_width(mon, gaps)), gaps as int)
}

/// The height of each stack window among `n - 1` of them, after the
/// inter-window gaps.
pub open spec fn spec_stack_height(mon: Monitor, gaps: u32, dock_h: u32, n: int) -> int {
    if n >= 2 {
        sat_sub_int(spec_usable_height(mon, gaps, dock_h), gaps * (n - 2)) / (n - 1)
    } else {
        0
    }
}

/// The left edge of tile `i` out of `n`.
pub open spec fn spec_tile_x(mon: Monitor, gaps: u32, i: int) -> int {
    if i == 0 {
        mon.x + gaps
    } else {
        mon.x + gaps + spec_master_width(mon, gaps) + gaps
    }
}

/// The top edge of tile `i` out of `n`.
pub open spec fn spec_tile_y(
    mon: Monitor,
    gaps: u32,
    dock_pos: DockPosition,
    dock_h: u32,
    n: int,
    i: int,
) -> int {
    mon.y + spec_y_offset(dock_pos, dock_h) + gaps + if i == 0 {
        0
    } else {
        (i - 1) * (spec_stack_height(mon, gaps, dock_h, n) + gaps)
    }
}

/// The width of tile `i` out of `n`.
pub open spec fn spec_tile_w(mon: Monitor, gaps: u32, n: int, i: int) -> int {
    if n == 1 {
        spec_usable_width(mon, gaps)
    } else if i == 0 {
        spec_master_width(mon, gaps)
    } else {
        spec_stack_width(mon, gaps)
    }
}

/// The height of tile `i` out of `n`.
pub open spec fn spec_tile_h(mon: Monitor, gaps: u32, dock_h: u32, n: int, i: int) -> int {
    if i == 0 {
        spec_usable_height(mon, gaps, dock_h)
    } else {
        spec_stack_height(mon, gaps, dock_h, n)
    }
}

/// The rectangle of tile `i` out of `n`, with every component in range
/// for the protocol types (the bounds lemma below shows they are).
pub open spec fn spec_tile_rect(
    mon: Monitor,
    gaps: u32,
    dock_pos: DockPosition,
    dock_h: u32,
    n: int,
    i: int,
) -> Rect {
    Rect {
        x: spec_tile_x(mon, gaps, i) as i32,
        y: spec_tile_y(mon, gaps, dock_pos, dock_h, n, i) as i32,
        width: spec_tile_w(mon, gaps, n, i) as u32,
        height: spec_tile_h(mon, gaps, dock_h, n, i) as u32,
    }
}

/// Every tile component fits its protocol type under the layout's
/// well-formedness bounds.
pub proof fn lemma_tile_bounds(
    mon: Monitor,
    gaps: u32,
    dock_pos: DockPosition,
    dock_h: u32,
    n: int,
    i: int,
)
    requires
        mon.wf(),
        gaps <= 16384,
        dock_h <= 65535,
        1 <= n <= 65535,
        0 <= i < n,
    ensures
        -32768 <= spec_tile_x(mon, gaps, i) <= 98303,
        -32768 <= spec_tile_y(mon, gaps, dock_pos, dock_h, n, i) < 0x8000_0000,
        0 <= spec_tile_w(mon, gaps, n, i) <= 65535,
        0 <= spec_tile_h(mon, gaps, dock_h, n, i) <= 65535,
{
    let uw = spec_usable_width(mon, gaps);
    let uh = spec_usable_height(mon, gaps, dock_h);
    let hper = spec_stack_height(mon, gaps, dock_h, n);
    assert(0 <= uw <= 65535);
    assert(0 <= uh <= 65535);
    assert(0 <= spec_master_width(mon, gaps) <= 32767);
    assert(0 <= spec_stack_width(mon, gaps) <= 65535);
    if n >= 2 {
        let budget = sat_sub_int(uh, gaps * (n - 2));
        assert(gaps * (n - 2) >= 0) by (nonlinear_arith)
            requires
                gaps >= 0,
                n >= 2,
        ;
        assert(0 <= budget <= 65535);
        assert(hper == budget / (n - 1));
        assert(0 <= budget / (n - 1) <= budget) by (nonlinear_arith)
            requires
                budget >= 0,
                n - 1 >= 1,
        ;
    }
    assert(0 <= hper <= 65535);
    if i > 0 {
        let budget = sat_sub_int(uh, gaps * (n - 2));
        assert(gaps * (n - 2) >= 0) by (nonlinear_arith)
            requires
                gaps >= 0,
                n >= 2,
        ;
        assert(0 <= budget <= 65535);
        assert(hper == budget / (n - 1));
        lemma_fundamental_div_mod(budget, n - 1);
        lemma_mod_bound(budget, n - 1);
        assert((n - 1) * hper <= budget);
        assert((i - 1) * (hper + gaps) >= 0) by (nonlinear_arith)
            requires
                i >= 1,
                hper + gaps >= 0,
        ;
        assert((i - 1) * (hper + gaps) <= (n - 1) * (hper + gaps)) by (nonlinear_arith)
            requires
                0 <= i - 1 <= n - 1,
                hper + gaps >= 0,
        ;
        assert((n - 1) * (hper + gaps) == (n - 1) * hper + (n - 1) * gaps) by (nonlinear_arith);
        assert((n - 1) * gaps <= 65534 * 16384) by (nonlinear_arith)
            requires
                0 <= n - 1 <= 65534,
                0 <= gaps <= 16384,
        ;
        assert((i - 1) * (hper + gaps) <= 65535 + 65534 * 16384);
    }
}

/// The tile list and the styling the tiler applies. The engine holds the
/// derived numeric values of the configuration it needs, pushed to it by
/// `update_config`; the control loop owns the configuration itself.
pub struct MasterStackLayout {
    /// The managed tiled windows, in insertion order.
    pub tiles: Vec<u64>,
    /// The root window id, used only to refuse focusing the root.
    pub root: u64,
    /// The monitor the tiles are laid out on.
    pub monitor: Monitor,
    /// The window currently holding the focused border colour, if any.
    pub focused_window: Option<u64>,
    /// The height of the dock strut.
    pub dock_height: u32,
    /// The edge the dock strut occupies.
    pub dock_position: DockPosition,
    /// Border width applied to tiles, in pixels.
    pub border_width: u32,
    /// Gap between tiles and around the monitor edge, in pixels.
    pub gaps: u32,
    /// The normal border colour.
    pub border_color: u64,
    /// The border colour of the focused window.
    pub focused_border_color: u64,
}

impl MasterStackLayout {
    /// The bounds the geometry arithmetic needs; every value a server
    /// and a well-formed configuration can produce satisfies them.
    pub open spec fn wf(self) -> bool {
        &&& self.monitor.wf()
        &&& self.gaps <= 16384
        &&& self.border_width <= 65535
        &&& self.dock_height <= 65535
        &&& self.tiles@.len() <= 65535
    }

    /// The move-and-resize requests one relayout issues: one per tile,
    /// in tile order.
    pub open spec fn spec_relayout_actions(self, tiles: Seq<u64>) -> Seq<XAction> {
        Seq::new(
            tiles.len(),
            |i: int|
                {
                    let r = spec_tile_rect(
                        self.monitor,
                        self.gaps,
                        self.dock_position,
                        self.dock_height,
                        tiles.len() as int,
                        i,
                    );
                    XAction::MoveResizeWindow {
                        window: tiles[i],
                        x: r.x,
                        y: r.y,
                        width: r.width,
                        height: r.height,
                    }
                },
        )
    }

    /// A fresh engine for `monitor`, styled from `config`, with no tiles
    /// and no dock.
    pub fn new(root: u64, monitor: Monitor, config: &Config) -> (l: MasterStackLayout)
        requires
            monitor.wf(),
            config.wf(),
        ensures
            l.tiles@ == Seq::<u64>::empty(),
            l.root == root,
            l.monitor == monitor,
            l.focused_window is None,
            l.dock_height == 0,
            l.dock_position is Absent,
            l.border_width == config.appearance.border_width,
            l.gaps == config.appearance.gaps,
            l.border_color == crate::appearance::spec_color_value(
                crate::appearance::utf8_bytes(config.appearance.border_color@),
                0x7A8478,
            ),
            l.focused_border_color == crate::appearance::spec_color_value(
                crate::appearance::utf8_bytes(config.appearance.focused_border_color@),
                0xA7C080,
            ),
            l.wf(),
    {
        MasterStackLayout {
            tiles: Vec::new(),
            root,
            monitor,
            focused_window: None,
            dock_height: 0,
            dock_position: DockPosition::Absent,
            border_width: config.appearance.border_width,
            gaps: config.appearance.gaps,
            border_color: config.get_border_color(),
            focused_border_color: config.get_focused_border_color(),
        }
    }

    /// The root window the engine was created for.
    pub fn get_root(&self) -> (r: u64)
        ensures
            r == self.root,
    {
        self.root
    }

    /// The window holding the focused border colour, if any.
    pub fn get_focused_window(&self) -> (r: Option<u64>)
        ensures
            r == self.focused_window,
    {
        self.focused_window
    }

    /// Drop every tile and the focus slot (workspace switching starts
    /// from an empty engine).
    pub fn clear_windows(&mut self)
        ensures
            final(self).tiles@ == Seq::<u64>::empty(),
            final(self).focused_window is None,
            *final(self) == (MasterStackLayout {
                tiles: final(self).tiles,
                focused_window: None,
                ..*old(self)
            }),
    {
        self.tiles = Vec::new();
        self.focused_window = None;
    }

    /// The rectangle of tile `i` among `n`, as the tiling function
    /// dictates it.
    fn tile_geometry(&self, n: usize, i: usize) -> (r: Rect)
        requires
            self.wf(),
            1 <= n <= 65535,
            i < n,
        ensures
            r == spec_tile_rect(
                self.monitor,
                self.gaps,
                self.dock_position,
                self.dock_height,
                n as int,
                i as int,
            ),
    {
        proof {
            lemma_tile_bounds(
                self.monitor,
                self.gaps,
                self.dock_position,
                self.dock_height,
                n as int,
                i as int,
            );
        }
        let mx = self.monitor.x as i64;
        let my = self.monitor.y as i64;
        let mw = self.monitor.width as u64;
        let mh = self.monitor.height as u64;
        let g = self.gaps as u64;
        let dh = self.dock_height as u64;
        let yoff: u64 = if matches!(self.dock_position, DockPosition::Top) {
            dh
        } else {
            0
        };
        let h0: u64 = if mh >= dh {
            mh - dh
        } else {
            0
        };
        let uw: u64 = if mw >= 2 * g {
            mw - 2 * g
        } else {
            0
        };
        let uh: u64 = if h0 >= 2 * g {
            h0 - 2 * g
        } else {
            0
        };
        let master = uw / 2;
        if i == 0 {
            let w: u64 = if n == 1 {
                uw
            } else {
                master
            };
            Rect {
                x: (mx + g as i64) as i32,
                y: (my + yoff as i64 + g as i64) as i32,
                width: w as u32,
                height: uh as u32,
            }
        } else {
            let stack_w: u64 = if uw >= master + g {
                uw - master - g
            } else {
                0
            };
            proof {
                assert(g * ((n - 2) as int) <= 16384 * 65533) by (nonlinear_arith)
                    requires
                        g <= 16384,
                        n <= 65535,
                        n >= 2,
                ;
            }
            let gap_total: u64 = g * ((n - 2) as u64);
            let budget: u64 = if uh >= gap_total {
                uh - gap_total
            } else {
                0
            };
            let hper: u64 = budget / ((n - 1) as u64);
            proof {
                assert(budget as int / (n - 1) * (n - 1) <= budget && 0 <= budget as int / (n - 1))
                    by (nonlinear_arith)
                    requires
                        budget >= 0,
                        n >= 2,
                ;
                assert(hper == spec_stack_height(
                    self.monitor,
                    self.gaps,
                    self.dock_height,
                    n as int,
                ));
                assert((i - 1) * (hper + g) >= 0 && (i - 1) * (hper + g) <= 65534 * 81919)
                    by (nonlinear_arith)
                    requires
                        0 <= i - 1 <= 65534,
                        0 <= hper as int + g <= 81919,
                ;
            }
            let y: i64 = my + yoff as i64 + g as i64 + ((i - 1) as i64) * ((hper + g) as i64);
            Rect {
                x: (mx + g as i64 + master as i64 + g as i64) as i32,
                y: y as i32,
                width: stack_w as u32,
                height: hper as u32,
            }
        }
    }

    /// Re-run the tiling function: one move-and-resize per tile.
    pub fn relayout(&self) -> (acts: Vec<XAction>)
        requires
            self.wf(),
        ensures
            acts@ == self.spec_relayout_actions(self.tiles@),
    {
        let n = self.tiles.len();
        let mut acts: Vec<XAction> = Vec::new();
        if n == 0 {
            proof {
                assert(acts@ =~= self.spec_relayout_actions(self.tiles@));
            }
            return acts;
        }
        let mut i: usize = 0;
        while i < n
            invariant
                i <= n,
                1 <= n <= 65535,
                n == self.tiles@.len(),
                self.wf(),
                acts@.len() == i,
                forall|k: int|
                    0 <= k < i ==> acts@[k] == self.spec_relayout_actions(self.tiles@)[k],
            decreases n - i,
        {
            let r = self.tile_geometry(n, i);
            acts.push(
                XAction::MoveResizeWindow {
                    window: self.tiles[i],
                    x: r.x,
                    y: r.y,
                    width: r.width,
                    height: r.height,
                },
            );
            i += 1;
        }
        proof {
            assert(acts@ =~= self.spec_relayout_actions(self.tiles@));
        }
        acts
    }

    /// Paint `window` as focused, unpaint the previous holder, give it
    /// input focus and raise it; the root window is never focused.
    pub fn focus_window(&mut self, window: u64) -> (acts: Vec<XAction>)
        ensures
            window == old(self).root ==> *final(self) == *old(self) && acts@ == Seq::<
                XAction,
            >::empty(),
            window != old(self).root ==> *final(self) == (MasterStackLayout {
                focused_window: Some(window),
                ..*old(self)
            }) && acts@ == spec_focus_actions(
                old(self).focused_window,
                old(self).border_color,
                old(self).focused_border_color,
                window,
            ),
    {
        let mut acts: Vec<XAction> = Vec::new();
        if window == self.root {
            proof {
                assert(acts@ =~= Seq::<XAction>::empty());
            }
            return acts;
        }
        if let Some(prev) = self.focused_window {
            acts.push(XAction::SetBorderColor { window: prev, color: self.border_color });
        }
        acts.push(XAction::SetBorderColor { window, color: self.focused_border_color });
        acts.push(XAction::SetInputFocus { window });
        acts.push(XAction::RaiseWindow { window });
        acts.push(XAction::Sync);
        self.focused_window = Some(window);
        proof {
            assert(acts@ =~= spec_focus_actions(
                old(self).focused_window,
                old(self).border_color,
                old(self).focused_border_color,
                window,
            ));
        }
        acts
    }

    /// Append a tile: style its border, select its focus events, relayout
    /// everything, and focus it.
    pub fn add_window(&mut self, window: u64) -> (acts: Vec<XAction>)
        requires
            old(self).wf(),
            old(self).tiles@.len() < 65535,
        ensures
            final(self).tiles@ == old(self).tiles@.push(window),
            *final(self) == (MasterStackLayout {
                tiles: final(self).tiles,
                focused_window: if window != old(self).root {
                    Some(window)
                } else {
                    old(self).focused_window
                },
                ..*old(self)
            }),
            final(self).wf(),
            acts@ == seq![
                XAction::SetBorderWidth { window, width: old(self).border_width },
                XAction::SetBorderColor { window, color: old(self).border_color },
                XAction::SelectFocusEvents { window },
            ] + old(self).spec_relayout_actions(old(self).tiles@.push(window)) + (if window
                != old(self).root {
                spec_focus_actions(
                    old(self).focused_window,
                    old(self).border_color,
                    old(self).focused_border_color,
                    window,
                )
            } else {
                Seq::<XAction>::empty()
            }) + seq![XAction::Sync],
    {
        let mut acts: Vec<XAction> = Vec::new();
        acts.push(XAction::SetBorderWidth { window, width: self.border_width });
        acts.push(XAction::SetBorderColor { window, color: self.border_color });
        acts.push(XAction::SelectFocusEvents { window });
        self.tiles.push(window);
        let mut rel = self.relayout();
        proof {
            assert(rel@ =~= old(self).spec_relayout_actions(old(self).tiles@.push(window)));
        }
        acts.append(&mut rel);
        let mut focus_acts = self.focus_window(window);
        acts.append(&mut focus_acts);
        acts.push(XAction::Sync);
        proof {
            assert(acts@ =~= seq![
                XAction::SetBorderWidth { window, width: old(self).border_width },
                XAction::SetBorderColor { window, color: old(self).border_color },
                XAction::SelectFocusEvents { window },
            ] + old(self).spec_relayout_actions(old(self).tiles@.push(window)) + (if window
                != old(self).root {
                spec_focus_actions(
                    old(self).focused_window,
                    old(self).border_color,
                    old(self).focused_border_color,
                    window,
                )
            } else {
                Seq::<XAction>::empty()
            }) + seq![XAction::Sync]);
        }
        acts
    }

    /// Drop every occurrence of `window` from the tiles. When it held the
    /// focus, the focus moves to the last remaining tile, if any. Then
    /// relayout.
    ///
    /// Law: adding a tile that was not present and removing it again
    /// leaves the tile list — and with it every tile rectangle — exactly
    /// as it was (`lemma_add_remove_round_trip`).
    pub fn remove_window(&mut self, window: u64) -> (acts: Vec<XAction>)
        requires
            old(self).wf(),
        ensures
            final(self).tiles@ == old(self).tiles@.filter(|t: u64| t != window),
            final(self).wf(),
            *final(self) == (MasterStackLayout {
                tiles: final(self).tiles,
                focused_window: final(self).focused_window,
                ..*old(self)
            }),
            final(self).focused_window == (if old(self).focused_window == Some(window) {
                match spec_last_other(old(self).tiles@, window) {
                    Some(t) => if t != old(self).root {
                        Some(t)
                    } else {
                        None
                    },
                    None => None,
                }
            } else {
                old(self).focused_window
            }),
            acts@ == (if old(self).focused_window == Some(window) {
                match spec_last_other(old(self).tiles@, window) {
                    Some(t) => if t != old(self).root {
                        spec_focus_actions(
                            None,
                            old(self).border_color,
                            old(self).focused_border_color,
                            t,
                        )
                    } else {
                        Seq::<XAction>::empty()
                    },
                    None => Seq::<XAction>::empty(),
                }
            } else {
                Seq::<XAction>::empty()
            }) + old(self).spec_relayout_actions(
                old(self).tiles@.filter(|t: u64| t != window),
            ),
    {
        let mut acts: Vec<XAction> = Vec::new();
        if self.focused_window == Some(window) {
            self.focused_window = None;
            // The last tile that is not the one being removed inherits
            // the focus.
            let n = self.tiles.len();
            let mut k = n;
            let mut target: Option<u64> = None;
            while k > 0 && target.is_none()
                invariant
                    k <= n,
                    n == self.tiles@.len(),
                    target is None ==> forall|j: int| k <= j < n ==> self.tiles@[j] == window,
                    target is Some ==> target == spec_last_other(self.tiles@, window),
                decreases k,
            {
                k -= 1;
                let t = self.tiles[k];
                if t != window {
                    target = Some(t);
                    proof {
                        lemma_last_other_prefix(self.tiles@, window, k as int);
                    }
                }
            }
            proof {
                if target is None {
                    lemma_last_other_none(self.tiles@, window);
                }
            }
            if let Some(t) = target {
                let mut focus_acts = self.focus_window(t);
                acts.append(&mut focus_acts);
            }
        }
        let n = self.tiles.len();
        let mut kept: Vec<u64> = Vec::new();
        let mut i: usize = 0;
        proof {
            assert(self.tiles@.subrange(0, 0) =~= Seq::<u64>::empty());
            assert(Seq::<u64>::empty().filter(|t: u64| t != window) =~= Seq::<u64>::empty());
        }
        while i < n
            invariant
                i <= n,
                n == self.tiles@.len(),
                kept@ == self.tiles@.subrange(0, i as int).filter(|t: u64| t != window),
            decreases n - i,
        {
            let t = self.tiles[i];
            proof {
                let pre = self.tiles@.subrange(0, i as int);
                let cur = self.tiles@.subrange(0, i + 1);
                assert(cur.drop_last() =~= pre);
                assert(cur.last() == self.tiles@[i as int]);
                reveal(Seq::filter);
            }
            if t != window {
                kept.push(t);
            }
            i += 1;
        }
        proof {
            assert(self.tiles@.subrange(0, n as int) =~= self.tiles@);
        }
        proof {
            lemma_filter_len(old(self).tiles@, window);
        }
        self.tiles = kept;
        let mut rel = self.relayout();
        proof {
            assert(rel@ =~= old(self).spec_relayout_actions(
                old(self).tiles@.filter(|t: u64| t != window),
            ));
        }
        acts.append(&mut rel);
        acts
    }

    /// Exchange the positions of two tiles and relayout; nothing happens
    /// unless both are present.
    ///
    /// Law: swapping the same pair twice restores the tile list — and
    /// with it every tile rectangle (`lemma_swap_twice`).
    pub fn swap_windows(&mut self, window1: u64, window2: u64) -> (acts: Vec<XAction>)
        requires
            old(self).wf(),
        ensures
            final(self).wf(),
            (forall|i1: int, i2: int|
                first_index_of(old(self).tiles@, window1, i1) && first_index_of(
                    old(self).tiles@,
                    window2,
                    i2,
                ) ==> {
                    &&& final(self).tiles@ == old(self).tiles@.update(
                        i1,
                        old(self).tiles@[i2],
                    ).update(i2, old(self).tiles@[i1])
                    &&& acts@ == old(self).spec_relayout_actions(final(self).tiles@)
                }),
            (!(exists|i1: int| first_index_of(old(self).tiles@, window1, i1)) || !(exists|i2: int|
                first_index_of(old(self).tiles@, window2, i2))) ==> *final(self) == *old(self)
                && acts@ == Seq::<XAction>::empty(),
            *final(self) == (MasterStackLayout { tiles: final(self).tiles, ..*old(self) }),
    {
        let idx1 = match self.position_of(window1) {
            Some(i) => i,
            None => {
                let acts: Vec<XAction> = Vec::new();
                proof {
                    assert(acts@ =~= Seq::<XAction>::empty());
                }
                return acts;
            },
        };
        let idx2 = match self.position_of(window2) {
            Some(i) => i,
            None => {
                let acts: Vec<XAction> = Vec::new();
                proof {
                    assert(acts@ =~= Seq::<XAction>::empty());
                }
                return acts;
            },
        };
        let a = self.tiles[idx1];
        let b = self.tiles[idx2];
        self.tiles[idx1] = b;
        self.tiles[idx2] = a;
        let acts = self.relayout();
        proof {
            assert(acts@ =~= old(self).spec_relayout_actions(self.tiles@));
            assert forall|i1: int, i2: int|
                first_index_of(old(self).tiles@, window1, i1) && first_index_of(
                    old(self).tiles@,
                    window2,
                    i2,
                ) implies i1 == idx1 as int && i2 == idx2 as int by {
                lemma_first_index_unique(old(self).tiles@, window1, i1, idx1 as int);
                lemma_first_index_unique(old(self).tiles@, window2, i2, idx2 as int);
            }
        }
        acts
    }

    /// The first position of `window` among the tiles.
    fn position_of(&self, window: u64) -> (r: Option<usize>)
        ensures
            match r {
                Some(i) => first_index_of(self.tiles@, window, i as int),
                None => !(exists|i: int| first_index_of(self.tiles@, window, i)),
            },
    {
        let n = self.tiles.len();
        let mut i: usize = 0;
        while i < n
            invariant
                i <= n,
                n == self.tiles@.len(),
                forall|k: int| 0 <= k < i ==> self.tiles@[k] != window,
            decreases n - i,
        {
            if self.tiles[i] == window {
                return Some(i);
            }
            i += 1;
        }
        proof {
            assert forall|k: int| first_index_of(self.tiles@, window, k) implies false by {}
        }
        None
    }

    /// Take the new styling over: re-apply border width and colour to
    /// every tile, then relayout under the new gaps.
    pub fn update_config(&mut self, config: &Config) -> (acts: Vec<XAction>)
        requires
            old(self).wf(),
            config.wf(),
        ensures
            *final(self) == (MasterStackLayout {
                border_width: config.appearance.border_width,
                gaps: config.appearance.gaps,
                border_color: crate::appearance::spec_color_value(
                    crate::appearance::utf8_bytes(config.appearance.border_color@),
                    0x7A8478,
                ),
                focused_border_color: crate::appearance::spec_color_value(
                    crate::appearance::utf8_bytes(config.appearance.focused_border_color@),
                    0xA7C080,
                ),
                ..*old(self)
            }),
            final(self).wf(),
            acts@ == spec_restyle_actions(
                old(self).tiles@,
                config.appearance.border_width,
                final(self).border_color,
            ) + seq![XAction::Sync] + final(self).spec_relayout_actions(old(self).tiles@),
    {
        self.border_width = config.appearance.border_width;
        self.gaps = config.appearance.gaps;
        self.border_color = config.get_border_color();
        self.focused_border_color = config.get_focused_border_color();
        let n = self.tiles.len();
        let mut acts: Vec<XAction> = Vec::new();
        let mut i: usize = 0;
        proof {
            assert(self.tiles@.subrange(0, 0) =~= Seq::<u64>::empty());
        }
        while i < n
            invariant
                i <= n,
                n == self.tiles@.len(),
                acts@ == spec_restyle_actions(
                    self.tiles@.subrange(0, i as int),
                    self.border_width,
                    self.border_color,
                ),
                *self == (MasterStackLayout {
                    border_width: config.appearance.border_width,
                    gaps: config.appearance.gaps,
                    border_color: self.border_color,
                    focused_border_color: self.focused_border_color,
                    ..*old(self)
                }),
                self.border_color == crate::appearance::spec_color_value(
                    crate::appearance::utf8_bytes(config.appearance.border_color@),
                    0x7A8478,
                ),
                self.focused_border_color == crate::appearance::spec_color_value(
                    crate::appearance::utf8_bytes(config.appearance.focused_border_color@),
                    0xA7C080,
                ),
                self.wf(),
            decreases n - i,
        {
            let w = self.tiles[i];
            acts.push(XAction::SetBorderWidth { window: w, width: 0 });
            acts.push(XAction::SetBorderWidth { window: w, width: self.border_width });
            acts.push(XAction::SetBorderColor { window: w, color: self.border_color });
            acts.push(XAction::ClearWindow { window: w });
            proof {
                let pre = self.tiles@.subrange(0, i as int);
                let cur = self.tiles@.subrange(0, i + 1);
                assert(cur.drop_last() =~= pre);
                assert(cur.last() == self.tiles@[i as int]);
            }
            i += 1;
        }
        proof {
            assert(self.tiles@.subrange(0, n as int) =~= self.tiles@);
        }
        acts.push(XAction::Sync);
        let mut rel = self.relayout();
        acts.append(&mut rel);
        proof {
            assert(acts@ =~= spec_restyle_actions(
                old(self).tiles@,
                config.appearance.border_width,
                self.border_color,
            ) + seq![XAction::Sync] + self.spec_relayout_actions(old(self).tiles@));
        }
        acts
    }

    /// Record the dock strut: on the top edge when its window sits in
    /// the upper half of the monitor, else on the bottom; then relayout.
    pub fn update_dock_space(&mut self, y: i32, height: u32) -> (acts: Vec<XAction>)
        requires
            old(self).wf(),
            height <= 65535,
        ensures
            *final(self) == (MasterStackLayout {
                dock_position: if y < old(self).monitor.height as int / 2 {
                    DockPosition::Top
                } else {
                    DockPosition::Bottom
                },
                dock_height: height,
                ..*old(self)
            }),
            final(self).wf(),
            acts@ == final(self).spec_relayout_actions(old(self).tiles@),
    {
        let half = (self.monitor.height / 2) as i64;
        if (y as i64) < half {
            self.dock_position = DockPosition::Top;
        } else {
            self.dock_position = DockPosition::Bottom;
        }
        self.dock_height = height;
        self.relayout()
    }
}

/// The requests that move the focused border, input focus and stacking
/// to `window`, after restoring the previous holder's border if any.
pub open spec fn spec_focus_actions(
    prev: Option<u64>,
    border_color: u64,
    focused_border_color: u64,
    window: u64,
) -> Seq<XAction> {
    let tail = seq![
        XAction::SetBorderColor { window, color: focused_border_color },
        XAction::SetInputFocus { window },
        XAction::RaiseWindow { window },
        XAction::Sync,
    ];
    match prev {
        Some(p) => seq![XAction::SetBorderColor { window: p, color: border_color }] + tail,
        None => tail,
    }
}

/// The restyling requests `update_config` issues, four per tile in tile
/// order.
pub open spec fn spec_restyle_actions(tiles: Seq<u64>, bw: u32, color: u64) -> Seq<XAction>
    decreases tiles.len(),
{
    if tiles.len() == 0 {
        Seq::<XAction>::empty()
    } else {
        spec_restyle_actions(tiles.drop_last(), bw, color) + seq![
            XAction::SetBorderWidth { window: tiles.last(), width: 0 },
            XAction::SetBorderWidth { window: tiles.last(), width: bw },
            XAction::SetBorderColor { window: tiles.last(), color },
            XAction::ClearWindow { window: tiles.last() },
        ]
    }
}

/// The last element differing from `id`, if any.
pub open spec fn spec_last_other(tiles: Seq<u64>, id: u64) -> Option<u64>
    decreases tiles.len(),
{
    if tiles.len() == 0 {
        None
    } else if tiles.last() != id {
        Some(tiles.last())
    } else {
        spec_last_other(tiles.drop_last(), id)
    }
}

/// `i` is the first position carrying `id`.
pub open spec fn first_index_of(s: Seq<u64>, id: u64, i: int) -> bool {
    &&& 0 <= i < s.len()
    &&& s[i] == id
    &&& forall|k: int| 0 <= k < i ==> s[k] != id
}

proof fn lemma_first_index_unique(s: Seq<u64>, id: u64, i: int, j: int)
    requires
        first_index_of(s, id, i),
        first_index_of(s, id, j),
    ensures
        i == j,
{
    if i < j {
        assert(s[i] != id);
    }
    if j < i {
        assert(s[j] != id);
    }
}

/// A suffix whose later part already yields an answer yields the same
/// answer for the whole sequence.
proof fn lemma_last_other_prefix(s: Seq<u64>, id: u64, k: int)
    requires
        0 <= k < s.len(),
        s[k] != id,
        forall|j: int| k < j < s.len() ==> s[j] == id,
    ensures
        spec_last_other(s, id) == Some(s[k]),
    decreases s.len(),
{
    if k == s.len() - 1 {
    } else {
        assert(s.last() == id);
        let t = s.drop_last();
        assert(t[k] == s[k]);
        lemma_last_other_prefix(t, id, k);
    }
}

/// A sequence of nothing but `id` has no other element.
proof fn lemma_last_other_none(s: Seq<u64>, id: u64)
    requires
        forall|j: int| 0 <= j < s.len() ==> s[j] == id,
    ensures
        spec_last_other(s, id) is None,
    decreases s.len(),
{
    if s.len() > 0 {
        lemma_last_other_none(s.drop_last(), id);
    }
}

proof fn lemma_filter_len(s: Seq<u64>, id: u64)
    ensures
        s.filter(|t: u64| t != id).len() <= s.len(),
    decreases s.len(),
{
    reveal(Seq::filter);
    if s.len() > 0 {
        lemma_filter_len(s.drop_last(), id);
    }
}

/// The rectangle left for tiles once the dock strut and the outer gaps
/// are taken away.
pub open spec fn spec_usable_rect(
    mon: Monitor,
    gaps: u32,
    dock_pos: DockPosition,
    dock_h: u32,
) -> Rect {
    Rect {
        x: (mon.x + gaps) as i32,
        y: (mon.y + spec_y_offset(dock_pos, dock_h) + gaps) as i32,
        width: spec_usable_width(mon, gaps) as u32,
        height: spec_usable_height(mon, gaps, dock_h) as u32,
    }
}

/// Law: tile rectangles are pairwise disjoint — no pixel belongs to two
/// tiles. This holds for every monitor and dock the server can
/// describe, which covers in particular every monitor of at least
/// 200 by 200 pixels with gaps up to 32 and up to 20 windows.
pub proof fn lemma_tiles_disjoint(
    mon: Monitor,
    gaps: u32,
    dock_pos: DockPosition,
    dock_h: u32,
    n: int,
    i: int,
    j: int,
)
    requires
        mon.wf(),
        gaps <= 16384,
        dock_h <= 65535,
        1 <= n <= 65535,
        0 <= i < j < n,
    ensures
        spec_tile_rect(mon, gaps, dock_pos, dock_h, n, i).spec_disjoint(
            spec_tile_rect(mon, gaps, dock_pos, dock_h, n, j),
        ),
{
    lemma_tile_bounds(mon, gaps, dock_pos, dock_h, n, i);
    lemma_tile_bounds(mon, gaps, dock_pos, dock_h, n, j);
    let ri = spec_tile_rect(mon, gaps, dock_pos, dock_h, n, i);
    let rj = spec_tile_rect(mon, gaps, dock_pos, dock_h, n, j);
    let hper = spec_stack_height(mon, gaps, dock_h, n);
    let stride = hper + gaps;
    assert forall|px: int, py: int| !(ri.spec_contains(px, py) && #[trigger] rj.spec_contains(
        px,
        py,
    )) by {
        if ri.spec_contains(px, py) && rj.spec_contains(px, py) {
            if i == 0 {
                // Master column against a stack tile: the stack column
                // starts one gap to the right of the master's edge.
                assert(px < mon.x + gaps + spec_master_width(mon, gaps));
                assert(px >= mon.x + gaps + spec_master_width(mon, gaps) + gaps);
            } else {
                // Two stack tiles: row j starts at least one full row
                // stride below row i's top.
                assert((j - 1) * stride - (i - 1) * stride == (j - i) * stride)
                    by (nonlinear_arith);
                assert((j - i) * stride >= stride) by (nonlinear_arith)
                    requires
                        j - i >= 1,
                        stride >= 0,
                ;
                assert(py < spec_tile_y(mon, gaps, dock_pos, dock_h, n, i) + hper);
                assert(py >= spec_tile_y(mon, gaps, dock_pos, dock_h, n, j));
            }
        }
    }
}

/// Law: every tile lies inside the usable rectangle. As with
/// disjointness, this holds for every well-formed monitor and dock.
pub proof fn lemma_tile_inside_usable(
    mon: Monitor,
    gaps: u32,
    dock_pos: DockPosition,
    dock_h: u32,
    n: int,
    i: int,
)
    requires
        mon.wf(),
        gaps <= 16384,
        dock_h <= 65535,
        1 <= n <= 65535,
        0 <= i < n,
    ensures
        spec_tile_rect(mon, gaps, dock_pos, dock_h, n, i).spec_inside(
            spec_usable_rect(mon, gaps, dock_pos, dock_h),
        ),
{
    lemma_tile_bounds(mon, gaps, dock_pos, dock_h, n, i);
    let r = spec_tile_rect(mon, gaps, dock_pos, dock_h, n, i);
    let u = spec_usable_rect(mon, gaps, dock_pos, dock_h);
    let uw = spec_usable_width(mon, gaps);
    let uh = spec_usable_height(mon, gaps, dock_h);
    let master = spec_master_width(mon, gaps);
    let hper = spec_stack_height(mon, gaps, dock_h, n);
    let stride = hper + gaps;
    assert(2 * master <= uw);
    assert forall|px: int, py: int| #[trigger] r.spec_contains(px, py) implies u.spec_contains(
        px,
        py,
    ) by {
        if i > 0 {
            // Stack column: its right edge meets the usable rectangle's.
            assert(px < u.x + u.width);
            // Row i's bottom stays above the usable rectangle's bottom:
            // the rows and their gaps fit the stack budget by the
            // division that defined the row height.
            let budget = sat_sub_int(uh, gaps * (n - 2));
            assert(gaps * (n - 2) >= 0) by (nonlinear_arith)
                requires
                    gaps >= 0,
                    n >= 2,
            ;
            lemma_fundamental_div_mod(budget, n - 1);
            lemma_mod_bound(budget, n - 1);
            assert((n - 1) * hper <= budget);
            assert((i - 1) * stride >= 0) by (nonlinear_arith)
                requires
                    i >= 1,
                    stride >= 0,
            ;
            assert((i - 1) * stride <= (n - 2) * stride) by (nonlinear_arith)
                requires
                    0 <= i - 1 <= n - 2,
                    stride >= 0,
            ;
            assert((n - 2) * stride == (n - 2) * hper + (n - 2) * gaps) by (nonlinear_arith)
                requires
                    stride == hper + gaps,
            ;
            assert((n - 2) * hper + hper == (n - 1) * hper) by (nonlinear_arith);
            if budget > 0 {
                assert(gaps * (n - 2) <= uh);
                assert((i - 1) * stride + hper <= uh);
            } else {
                assert(hper == 0);
            }
        }
    }
}

/// Law: the columns partition the usable width exactly, and the stack
/// rows with their gaps cover the usable height up to less than `n`
/// pixels of rounding slack. Stated for the tested ranges: monitors of
/// at least 200 pixels a side, gaps up to 32, up to 20 windows, and a
/// dock small enough that the inter-row gaps still fit (without that a
/// tall dock leaves nothing to cover).
pub proof fn lemma_tiles_partition(
    mon: Monitor,
    gaps: u32,
    dock_pos: DockPosition,
    dock_h: u32,
    n: int,
)
    requires
        mon.wf(),
        mon.width >= 200,
        gaps <= 32,
        dock_h <= 65535,
        2 <= n <= 20,
        spec_usable_height(mon, gaps, dock_h) >= gaps * (n - 2),
    ensures
        spec_master_width(mon, gaps) + gaps + spec_stack_width(mon, gaps) == spec_usable_width(
            mon,
            gaps,
        ),
        (n - 1) * spec_stack_height(mon, gaps, dock_h, n) + gaps * (n - 2) <= spec_usable_height(
            mon,
            gaps,
            dock_h,
        ),
        spec_usable_height(mon, gaps, dock_h) - ((n - 1) * spec_stack_height(mon, gaps, dock_h, n)
            + gaps * (n - 2)) < n,
{
    let uw = spec_usable_width(mon, gaps);
    let uh = spec_usable_height(mon, gaps, dock_h);
    let master = spec_master_width(mon, gaps);
    assert(uw >= 136);
    assert(2 * master <= uw && uw <= 2 * master + 1);
    assert(master + gaps <= uw);
    let budget = sat_sub_int(uh, gaps * (n - 2));
    assert(gaps * (n - 2) >= 0) by (nonlinear_arith)
        requires
            gaps >= 0,
            n >= 2,
    ;
    assert(budget == uh - gaps * (n - 2));
    let hper = spec_stack_height(mon, gaps, dock_h, n);
    lemma_fundamental_div_mod(budget, n - 1);
    lemma_mod_bound(budget, n - 1);
    assert((n - 1) * hper == budget - budget % (n - 1));
}

/// Law: with a single window, its tile is exactly the usable rectangle.
pub proof fn lemma_single_tile_fills(mon: Monitor, gaps: u32, dock_pos: DockPosition, dock_h: u32)
    requires
        mon.wf(),
        gaps <= 16384,
        dock_h <= 65535,
    ensures
        spec_tile_rect(mon, gaps, dock_pos, dock_h, 1, 0) == spec_usable_rect(
            mon,
            gaps,
            dock_pos,
            dock_h,
        ),
{
}

/// Law: with two or more windows, the master column width lies between
/// one third and two thirds of the usable width.
pub proof fn lemma_master_width_bounds(mon: Monitor, gaps: u32)
    requires
        mon.wf(),
        gaps <= 16384,
    ensures
        spec_usable_width(mon, gaps) / 3 <= spec_master_width(mon, gaps),
        spec_master_width(mon, gaps) <= 2 * spec_usable_width(mon, gaps) / 3,
{
    let uw = spec_usable_width(mon, gaps);
    lemma_fundamental_div_mod(uw, 3);
    lemma_mod_bound(uw, 3);
    lemma_fundamental_div_mod(uw, 2);
    lemma_mod_bound(uw, 2);
    lemma_fundamental_div_mod(2 * uw, 3);
    lemma_mod_bound(2 * uw, 3);
}

/// The tile list after exchanging positions `i` and `j`, as
/// `swap_windows` produces it.
pub open spec fn seq_swap(s: Seq<u64>, i: int, j: int) -> Seq<u64> {
    s.update(i, s[j]).update(j, s[i])
}

/// Law: swapping a pair and swapping it back restores the tile list,
/// and with it the whole layout output, since each tile rectangle
/// depends only on the position and the count.
pub proof fn lemma_swap_twice(s: Seq<u64>, i: int, j: int)
    requires
        0 <= i < s.len(),
        0 <= j < s.len(),
    ensures
        seq_swap(seq_swap(s, i, j), j, i) == s,
        seq_swap(seq_swap(s, i, j), i, j) == s,
{
    assert(seq_swap(seq_swap(s, i, j), j, i) =~= s);
    assert(seq_swap(seq_swap(s, i, j), i, j) =~= s);
}

/// After one swap of the tiles of `a` and `b`, `a`'s first position is
/// `j` and `b`'s is `i`, provided each id occurs only once; a second
/// `swap_windows(a, b)` therefore exchanges the same pair back.
pub proof fn lemma_swap_positions(s: Seq<u64>, a: u64, b: u64, i: int, j: int)
    requires
        first_index_of(s, a, i),
        first_index_of(s, b, j),
        forall|k: int| 0 <= k < s.len() && s[k] == a ==> k == i,
        forall|k: int| 0 <= k < s.len() && s[k] == b ==> k == j,
        a != b,
    ensures
        first_index_of(seq_swap(s, i, j), a, j),
        first_index_of(seq_swap(s, i, j), b, i),
{
    let t = seq_swap(s, i, j);
    assert forall|k: int| 0 <= k < j implies t[k] != a by {
        if k != i && k != j {
            assert(t[k] == s[k]);
        }
    }
    assert forall|k: int| 0 <= k < i implies t[k] != b by {
        if k != i && k != j {
            assert(t[k] == s[k]);
        }
    }
}

/// Law: adding a tile that was not present and then removing it leaves
/// the tile list — and with it the layout output — exactly as it was.
/// (`add_window` appends and `remove_window` filters the id out, so the
/// composition is the identity on a list that never held the id.)
pub proof fn lemma_add_remove_round_trip(s: Seq<u64>, x: u64)
    requires
        forall|k: int| 0 <= k < s.len() ==> s[k] != x,
    ensures
        s.push(x).filter(|t: u64| t != x) == s,
{
    reveal(Seq::filter);
    assert(s.push(x).drop_last() =~= s);
    lemma_filter_all_pass(s, x);
}

/// Law: a float toggle removes the id from the tiles and the toggle
/// back appends it again, so when the window was the last tile (and
/// ids are unique) the tile list — and with it every tile rectangle —
/// is restored exactly; together with the record round trip
/// (`crate::window::lemma_float_round_trip`) the window's geometry
/// comes back exactly. A window that was not the last tile rejoins at
/// the end instead, which moves it within the stack.
pub proof fn lemma_refloat_restores_tiles(s: Seq<u64>, id: u64)
    requires
        s.len() > 0,
        s.last() == id,
        forall|k: int| 0 <= k < s.len() - 1 ==> s[k] != id,
    ensures
        s.filter(|t: u64| t != id).push(id) == s,
{
    reveal(Seq::filter);
    lemma_filter_all_pass(s.drop_last(), id);
    assert(s.filter(|t: u64| t != id).push(id) =~= s);
}

proof fn lemma_filter_all_pass(s: Seq<u64>, x: u64)
    requires
        forall|k: int| 0 <= k < s.len() ==> s[k] != x,
    ensures
        s.filter(|t: u64| t != x) == s,
    decreases s.len(),
{
    reveal(Seq::filter);
    if s.len() > 0 {
        lemma_filter_all_pass(s.drop_last(), x);
        assert(s.filter(|t: u64| t != x) =~= s);
    }
}

} // verus!
