//! The control loop's decision core: the per-event handlers as functions
//! from the manager's state and the event's plain values to the next
//! state and the server requests to issue.
//!
//! The unverified shell owns the display connection; it decodes each
//! event into plain values, hands them to the handler, and performs the
//! returned [`XAction`]s in order.

use vstd::prelude::*;

use crate::actions::{CursorKind, XAction};
use crate::commands::Bind;
use crate::config::Config;
use crate::geometry::{Monitor, Rect};
use crate::keybind::spec_modifier_mask;
use crate::layout::{spec_focus_actions, MasterStackLayout};
use crate::window::Window;
use crate::workspace::{first_index_with_id, spec_workspace_name, Workspace};

verus! {

/// The most tiles the engine will take; far beyond what one X server
/// can hand a client, and small enough that every coordinate the tiler
/// computes fits the protocol's types.
pub const MAX_TILES: usize = 65535;

/// A window the tiler owns: neither floating nor a dock.
pub open spec fn is_tiled(w: Window) -> bool {
    !w.is_floating && !w.is_dock
}

/// No two records of the list share an id.
pub open spec fn unique_ids(ws: Seq<Window>) -> bool {
    forall|i: int, j: int|
        0 <= i < j < ws.len() ==> (#[trigger] ws[i]).id != (#[trigger] ws[j]).id
}

/// Some record of the list carries `id`.
pub open spec fn has_id(ws: Seq<Window>, id: u64) -> bool {
    exists|k: int| 0 <= k < ws.len() && (#[trigger] ws[k]).id == id
}

/// Every dock record is also marked floating.
pub open spec fn docks_float(ws: Seq<Window>) -> bool {
    forall|k: int| 0 <= k < ws.len() && (#[trigger] ws[k]).is_dock ==> ws[k].is_floating
}

/// The ids of the tiled windows of the list, in order.
pub open spec fn tiled_ids(ws: Seq<Window>) -> Seq<u64>
    decreases ws.len(),
{
    if ws.len() == 0 {
        Seq::<u64>::empty()
    } else {
        let rest = tiled_ids(ws.drop_last());
        if is_tiled(ws.last()) {
            rest.push(ws.last().id)
        } else {
            rest
        }
    }
}

/// One border-colour request per record, in order: the focused colour
/// for `focused`, the normal colour for the rest.
pub open spec fn spec_repaint_actions(
    ws: Seq<Window>,
    focused: u64,
    normal: u64,
    focus_color: u64,
) -> Seq<XAction>
    decreases ws.len(),
{
    if ws.len() == 0 {
        Seq::<XAction>::empty()
    } else {
        spec_repaint_actions(ws.drop_last(), focused, normal, focus_color) + seq![
            XAction::SetBorderColor {
                window: ws.last().id,
                color: if ws.last().id == focused {
                    focus_color
                } else {
                    normal
                },
            },
        ]
    }
}

/// One raise per floating non-dock record, in order.
pub open spec fn spec_raise_floats(ws: Seq<Window>) -> Seq<XAction>
    decreases ws.len(),
{
    if ws.len() == 0 {
        Seq::<XAction>::empty()
    } else {
        let rest = spec_raise_floats(ws.drop_last());
        if ws.last().is_floating && !ws.last().is_dock {
            rest.push(XAction::RaiseWindow { window: ws.last().id })
        } else {
            rest
        }
    }
}

/// One raise per dock record, in order.
pub open spec fn spec_raise_docks(ws: Seq<Window>) -> Seq<XAction>
    decreases ws.len(),
{
    if ws.len() == 0 {
        Seq::<XAction>::empty()
    } else {
        let rest = spec_raise_docks(ws.drop_last());
        if ws.last().is_dock {
            rest.push(XAction::RaiseWindow { window: ws.last().id })
        } else {
            rest
        }
    }
}

/// One key grab per bind, in order, under the one global modifier mask.
pub open spec fn spec_grab_key_actions(binds: Seq<Bind>, mask: u32) -> Seq<XAction>
    decreases binds.len(),
{
    if binds.len() == 0 {
        Seq::<XAction>::empty()
    } else {
        spec_grab_key_actions(binds.drop_last(), mask) + seq![
            XAction::GrabKey {
                keysym: crate::keybind::spec_keysym(binds.last().key@),
                modifier: mask,
            },
        ]
    }
}

/// One unmap per non-dock record, in order (what leaving a workspace
/// issues; docks stay mapped).
pub open spec fn spec_unmap_nondock(ws: Seq<Window>) -> Seq<XAction>
    decreases ws.len(),
{
    if ws.len() == 0 {
        Seq::<XAction>::empty()
    } else {
        let rest = spec_unmap_nondock(ws.drop_last());
        if !ws.last().is_dock {
            rest.push(XAction::UnmapWindow { window: ws.last().id })
        } else {
            rest
        }
    }
}

/// The restyle a workspace switch owes each incoming non-dock window:
/// map it, set its border width, re-grab the gesture buttons, grab the
/// unmodified click under click-to-focus, and restore a floating
/// window's saved geometry.
pub open spec fn switch_setup_issued(
    acts: Seq<XAction>,
    w: Window,
    bw: u32,
    mask: u32,
    ffm: bool,
) -> bool {
    &&& acts.contains(XAction::MapWindow { window: w.id })
    &&& acts.contains(XAction::SetBorderWidth { window: w.id, width: bw })
    &&& acts.contains(XAction::GrabMoveResizeButtons { window: w.id, modifier: mask })
    &&& (!ffm ==> acts.contains(XAction::GrabClickToFocus { window: w.id }))
    &&& (w.is_floating ==> acts.contains(
        XAction::MoveResizeWindow { window: w.id, x: w.x, y: w.y, width: w.width, height: w.height },
    ))
}

/// What a meaningful workspace switch does: the outgoing non-dock
/// windows are unmapped first, the new index is published, nothing is
/// unmapped after that (docks stay mapped), every incoming non-dock
/// window is mapped and restyled, the tiler is rebuilt from the
/// incoming workspace, and its focus hint becomes the active window.
pub open spec fn spec_switch_effect(
    pre: WindowManager,
    post: WindowManager,
    index: int,
    acts: Seq<XAction>,
) -> bool {
    let outgoing = pre.current_windows();
    let incoming = pre.workspaces@[index].windows@;
    let unmaps = spec_unmap_nondock(outgoing);
    &&& post.current_workspace == index
    &&& post.workspaces == pre.workspaces
    &&& post.config == pre.config
    &&& post.running == pre.running
    &&& post.dragging == pre.dragging && post.resizing == pre.resizing
    &&& post.dragged_window == pre.dragged_window && post.resized_window == pre.resized_window
    &&& post.root == pre.root
    &&& post.net_active_window == (match pre.workspaces@[index].spec_focused() {
        Some(w) => if !w.is_dock && w.id != pre.root {
            w.id
        } else {
            pre.net_active_window
        },
        None => pre.net_active_window,
    })
    &&& post.layout.tiles@ == tiled_ids(incoming)
    &&& post.layout == (MasterStackLayout {
        tiles: post.layout.tiles,
        focused_window: post.layout.focused_window,
        ..pre.layout
    })
    &&& acts.len() >= unmaps.len() + 2
    &&& acts.subrange(0, unmaps.len() as int) == unmaps
    &&& acts[unmaps.len() as int] == (XAction::SetCurrentDesktopProperty { index: index as u32 })
    &&& acts[unmaps.len() as int + 1] == XAction::Sync
    &&& (forall|k: int|
        unmaps.len() <= k < acts.len() ==> !((#[trigger] acts[k]) is UnmapWindow))
    &&& (forall|m: int|
        0 <= m < incoming.len() && !(#[trigger] incoming[m]).is_dock ==> switch_setup_issued(
            acts,
            incoming[m],
            pre.config.appearance.border_width,
            spec_modifier_mask(pre.config.modifier@),
            pre.config.appearance.focus_follows_mouse,
        ))
}

/// The fullscreen shape of a window list: every fullscreen record has
/// no border and fills one of the given monitors exactly.
pub open spec fn spec_fullscreen_invariant(ws: Seq<Window>, mons: Seq<Monitor>) -> bool {
    forall|k: int|
        0 <= k < ws.len() && (#[trigger] ws[k]).is_fullscreen ==> ws[k].border_width == 0 && (
        exists|m: int|
            0 <= m < mons.len() && (#[trigger] mons[m]).x == ws[k].x && mons[m].y == ws[k].y
                && mons[m].width == ws[k].width && mons[m].height == ws[k].height)
}

/// What starting the move gesture does: the gesture state armed with
/// the pointer's start, the grab cursor shown, the window focused and
/// published.
pub open spec fn spec_drag_started(
    pre: WindowManager,
    post: WindowManager,
    window: u64,
    pointer_x: i32,
    pointer_y: i32,
    acts: Seq<XAction>,
) -> bool {
    &&& post == (WindowManager {
        dragging: true,
        drag_start_x: pointer_x,
        drag_start_y: pointer_y,
        dragged_window: Some(window),
        layout: post.layout,
        net_active_window: window,
        ..pre
    })
    &&& post.layout == (MasterStackLayout {
        focused_window: if window != pre.root {
            Some(window)
        } else {
            pre.layout.focused_window
        },
        ..pre.layout
    })
    &&& acts == seq![XAction::DefineCursor { window, cursor: CursorKind::Grabbing }] + (if window
        != pre.root {
        spec_focus_actions(
            pre.layout.focused_window,
            pre.layout.border_color,
            pre.layout.focused_border_color,
            window,
        )
    } else {
        Seq::<XAction>::empty()
    }) + seq![XAction::SetActiveWindowProperty { window }, XAction::Sync, XAction::Sync]
}

/// What starting the resize gesture does: for a managed window, the
/// gesture state remembers its size and the pointer, the grab cursor is
/// shown and the window focused and published; an unmanaged window only
/// arms the resizing flag.
pub open spec fn spec_resize_started(
    pre: WindowManager,
    post: WindowManager,
    window: u64,
    pointer_x: i32,
    pointer_y: i32,
    acts: Seq<XAction>,
) -> bool {
    &&& post.resizing == true
    &&& (!has_id(pre.current_windows(), window) ==> post == (WindowManager {
        resizing: true,
        ..pre
    }) && acts == Seq::<XAction>::empty())
    &&& (forall|i: int|
        first_index_with_id(pre.current_windows(), window, i) ==> ({
            let rec = pre.current_windows()[i];
            &&& post == (WindowManager {
                resizing: true,
                resize_start_width: rec.width,
                resize_start_height: rec.height,
                drag_start_x: pointer_x,
                drag_start_y: pointer_y,
                resized_window: Some(window),
                layout: post.layout,
                net_active_window: window,
                ..pre
            })
            &&& post.layout == (MasterStackLayout {
                focused_window: if window != pre.root {
                    Some(window)
                } else {
                    pre.layout.focused_window
                },
                ..pre.layout
            })
            &&& acts == seq![XAction::DefineCursor { window, cursor: CursorKind::Grabbing }] + (
            if window != pre.root {
                spec_focus_actions(
                    pre.layout.focused_window,
                    pre.layout.border_color,
                    pre.layout.focused_border_color,
                    window,
                )
            } else {
                Seq::<XAction>::empty()
            }) + seq![XAction::SetActiveWindowProperty { window }, XAction::Sync, XAction::Sync]
        }))
}

/// The single-threaded control state: configuration, the tiler, the ten
/// workspaces, the gesture machine, and the published EWMH values.
pub struct WindowManager {
    pub config: Config,
    pub layout: MasterStackLayout,
    pub workspaces: Vec<Workspace>,
    pub current_workspace: usize,
    pub running: bool,
    pub dragging: bool,
    pub drag_start_x: i32,
    pub drag_start_y: i32,
    pub dragged_window: Option<u64>,
    pub resizing: bool,
    pub resize_start_width: u32,
    pub resize_start_height: u32,
    pub resized_window: Option<u64>,
    pub root: u64,
    /// The value last published as `_NET_ACTIVE_WINDOW` (zero at start).
    pub net_active_window: u64,
}

impl WindowManager {
    /// The invariant every handler preserves: ten workspaces, a current
    /// index among them, bounded configuration and tiler, ids unique
    /// within each workspace, and every dock marked floating.
    pub open spec fn wf(self) -> bool {
        &&& self.workspaces@.len() == 10
        &&& self.current_workspace < 10
        &&& self.config.wf()
        &&& self.layout.wf()
        &&& self.layout.root == self.root
        &&& forall|i: int|
            0 <= i < 10 ==> (#[trigger] self.workspaces@[i]).windows@.len() <= 65535
        &&& forall|i: int| 0 <= i < 10 ==> unique_ids((#[trigger] self.workspaces@[i]).windows@)
        &&& forall|i: int| 0 <= i < 10 ==> docks_float((#[trigger] self.workspaces@[i]).windows@)
    }

    /// The window list of the workspace currently shown.
    pub open spec fn current_windows(self) -> Seq<Window> {
        self.workspaces@[self.current_workspace as int].windows@
    }

    /// The startup state and requests: the EWMH properties advertising
    /// ten empty desktops with the current one at zero and the active
    /// window published as zero, the root cursor, one key grab per
    /// bind, and the root event mask.
    pub fn new(root: u64, monitor: Monitor, config: Config) -> (r: (WindowManager, Vec<XAction>))
        requires
            monitor.wf(),
            config.wf(),
        ensures
            ({
                let (wm, acts) = r;
                &&& wm.wf()
                &&& wm.config == config
                &&& wm.root == root
                &&& wm.running == true
                &&& wm.current_workspace == 0
                &&& wm.net_active_window == 0
                &&& wm.dragging == false && wm.resizing == false
                &&& wm.dragged_window is None && wm.resized_window is None
                &&& wm.layout.tiles@ == Seq::<u64>::empty()
                &&& wm.layout.monitor == monitor
                &&& wm.layout.root == root
                &&& wm.layout.focused_window is None
                &&& wm.layout.dock_height == 0
                &&& wm.layout.dock_position is Absent
                &&& wm.layout.gaps == config.appearance.gaps
                &&& wm.layout.border_width == config.appearance.border_width
                &&& wm.layout.border_color == crate::appearance::spec_color_value(
                    crate::appearance::utf8_bytes(config.appearance.border_color@),
                    0x7A8478,
                )
                &&& wm.layout.focused_border_color == crate::appearance::spec_color_value(
                    crate::appearance::utf8_bytes(config.appearance.focused_border_color@),
                    0xA7C080,
                )
                &&& wm.workspaces@.len() == 10
                &&& (forall|i: int|
                    0 <= i < 10 ==> (#[trigger] wm.workspaces@[i]).windows@ == Seq::<
                        Window,
                    >::empty())
                &&& (forall|i: int|
                    0 <= i < 10 ==> (#[trigger] wm.workspaces@[i]).name@ == spec_workspace_name(i))
                &&& acts@ == seq![
                    XAction::SetSupportedProperty,
                    XAction::SetNumberOfDesktopsProperty { count: 10 },
                    XAction::SetCurrentDesktopProperty { index: 0 },
                    XAction::SetActiveWindowProperty { window: 0 },
                ] + seq![acts@[4]] + seq![
                    XAction::DefineCursor { window: root, cursor: CursorKind::Normal },
                ] + spec_grab_key_actions(config.binds@, spec_modifier_mask(config.modifier@))
                    + seq![XAction::Sync, XAction::SelectRootEvents, XAction::Sync]
                &&& (acts@[4] matches XAction::SetDesktopNamesProperty { names } && names@.len()
                    == 10 && (forall|i: int|
                    0 <= i < 10 ==> (#[trigger] names@[i])@ == spec_workspace_name(i)))
            }),
    {
        let mut acts: Vec<XAction> = Vec::new();
        acts.push(XAction::SetSupportedProperty);
        acts.push(XAction::SetNumberOfDesktopsProperty { count: 10 });
        acts.push(XAction::SetCurrentDesktopProperty { index: 0 });
        acts.push(XAction::SetActiveWindowProperty { window: 0 });
        let mut names: Vec<String> = Vec::new();
        let mut workspaces: Vec<Workspace> = Vec::new();
        let mut i: usize = 0;
        while i < 10
            invariant
                i <= 10,
                names@.len() == i,
                workspaces@.len() == i,
                forall|k: int| 0 <= k < i ==> (#[trigger] names@[k])@ == spec_workspace_name(k),
                forall|k: int|
                    0 <= k < i ==> (#[trigger] workspaces@[k]).windows@ == Seq::<Window>::empty(),
                forall|k: int|
                    0 <= k < i ==> (#[trigger] workspaces@[k]).name@ == spec_workspace_name(k),
                forall|k: int| 0 <= k < i ==> (#[trigger] workspaces@[k]).focused is None,
            decreases 10 - i,
        {
            let ws = Workspace::new(i);
            names.push(ws.name.clone());
            workspaces.push(ws);
            i += 1;
        }
        acts.push(XAction::SetDesktopNamesProperty { names });
        acts.push(XAction::DefineCursor { window: root, cursor: CursorKind::Normal });
        let mut grabs = Self::setup_key_bindings(&config);
        acts.append(&mut grabs);
        acts.push(XAction::SelectRootEvents);
        acts.push(XAction::Sync);
        let layout = MasterStackLayout::new(root, monitor, &config);
        let wm = WindowManager {
            config,
            layout,
            workspaces,
            current_workspace: 0,
            running: true,
            dragging: false,
            drag_start_x: 0,
            drag_start_y: 0,
            dragged_window: None,
            resizing: false,
            resize_start_width: 0,
            resize_start_height: 0,
            resized_window: None,
            root,
            net_active_window: 0,
        };
        proof {
            assert(acts@ =~= seq![
                XAction::SetSupportedProperty,
                XAction::SetNumberOfDesktopsProperty { count: 10 },
                XAction::SetCurrentDesktopProperty { index: 0 },
                XAction::SetActiveWindowProperty { window: 0 },
            ] + seq![acts@[4]] + seq![
                XAction::DefineCursor { window: root, cursor: CursorKind::Normal },
            ] + spec_grab_key_actions(
                wm.config.binds@,
                spec_modifier_mask(wm.config.modifier@),
            ) + seq![XAction::Sync, XAction::SelectRootEvents, XAction::Sync]);
        }
        (wm, acts)
    }

    /// One grab per configured bind, then a sync, as issued at startup
    /// and again after every configuration reload.
    pub fn setup_key_bindings(config: &Config) -> (acts: Vec<XAction>)
        ensures
            acts@ == spec_grab_key_actions(config.binds@, spec_modifier_mask(config.modifier@))
                + seq![XAction::Sync],
    {
        let mask = config.get_modifier();
        let n = config.binds.len();
        let mut acts: Vec<XAction> = Vec::new();
        let mut i: usize = 0;
        proof {
            assert(config.binds@.subrange(0, 0) =~= Seq::<Bind>::empty());
        }
        while i < n
            invariant
                i <= n,
                n == config.binds@.len(),
                mask == spec_modifier_mask(config.modifier@),
                acts@ == spec_grab_key_actions(config.binds@.subrange(0, i as int), mask),
            decreases n - i,
        {
            let keysym = config.get_keysym_for_key(config.binds[i].key.as_str());
            acts.push(XAction::GrabKey { keysym, modifier: mask });
            proof {
                let pre = config.binds@.subrange(0, i as int);
                let cur = config.binds@.subrange(0, i + 1);
                assert(cur.drop_last() =~= pre);
                assert(cur.last() == config.binds@[i as int]);
            }
            i += 1;
        }
        proof {
            assert(config.binds@.subrange(0, n as int) =~= config.binds@);
        }
        acts.push(XAction::Sync);
        acts
    }

    /// Publish `window` as `_NET_ACTIVE_WINDOW`.
    pub fn set_active_window(&mut self, window: u64) -> (acts: Vec<XAction>)
        ensures
            *final(self) == (WindowManager { net_active_window: window, ..*old(self) }),
            acts@ == seq![XAction::SetActiveWindowProperty { window }, XAction::Sync],
    {
        self.net_active_window = window;
        let mut acts: Vec<XAction> = Vec::new();
        acts.push(XAction::SetActiveWindowProperty { window });
        acts.push(XAction::Sync);
        proof {
            assert(acts@ =~= seq![XAction::SetActiveWindowProperty { window }, XAction::Sync]);
        }
        acts
    }

    /// Publish the current workspace index as `_NET_CURRENT_DESKTOP`.
    pub fn update_current_desktop(&self) -> (acts: Vec<XAction>)
        requires
            self.current_workspace < 10,
        ensures
            acts@ == seq![
                XAction::SetCurrentDesktopProperty { index: self.current_workspace as u32 },
                XAction::Sync,
            ],
    {
        let mut acts: Vec<XAction> = Vec::new();
        acts.push(
            XAction::SetCurrentDesktopProperty { index: self.current_workspace as u32 },
        );
        acts.push(XAction::Sync);
        proof {
            assert(acts@ =~= seq![
                XAction::SetCurrentDesktopProperty { index: self.current_workspace as u32 },
                XAction::Sync,
            ]);
        }
        acts
    }

    /// Raise every floating window, then every dock, of the current
    /// workspace, so tiles never cover overlays.
    pub fn raise_floating_windows(&self) -> (acts: Vec<XAction>)
        requires
            self.wf(),
        ensures
            acts@ == spec_raise_floats(self.current_windows()) + spec_raise_docks(
                self.current_windows(),
            ),
    {
        let ws = &self.workspaces[self.current_workspace];
        let n = ws.windows.len();
        let mut acts: Vec<XAction> = Vec::new();
        let mut i: usize = 0;
        proof {
            assert(ws.windows@.subrange(0, 0) =~= Seq::<Window>::empty());
        }
        while i < n
            invariant
                i <= n,
                n == ws.windows@.len(),
                acts@ == spec_raise_floats(ws.windows@.subrange(0, i as int)),
            decreases n - i,
        {
            let w = ws.windows[i];
            proof {
                let pre = ws.windows@.subrange(0, i as int);
                let cur = ws.windows@.subrange(0, i + 1);
                assert(cur.drop_last() =~= pre);
                assert(cur.last() == ws.windows@[i as int]);
            }
            if w.is_floating && !w.is_dock {
                acts.push(XAction::RaiseWindow { window: w.id });
            }
            i += 1;
        }
        let mut j: usize = 0;
        let ghost floats = spec_raise_floats(ws.windows@);
        proof {
            assert(ws.windows@.subrange(0, n as int) =~= ws.windows@);
            assert(ws.windows@.subrange(0, 0) =~= Seq::<Window>::empty());
            assert(acts@ =~= floats + spec_raise_docks(ws.windows@.subrange(0, 0)));
        }
        while j < n
            invariant
                j <= n,
                n == ws.windows@.len(),
                acts@ == floats + spec_raise_docks(ws.windows@.subrange(0, j as int)),
            decreases n - j,
        {
            let w = ws.windows[j];
            proof {
                let pre = ws.windows@.subrange(0, j as int);
                let cur = ws.windows@.subrange(0, j + 1);
                assert(cur.drop_last() =~= pre);
                assert(cur.last() == ws.windows@[j as int]);
            }
            if w.is_dock {
                acts.push(XAction::RaiseWindow { window: w.id });
            }
            j += 1;
        }
        proof {
            assert(ws.windows@.subrange(0, n as int) =~= ws.windows@);
        }
        acts
    }

    /// One border-colour request per window of the current workspace:
    /// the focused colour for `focused`, the normal one for the rest.
    fn repaint_borders(&self, focused: u64) -> (acts: Vec<XAction>)
        requires
            self.wf(),
        ensures
            acts@ == spec_repaint_actions(
                self.current_windows(),
                focused,
                crate::appearance::spec_color_value(
                    crate::appearance::utf8_bytes(self.config.appearance.border_color@),
                    0x7A8478,
                ),
                crate::appearance::spec_color_value(
                    crate::appearance::utf8_bytes(self.config.appearance.focused_border_color@),
                    0xA7C080,
                ),
            ),
    {
        let normal = self.config.get_border_color();
        let focus_color = self.config.get_focused_border_color();
        let ws = &self.workspaces[self.current_workspace];
        let n = ws.windows.len();
        let mut acts: Vec<XAction> = Vec::new();
        let mut i: usize = 0;
        proof {
            assert(ws.windows@.subrange(0, 0) =~= Seq::<Window>::empty());
        }
        while i < n
            invariant
                i <= n,
                n == ws.windows@.len(),
                acts@ == spec_repaint_actions(
                    ws.windows@.subrange(0, i as int),
                    focused,
                    normal,
                    focus_color,
                ),
            decreases n - i,
        {
            let w = ws.windows[i];
            proof {
                let pre = ws.windows@.subrange(0, i as int);
                let cur = ws.windows@.subrange(0, i + 1);
                assert(cur.drop_last() =~= pre);
                assert(cur.last() == ws.windows@[i as int]);
            }
            let color = if w.id == focused {
                focus_color
            } else {
                normal
            };
            acts.push(XAction::SetBorderColor { window: w.id, color });
            i += 1;
        }
        proof {
            assert(ws.windows@.subrange(0, n as int) =~= ws.windows@);
        }
        acts
    }

    /// The focused window: the server's input focus when it names a
    /// managed-looking window, else the published `_NET_ACTIVE_WINDOW`,
    /// else the current workspace's focus hint; zero when none applies.
    pub open spec fn spec_focused_target(self, input_focus: u64) -> u64 {
        if input_focus != 0 && input_focus != self.root {
            input_focus
        } else if self.net_active_window != 0 && self.net_active_window != self.root {
            self.net_active_window
        } else {
            match self.workspaces@[self.current_workspace as int].spec_focused() {
                Some(w) => w.id,
                None => 0,
            }
        }
    }

    /// The window the close and float toggles act on (their shared
    /// precedence).
    pub fn focused_target(&self, input_focus: u64) -> (r: u64)
        requires
            self.wf(),
        ensures
            r == self.spec_focused_target(input_focus),
    {
        if input_focus != 0 && input_focus != self.root {
            input_focus
        } else if self.net_active_window != 0 && self.net_active_window != self.root {
            self.net_active_window
        } else {
            match self.workspaces[self.current_workspace].get_focused_window() {
                Some(w) => w.id,
                None => 0,
            }
        }
    }

    /// A leave event asks nothing of the manager.
    pub fn handle_leave_notify(&self) -> (acts: Vec<XAction>)
        ensures
            acts@ == Seq::<XAction>::empty(),
    {
        let acts: Vec<XAction> = Vec::new();
        proof {
            assert(acts@ =~= Seq::<XAction>::empty());
        }
        acts
    }

    /// The indices of the binds a key press matches: the bind's key
    /// resolves to `keycodes[i]` and the global modifier is held.
    pub fn matching_binds(&self, keycode: u8, state_mask: u32, keycodes: &Vec<u8>) -> (r: Vec<
        usize,
    >)
        requires
            keycodes@.len() == self.config.binds@.len(),
        ensures
            ({
                let mask = spec_modifier_mask(self.config.modifier@);
                &&& (forall|k: int|
                    0 <= k < r@.len() ==> 0 <= #[trigger] r@[k] < self.config.binds@.len())
                &&& (forall|k: int|
                    0 <= k < r@.len() ==> (state_mask & mask) != 0 && keycodes@[r@[k] as int]
                        == keycode)
                &&& (forall|b: int|
                    0 <= b < self.config.binds@.len() && (state_mask & mask) != 0 && #[trigger]
                    keycodes@[b] == keycode ==> exists|k: int|
                        0 <= k < r@.len() && #[trigger] r@[k] == b)
                &&& (forall|k1: int, k2: int|
                    0 <= k1 < k2 < r@.len() ==> #[trigger] r@[k1] < #[trigger] r@[k2])
            }),
    {
        let mask = self.config.get_modifier();
        let n = self.config.binds.len();
        let mut r: Vec<usize> = Vec::new();
        if state_mask & mask == 0 {
            return r;
        }
        let mut i: usize = 0;
        while i < n
            invariant
                i <= n,
                n == self.config.binds@.len(),
                keycodes@.len() == n,
                forall|k: int| 0 <= k < r@.len() ==> 0 <= #[trigger] r@[k] < i,
                forall|k: int| 0 <= k < r@.len() ==> keycodes@[r@[k] as int] == keycode,
                forall|b: int|
                    0 <= b < i && #[trigger] keycodes@[b] == keycode ==> exists|k: int|
                        0 <= k < r@.len() && #[trigger] r@[k] == b,
                forall|k1: int, k2: int|
                    0 <= k1 < k2 < r@.len() ==> #[trigger] r@[k1] < #[trigger] r@[k2],
            decreases n - i,
        {
            let ghost prev = r@;
            if keycodes[i] == keycode {
                r.push(i);
            }
            proof {
                assert forall|b: int|
                    0 <= b < i + 1 && #[trigger] keycodes@[b] == keycode implies exists|k: int|
                    0 <= k < r@.len() && #[trigger] r@[k] == b by {
                    if b < i as int {
                        let k = choose|k: int| 0 <= k < prev.len() && prev[k] == b;
                        assert(r@[k] == b);
                    } else {
                        assert(r@[r@.len() - 1] == b);
                    }
                }
            }
            i += 1;
        }
        r
    }

    /// Switch to workspace `index` when a client message names it
    /// through `_NET_CURRENT_DESKTOP` (the decoded first datum).
    pub fn handle_client_message(&mut self, is_current_desktop: bool, data0: i64) -> (acts: Vec<
        XAction,
    >)
        requires
            old(self).wf(),
        ensures
            final(self).wf(),
            !(is_current_desktop && 0 <= data0 < 10) ==> *final(self) == *old(self) && acts@
                == Seq::<XAction>::empty(),
            (is_current_desktop && 0 <= data0 < 10 && data0 == old(self).current_workspace)
                ==> *final(self) == *old(self) && acts@ == Seq::<XAction>::empty(),
            (is_current_desktop && 0 <= data0 < 10 && data0 != old(self).current_workspace)
                ==> spec_switch_effect(*old(self), *final(self), data0 as int, acts@),
    {
        if is_current_desktop && data0 >= 0 && data0 < 10 {
            self.switch_to_workspace(data0 as usize)
        } else {
            let acts: Vec<XAction> = Vec::new();
            proof {
                assert(acts@ =~= Seq::<XAction>::empty());
            }
            acts
        }
    }

    /// Take a reloaded configuration over: release every key grab,
    /// grab the new binds, restyle and relayout the tiles.
    pub fn reload_config(&mut self, new_config: Config) -> (acts: Vec<XAction>)
        requires
            old(self).wf(),
            new_config.wf(),
        ensures
            final(self).wf(),
            final(self).config == new_config,
            *final(self) == (WindowManager {
                config: final(self).config,
                layout: final(self).layout,
                ..*old(self)
            }),
            final(self).layout == (MasterStackLayout {
                border_width: new_config.appearance.border_width,
                gaps: new_config.appearance.gaps,
                border_color: final(self).layout.border_color,
                focused_border_color: final(self).layout.focused_border_color,
                ..old(self).layout
            }),
            acts@ == seq![XAction::UngrabAllKeys] + spec_grab_key_actions(
                new_config.binds@,
                spec_modifier_mask(new_config.modifier@),
            ) + seq![XAction::Sync, XAction::Sync] + crate::layout::spec_restyle_actions(
                old(self).layout.tiles@,
                new_config.appearance.border_width,
                final(self).layout.border_color,
            ) + seq![XAction::Sync] + final(self).layout.spec_relayout_actions(
                old(self).layout.tiles@,
            ) + seq![XAction::Sync],
    {
        let mut acts: Vec<XAction> = Vec::new();
        acts.push(XAction::UngrabAllKeys);
        let mut grabs = Self::setup_key_bindings(&new_config);
        acts.append(&mut grabs);
        acts.push(XAction::Sync);
        let mut restyle = self.layout.update_config(&new_config);
        acts.append(&mut restyle);
        self.config = new_config;
        acts.push(XAction::Sync);
        proof {
            assert(acts@ =~= seq![XAction::UngrabAllKeys] + spec_grab_key_actions(
                self.config.binds@,
                spec_modifier_mask(self.config.modifier@),
            ) + seq![XAction::Sync, XAction::Sync] + crate::layout::spec_restyle_actions(
                old(self).layout.tiles@,
                self.config.appearance.border_width,
                self.layout.border_color,
            ) + seq![XAction::Sync] + self.layout.spec_relayout_actions(old(self).layout.tiles@)
                + seq![XAction::Sync]);
        }
        acts
    }

    /// Whether any workspace holds a record for `window`.
    fn window_known(&self, window: u64) -> (r: bool)
        requires
            self.wf(),
        ensures
            r == exists|i: int|
                0 <= i < 10 && has_id((#[trigger] self.workspaces@[i]).windows@, window),
    {
        let mut i: usize = 0;
        while i < 10
            invariant
                i <= 10,
                self.wf(),
                forall|k: int|
                    0 <= k < i ==> !has_id((#[trigger] self.workspaces@[k]).windows@, window),
            decreases 10 - i,
        {
            let ws = &self.workspaces[i];
            let n = ws.windows.len();
            let mut j: usize = 0;
            while j < n
                invariant
                    j <= n,
                    i < 10,
                    self.workspaces@.len() == 10,
                    ws.windows@ == self.workspaces@[i as int].windows@,
                    n == ws.windows@.len(),
                    forall|k: int| 0 <= k < j ==> (#[trigger] ws.windows@[k]).id != window,
                decreases n - j,
            {
                if ws.windows[j].id == window {
                    proof {
                        assert(has_id(self.workspaces@[i as int].windows@, window));
                    }
                    return true;
                }
                j += 1;
            }
            proof {
                assert(!has_id(ws.windows@, window));
            }
            i += 1;
        }
        false
    }

    /// The first index of `window` in the current workspace, if any.
    fn find_in_current(&self, window: u64) -> (r: Option<usize>)
        requires
            self.wf(),
        ensures
            match r {
                Some(i) => first_index_with_id(self.current_windows(), window, i as int),
                None => !has_id(self.current_windows(), window),
            },
    {
        let ws = &self.workspaces[self.current_workspace];
        let n = ws.windows.len();
        let mut j: usize = 0;
        while j < n
            invariant
                j <= n,
                self.wf(),
                n == self.current_windows().len(),
                ws == &self.workspaces@[self.current_workspace as int],
                forall|k: int| 0 <= k < j ==> (#[trigger] self.current_windows()[k]).id != window,
            decreases n - j,
        {
            if ws.windows[j].id == window {
                return Some(j);
            }
            j += 1;
        }
        None
    }

    /// A client asks to become viewable. A dock joins every workspace,
    /// keeps no border and feeds the strut; any other client is mapped,
    /// styled, tiled and focused on the current workspace. A window the
    /// manager already holds, and anything beyond the tile capacity, is
    /// left alone.
    #[verifier::rlimit(60)]
    pub fn handle_map_request(&mut self, window: u64, attrs: Rect, is_dock: bool) -> (acts: Vec<
        XAction,
    >)
        requires
            old(self).wf(),
            -32768 <= attrs.x <= 32767,
            -32768 <= attrs.y <= 32767,
            attrs.width <= 65535,
            attrs.height <= 65535,
        ensures
            final(self).wf(),
            *final(self) == (WindowManager {
                workspaces: final(self).workspaces,
                layout: final(self).layout,
                net_active_window: final(self).net_active_window,
                ..*old(self)
            }),
            ({
                let known = exists|i: int|
                    0 <= i < 10 && has_id((#[trigger] old(self).workspaces@[i]).windows@, window);
                let full = (exists|i: int|
                    0 <= i < 10 && (#[trigger] old(self).workspaces@[i]).windows@.len() >= 65535)
                    || old(self).layout.tiles@.len() >= 65535;
                let record = (Window {
                    border_width: if is_dock {
                        0u32
                    } else {
                        old(self).config.appearance.border_width
                    },
                    is_floating: is_dock,
                    is_dock,
                    ..Window {
                        id: window,
                        x: attrs.x,
                        y: attrs.y,
                        width: attrs.width,
                        height: attrs.height,
                        border_width: 0,
                        is_floating: false,
                        pre_float_x: 0,
                        pre_float_y: 0,
                        pre_float_width: 0,
                        pre_float_height: 0,
                        is_fullscreen: false,
                        pre_fullscreen_x: 0,
                        pre_fullscreen_y: 0,
                        pre_fullscreen_width: 0,
                        pre_fullscreen_height: 0,
                        pre_fullscreen_border_width: 0,
                        is_dock: false,
                    }
                });
                &&& (known || full) ==> *final(self) == *old(self) && acts@ == Seq::<
                    XAction,
                >::empty()
                &&& (!known && !full && is_dock) ==> ({
                    &&& (forall|i: int|
                        0 <= i < 10 ==> (#[trigger] final(self).workspaces@[i]).windows@ == old(self).workspaces@[i].windows@.push(record))
                    &&& (forall|i: int|
                        0 <= i < 10 ==> (#[trigger] final(self).workspaces@[i]).focused == Some(
                            old(self).workspaces@[i].windows@.len() as usize,
                        ))
                    &&& final(self).net_active_window == old(self).net_active_window
                    &&& final(self).layout == (MasterStackLayout {
                        dock_height: attrs.height,
                        dock_position: final(self).layout.dock_position,
                        ..old(self).layout
                    })
                    &&& final(self).layout.dock_height == attrs.height
                    &&& final(self).layout.dock_position == (if attrs.y < old(self).layout.monitor.height as int / 2 {
                        crate::layout::DockPosition::Top
                    } else {
                        crate::layout::DockPosition::Bottom
                    })
                    &&& final(self).layout.tiles@ == old(self).layout.tiles@
                    &&& acts@ == seq![
                        XAction::SetBorderWidth { window, width: 0 },
                        XAction::MapWindow { window },
                        XAction::RaiseWindow { window },
                    ] + final(self).layout.spec_relayout_actions(old(self).layout.tiles@)
                        + spec_raise_floats(final(self).current_windows()) + spec_raise_docks(
                        final(self).current_windows(),
                    ) + seq![XAction::Sync]
                })
                &&& (!known && !full && !is_dock) ==> ({
                    let cur = old(self).current_workspace as int;
                    &&& final(self).workspaces@[cur].windows@ == old(self).workspaces@[cur].windows@.push(record)
                    &&& final(self).workspaces@[cur].focused == Some(
                        old(self).workspaces@[cur].windows@.len() as usize,
                    )
                    &&& (forall|i: int|
                        0 <= i < 10 && i != cur ==> (#[trigger] final(self).workspaces@[i])
                            == old(self).workspaces@[i])
                    &&& final(self).layout == (MasterStackLayout {
                        tiles: final(self).layout.tiles,
                        focused_window: if window != old(self).root {
                            Some(window)
                        } else {
                            old(self).layout.focused_window
                        },
                        ..old(self).layout
                    })
                    &&& final(self).layout.tiles@ == old(self).layout.tiles@.push(window)
                    &&& final(self).net_active_window == window
                    &&& acts@ == seq![
                        XAction::GrabMoveResizeButtons {
                            window,
                            modifier: spec_modifier_mask(old(self).config.modifier@),
                        },
                    ] + (if !old(self).config.appearance.focus_follows_mouse {
                        seq![XAction::GrabClickToFocus { window }]
                    } else {
                        Seq::<XAction>::empty()
                    }) + seq![
                        XAction::MapWindow { window },
                        XAction::SetBorderWidth {
                            window,
                            width: old(self).config.appearance.border_width,
                        },
                    ] + seq![
                        XAction::SetBorderWidth {
                            window,
                            width: old(self).layout.border_width,
                        },
                        XAction::SetBorderColor {
                            window,
                            color: old(self).layout.border_color,
                        },
                        XAction::SelectFocusEvents { window },
                    ] + old(self).layout.spec_relayout_actions(old(self).layout.tiles@.push(window))
                        + (if window != old(self).root {
                        spec_focus_actions(
                            old(self).layout.focused_window,
                            old(self).layout.border_color,
                            old(self).layout.focused_border_color,
                            window,
                        )
                    } else {
                        Seq::<XAction>::empty()
                    }) + seq![XAction::Sync] + spec_repaint_actions(
                        final(self).current_windows(),
                        window,
                        crate::appearance::spec_color_value(
                            crate::appearance::utf8_bytes(
                                old(self).config.appearance.border_color@,
                            ),
                            0x7A8478,
                        ),
                        crate::appearance::spec_color_value(
                            crate::appearance::utf8_bytes(
                                old(self).config.appearance.focused_border_color@,
                            ),
                            0xA7C080,
                        ),
                    ) + seq![XAction::SetActiveWindowProperty { window }, XAction::Sync]
                        + seq![XAction::Sync] + spec_raise_floats(final(self).current_windows())
                        + spec_raise_docks(final(self).current_windows()) + seq![XAction::Sync]
                })
            }),
    {
        if self.window_known(window) {
            let acts: Vec<XAction> = Vec::new();
            proof {
                assert(acts@ =~= Seq::<XAction>::empty());
            }
            return acts;
        }
        let mut full = self.layout.tiles.len() >= MAX_TILES;
        let mut ci: usize = 0;
        while ci < 10
            invariant
                ci <= 10,
                self.wf(),
                *self == *old(self),
                full == ((exists|i: int|
                    0 <= i < ci && (#[trigger] self.workspaces@[i]).windows@.len() >= 65535)
                    || self.layout.tiles@.len() >= 65535),
            decreases 10 - ci,
        {
            if self.workspaces[ci].windows.len() >= MAX_TILES {
                full = true;
            }
            ci += 1;
        }
        if full {
            let acts: Vec<XAction> = Vec::new();
            proof {
                assert(acts@ =~= Seq::<XAction>::empty());
            }
            return acts;
        }
        let mut record = Window::new(window, attrs.x, attrs.y, attrs.width, attrs.height);
        let mut acts: Vec<XAction> = Vec::new();
        if is_dock {
            record.is_floating = true;
            record.is_dock = true;
            acts.push(XAction::SetBorderWidth { window, width: 0 });
            let mut i: usize = 0;
            while i < 10
                invariant
                    i <= 10,
                    old(self).wf(),
                    record.id == window,
                    record.is_dock && record.is_floating,
                    forall|k: int|
                        0 <= k < 10 ==> !has_id((#[trigger] old(self).workspaces@[k]).windows@, window),
                    forall|k: int|
                        0 <= k < 10 ==> (#[trigger] old(self).workspaces@[k]).windows@.len()
                            < 65535,
                    forall|k: int|
                        0 <= k < i ==> (#[trigger] self.workspaces@[k]).windows@ == old(self).workspaces@[k].windows@.push(record),
                    forall|k: int|
                        0 <= k < i ==> (#[trigger] self.workspaces@[k]).focused == Some(
                            old(self).workspaces@[k].windows@.len() as usize,
                        ),
                    forall|k: int|
                        i <= k < 10 ==> (#[trigger] self.workspaces@[k]) == old(self).workspaces@[k],
                    self.workspaces@.len() == 10,
                    *self == (WindowManager { workspaces: self.workspaces, ..*old(self) }),
                decreases 10 - i,
            {
                let ws = &mut self.workspaces[i];
                ws.add_window(record);
                proof {
                    lemma_push_preserves(old(self).workspaces@[i as int].windows@, record);
                }
                i += 1;
            }
            acts.push(XAction::MapWindow { window });
            acts.push(XAction::RaiseWindow { window });
            let mut dacts = self.layout.update_dock_space(record.y, record.height);
            acts.append(&mut dacts);
        } else {
            let mask = self.config.get_modifier();
            acts.push(XAction::GrabMoveResizeButtons { window, modifier: mask });
            if !self.config.appearance.focus_follows_mouse {
                acts.push(XAction::GrabClickToFocus { window });
            }
            acts.push(XAction::MapWindow { window });
            acts.push(
                XAction::SetBorderWidth {
                    window,
                    width: self.config.appearance.border_width,
                },
            );
            record.border_width = self.config.appearance.border_width;
            let cur = self.current_workspace;
            let ws = &mut self.workspaces[cur];
            ws.add_window(record);
            proof {
                lemma_push_preserves(old(self).workspaces@[cur as int].windows@, record);
            }
            let mut aacts = self.layout.add_window(window);
            acts.append(&mut aacts);
            let mut racts = self.repaint_borders(window);
            acts.append(&mut racts);
            let mut sacts = self.set_active_window(window);
            acts.append(&mut sacts);
            acts.push(XAction::Sync);
        }
        let mut facts = self.raise_floating_windows();
        acts.append(&mut facts);
        acts.push(XAction::Sync);
        acts
    }

    /// A window disappeared or asked to: drop its record from the
    /// current workspace and the tiler, then re-raise the overlays.
    fn remove_managed(&mut self, window: u64) -> (acts: Vec<XAction>)
        requires
            old(self).wf(),
        ensures
            final(self).wf(),
            *final(self) == (WindowManager {
                workspaces: final(self).workspaces,
                layout: final(self).layout,
                ..*old(self)
            }),
            final(self).workspaces@.len() == 10,
            (forall|i: int|
                0 <= i < 10 && i != old(self).current_workspace ==> (#[trigger] final(self).workspaces@[i]) == old(self).workspaces@[i]),
            !has_id(old(self).current_windows(), window) ==> final(self).workspaces@ == old(self).workspaces@,
            (forall|i: int|
                first_index_with_id(old(self).current_windows(), window, i)
                    ==> final(self).current_windows() == old(self).current_windows().remove(i)),
            final(self).layout.tiles@ == old(self).layout.tiles@.filter(|t: u64| t != window),
            (forall|i: int|
                first_index_with_id(old(self).current_windows(), window, i) ==> final(self).workspaces@[old(self).current_workspace as int].focused == (if old(self).workspaces@[old(self).current_workspace as int].focused == Some(
                    i as usize,
                ) {
                    if old(self).current_windows().len() > 1 {
                        Some((if i > 0 {
                            i - 1
                        } else {
                            0
                        }) as usize)
                    } else {
                        None::<usize>
                    }
                } else {
                    old(self).workspaces@[old(self).current_workspace as int].focused
                })),
            final(self).layout == (MasterStackLayout {
                tiles: final(self).layout.tiles,
                focused_window: final(self).layout.focused_window,
                ..old(self).layout
            }),
            final(self).layout.focused_window == (if old(self).layout.focused_window == Some(
                window,
            ) {
                match crate::layout::spec_last_other(old(self).layout.tiles@, window) {
                    Some(t) => if t != old(self).root {
                        Some(t)
                    } else {
                        None
                    },
                    None => None,
                }
            } else {
                old(self).layout.focused_window
            }),
            acts@ == (if old(self).layout.focused_window == Some(window) {
                match crate::layout::spec_last_other(old(self).layout.tiles@, window) {
                    Some(t) => if t != old(self).root {
                        spec_focus_actions(
                            None,
                            old(self).layout.border_color,
                            old(self).layout.focused_border_color,
                            t,
                        )
                    } else {
                        Seq::<XAction>::empty()
                    },
                    None => Seq::<XAction>::empty(),
                }
            } else {
                Seq::<XAction>::empty()
            }) + old(self).layout.spec_relayout_actions(
                old(self).layout.tiles@.filter(|t: u64| t != window),
            ) + spec_raise_floats(final(self).current_windows()) + spec_raise_docks(
                final(self).current_windows(),
            ) + seq![XAction::Sync],
    {
        let cur = self.current_workspace;
        let ghost before = self.workspaces@[cur as int].windows@;
        let ws = &mut self.workspaces[cur];
        ws.remove_window(window);
        proof {
            if exists|i: int| first_index_with_id(before, window, i) {
                let i = choose|i: int| first_index_with_id(before, window, i);
                lemma_remove_preserves(before, i);
            }
        }
        proof {
            if !has_id(before, window) {
                assert(self.workspaces@ =~= old(self).workspaces@);
            }
        }
        let mut acts = self.layout.remove_window(window);
        let mut racts = self.raise_floating_windows();
        acts.append(&mut racts);
        acts.push(XAction::Sync);
        acts
    }

    /// The server says the window is no longer viewable: forget it.
    pub fn handle_unmap_notify(&mut self, window: u64) -> (acts: Vec<XAction>)
        requires
            old(self).wf(),
        ensures
            final(self).wf(),
            *final(self) == (WindowManager {
                workspaces: final(self).workspaces,
                layout: final(self).layout,
                ..*old(self)
            }),
            (forall|i: int|
                0 <= i < 10 && i != old(self).current_workspace ==> (#[trigger] final(self).workspaces@[i]) == old(self).workspaces@[i]),
            !has_id(old(self).current_windows(), window) ==> final(self).workspaces@ == old(self).workspaces@,
            (forall|i: int|
                first_index_with_id(old(self).current_windows(), window, i)
                    ==> final(self).current_windows() == old(self).current_windows().remove(i)),
            final(self).layout.tiles@ == old(self).layout.tiles@.filter(|t: u64| t != window),
            (forall|i: int|
                first_index_with_id(old(self).current_windows(), window, i) ==> final(self).workspaces@[old(self).current_workspace as int].focused == (if old(self).workspaces@[old(self).current_workspace as int].focused == Some(
                    i as usize,
                ) {
                    if old(self).current_windows().len() > 1 {
                        Some((if i > 0 {
                            i - 1
                        } else {
                            0
                        }) as usize)
                    } else {
                        None::<usize>
                    }
                } else {
                    old(self).workspaces@[old(self).current_workspace as int].focused
                })),
            final(self).layout == (MasterStackLayout {
                tiles: final(self).layout.tiles,
                focused_window: final(self).layout.focused_window,
                ..old(self).layout
            }),
            final(self).layout.focused_window == (if old(self).layout.focused_window == Some(
                window,
            ) {
                match crate::layout::spec_last_other(old(self).layout.tiles@, window) {
                    Some(t) => if t != old(self).root {
                        Some(t)
                    } else {
                        None
                    },
                    None => None,
                }
            } else {
                old(self).layout.focused_window
            }),
            acts@ == (if old(self).layout.focused_window == Some(window) {
                match crate::layout::spec_last_other(old(self).layout.tiles@, window) {
                    Some(t) => if t != old(self).root {
                        spec_focus_actions(
                            None,
                            old(self).layout.border_color,
                            old(self).layout.focused_border_color,
                            t,
                        )
                    } else {
                        Seq::<XAction>::empty()
                    },
                    None => Seq::<XAction>::empty(),
                }
            } else {
                Seq::<XAction>::empty()
            }) + old(self).layout.spec_relayout_actions(
                old(self).layout.tiles@.filter(|t: u64| t != window),
            ) + spec_raise_floats(final(self).current_windows()) + spec_raise_docks(
                final(self).current_windows(),
            ) + seq![XAction::Sync],
    {
        self.remove_managed(window)
    }

    /// The window was destroyed: forget it.
    pub fn handle_destroy_notify(&mut self, window: u64) -> (acts: Vec<XAction>)
        requires
            old(self).wf(),
        ensures
            final(self).wf(),
            *final(self) == (WindowManager {
                workspaces: final(self).workspaces,
                layout: final(self).layout,
                ..*old(self)
            }),
            (forall|i: int|
                0 <= i < 10 && i != old(self).current_workspace ==> (#[trigger] final(self).workspaces@[i]) == old(self).workspaces@[i]),
            !has_id(old(self).current_windows(), window) ==> final(self).workspaces@ == old(self).workspaces@,
            (forall|i: int|
                first_index_with_id(old(self).current_windows(), window, i)
                    ==> final(self).current_windows() == old(self).current_windows().remove(i)),
            final(self).layout.tiles@ == old(self).layout.tiles@.filter(|t: u64| t != window),
            (forall|i: int|
                first_index_with_id(old(self).current_windows(), window, i) ==> final(self).workspaces@[old(self).current_workspace as int].focused == (if old(self).workspaces@[old(self).current_workspace as int].focused == Some(
                    i as usize,
                ) {
                    if old(self).current_windows().len() > 1 {
                        Some((if i > 0 {
                            i - 1
                        } else {
                            0
                        }) as usize)
                    } else {
                        None::<usize>
                    }
                } else {
                    old(self).workspaces@[old(self).current_workspace as int].focused
                })),
            final(self).layout == (MasterStackLayout {
                tiles: final(self).layout.tiles,
                focused_window: final(self).layout.focused_window,
                ..old(self).layout
            }),
            final(self).layout.focused_window == (if old(self).layout.focused_window == Some(
                window,
            ) {
                match crate::layout::spec_last_other(old(self).layout.tiles@, window) {
                    Some(t) => if t != old(self).root {
                        Some(t)
                    } else {
                        None
                    },
                    None => None,
                }
            } else {
                old(self).layout.focused_window
            }),
            acts@ == (if old(self).layout.focused_window == Some(window) {
                match crate::layout::spec_last_other(old(self).layout.tiles@, window) {
                    Some(t) => if t != old(self).root {
                        spec_focus_actions(
                            None,
                            old(self).layout.border_color,
                            old(self).layout.focused_border_color,
                            t,
                        )
                    } else {
                        Seq::<XAction>::empty()
                    },
                    None => Seq::<XAction>::empty(),
                }
            } else {
                Seq::<XAction>::empty()
            }) + old(self).layout.spec_relayout_actions(
                old(self).layout.tiles@.filter(|t: u64| t != window),
            ) + spec_raise_floats(final(self).current_windows()) + spec_raise_docks(
                final(self).current_windows(),
            ) + seq![XAction::Sync],
    {
        self.remove_managed(window)
    }

    /// The pointer entered a window: under focus-follows-mouse, repaint
    /// the borders, move the focus there, publish it, and raise what
    /// must stay on top.
    pub fn handle_enter_notify(&mut self, window: u64, is_notification: bool) -> (acts: Vec<
        XAction,
    >)
        requires
            old(self).wf(),
        ensures
            final(self).wf(),
            ({
                let act_on = !old(self).dragging && !old(self).resizing && window != 0 && window
                    != old(self).root && !is_notification
                    && old(self).config.appearance.focus_follows_mouse;
                let floating = exists|k: int|
                    0 <= k < old(self).current_windows().len() && (#[trigger] old(self).current_windows()[k]).id == window && old(self).current_windows()[k].is_floating;
                &&& !act_on ==> *final(self) == *old(self) && acts@ == Seq::<XAction>::empty()
                &&& act_on ==> ({
                    &&& *final(self) == (WindowManager {
                        layout: final(self).layout,
                        net_active_window: window,
                        ..*old(self)
                    })
                    &&& final(self).layout == (MasterStackLayout {
                        focused_window: Some(window),
                        ..old(self).layout
                    })
                    &&& acts@ == spec_repaint_actions(
                        old(self).current_windows(),
                        window,
                        crate::appearance::spec_color_value(
                            crate::appearance::utf8_bytes(
                                old(self).config.appearance.border_color@,
                            ),
                            0x7A8478,
                        ),
                        crate::appearance::spec_color_value(
                            crate::appearance::utf8_bytes(
                                old(self).config.appearance.focused_border_color@,
                            ),
                            0xA7C080,
                        ),
                    ) + spec_focus_actions(
                        old(self).layout.focused_window,
                        old(self).layout.border_color,
                        old(self).layout.focused_border_color,
                        window,
                    ) + seq![XAction::SetActiveWindowProperty { window }, XAction::Sync] + (
                    if floating {
                        seq![XAction::RaiseWindow { window }]
                    } else {
                        spec_raise_floats(old(self).current_windows()) + spec_raise_docks(
                            old(self).current_windows(),
                        )
                    })
                })
            }),
    {
        if self.dragging || self.resizing || window == 0 || window == self.root
            || is_notification || !self.config.appearance.focus_follows_mouse {
            let acts: Vec<XAction> = Vec::new();
            proof {
                assert(acts@ =~= Seq::<XAction>::empty());
            }
            return acts;
        }
        let mut acts = self.repaint_borders(window);
        let floating = match self.find_in_current(window) {
            Some(i) => self.workspaces[self.current_workspace].windows[i].is_floating,
            None => false,
        };
        let mut facts = self.layout.focus_window(window);
        acts.append(&mut facts);
        let mut sacts = self.set_active_window(window);
        acts.append(&mut sacts);
        if floating {
            acts.push(XAction::RaiseWindow { window });
        } else {
            let mut racts = self.raise_floating_windows();
            acts.append(&mut racts);
        }
        proof {
            let floating_spec = exists|k: int|
                0 <= k < old(self).current_windows().len() && (#[trigger] old(self).current_windows()[k]).id == window && old(self).current_windows()[k].is_floating;
            if floating {
                assert(floating_spec);
            } else {
                if floating_spec {
                    let k = choose|k: int|
                        0 <= k < old(self).current_windows().len() && (#[trigger] old(self).current_windows()[k]).id == window && old(self).current_windows()[k].is_floating;
                    assert(first_index_with_id(old(self).current_windows(), window, choose|i: int|
                        first_index_with_id(old(self).current_windows(), window, i)));
                }
            }
        }
        acts
    }

    /// Keep a value within the signed 32-bit protocol range.
    pub open spec fn clamp_i32(v: int) -> int {
        if v < -0x8000_0000 {
            -0x8000_0000
        } else if v > 0x7FFF_FFFF {
            0x7FFF_FFFF
        } else {
            v
        }
    }

    /// Keep a window dimension within the protocol range, at least the
    /// 100-pixel resize minimum.
    pub open spec fn clamp_dim(v: int) -> int {
        if v < 100 {
            100
        } else if v > 65535 {
            65535
        } else {
            v
        }
    }

    /// Begin the move gesture: remember where the pointer started, show
    /// the grab cursor, focus the window and publish it.
    pub fn start_window_drag(&mut self, window: u64, pointer_x: i32, pointer_y: i32) -> (acts: Vec<
        XAction,
    >)
        requires
            old(self).wf(),
        ensures
            final(self).wf(),
            spec_drag_started(*old(self), *final(self), window, pointer_x, pointer_y, acts@),
    {
        self.dragging = true;
        self.drag_start_x = pointer_x;
        self.drag_start_y = pointer_y;
        self.dragged_window = Some(window);
        let mut acts: Vec<XAction> = Vec::new();
        acts.push(XAction::DefineCursor { window, cursor: CursorKind::Grabbing });
        let mut facts = self.layout.focus_window(window);
        acts.append(&mut facts);
        let mut sacts = self.set_active_window(window);
        acts.append(&mut sacts);
        acts.push(XAction::Sync);
        proof {
            assert(acts@ =~= seq![XAction::DefineCursor { window, cursor: CursorKind::Grabbing }]
                + (if window != old(self).root {
                spec_focus_actions(
                    old(self).layout.focused_window,
                    old(self).layout.border_color,
                    old(self).layout.focused_border_color,
                    window,
                )
            } else {
                Seq::<XAction>::empty()
            }) + seq![XAction::SetActiveWindowProperty { window }, XAction::Sync, XAction::Sync]);
        }
        acts
    }

    /// End the move gesture: restore the cursor, and for a floating
    /// window persist the position it was dragged to, so a later float
    /// round trip returns there.
    pub fn end_window_drag(&mut self) -> (acts: Vec<XAction>)
        requires
            old(self).wf(),
        ensures
            final(self).wf(),
            final(self).dragging == false,
            final(self).dragged_window is None,
            old(self).dragged_window is None ==> *final(self) == (WindowManager {
                dragging: false,
                dragged_window: None,
                ..*old(self)
            }) && acts@ == Seq::<XAction>::empty(),
            (forall|w: u64|
                old(self).dragged_window == Some(w) ==> acts@ == seq![
                    XAction::DefineCursor { window: w, cursor: CursorKind::Normal },
                    XAction::Sync,
                ]),
            (forall|w: u64, i: int|
                old(self).dragged_window == Some(w) && first_index_with_id(
                    old(self).current_windows(),
                    w,
                    i,
                ) && old(self).current_windows()[i].is_floating ==> ({
                    let rec = old(self).current_windows()[i];
                    final(self).current_windows() == old(self).current_windows().update(
                        i,
                        (Window { pre_float_x: rec.x, pre_float_y: rec.y, ..rec }),
                    ) && final(self).drag_start_x == 0 && final(self).drag_start_y == 0
                })),
            (forall|w: u64, i: int|
                old(self).dragged_window == Some(w) && first_index_with_id(
                    old(self).current_windows(),
                    w,
                    i,
                ) && !old(self).current_windows()[i].is_floating ==> final(self).current_windows()
                    == old(self).current_windows()),
            (forall|w: u64|
                old(self).dragged_window == Some(w) && !has_id(old(self).current_windows(), w)
                    ==> final(self).current_windows() == old(self).current_windows()),
    {
        let mut acts: Vec<XAction> = Vec::new();
        if let Some(w) = self.dragged_window {
            acts.push(XAction::DefineCursor { window: w, cursor: CursorKind::Normal });
            let cur = self.current_workspace;
            if let Some(i) = self.find_in_current(w) {
                let rec = self.workspaces[cur].windows[i];
                if rec.is_floating {
                    self.drag_start_x = 0;
                    self.drag_start_y = 0;
                    let mut rec2 = rec;
                    rec2.pre_float_x = rec.x;
                    rec2.pre_float_y = rec.y;
                    self.workspaces[cur].windows[i] = rec2;
                    proof {
                        lemma_update_same_id_preserves(
                            old(self).current_windows(),
                            i as int,
                            rec2,
                        );
                    }
                }
            }
            acts.push(XAction::Sync);
        }
        self.dragging = false;
        self.dragged_window = None;
        proof {
            if old(self).dragged_window is Some {
                let w = old(self).dragged_window.unwrap();
                assert(acts@ =~= seq![
                    XAction::DefineCursor { window: w, cursor: CursorKind::Normal },
                    XAction::Sync,
                ]);
            } else {
                assert(acts@ =~= Seq::<XAction>::empty());
            }
        }
        acts
    }

    /// Begin the resize gesture on a managed window: remember its size
    /// and the pointer, show the grab cursor, focus and publish it.
    pub fn start_window_resize(&mut self, window: u64, pointer_x: i32, pointer_y: i32) -> (acts:
        Vec<XAction>)
        requires
            old(self).wf(),
        ensures
            final(self).wf(),
            spec_resize_started(*old(self), *final(self), window, pointer_x, pointer_y, acts@),
    {
        self.resizing = true;
        let mut acts: Vec<XAction> = Vec::new();
        if let Some(i) = self.find_in_current(window) {
            let rec = self.workspaces[self.current_workspace].windows[i];
            self.resize_start_width = rec.width;
            self.resize_start_height = rec.height;
            self.drag_start_x = pointer_x;
            self.drag_start_y = pointer_y;
            self.resized_window = Some(window);
            acts.push(XAction::DefineCursor { window, cursor: CursorKind::Grabbing });
            let mut facts = self.layout.focus_window(window);
            acts.append(&mut facts);
            let mut sacts = self.set_active_window(window);
            acts.append(&mut sacts);
            acts.push(XAction::Sync);
            proof {
                assert(acts@ =~= seq![
                    XAction::DefineCursor { window, cursor: CursorKind::Grabbing },
                ] + (if window != old(self).root {
                    spec_focus_actions(
                        old(self).layout.focused_window,
                        old(self).layout.border_color,
                        old(self).layout.focused_border_color,
                        window,
                    )
                } else {
                    Seq::<XAction>::empty()
                }) + seq![
                    XAction::SetActiveWindowProperty { window },
                    XAction::Sync,
                    XAction::Sync,
                ]);
            }
        } else {
            proof {
                assert(acts@ =~= Seq::<XAction>::empty());
            }
        }
        acts
    }

    /// End the resize gesture: restore the cursor, and for a floating
    /// window persist the size it was resized to.
    pub fn end_window_resize(&mut self) -> (acts: Vec<XAction>)
        requires
            old(self).wf(),
        ensures
            final(self).wf(),
            final(self).resizing == false,
            final(self).resized_window is None,
            old(self).resized_window is None ==> *final(self) == (WindowManager {
                resizing: false,
                resized_window: None,
                ..*old(self)
            }) && acts@ == Seq::<XAction>::empty(),
            (forall|w: u64|
                old(self).resized_window == Some(w) ==> acts@ == seq![
                    XAction::DefineCursor { window: w, cursor: CursorKind::Normal },
                    XAction::Sync,
                ]),
            (forall|w: u64, i: int|
                old(self).resized_window == Some(w) && first_index_with_id(
                    old(self).current_windows(),
                    w,
                    i,
                ) && old(self).current_windows()[i].is_floating ==> ({
                    let rec = old(self).current_windows()[i];
                    final(self).current_windows() == old(self).current_windows().update(
                        i,
                        (Window {
                            pre_float_width: rec.width,
                            pre_float_height: rec.height,
                            ..rec
                        }),
                    )
                })),
            (forall|w: u64, i: int|
                old(self).resized_window == Some(w) && first_index_with_id(
                    old(self).current_windows(),
                    w,
                    i,
                ) && !old(self).current_windows()[i].is_floating ==> final(self).current_windows()
                    == old(self).current_windows()),
            (forall|w: u64|
                old(self).resized_window == Some(w) && !has_id(old(self).current_windows(), w)
                    ==> final(self).current_windows() == old(self).current_windows()),
    {
        let mut acts: Vec<XAction> = Vec::new();
        if let Some(w) = self.resized_window {
            acts.push(XAction::DefineCursor { window: w, cursor: CursorKind::Normal });
            let cur = self.current_workspace;
            if let Some(i) = self.find_in_current(w) {
                let rec = self.workspaces[cur].windows[i];
                if rec.is_floating {
                    let mut rec2 = rec;
                    rec2.pre_float_width = rec.width;
                    rec2.pre_float_height = rec.height;
                    self.workspaces[cur].windows[i] = rec2;
                    proof {
                        lemma_update_same_id_preserves(
                            old(self).current_windows(),
                            i as int,
                            rec2,
                        );
                    }
                }
            }
            acts.push(XAction::Sync);
        }
        self.resizing = false;
        self.resized_window = None;
        proof {
            if old(self).resized_window is Some {
                let w = old(self).resized_window.unwrap();
                assert(acts@ =~= seq![
                    XAction::DefineCursor { window: w, cursor: CursorKind::Normal },
                    XAction::Sync,
                ]);
            } else {
                assert(acts@ =~= Seq::<XAction>::empty());
            }
        }
        acts
    }

    /// A button went down. The notification surface gets first refusal;
    /// with the global modifier held, buttons one and three start the
    /// move and resize gestures; otherwise, under click-to-focus, the
    /// click focuses the window and is replayed to it.
    pub fn handle_button_press(
        &mut self,
        window: u64,
        button: u32,
        state_mask: u32,
        consumed: bool,
        pointer_x: i32,
        pointer_y: i32,
        is_notification: bool,
    ) -> (acts: Vec<XAction>)
        requires
            old(self).wf(),
        ensures
            final(self).wf(),
            consumed ==> *final(self) == *old(self) && acts@ == Seq::<XAction>::empty(),
            ({
                let mask = spec_modifier_mask(old(self).config.modifier@);
                let modded = state_mask & mask != 0;
                let click_focus = !modded && !old(self).config.appearance.focus_follows_mouse
                    && window != 0 && window != old(self).root && !is_notification;
                &&& (!consumed && modded && button == 1) ==> spec_drag_started(
                    *old(self),
                    *final(self),
                    window,
                    pointer_x,
                    pointer_y,
                    acts@,
                )
                &&& (!consumed && modded && button == 3) ==> spec_resize_started(
                    *old(self),
                    *final(self),
                    window,
                    pointer_x,
                    pointer_y,
                    acts@,
                )
                &&& (!consumed && modded && button != 1 && button != 3) ==> *final(self) == *old(
                    self,
                ) && acts@ == Seq::<XAction>::empty()
                &&& (!consumed && !modded && !click_focus) ==> *final(self) == *old(self) && acts@
                    == Seq::<XAction>::empty()
                &&& (!consumed && click_focus) ==> ({
                    let floating = exists|k: int|
                        0 <= k < old(self).current_windows().len() && (#[trigger] old(
                            self,
                        ).current_windows()[k]).id == window && old(
                            self,
                        ).current_windows()[k].is_floating;
                    &&& *final(self) == (WindowManager {
                        layout: final(self).layout,
                        net_active_window: window,
                        ..*old(self)
                    })
                    &&& final(self).layout == (MasterStackLayout {
                        focused_window: Some(window),
                        ..old(self).layout
                    })
                    &&& acts@ == spec_repaint_actions(
                        old(self).current_windows(),
                        window,
                        crate::appearance::spec_color_value(
                            crate::appearance::utf8_bytes(
                                old(self).config.appearance.border_color@,
                            ),
                            0x7A8478,
                        ),
                        crate::appearance::spec_color_value(
                            crate::appearance::utf8_bytes(
                                old(self).config.appearance.focused_border_color@,
                            ),
                            0xA7C080,
                        ),
                    ) + spec_focus_actions(
                        old(self).layout.focused_window,
                        old(self).layout.border_color,
                        old(self).layout.focused_border_color,
                        window,
                    ) + seq![XAction::SetActiveWindowProperty { window }, XAction::Sync] + (
                    if floating {
                        seq![XAction::RaiseWindow { window }]
                    } else {
                        spec_raise_floats(old(self).current_windows()) + spec_raise_docks(
                            old(self).current_windows(),
                        )
                    }) + seq![XAction::ReplayPointer, XAction::Sync]
                })
            }),
    {
        if consumed {
            let acts: Vec<XAction> = Vec::new();
            proof {
                assert(acts@ =~= Seq::<XAction>::empty());
            }
            return acts;
        }
        let mask = self.config.get_modifier();
        if state_mask & mask != 0 {
            if button == 1 {
                return self.start_window_drag(window, pointer_x, pointer_y);
            }
            if button == 3 {
                return self.start_window_resize(window, pointer_x, pointer_y);
            }
            let acts: Vec<XAction> = Vec::new();
            proof {
                assert(acts@ =~= Seq::<XAction>::empty());
            }
            return acts;
        }
        if !self.config.appearance.focus_follows_mouse && window != 0 && window != self.root
            && !is_notification {
            let mut acts = self.repaint_borders(window);
            let floating = match self.find_in_current(window) {
                Some(i) => self.workspaces[self.current_workspace].windows[i].is_floating,
                None => false,
            };
            let mut facts = self.layout.focus_window(window);
            acts.append(&mut facts);
            let mut sacts = self.set_active_window(window);
            acts.append(&mut sacts);
            if floating {
                acts.push(XAction::RaiseWindow { window });
            } else {
                let mut racts = self.raise_floating_windows();
                acts.append(&mut racts);
            }
            acts.push(XAction::ReplayPointer);
            acts.push(XAction::Sync);
            proof {
                let floating_spec = exists|k: int|
                    0 <= k < old(self).current_windows().len() && (#[trigger] old(
                        self,
                    ).current_windows()[k]).id == window && old(
                        self,
                    ).current_windows()[k].is_floating;
                if floating {
                    assert(floating_spec);
                } else {
                    if floating_spec {
                        let k = choose|k: int|
                            0 <= k < old(self).current_windows().len() && (#[trigger] old(
                                self,
                            ).current_windows()[k]).id == window && old(
                                self,
                            ).current_windows()[k].is_floating;
                    }
                }
            }
            return acts;
        }
        let acts: Vec<XAction> = Vec::new();
        proof {
            assert(acts@ =~= Seq::<XAction>::empty());
        }
        acts
    }

    /// The pointer moved: drag a floating window, swap a tile that is
    /// being dragged over another, resize a floating window, or, idle
    /// under focus-follows-mouse, follow the pointer with the focus.
    pub fn handle_motion_notify(&mut self, pointer_x: i32, pointer_y: i32, child: u64) -> (acts:
        Vec<XAction>)
        requires
            old(self).wf(),
        ensures
            final(self).wf(),
            (forall|d: u64, i: int|
                old(self).dragging && old(self).dragged_window == Some(d) && first_index_with_id(
                    old(self).current_windows(),
                    d,
                    i,
                ) && old(self).current_windows()[i].is_floating ==> ({
                    let rec = old(self).current_windows()[i];
                    let nx = Self::clamp_i32(
                        rec.pre_float_x + pointer_x - old(self).drag_start_x,
                    );
                    let ny = Self::clamp_i32(
                        rec.pre_float_y + pointer_y - old(self).drag_start_y,
                    );
                    &&& final(self).current_windows() == old(self).current_windows().update(
                        i,
                        (Window { x: nx as i32, y: ny as i32, ..rec }),
                    )
                    &&& acts@ == seq![
                        XAction::MoveWindow { window: d, x: nx as i32, y: ny as i32 },
                        XAction::RaiseWindow { window: d },
                    ]
                })),
            (forall|r: u64, i: int|
                !old(self).dragging && old(self).resizing && old(self).resized_window == Some(r)
                    && first_index_with_id(old(self).current_windows(), r, i) && old(
                    self,
                ).current_windows()[i].is_floating ==> ({
                    let rec = old(self).current_windows()[i];
                    let nw = Self::clamp_dim(
                        old(self).resize_start_width + pointer_x - old(self).drag_start_x,
                    );
                    let nh = Self::clamp_dim(
                        old(self).resize_start_height + pointer_y - old(self).drag_start_y,
                    );
                    &&& final(self).current_windows() == old(self).current_windows().update(
                        i,
                        (Window { width: nw as u32, height: nh as u32, ..rec }),
                    )
                    &&& acts@ == seq![
                        XAction::ResizeWindow { window: r, width: nw as u32, height: nh as u32 },
                        XAction::RaiseWindow { window: r },
                    ]
                })),
            (forall|d: u64|
                old(self).dragging && old(self).dragged_window == Some(d) && !(exists|k: int|
                    first_index_with_id(old(self).current_windows(), d, k) && old(
                        self,
                    ).current_windows()[k].is_floating) && child != 0 && child != d && child != old(
                    self,
                ).root ==> ({
                    let t0 = old(self).layout.tiles@;
                    let raises = spec_raise_floats(old(self).current_windows())
                        + spec_raise_docks(old(self).current_windows());
                    &&& (forall|i1: int, i2: int|
                        crate::layout::first_index_of(t0, d, i1) && crate::layout::first_index_of(
                            t0,
                            child,
                            i2,
                        ) ==> final(self).layout.tiles@ == t0.update(i1, t0[i2]).update(
                            i2,
                            t0[i1],
                        ) && acts@ == old(self).layout.spec_relayout_actions(
                            final(self).layout.tiles@,
                        ) + seq![XAction::Sync] + raises)
                    &&& ((!(exists|i1: int| crate::layout::first_index_of(t0, d, i1)) || !(exists|
                        i2: int,
                    | crate::layout::first_index_of(t0, child, i2))) ==> final(self).layout.tiles@
                        == t0 && acts@ == seq![XAction::Sync] + raises)
                })),
            (forall|d: u64|
                old(self).dragging && old(self).dragged_window == Some(d) && !(exists|k: int|
                    first_index_with_id(old(self).current_windows(), d, k) && old(
                        self,
                    ).current_windows()[k].is_floating) && (child == 0 || child == d || child
                    == old(self).root) ==> *final(self) == *old(self) && acts@ == Seq::<
                    XAction,
                >::empty()),
            (old(self).dragging && old(self).dragged_window is None) ==> *final(self) == *old(self)
                && acts@ == Seq::<XAction>::empty(),
            (!old(self).dragging && !old(self).resizing) ==> ({
                let follow = old(self).config.appearance.focus_follows_mouse && child != 0 && child
                    != old(self).root;
                &&& follow ==> *final(self) == (WindowManager {
                    layout: final(self).layout,
                    ..*old(self)
                }) && final(self).layout == (MasterStackLayout {
                    focused_window: Some(child),
                    ..old(self).layout
                }) && acts@ == spec_focus_actions(
                    old(self).layout.focused_window,
                    old(self).layout.border_color,
                    old(self).layout.focused_border_color,
                    child,
                )
                &&& !follow ==> *final(self) == *old(self) && acts@ == Seq::<XAction>::empty()
            }),
    {
        if self.dragging {
            if let Some(d) = self.dragged_window {
                let cur = self.current_workspace;
                let found = self.find_in_current(d);
                if let Some(i) = found {
                    let rec = self.workspaces[cur].windows[i];
                    if rec.is_floating {
                        let vx: i64 = rec.pre_float_x as i64 + pointer_x as i64
                            - self.drag_start_x as i64;
                        let vy: i64 = rec.pre_float_y as i64 + pointer_y as i64
                            - self.drag_start_y as i64;
                        let nx: i32 = if vx < -0x8000_0000i64 {
                            -0x8000_0000
                        } else if vx > 0x7FFF_FFFFi64 {
                            0x7FFF_FFFF
                        } else {
                            vx as i32
                        };
                        let ny: i32 = if vy < -0x8000_0000i64 {
                            -0x8000_0000
                        } else if vy > 0x7FFF_FFFFi64 {
                            0x7FFF_FFFF
                        } else {
                            vy as i32
                        };
                        let mut rec2 = rec;
                        rec2.x = nx;
                        rec2.y = ny;
                        self.workspaces[cur].windows[i] = rec2;
                        proof {
                            lemma_update_same_id_preserves(
                                old(self).current_windows(),
                                i as int,
                                rec2,
                            );
                        }
                        let mut acts: Vec<XAction> = Vec::new();
                        acts.push(XAction::MoveWindow { window: d, x: nx, y: ny });
                        acts.push(XAction::RaiseWindow { window: d });
                        proof {
                            assert(acts@ =~= seq![
                                XAction::MoveWindow { window: d, x: nx, y: ny },
                                XAction::RaiseWindow { window: d },
                            ]);
                        }
                        return acts;
                    }
                }
                // Dragging a tiled window: crossing another window swaps
                // the two tiles.
                if child != 0 && child != d && child != self.root {
                    let mut acts = self.layout.swap_windows(d, child);
                    let ghost s0 = acts@;
                    acts.push(XAction::Sync);
                    let mut racts = self.raise_floating_windows();
                    acts.append(&mut racts);
                    proof {
                        let t0 = old(self).layout.tiles@;
                        let raises = spec_raise_floats(old(self).current_windows())
                            + spec_raise_docks(old(self).current_windows());
                        assert(acts@ =~= s0 + seq![XAction::Sync] + raises);
                        assert forall|i1: int, i2: int|
                            crate::layout::first_index_of(t0, d, i1)
                                && crate::layout::first_index_of(t0, child, i2) implies acts@
                            == old(self).layout.spec_relayout_actions(self.layout.tiles@) + seq![
                            XAction::Sync,
                        ] + raises by {
                            assert(crate::layout::first_index_of(
                                old(self).layout.tiles@,
                                d,
                                i1,
                            ));
                            assert(crate::layout::first_index_of(
                                old(self).layout.tiles@,
                                child,
                                i2,
                            ));
                            assert(self.layout.tiles@ == old(self).layout.tiles@.update(
                                i1,
                                old(self).layout.tiles@[i2],
                            ).update(i2, old(self).layout.tiles@[i1]));
                            assert(s0 == old(self).layout.spec_relayout_actions(
                                self.layout.tiles@,
                            ));
                        }
                    }
                    return acts;
                }
                let acts: Vec<XAction> = Vec::new();
                return acts;
            }
            let acts: Vec<XAction> = Vec::new();
            return acts;
        }
        if self.resizing {
            if let Some(r) = self.resized_window {
                let cur = self.current_workspace;
                if let Some(i) = self.find_in_current(r) {
                    let rec = self.workspaces[cur].windows[i];
                    if rec.is_floating {
                        let vw: i64 = self.resize_start_width as i64 + pointer_x as i64
                            - self.drag_start_x as i64;
                        let vh: i64 = self.resize_start_height as i64 + pointer_y as i64
                            - self.drag_start_y as i64;
                        let nw: u32 = if vw < 100i64 {
                            100
                        } else if vw > 65535i64 {
                            65535
                        } else {
                            vw as u32
                        };
                        let nh: u32 = if vh < 100i64 {
                            100
                        } else if vh > 65535i64 {
                            65535
                        } else {
                            vh as u32
                        };
                        let mut rec2 = rec;
                        rec2.width = nw;
                        rec2.height = nh;
                        self.workspaces[cur].windows[i] = rec2;
                        proof {
                            lemma_update_same_id_preserves(
                                old(self).current_windows(),
                                i as int,
                                rec2,
                            );
                        }
                        let mut acts: Vec<XAction> = Vec::new();
                        acts.push(XAction::ResizeWindow { window: r, width: nw, height: nh });
                        acts.push(XAction::RaiseWindow { window: r });
                        proof {
                            assert(acts@ =~= seq![
                                XAction::ResizeWindow { window: r, width: nw, height: nh },
                                XAction::RaiseWindow { window: r },
                            ]);
                        }
                        return acts;
                    }
                }
            }
            let acts: Vec<XAction> = Vec::new();
            return acts;
        }
        if self.config.appearance.focus_follows_mouse && child != 0 && child != self.root {
            return self.layout.focus_window(child);
        }
        let acts: Vec<XAction> = Vec::new();
        proof {
            assert(acts@ =~= Seq::<XAction>::empty());
        }
        acts
    }

    /// The window the float toggle would act on, from the server's
    /// input focus (the shared focused-window precedence); zero when
    /// there is none.
    pub fn toggle_float_target(&self, input_focus: u64) -> (r: u64)
        requires
            self.wf(),
        ensures
            r == self.spec_focused_target(input_focus),
    {
        self.focused_target(input_focus)
    }

    /// The unfloat half of the float toggle: the saved position and
    /// size come back, the window rejoins the tiler, and focus, border
    /// colours and stacking follow it.
    fn unfloat_window(&mut self, window_id: u64, i: usize) -> (acts: Vec<XAction>)
        requires
            old(self).wf(),
            window_id != 0,
            old(self).layout.tiles@.len() < 65535,
            first_index_with_id(old(self).current_windows(), window_id, i as int),
            old(self).current_windows()[i as int].is_floating,
            !old(self).current_windows()[i as int].is_dock,
        ensures
            final(self).wf(),
            *final(self) == (WindowManager {
                workspaces: final(self).workspaces,
                layout: final(self).layout,
                net_active_window: final(self).net_active_window,
                ..*old(self)
            }),
            ({
                    let rec = old(self).current_windows()[i as int];
                    let rec2 = rec.spec_exit_float();
                    &&& final(self).current_windows() == old(self).current_windows().update(
                        i as int,
                        rec2,
                    )
                    &&& final(self).layout == (MasterStackLayout {
                        tiles: final(self).layout.tiles,
                        focused_window: if window_id != old(self).root {
                            Some(window_id)
                        } else {
                            old(self).layout.focused_window
                        },
                        ..old(self).layout
                    })
                    &&& final(self).layout.tiles@ == old(self).layout.tiles@.push(window_id)
                    &&& final(self).net_active_window == window_id
                    &&& acts@ == seq![
                        XAction::SetBorderWidth {
                            window: window_id,
                            width: old(self).layout.border_width,
                        },
                        XAction::SetBorderColor {
                            window: window_id,
                            color: old(self).layout.border_color,
                        },
                        XAction::SelectFocusEvents { window: window_id },
                    ] + old(self).layout.spec_relayout_actions(
                        old(self).layout.tiles@.push(window_id),
                    ) + (if window_id != old(self).root {
                        spec_focus_actions(
                            old(self).layout.focused_window,
                            old(self).layout.border_color,
                            old(self).layout.focused_border_color,
                            window_id,
                        )
                    } else {
                        Seq::<XAction>::empty()
                    }) + seq![XAction::Sync] + final(self).layout.spec_relayout_actions(
                        final(self).layout.tiles@,
                    ) + seq![XAction::SetInputFocus { window: window_id }] + seq![
                        XAction::SetActiveWindowProperty { window: window_id },
                        XAction::Sync,
                    ] + spec_repaint_actions(
                        final(self).current_windows(),
                        window_id,
                        crate::appearance::spec_color_value(
                            crate::appearance::utf8_bytes(
                                old(self).config.appearance.border_color@,
                            ),
                            0x7A8478,
                        ),
                        crate::appearance::spec_color_value(
                            crate::appearance::utf8_bytes(
                                old(self).config.appearance.focused_border_color@,
                            ),
                            0xA7C080,
                        ),
                    ) + spec_raise_floats(final(self).current_windows()) + spec_raise_docks(
                        final(self).current_windows(),
                    ) + seq![XAction::Sync]
                }),
    {
        let cur = self.current_workspace;
        let rec = self.workspaces[cur].windows[i];
        let mut acts: Vec<XAction> = Vec::new();
        let mut rec2 = rec;
        rec2.exit_float();
        self.workspaces[cur].windows[i] = rec2;
        proof {
            lemma_update_same_role_preserves(old(self).current_windows(), i as int, rec2);
        }
        let mut aacts = self.layout.add_window(window_id);
        acts.append(&mut aacts);
        let mut racts = self.layout.relayout();
        acts.append(&mut racts);
        acts.push(XAction::SetInputFocus { window: window_id });
        let mut sacts = self.set_active_window(window_id);
        acts.append(&mut sacts);
        let mut pacts = self.repaint_borders(window_id);
        acts.append(&mut pacts);
        let mut facts = self.raise_floating_windows();
        acts.append(&mut facts);
        acts.push(XAction::Sync);
        acts
    }

    /// The float half of the toggle: the absolute position and current
    /// size are saved, the window is centred on the pointer's monitor
    /// when asked, leaves the tiler, and focus, border colours and
    /// stacking follow it.
    #[verifier::rlimit(60)]
    fn make_window_float(
        &mut self,
        window_id: u64,
        i: usize,
        abs_x: i32,
        abs_y: i32,
        pointer_x: i32,
        pointer_y: i32,
        monitors: &Vec<Monitor>,
        screen_width: u32,
        screen_height: u32,
    ) -> (acts: Vec<XAction>)
        requires
            old(self).wf(),
            window_id != 0,
            old(self).layout.tiles@.len() < 65535,
            first_index_with_id(old(self).current_windows(), window_id, i as int),
            !old(self).current_windows()[i as int].is_floating,
            !old(self).current_windows()[i as int].is_dock,
            forall|k: int| 0 <= k < monitors@.len() ==> (#[trigger] monitors@[k]).wf(),
            screen_width <= 65535,
            screen_height <= 65535,
            old(self).config.appearance.floating.center_on_float ==> (forall|i: int|
                0 <= i < monitors@.len() ==> (#[trigger] monitors@[i]).width >= old(
                    self,
                ).config.appearance.floating.width && monitors@[i].height >= old(
                    self,
                ).config.appearance.floating.height) && screen_width >= old(
                self,
            ).config.appearance.floating.width && screen_height >= old(
                self,
            ).config.appearance.floating.height,
        ensures
            final(self).wf(),
            *final(self) == (WindowManager {
                workspaces: final(self).workspaces,
                layout: final(self).layout,
                net_active_window: final(self).net_active_window,
                ..*old(self)
            }),
            ({
                    let rec = old(self).current_windows()[i as int];
                    let saved = rec.spec_enter_float(abs_x, abs_y);
                    let fw = old(self).config.appearance.floating.width;
                    let fh = old(self).config.appearance.floating.height;
                    let centring = old(self).config.appearance.floating.center_on_float;
                    let mon = monitors@[crate::geometry::spec_monitor_at(
                        monitors@,
                        pointer_x as int,
                        pointer_y as int,
                    )];
                    let cx = if monitors@.len() > 0 {
                        mon.x + (mon.width - fw) as int / 2
                    } else {
                        (screen_width - fw) as int / 2
                    };
                    let cy = if monitors@.len() > 0 {
                        mon.y + (mon.height - fh) as int / 2
                    } else {
                        (screen_height - fh) as int / 2
                    };
                    let rec2 = if centring {
                        (Window {
                            x: cx as i32,
                            y: cy as i32,
                            width: fw,
                            height: fh,
                            pre_float_x: cx as i32,
                            pre_float_y: cy as i32,
                            ..saved
                        })
                    } else {
                        saved
                    };
                    &&& final(self).current_windows() == old(self).current_windows().update(
                        i as int,
                        rec2,
                    )
                    &&& final(self).layout == (MasterStackLayout {
                        tiles: final(self).layout.tiles,
                        focused_window: if old(self).layout.focused_window == Some(window_id) {
                            match crate::layout::spec_last_other(
                                old(self).layout.tiles@,
                                window_id,
                            ) {
                                Some(tl) => if tl != old(self).root {
                                    Some(tl)
                                } else {
                                    None
                                },
                                None => None,
                            }
                        } else {
                            old(self).layout.focused_window
                        },
                        ..old(self).layout
                    })
                    &&& final(self).layout.tiles@ == old(self).layout.tiles@.filter(
                        |t: u64| t != window_id,
                    )
                    &&& final(self).net_active_window == window_id
                    &&& acts@ == (if centring {
                        seq![
                            XAction::MoveResizeWindow {
                                window: window_id,
                                x: cx as i32,
                                y: cy as i32,
                                width: fw,
                                height: fh,
                            },
                        ]
                    } else {
                        Seq::<XAction>::empty()
                    }) + (if old(self).layout.focused_window == Some(window_id) {
                        match crate::layout::spec_last_other(old(self).layout.tiles@, window_id) {
                            Some(t) => if t != old(self).root {
                                spec_focus_actions(
                                    None,
                                    old(self).layout.border_color,
                                    old(self).layout.focused_border_color,
                                    t,
                                )
                            } else {
                                Seq::<XAction>::empty()
                            },
                            None => Seq::<XAction>::empty(),
                        }
                    } else {
                        Seq::<XAction>::empty()
                    }) + old(self).layout.spec_relayout_actions(
                        old(self).layout.tiles@.filter(|t: u64| t != window_id),
                    ) + final(self).layout.spec_relayout_actions(final(self).layout.tiles@)
                        + seq![XAction::SetInputFocus { window: window_id }] + seq![
                        XAction::SetActiveWindowProperty { window: window_id },
                        XAction::Sync,
                    ] + spec_repaint_actions(
                        final(self).current_windows(),
                        window_id,
                        crate::appearance::spec_color_value(
                            crate::appearance::utf8_bytes(
                                old(self).config.appearance.border_color@,
                            ),
                            0x7A8478,
                        ),
                        crate::appearance::spec_color_value(
                            crate::appearance::utf8_bytes(
                                old(self).config.appearance.focused_border_color@,
                            ),
                            0xA7C080,
                        ),
                    ) + seq![XAction::RaiseWindow { window: window_id }] + spec_raise_floats(
                        final(self).current_windows(),
                    ) + spec_raise_docks(final(self).current_windows()) + seq![XAction::Sync]
                }),
    {
        let cur = self.current_workspace;
        let rec = self.workspaces[cur].windows[i];
        let mut acts: Vec<XAction> = Vec::new();
        let mut rec2 = rec;
        rec2.enter_float(abs_x, abs_y);
        if self.config.appearance.floating.center_on_float {
            let fw = self.config.appearance.floating.width;
            let fh = self.config.appearance.floating.height;
            let (cx, cy): (i32, i32) = if monitors.len() > 0 {
                let mi = crate::geometry::monitor_at(monitors, pointer_x, pointer_y);
                let mon = monitors[mi];
                (mon.x + ((mon.width - fw) / 2) as i32, mon.y + ((mon.height - fh) / 2) as i32)
            } else {
                (((screen_width - fw) / 2) as i32, ((screen_height - fh) / 2) as i32)
            };
            rec2.x = cx;
            rec2.y = cy;
            rec2.width = fw;
            rec2.height = fh;
            rec2.pre_float_x = cx;
            rec2.pre_float_y = cy;
            acts.push(
                XAction::MoveResizeWindow {
                    window: window_id,
                    x: cx,
                    y: cy,
                    width: fw,
                    height: fh,
                },
            );
        }
        self.workspaces[cur].windows[i] = rec2;
        proof {
            lemma_update_same_role_preserves(old(self).current_windows(), i as int, rec2);
        }
        let mut dacts = self.layout.remove_window(window_id);
        acts.append(&mut dacts);
        let mut racts = self.layout.relayout();
        acts.append(&mut racts);
        acts.push(XAction::SetInputFocus { window: window_id });
        let mut sacts = self.set_active_window(window_id);
        acts.append(&mut sacts);
        let mut pacts = self.repaint_borders(window_id);
        acts.append(&mut pacts);
        acts.push(XAction::RaiseWindow { window: window_id });
        let mut facts = self.raise_floating_windows();
        acts.append(&mut facts);
        acts.push(XAction::Sync);
        acts
    }

    /// Toggle `window_id` between tiled and floating. A floating window
    /// returns to its saved tile geometry and rejoins the tiler; a tiled
    /// window leaves the tiler, remembering its absolute position
    /// (`abs_x`, `abs_y`, server-translated), and is centred on the
    /// pointer's monitor when the configuration asks for that.
    ///
    /// Law: the record-level round trip is exact — see
    /// `crate::window::lemma_float_round_trip`; with centring off, a
    /// tiled window toggled twice gets its size back exactly, and its
    /// tile rectangle too when it rejoins the tiler at its old position
    /// (it rejoins at the end, so this holds when it was the last tile).
    #[verifier::rlimit(60)]
    pub fn toggle_float(
        &mut self,
        window_id: u64,
        abs_x: i32,
        abs_y: i32,
        pointer_x: i32,
        pointer_y: i32,
        monitors: &Vec<Monitor>,
        screen_width: u32,
        screen_height: u32,
    ) -> (acts: Vec<XAction>)
        requires
            old(self).wf(),
            forall|i: int| 0 <= i < monitors@.len() ==> (#[trigger] monitors@[i]).wf(),
            screen_width <= 65535,
            screen_height <= 65535,
            old(self).config.appearance.floating.center_on_float ==> (forall|i: int|
                0 <= i < monitors@.len() ==> (#[trigger] monitors@[i]).width >= old(
                    self,
                ).config.appearance.floating.width && monitors@[i].height >= old(
                    self,
                ).config.appearance.floating.height) && screen_width >= old(
                self,
            ).config.appearance.floating.width && screen_height >= old(
                self,
            ).config.appearance.floating.height,
        ensures
            final(self).wf(),
            *final(self) == (WindowManager {
                workspaces: final(self).workspaces,
                layout: final(self).layout,
                net_active_window: final(self).net_active_window,
                ..*old(self)
            }),
            (window_id == 0 || !has_id(old(self).current_windows(), window_id) || old(
                self,
            ).layout.tiles@.len() >= 65535 || (exists|k: int|
                0 <= k < old(self).current_windows().len() && (#[trigger] old(
                    self,
                ).current_windows()[k]).id == window_id && old(self).current_windows()[k].is_dock))
                ==> *final(self) == *old(self) && acts@ == Seq::<XAction>::empty(),
            (forall|i: int|
                window_id != 0 && old(self).layout.tiles@.len() < 65535 && first_index_with_id(
                    old(self).current_windows(),
                    window_id,
                    i,
                ) && old(self).current_windows()[i].is_floating && !old(
                    self,
                ).current_windows()[i].is_dock ==> ({
                    let rec = old(self).current_windows()[i];
                    let rec2 = rec.spec_exit_float();
                    &&& final(self).current_windows() == old(self).current_windows().update(
                        i,
                        rec2,
                    )
                    &&& final(self).layout == (MasterStackLayout {
                        tiles: final(self).layout.tiles,
                        focused_window: if window_id != old(self).root {
                            Some(window_id)
                        } else {
                            old(self).layout.focused_window
                        },
                        ..old(self).layout
                    })
                    &&& final(self).layout.tiles@ == old(self).layout.tiles@.push(window_id)
                    &&& final(self).net_active_window == window_id
                    &&& acts@ == seq![
                        XAction::SetBorderWidth {
                            window: window_id,
                            width: old(self).layout.border_width,
                        },
                        XAction::SetBorderColor {
                            window: window_id,
                            color: old(self).layout.border_color,
                        },
                        XAction::SelectFocusEvents { window: window_id },
                    ] + old(self).layout.spec_relayout_actions(
                        old(self).layout.tiles@.push(window_id),
                    ) + (if window_id != old(self).root {
                        spec_focus_actions(
                            old(self).layout.focused_window,
                            old(self).layout.border_color,
                            old(self).layout.focused_border_color,
                            window_id,
                        )
                    } else {
                        Seq::<XAction>::empty()
                    }) + seq![XAction::Sync] + final(self).layout.spec_relayout_actions(
                        final(self).layout.tiles@,
                    ) + seq![XAction::SetInputFocus { window: window_id }] + seq![
                        XAction::SetActiveWindowProperty { window: window_id },
                        XAction::Sync,
                    ] + spec_repaint_actions(
                        final(self).current_windows(),
                        window_id,
                        crate::appearance::spec_color_value(
                            crate::appearance::utf8_bytes(
                                old(self).config.appearance.border_color@,
                            ),
                            0x7A8478,
                        ),
                        crate::appearance::spec_color_value(
                            crate::appearance::utf8_bytes(
                                old(self).config.appearance.focused_border_color@,
                            ),
                            0xA7C080,
                        ),
                    ) + spec_raise_floats(final(self).current_windows()) + spec_raise_docks(
                        final(self).current_windows(),
                    ) + seq![XAction::Sync]
                })),
            (forall|i: int|
                window_id != 0 && old(self).layout.tiles@.len() < 65535 && first_index_with_id(
                    old(self).current_windows(),
                    window_id,
                    i,
                ) && !old(self).current_windows()[i].is_floating ==> ({
                    let rec = old(self).current_windows()[i];
                    let saved = rec.spec_enter_float(abs_x, abs_y);
                    let fw = old(self).config.appearance.floating.width;
                    let fh = old(self).config.appearance.floating.height;
                    let centring = old(self).config.appearance.floating.center_on_float;
                    let mon = monitors@[crate::geometry::spec_monitor_at(
                        monitors@,
                        pointer_x as int,
                        pointer_y as int,
                    )];
                    let cx = if monitors@.len() > 0 {
                        mon.x + (mon.width - fw) as int / 2
                    } else {
                        (screen_width - fw) as int / 2
                    };
                    let cy = if monitors@.len() > 0 {
                        mon.y + (mon.height - fh) as int / 2
                    } else {
                        (screen_height - fh) as int / 2
                    };
                    let rec2 = if centring {
                        (Window {
                            x: cx as i32,
                            y: cy as i32,
                            width: fw,
                            height: fh,
                            pre_float_x: cx as i32,
                            pre_float_y: cy as i32,
                            ..saved
                        })
                    } else {
                        saved
                    };
                    &&& final(self).current_windows() == old(self).current_windows().update(
                        i,
                        rec2,
                    )
                    &&& final(self).layout == (MasterStackLayout {
                        tiles: final(self).layout.tiles,
                        focused_window: if old(self).layout.focused_window == Some(window_id) {
                            match crate::layout::spec_last_other(
                                old(self).layout.tiles@,
                                window_id,
                            ) {
                                Some(tl) => if tl != old(self).root {
                                    Some(tl)
                                } else {
                                    None
                                },
                                None => None,
                            }
                        } else {
                            old(self).layout.focused_window
                        },
                        ..old(self).layout
                    })
                    &&& final(self).layout.tiles@ == old(self).layout.tiles@.filter(
                        |t: u64| t != window_id,
                    )
                    &&& final(self).net_active_window == window_id
                    &&& acts@ == (if centring {
                        seq![
                            XAction::MoveResizeWindow {
                                window: window_id,
                                x: cx as i32,
                                y: cy as i32,
                                width: fw,
                                height: fh,
                            },
                        ]
                    } else {
                        Seq::<XAction>::empty()
                    }) + (if old(self).layout.focused_window == Some(window_id) {
                        match crate::layout::spec_last_other(old(self).layout.tiles@, window_id) {
                            Some(t) => if t != old(self).root {
                                spec_focus_actions(
                                    None,
                                    old(self).layout.border_color,
                                    old(self).layout.focused_border_color,
                                    t,
                                )
                            } else {
                                Seq::<XAction>::empty()
                            },
                            None => Seq::<XAction>::empty(),
                        }
                    } else {
                        Seq::<XAction>::empty()
                    }) + old(self).layout.spec_relayout_actions(
                        old(self).layout.tiles@.filter(|t: u64| t != window_id),
                    ) + final(self).layout.spec_relayout_actions(final(self).layout.tiles@)
                        + seq![XAction::SetInputFocus { window: window_id }] + seq![
                        XAction::SetActiveWindowProperty { window: window_id },
                        XAction::Sync,
                    ] + spec_repaint_actions(
                        final(self).current_windows(),
                        window_id,
                        crate::appearance::spec_color_value(
                            crate::appearance::utf8_bytes(
                                old(self).config.appearance.border_color@,
                            ),
                            0x7A8478,
                        ),
                        crate::appearance::spec_color_value(
                            crate::appearance::utf8_bytes(
                                old(self).config.appearance.focused_border_color@,
                            ),
                            0xA7C080,
                        ),
                    ) + seq![XAction::RaiseWindow { window: window_id }] + spec_raise_floats(
                        final(self).current_windows(),
                    ) + spec_raise_docks(final(self).current_windows()) + seq![XAction::Sync]
                })),
    {
        if window_id == 0 || self.layout.tiles.len() >= MAX_TILES {
            let acts: Vec<XAction> = Vec::new();
            proof {
                assert(acts@ =~= Seq::<XAction>::empty());
            }
            return acts;
        }
        let i = match self.find_in_current(window_id) {
            Some(i) => i,
            None => {
                let acts: Vec<XAction> = Vec::new();
                proof {
                    assert(acts@ =~= Seq::<XAction>::empty());
                }
                return acts;
            },
        };
        let rec = self.workspaces[self.current_workspace].windows[i];
        if rec.is_dock {
            let acts: Vec<XAction> = Vec::new();
            proof {
                let cw = old(self).current_windows();
                assert(cw[i as int].id == window_id && cw[i as int].is_dock);
                assert(acts@ =~= Seq::<XAction>::empty());
            }
            return acts;
        }
        proof {
            // the first index with this id is the only one the
            // postcondition's quantifier can name
            assert forall|i2: int|
                first_index_with_id(old(self).current_windows(), window_id, i2) implies i2
                == i as int by {
                if i2 < i as int {
                    assert(old(self).current_windows()[i2].id != window_id);
                }
                if i2 > i as int {
                    assert(old(self).current_windows()[i as int].id != window_id);
                }
            }
            let dock_spec = exists|k: int|
                0 <= k < old(self).current_windows().len() && (#[trigger] old(
                    self,
                ).current_windows()[k]).id == window_id && old(self).current_windows()[k].is_dock;
            if dock_spec {
                let k = choose|k: int|
                    0 <= k < old(self).current_windows().len() && (#[trigger] old(
                        self,
                    ).current_windows()[k]).id == window_id && old(
                        self,
                    ).current_windows()[k].is_dock;
            }
        }
        if rec.is_floating {
            self.unfloat_window(window_id, i)
        } else {
            self.make_window_float(
                window_id,
                i,
                abs_x,
                abs_y,
                pointer_x,
                pointer_y,
                monitors,
                screen_width,
                screen_height,
            )
        }
    }

    /// Toggle the window under the pointer between fullscreen over its
    /// monitor and its saved geometry.
    ///
    /// Law: toggling twice restores geometry and border width exactly —
    /// the record transition is `spec_enter_fullscreen` then
    /// `spec_exit_fullscreen`, whose round trip is
    /// `crate::window::lemma_fullscreen_round_trip`.
    #[verifier::rlimit(100)]
    pub fn toggle_fullscreen(
        &mut self,
        pointer_x: i32,
        pointer_y: i32,
        child: u64,
        monitors: &Vec<Monitor>,
    ) -> (acts: Vec<XAction>)
        requires
            old(self).wf(),
            forall|i: int| 0 <= i < monitors@.len() ==> (#[trigger] monitors@[i]).wf(),
        ensures
            final(self).wf(),
            spec_fullscreen_invariant(old(self).current_windows(), monitors@)
                ==> spec_fullscreen_invariant(final(self).current_windows(), monitors@),
            (child == 0 || child == old(self).root || monitors@.len() == 0 || !has_id(
                old(self).current_windows(),
                child,
            )) ==> *final(self) == *old(self) && acts@ == Seq::<XAction>::empty(),
            (forall|i: int|
                child != 0 && child != old(self).root && monitors@.len() > 0
                    && first_index_with_id(old(self).current_windows(), child, i) ==> ({
                    let rec = old(self).current_windows()[i];
                    let mon = monitors@[crate::geometry::spec_monitor_at(
                        monitors@,
                        pointer_x as int,
                        pointer_y as int,
                    )];
                    &&& rec.is_fullscreen ==> ({
                        let rec2 = rec.spec_exit_fullscreen();
                        &&& final(self).current_windows() == old(self).current_windows().update(
                            i,
                            rec2,
                        )
                        &&& *final(self) == (WindowManager {
                            workspaces: final(self).workspaces,
                            ..*old(self)
                        })
                        &&& acts@ == seq![
                            XAction::SetBorderWidth {
                                window: child,
                                width: rec.pre_fullscreen_border_width,
                            },
                        ] + (if rec.is_floating {
                            seq![
                                XAction::MoveResizeWindow {
                                    window: child,
                                    x: rec2.x,
                                    y: rec2.y,
                                    width: rec2.width,
                                    height: rec2.height,
                                },
                            ]
                        } else {
                            old(self).layout.spec_relayout_actions(old(self).layout.tiles@)
                        })
                    })
                    &&& !rec.is_fullscreen ==> ({
                        let rec2 = rec.spec_enter_fullscreen(mon);
                        &&& final(self).current_windows() == old(self).current_windows().update(
                            i,
                            rec2,
                        )
                        &&& *final(self) == (WindowManager {
                            workspaces: final(self).workspaces,
                            ..*old(self)
                        })
                        &&& acts@ == seq![
                            XAction::SetBorderWidth { window: child, width: 0 },
                            XAction::MoveResizeWindow {
                                window: child,
                                x: mon.x,
                                y: mon.y,
                                width: mon.width,
                                height: mon.height,
                            },
                            XAction::RaiseWindow { window: child },
                        ]
                    })
                })),
    {
        if child == 0 || child == self.root || monitors.len() == 0 {
            let acts: Vec<XAction> = Vec::new();
            proof {
                assert(acts@ =~= Seq::<XAction>::empty());
            }
            return acts;
        }
        let cur = self.current_workspace;
        let i = match self.find_in_current(child) {
            Some(i) => i,
            None => {
                let acts: Vec<XAction> = Vec::new();
                proof {
                    assert(acts@ =~= Seq::<XAction>::empty());
                }
                return acts;
            },
        };
        let mi = crate::geometry::monitor_at(monitors, pointer_x, pointer_y);
        let mon = monitors[mi];
        let rec = self.workspaces[cur].windows[i];
        let mut acts: Vec<XAction> = Vec::new();
        if rec.is_fullscreen {
            let mut rec2 = rec;
            rec2.exit_fullscreen();
            self.workspaces[cur].windows[i] = rec2;
            proof {
                lemma_update_same_role_preserves(old(self).current_windows(), i as int, rec2);
            }
            acts.push(
                XAction::SetBorderWidth { window: child, width: rec.pre_fullscreen_border_width },
            );
            if rec.is_floating {
                acts.push(
                    XAction::MoveResizeWindow {
                        window: child,
                        x: rec2.x,
                        y: rec2.y,
                        width: rec2.width,
                        height: rec2.height,
                    },
                );
            } else {
                let mut racts = self.layout.relayout();
                acts.append(&mut racts);
            }
        } else {
            let mut rec2 = rec;
            rec2.enter_fullscreen(mon);
            self.workspaces[cur].windows[i] = rec2;
            proof {
                lemma_update_same_role_preserves(old(self).current_windows(), i as int, rec2);
            }
            acts.push(XAction::SetBorderWidth { window: child, width: 0 });
            acts.push(
                XAction::MoveResizeWindow {
                    window: child,
                    x: mon.x,
                    y: mon.y,
                    width: mon.width,
                    height: mon.height,
                },
            );
            acts.push(XAction::RaiseWindow { window: child });
        }
        proof {
            if spec_fullscreen_invariant(old(self).current_windows(), monitors@) {
                let cw = self.current_windows();
                assert forall|k: int|
                    0 <= k < cw.len() && (#[trigger] cw[k]).is_fullscreen implies cw[k].border_width
                    == 0 && (exists|m: int|
                    0 <= m < monitors@.len() && (#[trigger] monitors@[m]).x == cw[k].x
                        && monitors@[m].y == cw[k].y && monitors@[m].width == cw[k].width
                        && monitors@[m].height == cw[k].height) by {
                    if k == i as int {
                        assert(monitors@[mi as int] == mon);
                    } else {
                        assert(cw[k] == old(self).current_windows()[k]);
                    }
                }
            }
        }
        acts
    }

    /// Close the focused window, politely when it advertises
    /// `WM_DELETE_WINDOW` in `protocols` (a delete client message, no
    /// destroy), else by destroying it, then hand the focus to the last
    /// remaining sibling. Docks are never closed.
    pub fn close_focused_window(
        &mut self,
        input_focus: u64,
        protocols: &Option<Vec<u64>>,
        wm_delete_window: u64,
    ) -> (acts: Vec<XAction>)
        requires
            old(self).wf(),
        ensures
            final(self).wf(),
            final(self).workspaces == old(self).workspaces,
            ({
                let target = old(self).spec_focused_target(input_focus);
                let polite = match protocols {
                    Some(list) => list@.contains(wm_delete_window),
                    None => false,
                };
                let target_dock = exists|k: int|
                    0 <= k < old(self).current_windows().len() && (#[trigger] old(
                        self,
                    ).current_windows()[k]).id == target && old(self).current_windows()[k].is_dock;
                &&& (target == 0 || target_dock) ==> *final(self) == *old(self) && acts@ == Seq::<
                    XAction,
                >::empty()
                &&& (target != 0 && !target_dock) ==> ({
                    let close_part = if polite {
                        seq![XAction::SendDeleteMessage { window: target }]
                    } else {
                        seq![XAction::DestroyWindow { window: target }]
                    };
                    let next = spec_next_focus(old(self).current_windows(), target);
                    &&& (polite ==> !acts@.contains(XAction::DestroyWindow { window: target }))
                    &&& acts@ == close_part + seq![XAction::Sync] + (match next {
                        Some(n) => ({
                            let nid = n.id;
                            (if n.is_floating {
                                seq![XAction::RaiseWindow { window: nid }]
                            } else {
                                Seq::<XAction>::empty()
                            }) + (if nid != old(self).root {
                                spec_focus_actions(
                                    old(self).layout.focused_window,
                                    old(self).layout.border_color,
                                    old(self).layout.focused_border_color,
                                    nid,
                                )
                            } else {
                                Seq::<XAction>::empty()
                            }) + seq![
                                XAction::SetActiveWindowProperty { window: nid },
                                XAction::Sync,
                            ] + spec_repaint_actions(
                                old(self).current_windows(),
                                nid,
                                crate::appearance::spec_color_value(
                                    crate::appearance::utf8_bytes(
                                        old(self).config.appearance.border_color@,
                                    ),
                                    0x7A8478,
                                ),
                                crate::appearance::spec_color_value(
                                    crate::appearance::utf8_bytes(
                                        old(self).config.appearance.focused_border_color@,
                                    ),
                                    0xA7C080,
                                ),
                            )
                        }),
                        None => Seq::<XAction>::empty(),
                    })
                })
            }),
    {
        let target = self.focused_target(input_focus);
        if target == 0 {
            let acts: Vec<XAction> = Vec::new();
            proof {
                assert(acts@ =~= Seq::<XAction>::empty());
            }
            return acts;
        }
        let target_rec = self.find_in_current(target);
        let mut target_floating = false;
        if let Some(i) = target_rec {
            let rec = self.workspaces[self.current_workspace].windows[i];
            if rec.is_dock {
                let acts: Vec<XAction> = Vec::new();
                proof {
                    assert(acts@ =~= Seq::<XAction>::empty());
                }
                return acts;
            }
            target_floating = rec.is_floating;
        }
        proof {
            let target_dock = exists|k: int|
                0 <= k < old(self).current_windows().len() && (#[trigger] old(
                    self,
                ).current_windows()[k]).id == target && old(self).current_windows()[k].is_dock;
            if target_dock {
                let k = choose|k: int|
                    0 <= k < old(self).current_windows().len() && (#[trigger] old(
                        self,
                    ).current_windows()[k]).id == target && old(
                        self,
                    ).current_windows()[k].is_dock;
                assert(first_index_with_id(old(self).current_windows(), target, choose|j: int|
                    first_index_with_id(old(self).current_windows(), target, j)));
            }
        }
        let mut acts: Vec<XAction> = Vec::new();
        let polite = match protocols {
            Some(list) => contains_atom(list, wm_delete_window),
            None => false,
        };
        if polite {
            acts.push(XAction::SendDeleteMessage { window: target });
        } else {
            acts.push(XAction::DestroyWindow { window: target });
        }
        acts.push(XAction::Sync);
        let ghost close_prefix = acts@;
        let next = self.next_focus(target);
        if let Some((nid, nfloat)) = next {
            if nfloat {
                acts.push(XAction::RaiseWindow { window: nid });
            }
            let mut facts = self.layout.focus_window(nid);
            acts.append(&mut facts);
            let mut sacts = self.set_active_window(nid);
            acts.append(&mut sacts);
            let mut pacts = self.repaint_borders(nid);
            acts.append(&mut pacts);
        }
        proof {
            let cw = old(self).current_windows();
            let normal = crate::appearance::spec_color_value(
                crate::appearance::utf8_bytes(old(self).config.appearance.border_color@),
                0x7A8478,
            );
            let focusc = crate::appearance::spec_color_value(
                crate::appearance::utf8_bytes(old(self).config.appearance.focused_border_color@),
                0xA7C080,
            );
            match spec_next_focus(cw, target) {
                Some(n) => {
                    assert(acts@ =~= close_prefix + (if n.is_floating {
                        seq![XAction::RaiseWindow { window: n.id }]
                    } else {
                        Seq::<XAction>::empty()
                    }) + (if n.id != old(self).root {
                        spec_focus_actions(
                            old(self).layout.focused_window,
                            old(self).layout.border_color,
                            old(self).layout.focused_border_color,
                            n.id,
                        )
                    } else {
                        Seq::<XAction>::empty()
                    }) + seq![
                        XAction::SetActiveWindowProperty { window: n.id },
                        XAction::Sync,
                    ] + spec_repaint_actions(cw, n.id, normal, focusc));
                    if polite {
                        lemma_repaint_only_colors(cw, n.id, normal, focusc);
                        lemma_no_destroy_in_focus(
                            old(self).layout.focused_window,
                            old(self).layout.border_color,
                            old(self).layout.focused_border_color,
                        );
                        assert forall|k: int|
                            0 <= k < acts@.len() implies acts@[k] != (XAction::DestroyWindow {
                            window: target,
                        }) by {}
                    }
                },
                None => {
                    assert(acts@ =~= close_prefix);
                },
            }
        }
        acts
    }

    /// The record that inherits the focus when `target` goes away: the
    /// last remaining floating sibling when the target floats, else the
    /// last remaining tiled non-dock window.
    fn next_focus(&self, target: u64) -> (r: Option<(u64, bool)>)
        requires
            self.wf(),
        ensures
            match r {
                Some((id, fl)) => spec_next_focus(self.current_windows(), target) matches Some(w)
                    && w.id == id && w.is_floating == fl,
                None => spec_next_focus(self.current_windows(), target) is None,
            },
    {
        let ws = &self.workspaces[self.current_workspace];
        let floating = match self.find_in_current(target) {
            Some(i) => ws.windows[i].is_floating,
            None => false,
        };
        proof {
            let cw = self.current_windows();
            if has_id(cw, target) {
                let j = choose|j: int| first_index_with_id(cw, target, j);
            }
        }
        let n = ws.windows.len();
        let mut k = n;
        let mut best: Option<(u64, bool)> = None;
        if floating {
            while k > 0 && best.is_none()
                invariant
                    k <= n,
                    n == ws.windows@.len(),
                    floating == spec_target_floating(ws.windows@, target),
                    best is None ==> forall|j: int|
                        k <= j < n ==> !float_sibling(#[trigger] ws.windows@[j], target),
                    best matches Some((id, fl)) ==> spec_last_float_sibling(ws.windows@, target)
                        matches Some(w) && w.id == id && w.is_floating == fl,
                decreases k,
            {
                k -= 1;
                let w = ws.windows[k];
                if w.is_floating && !w.is_dock && w.id != target {
                    best = Some((w.id, w.is_floating));
                    proof {
                        lemma_last_float_sibling(ws.windows@, target, k as int);
                    }
                }
            }
            if best.is_none() {
                proof {
                    lemma_no_float_sibling(ws.windows@, target);
                }
                let mut k2 = n;
                while k2 > 0 && best.is_none()
                    invariant
                        k2 <= n,
                        n == ws.windows@.len(),
                        best is None ==> forall|j: int|
                            k2 <= j < n ==> !tiled_nontarget(#[trigger] ws.windows@[j], target),
                        best matches Some((id, fl)) ==> spec_last_tiled_nontarget(
                            ws.windows@,
                            target,
                        ) matches Some(w) && w.id == id && w.is_floating == fl,
                    decreases k2,
                {
                    k2 -= 1;
                    let w = ws.windows[k2];
                    if !w.is_floating && !w.is_dock && w.id != target {
                        best = Some((w.id, w.is_floating));
                        proof {
                            lemma_last_tiled_nontarget(ws.windows@, target, k2 as int);
                        }
                    }
                }
                if best.is_none() {
                    proof {
                        lemma_no_tiled_nontarget(ws.windows@, target);
                    }
                }
            }
        } else {
            while k > 0 && best.is_none()
                invariant
                    k <= n,
                    n == ws.windows@.len(),
                    best is None ==> forall|j: int|
                        k <= j < n ==> !tiled_nontarget(#[trigger] ws.windows@[j], target),
                    best matches Some((id, fl)) ==> spec_last_tiled_nontarget(ws.windows@, target)
                        matches Some(w) && w.id == id && w.is_floating == fl,
                decreases k,
            {
                k -= 1;
                let w = ws.windows[k];
                if !w.is_floating && !w.is_dock && w.id != target {
                    best = Some((w.id, w.is_floating));
                    proof {
                        lemma_last_tiled_nontarget(ws.windows@, target, k as int);
                    }
                }
            }
            if best.is_none() {
                proof {
                    lemma_no_tiled_nontarget(ws.windows@, target);
                }
            }
        }
        best
    }

    /// Bring the current workspace's windows up after the tiler was
    /// cleared: map and restyle each non-dock window, re-grab its
    /// gesture buttons, restore floating geometry, and rebuild the
    /// tile list in workspace order.
    #[verifier::rlimit(100)]
    fn bring_in_current(&mut self) -> (mid: Vec<XAction>)
        requires
            old(self).wf(),
            old(self).layout.tiles@ == Seq::<u64>::empty(),
        ensures
            final(self).wf(),
            *final(self) == (WindowManager { layout: final(self).layout, ..*old(self) }),
            final(self).layout == (MasterStackLayout {
                tiles: final(self).layout.tiles,
                focused_window: final(self).layout.focused_window,
                ..old(self).layout
            }),
            final(self).layout.tiles@ == tiled_ids(old(self).current_windows()),
            forall|k: int| 0 <= k < mid@.len() ==> !((#[trigger] mid@[k]) is UnmapWindow),
            forall|m: int|
                0 <= m < old(self).current_windows().len() && !(#[trigger] old(
                    self,
                ).current_windows()[m]).is_dock ==> switch_setup_issued(
                    mid@,
                    old(self).current_windows()[m],
                    old(self).config.appearance.border_width,
                    spec_modifier_mask(old(self).config.modifier@),
                    old(self).config.appearance.focus_follows_mouse,
                ),
    {
        // Bring the incoming workspace up: map, restyle, re-grab the
        // gesture buttons, restore floating geometry, rebuild the tiler.
        // Everything from here on goes into `mid`, appended at the end.
        let mut mid: Vec<XAction> = Vec::new();
        let mask = self.config.get_modifier();
        let ffm = self.config.appearance.focus_follows_mouse;
        let bw = self.config.appearance.border_width;
        let n_in = self.workspaces[self.current_workspace].windows.len();
        let mut j: usize = 0;
        proof {
            assert(self.current_windows().subrange(0, 0) =~= Seq::<Window>::empty());
        }
        while j < n_in
            invariant
                j <= n_in,
                self.wf(),
                *self == (WindowManager { layout: self.layout, ..*old(self) }),
                self.layout == (MasterStackLayout {
                    tiles: self.layout.tiles,
                    focused_window: self.layout.focused_window,
                    ..old(self).layout
                }),
                n_in == self.current_windows().len(),
                self.layout.tiles@ == tiled_ids(self.current_windows().subrange(0, j as int)),
                self.layout.tiles@.len() <= j,
                bw == old(self).config.appearance.border_width,
                mask == spec_modifier_mask(old(self).config.modifier@),
                ffm == old(self).config.appearance.focus_follows_mouse,
                forall|k: int| 0 <= k < mid@.len() ==> !((#[trigger] mid@[k]) is UnmapWindow),
                forall|m: int|
                    0 <= m < j && !(#[trigger] self.current_windows()[m]).is_dock
                        ==> switch_setup_issued(
                        mid@,
                        self.current_windows()[m],
                        bw,
                        mask,
                        ffm,
                    ),
            decreases n_in - j,
        {
            let w = self.workspaces[self.current_workspace].windows[j];
            proof {
                let pre = self.current_windows().subrange(0, j as int);
                let cur = self.current_windows().subrange(0, j + 1);
                assert(cur.drop_last() =~= pre);
                assert(cur.last() == self.current_windows()[j as int]);
            }
            let ghost mid0 = mid@;
            if !w.is_dock {
                mid.push(XAction::MapWindow { window: w.id });
                mid.push(XAction::SetBorderWidth { window: w.id, width: bw });
                mid.push(XAction::GrabMoveResizeButtons { window: w.id, modifier: mask });
                if !ffm {
                    mid.push(XAction::GrabClickToFocus { window: w.id });
                }
                if w.is_floating {
                    mid.push(
                        XAction::MoveResizeWindow {
                            window: w.id,
                            x: w.x,
                            y: w.y,
                            width: w.width,
                            height: w.height,
                        },
                    );
                }
            }
            let ghost mid1 = mid@;
            proof {
                assert forall|k: int| 0 <= k < mid1.len() implies !((#[trigger] mid1[k])
                    is UnmapWindow) by {
                    if k < mid0.len() {
                        assert(mid1[k] == mid0[k]);
                    }
                }
            }
            if !w.is_dock && !w.is_floating {
                let ghost l0 = self.layout;
                let mut add_acts = self.layout.add_window(w.id);
                proof {
                    lemma_no_unmap_in_add_acts(l0, w.id, add_acts@);
                }
                mid.append(&mut add_acts);
            }
            proof {
                assert forall|k: int| 0 <= k < mid@.len() implies !((#[trigger] mid@[k])
                    is UnmapWindow) by {
                    if k < mid1.len() {
                        assert(mid@[k] == mid1[k]);
                    }
                }
                assert(mid@.subrange(0, mid0.len() as int) =~= mid0);
                assert forall|m: int|
                    0 <= m < j + 1 && !(#[trigger] self.current_windows()[m]).is_dock implies
                    switch_setup_issued(mid@, self.current_windows()[m], bw, mask, ffm) by {
                    if m == j as int {
                        let base = mid0.len() as int;
                        assert(mid@[base] == (XAction::MapWindow { window: w.id }));
                        assert(mid@[base + 1] == (XAction::SetBorderWidth {
                            window: w.id,
                            width: bw,
                        }));
                        assert(mid@[base + 2] == (XAction::GrabMoveResizeButtons {
                            window: w.id,
                            modifier: mask,
                        }));
                        if !ffm {
                            assert(mid@[base + 3] == (XAction::GrabClickToFocus {
                                window: w.id,
                            }));
                        }
                        if w.is_floating {
                            let pos = base + 3 + (if !ffm {
                                1int
                            } else {
                                0int
                            });
                            assert(mid@[pos] == (XAction::MoveResizeWindow {
                                window: w.id,
                                x: w.x,
                                y: w.y,
                                width: w.width,
                                height: w.height,
                            }));
                        }
                    } else {
                        lemma_setup_issued_extends(
                            mid0,
                            mid@,
                            self.current_windows()[m],
                            bw,
                            mask,
                            ffm,
                        );
                    }
                }
            }
            j += 1;
        }
        proof {
            assert(self.current_windows().subrange(0, n_in as int) =~= self.current_windows());
        }
        mid
    }

    /// Focus the incoming workspace's hint, publish it, re-raise the
    /// overlays and relayout, extending the given request list.
    #[verifier::rlimit(100)]
    fn finish_bring_in(&mut self, mid: Vec<XAction>) -> (out: Vec<XAction>)
        requires
            old(self).wf(),
            forall|k: int| 0 <= k < mid@.len() ==> !((#[trigger] mid@[k]) is UnmapWindow),
            forall|m: int|
                0 <= m < old(self).current_windows().len() && !(#[trigger] old(
                    self,
                ).current_windows()[m]).is_dock ==> switch_setup_issued(
                    mid@,
                    old(self).current_windows()[m],
                    old(self).config.appearance.border_width,
                    spec_modifier_mask(old(self).config.modifier@),
                    old(self).config.appearance.focus_follows_mouse,
                ),
        ensures
            final(self).wf(),
            *final(self) == (WindowManager {
                layout: final(self).layout,
                net_active_window: final(self).net_active_window,
                ..*old(self)
            }),
            final(self).layout == (MasterStackLayout {
                focused_window: final(self).layout.focused_window,
                ..old(self).layout
            }),
            final(self).net_active_window == (match old(
                self,
            ).workspaces@[old(self).current_workspace as int].spec_focused() {
                Some(w) => if !w.is_dock && w.id != old(self).root {
                    w.id
                } else {
                    old(self).net_active_window
                },
                None => old(self).net_active_window,
            }),
            forall|k: int| 0 <= k < out@.len() ==> !((#[trigger] out@[k]) is UnmapWindow),
            forall|m: int|
                0 <= m < old(self).current_windows().len() && !(#[trigger] old(
                    self,
                ).current_windows()[m]).is_dock ==> switch_setup_issued(
                    out@,
                    old(self).current_windows()[m],
                    old(self).config.appearance.border_width,
                    spec_modifier_mask(old(self).config.modifier@),
                    old(self).config.appearance.focus_follows_mouse,
                ),
    {
        let mut mid = mid;
        let ghost setup_done = mid@;
        let ghost bw = old(self).config.appearance.border_width;
        let ghost mask = spec_modifier_mask(old(self).config.modifier@);
        let ghost ffm = old(self).config.appearance.focus_follows_mouse;
        // Focus the incoming workspace's hint, if it is not a dock.
        let focused = self.workspaces[self.current_workspace].get_focused_window();
        let target: Option<u64> = match focused {
            Some(w) => if !w.is_dock {
                Some(w.id)
            } else {
                None
            },
            None => None,
        };
        if let Some(t) = target {
            let mut facts = self.layout.focus_window(t);
            mid.append(&mut facts);
            if t != self.root {
                let mut aacts = self.set_active_window(t);
                mid.append(&mut aacts);
            }
        }
        let ghost mid_a = mid@;
        proof {
            assert forall|k: int| 0 <= k < mid_a.len() implies !((#[trigger] mid_a[k])
                is UnmapWindow) by {
                if k < setup_done.len() {
                    assert(mid_a[k] == setup_done[k]);
                }
            }
            assert(mid_a.subrange(0, setup_done.len() as int) =~= setup_done);
            assert forall|m: int|
                0 <= m < self.current_windows().len() && !(#[trigger] self.current_windows()[m]).is_dock
                implies switch_setup_issued(
                    mid_a,
                    self.current_windows()[m],
                    bw,
                    mask,
                    ffm,
                ) by {
                lemma_setup_issued_extends(
                    setup_done,
                    mid_a,
                    self.current_windows()[m],
                    bw,
                    mask,
                    ffm,
                );
            }
        }
        let mut racts = self.raise_floating_windows();
        mid.append(&mut racts);
        let mut lacts = self.layout.relayout();
        mid.append(&mut lacts);
        mid.push(XAction::Sync);
        proof {
            lemma_no_unmap_in_raises(self.current_windows());
            assert forall|k: int| 0 <= k < mid@.len() implies !((#[trigger] mid@[k])
                is UnmapWindow) by {
                if k < mid_a.len() {
                    assert(mid@[k] == mid_a[k]);
                }
            }
            assert(mid@.subrange(0, mid_a.len() as int) =~= mid_a);
            assert forall|m: int|
                0 <= m < self.current_windows().len() && !(#[trigger] self.current_windows()[m]).is_dock
                implies switch_setup_issued(
                    mid@,
                    self.current_windows()[m],
                    bw,
                    mask,
                    ffm,
                ) by {
                lemma_setup_issued_extends(mid_a, mid@, self.current_windows()[m], bw, mask, ffm);
            }
        }
        mid
    }

    /// Switch the visible workspace: unmap the outgoing non-dock
    /// windows, publish the new index, rebuild the tiler from the
    /// incoming workspace, restore floating geometry, focus its hint,
    /// and relayout.
    ///
    /// Laws: directly after the switch the published desktop index is
    /// `index` and every non-dock window of the outgoing workspace has
    /// been unmapped (the leading requests); and no dock window is ever
    /// unmapped, so docks stay mapped across every switch.
    #[verifier::rlimit(100)]
    pub fn switch_to_workspace(&mut self, index: usize) -> (acts: Vec<XAction>)
        requires
            old(self).wf(),
        ensures
            final(self).wf(),
            (index >= 10 || index == old(self).current_workspace) ==> *final(self) == *old(self)
                && acts@ == Seq::<XAction>::empty(),
            (index < 10 && index != old(self).current_workspace) ==> spec_switch_effect(
                *old(self),
                *final(self),
                index as int,
                acts@,
            ),
    {
        broadcast use vstd::seq_lib::lemma_seq_contains_after_push;
        broadcast use vstd::seq_lib::lemma_seq_concat_contains_all_elements;

        if index >= 10 || index == self.current_workspace {
            let acts: Vec<XAction> = Vec::new();
            proof {
                assert(acts@ =~= Seq::<XAction>::empty());
            }
            return acts;
        }
        let mut acts: Vec<XAction> = Vec::new();
        // Unmap the outgoing workspace's windows; docks stay.
        let n_out = self.workspaces[self.current_workspace].windows.len();
        let mut i: usize = 0;
        proof {
            assert(self.current_windows().subrange(0, 0) =~= Seq::<Window>::empty());
        }
        while i < n_out
            invariant
                i <= n_out,
                old(self).wf(),
                *self == *old(self),
                n_out == self.current_windows().len(),
                acts@ == spec_unmap_nondock(self.current_windows().subrange(0, i as int)),
            decreases n_out - i,
        {
            let w = self.workspaces[self.current_workspace].windows[i];
            proof {
                let pre = self.current_windows().subrange(0, i as int);
                let cur = self.current_windows().subrange(0, i + 1);
                assert(cur.drop_last() =~= pre);
                assert(cur.last() == self.current_windows()[i as int]);
            }
            if !w.is_dock {
                acts.push(XAction::UnmapWindow { window: w.id });
            }
            i += 1;
        }
        proof {
            assert(self.current_windows().subrange(0, n_out as int) =~= self.current_windows());
        }
        let ghost unmaps = spec_unmap_nondock(old(self).current_windows());
        self.current_workspace = index;
        acts.push(XAction::SetCurrentDesktopProperty { index: index as u32 });
        acts.push(XAction::Sync);
        self.layout.clear_windows();
        let mut mid = self.bring_in_current();
        let mask = self.config.get_modifier();
        let ffm = self.config.appearance.focus_follows_mouse;
        let bw = self.config.appearance.border_width;
        let ghost pre_finish = *self;
        let mid = self.finish_bring_in(mid);
        let mut mid = mid;
        let ghost before_mid = acts@;
        let ghost mid_final = mid@;
        acts.append(&mut mid);
        proof {
            assert(before_mid =~= unmaps + seq![
                XAction::SetCurrentDesktopProperty { index: index as u32 },
                XAction::Sync,
            ]);
            assert(acts@.subrange(0, unmaps.len() as int) =~= unmaps);
            assert forall|m: int|
                0 <= m < self.current_windows().len() && !(#[trigger] self.current_windows()[m]).is_dock
                implies switch_setup_issued(
                    acts@,
                    self.current_windows()[m],
                    bw,
                    mask,
                    ffm,
                ) by {
                // each request already present in the later part stays
                // present in the concatenation
                assert(pre_finish.current_windows() == self.current_windows());
                assert(switch_setup_issued(
                    mid_final,
                    pre_finish.current_windows()[m],
                    bw,
                    mask,
                    ffm,
                ));
            }
        }
        acts
    }
}

/// None of the requests one tiler `add_window` issues is an unmap.
proof fn lemma_no_unmap_in_add_acts(l0: MasterStackLayout, w: u64, acts: Seq<XAction>)
    requires
        acts == seq![
            XAction::SetBorderWidth { window: w, width: l0.border_width },
            XAction::SetBorderColor { window: w, color: l0.border_color },
            XAction::SelectFocusEvents { window: w },
        ] + l0.spec_relayout_actions(l0.tiles@.push(w)) + (if w != l0.root {
            spec_focus_actions(l0.focused_window, l0.border_color, l0.focused_border_color, w)
        } else {
            Seq::<XAction>::empty()
        }) + seq![XAction::Sync],
    ensures
        forall|k: int| 0 <= k < acts.len() ==> !((#[trigger] acts[k]) is UnmapWindow),
{
    assert forall|k: int| 0 <= k < acts.len() implies !((#[trigger] acts[k]) is UnmapWindow) by {
        let rel = l0.spec_relayout_actions(l0.tiles@.push(w));
        let foc = if w != l0.root {
            spec_focus_actions(l0.focused_window, l0.border_color, l0.focused_border_color, w)
        } else {
            Seq::<XAction>::empty()
        };
        if 3 <= k < 3 + rel.len() {
            assert(acts[k] == rel[k - 3]);
            assert(rel[k - 3] is MoveResizeWindow);
        }
    }
}

/// Law: toggling a tiled window to floating and back restores it
/// exactly — its geometry and border through the record round trip,
/// and its tile rectangle through the tile list — provided no gesture
/// moved it in between (the absolute coordinates handed to the float
/// step are the record's own), centring is off, and the window was the
/// last tile, since an unfloat rejoins at the tail. A master among
/// several tiles rejoins as the last stack window instead, and with
/// centring on the restored position is the centred one; neither is
/// covered by this law.
pub proof fn lemma_float_toggle_round_trip(w: Window, tiles: Seq<u64>, abs_x: i32, abs_y: i32)
    requires
        !w.is_floating,
        abs_x == w.x,
        abs_y == w.y,
        tiles.len() > 0,
        tiles.last() == w.id,
        forall|k: int| 0 <= k < tiles.len() - 1 ==> tiles[k] != w.id,
    ensures
        ({
            let r = w.spec_enter_float(abs_x, abs_y).spec_exit_float();
            &&& r.x == w.x
            &&& r.y == w.y
            &&& r.width == w.width
            &&& r.height == w.height
            &&& r.border_width == w.border_width
            &&& r.is_floating == false
            &&& r.is_dock == w.is_dock
            &&& r.id == w.id
        }),
        tiles.filter(|t: u64| t != w.id).push(w.id) == tiles,
{
    crate::window::lemma_float_round_trip(w, abs_x, abs_y);
    crate::layout::lemma_refloat_restores_tiles(tiles, w.id);
}

/// Some tiled record of the list carries `v`.
pub open spec fn id_of_tiled(ws: Seq<Window>, v: u64) -> bool {
    exists|m: int| 0 <= m < ws.len() && (#[trigger] ws[m]).id == v && is_tiled(ws[m])
}

/// Every id the tiler would hold for this list belongs to one of its
/// tiled records.
proof fn lemma_tiled_ids_membership(ws: Seq<Window>)
    ensures
        forall|j: int|
            0 <= j < tiled_ids(ws).len() ==> id_of_tiled(ws, #[trigger] tiled_ids(ws)[j]),
    decreases ws.len(),
{
    if ws.len() > 0 {
        let dl = ws.drop_last();
        lemma_tiled_ids_membership(dl);
        assert forall|j: int| 0 <= j < tiled_ids(ws).len() implies id_of_tiled(
            ws,
            #[trigger] tiled_ids(ws)[j],
        ) by {
            if is_tiled(ws.last()) && j == tiled_ids(ws).len() - 1 {
                assert(ws[ws.len() - 1].id == tiled_ids(ws)[j] && is_tiled(ws[ws.len() - 1]));
            } else {
                assert(tiled_ids(ws)[j] == tiled_ids(dl)[j]);
                assert(id_of_tiled(dl, tiled_ids(dl)[j]));
                let m = choose|m: int|
                    0 <= m < dl.len() && (#[trigger] dl[m]).id == tiled_ids(dl)[j] && is_tiled(
                        dl[m],
                    );
                assert(ws[m].id == tiled_ids(ws)[j] && is_tiled(ws[m]));
            }
        }
    }
}

proof fn lemma_tiled_ids_filter_id_free(ws: Seq<Window>, id: u64)
    requires
        forall|k: int| 0 <= k < ws.len() ==> (#[trigger] ws[k]).id != id,
    ensures
        tiled_ids(ws).filter(|t: u64| t != id) == tiled_ids(ws),
{
    lemma_tiled_ids_membership(ws);
    let s = tiled_ids(ws);
    assert forall|k: int| 0 <= k < s.len() implies s[k] != id by {
        assert(id_of_tiled(ws, s[k]));
        let m = choose|m: int|
            0 <= m < ws.len() && (#[trigger] ws[m]).id == s[k] && is_tiled(ws[m]);
    }
    lemma_filter_of_id_free(s, id);
}

proof fn lemma_filter_of_id_free(s: Seq<u64>, id: u64)
    requires
        forall|k: int| 0 <= k < s.len() ==> s[k] != id,
    ensures
        s.filter(|t: u64| t != id) == s,
    decreases s.len(),
{
    reveal(Seq::filter);
    if s.len() > 0 {
        lemma_filter_of_id_free(s.drop_last(), id);
        assert(s.filter(|t: u64| t != id) =~= s);
    }
}

/// Law: dropping the one record that carries `id` from a workspace
/// changes the tiler's view of it exactly as the tiler's own removal
/// does — it filters the id out of the tiled list. This is what keeps
/// the tiler's list equal to the current workspace's tiled windows
/// (in insertion order, until a drag gesture reorders the tiles) as
/// windows come and go.
pub proof fn lemma_tiled_ids_remove(ws: Seq<Window>, i: int, id: u64)
    requires
        0 <= i < ws.len(),
        ws[i].id == id,
        forall|k: int| 0 <= k < ws.len() && k != i ==> (#[trigger] ws[k]).id != id,
    ensures
        tiled_ids(ws.remove(i)) == tiled_ids(ws).filter(|t: u64| t != id),
    decreases ws.len(),
{
    reveal(Seq::filter);
    let dl = ws.drop_last();
    if i == ws.len() - 1 {
        assert(ws.remove(i) =~= dl);
        assert forall|k: int| 0 <= k < dl.len() implies (#[trigger] dl[k]).id != id by {
            assert(dl[k] == ws[k]);
        }
        if is_tiled(ws.last()) {
            assert(tiled_ids(ws) == tiled_ids(dl).push(id));
            assert(tiled_ids(dl).push(id).drop_last() =~= tiled_ids(dl));
            lemma_tiled_ids_filter_id_free(dl, id);
        } else {
            lemma_tiled_ids_filter_id_free(dl, id);
        }
    } else {
        assert forall|k: int| 0 <= k < dl.len() && k != i implies (#[trigger] dl[k]).id != id by {
            assert(dl[k] == ws[k]);
        }
        assert(dl[i] == ws[i]);
        lemma_tiled_ids_remove(dl, i, id);
        assert(ws.remove(i).drop_last() =~= dl.remove(i));
        assert(ws.remove(i).last() == ws.last());
        if is_tiled(ws.last()) {
            assert(ws.last().id != id);
            assert(tiled_ids(ws.remove(i)) == tiled_ids(dl.remove(i)).push(ws.last().id));
            assert(tiled_ids(ws) == tiled_ids(dl).push(ws.last().id));
            let s = tiled_ids(dl);
            assert(s.push(ws.last().id).drop_last() =~= s);
            assert(s.push(ws.last().id).filter(|t: u64| t != id) == s.filter(|t: u64| t != id).push(
                ws.last().id,
            ));
        } else {
            assert(tiled_ids(ws.remove(i)) == tiled_ids(dl.remove(i)));
            assert(tiled_ids(ws) == tiled_ids(dl));
        }
    }
}

/// Law: appending a record extends the tiler's view of the workspace
/// with the new id exactly when the record is tiled.
pub proof fn lemma_tiled_ids_push(ws: Seq<Window>, w: Window)
    ensures
        is_tiled(w) ==> tiled_ids(ws.push(w)) == tiled_ids(ws).push(w.id),
        !is_tiled(w) ==> tiled_ids(ws.push(w)) == tiled_ids(ws),
{
    assert(ws.push(w).drop_last() =~= ws);
}

/// Appending a record with a fresh id keeps ids unique and docks
/// floating.
proof fn lemma_push_preserves(ws: Seq<Window>, w: Window)
    requires
        unique_ids(ws),
        docks_float(ws),
        !has_id(ws, w.id),
        w.is_dock ==> w.is_floating,
    ensures
        unique_ids(ws.push(w)),
        docks_float(ws.push(w)),
{
    let s = ws.push(w);
    assert forall|i: int, j: int| 0 <= i < j < s.len() implies (#[trigger] s[i]).id != (
    #[trigger] s[j]).id by {
        if j == s.len() - 1 {
            assert(s[i] == ws[i]);
        }
    }
    assert forall|k: int| 0 <= k < s.len() && (#[trigger] s[k]).is_dock implies s[k].is_floating by {
        if k < ws.len() {
            assert(s[k] == ws[k]);
        }
    }
}

/// Dropping a record keeps ids unique, docks floating, and the length
/// bound.
proof fn lemma_remove_preserves(ws: Seq<Window>, i: int)
    requires
        0 <= i < ws.len(),
        unique_ids(ws),
        docks_float(ws),
    ensures
        unique_ids(ws.remove(i)),
        docks_float(ws.remove(i)),
        ws.remove(i).len() == ws.len() - 1,
{
    let s = ws.remove(i);
    assert forall|a: int, b: int| 0 <= a < b < s.len() implies (#[trigger] s[a]).id != (
    #[trigger] s[b]).id by {
        let a0 = if a < i {
            a
        } else {
            a + 1
        };
        let b0 = if b < i {
            b
        } else {
            b + 1
        };
        assert(s[a] == ws[a0] && s[b] == ws[b0]);
    }
    assert forall|k: int| 0 <= k < s.len() && (#[trigger] s[k]).is_dock implies s[k].is_floating by {
        let k0 = if k < i {
            k
        } else {
            k + 1
        };
        assert(s[k] == ws[k0]);
    }
}

/// Whether the protocol list advertises the atom.
fn contains_atom(list: &Vec<u64>, atom: u64) -> (r: bool)
    ensures
        r == list@.contains(atom),
{
    let n = list.len();
    let mut i: usize = 0;
    while i < n
        invariant
            i <= n,
            n == list@.len(),
            forall|k: int| 0 <= k < i ==> list@[k] != atom,
        decreases n - i,
    {
        if list[i] == atom {
            return true;
        }
        i += 1;
    }
    proof {
        assert(!list@.contains(atom));
    }
    false
}

/// Whether the record named `target` in the list is floating (false
/// when absent).
pub open spec fn spec_target_floating(ws: Seq<Window>, target: u64) -> bool {
    exists|k: int|
        0 <= k < ws.len() && (#[trigger] ws[k]).id == target && ws[k].is_floating
}

/// A floating, non-dock record other than the target.
pub open spec fn float_sibling(w: Window, target: u64) -> bool {
    w.is_floating && !w.is_dock && w.id != target
}

/// A tiled (non-floating, non-dock) record other than the target.
pub open spec fn tiled_nontarget(w: Window, target: u64) -> bool {
    !w.is_floating && !w.is_dock && w.id != target
}

/// The last floating non-dock record other than the target.
pub open spec fn spec_last_float_sibling(ws: Seq<Window>, target: u64) -> Option<Window>
    decreases ws.len(),
{
    if ws.len() == 0 {
        None
    } else if float_sibling(ws.last(), target) {
        Some(ws.last())
    } else {
        spec_last_float_sibling(ws.drop_last(), target)
    }
}

/// The last tiled record other than the target.
pub open spec fn spec_last_tiled_nontarget(ws: Seq<Window>, target: u64) -> Option<Window>
    decreases ws.len(),
{
    if ws.len() == 0 {
        None
    } else if tiled_nontarget(ws.last(), target) {
        Some(ws.last())
    } else {
        spec_last_tiled_nontarget(ws.drop_last(), target)
    }
}

/// The record that inherits the focus when `target` is closed.
pub open spec fn spec_next_focus(ws: Seq<Window>, target: u64) -> Option<Window> {
    if spec_target_floating(ws, target) {
        match spec_last_float_sibling(ws, target) {
            Some(w) => Some(w),
            None => spec_last_tiled_nontarget(ws, target),
        }
    } else {
        spec_last_tiled_nontarget(ws, target)
    }
}

proof fn lemma_last_float_sibling(ws: Seq<Window>, target: u64, k: int)
    requires
        0 <= k < ws.len(),
        float_sibling(ws[k], target),
        forall|j: int| k < j < ws.len() ==> !float_sibling(#[trigger] ws[j], target),
    ensures
        spec_last_float_sibling(ws, target) == Some(ws[k]),
    decreases ws.len(),
{
    if k == ws.len() - 1 {
    } else {
        let t = ws.drop_last();
        lemma_last_float_sibling(t, target, k);
    }
}

proof fn lemma_no_float_sibling(ws: Seq<Window>, target: u64)
    requires
        forall|j: int| 0 <= j < ws.len() ==> !float_sibling(#[trigger] ws[j], target),
    ensures
        spec_last_float_sibling(ws, target) is None,
    decreases ws.len(),
{
    if ws.len() > 0 {
        lemma_no_float_sibling(ws.drop_last(), target);
    }
}

proof fn lemma_last_tiled_nontarget(ws: Seq<Window>, target: u64, k: int)
    requires
        0 <= k < ws.len(),
        tiled_nontarget(ws[k], target),
        forall|j: int| k < j < ws.len() ==> !tiled_nontarget(#[trigger] ws[j], target),
    ensures
        spec_last_tiled_nontarget(ws, target) == Some(ws[k]),
    decreases ws.len(),
{
    if k == ws.len() - 1 {
    } else {
        let t = ws.drop_last();
        lemma_last_tiled_nontarget(t, target, k);
    }
}

proof fn lemma_no_tiled_nontarget(ws: Seq<Window>, target: u64)
    requires
        forall|j: int| 0 <= j < ws.len() ==> !tiled_nontarget(#[trigger] ws[j], target),
    ensures
        spec_last_tiled_nontarget(ws, target) is None,
    decreases ws.len(),
{
    if ws.len() > 0 {
        lemma_no_tiled_nontarget(ws.drop_last(), target);
    }
}

/// Replacing a record by one with the same id and dock role keeps ids
/// unique and docks floating (the float flag may change on a non-dock).
proof fn lemma_update_same_role_preserves(ws: Seq<Window>, i: int, w: Window)
    requires
        0 <= i < ws.len(),
        unique_ids(ws),
        docks_float(ws),
        w.id == ws[i].id,
        w.is_dock == ws[i].is_dock,
        w.is_dock ==> w.is_floating,
    ensures
        unique_ids(ws.update(i, w)),
        docks_float(ws.update(i, w)),
{
    let s = ws.update(i, w);
    assert forall|a: int, b: int| 0 <= a < b < s.len() implies (#[trigger] s[a]).id != (
    #[trigger] s[b]).id by {
        assert(ws[a].id != ws[b].id);
    }
    assert forall|k: int| 0 <= k < s.len() && (#[trigger] s[k]).is_dock implies s[k].is_floating by {
        if k != i {
            assert(s[k] == ws[k]);
        }
    }
}

/// Replacing a record by one with the same id and the same dock and
/// floating role keeps ids unique and docks floating.
proof fn lemma_update_same_id_preserves(ws: Seq<Window>, i: int, w: Window)
    requires
        0 <= i < ws.len(),
        unique_ids(ws),
        docks_float(ws),
        w.id == ws[i].id,
        w.is_dock == ws[i].is_dock,
        w.is_floating == ws[i].is_floating,
    ensures
        unique_ids(ws.update(i, w)),
        docks_float(ws.update(i, w)),
{
    let s = ws.update(i, w);
    assert forall|a: int, b: int| 0 <= a < b < s.len() implies (#[trigger] s[a]).id != (
    #[trigger] s[b]).id by {
        assert(ws[a].id != ws[b].id);
    }
    assert forall|k: int| 0 <= k < s.len() && (#[trigger] s[k]).is_dock implies s[k].is_floating by {
        if k != i {
            assert(s[k] == ws[k]);
        }
    }
}

/// Every repaint request is a border-colour change.
proof fn lemma_repaint_only_colors(ws: Seq<Window>, f: u64, normal: u64, fc: u64)
    ensures
        forall|k: int|
            0 <= k < spec_repaint_actions(ws, f, normal, fc).len() ==> (#[trigger]
            spec_repaint_actions(ws, f, normal, fc)[k]) is SetBorderColor,
    decreases ws.len(),
{
    if ws.len() > 0 {
        lemma_repaint_only_colors(ws.drop_last(), f, normal, fc);
    }
}

/// No focus request destroys a window.
proof fn lemma_no_destroy_in_focus(prev: Option<u64>, bc: u64, fc: u64)
    ensures
        forall|w: u64, k: int|
            0 <= k < spec_focus_actions(prev, bc, fc, w).len() ==> !((#[trigger]
            spec_focus_actions(prev, bc, fc, w)[k]) is DestroyWindow),
{
}

/// A restyle already issued stays issued when the request list only
/// grows at the end.
proof fn lemma_setup_issued_extends(a: Seq<XAction>, b: Seq<XAction>, w: Window, bw: u32, mask: u32, ffm: bool)
    requires
        switch_setup_issued(a, w, bw, mask, ffm),
        a.len() <= b.len(),
        b.subrange(0, a.len() as int) == a,
    ensures
        switch_setup_issued(b, w, bw, mask, ffm),
{
    assert(b.contains(XAction::MapWindow { window: w.id })) by {
        let k = choose|k: int| 0 <= k < a.len() && a[k] == (XAction::MapWindow { window: w.id });
        assert(b.subrange(0, a.len() as int)[k] == b[k]);
    }
    assert(b.contains(XAction::SetBorderWidth { window: w.id, width: bw })) by {
        let k = choose|k: int|
            0 <= k < a.len() && a[k] == (XAction::SetBorderWidth { window: w.id, width: bw });
        assert(b.subrange(0, a.len() as int)[k] == b[k]);
    }
    assert(b.contains(XAction::GrabMoveResizeButtons { window: w.id, modifier: mask })) by {
        let k = choose|k: int|
            0 <= k < a.len() && a[k] == (XAction::GrabMoveResizeButtons {
                window: w.id,
                modifier: mask,
            });
        assert(b.subrange(0, a.len() as int)[k] == b[k]);
    }
    if !ffm {
        assert(b.contains(XAction::GrabClickToFocus { window: w.id })) by {
            let k = choose|k: int|
                0 <= k < a.len() && a[k] == (XAction::GrabClickToFocus { window: w.id });
            assert(b.subrange(0, a.len() as int)[k] == b[k]);
        }
    }
    if w.is_floating {
        assert(b.contains(
            XAction::MoveResizeWindow {
                window: w.id,
                x: w.x,
                y: w.y,
                width: w.width,
                height: w.height,
            },
        )) by {
            let k = choose|k: int|
                0 <= k < a.len() && a[k] == (XAction::MoveResizeWindow {
                    window: w.id,
                    x: w.x,
                    y: w.y,
                    width: w.width,
                    height: w.height,
                });
            assert(b.subrange(0, a.len() as int)[k] == b[k]);
        }
    }
}

/// None of the raise requests is an unmap.
proof fn lemma_no_unmap_in_raises(ws: Seq<Window>)
    ensures
        forall|k: int|
            0 <= k < spec_raise_floats(ws).len() ==> !((#[trigger] spec_raise_floats(ws)[k])
                is UnmapWindow),
        forall|k: int|
            0 <= k < spec_raise_docks(ws).len() ==> !((#[trigger] spec_raise_docks(ws)[k])
                is UnmapWindow),
    decreases ws.len(),
{
    if ws.len() > 0 {
        lemma_no_unmap_in_raises(ws.drop_last());
    }
}

} // verus!
