use velowm::actions::XAction;
use velowm::config::Config;
use velowm::geometry::{Monitor, Rect};
use velowm::wm::WindowManager;

const ROOT: u64 = 1;

fn monitor() -> Monitor {
    Monitor {
        x: 0,
        y: 0,
        width: 1920,
        height: 1080,
    }
}

fn boot() -> WindowManager {
    WindowManager::new(ROOT, monitor(), Config::default()).0
}

fn attrs(x: i32, y: i32, w: u32, h: u32) -> Rect {
    Rect {
        x,
        y,
        width: w,
        height: h,
    }
}

fn rects(acts: &[XAction]) -> Vec<(u64, i32, i32, u32, u32)> {
    acts.iter()
        .filter_map(|a| match a {
            XAction::MoveResizeWindow {
                window,
                x,
                y,
                width,
                height,
            } => Some((*window, *x, *y, *width, *height)),
            _ => None,
        })
        .collect()
}

#[test]
fn empty_start_publishes_ten_desktops() {
    let (wm, acts) = WindowManager::new(ROOT, monitor(), Config::default());
    assert!(acts.contains(&XAction::SetNumberOfDesktopsProperty { count: 10 }));
    assert!(acts.contains(&XAction::SetCurrentDesktopProperty { index: 0 }));
    assert!(acts.contains(&XAction::SetSupportedProperty));
    // the active window is published as zero before any client is managed
    assert!(acts.contains(&XAction::SetActiveWindowProperty { window: 0 }));
    let names = acts.iter().find_map(|a| match a {
        XAction::SetDesktopNamesProperty { names } => Some(names.clone()),
        _ => None,
    });
    let names = names.expect("desktop names published");
    assert_eq!(names.len(), 10);
    assert_eq!(names[0], "Workspace 1");
    assert_eq!(names[9], "Workspace 10");
    assert_eq!(wm.net_active_window, 0);
    assert_eq!(wm.current_workspace, 0);
    assert!(wm.workspaces.iter().all(|w| w.windows.is_empty()));
    // one key grab per default bind
    let grabs = acts
        .iter()
        .filter(|a| matches!(a, XAction::GrabKey { .. }))
        .count();
    assert_eq!(grabs, 15);
}

#[test]
fn single_map_tiles_and_focuses() {
    let mut wm = boot();
    let acts = wm.handle_map_request(100, attrs(0, 0, 800, 600), false);
    assert!(rects(&acts).contains(&(100, 8, 8, 1904, 1064)));
    assert!(acts.contains(&XAction::SetBorderWidth {
        window: 100,
        width: 2
    }));
    assert!(acts.contains(&XAction::SetBorderColor {
        window: 100,
        color: 0xFF0000
    }));
    assert!(acts.contains(&XAction::SetActiveWindowProperty { window: 100 }));
    assert_eq!(wm.net_active_window, 100);
    assert_eq!(wm.workspaces[0].windows.len(), 1);
    assert_eq!(wm.layout.tiles, vec![100]);
}

#[test]
fn second_map_splits_and_drag_swaps() {
    let mut wm = boot();
    wm.handle_map_request(100, attrs(0, 0, 800, 600), false);
    let acts = wm.handle_map_request(200, attrs(0, 0, 800, 600), false);
    let r = rects(&acts);
    assert!(r.contains(&(100, 8, 8, 952, 1064)));
    assert!(r.contains(&(200, 968, 8, 944, 1064)));
    // drag the second window over the first: the tiles swap
    let press = wm.handle_button_press(200, 1, 8, false, 500, 500, false);
    assert!(press.contains(&XAction::DefineCursor {
        window: 200,
        cursor: velowm::actions::CursorKind::Grabbing
    }));
    assert!(wm.dragging);
    let motion = wm.handle_motion_notify(510, 500, 100);
    let r2 = rects(&motion);
    assert!(r2.contains(&(200, 8, 8, 952, 1064)));
    assert!(r2.contains(&(100, 968, 8, 944, 1064)));
    assert_eq!(wm.layout.tiles, vec![200, 100]);
    let release = wm.end_window_drag();
    assert!(!wm.dragging);
    assert!(release.contains(&XAction::DefineCursor {
        window: 200,
        cursor: velowm::actions::CursorKind::Normal
    }));
}

#[test]
fn float_toggle_centres_and_retiles_the_rest() {
    let mut wm = boot();
    wm.handle_map_request(100, attrs(0, 0, 800, 600), false);
    wm.handle_map_request(200, attrs(0, 0, 800, 600), false);
    let mons = vec![monitor()];
    let acts = wm.toggle_float(100, 8, 8, 500, 500, &mons, 1920, 1080);
    assert!(acts.contains(&XAction::MoveResizeWindow {
        window: 100,
        x: 560,
        y: 240,
        width: 800,
        height: 600
    }));
    assert!(rects(&acts).contains(&(200, 8, 8, 1904, 1064)));
    assert_eq!(wm.layout.tiles, vec![200]);
    let rec = wm.workspaces[0]
        .windows
        .iter()
        .find(|w| w.id == 100)
        .unwrap();
    assert!(rec.is_floating);
    assert_eq!((rec.x, rec.y, rec.width, rec.height), (560, 240, 800, 600));
}

#[test]
fn fullscreen_toggle_round_trips_exactly() {
    let mut wm = boot();
    wm.handle_map_request(100, attrs(0, 0, 800, 600), false);
    wm.handle_map_request(200, attrs(0, 0, 800, 600), false);
    let mons = vec![monitor()];
    wm.toggle_float(100, 8, 8, 500, 500, &mons, 1920, 1080);
    let acts = wm.toggle_fullscreen(500, 500, 100, &mons);
    assert_eq!(
        acts,
        vec![
            XAction::SetBorderWidth {
                window: 100,
                width: 0
            },
            XAction::MoveResizeWindow {
                window: 100,
                x: 0,
                y: 0,
                width: 1920,
                height: 1080
            },
            XAction::RaiseWindow { window: 100 },
        ]
    );
    let back = wm.toggle_fullscreen(500, 500, 100, &mons);
    assert!(back.contains(&XAction::SetBorderWidth {
        window: 100,
        width: 2
    }));
    assert!(back.contains(&XAction::MoveResizeWindow {
        window: 100,
        x: 560,
        y: 240,
        width: 800,
        height: 600
    }));
    let rec = wm.workspaces[0]
        .windows
        .iter()
        .find(|w| w.id == 100)
        .unwrap();
    assert_eq!(
        (rec.x, rec.y, rec.width, rec.height, rec.border_width),
        (560, 240, 800, 600, 2)
    );
}

#[test]
fn polite_close_sends_one_delete_and_no_destroy() {
    let mut wm = boot();
    wm.handle_map_request(100, attrs(0, 0, 800, 600), false);
    let wm_delete: u64 = 55;
    let acts = wm.close_focused_window(100, &Some(vec![7, wm_delete]), wm_delete);
    let deletes = acts
        .iter()
        .filter(|a| matches!(a, XAction::SendDeleteMessage { window: 100 }))
        .count();
    assert_eq!(deletes, 1);
    assert!(!acts
        .iter()
        .any(|a| matches!(a, XAction::DestroyWindow { .. })));
}

#[test]
fn close_without_delete_protocol_destroys() {
    let mut wm = boot();
    wm.handle_map_request(100, attrs(0, 0, 800, 600), false);
    let acts = wm.close_focused_window(100, &Some(vec![7]), 55);
    assert!(acts.contains(&XAction::DestroyWindow { window: 100 }));
    let acts2 = wm.close_focused_window(100, &None, 55);
    assert!(acts2.contains(&XAction::DestroyWindow { window: 100 }));
}

#[test]
fn workspace_switch_unmaps_outgoing_and_publishes_index() {
    let mut wm = boot();
    wm.handle_map_request(100, attrs(0, 0, 800, 600), false);
    wm.handle_map_request(200, attrs(0, 0, 800, 600), false);
    let acts = wm.switch_to_workspace(3);
    assert_eq!(wm.current_workspace, 3);
    assert!(acts.contains(&XAction::UnmapWindow { window: 100 }));
    assert!(acts.contains(&XAction::UnmapWindow { window: 200 }));
    assert!(acts.contains(&XAction::SetCurrentDesktopProperty { index: 3 }));
    assert!(wm.layout.tiles.is_empty());
    // switching back maps them again and rebuilds the tiler in order
    let back = wm.switch_to_workspace(0);
    assert!(back.contains(&XAction::MapWindow { window: 100 }));
    assert!(back.contains(&XAction::MapWindow { window: 200 }));
    assert_eq!(wm.layout.tiles, vec![100, 200]);
}

#[test]
fn docks_stay_mapped_across_switches() {
    let mut wm = boot();
    wm.handle_map_request(100, attrs(0, 0, 800, 600), false);
    let dock_acts = wm.handle_map_request(300, attrs(0, 0, 1920, 30), true);
    assert!(dock_acts.contains(&XAction::SetBorderWidth {
        window: 300,
        width: 0
    }));
    // the dock joins every workspace
    assert!(wm
        .workspaces
        .iter()
        .all(|w| w.windows.iter().any(|x| x.id == 300 && x.is_dock)));
    for target in [1usize, 5, 9, 0] {
        let acts = wm.switch_to_workspace(target);
        assert!(!acts
            .iter()
            .any(|a| matches!(a, XAction::UnmapWindow { window: 300 })));
    }
    // and its strut shifted the layout down
    let r = rects(&wm.layout.relayout());
    assert_eq!(r, vec![(100, 8, 38, 1904, 1034)]);
}

#[test]
fn switch_to_same_or_out_of_range_is_a_no_op() {
    let mut wm = boot();
    assert!(wm.switch_to_workspace(0).is_empty());
    assert!(wm.switch_to_workspace(10).is_empty());
    assert_eq!(wm.current_workspace, 0);
}

#[test]
fn client_message_switches_desktop() {
    let mut wm = boot();
    wm.handle_client_message(true, 4);
    assert_eq!(wm.current_workspace, 4);
    wm.handle_client_message(true, 99);
    assert_eq!(wm.current_workspace, 4);
    wm.handle_client_message(false, 2);
    assert_eq!(wm.current_workspace, 4);
}

#[test]
fn matching_binds_respects_modifier_and_keycode() {
    let wm = boot();
    // pretend the server mapped every bind's keysym to keycode 40..54
    let keycodes: Vec<u8> = (40..55).collect();
    let hits = wm.matching_binds(42, 8, &keycodes);
    assert_eq!(hits, vec![2]);
    // without the modifier held nothing matches
    let none = wm.matching_binds(42, 0, &keycodes);
    assert!(none.is_empty());
}

#[test]
fn enter_notify_moves_focus_under_ffm() {
    let mut wm = boot();
    wm.handle_map_request(100, attrs(0, 0, 800, 600), false);
    wm.handle_map_request(200, attrs(0, 0, 800, 600), false);
    let acts = wm.handle_enter_notify(100, false);
    assert!(acts.contains(&XAction::SetInputFocus { window: 100 }));
    assert_eq!(wm.net_active_window, 100);
    assert_eq!(wm.layout.focused_window, Some(100));
    // entering the root or a notification does nothing
    assert!(wm.handle_enter_notify(ROOT, false).is_empty());
    assert!(wm.handle_enter_notify(100, true).is_empty());
}

#[test]
fn unmap_and_destroy_forget_the_window() {
    let mut wm = boot();
    wm.handle_map_request(100, attrs(0, 0, 800, 600), false);
    wm.handle_map_request(200, attrs(0, 0, 800, 600), false);
    wm.handle_unmap_notify(100);
    assert_eq!(wm.workspaces[0].windows.len(), 1);
    assert_eq!(wm.layout.tiles, vec![200]);
    wm.handle_destroy_notify(200);
    assert!(wm.workspaces[0].windows.is_empty());
    assert!(wm.layout.tiles.is_empty());
}

#[test]
fn resize_gesture_clamps_to_minimum() {
    let mut wm = boot();
    wm.handle_map_request(100, attrs(0, 0, 800, 600), false);
    let mons = vec![monitor()];
    wm.toggle_float(100, 8, 8, 500, 500, &mons, 1920, 1080);
    // start a resize at (1000, 1000) and drag far up-left
    wm.handle_button_press(100, 3, 8, false, 1000, 1000, false);
    assert!(wm.resizing);
    let acts = wm.handle_motion_notify(0, 0, 0);
    assert!(acts.contains(&XAction::ResizeWindow {
        window: 100,
        width: 100,
        height: 100
    }));
    wm.end_window_resize();
    assert!(!wm.resizing);
    let rec = wm.workspaces[0]
        .windows
        .iter()
        .find(|w| w.id == 100)
        .unwrap();
    assert_eq!((rec.pre_float_width, rec.pre_float_height), (100, 100));
}

#[test]
fn drag_moves_a_floating_window() {
    let mut wm = boot();
    wm.handle_map_request(100, attrs(0, 0, 800, 600), false);
    let mons = vec![monitor()];
    wm.toggle_float(100, 8, 8, 500, 500, &mons, 1920, 1080);
    // centred at (560, 240); drag by (+30, -40)
    wm.handle_button_press(100, 1, 8, false, 700, 700, false);
    let acts = wm.handle_motion_notify(730, 660, 0);
    assert!(acts.contains(&XAction::MoveWindow {
        window: 100,
        x: 590,
        y: 200
    }));
    wm.end_window_drag();
    let rec = wm.workspaces[0]
        .windows
        .iter()
        .find(|w| w.id == 100)
        .unwrap();
    assert_eq!((rec.pre_float_x, rec.pre_float_y), (590, 200));
}

#[test]
fn mapping_a_known_window_is_a_no_op() {
    let mut wm = boot();
    wm.handle_map_request(100, attrs(0, 0, 800, 600), false);
    let acts = wm.handle_map_request(100, attrs(0, 0, 800, 600), false);
    assert!(acts.is_empty());
    assert_eq!(wm.workspaces[0].windows.len(), 1);
}

#[test]
fn reload_config_regrabs_keys() {
    let mut wm = boot();
    let acts = wm.reload_config(Config::default());
    assert_eq!(acts[0], XAction::UngrabAllKeys);
    let grabs = acts
        .iter()
        .filter(|a| matches!(a, XAction::GrabKey { .. }))
        .count();
    assert_eq!(grabs, 15);
}

#[test]
fn float_toggle_twice_restores_the_single_tile() {
    let mut wm = boot();
    wm.handle_map_request(100, attrs(0, 0, 800, 600), false);
    let mons = vec![monitor()];
    wm.toggle_float(100, 8, 8, 500, 500, &mons, 1920, 1080);
    assert!(wm.layout.tiles.is_empty());
    let acts = wm.toggle_float(100, 560, 240, 500, 500, &mons, 1920, 1080);
    assert_eq!(wm.layout.tiles, vec![100]);
    let rec = wm.workspaces[0]
        .windows
        .iter()
        .find(|w| w.id == 100)
        .unwrap();
    assert!(!rec.is_floating);
    assert!(rects(&acts).contains(&(100, 8, 8, 1904, 1064)));
}
