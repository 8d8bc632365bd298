use velowm::geometry::Monitor;
use velowm::window::Window;
use velowm::workspace::Workspace;

fn w(id: u64) -> Window {
    Window::new(id, 0, 0, 640, 480)
}

#[test]
fn new_workspace_is_empty_and_named() {
    let ws = Workspace::new(0);
    assert!(ws.windows.is_empty());
    assert!(ws.focused.is_none());
    assert_eq!(ws.name, "Workspace 1");
    assert_eq!(Workspace::new(9).name, "Workspace 10");
}

#[test]
fn add_focuses_the_new_window() {
    let mut ws = Workspace::new(0);
    ws.add_window(w(10));
    assert_eq!(ws.get_focused_window().map(|x| x.id), Some(10));
    ws.add_window(w(11));
    assert_eq!(ws.get_focused_window().map(|x| x.id), Some(11));
    assert_eq!(ws.windows.len(), 2);
}

#[test]
fn remove_drops_exactly_one_iff_present() {
    let mut ws = Workspace::new(0);
    ws.add_window(w(1));
    ws.add_window(w(2));
    ws.add_window(w(3));
    ws.remove_window(2);
    assert_eq!(ws.windows.len(), 2);
    ws.remove_window(99);
    assert_eq!(ws.windows.len(), 2);
    ws.remove_window(1);
    ws.remove_window(3);
    assert!(ws.windows.is_empty());
}

#[test]
fn removing_focused_keeps_some_focus() {
    let mut ws = Workspace::new(0);
    ws.add_window(w(1));
    ws.add_window(w(2));
    ws.add_window(w(3));
    // the last added is focused; remove it
    ws.remove_window(3);
    let focused = ws.get_focused_window();
    assert!(focused.is_some());
    assert_eq!(focused.map(|x| x.id), Some(2));
}

#[test]
fn removing_last_window_clears_focus() {
    let mut ws = Workspace::new(0);
    ws.add_window(w(1));
    ws.remove_window(1);
    assert!(ws.get_focused_window().is_none());
}

#[test]
fn removing_unfocused_keeps_the_focus_index() {
    let mut ws = Workspace::new(0);
    ws.add_window(w(1));
    ws.add_window(w(2));
    // focus the earlier entry by hand, then remove the other
    ws.focused = Some(0);
    ws.remove_window(2);
    assert_eq!(ws.get_focused_window().map(|x| x.id), Some(1));
}

#[test]
fn float_round_trip_restores_geometry() {
    let mut win = w(5);
    win.x = 10;
    win.y = 20;
    win.width = 300;
    win.height = 200;
    win.enter_float(10, 20);
    win.x = -5;
    win.width = 111;
    win.exit_float();
    assert_eq!((win.x, win.y, win.width, win.height), (10, 20, 300, 200));
    assert!(!win.is_floating);
}

#[test]
fn fullscreen_round_trip_restores_geometry_and_border() {
    let mut win = w(5);
    win.x = 10;
    win.y = 20;
    win.width = 300;
    win.height = 200;
    win.border_width = 2;
    let mon = Monitor {
        x: 0,
        y: 0,
        width: 1920,
        height: 1080,
    };
    win.enter_fullscreen(mon);
    assert_eq!(
        (win.x, win.y, win.width, win.height, win.border_width),
        (0, 0, 1920, 1080, 0)
    );
    win.exit_fullscreen();
    assert_eq!(
        (win.x, win.y, win.width, win.height, win.border_width),
        (10, 20, 300, 200, 2)
    );
}
