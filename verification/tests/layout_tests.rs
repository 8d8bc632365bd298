use velowm::actions::XAction;
use velowm::config::Config;
use velowm::geometry::Monitor;
use velowm::layout::MasterStackLayout;

const ROOT: u64 = 1;

fn monitor() -> Monitor {
    Monitor {
        x: 0,
        y: 0,
        width: 1920,
        height: 1080,
    }
}

fn layout() -> MasterStackLayout {
    MasterStackLayout::new(ROOT, monitor(), &Config::default())
}

fn rects(acts: &[XAction]) -> Vec<(u64, i32, i32, u32, u32)> {
    acts.iter()
        .filter_map(|a| match a {
            XAction::MoveResizeWindow {
                window,
                x,
                y,
                width,
                height,
            } => Some((*window, *x, *y, *width, *height)),
            _ => None,
        })
        .collect()
}

#[test]
fn single_tile_fills_usable_rectangle() {
    let mut l = layout();
    l.add_window(100);
    let r = rects(&l.relayout());
    // gaps of 8 on all sides of a 1920 by 1080 monitor
    assert_eq!(r, vec![(100, 8, 8, 1904, 1064)]);
}

#[test]
fn two_tiles_split_master_and_stack() {
    let mut l = layout();
    l.add_window(100);
    l.add_window(200);
    let r = rects(&l.relayout());
    // usable width 1904: master floor(1904 / 2) = 952, stack 1904 - 952 - 8
    assert_eq!(
        r,
        vec![(100, 8, 8, 952, 1064), (200, 968, 8, 944, 1064)]
    );
}

#[test]
fn three_tiles_stack_evenly_with_gaps() {
    let mut l = layout();
    l.add_window(101);
    l.add_window(102);
    l.add_window(103);
    let r = rects(&l.relayout());
    // stack of two rows: floor((1064 - 8) / 2) = 528 each
    assert_eq!(r[0], (101, 8, 8, 952, 1064));
    assert_eq!(r[1], (102, 968, 8, 944, 528));
    assert_eq!(r[2], (103, 968, 8 + 528 + 8, 944, 528));
}

#[test]
fn tiles_disjoint_and_inside_for_many_windows() {
    let mut l = layout();
    for i in 0..20u64 {
        l.add_window(1000 + i);
    }
    let r = rects(&l.relayout());
    assert_eq!(r.len(), 20);
    let (ux0, uy0, ux1, uy1) = (8i64, 8i64, 8 + 1904i64, 8 + 1064i64);
    for (i, a) in r.iter().enumerate() {
        let (ax0, ay0) = (a.1 as i64, a.2 as i64);
        let (ax1, ay1) = (ax0 + a.3 as i64, ay0 + a.4 as i64);
        assert!(ax0 >= ux0 && ay0 >= uy0 && ax1 <= ux1 && ay1 <= uy1);
        for b in r.iter().skip(i + 1) {
            let (bx0, by0) = (b.1 as i64, b.2 as i64);
            let (bx1, by1) = (bx0 + b.3 as i64, by0 + b.4 as i64);
            let overlap = ax0 < bx1 && bx0 < ax1 && ay0 < by1 && by0 < ay1;
            assert!(!overlap, "tiles {i} and friends overlap");
        }
    }
}

#[test]
fn master_width_within_thirds() {
    for n in 2..20u64 {
        let mut l = layout();
        for i in 0..n {
            l.add_window(10 + i);
        }
        let r = rects(&l.relayout());
        let master = r[0].3 as u32;
        assert!(master >= 1904 / 3 && master <= 2 * 1904 / 3);
    }
}

#[test]
fn swap_twice_is_identity_over_layout() {
    let mut l = layout();
    l.add_window(7);
    l.add_window(8);
    l.add_window(9);
    let before = rects(&l.relayout());
    l.swap_windows(7, 9);
    let mid = rects(&l.relayout());
    assert_ne!(before, mid);
    l.swap_windows(7, 9);
    let after = rects(&l.relayout());
    assert_eq!(before, after);
}

#[test]
fn add_then_remove_is_identity_over_layout() {
    let mut l = layout();
    l.add_window(5);
    l.add_window(6);
    let before = rects(&l.relayout());
    l.add_window(42);
    l.remove_window(42);
    let after = rects(&l.relayout());
    assert_eq!(before, after);
}

#[test]
fn remove_moves_focus_to_last_other_tile() {
    let mut l = layout();
    l.add_window(5);
    l.add_window(6);
    l.add_window(7);
    assert_eq!(l.get_focused_window(), Some(7));
    l.remove_window(7);
    assert_eq!(l.get_focused_window(), Some(6));
    assert_eq!(l.get_root(), ROOT);
}

#[test]
fn dock_strut_shrinks_usable_height() {
    let mut l = layout();
    l.add_window(100);
    // a 30-pixel dock at the top shifts and shrinks the tile
    l.update_dock_space(0, 30);
    let r = rects(&l.relayout());
    assert_eq!(r, vec![(100, 8, 38, 1904, 1034)]);
    // the same dock at the bottom only shrinks it
    let mut l2 = layout();
    l2.add_window(100);
    l2.update_dock_space(1050, 30);
    let r2 = rects(&l2.relayout());
    assert_eq!(r2, vec![(100, 8, 8, 1904, 1034)]);
}

#[test]
fn focus_window_paints_and_raises() {
    let mut l = layout();
    l.add_window(100);
    let acts = l.focus_window(200);
    assert!(acts.contains(&XAction::SetBorderColor {
        window: 100,
        color: 0x2B0000
    }));
    assert!(acts.contains(&XAction::SetBorderColor {
        window: 200,
        color: 0xFF0000
    }));
    assert!(acts.contains(&XAction::SetInputFocus { window: 200 }));
    assert!(acts.contains(&XAction::RaiseWindow { window: 200 }));
    // the root is never focused
    let acts2 = l.focus_window(ROOT);
    assert!(acts2.is_empty());
    assert_eq!(l.get_focused_window(), Some(200));
}

#[test]
fn columns_partition_width_and_rows_cover_height() {
    for n in 2..=20u64 {
        let mut l = layout();
        for i in 0..n {
            l.add_window(10 + i);
        }
        let r = rects(&l.relayout());
        let master = r[0].3 as u64;
        let stack = r[1].3 as u64;
        assert_eq!(master + 8 + stack, 1904);
        let rows = n - 1;
        let row_h = r[1].4 as u64;
        let covered = rows * row_h + 8 * (rows - 1);
        assert!(covered <= 1064);
        assert!(1064 - covered < n, "slack too large for n = {n}");
    }
}
