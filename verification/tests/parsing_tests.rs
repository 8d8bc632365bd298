use velowm::appearance::{Appearance, Bar, FloatingWindow};
use velowm::commands::Command;
use velowm::keybind::{
    get_keysym_for_key, get_modifier, get_modifier_for_key, CONTROL_MASK, MOD1_MASK, MOD4_MASK,
    SHIFT_MASK,
};

fn appearance_with(border: &str, focused: &str) -> Appearance {
    Appearance {
        border_width: 2,
        border_color: border.to_string(),
        focused_border_color: focused.to_string(),
        gaps: 8,
        floating: FloatingWindow {
            center_on_float: false,
            width: 800,
            height: 600,
        },
        focus_follows_mouse: true,
    }
}

#[test]
fn border_color_parses_hex() {
    let a = appearance_with("#2B0000", "#FF0000");
    assert_eq!(a.get_border_color(), 0x2B0000);
    assert_eq!(a.get_focused_border_color(), 0xFF0000);
}

#[test]
fn border_color_trims_every_hash_and_accepts_plus() {
    let a = appearance_with("##10ff00", "#+0F");
    assert_eq!(a.get_border_color(), 0x10FF00);
    assert_eq!(a.get_focused_border_color(), 0x0F);
}

#[test]
fn invalid_border_color_falls_back() {
    let a = appearance_with("nonsense", "");
    assert_eq!(a.get_border_color(), 0x7A8478);
    assert_eq!(a.get_focused_border_color(), 0xA7C080);
}

#[test]
fn overflowing_border_color_falls_back() {
    let a = appearance_with("#11112222333344445", "#FFFFFFFFFFFFFFFF");
    assert_eq!(a.get_border_color(), 0x7A8478);
    assert_eq!(a.get_focused_border_color(), 0xFFFFFFFFFFFFFFFF);
}

#[test]
fn bar_palette_parses_and_falls_back() {
    let b = Bar::default();
    assert_eq!(b.get_background_color(), 0x0F0F0F);
    assert_eq!(b.get_text_color(), 0xABB2BF);
    assert_eq!(b.get_highlight_color(), 0x3E4451);
    assert_eq!(b.get_underline_color(), 0x3E4451);
    let odd = Bar {
        background_color: "zz".to_string(),
        ..Bar::default()
    };
    assert_eq!(odd.get_background_color(), 0x282C34);
}

#[test]
fn commands_parse() {
    assert_eq!(Command::from_str("exit"), Ok(Command::Exit));
    assert_eq!(Command::from_str("close"), Ok(Command::Close));
    assert_eq!(Command::from_str("toggle_float"), Ok(Command::ToggleFloat));
    assert_eq!(
        Command::from_str("toggle_fullscreen"),
        Ok(Command::ToggleFullscreen)
    );
    assert_eq!(
        Command::from_str("spawn alacritty"),
        Ok(Command::Spawn("alacritty".to_string()))
    );
    assert_eq!(Command::from_str("workspace1"), Ok(Command::Workspace(0)));
    assert_eq!(Command::from_str("workspace10"), Ok(Command::Workspace(9)));
    assert_eq!(Command::from_str("workspace 3"), Ok(Command::Workspace(2)));
}

#[test]
fn command_errors_name_the_input() {
    assert_eq!(
        Command::from_str("fly"),
        Err("Unknown command: fly".to_string())
    );
    assert_eq!(
        Command::from_str("workspaceX"),
        Err("Invalid workspace index: X".to_string())
    );
    assert_eq!(
        Command::from_str("workspace0"),
        Err("Workspace index must be between 1 and 10".to_string())
    );
    assert_eq!(
        Command::from_str("workspace11"),
        Err("Workspace index must be between 1 and 10".to_string())
    );
    assert_eq!(
        Command::from_str("workspace"),
        Err("Invalid workspace index: ".to_string())
    );
}

#[test]
fn spawn_takes_the_rest_verbatim() {
    assert_eq!(
        Command::from_str("spawn foo --bar baz"),
        Ok(Command::Spawn("foo --bar baz".to_string()))
    );
    assert_eq!(Command::from_str("spawn "), Ok(Command::Spawn(String::new())));
}

#[test]
fn keysyms_for_letters_digits_space() {
    assert_eq!(get_keysym_for_key("a"), 0x61);
    assert_eq!(get_keysym_for_key("Z"), 0x7A);
    assert_eq!(get_keysym_for_key("0"), 0x30);
    assert_eq!(get_keysym_for_key("9"), 0x39);
    assert_eq!(get_keysym_for_key("space"), 0x20);
    assert_eq!(get_keysym_for_key("SPACE"), 0x20);
    // anything unrecognised falls back to the keysym of `w`
    assert_eq!(get_keysym_for_key("enter"), 0x77);
    assert_eq!(get_keysym_for_key("!"), 0x77);
}

#[test]
fn modifier_masks_combine() {
    assert_eq!(get_modifier("alt"), MOD1_MASK);
    assert_eq!(get_modifier("ctrl"), CONTROL_MASK);
    assert_eq!(get_modifier("shift"), SHIFT_MASK);
    assert_eq!(get_modifier("super"), MOD4_MASK);
    assert_eq!(get_modifier("win"), MOD4_MASK);
    assert_eq!(get_modifier("alt+shift"), MOD1_MASK | SHIFT_MASK);
    assert_eq!(
        get_modifier("ctrl + super + shift"),
        CONTROL_MASK | MOD4_MASK | SHIFT_MASK
    );
    // empty and unknown tokens fall back to alt
    assert_eq!(get_modifier(""), MOD1_MASK);
    assert_eq!(get_modifier("hyper"), MOD1_MASK);
}

#[test]
fn modifier_for_single_key() {
    assert_eq!(get_modifier_for_key("ALT"), MOD1_MASK);
    assert_eq!(get_modifier_for_key("Ctrl"), CONTROL_MASK);
    assert_eq!(get_modifier_for_key("anything"), MOD1_MASK);
}
