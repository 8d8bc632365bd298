//! The manager's configuration and its built-in default.

use vstd::prelude::*;
use vstd::string::*;

use crate::appearance::{spec_color_value, utf8_bytes, Appearance, FloatingWindow};
use crate::commands::{Bind, Command};
use crate::keybind;
use crate::keybind::{spec_keysym, spec_modifier_mask};

verus! {

/// Everything the configuration file can set.
#[derive(Clone, Debug)]
pub struct Config {
    pub modifier: String,
    pub binds: Vec<Bind>,
    pub appearance: Appearance,
    pub logging_enabled: bool,
    pub auto_generated: bool,
    pub notifications_enabled: bool,
}

impl Config {
    /// Bounds the geometry arithmetic relies on. X protocol sizes are
    /// 16-bit, and a gap wider than any monitor is meaningless, so these
    /// exclude nothing a server could display.
    pub open spec fn wf(self) -> bool {
        &&& self.appearance.gaps <= 16384
        &&& self.appearance.border_width <= 65535
        &&& self.appearance.floating.width <= 65535
        &&& self.appearance.floating.height <= 65535
    }

    /// The keysym for a configured key name.
    pub fn get_keysym_for_key(&self, key: &str) -> (k: u64)
        ensures
            k == spec_keysym(key@),
    {
        keybind::get_keysym_for_key(key)
    }

    /// The combined server mask of the configured global modifier.
    pub fn get_modifier(&self) -> (m: u32)
        ensures
            m == spec_modifier_mask(self.modifier@),
    {
        keybind::get_modifier(self.modifier.as_str())
    }

    /// The normal border colour as a pixel value.
    pub fn get_border_color(&self) -> (c: u64)
        ensures
            c == spec_color_value(utf8_bytes(self.appearance.border_color@), 0x7A8478),
    {
        self.appearance.get_border_color()
    }

    /// The focused border colour as a pixel value.
    pub fn get_focused_border_color(&self) -> (c: u64)
        ensures
            c == spec_color_value(utf8_bytes(self.appearance.focused_border_color@), 0xA7C080),
    {
        self.appearance.get_focused_border_color()
    }
}

impl Default for Config {
    /// The built-in configuration used when the file cannot be read or
    /// parsed: alt as the modifier, the documented appearance defaults
    /// with centring on float, and fifteen binds covering exit, a
    /// terminal, close, the two toggles, and the ten workspaces.
    fn default() -> (c: Config)
        ensures
            c.modifier@ == "alt"@,
            c.appearance.border_width == 2,
            c.appearance.border_color@ == "#2B0000"@,
            c.appearance.focused_border_color@ == "#FF0000"@,
            c.appearance.gaps == 8,
            c.appearance.floating.center_on_float == true,
            c.appearance.floating.width == 800,
            c.appearance.floating.height == 600,
            c.appearance.focus_follows_mouse == true,
            c.logging_enabled == true,
            c.auto_generated == true,
            c.notifications_enabled == true,
            c.wf(),
            c.binds@.len() == 15,
            c.binds@[0].key@ == "w"@ && c.binds@[0].command == Command::Exit,
            c.binds@[1].key@ == "q"@ && (c.binds@[1].command matches Command::Spawn(p) && p@
                == "alacritty"@),
            c.binds@[2].key@ == "c"@ && c.binds@[2].command == Command::Close,
            c.binds@[3].key@ == "space"@ && c.binds@[3].command == Command::ToggleFloat,
            c.binds@[4].key@ == "f"@ && c.binds@[4].command == Command::ToggleFullscreen,
            forall|i: int|
                5 <= i < 15 ==> (#[trigger] c.binds@[i]).command == Command::Workspace(
                    (i - 5) as usize,
                ),
            c.binds@[5].key@ == "1"@,
            c.binds@[6].key@ == "2"@,
            c.binds@[7].key@ == "3"@,
            c.binds@[8].key@ == "4"@,
            c.binds@[9].key@ == "5"@,
            c.binds@[10].key@ == "6"@,
            c.binds@[11].key@ == "7"@,
            c.binds@[12].key@ == "8"@,
            c.binds@[13].key@ == "9"@,
            c.binds@[14].key@ == "0"@,
    {
        let mut binds: Vec<Bind> = Vec::new();
        binds.push(Bind { key: "w".to_owned(), command: Command::Exit });
        binds.push(Bind { key: "q".to_owned(), command: Command::Spawn("alacritty".to_owned()) });
        binds.push(Bind { key: "c".to_owned(), command: Command::Close });
        binds.push(Bind { key: "space".to_owned(), command: Command::ToggleFloat });
        binds.push(Bind { key: "f".to_owned(), command: Command::ToggleFullscreen });
        binds.push(Bind { key: "1".to_owned(), command: Command::Workspace(0) });
        binds.push(Bind { key: "2".to_owned(), command: Command::Workspace(1) });
        binds.push(Bind { key: "3".to_owned(), command: Command::Workspace(2) });
        binds.push(Bind { key: "4".to_owned(), command: Command::Workspace(3) });
        binds.push(Bind { key: "5".to_owned(), command: Command::Workspace(4) });
        binds.push(Bind { key: "6".to_owned(), command: Command::Workspace(5) });
        binds.push(Bind { key: "7".to_owned(), command: Command::Workspace(6) });
        binds.push(Bind { key: "8".to_owned(), command: Command::Workspace(7) });
        binds.push(Bind { key: "9".to_owned(), command: Command::Workspace(8) });
        binds.push(Bind { key: "0".to_owned(), command: Command::Workspace(9) });
        Config {
            modifier: "alt".to_owned(),
            binds,
            appearance: Appearance {
                border_width: 2,
                border_color: "#2B0000".to_owned(),
                focused_border_color: "#FF0000".to_owned(),
                gaps: 8,
                floating: FloatingWindow { center_on_float: true, width: 800, height: 600 },
                focus_follows_mouse: true,
            },
            logging_enabled: true,
            auto_generated: true,
            notifications_enabled: true,
        }
    }
}

} // verus!
