//! The user-command vocabulary and its textual grammar.

use vstd::prelude::*;
use vstd::string::*;

use crate::text::{chars_of, parse_usize_range, spec_parse_usize, spec_trim, trim_range};

verus! {

/// An action a key bind can invoke.
#[derive(Clone, Debug, PartialEq, Eq)]
pub enum Command {
    /// Leave the window manager.
    Exit,
    /// Close the focused window politely if it allows, else destroy it.
    Close,
    /// Start the named program.
    Spawn(String),
    /// Switch to the workspace with this zero-based index.
    Workspace(usize),
    /// Toggle the focused window between tiled and floating.
    ToggleFloat,
    /// Toggle the window under the pointer between normal and fullscreen.
    ToggleFullscreen,
}

/// A key bound to a command.
#[derive(Clone, Debug, PartialEq, Eq)]
pub struct Bind {
    pub key: String,
    pub command: Command,
}

/// `spawn X`: the prefix `spawn ` followed by the program name.
pub open spec fn is_spawn_cmd(s: Seq<char>) -> bool {
    s.len() >= 6 && s.subrange(0, 6) == "spawn "@
}

/// `workspaceN`: the prefix `workspace` followed by the number.
pub open spec fn is_workspace_cmd(s: Seq<char>) -> bool {
    s.len() >= 9 && s.subrange(0, 9) == "workspace"@
}

/// The number following `workspace`, read as `usize::from_str` reads it
/// after trimming whitespace.
pub open spec fn spec_workspace_arg(s: Seq<char>) -> Option<int> {
    spec_parse_usize(spec_trim(s.subrange(9, s.len() as int)))
}

/// The inputs on which parsing succeeds.
pub open spec fn spec_command_ok(s: Seq<char>) -> bool {
    ||| s == "exit"@
    ||| s == "close"@
    ||| s == "toggle_float"@
    ||| s == "toggle_fullscreen"@
    ||| is_spawn_cmd(s)
    ||| (is_workspace_cmd(s) && match spec_workspace_arg(s) {
        Some(n) => 1 <= n <= 10,
        None => false,
    })
}

/// The error text for each rejected input.
pub open spec fn spec_command_error(s: Seq<char>) -> Seq<char> {
    if is_workspace_cmd(s) {
        match spec_workspace_arg(s) {
            None => "Invalid workspace index: "@ + s.subrange(9, s.len() as int),
            Some(_) => "Workspace index must be between 1 and 10"@,
        }
    } else {
        "Unknown command: "@ + s
    }
}

/// The characters of `v` equal the whole keyword.
fn chars_eq_str(v: &Vec<char>, kw: &str) -> (r: bool)
    ensures
        r == (v@ == kw@),
{
    let kn = kw.unicode_len();
    if v.len() != kn {
        return false;
    }
    let mut i: usize = 0;
    while i < kn
        invariant
            i <= kn,
            kn == kw@.len(),
            v@.len() == kn,
            forall|k: int| 0 <= k < i ==> v@[k] == kw@[k],
        decreases kn - i,
    {
        if v[i] != kw.get_char(i) {
            return false;
        }
        i += 1;
    }
    proof {
        assert(v@ =~= kw@);
    }
    true
}

/// The characters of `v` start with the keyword.
fn chars_prefix_str(v: &Vec<char>, kw: &str) -> (r: bool)
    ensures
        r == (v@.len() >= kw@.len() && v@.subrange(0, kw@.len() as int) == kw@),
{
    let kn = kw.unicode_len();
    if v.len() < kn {
        return false;
    }
    let mut i: usize = 0;
    while i < kn
        invariant
            i <= kn,
            kn == kw@.len(),
            v@.len() >= kn,
            forall|k: int| 0 <= k < i ==> v@[k] == kw@[k],
        decreases kn - i,
    {
        if v[i] != kw.get_char(i) {
            proof {
                assert(v@.subrange(0, kn as int)[i as int] != kw@[i as int]);
            }
            return false;
        }
        i += 1;
    }
    proof {
        assert(v@.subrange(0, kn as int) =~= kw@);
    }
    true
}

impl Command {
    /// Parse the textual form of a bound command.
    ///
    /// The grammar: `exit`, `close`, `toggle_float`, `toggle_fullscreen`,
    /// `spawn X` (the rest of the line names the program), and
    /// `workspaceN` with `N` between 1 and 10, giving `Workspace(N - 1)`.
    /// Anything else is rejected with a message naming the input.
    pub fn from_str(s: &str) -> (r: Result<Command, String>)
        ensures
            ({
                let s0 = s@;
                match r {
                    Ok(Command::Exit) => s0 == "exit"@,
                    Ok(Command::Close) => s0 == "close"@,
                    Ok(Command::ToggleFloat) => s0 == "toggle_float"@,
                    Ok(Command::ToggleFullscreen) => s0 == "toggle_fullscreen"@,
                    Ok(Command::Spawn(cmd)) => is_spawn_cmd(s0) && cmd@ == s0.subrange(
                        6,
                        s0.len() as int,
                    ),
                    Ok(Command::Workspace(i)) => is_workspace_cmd(s0) && spec_workspace_arg(s0)
                        == Some(i + 1) && i < 10,
                    Err(e) => !spec_command_ok(s0) && e@ == spec_command_error(s0),
                }
            }),
            r is Ok <==> spec_command_ok(s@),
    {
        let v = chars_of(s);
        let n = v.len();
        if chars_eq_str(&v, "exit") {
            Ok(Command::Exit)
        } else if chars_eq_str(&v, "close") {
            Ok(Command::Close)
        } else if chars_eq_str(&v, "toggle_float") {
            Ok(Command::ToggleFloat)
        } else if chars_eq_str(&v, "toggle_fullscreen") {
            Ok(Command::ToggleFullscreen)
        } else if chars_prefix_str(&v, "spawn ") {
            proof {
                reveal_strlit("spawn ");
            }
            Ok(Command::Spawn(s.substring_char(6, n).to_owned()))
        } else if chars_prefix_str(&v, "workspace") {
            proof {
                reveal_strlit("workspace");
            }
            let (a, b) = trim_range(&v, 9, n);
            match parse_usize_range(&v, a, b) {
                None => Err("Invalid workspace index: ".to_owned().concat(s.substring_char(9, n))),
                Some(idx) => if idx == 0 || idx > 10 {
                    Err("Workspace index must be between 1 and 10".to_owned())
                } else {
                    Ok(Command::Workspace(idx - 1))
                },
            }
        } else {
            Err("Unknown command: ".to_owned().concat(s))
        }
    }
}

} // verus!
