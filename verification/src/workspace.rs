//! One virtual desktop: an ordered list of window records plus a focus hint.

use vstd::prelude::*;

use crate::window::Window;

verus! {

/// The name published for workspace `index` in `_NET_DESKTOP_NAMES`.
pub open spec fn spec_workspace_name(index: int) -> Seq<char> {
    if index == 0 {
        "Workspace 1"@
    } else if index == 1 {
        "Workspace 2"@
    } else if index == 2 {
        "Workspace 3"@
    } else if index == 3 {
        "Workspace 4"@
    } else if index == 4 {
        "Workspace 5"@
    } else if index == 5 {
        "Workspace 6"@
    } else if index == 6 {
        "Workspace 7"@
    } else if index == 7 {
        "Workspace 8"@
    } else if index == 8 {
        "Workspace 9"@
    } else {
        "Workspace 10"@
    }
}

/// True when no window at an index before `i` carries `id`, so `i` is the
/// first match if it matches at all.
pub open spec fn first_index_with_id(s: Seq<Window>, id: u64, i: int) -> bool {
    &&& 0 <= i < s.len()
    &&& s[i].id == id
    &&& forall|k: int| 0 <= k < i ==> (#[trigger] s[k]).id != id
}

/// An ordered list of window records and an optional focus index.
///
/// The focus index is a hint: it is what workspace switching falls back on
/// when the server reports no usable input focus.
pub struct Workspace {
    pub windows: Vec<Window>,
    pub focused: Option<usize>,
    pub index: usize,
    pub name: String,
}

impl Workspace {
    /// The record the focus hint points at, if the hint is in range.
    pub open spec fn spec_focused(self) -> Option<Window> {
        match self.focused {
            Some(i) => if i < self.windows.len() {
                Some(self.windows[i as int])
            } else {
                None
            },
            None => None,
        }
    }

    /// An empty workspace named for publication (`index` runs 0..9, the
    /// published names 1..10).
    pub fn new(index: usize) -> (ws: Workspace)
        requires
            index < 10,
        ensures
            ws.windows@ == Seq::<Window>::empty(),
            ws.focused is None,
            ws.index == index,
            ws.name@ == spec_workspace_name(index as int),
    {
        let name: &str = if index == 0 {
            "Workspace 1"
        } else if index == 1 {
            "Workspace 2"
        } else if index == 2 {
            "Workspace 3"
        } else if index == 3 {
            "Workspace 4"
        } else if index == 4 {
            "Workspace 5"
        } else if index == 5 {
            "Workspace 6"
        } else if index == 6 {
            "Workspace 7"
        } else if index == 7 {
            "Workspace 8"
        } else if index == 8 {
            "Workspace 9"
        } else {
            "Workspace 10"
        };
        Workspace { windows: Vec::new(), focused: None, index, name: name.to_owned() }
    }

    /// Append a record and focus it.
    ///
    /// Law: directly after `add_window(w)`, the focused record is `w`.
    pub fn add_window(&mut self, window: Window)
        ensures
            final(self).windows@ == old(self).windows@.push(window),
            final(self).focused == Some((old(self).windows@.len()) as usize),
            final(self).spec_focused() == Some(window),
            final(self).index == old(self).index,
            final(self).name == old(self).name,
    {
        self.windows.push(window);
        self.focused = Some(self.windows.len() - 1);
    }

    /// Drop the first record carrying `window_id`, if any. When the dropped
    /// index was the focused one, focus falls back to the previous index if
    /// any record remains, else to none. Other focus hints are kept as they
    /// are, even though the indices after the dropped one shift down.
    ///
    /// Laws: the count drops by exactly one if and only if the id was
    /// present; and after removing the focused record from a list that
    /// keeps at least one record, some record is still focused.
    pub fn remove_window(&mut self, window_id: u64)
        ensures
            (forall|k: int|
                0 <= k < old(self).windows@.len() ==> (#[trigger] old(self).windows@[k]).id
                    != window_id) ==> *final(self) == *old(self),
            (exists|i: int| first_index_with_id(old(self).windows@, window_id, i))
                <==> final(self).windows@.len() == old(self).windows@.len() - 1,
            !(exists|i: int| first_index_with_id(old(self).windows@, window_id, i))
                <==> *final(self) == *old(self) && !(exists|i: int|
                first_index_with_id(old(self).windows@, window_id, i)),
            forall|i: int|
                first_index_with_id(old(self).windows@, window_id, i) ==> {
                    &&& final(self).windows@ == old(self).windows@.remove(i)
                    &&& final(self).focused == (if old(self).focused == Some(i as usize) {
                        if old(self).windows@.len() > 1 {
                            Some((if i > 0 { i - 1 } else { 0 }) as usize)
                        } else {
                            None::<usize>
                        }
                    } else {
                        old(self).focused
                    })
                },
            forall|i: int|
                (first_index_with_id(old(self).windows@, window_id, i) && old(self).focused == Some(
                    i as usize,
                ) && old(self).windows@.len() > 1) ==> final(self).spec_focused() is Some,
            final(self).index == old(self).index,
            final(self).name == old(self).name,
    {
        let n = self.windows.len();
        let mut idx: usize = 0;
        let mut found = false;
        while idx < n && !found
            invariant
                n == self.windows.len(),
                idx <= n,
                !found ==> forall|k: int|
                    0 <= k < idx ==> (#[trigger] self.windows@[k]).id != window_id,
                found ==> first_index_with_id(self.windows@, window_id, idx as int),
                *self == *old(self),
            decreases n - idx + (if found { 0int } else { 1int }),
        {
            if self.windows[idx].id == window_id {
                found = true;
            } else {
                idx += 1;
            }
        }
        if found {
            self.windows.remove(idx);
            if self.focused == Some(idx) {
                self.focused = if self.windows.len() > 0 {
                    Some(if idx > 0 {
                        idx - 1
                    } else {
                        0
                    })
                } else {
                    None
                };
            }
            proof {
                assert forall|i: int|
                    first_index_with_id(old(self).windows@, window_id, i) implies i
                    == idx as int by {
                    if i < idx as int {
                        assert(old(self).windows@[i].id != window_id);
                    }
                    if i > idx as int {
                        assert(old(self).windows@[idx as int].id != window_id);
                    }
                }
            }
        }
    }

    /// The record at the focus index, if one is set and in range.
    pub fn get_focused_window(&self) -> (r: Option<&Window>)
        ensures
            match r {
                Some(w) => self.spec_focused() == Some(*w),
                None => self.spec_focused() is None,
            },
    {
        match self.focused {
            Some(i) => if i < self.windows.len() {
                Some(&self.windows[i])
            } else {
                None
            },
            None => None,
        }
    }
}

} // verus!
