//! The browsing state: current path, loaded listing, selection, mode,
//! and what loading a directory or pressing a key does to them.

use vstd::prelude::*;
use crate::listing::{entries_ordered, sort_entries, DirEntry};
use crate::path::DirPath;

verus! {

/// The vim-like input mode. Only `Normal` supports navigation; `Visual`
/// and `Command` support nothing but returning to `Normal` with the
/// cancel key.
#[derive(Clone, Copy, Debug, PartialEq, Eq, Structural)]
pub enum VimMode {
    Normal,
    Visual,
    Command,
}

/// One decoded navigation key press.
#[derive(Clone, Copy, Debug, PartialEq, Eq, Structural)]
pub enum NavKey {
    /// Move the selection one entry down.
    Next,
    /// Move the selection one entry up.
    Prev,
    /// Activate the selected entry.
    Open,
    /// Navigate to the parent directory.
    Back,
    /// Jump to the first entry.
    Top,
    /// Jump to the last entry.
    Bottom,
    /// Switch to visual mode.
    ToVisual,
    /// Leave visual or command mode.
    Cancel,
}

/// The name of the synthetic parent row.
pub open spec fn parent_marker() -> Seq<char> {
    ".."@
}

/// How many synthetic rows the listing of a directory at `path` carries:
/// one parent row, unless the path is the root.
pub open spec fn synthetic_rows(path: Seq<Seq<char>>) -> int {
    if path.len() == 0 {
        0
    } else {
        1
    }
}

/// The directory being viewed: its path, the loaded entries in display
/// order, the selected row, and whether a reload is pending.
pub struct DirectoryState {
    pub path: DirPath,
    pub entries: Vec<DirEntry>,
    pub selected_index: usize,
    pub needs_reload: bool,
}

impl DirectoryState {
    /// The selection stays in bounds whenever the listing is non-empty.
    pub open spec fn wf(self) -> bool {
        self.entries@.len() > 0 ==> self.selected_index < self.entries@.len()
    }

    /// A fresh state at `path`, with nothing loaded and a reload pending.
    pub fn new(path: DirPath) -> (s: DirectoryState)
        ensures
            s.path@ == path@,
            s.entries@ == Seq::<DirEntry>::empty(),
            s.selected_index == 0,
            s.needs_reload,
            s.wf(),
    {
        DirectoryState { path, entries: Vec::new(), selected_index: 0, needs_reload: true }
    }

    /// Replaces the listing with the entries read from the current
    /// directory. A synthetic ".." row pointing at the parent is put
    /// first unless the path is the root; the rest is sorted into the
    /// display order. The selection returns to the top and the pending
    /// reload is cleared. Unreadable directories simply yield an empty
    /// `raw`, so the listing degrades to the parent row alone.
    pub fn load_listing(&mut self, raw: Vec<DirEntry>)
        ensures
            final(self).path@ == old(self).path@,
            !final(self).needs_reload,
            final(self).selected_index == 0,
            final(self).wf(),
            final(self).entries@.len() == raw@.len() + synthetic_rows(old(self).path@),
            final(self).entries@.skip(synthetic_rows(old(self).path@)).to_multiset()
                == raw@.to_multiset(),
            entries_ordered(final(self).entries@.skip(synthetic_rows(old(self).path@))),
            old(self).path@.len() > 0 ==> {
                &&& final(self).entries@[0].name@ == parent_marker()
                &&& final(self).entries@[0].path@ == old(self).path@.drop_last()
                &&& final(self).entries@[0].is_dir
                &&& final(self).entries@[0].size == 0
            },
            (forall|i: int| 0 <= i < raw@.len() ==> (#[trigger] raw@[i]).name@ != parent_marker())
                ==> (forall|j: int|
                synthetic_rows(old(self).path@) <= j < final(self).entries@.len() ==> (
                #[trigger] final(self).entries@[j]).name@ != parent_marker()),
    {
        let ghost raw0 = raw@;
        let mut rest = raw;
        sort_entries(&mut rest);
        let mut entries: Vec<DirEntry> = Vec::new();
        match self.path.parent() {
            Some(parent) => {
                let name: String = "..".to_owned();
                entries.push(DirEntry { name, path: parent, is_dir: true, size: 0 });
            },
            None => {},
        }
        let ghost rows = entries@.len() as int;
        let ghost sorted_part = rest@;
        entries.append(&mut rest);
        self.entries = entries;
        self.selected_index = 0;
        self.needs_reload = false;
        proof {
            assert(rows == synthetic_rows(old(self).path@));
            assert(self.entries@.skip(rows) =~= sorted_part);
            broadcast use vstd::seq_lib::group_to_multiset_ensures;

            if forall|i: int| 0 <= i < raw0.len() ==> (#[trigger] raw0[i]).name@
                != parent_marker() {
                assert forall|j: int| rows <= j < self.entries@.len() implies (
                #[trigger] self.entries@[j]).name@ != parent_marker() by {
                    let e = self.entries@[j];
                    assert(sorted_part[j - rows] == e);
                    assert(sorted_part.contains(e));
                    assert(raw0.to_multiset().count(e) > 0);
                    assert(raw0.contains(e));
                    let i = choose|i: int| 0 <= i < raw0.len() && raw0[i] == e;
                    assert(raw0[i].name@ != parent_marker());
                }
            }
        }
    }

    /// The entry the selection rests on, if the listing has one there.
    pub fn selected_entry(&self) -> (r: Option<&DirEntry>)
        ensures
            match r {
                Some(e) => self.selected_index < self.entries@.len() && *e == self.entries@[self.selected_index as int],
                None => self.selected_index >= self.entries@.len(),
            },
    {
        if self.selected_index < self.entries.len() {
            Some(&self.entries[self.selected_index])
        } else {
            None
        }
    }
}

/// Only the selection moved to `sel`; path, listing and reload flag kept
/// their values.
pub open spec fn only_selection_moved(
    pre: DirectoryState,
    post: DirectoryState,
    sel: int,
) -> bool {
    &&& post.path@ == pre.path@
    &&& post.entries@ == pre.entries@
    &&& post.needs_reload == pre.needs_reload
    &&& post.selected_index == sel
}

/// The path changed to `target` and a reload is now pending; the listing
/// and the selection are untouched until that reload happens.
pub open spec fn moved_to(
    pre: DirectoryState,
    post: DirectoryState,
    target: Seq<Seq<char>>,
) -> bool {
    &&& post.path@ == target
    &&& post.entries@ == pre.entries@
    &&& post.needs_reload
    &&& post.selected_index == pre.selected_index
}

/// One step down, clamped at the last entry.
pub open spec fn next_selection(sel: int, n: int) -> int {
    if sel + 1 < n {
        sel + 1
    } else {
        n - 1
    }
}

/// One step up, clamped at the first entry.
pub open spec fn prev_selection(sel: int) -> int {
    if sel > 0 {
        sel - 1
    } else {
        0
    }
}

/// What one key press does. With an empty listing every key is ignored.
/// In normal mode the selection moves clamped to the ends; activating a
/// directory entry replaces the path with that entry's path and marks a
/// reload, while activating a file does nothing; "back" does the same
/// with the parent of a non-root path and nothing at the root. Visual
/// and command mode only recognize the cancel key, which returns to
/// normal mode.
pub open spec fn nav_step(
    pre: DirectoryState,
    pre_mode: VimMode,
    key: NavKey,
    post: DirectoryState,
    post_mode: VimMode,
) -> bool {
    let n = pre.entries@.len() as int;
    let sel = pre.selected_index as int;
    if n == 0 {
        post == pre && post_mode == pre_mode
    } else {
        match pre_mode {
            VimMode::Normal => match key {
                NavKey::Next => only_selection_moved(pre, post, next_selection(sel, n))
                    && post_mode == pre_mode,
                NavKey::Prev => only_selection_moved(pre, post, prev_selection(sel))
                    && post_mode == pre_mode,
                NavKey::Top => only_selection_moved(pre, post, 0) && post_mode == pre_mode,
                NavKey::Bottom => only_selection_moved(pre, post, n - 1) && post_mode == pre_mode,
                NavKey::Open => {
                    &&& if sel < n && pre.entries@[sel].is_dir {
                        moved_to(pre, post, pre.entries@[sel].path@)
                    } else {
                        post == pre
                    }
                    &&& post_mode == pre_mode
                },
                NavKey::Back => {
                    &&& if pre.path@.len() > 0 {
                        moved_to(pre, post, pre.path@.drop_last())
                    } else {
                        post == pre
                    }
                    &&& post_mode == pre_mode
                },
                NavKey::ToVisual => post == pre && post_mode == VimMode::Visual,
                NavKey::Cancel => post == pre && post_mode == pre_mode,
            },
            _ => post == pre && post_mode == (
            if key == NavKey::Cancel {
                VimMode::Normal
            } else {
                pre_mode
            }),
        }
    }
}

impl DirectoryState {
    /// Applies one key press to the state and the mode.
    pub fn handle_key(&mut self, mode: &mut VimMode, key: NavKey)
        ensures
            nav_step(*old(self), *old(mode), key, *final(self), *final(mode)),
            old(self).wf() ==> final(self).wf(),
            final(self).entries@ == old(self).entries@,
    {
        let n = self.entries.len();
        if n == 0 {
            return;
        }
        match *mode {
            VimMode::Normal => match key {
                NavKey::Next => {
                    if self.selected_index < n - 1 {
                        self.selected_index = self.selected_index + 1;
                    } else {
                        self.selected_index = n - 1;
                    }
                },
                NavKey::Prev => {
                    if self.selected_index > 0 {
                        self.selected_index = self.selected_index - 1;
                    }
                },
                NavKey::Open => {
                    if self.selected_index < n {
                        if self.entries[self.selected_index].is_dir {
                            let p = self.entries[self.selected_index].path.duplicate();
                            self.path = p;
                            self.needs_reload = true;
                        }
                    }
                },
                NavKey::Back => {
                    match self.path.parent() {
                        Some(p) => {
                            self.path = p;
                            self.needs_reload = true;
                        },
                        None => {},
                    }
                },
                NavKey::Top => {
                    self.selected_index = 0;
                },
                NavKey::Bottom => {
                    self.selected_index = n - 1;
                },
                NavKey::ToVisual => {
                    *mode = VimMode::Visual;
                },
                NavKey::Cancel => {},
            },
            VimMode::Visual | VimMode::Command => {
                match key {
                    NavKey::Cancel => {
                        *mode = VimMode::Normal;
                    },
                    _ => {},
                }
            },
        }
    }
}

} // verus!
