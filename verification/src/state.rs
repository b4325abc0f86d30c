//! The aggregate application state: panel focus, lists and selections, the
//! navigation path, the active modal, and the session credentials installed
//! on the daemon client.

use crate::credentials::Credentials;
use crate::manager::AuthManager;
use crate::modal::ActiveModal;
use vstd::prelude::*;

verus! {

/// The panel that keyboard navigation currently drives.
#[derive(Debug, Clone, Copy, PartialEq, Eq, Structural)]
pub enum Panel {
    /// The list of configured remotes.
    Remotes,
    /// The directory listing of the selected remote.
    Files,
}

/// One entry of a directory listing.
#[derive(Debug)]
pub struct FileEntry {
    /// The entry's name, a single path component.
    pub name: String,
    /// Whether the entry is a directory.
    pub is_dir: bool,
}

impl FileEntry {
    /// A new directory entry.
    pub fn new(name: String, is_dir: bool) -> (e: FileEntry)
        ensures
            e.name == name,
            e.is_dir == is_dir,
    {
        FileEntry { name, is_dir }
    }
}

/// The aggregate application state.
#[derive(Debug)]
pub struct App {
    /// False once the user asked to quit.
    pub running: bool,
    /// The focused panel.
    pub focused_panel: Panel,
    /// The names of the configured remotes.
    pub remotes: Vec<String>,
    /// The selected index into `remotes`; 0 when the list is empty.
    pub remotes_selected: usize,
    /// The remote whose tree is being browsed, if any.
    pub current_remote: Option<String>,
    /// The `/`-delimited path under the current remote; empty means root.
    pub current_path: String,
    /// The current directory listing.
    pub files: Vec<FileEntry>,
    /// The selected index into `files`; 0 when the list is empty.
    pub files_selected: usize,
    /// The modal that owns keyboard input, if any.
    pub modal: ActiveModal,
    /// The remote a pending delete confirmation is about, if one is open.
    pub pending_delete_remote: Option<String>,
    /// The credentials installed on the daemon client for this session.
    pub session_credentials: Option<Credentials>,
    /// The credential registry.
    pub auth_manager: AuthManager,
}

/// The other panel.
pub open spec fn other_panel(p: Panel) -> Panel {
    match p {
        Panel::Remotes => Panel::Files,
        Panel::Files => Panel::Remotes,
    }
}

impl App {
    /// Both selections sit inside their list's bounds, or rest at 0 when
    /// the list is empty.
    pub open spec fn selections_in_range(&self) -> bool {
        &&& if self.remotes@.len() == 0 {
            self.remotes_selected == 0
        } else {
            self.remotes_selected < self.remotes@.len()
        }
        &&& if self.files@.len() == 0 {
            self.files_selected == 0
        } else {
            self.files_selected < self.files@.len()
        }
    }

    /// Well-formedness: selections are in range, and the pending-delete
    /// target exists exactly while the confirmation dialog is open.
    pub open spec fn wf(&self) -> bool {
        &&& self.selections_in_range()
        &&& (self.modal is Confirm <==> self.pending_delete_remote is Some)
        &&& self.auth_manager.wf()
    }

    /// A fresh state: running, remotes panel focused, everything empty,
    /// no modal, no session credentials.
    pub fn new(auth_manager: AuthManager) -> (app: App)
        requires
            auth_manager.wf(),
        ensures
            app.wf(),
            app.running,
            app.focused_panel is Remotes,
            app.remotes@.len() == 0,
            app.remotes_selected == 0,
            app.current_remote is None,
            app.current_path@ == Seq::<char>::empty(),
            app.files@.len() == 0,
            app.files_selected == 0,
            app.modal is Inactive,
            app.pending_delete_remote is None,
            app.session_credentials is None,
            app.auth_manager == auth_manager,
    {
        App {
            running: true,
            focused_panel: Panel::Remotes,
            remotes: Vec::new(),
            remotes_selected: 0,
            current_remote: None,
            current_path: String::new(),
            files: Vec::new(),
            files_selected: 0,
            modal: ActiveModal::Inactive,
            pending_delete_remote: None,
            session_credentials: None,
            auth_manager,
        }
    }

    /// Move the focused list's selection one down, clamped at the end.
    pub fn navigate_down(&mut self)
        requires
            old(self).wf(),
        ensures
            final(self).wf(),
            nav_down_transition(*old(self), *final(self)),
    {
        match self.focused_panel {
            Panel::Remotes => {
                let len = self.remotes.len();
                if len > 0 && self.remotes_selected < len - 1 {
                    self.remotes_selected = self.remotes_selected + 1;
                }
            },
            Panel::Files => {
                let len = self.files.len();
                if len > 0 && self.files_selected < len - 1 {
                    self.files_selected = self.files_selected + 1;
                }
            },
        }
    }

    /// Move the focused list's selection one up, clamped at 0.
    pub fn navigate_up(&mut self)
        requires
            old(self).wf(),
        ensures
            final(self).wf(),
            nav_up_transition(*old(self), *final(self)),
    {
        match self.focused_panel {
            Panel::Remotes => {
                if self.remotes_selected > 0 {
                    self.remotes_selected = self.remotes_selected - 1;
                }
            },
            Panel::Files => {
                if self.files_selected > 0 {
                    self.files_selected = self.files_selected - 1;
                }
            },
        }
    }

    /// Toggle the focused panel.
    pub fn switch_panel(&mut self)
        requires
            old(self).wf(),
        ensures
            final(self).wf(),
            *final(self) == (App { focused_panel: other_panel(old(self).focused_panel), ..*old(
                self,
            ) }),
    {
        self.focused_panel = match self.focused_panel {
            Panel::Remotes => Panel::Files,
            Panel::Files => Panel::Remotes,
        };
    }

    /// Adopt a freshly listed set of remotes, clamping the selection.
    pub fn set_remotes(&mut self, names: Vec<String>)
        requires
            old(self).wf(),
        ensures
            final(self).wf(),
            set_remotes_transition(*old(self), *final(self), names@),
    {
        self.remotes = names;
        let len = self.remotes.len();
        if len == 0 {
            self.remotes_selected = 0;
        } else if self.remotes_selected >= len {
            self.remotes_selected = len - 1;
        }
    }

    /// Adopt a freshly listed directory, resetting the selection.
    pub fn set_files(&mut self, entries: Vec<FileEntry>)
        requires
            old(self).wf(),
        ensures
            final(self).wf(),
            set_files_transition(*old(self), *final(self), entries@),
    {
        self.files = entries;
        self.files_selected = 0;
    }
}

/// Both selections always sit inside `[0, len)`, or rest at 0 beside an
/// empty list, in every well-formed state.
pub proof fn lemma_selection_bounds(app: App)
    requires
        app.wf(),
    ensures
        app.remotes@.len() > 0 ==> app.remotes_selected < app.remotes@.len(),
        app.remotes@.len() == 0 ==> app.remotes_selected == 0,
        app.files@.len() > 0 ==> app.files_selected < app.files@.len(),
        app.files@.len() == 0 ==> app.files_selected == 0,
{
}

/// A down-navigation: the focused list's selection grew by one, clamped at
/// the end; everything else is untouched.
pub open spec fn nav_down_transition(pre: App, post: App) -> bool {
    match pre.focused_panel {
        Panel::Remotes => {
            if pre.remotes_selected + 1 < pre.remotes@.len() {
                &&& post.remotes_selected == pre.remotes_selected + 1
                &&& post == (App { remotes_selected: post.remotes_selected, ..pre })
            } else {
                post == pre
            }
        },
        Panel::Files => {
            if pre.files_selected + 1 < pre.files@.len() {
                &&& post.files_selected == pre.files_selected + 1
                &&& post == (App { files_selected: post.files_selected, ..pre })
            } else {
                post == pre
            }
        },
    }
}

/// An up-navigation: the focused list's selection shrank by one, clamped
/// at 0; everything else is untouched.
pub open spec fn nav_up_transition(pre: App, post: App) -> bool {
    match pre.focused_panel {
        Panel::Remotes => {
            if pre.remotes_selected > 0 {
                &&& post.remotes_selected == pre.remotes_selected - 1
                &&& post == (App { remotes_selected: post.remotes_selected, ..pre })
            } else {
                post == pre
            }
        },
        Panel::Files => {
            if pre.files_selected > 0 {
                &&& post.files_selected == pre.files_selected - 1
                &&& post == (App { files_selected: post.files_selected, ..pre })
            } else {
                post == pre
            }
        },
    }
}

/// The selection a list refresh leaves behind: kept if still in range,
/// else the last entry, or 0 for an empty list.
pub open spec fn clamped_selection(sel: usize, len: nat) -> int {
    if len == 0 {
        0
    } else if sel < len {
        sel as int
    } else {
        len - 1
    }
}

/// A remote-list refresh: the list is replaced, the selection clamped;
/// everything else is untouched.
pub open spec fn set_remotes_transition(pre: App, post: App, names: Seq<String>) -> bool {
    &&& post.remotes@ == names
    &&& post.remotes_selected == clamped_selection(pre.remotes_selected, names.len())
    &&& post == (App {
        remotes: post.remotes,
        remotes_selected: post.remotes_selected,
        ..pre
    })
}

/// A directory-listing refresh: the list is replaced, the selection reset;
/// everything else is untouched.
pub open spec fn set_files_transition(pre: App, post: App, entries: Seq<FileEntry>) -> bool {
    &&& post.files@ == entries
    &&& post.files_selected == 0
    &&& post == (App { files: post.files, files_selected: 0, ..pre })
}

} // verus!
