//! The protocol between the verified state machine and the surrounding run
//! loop: key events in, daemon calls out, call outcomes back in.
//!
//! The run loop feeds one key at a time to the handler and gets back an
//! [`Effect`]. While the effect asks for a call, the loop performs it
//! against the daemon (or the credential store) and hands the result back,
//! together with the effect's [`PendingOp`] token, until the handler goes
//! idle or propagates a fatal error.

use crate::credentials::Credentials;
use crate::error::LazyFileError;
use crate::modal::ActiveModal;
use crate::state::App;
use crate::state::FileEntry;
use vstd::prelude::*;

verus! {

/// One key event, as the state machine sees it.
#[derive(Debug, Clone, Copy, PartialEq, Eq, Structural)]
pub enum KeyMsg {
    /// A printable character.
    Char(char),
    /// Enter.
    Enter,
    /// Escape.
    Esc,
    /// Tab.
    Tab,
    /// Shift+Tab.
    BackTab,
    /// Backspace.
    Backspace,
    /// Arrow up.
    Up,
    /// Arrow down.
    Down,
    /// Arrow left.
    Left,
    /// Arrow right.
    Right,
    /// Any key the client ignores.
    Other,
}

/// One call for the run loop to perform.
#[derive(Debug)]
pub enum DaemonCall {
    /// List the configured remotes.
    ListRemotes,
    /// List one directory of one remote.
    ListDirectory {
        /// The remote to list under.
        remote: String,
        /// The `/`-delimited path to list; empty means the remote's root.
        path: String,
    },
    /// Create a remote.
    CreateRemote {
        /// The new remote's name.
        name: String,
        /// The new remote's backend type.
        remote_type: String,
        /// Extra parameters; only a non-empty path is ever forwarded.
        params: Vec<(String, String)>,
    },
    /// Update a remote's parameters.
    UpdateRemote {
        /// The remote to update.
        name: String,
        /// Extra parameters; only a non-empty path is ever forwarded.
        params: Vec<(String, String)>,
    },
    /// Delete a remote.
    DeleteRemote {
        /// The remote to delete.
        name: String,
    },
    /// Write credentials to the durable credential store.
    PersistCredentials {
        /// The credentials to persist.
        credentials: Credentials,
    },
}

/// What a performed call came back with.
#[derive(Debug)]
pub enum CallOutcome {
    /// A remote listing succeeded.
    Remotes {
        /// The remotes' names.
        names: Vec<String>,
    },
    /// A directory listing succeeded.
    Listing {
        /// The directory's entries.
        entries: Vec<FileEntry>,
    },
    /// A call without a payload succeeded.
    Completed,
    /// The daemon denied authorization.
    Denied,
    /// The call failed for any other reason.
    Failed {
        /// The failure's description.
        message: String,
    },
}

/// Which in-flight call a [`CallOutcome`] answers; handed out inside an
/// [`Effect::Call`] and passed back unchanged.
#[derive(Debug)]
pub enum PendingOp {
    /// Listing the root of a freshly selected remote.
    EnterRemote,
    /// Listing a directory just entered from the files panel.
    EnterDirectory,
    /// Re-listing the parent directory after Backspace.
    RelistAfterBack,
    /// Deleting the remote the user confirmed.
    DeleteConfirmed,
    /// Refreshing the remote list after a change.
    RefreshRemotes,
    /// Creating or updating a remote from the open form.
    SubmitCreateEdit,
    /// Persisting freshly submitted login credentials.
    PersistLogin,
    /// Probing authentication by listing remotes after login.
    LoginProbe,
}

/// What the run loop must do next.
#[derive(Debug)]
pub enum Effect {
    /// Nothing; read the next key.
    Idle,
    /// Perform `call` and hand its outcome back with `op`.
    Call {
        /// The call to perform.
        call: DaemonCall,
        /// The token to hand back with the outcome.
        op: PendingOp,
    },
    /// A failure the state machine does not absorb; the run loop decides
    /// whether to terminate or display it.
    Fatal {
        /// The propagated failure.
        error: LazyFileError,
    },
}

/// The states in which each [`PendingOp`] can be answered: exactly the
/// states the handler is in when it hands the token out.
pub open spec fn op_state_compatible(app: App, op: PendingOp) -> bool {
    match op {
        PendingOp::EnterRemote => app.modal is Inactive,
        PendingOp::EnterDirectory => app.modal is Inactive,
        PendingOp::RelistAfterBack => app.modal is Inactive,
        PendingOp::DeleteConfirmed => app.modal is Inactive,
        PendingOp::RefreshRemotes => app.modal is Inactive,
        PendingOp::SubmitCreateEdit => app.modal is CreateEdit,
        PendingOp::PersistLogin => app.modal is Login,
        PendingOp::LoginProbe => app.modal is Login,
    }
}

/// Whether `op` can be answered in the current state; for callers outside
/// the verified library, which must check before handing an outcome back.
pub fn op_compatible(app: &App, op: &PendingOp) -> (b: bool)
    ensures
        b == op_state_compatible(*app, *op),
{
    match op {
        PendingOp::SubmitCreateEdit => matches!(app.modal, ActiveModal::CreateEdit { .. }),
        PendingOp::PersistLogin => matches!(app.modal, ActiveModal::Login { .. }),
        PendingOp::LoginProbe => matches!(app.modal, ActiveModal::Login { .. }),
        _ => matches!(app.modal, ActiveModal::Inactive),
    }
}

} // verus!
