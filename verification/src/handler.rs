//! The input dispatcher and the transitions it drives.
//!
//! A key event goes to whichever modal is open — login first, then the
//! confirmation dialog, then the create/edit form — and otherwise to panel
//! navigation; a modal therefore always owns input while it is open. Every
//! transition is specified as a relation between the state before, the
//! state after, and the [`Effect`] handed to the run loop, and the
//! executable handlers are verified against those relations.

use crate::credentials::Credentials;
use crate::credentials::CredentialsType;
use crate::error::LazyFileError;
use crate::modal::ActiveModal;
use crate::modal::ConfirmModal;
use crate::modal::CreateRemoteModal;
use crate::modal::CreateRemoteMode;
use crate::modal::LoginField;
use crate::modal::LoginModal;
use crate::session::CallOutcome;
use crate::session::DaemonCall;
use crate::session::Effect;
use crate::session::KeyMsg;
use crate::session::PendingOp;
use crate::session::op_state_compatible;
use crate::state::App;
use crate::state::Panel;
use crate::state::clamped_selection;
use crate::state::nav_down_transition;
use crate::state::nav_up_transition;
use crate::state::other_panel;
use crate::state::set_files_transition;
use crate::state::set_remotes_transition;
use crate::textops::drop_last_or_empty;
use crate::textops::lemma_parent_of_join;
use crate::textops::parent_of;
use crate::textops::path_parent;
use crate::textops::path_push;
use crate::textops::slash_free;
use vstd::prelude::*;
use vstd::string::StringExecFns;

verus! {

/// A just-opened Basic login form, as an authorization denial creates it.
pub open spec fn fresh_basic_login(m: LoginModal) -> bool {
    &&& m.auth_type is Basic
    &&& m.username@ == Seq::<char>::empty()
    &&& m.password@ == Seq::<char>::empty()
    &&& m.focus_field is Username
    &&& m.error is None
    &&& m.is_password_masked
}

/// The credentials a submitted login form builds: Basic takes the form's
/// username and password, Bearer takes the password field as the token;
/// either way they are daemon-wide.
pub open spec fn built_credentials(m: LoginModal, c: Credentials) -> bool {
    match m.auth_type {
        CredentialsType::Basic => {
            &&& c.auth_type is Basic
            &&& c.username == m.username
            &&& c.password == m.password
            &&& c.remote is None
        },
        CredentialsType::Bearer => {
            &&& c.auth_type is Bearer
            &&& c.username@ == Seq::<char>::empty()
            &&& c.password == m.password
            &&& c.remote is None
        },
    }
}

/// The open login form got `msg` as its inline error; nothing else moved.
pub open spec fn login_error_set(pre: App, post: App, msg: Seq<char>) -> bool {
    &&& pre.modal matches ActiveModal::Login { login: m }
    &&& post.modal matches ActiveModal::Login { login: pm } && {
        &&& pm == (LoginModal { error: pm.error, ..m })
        &&& pm.error matches Some(e) && e@ == msg
    }
    &&& post == (App { modal: post.modal, ..pre })
}

/// The open create/edit form got `msg` as its inline error; nothing else
/// moved.
pub open spec fn create_error_set(pre: App, post: App, msg: Seq<char>) -> bool {
    &&& pre.modal matches ActiveModal::CreateEdit { form: m }
    &&& post.modal matches ActiveModal::CreateEdit { form: pm } && {
        &&& pm == (CreateRemoteModal { error: pm.error, ..m })
        &&& pm.error matches Some(e) && e@ == msg
    }
    &&& post == (App { modal: post.modal, ..pre })
}

/// Opening the create form: a fresh, empty form in create mode.
pub open spec fn open_create_transition(pre: App, post: App) -> bool {
    &&& post.modal matches ActiveModal::CreateEdit { form }
    &&& form.mode is Create
    &&& form.name@ == Seq::<char>::empty()
    &&& form.remote_type@ == Seq::<char>::empty()
    &&& form.path@ == Seq::<char>::empty()
    &&& form.focus_field is Name
    &&& form.error is None
    &&& post == (App { modal: post.modal, ..pre })
}

/// Opening the delete confirmation: with a remote selected, the dialog
/// opens not-confirmed and the pending-delete target is recorded; with an
/// empty list nothing happens.
pub open spec fn delete_key_transition(pre: App, post: App) -> bool {
    if pre.remotes_selected < pre.remotes@.len() {
        let name = pre.remotes@[pre.remotes_selected as int];
        &&& post.pending_delete_remote matches Some(n) && n == name
        &&& post.modal matches ActiveModal::Confirm { confirm } && !confirm.confirmed
            && confirm.title@ == "Delete Remote"@ && confirm.message@ == "Delete '"@ + name@
            + "'?"@
        &&& post == (App {
            pending_delete_remote: post.pending_delete_remote,
            modal: post.modal,
            ..pre
        })
    } else {
        post == pre
    }
}

/// Opening the edit form: with a remote selected, the form opens in edit
/// mode pre-filled with the remote's identity; with an empty list nothing
/// happens.
pub open spec fn edit_key_transition(pre: App, post: App) -> bool {
    if pre.remotes_selected < pre.remotes@.len() {
        &&& post.modal matches ActiveModal::CreateEdit { form }
        &&& form.mode is Edit
        &&& form.name == pre.remotes@[pre.remotes_selected as int]
        &&& form.remote_type@ == "local"@
        &&& form.path@ == Seq::<char>::empty()
        &&& form.focus_field is Name
        &&& form.error is None
        &&& post == (App { modal: post.modal, ..pre })
    } else {
        post == pre
    }
}

/// Activation. On the remotes panel a selected remote becomes current,
/// the path resets, and its root listing is requested. On the files panel
/// a selected directory's candidate path (`path` + `/` + `name`) is
/// adopted and its listing requested; the outcome decides whether it
/// stays (see [`response_transition`]).
pub open spec fn enter_transition(pre: App, post: App, eff: Effect) -> bool {
    match pre.focused_panel {
        Panel::Remotes => {
            if pre.remotes_selected < pre.remotes@.len() {
                let name = pre.remotes@[pre.remotes_selected as int];
                &&& post.current_remote == Some(name)
                &&& post.current_path@ == Seq::<char>::empty()
                &&& post == (App {
                    current_remote: post.current_remote,
                    current_path: post.current_path,
                    ..pre
                })
                &&& eff matches Effect::Call {
                    call: DaemonCall::ListDirectory { remote, path },
                    op: PendingOp::EnterRemote,
                } && remote == name && path@ == Seq::<char>::empty()
            } else {
                post == pre && eff is Idle
            }
        },
        Panel::Files => {
            if pre.files_selected < pre.files@.len() && pre.files@[pre.files_selected as int].is_dir
                && pre.current_remote is Some {
                let name = pre.files@[pre.files_selected as int].name;
                &&& post.current_path@ == pre.current_path@ + seq!['/'] + name@
                &&& post == (App { current_path: post.current_path, ..pre })
                &&& eff matches Effect::Call {
                    call: DaemonCall::ListDirectory { remote, path },
                    op: PendingOp::EnterDirectory,
                } && Some(remote) == pre.current_remote && path == post.current_path
            } else {
                post == pre && eff is Idle
            }
        },
    }
}

/// Going back. On the files panel with a non-empty path, the path is
/// truncated at its last `/` and the parent re-listed; at the remote's
/// root, focus returns to the remotes panel and the remote and its
/// listing are dropped. On the remotes panel nothing happens.
pub open spec fn backspace_transition(pre: App, post: App, eff: Effect) -> bool {
    match pre.focused_panel {
        Panel::Files => {
            if pre.current_path@.len() > 0 && pre.current_remote is Some {
                &&& post.current_path@ == parent_of(pre.current_path@)
                &&& post == (App { current_path: post.current_path, ..pre })
                &&& eff matches Effect::Call {
                    call: DaemonCall::ListDirectory { remote, path },
                    op: PendingOp::RelistAfterBack,
                } && Some(remote) == pre.current_remote && path == post.current_path
            } else {
                &&& post.files@.len() == 0
                &&& post == (App {
                    current_remote: None,
                    focused_panel: Panel::Remotes,
                    files: post.files,
                    files_selected: 0,
                    ..pre
                })
                &&& eff is Idle
            }
        },
        Panel::Remotes => post == pre && eff is Idle,
    }
}

/// Key handling with no modal open: quit, open the forms, move the
/// selections, switch panels, activate, go back.
pub open spec fn panel_key_transition(pre: App, post: App, key: KeyMsg, eff: Effect) -> bool {
    match key {
        KeyMsg::Char(c) => {
            if c == 'q' {
                post == (App { running: false, ..pre }) && eff is Idle
            } else if c == 'a' && pre.focused_panel is Remotes {
                open_create_transition(pre, post) && eff is Idle
            } else if c == 'd' && pre.focused_panel is Remotes {
                delete_key_transition(pre, post) && eff is Idle
            } else if c == 'e' && pre.focused_panel is Remotes {
                edit_key_transition(pre, post) && eff is Idle
            } else if c == 'j' {
                nav_down_transition(pre, post) && eff is Idle
            } else if c == 'k' {
                nav_up_transition(pre, post) && eff is Idle
            } else {
                post == pre && eff is Idle
            }
        },
        KeyMsg::Down => nav_down_transition(pre, post) && eff is Idle,
        KeyMsg::Up => nav_up_transition(pre, post) && eff is Idle,
        KeyMsg::Tab => post == (App { focused_panel: other_panel(pre.focused_panel), ..pre })
            && eff is Idle,
        KeyMsg::Enter => enter_transition(pre, post, eff),
        KeyMsg::Backspace => backspace_transition(pre, post, eff),
        _ => post == pre && eff is Idle,
    }
}

/// Submitting the login form. An incomplete form is rejected locally with
/// an inline error. A complete one builds credentials, installs them on
/// the client and in the registry, and asks the run loop to persist them;
/// the authentication probe follows once persistence is answered.
pub open spec fn login_submit_transition(pre: App, m: LoginModal, post: App, eff: Effect) -> bool {
    if !m.valid_spec() {
        &&& login_error_set(pre, post, "All fields are required"@)
        &&& eff is Idle
    } else {
        &&& post.session_credentials matches Some(c) && built_credentials(m, c)
        &&& post.auth_manager.spec_daemon() == post.session_credentials
        &&& post.auth_manager.entries() == pre.auth_manager.entries()
        &&& post.auth_manager.spec_mode() == pre.auth_manager.spec_mode()
        &&& post == (App {
            session_credentials: post.session_credentials,
            auth_manager: post.auth_manager,
            ..pre
        })
        &&& eff matches Effect::Call {
            call: DaemonCall::PersistCredentials { credentials },
            op: PendingOp::PersistLogin,
        } && built_credentials(m, credentials)
    }
}

/// Key handling while the login form is open.
pub open spec fn login_key_transition(pre: App, post: App, key: KeyMsg, eff: Effect) -> bool {
    &&& pre.modal matches ActiveModal::Login { login: m }
    &&& match key {
        KeyMsg::Esc => post == (App { modal: ActiveModal::Inactive, ..pre }) && eff is Idle,
        KeyMsg::Tab => post == (App {
            modal: ActiveModal::Login {
                login: (LoginModal {
                    focus_field: LoginModal::next_field_spec(m.auth_type, m.focus_field),
                    ..m
                }),
            },
            ..pre
        }) && eff is Idle,
        KeyMsg::BackTab => post == (App {
            modal: ActiveModal::Login {
                login: (LoginModal {
                    focus_field: LoginModal::prev_field_spec(m.auth_type, m.focus_field),
                    ..m
                }),
            },
            ..pre
        }) && eff is Idle,
        KeyMsg::Char(c) => {
            if c == 'l' && m.focus_field is Password {
                post == (App {
                    modal: ActiveModal::Login {
                        login: (LoginModal { is_password_masked: !m.is_password_masked, ..m }),
                    },
                    ..pre
                }) && eff is Idle
            } else {
                &&& post.modal matches ActiveModal::Login { login: pm }
                &&& pm.auth_type == m.auth_type
                &&& pm.focus_field == m.focus_field
                &&& pm.is_password_masked == m.is_password_masked
                &&& pm.error is None
                &&& (m.focus_field is Username ==> pm.username@ == m.username@.push(c)
                    && pm.password == m.password)
                &&& (!(m.focus_field is Username) ==> pm.password@ == m.password@.push(c)
                    && pm.username == m.username)
                &&& post == (App { modal: post.modal, ..pre })
                &&& eff is Idle
            }
        },
        KeyMsg::Backspace => {
            &&& post.modal matches ActiveModal::Login { login: pm }
            &&& pm.auth_type == m.auth_type
            &&& pm.focus_field == m.focus_field
            &&& pm.is_password_masked == m.is_password_masked
            &&& pm.error is None
            &&& (m.focus_field is Username ==> pm.username@ == drop_last_or_empty(m.username@)
                && pm.password == m.password)
            &&& (!(m.focus_field is Username) ==> pm.password@ == drop_last_or_empty(m.password@)
                && pm.username == m.username)
            &&& post == (App { modal: post.modal, ..pre })
            &&& eff is Idle
        },
        KeyMsg::Enter => login_submit_transition(pre, m, post, eff),
        _ => post == pre && eff is Idle,
    }
}

/// The confirmation dialog's choice flipped; nothing else moved.
pub open spec fn confirm_toggled(pre: App, post: App, m: ConfirmModal) -> bool {
    post == (App {
        modal: ActiveModal::Confirm { confirm: (ConfirmModal { confirmed: !m.confirmed, ..m }) },
        ..pre
    })
}

/// Key handling while the confirmation dialog is open. The yes/no keys
/// set the choice rather than toggling it, so repeating one is a no-op;
/// Enter on the confirmed side issues the delete and the dialog closes
/// either way, with the pending target cleared.
pub open spec fn confirm_key_transition(pre: App, post: App, key: KeyMsg, eff: Effect) -> bool {
    &&& pre.modal matches ActiveModal::Confirm { confirm: m }
    &&& match key {
        KeyMsg::Esc => post == (App {
            modal: ActiveModal::Inactive,
            pending_delete_remote: None,
            ..pre
        }) && eff is Idle,
        KeyMsg::Tab | KeyMsg::Right | KeyMsg::Left => confirm_toggled(pre, post, m)
            && eff is Idle,
        KeyMsg::Char(c) => {
            if c == 'y' || c == 'n' {
                if (c == 'y') != m.confirmed {
                    confirm_toggled(pre, post, m) && eff is Idle
                } else {
                    post == pre && eff is Idle
                }
            } else {
                post == pre && eff is Idle
            }
        },
        KeyMsg::Enter => {
            if m.confirmed && pre.pending_delete_remote is Some {
                &&& pre.pending_delete_remote matches Some(target)
                &&& post == (App {
                    modal: ActiveModal::Inactive,
                    pending_delete_remote: None,
                    ..pre
                })
                &&& eff matches Effect::Call {
                    call: DaemonCall::DeleteRemote { name },
                    op: PendingOp::DeleteConfirmed,
                } && name == target
            } else {
                post == (App {
                    modal: ActiveModal::Inactive,
                    pending_delete_remote: None,
                    ..pre
                }) && eff is Idle
            }
        },
        _ => post == pre && eff is Idle,
    }
}

/// The parameter mapping a submission forwards: just the path, and only
/// when it is non-empty.
pub open spec fn params_match(path: String, params: Seq<(String, String)>) -> bool {
    if path@.len() == 0 {
        params.len() == 0
    } else {
        params.len() == 1 && params[0].0@ == "path"@ && params[0].1 == path
    }
}

/// Submitting the create/edit form. An empty name or type is rejected
/// locally with an inline error; otherwise the create or update call goes
/// out and the form stays open until the outcome is known.
pub open spec fn create_submit_transition(
    pre: App,
    m: CreateRemoteModal,
    post: App,
    eff: Effect,
) -> bool {
    if !m.valid_spec() {
        &&& create_error_set(pre, post, "Name and Type are required"@)
        &&& eff is Idle
    } else {
        &&& post == pre
        &&& match m.mode {
            CreateRemoteMode::Create => eff matches Effect::Call {
                call: DaemonCall::CreateRemote { name, remote_type, params },
                op: PendingOp::SubmitCreateEdit,
            } && name == m.name && remote_type == m.remote_type && params_match(m.path, params@),
            CreateRemoteMode::Edit => eff matches Effect::Call {
                call: DaemonCall::UpdateRemote { name, params },
                op: PendingOp::SubmitCreateEdit,
            } && name == m.name && params_match(m.path, params@),
        }
    }
}

/// Key handling while the create/edit form is open.
pub open spec fn create_key_transition(pre: App, post: App, key: KeyMsg, eff: Effect) -> bool {
    &&& pre.modal matches ActiveModal::CreateEdit { form: m }
    &&& match key {
        KeyMsg::Esc => post == (App { modal: ActiveModal::Inactive, ..pre }) && eff is Idle,
        KeyMsg::Tab => post == (App {
            modal: ActiveModal::CreateEdit {
                form: (CreateRemoteModal {
                    focus_field: CreateRemoteModal::next_field_spec(m.focus_field),
                    ..m
                }),
            },
            ..pre
        }) && eff is Idle,
        KeyMsg::BackTab => post == (App {
            modal: ActiveModal::CreateEdit {
                form: (CreateRemoteModal {
                    focus_field: CreateRemoteModal::prev_field_spec(m.focus_field),
                    ..m
                }),
            },
            ..pre
        }) && eff is Idle,
        KeyMsg::Char(c) => {
            &&& post.modal matches ActiveModal::CreateEdit { form: pm }
            &&& pm.mode == m.mode
            &&& pm.focus_field == m.focus_field
            &&& pm.error is None
            &&& (m.focus_field is Name ==> pm.name@ == m.name@.push(c) && pm.remote_type
                == m.remote_type && pm.path == m.path)
            &&& (m.focus_field is Type ==> pm.remote_type@ == m.remote_type@.push(c) && pm.name
                == m.name && pm.path == m.path)
            &&& (m.focus_field is Path ==> pm.path@ == m.path@.push(c) && pm.name == m.name
                && pm.remote_type == m.remote_type)
            &&& post == (App { modal: post.modal, ..pre })
            &&& eff is Idle
        },
        KeyMsg::Backspace => {
            &&& post.modal matches ActiveModal::CreateEdit { form: pm }
            &&& pm.mode == m.mode
            &&& pm.focus_field == m.focus_field
            &&& pm.error is None
            &&& (m.focus_field is Name ==> pm.name@ == drop_last_or_empty(m.name@)
                && pm.remote_type == m.remote_type && pm.path == m.path)
            &&& (m.focus_field is Type ==> pm.remote_type@ == drop_last_or_empty(m.remote_type@)
                && pm.name == m.name && pm.path == m.path)
            &&& (m.focus_field is Path ==> pm.path@ == drop_last_or_empty(m.path@) && pm.name
                == m.name && pm.remote_type == m.remote_type)
            &&& post == (App { modal: post.modal, ..pre })
            &&& eff is Idle
        },
        KeyMsg::Enter => create_submit_transition(pre, m, post, eff),
        _ => post == pre && eff is Idle,
    }
}

/// How a call's outcome lands back in the state: success adopts what came
/// back; an authorization denial opens the login flow and rolls the
/// navigation attempt back; any other failure either surfaces inline in
/// the open form or propagates as fatal, exactly as listed per operation.
pub open spec fn response_transition(
    pre: App,
    post: App,
    op: PendingOp,
    outcome: CallOutcome,
    eff: Effect,
) -> bool {
    match op {
        PendingOp::EnterRemote => match outcome {
            CallOutcome::Listing { entries } => {
                &&& post.focused_panel is Files
                &&& post.files@ == entries@
                &&& post.files_selected == 0
                &&& post == (App {
                    focused_panel: Panel::Files,
                    files: post.files,
                    files_selected: 0,
                    ..pre
                })
                &&& eff is Idle
            },
            CallOutcome::Denied => {
                &&& post.modal matches ActiveModal::Login { login } && fresh_basic_login(login)
                &&& post == (App { current_remote: None, modal: post.modal, ..pre })
                &&& eff is Idle
            },
            CallOutcome::Failed { message } => {
                &&& post == pre
                &&& eff matches Effect::Fatal { error: LazyFileError::Operation(msg) } && msg
                    == message
            },
            _ => post == pre && eff is Idle,
        },
        PendingOp::EnterDirectory => match outcome {
            CallOutcome::Listing { entries } => {
                &&& set_files_transition(pre, post, entries@)
                &&& eff is Idle
            },
            CallOutcome::Denied => {
                &&& post.current_path@ == parent_of(pre.current_path@)
                &&& post.modal matches ActiveModal::Login { login } && fresh_basic_login(login)
                &&& post == (App { current_path: post.current_path, modal: post.modal, ..pre })
                &&& eff is Idle
            },
            CallOutcome::Failed { message } => {
                &&& post == pre
                &&& eff matches Effect::Fatal { error: LazyFileError::Operation(msg) } && msg
                    == message
            },
            _ => post == pre && eff is Idle,
        },
        PendingOp::RelistAfterBack => match outcome {
            CallOutcome::Listing { entries } => {
                &&& set_files_transition(pre, post, entries@)
                &&& eff is Idle
            },
            CallOutcome::Denied => {
                &&& post == pre
                &&& eff matches Effect::Fatal { error: LazyFileError::Unauthorized }
            },
            CallOutcome::Failed { message } => {
                &&& post == pre
                &&& eff matches Effect::Fatal { error: LazyFileError::Operation(msg) } && msg
                    == message
            },
            _ => post == pre && eff is Idle,
        },
        PendingOp::DeleteConfirmed => match outcome {
            CallOutcome::Completed => {
                &&& post == pre
                &&& eff matches Effect::Call {
                    call: DaemonCall::ListRemotes,
                    op: PendingOp::RefreshRemotes,
                }
            },
            CallOutcome::Denied => {
                &&& post == pre
                &&& eff matches Effect::Fatal { error: LazyFileError::Unauthorized }
            },
            CallOutcome::Failed { message } => {
                &&& post == pre
                &&& eff matches Effect::Fatal { error: LazyFileError::Operation(msg) } && msg
                    == message
            },
            _ => post == pre && eff is Idle,
        },
        PendingOp::RefreshRemotes => match outcome {
            CallOutcome::Remotes { names } => {
                &&& set_remotes_transition(pre, post, names@)
                &&& eff is Idle
            },
            CallOutcome::Denied => {
                &&& post == pre
                &&& eff matches Effect::Fatal { error: LazyFileError::Unauthorized }
            },
            CallOutcome::Failed { message } => {
                &&& post == pre
                &&& eff matches Effect::Fatal { error: LazyFileError::Operation(msg) } && msg
                    == message
            },
            _ => post == pre && eff is Idle,
        },
        PendingOp::SubmitCreateEdit => match outcome {
            CallOutcome::Completed => {
                &&& post == (App { modal: ActiveModal::Inactive, ..pre })
                &&& eff matches Effect::Call {
                    call: DaemonCall::ListRemotes,
                    op: PendingOp::RefreshRemotes,
                }
            },
            CallOutcome::Denied => create_error_set(pre, post, "Error: unauthorized"@)
                && eff is Idle,
            CallOutcome::Failed { message } => create_error_set(
                pre,
                post,
                "Error: "@ + message@,
            ) && eff is Idle,
            _ => post == pre && eff is Idle,
        },
        PendingOp::PersistLogin => match outcome {
            CallOutcome::Completed => {
                &&& post == pre
                &&& eff matches Effect::Call {
                    call: DaemonCall::ListRemotes,
                    op: PendingOp::LoginProbe,
                }
            },
            CallOutcome::Failed { message } => login_error_set(
                pre,
                post,
                "Failed to save credentials: "@ + message@,
            ) && eff is Idle,
            _ => post == pre && eff is Idle,
        },
        PendingOp::LoginProbe => match outcome {
            CallOutcome::Remotes { names } => {
                &&& post.modal is Inactive
                &&& post.remotes@ == names@
                &&& post.remotes_selected == clamped_selection(pre.remotes_selected, names@.len())
                &&& post == (App {
                    modal: ActiveModal::Inactive,
                    remotes: post.remotes,
                    remotes_selected: post.remotes_selected,
                    ..pre
                })
                &&& eff is Idle
            },
            CallOutcome::Denied => {
                &&& login_error_probe_failed(pre, post, "Authentication failed: unauthorized"@)
                &&& eff is Idle
            },
            CallOutcome::Failed { message } => {
                &&& login_error_probe_failed(pre, post, "Authentication failed: "@ + message@)
                &&& eff is Idle
            },
            _ => post == pre && eff is Idle,
        },
    }
}

/// A failed authentication probe: the inline error is set and the
/// client's installed credentials roll back to absent, so a failed login
/// never leaves the client silently authenticated.
pub open spec fn login_error_probe_failed(pre: App, post: App, msg: Seq<char>) -> bool {
    &&& pre.modal matches ActiveModal::Login { login: m }
    &&& post.modal matches ActiveModal::Login { login: pm } && {
        &&& pm == (LoginModal { error: pm.error, ..m })
        &&& pm.error matches Some(e) && e@ == msg
    }
    &&& post.session_credentials is None
    &&& post == (App { modal: post.modal, session_credentials: None, ..pre })
}

/// The first remote listing at startup: success adopts the list; a denial
/// opens the login form; any other failure opens the login form when the
/// configured mode asks for login at startup, and is fatal otherwise.
pub open spec fn startup_transition(pre: App, post: App, outcome: CallOutcome, eff: Effect) -> bool {
    match outcome {
        CallOutcome::Remotes { names } => set_remotes_transition(pre, post, names@)
            && eff is Idle,
        CallOutcome::Denied => {
            &&& post.modal matches ActiveModal::Login { login } && fresh_basic_login(login)
            &&& post == (App { modal: post.modal, ..pre })
            &&& eff is Idle
        },
        CallOutcome::Failed { message } => {
            if pre.auth_manager.spec_mode() is RequireOnStartup || pre.auth_manager.spec_mode()
                is Both {
                &&& post.modal matches ActiveModal::Login { login } && fresh_basic_login(login)
                &&& post == (App { modal: post.modal, ..pre })
                &&& eff is Idle
            } else {
                &&& post == pre
                &&& eff matches Effect::Fatal { error: LazyFileError::Operation(msg) } && msg
                    == message
            }
        },
        _ => post == pre && eff is Idle,
    }
}

/// Pressing the yes/no key that already matches the confirmation dialog's
/// choice leaves the whole state exactly as it was.
pub proof fn lemma_confirm_choice_idempotent(pre: App, post: App, c: char, eff: Effect)
    requires
        pre.modal matches ActiveModal::Confirm { confirm: m } && (c == 'y' || c == 'n') && ((c
            == 'y') == m.confirmed),
        confirm_key_transition(pre, post, KeyMsg::Char(c), eff),
    ensures
        post == pre,
{
}

/// Rollback on selecting a remote: when the root listing of a freshly
/// selected remote is denied, the current remote is unset again and the
/// login form is open.
pub proof fn lemma_enter_remote_rollback(pre: App, mid: App, post: App, eff1: Effect, eff2: Effect)
    requires
        pre.focused_panel is Remotes,
        enter_transition(pre, mid, eff1),
        eff1 matches Effect::Call { op: PendingOp::EnterRemote, .. },
        response_transition(mid, post, PendingOp::EnterRemote, CallOutcome::Denied, eff2),
    ensures
        post.current_remote is None,
        post.modal matches ActiveModal::Login { login } && fresh_basic_login(login),
{
}

/// Rollback on entering a directory: when the listing of a just-entered
/// directory is denied, the path is back at its value before the key, and
/// the login form is open. The entry's name is a single path component,
/// so truncating at the last `/` restores the exact prior path.
pub proof fn lemma_enter_directory_rollback(
    pre: App,
    mid: App,
    post: App,
    eff1: Effect,
    eff2: Effect,
)
    requires
        pre.focused_panel is Files,
        pre.files_selected < pre.files@.len(),
        slash_free(pre.files@[pre.files_selected as int].name@),
        enter_transition(pre, mid, eff1),
        eff1 matches Effect::Call { op: PendingOp::EnterDirectory, .. },
        response_transition(mid, post, PendingOp::EnterDirectory, CallOutcome::Denied, eff2),
    ensures
        post.current_path@ == pre.current_path@,
        post.modal matches ActiveModal::Login { login } && fresh_basic_login(login),
{
    lemma_parent_of_join(pre.current_path@, pre.files@[pre.files_selected as int].name@);
}

/// Round trip of a valid create submission: once the daemon accepts the
/// create and the refreshed listing comes back, the form is closed and the
/// remote list is exactly the refreshed one — which carries the new name
/// whenever the daemon reflects it.
pub proof fn lemma_create_submit_round_trip(
    pre: App,
    mid1: App,
    mid2: App,
    post: App,
    m: CreateRemoteModal,
    names: Vec<String>,
    eff1: Effect,
    eff2: Effect,
    eff3: Effect,
)
    requires
        pre.modal == (ActiveModal::CreateEdit { form: m }),
        m.valid_spec(),
        create_submit_transition(pre, m, mid1, eff1),
        response_transition(mid1, mid2, PendingOp::SubmitCreateEdit, CallOutcome::Completed, eff2),
        response_transition(
            mid2,
            post,
            PendingOp::RefreshRemotes,
            CallOutcome::Remotes { names },
            eff3,
        ),
    ensures
        post.modal is Inactive,
        post.remotes@ == names@,
        (exists|i: int| 0 <= i < names@.len() && names@[i]@ == m.name@) ==> (exists|i: int|
            0 <= i < post.remotes@.len() && post.remotes@[i]@ == m.name@),
{
    if exists|i: int| 0 <= i < names@.len() && names@[i]@ == m.name@ {
        let w = choose|i: int| 0 <= i < names@.len() && names@[i]@ == m.name@;
        assert(post.remotes@[w]@ == m.name@);
    }
}

/// The input dispatcher.
pub struct Handler;

impl Handler {
    /// Dispatch one key event: to the login form, else the confirmation
    /// dialog, else the create/edit form, else panel navigation.
    pub fn handle_key(app: &mut App, key: KeyMsg) -> (eff: Effect)
        requires
            old(app).wf(),
        ensures
            final(app).wf(),
            old(app).modal is Login ==> login_key_transition(*old(app), *final(app), key, eff),
            old(app).modal is Confirm ==> confirm_key_transition(*old(app), *final(app), key, eff),
            old(app).modal is CreateEdit ==> create_key_transition(
                *old(app),
                *final(app),
                key,
                eff,
            ),
            old(app).modal is Inactive ==> panel_key_transition(*old(app), *final(app), key, eff),
    {
        if matches!(app.modal, ActiveModal::Login { .. }) {
            Self::handle_login_key(app, key)
        } else if matches!(app.modal, ActiveModal::Confirm { .. }) {
            Self::handle_confirm_key(app, key)
        } else if matches!(app.modal, ActiveModal::CreateEdit { .. }) {
            Self::handle_modal_key(app, key)
        } else {
            Self::handle_panel_key(app, key)
        }
    }

    /// Key handling with no modal open.
    fn handle_panel_key(app: &mut App, key: KeyMsg) -> (eff: Effect)
        requires
            old(app).wf(),
            old(app).modal is Inactive,
        ensures
            final(app).wf(),
            panel_key_transition(*old(app), *final(app), key, eff),
    {
        match key {
            KeyMsg::Char(c) => {
                if c == 'q' {
                    app.running = false;
                    Effect::Idle
                } else if c == 'a' && matches!(app.focused_panel, Panel::Remotes) {
                    app.modal = ActiveModal::CreateEdit {
                        form: CreateRemoteModal::new(CreateRemoteMode::Create),
                    };
                    Effect::Idle
                } else if c == 'd' && matches!(app.focused_panel, Panel::Remotes) {
                    Self::handle_delete_remote(app);
                    Effect::Idle
                } else if c == 'e' && matches!(app.focused_panel, Panel::Remotes) {
                    Self::handle_edit_remote(app);
                    Effect::Idle
                } else if c == 'j' {
                    app.navigate_down();
                    Effect::Idle
                } else if c == 'k' {
                    app.navigate_up();
                    Effect::Idle
                } else {
                    Effect::Idle
                }
            },
            KeyMsg::Down => {
                app.navigate_down();
                Effect::Idle
            },
            KeyMsg::Up => {
                app.navigate_up();
                Effect::Idle
            },
            KeyMsg::Tab => {
                app.switch_panel();
                Effect::Idle
            },
            KeyMsg::Enter => Self::handle_enter(app),
            KeyMsg::Backspace => Self::handle_backspace(app),
            _ => Effect::Idle,
        }
    }

    /// Open the delete confirmation for the selected remote, recording it
    /// as the pending-delete target.
    pub fn handle_delete_remote(app: &mut App)
        requires
            old(app).wf(),
            old(app).modal is Inactive,
        ensures
            final(app).wf(),
            delete_key_transition(*old(app), *final(app)),
    {
        if app.remotes_selected < app.remotes.len() {
            let remote = app.remotes[app.remotes_selected].clone();
            let mut message = "Delete '".to_owned();
            message.append(remote.as_str());
            message.append("'?");
            proof {
                assert(message@ =~= "Delete '"@ + remote@ + "'?"@);
            }
            app.pending_delete_remote = Some(remote);
            app.modal = ActiveModal::Confirm {
                confirm: ConfirmModal::new("Delete Remote".to_owned(), message),
            };
        }
    }

    /// Open the edit form pre-filled with the selected remote's identity.
    fn handle_edit_remote(app: &mut App)
        requires
            old(app).wf(),
            old(app).modal is Inactive,
        ensures
            final(app).wf(),
            edit_key_transition(*old(app), *final(app)),
    {
        if app.remotes_selected < app.remotes.len() {
            let name = app.remotes[app.remotes_selected].clone();
            let form = CreateRemoteModal::new(CreateRemoteMode::Edit).with_name(name).with_type(
                "local".to_owned(),
            );
            app.modal = ActiveModal::CreateEdit { form };
        }
    }

    /// Activate the current selection: select a remote, or enter a
    /// directory.
    fn handle_enter(app: &mut App) -> (eff: Effect)
        requires
            old(app).wf(),
            old(app).modal is Inactive,
        ensures
            final(app).wf(),
            enter_transition(*old(app), *final(app), eff),
    {
        match app.focused_panel {
            Panel::Remotes => {
                if app.remotes_selected < app.remotes.len() {
                    let name = app.remotes[app.remotes_selected].clone();
                    app.current_remote = Some(name.clone());
                    app.current_path = String::new();
                    Effect::Call {
                        call: DaemonCall::ListDirectory { remote: name, path: String::new() },
                        op: PendingOp::EnterRemote,
                    }
                } else {
                    Effect::Idle
                }
            },
            Panel::Files => {
                if app.files_selected < app.files.len() && app.files[app.files_selected].is_dir {
                    match &app.current_remote {
                        Some(cur) => {
                            let cur = cur.clone();
                            let name = app.files[app.files_selected].name.clone();
                            let candidate = path_push(app.current_path.as_str(), name.as_str());
                            app.current_path = candidate;
                            Effect::Call {
                                call: DaemonCall::ListDirectory {
                                    remote: cur,
                                    path: app.current_path.clone(),
                                },
                                op: PendingOp::EnterDirectory,
                            }
                        },
                        None => Effect::Idle,
                    }
                } else {
                    Effect::Idle
                }
            },
        }
    }

    /// Go back: to the parent directory, or out to the remotes panel.
    fn handle_backspace(app: &mut App) -> (eff: Effect)
        requires
            old(app).wf(),
            old(app).modal is Inactive,
        ensures
            final(app).wf(),
            backspace_transition(*old(app), *final(app), eff),
    {
        match app.focused_panel {
            Panel::Files => {
                if !app.current_path.as_str().is_empty() && app.current_remote.is_some() {
                    let parent = path_parent(app.current_path.as_str());
                    app.current_path = parent;
                    let cur = match &app.current_remote {
                        Some(c) => c.clone(),
                        None => String::new(),
                    };
                    Effect::Call {
                        call: DaemonCall::ListDirectory {
                            remote: cur,
                            path: app.current_path.clone(),
                        },
                        op: PendingOp::RelistAfterBack,
                    }
                } else {
                    app.current_remote = None;
                    app.focused_panel = Panel::Remotes;
                    app.files = Vec::new();
                    app.files_selected = 0;
                    Effect::Idle
                }
            },
            Panel::Remotes => Effect::Idle,
        }
    }

    /// Key handling while the login form is open.
    fn handle_login_key(app: &mut App, key: KeyMsg) -> (eff: Effect)
        requires
            old(app).wf(),
            old(app).modal is Login,
        ensures
            final(app).wf(),
            login_key_transition(*old(app), *final(app), key, eff),
    {
        match key {
            KeyMsg::Esc => {
                app.modal = ActiveModal::Inactive;
                Effect::Idle
            },
            KeyMsg::Tab => {
                if let ActiveModal::Login { login } = &mut app.modal {
                    login.next_field();
                }
                Effect::Idle
            },
            KeyMsg::BackTab => {
                if let ActiveModal::Login { login } = &mut app.modal {
                    login.prev_field();
                }
                Effect::Idle
            },
            KeyMsg::Char(c) => {
                if let ActiveModal::Login { login } = &mut app.modal {
                    if c == 'l' && matches!(login.focus_field, LoginField::Password) {
                        login.toggle_password_visibility();
                    } else {
                        login.input_char(c);
                        login.error = None;
                    }
                }
                Effect::Idle
            },
            KeyMsg::Backspace => {
                if let ActiveModal::Login { login } = &mut app.modal {
                    login.backspace();
                    login.error = None;
                }
                Effect::Idle
            },
            KeyMsg::Enter => Self::handle_login_submit(app),
            _ => Effect::Idle,
        }
    }

    /// Submit the login form: validate, build and install credentials,
    /// and ask the run loop to persist them.
    fn handle_login_submit(app: &mut App) -> (eff: Effect)
        requires
            old(app).wf(),
            old(app).modal is Login,
        ensures
            final(app).wf(),
            old(app).modal matches ActiveModal::Login { login: m } ==> login_submit_transition(
                *old(app),
                m,
                *final(app),
                eff,
            ),
    {
        let (valid, auth_type, username, password) = match &app.modal {
            ActiveModal::Login { login } => (
                login.is_valid(),
                login.auth_type,
                login.username.clone(),
                login.password.clone(),
            ),
            _ => (false, CredentialsType::Basic, String::new(), String::new()),
        };
        if !valid {
            if let ActiveModal::Login { login } = &mut app.modal {
                login.error = Some("All fields are required".to_owned());
            }
            return Effect::Idle;
        }
        let credentials = match auth_type {
            CredentialsType::Basic => Credentials::basic(username, password, None),
            CredentialsType::Bearer => Credentials::bearer(password, None),
        };
        app.session_credentials = Some(credentials.clone());
        let _ = app.auth_manager.set_daemon_credentials(credentials.clone());
        Effect::Call {
            call: DaemonCall::PersistCredentials { credentials },
            op: PendingOp::PersistLogin,
        }
    }

    /// Key handling while the confirmation dialog is open.
    fn handle_confirm_key(app: &mut App, key: KeyMsg) -> (eff: Effect)
        requires
            old(app).wf(),
            old(app).modal is Confirm,
        ensures
            final(app).wf(),
            confirm_key_transition(*old(app), *final(app), key, eff),
    {
        match key {
            KeyMsg::Esc => {
                app.modal = ActiveModal::Inactive;
                app.pending_delete_remote = None;
                Effect::Idle
            },
            KeyMsg::Tab | KeyMsg::Right | KeyMsg::Left => {
                if let ActiveModal::Confirm { confirm } = &mut app.modal {
                    confirm.toggle();
                }
                Effect::Idle
            },
            KeyMsg::Char(c) => {
                if c == 'y' || c == 'n' {
                    if let ActiveModal::Confirm { confirm } = &mut app.modal {
                        let want = c == 'y';
                        if want != confirm.is_confirmed() {
                            confirm.toggle();
                        }
                    }
                }
                Effect::Idle
            },
            KeyMsg::Enter => {
                let confirmed = match &app.modal {
                    ActiveModal::Confirm { confirm } => confirm.is_confirmed(),
                    _ => false,
                };
                app.modal = ActiveModal::Inactive;
                let target = app.pending_delete_remote.take();
                if confirmed {
                    match target {
                        Some(name) => Effect::Call {
                            call: DaemonCall::DeleteRemote { name },
                            op: PendingOp::DeleteConfirmed,
                        },
                        None => Effect::Idle,
                    }
                } else {
                    Effect::Idle
                }
            },
            _ => Effect::Idle,
        }
    }

    /// Key handling while the create/edit form is open.
    fn handle_modal_key(app: &mut App, key: KeyMsg) -> (eff: Effect)
        requires
            old(app).wf(),
            old(app).modal is CreateEdit,
        ensures
            final(app).wf(),
            create_key_transition(*old(app), *final(app), key, eff),
    {
        match key {
            KeyMsg::Esc => {
                app.modal = ActiveModal::Inactive;
                Effect::Idle
            },
            KeyMsg::Tab => {
                if let ActiveModal::CreateEdit { form } = &mut app.modal {
                    form.next_field();
                }
                Effect::Idle
            },
            KeyMsg::BackTab => {
                if let ActiveModal::CreateEdit { form } = &mut app.modal {
                    form.prev_field();
                }
                Effect::Idle
            },
            KeyMsg::Char(c) => {
                if let ActiveModal::CreateEdit { form } = &mut app.modal {
                    form.input_char(c);
                    form.error = None;
                }
                Effect::Idle
            },
            KeyMsg::Backspace => {
                if let ActiveModal::CreateEdit { form } = &mut app.modal {
                    form.backspace();
                    form.error = None;
                }
                Effect::Idle
            },
            KeyMsg::Enter => Self::handle_modal_submit(app),
            _ => Effect::Idle,
        }
    }

    /// Submit the create/edit form: validate, then issue the create or
    /// update call; the form stays open until the outcome is known.
    fn handle_modal_submit(app: &mut App) -> (eff: Effect)
        requires
            old(app).wf(),
            old(app).modal is CreateEdit,
        ensures
            final(app).wf(),
            old(app).modal matches ActiveModal::CreateEdit { form: m } ==> create_submit_transition(
                *old(app),
                m,
                *final(app),
                eff,
            ),
    {
        let (valid, mode, name, remote_type, path) = match &app.modal {
            ActiveModal::CreateEdit { form } => (
                form.is_valid(),
                form.mode,
                form.name.clone(),
                form.remote_type.clone(),
                form.path.clone(),
            ),
            _ => (false, CreateRemoteMode::Create, String::new(), String::new(), String::new()),
        };
        if !valid {
            if let ActiveModal::CreateEdit { form } = &mut app.modal {
                form.error = Some("Name and Type are required".to_owned());
            }
            return Effect::Idle;
        }
        let mut params: Vec<(String, String)> = Vec::new();
        if !path.as_str().is_empty() {
            params.push(("path".to_owned(), path));
        }
        let call = match mode {
            CreateRemoteMode::Create => DaemonCall::CreateRemote { name, remote_type, params },
            CreateRemoteMode::Edit => DaemonCall::UpdateRemote { name, params },
        };
        Effect::Call { call, op: PendingOp::SubmitCreateEdit }
    }

    /// Land a performed call's outcome back in the state; may ask for a
    /// follow-up call.
    pub fn handle_response(app: &mut App, op: PendingOp, outcome: CallOutcome) -> (eff: Effect)
        requires
            old(app).wf(),
            op_state_compatible(*old(app), op),
        ensures
            final(app).wf(),
            response_transition(*old(app), *final(app), op, outcome, eff),
    {
        match op {
            PendingOp::EnterRemote => match outcome {
                CallOutcome::Listing { entries } => {
                    app.set_files(entries);
                    app.focused_panel = Panel::Files;
                    Effect::Idle
                },
                CallOutcome::Denied => {
                    app.current_remote = None;
                    app.modal = ActiveModal::Login { login: LoginModal::new_basic() };
                    Effect::Idle
                },
                CallOutcome::Failed { message } => Effect::Fatal {
                    error: LazyFileError::Operation(message),
                },
                _ => Effect::Idle,
            },
            PendingOp::EnterDirectory => match outcome {
                CallOutcome::Listing { entries } => {
                    app.set_files(entries);
                    Effect::Idle
                },
                CallOutcome::Denied => {
                    let parent = path_parent(app.current_path.as_str());
                    app.current_path = parent;
                    app.modal = ActiveModal::Login { login: LoginModal::new_basic() };
                    Effect::Idle
                },
                CallOutcome::Failed { message } => Effect::Fatal {
                    error: LazyFileError::Operation(message),
                },
                _ => Effect::Idle,
            },
            PendingOp::RelistAfterBack => match outcome {
                CallOutcome::Listing { entries } => {
                    app.set_files(entries);
                    Effect::Idle
                },
                CallOutcome::Denied => Effect::Fatal { error: LazyFileError::Unauthorized },
                CallOutcome::Failed { message } => Effect::Fatal {
                    error: LazyFileError::Operation(message),
                },
                _ => Effect::Idle,
            },
            PendingOp::DeleteConfirmed => match outcome {
                CallOutcome::Completed => Effect::Call {
                    call: DaemonCall::ListRemotes,
                    op: PendingOp::RefreshRemotes,
                },
                CallOutcome::Denied => Effect::Fatal { error: LazyFileError::Unauthorized },
                CallOutcome::Failed { message } => Effect::Fatal {
                    error: LazyFileError::Operation(message),
                },
                _ => Effect::Idle,
            },
            PendingOp::RefreshRemotes => match outcome {
                CallOutcome::Remotes { names } => {
                    app.set_remotes(names);
                    Effect::Idle
                },
                CallOutcome::Denied => Effect::Fatal { error: LazyFileError::Unauthorized },
                CallOutcome::Failed { message } => Effect::Fatal {
                    error: LazyFileError::Operation(message),
                },
                _ => Effect::Idle,
            },
            PendingOp::SubmitCreateEdit => match outcome {
                CallOutcome::Completed => {
                    app.modal = ActiveModal::Inactive;
                    Effect::Call { call: DaemonCall::ListRemotes, op: PendingOp::RefreshRemotes }
                },
                CallOutcome::Denied => {
                    if let ActiveModal::CreateEdit { form } = &mut app.modal {
                        form.error = Some("Error: unauthorized".to_owned());
                    }
                    Effect::Idle
                },
                CallOutcome::Failed { message } => {
                    let mut e = "Error: ".to_owned();
                    e.append(message.as_str());
                    if let ActiveModal::CreateEdit { form } = &mut app.modal {
                        form.error = Some(e);
                    }
                    Effect::Idle
                },
                _ => Effect::Idle,
            },
            PendingOp::PersistLogin => match outcome {
                CallOutcome::Completed => Effect::Call {
                    call: DaemonCall::ListRemotes,
                    op: PendingOp::LoginProbe,
                },
                CallOutcome::Failed { message } => {
                    let mut e = "Failed to save credentials: ".to_owned();
                    e.append(message.as_str());
                    if let ActiveModal::Login { login } = &mut app.modal {
                        login.error = Some(e);
                    }
                    Effect::Idle
                },
                _ => Effect::Idle,
            },
            PendingOp::LoginProbe => match outcome {
                CallOutcome::Remotes { names } => {
                    app.set_remotes(names);
                    app.modal = ActiveModal::Inactive;
                    Effect::Idle
                },
                CallOutcome::Denied => {
                    if let ActiveModal::Login { login } = &mut app.modal {
                        login.error = Some("Authentication failed: unauthorized".to_owned());
                    }
                    app.session_credentials = None;
                    Effect::Idle
                },
                CallOutcome::Failed { message } => {
                    let mut e = "Authentication failed: ".to_owned();
                    e.append(message.as_str());
                    if let ActiveModal::Login { login } = &mut app.modal {
                        login.error = Some(e);
                    }
                    app.session_credentials = None;
                    Effect::Idle
                },
                _ => Effect::Idle,
            },
        }
    }

    /// Land the startup remote listing: the run loop issues one remote
    /// listing before the first key is read and hands its outcome here.
    pub fn on_startup_remotes(app: &mut App, outcome: CallOutcome) -> (eff: Effect)
        requires
            old(app).wf(),
            old(app).modal is Inactive,
        ensures
            final(app).wf(),
            startup_transition(*old(app), *final(app), outcome, eff),
    {
        match outcome {
            CallOutcome::Remotes { names } => {
                app.set_remotes(names);
                Effect::Idle
            },
            CallOutcome::Denied => {
                app.modal = ActiveModal::Login { login: LoginModal::new_basic() };
                Effect::Idle
            },
            CallOutcome::Failed { message } => {
                if app.auth_manager.should_require_auth_on_startup() {
                    app.modal = ActiveModal::Login { login: LoginModal::new_basic() };
                    Effect::Idle
                } else {
                    Effect::Fatal { error: LazyFileError::Operation(message) }
                }
            },
            _ => Effect::Idle,
        }
    }
}

} // verus!
