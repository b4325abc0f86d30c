//! The dispatcher driven as the run loop would drive it: keys in, daemon
//! calls out, outcomes back in.

use lazyfile::handler::Handler;
use lazyfile::manager::{AuthManager, AuthMode};
use lazyfile::modal::{ActiveModal, CreateRemoteMode, LoginField, LoginModal};
use lazyfile::session::{CallOutcome, DaemonCall, Effect, KeyMsg, PendingOp};
use lazyfile::state::{App, FileEntry, Panel};
use lazyfile::error::LazyFileError;

fn make_app() -> App {
    App::new(AuthManager::new(AuthMode::Both))
}

fn expect_call(eff: Effect) -> (DaemonCall, PendingOp) {
    match eff {
        Effect::Call { call, op } => (call, op),
        other => panic!("expected a call effect, got {:?}", other),
    }
}

#[test]
fn test_quit_key_stops_running() {
    let mut app = make_app();
    let eff = Handler::handle_key(&mut app, KeyMsg::Char('q'));
    assert!(matches!(eff, Effect::Idle));
    assert!(!app.running);
}

#[test]
fn test_navigation_clamps_to_bounds() {
    let mut app = make_app();
    app.set_remotes(vec!["a".to_string(), "b".to_string(), "c".to_string()]);
    assert_eq!(app.remotes_selected, 0);
    Handler::handle_key(&mut app, KeyMsg::Down);
    Handler::handle_key(&mut app, KeyMsg::Char('j'));
    Handler::handle_key(&mut app, KeyMsg::Down);
    Handler::handle_key(&mut app, KeyMsg::Down);
    assert_eq!(app.remotes_selected, 2);
    Handler::handle_key(&mut app, KeyMsg::Up);
    Handler::handle_key(&mut app, KeyMsg::Char('k'));
    Handler::handle_key(&mut app, KeyMsg::Up);
    assert_eq!(app.remotes_selected, 0);

    let mut empty = make_app();
    Handler::handle_key(&mut empty, KeyMsg::Down);
    Handler::handle_key(&mut empty, KeyMsg::Up);
    assert_eq!(empty.remotes_selected, 0);
}

#[test]
fn test_tab_switches_panel() {
    let mut app = make_app();
    assert_eq!(app.focused_panel, Panel::Remotes);
    Handler::handle_key(&mut app, KeyMsg::Tab);
    assert_eq!(app.focused_panel, Panel::Files);
    Handler::handle_key(&mut app, KeyMsg::Tab);
    assert_eq!(app.focused_panel, Panel::Remotes);
}

#[test]
fn test_enter_remote_success_moves_to_files() {
    let mut app = make_app();
    app.set_remotes(vec!["gdrive".to_string()]);
    let eff = Handler::handle_key(&mut app, KeyMsg::Enter);
    let (call, op) = expect_call(eff);
    match call {
        DaemonCall::ListDirectory { remote, path } => {
            assert_eq!(remote, "gdrive");
            assert_eq!(path, "");
        }
        other => panic!("expected a directory listing, got {:?}", other),
    }
    assert!(matches!(op, PendingOp::EnterRemote));
    assert_eq!(app.current_remote.as_deref(), Some("gdrive"));

    let entries = vec![
        FileEntry::new("docs".to_string(), true),
        FileEntry::new("readme".to_string(), false),
    ];
    let eff = Handler::handle_response(&mut app, op, CallOutcome::Listing { entries });
    assert!(matches!(eff, Effect::Idle));
    assert_eq!(app.focused_panel, Panel::Files);
    assert_eq!(app.files.len(), 2);
    assert_eq!(app.files_selected, 0);
}

#[test]
fn test_enter_remote_denied_rolls_back() {
    let mut app = make_app();
    app.set_remotes(vec!["gdrive".to_string()]);
    let (_, op) = expect_call(Handler::handle_key(&mut app, KeyMsg::Enter));
    assert_eq!(app.current_remote.as_deref(), Some("gdrive"));

    let eff = Handler::handle_response(&mut app, op, CallOutcome::Denied);
    assert!(matches!(eff, Effect::Idle));
    assert!(app.current_remote.is_none());
    match &app.modal {
        ActiveModal::Login { login } => {
            assert_eq!(login.focus_field, LoginField::Username);
            assert!(login.username.is_empty());
        }
        other => panic!("expected the login modal, got {:?}", other),
    }
}

#[test]
fn test_enter_directory_denied_restores_path() {
    let mut app = make_app();
    app.current_remote = Some("gdrive".to_string());
    app.focused_panel = Panel::Files;
    app.set_files(vec![FileEntry::new("docs".to_string(), true)]);

    let (call, op) = expect_call(Handler::handle_key(&mut app, KeyMsg::Enter));
    match call {
        DaemonCall::ListDirectory { remote, path } => {
            assert_eq!(remote, "gdrive");
            assert_eq!(path, "/docs");
        }
        other => panic!("expected a directory listing, got {:?}", other),
    }
    assert_eq!(app.current_path, "/docs");

    let eff = Handler::handle_response(&mut app, op, CallOutcome::Denied);
    assert!(matches!(eff, Effect::Idle));
    assert_eq!(app.current_path, "");
    assert!(matches!(app.modal, ActiveModal::Login { .. }));
}

#[test]
fn test_enter_nested_directory_builds_path() {
    let mut app = make_app();
    app.current_remote = Some("gdrive".to_string());
    app.focused_panel = Panel::Files;
    app.current_path = "/docs".to_string();
    app.set_files(vec![FileEntry::new("img".to_string(), true)]);

    let (call, op) = expect_call(Handler::handle_key(&mut app, KeyMsg::Enter));
    match call {
        DaemonCall::ListDirectory { path, .. } => assert_eq!(path, "/docs/img"),
        other => panic!("expected a directory listing, got {:?}", other),
    }
    let eff = Handler::handle_response(&mut app, op, CallOutcome::Listing { entries: vec![] });
    assert!(matches!(eff, Effect::Idle));
    assert_eq!(app.current_path, "/docs/img");
    assert!(app.files.is_empty());
}

#[test]
fn test_enter_on_plain_file_is_ignored() {
    let mut app = make_app();
    app.current_remote = Some("gdrive".to_string());
    app.focused_panel = Panel::Files;
    app.set_files(vec![FileEntry::new("readme".to_string(), false)]);
    let eff = Handler::handle_key(&mut app, KeyMsg::Enter);
    assert!(matches!(eff, Effect::Idle));
    assert_eq!(app.current_path, "");
}

#[test]
fn test_backspace_at_root_exits_to_remotes() {
    let mut app = make_app();
    app.current_remote = Some("gdrive".to_string());
    app.focused_panel = Panel::Files;
    app.set_files(vec![FileEntry::new("docs".to_string(), true)]);

    let eff = Handler::handle_key(&mut app, KeyMsg::Backspace);
    assert!(matches!(eff, Effect::Idle));
    assert_eq!(app.focused_panel, Panel::Remotes);
    assert!(app.current_remote.is_none());
    assert!(app.files.is_empty());
}

#[test]
fn test_backspace_in_subdirectory_relists_parent() {
    let mut app = make_app();
    app.current_remote = Some("gdrive".to_string());
    app.focused_panel = Panel::Files;
    app.current_path = "/a/b".to_string();

    let (call, op) = expect_call(Handler::handle_key(&mut app, KeyMsg::Backspace));
    match call {
        DaemonCall::ListDirectory { remote, path } => {
            assert_eq!(remote, "gdrive");
            assert_eq!(path, "/a");
        }
        other => panic!("expected a directory listing, got {:?}", other),
    }
    assert!(matches!(op, PendingOp::RelistAfterBack));
    assert_eq!(app.current_path, "/a");

    let eff = Handler::handle_response(&mut app, op, CallOutcome::Listing { entries: vec![] });
    assert!(matches!(eff, Effect::Idle));
}

#[test]
fn test_backspace_on_remotes_panel_is_ignored() {
    let mut app = make_app();
    app.set_remotes(vec!["gdrive".to_string()]);
    let eff = Handler::handle_key(&mut app, KeyMsg::Backspace);
    assert!(matches!(eff, Effect::Idle));
    assert_eq!(app.focused_panel, Panel::Remotes);
}

#[test]
fn test_login_submit_rejected_with_empty_secret() {
    let mut app = make_app();
    app.modal = ActiveModal::Login { login: LoginModal::new_basic() };
    Handler::handle_key(&mut app, KeyMsg::Char('a'));

    let eff = Handler::handle_key(&mut app, KeyMsg::Enter);
    assert!(matches!(eff, Effect::Idle));
    match &app.modal {
        ActiveModal::Login { login } => {
            assert_eq!(login.error.as_deref(), Some("All fields are required"));
            assert_eq!(login.username, "a");
            assert_eq!(login.password, "");
        }
        other => panic!("expected the login modal to stay open, got {:?}", other),
    }
}

#[test]
fn test_login_submit_success_closes_modal() {
    let mut app = make_app();
    app.modal = ActiveModal::Login { login: LoginModal::new_basic() };
    Handler::handle_key(&mut app, KeyMsg::Char('u'));
    Handler::handle_key(&mut app, KeyMsg::Tab);
    Handler::handle_key(&mut app, KeyMsg::Char('p'));

    let (call, op) = expect_call(Handler::handle_key(&mut app, KeyMsg::Enter));
    match call {
        DaemonCall::PersistCredentials { credentials } => {
            assert_eq!(credentials.username, "u");
            assert_eq!(credentials.password, "p");
            assert!(credentials.remote.is_none());
        }
        other => panic!("expected a credential persist, got {:?}", other),
    }
    assert!(matches!(op, PendingOp::PersistLogin));
    assert!(app.session_credentials.is_some());
    assert!(app.auth_manager.has_daemon_credentials());

    let (call, op) = expect_call(Handler::handle_response(&mut app, op, CallOutcome::Completed));
    assert!(matches!(call, DaemonCall::ListRemotes));
    assert!(matches!(op, PendingOp::LoginProbe));

    let names = vec!["gdrive".to_string()];
    let eff = Handler::handle_response(&mut app, op, CallOutcome::Remotes { names });
    assert!(matches!(eff, Effect::Idle));
    assert!(matches!(app.modal, ActiveModal::Inactive));
    assert_eq!(app.remotes, vec!["gdrive".to_string()]);
}

#[test]
fn test_login_probe_failure_rolls_back_client_credentials() {
    let mut app = make_app();
    app.modal = ActiveModal::Login { login: LoginModal::new_basic() };
    Handler::handle_key(&mut app, KeyMsg::Char('u'));
    Handler::handle_key(&mut app, KeyMsg::Tab);
    Handler::handle_key(&mut app, KeyMsg::Char('p'));
    let (_, op) = expect_call(Handler::handle_key(&mut app, KeyMsg::Enter));
    let (_, op) = expect_call(Handler::handle_response(&mut app, op, CallOutcome::Completed));

    let eff = Handler::handle_response(
        &mut app,
        op,
        CallOutcome::Failed { message: "boom".to_string() },
    );
    assert!(matches!(eff, Effect::Idle));
    assert!(app.session_credentials.is_none());
    match &app.modal {
        ActiveModal::Login { login } => {
            assert_eq!(login.error.as_deref(), Some("Authentication failed: boom"));
        }
        other => panic!("expected the login modal to stay open, got {:?}", other),
    }
}

#[test]
fn test_persist_failure_keeps_session_credentials() {
    let mut app = make_app();
    app.modal = ActiveModal::Login { login: LoginModal::new_basic() };
    Handler::handle_key(&mut app, KeyMsg::Char('u'));
    Handler::handle_key(&mut app, KeyMsg::Tab);
    Handler::handle_key(&mut app, KeyMsg::Char('p'));
    let (_, op) = expect_call(Handler::handle_key(&mut app, KeyMsg::Enter));

    let eff = Handler::handle_response(
        &mut app,
        op,
        CallOutcome::Failed { message: "no store".to_string() },
    );
    assert!(matches!(eff, Effect::Idle));
    assert!(app.session_credentials.is_some());
    match &app.modal {
        ActiveModal::Login { login } => {
            assert_eq!(
                login.error.as_deref(),
                Some("Failed to save credentials: no store")
            );
        }
        other => panic!("expected the login modal to stay open, got {:?}", other),
    }
}

#[test]
fn test_login_mask_toggle_only_on_password_field() {
    let mut app = make_app();
    app.modal = ActiveModal::Login { login: LoginModal::new_basic() };
    Handler::handle_key(&mut app, KeyMsg::Char('l'));
    match &app.modal {
        ActiveModal::Login { login } => {
            assert_eq!(login.username, "l");
            assert!(login.is_password_masked);
        }
        other => panic!("expected the login modal, got {:?}", other),
    }
    Handler::handle_key(&mut app, KeyMsg::Tab);
    Handler::handle_key(&mut app, KeyMsg::Char('l'));
    match &app.modal {
        ActiveModal::Login { login } => {
            assert_eq!(login.password, "");
            assert!(!login.is_password_masked);
        }
        other => panic!("expected the login modal, got {:?}", other),
    }
}

#[test]
fn test_confirm_deny_then_enter_issues_no_delete() {
    let mut app = make_app();
    app.set_remotes(vec!["gdrive".to_string()]);
    Handler::handle_key(&mut app, KeyMsg::Char('d'));
    assert_eq!(app.pending_delete_remote.as_deref(), Some("gdrive"));
    match &app.modal {
        ActiveModal::Confirm { confirm } => {
            assert_eq!(confirm.title, "Delete Remote");
            assert_eq!(confirm.message, "Delete 'gdrive'?");
            assert!(!confirm.is_confirmed());
        }
        other => panic!("expected the confirmation dialog, got {:?}", other),
    }

    let eff = Handler::handle_key(&mut app, KeyMsg::Char('n'));
    assert!(matches!(eff, Effect::Idle));
    let eff = Handler::handle_key(&mut app, KeyMsg::Enter);
    assert!(matches!(eff, Effect::Idle));
    assert!(matches!(app.modal, ActiveModal::Inactive));
    assert!(app.pending_delete_remote.is_none());
}

#[test]
fn test_confirm_choice_keys_are_idempotent() {
    let mut app = make_app();
    app.set_remotes(vec!["gdrive".to_string()]);
    Handler::handle_key(&mut app, KeyMsg::Char('d'));

    Handler::handle_key(&mut app, KeyMsg::Char('y'));
    let confirmed_once = match &app.modal {
        ActiveModal::Confirm { confirm } => confirm.is_confirmed(),
        other => panic!("expected the confirmation dialog, got {:?}", other),
    };
    assert!(confirmed_once);

    Handler::handle_key(&mut app, KeyMsg::Char('y'));
    let confirmed_twice = match &app.modal {
        ActiveModal::Confirm { confirm } => confirm.is_confirmed(),
        other => panic!("expected the confirmation dialog, got {:?}", other),
    };
    assert!(confirmed_twice);
    assert_eq!(app.pending_delete_remote.as_deref(), Some("gdrive"));

    Handler::handle_key(&mut app, KeyMsg::Left);
    match &app.modal {
        ActiveModal::Confirm { confirm } => assert!(!confirm.is_confirmed()),
        other => panic!("expected the confirmation dialog, got {:?}", other),
    }
}

#[test]
fn test_confirmed_delete_flow_refreshes_remotes() {
    let mut app = make_app();
    app.set_remotes(vec!["gdrive".to_string()]);
    Handler::handle_key(&mut app, KeyMsg::Char('d'));
    Handler::handle_key(&mut app, KeyMsg::Char('y'));

    let (call, op) = expect_call(Handler::handle_key(&mut app, KeyMsg::Enter));
    match call {
        DaemonCall::DeleteRemote { name } => assert_eq!(name, "gdrive"),
        other => panic!("expected a delete, got {:?}", other),
    }
    assert!(matches!(op, PendingOp::DeleteConfirmed));
    assert!(matches!(app.modal, ActiveModal::Inactive));
    assert!(app.pending_delete_remote.is_none());

    let (call, op) = expect_call(Handler::handle_response(&mut app, op, CallOutcome::Completed));
    assert!(matches!(call, DaemonCall::ListRemotes));
    let eff = Handler::handle_response(&mut app, op, CallOutcome::Remotes { names: vec![] });
    assert!(matches!(eff, Effect::Idle));
    assert!(app.remotes.is_empty());
    assert_eq!(app.remotes_selected, 0);
}

#[test]
fn test_failed_delete_propagates() {
    let mut app = make_app();
    app.set_remotes(vec!["gdrive".to_string()]);
    Handler::handle_key(&mut app, KeyMsg::Char('d'));
    Handler::handle_key(&mut app, KeyMsg::Char('y'));
    let (_, op) = expect_call(Handler::handle_key(&mut app, KeyMsg::Enter));

    let eff = Handler::handle_response(
        &mut app,
        op,
        CallOutcome::Failed { message: "in use".to_string() },
    );
    match eff {
        Effect::Fatal { error: LazyFileError::Operation(msg) } => assert_eq!(msg, "in use"),
        other => panic!("expected a fatal error, got {:?}", other),
    }
    assert!(matches!(app.modal, ActiveModal::Inactive));
}

#[test]
fn test_delete_key_with_empty_list_is_ignored() {
    let mut app = make_app();
    let eff = Handler::handle_key(&mut app, KeyMsg::Char('d'));
    assert!(matches!(eff, Effect::Idle));
    assert!(matches!(app.modal, ActiveModal::Inactive));
    assert!(app.pending_delete_remote.is_none());
}

#[test]
fn test_create_submit_round_trip() {
    let mut app = make_app();
    Handler::handle_key(&mut app, KeyMsg::Char('a'));
    match &app.modal {
        ActiveModal::CreateEdit { form } => assert_eq!(form.mode, CreateRemoteMode::Create),
        other => panic!("expected the create form, got {:?}", other),
    }
    Handler::handle_key(&mut app, KeyMsg::Char('m'));
    Handler::handle_key(&mut app, KeyMsg::Char('y'));
    Handler::handle_key(&mut app, KeyMsg::Tab);
    Handler::handle_key(&mut app, KeyMsg::Char('s'));
    Handler::handle_key(&mut app, KeyMsg::Char('3'));

    let (call, op) = expect_call(Handler::handle_key(&mut app, KeyMsg::Enter));
    match call {
        DaemonCall::CreateRemote { name, remote_type, params } => {
            assert_eq!(name, "my");
            assert_eq!(remote_type, "s3");
            assert!(params.is_empty());
        }
        other => panic!("expected a create, got {:?}", other),
    }
    assert!(matches!(op, PendingOp::SubmitCreateEdit));

    let (call, op) = expect_call(Handler::handle_response(&mut app, op, CallOutcome::Completed));
    assert!(matches!(call, DaemonCall::ListRemotes));
    assert!(matches!(app.modal, ActiveModal::Inactive));

    let names = vec!["my".to_string()];
    let eff = Handler::handle_response(&mut app, op, CallOutcome::Remotes { names });
    assert!(matches!(eff, Effect::Idle));
    assert!(app.remotes.iter().any(|r| r == "my"));
}

#[test]
fn test_create_submit_requires_name_and_type() {
    let mut app = make_app();
    Handler::handle_key(&mut app, KeyMsg::Char('a'));
    let eff = Handler::handle_key(&mut app, KeyMsg::Enter);
    assert!(matches!(eff, Effect::Idle));
    match &app.modal {
        ActiveModal::CreateEdit { form } => {
            assert_eq!(form.error.as_deref(), Some("Name and Type are required"));
        }
        other => panic!("expected the create form to stay open, got {:?}", other),
    }
}

#[test]
fn test_create_submit_forwards_nonempty_path() {
    let mut app = make_app();
    Handler::handle_key(&mut app, KeyMsg::Char('a'));
    Handler::handle_key(&mut app, KeyMsg::Char('m'));
    Handler::handle_key(&mut app, KeyMsg::Tab);
    Handler::handle_key(&mut app, KeyMsg::Char('s'));
    Handler::handle_key(&mut app, KeyMsg::Tab);
    Handler::handle_key(&mut app, KeyMsg::Char('/'));
    Handler::handle_key(&mut app, KeyMsg::Char('x'));

    let (call, _) = expect_call(Handler::handle_key(&mut app, KeyMsg::Enter));
    match call {
        DaemonCall::CreateRemote { params, .. } => {
            assert_eq!(params, vec![("path".to_string(), "/x".to_string())]);
        }
        other => panic!("expected a create, got {:?}", other),
    }
}

#[test]
fn test_create_failure_keeps_form_open_with_error() {
    let mut app = make_app();
    Handler::handle_key(&mut app, KeyMsg::Char('a'));
    Handler::handle_key(&mut app, KeyMsg::Char('m'));
    Handler::handle_key(&mut app, KeyMsg::Tab);
    Handler::handle_key(&mut app, KeyMsg::Char('s'));
    let (_, op) = expect_call(Handler::handle_key(&mut app, KeyMsg::Enter));

    let eff = Handler::handle_response(
        &mut app,
        op,
        CallOutcome::Failed { message: "duplicate".to_string() },
    );
    assert!(matches!(eff, Effect::Idle));
    match &app.modal {
        ActiveModal::CreateEdit { form } => {
            assert_eq!(form.error.as_deref(), Some("Error: duplicate"));
            assert_eq!(form.name, "m");
        }
        other => panic!("expected the create form to stay open, got {:?}", other),
    }
}

#[test]
fn test_edit_key_prefills_form() {
    let mut app = make_app();
    app.set_remotes(vec!["gdrive".to_string()]);
    let eff = Handler::handle_key(&mut app, KeyMsg::Char('e'));
    assert!(matches!(eff, Effect::Idle));
    match &app.modal {
        ActiveModal::CreateEdit { form } => {
            assert_eq!(form.mode, CreateRemoteMode::Edit);
            assert_eq!(form.name, "gdrive");
            assert_eq!(form.remote_type, "local");
        }
        other => panic!("expected the edit form, got {:?}", other),
    }
}

#[test]
fn test_update_submit_issues_update_call() {
    let mut app = make_app();
    app.set_remotes(vec!["gdrive".to_string()]);
    Handler::handle_key(&mut app, KeyMsg::Char('e'));
    let (call, _) = expect_call(Handler::handle_key(&mut app, KeyMsg::Enter));
    match call {
        DaemonCall::UpdateRemote { name, params } => {
            assert_eq!(name, "gdrive");
            assert!(params.is_empty());
        }
        other => panic!("expected an update, got {:?}", other),
    }
}

#[test]
fn test_modal_owns_panel_shortcut_keys() {
    let mut app = make_app();
    app.set_remotes(vec!["gdrive".to_string()]);
    Handler::handle_key(&mut app, KeyMsg::Char('a'));
    Handler::handle_key(&mut app, KeyMsg::Char('q'));
    Handler::handle_key(&mut app, KeyMsg::Char('d'));
    assert!(app.running);
    assert!(app.pending_delete_remote.is_none());
    match &app.modal {
        ActiveModal::CreateEdit { form } => assert_eq!(form.name, "qd"),
        other => panic!("expected the create form, got {:?}", other),
    }
    Handler::handle_key(&mut app, KeyMsg::Esc);
    assert!(matches!(app.modal, ActiveModal::Inactive));
}

#[test]
fn test_startup_outcomes() {
    let mut app = make_app();
    let eff = Handler::on_startup_remotes(
        &mut app,
        CallOutcome::Remotes { names: vec!["gdrive".to_string()] },
    );
    assert!(matches!(eff, Effect::Idle));
    assert_eq!(app.remotes, vec!["gdrive".to_string()]);

    let mut denied = make_app();
    let eff = Handler::on_startup_remotes(&mut denied, CallOutcome::Denied);
    assert!(matches!(eff, Effect::Idle));
    assert!(matches!(denied.modal, ActiveModal::Login { .. }));

    let mut failed_both = make_app();
    let eff = Handler::on_startup_remotes(
        &mut failed_both,
        CallOutcome::Failed { message: "down".to_string() },
    );
    assert!(matches!(eff, Effect::Idle));
    assert!(matches!(failed_both.modal, ActiveModal::Login { .. }));

    let mut failed_on_demand = App::new(AuthManager::new(AuthMode::OnDemand));
    let eff = Handler::on_startup_remotes(
        &mut failed_on_demand,
        CallOutcome::Failed { message: "down".to_string() },
    );
    match eff {
        Effect::Fatal { error: LazyFileError::Operation(msg) } => assert_eq!(msg, "down"),
        other => panic!("expected a fatal error, got {:?}", other),
    }
}

#[test]
fn test_remote_refresh_clamps_selection() {
    let mut app = make_app();
    app.set_remotes(vec!["a".to_string(), "b".to_string(), "c".to_string()]);
    Handler::handle_key(&mut app, KeyMsg::Down);
    Handler::handle_key(&mut app, KeyMsg::Down);
    assert_eq!(app.remotes_selected, 2);
    app.set_remotes(vec!["a".to_string()]);
    assert_eq!(app.remotes_selected, 0);
}
