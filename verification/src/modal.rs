//! The three modal input forms — login, confirmation, create/edit remote —
//! and the tagged union that holds whichever one is active.
//!
//! Each form is a small field-focus state machine; the union makes the
//! mutual-exclusion invariant (at most one modal at a time) hold by
//! construction.

use crate::credentials::CredentialsType;
use crate::textops::drop_last_or_empty;
use vstd::prelude::*;

verus! {

/// The input field that a login form can focus.
#[derive(Debug, Clone, Copy, PartialEq, Eq, Structural)]
pub enum LoginField {
    /// Username entry, for Basic authentication.
    Username,
    /// Password entry, for Basic authentication.
    Password,
    /// The single token entry of Bearer authentication.
    Token,
}

/// The login form.
#[derive(Debug)]
pub struct LoginModal {
    /// Which authentication scheme the form collects.
    pub auth_type: CredentialsType,
    /// Username entered so far (Basic only).
    pub username: String,
    /// Password or token entered so far.
    pub password: String,
    /// The field that keyboard input currently goes to.
    pub focus_field: LoginField,
    /// An inline error to render, if the last submission failed.
    pub error: Option<String>,
    /// Whether the password renders as asterisks.
    pub is_password_masked: bool,
}

impl LoginModal {
    /// A fresh form for Basic authentication, focused on the username.
    pub fn new_basic() -> (m: LoginModal)
        ensures
            m.auth_type is Basic,
            m.username@ == Seq::<char>::empty(),
            m.password@ == Seq::<char>::empty(),
            m.focus_field is Username,
            m.error is None,
            m.is_password_masked,
    {
        LoginModal {
            auth_type: CredentialsType::Basic,
            username: String::new(),
            password: String::new(),
            focus_field: LoginField::Username,
            error: None,
            is_password_masked: true,
        }
    }

    /// A fresh form for Bearer token authentication.
    pub fn new_bearer() -> (m: LoginModal)
        ensures
            m.auth_type is Bearer,
            m.username@ == Seq::<char>::empty(),
            m.password@ == Seq::<char>::empty(),
            m.focus_field is Token,
            m.error is None,
            !m.is_password_masked,
    {
        LoginModal {
            auth_type: CredentialsType::Bearer,
            username: String::new(),
            password: String::new(),
            focus_field: LoginField::Token,
            error: None,
            is_password_masked: false,
        }
    }

    /// Where Tab moves the focus: Basic cycles username and password,
    /// Bearer stays on its single token field.
    pub open spec fn next_field_spec(auth_type: CredentialsType, f: LoginField) -> LoginField {
        match auth_type {
            CredentialsType::Basic => match f {
                LoginField::Username => LoginField::Password,
                LoginField::Password => LoginField::Username,
                LoginField::Token => LoginField::Username,
            },
            CredentialsType::Bearer => LoginField::Token,
        }
    }

    /// Where Shift+Tab moves the focus.
    pub open spec fn prev_field_spec(auth_type: CredentialsType, f: LoginField) -> LoginField {
        match auth_type {
            CredentialsType::Basic => match f {
                LoginField::Username => LoginField::Password,
                LoginField::Password => LoginField::Username,
                LoginField::Token => LoginField::Password,
            },
            CredentialsType::Bearer => LoginField::Token,
        }
    }

    /// Move to the next field.
    pub fn next_field(&mut self)
        ensures
            *final(self) == (LoginModal {
                focus_field: Self::next_field_spec(old(self).auth_type, old(self).focus_field),
                ..*old(self)
            }),
    {
        self.focus_field = match self.auth_type {
            CredentialsType::Basic => match self.focus_field {
                LoginField::Username => LoginField::Password,
                LoginField::Password => LoginField::Username,
                LoginField::Token => LoginField::Username,
            },
            CredentialsType::Bearer => LoginField::Token,
        };
    }

    /// Move to the previous field.
    pub fn prev_field(&mut self)
        ensures
            *final(self) == (LoginModal {
                focus_field: Self::prev_field_spec(old(self).auth_type, old(self).focus_field),
                ..*old(self)
            }),
    {
        self.focus_field = match self.auth_type {
            CredentialsType::Basic => match self.focus_field {
                LoginField::Username => LoginField::Password,
                LoginField::Password => LoginField::Username,
                LoginField::Token => LoginField::Password,
            },
            CredentialsType::Bearer => LoginField::Token,
        };
    }

    /// Append a character to the focused field.
    pub fn input_char(&mut self, c: char)
        ensures
            final(self).auth_type == old(self).auth_type,
            final(self).focus_field == old(self).focus_field,
            final(self).error == old(self).error,
            final(self).is_password_masked == old(self).is_password_masked,
            old(self).focus_field is Username ==> {
                &&& final(self).username@ == old(self).username@.push(c)
                &&& final(self).password == old(self).password
            },
            !(old(self).focus_field is Username) ==> {
                &&& final(self).password@ == old(self).password@.push(c)
                &&& final(self).username == old(self).username
            },
    {
        match self.focus_field {
            LoginField::Username => self.username.push(c),
            LoginField::Password | LoginField::Token => self.password.push(c),
        }
    }

    /// Remove the last character of the focused field, if any.
    pub fn backspace(&mut self)
        ensures
            final(self).auth_type == old(self).auth_type,
            final(self).focus_field == old(self).focus_field,
            final(self).error == old(self).error,
            final(self).is_password_masked == old(self).is_password_masked,
            old(self).focus_field is Username ==> {
                &&& final(self).username@ == drop_last_or_empty(old(self).username@)
                &&& final(self).password == old(self).password
            },
            !(old(self).focus_field is Username) ==> {
                &&& final(self).password@ == drop_last_or_empty(old(self).password@)
                &&& final(self).username == old(self).username
            },
    {
        match self.focus_field {
            LoginField::Username => {
                let _ = self.username.pop();
            },
            LoginField::Password | LoginField::Token => {
                let _ = self.password.pop();
            },
        }
    }

    /// The form is submittable: every field its scheme requires is filled.
    pub open spec fn valid_spec(&self) -> bool {
        match self.auth_type {
            CredentialsType::Basic => self.username@.len() > 0 && self.password@.len() > 0,
            CredentialsType::Bearer => self.password@.len() > 0,
        }
    }

    /// Whether the form is submittable.
    pub fn is_valid(&self) -> (v: bool)
        ensures
            v == self.valid_spec(),
    {
        match self.auth_type {
            CredentialsType::Basic => !self.username.as_str().is_empty()
                && !self.password.as_str().is_empty(),
            CredentialsType::Bearer => !self.password.as_str().is_empty(),
        }
    }

    /// Flip password masking.
    pub fn toggle_password_visibility(&mut self)
        ensures
            *final(self) == (LoginModal {
                is_password_masked: !old(self).is_password_masked,
                ..*old(self)
            }),
    {
        self.is_password_masked = !self.is_password_masked;
    }

    /// The title to render for the form.
    pub fn title(&self) -> (t: &'static str)
        ensures
            self.auth_type is Basic ==> t@ == "Login - Basic Authentication"@,
            self.auth_type is Bearer ==> t@ == "Login - Bearer Token"@,
    {
        match self.auth_type {
            CredentialsType::Basic => "Login - Basic Authentication",
            CredentialsType::Bearer => "Login - Bearer Token",
        }
    }

    /// Empty both entry fields and drop any inline error.
    pub fn clear(&mut self)
        ensures
            final(self).username@ == Seq::<char>::empty(),
            final(self).password@ == Seq::<char>::empty(),
            final(self).error is None,
            final(self).auth_type == old(self).auth_type,
            final(self).focus_field == old(self).focus_field,
            final(self).is_password_masked == old(self).is_password_masked,
    {
        self.username = String::new();
        self.password = String::new();
        self.error = None;
    }
}

/// The binary confirmation dialog; the choice starts on the safe,
/// not-confirmed side.
#[derive(Debug)]
pub struct ConfirmModal {
    /// The dialog's title line.
    pub title: String,
    /// The question it asks.
    pub message: String,
    /// The current choice; submission acts only when this is set.
    pub confirmed: bool,
}

impl ConfirmModal {
    /// A fresh dialog, not confirmed.
    pub fn new(title: String, message: String) -> (m: ConfirmModal)
        ensures
            m.title == title,
            m.message == message,
            !m.confirmed,
    {
        ConfirmModal { title, message, confirmed: false }
    }

    /// Flip the choice.
    pub fn toggle(&mut self)
        ensures
            *final(self) == (ConfirmModal { confirmed: !old(self).confirmed, ..*old(self) }),
    {
        self.confirmed = !self.confirmed;
    }

    /// The current choice.
    pub fn is_confirmed(&self) -> (c: bool)
        ensures
            c == self.confirmed,
    {
        self.confirmed
    }
}

/// Whether the create/edit form creates a new remote or edits one.
#[derive(Debug, Clone, Copy, PartialEq, Eq, Structural)]
pub enum CreateRemoteMode {
    /// Creating a new remote.
    Create,
    /// Editing an existing remote.
    Edit,
}

/// The input field that the create/edit form can focus.
#[derive(Debug, Clone, Copy, PartialEq, Eq, Structural)]
pub enum CreateRemoteField {
    /// The remote's name.
    Name,
    /// The remote's backend type.
    Type,
    /// The optional path parameter.
    Path,
}

/// The create/edit-remote form.
#[derive(Debug)]
pub struct CreateRemoteModal {
    /// Create a new remote, or edit an existing one.
    pub mode: CreateRemoteMode,
    /// The remote's name.
    pub name: String,
    /// The remote's backend type.
    pub remote_type: String,
    /// Optional path parameter; forwarded only when non-empty.
    pub path: String,
    /// The field that keyboard input currently goes to.
    pub focus_field: CreateRemoteField,
    /// An inline error to render, if the last submission failed.
    pub error: Option<String>,
}

impl CreateRemoteModal {
    /// A fresh, empty form, focused on the name field.
    pub fn new(mode: CreateRemoteMode) -> (m: CreateRemoteModal)
        ensures
            m.mode == mode,
            m.name@ == Seq::<char>::empty(),
            m.remote_type@ == Seq::<char>::empty(),
            m.path@ == Seq::<char>::empty(),
            m.focus_field is Name,
            m.error is None,
    {
        CreateRemoteModal {
            mode,
            name: String::new(),
            remote_type: String::new(),
            path: String::new(),
            focus_field: CreateRemoteField::Name,
            error: None,
        }
    }

    /// The same form with the name pre-filled.
    pub fn with_name(self, name: String) -> (m: CreateRemoteModal)
        ensures
            m == (CreateRemoteModal { name, ..self }),
    {
        CreateRemoteModal { name, ..self }
    }

    /// The same form with the backend type pre-filled.
    pub fn with_type(self, remote_type: String) -> (m: CreateRemoteModal)
        ensures
            m == (CreateRemoteModal { remote_type, ..self }),
    {
        CreateRemoteModal { remote_type, ..self }
    }

    /// Where Tab moves the focus: name, type, path, and around again.
    pub open spec fn next_field_spec(f: CreateRemoteField) -> CreateRemoteField {
        match f {
            CreateRemoteField::Name => CreateRemoteField::Type,
            CreateRemoteField::Type => CreateRemoteField::Path,
            CreateRemoteField::Path => CreateRemoteField::Name,
        }
    }

    /// Where Shift+Tab moves the focus.
    pub open spec fn prev_field_spec(f: CreateRemoteField) -> CreateRemoteField {
        match f {
            CreateRemoteField::Name => CreateRemoteField::Path,
            CreateRemoteField::Type => CreateRemoteField::Name,
            CreateRemoteField::Path => CreateRemoteField::Type,
        }
    }

    /// Move to the next field.
    pub fn next_field(&mut self)
        ensures
            *final(self) == (CreateRemoteModal {
                focus_field: Self::next_field_spec(old(self).focus_field),
                ..*old(self)
            }),
    {
        self.focus_field = match self.focus_field {
            CreateRemoteField::Name => CreateRemoteField::Type,
            CreateRemoteField::Type => CreateRemoteField::Path,
            CreateRemoteField::Path => CreateRemoteField::Name,
        };
    }

    /// Move to the previous field.
    pub fn prev_field(&mut self)
        ensures
            *final(self) == (CreateRemoteModal {
                focus_field: Self::prev_field_spec(old(self).focus_field),
                ..*old(self)
            }),
    {
        self.focus_field = match self.focus_field {
            CreateRemoteField::Name => CreateRemoteField::Path,
            CreateRemoteField::Type => CreateRemoteField::Name,
            CreateRemoteField::Path => CreateRemoteField::Type,
        };
    }

    /// Append a character to the focused field.
    pub fn input_char(&mut self, c: char)
        ensures
            final(self).mode == old(self).mode,
            final(self).focus_field == old(self).focus_field,
            final(self).error == old(self).error,
            old(self).focus_field is Name ==> {
                &&& final(self).name@ == old(self).name@.push(c)
                &&& final(self).remote_type == old(self).remote_type
                &&& final(self).path == old(self).path
            },
            old(self).focus_field is Type ==> {
                &&& final(self).remote_type@ == old(self).remote_type@.push(c)
                &&& final(self).name == old(self).name
                &&& final(self).path == old(self).path
            },
            old(self).focus_field is Path ==> {
                &&& final(self).path@ == old(self).path@.push(c)
                &&& final(self).name == old(self).name
                &&& final(self).remote_type == old(self).remote_type
            },
    {
        match self.focus_field {
            CreateRemoteField::Name => self.name.push(c),
            CreateRemoteField::Type => self.remote_type.push(c),
            CreateRemoteField::Path => self.path.push(c),
        }
    }

    /// Remove the last character of the focused field, if any.
    pub fn backspace(&mut self)
        ensures
            final(self).mode == old(self).mode,
            final(self).focus_field == old(self).focus_field,
            final(self).error == old(self).error,
            old(self).focus_field is Name ==> {
                &&& final(self).name@ == drop_last_or_empty(old(self).name@)
                &&& final(self).remote_type == old(self).remote_type
                &&& final(self).path == old(self).path
            },
            old(self).focus_field is Type ==> {
                &&& final(self).remote_type@ == drop_last_or_empty(old(self).remote_type@)
                &&& final(self).name == old(self).name
                &&& final(self).path == old(self).path
            },
            old(self).focus_field is Path ==> {
                &&& final(self).path@ == drop_last_or_empty(old(self).path@)
                &&& final(self).name == old(self).name
                &&& final(self).remote_type == old(self).remote_type
            },
    {
        match self.focus_field {
            CreateRemoteField::Name => {
                let _ = self.name.pop();
            },
            CreateRemoteField::Type => {
                let _ = self.remote_type.pop();
            },
            CreateRemoteField::Path => {
                let _ = self.path.pop();
            },
        }
    }

    /// The form is submittable: name and type are both non-empty.
    pub open spec fn valid_spec(&self) -> bool {
        self.name@.len() > 0 && self.remote_type@.len() > 0
    }

    /// Whether the form is submittable.
    pub fn is_valid(&self) -> (v: bool)
        ensures
            v == self.valid_spec(),
    {
        !self.name.as_str().is_empty() && !self.remote_type.as_str().is_empty()
    }
}

/// The modal that currently owns keyboard routing. At most one is ever
/// active, by construction of this type.
#[derive(Debug)]
pub enum ActiveModal {
    /// No modal; keys go to panel navigation.
    Inactive,
    /// The login form is open.
    Login {
        /// The open login form.
        login: LoginModal,
    },
    /// The confirmation dialog is open.
    Confirm {
        /// The open confirmation dialog.
        confirm: ConfirmModal,
    },
    /// The create/edit-remote form is open.
    CreateEdit {
        /// The open create/edit form.
        form: CreateRemoteModal,
    },
}

impl ActiveModal {
    /// How many modal forms are active: the login form, the confirmation
    /// dialog, and the create/edit form each counted separately.
    pub open spec fn active_count(&self) -> int {
        (if self is Login {
            1int
        } else {
            0int
        }) + (if self is Confirm {
            1int
        } else {
            0int
        }) + (if self is CreateEdit {
            1int
        } else {
            0int
        })
    }
}

/// At most one modal is active in any state the client can hold, whatever
/// sequence of events produced it.
pub proof fn lemma_modal_mutual_exclusion(m: ActiveModal)
    ensures
        m.active_count() <= 1,
{
}

} // verus!
