//! The in-memory credential registry: daemon-wide credentials, per-remote
//! credentials keyed by remote name, and the configured authentication mode.
//!
//! Durable storage is the surrounding program's business; this type owns
//! only the session state, so its updates cannot fail.

use crate::credentials::Credentials;
use crate::error::LazyFileError;
use vstd::prelude::*;
use vstd::pervasive::VecAdditionalExecFns;

verus! {

/// When the client asks the user to log in.
#[derive(Debug, Clone, Copy, PartialEq, Eq, Structural)]
pub enum AuthMode {
    /// Ask on application startup.
    RequireOnStartup,
    /// Ask only when the daemon denies authorization.
    OnDemand,
    /// Ask on startup and again whenever authorization is denied.
    Both,
}

/// The credential registry.
#[derive(Debug)]
pub struct AuthManager {
    daemon_credentials: Option<Credentials>,
    remote_credentials: Vec<(String, Credentials)>,
    auth_mode: AuthMode,
}

impl AuthManager {
    /// The per-remote entries, in insertion order; their names are unique
    /// whenever the registry is well formed.
    pub closed spec fn entries(&self) -> Seq<(String, Credentials)> {
        self.remote_credentials@
    }

    /// The daemon-wide credentials, if any are installed.
    pub closed spec fn spec_daemon(&self) -> Option<Credentials> {
        self.daemon_credentials
    }

    /// The configured authentication mode.
    pub closed spec fn spec_mode(&self) -> AuthMode {
        self.auth_mode
    }

    /// Well-formedness: no two per-remote entries share a name.
    pub open spec fn wf(&self) -> bool {
        forall|i: int, j: int|
            0 <= i < j < self.entries().len() ==> self.entries()[i].0@ != self.entries()[j].0@
    }

    /// Whether some entry is stored under `name`.
    pub open spec fn has_remote(&self, name: Seq<char>) -> bool {
        exists|i: int| 0 <= i < self.entries().len() && self.entries()[i].0@ == name
    }

    /// The credentials stored under `name`.
    pub open spec fn remote_at(&self, name: Seq<char>) -> Credentials
        recommends
            self.has_remote(name),
    {
        self.entries()[choose|i: int|
            0 <= i < self.entries().len() && self.entries()[i].0@ == name].1
    }

    /// The entry at a well-formed index is the one its own name finds.
    proof fn lemma_remote_at_index(&self, i: int)
        requires
            self.wf(),
            0 <= i < self.entries().len(),
        ensures
            self.has_remote(self.entries()[i].0@),
            self.remote_at(self.entries()[i].0@) == self.entries()[i].1,
    {
        let name = self.entries()[i].0@;
        assert(self.has_remote(name));
        let j = choose|j: int| 0 <= j < self.entries().len() && self.entries()[j].0@ == name;
        if j < i {
            assert(self.entries()[j].0@ != self.entries()[i].0@);
        } else if i < j {
            assert(self.entries()[i].0@ != self.entries()[j].0@);
        }
    }

    /// A fresh registry with no credentials.
    pub fn new(auth_mode: AuthMode) -> (m: AuthManager)
        ensures
            m.wf(),
            m.spec_daemon() is None,
            m.entries().len() == 0,
            m.spec_mode() == auth_mode,
    {
        AuthManager { daemon_credentials: None, remote_credentials: Vec::new(), auth_mode }
    }

    /// Install the daemon-wide credentials for this session. The in-memory
    /// update cannot fail; persisting them durably is a separate step that
    /// the caller drives.
    pub fn set_daemon_credentials(&mut self, credentials: Credentials) -> (r: Result<
        (),
        LazyFileError,
    >)
        ensures
            r is Ok,
            final(self).spec_daemon() == Some(credentials),
            final(self).entries() == old(self).entries(),
            final(self).spec_mode() == old(self).spec_mode(),
    {
        self.daemon_credentials = Some(credentials);
        Ok(())
    }

    /// Install credentials for one remote, replacing any prior entry under
    /// the same name; entries under other names are untouched. The
    /// in-memory update cannot fail.
    pub fn set_remote_credentials(&mut self, remote: &str, credentials: Credentials) -> (r: Result<
        (),
        LazyFileError,
    >)
        requires
            old(self).wf(),
        ensures
            r is Ok,
            final(self).wf(),
            final(self).has_remote(remote@),
            final(self).remote_at(remote@) == credentials,
            forall|n: Seq<char>|
                n != remote@ ==> #[trigger] final(self).has_remote(n) == old(self).has_remote(n),
            forall|n: Seq<char>|
                n != remote@ && old(self).has_remote(n) ==> #[trigger] final(self).remote_at(n)
                    == old(self).remote_at(n),
            final(self).spec_daemon() == old(self).spec_daemon(),
            final(self).spec_mode() == old(self).spec_mode(),
    {
        let key = remote.to_owned();
        let len = self.remote_credentials.len();
        let mut i: usize = 0;
        while i < len
            invariant
                i <= len,
                len == self.remote_credentials@.len(),
                *self == *old(self),
                old(self).wf(),
                key@ == remote@,
                forall|k: int| 0 <= k < i ==> self.remote_credentials@[k].0@ != remote@,
            decreases len - i,
        {
            if self.remote_credentials[i].0 == key {
                self.remote_credentials.set(i, (key, credentials));
                proof {
                    let ghost pre = *old(self);
                    assert(self.entries() =~= pre.entries().update(i as int, (key, credentials)));
                    assert forall|a: int, b: int|
                        0 <= a < b < self.entries().len() implies self.entries()[a].0@
                        != self.entries()[b].0@ by {
                        assert(pre.entries()[a].0@ != pre.entries()[b].0@);
                    }
                    self.lemma_remote_at_index(i as int);
                    assert forall|n: Seq<char>| n != remote@ implies #[trigger] self.has_remote(n)
                        == pre.has_remote(n) by {
                        if self.has_remote(n) {
                            let w = choose|w: int|
                                0 <= w < self.entries().len() && self.entries()[w].0@ == n;
                            assert(pre.entries()[w].0@ == n);
                        }
                        if pre.has_remote(n) {
                            let w = choose|w: int|
                                0 <= w < pre.entries().len() && pre.entries()[w].0@ == n;
                            assert(self.entries()[w].0@ == n);
                        }
                    }
                    assert forall|n: Seq<char>| n != remote@ && pre.has_remote(n) implies #[trigger]
                        self.remote_at(n) == pre.remote_at(n) by {
                        let w = choose|w: int|
                            0 <= w < pre.entries().len() && pre.entries()[w].0@ == n;
                        pre.lemma_remote_at_index(w);
                        assert(self.entries()[w].0@ == n);
                        self.lemma_remote_at_index(w);
                    }
                }
                return Ok(());
            }
            i = i + 1;
        }
        self.remote_credentials.push((key, credentials));
        proof {
            let ghost pre = *old(self);
            assert(self.entries() =~= pre.entries().push((key, credentials)));
            let last = self.entries().len() - 1;
            assert forall|a: int, b: int|
                0 <= a < b < self.entries().len() implies self.entries()[a].0@
                != self.entries()[b].0@ by {
                if b < last {
                    assert(pre.entries()[a].0@ != pre.entries()[b].0@);
                } else {
                    assert(self.entries()[a].0@ == pre.entries()[a].0@);
                    assert(pre.entries()[a].0@ != remote@);
                }
            }
            self.lemma_remote_at_index(last);
            assert forall|n: Seq<char>| n != remote@ implies #[trigger] self.has_remote(n)
                == pre.has_remote(n) by {
                if self.has_remote(n) {
                    let w = choose|w: int|
                        0 <= w < self.entries().len() && self.entries()[w].0@ == n;
                    assert(w < last);
                    assert(pre.entries()[w].0@ == n);
                }
                if pre.has_remote(n) {
                    let w = choose|w: int| 0 <= w < pre.entries().len() && pre.entries()[w].0@ == n;
                    assert(self.entries()[w].0@ == n);
                }
            }
            assert forall|n: Seq<char>| n != remote@ && pre.has_remote(n) implies #[trigger]
                self.remote_at(n) == pre.remote_at(n) by {
                let w = choose|w: int| 0 <= w < pre.entries().len() && pre.entries()[w].0@ == n;
                pre.lemma_remote_at_index(w);
                assert(self.entries()[w].0@ == n);
                self.lemma_remote_at_index(w);
            }
        }
        Ok(())
    }

    /// The daemon-wide credentials, if any are installed.
    pub fn get_daemon_credentials(&self) -> (r: Option<&Credentials>)
        ensures
            r is Some <==> self.spec_daemon() is Some,
            r matches Some(c) ==> self.spec_daemon() == Some(*c),
    {
        self.daemon_credentials.as_ref()
    }

    /// The credentials stored for `remote`, if any.
    pub fn get_remote_credentials(&self, remote: &str) -> (r: Option<&Credentials>)
        requires
            self.wf(),
        ensures
            r is Some <==> self.has_remote(remote@),
            r matches Some(c) ==> *c == self.remote_at(remote@),
    {
        let key = remote.to_owned();
        let len = self.remote_credentials.len();
        let mut i: usize = 0;
        while i < len
            invariant
                i <= len,
                self.wf(),
                len == self.remote_credentials@.len(),
                key@ == remote@,
                forall|k: int| 0 <= k < i ==> self.remote_credentials@[k].0@ != remote@,
            decreases len - i,
        {
            if self.remote_credentials[i].0 == key {
                proof {
                    self.lemma_remote_at_index(i as int);
                }
                return Some(&self.remote_credentials[i].1);
            }
            i = i + 1;
        }
        None
    }

    /// Whether the configured mode asks for login at startup.
    pub fn should_require_auth_on_startup(&self) -> (b: bool)
        ensures
            b == (self.spec_mode() is RequireOnStartup || self.spec_mode() is Both),
    {
        matches!(self.auth_mode, AuthMode::RequireOnStartup | AuthMode::Both)
    }

    /// Whether the configured mode asks for login on an authorization denial.
    pub fn should_auth_on_demand(&self) -> (b: bool)
        ensures
            b == (self.spec_mode() is OnDemand || self.spec_mode() is Both),
    {
        matches!(self.auth_mode, AuthMode::OnDemand | AuthMode::Both)
    }

    /// Whether daemon-wide credentials are installed.
    pub fn has_daemon_credentials(&self) -> (b: bool)
        ensures
            b == (self.spec_daemon() is Some),
    {
        self.daemon_credentials.is_some()
    }

    /// The configured authentication mode.
    pub fn auth_mode(&self) -> (m: AuthMode)
        ensures
            m == self.spec_mode(),
    {
        self.auth_mode
    }
}

} // verus!
