//! The session credential: ownership of the authenticated handle, its
//! authenticated / open-session flags, the session-scoped environment
//! namespace, and ordered teardown.
//!
//! The calls into the authentication subsystem happen outside the library;
//! each method here takes the subsystem's outcome as a plain status code and
//! decides, with a contract, what the credential's state becomes and what
//! the caller is told. The invariant of the type is that a session is only
//! ever open for an authenticated credential.

use vstd::prelude::*;

use crate::conversation::SimpleConv;
use crate::status::AuthError;
use crate::status::PamStatus;

verus! {

/// One entry of the session environment namespace.
#[derive(Debug)]
pub struct EnvEntry {
    pub key: String,
    pub value: String,
}

impl Clone for EnvEntry {
    fn clone(&self) -> (other: Self)
        ensures
            other == *self,
    {
        EnvEntry { key: self.key.clone(), value: self.value.clone() }
    }
}

/// The value bound to `key`, where a later entry shadows an earlier one with
/// the same key.
pub open spec fn env_lookup(entries: Seq<EnvEntry>, key: Seq<char>) -> Option<Seq<char>>
    decreases entries.len(),
{
    if entries.len() == 0 {
        Option::None
    } else if entries.last().key@ == key {
        Option::Some(entries.last().value@)
    } else {
        env_lookup(entries.drop_last(), key)
    }
}

/// Looking a key up in a concatenation finds the binding of the later part,
/// and falls back to the earlier part only when the later part has none.
pub proof fn lemma_env_lookup_append(a: Seq<EnvEntry>, b: Seq<EnvEntry>, key: Seq<char>)
    ensures
        env_lookup(a + b, key) == if env_lookup(b, key) is Some {
            env_lookup(b, key)
        } else {
            env_lookup(a, key)
        },
    decreases b.len(),
{
    if b.len() == 0 {
        assert(a + b =~= a);
    } else {
        assert((a + b).drop_last() =~= a + b.drop_last());
        assert((a + b).last() == b.last());
        lemma_env_lookup_append(a, b.drop_last(), key);
    }
}

/// What a teardown did: whether a session-close was issued, and the status
/// the underlying handle was finalized with.
#[derive(Clone, Copy, Debug, PartialEq, Eq, Structural)]
pub struct TeardownReport {
    pub closed: bool,
    pub finalize_status: PamStatus,
}

/// The credential for one authentication run: the authenticated handle's
/// state, the conversation handler installed into it, and the session
/// environment namespace.
#[derive(Debug)]
pub struct PasswordlessClient {
    /// Whether teardown should close an open session.
    pub close_on_drop: bool,
    /// The conversation handler the credential was created with.
    pub conversation: SimpleConv,
    /// The service name the handle was started for.
    pub service: String,
    /// Set once authentication has succeeded.
    pub is_authenticated: bool,
    /// Set once a session has been opened; implies `is_authenticated`.
    pub has_open_session: bool,
    /// The status code of the last subsystem call.
    pub last_code: PamStatus,
    /// The session environment namespace.
    pub env: Vec<EnvEntry>,
    /// Set once the handle has been finalized; nothing may follow.
    pub finalized: bool,
}

impl PasswordlessClient {
    /// The credential's invariant: a session is only ever open for an
    /// authenticated credential.
    pub open spec fn wf(self) -> bool {
        self.has_open_session ==> self.is_authenticated
    }

    /// Creates a fresh credential for the given service, with a
    /// conversation handler installed, both flags clear, and an empty
    /// environment namespace.
    pub fn new_client(service: &str) -> (result: Result<PasswordlessClient, AuthError>)
        ensures
            result matches Ok(client) ==> {
                &&& client.close_on_drop
                &&& !client.is_authenticated
                &&& !client.has_open_session
                &&& !client.finalized
                &&& client.last_code == PamStatus::Success
                &&& client.env@.len() == 0
                &&& client.service@ == service@
                &&& client.wf()
            },
            result is Ok,
    {
        Result::Ok(
            PasswordlessClient {
                close_on_drop: true,
                conversation: SimpleConv::new(),
                service: service.to_owned(),
                is_authenticated: false,
                has_open_session: false,
                last_code: PamStatus::Success,
                env: Vec::new(),
                finalized: false,
            },
        )
    }

    /// Records the outcome of the authentication call. Success sets the
    /// authenticated flag; any other code is returned as the error and
    /// leaves the flags as they were.
    pub fn authenticate(&mut self, verdict: PamStatus) -> (result: Result<(), AuthError>)
        ensures
            final(self).last_code == verdict,
            final(self).is_authenticated == (old(self).is_authenticated || verdict
                == PamStatus::Success),
            final(self).has_open_session == old(self).has_open_session,
            final(self).close_on_drop == old(self).close_on_drop,
            final(self).env@ == old(self).env@,
            final(self).finalized == old(self).finalized,
            final(self).service@ == old(self).service@,
            result is Ok <==> verdict == PamStatus::Success,
            verdict != PamStatus::Success ==> result == Result::<(), AuthError>::Err(
                (AuthError { code: verdict }),
            ),
            old(self).wf() ==> final(self).wf(),
    {
        self.last_code = verdict;
        if verdict != PamStatus::Success {
            return Result::Err(AuthError { code: verdict });
        }
        self.is_authenticated = true;
        Result::Ok(())
    }

    /// Opens a session for a previously authenticated credential, recording
    /// the outcome of the session-open call and merging the environment
    /// entries the subsystem assigned during it.
    ///
    /// Called before authentication has succeeded, this fails with a
    /// permission error, touches nothing, and in particular never sets
    /// `has_open_session`.
    pub fn open_session(&mut self, verdict: PamStatus, assigned: Vec<EnvEntry>) -> (result: Result<
        (),
        AuthError,
    >)
        ensures
            !old(self).is_authenticated ==> result == Result::<(), AuthError>::Err(
                (AuthError { code: PamStatus::PermDenied }),
            ) && *final(self) == *old(self),
            old(self).is_authenticated ==> final(self).last_code == verdict,
            old(self).is_authenticated && verdict == PamStatus::Success ==> result is Ok
                && final(self).has_open_session
                && final(self).env@ == old(self).env@ + assigned@,
            old(self).is_authenticated && verdict != PamStatus::Success ==> result
                == Result::<(), AuthError>::Err((AuthError { code: verdict }))
                && final(self).has_open_session == old(self).has_open_session
                && final(self).env@ == old(self).env@,
            final(self).is_authenticated == old(self).is_authenticated,
            final(self).close_on_drop == old(self).close_on_drop,
            final(self).finalized == old(self).finalized,
            final(self).service@ == old(self).service@,
            old(self).wf() ==> final(self).wf(),
    {
        if !self.is_authenticated {
            return Result::Err(AuthError { code: PamStatus::PermDenied });
        }
        self.last_code = verdict;
        if verdict != PamStatus::Success {
            return Result::Err(AuthError { code: verdict });
        }
        self.has_open_session = true;
        let mut i: usize = 0;
        while i < assigned.len()
            invariant
                i <= assigned@.len(),
                self.env@ == old(self).env@ + assigned@.take(i as int),
                self.is_authenticated,
                self.has_open_session,
                self.last_code == verdict,
                self.close_on_drop == old(self).close_on_drop,
                self.finalized == old(self).finalized,
                self.service == old(self).service,
                self.conversation == old(self).conversation,
            decreases assigned@.len() - i,
        {
            self.env.push(assigned[i].clone());
            proof {
                assert(old(self).env@ + assigned@.take(i + 1) =~= (old(self).env@
                    + assigned@.take(i as int)).push(assigned@[i as int]));
            }
            i = i + 1;
        }
        proof {
            assert(assigned@.take(assigned@.len() as int) =~= assigned@);
        }
        Result::Ok(())
    }

    /// Binds `value` to `key` in the session environment namespace,
    /// recording the outcome of the underlying environment call: on success
    /// the binding is stored; any other code is returned as the error and
    /// nothing changes.
    pub fn set_env(&mut self, key: &str, value: &str, verdict: PamStatus) -> (result: Result<
        (),
        AuthError,
    >)
        ensures
            verdict != PamStatus::Success ==> result == Result::<(), AuthError>::Err(
                (AuthError { code: verdict }),
            ) && *final(self) == *old(self),
            verdict == PamStatus::Success ==> result is Ok,
            verdict == PamStatus::Success ==> final(self).env@.len() == old(self).env@.len() + 1,
            verdict == PamStatus::Success ==> final(self).env@.drop_last() == old(self).env@
                && final(self).env@.last().key@ == key@ && final(self).env@.last().value@
                == value@,
            verdict == PamStatus::Success ==> forall|k: Seq<char>|
                env_lookup(final(self).env@, k) == if k == key@ {
                    Option::Some(value@)
                } else {
                    env_lookup(old(self).env@, k)
                },
            final(self).is_authenticated == old(self).is_authenticated,
            final(self).has_open_session == old(self).has_open_session,
            final(self).close_on_drop == old(self).close_on_drop,
            final(self).last_code == old(self).last_code,
            final(self).finalized == old(self).finalized,
            final(self).service@ == old(self).service@,
            old(self).wf() ==> final(self).wf(),
    {
        if verdict != PamStatus::Success {
            return Result::Err(AuthError { code: verdict });
        }
        self.env.push(EnvEntry { key: key.to_owned(), value: value.to_owned() });
        proof {
            assert(self.env@.drop_last() =~= old(self).env@);
        }
        Result::Ok(())
    }

    /// Reads the value bound to `key` in the session environment namespace,
    /// if any, recording the outcome of the underlying environment call: on
    /// success the lookup's finding comes back; any other code is returned
    /// as the error. The credential itself is untouched either way.
    pub fn get_env(&mut self, key: &str, verdict: PamStatus) -> (result: Result<
        Option<String>,
        AuthError,
    >)
        ensures
            *final(self) == *old(self),
            verdict != PamStatus::Success ==> result == Result::<Option<String>, AuthError>::Err(
                (AuthError { code: verdict }),
            ),
            verdict == PamStatus::Success ==> result is Ok,
            verdict == PamStatus::Success && env_lookup(old(self).env@, key@) is None ==> result
                == Result::<Option<String>, AuthError>::Ok(Option::None),
            env_lookup(old(self).env@, key@) matches Option::Some(v) ==> (verdict
                == PamStatus::Success ==> {
                &&& result is Ok
                &&& result->Ok_0 is Some
                &&& result->Ok_0->0@ == v
            }),
    {
        if verdict != PamStatus::Success {
            return Result::Err(AuthError { code: verdict });
        }
        let needle: String = key.to_owned();
        let ghost entries = self.env@;
        let mut i: usize = self.env.len();
        proof {
            assert(entries.take(entries.len() as int) =~= entries);
        }
        while i > 0
            invariant
                verdict == PamStatus::Success,
                i <= entries.len(),
                entries == self.env@,
                needle@ == key@,
                env_lookup(entries, key@) == env_lookup(entries.take(i as int), key@),
            decreases i,
        {
            i = i - 1;
            proof {
                assert(entries.take(i + 1).drop_last() =~= entries.take(i as int));
                assert(entries.take(i + 1).last() == entries[i as int]);
            }
            if self.env[i].key == needle {
                return Result::Ok(Option::Some(self.env[i].value.clone()));
            }
        }
        Result::Ok(Option::None)
    }

    /// Whether teardown will issue a session-close: exactly when a session
    /// is open and closing on teardown is wanted.
    pub fn needs_close(&self) -> (close: bool)
        ensures
            close == (self.has_open_session && self.close_on_drop),
    {
        self.has_open_session && self.close_on_drop
    }

    /// Tears the credential down, in order: a credential with an open
    /// session (and `close_on_drop` set) has its session closed — exactly
    /// once, `close_result` being that close's outcome — and the underlying
    /// handle is then finalized, whatever `close_result` was. Without an
    /// open session, no close is issued and the handle is finalized with a
    /// success status. A torn-down credential cannot be torn down again.
    pub fn teardown(&mut self, close_result: PamStatus) -> (report: TeardownReport)
        requires
            !old(self).finalized,
        ensures
            final(self).finalized,
            !final(self).has_open_session,
            report.closed == (old(self).has_open_session && old(self).close_on_drop),
            report.finalize_status == if report.closed {
                close_result
            } else {
                PamStatus::Success
            },
            final(self).last_code == report.finalize_status,
            final(self).is_authenticated == old(self).is_authenticated,
            final(self).close_on_drop == old(self).close_on_drop,
            final(self).env@ == old(self).env@,
            final(self).wf(),
    {
        let closed = self.has_open_session && self.close_on_drop;
        let status = if closed {
            close_result
        } else {
            PamStatus::Success
        };
        self.has_open_session = false;
        self.last_code = status;
        self.finalized = true;
        TeardownReport { closed, finalize_status: status }
    }
}

/// Drives a fresh credential through the whole session-start sequence:
/// create it for the `fallbackdm` service, pass the terminal-assignment
/// hints into its environment, authenticate, open the session — merging the
/// environment entries the subsystem assigned during the open — and read
/// back the session identifier the subsystem bound to `XDG_SESSION_ID`.
///
/// `auth_verdict` and `open_verdict` are the outcomes of the two subsystem
/// calls; a failed authentication or session-open is fatal and comes back
/// as the error with its code, and a session that was opened without a
/// session identifier is a session error.
/// Both terminal-assignment hint stores of the start sequence succeeded.
pub open spec fn hints_stored(tty_hint_verdict: PamStatus, vtnr_hint_verdict: PamStatus) -> bool {
    tty_hint_verdict == PamStatus::Success && vtnr_hint_verdict == PamStatus::Success
}

/// Every subsystem call of the start sequence succeeded: the two hint
/// stores, the authentication, the session open, and the identifier read.
pub open spec fn all_start_calls_succeed(
    tty_hint_verdict: PamStatus,
    vtnr_hint_verdict: PamStatus,
    auth_verdict: PamStatus,
    open_verdict: PamStatus,
    read_id_verdict: PamStatus,
) -> bool {
    &&& hints_stored(tty_hint_verdict, vtnr_hint_verdict)
    &&& auth_verdict == PamStatus::Success
    &&& open_verdict == PamStatus::Success
    &&& read_id_verdict == PamStatus::Success
}

pub fn start_pam_session(
    tty_hint_verdict: PamStatus,
    vtnr_hint_verdict: PamStatus,
    auth_verdict: PamStatus,
    open_verdict: PamStatus,
    read_id_verdict: PamStatus,
    assigned: Vec<EnvEntry>,
) -> (result: Result<(PasswordlessClient, String), AuthError>)
    ensures
        tty_hint_verdict != PamStatus::Success ==> result == Result::<
            (PasswordlessClient, String),
            AuthError,
        >::Err((AuthError { code: tty_hint_verdict })),
        tty_hint_verdict == PamStatus::Success && vtnr_hint_verdict != PamStatus::Success
            ==> result == Result::<(PasswordlessClient, String), AuthError>::Err(
            (AuthError { code: vtnr_hint_verdict }),
        ),
        hints_stored(tty_hint_verdict, vtnr_hint_verdict) && auth_verdict != PamStatus::Success
            ==> result == Result::<(PasswordlessClient, String), AuthError>::Err(
            (AuthError { code: auth_verdict }),
        ),
        hints_stored(tty_hint_verdict, vtnr_hint_verdict) && auth_verdict == PamStatus::Success
            && open_verdict != PamStatus::Success ==> result == Result::<
            (PasswordlessClient, String),
            AuthError,
        >::Err((AuthError { code: open_verdict })),
        hints_stored(tty_hint_verdict, vtnr_hint_verdict) && auth_verdict == PamStatus::Success
            && open_verdict == PamStatus::Success && read_id_verdict != PamStatus::Success
            ==> result == Result::<(PasswordlessClient, String), AuthError>::Err(
            (AuthError { code: read_id_verdict }),
        ),
        all_start_calls_succeed(
            tty_hint_verdict,
            vtnr_hint_verdict,
            auth_verdict,
            open_verdict,
            read_id_verdict,
        ) && env_lookup(assigned@, "XDG_SESSION_ID"@) is None ==> result == Result::<
            (PasswordlessClient, String),
            AuthError,
        >::Err((AuthError { code: PamStatus::SessionErr })),
        env_lookup(assigned@, "XDG_SESSION_ID"@) matches Option::Some(id) ==> (
        all_start_calls_succeed(
            tty_hint_verdict,
            vtnr_hint_verdict,
            auth_verdict,
            open_verdict,
            read_id_verdict,
        ) ==> {
            &&& result is Ok
            &&& result->Ok_0.1@ == id
            &&& result->Ok_0.0.is_authenticated
            &&& result->Ok_0.0.has_open_session
            &&& !result->Ok_0.0.finalized
            &&& result->Ok_0.0.close_on_drop
            &&& result->Ok_0.0.wf()
            &&& result->Ok_0.0.service@ == "fallbackdm"@
            &&& result->Ok_0.0.env@.len() == assigned@.len() + 2
            &&& result->Ok_0.0.env@[0].key@ == "PAM_TTY"@
            &&& result->Ok_0.0.env@[0].value@ == "tty1"@
            &&& result->Ok_0.0.env@[1].key@ == "XDG_VTNR"@
            &&& result->Ok_0.0.env@[1].value@ == "1"@
            &&& result->Ok_0.0.env@.skip(2) == assigned@
        }),
{
    let mut client = match PasswordlessClient::new_client("fallbackdm") {
        Result::Ok(c) => c,
        Result::Err(e) => {
            return Result::Err(e);
        },
    };
    match client.set_env("PAM_TTY", "tty1", tty_hint_verdict) {
        Result::Ok(_) => {},
        Result::Err(e) => {
            return Result::Err(e);
        },
    }
    let ghost first_hint = client.env@;
    match client.set_env("XDG_VTNR", "1", vtnr_hint_verdict) {
        Result::Ok(_) => {},
        Result::Err(e) => {
            return Result::Err(e);
        },
    }
    let ghost hints = client.env@;
    proof {
        reveal_strlit("PAM_TTY");
        reveal_strlit("XDG_VTNR");
        reveal_strlit("XDG_SESSION_ID");
        assert("PAM_TTY"@.len() == 7);
        assert("XDG_VTNR"@.len() == 8);
        assert("XDG_SESSION_ID"@.len() == 14);
        assert(hints[0] == first_hint[0]);
        assert(env_lookup(hints, "XDG_SESSION_ID"@) is None);
    }
    match client.authenticate(auth_verdict) {
        Result::Ok(_) => {},
        Result::Err(e) => {
            return Result::Err(e);
        },
    }
    proof {
        lemma_env_lookup_append(hints, assigned@, "XDG_SESSION_ID"@);
    }
    let ghost assigned_view = assigned@;
    match client.open_session(open_verdict, assigned) {
        Result::Ok(_) => {},
        Result::Err(e) => {
            return Result::Err(e);
        },
    }
    proof {
        assert(client.env@.skip(2) =~= assigned_view);
    }
    let id_lookup = match client.get_env("XDG_SESSION_ID", read_id_verdict) {
        Result::Ok(o) => o,
        Result::Err(e) => {
            return Result::Err(e);
        },
    };
    match id_lookup {
        Option::Some(id) => Result::Ok((client, id)),
        Option::None => Result::Err(AuthError { code: PamStatus::SessionErr }),
    }
}

} // verus!
