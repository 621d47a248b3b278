//! The request dispatcher: what the agent answers to one request, and what
//! becomes of the session.
//!
//! Reading and writing the vault file is the caller's part. It asks
//! [`vault_to_load`] which file the request needs, reads it, hands the result
//! to [`handle_request`], and writes back the vault that the outcome names,
//! all while it alone holds the session.

use crate::agent::{AgentState, SessionView};
use crate::encryption::sealable;
use crate::errors::{ErrorView, VaultError};
use crate::models::{EntryView, Request, RequestView, Response, ResponseView, Vault, VaultView};
use crate::secret::wipe_bytes;
use crate::vault::payload_bytes;
use vstd::prelude::*;

verus! {

/// What came of a request: the answer, and the vault to write to its file
/// before the answer is sent, if the request changed it.
#[derive(Debug, PartialEq, Eq)]
pub struct Outcome {
    pub response: Response,
    pub save: Option<Vault>,
}

/// What a request is owed.
pub ghost enum Verdict {
    /// This answer, and nothing to write.
    Reply(ResponseView),
    /// `entries` sealed anew in `vault` under `key` and written; success is
    /// answered once that is done.
    Store { vault: VaultView, key: Seq<u8>, entries: Seq<EntryView> },
}

/// The answer that reports `error`.
pub open spec fn error_reply(error: ErrorView) -> ResponseView {
    ResponseView::Error(error.message())
}

/// The vault that was read for a request, or why there is none.
pub open spec fn loaded_view(loaded: Result<Vault, VaultError>) -> Result<VaultView, ErrorView> {
    match loaded {
        Ok(vault) => Ok(vault@),
        Err(error) => Err(error@),
    }
}

impl SessionView {
    /// The file that `request` needs read at `now`: the named one for an
    /// unlock of a locked session, the open one for an entry operation, and
    /// none where the request is answered without a vault.
    pub open spec fn wanted_vault(self, request: RequestView, now: u64) -> Option<Seq<char>> {
        if self.expired_at(now) {
            None
        } else {
            match request {
                RequestView::UnlockVault { vault_path, .. } => if self.is_unlocked() {
                    None
                } else {
                    Some(vault_path)
                },
                RequestView::LockVault => None,
                _ => self.path,
            }
        }
    }

    /// What `request` is owed at `now`, given the vault that was read for it.
    pub open spec fn verdict(
        self,
        request: RequestView,
        now: u64,
        loaded: Result<VaultView, ErrorView>,
    ) -> Verdict {
        if self.expired_at(now) {
            Verdict::Reply(error_reply(ErrorView::SessionExpired))
        } else {
            match request {
                RequestView::LockVault => Verdict::Reply(ResponseView::Success),
                RequestView::UnlockVault { master_password, .. } => if self.is_unlocked() {
                    Verdict::Reply(error_reply(ErrorView::AlreadyUnlocked))
                } else {
                    match loaded {
                        Ok(vault) => match vault.unlocked(master_password) {
                            Ok(_) => Verdict::Reply(ResponseView::Success),
                            Err(error) => Verdict::Reply(error_reply(error)),
                        },
                        Err(error) => Verdict::Reply(error_reply(error)),
                    }
                },
                _ => match (self.key, loaded) {
                    (None, _) => Verdict::Reply(error_reply(ErrorView::NoVaultOpen)),
                    (Some(_), Err(error)) => Verdict::Reply(error_reply(error)),
                    (Some(key), Ok(vault)) => entry_verdict(vault, key, request),
                },
            }
        }
    }

    /// The session after `request` was handled at `now`.
    pub open spec fn after(
        self,
        request: RequestView,
        now: u64,
        loaded: Result<VaultView, ErrorView>,
    ) -> SessionView {
        if self.expired_at(now) {
            SessionView::locked()
        } else {
            match request {
                RequestView::LockVault => SessionView::locked(),
                RequestView::UnlockVault { vault_path, master_password } => match loaded {
                    Ok(vault) if !self.is_unlocked() => match vault.unlocked(master_password) {
                        Ok(key) => SessionView::unlocked(key, vault_path, now),
                        Err(_) => self,
                    },
                    _ => self.checked_at(now),
                },
                _ => self.checked_at(now),
            }
        }
    }
}

/// What an entry request is owed on an open vault.
pub open spec fn entry_verdict(vault: VaultView, key: Seq<u8>, request: RequestView) -> Verdict {
    match request {
        RequestView::ListEntries => match vault.stored_entries(key) {
            Ok(list) => Verdict::Reply(ResponseView::PasswordList { list }),
            Err(error) => Verdict::Reply(error_reply(error)),
        },
        RequestView::GetEntry { name } => match vault.stored_entry(key, name) {
            Ok(entry) => Verdict::Reply(ResponseView::PasswordEntry { entry }),
            Err(error) => Verdict::Reply(error_reply(error)),
        },
        RequestView::AddEntry { entry } => match vault.entries_with(key, entry) {
            Ok(entries) => Verdict::Store { vault, key, entries },
            Err(error) => Verdict::Reply(error_reply(error)),
        },
        RequestView::RemoveEntry { name } => match vault.entries_without(key, name) {
            Ok(entries) => Verdict::Store { vault, key, entries },
            Err(error) => Verdict::Reply(error_reply(error)),
        },
        _ => Verdict::Reply(ResponseView::Success),
    }
}

impl Outcome {
    /// Whether this outcome gives `verdict` its due: the owed answer and
    /// nothing to write; or the re-sealed vault to write with the answer of
    /// success; or, where sealing failed, the encryption error and nothing to
    /// write. Entries too long to seal are never written.
    pub open spec fn meets(self, verdict: Verdict) -> bool {
        match verdict {
            Verdict::Reply(response) => self.response@ == response && self.save is None,
            Verdict::Store { vault, key, entries } => {
                &&& self.save matches Some(saved) ==> self.response@ == ResponseView::Success
                    && saved@.holds_anew(vault, key, entries)
                &&& self.save is None ==> self.response@ == error_reply(ErrorView::Encryption)
                &&& !sealable(payload_bytes(entries).len()) ==> self.save is None
            },
        }
    }

    fn reply(response: Response) -> (outcome: Outcome)
        ensures
            outcome.response == response,
            outcome.save is None,
    {
        Outcome { response, save: None }
    }

    fn refuse(error: VaultError) -> (outcome: Outcome)
        ensures
            outcome.response@ == error_reply(error@),
            outcome.save is None,
    {
        Outcome { response: Response::Error(error.message()), save: None }
    }

    /// The answer to send once the vault of this outcome was written, or could
    /// not be: the answer as it stands, or the error that the writing gave.
    pub fn after_save(self, saved: Result<(), VaultError>) -> (response: Response)
        ensures
            match saved {
                Ok(()) => response == self.response,
                Err(error) => response@ == error_reply(error@),
            },
    {
        match saved {
            Ok(()) => self.response,
            Err(error) => Response::Error(error.message()),
        }
    }
}

/// The path of the vault file that `request` needs read at `now`, if any.
pub fn vault_to_load(state: &AgentState, request: &Request, now: u64) -> (path: Option<String>)
    requires
        state@.well_formed(),
    ensures
        match state@.wanted_vault(request@, now) {
            Some(wanted) => path matches Some(p) && p@ == wanted,
            None => path is None,
        },
{
    let expired = state.vault_key.is_some() && match state.last_activity {
        Some(then) => now >= then && now - then >= crate::agent::SESSION_TIMEOUT_SECS,
        None => false,
    };
    if expired {
        return None;
    }
    match request {
        Request::UnlockVault { vault_path, .. } => if state.vault_key.is_some() {
            None
        } else {
            Some(vault_path.clone())
        },
        Request::LockVault => None,
        _ => match &state.vault_path {
            Some(path) => Some(path.clone()),
            None => None,
        },
    }
}

/// Answers an entry request on the vault that was read for it.
fn handle_entry_request(request: Request, key: &[u8], mut vault: Vault) -> (outcome: Outcome)
    requires
        key@.len() == crate::encryption::KEY_LEN,
        request@ !is UnlockVault,
        request@ !is LockVault,
    ensures
        outcome.meets(entry_verdict(vault@, key@, request@)),
{
    match request {
        Request::ListEntries => match vault.list(key) {
            Ok(list) => Outcome::reply(Response::PasswordList { list }),
            Err(error) => Outcome::refuse(error),
        },
        Request::GetEntry { name } => match vault.get_entry(key, name.as_str()) {
            Ok(entry) => Outcome::reply(Response::PasswordEntry { entry }),
            Err(error) => Outcome::refuse(error),
        },
        Request::AddEntry { entry } => match vault.add_entry(key, entry) {
            Ok(()) => Outcome { response: Response::Success, save: Some(vault) },
            Err(error) => Outcome::refuse(error),
        },
        Request::RemoveEntry { name } => match vault.remove_entry(key, name.as_str()) {
            Ok(()) => Outcome { response: Response::Success, save: Some(vault) },
            Err(error) => Outcome::refuse(error),
        },
        _ => Outcome::reply(Response::Success),
    }
}

/// Handles one request at time `now`, with the vault that was read for it.
///
/// The activity check comes first: a session idle for the timeout or longer
/// is locked and the request refused. An unlock is refused while a vault is
/// open; otherwise the password is checked against the vault and the session
/// opened. A lock always succeeds. An entry operation is refused while no
/// vault is open. `loaded` is looked at only where [`vault_to_load`] names a
/// file. The secrets of a request that is refused are overwritten before the
/// request is dropped.
pub fn handle_request(
    request: Request,
    state: &mut AgentState,
    now: u64,
    loaded: Result<Vault, VaultError>,
) -> (outcome: Outcome)
    requires
        old(state)@.well_formed(),
    ensures
        final(state)@.well_formed(),
        final(state)@ == old(state)@.after(request@, now, loaded_view(loaded)),
        outcome.meets(old(state)@.verdict(request@, now, loaded_view(loaded))),
{
    match state.check_activity(now) {
        Ok(()) => {},
        Err(error) => {
            let mut refused = request;
            refused.wipe();
            return Outcome::refuse(error);
        },
    }
    match request {
        Request::LockVault => {
            state.lock_vault();
            Outcome::reply(Response::Success)
        },
        Request::UnlockVault { vault_path, mut master_password } => {
            if state.is_unlocked() {
                wipe_bytes(&mut master_password);
                return Outcome::refuse(VaultError::AlreadyUnlocked);
            }
            let unlocked = match loaded {
                Ok(vault) => vault.unlock_and_get_key(master_password.as_slice()),
                Err(error) => Err(error),
            };
            wipe_bytes(&mut master_password);
            match unlocked {
                Ok(key) => match state.unlock_vault(vault_path, key, now) {
                    Ok(()) => Outcome::reply(Response::Success),
                    Err(error) => Outcome::refuse(error),
                },
                Err(error) => Outcome::refuse(error),
            }
        },
        mut request => match (&state.vault_key, loaded) {
            (None, _) => {
                request.wipe();
                Outcome::refuse(VaultError::NoVaultOpen)
            },
            (Some(_), Err(error)) => {
                request.wipe();
                Outcome::refuse(error)
            },
            (Some(key), Ok(vault)) => handle_entry_request(request, key.as_slice(), vault),
        },
    }
}

/// Session gating, while locked. A locked session refuses every entry
/// operation, because no vault is open, and stays locked.
pub proof fn locked_session_refuses_entry_operations(
    session: SessionView,
    request: RequestView,
    now: u64,
    loaded: Result<VaultView, ErrorView>,
)
    requires
        session.well_formed(),
        !session.is_unlocked(),
        request !is UnlockVault,
        request !is LockVault,
    ensures
        session.verdict(request, now, loaded) == Verdict::Reply(error_reply(ErrorView::NoVaultOpen)),
        session.after(request, now, loaded) == session,
{
}

/// Session gating, the right password. Unlocking a locked session with a
/// password that unlocks the vault succeeds and opens the session with the
/// derived key. A listing that follows within the timeout is then answered from
/// the vault that is read for it, with the entries that the key reads from it.
pub proof fn right_password_opens_the_session(
    session: SessionView,
    vault_path: Seq<char>,
    master_password: Seq<u8>,
    now: u64,
    vault: VaultView,
    later: u64,
    reread: VaultView,
)
    requires
        session.well_formed(),
        !session.is_unlocked(),
        vault.unlocked(master_password) is Ok,
        now <= later < now + crate::agent::SESSION_TIMEOUT_SECS,
    ensures
        ({
            let unlock = RequestView::UnlockVault { vault_path, master_password };
            let key = vault.unlocked(master_password)->Ok_0;
            let open = session.after(unlock, now, Ok(vault));
            &&& session.verdict(unlock, now, Ok(vault)) == Verdict::Reply(ResponseView::Success)
            &&& open == SessionView::unlocked(key, vault_path, now)
            &&& open.verdict(RequestView::ListEntries, later, Ok(reread)) == match reread.stored_entries(
                key,
            ) {
                Ok(list) => Verdict::Reply(ResponseView::PasswordList { list }),
                Err(error) => Verdict::Reply(error_reply(error)),
            }
        }),
{
}

/// Session gating, a wrong password. Unlocking a locked session is refused
/// with the error that checking the password gave, an authentication error
/// where the key does not open the envelope, and the session stays locked: a
/// listing that follows is refused, because no vault is open.
pub proof fn wrong_password_leaves_the_session_locked(
    session: SessionView,
    vault_path: Seq<char>,
    master_password: Seq<u8>,
    now: u64,
    vault: VaultView,
    later: u64,
    reread: Result<VaultView, ErrorView>,
)
    requires
        session.well_formed(),
        !session.is_unlocked(),
        vault.unlocked(master_password) is Err,
    ensures
        ({
            let unlock = RequestView::UnlockVault { vault_path, master_password };
            &&& session.verdict(unlock, now, Ok(vault)) == Verdict::Reply(
                error_reply(vault.unlocked(master_password)->Err_0),
            )
            &&& session.after(unlock, now, Ok(vault)) == session
            &&& session.after(unlock, now, Ok(vault)).verdict(
                RequestView::ListEntries,
                later,
                reread,
            ) == Verdict::Reply(error_reply(ErrorView::NoVaultOpen))
            &&& vault.argon2.derived_key(master_password) is Some ==> vault.unlocked(
                master_password,
            ) == Err::<Seq<u8>, ErrorView>(ErrorView::Authentication)
        }),
{
}

/// Timeout. A request that reaches an open session after the timeout or more
/// without activity is refused as expired, whatever it asks, and the session
/// is locked.
pub proof fn idle_session_expires(
    key: Seq<u8>,
    path: Seq<char>,
    last: u64,
    request: RequestView,
    now: u64,
    loaded: Result<VaultView, ErrorView>,
)
    requires
        now - last >= crate::agent::SESSION_TIMEOUT_SECS,
    ensures
        SessionView::unlocked(key, path, last).verdict(request, now, loaded) == Verdict::Reply(
            error_reply(ErrorView::SessionExpired),
        ),
        SessionView::unlocked(key, path, last).after(request, now, loaded) == SessionView::locked(),
{
}

/// Timeout, not yet. A request that reaches an open session before the
/// timeout has passed is handled as on a session just used, and unless it locks
/// the session, the time of last activity becomes the time of the request.
pub proof fn active_session_has_its_clock_reset(
    key: Seq<u8>,
    path: Seq<char>,
    last: u64,
    request: RequestView,
    now: u64,
    loaded: Result<VaultView, ErrorView>,
)
    requires
        last <= now < last + crate::agent::SESSION_TIMEOUT_SECS,
    ensures
        ({
            let session = SessionView::unlocked(key, path, last);
            &&& session.verdict(request, now, loaded) == SessionView::unlocked(key, path, now).verdict(
                request,
                now,
                loaded,
            )
            &&& request !is LockVault ==> session.after(request, now, loaded)
                == SessionView::unlocked(key, path, now)
        }),
{
}

} // verus!
