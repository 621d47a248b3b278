//! The agent's session: which vault is open, the key that opens it, and when
//! it was last used.
//!
//! The session is `Locked` (nothing held) or `Unlocked` (key, path and the
//! time of the last activity, all three). Time is a count of seconds that the
//! caller reads from a monotonic clock. Expiry is looked for only when a
//! request arrives: an idle session stays as it is until then.

use crate::encryption::KEY_LEN;
use crate::errors::{ErrorView, VaultError};
use crate::secret::wipe_bytes;
use vstd::prelude::*;
use vstd::slice::slice_to_vec;

verus! {

/// Seconds without activity after which an open session is locked.
pub const SESSION_TIMEOUT_SECS: u64 = 300;

/// The state of the agent's session.
#[derive(Debug, PartialEq, Eq)]
pub struct AgentState {
    pub vault_key: Option<Vec<u8>>,
    pub vault_path: Option<String>,
    pub last_activity: Option<u64>,
}

/// The mathematical value of an [`AgentState`].
pub ghost struct SessionView {
    pub key: Option<Seq<u8>>,
    pub path: Option<Seq<char>>,
    pub last_activity: Option<u64>,
}

impl View for AgentState {
    type V = SessionView;

    open spec fn view(&self) -> SessionView {
        SessionView {
            key: match self.vault_key {
                Some(key) => Some(key@),
                None => None,
            },
            path: match self.vault_path {
                Some(path) => Some(path@),
                None => None,
            },
            last_activity: self.last_activity,
        }
    }
}

impl SessionView {
    /// The session that holds nothing.
    pub open spec fn locked() -> SessionView {
        SessionView { key: None, path: None, last_activity: None }
    }

    /// The session that holds `key` for the vault at `path`, last used at
    /// `now`.
    pub open spec fn unlocked(key: Seq<u8>, path: Seq<char>, now: u64) -> SessionView {
        SessionView { key: Some(key), path: Some(path), last_activity: Some(now) }
    }

    /// Key, path and time of last activity are held together or not at all,
    /// and a key is 32 bytes long.
    pub open spec fn well_formed(self) -> bool {
        &&& self.key is Some <==> self.path is Some
        &&& self.key is Some <==> self.last_activity is Some
        &&& self.key matches Some(key) ==> key.len() == KEY_LEN
    }

    /// Whether a vault is open.
    pub open spec fn is_unlocked(self) -> bool {
        self.key is Some
    }

    /// Seconds from the last activity to `now`; none where the clock reads
    /// earlier than then.
    pub open spec fn idle_for(self, now: u64) -> int {
        match self.last_activity {
            Some(then) => if now >= then {
                now - then
            } else {
                0
            },
            None => 0,
        }
    }

    /// Whether an open session has been idle for the timeout or longer.
    pub open spec fn expired_at(self, now: u64) -> bool {
        self.is_unlocked() && self.idle_for(now) >= SESSION_TIMEOUT_SECS
    }

    /// The session after the activity check at `now`: locked where it had
    /// expired, else with the time of last activity set to `now` where a vault
    /// is open.
    pub open spec fn checked_at(self, now: u64) -> SessionView {
        if self.expired_at(now) {
            SessionView::locked()
        } else if self.is_unlocked() {
            SessionView { last_activity: Some(now), ..self }
        } else {
            self
        }
    }
}

impl AgentState {
    /// A locked session.
    pub fn new() -> (state: AgentState)
        ensures
            state@ == SessionView::locked(),
            state@.well_formed(),
    {
        AgentState { vault_key: None, vault_path: None, last_activity: None }
    }

    /// Whether a vault is open.
    pub fn is_unlocked(&self) -> (open: bool)
        ensures
            open == self@.is_unlocked(),
    {
        self.vault_key.is_some()
    }

    /// Opens the session for the vault at `path` with its key, at time `now`.
    /// Only one vault may be open: an open session refuses and stays as it is.
    pub fn unlock_vault(&mut self, path: String, key: [u8; 32], now: u64) -> (done: Result<
        (),
        VaultError,
    >)
        requires
            old(self)@.well_formed(),
        ensures
            final(self)@.well_formed(),
            old(self)@.is_unlocked() ==> {
                &&& done matches Err(e) && e@ == ErrorView::AlreadyUnlocked
                &&& final(self)@ == old(self)@
            },
            !old(self)@.is_unlocked() ==> {
                &&& done is Ok
                &&& final(self)@ == SessionView::unlocked(key@, path@, now)
            },
    {
        if self.vault_key.is_some() {
            return Err(VaultError::AlreadyUnlocked);
        }
        self.vault_path = Some(path);
        self.vault_key = Some(slice_to_vec(key.as_slice()));
        self.last_activity = Some(now);
        Ok(())
    }

    /// Locks the session: overwrites the key and forgets key, path and time.
    /// A locked session stays locked.
    pub fn lock_vault(&mut self)
        ensures
            final(self)@ == SessionView::locked(),
            final(self)@.well_formed(),
    {
        match self.vault_key.take() {
            Some(mut key) => wipe_bytes(&mut key),
            None => {},
        }
        self.vault_path = None;
        self.last_activity = None;
    }

    /// The activity check that every request passes before anything else. An
    /// open session that was idle for the timeout or longer is locked and the
    /// request is to be refused; otherwise the time of last activity becomes
    /// `now`. A locked session is left as it is.
    pub fn check_activity(&mut self, now: u64) -> (alive: Result<(), VaultError>)
        requires
            old(self)@.well_formed(),
        ensures
            final(self)@ == old(self)@.checked_at(now),
            final(self)@.well_formed(),
            old(self)@.expired_at(now) ==> (alive matches Err(e) && e@ == ErrorView::SessionExpired),
            !old(self)@.expired_at(now) ==> alive is Ok,
    {
        if self.vault_key.is_none() {
            return Ok(());
        }
        let expired = match self.last_activity {
            Some(then) => now >= then && now - then >= SESSION_TIMEOUT_SECS,
            None => false,
        };
        if expired {
            self.lock_vault();
            Err(VaultError::SessionExpired)
        } else {
            self.last_activity = Some(now);
            Ok(())
        }
    }
}

} // verus!
