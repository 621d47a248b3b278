//! The vault record and the operations on its sealed entry list.
//!
//! Every change re-seals the whole list under a fresh nonce, so the envelope
//! always holds one complete list. Writing the record to its file is left to
//! the caller: an operation that fails leaves the record as it was.

use crate::codec::{base64_bytes, base64_encode, base64_text};
use crate::encryption::{costs_accepted, sealable, KEY_LEN, MAX_PASSWORD_LEN, SALT_LEN};
use crate::entries::{
    added, first_named_is_determined, found, names_unique, occurrences, removed,
    removed_name_is_gone, second_add_of_a_name_is_refused,
};
use crate::errors::{ErrorView, VaultError};
use crate::models::{
    Argon2Params, EncryptionData, EntryView, EnvelopeView, KdfView, PasswordEntry, PasswordList,
    Vault, VaultView,
};
use crate::payload::{payload_entries, payload_text};
use crate::random::random_bytes;
use crate::secret::{wipe_bytes, wipe_text};
use vstd::prelude::*;
use vstd::utf8::*;

verus! {

/// Memory cost of a new vault's key derivation, in KiB.
pub const DEFAULT_MEM_COST: u32 = 64 * 1024;

/// Number of passes of a new vault's key derivation.
pub const DEFAULT_TIME_COST: u32 = 3;

/// Degree of parallelism of a new vault's key derivation.
pub const DEFAULT_PARALLELISM: u32 = 1;

/// The format version that new vaults are written in.
pub const FORMAT_VERSION: u8 = 1;

impl KdfView {
    /// The parameters of a new vault whose salt is `salt`.
    pub open spec fn fresh(salt: Seq<u8>) -> KdfView {
        KdfView {
            salt: base64_text(salt),
            mem_cost: DEFAULT_MEM_COST,
            time_cost: DEFAULT_TIME_COST,
            parallelism: DEFAULT_PARALLELISM,
        }
    }

    /// Whether the salt is base64 text of 32 bytes and the costs are
    /// accepted.
    pub open spec fn well_formed(self) -> bool {
        &&& base64_bytes(self.salt) matches Some(salt) && salt.len() == SALT_LEN
        &&& costs_accepted(self.mem_cost, self.time_cost, self.parallelism)
    }
}

impl VaultView {
    /// A new vault: the given name and place, fresh parameters, nothing sealed.
    pub open spec fn created(name: Seq<char>, path: Seq<char>, salt: Seq<u8>) -> VaultView {
        VaultView {
            name,
            path,
            version: FORMAT_VERSION,
            argon2: KdfView::fresh(salt),
            encryption: EnvelopeView { nonce: Seq::empty(), ciphertext: Seq::empty() },
        }
    }

    /// The key that `password` unlocks this vault with: the derived key, where
    /// it opens the envelope.
    pub open spec fn unlocked(self, password: Seq<u8>) -> Result<Seq<u8>, ErrorView> {
        match self.argon2.derived_key(password) {
            Some(key) => match self.encryption.opened(key) {
                Some(_) => Ok(key),
                None => Err(ErrorView::Authentication),
            },
            None => Err(ErrorView::KeyDerivation),
        }
    }

    /// The entries that `key` reads from this vault.
    pub open spec fn stored_entries(self, key: Seq<u8>) -> Result<Seq<EntryView>, ErrorView> {
        match self.encryption.opened(key) {
            Some(bytes) => payload_entries(bytes),
            None => Err(ErrorView::Authentication),
        }
    }

    /// The stored entry called `name`.
    pub open spec fn stored_entry(self, key: Seq<u8>, name: Seq<char>) -> Result<
        EntryView,
        ErrorView,
    > {
        match self.stored_entries(key) {
            Ok(entries) => found(entries, name),
            Err(error) => Err(error),
        }
    }

    /// The entries that this vault is to hold once `entry` is added.
    pub open spec fn entries_with(self, key: Seq<u8>, entry: EntryView) -> Result<
        Seq<EntryView>,
        ErrorView,
    > {
        match self.stored_entries(key) {
            Ok(entries) => added(entries, entry),
            Err(error) => Err(error),
        }
    }

    /// The entries that this vault is to hold once the entry called `name` is
    /// removed.
    pub open spec fn entries_without(self, key: Seq<u8>, name: Seq<char>) -> Result<
        Seq<EntryView>,
        ErrorView,
    > {
        match self.stored_entries(key) {
            Ok(entries) => removed(entries, name),
            Err(error) => Err(error),
        }
    }

    /// Whether this vault is `before` with `entries` sealed anew under `key`,
    /// with a nonce of 12 bytes and the tag behind the ciphertext, so that
    /// `key` reads them back.
    pub open spec fn holds_anew(self, before: VaultView, key: Seq<u8>, entries: Seq<EntryView>) -> bool {
        &&& self.reseals(before, key, payload_bytes(entries))
        &&& self.encryption.holds_sealed(payload_bytes(entries).len())
        &&& self.stored_entries(key) == Ok::<Seq<EntryView>, ErrorView>(entries)
    }
}

/// The bytes that are sealed for a list of entries.
pub open spec fn payload_bytes(entries: Seq<EntryView>) -> Seq<u8> {
    encode_utf8(payload_text(entries))
}

impl PasswordEntry {
    /// An entry of the given name, user name and password.
    pub fn new(name: &str, username: &str, password: &str) -> (entry: PasswordEntry)
        ensures
            entry@ == (EntryView { name: name@, username: username@, password: password@ }),
    {
        PasswordEntry {
            name: name.to_owned(),
            username: username.to_owned(),
            password: password.to_owned(),
        }
    }
}

impl Argon2Params {
    /// The parameters of a new vault with the given salt.
    pub fn with_salt(salt: &[u8]) -> (params: Argon2Params)
        requires
            salt@.len() == SALT_LEN,
        ensures
            params@ == KdfView::fresh(salt@),
            params@.well_formed(),
    {
        Argon2Params {
            salt: base64_encode(salt),
            mem_cost: DEFAULT_MEM_COST,
            time_cost: DEFAULT_TIME_COST,
            parallelism: DEFAULT_PARALLELISM,
        }
    }

    /// The parameters of a new vault, with a salt of 32 random bytes. It fails
    /// only where no random bytes can be had.
    pub fn fresh() -> (params: Result<Argon2Params, VaultError>)
        ensures
            params matches Ok(p) ==> p@.well_formed() && exists|salt: Seq<u8>|
                salt.len() == SALT_LEN && p@ == #[trigger] KdfView::fresh(salt),
            params matches Err(e) ==> e@ == ErrorView::Encryption,
    {
        match random_bytes(SALT_LEN) {
            Ok(salt) => {
                let params = Argon2Params::with_salt(salt.as_slice());
                assert(params@ == KdfView::fresh(salt@));
                Ok(params)
            },
            Err(_) => Err(VaultError::Encryption),
        }
    }
}

impl Vault {
    /// A new vault with the given salt: format version 1 and nothing sealed.
    pub fn with_salt(name: &str, path: &str, salt: &[u8]) -> (vault: Vault)
        requires
            salt@.len() == SALT_LEN,
        ensures
            vault@ == VaultView::created(name@, path@, salt@),
            vault@.argon2.well_formed(),
    {
        Vault {
            name: name.to_owned(),
            path: path.to_owned(),
            version: FORMAT_VERSION,
            argon2: Argon2Params::with_salt(salt),
            encryption: EncryptionData::default(),
        }
    }

    /// A new vault with a salt of 32 random bytes. It fails only where no
    /// random bytes can be had.
    pub fn new(name: &str, path: &str) -> (vault: Result<Vault, VaultError>)
        ensures
            vault matches Ok(v) ==> v@.argon2.well_formed() && exists|salt: Seq<u8>|
                salt.len() == SALT_LEN && v@ == #[trigger] VaultView::created(name@, path@, salt),
            vault matches Err(e) ==> e@ == ErrorView::Encryption,
    {
        match random_bytes(SALT_LEN) {
            Ok(salt) => {
                let vault = Vault::with_salt(name, path, salt.as_slice());
                assert(vault@ == VaultView::created(name@, path@, salt@));
                Ok(vault)
            },
            Err(_) => Err(VaultError::Encryption),
        }
    }

    /// A new vault that holds the empty list, sealed under the key that
    /// `master_password` derives. It fails where the password is too long for
    /// Argon2 or no random bytes can be had.
    pub fn initialize(name: &str, path: &str, master_password: &[u8]) -> (vault: Result<
        Vault,
        VaultError,
    >)
        ensures
            vault matches Ok(v) ==> {
                &&& v@.name == name@
                &&& v@.path == path@
                &&& v@.version == FORMAT_VERSION
                &&& v@.argon2.well_formed()
                &&& exists|salt: Seq<u8>|
                    salt.len() == SALT_LEN && v@.argon2 == #[trigger] KdfView::fresh(salt)
                &&& v@.encryption.holds_sealed(0)
                &&& v@.unlocked(master_password@) matches Ok(key) && v@.stored_entries(key) == Ok::<
                    Seq<EntryView>,
                    ErrorView,
                >(Seq::empty())
            },
            vault matches Err(e) ==> e@ == ErrorView::Encryption || (e@ == ErrorView::KeyDerivation
                && master_password@.len() > MAX_PASSWORD_LEN),
            master_password@.len() > MAX_PASSWORD_LEN ==> vault is Err,
    {
        let mut vault = match Vault::new(name, path) {
            Ok(vault) => vault,
            Err(error) => {
                return Err(error);
            },
        };
        let key = match vault.derive_vault_key(master_password) {
            Ok(key) => key,
            Err(error) => {
                return Err(error);
            },
        };
        let nothing: Vec<u8> = Vec::new();
        match vault.encrypt_data(key.as_slice(), nothing.as_slice()) {
            Ok(()) => Ok(vault),
            Err(error) => Err(error),
        }
    }

    /// Checks the master password: derives the key and opens the envelope
    /// with it. The plaintext is overwritten and dropped; only the key is
    /// returned.
    pub fn unlock_and_get_key(&self, master_password: &[u8]) -> (key: Result<[u8; 32], VaultError>)
        ensures
            match self@.unlocked(master_password@) {
                Ok(expected) => key matches Ok(k) && k@ == expected,
                Err(error) => key matches Err(e) && e@ == error,
            },
    {
        let vault_key = match self.derive_vault_key(master_password) {
            Ok(key) => key,
            Err(error) => {
                return Err(error);
            },
        };
        match self.decrypt_data(vault_key.as_slice()) {
            Ok(mut plaintext) => {
                wipe_bytes(&mut plaintext);
                Ok(vault_key)
            },
            Err(error) => Err(error),
        }
    }

    /// The stored entries.
    pub fn list(&self, vault_key: &[u8]) -> (list: Result<PasswordList, VaultError>)
        requires
            vault_key@.len() == KEY_LEN,
        ensures
            match self@.stored_entries(vault_key@) {
                Ok(entries) => list matches Ok(found) && found@ == entries,
                Err(error) => list matches Err(e) && e@ == error,
            },
    {
        match self.decrypt_data(vault_key) {
            Ok(plaintext) => PasswordList::from_payload(plaintext),
            Err(error) => Err(error),
        }
    }

    /// The stored entry called `name`.
    pub fn get_entry(&self, vault_key: &[u8], name: &str) -> (entry: Result<
        PasswordEntry,
        VaultError,
    >)
        requires
            vault_key@.len() == KEY_LEN,
        ensures
            match self@.stored_entry(vault_key@, name@) {
                Ok(expected) => entry matches Ok(found) && found@ == expected,
                Err(error) => entry matches Err(e) && e@ == error,
            },
    {
        let mut list = match self.list(vault_key) {
            Ok(list) => list,
            Err(error) => {
                return Err(error);
            },
        };
        let entry = list.get(name);
        list.wipe();
        entry
    }

    /// Seals `list` anew under a fresh nonce, then overwrites the plaintext.
    fn seal_entries(&mut self, vault_key: &[u8], list: &PasswordList) -> (done: Result<
        (),
        VaultError,
    >)
        requires
            vault_key@.len() == KEY_LEN,
        ensures
            done is Ok ==> final(self)@.holds_anew(old(self)@, vault_key@, list@),
            done matches Err(e) ==> e@ == ErrorView::Encryption && final(self)@ == old(self)@,
            !sealable(payload_bytes(list@).len()) ==> done is Err,
    {
        let mut text = match list.to_payload() {
            Ok(text) => text,
            Err(_) => {
                return Err(VaultError::Encryption);
            },
        };
        let done = self.encrypt_data(vault_key, text.as_str().as_bytes());
        wipe_text(&mut text);
        done
    }

    /// Adds `password_entry` to the stored entries, unless its name is taken,
    /// and seals the new list. Where it fails the vault is left as it was, and
    /// the entry is overwritten before it is dropped.
    pub fn add_entry(&mut self, vault_key: &[u8], password_entry: PasswordEntry) -> (done: Result<
        (),
        VaultError,
    >)
        requires
            vault_key@.len() == KEY_LEN,
        ensures
            match old(self)@.entries_with(vault_key@, password_entry@) {
                Ok(entries) => {
                    &&& done is Ok ==> final(self)@.holds_anew(old(self)@, vault_key@, entries)
                    &&& done matches Err(e) ==> e@ == ErrorView::Encryption && final(self)@ == old(
                        self,
                    )@
                    &&& !sealable(payload_bytes(entries).len()) ==> done is Err
                },
                Err(error) => done matches Err(e) && e@ == error && final(self)@ == old(self)@,
            },
    {
        let mut list = match self.list(vault_key) {
            Ok(list) => list,
            Err(error) => {
                let mut refused = password_entry;
                refused.wipe();
                return Err(error);
            },
        };
        let done = match list.add(password_entry) {
            Ok(()) => self.seal_entries(vault_key, &list),
            Err(error) => Err(error),
        };
        list.wipe();
        done
    }

    /// Removes the entry called `name` from the stored entries and seals the
    /// new list. Where it fails the vault is left as it was.
    pub fn remove_entry(&mut self, vault_key: &[u8], name: &str) -> (done: Result<(), VaultError>)
        requires
            vault_key@.len() == KEY_LEN,
        ensures
            match old(self)@.entries_without(vault_key@, name@) {
                Ok(entries) => {
                    &&& done is Ok ==> final(self)@.holds_anew(old(self)@, vault_key@, entries)
                    &&& done matches Err(e) ==> e@ == ErrorView::Encryption && final(self)@ == old(
                        self,
                    )@
                    &&& !sealable(payload_bytes(entries).len()) ==> done is Err
                },
                Err(error) => done matches Err(e) && e@ == error && final(self)@ == old(self)@,
            },
    {
        let mut list = match self.list(vault_key) {
            Ok(list) => list,
            Err(error) => {
                return Err(error);
            },
        };
        let done = match list.remove(name) {
            Ok(mut removed) => {
                removed.wipe();
                self.seal_entries(vault_key, &list)
            },
            Err(error) => Err(error),
        };
        list.wipe();
        done
    }
}

/// Entry uniqueness, on the vault. Once an entry was added and the vault
/// holds the new list, adding another entry of the same name is refused as a
/// duplicate, and the vault holds exactly one entry of that name.
pub proof fn second_add_to_a_vault_is_refused(
    before: VaultView,
    after: VaultView,
    key: Seq<u8>,
    first: EntryView,
    second: EntryView,
)
    requires
        before.entries_with(key, first) is Ok,
        after.holds_anew(before, key, before.entries_with(key, first)->Ok_0),
        second.name == first.name,
    ensures
        after.entries_with(key, second) == Err::<Seq<EntryView>, ErrorView>(
            ErrorView::DuplicateEntry(first.name),
        ),
        after.stored_entries(key) matches Ok(entries) && occurrences(entries, first.name) == 1,
{
    second_add_of_a_name_is_refused(before.stored_entries(key)->Ok_0, first, second);
}

/// Remove-then-get, on the vault. Once an entry was removed from a vault of
/// unique names and the vault holds the new list, the entry is no longer
/// found.
pub proof fn removed_entry_is_gone_from_the_vault(
    before: VaultView,
    after: VaultView,
    key: Seq<u8>,
    name: Seq<char>,
)
    requires
        before.entries_without(key, name) is Ok,
        names_unique(before.stored_entries(key)->Ok_0),
        after.holds_anew(before, key, before.entries_without(key, name)->Ok_0),
    ensures
        after.stored_entry(key, name) == Err::<EntryView, ErrorView>(ErrorView::NoSuchEntry(name)),
{
    removed_name_is_gone(before.stored_entries(key)->Ok_0, name);
}

/// The first entry. A vault that holds no entries takes any entry: the list
/// that it is to hold is that entry alone.
pub proof fn first_entry_is_accepted(vault: VaultView, key: Seq<u8>, entry: EntryView)
    requires
        vault.stored_entries(key) == Ok::<Seq<EntryView>, ErrorView>(Seq::empty()),
    ensures
        vault.entries_with(key, entry) == Ok::<Seq<EntryView>, ErrorView>(seq![entry]),
{
    assert(Seq::<EntryView>::empty().push(entry) =~= seq![entry]);
}

/// The last entry. Removing the only entry of a vault by its name leaves
/// the vault to hold no entries.
pub proof fn removing_the_only_entry_leaves_none(vault: VaultView, key: Seq<u8>, entry: EntryView)
    requires
        vault.stored_entries(key) == Ok::<Seq<EntryView>, ErrorView>(seq![entry]),
    ensures
        vault.entries_without(key, entry.name) == Ok::<Seq<EntryView>, ErrorView>(Seq::empty()),
{
    let entries = seq![entry];
    assert(entries[0].name == entry.name);
    first_named_is_determined(entries, entry.name, 0);
    assert(entries.remove(0) =~= Seq::<EntryView>::empty());
}

} // verus!
