//! The errors that vault and session operations report.

use vstd::prelude::*;
use vstd::string::StringExecFns;

verus! {

/// Why an operation on a vault or on the session failed.
#[derive(Debug, PartialEq, Eq)]
pub enum VaultError {
    /// The key-derivation parameters are malformed.
    KeyDerivation,
    /// The payload could not be sealed.
    Encryption,
    /// Wrong master password, or the stored envelope was altered.
    Authentication,
    /// The payload decrypted but does not hold an entry list.
    CorruptData,
    /// No vault file at the given location.
    NotFound,
    /// The vault file does not hold a vault record.
    MalformedVault,
    /// The vault file could not be written.
    Persistence,
    /// An entry of this name is already stored.
    DuplicateEntry(String),
    /// No entry of this name is stored.
    NoSuchEntry(String),
    /// A vault is already open in this session.
    AlreadyUnlocked,
    /// No vault is open in this session.
    NoVaultOpen,
    /// The session was idle for too long and has been locked.
    SessionExpired,
}

/// The mathematical value of a [`VaultError`].
pub ghost enum ErrorView {
    KeyDerivation,
    Encryption,
    Authentication,
    CorruptData,
    NotFound,
    MalformedVault,
    Persistence,
    DuplicateEntry(Seq<char>),
    NoSuchEntry(Seq<char>),
    AlreadyUnlocked,
    NoVaultOpen,
    SessionExpired,
}

impl View for VaultError {
    type V = ErrorView;

    open spec fn view(&self) -> ErrorView {
        match self {
            VaultError::KeyDerivation => ErrorView::KeyDerivation,
            VaultError::Encryption => ErrorView::Encryption,
            VaultError::Authentication => ErrorView::Authentication,
            VaultError::CorruptData => ErrorView::CorruptData,
            VaultError::NotFound => ErrorView::NotFound,
            VaultError::MalformedVault => ErrorView::MalformedVault,
            VaultError::Persistence => ErrorView::Persistence,
            VaultError::DuplicateEntry(name) => ErrorView::DuplicateEntry(name@),
            VaultError::NoSuchEntry(name) => ErrorView::NoSuchEntry(name@),
            VaultError::AlreadyUnlocked => ErrorView::AlreadyUnlocked,
            VaultError::NoVaultOpen => ErrorView::NoVaultOpen,
            VaultError::SessionExpired => ErrorView::SessionExpired,
        }
    }
}

impl ErrorView {
    /// The text shown to the user for this error.
    pub open spec fn message(self) -> Seq<char> {
        match self {
            ErrorView::KeyDerivation => "key derivation error: malformed parameters"@,
            ErrorView::Encryption => "encryption error"@,
            ErrorView::Authentication => "authentication error: wrong password or corrupted vault"@,
            ErrorView::CorruptData => "corrupt data: the vault payload is not an entry list"@,
            ErrorView::NotFound => "vault not found"@,
            ErrorView::MalformedVault => "malformed vault file"@,
            ErrorView::Persistence => "the vault could not be saved"@,
            ErrorView::DuplicateEntry(name) => "duplicate entry: "@ + name,
            ErrorView::NoSuchEntry(name) => "no such entry: "@ + name,
            ErrorView::AlreadyUnlocked => "a vault is already open"@,
            ErrorView::NoVaultOpen => "No vault is open"@,
            ErrorView::SessionExpired => "Session timed out. You need to run open again."@,
        }
    }
}

impl VaultError {
    /// The text shown to the user for this error.
    pub fn message(&self) -> (text: String)
        ensures
            text@ == self@.message(),
    {
        match self {
            VaultError::KeyDerivation => "key derivation error: malformed parameters".to_owned(),
            VaultError::Encryption => "encryption error".to_owned(),
            VaultError::Authentication => "authentication error: wrong password or corrupted vault".to_owned(),
            VaultError::CorruptData => "corrupt data: the vault payload is not an entry list".to_owned(),
            VaultError::NotFound => "vault not found".to_owned(),
            VaultError::MalformedVault => "malformed vault file".to_owned(),
            VaultError::Persistence => "the vault could not be saved".to_owned(),
            VaultError::DuplicateEntry(name) => "duplicate entry: ".to_owned().concat(name.as_str()),
            VaultError::NoSuchEntry(name) => "no such entry: ".to_owned().concat(name.as_str()),
            VaultError::AlreadyUnlocked => "a vault is already open".to_owned(),
            VaultError::NoVaultOpen => "No vault is open".to_owned(),
            VaultError::SessionExpired => "Session timed out. You need to run open again.".to_owned(),
        }
    }
}

} // verus!
