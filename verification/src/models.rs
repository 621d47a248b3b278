//! The data that the vault stores and that the agent and its clients exchange.

use vstd::prelude::*;

verus! {

/// One stored credential.
#[derive(Debug, PartialEq, Eq)]
pub struct PasswordEntry {
    pub name: String,
    pub username: String,
    pub password: String,
}

/// The mathematical value of a [`PasswordEntry`].
pub ghost struct EntryView {
    pub name: Seq<char>,
    pub username: Seq<char>,
    pub password: Seq<char>,
}

impl View for PasswordEntry {
    type V = EntryView;

    open spec fn view(&self) -> EntryView {
        EntryView { name: self.name@, username: self.username@, password: self.password@ }
    }
}

impl Clone for PasswordEntry {
    fn clone(&self) -> (copy: Self)
        ensures
            copy@ == self@,
    {
        PasswordEntry {
            name: self.name.clone(),
            username: self.username.clone(),
            password: self.password.clone(),
        }
    }
}

/// The entries of a vault, in the order in which they were added.
#[derive(Debug, PartialEq, Eq)]
pub struct PasswordList {
    pub passwords: Vec<PasswordEntry>,
}

impl View for PasswordList {
    type V = Seq<EntryView>;

    open spec fn view(&self) -> Seq<EntryView> {
        Seq::new(self.passwords@.len(), |i: int| self.passwords@[i]@)
    }
}

impl Clone for PasswordList {
    fn clone(&self) -> (copy: Self)
        ensures
            copy@ == self@,
    {
        let mut passwords: Vec<PasswordEntry> = Vec::new();
        let mut i: usize = 0;
        while i < self.passwords.len()
            invariant
                i <= self.passwords@.len(),
                passwords@.len() == i,
                forall|j: int| 0 <= j < i ==> passwords@[j]@ == self.passwords@[j]@,
            decreases self.passwords@.len() - i,
        {
            passwords.push(self.passwords[i].clone());
            i += 1;
        }
        let copy = PasswordList { passwords };
        assert(copy@ =~= self@);
        copy
    }
}

impl Default for PasswordList {
    fn default() -> (list: Self)
        ensures
            list@ == Seq::<EntryView>::empty(),
    {
        let list = PasswordList { passwords: Vec::new() };
        assert(list@ =~= Seq::<EntryView>::empty());
        list
    }
}

/// The parameters from which a vault's key is derived. `salt` is base64 text.
#[derive(Debug, PartialEq, Eq)]
pub struct Argon2Params {
    pub salt: String,
    pub mem_cost: u32,
    pub time_cost: u32,
    pub parallelism: u32,
}

/// The mathematical value of an [`Argon2Params`].
pub ghost struct KdfView {
    pub salt: Seq<char>,
    pub mem_cost: u32,
    pub time_cost: u32,
    pub parallelism: u32,
}

impl View for Argon2Params {
    type V = KdfView;

    open spec fn view(&self) -> KdfView {
        KdfView {
            salt: self.salt@,
            mem_cost: self.mem_cost,
            time_cost: self.time_cost,
            parallelism: self.parallelism,
        }
    }
}

impl Clone for Argon2Params {
    fn clone(&self) -> (copy: Self)
        ensures
            copy@ == self@,
    {
        Argon2Params {
            salt: self.salt.clone(),
            mem_cost: self.mem_cost,
            time_cost: self.time_cost,
            parallelism: self.parallelism,
        }
    }
}

/// A sealed payload: the nonce it was sealed with and the ciphertext, both as
/// base64 text.
#[derive(Debug, PartialEq, Eq)]
pub struct EncryptionData {
    pub nonce: String,
    pub ciphertext: String,
}

/// The mathematical value of an [`EncryptionData`].
pub ghost struct EnvelopeView {
    pub nonce: Seq<char>,
    pub ciphertext: Seq<char>,
}

impl View for EncryptionData {
    type V = EnvelopeView;

    open spec fn view(&self) -> EnvelopeView {
        EnvelopeView { nonce: self.nonce@, ciphertext: self.ciphertext@ }
    }
}

impl Clone for EncryptionData {
    fn clone(&self) -> (copy: Self)
        ensures
            copy@ == self@,
    {
        EncryptionData { nonce: self.nonce.clone(), ciphertext: self.ciphertext.clone() }
    }
}

impl Default for EncryptionData {
    fn default() -> (envelope: Self)
        ensures
            envelope@ == (EnvelopeView { nonce: Seq::empty(), ciphertext: Seq::empty() }),
    {
        EncryptionData { nonce: String::new(), ciphertext: String::new() }
    }
}

/// A vault as it is persisted: where it lives, how its key is derived, and the
/// sealed entry list. It never holds a key or plaintext.
#[derive(Debug, PartialEq, Eq)]
pub struct Vault {
    pub name: String,
    pub path: String,
    pub version: u8,
    pub argon2: Argon2Params,
    pub encryption: EncryptionData,
}

/// The mathematical value of a [`Vault`].
pub ghost struct VaultView {
    pub name: Seq<char>,
    pub path: Seq<char>,
    pub version: u8,
    pub argon2: KdfView,
    pub encryption: EnvelopeView,
}

impl View for Vault {
    type V = VaultView;

    open spec fn view(&self) -> VaultView {
        VaultView {
            name: self.name@,
            path: self.path@,
            version: self.version,
            argon2: self.argon2@,
            encryption: self.encryption@,
        }
    }
}

impl Clone for Vault {
    fn clone(&self) -> (copy: Self)
        ensures
            copy@ == self@,
    {
        Vault {
            name: self.name.clone(),
            path: self.path.clone(),
            version: self.version,
            argon2: self.argon2.clone(),
            encryption: self.encryption.clone(),
        }
    }
}

/// What a client asks of the agent.
#[derive(Debug, PartialEq, Eq)]
pub enum Request {
    UnlockVault { vault_path: String, master_password: Vec<u8> },
    LockVault,
    ListEntries,
    GetEntry { name: String },
    AddEntry { entry: PasswordEntry },
    RemoveEntry { name: String },
}

/// The mathematical value of a [`Request`].
pub ghost enum RequestView {
    UnlockVault { vault_path: Seq<char>, master_password: Seq<u8> },
    LockVault,
    ListEntries,
    GetEntry { name: Seq<char> },
    AddEntry { entry: EntryView },
    RemoveEntry { name: Seq<char> },
}

impl View for Request {
    type V = RequestView;

    open spec fn view(&self) -> RequestView {
        match self {
            Request::UnlockVault { vault_path, master_password } => RequestView::UnlockVault {
                vault_path: vault_path@,
                master_password: master_password@,
            },
            Request::LockVault => RequestView::LockVault,
            Request::ListEntries => RequestView::ListEntries,
            Request::GetEntry { name } => RequestView::GetEntry { name: name@ },
            Request::AddEntry { entry } => RequestView::AddEntry { entry: entry@ },
            Request::RemoveEntry { name } => RequestView::RemoveEntry { name: name@ },
        }
    }
}

/// What the agent answers.
#[derive(Debug, PartialEq, Eq)]
pub enum Response {
    Success,
    Error(String),
    PasswordEntry { entry: PasswordEntry },
    PasswordList { list: PasswordList },
}

/// The mathematical value of a [`Response`].
pub ghost enum ResponseView {
    Success,
    Error(Seq<char>),
    PasswordEntry { entry: EntryView },
    PasswordList { list: Seq<EntryView> },
}

impl View for Response {
    type V = ResponseView;

    open spec fn view(&self) -> ResponseView {
        match self {
            Response::Success => ResponseView::Success,
            Response::Error(message) => ResponseView::Error(message@),
            Response::PasswordEntry { entry } => ResponseView::PasswordEntry { entry: entry@ },
            Response::PasswordList { list } => ResponseView::PasswordList { list: list@ },
        }
    }
}

} // verus!
