//! The cryptographic envelope: key derivation with Argon2id, and sealing and
//! opening of the vault's payload with AES-256-GCM.

use crate::codec::{base64_bytes, base64_decode, base64_encode, base64_text, encodable};
use crate::errors::{ErrorView, VaultError};
use crate::models::{EnvelopeView, KdfView, Vault, VaultView};
use crate::random::random_bytes;
use aes_gcm::aead::Aead;
use aes_gcm::{Aes256Gcm, KeyInit};
use argon2::{Algorithm, Argon2, Params, Version};
use vstd::prelude::*;

verus! {

/// Length in bytes of a vault key.
pub const KEY_LEN: usize = 32;

/// Length in bytes of the nonce of one sealing.
pub const NONCE_LEN: usize = 12;

/// Length in bytes of a vault's salt.
pub const SALT_LEN: usize = 32;

/// Length in bytes of the authentication tag that follows the ciphertext.
pub const TAG_LEN: usize = 16;

/// The longest plaintext that AES-GCM seals under one nonce.
pub const MAX_PLAINTEXT_LEN: u64 = 0x10_0000_0000;

/// The longest password that Argon2 takes.
pub const MAX_PASSWORD_LEN: usize = 0xFFFF_FFFF;

/// The largest degree of parallelism that Argon2 takes.
pub const MAX_PARALLELISM: u32 = 0xFF_FFFF;

/// The error of aes-gcm's `Aead` calls, carried through unopened.
#[verifier::external_type_specification]
#[verifier::external_body]
pub struct ExAeadError(aes_gcm::aead::Error);

/// The error of argon2's calls, carried through unopened.
#[verifier::external_type_specification]
#[verifier::external_body]
pub struct ExArgon2Error(argon2::Error);

/// The Argon2id (version 1.3) hash of `password`, 32 bytes long, under `salt`
/// and the three cost parameters.
pub uninterp spec fn argon2id_key(
    password: Seq<u8>,
    salt: Seq<u8>,
    mem_cost: u32,
    time_cost: u32,
    parallelism: u32,
) -> Seq<u8>;

/// What AES-256-GCM makes of `plaintext` under `key` and `nonce`, without
/// associated data: the ciphertext followed by the tag.
pub uninterp spec fn aes_gcm_seal(key: Seq<u8>, nonce: Seq<u8>, plaintext: Seq<u8>) -> Seq<u8>;

/// The plaintext that AES-256-GCM recovers from `sealed` under `key` and
/// `nonce`, or `None` where the tag does not verify.
pub uninterp spec fn aes_gcm_open(key: Seq<u8>, nonce: Seq<u8>, sealed: Seq<u8>) -> Option<Seq<u8>>;

/// The cost parameters that Argon2 accepts and this machine can address: the
/// memory cost counts blocks of 1 KiB.
pub open spec fn costs_accepted(mem_cost: u32, time_cost: u32, parallelism: u32) -> bool {
    &&& 1 <= parallelism <= MAX_PARALLELISM
    &&& mem_cost >= 8
    &&& mem_cost >= 8 * parallelism
    &&& mem_cost * 1024 <= isize::MAX
    &&& time_cost >= 1
}

/// Whether a plaintext of `len` bytes can be sealed and stored as text.
pub open spec fn sealable(len: nat) -> bool {
    &&& len <= MAX_PLAINTEXT_LEN
    &&& len + TAG_LEN <= usize::MAX
    &&& encodable(len + TAG_LEN as nat)
}

/// `Params::new`, `Argon2::new` with `Algorithm::Argon2id` and
/// `Version::V0x13`, and `Argon2::hash_password_into` of argon2, on a buffer of
/// 32 bytes. Trusted: with accepted costs, a salt of 8 bytes or more and
/// lengths that fit in 32 bits none of the three fails, and the buffer then
/// holds the Argon2id hash. `Params::new` multiplies the parallelism by 8 in
/// `u32`, which overflows above the accepted range, and the hasher allocates
/// the memory cost in blocks of 1 KiB, which must stay within `isize::MAX`
/// bytes; `requires` leaves both out.
#[verifier::external_body]
pub(crate) fn argon2id_hash(
    password: &[u8],
    salt: &[u8],
    mem_cost: u32,
    time_cost: u32,
    parallelism: u32,
) -> (key: Result<[u8; 32], argon2::Error>)
    requires
        costs_accepted(mem_cost, time_cost, parallelism),
        8 <= salt@.len() <= 0xFFFF_FFFF,
        password@.len() <= MAX_PASSWORD_LEN,
    ensures
        key is Ok,
        key matches Ok(k) ==> k@ == argon2id_key(password@, salt@, mem_cost, time_cost, parallelism),
{
    let mut key: [u8; 32] = [0u8; 32];
    let params = Params::new(mem_cost, time_cost, parallelism, Some(key.len()))?;
    let hasher = Argon2::new(Algorithm::Argon2id, Version::V0x13, params);
    hasher.hash_password_into(password, salt, &mut key)?;
    Ok(key)
}

/// `Aead::encrypt` of aes-gcm's `Aes256Gcm`, made with `KeyInit::new`. Trusted:
/// it fails exactly when the plaintext is longer than 2^36 bytes; otherwise the
/// result is the ciphertext with the 16-byte tag behind it, and opening it
/// under the same key and nonce gives the plaintext back. The conversions of
/// key and nonce panic on other lengths than 32 and 12, and the buffer's size
/// is computed in `usize`; `requires` leaves those inputs out.
#[verifier::external_body]
pub(crate) fn aes_seal(key: &[u8], nonce: &[u8], plaintext: &[u8]) -> (sealed: Result<
    Vec<u8>,
    aes_gcm::aead::Error,
>)
    requires
        key@.len() == KEY_LEN,
        nonce@.len() == NONCE_LEN,
        plaintext@.len() + TAG_LEN <= usize::MAX,
    ensures
        sealed is Ok <==> plaintext@.len() <= MAX_PLAINTEXT_LEN,
        sealed matches Ok(bytes) ==> {
            &&& bytes@ == aes_gcm_seal(key@, nonce@, plaintext@)
            &&& bytes@.len() == plaintext@.len() + TAG_LEN
            &&& aes_gcm_open(key@, nonce@, bytes@) == Some(plaintext@)
        },
{
    Aes256Gcm::new(key.into()).encrypt(nonce.into(), plaintext)
}

/// `Aead::decrypt` of aes-gcm's `Aes256Gcm`, made with `KeyInit::new`. Trusted:
/// it returns the plaintext where the tag verifies and fails otherwise. The
/// conversions of key and nonce panic on other lengths than 32 and 12;
/// `requires` leaves those out.
#[verifier::external_body]
pub(crate) fn aes_open(key: &[u8], nonce: &[u8], sealed: &[u8]) -> (plaintext: Result<
    Vec<u8>,
    aes_gcm::aead::Error,
>)
    requires
        key@.len() == KEY_LEN,
        nonce@.len() == NONCE_LEN,
    ensures
        plaintext is Ok <==> aes_gcm_open(key@, nonce@, sealed@) is Some,
        plaintext matches Ok(bytes) ==> aes_gcm_open(key@, nonce@, sealed@) == Some(bytes@),
{
    Aes256Gcm::new(key.into()).decrypt(nonce.into(), sealed)
}

impl KdfView {
    /// The key that these parameters derive from `password`, or `None` where
    /// they are malformed: a salt that is not base64 text of 32 bytes, costs
    /// that are not accepted, or a password too long for Argon2.
    pub open spec fn derived_key(self, password: Seq<u8>) -> Option<Seq<u8>> {
        match base64_bytes(self.salt) {
            Some(salt) => if salt.len() == SALT_LEN && costs_accepted(
                self.mem_cost,
                self.time_cost,
                self.parallelism,
            ) && password.len() <= MAX_PASSWORD_LEN {
                Some(argon2id_key(password, salt, self.mem_cost, self.time_cost, self.parallelism))
            } else {
                None
            },
            None => None,
        }
    }
}

impl EnvelopeView {
    /// The envelope that holds `plaintext` sealed under `key` and `nonce`.
    pub open spec fn sealing(key: Seq<u8>, nonce: Seq<u8>, plaintext: Seq<u8>) -> EnvelopeView {
        EnvelopeView {
            nonce: base64_text(nonce),
            ciphertext: base64_text(aes_gcm_seal(key, nonce, plaintext)),
        }
    }

    /// Whether the nonce is base64 text of 12 bytes and the ciphertext base64
    /// text of a sealed plaintext of `len` bytes: that many bytes and the tag.
    pub open spec fn holds_sealed(self, len: nat) -> bool {
        &&& base64_bytes(self.nonce) matches Some(nonce) && nonce.len() == NONCE_LEN
        &&& base64_bytes(self.ciphertext) matches Some(sealed) && sealed.len() == len + TAG_LEN
    }

    /// The plaintext that `key` opens this envelope to, or `None` where a
    /// field is not base64 text, the nonce is not 12 bytes long, or the tag
    /// does not verify.
    pub open spec fn opened(self, key: Seq<u8>) -> Option<Seq<u8>> {
        match (base64_bytes(self.nonce), base64_bytes(self.ciphertext)) {
            (Some(nonce), Some(sealed)) => if nonce.len() == NONCE_LEN {
                aes_gcm_open(key, nonce, sealed)
            } else {
                None
            },
            _ => None,
        }
    }
}

impl VaultView {
    /// This vault with another envelope.
    pub open spec fn with_envelope(self, envelope: EnvelopeView) -> VaultView {
        VaultView { encryption: envelope, ..self }
    }

    /// Whether this vault is `before` with `plaintext` sealed anew under `key`
    /// and some nonce of the right length.
    pub open spec fn reseals(self, before: VaultView, key: Seq<u8>, plaintext: Seq<u8>) -> bool {
        exists|nonce: Seq<u8>|
            nonce.len() == NONCE_LEN && self == before.with_envelope(
                #[trigger] EnvelopeView::sealing(key, nonce, plaintext),
            )
    }
}

impl Vault {
    /// Derives the vault's key from the master password with the stored
    /// parameters. The key depends on nothing but those parameters and the
    /// password, so repeated calls agree.
    pub fn derive_vault_key(&self, master_password: &[u8]) -> (key: Result<[u8; 32], VaultError>)
        ensures
            match self@.argon2.derived_key(master_password@) {
                Some(expected) => key matches Ok(k) && k@ == expected,
                None => key matches Err(e) && e@ == ErrorView::KeyDerivation,
            },
    {
        let params = &self.argon2;
        let salt = match base64_decode(params.salt.as_str()) {
            Ok(salt) => salt,
            Err(_) => {
                return Err(VaultError::KeyDerivation);
            },
        };
        if salt.len() != SALT_LEN || master_password.len() > MAX_PASSWORD_LEN {
            return Err(VaultError::KeyDerivation);
        }
        if params.parallelism < 1 || params.parallelism > MAX_PARALLELISM || params.time_cost < 1 {
            return Err(VaultError::KeyDerivation);
        }
        if params.mem_cost < 8 || params.mem_cost < 8 * params.parallelism {
            return Err(VaultError::KeyDerivation);
        }
        if params.mem_cost as u64 * 1024 > isize::MAX as u64 {
            return Err(VaultError::KeyDerivation);
        }
        match argon2id_hash(
            master_password,
            salt.as_slice(),
            params.mem_cost,
            params.time_cost,
            params.parallelism,
        ) {
            Ok(key) => Ok(key),
            Err(_) => Err(VaultError::KeyDerivation),
        }
    }

    /// Seals `plaintext` under `vault_key` and the given nonce and stores the
    /// result in the envelope. Opening the new envelope with the same key gives
    /// `plaintext` back. A nonce must never be used twice under one key:
    /// [`Vault::encrypt_data`] draws a fresh one.
    pub fn encrypt_with_nonce(&mut self, vault_key: &[u8], nonce: &[u8], plaintext: &[u8]) -> (done:
        Result<(), VaultError>)
        requires
            vault_key@.len() == KEY_LEN,
            nonce@.len() == NONCE_LEN,
        ensures
            sealable(plaintext@.len()) ==> {
                &&& done is Ok
                &&& final(self)@ == old(self)@.with_envelope(
                    EnvelopeView::sealing(vault_key@, nonce@, plaintext@),
                )
                &&& base64_bytes(final(self)@.encryption.nonce) == Some(nonce@)
                &&& base64_bytes(final(self)@.encryption.ciphertext) == Some(
                    aes_gcm_seal(vault_key@, nonce@, plaintext@),
                )
                &&& aes_gcm_seal(vault_key@, nonce@, plaintext@).len() == plaintext@.len()
                    + TAG_LEN
                &&& final(self)@.encryption.opened(vault_key@) == Some(plaintext@)
            },
            !sealable(plaintext@.len()) ==> {
                &&& done matches Err(e) && e@ == ErrorView::Encryption
                &&& final(self)@ == old(self)@
            },
    {
        if plaintext.len() as u64 > MAX_PLAINTEXT_LEN || plaintext.len() > usize::MAX - TAG_LEN {
            return Err(VaultError::Encryption);
        }
        if (plaintext.len() + TAG_LEN) / 3 > (usize::MAX - 4) / 4 {
            return Err(VaultError::Encryption);
        }
        match aes_seal(vault_key, nonce, plaintext) {
            Ok(sealed) => {
                self.encryption.nonce = base64_encode(nonce);
                self.encryption.ciphertext = base64_encode(sealed.as_slice());
                Ok(())
            },
            Err(_) => Err(VaultError::Encryption),
        }
    }

    /// Seals `plaintext` under `vault_key` and a freshly drawn nonce and stores
    /// the result in the envelope. It fails, and leaves the vault as it was,
    /// where the plaintext cannot be sealed or no random bytes can be had.
    pub fn encrypt_data(&mut self, vault_key: &[u8], plaintext: &[u8]) -> (done: Result<
        (),
        VaultError,
    >)
        requires
            vault_key@.len() == KEY_LEN,
        ensures
            done is Ok ==> {
                &&& sealable(plaintext@.len())
                &&& final(self)@.reseals(old(self)@, vault_key@, plaintext@)
                &&& final(self)@.encryption.holds_sealed(plaintext@.len())
                &&& final(self)@.encryption.opened(vault_key@) == Some(plaintext@)
            },
            done matches Err(e) ==> e@ == ErrorView::Encryption && final(self)@ == old(self)@,
            !sealable(plaintext@.len()) ==> done is Err,
    {
        match random_bytes(NONCE_LEN) {
            Ok(nonce) => self.encrypt_with_nonce(vault_key, nonce.as_slice(), plaintext),
            Err(_) => Err(VaultError::Encryption),
        }
    }

    /// Opens the envelope with `vault_key`. Every failure is reported as
    /// [`VaultError::Authentication`]: a wrong key and an altered or damaged
    /// envelope are not told apart.
    pub fn decrypt_data(&self, vault_key: &[u8]) -> (plaintext: Result<Vec<u8>, VaultError>)
        requires
            vault_key@.len() == KEY_LEN,
        ensures
            match self@.encryption.opened(vault_key@) {
                Some(expected) => plaintext matches Ok(bytes) && bytes@ == expected,
                None => plaintext matches Err(e) && e@ == ErrorView::Authentication,
            },
    {
        let nonce = match base64_decode(self.encryption.nonce.as_str()) {
            Ok(nonce) => nonce,
            Err(_) => {
                return Err(VaultError::Authentication);
            },
        };
        let sealed = match base64_decode(self.encryption.ciphertext.as_str()) {
            Ok(sealed) => sealed,
            Err(_) => {
                return Err(VaultError::Authentication);
            },
        };
        if nonce.len() != NONCE_LEN {
            return Err(VaultError::Authentication);
        }
        match aes_open(vault_key, nonce.as_slice(), sealed.as_slice()) {
            Ok(plaintext) => Ok(plaintext),
            Err(_) => Err(VaultError::Authentication),
        }
    }
}

/// Key determinism. The derived key depends on the derivation parameters
/// and the password alone: two vaults with the same parameters derive the same
/// key from the same password, whatever else they hold.
pub proof fn same_parameters_same_key(first: VaultView, second: VaultView, password: Seq<u8>)
    requires
        first.argon2 == second.argon2,
    ensures
        first.argon2.derived_key(password) == second.argon2.derived_key(password),
{
}

/// Tamper detection, as far as it holds without exception. An envelope whose
/// stored nonce is not 12 bytes long, or whose tag does not verify under the
/// stored nonce, opens to nothing: [`Vault::decrypt_data`] then reports an
/// authentication error and returns no plaintext.
pub proof fn altered_envelope_is_refused(
    envelope: EnvelopeView,
    key: Seq<u8>,
    nonce: Seq<u8>,
    sealed: Seq<u8>,
)
    requires
        base64_bytes(envelope.nonce) == Some(nonce),
        base64_bytes(envelope.ciphertext) == Some(sealed),
        nonce.len() != NONCE_LEN || aes_gcm_open(key, nonce, sealed) is None,
    ensures
        envelope.opened(key) is None,
{
}

/// An envelope opens to nothing but what AES-GCM recovers from the stored
/// ciphertext under the stored nonce.
pub proof fn envelope_opens_to_what_was_sealed(envelope: EnvelopeView, key: Seq<u8>)
    requires
        envelope.opened(key) is Some,
    ensures
        ({
            &&& base64_bytes(envelope.nonce) matches Some(nonce)
            &&& base64_bytes(envelope.ciphertext) matches Some(sealed)
            &&& nonce.len() == NONCE_LEN
            &&& aes_gcm_open(key, nonce, sealed) == envelope.opened(key)
        }),
{
}

} // verus!
