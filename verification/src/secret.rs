//! Overwriting secrets once they are no longer needed.

use crate::models::{EntryView, PasswordEntry, PasswordList, Request, RequestView};
use vstd::prelude::*;
use zeroize::Zeroize;

verus! {

/// `Zeroize::zeroize` of zeroize on a `Vec<u8>`. Trusted: it overwrites the
/// bytes with zeros and leaves the vector empty.
#[verifier::external_body]
pub(crate) fn wipe_bytes(bytes: &mut Vec<u8>)
    ensures
        final(bytes)@.len() == 0,
{
    bytes.zeroize();
}

/// `Zeroize::zeroize` of zeroize on a `String`. Trusted: it overwrites the
/// text with zeros and leaves the string empty.
#[verifier::external_body]
pub(crate) fn wipe_text(text: &mut String)
    ensures
        final(text)@.len() == 0,
{
    text.zeroize();
}

impl PasswordEntry {
    /// Overwrites the entry's three texts and leaves them empty.
    pub fn wipe(&mut self)
        ensures
            final(self)@ == (EntryView {
                name: Seq::empty(),
                username: Seq::empty(),
                password: Seq::empty(),
            }),
    {
        wipe_text(&mut self.name);
        wipe_text(&mut self.username);
        wipe_text(&mut self.password);
        assert(self.name@ =~= Seq::empty());
        assert(self.username@ =~= Seq::empty());
        assert(self.password@ =~= Seq::empty());
    }
}

impl RequestView {
    /// The request with its secrets gone: no master password, an empty entry.
    pub open spec fn wiped(self) -> RequestView {
        match self {
            RequestView::UnlockVault { vault_path, .. } => RequestView::UnlockVault {
                vault_path,
                master_password: Seq::empty(),
            },
            RequestView::AddEntry { .. } => RequestView::AddEntry {
                entry: EntryView {
                    name: Seq::empty(),
                    username: Seq::empty(),
                    password: Seq::empty(),
                },
            },
            _ => self,
        }
    }
}

impl Request {
    /// Overwrites the secrets that the request carries: the master password of
    /// an unlock, the entry of an add.
    pub fn wipe(&mut self)
        ensures
            final(self)@ == old(self)@.wiped(),
    {
        match self {
            Request::UnlockVault { master_password, .. } => {
                wipe_bytes(master_password);
                assert(master_password@ =~= Seq::empty());
            },
            Request::AddEntry { entry } => {
                entry.wipe();
            },
            _ => {},
        }
    }
}

impl PasswordList {
    /// Overwrites every entry and leaves the list empty.
    pub fn wipe(&mut self)
        ensures
            final(self)@ == Seq::<EntryView>::empty(),
    {
        while self.passwords.len() > 0
            decreases self.passwords@.len(),
        {
            match self.passwords.pop() {
                Some(mut entry) => entry.wipe(),
                None => {},
            }
        }
        assert(self@ =~= Seq::<EntryView>::empty());
    }
}

} // verus!
