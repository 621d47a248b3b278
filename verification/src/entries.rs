//! The entry store: finding, adding and removing entries of a decrypted list.
//!
//! Names are unique within a list. The operations here keep it so; nothing in
//! the stored format does.

use crate::errors::{ErrorView, VaultError};
use crate::models::{EntryView, PasswordEntry, PasswordList};
use vstd::prelude::*;

verus! {

/// Whether some entry of `entries` is called `name`.
pub open spec fn has_name(entries: Seq<EntryView>, name: Seq<char>) -> bool {
    exists|i: int| 0 <= i < entries.len() && #[trigger] entries[i].name == name
}

/// Whether `at` is the place of the first entry called `name`.
pub open spec fn is_first_named(entries: Seq<EntryView>, name: Seq<char>, at: int) -> bool {
    &&& 0 <= at < entries.len()
    &&& entries[at].name == name
    &&& forall|j: int| 0 <= j < at ==> #[trigger] entries[j].name != name
}

/// The place of the first entry called `name`, where there is one.
pub open spec fn first_named(entries: Seq<EntryView>, name: Seq<char>) -> int {
    choose|at: int| is_first_named(entries, name, at)
}

/// Whether no two entries share a name.
pub open spec fn names_unique(entries: Seq<EntryView>) -> bool {
    forall|i: int, j: int|
        0 <= i < j < entries.len() ==> #[trigger] entries[i].name != #[trigger] entries[j].name
}

/// How many entries are called `name`.
pub open spec fn occurrences(entries: Seq<EntryView>, name: Seq<char>) -> nat
    decreases entries.len(),
{
    if entries.len() == 0 {
        0
    } else {
        occurrences(entries.drop_last(), name) + if entries.last().name == name {
            1nat
        } else {
            0nat
        }
    }
}

/// The list after `entry` was added: refused where its name is taken, else
/// `entry` stands at the end.
pub open spec fn added(entries: Seq<EntryView>, entry: EntryView) -> Result<
    Seq<EntryView>,
    ErrorView,
> {
    if has_name(entries, entry.name) {
        Err(ErrorView::DuplicateEntry(entry.name))
    } else {
        Ok(entries.push(entry))
    }
}

/// The list after the entry called `name` was removed: refused where there is
/// none, else the others stay in their order.
pub open spec fn removed(entries: Seq<EntryView>, name: Seq<char>) -> Result<
    Seq<EntryView>,
    ErrorView,
> {
    if has_name(entries, name) {
        Ok(entries.remove(first_named(entries, name)))
    } else {
        Err(ErrorView::NoSuchEntry(name))
    }
}

/// The entry called `name`, where there is one.
pub open spec fn found(entries: Seq<EntryView>, name: Seq<char>) -> Result<EntryView, ErrorView> {
    if has_name(entries, name) {
        Ok(entries[first_named(entries, name)])
    } else {
        Err(ErrorView::NoSuchEntry(name))
    }
}

/// An entry's name has one first place.
pub proof fn first_named_is_determined(entries: Seq<EntryView>, name: Seq<char>, at: int)
    requires
        is_first_named(entries, name, at),
    ensures
        has_name(entries, name),
        first_named(entries, name) == at,
{
    let chosen = first_named(entries, name);
    assert(is_first_named(entries, name, chosen));
    if chosen < at {
        assert(entries[chosen].name != name);
    }
    if at < chosen {
        assert(entries[at].name != name);
    }
}

/// A name that is present has a first place.
pub proof fn present_name_has_first_place(entries: Seq<EntryView>, name: Seq<char>)
    requires
        has_name(entries, name),
    ensures
        is_first_named(entries, name, first_named(entries, name)),
    decreases entries.len(),
{
    let i = choose|i: int| 0 <= i < entries.len() && #[trigger] entries[i].name == name;
    let front = entries.subrange(0, i);
    if has_name(front, name) {
        present_name_has_first_place(front, name);
        let at = first_named(front, name);
        assert(entries[at] == front[at]);
        assert forall|j: int| 0 <= j < at implies #[trigger] entries[j].name != name by {
            assert(entries[j] == front[j]);
        }
        assert(is_first_named(entries, name, at));
    } else {
        assert forall|j: int| 0 <= j < i implies #[trigger] entries[j].name != name by {
            assert(front[j] == entries[j]);
        }
        assert(is_first_named(entries, name, i));
    }
}

/// A name that no entry has occurs zero times.
pub proof fn absent_name_never_occurs(entries: Seq<EntryView>, name: Seq<char>)
    requires
        !has_name(entries, name),
    ensures
        occurrences(entries, name) == 0,
    decreases entries.len(),
{
    if entries.len() > 0 {
        let rest = entries.drop_last();
        assert forall|i: int| 0 <= i < rest.len() implies #[trigger] rest[i].name != name by {
            assert(rest[i] == entries[i]);
        }
        absent_name_never_occurs(rest, name);
        assert(entries[entries.len() - 1].name != name);
    }
}

/// Entry uniqueness. Once an entry was added, adding another of the same
/// name is refused as a duplicate, and the list holds exactly one entry of that
/// name.
pub proof fn second_add_of_a_name_is_refused(
    entries: Seq<EntryView>,
    first: EntryView,
    second: EntryView,
)
    requires
        added(entries, first) is Ok,
        second.name == first.name,
    ensures
        added(added(entries, first)->Ok_0, second) == Err::<Seq<EntryView>, ErrorView>(
            ErrorView::DuplicateEntry(first.name),
        ),
        occurrences(added(entries, first)->Ok_0, first.name) == 1,
{
    let after = entries.push(first);
    assert(after[entries.len() as int].name == first.name);
    assert(after.drop_last() =~= entries);
    absent_name_never_occurs(entries, first.name);
}

/// Adding keeps names unique.
pub proof fn adding_keeps_names_unique(entries: Seq<EntryView>, entry: EntryView)
    requires
        names_unique(entries),
        added(entries, entry) is Ok,
    ensures
        names_unique(added(entries, entry)->Ok_0),
{
    let after = entries.push(entry);
    assert forall|i: int, j: int| 0 <= i < j < after.len() implies #[trigger] after[i].name
        != #[trigger] after[j].name by {
        if j == entries.len() {
            assert(entries[i].name != entry.name);
        }
    }
}

/// Removing keeps names unique.
pub proof fn removing_keeps_names_unique(entries: Seq<EntryView>, name: Seq<char>)
    requires
        names_unique(entries),
        removed(entries, name) is Ok,
    ensures
        names_unique(removed(entries, name)->Ok_0),
{
    present_name_has_first_place(entries, name);
    let at = first_named(entries, name);
    let after = entries.remove(at);
    assert forall|i: int, j: int| 0 <= i < j < after.len() implies #[trigger] after[i].name
        != #[trigger] after[j].name by {
        let i0 = if i < at { i } else { i + 1 };
        let j0 = if j < at { j } else { j + 1 };
        assert(after[i] == entries[i0]);
        assert(after[j] == entries[j0]);
    }
}

/// Remove-then-get. In a list of unique names, an entry that was removed is
/// no longer found.
pub proof fn removed_name_is_gone(entries: Seq<EntryView>, name: Seq<char>)
    requires
        names_unique(entries),
        removed(entries, name) is Ok,
    ensures
        found(removed(entries, name)->Ok_0, name) == Err::<EntryView, ErrorView>(
            ErrorView::NoSuchEntry(name),
        ),
{
    present_name_has_first_place(entries, name);
    let at = first_named(entries, name);
    let after = entries.remove(at);
    assert forall|i: int| 0 <= i < after.len() implies #[trigger] after[i].name != name by {
        let i0 = if i < at { i } else { i + 1 };
        assert(after[i] == entries[i0]);
        if i0 < at {
            assert(entries[i0].name != entries[at].name);
        } else {
            assert(entries[at].name != entries[i0].name);
        }
    }
}

impl PasswordList {
    /// The place of the first entry called `name`.
    pub fn position(&self, name: &str) -> (at: Option<usize>)
        ensures
            match at {
                Some(i) => is_first_named(self@, name@, i as int),
                None => !has_name(self@, name@),
            },
    {
        let wanted: String = name.to_owned();
        let mut i: usize = 0;
        while i < self.passwords.len()
            invariant
                i <= self.passwords@.len(),
                wanted@ == name@,
                forall|j: int| 0 <= j < i ==> #[trigger] self@[j].name != name@,
            decreases self.passwords@.len() - i,
        {
            if self.passwords[i].name == wanted {
                assert(self@[i as int].name == name@);
                return Some(i);
            }
            i += 1;
        }
        None
    }

    /// Adds `entry` at the end, unless its name is taken. An entry that is
    /// refused is overwritten before it is dropped.
    pub fn add(&mut self, entry: PasswordEntry) -> (done: Result<(), VaultError>)
        ensures
            match added(old(self)@, entry@) {
                Ok(entries) => done is Ok && final(self)@ == entries,
                Err(error) => done matches Err(e) && e@ == error && final(self)@ == old(self)@,
            },
            names_unique(old(self)@) ==> names_unique(final(self)@),
    {
        proof {
            if added(self@, entry@) is Ok && names_unique(self@) {
                adding_keeps_names_unique(self@, entry@);
            }
        }
        match self.position(entry.name.as_str()) {
            Some(_) => {
                let error = VaultError::DuplicateEntry(entry.name.clone());
                let mut refused = entry;
                refused.wipe();
                Err(error)
            },
            None => {
                let ghost before = self@;
                self.passwords.push(entry);
                assert(self@ =~= before.push(entry@));
                Ok(())
            },
        }
    }

    /// Takes the entry called `name` out of the list.
    pub fn remove(&mut self, name: &str) -> (taken: Result<PasswordEntry, VaultError>)
        ensures
            match removed(old(self)@, name@) {
                Ok(entries) => {
                    &&& taken matches Ok(entry)
                    &&& found(old(self)@, name@) == Ok::<EntryView, ErrorView>(entry@)
                    &&& final(self)@ == entries
                },
                Err(error) => taken matches Err(e) && e@ == error && final(self)@ == old(self)@,
            },
            names_unique(old(self)@) ==> names_unique(final(self)@),
    {
        proof {
            if removed(self@, name@) is Ok && names_unique(self@) {
                removing_keeps_names_unique(self@, name@);
            }
        }
        match self.position(name) {
            Some(at) => {
                proof {
                    first_named_is_determined(self@, name@, at as int);
                }
                let ghost before = self@;
                let entry = self.passwords.remove(at);
                assert(self@ =~= before.remove(at as int));
                assert(entry@ == before[at as int]);
                Ok(entry)
            },
            None => Err(VaultError::NoSuchEntry(name.to_owned())),
        }
    }

    /// A copy of the entry called `name`.
    pub fn get(&self, name: &str) -> (entry: Result<PasswordEntry, VaultError>)
        ensures
            match found(self@, name@) {
                Ok(expected) => entry matches Ok(e) && e@ == expected,
                Err(error) => entry matches Err(e) && e@ == error,
            },
    {
        match self.position(name) {
            Some(at) => {
                proof {
                    first_named_is_determined(self@, name@, at as int);
                }
                Ok(self.passwords[at].clone())
            },
            None => Err(VaultError::NoSuchEntry(name.to_owned())),
        }
    }
}

} // verus!
