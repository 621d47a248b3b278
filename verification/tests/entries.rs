use vpassword::errors::VaultError;
use vpassword::models::{PasswordEntry, PasswordList, Vault};
use vpassword::payload::{entries_from_members, entry_from_fields, field_text, last_keyed, members_from_entries};

const KEY: [u8; 32] = [0x42u8; 32];

fn entry(name: &str) -> PasswordEntry {
    PasswordEntry::new(name, &format!("{name}-user"), &format!("{name}-pass"))
}

fn list_of(names: &[&str]) -> PasswordList {
    PasswordList { passwords: names.iter().map(|n| entry(n)).collect() }
}

fn names(list: &PasswordList) -> Vec<String> {
    list.passwords.iter().map(|e| e.name.clone()).collect()
}

fn pair(key: &str, value: &str) -> (String, String) {
    (key.to_string(), value.to_string())
}

/// A vault that holds the empty payload under `KEY`.
fn empty_vault() -> Vault {
    let mut vault = Vault::with_salt("t", "/tmp/t.vault", &[7u8; 32]);
    vault.encrypt_data(&KEY, b"").unwrap();
    vault
}

#[test]
fn new_entry_holds_its_three_texts() {
    let e = PasswordEntry::new("mail", "u", "s1");
    assert_eq!(e.name, "mail");
    assert_eq!(e.username, "u");
    assert_eq!(e.password, "s1");
    assert_eq!(e.clone(), e);
}

#[test]
fn position_is_the_first_match() {
    let mut list = list_of(&["a", "b", "c"]);
    assert_eq!(list.position("a"), Some(0));
    assert_eq!(list.position("c"), Some(2));
    assert_eq!(list.position("d"), None);
    assert_eq!(list.position(""), None);
    assert_eq!(list.position("A"), None);
    list.passwords.push(entry("b"));
    assert_eq!(list.position("b"), Some(1));
    assert_eq!(PasswordList::default().position("a"), None);
}

#[test]
fn add_appends_at_the_end() {
    let mut list = PasswordList::default();
    assert_eq!(list.add(entry("a")), Ok(()));
    assert_eq!(list.add(entry("b")), Ok(()));
    assert_eq!(list, list_of(&["a", "b"]));
}

#[test]
fn second_add_of_a_name_is_a_duplicate_and_changes_nothing() {
    let mut list = list_of(&["x"]);
    assert_eq!(list.add(entry("a")), Ok(()));
    let other = PasswordEntry::new("a", "someone else", "another secret");
    assert_eq!(list.add(other), Err(VaultError::DuplicateEntry("a".to_string())));
    assert_eq!(list, list_of(&["x", "a"]));
    assert_eq!(list.passwords.iter().filter(|e| e.name == "a").count(), 1);
}

#[test]
fn remove_takes_the_entry_out_and_keeps_the_order() {
    let mut list = list_of(&["a", "b", "c"]);
    assert_eq!(list.remove("b"), Ok(entry("b")));
    assert_eq!(list, list_of(&["a", "c"]));
    assert_eq!(list.remove("b"), Err(VaultError::NoSuchEntry("b".to_string())));
    assert_eq!(list, list_of(&["a", "c"]));
}

#[test]
fn removed_entry_is_no_longer_found() {
    let mut list = list_of(&["a", "b"]);
    assert_eq!(list.get("a"), Ok(entry("a")));
    list.remove("a").unwrap();
    assert_eq!(list.get("a"), Err(VaultError::NoSuchEntry("a".to_string())));
    assert_eq!(list.get("b"), Ok(entry("b")));
}

#[test]
fn remove_of_a_repeated_name_takes_the_first_only() {
    let mut list = PasswordList {
        passwords: vec![PasswordEntry::new("a", "1", "1"), PasswordEntry::new("a", "2", "2")],
    };
    assert_eq!(list.remove("a"), Ok(PasswordEntry::new("a", "1", "1")));
    assert_eq!(list.get("a"), Ok(PasswordEntry::new("a", "2", "2")));
}

#[test]
fn wipe_leaves_nothing_behind() {
    let mut e = entry("a");
    e.wipe();
    assert_eq!(e, PasswordEntry::new("", "", ""));
    let mut list = list_of(&["a", "b"]);
    list.wipe();
    assert_eq!(list, PasswordList::default());
}

#[test]
fn payload_of_one_entry_is_indented_json() {
    let list = PasswordList { passwords: vec![PasswordEntry::new("mail", "u", "s1")] };
    let expected = "{\n  \"passwords\": [\n    {\n      \"name\": \"mail\",\n      \"password\": \"s1\",\n      \"username\": \"u\"\n    }\n  ]\n}";
    assert_eq!(list.to_payload(), Ok(expected.to_string()));
}

#[test]
fn payload_of_the_empty_list_is_an_empty_array() {
    assert_eq!(PasswordList::default().to_payload(), Ok("{\n  \"passwords\": []\n}".to_string()));
}

#[test]
fn payload_reads_back_as_written() {
    let list = PasswordList {
        passwords: vec![
            PasswordEntry::new("mail", "u", "s1"),
            PasswordEntry::new("quote\"back\\slash", "tab\tnew\nline", "\u{e9}\u{4e16}\u{1f512}"),
            PasswordEntry::new("", "", ""),
        ],
    };
    let text = list.to_payload().unwrap();
    assert_eq!(PasswordList::from_payload(text.into_bytes()), Ok(list));
}

#[test]
fn payload_of_no_bytes_is_the_empty_list() {
    assert_eq!(PasswordList::from_payload(Vec::new()), Ok(PasswordList::default()));
}

#[test]
fn payload_in_the_order_of_the_fields_is_read() {
    let text = r#"{"passwords":[{"name":"mail","username":"u","password":"s1"}]}"#;
    assert_eq!(
        PasswordList::from_payload(text.as_bytes().to_vec()),
        Ok(PasswordList { passwords: vec![PasswordEntry::new("mail", "u", "s1")] })
    );
}

#[test]
fn payload_with_other_members_is_read_without_them() {
    let text = r#"{"other":[{"k":"v"}],"passwords":[{"name":"a","note":"n","username":"u","password":"p"}]}"#;
    assert_eq!(
        PasswordList::from_payload(text.as_bytes().to_vec()),
        Ok(PasswordList { passwords: vec![PasswordEntry::new("a", "u", "p")] })
    );
}

#[test]
fn unreadable_payload_is_corrupt_data() {
    for text in [
        &b"\xff\xfe"[..],
        b" ",
        b"not json",
        b"[]",
        b"{}",
        b"{\"passwords\": 3}",
        b"{\"passwords\": [3]}",
        b"{\"entries\": []}",
        b"{\"passwords\": [{\"name\": \"a\", \"username\": \"u\"}]}",
        b"{\"passwords\": [{\"name\": \"a\", \"username\": \"u\", \"password\": 1}]}",
        b"{\"passwords\": [{\"name\": \"a\", \"username\": \"u\", \"password\": \"p\"}]} x",
    ] {
        assert_eq!(PasswordList::from_payload(text.to_vec()), Err(VaultError::CorruptData));
    }
}

#[test]
fn last_keyed_is_the_last_match() {
    let pairs = vec![pair("a", "1"), pair("b", "2"), pair("a", "3")];
    assert_eq!(last_keyed(&pairs, "a"), Some(2));
    assert_eq!(last_keyed(&pairs, "b"), Some(1));
    assert_eq!(last_keyed(&pairs, "c"), None);
    assert_eq!(last_keyed(&Vec::<(String, String)>::new(), "a"), None);
    assert_eq!(field_text(&pairs, "a"), Some("3".to_string()));
    assert_eq!(field_text(&pairs, "c"), None);
}

#[test]
fn entry_from_fields_needs_all_three_members() {
    let full = vec![pair("password", "p"), pair("extra", "x"), pair("name", "n"), pair("username", "u")];
    assert_eq!(entry_from_fields(&full), Some(PasswordEntry::new("n", "u", "p")));
    assert_eq!(entry_from_fields(&full[1..].to_vec()), None);
    assert_eq!(entry_from_fields(&vec![pair("name", "n"), pair("password", "p")]), None);
    assert_eq!(entry_from_fields(&vec![pair("username", "u"), pair("password", "p")]), None);
    assert_eq!(entry_from_fields(&Vec::new()), None);
}

#[test]
fn members_and_entries_convert_both_ways() {
    let list = list_of(&["a", "b"]);
    let members = members_from_entries(&list);
    assert_eq!(members.len(), 1);
    assert_eq!(members[0].0, "passwords");
    assert_eq!(
        members[0].1,
        vec![
            vec![pair("name", "a"), pair("username", "a-user"), pair("password", "a-pass")],
            vec![pair("name", "b"), pair("username", "b-user"), pair("password", "b-pass")],
        ]
    );
    assert_eq!(entries_from_members(&members), Some(list));
    assert_eq!(entries_from_members(&Vec::new()), None);
    assert_eq!(entries_from_members(&vec![("passwords".to_string(), Vec::new())]), Some(PasswordList::default()));
    assert_eq!(entries_from_members(&vec![("passwords".to_string(), vec![vec![pair("name", "a")]])]), None);
}

#[test]
fn vault_lists_what_was_added() {
    let mut vault = empty_vault();
    assert_eq!(vault.list(&KEY), Ok(PasswordList::default()));
    assert_eq!(vault.add_entry(&KEY, entry("a")), Ok(()));
    assert_eq!(vault.add_entry(&KEY, entry("b")), Ok(()));
    assert_eq!(vault.list(&KEY), Ok(list_of(&["a", "b"])));
    assert_eq!(vault.get_entry(&KEY, "b"), Ok(entry("b")));
    assert_eq!(vault.get_entry(&KEY, "c"), Err(VaultError::NoSuchEntry("c".to_string())));
}

#[test]
fn vault_refuses_a_second_entry_of_a_name() {
    let mut vault = empty_vault();
    assert_eq!(vault.add_entry(&KEY, entry("a")), Ok(()));
    let sealed = vault.clone();
    assert_eq!(
        vault.add_entry(&KEY, PasswordEntry::new("a", "x", "y")),
        Err(VaultError::DuplicateEntry("a".to_string()))
    );
    assert_eq!(vault, sealed);
    assert_eq!(names(&vault.list(&KEY).unwrap()), vec!["a".to_string()]);
    assert_eq!(vault.get_entry(&KEY, "a"), Ok(entry("a")));
}

#[test]
fn vault_no_longer_finds_a_removed_entry() {
    let mut vault = empty_vault();
    vault.add_entry(&KEY, entry("a")).unwrap();
    vault.add_entry(&KEY, entry("b")).unwrap();
    assert_eq!(vault.remove_entry(&KEY, "a"), Ok(()));
    assert_eq!(vault.get_entry(&KEY, "a"), Err(VaultError::NoSuchEntry("a".to_string())));
    assert_eq!(vault.list(&KEY), Ok(list_of(&["b"])));
    let sealed = vault.clone();
    assert_eq!(vault.remove_entry(&KEY, "a"), Err(VaultError::NoSuchEntry("a".to_string())));
    assert_eq!(vault, sealed);
}

#[test]
fn every_change_reseals_under_a_new_nonce() {
    let mut vault = empty_vault();
    let first = vault.encryption.clone();
    vault.add_entry(&KEY, entry("a")).unwrap();
    let second = vault.encryption.clone();
    vault.remove_entry(&KEY, "a").unwrap();
    assert_ne!(first.nonce, second.nonce);
    assert_ne!(second.nonce, vault.encryption.nonce);
    assert_ne!(first.ciphertext, second.ciphertext);
    assert_eq!(vault.decrypt_data(&KEY).unwrap(), b"{\n  \"passwords\": []\n}".to_vec());
}

#[test]
fn entry_operations_with_the_wrong_key_fail_authentication() {
    let mut vault = empty_vault();
    vault.add_entry(&KEY, entry("a")).unwrap();
    let sealed = vault.clone();
    let wrong = [0x43u8; 32];
    assert_eq!(vault.list(&wrong), Err(VaultError::Authentication));
    assert_eq!(vault.get_entry(&wrong, "a"), Err(VaultError::Authentication));
    assert_eq!(vault.add_entry(&wrong, entry("b")), Err(VaultError::Authentication));
    assert_eq!(vault.remove_entry(&wrong, "a"), Err(VaultError::Authentication));
    assert_eq!(vault, sealed);
}

#[test]
fn entry_operations_on_a_corrupt_payload_report_corrupt_data() {
    let mut vault = empty_vault();
    vault.encrypt_data(&KEY, b"not json").unwrap();
    let sealed = vault.clone();
    assert_eq!(vault.list(&KEY), Err(VaultError::CorruptData));
    assert_eq!(vault.get_entry(&KEY, "a"), Err(VaultError::CorruptData));
    assert_eq!(vault.add_entry(&KEY, entry("a")), Err(VaultError::CorruptData));
    assert_eq!(vault.remove_entry(&KEY, "a"), Err(VaultError::CorruptData));
    assert_eq!(vault, sealed);
}

#[test]
fn payload_with_a_member_of_another_shape_is_unreadable() {
    for text in [
        &b"{\"passwords\": [], \"count\": 0}"[..],
        b"{\"passwords\": [], \"note\": \"n\"}",
        b"{\"passwords\": [{\"name\": \"a\", \"username\": \"u\", \"password\": \"p\", \"tags\": []}]}",
    ] {
        assert_eq!(PasswordList::from_payload(text.to_vec()), Err(VaultError::CorruptData));
    }
}

#[test]
fn payload_with_a_repeated_member_reads_the_later_one() {
    let text = r#"{"passwords":[{"name":"a","username":"u","password":"p"}],"passwords":[]}"#;
    assert_eq!(PasswordList::from_payload(text.as_bytes().to_vec()), Ok(PasswordList::default()));
    let text = r#"{"passwords":[{"name":"a","name":"b","username":"u","password":"p"}]}"#;
    assert_eq!(
        PasswordList::from_payload(text.as_bytes().to_vec()),
        Ok(PasswordList { passwords: vec![PasswordEntry::new("b", "u", "p")] })
    );
}
