use vpassword::client::{
    generate_password, prompt_text, AppConfig, Cli, Commands, PasswordPolicy, Report, SecretSource,
};
use vpassword::models::{PasswordEntry, PasswordList, Request, Response};

fn path() -> String {
    "/tmp/t.vault".to_string()
}

fn add() -> Commands {
    Commands::Add { name: "mail".to_string(), username: "u".to_string() }
}

fn generate() -> Commands {
    Commands::Generate { name: "mail".to_string(), username: "u".to_string() }
}

fn show() -> Commands {
    Commands::Show { name: "mail".to_string() }
}

fn remove() -> Commands {
    Commands::Remove { name: "mail".to_string() }
}

fn out(lines: &[&str]) -> Report {
    Report { lines: lines.iter().map(|l| l.to_string()).collect(), to_stderr: false }
}

fn err(line: &str) -> Report {
    Report { lines: vec![line.to_string()], to_stderr: true }
}

#[test]
fn commands_say_where_their_secret_comes_from() {
    assert_eq!(Commands::Init { vault_path: path() }.secret_source(), SecretSource::MasterPassword);
    assert_eq!(Commands::Open { vault_path: path() }.secret_source(), SecretSource::MasterPassword);
    assert_eq!(add().secret_source(), SecretSource::EntryPassword);
    assert_eq!(generate().secret_source(), SecretSource::Generated);
    assert_eq!(Commands::Close.secret_source(), SecretSource::Nothing);
    assert_eq!(Commands::List.secret_source(), SecretSource::Nothing);
    assert_eq!(show().secret_source(), SecretSource::Nothing);
    assert_eq!(remove().secret_source(), SecretSource::Nothing);
}

#[test]
fn prompts_ask_for_the_right_secret() {
    assert_eq!(prompt_text(SecretSource::MasterPassword), Some("Your master password: ".to_string()));
    assert_eq!(prompt_text(SecretSource::EntryPassword), Some("Your password: ".to_string()));
    assert_eq!(prompt_text(SecretSource::Generated), None);
    assert_eq!(prompt_text(SecretSource::Nothing), None);
}

#[test]
fn each_command_becomes_its_request() {
    assert_eq!(Commands::Init { vault_path: path() }.request("pw"), None);
    assert_eq!(
        Commands::Open { vault_path: path() }.request("p\u{e9}"),
        Some(Request::UnlockVault { vault_path: path(), master_password: vec![b'p', 0xc3, 0xa9] })
    );
    assert_eq!(Commands::Close.request(""), Some(Request::LockVault));
    assert_eq!(
        add().request("s1"),
        Some(Request::AddEntry { entry: PasswordEntry::new("mail", "u", "s1") })
    );
    assert_eq!(
        generate().request("Gen3rated!"),
        Some(Request::AddEntry { entry: PasswordEntry::new("mail", "u", "Gen3rated!") })
    );
    assert_eq!(show().request(""), Some(Request::GetEntry { name: "mail".to_string() }));
    assert_eq!(Commands::List.request(""), Some(Request::ListEntries));
    assert_eq!(remove().request(""), Some(Request::RemoveEntry { name: "mail".to_string() }));
}

#[test]
fn success_is_reported_per_command() {
    let ok = Response::Success;
    assert_eq!(Commands::Open { vault_path: path() }.report("pw", &ok), out(&["Vault is Opened!"]));
    assert_eq!(Commands::Close.report("", &ok), out(&["Vault sucessfully closed!"]));
    assert_eq!(
        add().report("s1", &ok),
        out(&["Entry mail with user: u and password: s1 added to vault!"])
    );
    assert_eq!(
        generate().report("Gen3rated!", &ok),
        out(&["Entry mail with user: u and password: Gen3rated! added to vault!"])
    );
    assert_eq!(remove().report("", &ok), out(&["Sucessfully Removed Entry."]));
}

#[test]
fn errors_are_reported_per_command() {
    let failed = Response::Error("boom".to_string());
    assert_eq!(Commands::Open { vault_path: path() }.report("pw", &failed), out(&["Problem Openning Vault: boom"]));
    assert_eq!(Commands::Close.report("", &failed), out(&["Problem closing Vault: boom"]));
    assert_eq!(add().report("s1", &failed), out(&["Error trying to add entry: boom"]));
    assert_eq!(generate().report("s1", &failed), out(&["Error trying to add entry: boom"]));
    assert_eq!(show().report("", &failed), err("Error: boom"));
    assert_eq!(Commands::List.report("", &failed), err("Error: boom"));
    assert_eq!(remove().report("", &failed), err("Error: boom"));
}

#[test]
fn entries_are_shown_on_three_lines() {
    let mail = PasswordEntry::new("mail", "u", "s1");
    let bank = PasswordEntry::new("bank", "v", "s2");
    assert_eq!(
        show().report("", &Response::PasswordEntry { entry: mail.clone() }),
        out(&["Entry found:\nName: mail\nUsername: u\nPassword: s1"])
    );
    assert_eq!(
        Commands::List.report("", &Response::PasswordList { list: PasswordList { passwords: vec![mail, bank] } }),
        out(&["Name: mail\nUsername: u\nPassword: s1", "Name: bank\nUsername: v\nPassword: s2"])
    );
    assert_eq!(
        Commands::List.report("", &Response::PasswordList { list: PasswordList::default() }),
        out(&[])
    );
}

#[test]
fn answers_of_the_wrong_kind_are_unexpected() {
    let list = Response::PasswordList { list: PasswordList::default() };
    let entry = Response::PasswordEntry { entry: PasswordEntry::new("a", "u", "p") };
    let unexpected = err("Unexpected response type.");
    assert_eq!(Commands::Open { vault_path: path() }.report("", &list), unexpected);
    assert_eq!(Commands::Close.report("", &entry), unexpected);
    assert_eq!(add().report("", &list), unexpected);
    assert_eq!(generate().report("", &entry), unexpected);
    assert_eq!(show().report("", &Response::Success), unexpected);
    assert_eq!(show().report("", &list), unexpected);
    assert_eq!(Commands::List.report("", &Response::Success), unexpected);
    assert_eq!(Commands::List.report("", &entry), unexpected);
    assert_eq!(remove().report("", &list), unexpected);
    assert_eq!(Commands::Init { vault_path: path() }.report("", &Response::Success), unexpected);
}

#[test]
fn standard_policy_generates_fifteen_mixed_characters() {
    let policy = PasswordPolicy::standard();
    assert_eq!(policy.length, 15);
    assert!(policy.strict && policy.numbers && policy.lowercase_letters);
    assert!(policy.uppercase_letters && policy.symbols && !policy.spaces);
    let first = generate_password(&policy).unwrap();
    let second = generate_password(&policy).unwrap();
    for password in [&first, &second] {
        assert_eq!(password.chars().count(), 15);
        assert!(password.chars().any(|c| c.is_ascii_digit()));
        assert!(password.chars().any(|c| c.is_ascii_lowercase()));
        assert!(password.chars().any(|c| c.is_ascii_uppercase()));
        assert!(password.chars().any(|c| c.is_ascii_punctuation()));
        assert!(!password.contains(' '));
    }
    assert_ne!(first, second);
}

#[test]
fn unacceptable_policies_generate_nothing() {
    let standard = PasswordPolicy::standard();
    assert_eq!(generate_password(&PasswordPolicy { length: 0, ..standard }), None);
    assert_eq!(generate_password(&PasswordPolicy { length: 3, ..standard }), None);
    assert_eq!(generate_password(&PasswordPolicy { length: 4, ..standard }).unwrap().len(), 4);
    assert_eq!(generate_password(&PasswordPolicy { length: 3, strict: false, ..standard }).unwrap().len(), 3);
    let nothing = PasswordPolicy {
        numbers: false,
        lowercase_letters: false,
        uppercase_letters: false,
        symbols: false,
        ..standard
    };
    assert_eq!(generate_password(&nothing), None);
    assert_eq!(generate_password(&PasswordPolicy { spaces: true, strict: false, ..nothing }), Some(" ".repeat(15)));
}

#[test]
fn config_starts_without_a_last_vault() {
    assert_eq!(AppConfig::default(), AppConfig { last_opened: None });
    let cli = Cli { command: Commands::List };
    assert_eq!(cli.command, Commands::List);
}

#[test]
fn standard_policy_is_fixed_in_every_field() {
    assert_eq!(
        PasswordPolicy::standard(),
        PasswordPolicy {
            length: 15,
            numbers: true,
            lowercase_letters: true,
            uppercase_letters: true,
            symbols: true,
            spaces: false,
            exclude_similar_characters: false,
            strict: true,
        }
    );
}

#[test]
fn generated_characters_come_from_the_kinds_switched_on() {
    let standard = PasswordPolicy::standard();
    let digits = PasswordPolicy {
        lowercase_letters: false,
        uppercase_letters: false,
        symbols: false,
        ..standard
    };
    assert!(generate_password(&digits).unwrap().chars().all(|c| c.is_ascii_digit()));
    let letters = PasswordPolicy { numbers: false, symbols: false, length: 40, ..standard };
    let text = generate_password(&letters).unwrap();
    assert_eq!(text.chars().count(), 40);
    assert!(text.chars().all(|c| c.is_ascii_alphabetic()));
    assert!(text.chars().any(|c| c.is_ascii_lowercase()));
    assert!(text.chars().any(|c| c.is_ascii_uppercase()));
    let spaced = PasswordPolicy { spaces: true, length: 30, ..standard };
    let text = generate_password(&spaced).unwrap();
    assert!(text.contains(' '));
    assert!(text.chars().all(|c| c == ' ' || c.is_ascii_graphic()));
}
