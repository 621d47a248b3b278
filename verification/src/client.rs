//! The client's side of the conversation: which request a command becomes, and
//! what is shown for the agent's answer.
//!
//! Reading the command line, prompting for a password and talking to the
//! agent are the caller's part.

use crate::models::{EntryView, PasswordEntry, Request, RequestView, Response, ResponseView};
use passwords::PasswordGenerator;
use vstd::prelude::*;
use vstd::string::StringExecFns;
use vstd::utf8::*;

verus! {

/// What the user asks for.
#[derive(Debug, PartialEq, Eq)]
pub enum Commands {
    Init { vault_path: String },
    Open { vault_path: String },
    Close,
    Generate { name: String, username: String },
    Add { name: String, username: String },
    Show { name: String },
    List,
    Remove { name: String },
}

/// The mathematical value of a [`Commands`].
pub ghost enum CommandView {
    Init { vault_path: Seq<char> },
    Open { vault_path: Seq<char> },
    Close,
    Generate { name: Seq<char>, username: Seq<char> },
    Add { name: Seq<char>, username: Seq<char> },
    Show { name: Seq<char> },
    List,
    Remove { name: Seq<char> },
}

impl View for Commands {
    type V = CommandView;

    open spec fn view(&self) -> CommandView {
        match self {
            Commands::Init { vault_path } => CommandView::Init { vault_path: vault_path@ },
            Commands::Open { vault_path } => CommandView::Open { vault_path: vault_path@ },
            Commands::Close => CommandView::Close,
            Commands::Generate { name, username } => CommandView::Generate {
                name: name@,
                username: username@,
            },
            Commands::Add { name, username } => CommandView::Add { name: name@, username: username@ },
            Commands::Show { name } => CommandView::Show { name: name@ },
            Commands::List => CommandView::List,
            Commands::Remove { name } => CommandView::Remove { name: name@ },
        }
    }
}

/// A parsed command line.
#[derive(Debug, PartialEq, Eq)]
pub struct Cli {
    pub command: Commands,
}

/// What the client remembers between runs.
#[derive(Debug, PartialEq, Eq)]
pub struct AppConfig {
    pub last_opened: Option<String>,
}

impl Default for AppConfig {
    fn default() -> (config: Self)
        ensures
            config.last_opened is None,
    {
        AppConfig { last_opened: None }
    }
}

/// Where the secret that a command needs comes from.
#[derive(Debug, Clone, Copy, PartialEq, Eq, Structural)]
pub enum SecretSource {
    /// The command needs no secret.
    Nothing,
    /// The user is asked for the vault's master password.
    MasterPassword,
    /// The user is asked for the password to store.
    EntryPassword,
    /// A password is generated.
    Generated,
}

/// What is shown for an answer: the lines, and whether they go to the error
/// stream.
#[derive(Debug, PartialEq, Eq)]
pub struct Report {
    pub lines: Vec<String>,
    pub to_stderr: bool,
}

/// The mathematical value of a [`Report`].
pub ghost struct ReportView {
    pub lines: Seq<Seq<char>>,
    pub to_stderr: bool,
}

impl View for Report {
    type V = ReportView;

    open spec fn view(&self) -> ReportView {
        ReportView {
            lines: Seq::new(self.lines@.len(), |i: int| self.lines@[i]@),
            to_stderr: self.to_stderr,
        }
    }
}

/// The rules by which a password is generated.
#[derive(Debug, Clone, Copy, PartialEq, Eq)]
pub struct PasswordPolicy {
    pub length: usize,
    pub numbers: bool,
    pub lowercase_letters: bool,
    pub uppercase_letters: bool,
    pub symbols: bool,
    pub spaces: bool,
    pub exclude_similar_characters: bool,
    pub strict: bool,
}

/// Whether `c` is one of the digits `0` to `9`.
pub open spec fn is_digit(c: char) -> bool {
    0x30 <= c as u32 <= 0x39
}

/// Whether `c` is one of the letters `a` to `z`.
pub open spec fn is_lowercase(c: char) -> bool {
    0x61 <= c as u32 <= 0x7A
}

/// Whether `c` is one of the letters `A` to `Z`.
pub open spec fn is_uppercase(c: char) -> bool {
    0x41 <= c as u32 <= 0x5A
}

/// Whether `c` is one of the 32 printable ASCII characters that are neither
/// digit, letter nor space.
pub open spec fn is_symbol(c: char) -> bool {
    ||| 0x21 <= c as u32 <= 0x2F
    ||| 0x3A <= c as u32 <= 0x40
    ||| 0x5B <= c as u32 <= 0x60
    ||| 0x7B <= c as u32 <= 0x7E
}

/// Whether `c` is the space.
pub open spec fn is_space(c: char) -> bool {
    c as u32 == 0x20
}

/// The policy that [`PasswordPolicy::standard`] returns.
pub open spec fn standard_policy() -> PasswordPolicy {
    PasswordPolicy {
        length: 15,
        numbers: true,
        lowercase_letters: true,
        uppercase_letters: true,
        symbols: true,
        spaces: false,
        exclude_similar_characters: false,
        strict: true,
    }
}

impl PasswordPolicy {
    /// Whether the policy draws `c`: it is of a kind that the policy has
    /// switched on.
    pub open spec fn draws(self, c: char) -> bool {
        ||| self.numbers && is_digit(c)
        ||| self.lowercase_letters && is_lowercase(c)
        ||| self.uppercase_letters && is_uppercase(c)
        ||| self.symbols && is_symbol(c)
        ||| self.spaces && is_space(c)
    }

    /// Whether `text` is a password under the policy: of its length, of
    /// characters that it draws and, where it is strict, with one at least of
    /// each kind that it has switched on.
    pub open spec fn met_by(self, text: Seq<char>) -> bool {
        &&& text.len() == self.length
        &&& forall|i: int| 0 <= i < text.len() ==> self.draws(#[trigger] text[i])
        &&& self.strict && self.numbers ==> exists|i: int|
            0 <= i < text.len() && is_digit(#[trigger] text[i])
        &&& self.strict && self.lowercase_letters ==> exists|i: int|
            0 <= i < text.len() && is_lowercase(#[trigger] text[i])
        &&& self.strict && self.uppercase_letters ==> exists|i: int|
            0 <= i < text.len() && is_uppercase(#[trigger] text[i])
        &&& self.strict && self.symbols ==> exists|i: int|
            0 <= i < text.len() && is_symbol(#[trigger] text[i])
        &&& self.strict && self.spaces ==> exists|i: int|
            0 <= i < text.len() && is_space(#[trigger] text[i])
    }

    /// How many kinds of characters the policy draws from.
    pub open spec fn kinds(self) -> nat {
        (if self.numbers { 1nat } else { 0nat }) + (if self.lowercase_letters { 1nat } else { 0nat })
            + (if self.uppercase_letters { 1nat } else { 0nat }) + (if self.symbols { 1nat } else {
            0nat
        }) + (if self.spaces { 1nat } else { 0nat })
    }

    /// Whether a password can be generated: it has a length, there is a kind
    /// of character to draw from, and a strict policy has room for one of
    /// each kind.
    pub open spec fn accepted(self) -> bool {
        &&& self.length > 0
        &&& self.kinds() > 0
        &&& self.strict ==> self.length >= self.kinds()
    }

    /// Fifteen characters with at least one digit, one lower-case letter, one
    /// upper-case letter and one symbol, and no spaces.
    pub fn standard() -> (policy: PasswordPolicy)
        ensures
            policy == standard_policy(),
            policy.accepted(),
    {
        PasswordPolicy {
            length: 15,
            numbers: true,
            lowercase_letters: true,
            uppercase_letters: true,
            symbols: true,
            spaces: false,
            exclude_similar_characters: false,
            strict: true,
        }
    }
}

/// `PasswordGenerator::generate_one` of passwords, on a generator with the
/// fields of `policy`. Trusted: it fails exactly on a policy that is not
/// accepted; a generated password has the policy's length, each of its
/// characters is of a kind that the policy has switched on, and under a strict
/// policy each such kind occurs. Which characters they are is left open: each
/// call draws them anew.
#[verifier::external_body]
pub(crate) fn generate_one(policy: &PasswordPolicy) -> (password: Result<String, &'static str>)
    ensures
        password is Ok <==> policy.accepted(),
        password matches Ok(text) ==> policy.met_by(text@),
{
    let generator = PasswordGenerator {
        length: policy.length,
        numbers: policy.numbers,
        lowercase_letters: policy.lowercase_letters,
        uppercase_letters: policy.uppercase_letters,
        symbols: policy.symbols,
        spaces: policy.spaces,
        exclude_similar_characters: policy.exclude_similar_characters,
        strict: policy.strict,
    };
    generator.generate_one()
}

/// A password generated under `policy`, or `None` where the policy is not
/// accepted.
pub fn generate_password(policy: &PasswordPolicy) -> (password: Option<String>)
    ensures
        password is Some <==> policy.accepted(),
        password matches Some(text) ==> policy.met_by(text@),
{
    match generate_one(policy) {
        Ok(text) => Some(text),
        Err(_) => None,
    }
}

/// A password under the standard policy has 15 characters, none of them a
/// space, and among them a digit, a lower-case letter, an upper-case letter and
/// a symbol.
pub proof fn standard_passwords_are_mixed(text: Seq<char>)
    requires
        standard_policy().met_by(text),
    ensures
        text.len() == 15,
        forall|i: int| 0 <= i < text.len() ==> !is_space(#[trigger] text[i]),
        exists|i: int| 0 <= i < text.len() && is_digit(#[trigger] text[i]),
        exists|i: int| 0 <= i < text.len() && is_lowercase(#[trigger] text[i]),
        exists|i: int| 0 <= i < text.len() && is_uppercase(#[trigger] text[i]),
        exists|i: int| 0 <= i < text.len() && is_symbol(#[trigger] text[i]),
{
    assert forall|i: int| 0 <= i < text.len() implies !is_space(#[trigger] text[i]) by {
        assert(standard_policy().draws(text[i]));
    }
}

impl CommandView {
    /// Where the secret that the command needs comes from.
    pub open spec fn secret_source(self) -> SecretSource {
        match self {
            CommandView::Init { .. } => SecretSource::MasterPassword,
            CommandView::Open { .. } => SecretSource::MasterPassword,
            CommandView::Add { .. } => SecretSource::EntryPassword,
            CommandView::Generate { .. } => SecretSource::Generated,
            _ => SecretSource::Nothing,
        }
    }

    /// The request that the command sends to the agent, with its secret. A
    /// vault is initialised without the agent.
    pub open spec fn request(self, secret: Seq<char>) -> Option<RequestView> {
        match self {
            CommandView::Init { .. } => None,
            CommandView::Open { vault_path } => Some(
                RequestView::UnlockVault { vault_path, master_password: encode_utf8(secret) },
            ),
            CommandView::Close => Some(RequestView::LockVault),
            CommandView::Generate { name, username } => Some(
                RequestView::AddEntry { entry: EntryView { name, username, password: secret } },
            ),
            CommandView::Add { name, username } => Some(
                RequestView::AddEntry { entry: EntryView { name, username, password: secret } },
            ),
            CommandView::Show { name } => Some(RequestView::GetEntry { name }),
            CommandView::List => Some(RequestView::ListEntries),
            CommandView::Remove { name } => Some(RequestView::RemoveEntry { name }),
        }
    }

    /// What is shown for the agent's answer to the command.
    pub open spec fn report(self, secret: Seq<char>, response: ResponseView) -> ReportView {
        match (self, response) {
            (CommandView::Open { .. }, ResponseView::Success) => shown(seq!["Vault is Opened!"@]),
            (CommandView::Open { .. }, ResponseView::Error(message)) => shown(
                seq!["Problem Openning Vault: "@ + message],
            ),
            (CommandView::Close, ResponseView::Success) => shown(seq!["Vault sucessfully closed!"@]),
            (CommandView::Close, ResponseView::Error(message)) => shown(
                seq!["Problem closing Vault: "@ + message],
            ),
            (CommandView::Generate { name, username }, ResponseView::Success) => shown(
                seq![added_line(name, username, secret)],
            ),
            (CommandView::Generate { .. }, ResponseView::Error(message)) => shown(
                seq!["Error trying to add entry: "@ + message],
            ),
            (CommandView::Add { name, username }, ResponseView::Success) => shown(
                seq![added_line(name, username, secret)],
            ),
            (CommandView::Add { .. }, ResponseView::Error(message)) => shown(
                seq!["Error trying to add entry: "@ + message],
            ),
            (CommandView::Show { .. }, ResponseView::PasswordEntry { entry }) => shown(
                seq!["Entry found:\n"@ + entry_lines(entry)],
            ),
            (CommandView::Show { .. }, ResponseView::Error(message)) => complained(
                "Error: "@ + message,
            ),
            (CommandView::List, ResponseView::PasswordList { list }) => shown(
                Seq::new(list.len(), |i: int| entry_lines(list[i])),
            ),
            (CommandView::List, ResponseView::Error(message)) => complained("Error: "@ + message),
            (CommandView::Remove { .. }, ResponseView::Success) => shown(
                seq!["Sucessfully Removed Entry."@],
            ),
            (CommandView::Remove { .. }, ResponseView::Error(message)) => complained(
                "Error: "@ + message,
            ),
            _ => complained("Unexpected response type."@),
        }
    }
}

/// Lines for the output stream.
pub open spec fn shown(lines: Seq<Seq<char>>) -> ReportView {
    ReportView { lines, to_stderr: false }
}

/// One line for the error stream.
pub open spec fn complained(line: Seq<char>) -> ReportView {
    ReportView { lines: seq![line], to_stderr: true }
}

/// The three lines that show an entry.
pub open spec fn entry_lines(entry: EntryView) -> Seq<char> {
    "Name: "@ + entry.name + "\nUsername: "@ + entry.username + "\nPassword: "@ + entry.password
}

/// The line that confirms a new entry.
pub open spec fn added_line(name: Seq<char>, username: Seq<char>, secret: Seq<char>) -> Seq<char> {
    "Entry "@ + name + " with user: "@ + username + " and password: "@ + secret
        + " added to vault!"@
}

fn entry_text(entry: &PasswordEntry) -> (text: String)
    ensures
        text@ == entry_lines(entry@),
{
    "Name: ".to_owned().concat(entry.name.as_str()).concat("\nUsername: ").concat(
        entry.username.as_str(),
    ).concat("\nPassword: ").concat(entry.password.as_str())
}

fn added_text(name: &str, username: &str, secret: &str) -> (text: String)
    ensures
        text@ == added_line(name@, username@, secret@),
{
    "Entry ".to_owned().concat(name).concat(" with user: ").concat(username).concat(
        " and password: ",
    ).concat(secret).concat(" added to vault!")
}

fn show(line: String) -> (report: Report)
    ensures
        report@ == shown(seq![line@]),
{
    let mut lines: Vec<String> = Vec::new();
    lines.push(line);
    let report = Report { lines, to_stderr: false };
    assert(report@.lines =~= seq![line@]);
    report
}

fn complain(line: String) -> (report: Report)
    ensures
        report@ == complained(line@),
{
    let mut lines: Vec<String> = Vec::new();
    lines.push(line);
    let report = Report { lines, to_stderr: true };
    assert(report@.lines =~= seq![line@]);
    report
}

impl Commands {
    /// Where the secret that the command needs comes from.
    pub fn secret_source(&self) -> (source: SecretSource)
        ensures
            source == self@.secret_source(),
    {
        match self {
            Commands::Init { .. } => SecretSource::MasterPassword,
            Commands::Open { .. } => SecretSource::MasterPassword,
            Commands::Add { .. } => SecretSource::EntryPassword,
            Commands::Generate { .. } => SecretSource::Generated,
            _ => SecretSource::Nothing,
        }
    }

    /// The request that the command sends to the agent, with its secret, or
    /// `None` for a command that is carried out without the agent.
    pub fn request(&self, secret: &str) -> (request: Option<Request>)
        ensures
            match self@.request(secret@) {
                Some(expected) => request matches Some(r) && r@ == expected,
                None => request is None,
            },
    {
        match self {
            Commands::Init { .. } => None,
            Commands::Open { vault_path } => Some(
                Request::UnlockVault {
                    vault_path: vault_path.clone(),
                    master_password: secret.as_bytes_vec(),
                },
            ),
            Commands::Close => Some(Request::LockVault),
            Commands::Generate { name, username } => Some(
                Request::AddEntry {
                    entry: PasswordEntry::new(name.as_str(), username.as_str(), secret),
                },
            ),
            Commands::Add { name, username } => Some(
                Request::AddEntry {
                    entry: PasswordEntry::new(name.as_str(), username.as_str(), secret),
                },
            ),
            Commands::Show { name } => Some(Request::GetEntry { name: name.clone() }),
            Commands::List => Some(Request::ListEntries),
            Commands::Remove { name } => Some(Request::RemoveEntry { name: name.clone() }),
        }
    }

    /// What is shown for the agent's answer to the command.
    pub fn report(&self, secret: &str, response: &Response) -> (report: Report)
        ensures
            report@ == self@.report(secret@, response@),
    {
        match (self, response) {
            (Commands::Open { .. }, Response::Success) => show("Vault is Opened!".to_owned()),
            (Commands::Open { .. }, Response::Error(message)) => show(
                "Problem Openning Vault: ".to_owned().concat(message.as_str()),
            ),
            (Commands::Close, Response::Success) => show("Vault sucessfully closed!".to_owned()),
            (Commands::Close, Response::Error(message)) => show(
                "Problem closing Vault: ".to_owned().concat(message.as_str()),
            ),
            (Commands::Generate { name, username }, Response::Success) => show(
                added_text(name.as_str(), username.as_str(), secret),
            ),
            (Commands::Generate { .. }, Response::Error(message)) => show(
                "Error trying to add entry: ".to_owned().concat(message.as_str()),
            ),
            (Commands::Add { name, username }, Response::Success) => show(
                added_text(name.as_str(), username.as_str(), secret),
            ),
            (Commands::Add { .. }, Response::Error(message)) => show(
                "Error trying to add entry: ".to_owned().concat(message.as_str()),
            ),
            (Commands::Show { .. }, Response::PasswordEntry { entry }) => show(
                "Entry found:\n".to_owned().concat(entry_text(entry).as_str()),
            ),
            (Commands::Show { .. }, Response::Error(message)) => complain(
                "Error: ".to_owned().concat(message.as_str()),
            ),
            (Commands::List, Response::PasswordList { list }) => {
                let mut lines: Vec<String> = Vec::new();
                let mut i: usize = 0;
                while i < list.passwords.len()
                    invariant
                        i <= list.passwords@.len(),
                        lines@.len() == i,
                        forall|j: int| 0 <= j < i ==> (#[trigger] lines@[j])@ == entry_lines(list@[j]),
                    decreases list.passwords@.len() - i,
                {
                    lines.push(entry_text(&list.passwords[i]));
                    i += 1;
                }
                let report = Report { lines, to_stderr: false };
                assert(report@.lines =~= Seq::new(list@.len(), |i: int| entry_lines(list@[i])));
                report
            },
            (Commands::List, Response::Error(message)) => complain(
                "Error: ".to_owned().concat(message.as_str()),
            ),
            (Commands::Remove { .. }, Response::Success) => show(
                "Sucessfully Removed Entry.".to_owned(),
            ),
            (Commands::Remove { .. }, Response::Error(message)) => complain(
                "Error: ".to_owned().concat(message.as_str()),
            ),
            _ => complain("Unexpected response type.".to_owned()),
        }
    }
}

/// The text that asks the user for a secret, where one is asked for.
pub fn prompt_text(source: SecretSource) -> (prompt: Option<String>)
    ensures
        match source {
            SecretSource::MasterPassword => prompt matches Some(text) && text@
                == "Your master password: "@,
            SecretSource::EntryPassword => prompt matches Some(text) && text@ == "Your password: "@,
            _ => prompt is None,
        },
{
    match source {
        SecretSource::MasterPassword => Some("Your master password: ".to_owned()),
        SecretSource::EntryPassword => Some("Your password: ".to_owned()),
        _ => None,
    }
}

} // verus!
