//! Account configuration: the per-variant connection parameters, the two
//! independent selections (one read-capable backend, one send-capable
//! backend), and the lookup of account entries inside a top-level
//! configuration.

use vstd::prelude::*;

use crate::error::Error;
use crate::strutil::str_eq;

verus! {

/// Connection parameters of the remote-protocol (IMAP-like) backend.
#[derive(Debug)]
pub struct ImapConfig {
    pub host: String,
    pub port: u16,
    pub login: String,
}

/// Parameters of the local maildir-like backend.
#[derive(Debug)]
pub struct MaildirConfig {
    pub root_dir: String,
    pub maildirpp: bool,
}

/// Parameters of the local search-index backend.
#[derive(Debug)]
pub struct NotmuchConfig {
    pub database_path: Option<String>,
}

/// Parameters of the remote-submission sending backend.
#[derive(Debug)]
pub struct SmtpConfig {
    pub host: String,
    pub port: u16,
    pub login: String,
}

/// Parameters of the command-based sending backend.
#[derive(Debug)]
pub struct SendmailConfig {
    pub cmd: String,
}

impl Clone for ImapConfig {
    fn clone(&self) -> (res: Self)
        ensures
            res == *self,
    {
        ImapConfig { host: self.host.clone(), port: self.port, login: self.login.clone() }
    }
}

impl Clone for MaildirConfig {
    fn clone(&self) -> (res: Self)
        ensures
            res == *self,
    {
        MaildirConfig { root_dir: self.root_dir.clone(), maildirpp: self.maildirpp }
    }
}

impl Clone for NotmuchConfig {
    fn clone(&self) -> (res: Self)
        ensures
            res == *self,
    {
        let database_path = match &self.database_path {
            Some(p) => Some(p.clone()),
            None => None,
        };
        NotmuchConfig { database_path }
    }
}

impl Clone for SmtpConfig {
    fn clone(&self) -> (res: Self)
        ensures
            res == *self,
    {
        SmtpConfig { host: self.host.clone(), port: self.port, login: self.login.clone() }
    }
}

impl Clone for SendmailConfig {
    fn clone(&self) -> (res: Self)
        ensures
            res == *self,
    {
        SendmailConfig { cmd: self.cmd.clone() }
    }
}

/// The read Selection of an account: at most one read-capable variant is
/// active, carrying its connection parameters.
#[derive(Debug)]
pub enum Backend {
    Disabled,
    Imap(ImapConfig),
    Maildir(MaildirConfig),
    Notmuch(NotmuchConfig),
}

impl Clone for Backend {
    fn clone(&self) -> (res: Self)
        ensures
            res == *self,
    {
        match self {
            Backend::Disabled => Backend::Disabled,
            Backend::Imap(c) => Backend::Imap(c.clone()),
            Backend::Maildir(c) => Backend::Maildir(c.clone()),
            Backend::Notmuch(c) => Backend::Notmuch(c.clone()),
        }
    }
}

impl Backend {
    /// The display name of the selected variant.
    pub fn to_string(&self) -> (r: String)
        ensures
            self is Disabled ==> r@ == "None"@,
            self is Imap ==> r@ == "IMAP"@,
            self is Maildir ==> r@ == "Maildir"@,
            self is Notmuch ==> r@ == "Notmuch"@,
    {
        match self {
            Backend::Disabled => "None".to_owned(),
            Backend::Imap(_) => "IMAP".to_owned(),
            Backend::Maildir(_) => "Maildir".to_owned(),
            Backend::Notmuch(_) => "Notmuch".to_owned(),
        }
    }
}

/// The read Selection as it appears in a serialized account entry, where
/// a variant is never absent-but-named: deserialization always carries the
/// variant's parameters.
#[derive(Debug)]
pub enum BackendDerive {
    Imap(ImapConfig),
    Maildir(MaildirConfig),
    Notmuch(NotmuchConfig),
}

impl From<BackendDerive> for Backend {
    fn from(backend: BackendDerive) -> (r: Backend) {
        match backend {
            BackendDerive::Imap(config) => Backend::Imap(config),
            BackendDerive::Maildir(config) => Backend::Maildir(config),
            BackendDerive::Notmuch(config) => Backend::Notmuch(config),
        }
    }
}

impl vstd::std_specs::convert::FromSpecImpl<BackendDerive> for Backend {
    open spec fn obeys_from_spec() -> bool {
        true
    }

    open spec fn from_spec(backend: BackendDerive) -> Backend {
        match backend {
            BackendDerive::Imap(config) => Backend::Imap(config),
            BackendDerive::Maildir(config) => Backend::Maildir(config),
            BackendDerive::Notmuch(config) => Backend::Notmuch(config),
        }
    }
}

/// The sending Selection of an account: at most one send-capable variant is
/// active, independent of the read Selection.
#[derive(Debug)]
pub enum SendingBackend {
    Disabled,
    Smtp(SmtpConfig),
    Sendmail(SendmailConfig),
}

impl Clone for SendingBackend {
    fn clone(&self) -> (res: Self)
        ensures
            res == *self,
    {
        match self {
            SendingBackend::Disabled => SendingBackend::Disabled,
            SendingBackend::Smtp(c) => SendingBackend::Smtp(c.clone()),
            SendingBackend::Sendmail(c) => SendingBackend::Sendmail(c.clone()),
        }
    }
}

impl SendingBackend {
    /// The display name of the selected variant.
    pub fn to_string(&self) -> (r: String)
        ensures
            self is Disabled ==> r@ == "None"@,
            self is Smtp ==> r@ == "SMTP"@,
            self is Sendmail ==> r@ == "Sendmail"@,
    {
        match self {
            SendingBackend::Disabled => "None".to_owned(),
            SendingBackend::Smtp(_) => "SMTP".to_owned(),
            SendingBackend::Sendmail(_) => "Sendmail".to_owned(),
        }
    }
}

/// The sending Selection as it appears in a serialized account entry.
#[derive(Debug)]
pub enum SendingBackendDerive {
    Smtp(SmtpConfig),
    Sendmail(SendmailConfig),
}

impl From<SendingBackendDerive> for SendingBackend {
    fn from(backend: SendingBackendDerive) -> (r: SendingBackend) {
        match backend {
            SendingBackendDerive::Smtp(config) => SendingBackend::Smtp(config),
            SendingBackendDerive::Sendmail(config) => SendingBackend::Sendmail(config),
        }
    }
}

impl vstd::std_specs::convert::FromSpecImpl<SendingBackendDerive> for SendingBackend {
    open spec fn obeys_from_spec() -> bool {
        true
    }

    open spec fn from_spec(backend: SendingBackendDerive) -> SendingBackend {
        match backend {
            SendingBackendDerive::Smtp(config) => SendingBackend::Smtp(config),
            SendingBackendDerive::Sendmail(config) => SendingBackend::Sendmail(config),
        }
    }
}

/// Folder listing table options.
#[derive(Debug)]
pub struct ListFoldersTableConfig {
    pub preset: Option<String>,
}

/// Folder listing options.
#[derive(Debug)]
pub struct ListFoldersConfig {
    pub table: Option<ListFoldersTableConfig>,
    pub page_size: Option<usize>,
}

/// Folder-related account options.
#[derive(Debug)]
pub struct FolderConfig {
    pub aliases: Option<Vec<(String, String)>>,
    pub list: Option<ListFoldersConfig>,
}

/// Envelope listing table options: the marker characters of the flags
/// column.
#[derive(Debug)]
pub struct ListEnvelopesTableConfig {
    pub preset: Option<String>,
    pub unseen_char: Option<char>,
    pub replied_char: Option<char>,
    pub flagged_char: Option<char>,
    pub attachment_char: Option<char>,
}

impl ListEnvelopesTableConfig {
    /// The marker shown for a replied-to envelope, a space otherwise.
    pub fn replied_char(&self, replied: bool) -> (c: char)
        ensures
            c == self.spec_replied_char(replied),
    {
        if replied {
            match self.replied_char {
                Some(c) => c,
                None => 'R',
            }
        } else {
            ' '
        }
    }

    pub open spec fn spec_replied_char(self, replied: bool) -> char {
        if replied {
            match self.replied_char {
                Some(c) => c,
                None => 'R',
            }
        } else {
            ' '
        }
    }

    /// The marker shown for a flagged envelope, a space otherwise.
    pub fn flagged_char(&self, flagged: bool) -> (c: char)
        ensures
            c == self.spec_flagged_char(flagged),
    {
        if flagged {
            match self.flagged_char {
                Some(c) => c,
                None => '!',
            }
        } else {
            ' '
        }
    }

    pub open spec fn spec_flagged_char(self, flagged: bool) -> char {
        if flagged {
            match self.flagged_char {
                Some(c) => c,
                None => '!',
            }
        } else {
            ' '
        }
    }

    /// The marker shown for an envelope with an attachment, a space
    /// otherwise.
    pub fn attachment_char(&self, attachment: bool) -> (c: char)
        ensures
            c == self.spec_attachment_char(attachment),
    {
        if attachment {
            match self.attachment_char {
                Some(c) => c,
                None => '@',
            }
        } else {
            ' '
        }
    }

    pub open spec fn spec_attachment_char(self, attachment: bool) -> char {
        if attachment {
            match self.attachment_char {
                Some(c) => c,
                None => '@',
            }
        } else {
            ' '
        }
    }

    /// The marker shown for an unseen envelope, a space otherwise.
    pub fn unseen_char(&self, unseen: bool) -> (c: char)
        ensures
            c == self.spec_unseen_char(unseen),
    {
        if unseen {
            match self.unseen_char {
                Some(c) => c,
                None => '*',
            }
        } else {
            ' '
        }
    }

    pub open spec fn spec_unseen_char(self, unseen: bool) -> char {
        if unseen {
            match self.unseen_char {
                Some(c) => c,
                None => '*',
            }
        } else {
            ' '
        }
    }
}

/// Envelope listing options.
#[derive(Debug)]
pub struct ListEnvelopesConfig {
    pub page_size: Option<usize>,
    pub datetime_fmt: Option<String>,
    pub datetime_local_tz: Option<bool>,
    pub table: Option<ListEnvelopesTableConfig>,
}

/// Envelope-related account options.
#[derive(Debug)]
pub struct EnvelopeConfig {
    pub list: Option<ListEnvelopesConfig>,
}

/// Options for sending messages: the sending Selection lives here.
#[derive(Debug)]
pub struct SendMessageConfig {
    pub backend: Option<SendingBackend>,
    pub save_copy: Option<bool>,
    pub pre_hook: Option<String>,
}

/// Message-related account options.
#[derive(Debug)]
pub struct MessageConfig {
    pub send: Option<SendMessageConfig>,
}

/// Account listing table options.
#[derive(Debug)]
pub struct ListAccountsTableConfig {
    pub preset: Option<String>,
}

/// Account listing options.
#[derive(Debug)]
pub struct ListAccountsConfig {
    pub table: Option<ListAccountsTableConfig>,
}

/// Options of the account listing itself.
#[derive(Debug)]
pub struct AccountsConfig {
    pub list: Option<ListAccountsConfig>,
}

/// One account entry of the top-level configuration.
#[derive(Debug)]
pub struct HimalayaTomlAccountConfig {
    pub default: Option<bool>,
    pub email: String,
    pub display_name: Option<String>,
    pub signature: Option<String>,
    pub signature_delim: Option<String>,
    pub downloads_dir: Option<String>,
    pub backend: Option<Backend>,
    pub folder: Option<FolderConfig>,
    pub envelope: Option<EnvelopeConfig>,
    pub message: Option<MessageConfig>,
}

impl HimalayaTomlAccountConfig {
    /// The sending Selection buried under message.send.backend, if any.
    pub open spec fn spec_message_send_backend(self) -> Option<SendingBackend> {
        match self.message {
            Some(m) => match m.send {
                Some(s) => s.backend,
                None => None,
            },
            None => None,
        }
    }

    pub fn message_send_backend(&self) -> (r: Option<&SendingBackend>)
        ensures
            r matches Some(b) ==> self.spec_message_send_backend() == Some(*b),
            r is None ==> self.spec_message_send_backend() is None,
    {
        match &self.message {
            Some(m) => match &m.send {
                Some(s) => match &s.backend {
                    Some(b) => Some(b),
                    None => None,
                },
                None => None,
            },
            None => None,
        }
    }

    pub open spec fn spec_folder_list_table_preset(self) -> Option<Seq<char>> {
        match self.folder {
            Some(f) => match f.list {
                Some(l) => match l.table {
                    Some(t) => match t.preset {
                        Some(p) => Some(p@),
                        None => None,
                    },
                    None => None,
                },
                None => None,
            },
            None => None,
        }
    }

    pub fn folder_list_table_preset(&self) -> (r: Option<&String>)
        ensures
            r matches Some(p) ==> self.spec_folder_list_table_preset() == Some(p@),
            r is None ==> self.spec_folder_list_table_preset() is None,
    {
        match &self.folder {
            Some(f) => match &f.list {
                Some(l) => match &l.table {
                    Some(t) => match &t.preset {
                        Some(p) => Some(p),
                        None => None,
                    },
                    None => None,
                },
                None => None,
            },
            None => None,
        }
    }

    pub open spec fn spec_envelope_list_table(self) -> Option<ListEnvelopesTableConfig> {
        match self.envelope {
            Some(e) => match e.list {
                Some(l) => l.table,
                None => None,
            },
            None => None,
        }
    }

    pub fn envelope_list_table_preset(&self) -> (r: Option<&String>)
        ensures
            r matches Some(p) ==> (match self.spec_envelope_list_table() {
                Some(t) => t.preset == Some(*p),
                None => false,
            }),
            r is None ==> (match self.spec_envelope_list_table() {
                Some(t) => t.preset is None,
                None => true,
            }),
    {
        match &self.envelope {
            Some(e) => match &e.list {
                Some(l) => match &l.table {
                    Some(t) => match &t.preset {
                        Some(p) => Some(p),
                        None => None,
                    },
                    None => None,
                },
                None => None,
            },
            None => None,
        }
    }

    /// The unseen marker configured for envelope tables, if any.
    pub fn envelope_list_table_unseen_char(&self) -> (r: Option<char>)
        ensures
            r == (match self.spec_envelope_list_table() {
                Some(t) => t.unseen_char,
                None => None,
            }),
    {
        match &self.envelope {
            Some(e) => match &e.list {
                Some(l) => match &l.table {
                    Some(t) => t.unseen_char,
                    None => None,
                },
                None => None,
            },
            None => None,
        }
    }

    /// The replied marker configured for envelope tables, if any.
    pub fn envelope_list_table_replied_char(&self) -> (r: Option<char>)
        ensures
            r == (match self.spec_envelope_list_table() {
                Some(t) => t.replied_char,
                None => None,
            }),
    {
        match &self.envelope {
            Some(e) => match &e.list {
                Some(l) => match &l.table {
                    Some(t) => t.replied_char,
                    None => None,
                },
                None => None,
            },
            None => None,
        }
    }

    /// The flagged marker configured for envelope tables, if any.
    pub fn envelope_list_table_flagged_char(&self) -> (r: Option<char>)
        ensures
            r == (match self.spec_envelope_list_table() {
                Some(t) => t.flagged_char,
                None => None,
            }),
    {
        match &self.envelope {
            Some(e) => match &e.list {
                Some(l) => match &l.table {
                    Some(t) => t.flagged_char,
                    None => None,
                },
                None => None,
            },
            None => None,
        }
    }

    /// The attachment marker configured for envelope tables, if any.
    pub fn envelope_list_table_attachment_char(&self) -> (r: Option<char>)
        ensures
            r == (match self.spec_envelope_list_table() {
                Some(t) => t.attachment_char,
                None => None,
            }),
    {
        match &self.envelope {
            Some(e) => match &e.list {
                Some(l) => match &l.table {
                    Some(t) => t.attachment_char,
                    None => None,
                },
                None => None,
            },
            None => None,
        }
    }
}

/// The top-level configuration: global options and the named accounts.
#[derive(Debug)]
pub struct HimalayaTomlConfig {
    pub display_name: Option<String>,
    pub signature: Option<String>,
    pub signature_delim: Option<String>,
    pub downloads_dir: Option<String>,
    pub accounts: Vec<(String, HimalayaTomlAccountConfig)>,
    pub account: Option<AccountsConfig>,
}

impl HimalayaTomlConfig {
    /// The first account flagged `default = true`, with its name.
    pub fn get_default_account_config(&self) -> (r: Option<(&String, &HimalayaTomlAccountConfig)>)
        ensures
            r matches Some(p) ==> exists|i: int|
                {
                    &&& 0 <= i < self.accounts@.len()
                    &&& (#[trigger] self.accounts@[i]).1.default == Some(true)
                    &&& forall|j: int|
                        0 <= j < i ==> (#[trigger] self.accounts@[j]).1.default != Some(true)
                    &&& *p.0 == self.accounts@[i].0
                    &&& *p.1 == self.accounts@[i].1
                },
            r is None ==> forall|i: int|
                0 <= i < self.accounts@.len() ==> (#[trigger] self.accounts@[i]).1.default != Some(
                    true,
                ),
    {
        let n = self.accounts.len();
        let mut i: usize = 0;
        while i < n
            invariant
                0 <= i <= n,
                n == self.accounts@.len(),
                forall|j: int|
                    0 <= j < i ==> (#[trigger] self.accounts@[j]).1.default != Some(true),
            decreases n - i,
        {
            let entry = &self.accounts[i];
            match entry.1.default {
                Some(true) => {
                    return Some((&entry.0, &entry.1));
                },
                _ => {},
            }
            i = i + 1;
        }
        None
    }

    /// The account entry with the given name, if any (first match).
    pub fn get_account_config(&self, name: &str) -> (r: Option<(&String, &HimalayaTomlAccountConfig)>)
        ensures
            r matches Some(p) ==> exists|i: int|
                {
                    &&& 0 <= i < self.accounts@.len()
                    &&& (#[trigger] self.accounts@[i]).0@ == name@
                    &&& *p.0 == self.accounts@[i].0
                    &&& *p.1 == self.accounts@[i].1
                    &&& p.0@ == name@
                },
            r is None ==> forall|i: int|
                0 <= i < self.accounts@.len() ==> (#[trigger] self.accounts@[i]).0@ != name@,
    {
        let n = self.accounts.len();
        let mut i: usize = 0;
        while i < n
            invariant
                0 <= i <= n,
                n == self.accounts@.len(),
                forall|j: int| 0 <= j < i ==> (#[trigger] self.accounts@[j]).0@ != name@,
            decreases n - i,
        {
            let entry = &self.accounts[i];
            if str_eq(entry.0.as_str(), name) {
                return Some((&entry.0, &entry.1));
            }
            i = i + 1;
        }
        None
    }

    /// Whether an optional account name asks for the default account.
    pub open spec fn spec_wants_default(account_name: Option<Seq<char>>) -> bool {
        match account_name {
            None => true,
            Some(n) => n == "default"@ || n == ""@,
        }
    }

    /// Resolve an optional account name to an entry: no name, an empty name
    /// or the literal name "default" pick the default account; any other
    /// name is looked up, and each miss is reported as its own error.
    pub fn to_toml_account_config(&self, account_name: Option<&str>) -> (r: Result<
        (&String, &HimalayaTomlAccountConfig),
        Error,
    >)
        ensures
            r matches Ok(p) ==> exists|i: int|
                {
                    &&& 0 <= i < self.accounts@.len()
                    &&& *p.0 == (#[trigger] self.accounts@[i]).0
                    &&& *p.1 == self.accounts@[i].1
                    &&& (Self::spec_wants_default(
                        match account_name {
                            Some(n) => Some(n@),
                            None => None,
                        },
                    )
                        ==> self.accounts@[i].1.default == Some(true))
                    &&& (!Self::spec_wants_default(
                        match account_name {
                            Some(n) => Some(n@),
                            None => None,
                        },
                    )
                        ==> (account_name matches Some(a) && self.accounts@[i].0@ == a@))
                },
            r is Err ==> (match r->Err_0 {
                Error::GetDefaultAccountConfig => forall|i: int|
                    0 <= i < self.accounts@.len() ==> (
                    #[trigger] self.accounts@[i]).1.default != Some(true),
                Error::GetAccountConfig(n) => account_name matches Some(a) && n@ == a@ && forall|
                    i: int,
                |
                    0 <= i < self.accounts@.len() ==> (#[trigger] self.accounts@[i]).0@ != a@,
                _ => false,
            }),
    {
        let use_default = match account_name {
            None => true,
            Some(name) => str_eq(name, "default") || str_eq(name, ""),
        };
        if use_default {
            match self.get_default_account_config() {
                Some(p) => Ok(p),
                None => Err(Error::GetDefaultAccountConfig),
            }
        } else {
            match account_name {
                Some(name) => {
                    match self.get_account_config(name) {
                        Some(p) => Ok(p),
                        None => Err(Error::GetAccountConfig(name.to_owned())),
                    }
                },
                None => Err(Error::GetDefaultAccountConfig),
            }
        }
    }

    pub open spec fn spec_account_list_table_preset(self) -> Option<Seq<char>> {
        match self.account {
            Some(a) => match a.list {
                Some(l) => match l.table {
                    Some(t) => match t.preset {
                        Some(p) => Some(p@),
                        None => None,
                    },
                    None => None,
                },
                None => None,
            },
            None => None,
        }
    }

    pub fn account_list_table_preset(&self) -> (r: Option<&String>)
        ensures
            r matches Some(p) ==> self.spec_account_list_table_preset() == Some(p@),
            r is None ==> self.spec_account_list_table_preset() is None,
    {
        match &self.account {
            Some(a) => match &a.list {
                Some(l) => match &l.table {
                    Some(t) => match &t.preset {
                        Some(p) => Some(p),
                        None => None,
                    },
                    None => None,
                },
                None => None,
            },
            None => None,
        }
    }
}

/// The per-account configuration handed to backend sessions, derived from
/// an account entry; the account name is filled in by the caller that knows
/// the entry's key.
#[derive(Debug)]
pub struct AccountConfig {
    pub name: String,
    pub email: String,
    pub display_name: Option<String>,
    pub signature: Option<String>,
    pub signature_delim: Option<String>,
    pub downloads_dir: Option<String>,
}

/// The global configuration handed to backend sessions: the top-level
/// options and one session-facing configuration per account, each carrying
/// its entry's name.
#[derive(Debug)]
pub struct Config {
    pub display_name: Option<String>,
    pub signature: Option<String>,
    pub signature_delim: Option<String>,
    pub downloads_dir: Option<String>,
    pub accounts: Vec<(String, AccountConfig)>,
}

impl Config {
    /// Derive the session-facing configuration from the whole top-level
    /// configuration: every account entry is converted in order, with the
    /// entry's key filled in as the account name.
    pub fn from_toml(config: HimalayaTomlConfig) -> (r: Config)
        ensures
            r.display_name == config.display_name,
            r.signature == config.signature,
            r.signature_delim == config.signature_delim,
            r.downloads_dir == config.downloads_dir,
            r.accounts@.len() == config.accounts@.len(),
            forall|i: int|
                0 <= i < config.accounts@.len() ==> {
                    &&& (#[trigger] r.accounts@[i]).0 == config.accounts@[i].0
                    &&& r.accounts@[i].1.name == config.accounts@[i].0
                    &&& r.accounts@[i].1.email == config.accounts@[i].1.email
                    &&& r.accounts@[i].1.display_name == config.accounts@[i].1.display_name
                    &&& r.accounts@[i].1.signature == config.accounts@[i].1.signature
                    &&& r.accounts@[i].1.signature_delim == config.accounts@[i].1.signature_delim
                    &&& r.accounts@[i].1.downloads_dir == config.accounts@[i].1.downloads_dir
                },
    {
        let ghost orig = config.accounts@;
        let mut rest = config.accounts;
        let mut accounts: Vec<(String, AccountConfig)> = Vec::new();
        proof {
            assert(rest@ =~= orig.subrange(accounts@.len() as int, orig.len() as int));
        }
        while rest.len() > 0
            invariant
                accounts@.len() + rest@.len() == orig.len(),
                rest@ =~= orig.subrange(accounts@.len() as int, orig.len() as int),
                forall|i: int|
                    0 <= i < accounts@.len() ==> {
                        &&& (#[trigger] accounts@[i]).0 == orig[i].0
                        &&& accounts@[i].1.name == orig[i].0
                        &&& accounts@[i].1.email == orig[i].1.email
                        &&& accounts@[i].1.display_name == orig[i].1.display_name
                        &&& accounts@[i].1.signature == orig[i].1.signature
                        &&& accounts@[i].1.signature_delim == orig[i].1.signature_delim
                        &&& accounts@[i].1.downloads_dir == orig[i].1.downloads_dir
                    },
            decreases rest@.len(),
        {
            let ghost done = accounts@.len();
            let entry = rest.remove(0);
            proof {
                assert(entry == orig[done as int]);
            }
            let (name, account) = entry;
            let key = name.clone();
            let converted = AccountConfig::from_entry(name, account);
            accounts.push((key, converted));
            proof {
                assert(rest@ =~= orig.subrange(accounts@.len() as int, orig.len() as int));
            }
        }
        Config {
            display_name: config.display_name,
            signature: config.signature,
            signature_delim: config.signature_delim,
            downloads_dir: config.downloads_dir,
            accounts,
        }
    }
}

impl AccountConfig {
    /// Derive the session-facing configuration from one account entry,
    /// filling in the entry's name; every other field is carried over
    /// verbatim.
    pub fn from_entry(name: String, config: HimalayaTomlAccountConfig) -> (r: AccountConfig)
        ensures
            r.name == name,
            r.email == config.email,
            r.display_name == config.display_name,
            r.signature == config.signature,
            r.signature_delim == config.signature_delim,
            r.downloads_dir == config.downloads_dir,
    {
        AccountConfig {
            name,
            email: config.email,
            display_name: config.display_name,
            signature: config.signature,
            signature_delim: config.signature_delim,
            downloads_dir: config.downloads_dir,
        }
    }
}

} // verus!
