use himalaya_core::account::{Account, Accounts, Folder};
use himalaya_core::choice::{PostEditChoice, PreEditChoice};
use himalaya_core::config::{
    AccountConfig, Backend, Config, EnvelopeConfig, HimalayaTomlAccountConfig, HimalayaTomlConfig,
    ListEnvelopesConfig, ListEnvelopesTableConfig, MaildirConfig, MessageConfig,
    SendMessageConfig, SendingBackend, SendmailConfig,
};
use himalaya_core::envelope::{Envelope, Flag, Flags, Mailbox};
use himalaya_core::error::Error;
use himalaya_core::printer::{Message, OutputFmt};
use himalaya_core::thread::{EnvelopesTree, ThreadedEnvelopes};
use himalaya_core::validator::{EmailValidator, U16Validator, UsizeValidator, Validation};
use himalaya_core::wizard::{notmuch, sendmail, BackendKind, SendingBackendKind};
use himalaya_core::{parse_usize, usize_to_string};

fn account_entry(
    name: &str,
    default: Option<bool>,
    backend: Option<Backend>,
    sending: Option<SendingBackend>,
) -> (String, HimalayaTomlAccountConfig) {
    (
        name.to_string(),
        HimalayaTomlAccountConfig {
            default,
            email: format!("{name}@localhost"),
            display_name: None,
            signature: None,
            signature_delim: None,
            downloads_dir: None,
            backend,
            folder: None,
            envelope: None,
            message: sending.map(|s| MessageConfig {
                send: Some(SendMessageConfig { backend: Some(s), save_copy: None, pre_hook: None }),
            }),
        },
    )
}

fn maildir() -> Backend {
    Backend::Maildir(MaildirConfig { root_dir: "/m".to_string(), maildirpp: false })
}

fn sendmail_backend() -> SendingBackend {
    SendingBackend::Sendmail(SendmailConfig { cmd: "/usr/bin/msmtp".to_string() })
}

#[test]
fn decimal_rendering_and_parsing() {
    assert_eq!(usize_to_string(0), "0");
    assert_eq!(usize_to_string(7), "7");
    assert_eq!(usize_to_string(105), "105");
    assert_eq!(parse_usize("0"), Some(0));
    assert_eq!(parse_usize("105"), Some(105));
    assert_eq!(parse_usize("007"), Some(7));
    assert_eq!(parse_usize(""), None);
    assert_eq!(parse_usize("12a"), None);
    assert_eq!(parse_usize("-3"), None);
    assert_eq!(parse_usize("99999999999999999999999999"), None);
}

#[test]
fn output_format_parsing_is_case_insensitive() {
    assert_eq!(OutputFmt::from_str("json").unwrap(), OutputFmt::Json);
    assert_eq!(OutputFmt::from_str("JSON").unwrap(), OutputFmt::Json);
    assert_eq!(OutputFmt::from_str("Plain").unwrap(), OutputFmt::Plain);
    assert_eq!(OutputFmt::from_str("plain").unwrap(), OutputFmt::Plain);
    let err = OutputFmt::from_str("yaml").unwrap_err();
    assert!(matches!(err, Error::CannotParseOutputFmt(s) if s == "yaml"));
    assert_eq!(OutputFmt::default(), OutputFmt::Plain);
    assert_eq!(OutputFmt::Json.to_string(), "JSON");
    assert_eq!(OutputFmt::Plain.to_string(), "Plain");
    assert!(OutputFmt::Json.is_json());
    assert!(!OutputFmt::Plain.is_json());
}

#[test]
fn message_wraps_plain_text() {
    let m = Message::new("done");
    assert_eq!(m.message, "done");
}

#[test]
fn validators_accept_exactly_what_parses() {
    assert_eq!(U16Validator.validate("65535"), Validation::Valid);
    assert_eq!(U16Validator.validate("65536"), Validation::Invalid);
    assert_eq!(U16Validator.validate("abc"), Validation::Invalid);
    assert_eq!(U16Validator.validate(""), Validation::Invalid);
    assert_eq!(UsizeValidator.validate("184"), Validation::Valid);
    assert_eq!(UsizeValidator.validate("18x"), Validation::Invalid);
}

#[test]
fn email_validator_tells_addresses_from_noise() {
    assert_eq!(EmailValidator.validate("alice@example.com"), Validation::Valid);
    assert_eq!(EmailValidator.validate("not an address"), Validation::Invalid);
    assert_eq!(EmailValidator.validate(""), Validation::Invalid);
}

#[test]
fn error_messages_name_the_failure() {
    assert_eq!(
        Error::UnknownAlias("9".to_string()).to_display_string(),
        "cannot get message id from alias 9"
    );
    assert_eq!(
        Error::GetAccountConfig("work".to_string()).to_display_string(),
        "cannot find configuration for account work"
    );
    assert_eq!(
        Error::BackendBuildFailure(himalaya_core::backend::BackendVariant::Smtp)
            .to_display_string(),
        "cannot build backend context: SMTP"
    );
    assert_eq!(
        Error::UnsupportedOperation.to_display_string(),
        "cannot resolve operation: no backend supports it"
    );
    assert_eq!(Error::AliasPersistenceFailure.to_display_string(), "cannot persist alias");
    assert_eq!(
        Error::GraphReconstructionInconsistency("Z".to_string()).to_display_string(),
        "cannot rebuild thread graph: unknown envelope Z"
    );
    assert_eq!(
        Error::GetDefaultAccountConfig.to_display_string(),
        "cannot find default account configuration"
    );
    assert_eq!(
        Error::CannotParseOutputFmt("yaml".to_string()).to_display_string(),
        "cannot parse output format yaml"
    );
}

#[test]
fn choice_labels() {
    assert_eq!(PreEditChoice::Edit.to_string(), "Edit it");
    assert_eq!(PreEditChoice::Discard.to_string(), "Discard it");
    assert_eq!(PreEditChoice::Quit.to_string(), "Quit");
    assert_eq!(PostEditChoice::Send.to_string(), "Send it");
    assert_eq!(PostEditChoice::ViewMime.to_string(), "View MIME message");
    assert_eq!(PostEditChoice::LocalDraft.to_string(), "Save it as local draft");
}

#[test]
fn wizard_kind_labels_and_configs() {
    assert_eq!(BackendKind::Disabled.to_string(), "None");
    assert_eq!(BackendKind::Imap.to_string(), "IMAP");
    assert_eq!(SendingBackendKind::Smtp.to_string(), "SMTP");
    assert_eq!(SendingBackendKind::Sendmail.to_string(), "Sendmail");

    let nm = notmuch::start(Some("/home/user/mail/.notmuch".to_string()));
    assert_eq!(nm.database_path.as_deref(), Some("/home/user/mail/.notmuch"));
    let sm = sendmail::start("/usr/bin/msmtp".to_string());
    assert_eq!(sm.cmd, "/usr/bin/msmtp");
}

#[test]
fn account_listing_is_sorted_and_labelled() {
    let entries = vec![
        account_entry("zeta", None, Some(maildir()), Some(sendmail_backend())),
        account_entry("alpha", Some(true), Some(maildir()), None),
        account_entry("mid", None, None, Some(sendmail_backend())),
    ];
    let accounts = Accounts::from_entries(&entries);
    assert_eq!(accounts.0.len(), 3);
    assert_eq!(accounts.0[0].name, "alpha");
    assert_eq!(accounts.0[1].name, "mid");
    assert_eq!(accounts.0[2].name, "zeta");
    assert_eq!(accounts.0[0].backend, "Maildir");
    assert!(accounts.0[0].default);
    assert_eq!(accounts.0[1].backend, "Sendmail");
    assert!(!accounts.0[1].default);
    assert_eq!(accounts.0[2].backend, "Maildir, Sendmail");
}

#[test]
fn account_summary_constructor() {
    let a = Account::new("work", "IMAP, SMTP", true);
    assert_eq!(a.name, "work");
    assert_eq!(a.backend, "IMAP, SMTP");
    assert!(a.default);
    let f = Folder { name: "INBOX".to_string(), desc: "inbox".to_string() };
    assert_eq!(f.clone().name, "INBOX");
}

#[test]
fn account_lookup_by_name_and_default() {
    let config = HimalayaTomlConfig {
        display_name: None,
        signature: None,
        signature_delim: None,
        downloads_dir: None,
        accounts: vec![
            account_entry("first", None, None, None),
            account_entry("second", Some(true), None, None),
        ],
        account: None,
    };
    let (name, _) = config.to_toml_account_config(None).unwrap();
    assert_eq!(name, "second");
    let (name, _) = config.to_toml_account_config(Some("default")).unwrap();
    assert_eq!(name, "second");
    let (name, _) = config.to_toml_account_config(Some("")).unwrap();
    assert_eq!(name, "second");
    let (name, entry) = config.to_toml_account_config(Some("first")).unwrap();
    assert_eq!(name, "first");
    assert_eq!(entry.email, "first@localhost");
    let err = config.to_toml_account_config(Some("missing")).unwrap_err();
    assert!(matches!(err, Error::GetAccountConfig(n) if n == "missing"));

    let empty = HimalayaTomlConfig {
        display_name: None,
        signature: None,
        signature_delim: None,
        downloads_dir: None,
        accounts: vec![account_entry("only", None, None, None)],
        account: None,
    };
    let err = empty.to_toml_account_config(None).unwrap_err();
    assert!(matches!(err, Error::GetDefaultAccountConfig));
}

#[test]
fn global_config_conversion_fills_in_names() {
    let config = HimalayaTomlConfig {
        display_name: Some("Me".to_string()),
        signature: None,
        signature_delim: None,
        downloads_dir: None,
        accounts: vec![
            account_entry("work", Some(true), None, None),
            account_entry("home", None, None, None),
        ],
        account: None,
    };
    let converted = Config::from_toml(config);
    assert_eq!(converted.display_name.as_deref(), Some("Me"));
    assert_eq!(converted.accounts.len(), 2);
    assert_eq!(converted.accounts[0].0, "work");
    assert_eq!(converted.accounts[0].1.name, "work");
    assert_eq!(converted.accounts[0].1.email, "work@localhost");
    assert_eq!(converted.accounts[1].1.name, "home");
}

#[test]
fn account_config_from_entry_carries_fields_over() {
    let (_, entry) = account_entry("work", None, Some(maildir()), None);
    let converted = AccountConfig::from_entry("work".to_string(), entry);
    assert_eq!(converted.name, "work");
    assert_eq!(converted.email, "work@localhost");
}

#[test]
fn envelope_flags_column_uses_configured_markers() {
    let envelope = Envelope {
        id: "1".to_string(),
        flags: Flags(vec![Flag::Flagged, Flag::Answered]),
        subject: "s".to_string(),
        from: Mailbox { name: None, addr: "a@l".to_string() },
        to: Mailbox { name: None, addr: "b@l".to_string() },
        date: "d".to_string(),
        has_attachment: true,
    };
    let defaults = ListEnvelopesTableConfig {
        preset: None,
        unseen_char: None,
        replied_char: None,
        flagged_char: None,
        attachment_char: None,
    };
    // flagged, unseen (not seen), attachment, replied
    assert_eq!(envelope.flags_string(&defaults), "!*@R");

    let custom = ListEnvelopesTableConfig {
        preset: None,
        unseen_char: Some('u'),
        replied_char: Some('r'),
        flagged_char: Some('f'),
        attachment_char: Some('a'),
    };
    assert_eq!(envelope.flags_string(&custom), "fuar");

    let seen = Envelope { flags: Flags(vec![Flag::Seen]), has_attachment: false, ..envelope };
    assert_eq!(seen.flags_string(&defaults), "    ");
}

#[test]
fn envelope_table_config_getters() {
    let account = HimalayaTomlAccountConfig {
        default: None,
        email: "x@l".to_string(),
        display_name: None,
        signature: None,
        signature_delim: None,
        downloads_dir: None,
        backend: None,
        folder: None,
        envelope: Some(EnvelopeConfig {
            list: Some(ListEnvelopesConfig {
                page_size: Some(10),
                datetime_fmt: None,
                datetime_local_tz: None,
                table: Some(ListEnvelopesTableConfig {
                    preset: Some("||".to_string()),
                    unseen_char: Some('N'),
                    replied_char: None,
                    flagged_char: None,
                    attachment_char: None,
                }),
            }),
        }),
        message: None,
    };
    assert_eq!(account.envelope_list_table_preset().map(|s| s.as_str()), Some("||"));
    assert_eq!(account.envelope_list_table_unseen_char(), Some('N'));
    assert_eq!(account.envelope_list_table_replied_char(), None);
}

#[test]
fn envelopes_tree_holds_its_parts() {
    let config = AccountConfig {
        name: "work".to_string(),
        email: "w@l".to_string(),
        display_name: None,
        signature: None,
        signature_delim: None,
        downloads_dir: None,
    };
    let graph = ThreadedEnvelopes { envelopes: vec![], edges: vec![] };
    let tree = EnvelopesTree::new(config, graph);
    assert_eq!(tree.config.name, "work");
    assert!(tree.envelopes.edges.is_empty());
}

#[test]
fn flags_membership_matches_variant_and_custom_name() {
    let flags = Flags(vec![Flag::Seen, Flag::Custom("Junk".to_string())]);
    assert!(flags.contains(&Flag::Seen));
    assert!(!flags.contains(&Flag::Draft));
    assert!(flags.contains(&Flag::Custom("Junk".to_string())));
    assert!(!flags.contains(&Flag::Custom("Ham".to_string())));
}
