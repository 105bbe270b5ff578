use himalaya_core::backend::{build_id_mapper, BackendVariant, BuildOutcomes, ContextBuilder};
use himalaya_core::config::{
    Backend, HimalayaTomlAccountConfig, MaildirConfig, MessageConfig, SendMessageConfig,
    SendingBackend, SendmailConfig, SmtpConfig,
};
use himalaya_core::error::Error;

fn maildir_sendmail_account() -> HimalayaTomlAccountConfig {
    HimalayaTomlAccountConfig {
        default: Some(true),
        email: "user@localhost".to_string(),
        display_name: None,
        signature: None,
        signature_delim: None,
        downloads_dir: None,
        backend: Some(Backend::Maildir(MaildirConfig {
            root_dir: "/home/user/Mail".to_string(),
            maildirpp: false,
        })),
        folder: None,
        envelope: None,
        message: Some(MessageConfig {
            send: Some(SendMessageConfig {
                backend: Some(SendingBackend::Sendmail(SendmailConfig {
                    cmd: "/usr/bin/msmtp".to_string(),
                })),
                save_copy: None,
                pre_hook: None,
            }),
        }),
    }
}

#[test]
fn maildir_reads_and_sendmail_sends() {
    let builder = ContextBuilder::new(&maildir_sendmail_account());

    assert_eq!(builder.list_folders(), Some(BackendVariant::Maildir));
    assert_eq!(builder.list_envelopes(), Some(BackendVariant::Maildir));
    assert_eq!(builder.get_messages(), Some(BackendVariant::Maildir));
    assert_eq!(builder.add_message(), Some(BackendVariant::Maildir));
    assert_eq!(builder.copy_messages(), Some(BackendVariant::Maildir));
    assert_eq!(builder.move_messages(), Some(BackendVariant::Maildir));
    assert_eq!(builder.delete_messages(), Some(BackendVariant::Maildir));
    assert_eq!(builder.send_message(), Some(BackendVariant::Sendmail));

    // no other variant is populated
    assert!(builder.imap.is_none());
    assert!(builder.notmuch.is_none());
    assert!(builder.smtp.is_none());
    assert!(builder.maildir.is_some());
    assert!(builder.sendmail.is_some());
}

#[test]
fn no_selection_means_unsupported() {
    let account = HimalayaTomlAccountConfig {
        default: None,
        email: "user@localhost".to_string(),
        display_name: None,
        signature: None,
        signature_delim: None,
        downloads_dir: None,
        backend: None,
        folder: None,
        envelope: None,
        message: None,
    };
    let builder = ContextBuilder::new(&account);
    assert_eq!(builder.list_folders(), None);
    assert_eq!(builder.list_envelopes(), None);
    assert_eq!(builder.send_message(), None);
    assert!(matches!(builder.try_read_feature(), Err(Error::UnsupportedOperation)));
    assert!(matches!(builder.try_send_feature(), Err(Error::UnsupportedOperation)));
}

#[test]
fn typed_resolution_names_the_serving_variant() {
    let builder = ContextBuilder::new(&maildir_sendmail_account());
    assert!(matches!(builder.try_read_feature(), Ok(BackendVariant::Maildir)));
    assert!(matches!(builder.try_send_feature(), Ok(BackendVariant::Sendmail)));
}

#[test]
fn disabled_selection_means_unsupported() {
    let account = HimalayaTomlAccountConfig {
        default: None,
        email: "user@localhost".to_string(),
        display_name: None,
        signature: None,
        signature_delim: None,
        downloads_dir: None,
        backend: Some(Backend::Disabled),
        folder: None,
        envelope: None,
        message: Some(MessageConfig {
            send: Some(SendMessageConfig {
                backend: Some(SendingBackend::Disabled),
                save_copy: None,
                pre_hook: None,
            }),
        }),
    };
    let builder = ContextBuilder::new(&account);
    assert_eq!(builder.list_envelopes(), None);
    assert_eq!(builder.send_message(), None);
}

#[test]
fn cleared_initializers_stop_resolving() {
    let builder = ContextBuilder::new(&maildir_sendmail_account()).without_backend();
    assert_eq!(builder.list_envelopes(), None);
    assert_eq!(builder.send_message(), Some(BackendVariant::Sendmail));

    let builder = ContextBuilder::new(&maildir_sendmail_account()).without_sending_backend();
    assert_eq!(builder.list_envelopes(), Some(BackendVariant::Maildir));
    assert_eq!(builder.send_message(), None);
}

#[test]
fn build_instantiates_sessions_for_the_selected_variants_only() {
    let builder = ContextBuilder::new(&maildir_sendmail_account());
    let outcomes =
        BuildOutcomes { imap: false, maildir: true, notmuch: false, smtp: false, sendmail: true };
    let ctx = builder.build(&outcomes).unwrap();
    assert!(ctx.maildir.is_some());
    assert!(ctx.sendmail.is_some());
    assert!(ctx.imap.is_none());
    assert!(ctx.notmuch.is_none());
    assert!(ctx.smtp.is_none());
    assert_eq!(ctx.maildir.unwrap().config.root_dir, "/home/user/Mail");
    assert_eq!(ctx.sendmail.unwrap().config.cmd, "/usr/bin/msmtp");
}

#[test]
fn one_failed_variant_aborts_the_whole_build() {
    let builder = ContextBuilder::new(&maildir_sendmail_account());
    let outcomes =
        BuildOutcomes { imap: true, maildir: true, notmuch: true, smtp: true, sendmail: false };
    let err = builder.build(&outcomes).unwrap_err();
    assert!(matches!(err, Error::BackendBuildFailure(BackendVariant::Sendmail)));

    let builder = ContextBuilder::new(&maildir_sendmail_account());
    let outcomes =
        BuildOutcomes { imap: true, maildir: false, notmuch: true, smtp: true, sendmail: false };
    let err = builder.build(&outcomes).unwrap_err();
    // the first failing selected variant is the one reported
    assert!(matches!(err, Error::BackendBuildFailure(BackendVariant::Maildir)));
}

#[test]
fn id_mapper_selection_follows_backend_and_persistence() {
    let maildir = Backend::Maildir(MaildirConfig { root_dir: "/m".to_string(), maildirpp: false });
    let notmuch = Backend::Notmuch(himalaya_core::config::NotmuchConfig { database_path: None });
    let imap = Backend::Imap(himalaya_core::config::ImapConfig {
        host: "imap.localhost".to_string(),
        port: 993,
        login: "user".to_string(),
    });

    assert!(!build_id_mapper("work", "INBOX", Some(&maildir), true).is_dummy());
    assert!(!build_id_mapper("work", "INBOX", Some(&notmuch), true).is_dummy());
    assert!(build_id_mapper("work", "INBOX", Some(&imap), true).is_dummy());
    assert!(build_id_mapper("work", "INBOX", Some(&maildir), false).is_dummy());
    assert!(build_id_mapper("work", "INBOX", None, true).is_dummy());
}

#[test]
fn backend_labels() {
    let maildir = Backend::Maildir(MaildirConfig { root_dir: "/m".to_string(), maildirpp: true });
    assert_eq!(maildir.to_string(), "Maildir");
    assert_eq!(Backend::Disabled.to_string(), "None");
    let smtp = SendingBackend::Smtp(SmtpConfig {
        host: "smtp.localhost".to_string(),
        port: 587,
        login: "user".to_string(),
    });
    assert_eq!(smtp.to_string(), "SMTP");
    assert_eq!(SendingBackend::Disabled.to_string(), "None");
}
