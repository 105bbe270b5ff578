//! Backend capability dispatch.
//!
//! A per-account `ContextBuilder` holds one optional initializer per backend
//! variant, populated only for the variant each Selection names. Every one
//! of the eight operations resolves, through the builder, to the single
//! variant that implements it — or to nothing, in which case the operation
//! is unsupported. `build` turns the initializers into live sessions; a
//! failure of any selected variant aborts the whole construction.

use vstd::prelude::*;

use crate::config::{
    Backend, HimalayaTomlAccountConfig, ImapConfig, MaildirConfig, NotmuchConfig, SendingBackend,
    SendmailConfig, SmtpConfig,
};
use crate::error::Error;
use crate::id_mapper::IdMapper;

verus! {

/// One concrete transport/storage variant, used to name which session an
/// operation resolved to and which variant failed to initialize.
#[derive(Clone, Copy, Debug, PartialEq, Eq, Structural)]
pub enum BackendVariant {
    Imap,
    Maildir,
    Notmuch,
    Smtp,
    Sendmail,
}

/// The display name of a backend variant.
pub open spec fn spec_variant_label(v: BackendVariant) -> Seq<char> {
    match v {
        BackendVariant::Imap => "IMAP"@,
        BackendVariant::Maildir => "Maildir"@,
        BackendVariant::Notmuch => "Notmuch"@,
        BackendVariant::Smtp => "SMTP"@,
        BackendVariant::Sendmail => "Sendmail"@,
    }
}

impl BackendVariant {
    /// The display name of the variant.
    pub fn to_string(&self) -> (r: String)
        ensures
            r@ == spec_variant_label(*self),
    {
        match self {
            BackendVariant::Imap => "IMAP".to_owned(),
            BackendVariant::Maildir => "Maildir".to_owned(),
            BackendVariant::Notmuch => "Notmuch".to_owned(),
            BackendVariant::Smtp => "SMTP".to_owned(),
            BackendVariant::Sendmail => "Sendmail".to_owned(),
        }
    }
}

/// A live IMAP-like session handle.
#[derive(Debug)]
pub struct ImapSession {
    pub config: ImapConfig,
}

/// A live maildir-like session handle.
#[derive(Debug)]
pub struct MaildirSession {
    pub config: MaildirConfig,
}

/// A live search-index session handle.
#[derive(Debug)]
pub struct NotmuchSession {
    pub config: NotmuchConfig,
}

/// A live remote-submission session handle.
#[derive(Debug)]
pub struct SmtpSession {
    pub config: SmtpConfig,
}

/// A live command-based sending session handle.
#[derive(Debug)]
pub struct SendmailSession {
    pub config: SendmailConfig,
}

/// The per-account set of live sessions: one optional session per variant,
/// populated only for the selected variant(s). Sessions are exclusively
/// owned by this context and closed when it is dropped.
#[derive(Debug)]
pub struct Context {
    pub imap: Option<ImapSession>,
    pub maildir: Option<MaildirSession>,
    pub notmuch: Option<NotmuchSession>,
    pub smtp: Option<SmtpSession>,
    pub sendmail: Option<SendmailSession>,
}

/// The outcome of the asynchronous, per-variant session initialization that
/// the caller performs: `true` means the variant's session came up. Flags
/// of variants without an initializer are ignored.
#[derive(Debug)]
pub struct BuildOutcomes {
    pub imap: bool,
    pub maildir: bool,
    pub notmuch: bool,
    pub smtp: bool,
    pub sendmail: bool,
}

/// Per-account builder: the two Selections, and one optional initializer
/// per variant, populated only for the selected variant of each category.
#[derive(Debug)]
pub struct ContextBuilder {
    pub backend: Option<Backend>,
    pub sending_backend: Option<SendingBackend>,
    pub imap: Option<ImapConfig>,
    pub maildir: Option<MaildirConfig>,
    pub notmuch: Option<NotmuchConfig>,
    pub smtp: Option<SmtpConfig>,
    pub sendmail: Option<SendmailConfig>,
}

impl ContextBuilder {
    /// Structural invariant of the dispatcher (the "at most one live
    /// variant per category" rule): each initializer is populated exactly
    /// when its variant is the Selection of its category, and then holds
    /// that Selection's parameters.
    pub open spec fn wf(self) -> bool {
        &&& (self.imap is Some <==> self.backend matches Some(Backend::Imap(_)))
        &&& (self.imap matches Some(c) ==> (self.backend matches Some(Backend::Imap(c2)) && c
            == c2))
        &&& (self.maildir is Some <==> self.backend matches Some(Backend::Maildir(_)))
        &&& (self.maildir matches Some(c) ==> (self.backend matches Some(Backend::Maildir(c2))
            && c == c2))
        &&& (self.notmuch is Some <==> self.backend matches Some(Backend::Notmuch(_)))
        &&& (self.notmuch matches Some(c) ==> (self.backend matches Some(Backend::Notmuch(c2))
            && c == c2))
        &&& (self.smtp is Some <==> self.sending_backend matches Some(SendingBackend::Smtp(_)))
        &&& (self.smtp matches Some(c) ==> (self.sending_backend matches Some(
            SendingBackend::Smtp(c2),
        ) && c == c2))
        &&& (self.sendmail is Some <==> self.sending_backend matches Some(
            SendingBackend::Sendmail(_),
        ))
        &&& (self.sendmail matches Some(c) ==> (self.sending_backend matches Some(
            SendingBackend::Sendmail(c2),
        ) && c == c2))
    }

    /// Populate the builder from an account entry: the read Selection and
    /// the sending Selection each feed exactly one initializer.
    pub fn new(account: &HimalayaTomlAccountConfig) -> (r: ContextBuilder)
        ensures
            r.wf(),
            r.backend == account.backend,
            r.sending_backend == account.spec_message_send_backend(),
    {
        let backend = match &account.backend {
            Some(b) => Some(b.clone()),
            None => None,
        };
        let sending_backend = match account.message_send_backend() {
            Some(b) => Some(b.clone()),
            None => None,
        };
        let imap = match &account.backend {
            Some(Backend::Imap(c)) => Some(c.clone()),
            _ => None,
        };
        let maildir = match &account.backend {
            Some(Backend::Maildir(c)) => Some(c.clone()),
            _ => None,
        };
        let notmuch = match &account.backend {
            Some(Backend::Notmuch(c)) => Some(c.clone()),
            _ => None,
        };
        let smtp = match account.message_send_backend() {
            Some(SendingBackend::Smtp(c)) => Some(c.clone()),
            _ => None,
        };
        let sendmail = match account.message_send_backend() {
            Some(SendingBackend::Sendmail(c)) => Some(c.clone()),
            _ => None,
        };
        ContextBuilder { backend, sending_backend, imap, maildir, notmuch, smtp, sendmail }
    }

    /// Which variant serves the read-routed operations, if any: the read
    /// Selection's variant, provided its initializer is populated.
    pub open spec fn spec_read_feature(self) -> Option<BackendVariant> {
        match self.backend {
            Some(Backend::Imap(_)) => if self.imap is Some {
                Some(BackendVariant::Imap)
            } else {
                None
            },
            Some(Backend::Maildir(_)) => if self.maildir is Some {
                Some(BackendVariant::Maildir)
            } else {
                None
            },
            Some(Backend::Notmuch(_)) => if self.notmuch is Some {
                Some(BackendVariant::Notmuch)
            } else {
                None
            },
            _ => None,
        }
    }

    /// Which variant serves `send_message`, if any: the sending
    /// Selection's variant, provided its initializer is populated.
    pub open spec fn spec_send_feature(self) -> Option<BackendVariant> {
        match self.sending_backend {
            Some(SendingBackend::Smtp(_)) => if self.smtp is Some {
                Some(BackendVariant::Smtp)
            } else {
                None
            },
            Some(SendingBackend::Sendmail(_)) => if self.sendmail is Some {
                Some(BackendVariant::Sendmail)
            } else {
                None
            },
            _ => None,
        }
    }

    fn read_feature(&self) -> (r: Option<BackendVariant>)
        ensures
            r == self.spec_read_feature(),
    {
        match &self.backend {
            Some(Backend::Imap(_)) => match &self.imap {
                Some(_) => Some(BackendVariant::Imap),
                None => None,
            },
            Some(Backend::Maildir(_)) => match &self.maildir {
                Some(_) => Some(BackendVariant::Maildir),
                None => None,
            },
            Some(Backend::Notmuch(_)) => match &self.notmuch {
                Some(_) => Some(BackendVariant::Notmuch),
                None => None,
            },
            _ => None,
        }
    }

    /// Resolve `list_folders`: routed by the read Selection.
    pub fn list_folders(&self) -> (r: Option<BackendVariant>)
        ensures
            r == self.spec_read_feature(),
    {
        self.read_feature()
    }

    /// Resolve `list_envelopes`: routed by the read Selection.
    pub fn list_envelopes(&self) -> (r: Option<BackendVariant>)
        ensures
            r == self.spec_read_feature(),
    {
        self.read_feature()
    }

    /// Resolve `get_messages`: routed by the read Selection.
    pub fn get_messages(&self) -> (r: Option<BackendVariant>)
        ensures
            r == self.spec_read_feature(),
    {
        self.read_feature()
    }

    /// Resolve `add_message`: routed by the read Selection.
    pub fn add_message(&self) -> (r: Option<BackendVariant>)
        ensures
            r == self.spec_read_feature(),
    {
        self.read_feature()
    }

    /// Resolve `copy_messages`: routed by the read Selection.
    pub fn copy_messages(&self) -> (r: Option<BackendVariant>)
        ensures
            r == self.spec_read_feature(),
    {
        self.read_feature()
    }

    /// Resolve `move_messages`: routed by the read Selection.
    pub fn move_messages(&self) -> (r: Option<BackendVariant>)
        ensures
            r == self.spec_read_feature(),
    {
        self.read_feature()
    }

    /// Resolve `delete_messages`: routed by the read Selection.
    pub fn delete_messages(&self) -> (r: Option<BackendVariant>)
        ensures
            r == self.spec_read_feature(),
    {
        self.read_feature()
    }

    /// Resolve `send_message`: routed by the sending Selection.
    pub fn send_message(&self) -> (r: Option<BackendVariant>)
        ensures
            r == self.spec_send_feature(),
    {
        match &self.sending_backend {
            Some(SendingBackend::Smtp(_)) => match &self.smtp {
                Some(_) => Some(BackendVariant::Smtp),
                None => None,
            },
            Some(SendingBackend::Sendmail(_)) => match &self.sendmail {
                Some(_) => Some(BackendVariant::Sendmail),
                None => None,
            },
            _ => None,
        }
    }

    /// Resolve a read-routed operation to its serving variant, or surface
    /// the typed unsupported failure when the Selection is absent, disabled
    /// or without initializer.
    pub fn try_read_feature(&self) -> (r: Result<BackendVariant, Error>)
        ensures
            match self.spec_read_feature() {
                Some(v) => r == Ok::<BackendVariant, Error>(v),
                None => r matches Err(e) && e is UnsupportedOperation,
            },
    {
        match self.read_feature() {
            Some(v) => Ok(v),
            None => Err(Error::UnsupportedOperation),
        }
    }

    /// Resolve `send_message` to its serving variant, or surface the typed
    /// unsupported failure.
    pub fn try_send_feature(&self) -> (r: Result<BackendVariant, Error>)
        ensures
            match self.spec_send_feature() {
                Some(v) => r == Ok::<BackendVariant, Error>(v),
                None => r matches Err(e) && e is UnsupportedOperation,
            },
    {
        match self.send_message() {
            Some(v) => Ok(v),
            None => Err(Error::UnsupportedOperation),
        }
    }

    /// Clear the read-side initializers, leaving the sending side intact.
    pub fn without_backend(self) -> (r: ContextBuilder)
        ensures
            r.imap is None,
            r.maildir is None,
            r.notmuch is None,
            r.smtp == self.smtp,
            r.sendmail == self.sendmail,
            r.backend == self.backend,
            r.sending_backend == self.sending_backend,
    {
        ContextBuilder { imap: None, maildir: None, notmuch: None, ..self }
    }

    /// Clear the sending-side initializers, leaving the read side intact.
    pub fn without_sending_backend(self) -> (r: ContextBuilder)
        ensures
            r.smtp is None,
            r.sendmail is None,
            r.imap == self.imap,
            r.maildir == self.maildir,
            r.notmuch == self.notmuch,
            r.backend == self.backend,
            r.sending_backend == self.sending_backend,
    {
        ContextBuilder { smtp: None, sendmail: None, ..self }
    }

    /// The selected variant whose initialization failed first, in the fixed
    /// order the variants are built, if any.
    pub open spec fn spec_build_failure(self, outcomes: BuildOutcomes) -> Option<BackendVariant> {
        if self.imap is Some && !outcomes.imap {
            Some(BackendVariant::Imap)
        } else if self.maildir is Some && !outcomes.maildir {
            Some(BackendVariant::Maildir)
        } else if self.notmuch is Some && !outcomes.notmuch {
            Some(BackendVariant::Notmuch)
        } else if self.smtp is Some && !outcomes.smtp {
            Some(BackendVariant::Smtp)
        } else if self.sendmail is Some && !outcomes.sendmail {
            Some(BackendVariant::Sendmail)
        } else {
            None
        }
    }

    /// Consume the builder and produce the live context. The caller reports
    /// in `outcomes` whether each selected variant's session initialization
    /// succeeded; the context instantiates sessions exactly for the
    /// populated initializers, and the failure of any selected variant
    /// aborts the whole construction — no partial context is ever returned.
    pub fn build(self, outcomes: &BuildOutcomes) -> (r: Result<Context, Error>)
        ensures
            r is Ok <==> self.spec_build_failure(*outcomes) is None,
            r matches Ok(ctx) ==> {
                &&& (ctx.imap is Some <==> self.imap is Some)
                &&& (ctx.imap matches Some(s) ==> (self.imap matches Some(c) && s.config == c))
                &&& (ctx.maildir is Some <==> self.maildir is Some)
                &&& (ctx.maildir matches Some(s) ==> (self.maildir matches Some(c) && s.config
                    == c))
                &&& (ctx.notmuch is Some <==> self.notmuch is Some)
                &&& (ctx.notmuch matches Some(s) ==> (self.notmuch matches Some(c) && s.config
                    == c))
                &&& (ctx.smtp is Some <==> self.smtp is Some)
                &&& (ctx.smtp matches Some(s) ==> (self.smtp matches Some(c) && s.config == c))
                &&& (ctx.sendmail is Some <==> self.sendmail is Some)
                &&& (ctx.sendmail matches Some(s) ==> (self.sendmail matches Some(c) && s.config
                    == c))
            },
            r matches Err(e) ==> (e matches Error::BackendBuildFailure(v) && Some(v)
                == self.spec_build_failure(*outcomes)),
    {
        let imap = match self.imap {
            Some(c) => {
                if !outcomes.imap {
                    return Err(Error::BackendBuildFailure(BackendVariant::Imap));
                }
                Some(ImapSession { config: c })
            },
            None => None,
        };
        let maildir = match self.maildir {
            Some(c) => {
                if !outcomes.maildir {
                    return Err(Error::BackendBuildFailure(BackendVariant::Maildir));
                }
                Some(MaildirSession { config: c })
            },
            None => None,
        };
        let notmuch = match self.notmuch {
            Some(c) => {
                if !outcomes.notmuch {
                    return Err(Error::BackendBuildFailure(BackendVariant::Notmuch));
                }
                Some(NotmuchSession { config: c })
            },
            None => None,
        };
        let smtp = match self.smtp {
            Some(c) => {
                if !outcomes.smtp {
                    return Err(Error::BackendBuildFailure(BackendVariant::Smtp));
                }
                Some(SmtpSession { config: c })
            },
            None => None,
        };
        let sendmail = match self.sendmail {
            Some(c) => {
                if !outcomes.sendmail {
                    return Err(Error::BackendBuildFailure(BackendVariant::Sendmail));
                }
                Some(SendmailSession { config: c })
            },
            None => None,
        };
        Ok(Context { imap, maildir, notmuch, smtp, sendmail })
    }
}

/// Law: dispatch is exclusive and structural. Under a well-formed builder
/// the read-routed operations resolve to the read Selection's variant and
/// nothing else, `send_message` resolves to the sending Selection's variant
/// and nothing else, and an absent or disabled Selection resolves to
/// nothing.
pub proof fn lemma_dispatch_exclusive(b: ContextBuilder)
    requires
        b.wf(),
    ensures
        b.backend matches Some(Backend::Imap(_)) ==> b.spec_read_feature() == Some(
            BackendVariant::Imap,
        ),
        b.backend matches Some(Backend::Maildir(_)) ==> b.spec_read_feature() == Some(
            BackendVariant::Maildir,
        ),
        b.backend matches Some(Backend::Notmuch(_)) ==> b.spec_read_feature() == Some(
            BackendVariant::Notmuch,
        ),
        (b.backend is None || b.backend matches Some(Backend::Disabled))
            ==> b.spec_read_feature() is None,
        b.sending_backend matches Some(SendingBackend::Smtp(_)) ==> b.spec_send_feature() == Some(
            BackendVariant::Smtp,
        ),
        b.sending_backend matches Some(SendingBackend::Sendmail(_)) ==> b.spec_send_feature()
            == Some(BackendVariant::Sendmail),
        (b.sending_backend is None || b.sending_backend matches Some(SendingBackend::Disabled))
            ==> b.spec_send_feature() is None,
        b.spec_read_feature() != Some(BackendVariant::Smtp),
        b.spec_read_feature() != Some(BackendVariant::Sendmail),
        b.spec_send_feature() != Some(BackendVariant::Imap),
        b.spec_send_feature() != Some(BackendVariant::Maildir),
        b.spec_send_feature() != Some(BackendVariant::Notmuch),
{
}

/// Select the alias store for one (account, folder) scope: the persistent
/// table for the local backends that emit opaque identifiers (maildir-like
/// and search-index), when persistence is available; the pass-through
/// variant otherwise.
pub fn build_id_mapper(
    account: &str,
    folder: &str,
    backend: Option<&Backend>,
    persistence: bool,
) -> (r: IdMapper)
    ensures
        r.wf(),
        r.is_pass_through() <==> !(persistence && (backend matches Some(b) && (b is Maildir
            || b is Notmuch))),
        !r.is_pass_through() ==> r.tab() =~= Seq::<Seq<char>>::empty(),
{
    if persistence {
        match backend {
            Some(Backend::Maildir(_)) => IdMapper::persistent(account, folder),
            Some(Backend::Notmuch(_)) => IdMapper::persistent(account, folder),
            _ => IdMapper::dummy(),
        }
    } else {
        IdMapper::dummy()
    }
}

} // verus!
