//! Account setup: the backend choices offered by the interactive setup and
//! the construction of per-variant configurations from answered prompts.

pub mod notmuch;
pub mod sendmail;

use vstd::prelude::*;

verus! {

/// The read-capable backend offered during setup.
#[derive(Clone, Copy, Debug, PartialEq, Eq, Structural)]
pub enum BackendKind {
    Disabled,
    Imap,
    Maildir,
    Notmuch,
}

impl BackendKind {
    /// The label shown for this choice.
    pub fn to_string(&self) -> (r: String)
        ensures
            *self is Disabled ==> r@ == "None"@,
            *self is Imap ==> r@ == "IMAP"@,
            *self is Maildir ==> r@ == "Maildir"@,
            *self is Notmuch ==> r@ == "Notmuch"@,
    {
        match self {
            BackendKind::Disabled => "None".to_owned(),
            BackendKind::Imap => "IMAP".to_owned(),
            BackendKind::Maildir => "Maildir".to_owned(),
            BackendKind::Notmuch => "Notmuch".to_owned(),
        }
    }
}

/// The send-capable backend offered during setup.
#[derive(Clone, Copy, Debug, PartialEq, Eq, Structural)]
pub enum SendingBackendKind {
    Disabled,
    Smtp,
    Sendmail,
}

impl SendingBackendKind {
    /// The label shown for this choice.
    pub fn to_string(&self) -> (r: String)
        ensures
            *self is Disabled ==> r@ == "None"@,
            *self is Smtp ==> r@ == "SMTP"@,
            *self is Sendmail ==> r@ == "Sendmail"@,
    {
        match self {
            SendingBackendKind::Disabled => "None".to_owned(),
            SendingBackendKind::Smtp => "SMTP".to_owned(),
            SendingBackendKind::Sendmail => "Sendmail".to_owned(),
        }
    }
}

} // verus!
