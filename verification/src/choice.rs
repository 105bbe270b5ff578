//! The choices offered around editing a draft message.

use vstd::prelude::*;

verus! {

/// What to do with a draft found before editing.
#[derive(Clone, Copy, Debug, PartialEq, Eq, Structural)]
pub enum PreEditChoice {
    Edit,
    Discard,
    Quit,
}

impl PreEditChoice {
    /// The label shown for this choice.
    pub fn to_string(&self) -> (r: String)
        ensures
            *self is Edit ==> r@ == "Edit it"@,
            *self is Discard ==> r@ == "Discard it"@,
            *self is Quit ==> r@ == "Quit"@,
    {
        match self {
            PreEditChoice::Edit => "Edit it".to_owned(),
            PreEditChoice::Discard => "Discard it".to_owned(),
            PreEditChoice::Quit => "Quit".to_owned(),
        }
    }
}

/// What to do with a message once edited.
#[derive(Clone, Copy, Debug, PartialEq, Eq, Structural)]
pub enum PostEditChoice {
    View,
    ViewMime,
    Send,
    Edit,
    LocalDraft,
    RemoteDraft,
    Discard,
}

impl PostEditChoice {
    /// The label shown for this choice.
    pub fn to_string(&self) -> (r: String)
        ensures
            *self is View ==> r@ == "View it"@,
            *self is ViewMime ==> r@ == "View MIME message"@,
            *self is Send ==> r@ == "Send it"@,
            *self is Edit ==> r@ == "Edit it again"@,
            *self is LocalDraft ==> r@ == "Save it as local draft"@,
            *self is RemoteDraft ==> r@ == "Save it as remote draft"@,
            *self is Discard ==> r@ == "Discard it"@,
    {
        match self {
            PostEditChoice::View => "View it".to_owned(),
            PostEditChoice::ViewMime => "View MIME message".to_owned(),
            PostEditChoice::Send => "Send it".to_owned(),
            PostEditChoice::Edit => "Edit it again".to_owned(),
            PostEditChoice::LocalDraft => "Save it as local draft".to_owned(),
            PostEditChoice::RemoteDraft => "Save it as remote draft".to_owned(),
            PostEditChoice::Discard => "Discard it".to_owned(),
        }
    }
}

} // verus!
