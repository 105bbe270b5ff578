//! Output-format selection and the plain message wrapper the printer uses.

use vstd::prelude::*;

use crate::error::Error;

verus! {

/// An uppercase ASCII letter.
pub open spec fn is_ascii_upper(c: char) -> bool {
    65 <= (c as u32) <= 90
}

/// Case-insensitive equality of two ASCII characters.
pub open spec fn ci_eq_char(a: char, b: char) -> bool {
    ||| a == b
    ||| (is_ascii_upper(a) && (a as u32) + 32 == (b as u32))
    ||| (is_ascii_upper(b) && (b as u32) + 32 == (a as u32))
}

/// `s` spells "json", in any case.
pub open spec fn spec_is_json_word(s: Seq<char>) -> bool {
    s.len() == 4 && ci_eq_char(s[0], 'j') && ci_eq_char(s[1], 's') && ci_eq_char(s[2], 'o')
        && ci_eq_char(s[3], 'n')
}

/// `s` spells "plain", in any case.
pub open spec fn spec_is_plain_word(s: Seq<char>) -> bool {
    s.len() == 5 && ci_eq_char(s[0], 'p') && ci_eq_char(s[1], 'l') && ci_eq_char(s[2], 'a')
        && ci_eq_char(s[3], 'i') && ci_eq_char(s[4], 'n')
}

fn ci_eq(a: char, lower: char, upper: char) -> (r: bool)
    requires
        is_ascii_upper(upper),
        (upper as u32) + 32 == (lower as u32),
    ensures
        r == ci_eq_char(a, lower),
{
    a == lower || a == upper
}

/// The available output formats.
#[derive(Clone, Copy, Debug, PartialEq, Eq, Structural)]
pub enum OutputFmt {
    Plain,
    Json,
}

impl Default for OutputFmt {
    fn default() -> (r: Self)
        ensures
            r == OutputFmt::Plain,
    {
        OutputFmt::Plain
    }
}

impl OutputFmt {
    /// Parse a format name, matched case-insensitively; anything that is
    /// neither "json" nor "plain" is rejected with the offending text.
    pub fn from_str(fmt: &str) -> (r: Result<OutputFmt, Error>)
        ensures
            spec_is_json_word(fmt@) ==> r == Ok::<OutputFmt, Error>(OutputFmt::Json),
            !spec_is_json_word(fmt@) && spec_is_plain_word(fmt@) ==> r == Ok::<
                OutputFmt,
                Error,
            >(OutputFmt::Plain),
            !spec_is_json_word(fmt@) && !spec_is_plain_word(fmt@) ==> (r matches Err(e)
                && e matches Error::CannotParseOutputFmt(s) && s@ == fmt@),
    {
        let n = fmt.unicode_len();
        if n == 4 {
            let j = ci_eq(fmt.get_char(0), 'j', 'J');
            let o = ci_eq(fmt.get_char(1), 's', 'S');
            let s = ci_eq(fmt.get_char(2), 'o', 'O');
            let w = ci_eq(fmt.get_char(3), 'n', 'N');
            if j && o && s && w {
                return Ok(OutputFmt::Json);
            }
        }
        if n == 5 {
            let p = ci_eq(fmt.get_char(0), 'p', 'P');
            let l = ci_eq(fmt.get_char(1), 'l', 'L');
            let a = ci_eq(fmt.get_char(2), 'a', 'A');
            let i = ci_eq(fmt.get_char(3), 'i', 'I');
            let m = ci_eq(fmt.get_char(4), 'n', 'N');
            if p && l && a && i && m {
                return Ok(OutputFmt::Plain);
            }
        }
        Err(Error::CannotParseOutputFmt(fmt.to_owned()))
    }

    /// The display name of the format.
    pub fn to_string(&self) -> (r: String)
        ensures
            *self is Plain ==> r@ == "Plain"@,
            *self is Json ==> r@ == "JSON"@,
    {
        match self {
            OutputFmt::Plain => "Plain".to_owned(),
            OutputFmt::Json => "JSON".to_owned(),
        }
    }

    /// Whether this format is the JSON one.
    pub fn is_json(&self) -> (r: bool)
        ensures
            r == (*self is Json),
    {
        match self {
            OutputFmt::Json => true,
            OutputFmt::Plain => false,
        }
    }
}

/// A plain text message, wrapped so that structured output can carry it as
/// a single named field.
#[derive(Debug)]
pub struct Message {
    pub message: String,
}

impl Message {
    pub fn new(message: &str) -> (r: Message)
        ensures
            r.message@ == message@,
    {
        Message { message: message.to_owned() }
    }
}

} // verus!
