//! Decimal rendering and parsing of unsigned integers.
//!
//! Short message aliases are presented to the user as decimal strings, so the
//! alias store needs an exact account of how an integer and its decimal text
//! relate. `spec_digits` is the canonical rendering, `seq_val` the value of a
//! digit string, and the round-trip lemmas tie the two together.

use vstd::prelude::*;

verus! {

/// The character for a single decimal digit.
pub open spec fn digit_char(d: nat) -> char {
    if d == 0 {
        '0'
    } else if d == 1 {
        '1'
    } else if d == 2 {
        '2'
    } else if d == 3 {
        '3'
    } else if d == 4 {
        '4'
    } else if d == 5 {
        '5'
    } else if d == 6 {
        '6'
    } else if d == 7 {
        '7'
    } else if d == 8 {
        '8'
    } else {
        '9'
    }
}

/// Canonical decimal rendering of `n`: no sign, no leading zeros
/// (except for `n == 0`, rendered as "0").
pub open spec fn spec_digits(n: nat) -> Seq<char>
    decreases n,
{
    if n < 10 {
        seq![digit_char(n)]
    } else {
        spec_digits(n / 10).push(digit_char(n % 10))
    }
}

pub open spec fn is_digit(c: char) -> bool {
    48 <= (c as u32) <= 57
}

pub open spec fn digit_val(c: char) -> nat {
    ((c as u32) - 48) as nat
}

pub open spec fn all_digits(s: Seq<char>) -> bool {
    forall|i: int| 0 <= i < s.len() ==> is_digit(#[trigger] s[i])
}

/// The numeric value of a digit string, most significant digit first.
pub open spec fn seq_val(s: Seq<char>) -> nat
    decreases s.len(),
{
    if s.len() == 0 {
        0
    } else {
        seq_val(s.drop_last()) * 10 + digit_val(s.last())
    }
}

/// Rendering an integer gives only digits, at least one of them.
pub proof fn lemma_digits_wf(n: nat)
    ensures
        spec_digits(n).len() >= 1,
        all_digits(spec_digits(n)),
    decreases n,
{
    if n >= 10 {
        lemma_digits_wf(n / 10);
    }
}

/// Reading the canonical rendering of `n` back yields `n`.
pub proof fn lemma_digits_roundtrip(n: nat)
    ensures
        seq_val(spec_digits(n)) == n,
    decreases n,
{
    if n < 10 {
        let s = seq![digit_char(n)];
        assert(s.drop_last() =~= Seq::<char>::empty());
        assert(seq_val(s) == seq_val(s.drop_last()) * 10 + digit_val(s.last()));
        assert(digit_val(digit_char(n)) == n);
    } else {
        lemma_digits_roundtrip(n / 10);
        let s = spec_digits(n);
        assert(s.drop_last() =~= spec_digits(n / 10));
        assert(s.last() == digit_char(n % 10));
        assert(digit_val(digit_char(n % 10)) == n % 10);
        assert(n == (n / 10) * 10 + n % 10) by (nonlinear_arith);
    }
}

/// Distinct integers have distinct canonical renderings.
pub proof fn lemma_digits_injective(a: nat, b: nat)
    requires
        spec_digits(a) == spec_digits(b),
    ensures
        a == b,
{
    lemma_digits_roundtrip(a);
    lemma_digits_roundtrip(b);
}

/// The value of a digit string dominates the value of any of its prefixes.
pub proof fn lemma_seq_val_prefix(s: Seq<char>, i: int)
    requires
        0 <= i <= s.len(),
    ensures
        seq_val(s) >= seq_val(s.subrange(0, i)),
    decreases s.len() - i,
{
    if i < s.len() {
        let t = s.subrange(0, i + 1);
        assert(t.drop_last() =~= s.subrange(0, i));
        assert(seq_val(t) == seq_val(s.subrange(0, i)) * 10 + digit_val(t.last()));
        assert(seq_val(s.subrange(0, i)) * 10 >= seq_val(s.subrange(0, i))) by (nonlinear_arith);
        lemma_seq_val_prefix(s, i + 1);
        assert(s.subrange(0, s.len() as int) =~= s);
    } else {
        assert(s.subrange(0, s.len() as int) =~= s);
    }
}

fn digit_to_char(d: usize) -> (c: char)
    requires
        d < 10,
    ensures
        c == digit_char(d as nat),
{
    if d == 0 {
        '0'
    } else if d == 1 {
        '1'
    } else if d == 2 {
        '2'
    } else if d == 3 {
        '3'
    } else if d == 4 {
        '4'
    } else if d == 5 {
        '5'
    } else if d == 6 {
        '6'
    } else if d == 7 {
        '7'
    } else if d == 8 {
        '8'
    } else {
        '9'
    }
}

/// Relies on std's String::push: appends the given char to the end of the string.
#[verifier::external_body]
pub(crate) fn push_char(s: &mut String, c: char)
    ensures
        final(s)@ == old(s)@.push(c),
{
    s.push(c);
}

/// Render `n` as its canonical decimal string.
pub fn usize_to_string(n: usize) -> (r: String)
    ensures
        r@ == spec_digits(n as nat),
    decreases n,
{
    if n < 10 {
        let mut s = String::new();
        push_char(&mut s, digit_to_char(n));
        assert(s@ =~= spec_digits(n as nat));
        s
    } else {
        let mut s = usize_to_string(n / 10);
        push_char(&mut s, digit_to_char(n % 10));
        assert(s@ =~= spec_digits(n as nat));
        s
    }
}

/// Parse a decimal string: `Some` exactly when the string is nonempty, all
/// digits, and its value fits in a `usize`.
pub fn parse_usize(s: &str) -> (r: Option<usize>)
    ensures
        r matches Some(v) ==> s@.len() > 0 && all_digits(s@) && seq_val(s@) == v as nat,
        r is None ==> s@.len() == 0 || !all_digits(s@) || seq_val(s@) > usize::MAX,
{
    let len = s.unicode_len();
    if len == 0 {
        return None;
    }
    let mut n: usize = 0;
    let mut i: usize = 0;
    while i < len
        invariant
            0 <= i <= len,
            len == s@.len(),
            all_digits(s@.subrange(0, i as int)),
            n as nat == seq_val(s@.subrange(0, i as int)),
        decreases len - i,
    {
        let c = s.get_char(i);
        let cv = c as u32;
        if cv < 48 || cv > 57 {
            assert(!is_digit(s@[i as int]));
            return None;
        }
        let d = (cv - 48) as usize;
        assert(d < 10);
        if n > (usize::MAX - d) / 10 {
            proof {
                let pre = s@.subrange(0, i as int);
                let ext = s@.subrange(0, i as int + 1);
                assert(ext.drop_last() =~= pre);
                assert(seq_val(ext) == seq_val(pre) * 10 + d);
                assert(seq_val(pre) >= (usize::MAX - d) / 10 + 1);
                assert(((usize::MAX - d) / 10 + 1) * 10 + d > usize::MAX) by (nonlinear_arith);
                assert(seq_val(pre) * 10 + d >= ((usize::MAX - d) / 10 + 1) * 10 + d) by (nonlinear_arith)
                    requires
                        seq_val(pre) >= (usize::MAX - d) / 10 + 1,
                        d < 10,
                ;
                lemma_seq_val_prefix(s@, i as int + 1);
            }
            return None;
        }
        proof {
            let pre = s@.subrange(0, i as int);
            let ext = s@.subrange(0, i as int + 1);
            assert(ext.drop_last() =~= pre);
            assert(ext.last() == s@[i as int]);
            assert(seq_val(pre) * 10 <= ((usize::MAX - d) / 10) * 10) by (nonlinear_arith)
                requires
                    seq_val(pre) <= (usize::MAX - d) / 10,
            ;
        }
        n = n * 10 + d;
        i = i + 1;
    }
    proof {
        assert(s@.subrange(0, len as int) =~= s@);
    }
    Some(n)
}

} // verus!
