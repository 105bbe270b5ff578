//! The printable account and folder listings: each configured account is
//! summarized (name, backend labels, default marker) and the summary list
//! is sorted by account name.

use vstd::multiset::Multiset;
use vstd::prelude::*;

use crate::config::{Backend, HimalayaTomlAccountConfig, SendingBackend};

verus! {

/// Lexicographic order on character sequences, by scalar value: the order
/// account names are listed in.
pub open spec fn lex_le(a: Seq<char>, b: Seq<char>) -> bool
    decreases a.len(),
{
    if a.len() == 0 {
        true
    } else if b.len() == 0 {
        false
    } else if (a[0] as u32) == (b[0] as u32) {
        lex_le(a.drop_first(), b.drop_first())
    } else {
        (a[0] as u32) < (b[0] as u32)
    }
}

/// Law: the order is total — of any two names, one comes first.
pub proof fn lemma_lex_total(a: Seq<char>, b: Seq<char>)
    ensures
        lex_le(a, b) || lex_le(b, a),
    decreases a.len(),
{
    if a.len() > 0 && b.len() > 0 && (a[0] as u32) == (b[0] as u32) {
        lemma_lex_total(a.drop_first(), b.drop_first());
    }
}

/// Law: the order is transitive.
pub proof fn lemma_lex_trans(a: Seq<char>, b: Seq<char>, c: Seq<char>)
    requires
        lex_le(a, b),
        lex_le(b, c),
    ensures
        lex_le(a, c),
    decreases a.len(),
{
    if a.len() > 0 && b.len() > 0 && c.len() > 0 && (a[0] as u32) == (b[0] as u32) && (b[0] as u32)
        == (c[0] as u32) {
        lemma_lex_trans(a.drop_first(), b.drop_first(), c.drop_first());
    }
}

/// Compare two strings in lexicographic order.
pub fn str_le(a: &str, b: &str) -> (r: bool)
    ensures
        r == lex_le(a@, b@),
{
    let an = a.unicode_len();
    let bn = b.unicode_len();
    let mut i: usize = 0;
    proof {
        assert(a@.skip(0) =~= a@);
        assert(b@.skip(0) =~= b@);
    }
    while i < an && i < bn
        invariant
            0 <= i <= an,
            0 <= i <= bn,
            an == a@.len(),
            bn == b@.len(),
            lex_le(a@, b@) == lex_le(a@.skip(i as int), b@.skip(i as int)),
            lex_le(b@, a@) == lex_le(b@.skip(i as int), a@.skip(i as int)),
        decreases an - i,
    {
        let ca = a.get_char(i);
        let cb = b.get_char(i);
        proof {
            assert(a@.skip(i as int)[0] == a@[i as int]);
            assert(b@.skip(i as int)[0] == b@[i as int]);
            assert(a@.skip(i as int).drop_first() =~= a@.skip(i as int + 1));
            assert(b@.skip(i as int).drop_first() =~= b@.skip(i as int + 1));
        }
        if (ca as u32) < (cb as u32) {
            proof {
                assert(lex_le(a@.skip(i as int), b@.skip(i as int)));
            }
            return true;
        }
        if (ca as u32) > (cb as u32) {
            proof {
                assert(!lex_le(a@.skip(i as int), b@.skip(i as int)));
            }
            return false;
        }
        i = i + 1;
    }
    proof {
        if i >= an {
            assert(a@.skip(i as int).len() == 0);
            assert(lex_le(a@.skip(i as int), b@.skip(i as int)));
        } else {
            assert(b@.skip(i as int).len() == 0);
            assert(a@.skip(i as int).len() > 0);
            assert(!lex_le(a@.skip(i as int), b@.skip(i as int)));
        }
    }
    i >= an
}

/// A folder of the active account, as listed to the user.
#[derive(Debug)]
pub struct Folder {
    pub name: String,
    pub desc: String,
}

impl Clone for Folder {
    fn clone(&self) -> (res: Self)
        ensures
            res == *self,
    {
        Folder { name: self.name.clone(), desc: self.desc.clone() }
    }
}

/// A folder listing, in the backend's order.
#[derive(Debug)]
pub struct Folders(pub Vec<Folder>);

/// The label of the read Selection in the account listing.
pub open spec fn spec_backend_label(b: Backend) -> Seq<char> {
    match b {
        Backend::Disabled => "None"@,
        Backend::Imap(_) => "IMAP"@,
        Backend::Maildir(_) => "Maildir"@,
        Backend::Notmuch(_) => "Notmuch"@,
    }
}

/// The label of the sending Selection in the account listing.
pub open spec fn spec_sending_label(b: SendingBackend) -> Seq<char> {
    match b {
        SendingBackend::Disabled => "None"@,
        SendingBackend::Smtp(_) => "SMTP"@,
        SendingBackend::Sendmail(_) => "Sendmail"@,
    }
}

/// The backends column of one account entry: the read label, the sending
/// label, or both joined by a comma.
pub open spec fn spec_backends_column(a: HimalayaTomlAccountConfig) -> Seq<char> {
    match (a.backend, a.spec_message_send_backend()) {
        (Some(b), Some(s)) => spec_backend_label(b) + ", "@ + spec_sending_label(s),
        (Some(b), None) => spec_backend_label(b),
        (None, Some(s)) => spec_sending_label(s),
        (None, None) => Seq::empty(),
    }
}

/// Whether one account entry is flagged as the default account.
pub open spec fn spec_is_default(a: HimalayaTomlAccountConfig) -> bool {
    a.default == Some(true)
}

/// The printable summary of one account.
#[derive(Debug)]
pub struct Account {
    pub name: String,
    pub backend: String,
    pub default: bool,
}

/// What the listing shows of an account: its three columns.
pub open spec fn spec_account_view(a: Account) -> (Seq<char>, Seq<char>, bool) {
    (a.name@, a.backend@, a.default)
}

/// The columns one configuration entry contributes to the listing.
pub open spec fn spec_entry_view(e: (String, HimalayaTomlAccountConfig)) -> (
    Seq<char>,
    Seq<char>,
    bool,
) {
    (e.0@, spec_backends_column(e.1), spec_is_default(e.1))
}

impl Clone for Account {
    fn clone(&self) -> (res: Self)
        ensures
            res == *self,
    {
        Account { name: self.name.clone(), backend: self.backend.clone(), default: self.default }
    }
}

impl Account {
    pub fn new(name: &str, backend: &str, default: bool) -> (r: Account)
        ensures
            r.name@ == name@,
            r.backend@ == backend@,
            r.default == default,
    {
        Account { name: name.to_owned(), backend: backend.to_owned(), default }
    }
}

/// The printable account listing, sorted by account name.
#[derive(Debug)]
pub struct Accounts(pub Vec<Account>);

/// The position a new row takes in the sorted listing: after every row
/// whose name does not come later.
fn insert_pos(out: &Vec<Account>, name: &str) -> (j: usize)
    ensures
        j <= out@.len(),
        forall|t: int| 0 <= t < j ==> lex_le((#[trigger] out@[t]).name@, name@),
        j < out@.len() ==> !lex_le(out@[j as int].name@, name@),
{
    let n = out.len();
    let mut j: usize = 0;
    while j < n
        invariant
            0 <= j <= n,
            n == out@.len(),
            forall|t: int| 0 <= t < j ==> lex_le((#[trigger] out@[t]).name@, name@),
        decreases n - j,
    {
        if !str_le(out[j].name.as_str(), name) {
            return j;
        }
        j = j + 1;
    }
    j
}

/// Build the backends column of one entry.
fn backends_column(account: &HimalayaTomlAccountConfig) -> (r: String)
    ensures
        r@ == spec_backends_column(*account),
{
    proof {
        reveal_strlit("None");
        reveal_strlit("IMAP");
        reveal_strlit("Maildir");
        reveal_strlit("Notmuch");
        reveal_strlit("SMTP");
        reveal_strlit("Sendmail");
    }
    let mut backends = String::new();
    match &account.backend {
        Some(b) => {
            let label = b.to_string();
            backends.append(label.as_str());
        },
        None => {},
    }
    match account.message_send_backend() {
        Some(s) => {
            if !backends.as_str().is_empty() {
                backends.append(", ");
            }
            let label = s.to_string();
            backends.append(label.as_str());
        },
        None => {},
    }
    backends
}

impl Accounts {
    /// The listing is sorted when every account name precedes the later
    /// ones in lexicographic order.
    pub open spec fn spec_sorted(s: Seq<Account>) -> bool {
        forall|i: int, j: int|
            0 <= i < j < s.len() ==> lex_le((#[trigger] s[i]).name@, (#[trigger] s[j]).name@)
    }

    /// Build the account listing from the configuration's entries: one
    /// summary per entry (name, backends column, default marker), sorted
    /// by account name. The multiset of shown rows is exactly the multiset
    /// of entry rows — nothing is lost, duplicated or invented.
    pub fn from_entries(entries: &Vec<(String, HimalayaTomlAccountConfig)>) -> (r: Accounts)
        ensures
            r.0@.len() == entries@.len(),
            Self::spec_sorted(r.0@),
            r.0@.map_values(|a: Account| spec_account_view(a)).to_multiset()
                =~= entries@.map_values(
                |e: (String, HimalayaTomlAccountConfig)| spec_entry_view(e),
            ).to_multiset(),
    {
        let n = entries.len();

        // Build one summary per entry, in entry order.
        let mut built: Vec<Account> = Vec::new();
        let mut i: usize = 0;
        while i < n
            invariant
                0 <= i <= n,
                n == entries@.len(),
                built@.len() == i,
                forall|j: int|
                    0 <= j < i ==> spec_account_view(#[trigger] built@[j]) == spec_entry_view(
                        entries@[j],
                    ),
            decreases n - i,
        {
            let entry = &entries[i];
            let backend = backends_column(&entry.1);
            let default = match entry.1.default {
                Some(d) => d,
                None => false,
            };
            let acc = Account { name: entry.0.clone(), backend, default };
            built.push(acc);
            i = i + 1;
        }

        // Sort the summaries by name (insertion sort).
        let ghost target = built@.map_values(|a: Account| spec_account_view(a));
        let mut out: Vec<Account> = Vec::new();
        let mut k: usize = 0;
        proof {
            assert(out@.map_values(|a: Account| spec_account_view(a)) =~= target.subrange(0, 0));
        }
        while k < n
            invariant
                0 <= k <= n,
                n == entries@.len(),
                built@.len() == n,
                out@.len() == k,
                target == built@.map_values(|a: Account| spec_account_view(a)),
                Self::spec_sorted(out@),
                out@.map_values(|a: Account| spec_account_view(a)).to_multiset() =~= target.subrange(
                    0,
                    k as int,
                ).to_multiset(),
            decreases n - k,
        {
            let acc = built[k].clone();
            let j = insert_pos(&out, acc.name.as_str());
            proof {
                if j < out@.len() {
                    lemma_lex_total(out@[j as int].name@, acc.name@);
                }
            }
            let ghost out_pre = out@;
            out.insert(j, acc);
            proof {
                let f = |a: Account| spec_account_view(a);
                let prefix = out_pre.subrange(0, j as int);
                let suffix = out_pre.subrange(j as int, out_pre.len() as int);
                assert(out@ =~= prefix + seq![acc] + suffix);
                assert(out_pre =~= prefix + suffix);
                // Sortedness of the extended listing.
                assert forall|x: int, y: int| 0 <= x < y < out@.len() implies lex_le(
                    (#[trigger] out@[x]).name@,
                    (#[trigger] out@[y]).name@,
                ) by {
                    if x < j && y == j {
                        assert(out@[x] == out_pre[x]);
                    } else if x == j && y > j {
                        assert(out@[y] == out_pre[y - 1]);
                        assert(lex_le(acc.name@, out_pre[j as int].name@));
                        if y - 1 > j {
                            assert(lex_le(out_pre[j as int].name@, out_pre[y - 1].name@));
                            lemma_lex_trans(
                                acc.name@,
                                out_pre[j as int].name@,
                                out_pre[y - 1].name@,
                            );
                        }
                    } else if x < j && y > j {
                        assert(out@[x] == out_pre[x]);
                        assert(out@[y] == out_pre[y - 1]);
                        assert(x < y - 1);
                    } else if x > j && y > j {
                        assert(out@[x] == out_pre[x - 1]);
                        assert(out@[y] == out_pre[y - 1]);
                    } else if x < j && y < j {
                        assert(out@[x] == out_pre[x]);
                        assert(out@[y] == out_pre[y]);
                    }
                }
                // The multiset of rows gains exactly the new row.
                let mapped_pre = out_pre.map_values(f);
                let mapped_new = out@.map_values(f);
                let mp = prefix.map_values(f);
                let ms = suffix.map_values(f);
                assert(mapped_new =~= mp + seq![f(acc)] + ms);
                assert(mapped_pre =~= mp + ms);
                vstd::seq_lib::lemma_multiset_commutative(mp + seq![f(acc)], ms);
                vstd::seq_lib::lemma_multiset_commutative(mp, seq![f(acc)]);
                vstd::seq_lib::lemma_multiset_commutative(mp, ms);
                assert(seq![f(acc)] =~= Seq::<(Seq<char>, Seq<char>, bool)>::empty().push(f(acc)));
                Seq::<(Seq<char>, Seq<char>, bool)>::empty().to_multiset_ensures();
                assert(seq![f(acc)].to_multiset() =~= Multiset::<(
                    Seq<char>,
                    Seq<char>,
                    bool,
                )>::empty().insert(f(acc)));
                // The target prefix also gains exactly that row.
                assert(target.subrange(0, k + 1) =~= target.subrange(0, k as int).push(
                    target[k as int],
                ));
                target.subrange(0, k as int).to_multiset_ensures();
                assert(target[k as int] == f(acc));
                assert(mapped_new.to_multiset() =~= target.subrange(0, k + 1).to_multiset());
            }
            k = k + 1;
        }
        proof {
            assert(target.subrange(0, n as int) =~= target);
            assert(target =~= entries@.map_values(
                |e: (String, HimalayaTomlAccountConfig)| spec_entry_view(e),
            ));
        }
        Accounts(out)
    }
}

} // verus!
