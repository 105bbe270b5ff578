//! The alias store: a stable bijection between backend-native message
//! identifiers and small positive integers, scoped per (account, folder).
//!
//! Two variants exist. The persistent variant keeps a table of native
//! identifiers in allocation order, so the identifier stored at index `i`
//! owns the short alias `i + 1`: aliases start at 1, grow monotonically and
//! are never reused. The pass-through variant is the identity on the native
//! identifier's textual form and never fails a lookup; it is used when the
//! active backend already emits short stable identifiers or no persistence
//! is available.

use vstd::prelude::*;

use crate::digits::{all_digits, parse_usize, seq_val, spec_digits, usize_to_string};
use crate::error::Error;
use crate::strutil::str_eq;

verus! {

/// No native identifier occurs twice in the table.
pub open spec fn distinct_ids(t: Seq<Seq<char>>) -> bool {
    forall|i: int, j: int| 0 <= i < j < t.len() ==> t[i] != t[j]
}

/// Model of alias allocation: an already-known identifier keeps its alias,
/// an unknown one is appended and receives the next integer.
pub open spec fn spec_get_or_create(t: Seq<Seq<char>>, x: Seq<char>) -> (Seq<Seq<char>>, nat) {
    if t.contains(x) {
        (t, (t.index_of(x) + 1) as nat)
    } else {
        (t.push(x), (t.len() + 1) as nat)
    }
}

/// Model of a numeric lookup: alias `n` names the identifier stored at
/// index `n - 1`, if any.
pub open spec fn spec_get_id(t: Seq<Seq<char>>, n: nat) -> Option<Seq<char>> {
    if 1 <= n <= t.len() {
        Some(t[n - 1])
    } else {
        None
    }
}

/// A textual alias parses as a decimal number, or it names nothing.
pub open spec fn spec_parse_alias(a: Seq<char>) -> Option<nat> {
    if a.len() > 0 && all_digits(a) {
        Some(seq_val(a))
    } else {
        None
    }
}

/// Model of a textual lookup against the persistent table.
pub open spec fn spec_lookup(t: Seq<Seq<char>>, a: Seq<char>) -> Option<Seq<char>> {
    match spec_parse_alias(a) {
        Some(n) => spec_get_id(t, n),
        None => None,
    }
}

/// The persistent alias table of one (account, folder) scope.
pub struct AliasTable {
    account: String,
    folder: String,
    entries: Vec<String>,
}

impl View for AliasTable {
    type V = Seq<Seq<char>>;

    closed spec fn view(&self) -> Seq<Seq<char>> {
        self.entries@.map_values(|s: String| s@)
    }
}

impl AliasTable {
    /// Well-formed: the mapping is a bijection (no identifier listed twice)
    /// and the table is addressable by machine integers.
    pub open spec fn wf(self) -> bool {
        distinct_ids(self@) && self@.len() <= usize::MAX
    }

    pub closed spec fn spec_account(self) -> Seq<char> {
        self.account@
    }

    pub closed spec fn spec_folder(self) -> Seq<char> {
        self.folder@
    }

    pub fn new(account: &str, folder: &str) -> (r: AliasTable)
        ensures
            r@ =~= Seq::<Seq<char>>::empty(),
            r.wf(),
            r.spec_account() == account@,
            r.spec_folder() == folder@,
    {
        let r = AliasTable { account: account.to_owned(), folder: folder.to_owned(), entries: Vec::new() };
        proof {
            assert(r@ =~= Seq::<Seq<char>>::empty());
        }
        r
    }

    pub fn account(&self) -> (r: &str)
        ensures
            r@ == self.spec_account(),
    {
        self.account.as_str()
    }

    pub fn folder(&self) -> (r: &str)
        ensures
            r@ == self.spec_folder(),
    {
        self.folder.as_str()
    }

    pub fn len(&self) -> (r: usize)
        ensures
            r == self@.len(),
    {
        self.entries.len()
    }

    /// First index holding `native`, if any.
    fn find(&self, native: &str) -> (r: Option<usize>)
        ensures
            r matches Some(i) ==> i < self@.len() && self@[i as int] == native@,
            r is None ==> !self@.contains(native@),
    {
        let n = self.entries.len();
        let mut i: usize = 0;
        while i < n
            invariant
                0 <= i <= n,
                n == self@.len(),
                forall|j: int| 0 <= j < i ==> self@[j] != native@,
            decreases n - i,
        {
            if str_eq(self.entries[i].as_str(), native) {
                return Some(i);
            }
            i = i + 1;
        }
        None
    }

    /// Return the existing alias of `native`, or allocate the next unused
    /// positive integer for it. Aliases are handed out in order, starting
    /// at 1, and an identifier never changes its alias.
    pub fn get_or_create_alias(&mut self, native: &str) -> (r: usize)
        requires
            old(self).wf(),
            old(self)@.len() < usize::MAX,
        ensures
            final(self).wf(),
            (final(self)@, r as nat) == spec_get_or_create(old(self)@, native@),
            1 <= r <= final(self)@.len(),
            final(self)@[r - 1] == native@,
            old(self)@.contains(native@) ==> *final(self) == *old(self),
            final(self).spec_account() == old(self).spec_account(),
            final(self).spec_folder() == old(self).spec_folder(),
    {
        match self.find(native) {
            Some(i) => {
                proof {
                    let t = self@;
                    assert(t.contains(native@));
                    let k = t.index_of(native@);
                    assert(t[k] == native@);
                    assert(k == i as int);
                }
                i + 1
            },
            None => {
                proof {
                    assert(!old(self)@.contains(native@));
                }
                self.entries.push(native.to_owned());
                let r = self.entries.len();
                proof {
                    assert(self@ =~= old(self)@.push(native@));
                    assert forall|i: int, j: int| 0 <= i < j < self@.len() implies self@[i] != self@[j] by {
                        if j == self@.len() - 1 {
                            assert(old(self)@[i] == self@[i]);
                            assert(!old(self)@.contains(native@));
                        }
                    }
                }
                r
            },
        }
    }

    /// Pre-bind an identifier, used right after a message is newly added to
    /// a folder so its alias exists before any subsequent listing.
    pub fn create_alias(&mut self, native: &str) -> (r: usize)
        requires
            old(self).wf(),
            old(self)@.len() < usize::MAX,
        ensures
            final(self).wf(),
            (final(self)@, r as nat) == spec_get_or_create(old(self)@, native@),
            final(self).spec_account() == old(self).spec_account(),
            final(self).spec_folder() == old(self).spec_folder(),
    {
        self.get_or_create_alias(native)
    }

    /// Resolve a short alias back to its native identifier; an alias that
    /// was never allocated in this scope is reported as unknown.
    pub fn get_id(&self, short: usize) -> (r: Result<String, Error>)
        ensures
            r matches Ok(s) ==> spec_get_id(self@, short as nat) == Some(s@),
            r is Err ==> spec_get_id(self@, short as nat) is None,
            r matches Err(e) ==> e matches Error::UnknownAlias(a) && a@ == spec_digits(short as nat),
    {
        if 1 <= short && short <= self.entries.len() {
            Ok(self.entries[short - 1].clone())
        } else {
            Err(Error::UnknownAlias(usize_to_string(short)))
        }
    }

    /// Batch resolution: stops at the first unknown alias, reporting it.
    pub fn get_ids(&self, shorts: &Vec<usize>) -> (r: Result<Vec<String>, Error>)
        ensures
            r matches Ok(v) ==> v@.len() == shorts@.len() && forall|i: int|
                0 <= i < shorts@.len() ==> spec_get_id(self@, shorts@[i] as nat) == Some(
                    #[trigger] v@[i]@,
                ),
            r matches Err(e) ==> exists|i: int|
                {
                    &&& 0 <= i < shorts@.len()
                    &&& spec_get_id(self@, #[trigger] shorts@[i] as nat) is None
                    &&& forall|j: int|
                        0 <= j < i ==> spec_get_id(self@, #[trigger] shorts@[j] as nat) is Some
                    &&& e matches Error::UnknownAlias(a) && a@ == spec_digits(shorts@[i] as nat)
                },
    {
        let mut out: Vec<String> = Vec::new();
        let n = shorts.len();
        let mut i: usize = 0;
        while i < n
            invariant
                0 <= i <= n,
                n == shorts@.len(),
                out@.len() == i,
                forall|j: int|
                    0 <= j < i ==> spec_get_id(self@, shorts@[j] as nat) == Some(
                        #[trigger] out@[j]@,
                    ),
            decreases n - i,
        {
            match self.get_id(shorts[i]) {
                Ok(s) => {
                    out.push(s);
                },
                Err(e) => {
                    proof {
                        let k = i as int;
                        assert(spec_get_id(self@, shorts@[k] as nat) is None);
                        assert forall|j: int| 0 <= j < k implies spec_get_id(
                            self@,
                            #[trigger] shorts@[j] as nat,
                        ) is Some by {
                            assert(spec_get_id(self@, shorts@[j] as nat) == Some(out@[j]@));
                        }
                    }
                    return Err(e);
                },
            }
            i = i + 1;
        }
        Ok(out)
    }
}

/// The alias store handed to the translator: either the persistent table of
/// one scope, or the pass-through variant.
pub struct IdMapper {
    table: Option<AliasTable>,
}

impl IdMapper {
    /// The pass-through variant: every operation is the identity on the
    /// native identifier's string form.
    pub fn dummy() -> (r: IdMapper)
        ensures
            r.is_pass_through(),
            r.wf(),
    {
        IdMapper { table: None }
    }

    /// The persistent variant, scoped to one (account, folder) pair,
    /// starting from an empty table.
    pub fn persistent(account: &str, folder: &str) -> (r: IdMapper)
        ensures
            !r.is_pass_through(),
            r.wf(),
            r.tab() =~= Seq::<Seq<char>>::empty(),
    {
        IdMapper { table: Some(AliasTable::new(account, folder)) }
    }

    /// Wrap an existing table (for example one reloaded from disk by the
    /// caller) as the persistent variant.
    pub fn from_table(table: AliasTable) -> (r: IdMapper)
        ensures
            !r.is_pass_through(),
            r.tab() == table@,
            r.wf() == table.wf(),
    {
        IdMapper { table: Some(table) }
    }

    pub closed spec fn is_pass_through(self) -> bool {
        self.table is None
    }

    /// The table contents; empty for the pass-through variant.
    pub closed spec fn tab(self) -> Seq<Seq<char>> {
        match self.table {
            Some(t) => t@,
            None => Seq::empty(),
        }
    }

    pub closed spec fn wf(self) -> bool {
        match self.table {
            Some(t) => t.wf(),
            None => true,
        }
    }

    /// Room for one more allocation.
    pub open spec fn can_alloc(self) -> bool {
        self.is_pass_through() || self.tab().len() < usize::MAX
    }

    /// Room for `n` more allocations.
    pub open spec fn can_alloc_n(self, n: nat) -> bool {
        self.is_pass_through() || self.tab().len() + n <= usize::MAX
    }

    /// What this store answers for native identifier `x`: itself for the
    /// pass-through variant, the decimal form of its table alias otherwise.
    pub open spec fn spec_alias(self, x: Seq<char>) -> Seq<char> {
        if self.is_pass_through() {
            x
        } else {
            spec_digits(spec_get_or_create(self.tab(), x).1)
        }
    }

    /// `alias` is the alias this store has assigned to `native`.
    pub open spec fn resolves(self, native: Seq<char>, alias: Seq<char>) -> bool {
        if self.is_pass_through() {
            alias == native
        } else {
            exists|i: int|
                0 <= i < self.tab().len() && self.tab()[i] == native && alias == spec_digits(
                    (i + 1) as nat,
                )
        }
    }

    /// `native` already has an alias (always true for pass-through).
    pub open spec fn knows(self, native: Seq<char>) -> bool {
        self.is_pass_through() || self.tab().contains(native)
    }

    pub fn is_dummy(&self) -> (r: bool)
        ensures
            r == self.is_pass_through(),
    {
        self.table.is_none()
    }

    /// Return the alias of `native`, allocating one first if this scope has
    /// never seen it. Repeated calls return the same alias.
    pub fn get_or_create_alias(&mut self, native: &str) -> (r: String)
        requires
            old(self).wf(),
            old(self).can_alloc(),
        ensures
            final(self).wf(),
            final(self).is_pass_through() == old(self).is_pass_through(),
            r@ == old(self).spec_alias(native@),
            final(self).resolves(native@, r@),
            old(self).knows(native@) ==> *final(self) == *old(self),
            old(self).is_pass_through() ==> r@ == native@,
            !old(self).is_pass_through() ==> final(self).tab() == spec_get_or_create(
                old(self).tab(),
                native@,
            ).0,
            old(self).tab().is_prefix_of(final(self).tab()),
            final(self).tab().len() <= old(self).tab().len() + 1,
            forall|k: int|
                old(self).tab().len() <= k < final(self).tab().len() ==> final(self).tab()[k]
                    == native@,
    {
        let taken = self.table.take();
        match taken {
            None => {
                let r = native.to_owned();
                proof {
                    assert(*final(self) =~= *old(self));
                }
                r
            },
            Some(mut t) => {
                let n = t.get_or_create_alias(native);
                let r = usize_to_string(n);
                self.table = Some(t);
                proof {
                    if old(self).knows(native@) {
                        assert(*final(self) =~= *old(self));
                    }
                    let i = (n - 1) as int;
                    assert(final(self).tab()[i] == native@);
                }
                r
            },
        }
    }

    /// Pre-bind an identifier right after a message was added, so that the
    /// alias exists before any later listing.
    pub fn create_alias(&mut self, native: &str) -> (r: String)
        requires
            old(self).wf(),
            old(self).can_alloc(),
        ensures
            final(self).wf(),
            final(self).is_pass_through() == old(self).is_pass_through(),
            r@ == old(self).spec_alias(native@),
            final(self).resolves(native@, r@),
            old(self).knows(native@) ==> *final(self) == *old(self),
    {
        self.get_or_create_alias(native)
    }

    /// Resolve a textual alias back to the native identifier. The
    /// pass-through variant never fails; the persistent variant reports an
    /// alias outside its table as unknown.
    pub fn get_id(&self, alias: &str) -> (r: Result<String, Error>)
        requires
            self.wf(),
        ensures
            self.is_pass_through() ==> (r matches Ok(s) && s@ == alias@),
            !self.is_pass_through() ==> match spec_lookup(self.tab(), alias@) {
                Some(x) => r matches Ok(s) && s@ == x,
                None => r matches Err(e) && (e matches Error::UnknownAlias(a) && a@ == alias@),
            },
    {
        match &self.table {
            None => Ok(alias.to_owned()),
            Some(t) => {
                match parse_usize(alias) {
                    Some(n) => {
                        match t.get_id(n) {
                            Ok(s) => Ok(s),
                            Err(_) => Err(Error::UnknownAlias(alias.to_owned())),
                        }
                    },
                    None => {
                        proof {
                            if spec_parse_alias(alias@) is Some {
                                assert(seq_val(alias@) > usize::MAX);
                                assert(t@.len() <= usize::MAX);
                            }
                        }
                        Err(Error::UnknownAlias(alias.to_owned()))
                    },
                }
            },
        }
    }

    /// Batch resolution: stops at the first unknown alias, reporting it.
    pub fn get_ids(&self, aliases: &Vec<String>) -> (r: Result<Vec<String>, Error>)
        requires
            self.wf(),
        ensures
            self.is_pass_through() ==> (r matches Ok(v) && v@.len() == aliases@.len() && forall|
                i: int,
            |
                0 <= i < aliases@.len() ==> #[trigger] v@[i]@ == aliases@[i]@),
            !self.is_pass_through() ==> match r {
                Ok(v) => v@.len() == aliases@.len() && forall|i: int|
                    0 <= i < aliases@.len() ==> spec_lookup(self.tab(), aliases@[i]@) == Some(
                        #[trigger] v@[i]@,
                    ),
                Err(e) => exists|i: int|
                    {
                        &&& 0 <= i < aliases@.len()
                        &&& spec_lookup(self.tab(), #[trigger] aliases@[i]@) is None
                        &&& forall|j: int|
                            0 <= j < i ==> spec_lookup(self.tab(), #[trigger] aliases@[j]@) is Some
                        &&& e matches Error::UnknownAlias(a) && a@ == aliases@[i]@
                    },
            },
    {
        let mut out: Vec<String> = Vec::new();
        let n = aliases.len();
        let mut i: usize = 0;
        while i < n
            invariant
                self.wf(),
                0 <= i <= n,
                n == aliases@.len(),
                out@.len() == i,
                self.is_pass_through() ==> forall|j: int|
                    0 <= j < i ==> #[trigger] out@[j]@ == aliases@[j]@,
                !self.is_pass_through() ==> forall|j: int|
                    0 <= j < i ==> spec_lookup(self.tab(), aliases@[j]@) == Some(
                        #[trigger] out@[j]@,
                    ),
            decreases n - i,
        {
            match self.get_id(aliases[i].as_str()) {
                Ok(s) => {
                    out.push(s);
                },
                Err(e) => {
                    proof {
                        let k = i as int;
                        assert(spec_lookup(self.tab(), aliases@[k]@) is None);
                        assert forall|j: int| 0 <= j < k implies spec_lookup(
                            self.tab(),
                            #[trigger] aliases@[j]@,
                        ) is Some by {
                            assert(spec_lookup(self.tab(), aliases@[j]@) == Some(out@[j]@));
                        }
                    }
                    return Err(e);
                },
            }
            i = i + 1;
        }
        Ok(out)
    }
}

/// An alias assignment survives any later growth of the store: once a
/// native identifier resolves to an alias, it still does after further
/// allocations extended the table.
pub proof fn lemma_resolves_monotone(m1: IdMapper, m2: IdMapper, native: Seq<char>, alias: Seq<char>)
    requires
        m1.is_pass_through() == m2.is_pass_through(),
        m1.tab().is_prefix_of(m2.tab()),
        m1.resolves(native, alias),
    ensures
        m2.resolves(native, alias),
{
    if !m1.is_pass_through() {
        let i = choose|i: int|
            0 <= i < m1.tab().len() && m1.tab()[i] == native && alias == spec_digits((i + 1) as nat);
        assert(m2.tab()[i] == native);
    }
}

/// Law: aliasing is idempotent. Allocating an alias for `x` and then asking
/// again changes nothing and returns the same alias.
pub proof fn lemma_alias_idempotent(t: Seq<Seq<char>>, x: Seq<char>)
    requires
        distinct_ids(t),
    ensures
        spec_get_or_create(spec_get_or_create(t, x).0, x) == spec_get_or_create(t, x),
{
    let (t2, n) = spec_get_or_create(t, x);
    if t.contains(x) {
    } else {
        assert(t2 == t.push(x));
        assert(t2[t.len() as int] == x);
        assert(t2.contains(x));
        let k = t2.index_of(x);
        assert(t2[k] == x);
        assert forall|i: int| 0 <= i < t.len() implies t2[i] != x by {
            assert(t2[i] == t[i]);
            assert(!t.contains(x));
        }
        assert(k == t.len() as int);
    }
}

/// Law: a fresh identifier receives the smallest positive integer not in
/// use, namely one more than the table size, while aliases 1 up to the table
/// size are all in use already.
pub proof fn lemma_alias_smallest(t: Seq<Seq<char>>, x: Seq<char>)
    requires
        !t.contains(x),
    ensures
        spec_get_or_create(t, x).1 == t.len() + 1,
        forall|k: nat| 1 <= k <= t.len() ==> spec_get_id(t, k) is Some,
        spec_get_id(t, (t.len() + 1) as nat) is None,
{
}

/// Law: the alias store is a bijection in action — resolving the alias just
/// assigned to `x` yields `x` again.
pub proof fn lemma_alias_roundtrip(t: Seq<Seq<char>>, x: Seq<char>)
    requires
        distinct_ids(t),
    ensures
        ({
            let (t2, n) = spec_get_or_create(t, x);
            spec_get_id(t2, n) == Some(x)
        }),
{
    let (t2, n) = spec_get_or_create(t, x);
    if t.contains(x) {
        let k = t.index_of(x);
        assert(t[k] == x);
    } else {
        assert(t2[t.len() as int] == x);
    }
}

/// Law: the round trip also holds through the textual interface of the
/// persistent store — the decimal alias handed out for `x` parses and
/// resolves back to `x`.
pub proof fn lemma_alias_string_roundtrip(t: Seq<Seq<char>>, x: Seq<char>)
    requires
        distinct_ids(t),
    ensures
        ({
            let (t2, n) = spec_get_or_create(t, x);
            spec_lookup(t2, spec_digits(n)) == Some(x)
        }),
{
    let (t2, n) = spec_get_or_create(t, x);
    crate::digits::lemma_digits_wf(n);
    crate::digits::lemma_digits_roundtrip(n);
    lemma_alias_roundtrip(t, x);
}

/// Law: the store is a bijection. Two native identifiers resolve to the
/// same alias exactly when they are the same identifier — no two distinct
/// identifiers share a short alias, and no identifier owns two aliases.
pub proof fn lemma_alias_unique(
    m: IdMapper,
    x1: Seq<char>,
    a1: Seq<char>,
    x2: Seq<char>,
    a2: Seq<char>,
)
    requires
        m.wf(),
        m.resolves(x1, a1),
        m.resolves(x2, a2),
    ensures
        x1 == x2 <==> a1 == a2,
{
    if !m.is_pass_through() {
        let t = m.tab();
        let i1 = choose|i: int|
            0 <= i < t.len() && t[i] == x1 && a1 == spec_digits((i + 1) as nat);
        let i2 = choose|i: int|
            0 <= i < t.len() && t[i] == x2 && a2 == spec_digits((i + 1) as nat);
        if x1 == x2 {
            assert(i1 == i2) by {
                if i1 != i2 {
                    assert(t[i1] != t[i2]);
                }
            }
        }
        if a1 == a2 {
            crate::digits::lemma_digits_injective((i1 + 1) as nat, (i2 + 1) as nat);
            assert(i1 == i2);
        }
    }
}

/// Law: the pass-through variant is the identity — whatever alias it has
/// assigned to a native identifier is that identifier itself, and looking
/// any alias up succeeds with the alias unchanged.
pub proof fn lemma_pass_through_identity(m: IdMapper, native: Seq<char>, alias: Seq<char>)
    requires
        m.is_pass_through(),
        m.resolves(native, alias),
    ensures
        alias == native,
        m.knows(native),
{
}

} // verus!

