//! The user-facing envelope model and the flat listing translator: every
//! backend-native envelope is copied verbatim except for its identifier,
//! which is substituted through the alias store.

use vstd::prelude::*;

use crate::config::ListEnvelopesTableConfig;
use crate::digits::push_char;
use crate::error::Error;
use crate::id_mapper::IdMapper;

verus! {

/// One message flag; custom flags carry their name.
#[derive(Debug)]
pub enum Flag {
    Seen,
    Answered,
    Flagged,
    Deleted,
    Draft,
    Custom(String),
}

/// Flag equality: same variant, and for custom flags the same name.
pub open spec fn spec_flag_eq(a: Flag, b: Flag) -> bool {
    match (a, b) {
        (Flag::Seen, Flag::Seen) => true,
        (Flag::Answered, Flag::Answered) => true,
        (Flag::Flagged, Flag::Flagged) => true,
        (Flag::Deleted, Flag::Deleted) => true,
        (Flag::Draft, Flag::Draft) => true,
        (Flag::Custom(x), Flag::Custom(y)) => x@ == y@,
        _ => false,
    }
}

impl Clone for Flag {
    fn clone(&self) -> (res: Self)
        ensures
            res == *self,
    {
        match self {
            Flag::Seen => Flag::Seen,
            Flag::Answered => Flag::Answered,
            Flag::Flagged => Flag::Flagged,
            Flag::Deleted => Flag::Deleted,
            Flag::Draft => Flag::Draft,
            Flag::Custom(s) => Flag::Custom(s.clone()),
        }
    }
}

impl PartialEq for Flag {
    fn eq(&self, other: &Flag) -> (r: bool) {
        match (self, other) {
            (Flag::Seen, Flag::Seen) => true,
            (Flag::Answered, Flag::Answered) => true,
            (Flag::Flagged, Flag::Flagged) => true,
            (Flag::Deleted, Flag::Deleted) => true,
            (Flag::Draft, Flag::Draft) => true,
            (Flag::Custom(x), Flag::Custom(y)) => x.eq(y),
            _ => false,
        }
    }
}

impl vstd::std_specs::cmp::PartialEqSpecImpl for Flag {
    open spec fn obeys_eq_spec() -> bool {
        true
    }

    open spec fn eq_spec(&self, other: &Flag) -> bool {
        spec_flag_eq(*self, *other)
    }
}

/// The set of flags of one envelope.
#[derive(Debug)]
pub struct Flags(pub Vec<Flag>);

impl Flags {
    /// Membership up to flag equality.
    pub open spec fn spec_contains(self, f: Flag) -> bool {
        exists|i: int| 0 <= i < self.0@.len() && spec_flag_eq(#[trigger] self.0@[i], f)
    }

    pub fn contains(&self, f: &Flag) -> (r: bool)
        ensures
            r == self.spec_contains(*f),
    {
        let n = self.0.len();
        let mut i: usize = 0;
        while i < n
            invariant
                0 <= i <= n,
                n == self.0@.len(),
                forall|j: int| 0 <= j < i ==> !spec_flag_eq(#[trigger] self.0@[j], *f),
            decreases n - i,
        {
            if self.0[i].eq(f) {
                return true;
            }
            i = i + 1;
        }
        false
    }
}

impl Clone for Flags {
    fn clone(&self) -> (res: Self)
        ensures
            res.0@ == self.0@,
    {
        let v = self.0.clone();
        proof {
            assert(v@ =~= self.0@);
        }
        Flags(v)
    }
}

/// A mailbox: an optional display name and an address.
#[derive(Debug)]
pub struct Mailbox {
    pub name: Option<String>,
    pub addr: String,
}

impl Clone for Mailbox {
    fn clone(&self) -> (res: Self)
        ensures
            res == *self,
    {
        let name = match &self.name {
            Some(n) => Some(n.clone()),
            None => None,
        };
        Mailbox { name, addr: self.addr.clone() }
    }
}

/// An envelope as a backend returns it: keyed by the backend-native
/// identifier, with its date already rendered as text.
#[derive(Debug)]
pub struct NativeEnvelope {
    pub id: String,
    pub flags: Flags,
    pub subject: String,
    pub from: Mailbox,
    pub to: Mailbox,
    pub date: String,
    pub has_attachment: bool,
}

/// The user-facing envelope: the same payload, keyed by the short alias.
#[derive(Debug)]
pub struct Envelope {
    pub id: String,
    pub flags: Flags,
    pub subject: String,
    pub from: Mailbox,
    pub to: Mailbox,
    pub date: String,
    pub has_attachment: bool,
}

impl Envelope {
    /// The flags column of the envelope table: the flagged, unseen,
    /// attachment and replied markers, in that order.
    pub fn flags_string(&self, config: &ListEnvelopesTableConfig) -> (r: String)
        ensures
            r@ =~= seq![
                config.spec_flagged_char(self.flags.spec_contains(Flag::Flagged)),
                config.spec_unseen_char(!self.flags.spec_contains(Flag::Seen)),
                config.spec_attachment_char(self.has_attachment),
                config.spec_replied_char(self.flags.spec_contains(Flag::Answered)),
            ],
    {
        let mut r = String::new();
        push_char(&mut r, config.flagged_char(self.flags.contains(&Flag::Flagged)));
        push_char(&mut r, config.unseen_char(!self.flags.contains(&Flag::Seen)));
        push_char(&mut r, config.attachment_char(self.has_attachment));
        push_char(&mut r, config.replied_char(self.flags.contains(&Flag::Answered)));
        r
    }
}

/// `o` carries the payload of `n` unchanged (everything but the id).
pub open spec fn spec_payload_copied(n: NativeEnvelope, o: Envelope) -> bool {
    &&& o.flags.0@ == n.flags.0@
    &&& o.subject == n.subject
    &&& o.from == n.from
    &&& o.to == n.to
    &&& o.date == n.date
    &&& o.has_attachment == n.has_attachment
}

/// Some envelope in the listing carries the native identifier `x`.
pub open spec fn spec_has_native_id(es: Seq<NativeEnvelope>, x: Seq<char>) -> bool {
    exists|i: int| 0 <= i < es.len() && (#[trigger] es[i].id@) == x
}

/// A flat listing response, in the backend's order.
#[derive(Debug)]
pub struct Envelopes(pub Vec<Envelope>);

impl Envelopes {
    /// Translate a flat backend listing: each envelope's identifier is
    /// resolved (or created) through the alias store, every other field is
    /// copied verbatim, and the output order is the backend's order. The
    /// store grows by exactly the identifiers it had not seen, and nothing
    /// else.
    pub fn try_from_backend(id_mapper: &mut IdMapper, envelopes: &Vec<NativeEnvelope>) -> (r:
        Result<Envelopes, Error>)
        requires
            old(id_mapper).wf(),
            old(id_mapper).can_alloc_n(envelopes@.len() as nat),
        ensures
            final(id_mapper).wf(),
            final(id_mapper).is_pass_through() == old(id_mapper).is_pass_through(),
            old(id_mapper).tab().is_prefix_of(final(id_mapper).tab()),
            forall|k: int|
                old(id_mapper).tab().len() <= k < final(id_mapper).tab().len()
                    ==> spec_has_native_id(envelopes@, #[trigger] final(id_mapper).tab()[k]),
            r matches Ok(v) && v.0@.len() == envelopes@.len(),
            r matches Ok(v) ==> forall|i: int|
                0 <= i < envelopes@.len() ==> spec_payload_copied(
                    envelopes@[i],
                    #[trigger] v.0@[i],
                ) && final(id_mapper).resolves(envelopes@[i].id@, v.0@[i].id@),
    {
        let ghost m0 = *id_mapper;
        let n = envelopes.len();
        let mut out: Vec<Envelope> = Vec::new();
        let mut i: usize = 0;
        while i < n
            invariant
                0 <= i <= n,
                n == envelopes@.len(),
                out@.len() == i,
                id_mapper.wf(),
                id_mapper.is_pass_through() == m0.is_pass_through(),
                m0.tab().is_prefix_of(id_mapper.tab()),
                id_mapper.tab().len() <= m0.tab().len() + i,
                m0.can_alloc_n(n as nat),
                forall|k: int|
                    m0.tab().len() <= k < id_mapper.tab().len() ==> spec_has_native_id(
                        envelopes@.subrange(0, i as int),
                        #[trigger] id_mapper.tab()[k],
                    ),
                forall|j: int|
                    0 <= j < i ==> spec_payload_copied(envelopes@[j], #[trigger] out@[j])
                        && id_mapper.resolves(envelopes@[j].id@, out@[j].id@),
            decreases n - i,
        {
            let ghost m_pre = *id_mapper;
            let e = &envelopes[i];
            let id = id_mapper.get_or_create_alias(e.id.as_str());
            let env = Envelope {
                id,
                flags: e.flags.clone(),
                subject: e.subject.clone(),
                from: e.from.clone(),
                to: e.to.clone(),
                date: e.date.clone(),
                has_attachment: e.has_attachment,
            };
            out.push(env);
            proof {
                assert(m0.tab().is_prefix_of(id_mapper.tab())) by {
                    assert(m0.tab().is_prefix_of(m_pre.tab()));
                    assert(m_pre.tab().is_prefix_of(id_mapper.tab()));
                }
                assert forall|j: int| 0 <= j < i + 1 implies spec_payload_copied(
                    envelopes@[j],
                    #[trigger] out@[j],
                ) && id_mapper.resolves(envelopes@[j].id@, out@[j].id@) by {
                    if j < i {
                        crate::id_mapper::lemma_resolves_monotone(
                            m_pre,
                            *id_mapper,
                            envelopes@[j].id@,
                            out@[j].id@,
                        );
                    }
                }
                assert forall|k: int|
                    m0.tab().len() <= k < id_mapper.tab().len() implies spec_has_native_id(
                    envelopes@.subrange(0, i + 1),
                    #[trigger] id_mapper.tab()[k],
                ) by {
                    if k < m_pre.tab().len() {
                        assert(spec_has_native_id(
                            envelopes@.subrange(0, i as int),
                            m_pre.tab()[k],
                        ));
                        let j = choose|j: int|
                            0 <= j < envelopes@.subrange(0, i as int).len() && (
                            #[trigger] envelopes@.subrange(0, i as int)[j].id@) == m_pre.tab()[k];
                        assert(id_mapper.tab()[k] == m_pre.tab()[k]);
                        assert(envelopes@.subrange(0, i + 1)[j].id@ == id_mapper.tab()[k]);
                    } else {
                        assert(id_mapper.tab()[k] == envelopes@[i as int].id@);
                        assert(envelopes@.subrange(0, i + 1)[i as int].id@ == id_mapper.tab()[k]);
                    }
                }
            }
            i = i + 1;
        }
        Ok(Envelopes(out))
    }
}

} // verus!
