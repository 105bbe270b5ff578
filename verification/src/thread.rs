//! The threaded listing translator: a backend-native reply graph is turned
//! into an alias-keyed graph of the same shape. Edges are extracted before
//! any node payload is touched, every referenced identifier is aliased
//! exactly once, and each edge is re-inserted with translated endpoints —
//! an edge whose true parent is not part of the fetched set is re-attached
//! to the synthetic root instead of being dropped, so no edge is ever lost.

use vstd::prelude::*;

use crate::config::AccountConfig;
use crate::envelope::{spec_has_native_id, spec_payload_copied, Envelope, NativeEnvelope};
use crate::error::Error;
use crate::id_mapper::IdMapper;
use crate::strutil::str_eq;

verus! {

/// The alias of the synthetic root node, standing in for any parent message
/// that was not part of the fetched set.
pub open spec fn root_alias() -> Seq<char> {
    seq!['0']
}

/// One is-reply-to edge of the backend-native graph, identified by the
/// native ids of its endpoints; the weight is the thread depth.
#[derive(Debug)]
pub struct NativeEdge {
    pub parent: String,
    pub child: String,
    pub weight: u8,
}

/// A backend-native threaded listing: the fetched envelopes (the node
/// payloads) and the reply edges among them.
#[derive(Debug)]
pub struct NativeThreadedEnvelopes {
    pub envelopes: Vec<NativeEnvelope>,
    pub edges: Vec<NativeEdge>,
}

impl NativeThreadedEnvelopes {
    /// `x` is the id of one of the fetched envelopes.
    pub open spec fn spec_has_node(self, x: Seq<char>) -> bool {
        spec_has_native_id(self.envelopes@, x)
    }

    /// `x` occurs in the listing at all: as a node id or an edge endpoint.
    pub open spec fn spec_mentions(self, x: Seq<char>) -> bool {
        ||| self.spec_has_node(x)
        ||| exists|i: int|
            0 <= i < self.edges@.len() && ((#[trigger] self.edges@[i]).parent@ == x
                || self.edges@[i].child@ == x)
    }

    /// Linear scan for a fetched envelope with the given native id.
    pub fn has_node(&self, id: &str) -> (r: bool)
        ensures
            r == self.spec_has_node(id@),
    {
        let n = self.envelopes.len();
        let mut i: usize = 0;
        while i < n
            invariant
                0 <= i <= n,
                n == self.envelopes@.len(),
                forall|j: int| 0 <= j < i ==> (#[trigger] self.envelopes@[j].id@) != id@,
            decreases n - i,
        {
            if str_eq(self.envelopes[i].id.as_str(), id) {
                return true;
            }
            i = i + 1;
        }
        false
    }
}

/// One edge of the translated graph, endpoints given as aliases.
#[derive(Debug)]
pub struct ThreadEdge {
    pub parent: String,
    pub child: String,
    pub weight: u8,
}

/// The translated reply graph: envelopes keyed by alias, and the same
/// number of edges as the native graph, re-keyed by alias, with the
/// synthetic root substituted for absent parents.
#[derive(Debug)]
pub struct ThreadedEnvelopes {
    pub envelopes: Vec<Envelope>,
    pub edges: Vec<ThreadEdge>,
}

impl ThreadedEnvelopes {
    /// Translate a threaded backend listing.
    ///
    /// Edges are aliased first (parent before child, in edge order), then
    /// the node payloads. Each edge is then re-inserted: its child must be
    /// a fetched envelope — a dangling child is reported as a graph
    /// reconstruction inconsistency, never dropped silently — while an
    /// absent parent is substituted by the synthetic root alias.
    pub fn try_from_backend(id_mapper: &mut IdMapper, native: &NativeThreadedEnvelopes) -> (r:
        Result<ThreadedEnvelopes, Error>)
        requires
            old(id_mapper).wf(),
            old(id_mapper).can_alloc_n(
                (2 * native.edges@.len() + native.envelopes@.len()) as nat,
            ),
        ensures
            final(id_mapper).wf(),
            final(id_mapper).is_pass_through() == old(id_mapper).is_pass_through(),
            old(id_mapper).tab().is_prefix_of(final(id_mapper).tab()),
            forall|k: int|
                old(id_mapper).tab().len() <= k < final(id_mapper).tab().len()
                    ==> native.spec_mentions(#[trigger] final(id_mapper).tab()[k]),
            r is Ok <==> (forall|i: int|
                0 <= i < native.edges@.len() ==> native.spec_has_node(
                    (#[trigger] native.edges@[i]).child@,
                )),
            r matches Err(e) ==> (e matches Error::GraphReconstructionInconsistency(c) && exists|
                i: int,
            |
                {
                    &&& 0 <= i < native.edges@.len()
                    &&& !native.spec_has_node((#[trigger] native.edges@[i]).child@)
                    &&& forall|j: int|
                        0 <= j < i ==> native.spec_has_node((#[trigger] native.edges@[j]).child@)
                    &&& c@ == native.edges@[i].child@
                }),
            r matches Ok(v) ==> {
                &&& v.edges@.len() == native.edges@.len()
                &&& forall|i: int|
                    0 <= i < native.edges@.len() ==> {
                        &&& (#[trigger] v.edges@[i]).weight == native.edges@[i].weight
                        &&& final(id_mapper).resolves(
                            native.edges@[i].child@,
                            v.edges@[i].child@,
                        )
                        &&& (native.spec_has_node(native.edges@[i].parent@) ==> final(id_mapper).resolves(
                            native.edges@[i].parent@,
                            v.edges@[i].parent@,
                        ))
                        &&& (!native.spec_has_node(native.edges@[i].parent@)
                            ==> v.edges@[i].parent@ == root_alias())
                    }
                &&& v.envelopes@.len() == native.envelopes@.len()
                &&& forall|i: int|
                    0 <= i < native.envelopes@.len() ==> spec_payload_copied(
                        native.envelopes@[i],
                        #[trigger] v.envelopes@[i],
                    ) && final(id_mapper).resolves(
                        native.envelopes@[i].id@,
                        v.envelopes@[i].id@,
                    )
            },
    {
        let ghost m0 = *id_mapper;
        let edge_count = native.edges.len();
        let node_count = native.envelopes.len();

        // Step 1: extract and alias all edges before touching any payload.
        let mut aliased: Vec<ThreadEdge> = Vec::new();
        let mut i: usize = 0;
        while i < edge_count
            invariant
                0 <= i <= edge_count,
                edge_count == native.edges@.len(),
                node_count == native.envelopes@.len(),
                aliased@.len() == i,
                id_mapper.wf(),
                id_mapper.is_pass_through() == m0.is_pass_through(),
                m0.tab().is_prefix_of(id_mapper.tab()),
                id_mapper.tab().len() <= m0.tab().len() + 2 * i,
                m0.can_alloc_n((2 * native.edges@.len() + native.envelopes@.len()) as nat),
                forall|k: int|
                    m0.tab().len() <= k < id_mapper.tab().len() ==> native.spec_mentions(
                        #[trigger] id_mapper.tab()[k],
                    ),
                forall|j: int|
                    0 <= j < i ==> {
                        &&& (#[trigger] aliased@[j]).weight == native.edges@[j].weight
                        &&& id_mapper.resolves(native.edges@[j].parent@, aliased@[j].parent@)
                        &&& id_mapper.resolves(native.edges@[j].child@, aliased@[j].child@)
                    },
            decreases edge_count - i,
        {
            let ghost m_pre = *id_mapper;
            let edge = &native.edges[i];
            let parent = id_mapper.get_or_create_alias(edge.parent.as_str());
            let ghost m_mid = *id_mapper;
            let child = id_mapper.get_or_create_alias(edge.child.as_str());
            proof {
                crate::id_mapper::lemma_resolves_monotone(
                    m_mid,
                    *id_mapper,
                    native.edges@[i as int].parent@,
                    parent@,
                );
            }
            aliased.push(ThreadEdge { parent, child, weight: edge.weight });
            proof {
                assert(m0.tab().is_prefix_of(id_mapper.tab()));
                assert forall|k: int|
                    m0.tab().len() <= k < id_mapper.tab().len() implies native.spec_mentions(
                    #[trigger] id_mapper.tab()[k],
                ) by {
                    if k < m_pre.tab().len() {
                        assert(native.spec_mentions(m_pre.tab()[k]));
                        assert(id_mapper.tab()[k] == m_pre.tab()[k]);
                    } else if k < m_mid.tab().len() {
                        assert(m_mid.tab()[k] == native.edges@[i as int].parent@);
                        assert(id_mapper.tab()[k] == m_mid.tab()[k]);
                    } else {
                        assert(id_mapper.tab()[k] == native.edges@[i as int].child@);
                    }
                }
                assert forall|j: int| 0 <= j < i + 1 implies {
                    &&& (#[trigger] aliased@[j]).weight == native.edges@[j].weight
                    &&& id_mapper.resolves(native.edges@[j].parent@, aliased@[j].parent@)
                    &&& id_mapper.resolves(native.edges@[j].child@, aliased@[j].child@)
                } by {
                    if j < i {
                        crate::id_mapper::lemma_resolves_monotone(
                            m_pre,
                            *id_mapper,
                            native.edges@[j].parent@,
                            aliased@[j].parent@,
                        );
                        crate::id_mapper::lemma_resolves_monotone(
                            m_pre,
                            *id_mapper,
                            native.edges@[j].child@,
                            aliased@[j].child@,
                        );
                    }
                }
            }
            i = i + 1;
        }

        // Step 2: alias and copy the node payloads (idempotent for ids
        // already seen as edge endpoints).
        let ghost m1 = *id_mapper;
        let mut out_envelopes: Vec<Envelope> = Vec::new();
        let mut i: usize = 0;
        while i < node_count
            invariant
                0 <= i <= node_count,
                edge_count == native.edges@.len(),
                node_count == native.envelopes@.len(),
                out_envelopes@.len() == i,
                aliased@.len() == edge_count,
                id_mapper.wf(),
                id_mapper.is_pass_through() == m0.is_pass_through(),
                m0.tab().is_prefix_of(id_mapper.tab()),
                m1.tab().is_prefix_of(id_mapper.tab()),
                m1.tab().len() <= m0.tab().len() + 2 * edge_count,
                id_mapper.tab().len() <= m1.tab().len() + i,
                m0.can_alloc_n((2 * native.edges@.len() + native.envelopes@.len()) as nat),
                m1.is_pass_through() == m0.is_pass_through(),
                forall|k: int|
                    m0.tab().len() <= k < id_mapper.tab().len() ==> native.spec_mentions(
                        #[trigger] id_mapper.tab()[k],
                    ),
                forall|j: int|
                    0 <= j < edge_count ==> {
                        &&& (#[trigger] aliased@[j]).weight == native.edges@[j].weight
                        &&& id_mapper.resolves(native.edges@[j].parent@, aliased@[j].parent@)
                        &&& id_mapper.resolves(native.edges@[j].child@, aliased@[j].child@)
                    },
                forall|j: int|
                    0 <= j < i ==> spec_payload_copied(
                        native.envelopes@[j],
                        #[trigger] out_envelopes@[j],
                    ) && id_mapper.resolves(native.envelopes@[j].id@, out_envelopes@[j].id@),
            decreases node_count - i,
        {
            let ghost m_pre = *id_mapper;
            let e = &native.envelopes[i];
            let id = id_mapper.get_or_create_alias(e.id.as_str());
            let env = Envelope {
                id,
                flags: e.flags.clone(),
                subject: e.subject.clone(),
                from: e.from.clone(),
                to: e.to.clone(),
                date: e.date.clone(),
                has_attachment: e.has_attachment,
            };
            out_envelopes.push(env);
            proof {
                assert(m0.tab().is_prefix_of(id_mapper.tab()));
                assert(m1.tab().is_prefix_of(id_mapper.tab()));
                assert forall|k: int|
                    m0.tab().len() <= k < id_mapper.tab().len() implies native.spec_mentions(
                    #[trigger] id_mapper.tab()[k],
                ) by {
                    if k < m_pre.tab().len() {
                        assert(native.spec_mentions(m_pre.tab()[k]));
                        assert(id_mapper.tab()[k] == m_pre.tab()[k]);
                    } else {
                        assert(id_mapper.tab()[k] == native.envelopes@[i as int].id@);
                    }
                }
                assert forall|j: int| 0 <= j < edge_count implies {
                    &&& (#[trigger] aliased@[j]).weight == native.edges@[j].weight
                    &&& id_mapper.resolves(native.edges@[j].parent@, aliased@[j].parent@)
                    &&& id_mapper.resolves(native.edges@[j].child@, aliased@[j].child@)
                } by {
                    crate::id_mapper::lemma_resolves_monotone(
                        m_pre,
                        *id_mapper,
                        native.edges@[j].parent@,
                        aliased@[j].parent@,
                    );
                    crate::id_mapper::lemma_resolves_monotone(
                        m_pre,
                        *id_mapper,
                        native.edges@[j].child@,
                        aliased@[j].child@,
                    );
                }
                assert forall|j: int| 0 <= j < i + 1 implies spec_payload_copied(
                    native.envelopes@[j],
                    #[trigger] out_envelopes@[j],
                ) && id_mapper.resolves(native.envelopes@[j].id@, out_envelopes@[j].id@) by {
                    if j < i {
                        crate::id_mapper::lemma_resolves_monotone(
                            m_pre,
                            *id_mapper,
                            native.envelopes@[j].id@,
                            out_envelopes@[j].id@,
                        );
                    }
                }
            }
            i = i + 1;
        }

        // Step 3: re-insert each edge with translated endpoints. A child
        // that is not part of the fetched set is an inconsistency; an
        // absent parent is re-attached to the synthetic root.
        let mut out_edges: Vec<ThreadEdge> = Vec::new();
        let mut i: usize = 0;
        while i < edge_count
            invariant
                0 <= i <= edge_count,
                edge_count == native.edges@.len(),
                aliased@.len() == edge_count,
                out_edges@.len() == i,
                m0 == *old(id_mapper),
                id_mapper.wf(),
                id_mapper.is_pass_through() == m0.is_pass_through(),
                m0.tab().is_prefix_of(id_mapper.tab()),
                forall|k: int|
                    m0.tab().len() <= k < id_mapper.tab().len() ==> native.spec_mentions(
                        #[trigger] id_mapper.tab()[k],
                    ),
                forall|j: int|
                    0 <= j < edge_count ==> {
                        &&& (#[trigger] aliased@[j]).weight == native.edges@[j].weight
                        &&& id_mapper.resolves(native.edges@[j].parent@, aliased@[j].parent@)
                        &&& id_mapper.resolves(native.edges@[j].child@, aliased@[j].child@)
                    },
                forall|j: int|
                    0 <= j < i ==> native.spec_has_node((#[trigger] native.edges@[j]).child@),
                forall|j: int|
                    0 <= j < i ==> {
                        &&& (#[trigger] out_edges@[j]).weight == native.edges@[j].weight
                        &&& id_mapper.resolves(native.edges@[j].child@, out_edges@[j].child@)
                        &&& (native.spec_has_node(native.edges@[j].parent@)
                            ==> id_mapper.resolves(
                            native.edges@[j].parent@,
                            out_edges@[j].parent@,
                        ))
                        &&& (!native.spec_has_node(native.edges@[j].parent@)
                            ==> out_edges@[j].parent@ == root_alias())
                    },
            decreases edge_count - i,
        {
            let edge = &native.edges[i];
            if !native.has_node(edge.child.as_str()) {
                proof {
                    let k = i as int;
                    assert(!native.spec_has_node(native.edges@[k].child@));
                }
                return Err(Error::GraphReconstructionInconsistency(edge.child.clone()));
            }
            let parent = if native.has_node(edge.parent.as_str()) {
                let p = aliased[i].parent.clone();
                p
            } else {
                let z = "0".to_owned();
                proof {
                    reveal_strlit("0");
                    assert(z@ =~= root_alias());
                }
                z
            };
            let child = aliased[i].child.clone();
            out_edges.push(ThreadEdge { parent, child, weight: edge.weight });
            i = i + 1;
        }

        Ok(ThreadedEnvelopes { envelopes: out_envelopes, edges: out_edges })
    }

    /// The children of `parent` along edges of the given weight, in edge
    /// order: the expansion step of a tree rendering.
    pub fn children_of(&self, parent: &str, weight: u8) -> (r: Vec<String>)
        ensures
            r@.map_values(|s: String| s@) =~= self.edges@.filter(
                |e: ThreadEdge| e.parent@ == parent@ && e.weight == weight,
            ).map_values(|e: ThreadEdge| e.child@),
    {
        let n = self.edges.len();
        let mut out: Vec<String> = Vec::new();
        let mut i: usize = 0;
        proof {
            reveal(Seq::filter);
            assert(self.edges@.subrange(0, 0).filter(
                |e: ThreadEdge| e.parent@ == parent@ && e.weight == weight,
            ) =~= Seq::<ThreadEdge>::empty());
        }
        while i < n
            invariant
                0 <= i <= n,
                n == self.edges@.len(),
                out@.map_values(|s: String| s@) =~= self.edges@.subrange(0, i as int).filter(
                    |e: ThreadEdge| e.parent@ == parent@ && e.weight == weight,
                ).map_values(|e: ThreadEdge| e.child@),
            decreases n - i,
        {
            let edge = &self.edges[i];
            let ghost out_pre = out@;
            let keep = str_eq(edge.parent.as_str(), parent) && edge.weight == weight;
            if keep {
                out.push(edge.child.clone());
            }
            proof {
                reveal(Seq::filter);
                let f = |s: String| s@;
                let g = |e: ThreadEdge| e.child@;
                let p = |e: ThreadEdge| e.parent@ == parent@ && e.weight == weight;
                let prefix = self.edges@.subrange(0, i as int);
                let ext = self.edges@.subrange(0, i + 1);
                let single = seq![self.edges@[i as int]];
                Seq::filter_distributes_over_add(prefix, single, p);
                assert(ext =~= prefix + single);
                assert(ext.filter(p) == prefix.filter(p) + single.filter(p));
                assert(single.drop_last() =~= Seq::<ThreadEdge>::empty());
                assert(Seq::<ThreadEdge>::empty().filter(p) == Seq::<ThreadEdge>::empty());
                assert(single.last() == self.edges@[i as int]);
                if keep {
                    assert(p(self.edges@[i as int]));
                    assert(single.filter(p) =~= single);
                    assert(out@ =~= out_pre.push(out@[out@.len() - 1]));
                    assert(out@[out@.len() - 1]@ == self.edges@[i as int].child@);
                    assert(out@.map_values(f) =~= out_pre.map_values(f).push(
                        self.edges@[i as int].child@,
                    ));
                    assert(ext.filter(p).map_values(g) =~= prefix.filter(p).map_values(g).push(
                        self.edges@[i as int].child@,
                    ));
                } else {
                    assert(!p(self.edges@[i as int]));
                    assert(single.filter(p) =~= Seq::<ThreadEdge>::empty());
                    assert(ext.filter(p) =~= prefix.filter(p));
                    assert(ext.filter(p).map_values(g) =~= prefix.filter(p).map_values(g));
                }
            }
            i = i + 1;
        }
        proof {
            assert(self.edges@.subrange(0, n as int) =~= self.edges@);
        }
        out
    }
}

/// The tree view of a threaded listing: the translated graph together with
/// the account configuration a renderer needs.
pub struct EnvelopesTree {
    pub config: AccountConfig,
    pub envelopes: ThreadedEnvelopes,
}

impl EnvelopesTree {
    pub fn new(config: AccountConfig, envelopes: ThreadedEnvelopes) -> (r: EnvelopesTree)
        ensures
            r.config == config,
            r.envelopes == envelopes,
    {
        EnvelopesTree { config, envelopes }
    }
}

} // verus!
