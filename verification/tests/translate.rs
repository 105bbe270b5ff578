use himalaya_core::envelope::{Envelopes, Flag, Flags, Mailbox, NativeEnvelope};
use himalaya_core::error::Error;
use himalaya_core::id_mapper::IdMapper;
use himalaya_core::thread::{NativeEdge, NativeThreadedEnvelopes, ThreadedEnvelopes};

fn native(id: &str, subject: &str) -> NativeEnvelope {
    NativeEnvelope {
        id: id.to_string(),
        flags: Flags(vec![Flag::Seen]),
        subject: subject.to_string(),
        from: Mailbox { name: Some("Alice".to_string()), addr: "alice@localhost".to_string() },
        to: Mailbox { name: None, addr: "bob@localhost".to_string() },
        date: "2024-01-01 10:00".to_string(),
        has_attachment: false,
    }
}

#[test]
fn flat_listing_keeps_order_and_payload() {
    let mut mapper = IdMapper::persistent("work", "INBOX");
    let input = vec![native("n-one", "first"), native("n-two", "second")];
    let out = Envelopes::try_from_backend(&mut mapper, &input).unwrap();
    assert_eq!(out.0.len(), 2);
    assert_eq!(out.0[0].id, "1");
    assert_eq!(out.0[1].id, "2");
    assert_eq!(out.0[0].subject, "first");
    assert_eq!(out.0[1].subject, "second");
    assert_eq!(out.0[0].from.addr, "alice@localhost");
    assert_eq!(out.0[0].from.name.as_deref(), Some("Alice"));
    assert_eq!(out.0[0].date, "2024-01-01 10:00");
    assert!(!out.0[0].has_attachment);
}

#[test]
fn flat_listing_reuses_aliases_across_listings() {
    let mut mapper = IdMapper::persistent("work", "INBOX");
    let first = vec![native("n-one", "first")];
    let out1 = Envelopes::try_from_backend(&mut mapper, &first).unwrap();
    assert_eq!(out1.0[0].id, "1");

    let second = vec![native("n-two", "second"), native("n-one", "first")];
    let out2 = Envelopes::try_from_backend(&mut mapper, &second).unwrap();
    assert_eq!(out2.0[0].id, "2");
    assert_eq!(out2.0[1].id, "1");
}

#[test]
fn flat_listing_is_identity_under_pass_through() {
    let mut mapper = IdMapper::dummy();
    let input = vec![native("17", "hello"), native("23", "there")];
    let out = Envelopes::try_from_backend(&mut mapper, &input).unwrap();
    assert_eq!(out.0[0].id, "17");
    assert_eq!(out.0[1].id, "23");
}

#[test]
fn thread_graph_keeps_every_edge_and_reroots_orphans() {
    // edges (A -> B, weight 1), (B -> C, weight 2), (Z -> C, weight 2),
    // where Z is never returned as a fetched envelope
    let input = NativeThreadedEnvelopes {
        envelopes: vec![native("A", "a"), native("B", "b"), native("C", "c")],
        edges: vec![
            NativeEdge { parent: "A".to_string(), child: "B".to_string(), weight: 1 },
            NativeEdge { parent: "B".to_string(), child: "C".to_string(), weight: 2 },
            NativeEdge { parent: "Z".to_string(), child: "C".to_string(), weight: 2 },
        ],
    };
    let mut mapper = IdMapper::dummy();
    let out = ThreadedEnvelopes::try_from_backend(&mut mapper, &input).unwrap();

    // edge preservation: as many edges as extracted
    assert_eq!(out.edges.len(), 3);
    assert_eq!(out.envelopes.len(), 3);

    // C has two parent edges, one from B's alias and one from the root "0"
    let parents_of_c: Vec<&str> = out
        .edges
        .iter()
        .filter(|e| e.child == "C")
        .map(|e| e.parent.as_str())
        .collect();
    assert_eq!(parents_of_c, vec!["B", "0"]);

    // weights are preserved
    assert_eq!(out.edges[0].weight, 1);
    assert_eq!(out.edges[1].weight, 2);
    assert_eq!(out.edges[2].weight, 2);
}

#[test]
fn thread_graph_aliases_edge_endpoints_before_nodes() {
    let input = NativeThreadedEnvelopes {
        envelopes: vec![native("A", "a"), native("B", "b")],
        edges: vec![NativeEdge { parent: "B".to_string(), child: "A".to_string(), weight: 1 }],
    };
    let mut mapper = IdMapper::persistent("work", "INBOX");
    let out = ThreadedEnvelopes::try_from_backend(&mut mapper, &input).unwrap();
    // "B" is seen first (as an edge parent), so it gets alias 1
    assert_eq!(out.edges[0].parent, "1");
    assert_eq!(out.edges[0].child, "2");
    assert_eq!(out.envelopes[0].id, "2");  // node "A"
    assert_eq!(out.envelopes[1].id, "1");  // node "B"
}

#[test]
fn dangling_edge_child_is_a_reported_inconsistency() {
    let input = NativeThreadedEnvelopes {
        envelopes: vec![native("A", "a")],
        edges: vec![NativeEdge { parent: "A".to_string(), child: "GONE".to_string(), weight: 1 }],
    };
    let mut mapper = IdMapper::dummy();
    let err = ThreadedEnvelopes::try_from_backend(&mut mapper, &input).unwrap_err();
    assert!(matches!(err, Error::GraphReconstructionInconsistency(c) if c == "GONE"));
}

#[test]
fn children_of_expands_one_tree_level() {
    let input = NativeThreadedEnvelopes {
        envelopes: vec![native("A", "a"), native("B", "b"), native("C", "c")],
        edges: vec![
            NativeEdge { parent: "A".to_string(), child: "B".to_string(), weight: 1 },
            NativeEdge { parent: "A".to_string(), child: "C".to_string(), weight: 1 },
            NativeEdge { parent: "B".to_string(), child: "C".to_string(), weight: 2 },
        ],
    };
    let mut mapper = IdMapper::dummy();
    let out = ThreadedEnvelopes::try_from_backend(&mut mapper, &input).unwrap();
    assert_eq!(out.children_of("A", 1), vec!["B".to_string(), "C".to_string()]);
    assert_eq!(out.children_of("B", 2), vec!["C".to_string()]);
    assert_eq!(out.children_of("C", 1), Vec::<String>::new());
}

#[test]
fn aliases_stay_stable_across_flat_and_threaded_listings() {
    let mut mapper = IdMapper::persistent("work", "INBOX");
    let flat = vec![native("A", "a"), native("B", "b")];
    let out = Envelopes::try_from_backend(&mut mapper, &flat).unwrap();
    assert_eq!(out.0[0].id, "1");
    assert_eq!(out.0[1].id, "2");

    // a later threaded listing of the same folder reuses the same aliases,
    // even though its edges mention "B" before "A"
    let threaded = NativeThreadedEnvelopes {
        envelopes: vec![native("A", "a"), native("B", "b"), native("C", "c")],
        edges: vec![NativeEdge { parent: "B".to_string(), child: "A".to_string(), weight: 1 }],
    };
    let out = ThreadedEnvelopes::try_from_backend(&mut mapper, &threaded).unwrap();
    assert_eq!(out.edges[0].parent, "2");
    assert_eq!(out.edges[0].child, "1");
    assert_eq!(out.envelopes[0].id, "1");
    assert_eq!(out.envelopes[1].id, "2");
    assert_eq!(out.envelopes[2].id, "3");
}

#[test]
fn empty_listings_translate_to_empty_results() {
    let mut mapper = IdMapper::persistent("work", "INBOX");
    let out = Envelopes::try_from_backend(&mut mapper, &vec![]).unwrap();
    assert!(out.0.is_empty());

    let input = NativeThreadedEnvelopes { envelopes: vec![], edges: vec![] };
    let out = ThreadedEnvelopes::try_from_backend(&mut mapper, &input).unwrap();
    assert!(out.envelopes.is_empty());
    assert!(out.edges.is_empty());
}
