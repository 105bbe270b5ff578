use himalaya_core::error::Error;
use himalaya_core::id_mapper::{AliasTable, IdMapper};

#[test]
fn first_alias_is_one_and_allocation_is_idempotent() {
    let mut table = AliasTable::new("work", "INBOX");
    assert_eq!(table.len(), 0);
    let a = table.get_or_create_alias("1700000000.V1.host:2,S");
    assert_eq!(a, 1);
    let again = table.get_or_create_alias("1700000000.V1.host:2,S");
    assert_eq!(again, 1);
    assert_eq!(table.len(), 1);
}

#[test]
fn fresh_identifiers_take_the_smallest_unused_integer() {
    let mut table = AliasTable::new("work", "INBOX");
    assert_eq!(table.get_or_create_alias("a"), 1);
    assert_eq!(table.get_or_create_alias("b"), 2);
    assert_eq!(table.get_or_create_alias("c"), 3);
    // every id from 1 to len is in use, so the next one is len + 1
    assert_eq!(table.get_or_create_alias("d"), 4);
}

#[test]
fn scenario_work_inbox_maildir_filenames() {
    let mut table = AliasTable::new("work", "INBOX");
    assert_eq!(table.get_or_create_alias("1700000000.V1.host:2,S"), 1);
    assert_eq!(table.get_or_create_alias("1700000001.V2.host:2,"), 2);
    assert_eq!(table.get_or_create_alias("1700000000.V1.host:2,S"), 1);
}

#[test]
fn round_trip_through_the_persistent_table() {
    let mut table = AliasTable::new("work", "INBOX");
    let a = table.get_or_create_alias("some-opaque-id");
    let back = table.get_id(a).unwrap();
    assert_eq!(back, "some-opaque-id");
}

#[test]
fn round_trip_through_the_textual_interface() {
    let mut mapper = IdMapper::persistent("work", "INBOX");
    let alias = mapper.get_or_create_alias("1700000000.V1.host:2,S");
    assert_eq!(alias, "1");
    let back = mapper.get_id(&alias).unwrap();
    assert_eq!(back, "1700000000.V1.host:2,S");
}

#[test]
fn round_trip_through_the_pass_through_store() {
    let mut mapper = IdMapper::dummy();
    let alias = mapper.get_or_create_alias("42");
    assert_eq!(alias, "42");
    let back = mapper.get_id(&alias).unwrap();
    assert_eq!(back, "42");
}

#[test]
fn pass_through_is_the_identity_and_never_fails() {
    let mut mapper = IdMapper::dummy();
    assert!(mapper.is_dummy());
    let alias = mapper.get_or_create_alias("whatever text, even spaces");
    assert_eq!(alias, "whatever text, even spaces");
    // lookups succeed for any string, numeric or not
    assert_eq!(mapper.get_id("not-a-number").unwrap(), "not-a-number");
    assert_eq!(mapper.get_id("7").unwrap(), "7");
}

#[test]
fn unknown_alias_is_reported() {
    let table = AliasTable::new("work", "INBOX");
    let err = table.get_id(1).unwrap_err();
    assert!(matches!(err, Error::UnknownAlias(a) if a == "1"));

    let mut mapper = IdMapper::persistent("work", "INBOX");
    mapper.get_or_create_alias("x");
    assert!(mapper.get_id("1").is_ok());
    let err = mapper.get_id("2").unwrap_err();
    assert!(matches!(err, Error::UnknownAlias(a) if a == "2"));
    let err = mapper.get_id("zero").unwrap_err();
    assert!(matches!(err, Error::UnknownAlias(a) if a == "zero"));
    let err = mapper.get_id("0").unwrap_err();
    assert!(matches!(err, Error::UnknownAlias(a) if a == "0"));
}

#[test]
fn batch_lookup_stops_at_the_first_unknown_alias() {
    let mut table = AliasTable::new("work", "INBOX");
    table.get_or_create_alias("a");
    table.get_or_create_alias("b");
    let ok = table.get_ids(&vec![2, 1]).unwrap();
    assert_eq!(ok, vec!["b".to_string(), "a".to_string()]);
    let err = table.get_ids(&vec![1, 5, 9]).unwrap_err();
    assert!(matches!(err, Error::UnknownAlias(a) if a == "5"));

    let mut mapper = IdMapper::persistent("work", "INBOX");
    mapper.get_or_create_alias("a");
    let err = mapper
        .get_ids(&vec!["1".to_string(), "3".to_string()])
        .unwrap_err();
    assert!(matches!(err, Error::UnknownAlias(a) if a == "3"));
}

#[test]
fn create_alias_pre_binds_a_new_message() {
    let mut table = AliasTable::new("work", "Sent");
    let id = table.create_alias("fresh-message-id");
    assert_eq!(id, 1);
    // the alias is visible to a later listing
    assert_eq!(table.get_or_create_alias("fresh-message-id"), 1);
    assert_eq!(table.get_id(1).unwrap(), "fresh-message-id");
}

#[test]
fn table_remembers_its_scope() {
    let table = AliasTable::new("work", "INBOX");
    assert_eq!(table.account(), "work");
    assert_eq!(table.folder(), "INBOX");
}
