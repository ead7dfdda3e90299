use vox_verified::metadata::{meta_set, metadata, MetaValue, Metadata, MetadataFlags};

#[test]
fn builder_and_accessors_round_trip() {
    let m = metadata()
        .str("trace", "abc")
        .u64("n", 99)
        .bytes("blob", &[1u8, 2, 3][..])
        .sensitive("trace")
        .build();

    assert_eq!(m.meta_str("trace"), Some("abc"));
    assert_eq!(m.meta_u64("n"), Some(99));
    assert_eq!(m.meta_bytes("blob"), Some(&[1u8, 2, 3][..]));
    assert!(m.meta_is_sensitive("trace"));
    assert!(!m.meta_is_sensitive("n"));
    // The well-known flag key is hidden from the logical entries.
    let entries: Vec<&str> = m.meta_entries().into_iter().map(|(k, _)| k).collect();
    assert_eq!(entries.len(), 3);
    assert!(!entries.contains(&"vox:sensitive"));
}

#[test]
fn default_is_empty() {
    let m = Metadata::default();
    assert!(m.meta_is_empty());
    assert_eq!(m.meta_len(), 0);
    assert_eq!(m.meta_str("x"), None);
}

#[test]
fn later_write_replaces_earlier_one() {
    let m = metadata().str("k", "first").u64("other", 1).str("k", "second").build();
    assert_eq!(m.meta_str("k"), Some("second"));
    assert_eq!(m.meta_u64("other"), Some(1));
    assert_eq!(m.meta_len(), 2);
}

#[test]
fn a_value_of_another_kind_reads_as_absent() {
    let m = metadata().u64("n", 7).build();
    assert_eq!(m.meta_str("n"), None);
    assert_eq!(m.meta_bytes("n"), None);
    assert_eq!(m.meta_u64("missing"), None);
}

#[test]
fn meta_set_records_each_flag_once() {
    let mut m = Metadata::new();
    let both = MetadataFlags::sensitive() | MetadataFlags::no_propagate();
    meta_set(&mut m, "token", MetaValue::Str("s3cret".to_string()), both);
    meta_set(&mut m, "token", MetaValue::Str("again".to_string()), both);
    assert_eq!(m.meta_str("token"), Some("again"));
    assert!(m.meta_is_sensitive("token"));
    assert!(m.meta_is_no_propagate("token"));
    let entries: Vec<&str> = m.meta_entries().into_iter().map(|(k, _)| k).collect();
    assert_eq!(entries, vec!["token"]);
}

#[test]
fn no_propagate_flag_alone() {
    let m = metadata().str("route", "a").no_propagate("route").build();
    assert!(m.meta_is_no_propagate("route"));
    assert!(!m.meta_is_sensitive("route"));
}

#[test]
fn flags_contain_their_parts() {
    let both = MetadataFlags::sensitive() | MetadataFlags::no_propagate();
    assert!(both.contains(MetadataFlags::sensitive()));
    assert!(both.contains(MetadataFlags::no_propagate()));
    assert!(!MetadataFlags::sensitive().contains(MetadataFlags::no_propagate()));
    assert!(MetadataFlags::none().contains(MetadataFlags::none()));
    assert_eq!(both, MetadataFlags(3));
}

#[test]
fn get_helpers_read_the_same_values() {
    let m = metadata().str("a", "b").u64("c", 5).build();
    assert_eq!(vox_verified::metadata::metadata_get_str(&m, "a"), Some("b"));
    assert_eq!(vox_verified::metadata::metadata_get_u64(&m, "c"), Some(5));
    let owned = vox_verified::metadata::metadata_into_owned(m);
    assert_eq!(owned.meta_str("a"), Some("b"));
}
