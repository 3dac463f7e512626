use model_gen::schema_type::{lookup, str_eq, valid_tag_list, SchemaType};

#[test]
fn every_valid_tag_resolves_the_same_way_each_time() {
    let tags = valid_tag_list();
    assert_eq!(tags.len(), 38);
    for tag in &tags {
        let a = match lookup(tag) {
            Ok(t) => t,
            Err(_) => panic!("valid tag {tag} did not resolve"),
        };
        let b = match lookup(tag) {
            Ok(t) => t,
            Err(_) => panic!("valid tag {tag} did not resolve"),
        };
        assert_eq!(a, b);
    }
}

#[test]
fn tags_map_to_canonical_names() {
    let expected = [
        ("uuid", "uuid"),
        ("string", "string_null"),
        ("string!", "string"),
        ("string^", "string_uniq"),
        ("text!", "text"),
        ("tiny_integer^", "tiny_integer_uniq"),
        ("small_integer", "small_integer_null"),
        ("int", "integer_null"),
        ("int!", "integer"),
        ("int^", "integer_uniq"),
        ("big_integer!", "big_integer"),
        ("float", "float_null"),
        ("double!", "double"),
        ("decimal_len", "decimal_len_null"),
        ("bool!", "bool"),
        ("tstz", "timestamptz_null"),
        ("date!", "date"),
        ("ts", "timestamp_null"),
        ("json!", "json"),
        ("jsonb", "jsonb_null"),
    ];
    for (tag, name) in expected {
        match lookup(tag) {
            Ok(t) => assert_eq!(t.name(), name, "tag {tag}"),
            Err(_) => panic!("tag {tag} did not resolve"),
        }
    }
}

#[test]
fn distinct_tags_give_distinct_types() {
    let tags = valid_tag_list();
    let types: Vec<SchemaType> = tags
        .iter()
        .map(|t| match lookup(t) {
            Ok(t) => t,
            Err(_) => panic!("tag did not resolve"),
        })
        .collect();
    for i in 0..types.len() {
        for j in (i + 1)..types.len() {
            assert_ne!(types[i], types[j]);
        }
    }
}

#[test]
fn unknown_tag_carries_tag_and_valid_set() {
    for bad in ["", "references", "String", "int?", "uuid!"] {
        match lookup(bad) {
            Ok(_) => panic!("{bad:?} should not resolve"),
            Err(e) => {
                assert_eq!(e.tag, bad);
                assert_eq!(e.valid_tags, valid_tag_list());
            }
        }
    }
}

#[test]
fn valid_tags_start_in_table_order() {
    let tags = valid_tag_list();
    assert_eq!(&tags[..4], &["uuid", "string", "string!", "string^"]);
    assert_eq!(tags[37], "jsonb!");
}

#[test]
fn string_equality() {
    assert!(str_eq("", ""));
    assert!(str_eq("abc", "abc"));
    assert!(!str_eq("abc", "abd"));
    assert!(!str_eq("ab", "abc"));
    assert!(str_eq("é!", "é!"));
}
