use model_gen::resolve::{foreign_key_name, is_reserved_name, resolve_fields};
use model_gen::schema_type::SchemaType;

fn fields(pairs: &[(&str, &str)]) -> Vec<(String, String)> {
    pairs.iter().map(|(n, t)| (n.to_string(), t.to_string())).collect()
}

fn columns_of(pairs: &[(&str, &str)]) -> Vec<(String, SchemaType)> {
    let res = match resolve_fields(&fields(pairs)) {
        Ok(res) => res,
        Err(e) => panic!("unexpected unknown tag {}", e.tag),
    };
    res.columns.into_iter().map(|c| (c.name, c.schema_type)).collect()
}

#[test]
fn mixed_fields_resolve_in_order() {
    let input = fields(&[("title", "string!"), ("user", "references"), ("created_at", "ts!")]);
    let res = match resolve_fields(&input) {
        Ok(res) => res,
        Err(e) => panic!("unexpected unknown tag {}", e.tag),
    };
    let cols: Vec<(String, &str)> =
        res.columns.iter().map(|c| (c.name.clone(), c.schema_type.name())).collect();
    assert_eq!(cols, vec![("title".to_string(), "string"), ("user_id".to_string(), "integer")]);
    assert_eq!(res.columns[0].schema_type, SchemaType::Str);
    assert_eq!(res.columns[1].schema_type, SchemaType::Integer);
    let refs: Vec<(String, String)> =
        res.references.iter().map(|r| (r.target.clone(), r.foreign_key.clone())).collect();
    assert_eq!(refs, vec![("user".to_string(), "user_id".to_string())]);
    assert_eq!(res.redundant_fields, vec!["created_at".to_string()]);
}

#[test]
fn duplicate_names_are_kept() {
    let cols = columns_of(&[("age", "int"), ("age", "int!")]);
    assert_eq!(
        cols,
        vec![("age".to_string(), SchemaType::IntegerNull), ("age".to_string(), SchemaType::Integer)]
    );
}

#[test]
fn plain_fields_keep_length_and_order() {
    let cols = columns_of(&[("b", "text"), ("a", "uuid"), ("c", "jsonb!"), ("d", "bool")]);
    let names: Vec<String> = cols.iter().map(|c| c.0.clone()).collect();
    assert_eq!(names, vec!["b", "a", "c", "d"]);
    assert_eq!(cols[0].1, SchemaType::TextNull);
    assert_eq!(cols[1].1, SchemaType::Uuid);
    assert_eq!(cols[2].1, SchemaType::Jsonb);
    assert_eq!(cols[3].1, SchemaType::BoolNull);
}

#[test]
fn relation_expands_to_one_column_and_one_reference() {
    let res = match resolve_fields(&fields(&[("name", "string"), ("post", "references")])) {
        Ok(res) => res,
        Err(e) => panic!("unexpected unknown tag {}", e.tag),
    };
    let fk: Vec<&model_gen::resolve::Column> =
        res.columns.iter().filter(|c| c.name == "post_id").collect();
    assert_eq!(fk.len(), 1);
    assert_eq!(fk[0].schema_type, SchemaType::Integer);
    assert_eq!(res.references.len(), 1);
    assert_eq!(res.references[0].target, "post");
    assert_eq!(res.references[0].foreign_key, "post_id");
}

#[test]
fn reserved_fields_vanish_and_resolution_succeeds() {
    let res = match resolve_fields(&fields(&[
        ("updated_at", "ts"),
        ("create_at", "nonsense"),
        ("update_at", "references"),
        ("title", "string^"),
    ])) {
        Ok(res) => res,
        Err(e) => panic!("unexpected unknown tag {}", e.tag),
    };
    assert_eq!(res.columns.len(), 1);
    assert_eq!(res.columns[0].name, "title");
    assert_eq!(res.columns[0].schema_type, SchemaType::StrUniq);
    assert!(res.references.is_empty());
    assert_eq!(res.redundant_fields, vec!["updated_at", "create_at", "update_at"]);
}

#[test]
fn unknown_tag_fails_whole_resolution() {
    let r = resolve_fields(&fields(&[("title", "string!"), ("x", "strin"), ("y", "bogus")]));
    match r {
        Ok(_) => panic!("expected an unknown tag"),
        Err(e) => {
            assert_eq!(e.tag, "strin");
            assert_eq!(e.valid_tags.len(), 38);
            assert!(e.valid_tags.contains(&"string!"));
        }
    }
}

#[test]
fn relation_tag_with_suffix_is_unknown() {
    let r = resolve_fields(&fields(&[("user", "references!")]));
    assert!(matches!(r, Err(e) if e.tag == "references!"));
}

#[test]
fn empty_field_list_resolves_to_nothing() {
    let res = match resolve_fields(&[]) {
        Ok(res) => res,
        Err(e) => panic!("unexpected unknown tag {}", e.tag),
    };
    assert!(res.columns.is_empty());
    assert!(res.references.is_empty());
    assert!(res.redundant_fields.is_empty());
}

#[test]
fn reserved_name_check() {
    for n in ["created_at", "updated_at", "create_at", "update_at"] {
        assert!(is_reserved_name(n));
    }
    for n in ["", "created", "created_at_", "Created_at", "id"] {
        assert!(!is_reserved_name(n));
    }
}

#[test]
fn foreign_key_appends_id() {
    assert_eq!(foreign_key_name("user"), "user_id");
    assert_eq!(foreign_key_name(""), "_id");
    assert_eq!(foreign_key_name("ünï"), "ünï_id");
}
