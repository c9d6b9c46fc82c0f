use jetporch::util::yaml::{blend_variables, blended, key_name, number_value, Datum, Mapping};

fn text(s: &str) -> Datum {
    Datum::Text(String::from(s))
}

fn mapping(entries: Vec<(&str, Datum)>) -> Mapping {
    let mut m = Mapping::new();
    for (k, v) in entries {
        m.insert(String::from(k), v);
    }
    m
}

fn keys(m: &Mapping) -> Vec<String> {
    let mut out = Vec::new();
    for i in 0..m.len() {
        out.push(m.key_at(i).clone());
    }
    out
}

#[test]
fn insert_keeps_names_distinct_and_in_order() {
    let mut m = Mapping::new();
    assert!(m.is_empty());
    m.insert(String::from("a"), Datum::Number(1));
    m.insert(String::from("b"), Datum::Number(2));
    m.insert(String::from("a"), Datum::Number(3));
    assert_eq!(m.len(), 2);
    assert_eq!(keys(&m), vec!["a", "b"]);
    assert_eq!(m.get("a"), Some(&Datum::Number(3)));
    assert_eq!(m.get("b"), Some(&Datum::Number(2)));
    assert_eq!(m.get("c"), None);
    assert!(m.contains_key("b"));
    assert!(!m.contains_key("B"));
    assert_eq!(m.index_of("b"), Some(1));
    assert_eq!(m.index_of("z"), None);
    assert_eq!(m.value_at(0), &Datum::Number(3));
}

#[test]
fn duplicate_is_a_deep_copy() {
    let m = mapping(vec![
        ("a", Datum::Sequence(vec![Datum::Null, Datum::Bool(true), text("x")])),
        ("b", Datum::Mapping(mapping(vec![("c", Datum::Number(-5))]))),
    ]);
    assert_eq!(m.duplicate(), m);
    let v = Datum::Mapping(m);
    assert_eq!(v.duplicate(), v);
}

#[test]
fn merge_replaces_scalars_and_merges_mappings() {
    let under = mapping(vec![
        ("keep", text("under")),
        ("scalar", text("under")),
        ("nested", Datum::Mapping(mapping(vec![("x", Datum::Number(1)), ("y", Datum::Number(2))]))),
        ("list", Datum::Sequence(vec![Datum::Number(1)])),
        ("was_map", Datum::Mapping(mapping(vec![("x", Datum::Number(1))]))),
    ]);
    let over = mapping(vec![
        ("scalar", text("over")),
        ("nested", Datum::Mapping(mapping(vec![("y", Datum::Number(20)), ("z", Datum::Number(30))]))),
        ("list", Datum::Sequence(vec![Datum::Number(2)])),
        ("was_map", text("now text")),
        ("new", Datum::Null),
    ]);
    let merged = under.merged(&over);
    assert_eq!(keys(&merged), vec!["keep", "scalar", "nested", "list", "was_map", "new"]);
    assert_eq!(merged.get("keep"), Some(&text("under")));
    assert_eq!(merged.get("scalar"), Some(&text("over")));
    assert_eq!(
        merged.get("nested"),
        Some(&Datum::Mapping(mapping(vec![
            ("x", Datum::Number(1)),
            ("y", Datum::Number(20)),
            ("z", Datum::Number(30)),
        ])))
    );
    // sequences are replaced, not appended
    assert_eq!(merged.get("list"), Some(&Datum::Sequence(vec![Datum::Number(2)])));
    assert_eq!(merged.get("was_map"), Some(&text("now text")));
    assert_eq!(merged.get("new"), Some(&Datum::Null));
    // the inputs are left as they were
    assert_eq!(under.get("scalar"), Some(&text("under")));
}

#[test]
fn merge_of_values() {
    let a = Datum::Mapping(mapping(vec![("x", Datum::Number(1))]));
    let b = Datum::Mapping(mapping(vec![("y", Datum::Number(2))]));
    assert_eq!(
        blended(&a, &b),
        Datum::Mapping(mapping(vec![("x", Datum::Number(1)), ("y", Datum::Number(2))]))
    );
    assert_eq!(blended(&a, &Datum::Null), Datum::Null);
    assert_eq!(blended(&text("t"), &b), b);
    let mut c = a.duplicate();
    blend_variables(&mut c, b.duplicate());
    assert_eq!(c, blended(&a, &b));
}

#[test]
fn update_replaces_whole_values() {
    let mut m = mapping(vec![("nested", Datum::Mapping(mapping(vec![("x", Datum::Number(1))])))]);
    let other = mapping(vec![
        ("nested", Datum::Mapping(mapping(vec![("y", Datum::Number(2))]))),
        ("more", Datum::Bool(false)),
    ]);
    m.update(&other);
    assert_eq!(m, other);
}

#[test]
fn yaml_text_of_a_mapping() {
    let m = mapping(vec![
        ("name", text("web1")),
        ("port", Datum::Number(8080)),
        ("debug", Datum::Bool(false)),
        ("nothing", Datum::Null),
        ("tags", Datum::Sequence(vec![text("a"), text("b")])),
        ("nested", Datum::Mapping(mapping(vec![("z", Datum::Number(-1)), ("a", Datum::Number(1))]))),
    ]);
    assert_eq!(
        m.to_yaml_text(),
        Some(String::from(
            "name: web1\nport: 8080\ndebug: false\nnothing: null\ntags:\n- a\n- b\nnested:\n  z: -1\n  a: 1\n"
        ))
    );
    assert_eq!(Mapping::new().to_yaml_text(), Some(String::from("{}\n")));
}

#[test]
fn numbers_and_names_of_a_document() {
    assert_eq!(number_value(Some(-3), String::from("-3")), Datum::Number(-3));
    assert_eq!(number_value(None, String::from("1.5")), text("1.5"));
    assert_eq!(number_value(None, String::from("18446744073709551615")), text("18446744073709551615"));
    assert_eq!(key_name(&text("a"), ""), Some(String::from("a")));
    assert_eq!(key_name(&Datum::Bool(true), "true"), Some(String::from("true")));
    assert_eq!(key_name(&Datum::Number(7), "7"), Some(String::from("7")));
    assert_eq!(key_name(&Datum::Null, "null"), None);
    assert_eq!(key_name(&Datum::Sequence(vec![]), "x"), None);
    assert_eq!(key_name(&Datum::Mapping(Mapping::new()), "x"), None);
}
