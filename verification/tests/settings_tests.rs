use crates_autocomplete::settings::SettingsValue;
use crates_autocomplete::settings::default_configuration;
use crates_autocomplete::settings::effective_configuration;
use crates_autocomplete::settings::merge;

fn entries(v: SettingsValue) -> Vec<(String, SettingsValue)> {
    match v {
        SettingsValue::Object(es) => es,
        other => panic!("expected an object, got {:?}", other),
    }
}

fn value_of<'a>(es: &'a [(String, SettingsValue)], key: &str) -> &'a SettingsValue {
    &es.iter().find(|e| e.0 == key).expect("missing key").1
}

fn obj(pairs: Vec<(&str, SettingsValue)>) -> SettingsValue {
    SettingsValue::Object(pairs.into_iter().map(|(k, v)| (k.to_string(), v)).collect())
}

#[test]
fn default_configuration_contents() {
    let es = entries(default_configuration());
    assert_eq!(es.len(), 7);
    assert_eq!(*value_of(&es, "inlay_hints"), SettingsValue::Bool(true));
    assert_eq!(*value_of(&es, "diagnostics"), SettingsValue::Bool(true));
    assert_eq!(
        *value_of(&es, "up_to_date_hint"),
        SettingsValue::Text("\u{2705}".to_string())
    );
    assert_eq!(
        *value_of(&es, "needs_update_hint"),
        SettingsValue::Text("\u{274c} {}".to_string())
    );
    assert_eq!(*value_of(&es, "needs_update_severity"), SettingsValue::Int(2));
    assert_eq!(*value_of(&es, "unknown_dep_severity"), SettingsValue::Int(1));
    assert_eq!(*value_of(&es, "up_to_date_severity"), SettingsValue::Int(4));
}

#[test]
fn user_inlay_hints_override_wins() {
    let user = obj(vec![("inlay_hints", SettingsValue::Bool(false))]);
    let es = entries(effective_configuration(user));
    assert_eq!(es.len(), 7);
    assert_eq!(*value_of(&es, "inlay_hints"), SettingsValue::Bool(false));
    assert_eq!(*value_of(&es, "diagnostics"), SettingsValue::Bool(true));
    assert_eq!(
        *value_of(&es, "up_to_date_hint"),
        SettingsValue::Text("\u{2705}".to_string())
    );
    assert_eq!(
        *value_of(&es, "needs_update_hint"),
        SettingsValue::Text("\u{274c} {}".to_string())
    );
    assert_eq!(*value_of(&es, "needs_update_severity"), SettingsValue::Int(2));
    assert_eq!(*value_of(&es, "unknown_dep_severity"), SettingsValue::Int(1));
    assert_eq!(*value_of(&es, "up_to_date_severity"), SettingsValue::Int(4));
}

#[test]
fn merge_with_empty_object_keeps_defaults() {
    let d = obj(vec![
        ("a", SettingsValue::Int(1)),
        ("b", SettingsValue::Text("x".to_string())),
    ]);
    let expected = obj(vec![
        ("a", SettingsValue::Int(1)),
        ("b", SettingsValue::Text("x".to_string())),
    ]);
    assert_eq!(merge(d, SettingsValue::Object(Vec::new())), expected);
}

#[test]
fn merge_with_null_keeps_defaults() {
    let d = obj(vec![("a", SettingsValue::Int(1))]);
    let expected = obj(vec![("a", SettingsValue::Int(1))]);
    assert_eq!(merge(d, SettingsValue::Null), expected);
}

#[test]
fn merge_disjoint_keys_unions() {
    let d = obj(vec![("a", SettingsValue::Int(1)), ("b", SettingsValue::Int(2))]);
    let u = obj(vec![("c", SettingsValue::Int(3))]);
    let es = entries(merge(d, u));
    assert_eq!(es.len(), 3);
    assert_eq!(*value_of(&es, "a"), SettingsValue::Int(1));
    assert_eq!(*value_of(&es, "b"), SettingsValue::Int(2));
    assert_eq!(*value_of(&es, "c"), SettingsValue::Int(3));
}

#[test]
fn merge_overlapping_keys_override_wins() {
    let d = obj(vec![("a", SettingsValue::Int(1)), ("b", SettingsValue::Int(2))]);
    let u = obj(vec![("a", SettingsValue::Int(10)), ("b", SettingsValue::Int(20))]);
    let es = entries(merge(d, u));
    assert_eq!(es.len(), 2);
    assert_eq!(*value_of(&es, "a"), SettingsValue::Int(10));
    assert_eq!(*value_of(&es, "b"), SettingsValue::Int(20));
}

#[test]
fn merge_non_object_override_replaces_defaults() {
    let d = obj(vec![("a", SettingsValue::Int(1))]);
    assert_eq!(merge(d, SettingsValue::Bool(false)), SettingsValue::Bool(false));
    let d2 = obj(vec![("a", SettingsValue::Int(1))]);
    let list = SettingsValue::List(vec![SettingsValue::Int(7)]);
    assert_eq!(merge(d2, list), SettingsValue::List(vec![SettingsValue::Int(7)]));
}

#[test]
fn merge_object_over_non_object_keeps_override() {
    let u = obj(vec![("a", SettingsValue::Int(1))]);
    let expected = obj(vec![("a", SettingsValue::Int(1))]);
    assert_eq!(merge(SettingsValue::Null, u), expected);
}

#[test]
fn merge_keeps_nested_values_untouched() {
    let nested = obj(vec![("inner", SettingsValue::Bool(true))]);
    let d = obj(vec![("a", nested), ("b", SettingsValue::Int(2))]);
    let u = obj(vec![("b", SettingsValue::Int(3))]);
    let es = entries(merge(d, u));
    let expected_nested = obj(vec![("inner", SettingsValue::Bool(true))]);
    assert_eq!(*value_of(&es, "a"), expected_nested);
    assert_eq!(*value_of(&es, "b"), SettingsValue::Int(3));
}
