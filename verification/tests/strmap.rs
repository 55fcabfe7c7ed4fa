use codex_nano_manager::strmap::StrMap;
use codex_nano_manager::text::text_less;

#[test]
fn keys_stay_in_ascending_order() {
    let mut m: StrMap<String> = StrMap::new();
    for k in ["router-b", "alpha", "Zeta", "router-a", "alpha"] {
        m.insert(k.to_string(), format!("v-{k}"));
    }
    let keys: Vec<&str> = (0..m.len()).map(|i| m.key_at(i).as_str()).collect();
    assert_eq!(keys, vec!["Zeta", "alpha", "router-a", "router-b"]);
    assert_eq!(m.get("alpha").map(|s| s.as_str()), Some("v-alpha"));
    assert_eq!(m.get("beta"), None);
}

#[test]
fn insert_replaces_and_remove_returns_old_value() {
    let mut m: StrMap<String> = StrMap::new();
    assert_eq!(m.insert("k".into(), "1".into()), None);
    assert_eq!(m.insert("k".into(), "2".into()).as_deref(), Some("1"));
    assert_eq!(m.len(), 1);
    assert_eq!(m.remove("k").as_deref(), Some("2"));
    assert_eq!(m.remove("k"), None);
    assert!(m.is_empty());
}

#[test]
fn text_order_is_code_point_order() {
    assert!(text_less("a", "b"));
    assert!(text_less("ab", "abc"));
    assert!(!text_less("abc", "ab"));
    assert!(!text_less("same", "same"));
    assert!(text_less("Z", "a"));
    assert!(text_less("é", "ê"));
    let mut words = vec!["b", "é", "a", "ab", "Z"];
    words.sort();
    for w in words.windows(2) {
        assert!(text_less(w[0], w[1]));
    }
}
