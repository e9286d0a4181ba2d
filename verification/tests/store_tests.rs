use alakit::store::Store;

#[test]
fn read_your_write() {
    let mut s = Store::new();
    assert_eq!(s.get("k"), None);
    let js = s.set("k", "value `1` $x");
    assert_eq!(
        js,
        "if (window.alakit_update_store) window.alakit_update_store(`k`, `value \\`1\\` \\$x`);"
    );
    assert_eq!(s.get("k"), Some("value `1` $x".to_string()));
    assert_eq!(s.get("other"), None);
}

#[test]
fn overwrite_keeps_the_last_value() {
    let mut s = Store::new();
    s.set("k", "first");
    s.set("k", "second");
    s.set("j", "other");
    assert_eq!(s.get("k"), Some("second".to_string()));
    assert_eq!(s.get("j"), Some("other".to_string()));
}

#[test]
fn unicode_values_round_trip() {
    let mut s = Store::new();
    s.set("név", "árvíztűrő tükörfúrógép ⭐");
    assert_eq!(s.get("név"), Some("árvíztűrő tükörfúrógép ⭐".to_string()));
    s.set("empty", "");
    assert_eq!(s.get("empty"), Some(String::new()));
}

#[test]
fn remove_forgets_the_key() {
    let mut s = Store::new();
    s.set("a", "1");
    s.set("b", "2");
    let js = s.remove("a");
    assert_eq!(js, "if (window.alakit_update_store) window.alakit_update_store(`a`, null);");
    assert_eq!(s.get("a"), None);
    assert_eq!(s.get("b"), Some("2".to_string()));
    s.remove("missing");
    assert_eq!(s.get("b"), Some("2".to_string()));
}

#[test]
fn fresh_store_has_not_failed() {
    let mut s = Store::new();
    assert!(!s.has_failed());
    s.set("k", "v");
    assert!(!s.has_failed());
    assert_eq!(s.get("k"), Some("v".to_string()));
    assert_eq!(s.ciphertext("k").unwrap().len(), 1 + 16);
}
