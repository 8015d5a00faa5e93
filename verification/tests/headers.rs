use httpserver::headers::Headers;

fn pair(h: &Headers, i: usize) -> Option<(String, String)> {
    h.field(i).map(|(k, v)| (k.clone(), v.clone()))
}

#[test]
fn new_headers_are_empty() {
    let h = Headers::new();
    assert_eq!(h.len(), 0);
    assert_eq!(h.get("Host"), None);
    assert_eq!(pair(&h, 0), None);
}

#[test]
fn insert_then_get() {
    let mut h = Headers::new();
    h.insert("Host".to_string(), "localhost".to_string());
    h.insert("Accept".to_string(), "*/*".to_string());
    assert_eq!(h.len(), 2);
    assert_eq!(h.get("Host"), Some(&"localhost".to_string()));
    assert_eq!(h.get("Accept"), Some(&"*/*".to_string()));
    assert_eq!(h.get("host"), None);
}

#[test]
fn a_later_value_replaces_the_earlier_one_in_place() {
    let mut h = Headers::new();
    h.insert("A".to_string(), "1".to_string());
    h.insert("B".to_string(), "2".to_string());
    h.insert("A".to_string(), "3".to_string());
    assert_eq!(h.len(), 2);
    assert_eq!(h.get("A"), Some(&"3".to_string()));
    assert_eq!(pair(&h, 0), Some(("A".to_string(), "3".to_string())));
    assert_eq!(pair(&h, 1), Some(("B".to_string(), "2".to_string())));
    assert_eq!(pair(&h, 2), None);
}

#[test]
fn equality_does_not_look_at_the_order() {
    let mut a = Headers::new();
    a.insert("A".to_string(), "1".to_string());
    a.insert("B".to_string(), "2".to_string());
    let mut b = Headers::new();
    b.insert("B".to_string(), "2".to_string());
    b.insert("A".to_string(), "1".to_string());
    assert_eq!(a, b);
    assert!(a.within(&b));
    let mut c = Headers::new();
    c.insert("A".to_string(), "1".to_string());
    assert_ne!(a, c);
    assert!(c.within(&a));
    assert!(!a.within(&c));
    let mut d = Headers::new();
    d.insert("A".to_string(), "1".to_string());
    d.insert("B".to_string(), "x".to_string());
    assert_ne!(a, d);
}

#[test]
fn a_clone_is_equal() {
    let mut a = Headers::new();
    a.insert("A".to_string(), "1".to_string());
    a.insert("B".to_string(), "2".to_string());
    let b = a.clone();
    assert_eq!(a, b);
    assert_eq!(pair(&b, 0), Some(("A".to_string(), "1".to_string())));
    assert_eq!(pair(&b, 1), Some(("B".to_string(), "2".to_string())));
}
