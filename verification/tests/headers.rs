use conduit_hyper::response::{build_headers, Headers};

#[test]
fn build_headers_holds_one_entry() {
    let headers = build_headers("value");
    assert_eq!(headers.len(), 1);
    assert_eq!(headers.get("ok"), Some(&vec![String::from("value")]));
    assert_eq!(headers.get("OK"), None);
}

#[test]
fn new_headers_are_empty() {
    let headers = Headers::new();
    assert_eq!(headers.len(), 0);
    assert_eq!(headers.get("ok"), None);
}

#[test]
fn insert_of_a_new_name_adds_an_entry() {
    let mut headers = build_headers("discarded");
    let previous = headers.insert("invalid".into(), vec!["\r\n".into()]);
    assert_eq!(previous, None);
    assert_eq!(headers.len(), 2);
    assert_eq!(headers.get("invalid"), Some(&vec![String::from("\r\n")]));
    assert_eq!(headers.get("ok"), Some(&vec![String::from("discarded")]));
}

#[test]
fn insert_of_a_known_name_replaces_its_values() {
    let mut headers = build_headers("first");
    headers.insert("other".into(), vec!["x".into()]);
    let previous = headers.insert("ok".into(), vec!["second".into(), "third".into()]);
    assert_eq!(previous, Some(vec![String::from("first")]));
    assert_eq!(headers.len(), 2);
    assert_eq!(
        headers.get("ok"),
        Some(&vec![String::from("second"), String::from("third")])
    );
    assert_eq!(headers.get("other"), Some(&vec![String::from("x")]));
}

#[test]
fn names_are_told_apart_exactly() {
    let mut headers = Headers::new();
    headers.insert("a".into(), vec!["1".into()]);
    headers.insert("ab".into(), vec!["2".into()]);
    headers.insert("A".into(), vec!["3".into()]);
    headers.insert("\u{e9}".into(), vec!["4".into()]);
    assert_eq!(headers.len(), 4);
    assert_eq!(headers.get("a"), Some(&vec![String::from("1")]));
    assert_eq!(headers.get("ab"), Some(&vec![String::from("2")]));
    assert_eq!(headers.get("A"), Some(&vec![String::from("3")]));
    assert_eq!(headers.get("\u{e9}"), Some(&vec![String::from("4")]));
    assert_eq!(headers.get("b"), None);
    assert_eq!(headers.get(""), None);
}
