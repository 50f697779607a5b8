use krab::records::Records;

fn pairs(list: &[(&str, &str)]) -> Vec<(String, String)> {
    list.iter().map(|(d, s)| (d.to_string(), s.to_string())).collect()
}

#[test]
fn a_new_store_is_empty() {
    let records = Records::new();
    assert_eq!(records.len(), 0);
    assert!(records.snapshot().records().is_empty());
    assert_eq!(records.find("a.com"), None);
    assert_eq!(records.get("a.com"), None);
}

#[test]
fn add_appends_new_domains_in_order() {
    let mut records = Records::new();
    records.add("a.com", "1");
    records.add("b.com", "2");
    records.add("c.com", "3");
    assert_eq!(
        records.snapshot().records(),
        &pairs(&[("a.com", "1"), ("b.com", "2"), ("c.com", "3")])
    );
    assert_eq!(records.find("b.com"), Some(1));
    assert_eq!(records.get("c.com"), Some("3".to_string()));
}

#[test]
fn add_overwrites_in_place() {
    let mut records = Records::new();
    records.add("a.com", "1");
    records.add("b.com", "2");
    records.add("a.com", "9");
    assert_eq!(records.snapshot().records(), &pairs(&[("a.com", "9"), ("b.com", "2")]));
    assert_eq!(records.len(), 2);
}

#[test]
fn remove_keeps_the_order_of_the_rest() {
    let mut records = Records::new();
    records.add("a.com", "1");
    records.add("b.com", "2");
    records.add("c.com", "3");
    assert!(records.remove("b.com"));
    assert_eq!(records.snapshot().records(), &pairs(&[("a.com", "1"), ("c.com", "3")]));
    assert!(!records.remove("b.com"));
    assert_eq!(records.len(), 2);
}

#[test]
fn modify_needs_the_domain() {
    let mut records = Records::new();
    records.add("a.com", "1");
    assert!(records.modify("a.com", "2"));
    assert!(!records.modify("b.com", "3"));
    assert_eq!(records.snapshot().records(), &pairs(&[("a.com", "2")]));
}

#[test]
fn from_pairs_refuses_a_domain_twice() {
    assert!(Records::from_pairs(pairs(&[("a.com", "1"), ("b.com", "2")])).is_some());
    assert!(Records::from_pairs(pairs(&[("a.com", "1"), ("b.com", "2"), ("a.com", "3")])).is_none());
    assert!(Records::from_pairs(Vec::new()).is_some());
}

#[test]
fn a_snapshot_is_the_callers_own() {
    let mut records = Records::new();
    records.add("a.com", "1");
    let snapshot = records.snapshot();
    records.add("b.com", "2");
    assert_eq!(snapshot.records(), &pairs(&[("a.com", "1")]));
}

#[test]
fn domains_are_compared_by_their_characters() {
    let mut records = Records::new();
    records.add("a.com", "1");
    records.add("A.com", "2");
    records.add("a.com ", "3");
    assert_eq!(records.len(), 3);
}
