use signal_viewer::{signal_resource_name, Catalog, ParseError};

#[test]
fn listing_with_an_empty_alias() {
    let c = Catalog::parse(r#"{"alias1": ["sigA","sigB"], "alias2": []}"#).unwrap();
    assert_eq!(c.len(), 2);
    assert_eq!(
        c.signals_of("alias1"),
        Some(&vec!["sigA".to_string(), "sigB".to_string()])
    );
    assert_eq!(c.signals_of("alias2"), Some(&Vec::new()));
    assert_eq!(c.signals_of("alias3"), None);
    assert_eq!(c.alias(0), "alias1");
    assert_eq!(c.alias(1), "alias2");
    assert!(c.signals(1).is_empty());
}

#[test]
fn empty_listing() {
    let c = Catalog::parse("{}").unwrap();
    assert_eq!(c.len(), 0);
}

#[test]
fn malformed_listings_fail() {
    assert!(matches!(Catalog::parse("[1, 2]"), Err(ParseError::Syntax(_))));
    assert!(matches!(Catalog::parse(r#"{"a": [1]}"#), Err(ParseError::Syntax(_))));
    assert!(matches!(Catalog::parse(r#"{"a": "sig"}"#), Err(ParseError::Syntax(_))));
    assert!(matches!(Catalog::parse(""), Err(ParseError::Syntax(_))));
}

#[test]
fn repeated_alias_is_refused() {
    let entries = vec![
        ("a".to_string(), vec!["x".to_string()]),
        ("b".to_string(), vec![]),
        ("a".to_string(), vec![]),
    ];
    assert_eq!(
        Catalog::from_entries(entries).err(),
        Some(ParseError::DuplicateAlias("a".to_string()))
    );
}

#[test]
fn entries_keep_their_order() {
    let entries = vec![("z".to_string(), vec![]), ("a".to_string(), vec!["s".to_string()])];
    let c = Catalog::from_entries(entries).unwrap();
    assert_eq!(c.alias(0), "z");
    assert_eq!(c.signals(1), &vec!["s".to_string()]);
}

#[test]
fn resource_name_joins_alias_and_signal() {
    assert_eq!(signal_resource_name("alias1", "sigA"), "alias1_sigA");
    assert_eq!(signal_resource_name("", ""), "_");
}
