use windows_erg::evt::{EventLevel, QueryBuilder};
use windows_erg::evt::query::{escape_xpath_string, limit_results};

#[test]
fn test_query_builder_empty() {
    let builder = QueryBuilder::new();
    assert_eq!(builder.build_xpath(), "Event");
}

#[test]
fn test_query_builder_with_level() {
    let builder = QueryBuilder::new().level(EventLevel::Error);
    let xpath = builder.build_xpath();
    assert!(xpath.contains("Level <= 3"));
    assert!(xpath.contains("Event/System"));
}

#[test]
fn test_query_builder_with_provider() {
    let builder = QueryBuilder::new().provider("Security");
    let xpath = builder.build_xpath();
    assert!(xpath.contains("System/Provider/@Name='Security'"));
}

#[test]
fn test_query_builder_with_event_id() {
    let builder = QueryBuilder::new().event_id(4688);
    let xpath = builder.build_xpath();
    assert!(xpath.contains("EventID=4688"));
}

#[test]
fn test_query_builder_combined() {
    let builder = QueryBuilder::new()
        .level(EventLevel::Warning)
        .provider("Application")
        .event_id(1000);
    let xpath = builder.build_xpath();
    assert!(xpath.contains("Level <= 4"));
    assert!(xpath.contains("System/Provider/@Name='Application'"));
    assert!(xpath.contains("EventID=1000"));
    assert!(xpath.contains(" and "));
    assert_eq!(
        xpath,
        "Event/System[Level <= 4 and System/Provider/@Name='Application' and EventID=1000]"
    );
}

#[test]
fn test_query_builder_with_raw_xpath() {
    let builder = QueryBuilder::new()
        .xpath("Event/System[EventID=4728]")
        .level(EventLevel::Error);
    let xpath = builder.build_xpath();
    assert_eq!(xpath, "Event/System[EventID=4728]");
}

#[test]
fn test_query_builder_reverse() {
    let builder = QueryBuilder::new().reverse();
    assert!(builder.is_reverse());
    let builder2 = QueryBuilder::new();
    assert!(!builder2.is_reverse());
}

#[test]
fn test_query_builder_max_results() {
    let builder = QueryBuilder::new().max_results(100);
    assert_eq!(builder.max_results_limit(), Some(100));
    let builder2 = QueryBuilder::new();
    assert_eq!(builder2.max_results_limit(), None);
}

#[test]
fn provider_names_become_xpath_literals() {
    assert_eq!(escape_xpath_string("Security"), "'Security'");
    assert_eq!(escape_xpath_string("a\"b"), "'a\"b'");
    assert_eq!(escape_xpath_string("it's"), "\"it's\"");
    assert_eq!(escape_xpath_string("a'b\"c"), "concat('a', \"'\", 'b\"c')");
    assert_eq!(escape_xpath_string("'"), "\"'\"");
    assert_eq!(escape_xpath_string("'\""), "concat('', \"'\", '\"')");
}

#[test]
fn provider_with_single_quote_builds_balanced_query() {
    let xpath = QueryBuilder::new().provider("O'Brien").build_xpath();
    assert_eq!(xpath, "Event/System[System/Provider/@Name=\"O'Brien\"]");
}

#[test]
fn level_codes_round_trip() {
    for code in 0..=6u8 {
        assert_eq!(EventLevel::from_code(code).map(|l| l.code()), Some(code));
    }
    assert!(EventLevel::from_code(7).is_none());
}

#[test]
fn results_are_capped_at_the_limit() {
    assert_eq!(limit_results(250, Some(100)), 100);
    assert_eq!(limit_results(40, Some(100)), 40);
    assert_eq!(limit_results(250, None), 250);
    let builder = QueryBuilder::new().max_results(10);
    assert_eq!(limit_results(25, builder.max_results_limit()), 10);
}
