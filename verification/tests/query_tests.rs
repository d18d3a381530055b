use meal_tracker::query::{filter_of, run_query, Filter, SortKey};
use meal_tracker::store::Store;

fn chars(s: &str) -> Vec<char> {
    s.chars().collect()
}

fn text(v: &[char]) -> String {
    v.iter().collect()
}

/// The two records of the sorting/filtering scenario: rice for 499 on
/// 2024-09-01 never expended, beans for 250 on 2024-09-02 expended the
/// day after.
fn two_records() -> Store {
    let mut store = Store::new();
    store
        .insert(chars("rice"), 499, chars("2024-09-01"), None)
        .expect("the fresh store has identifiers left");
    store
        .insert(chars("beans"), 250, chars("2024-09-02"), Some(chars("2024-09-03")))
        .expect("the fresh store has identifiers left");
    store
}

fn ingredients(rows: &[meal_tracker::record::DbResults]) -> Vec<String> {
    rows.iter().map(|r| text(&r.ingredient)).collect()
}

#[test]
fn price_descending_orders_rice_first() {
    let store = two_records();
    let rows = run_query(&Filter::MatchAll, SortKey::PriceDesc, &store.records);
    assert_eq!(ingredients(&rows), vec!["rice".to_string(), "beans".to_string()]);
}

#[test]
fn price_ascending_orders_beans_first() {
    let store = two_records();
    let rows = run_query(&Filter::MatchAll, SortKey::PriceAsc, &store.records);
    assert_eq!(ingredients(&rows), vec!["beans".to_string(), "rice".to_string()]);
}

#[test]
fn purchase_date_orders_both_ways() {
    let store = two_records();
    let rows = run_query(&Filter::MatchAll, SortKey::PurchaseDesc, &store.records);
    assert_eq!(ingredients(&rows), vec!["beans".to_string(), "rice".to_string()]);
    let rows = run_query(&Filter::MatchAll, SortKey::PurchaseAsc, &store.records);
    assert_eq!(ingredients(&rows), vec!["rice".to_string(), "beans".to_string()]);
}

#[test]
fn smart_order_puts_unexpended_last() {
    let store = two_records();
    let rows = run_query(&Filter::MatchAll, SortKey::Smart, &store.records);
    assert_eq!(ingredients(&rows), vec!["beans".to_string(), "rice".to_string()]);
}

#[test]
fn contains_filter_returns_exactly_beans() {
    let store = two_records();
    let filter = filter_of(&chars("bea"));
    let rows = run_query(&filter, SortKey::PriceDesc, &store.records);
    assert_eq!(ingredients(&rows), vec!["beans".to_string()]);
}

#[test]
fn filter_match_is_case_sensitive() {
    // Case sensitivity is a documented design choice: "BEA" matches
    // nothing, "bea" matches beans.
    let store = two_records();
    let rows = run_query(&filter_of(&chars("BEA")), SortKey::PriceDesc, &store.records);
    assert_eq!(rows.len(), 0);
}

#[test]
fn empty_search_restores_the_full_result_set() {
    let store = two_records();
    let narrowed = run_query(&filter_of(&chars("bea")), SortKey::PriceDesc, &store.records);
    assert_eq!(narrowed.len(), 1);
    // Setting the search text back to "" yields the universal filter.
    let reset = filter_of(&chars(""));
    assert!(matches!(reset, Filter::MatchAll));
    let rows = run_query(&reset, SortKey::PriceDesc, &store.records);
    assert_eq!(rows.len(), 2);
    assert_eq!(ingredients(&rows), vec!["rice".to_string(), "beans".to_string()]);
}

#[test]
fn filter_matches_middle_of_ingredient() {
    let store = two_records();
    let rows = run_query(&filter_of(&chars("ic")), SortKey::PriceDesc, &store.records);
    assert_eq!(ingredients(&rows), vec!["rice".to_string()]);
}

#[test]
fn store_assigns_fresh_ids_in_order() {
    let store = two_records();
    assert_eq!(store.records[0].id, 1);
    assert_eq!(store.records[1].id, 2);
    assert_eq!(store.next_id, 3);
}

#[test]
fn update_expended_touches_only_the_named_record() {
    let mut store = two_records();
    let found = store.update_expended(1, Some(chars("2024-09-05")));
    assert!(found);
    assert_eq!(store.records[0].expended_date, Some(chars("2024-09-05")));
    assert_eq!(store.records[1].expended_date, Some(chars("2024-09-03")));
    let missing = store.update_expended(99, None);
    assert!(!missing);
    assert_eq!(store.records[0].expended_date, Some(chars("2024-09-05")));
}

#[test]
fn from_rows_refuses_duplicate_ids() {
    let store = two_records();
    let mut rows = Vec::new();
    for r in &store.records {
        rows.push(r.duplicate());
    }
    assert!(Store::from_rows(rows).is_some());
    let mut twice = Vec::new();
    for r in &store.records {
        twice.push(r.duplicate());
        twice.push(r.duplicate());
    }
    assert!(Store::from_rows(twice).is_none());
}
