use annorepo_client::client::AnnoRepoClient;
use annorepo_client::error::Error;
use annorepo_client::iter::AnnoIter;
use annorepo_client::page::page_items;
use serde_json::Value;

fn anno(name: &str) -> Value {
    let mut m = serde_json::Map::new();
    m.insert("id".to_string(), Value::String(name.to_string()));
    Value::Object(m)
}

fn page_with_items(items: Vec<Value>) -> Value {
    let mut m = serde_json::Map::new();
    m.insert("total".to_string(), Value::Number(serde_json::Number::from(3u32)));
    m.insert("items".to_string(), Value::Array(items));
    Value::Object(m)
}

fn test_client() -> AnnoRepoClient {
    AnnoRepoClient::new("https://h", "C").unwrap()
}

/// Drives a cursor over a fixed list of pages served by index, returning the
/// emitted annotations and how many pages were fetched (the first page's
/// fetch included).
fn drive(pages: &[Value], start_page: u32) -> (Vec<Value>, u32) {
    let client = test_client();
    let mut fetches: u32 = 1;
    let mut it =
        AnnoIter::new(&client, "C", "s1", start_page, pages[start_page as usize].clone()).unwrap();
    let mut out: Vec<Value> = Vec::new();
    loop {
        if let Some(a) = it.next_buffered() {
            out.push(a);
            continue;
        }
        if !it.needs_fetch() {
            return (out, fetches);
        }
        let next = (it.current_page() + 1) as usize;
        fetches += 1;
        it.ingest_page(pages[next].clone()).unwrap();
    }
}

#[test]
fn two_page_result_set_yields_all_items_with_three_fetches() {
    let pages = [
        page_with_items(vec![anno("A"), anno("B")]),
        page_with_items(vec![anno("C")]),
        page_with_items(vec![]),
    ];
    let (out, fetches) = drive(&pages, 0);
    assert_eq!(out, vec![anno("A"), anno("B"), anno("C")]);
    assert_eq!(fetches, 3);
}

#[test]
fn no_fetch_happens_after_an_empty_page() {
    let client = test_client();
    let mut it = AnnoIter::new(&client, "C", "s1", 0, page_with_items(vec![anno("A")])).unwrap();
    assert_eq!(it.next_buffered(), Some(anno("A")));
    assert!(it.needs_fetch());
    it.ingest_page(page_with_items(vec![])).unwrap();
    assert!(it.finished());
    assert!(!it.needs_fetch());
    assert_eq!(it.next_buffered(), None);
    assert!(!it.needs_fetch());
    assert_eq!(it.current_page(), 1);
}

#[test]
fn empty_first_page_finishes_immediately() {
    let client = test_client();
    let mut it = AnnoIter::new(&client, "C", "s1", 0, page_with_items(vec![])).unwrap();
    assert!(it.finished());
    assert!(!it.needs_fetch());
    assert_eq!(it.next_buffered(), None);
    assert_eq!(it.current_page(), 0);
}

#[test]
fn malformed_first_page_fails_construction_with_payload() {
    let client = test_client();
    let mut m = serde_json::Map::new();
    m.insert("total".to_string(), Value::Number(serde_json::Number::from(0u32)));
    let payload = Value::Object(m);
    let r = AnnoIter::new(&client, "C", "s1", 0, payload.clone());
    match r {
        Err(Error::MalformedAnnotationPage(json)) => assert_eq!(json, payload),
        _ => panic!("expected the malformed-page error"),
    }
}

#[test]
fn non_array_items_field_is_malformed() {
    let client = test_client();
    let mut m = serde_json::Map::new();
    m.insert("items".to_string(), Value::String("oops".to_string()));
    let payload = Value::Object(m);
    let r = AnnoIter::new(&client, "C", "s1", 0, payload.clone());
    match r {
        Err(Error::MalformedAnnotationPage(json)) => assert_eq!(json, payload),
        _ => panic!("expected the malformed-page error"),
    }
}

#[test]
fn malformed_page_mid_iteration_is_an_error_and_changes_nothing() {
    let client = test_client();
    let mut it = AnnoIter::new(&client, "C", "s1", 0, page_with_items(vec![anno("A")])).unwrap();
    assert_eq!(it.next_buffered(), Some(anno("A")));
    assert!(it.needs_fetch());
    let bad = Value::Bool(false);
    match it.ingest_page(bad.clone()) {
        Err(Error::MalformedAnnotationPage(json)) => assert_eq!(json, bad),
        _ => panic!("expected the malformed-page error"),
    }
    assert_eq!(it.current_page(), 0);
    assert!(!it.finished());
    assert!(it.needs_fetch());
}

#[test]
fn independent_iterators_yield_identical_sequences() {
    let pages = [
        page_with_items(vec![anno("A"), anno("B")]),
        page_with_items(vec![anno("C"), anno("D")]),
        page_with_items(vec![]),
    ];
    let (first, first_fetches) = drive(&pages, 0);
    let (second, second_fetches) = drive(&pages, 0);
    assert_eq!(first, second);
    assert_eq!(first_fetches, second_fetches);
}

#[test]
fn emission_order_matches_server_order_across_pages() {
    let pages = [
        page_with_items(vec![anno("1"), anno("2"), anno("2")]),
        page_with_items(vec![anno("3")]),
        page_with_items(vec![anno("2"), anno("5")]),
        page_with_items(vec![]),
    ];
    let (out, fetches) = drive(&pages, 0);
    // Order is the server's, duplicates included: nothing is reordered,
    // deduplicated or dropped.
    assert_eq!(
        out,
        vec![anno("1"), anno("2"), anno("2"), anno("3"), anno("2"), anno("5")]
    );
    assert_eq!(fetches, 4);
}

#[test]
fn iteration_can_start_on_a_later_page() {
    let pages = [
        page_with_items(vec![anno("A")]),
        page_with_items(vec![anno("B"), anno("C")]),
        page_with_items(vec![]),
    ];
    let (out, fetches) = drive(&pages, 1);
    assert_eq!(out, vec![anno("B"), anno("C")]);
    assert_eq!(fetches, 2);
}

#[test]
fn next_page_url_carries_the_incremented_page_number() {
    let client = test_client();
    let it = AnnoIter::from_items(&client, "C", "s1", 0, Vec::new());
    assert!(!it.needs_fetch());
    let mut it = AnnoIter::from_items(&client, "C", "s1", 3, vec![anno("A")]);
    assert_eq!(it.next_buffered(), Some(anno("A")));
    assert!(it.needs_fetch());
    assert_eq!(it.next_page_url(), "https://h/services/C/search/s1?page=4");
}

#[test]
fn page_items_extracts_the_items_in_order() {
    let items = vec![anno("A"), anno("B")];
    let extracted = page_items(page_with_items(items.clone())).unwrap();
    assert_eq!(extracted, items);
}

#[test]
fn buffered_len_counts_down_as_items_leave() {
    let client = test_client();
    let mut it = AnnoIter::from_items(&client, "C", "s1", 0, vec![anno("A"), anno("B")]);
    assert_eq!(it.buffered_len(), 2);
    it.next_buffered();
    assert_eq!(it.buffered_len(), 1);
    it.next_buffered();
    assert_eq!(it.buffered_len(), 0);
}
