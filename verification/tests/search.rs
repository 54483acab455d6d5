use annorepo_client::client::AnnoRepoClient;
use annorepo_client::error::Error;

#[test]
fn create_search_roundtrip_reads_id_from_location() {
    let client = AnnoRepoClient::new("https://h", "C").unwrap();
    let location = "https://h/services/C/search/abc123".to_string();
    let info = client.search_info_from_location(Some(location)).unwrap();
    assert_eq!(info.search_id(), "abc123");
    assert_eq!(info.location(), "https://h/services/C/search/abc123");
}

#[test]
fn missing_location_header_is_an_error_not_a_panic() {
    let client = AnnoRepoClient::new("https://h", "C").unwrap();
    let r = client.search_info_from_location(None);
    assert!(matches!(r, Err(Error::UrlNotFound)));
}

#[test]
fn location_without_separator_is_an_error_not_a_panic() {
    let client = AnnoRepoClient::new("https://h", "C").unwrap();
    let r = client.search_info_from_location(Some("abc123".to_string()));
    assert!(matches!(r, Err(Error::UrlNotFound)));
}

#[test]
fn location_with_trailing_separator_gives_empty_id() {
    let client = AnnoRepoClient::new("https://h", "C").unwrap();
    let info = client.search_info_from_location(Some("https://h/x/".to_string())).unwrap();
    assert_eq!(info.search_id(), "");
    assert_eq!(info.location(), "https://h/x/");
}

#[test]
fn search_info_new_keeps_what_it_is_given() {
    let client = AnnoRepoClient::new("https://h", "C").unwrap();
    let info =
        annorepo_client::search::SearchInfo::new(&client, "s7".to_string(), "https://h/s7".to_string())
            .unwrap();
    assert_eq!(info.search_id(), "s7");
    assert_eq!(info.location(), "https://h/s7");
}
