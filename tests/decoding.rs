use search_clients::google::SearchResponse;
use search_clients::json::{decode_body, DecodeError};
use search_clients::youtube::YoutubeSearchResponse;

const MINIMAL_VIDEO_PAGE: &str = r#"{
  "kind": "youtube#searchListResponse",
  "etag": "e0",
  "pageInfo": {},
  "items": [
    {
      "kind": "youtube#searchResult",
      "etag": "e1",
      "id": { "kind": "youtube#video", "videoId": "abc123" },
      "snippet": {
        "publishedAt": "2024-01-01T00:00:00Z",
        "title": "A title",
        "description": "A description",
        "channelTitle": "A channel",
        "publishTime": "2024-01-01T00:00:00Z"
      }
    }
  ]
}"#;

const CHANNEL_PAGE: &str = r#"{
  "kind": "youtube#searchListResponse",
  "etag": "e0",
  "pageInfo": { "totalResults": 1000000, "resultsPerPage": 5 },
  "items": [
    {
      "kind": "youtube#searchResult",
      "etag": "e2",
      "id": { "kind": "youtube#channel", "channelId": "UC42" },
      "snippet": {
        "publishedAt": "p",
        "title": "t",
        "description": "d",
        "channelTitle": "c",
        "publishTime": "p"
      }
    }
  ]
}"#;

const MINIMAL_WEB_PAGE: &str = r#"{
  "kind": "customsearch#search",
  "url": { "type": "application/json", "template": "https://example.invalid/{searchTerms}" },
  "queries": {
    "request": [
      { "title": "T", "totalResults": "42", "searchTerms": "rust", "count": 1, "startIndex": 1,
        "inputEncoding": "utf8", "outputEncoding": "utf8", "safe": "off", "cx": "engine" }
    ],
    "nextPage": []
  },
  "context": { "title": "Engine" },
  "items": [
    { "kind": "customsearch#result", "title": "Rust", "link": "https://www.rust-lang.org/", "snippet": "A language" }
  ]
}"#;

#[test]
fn minimal_video_page_has_one_item_and_no_optional_fields() {
    let r: YoutubeSearchResponse = decode_body(MINIMAL_VIDEO_PAGE).unwrap();
    assert_eq!(r.kind, "youtube#searchListResponse");
    assert_eq!(r.etag, "e0");
    assert_eq!(r.page_info.total_results, None);
    assert_eq!(r.page_info.results_per_page, None);
    assert_eq!(r.items.len(), 1);
    let item = &r.items[0];
    assert_eq!(item.id.kind, "youtube#video");
    assert_eq!(item.id.video_id, Some("abc123".to_string()));
    assert_eq!(item.id.channel_id, None);
    assert_eq!(item.snippet.title, "A title");
    assert_eq!(item.snippet.channel_title, "A channel");
}

#[test]
fn channel_result_keeps_channel_and_no_video() {
    let r: YoutubeSearchResponse = decode_body(CHANNEL_PAGE).unwrap();
    assert_eq!(r.items.len(), 1);
    assert_eq!(r.items[0].id.channel_id, Some("UC42".to_string()));
    assert_eq!(r.items[0].id.video_id, None);
    assert_eq!(r.page_info.total_results, Some(1000000));
    assert_eq!(r.page_info.results_per_page, Some(5));
}

#[test]
fn null_optional_member_reads_as_absent() {
    let body = CHANNEL_PAGE.replace("\"channelId\": \"UC42\"", "\"channelId\": null");
    let r: YoutubeSearchResponse = decode_body(&body).unwrap();
    assert_eq!(r.items[0].id.channel_id, None);
}

#[test]
fn empty_result_list_decodes() {
    let body = r#"{"kind": "k", "etag": "e", "pageInfo": {}, "items": []}"#;
    let r: YoutubeSearchResponse = decode_body(body).unwrap();
    assert_eq!(r.items.len(), 0);
}

#[test]
fn text_that_is_not_json_is_invalid() {
    let r: Result<YoutubeSearchResponse, DecodeError> = decode_body("{\"kind\": ");
    match r {
        Err(DecodeError::InvalidJson(message)) => assert!(!message.is_empty()),
        other => panic!("expected a parse error, got {:?}", other),
    }
}

#[test]
fn missing_required_member_is_a_schema_error() {
    let body = MINIMAL_VIDEO_PAGE.replace("\"etag\": \"e0\",", "");
    let r: Result<YoutubeSearchResponse, DecodeError> = decode_body(&body);
    assert_eq!(r.err(), Some(DecodeError::Missing("etag")));
    let body = MINIMAL_VIDEO_PAGE.replace("\"title\": \"A title\",", "");
    let r: Result<YoutubeSearchResponse, DecodeError> = decode_body(&body);
    assert_eq!(r.err(), Some(DecodeError::Missing("title")));
}

#[test]
fn wrongly_typed_member_is_a_schema_error() {
    let body = CHANNEL_PAGE.replace("\"resultsPerPage\": 5", "\"resultsPerPage\": 5.5");
    let r: Result<YoutubeSearchResponse, DecodeError> = decode_body(&body);
    assert_eq!(r.err(), Some(DecodeError::WrongType("resultsPerPage")));
    let body = CHANNEL_PAGE.replace("\"title\": \"t\"", "\"title\": 7");
    let r: Result<YoutubeSearchResponse, DecodeError> = decode_body(&body);
    assert_eq!(r.err(), Some(DecodeError::WrongType("title")));
    let body = CHANNEL_PAGE.replace("\"pageInfo\": {", "\"pageInfo\": 3, \"unused\": {");
    let r: Result<YoutubeSearchResponse, DecodeError> = decode_body(&body);
    assert_eq!(r.err(), Some(DecodeError::WrongType("pageInfo")));
}

#[test]
fn document_of_wrong_type_is_reported() {
    let r: Result<YoutubeSearchResponse, DecodeError> = decode_body("[1, 2]");
    assert_eq!(r.err(), Some(DecodeError::Document));
    let r: Result<Vec<YoutubeSearchResponse>, DecodeError> = decode_body("{}");
    assert_eq!(r.err(), Some(DecodeError::Document));
}

#[test]
fn minimal_web_page_decodes_without_optional_fields() {
    let r: SearchResponse = decode_body(MINIMAL_WEB_PAGE).unwrap();
    assert_eq!(r.kind, "customsearch#search");
    assert_eq!(r.url.type_, "application/json");
    assert_eq!(r.queries.request.len(), 1);
    assert_eq!(r.queries.request[0].total_results, "42");
    assert_eq!(r.queries.request[0].count, 1);
    assert_eq!(r.queries.request[0].start_index, 1);
    assert_eq!(r.queries.next_page.len(), 0);
    assert_eq!(r.context.title, "Engine");
    assert!(r.search_information.is_none());
    assert_eq!(r.items.len(), 1);
    assert_eq!(r.items[0].link, "https://www.rust-lang.org/");
    assert_eq!(r.items[0].cache_id, None);
}

#[test]
fn web_page_search_information_keeps_time_text() {
    let body = MINIMAL_WEB_PAGE.replace(
        "\"context\"",
        "\"searchInformation\": {\"searchTime\": 0.25, \"formattedSearchTime\": \"0.25\", \"totalResults\": \"42\", \"formattedTotalResults\": \"42\"}, \"context\"",
    );
    let r: SearchResponse = decode_body(&body).unwrap();
    let info = r.search_information.unwrap();
    assert_eq!(info.search_time, "0.25");
    assert_eq!(info.formatted_total_results, "42");
}

#[test]
fn history_decodes_as_list_of_pages() {
    let body = format!("[{}, {}]", MINIMAL_VIDEO_PAGE, CHANNEL_PAGE);
    let r: Vec<YoutubeSearchResponse> = decode_body(&body).unwrap();
    assert_eq!(r.len(), 2);
    assert_eq!(r[1].items[0].id.channel_id, Some("UC42".to_string()));
    let r: Result<YoutubeSearchResponse, DecodeError> =
        decode_body(r#"{"kind": "k", "etag": "e", "pageInfo": {}, "items": [3]}"#);
    assert_eq!(r.err(), Some(DecodeError::WrongType("items")));
}
