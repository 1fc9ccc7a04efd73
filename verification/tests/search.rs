use ytcore::data::SearchResponse;
use ytcore::message::{ErrorKind, WorkerMessage};
use ytcore::search::{build_search_url, encode_query, search_outcome, validate_credential, MAX_RESULT_BOUND};

#[test]
fn encode_query_leaves_plain_text() {
    assert_eq!(encode_query("lofi"), "lofi");
}

#[test]
fn encode_query_escapes_spaces() {
    assert_eq!(encode_query("a b c"), "a%20b%20c");
    assert_eq!(encode_query(" leading"), "%20leading");
    assert_eq!(encode_query("trailing "), "trailing%20");
}

#[test]
fn encode_query_empty() {
    assert_eq!(encode_query(""), "");
}

#[test]
fn search_url_exact() {
    let url = build_search_url("lofi song", "KEY", 8);
    assert_eq!(
        url,
        "https://www.googleapis.com/youtube/v3/search?part=snippet&q=lofi%20song&key=KEY&maxResults=8&type=video"
    );
}

#[test]
fn search_url_two_digit_bound() {
    let url = build_search_url("lofi", "KEY", MAX_RESULT_BOUND);
    assert_eq!(
        url,
        "https://www.googleapis.com/youtube/v3/search?part=snippet&q=lofi&key=KEY&maxResults=25&type=video"
    );
}

#[test]
fn search_outcome_success_is_data() {
    let set = SearchResponse::empty();
    match search_outcome(200, Some(set)) {
        WorkerMessage::Data(got) => assert_eq!(got.items.len(), 0),
        other => panic!("expected Data, got {:?}", other),
    }
}

#[test]
fn search_outcome_non_2xx_is_transport_error() {
    match search_outcome(404, Some(SearchResponse::empty())) {
        WorkerMessage::Error(None, d) => assert_eq!(d, "search request failed"),
        other => panic!("expected Error, got {:?}", other),
    }
    assert!(matches!(search_outcome(500, None), WorkerMessage::Error(None, _)));
}

#[test]
fn search_outcome_bad_payload_is_decode_error() {
    match search_outcome(200, None) {
        WorkerMessage::Error(None, d) => assert_eq!(d, "search response could not be decoded"),
        other => panic!("expected Error, got {:?}", other),
    }
}

#[test]
fn missing_credential_is_fatal_and_distinct() {
    assert_eq!(validate_credential(None), Err(ErrorKind::MissingCredential));
    assert_eq!(validate_credential(Some("some-key".to_string())), Ok("some-key".to_string()));
    assert_ne!(
        ErrorKind::MissingCredential.describe(),
        ErrorKind::Transport.describe()
    );
}

#[test]
fn error_kinds_have_distinct_descriptions() {
    assert_eq!(ErrorKind::MissingCredential.describe(), "provider API key is not configured");
    assert_eq!(ErrorKind::Transport.describe(), "search request failed");
    assert_eq!(ErrorKind::Decode.describe(), "search response could not be decoded");
    assert_eq!(ErrorKind::ProcessSpawn.describe(), "download process could not be started");
    assert_eq!(ErrorKind::ProcessExit.describe(), "download process exited with failure");
    assert_eq!(ErrorKind::StaleIndex.describe(), "outcome referred to a superseded result set");
}
