use stream_client::endpoint::WebSocket;
use stream_client::supervisor::{READ_TIMEOUT_MILLIS, RECONNECT_INTERVAL_MILLIS};

#[test]
fn url_with_token_and_no_extras() {
    let ws = WebSocket::new(
        "wss://x/api".to_string(),
        "user".to_string(),
        None,
        Some("tok".to_string()),
    );
    assert_eq!(ws.listen_url(), "wss://x/api?stream=user&access_token=tok");
}

#[test]
fn extra_params_follow_the_token_in_order() {
    let ws = WebSocket::new(
        "wss://x/api".to_string(),
        "user".to_string(),
        Some(vec!["foo=bar".to_string()]),
        Some("tok".to_string()),
    );
    assert_eq!(
        ws.listen_url(),
        "wss://x/api?stream=user&access_token=tok&foo=bar"
    );
}

#[test]
fn several_extra_params_keep_their_order() {
    let ws = WebSocket::new(
        "wss://host/path".to_string(),
        "public".to_string(),
        Some(vec!["a=1".to_string(), "b=2".to_string(), "c=3".to_string()]),
        None,
    );
    assert_eq!(ws.listen_url(), "wss://host/path?stream=public&a=1&b=2&c=3");
}

#[test]
fn url_without_token_or_extras_has_only_the_stream() {
    let ws = WebSocket::new("ws://a".to_string(), "direct".to_string(), None, None);
    assert_eq!(ws.listen_url(), "ws://a?stream=direct");
}

#[test]
fn new_keeps_every_field() {
    let ws = WebSocket::new(
        "ws://a".to_string(),
        "s".to_string(),
        Some(vec!["k=v".to_string()]),
        Some("t".to_string()),
    );
    assert_eq!(ws.url, "ws://a");
    assert_eq!(ws.stream, "s");
    assert_eq!(ws.params, Some(vec!["k=v".to_string()]));
    assert_eq!(ws.access_token, Some("t".to_string()));
}

#[test]
fn timing_constants_match_the_protocol() {
    assert_eq!(RECONNECT_INTERVAL_MILLIS, 5000);
    assert_eq!(READ_TIMEOUT_MILLIS, 60000);
}
