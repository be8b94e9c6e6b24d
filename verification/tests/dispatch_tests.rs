use bolt_core::dispatch::{handle_restore_state, process_message, route, Command};
use bolt_core::http::HttpMethod;
use bolt_core::json::{read_table, read_text, read_uint};

const INVALID: &str = "that was invalid";

fn reply_of(command: Command) -> String {
    match command {
        Command::Reply(text) => text,
        _ => panic!("expected a reply"),
    }
}

fn is_invalid(text: &str) -> bool {
    matches!(process_message(text), Command::Reply(reply) if reply == INVALID)
}

#[test]
fn ping_is_answered_with_pong() {
    let reply = reply_of(process_message("{\"msg_type\":\"PING\",\"body\":\"ping\"}"));
    assert_eq!(reply, "{\"msg_type\":\"PING\",\"body\":\"pong\"}");
    let reply = reply_of(process_message("{\"msg_type\":\"PING\"}"));
    assert_eq!(reply, "{\"msg_type\":\"PING\",\"body\":\"pong\"}");
}

#[test]
fn log_and_panic_carry_their_text() {
    match process_message("{\"msg_type\":\"LOG\",\"log\":\"hello \\\"you\\\"\"}") {
        Command::Log(text) => assert_eq!(text, "hello \"you\""),
        _ => panic!("expected a log command"),
    }
    match process_message("{\"log\":\"boom\",\"msg_type\":\"PANIC\"}") {
        Command::Panic(text) => assert_eq!(text, "boom"),
        _ => panic!("expected a panic command"),
    }
}

#[test]
fn open_link_and_clipboard_carry_their_text() {
    match process_message("{\"msg_type\":\"OPEN_LINK\",\"link\":\"https://example.com\"}") {
        Command::OpenLink(link) => assert_eq!(link, "https://example.com"),
        _ => panic!("expected an open-link command"),
    }
    match process_message("{\"msg_type\":\"COPY_CLIPBOARD\",\"value\":\"copied\"}") {
        Command::CopyClipboard(value) => assert_eq!(value, "copied"),
        _ => panic!("expected a clipboard command"),
    }
}

#[test]
fn save_state_hands_the_document_on_unchanged() {
    let text = "{\"msg_type\":\"SAVE_STATE\",\"save\":\"{\\\"page\\\": \\\"HttpPage\\\"}\"}";
    match process_message(text) {
        Command::SaveState(save) => assert_eq!(save, "{\"page\": \"HttpPage\"}"),
        _ => panic!("expected a save command"),
    }
}

#[test]
fn restore_state_needs_no_payload() {
    assert!(matches!(process_message("{\"msg_type\":\"RESTORE_STATE\"}"), Command::RestoreState));
    assert!(matches!(
        process_message("{\"msg_type\":\"RESTORE_STATE\",\"save\":\"\"}"),
        Command::RestoreState
    ));
}

#[test]
fn restore_reply_carries_the_document() {
    assert_eq!(
        handle_restore_state("{\"page\":\"HttpPage\"}".to_string()),
        "{\"msg_type\":\"RESTORE_STATE\",\"save\":\"{\\\"page\\\":\\\"HttpPage\\\"}\"}"
    );
    assert_eq!(handle_restore_state(String::new()), "{\"msg_type\":\"RESTORE_STATE\",\"save\":\"\"}");
}

#[test]
fn saved_document_comes_back_equal() {
    let document = "{\"page\":\"Tcp\",\"name\":\"a \\\"quoted\\\" one\\n\",\"n\":[1,2]}";
    let save = serde_json::to_string(document).unwrap();
    let message = format!("{{\"msg_type\":\"SAVE_STATE\",\"save\":{save}}}");
    let saved = match process_message(&message) {
        Command::SaveState(saved) => saved,
        _ => panic!("expected a save command"),
    };
    assert_eq!(saved, document);
    let reply = handle_restore_state(saved);
    let parsed: serde_json::Value = serde_json::from_str(&reply).unwrap();
    assert_eq!(parsed.get("msg_type").and_then(|v| v.as_str()), Some("RESTORE_STATE"));
    assert_eq!(parsed.get("save").and_then(|v| v.as_str()), Some(document));
}

#[test]
fn send_http_becomes_a_request() {
    let text = "{\"msg_type\":\"SEND_HTTP\",\"url\":\"example.com/x\",\"method\":\"POST\",\
                \"body\":\"b\",\"headers\":[[\"a\",\"1\"],[\"\",\"\"]],\"index\":4}";
    match process_message(text) {
        Command::SendHttp(request) => {
            assert_eq!(request.url, "http://example.com/x");
            assert_eq!(request.method, HttpMethod::POST);
            assert_eq!(request.body, "b");
            assert_eq!(
                request.headers,
                vec![vec!["a".to_string(), "1".to_string()], vec![String::new(), String::new()]]
            );
            assert_eq!(request.request_index, 4);
        }
        _ => panic!("expected a send command"),
    }
}

#[test]
fn send_http_with_a_bad_payload_is_invalid() {
    let good = [
        ("url", "\"u\""),
        ("method", "\"GET\""),
        ("body", "\"\""),
        ("headers", "[]"),
        ("index", "0"),
    ];
    let build = |skip: Option<usize>, replace: Option<(usize, &str)>| {
        let mut text = String::from("{\"msg_type\":\"SEND_HTTP\"");
        for (i, (key, value)) in good.iter().enumerate() {
            if skip == Some(i) {
                continue;
            }
            let value = match replace {
                Some((j, v)) if i == j => v,
                _ => value,
            };
            text.push_str(&format!(",\"{key}\":{value}"));
        }
        text.push('}');
        text
    };
    assert!(matches!(process_message(&build(None, None)), Command::SendHttp(_)));
    for i in 0..good.len() {
        assert!(is_invalid(&build(Some(i), None)), "missing {}", good[i].0);
    }
    assert!(is_invalid(&build(None, Some((0, "1")))));
    assert!(is_invalid(&build(None, Some((1, "\"get\"")))));
    assert!(is_invalid(&build(None, Some((1, "\"TRACE\"")))));
    assert!(is_invalid(&build(None, Some((2, "null")))));
    assert!(is_invalid(&build(None, Some((3, "{}")))));
    assert!(is_invalid(&build(None, Some((3, "[\"a\"]")))));
    assert!(is_invalid(&build(None, Some((3, "[[\"a\",1]]")))));
    assert!(is_invalid(&build(None, Some((4, "-1")))));
    assert!(is_invalid(&build(None, Some((4, "1.5")))));
    assert!(is_invalid(&build(None, Some((4, "\"0\"")))));
}

#[test]
fn add_connection_is_only_acknowledged() {
    for tag in ["ADD_WS_CONNECTION", "ADD_TCP_CONNECTION", "ADD_UDP_CONNECTION"] {
        let text = format!("{{\"msg_type\":\"{tag}\",\"connection_id\":\"abc\"}}");
        match process_message(&text) {
            Command::Acknowledge(id) => assert_eq!(id, "abc"),
            _ => panic!("expected an acknowledgement"),
        }
        assert!(is_invalid(&format!("{{\"msg_type\":\"{tag}\"}}")));
        assert!(is_invalid(&format!("{{\"msg_type\":\"{tag}\",\"connection_id\":7}}")));
    }
}

#[test]
fn event_tags_are_ignored_inbound() {
    for family in ["WS", "TCP", "UDP"] {
        for kind in ["CONNECTED", "DISCONNECTED", "MSG_SENT", "RECEIVED_MSG", "CONNECTION_FAILED"] {
            let text = format!("{{\"msg_type\":\"{family}_{kind}\",\"connection_id\":\"x\"}}");
            assert!(matches!(process_message(&text), Command::Ignore), "{family}_{kind}");
        }
    }
    assert!(matches!(process_message("{\"msg_type\":\"HTTP_RESPONSE\"}"), Command::Ignore));
}

#[test]
fn unknown_tags_and_malformed_text_are_invalid() {
    assert!(is_invalid(""));
    assert!(is_invalid("not json"));
    assert!(is_invalid("{"));
    assert!(is_invalid("{\"msg_type\":\"PING\"} trailing"));
    assert!(is_invalid("[]"));
    assert!(is_invalid("\"PING\""));
    assert!(is_invalid("null"));
    assert!(is_invalid("{}"));
    assert!(is_invalid("{\"msg_type\":\"NOPE\"}"));
    assert!(is_invalid("{\"msg_type\":\"ping\"}"));
    assert!(is_invalid("{\"msg_type\":3}"));
    assert!(is_invalid("{\"msg_type\":null}"));
    assert!(is_invalid("{\"MSG_TYPE\":\"PING\"}"));
}

#[test]
fn payload_of_the_wrong_kind_is_invalid() {
    assert!(is_invalid("{\"msg_type\":\"LOG\"}"));
    assert!(is_invalid("{\"msg_type\":\"LOG\",\"log\":1}"));
    assert!(is_invalid("{\"msg_type\":\"PANIC\",\"text\":\"x\"}"));
    assert!(is_invalid("{\"msg_type\":\"OPEN_LINK\",\"link\":[\"x\"]}"));
    assert!(is_invalid("{\"msg_type\":\"COPY_CLIPBOARD\"}"));
    assert!(is_invalid("{\"msg_type\":\"SAVE_STATE\"}"));
    assert!(is_invalid("{\"msg_type\":\"SAVE_STATE\",\"save\":{}}"));
}

#[test]
fn route_reads_a_parsed_document() {
    let document: serde_json::Value =
        serde_json::from_str("{\"msg_type\":\"LOG\",\"log\":\"x\"}").unwrap();
    assert!(matches!(route(&document), Command::Log(text) if text == "x"));
    let document: serde_json::Value = serde_json::from_str("[1,2]").unwrap();
    assert!(matches!(route(&document), Command::Reply(text) if text == INVALID));
}

#[test]
fn readers_take_members_of_the_right_kind() {
    let document: serde_json::Value = serde_json::from_str(
        "{\"t\":\"text\",\"n\":42,\"neg\":-1,\"f\":1.5,\"big\":18446744073709551615,\
         \"rows\":[[\"a\",\"b\"],[],[\"c\"]],\"bad\":[[\"a\"],[1]],\"o\":{}}",
    )
    .unwrap();
    assert_eq!(read_text(&document, "t"), Some("text".to_string()));
    assert_eq!(read_text(&document, "n"), None);
    assert_eq!(read_text(&document, "missing"), None);
    assert_eq!(read_uint(&document, "n"), Some(42));
    assert_eq!(read_uint(&document, "big"), Some(u64::MAX));
    assert_eq!(read_uint(&document, "neg"), None);
    assert_eq!(read_uint(&document, "f"), None);
    assert_eq!(read_uint(&document, "t"), None);
    assert_eq!(read_uint(&document, "missing"), None);
    assert_eq!(
        read_table(&document, "rows"),
        Some(vec![vec!["a".to_string(), "b".to_string()], vec![], vec!["c".to_string()]])
    );
    assert_eq!(read_table(&document, "bad"), None);
    assert_eq!(read_table(&document, "o"), None);
    assert_eq!(read_table(&document, "t"), None);
    assert_eq!(read_table(&document, "missing"), None);
    let list: serde_json::Value = serde_json::from_str("[\"t\"]").unwrap();
    assert_eq!(read_text(&list, "t"), None);
    assert_eq!(read_text(&list, "0"), None);
}
