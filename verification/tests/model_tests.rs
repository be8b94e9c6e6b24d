use bolt_core::collection::Collection;
use bolt_core::http::{HttpMethod, HttpRequest, HttpResponse, HttpResponseType, SendHttpResponse, SendHttpResponseType};
use bolt_core::ids::{get_timestamp, leading_segment, short_id};
use bolt_core::message::MsgType;
use bolt_core::state::{MainState, Page};
use bolt_core::tabs::{HttpReqTabs, HttpRespTabs, WsInTabs, WsOutTabs};
use bolt_core::tcp::{TcpConnection, TcpMessage, TcpMsgType};
use bolt_core::text::{contains, push_decimal, same_text};
use bolt_core::udp::{UdpConnection, UdpMessage, UdpMsgType};
use bolt_core::ws::{WsConnection, WsMessage, WsMsgType};

fn is_short_id(id: &str) -> bool {
    id.len() == 8 && id.chars().all(|c| c.is_ascii_digit() || ('a'..='f').contains(&c))
}

fn blank_table() -> Vec<Vec<String>> {
    vec![vec![String::new(), String::new()]]
}

#[test]
fn short_ids_are_eight_hex_digits() {
    for _ in 0..50 {
        let id = short_id();
        assert!(is_short_id(&id), "unexpected id {id}");
    }
}

#[test]
fn short_ids_differ() {
    let a = short_id();
    let b = short_id();
    let c = short_id();
    assert!(a != b || b != c);
}

#[test]
fn leading_segment_stops_at_the_first_hyphen() {
    assert_eq!(leading_segment("67e55044-10b1-426f-9247-bb680e5fe0c8"), "67e55044");
    assert_eq!(leading_segment("abc"), "abc");
    assert_eq!(leading_segment("-abc"), "");
    assert_eq!(leading_segment(""), "");
    assert_eq!(leading_segment("a-"), "a");
    assert_eq!(leading_segment("é-x"), "é");
}

#[test]
fn timestamp_is_after_2020() {
    assert!(get_timestamp() > 1_577_836_800_000);
}

#[test]
fn contains_finds_substrings() {
    assert!(contains("http://x", "http"));
    assert!(contains("xhttp", "http"));
    assert!(contains("http", "http"));
    assert!(!contains("htt", "http"));
    assert!(!contains("htxtp", "http"));
    assert!(contains("anything", ""));
    assert!(contains("", ""));
    assert!(!contains("", "a"));
    assert!(contains("ééhttp", "http"));
}

#[test]
fn same_text_is_exact() {
    assert!(same_text("kill", "kill"));
    assert!(!same_text("kill", "Kill"));
    assert!(!same_text("kill", "kil"));
    assert!(same_text("", ""));
}

#[test]
fn push_decimal_writes_numerals() {
    let mut out = String::from("n=");
    push_decimal(&mut out, 0);
    assert_eq!(out, "n=0");
    push_decimal(&mut out, 7);
    assert_eq!(out, "n=07");
    let mut out = String::new();
    push_decimal(&mut out, 1234567890);
    assert_eq!(out, "1234567890");
    let mut out = String::new();
    push_decimal(&mut out, u64::MAX);
    assert_eq!(out, "18446744073709551615");
    let mut out = String::new();
    push_decimal(&mut out, 10);
    assert_eq!(out, "10");
}

#[test]
fn tag_names_round_trip() {
    let tags = [
        MsgType::PING,
        MsgType::LOG,
        MsgType::PANIC,
        MsgType::OPEN_LINK,
        MsgType::COPY_CLIPBOARD,
        MsgType::SAVE_STATE,
        MsgType::SEND_HTTP,
        MsgType::HTTP_RESPONSE,
        MsgType::RESTORE_STATE,
        MsgType::ADD_WS_CONNECTION,
        MsgType::WS_CONNECTED,
        MsgType::WS_DISCONNECTED,
        MsgType::WS_MSG_SENT,
        MsgType::WS_RECEIVED_MSG,
        MsgType::WS_CONNECTION_FAILED,
        MsgType::ADD_TCP_CONNECTION,
        MsgType::TCP_CONNECTED,
        MsgType::TCP_DISCONNECTED,
        MsgType::TCP_MSG_SENT,
        MsgType::TCP_RECEIVED_MSG,
        MsgType::TCP_CONNECTION_FAILED,
        MsgType::ADD_UDP_CONNECTION,
        MsgType::UDP_CONNECTED,
        MsgType::UDP_DISCONNECTED,
        MsgType::UDP_MSG_SENT,
        MsgType::UDP_RECEIVED_MSG,
        MsgType::UDP_CONNECTION_FAILED,
    ];
    for tag in tags {
        assert_eq!(MsgType::from_name(tag.name()), Some(tag));
    }
    assert_eq!(MsgType::PING.name(), "PING");
    assert_eq!(MsgType::UDP_CONNECTION_FAILED.name(), "UDP_CONNECTION_FAILED");
    assert_eq!(MsgType::from_name("ping"), None);
    assert_eq!(MsgType::from_name(""), None);
    assert_eq!(MsgType::from_name("PING "), None);
}

#[test]
fn http_method_count_is_eight() {
    assert_eq!(HttpMethod::count(), 8);
}

#[test]
fn http_method_by_index() {
    let expected = [
        HttpMethod::GET,
        HttpMethod::POST,
        HttpMethod::PUT,
        HttpMethod::DELETE,
        HttpMethod::HEAD,
        HttpMethod::PATCH,
        HttpMethod::OPTIONS,
        HttpMethod::CONNECT,
    ];
    for (index, method) in expected.iter().enumerate() {
        assert_eq!(HttpMethod::from_index(index), *method);
    }
}

#[test]
fn http_method_names() {
    assert_eq!(HttpMethod::GET.name(), "GET");
    assert_eq!(HttpMethod::POST.name(), "POST");
    assert_eq!(HttpMethod::PUT.name(), "PUT");
    assert_eq!(HttpMethod::DELETE.name(), "DELETE");
    assert_eq!(HttpMethod::HEAD.name(), "HEAD");
    assert_eq!(HttpMethod::PATCH.name(), "PATCH");
    assert_eq!(HttpMethod::OPTIONS.name(), "OPTIONS");
    assert_eq!(HttpMethod::CONNECT.name(), "CONNECT");
    for index in 0..8 {
        let method = HttpMethod::from_index(index);
        assert_eq!(HttpMethod::from_name(method.name()), Some(method));
    }
    assert_eq!(HttpMethod::from_name("get"), None);
    assert_eq!(HttpMethod::from_name("TRACE"), None);
}

#[test]
fn http_method_from_text_ignores_case() {
    assert_eq!(HttpMethod::from_text("get"), Some(HttpMethod::GET));
    assert_eq!(HttpMethod::from_text("GeT"), Some(HttpMethod::GET));
    assert_eq!(HttpMethod::from_text("POST"), Some(HttpMethod::POST));
    assert_eq!(HttpMethod::from_text("Put"), Some(HttpMethod::PUT));
    assert_eq!(HttpMethod::from_text("DELETE"), Some(HttpMethod::DELETE));
    assert_eq!(HttpMethod::from_text("head"), Some(HttpMethod::HEAD));
    assert_eq!(HttpMethod::from_text("Patch"), Some(HttpMethod::PATCH));
    assert_eq!(HttpMethod::from_text("OPTIONS"), Some(HttpMethod::OPTIONS));
    assert_eq!(HttpMethod::from_text("connect"), Some(HttpMethod::CONNECT));
    assert_eq!(HttpMethod::from_text("trace"), None);
    assert_eq!(HttpMethod::from_text(""), None);
    assert_eq!(HttpMethod::from_lower_name("GET"), None);
    assert_eq!(HttpMethod::from_lower_name("get"), Some(HttpMethod::GET));
}

#[test]
fn new_http_response_is_empty() {
    let r = HttpResponse::new();
    assert_eq!(r.status, 0);
    assert_eq!(r.body, "");
    assert_eq!(r.body_highlight, "");
    assert!(r.headers.is_empty());
    assert_eq!(r.time, 0);
    assert_eq!(r.size, 0);
    assert_eq!(r.response_type, HttpResponseType::TEXT);
    assert_eq!(r.request_index, 0);
    assert!(!r.failed);
}

#[test]
fn new_http_request_is_an_empty_get() {
    let r = HttpRequest::new();
    assert_eq!(r.url, "");
    assert_eq!(r.body, "");
    assert_eq!(r.headers, blank_table());
    assert_eq!(r.params, blank_table());
    assert_eq!(r.method, HttpMethod::GET);
    assert_eq!(r.response.status, 0);
    assert!(!r.response.failed);
    assert_eq!(r.name, "New Request ");
    assert_eq!(r.req_tab, 1);
    assert_eq!(r.resp_tab, 1);
    assert!(!r.loading);
}

#[test]
fn new_send_http_response_is_empty() {
    let r = SendHttpResponse::new();
    assert_eq!(r.msg_type, MsgType::HTTP_RESPONSE);
    assert_eq!(r.status, 0);
    assert_eq!(r.body, "");
    assert_eq!(r.body_highlight, "");
    assert!(r.headers.is_empty());
    assert_eq!(r.time, 0);
    assert_eq!(r.size, 0);
    assert_eq!(r.response_type, SendHttpResponseType::TEXT);
    assert_eq!(r.request_index, 0);
    assert!(!r.failed);
}

#[test]
fn new_collection_is_empty() {
    let c = Collection::new();
    assert_eq!(c.name, "New Collection ");
    assert!(c.requests.is_empty());
    assert!(!c.collapsed);
}

#[test]
fn new_messages_are_empty_and_outbound() {
    let t = TcpMessage::new();
    assert!(t.data.is_empty());
    assert_eq!(t.timestamp, 0);
    assert!(is_short_id(&t.msg_id));
    assert_eq!(t.msg_type, TcpMsgType::OUT);
    assert_eq!(t.peer_address, "");
    let u = UdpMessage::new();
    assert!(u.data.is_empty());
    assert_eq!(u.timestamp, 0);
    assert!(is_short_id(&u.msg_id));
    assert_eq!(u.msg_type, UdpMsgType::OUT);
    assert_eq!(u.peer_address, "");
    let w = WsMessage::new();
    assert_eq!(w.txt, "");
    assert_eq!(w.timestamp, 0);
    assert!(is_short_id(&w.msg_id));
    assert_eq!(w.msg_type, WsMsgType::OUT);
}

#[test]
fn new_tcp_connection_is_idle() {
    let c = TcpConnection::new();
    assert!(is_short_id(&c.connection_id));
    assert_eq!(c.peer_address, "");
    assert_eq!(c.name, "TCP connection ");
    assert_eq!((c.out_tab, c.in_tab), (1, 1));
    assert!(!c.connecting && !c.disconnecting && !c.failed && !c.connected);
    assert_eq!(c.failed_reason, "");
    assert_eq!(c.out_data_buffer, "");
    assert!(c.out_queue.is_empty() && c.in_queue.is_empty() && c.msg_history.is_empty());
    assert_eq!(c.out_headers, blank_table());
    assert_eq!(c.out_params, blank_table());
}

#[test]
fn new_udp_connection_is_idle() {
    let c = UdpConnection::new();
    assert!(is_short_id(&c.connection_id));
    assert_eq!(c.host_address, "");
    assert_eq!(c.peer_address, "");
    assert_eq!(c.name, "UDP connection ");
    assert_eq!((c.out_tab, c.in_tab), (1, 1));
    assert!(!c.connecting && !c.disconnecting && !c.failed && !c.connected);
    assert_eq!(c.failed_reason, "");
    assert!(c.out_queue.is_empty() && c.in_queue.is_empty() && c.msg_history.is_empty());
    assert_eq!(c.out_headers, blank_table());
    assert_eq!(c.out_params, blank_table());
}

#[test]
fn new_ws_connection_is_idle() {
    let c = WsConnection::new();
    assert!(is_short_id(&c.connection_id));
    assert_eq!(c.url, "");
    assert_eq!(c.name, "Ws connection ");
    assert_eq!((c.out_tab, c.in_tab), (1, 1));
    assert!(!c.connecting && !c.disconnecting && !c.failed && !c.connected);
    assert_eq!(c.failed_reason, "");
    assert_eq!(c.out_buffer, "");
    assert!(c.out_queue.is_empty() && c.in_queue.is_empty() && c.msg_history.is_empty());
    assert_eq!(c.out_headers, blank_table());
    assert_eq!(c.out_params, blank_table());
}

#[test]
fn new_main_state_has_one_of_each() {
    let s = MainState::new();
    assert_eq!(s.page, Page::HttpPage);
    assert_eq!((s.http_current, s.ws_current, s.tcp_current, s.udp_current), (0, 0, 0, 0));
    assert_eq!(s.col_current, vec![0, 0]);
    assert_eq!(s.http_requests.len(), 1);
    assert_eq!(s.ws_connections.len(), 1);
    assert_eq!(s.tcp_connections.len(), 1);
    assert_eq!(s.udp_connections.len(), 1);
    assert!(s.collections.is_empty());
}

#[test]
fn tabs_round_trip_through_their_numbers() {
    assert_eq!(HttpReqTabs::from_number(1), HttpReqTabs::Body);
    assert_eq!(HttpReqTabs::from_number(2), HttpReqTabs::Params);
    assert_eq!(HttpReqTabs::from_number(3), HttpReqTabs::Headers);
    assert_eq!(HttpRespTabs::from_number(1), HttpRespTabs::Body);
    assert_eq!(HttpRespTabs::from_number(2), HttpRespTabs::Headers);
    assert_eq!(WsOutTabs::from_number(1), WsOutTabs::Message);
    assert_eq!(WsOutTabs::from_number(2), WsOutTabs::Params);
    assert_eq!(WsOutTabs::from_number(3), WsOutTabs::Headers);
    assert_eq!(WsInTabs::from_number(1), WsInTabs::Messages);
    for n in 1..=3u8 {
        assert_eq!(HttpReqTabs::from_number(n).number(), n);
        assert_eq!(WsOutTabs::from_number(n).number(), n);
    }
    for n in 1..=2u8 {
        assert_eq!(HttpRespTabs::from_number(n).number(), n);
    }
    assert_eq!(WsInTabs::Messages.number(), 1);
}
