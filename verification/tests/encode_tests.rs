use bolt_core::encode::{
    bytes_json, encode_http_response, encode_ping, encode_restore_state, encode_tcp_connected,
    encode_tcp_connection_failed, encode_tcp_disconnected, encode_tcp_message, encode_tcp_received,
    encode_tcp_sent, encode_udp_connected, encode_udp_connection_failed, encode_udp_disconnected,
    encode_udp_message, encode_udp_received, encode_udp_sent, encode_ws_connected,
    encode_ws_connection_failed, encode_ws_disconnected, encode_ws_message, encode_ws_received,
    encode_ws_sent, row_json, table_json, ws_wire_text,
};
use bolt_core::http::{SendHttpResponse, SendHttpResponseType};
use bolt_core::message::{MsgType, PingMsg, RestoreStateMsg};
use bolt_core::tcp::{
    TcpConnectedMsg, TcpConnectionFailedMsg, TcpDisconnectedMsg, TcpMessage, TcpMsgType,
    TcpReceivedMsg, TcpSentMsg,
};
use bolt_core::udp::{
    UdpConnectedMsg, UdpConnectionFailedMsg, UdpDisconnectedMsg, UdpMessage, UdpMsgType,
    UdpReceivedMsg, UdpSentMsg,
};
use bolt_core::ws::{
    WsConnectedMsg, WsConnectionFailedMsg, WsDisconnectedMsg, WsMessage, WsMsgType, WsReceivedMsg,
    WsSentMsg,
};

fn tcp_message() -> TcpMessage {
    TcpMessage {
        data: vec![1, 2, 255],
        timestamp: 17,
        msg_id: "abcd1234".to_string(),
        msg_type: TcpMsgType::OUT,
        peer_address: "h:1".to_string(),
    }
}

fn udp_message() -> UdpMessage {
    UdpMessage {
        data: vec![],
        timestamp: 0,
        msg_id: "m".to_string(),
        msg_type: UdpMsgType::IN,
        peer_address: "127.0.0.1:4001".to_string(),
    }
}

fn ws_message() -> WsMessage {
    WsMessage {
        txt: "say \"hi\"\n".to_string(),
        timestamp: 1700000000000,
        msg_id: "m".to_string(),
        msg_type: WsMsgType::IN,
    }
}

#[test]
fn bytes_become_a_number_array() {
    assert_eq!(bytes_json(&vec![]), "[]");
    assert_eq!(bytes_json(&vec![0]), "[0]");
    assert_eq!(bytes_json(&vec![1, 2, 3]), "[1,2,3]");
    assert_eq!(bytes_json(&vec![255, 10, 100, 0]), "[255,10,100,0]");
}

#[test]
fn rows_and_tables_become_string_arrays() {
    assert_eq!(row_json(&vec![]), "[]");
    assert_eq!(row_json(&vec!["a".to_string()]), "[\"a\"]");
    assert_eq!(row_json(&vec!["a".to_string(), "b\"c".to_string()]), "[\"a\",\"b\\\"c\"]");
    assert_eq!(table_json(&vec![]), "[]");
    assert_eq!(table_json(&vec![vec![]]), "[[]]");
    assert_eq!(
        table_json(&vec![
            vec!["k".to_string(), "v".to_string()],
            vec![],
            vec!["back\\slash".to_string()],
        ]),
        "[[\"k\",\"v\"],[],[\"back\\\\slash\"]]"
    );
}

#[test]
fn ping_and_restore_texts() {
    let ping = PingMsg { msg_type: MsgType::PING, body: "pong".to_string() };
    assert_eq!(encode_ping(&ping), "{\"msg_type\":\"PING\",\"body\":\"pong\"}");
    let restore = RestoreStateMsg { msg_type: MsgType::RESTORE_STATE, save: "{\"a\":1}".to_string() };
    assert_eq!(
        encode_restore_state(&restore),
        "{\"msg_type\":\"RESTORE_STATE\",\"save\":\"{\\\"a\\\":1}\"}"
    );
}

#[test]
fn http_response_text() {
    let mut response = SendHttpResponse::new();
    response.status = 201;
    response.body = "{\"ok\":true}".to_string();
    response.headers = vec![vec!["content-type".to_string(), "application/json".to_string()]];
    response.time = 12;
    response.size = 11;
    response.response_type = SendHttpResponseType::JSON;
    response.request_index = 3;
    assert_eq!(
        encode_http_response(&response),
        "{\"msg_type\":\"HTTP_RESPONSE\",\"status\":201,\"body\":\"{\\\"ok\\\":true}\",\
         \"headers\":[[\"content-type\",\"application/json\"]],\
         \"time_ms\":12,\"size_bytes\":11,\"body_kind\":\"json\",\"index\":3,\"failed\":false}"
    );
    let mut failed = SendHttpResponse::new();
    failed.failed = true;
    failed.body = "timed out".to_string();
    assert_eq!(
        encode_http_response(&failed),
        "{\"msg_type\":\"HTTP_RESPONSE\",\"status\":0,\"body\":\"timed out\",\
         \"headers\":[],\"time_ms\":0,\"size_bytes\":0,\
         \"body_kind\":\"text\",\"index\":0,\"failed\":true}"
    );
}

#[test]
fn message_texts() {
    assert_eq!(
        encode_tcp_message(&tcp_message()),
        "{\"data\":[1,2,255],\"timestamp\":17,\"msg_id\":\"abcd1234\",\"msg_type\":\"OUT\",\
         \"peer_address\":\"h:1\"}"
    );
    assert_eq!(
        encode_udp_message(&udp_message()),
        "{\"data\":[],\"timestamp\":0,\"msg_id\":\"m\",\"msg_type\":\"IN\",\
         \"peer_address\":\"127.0.0.1:4001\"}"
    );
    assert_eq!(
        encode_ws_message(&ws_message()),
        "{\"txt\":\"say \\\"hi\\\"\\n\",\"timestamp\":1700000000000,\"msg_id\":\"m\",\
         \"msg_type\":\"IN\"}"
    );
}

#[test]
fn ws_text_goes_out_as_a_string_literal() {
    assert_eq!(ws_wire_text(&ws_message()), "\"say \\\"hi\\\"\\n\"");
    let mut plain = ws_message();
    plain.txt = "plain".to_string();
    assert_eq!(ws_wire_text(&plain), "\"plain\"");
}

#[test]
fn tcp_event_texts() {
    let id = || "c-1".to_string();
    assert_eq!(
        encode_tcp_connected(&TcpConnectedMsg { msg_type: MsgType::TCP_CONNECTED, connection_id: id() }),
        "{\"msg_type\":\"TCP_CONNECTED\",\"connection_id\":\"c-1\"}"
    );
    assert_eq!(
        encode_tcp_disconnected(&TcpDisconnectedMsg {
            msg_type: MsgType::TCP_DISCONNECTED,
            connection_id: id()
        }),
        "{\"msg_type\":\"TCP_DISCONNECTED\",\"connection_id\":\"c-1\"}"
    );
    assert_eq!(
        encode_tcp_connection_failed(&TcpConnectionFailedMsg {
            msg_type: MsgType::TCP_CONNECTION_FAILED,
            connection_id: id(),
            reason: "refused \"now\"".to_string(),
        }),
        "{\"msg_type\":\"TCP_CONNECTION_FAILED\",\"connection_id\":\"c-1\",\
         \"reason\":\"refused \\\"now\\\"\"}"
    );
    assert_eq!(
        encode_tcp_sent(&TcpSentMsg {
            msg_type: MsgType::TCP_MSG_SENT,
            connection_id: id(),
            msg: tcp_message()
        }),
        "{\"msg_type\":\"TCP_MSG_SENT\",\"connection_id\":\"c-1\",\"msg\":{\"data\":[1,2,255],\
         \"timestamp\":17,\"msg_id\":\"abcd1234\",\"msg_type\":\"OUT\",\"peer_address\":\"h:1\"}}"
    );
    assert_eq!(
        encode_tcp_received(&TcpReceivedMsg {
            msg_type: MsgType::TCP_RECEIVED_MSG,
            connection_id: id(),
            msg: tcp_message()
        }),
        "{\"msg_type\":\"TCP_RECEIVED_MSG\",\"connection_id\":\"c-1\",\"msg\":{\"data\":[1,2,255],\
         \"timestamp\":17,\"msg_id\":\"abcd1234\",\"msg_type\":\"OUT\",\"peer_address\":\"h:1\"}}"
    );
}

#[test]
fn udp_event_texts() {
    let id = || "u".to_string();
    assert_eq!(
        encode_udp_connected(&UdpConnectedMsg { msg_type: MsgType::UDP_CONNECTED, connection_id: id() }),
        "{\"msg_type\":\"UDP_CONNECTED\",\"connection_id\":\"u\"}"
    );
    assert_eq!(
        encode_udp_disconnected(&UdpDisconnectedMsg {
            msg_type: MsgType::UDP_DISCONNECTED,
            connection_id: id()
        }),
        "{\"msg_type\":\"UDP_DISCONNECTED\",\"connection_id\":\"u\"}"
    );
    assert_eq!(
        encode_udp_connection_failed(&UdpConnectionFailedMsg {
            msg_type: MsgType::UDP_CONNECTION_FAILED,
            connection_id: id(),
            reason: "in use".to_string(),
        }),
        "{\"msg_type\":\"UDP_CONNECTION_FAILED\",\"connection_id\":\"u\",\"reason\":\"in use\"}"
    );
    let body = "{\"data\":[],\"timestamp\":0,\"msg_id\":\"m\",\"msg_type\":\"IN\",\
                \"peer_address\":\"127.0.0.1:4001\"}";
    assert_eq!(
        encode_udp_sent(&UdpSentMsg {
            msg_type: MsgType::UDP_MSG_SENT,
            connection_id: id(),
            msg: udp_message()
        }),
        format!("{{\"msg_type\":\"UDP_MSG_SENT\",\"connection_id\":\"u\",\"msg\":{body}}}")
    );
    assert_eq!(
        encode_udp_received(&UdpReceivedMsg {
            msg_type: MsgType::UDP_RECEIVED_MSG,
            connection_id: id(),
            msg: udp_message()
        }),
        format!("{{\"msg_type\":\"UDP_RECEIVED_MSG\",\"connection_id\":\"u\",\"msg\":{body}}}")
    );
}

#[test]
fn ws_event_texts() {
    let id = || "w".to_string();
    assert_eq!(
        encode_ws_connected(&WsConnectedMsg { msg_type: MsgType::WS_CONNECTED, connection_id: id() }),
        "{\"msg_type\":\"WS_CONNECTED\",\"connection_id\":\"w\"}"
    );
    assert_eq!(
        encode_ws_disconnected(&WsDisconnectedMsg {
            msg_type: MsgType::WS_DISCONNECTED,
            connection_id: id()
        }),
        "{\"msg_type\":\"WS_DISCONNECTED\",\"connection_id\":\"w\"}"
    );
    assert_eq!(
        encode_ws_connection_failed(&WsConnectionFailedMsg {
            msg_type: MsgType::WS_CONNECTION_FAILED,
            connection_id: id(),
            reason: "bad url".to_string(),
        }),
        "{\"msg_type\":\"WS_CONNECTION_FAILED\",\"connection_id\":\"w\",\"reason\":\"bad url\"}"
    );
    let body = "{\"txt\":\"say \\\"hi\\\"\\n\",\"timestamp\":1700000000000,\"msg_id\":\"m\",\
                \"msg_type\":\"IN\"}";
    assert_eq!(
        encode_ws_sent(&WsSentMsg { msg_type: MsgType::WS_MSG_SENT, connection_id: id(), msg: ws_message() }),
        format!("{{\"msg_type\":\"WS_MSG_SENT\",\"connection_id\":\"w\",\"msg\":{body}}}")
    );
    assert_eq!(
        encode_ws_received(&WsReceivedMsg {
            msg_type: MsgType::WS_RECEIVED_MSG,
            connection_id: id(),
            msg: ws_message()
        }),
        format!("{{\"msg_type\":\"WS_RECEIVED_MSG\",\"connection_id\":\"w\",\"msg\":{body}}}")
    );
}

#[test]
fn written_events_parse_back() {
    let text = encode_tcp_sent(&TcpSentMsg {
        msg_type: MsgType::TCP_MSG_SENT,
        connection_id: "tab\there".to_string(),
        msg: tcp_message(),
    });
    let parsed: serde_json::Value = serde_json::from_str(&text).unwrap();
    assert_eq!(parsed["msg_type"], "TCP_MSG_SENT");
    assert_eq!(parsed["connection_id"], "tab\there");
    assert_eq!(parsed["msg"]["data"][2], 255);
    assert_eq!(parsed["msg"]["timestamp"], 17);
    assert_eq!(parsed["msg"]["msg_id"], "abcd1234");
}
