//! The JSON text of every message that the backend sends on the control
//! channel. Field names and their order are part of the protocol; free
//! text is written as a JSON string literal by `serde_json`.

use crate::http::{SendHttpResponse, SendHttpResponseType};
use crate::json::{json_quoted, quote};
use crate::message::{tag_name, MsgType, PingMsg, RestoreStateMsg};
use crate::tcp::{
    TcpConnectedMsg, TcpConnectionFailedMsg, TcpDisconnectedMsg, TcpMessage, TcpMessageView,
    TcpMsgType, TcpReceivedMsg, TcpSentMsg,
};
use crate::text::{decimal_text, push_decimal, rows, texts};
use crate::udp::{
    UdpConnectedMsg, UdpConnectionFailedMsg, UdpDisconnectedMsg, UdpMessage, UdpMessageView,
    UdpMsgType, UdpReceivedMsg, UdpSentMsg,
};
use crate::ws::{
    WsConnectedMsg, WsConnectionFailedMsg, WsDisconnectedMsg, WsMessage, WsMessageView, WsMsgType,
    WsReceivedMsg, WsSentMsg,
};
use vstd::prelude::*;
use vstd::string::StringExecFns;

verus! {

/// The start of a message object: the brace and the tag member.
pub open spec fn object_head(tag: MsgType) -> Seq<char> {
    "{\"msg_type\":\""@ + tag_name(tag) + "\""@
}

/// A further member whose value is written as it stands.
pub open spec fn raw_member(key: Seq<char>, value: Seq<char>) -> Seq<char> {
    ",\""@ + key + "\":"@ + value
}

/// A further member whose value is a text.
pub open spec fn text_member(key: Seq<char>, value: Seq<char>) -> Seq<char> {
    raw_member(key, json_quoted(value))
}

/// A further member whose value is a non-negative integer.
pub open spec fn uint_member(key: Seq<char>, value: nat) -> Seq<char> {
    raw_member(key, decimal_text(value))
}

/// The text of a truth value.
pub open spec fn bool_text(value: bool) -> Seq<char> {
    if value {
        "true"@
    } else {
        "false"@
    }
}

/// The numerals of a list of bytes, separated by commas.
pub open spec fn byte_items_text(data: Seq<u8>) -> Seq<char>
    decreases data.len(),
{
    if data.len() == 0 {
        Seq::empty()
    } else if data.len() == 1 {
        decimal_text(data[0] as nat)
    } else {
        byte_items_text(data.drop_last()) + ","@ + decimal_text(data.last() as nat)
    }
}

/// A list of bytes as a JSON array of numbers.
pub open spec fn bytes_text(data: Seq<u8>) -> Seq<char> {
    "["@ + byte_items_text(data) + "]"@
}

/// The string literals of a list of texts, separated by commas.
pub open spec fn text_items_text(list: Seq<Seq<char>>) -> Seq<char>
    decreases list.len(),
{
    if list.len() == 0 {
        Seq::empty()
    } else if list.len() == 1 {
        json_quoted(list[0])
    } else {
        text_items_text(list.drop_last()) + ","@ + json_quoted(list.last())
    }
}

/// A list of texts as a JSON array of strings.
pub open spec fn row_text(list: Seq<Seq<char>>) -> Seq<char> {
    "["@ + text_items_text(list) + "]"@
}

/// The arrays of the rows of a table, separated by commas.
pub open spec fn row_items_text(table: Seq<Seq<Seq<char>>>) -> Seq<char>
    decreases table.len(),
{
    if table.len() == 0 {
        Seq::empty()
    } else if table.len() == 1 {
        row_text(table[0])
    } else {
        row_items_text(table.drop_last()) + ","@ + row_text(table.last())
    }
}

/// A table of texts as a JSON array of arrays of strings.
pub open spec fn table_text(table: Seq<Seq<Seq<char>>>) -> Seq<char> {
    "["@ + row_items_text(table) + "]"@
}

/// Starts a message object.
fn open_object(tag: MsgType) -> (out: String)
    ensures
        out@ == object_head(tag),
{
    let mut out = String::from_str("{\"msg_type\":\"");
    out.append(tag.name());
    out.append("\"");
    out
}

/// Appends a member whose value is written as it stands.
fn push_raw_member(out: &mut String, key: &str, value: &str)
    ensures
        final(out)@ == old(out)@ + raw_member(key@, value@),
{
    let mut member = String::from_str(",\"");
    member.append(key);
    member.append("\":");
    member.append(value);
    out.append(member.as_str());
}

/// Appends a member whose value is a text.
fn push_text_member(out: &mut String, key: &str, value: &str)
    ensures
        final(out)@ == old(out)@ + text_member(key@, value@),
{
    let literal = quote(value);
    push_raw_member(out, key, literal.as_str());
}

/// Appends a member whose value is a non-negative integer.
fn push_uint_member(out: &mut String, key: &str, value: u64)
    ensures
        final(out)@ == old(out)@ + uint_member(key@, value as nat),
{
    let mut numeral = String::new();
    push_decimal(&mut numeral, value);
    push_raw_member(out, key, numeral.as_str());
}

/// Writes a list of bytes as a JSON array of numbers.
pub fn bytes_json(data: &Vec<u8>) -> (out: String)
    ensures
        out@ == bytes_text(data@),
{
    let mut items = String::new();
    let mut i: usize = 0;
    while i < data.len()
        invariant
            i <= data.len(),
            items@ == byte_items_text(data@.take(i as int)),
        decreases data.len() - i,
    {
        proof {
            assert(data@.take(i + 1).drop_last() =~= data@.take(i as int));
            assert(data@.take(i + 1).last() == data@[i as int]);
        }
        if i > 0 {
            items.append(",");
        } else {
            assert(items@ + decimal_text(data@[0] as nat) =~= decimal_text(data@[0] as nat));
        }
        push_decimal(&mut items, data[i] as u64);
        i += 1;
    }
    assert(data@.take(i as int) =~= data@);
    let mut out = String::from_str("[");
    out.append(items.as_str());
    out.append("]");
    out
}

/// Writes a list of texts as a JSON array of strings.
pub fn row_json(list: &Vec<String>) -> (out: String)
    ensures
        out@ == row_text(texts(list@)),
{
    let mut items = String::new();
    let mut i: usize = 0;
    let ghost all = texts(list@);
    while i < list.len()
        invariant
            i <= list.len(),
            all == texts(list@),
            items@ == text_items_text(all.take(i as int)),
        decreases list.len() - i,
    {
        proof {
            assert(all.take(i + 1).drop_last() =~= all.take(i as int));
            assert(all.take(i + 1).last() == list@[i as int]@);
        }
        let literal = quote(list[i].as_str());
        if i > 0 {
            items.append(",");
        } else {
            assert(items@ + literal@ =~= literal@);
        }
        items.append(literal.as_str());
        i += 1;
    }
    assert(all.take(i as int) =~= all);
    let mut out = String::from_str("[");
    out.append(items.as_str());
    out.append("]");
    out
}

/// Writes a table of texts as a JSON array of arrays of strings.
pub fn table_json(table: &Vec<Vec<String>>) -> (out: String)
    ensures
        out@ == table_text(rows(table@)),
{
    let mut items = String::new();
    let mut i: usize = 0;
    let ghost all = rows(table@);
    while i < table.len()
        invariant
            i <= table.len(),
            all == rows(table@),
            items@ == row_items_text(all.take(i as int)),
        decreases table.len() - i,
    {
        proof {
            assert(all.take(i + 1).drop_last() =~= all.take(i as int));
            assert(all.take(i + 1).last() == texts(table@[i as int]@));
        }
        let row = row_json(&table[i]);
        if i > 0 {
            items.append(",");
        } else {
            assert(items@ + row@ =~= row@);
        }
        items.append(row.as_str());
        i += 1;
    }
    assert(all.take(i as int) =~= all);
    let mut out = String::from_str("[");
    out.append(items.as_str());
    out.append("]");
    out
}

/// The text of a message that carries a tag and a connection id.
pub open spec fn connection_event_text(tag: MsgType, connection_id: Seq<char>) -> Seq<char> {
    object_head(tag) + text_member("connection_id"@, connection_id) + "}"@
}

/// The text of a message that carries a tag, a connection id and the
/// reason of a failure.
pub open spec fn failure_event_text(
    tag: MsgType,
    connection_id: Seq<char>,
    reason: Seq<char>,
) -> Seq<char> {
    object_head(tag) + text_member("connection_id"@, connection_id) + text_member(
        "reason"@,
        reason,
    ) + "}"@
}

/// The text of a message that carries a tag, a connection id and one
/// message of the connection, already written as JSON.
pub open spec fn message_event_text(
    tag: MsgType,
    connection_id: Seq<char>,
    message: Seq<char>,
) -> Seq<char> {
    object_head(tag) + text_member("connection_id"@, connection_id) + raw_member(
        "msg"@,
        message,
    ) + "}"@
}

/// Writes a message that carries a tag and a connection id.
fn connection_event(tag: MsgType, connection_id: &str) -> (out: String)
    ensures
        out@ == connection_event_text(tag, connection_id@),
{
    let mut out = open_object(tag);
    push_text_member(&mut out, "connection_id", connection_id);
    out.append("}");
    out
}

/// Writes a message that reports a failure on a connection.
fn failure_event(tag: MsgType, connection_id: &str, reason: &str) -> (out: String)
    ensures
        out@ == failure_event_text(tag, connection_id@, reason@),
{
    let mut out = open_object(tag);
    push_text_member(&mut out, "connection_id", connection_id);
    push_text_member(&mut out, "reason", reason);
    out.append("}");
    out
}

/// Writes a message that carries one message of a connection.
fn message_event(tag: MsgType, connection_id: &str, message: &str) -> (out: String)
    ensures
        out@ == message_event_text(tag, connection_id@, message@),
{
    let mut out = open_object(tag);
    push_text_member(&mut out, "connection_id", connection_id);
    push_raw_member(&mut out, "msg", message);
    out.append("}");
    out
}

/// The text of the reply to a health check.
pub open spec fn ping_text(tag: MsgType, body: Seq<char>) -> Seq<char> {
    object_head(tag) + text_member("body"@, body) + "}"@
}

/// Writes a health-check message.
pub fn encode_ping(message: &PingMsg) -> (out: String)
    ensures
        out@ == ping_text(message.msg_type, message.body@),
{
    let mut out = open_object(message.msg_type);
    push_text_member(&mut out, "body", message.body.as_str());
    out.append("}");
    out
}

/// The text of the message that hands the persisted document back.
pub open spec fn restore_text(tag: MsgType, save: Seq<char>) -> Seq<char> {
    object_head(tag) + text_member("save"@, save) + "}"@
}

/// Writes the message that hands the persisted document back.
pub fn encode_restore_state(message: &RestoreStateMsg) -> (out: String)
    ensures
        out@ == restore_text(message.msg_type, message.save@),
{
    let mut out = open_object(message.msg_type);
    push_text_member(&mut out, "save", message.save.as_str());
    out.append("}");
    out
}

/// The wire name of a body kind.
pub open spec fn body_kind_name(kind: SendHttpResponseType) -> Seq<char> {
    match kind {
        SendHttpResponseType::TEXT => "text"@,
        SendHttpResponseType::JSON => "json"@,
    }
}

/// The text of the reply to a `SEND_HTTP` order: status, body, headers,
/// elapsed milliseconds, size in bytes, body kind, the index that the order
/// carried, and whether the transport failed.
pub open spec fn http_response_text(response: SendHttpResponse) -> Seq<char> {
    object_head(response.msg_type) + uint_member("status"@, response.status as nat) + text_member(
        "body"@,
        response.body@,
    ) + raw_member("headers"@, table_text(rows(response.headers@))) + uint_member(
        "time_ms"@,
        response.time as nat,
    ) + uint_member("size_bytes"@, response.size as nat) + text_member(
        "body_kind"@,
        body_kind_name(response.response_type),
    ) + uint_member("index"@, response.request_index as nat) + raw_member(
        "failed"@,
        bool_text(response.failed),
    ) + "}"@
}

/// Writes the reply to a `SEND_HTTP` order.
pub fn encode_http_response(response: &SendHttpResponse) -> (out: String)
    ensures
        out@ == http_response_text(*response),
{
    let mut out = open_object(response.msg_type);
    push_uint_member(&mut out, "status", response.status as u64);
    push_text_member(&mut out, "body", response.body.as_str());
    let headers = table_json(&response.headers);
    push_raw_member(&mut out, "headers", headers.as_str());
    push_uint_member(&mut out, "time_ms", response.time as u64);
    push_uint_member(&mut out, "size_bytes", response.size);
    let kind = match response.response_type {
        SendHttpResponseType::TEXT => "text",
        SendHttpResponseType::JSON => "json",
    };
    push_text_member(&mut out, "body_kind", kind);
    push_uint_member(&mut out, "index", response.request_index as u64);
    let failed = if response.failed {
        "true"
    } else {
        "false"
    };
    push_raw_member(&mut out, "failed", failed);
    out.append("}");
    out
}

/// The wire name of a direction.
pub open spec fn ws_direction_name(direction: WsMsgType) -> Seq<char> {
    match direction {
        WsMsgType::IN => "IN"@,
        WsMsgType::OUT => "OUT"@,
    }
}

/// The text of one WebSocket message.
pub open spec fn ws_message_text(message: WsMessageView) -> Seq<char> {
    "{\"txt\":"@ + json_quoted(message.txt) + uint_member("timestamp"@, message.timestamp as nat)
        + text_member("msg_id"@, message.msg_id) + text_member(
        "msg_type"@,
        ws_direction_name(message.msg_type),
    ) + "}"@
}

/// Writes one WebSocket message.
pub fn encode_ws_message(message: &WsMessage) -> (out: String)
    ensures
        out@ == ws_message_text(message@),
{
    let mut out = String::from_str("{\"txt\":");
    let txt = quote(message.txt.as_str());
    out.append(txt.as_str());
    push_uint_member(&mut out, "timestamp", message.timestamp);
    push_text_member(&mut out, "msg_id", message.msg_id.as_str());
    let direction = match message.msg_type {
        WsMsgType::IN => "IN",
        WsMsgType::OUT => "OUT",
    };
    push_text_member(&mut out, "msg_type", direction);
    out.append("}");
    out
}

/// Writes the text that goes to the peer for an outbound WebSocket
/// message: its text as one JSON string literal.
pub fn ws_wire_text(message: &WsMessage) -> (out: String)
    ensures
        out@ == json_quoted(message.txt@),
{
    quote(message.txt.as_str())
}

/// Writes the event that a WebSocket connection is up.
pub fn encode_ws_connected(event: &WsConnectedMsg) -> (out: String)
    ensures
        out@ == connection_event_text(event.msg_type, event.connection_id@),
{
    connection_event(event.msg_type, event.connection_id.as_str())
}

/// Writes the event that a WebSocket connection was closed.
pub fn encode_ws_disconnected(event: &WsDisconnectedMsg) -> (out: String)
    ensures
        out@ == connection_event_text(event.msg_type, event.connection_id@),
{
    connection_event(event.msg_type, event.connection_id.as_str())
}

/// Writes the event that a WebSocket connect attempt failed.
pub fn encode_ws_connection_failed(event: &WsConnectionFailedMsg) -> (out: String)
    ensures
        out@ == failure_event_text(event.msg_type, event.connection_id@, event.reason@),
{
    failure_event(event.msg_type, event.connection_id.as_str(), event.reason.as_str())
}

/// Writes the event that a pending WebSocket message was written.
pub fn encode_ws_sent(event: &WsSentMsg) -> (out: String)
    ensures
        out@ == message_event_text(
            event.msg_type,
            event.connection_id@,
            ws_message_text(event.msg@),
        ),
{
    let message = encode_ws_message(&event.msg);
    message_event(event.msg_type, event.connection_id.as_str(), message.as_str())
}

/// Writes the event that a WebSocket message arrived.
pub fn encode_ws_received(event: &WsReceivedMsg) -> (out: String)
    ensures
        out@ == message_event_text(
            event.msg_type,
            event.connection_id@,
            ws_message_text(event.msg@),
        ),
{
    let message = encode_ws_message(&event.msg);
    message_event(event.msg_type, event.connection_id.as_str(), message.as_str())
}

/// The wire name of a direction.
pub open spec fn tcp_direction_name(direction: TcpMsgType) -> Seq<char> {
    match direction {
        TcpMsgType::IN => "IN"@,
        TcpMsgType::OUT => "OUT"@,
    }
}

/// The text of one TCP message.
pub open spec fn tcp_message_text(message: TcpMessageView) -> Seq<char> {
    "{\"data\":"@ + bytes_text(message.data) + uint_member(
        "timestamp"@,
        message.timestamp as nat,
    ) + text_member("msg_id"@, message.msg_id) + text_member(
        "msg_type"@,
        tcp_direction_name(message.msg_type),
    ) + text_member("peer_address"@, message.peer_address) + "}"@
}

/// Writes one TCP message.
pub fn encode_tcp_message(message: &TcpMessage) -> (out: String)
    ensures
        out@ == tcp_message_text(message@),
{
    let mut out = String::from_str("{\"data\":");
    let data = bytes_json(&message.data);
    out.append(data.as_str());
    push_uint_member(&mut out, "timestamp", message.timestamp);
    push_text_member(&mut out, "msg_id", message.msg_id.as_str());
    let direction = match message.msg_type {
        TcpMsgType::IN => "IN",
        TcpMsgType::OUT => "OUT",
    };
    push_text_member(&mut out, "msg_type", direction);
    push_text_member(&mut out, "peer_address", message.peer_address.as_str());
    out.append("}");
    out
}

/// Writes the event that a TCP connection is up.
pub fn encode_tcp_connected(event: &TcpConnectedMsg) -> (out: String)
    ensures
        out@ == connection_event_text(event.msg_type, event.connection_id@),
{
    connection_event(event.msg_type, event.connection_id.as_str())
}

/// Writes the event that a TCP connection was closed.
pub fn encode_tcp_disconnected(event: &TcpDisconnectedMsg) -> (out: String)
    ensures
        out@ == connection_event_text(event.msg_type, event.connection_id@),
{
    connection_event(event.msg_type, event.connection_id.as_str())
}

/// Writes the event that a TCP connect attempt failed.
pub fn encode_tcp_connection_failed(event: &TcpConnectionFailedMsg) -> (out: String)
    ensures
        out@ == failure_event_text(event.msg_type, event.connection_id@, event.reason@),
{
    failure_event(event.msg_type, event.connection_id.as_str(), event.reason.as_str())
}

/// Writes the event that a pending TCP message was written.
pub fn encode_tcp_sent(event: &TcpSentMsg) -> (out: String)
    ensures
        out@ == message_event_text(
            event.msg_type,
            event.connection_id@,
            tcp_message_text(event.msg@),
        ),
{
    let message = encode_tcp_message(&event.msg);
    message_event(event.msg_type, event.connection_id.as_str(), message.as_str())
}

/// Writes the event that a TCP message arrived.
pub fn encode_tcp_received(event: &TcpReceivedMsg) -> (out: String)
    ensures
        out@ == message_event_text(
            event.msg_type,
            event.connection_id@,
            tcp_message_text(event.msg@),
        ),
{
    let message = encode_tcp_message(&event.msg);
    message_event(event.msg_type, event.connection_id.as_str(), message.as_str())
}

/// The wire name of a direction.
pub open spec fn udp_direction_name(direction: UdpMsgType) -> Seq<char> {
    match direction {
        UdpMsgType::IN => "IN"@,
        UdpMsgType::OUT => "OUT"@,
    }
}

/// The text of one UDP message.
pub open spec fn udp_message_text(message: UdpMessageView) -> Seq<char> {
    "{\"data\":"@ + bytes_text(message.data) + uint_member(
        "timestamp"@,
        message.timestamp as nat,
    ) + text_member("msg_id"@, message.msg_id) + text_member(
        "msg_type"@,
        udp_direction_name(message.msg_type),
    ) + text_member("peer_address"@, message.peer_address) + "}"@
}

/// Writes one UDP message.
pub fn encode_udp_message(message: &UdpMessage) -> (out: String)
    ensures
        out@ == udp_message_text(message@),
{
    let mut out = String::from_str("{\"data\":");
    let data = bytes_json(&message.data);
    out.append(data.as_str());
    push_uint_member(&mut out, "timestamp", message.timestamp);
    push_text_member(&mut out, "msg_id", message.msg_id.as_str());
    let direction = match message.msg_type {
        UdpMsgType::IN => "IN",
        UdpMsgType::OUT => "OUT",
    };
    push_text_member(&mut out, "msg_type", direction);
    push_text_member(&mut out, "peer_address", message.peer_address.as_str());
    out.append("}");
    out
}

/// Writes the event that a UDP connection is up.
pub fn encode_udp_connected(event: &UdpConnectedMsg) -> (out: String)
    ensures
        out@ == connection_event_text(event.msg_type, event.connection_id@),
{
    connection_event(event.msg_type, event.connection_id.as_str())
}

/// Writes the event that a UDP connection was closed.
pub fn encode_udp_disconnected(event: &UdpDisconnectedMsg) -> (out: String)
    ensures
        out@ == connection_event_text(event.msg_type, event.connection_id@),
{
    connection_event(event.msg_type, event.connection_id.as_str())
}

/// Writes the event that a UDP connect attempt failed.
pub fn encode_udp_connection_failed(event: &UdpConnectionFailedMsg) -> (out: String)
    ensures
        out@ == failure_event_text(event.msg_type, event.connection_id@, event.reason@),
{
    failure_event(event.msg_type, event.connection_id.as_str(), event.reason.as_str())
}

/// Writes the event that a pending UDP message was written.
pub fn encode_udp_sent(event: &UdpSentMsg) -> (out: String)
    ensures
        out@ == message_event_text(
            event.msg_type,
            event.connection_id@,
            udp_message_text(event.msg@),
        ),
{
    let message = encode_udp_message(&event.msg);
    message_event(event.msg_type, event.connection_id.as_str(), message.as_str())
}

/// Writes the event that a UDP message arrived.
pub fn encode_udp_received(event: &UdpReceivedMsg) -> (out: String)
    ensures
        out@ == message_event_text(
            event.msg_type,
            event.connection_id@,
            udp_message_text(event.msg@),
        ),
{
    let message = encode_udp_message(&event.msg);
    message_event(event.msg_type, event.connection_id.as_str(), message.as_str())
}

} // verus!
