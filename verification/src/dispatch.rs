//! The control-channel dispatcher: reads the tag of an inbound message,
//! checks its payload and says what the backend has to do. An unknown tag
//! or a malformed payload is answered, never fatal.

use crate::encode::{
    encode_ping, encode_restore_state, object_head, ping_text, restore_text, text_member,
};
use crate::http::{
    effective_url, method_named, request_of, HttpMethod, SendHttpMsg, SendHttpRequest,
    SendHttpRequestView,
};
use crate::json::{
    json_model, parse_document, parsed_document, read_table, read_text, read_uint, table_field,
    text_field, uint_field, Json,
};
use crate::message::{tag_named, MsgType, PingMsg, RestoreStateMsg};
use vstd::prelude::*;
use vstd::string::StringExecFns;

verus! {

/// What the backend has to do for one inbound message.
pub enum Command {
    /// Send this text back to the client.
    Reply(String),
    /// Write the client's log line to the backend's log.
    Log(String),
    /// Write the client's failure report to the backend's log.
    Panic(String),
    /// Open the link in the default browser.
    OpenLink(String),
    /// Put the text on the clipboard.
    CopyClipboard(String),
    /// Parse the text as the full session document, persist it and adopt
    /// it as the declared state.
    SaveState(String),
    /// Read the persisted session document and hand it back.
    RestoreState,
    /// Send the request and hand its reply back.
    SendHttp(SendHttpRequest),
    /// The client announced a connection with this id; its worker starts
    /// with the next reconciliation tick, so there is nothing to do.
    Acknowledge(String),
    /// An event tag, which only the backend sends: nothing to do.
    Ignore,
}

/// What a command holds, as plain values.
pub enum CommandView {
    Reply(Seq<char>),
    Log(Seq<char>),
    Panic(Seq<char>),
    OpenLink(Seq<char>),
    CopyClipboard(Seq<char>),
    SaveState(Seq<char>),
    RestoreState,
    SendHttp(SendHttpRequestView),
    Acknowledge(Seq<char>),
    Ignore,
}

impl View for Command {
    type V = CommandView;

    open spec fn view(&self) -> CommandView {
        match self {
            Command::Reply(text) => CommandView::Reply(text@),
            Command::Log(text) => CommandView::Log(text@),
            Command::Panic(text) => CommandView::Panic(text@),
            Command::OpenLink(link) => CommandView::OpenLink(link@),
            Command::CopyClipboard(value) => CommandView::CopyClipboard(value@),
            Command::SaveState(save) => CommandView::SaveState(save@),
            Command::RestoreState => CommandView::RestoreState,
            Command::SendHttp(request) => CommandView::SendHttp(request@),
            Command::Acknowledge(id) => CommandView::Acknowledge(id@),
            Command::Ignore => CommandView::Ignore,
        }
    }
}

/// The answer to a message that cannot be read.
pub open spec fn invalid_reply() -> CommandView {
    CommandView::Reply("that was invalid"@)
}

/// The answer to a health check.
pub open spec fn pong_reply() -> CommandView {
    CommandView::Reply(ping_text(MsgType::PING, "pong"@))
}

/// The tag of a document: its text member `msg_type`, if that names one.
pub open spec fn tag_of(document: Json) -> Option<MsgType> {
    match text_field(document, "msg_type"@) {
        Some(name) => tag_named(name),
        None => None,
    }
}

/// The request that a `SEND_HTTP` document orders: all five members must
/// be there and well-typed, the method a known name and the index a
/// machine word. The address is completed with a scheme.
pub open spec fn send_http_of(document: Json) -> Option<SendHttpRequestView> {
    match (
        text_field(document, "url"@),
        text_field(document, "method"@),
        text_field(document, "body"@),
        table_field(document, "headers"@),
        uint_field(document, "index"@),
    ) {
        (Some(url), Some(name), Some(body), Some(headers), Some(index)) => match method_named(
            name,
        ) {
            Some(method) => if index <= usize::MAX {
                Some(
                    SendHttpRequestView {
                        url: effective_url(url),
                        method,
                        body,
                        headers,
                        request_index: index as usize,
                    },
                )
            } else {
                None
            },
            None => None,
        },
        _ => None,
    }
}

/// The command for a document whose tag is known.
pub open spec fn command_for(tag: MsgType, document: Json) -> CommandView {
    match tag {
        MsgType::PING => pong_reply(),
        MsgType::LOG => match text_field(document, "log"@) {
            Some(log) => CommandView::Log(log),
            None => invalid_reply(),
        },
        MsgType::PANIC => match text_field(document, "log"@) {
            Some(log) => CommandView::Panic(log),
            None => invalid_reply(),
        },
        MsgType::OPEN_LINK => match text_field(document, "link"@) {
            Some(link) => CommandView::OpenLink(link),
            None => invalid_reply(),
        },
        MsgType::COPY_CLIPBOARD => match text_field(document, "value"@) {
            Some(value) => CommandView::CopyClipboard(value),
            None => invalid_reply(),
        },
        MsgType::SAVE_STATE => match text_field(document, "save"@) {
            Some(save) => CommandView::SaveState(save),
            None => invalid_reply(),
        },
        MsgType::RESTORE_STATE => CommandView::RestoreState,
        MsgType::SEND_HTTP => match send_http_of(document) {
            Some(request) => CommandView::SendHttp(request),
            None => invalid_reply(),
        },
        MsgType::ADD_WS_CONNECTION | MsgType::ADD_TCP_CONNECTION | MsgType::ADD_UDP_CONNECTION => match text_field(
            document,
            "connection_id"@,
        ) {
            Some(id) => CommandView::Acknowledge(id),
            None => invalid_reply(),
        },
        _ => CommandView::Ignore,
    }
}

/// The command for a parsed document.
pub open spec fn command_of(document: Json) -> CommandView {
    match tag_of(document) {
        Some(tag) => command_for(tag, document),
        None => invalid_reply(),
    }
}

/// The command for the text of an inbound message.
pub open spec fn command_of_text(text: Seq<char>) -> CommandView {
    match parsed_document(text) {
        Some(document) => command_of(document),
        None => invalid_reply(),
    }
}

/// Round trip, as far as the dispatcher goes: the document that a save
/// command hands on for persisting is the `save` member of the message,
/// unchanged, and the reply that hands a persisted document back holds
/// that document as its `save` member. What lies between the two, the
/// state store, is not part of this library.
pub proof fn lemma_save_carries_document(message: Json, save: Seq<char>)
    requires
        command_of(message) == CommandView::SaveState(save),
    ensures
        tag_of(message) == Some(MsgType::SAVE_STATE),
        text_field(message, "save"@) == Some(save),
        restore_text(MsgType::RESTORE_STATE, save) == object_head(MsgType::RESTORE_STATE)
            + text_member("save"@, save) + "}"@,
{
}

/// The answer to a message that cannot be read.
pub fn handle_invalid() -> (command: Command)
    ensures
        command@ == invalid_reply(),
{
    Command::Reply(String::from_str("that was invalid"))
}

/// Answers a health check.
fn handle_ping() -> (command: Command)
    ensures
        command@ == pong_reply(),
{
    let message = PingMsg { msg_type: MsgType::PING, body: String::from_str("pong") };
    Command::Reply(encode_ping(&message))
}

/// Reads a `SEND_HTTP` order.
fn handle_send_http(document: &serde_json::Value) -> (command: Command)
    ensures
        command@ == match send_http_of(json_model(*document)) {
            Some(request) => CommandView::SendHttp(request),
            None => invalid_reply(),
        },
{
    let url = match read_text(document, "url") {
        Some(url) => url,
        None => {
            return handle_invalid();
        },
    };
    let name = match read_text(document, "method") {
        Some(name) => name,
        None => {
            return handle_invalid();
        },
    };
    let body = match read_text(document, "body") {
        Some(body) => body,
        None => {
            return handle_invalid();
        },
    };
    let headers = match read_table(document, "headers") {
        Some(headers) => headers,
        None => {
            return handle_invalid();
        },
    };
    let index = match read_uint(document, "index") {
        Some(index) => index,
        None => {
            return handle_invalid();
        },
    };
    let method = match HttpMethod::from_name(name.as_str()) {
        Some(method) => method,
        None => {
            return handle_invalid();
        },
    };
    if index > usize::MAX as u64 {
        return handle_invalid();
    }
    let order = SendHttpMsg {
        msg_type: MsgType::SEND_HTTP,
        url,
        method,
        body,
        headers,
        index: index as usize,
    };
    Command::SendHttp(request_of(order))
}

/// Says what to do for a document whose tag is known.
fn handle_tagged(tag: MsgType, document: &serde_json::Value) -> (command: Command)
    ensures
        command@ == command_for(tag, json_model(*document)),
{
    match tag {
        MsgType::PING => handle_ping(),
        MsgType::LOG => match read_text(document, "log") {
            Some(log) => Command::Log(log),
            None => handle_invalid(),
        },
        MsgType::PANIC => match read_text(document, "log") {
            Some(log) => Command::Panic(log),
            None => handle_invalid(),
        },
        MsgType::OPEN_LINK => match read_text(document, "link") {
            Some(link) => Command::OpenLink(link),
            None => handle_invalid(),
        },
        MsgType::COPY_CLIPBOARD => match read_text(document, "value") {
            Some(value) => Command::CopyClipboard(value),
            None => handle_invalid(),
        },
        MsgType::SAVE_STATE => match read_text(document, "save") {
            Some(save) => Command::SaveState(save),
            None => handle_invalid(),
        },
        MsgType::RESTORE_STATE => Command::RestoreState,
        MsgType::SEND_HTTP => handle_send_http(document),
        MsgType::ADD_WS_CONNECTION | MsgType::ADD_TCP_CONNECTION | MsgType::ADD_UDP_CONNECTION => match read_text(
            document,
            "connection_id",
        ) {
            Some(id) => Command::Acknowledge(id),
            None => handle_invalid(),
        },
        _ => Command::Ignore,
    }
}

/// Says what to do for a parsed inbound document.
pub fn route(document: &serde_json::Value) -> (command: Command)
    ensures
        command@ == command_of(json_model(*document)),
{
    let name = match read_text(document, "msg_type") {
        Some(name) => name,
        None => {
            return handle_invalid();
        },
    };
    match MsgType::from_name(name.as_str()) {
        Some(tag) => handle_tagged(tag, document),
        None => handle_invalid(),
    }
}

/// Says what to do for the text of one inbound message.
pub fn process_message(text: &str) -> (command: Command)
    ensures
        command@ == command_of_text(text@),
{
    match parse_document(text) {
        Some(document) => route(&document),
        None => handle_invalid(),
    }
}

/// The reply that hands the persisted session document back.
pub fn handle_restore_state(save: String) -> (reply: String)
    ensures
        reply@ == restore_text(MsgType::RESTORE_STATE, save@),
{
    let message = RestoreStateMsg { msg_type: MsgType::RESTORE_STATE, save };
    encode_restore_state(&message)
}

} // verus!
