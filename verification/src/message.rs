//! The tags of the control-channel protocol and its simplest messages.

use crate::text::same_text;
use vstd::prelude::*;

verus! {

/// The discriminator that every control-channel message carries.
#[allow(non_camel_case_types)]
#[derive(Clone, Copy, Debug, PartialEq, Eq, Structural)]
pub enum MsgType {
    PING,
    LOG,
    PANIC,
    OPEN_LINK,
    COPY_CLIPBOARD,
    SAVE_STATE,
    SEND_HTTP,
    HTTP_RESPONSE,
    RESTORE_STATE,
    ADD_WS_CONNECTION,
    WS_CONNECTED,
    WS_DISCONNECTED,
    WS_MSG_SENT,
    WS_RECEIVED_MSG,
    WS_CONNECTION_FAILED,
    ADD_TCP_CONNECTION,
    TCP_CONNECTED,
    TCP_DISCONNECTED,
    TCP_MSG_SENT,
    TCP_RECEIVED_MSG,
    TCP_CONNECTION_FAILED,
    ADD_UDP_CONNECTION,
    UDP_CONNECTED,
    UDP_DISCONNECTED,
    UDP_MSG_SENT,
    UDP_RECEIVED_MSG,
    UDP_CONNECTION_FAILED,
}

/// The name under which a tag travels on the wire.
pub open spec fn tag_name(tag: MsgType) -> Seq<char> {
    match tag {
        MsgType::PING => "PING"@,
        MsgType::LOG => "LOG"@,
        MsgType::PANIC => "PANIC"@,
        MsgType::OPEN_LINK => "OPEN_LINK"@,
        MsgType::COPY_CLIPBOARD => "COPY_CLIPBOARD"@,
        MsgType::SAVE_STATE => "SAVE_STATE"@,
        MsgType::SEND_HTTP => "SEND_HTTP"@,
        MsgType::HTTP_RESPONSE => "HTTP_RESPONSE"@,
        MsgType::RESTORE_STATE => "RESTORE_STATE"@,
        MsgType::ADD_WS_CONNECTION => "ADD_WS_CONNECTION"@,
        MsgType::WS_CONNECTED => "WS_CONNECTED"@,
        MsgType::WS_DISCONNECTED => "WS_DISCONNECTED"@,
        MsgType::WS_MSG_SENT => "WS_MSG_SENT"@,
        MsgType::WS_RECEIVED_MSG => "WS_RECEIVED_MSG"@,
        MsgType::WS_CONNECTION_FAILED => "WS_CONNECTION_FAILED"@,
        MsgType::ADD_TCP_CONNECTION => "ADD_TCP_CONNECTION"@,
        MsgType::TCP_CONNECTED => "TCP_CONNECTED"@,
        MsgType::TCP_DISCONNECTED => "TCP_DISCONNECTED"@,
        MsgType::TCP_MSG_SENT => "TCP_MSG_SENT"@,
        MsgType::TCP_RECEIVED_MSG => "TCP_RECEIVED_MSG"@,
        MsgType::TCP_CONNECTION_FAILED => "TCP_CONNECTION_FAILED"@,
        MsgType::ADD_UDP_CONNECTION => "ADD_UDP_CONNECTION"@,
        MsgType::UDP_CONNECTED => "UDP_CONNECTED"@,
        MsgType::UDP_DISCONNECTED => "UDP_DISCONNECTED"@,
        MsgType::UDP_MSG_SENT => "UDP_MSG_SENT"@,
        MsgType::UDP_RECEIVED_MSG => "UDP_RECEIVED_MSG"@,
        MsgType::UDP_CONNECTION_FAILED => "UDP_CONNECTION_FAILED"@,
    }
}

/// The tag that a wire name stands for, if it is one.
pub open spec fn tag_named(name: Seq<char>) -> Option<MsgType> {
    if name == "PING"@ {
        Some(MsgType::PING)
    } else if name == "LOG"@ {
        Some(MsgType::LOG)
    } else if name == "PANIC"@ {
        Some(MsgType::PANIC)
    } else if name == "OPEN_LINK"@ {
        Some(MsgType::OPEN_LINK)
    } else if name == "COPY_CLIPBOARD"@ {
        Some(MsgType::COPY_CLIPBOARD)
    } else if name == "SAVE_STATE"@ {
        Some(MsgType::SAVE_STATE)
    } else if name == "SEND_HTTP"@ {
        Some(MsgType::SEND_HTTP)
    } else if name == "HTTP_RESPONSE"@ {
        Some(MsgType::HTTP_RESPONSE)
    } else if name == "RESTORE_STATE"@ {
        Some(MsgType::RESTORE_STATE)
    } else if name == "ADD_WS_CONNECTION"@ {
        Some(MsgType::ADD_WS_CONNECTION)
    } else if name == "WS_CONNECTED"@ {
        Some(MsgType::WS_CONNECTED)
    } else if name == "WS_DISCONNECTED"@ {
        Some(MsgType::WS_DISCONNECTED)
    } else if name == "WS_MSG_SENT"@ {
        Some(MsgType::WS_MSG_SENT)
    } else if name == "WS_RECEIVED_MSG"@ {
        Some(MsgType::WS_RECEIVED_MSG)
    } else if name == "WS_CONNECTION_FAILED"@ {
        Some(MsgType::WS_CONNECTION_FAILED)
    } else if name == "ADD_TCP_CONNECTION"@ {
        Some(MsgType::ADD_TCP_CONNECTION)
    } else if name == "TCP_CONNECTED"@ {
        Some(MsgType::TCP_CONNECTED)
    } else if name == "TCP_DISCONNECTED"@ {
        Some(MsgType::TCP_DISCONNECTED)
    } else if name == "TCP_MSG_SENT"@ {
        Some(MsgType::TCP_MSG_SENT)
    } else if name == "TCP_RECEIVED_MSG"@ {
        Some(MsgType::TCP_RECEIVED_MSG)
    } else if name == "TCP_CONNECTION_FAILED"@ {
        Some(MsgType::TCP_CONNECTION_FAILED)
    } else if name == "ADD_UDP_CONNECTION"@ {
        Some(MsgType::ADD_UDP_CONNECTION)
    } else if name == "UDP_CONNECTED"@ {
        Some(MsgType::UDP_CONNECTED)
    } else if name == "UDP_DISCONNECTED"@ {
        Some(MsgType::UDP_DISCONNECTED)
    } else if name == "UDP_MSG_SENT"@ {
        Some(MsgType::UDP_MSG_SENT)
    } else if name == "UDP_RECEIVED_MSG"@ {
        Some(MsgType::UDP_RECEIVED_MSG)
    } else if name == "UDP_CONNECTION_FAILED"@ {
        Some(MsgType::UDP_CONNECTION_FAILED)
    } else {
        None
    }
}

impl MsgType {
    /// The wire name of the tag.
    pub fn name(&self) -> (name: &'static str)
        ensures
            name@ == tag_name(*self),
    {
        match self {
            MsgType::PING => "PING",
            MsgType::LOG => "LOG",
            MsgType::PANIC => "PANIC",
            MsgType::OPEN_LINK => "OPEN_LINK",
            MsgType::COPY_CLIPBOARD => "COPY_CLIPBOARD",
            MsgType::SAVE_STATE => "SAVE_STATE",
            MsgType::SEND_HTTP => "SEND_HTTP",
            MsgType::HTTP_RESPONSE => "HTTP_RESPONSE",
            MsgType::RESTORE_STATE => "RESTORE_STATE",
            MsgType::ADD_WS_CONNECTION => "ADD_WS_CONNECTION",
            MsgType::WS_CONNECTED => "WS_CONNECTED",
            MsgType::WS_DISCONNECTED => "WS_DISCONNECTED",
            MsgType::WS_MSG_SENT => "WS_MSG_SENT",
            MsgType::WS_RECEIVED_MSG => "WS_RECEIVED_MSG",
            MsgType::WS_CONNECTION_FAILED => "WS_CONNECTION_FAILED",
            MsgType::ADD_TCP_CONNECTION => "ADD_TCP_CONNECTION",
            MsgType::TCP_CONNECTED => "TCP_CONNECTED",
            MsgType::TCP_DISCONNECTED => "TCP_DISCONNECTED",
            MsgType::TCP_MSG_SENT => "TCP_MSG_SENT",
            MsgType::TCP_RECEIVED_MSG => "TCP_RECEIVED_MSG",
            MsgType::TCP_CONNECTION_FAILED => "TCP_CONNECTION_FAILED",
            MsgType::ADD_UDP_CONNECTION => "ADD_UDP_CONNECTION",
            MsgType::UDP_CONNECTED => "UDP_CONNECTED",
            MsgType::UDP_DISCONNECTED => "UDP_DISCONNECTED",
            MsgType::UDP_MSG_SENT => "UDP_MSG_SENT",
            MsgType::UDP_RECEIVED_MSG => "UDP_RECEIVED_MSG",
            MsgType::UDP_CONNECTION_FAILED => "UDP_CONNECTION_FAILED",
        }
    }

    /// Recognises a wire name; any other text is no tag.
    pub fn from_name(name: &str) -> (tag: Option<MsgType>)
        ensures
            tag == tag_named(name@),
    {
        if same_text(name, "PING") {
            Some(MsgType::PING)
        } else if same_text(name, "LOG") {
            Some(MsgType::LOG)
        } else if same_text(name, "PANIC") {
            Some(MsgType::PANIC)
        } else if same_text(name, "OPEN_LINK") {
            Some(MsgType::OPEN_LINK)
        } else if same_text(name, "COPY_CLIPBOARD") {
            Some(MsgType::COPY_CLIPBOARD)
        } else if same_text(name, "SAVE_STATE") {
            Some(MsgType::SAVE_STATE)
        } else if same_text(name, "SEND_HTTP") {
            Some(MsgType::SEND_HTTP)
        } else if same_text(name, "HTTP_RESPONSE") {
            Some(MsgType::HTTP_RESPONSE)
        } else if same_text(name, "RESTORE_STATE") {
            Some(MsgType::RESTORE_STATE)
        } else if same_text(name, "ADD_WS_CONNECTION") {
            Some(MsgType::ADD_WS_CONNECTION)
        } else if same_text(name, "WS_CONNECTED") {
            Some(MsgType::WS_CONNECTED)
        } else if same_text(name, "WS_DISCONNECTED") {
            Some(MsgType::WS_DISCONNECTED)
        } else if same_text(name, "WS_MSG_SENT") {
            Some(MsgType::WS_MSG_SENT)
        } else if same_text(name, "WS_RECEIVED_MSG") {
            Some(MsgType::WS_RECEIVED_MSG)
        } else if same_text(name, "WS_CONNECTION_FAILED") {
            Some(MsgType::WS_CONNECTION_FAILED)
        } else if same_text(name, "ADD_TCP_CONNECTION") {
            Some(MsgType::ADD_TCP_CONNECTION)
        } else if same_text(name, "TCP_CONNECTED") {
            Some(MsgType::TCP_CONNECTED)
        } else if same_text(name, "TCP_DISCONNECTED") {
            Some(MsgType::TCP_DISCONNECTED)
        } else if same_text(name, "TCP_MSG_SENT") {
            Some(MsgType::TCP_MSG_SENT)
        } else if same_text(name, "TCP_RECEIVED_MSG") {
            Some(MsgType::TCP_RECEIVED_MSG)
        } else if same_text(name, "TCP_CONNECTION_FAILED") {
            Some(MsgType::TCP_CONNECTION_FAILED)
        } else if same_text(name, "ADD_UDP_CONNECTION") {
            Some(MsgType::ADD_UDP_CONNECTION)
        } else if same_text(name, "UDP_CONNECTED") {
            Some(MsgType::UDP_CONNECTED)
        } else if same_text(name, "UDP_DISCONNECTED") {
            Some(MsgType::UDP_DISCONNECTED)
        } else if same_text(name, "UDP_MSG_SENT") {
            Some(MsgType::UDP_MSG_SENT)
        } else if same_text(name, "UDP_RECEIVED_MSG") {
            Some(MsgType::UDP_RECEIVED_MSG)
        } else if same_text(name, "UDP_CONNECTION_FAILED") {
            Some(MsgType::UDP_CONNECTION_FAILED)
        } else {
            None
        }
    }
}

/// Every tag is recognised under its own wire name: no two names are the
/// same text, as their lengths and a few of their characters show.
pub proof fn lemma_tag_name_round_trip(tag: MsgType)
    ensures
        tag_named(tag_name(tag)) == Some(tag),
{
    reveal_strlit("PING");
    reveal_strlit("LOG");
    reveal_strlit("PANIC");
    reveal_strlit("OPEN_LINK");
    reveal_strlit("COPY_CLIPBOARD");
    reveal_strlit("SAVE_STATE");
    reveal_strlit("SEND_HTTP");
    reveal_strlit("HTTP_RESPONSE");
    reveal_strlit("RESTORE_STATE");
    reveal_strlit("ADD_WS_CONNECTION");
    reveal_strlit("WS_CONNECTED");
    reveal_strlit("WS_DISCONNECTED");
    reveal_strlit("WS_MSG_SENT");
    reveal_strlit("WS_RECEIVED_MSG");
    reveal_strlit("WS_CONNECTION_FAILED");
    reveal_strlit("ADD_TCP_CONNECTION");
    reveal_strlit("TCP_CONNECTED");
    reveal_strlit("TCP_DISCONNECTED");
    reveal_strlit("TCP_MSG_SENT");
    reveal_strlit("TCP_RECEIVED_MSG");
    reveal_strlit("TCP_CONNECTION_FAILED");
    reveal_strlit("ADD_UDP_CONNECTION");
    reveal_strlit("UDP_CONNECTED");
    reveal_strlit("UDP_DISCONNECTED");
    reveal_strlit("UDP_MSG_SENT");
    reveal_strlit("UDP_RECEIVED_MSG");
    reveal_strlit("UDP_CONNECTION_FAILED");
    assert("PING"@.len() == 4);
    assert("LOG"@.len() == 3);
    assert("PANIC"@.len() == 5 && "PANIC"@[0] == 'P' && "PANIC"@[4] == 'C'
        && "PANIC"@[4] == 'C');
    assert("OPEN_LINK"@.len() == 9 && "OPEN_LINK"@[0] == 'O' && "OPEN_LINK"@[4] == '_'
        && "OPEN_LINK"@[8] == 'K');
    assert("COPY_CLIPBOARD"@.len() == 14 && "COPY_CLIPBOARD"@[0] == 'C' && "COPY_CLIPBOARD"@[4] == '_'
        && "COPY_CLIPBOARD"@[13] == 'D');
    assert("SAVE_STATE"@.len() == 10 && "SAVE_STATE"@[0] == 'S' && "SAVE_STATE"@[4] == '_'
        && "SAVE_STATE"@[9] == 'E');
    assert("SEND_HTTP"@.len() == 9 && "SEND_HTTP"@[0] == 'S' && "SEND_HTTP"@[4] == '_'
        && "SEND_HTTP"@[8] == 'P');
    assert("HTTP_RESPONSE"@.len() == 13 && "HTTP_RESPONSE"@[0] == 'H' && "HTTP_RESPONSE"@[4] == '_'
        && "HTTP_RESPONSE"@[12] == 'E');
    assert("RESTORE_STATE"@.len() == 13 && "RESTORE_STATE"@[0] == 'R' && "RESTORE_STATE"@[4] == 'O'
        && "RESTORE_STATE"@[12] == 'E');
    assert("ADD_WS_CONNECTION"@.len() == 17 && "ADD_WS_CONNECTION"@[0] == 'A' && "ADD_WS_CONNECTION"@[4] == 'W'
        && "ADD_WS_CONNECTION"@[16] == 'N');
    assert("WS_CONNECTED"@.len() == 12 && "WS_CONNECTED"@[0] == 'W' && "WS_CONNECTED"@[4] == 'O'
        && "WS_CONNECTED"@[11] == 'D');
    assert("WS_DISCONNECTED"@.len() == 15 && "WS_DISCONNECTED"@[0] == 'W' && "WS_DISCONNECTED"@[4] == 'I'
        && "WS_DISCONNECTED"@[14] == 'D');
    assert("WS_MSG_SENT"@.len() == 11 && "WS_MSG_SENT"@[0] == 'W' && "WS_MSG_SENT"@[4] == 'S'
        && "WS_MSG_SENT"@[10] == 'T');
    assert("WS_RECEIVED_MSG"@.len() == 15 && "WS_RECEIVED_MSG"@[0] == 'W' && "WS_RECEIVED_MSG"@[4] == 'E'
        && "WS_RECEIVED_MSG"@[14] == 'G');
    assert("WS_CONNECTION_FAILED"@.len() == 20 && "WS_CONNECTION_FAILED"@[0] == 'W' && "WS_CONNECTION_FAILED"@[4] == 'O'
        && "WS_CONNECTION_FAILED"@[19] == 'D');
    assert("ADD_TCP_CONNECTION"@.len() == 18 && "ADD_TCP_CONNECTION"@[0] == 'A' && "ADD_TCP_CONNECTION"@[4] == 'T'
        && "ADD_TCP_CONNECTION"@[17] == 'N');
    assert("TCP_CONNECTED"@.len() == 13 && "TCP_CONNECTED"@[0] == 'T' && "TCP_CONNECTED"@[4] == 'C'
        && "TCP_CONNECTED"@[12] == 'D');
    assert("TCP_DISCONNECTED"@.len() == 16 && "TCP_DISCONNECTED"@[0] == 'T' && "TCP_DISCONNECTED"@[4] == 'D'
        && "TCP_DISCONNECTED"@[15] == 'D');
    assert("TCP_MSG_SENT"@.len() == 12 && "TCP_MSG_SENT"@[0] == 'T' && "TCP_MSG_SENT"@[4] == 'M'
        && "TCP_MSG_SENT"@[11] == 'T');
    assert("TCP_RECEIVED_MSG"@.len() == 16 && "TCP_RECEIVED_MSG"@[0] == 'T' && "TCP_RECEIVED_MSG"@[4] == 'R'
        && "TCP_RECEIVED_MSG"@[15] == 'G');
    assert("TCP_CONNECTION_FAILED"@.len() == 21 && "TCP_CONNECTION_FAILED"@[0] == 'T' && "TCP_CONNECTION_FAILED"@[4] == 'C'
        && "TCP_CONNECTION_FAILED"@[20] == 'D');
    assert("ADD_UDP_CONNECTION"@.len() == 18 && "ADD_UDP_CONNECTION"@[0] == 'A' && "ADD_UDP_CONNECTION"@[4] == 'U'
        && "ADD_UDP_CONNECTION"@[17] == 'N');
    assert("UDP_CONNECTED"@.len() == 13 && "UDP_CONNECTED"@[0] == 'U' && "UDP_CONNECTED"@[4] == 'C'
        && "UDP_CONNECTED"@[12] == 'D');
    assert("UDP_DISCONNECTED"@.len() == 16 && "UDP_DISCONNECTED"@[0] == 'U' && "UDP_DISCONNECTED"@[4] == 'D'
        && "UDP_DISCONNECTED"@[15] == 'D');
    assert("UDP_MSG_SENT"@.len() == 12 && "UDP_MSG_SENT"@[0] == 'U' && "UDP_MSG_SENT"@[4] == 'M'
        && "UDP_MSG_SENT"@[11] == 'T');
    assert("UDP_RECEIVED_MSG"@.len() == 16 && "UDP_RECEIVED_MSG"@[0] == 'U' && "UDP_RECEIVED_MSG"@[4] == 'R'
        && "UDP_RECEIVED_MSG"@[15] == 'G');
    assert("UDP_CONNECTION_FAILED"@.len() == 21 && "UDP_CONNECTION_FAILED"@[0] == 'U' && "UDP_CONNECTION_FAILED"@[4] == 'C'
        && "UDP_CONNECTION_FAILED"@[20] == 'D');
}

/// The part of any inbound message that is read first: its tag.
pub struct ReceivedMessage {
    pub msg_type: MsgType,
}

/// The health check and its reply.
pub struct PingMsg {
    pub msg_type: MsgType,
    pub body: String,
}

/// A line for the backend's log.
pub struct LogMsg {
    pub msg_type: MsgType,
    pub log: String,
}

/// A client-side failure, reported for the backend's log.
pub struct PanicMsg {
    pub msg_type: MsgType,
    pub log: String,
}

/// A link to open in the default browser.
pub struct OpenLinkMsg {
    pub msg_type: MsgType,
    pub link: String,
}

/// A text to put on the clipboard.
pub struct CopyClipboardMsg {
    pub msg_type: MsgType,
    pub value: String,
}

/// The persisted session document, handed back to the client.
pub struct RestoreStateMsg {
    pub msg_type: MsgType,
    pub save: String,
}

/// The client's full session document, to persist and adopt.
pub struct SaveStateMsg {
    pub msg_type: MsgType,
    pub save: String,
}

} // verus!
