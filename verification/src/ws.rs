//! WebSocket connections: the descriptor that the client declares, the
//! text messages that travel over it, and the transitions that its worker
//! applies.

use crate::http::{blank_table, is_blank_table};
use crate::ids::{is_short_id, short_id};
use crate::message::MsgType;
use crate::worker::{action_for, flags_settled, WorkerAction};
use vstd::prelude::*;
use vstd::string::StringExecFns;

verus! {

/// The direction of a message.
#[derive(Clone, Copy, Debug, PartialEq, Eq, Structural)]
pub enum WsMsgType {
    IN,
    OUT,
}

/// One text message of a WebSocket connection.
#[derive(Debug)]
pub struct WsMessage {
    pub txt: String,
    pub timestamp: u64,
    pub msg_id: String,
    pub msg_type: WsMsgType,
}

/// What a message holds, as plain values.
pub struct WsMessageView {
    pub txt: Seq<char>,
    pub timestamp: u64,
    pub msg_id: Seq<char>,
    pub msg_type: WsMsgType,
}

impl View for WsMessage {
    type V = WsMessageView;

    open spec fn view(&self) -> WsMessageView {
        WsMessageView {
            txt: self.txt@,
            timestamp: self.timestamp,
            msg_id: self.msg_id@,
            msg_type: self.msg_type,
        }
    }
}

/// What a list of messages holds, in order.
pub open spec fn ws_views(messages: Seq<WsMessage>) -> Seq<WsMessageView> {
    messages.map_values(|m: WsMessage| m@)
}

/// A message as it is recorded once it has been written to the peer:
/// the same message, stamped and marked outbound.
pub open spec fn ws_sent_form(pending: WsMessageView, timestamp: u64) -> WsMessageView {
    WsMessageView { txt: pending.txt, timestamp, msg_id: pending.msg_id, msg_type: WsMsgType::OUT }
}

/// A message as it is recorded when it arrived from the peer.
pub open spec fn ws_received_form(txt: Seq<char>, msg_id: Seq<char>, timestamp: u64) -> WsMessageView {
    WsMessageView { txt, timestamp, msg_id, msg_type: WsMsgType::IN }
}

impl WsMessage {
    /// An empty outbound message with a fresh id.
    pub fn new() -> (message: WsMessage)
        ensures
            message.txt@.len() == 0,
            message.timestamp == 0,
            is_short_id(message.msg_id@),
            message.msg_type == WsMsgType::OUT,
    {
        WsMessage {
            txt: String::new(),
            timestamp: 0,
            msg_id: short_id(),
            msg_type: WsMsgType::OUT,
        }
    }

    /// A second copy of the message.
    pub fn duplicate(&self) -> (copy: WsMessage)
        ensures
            copy@ == self@,
    {
        WsMessage {
            txt: self.txt.clone(),
            timestamp: self.timestamp,
            msg_id: self.msg_id.clone(),
            msg_type: self.msg_type,
        }
    }
}

/// A WebSocket connection as the client declares it and the worker updates it.
#[derive(Debug)]
pub struct WsConnection {
    pub connection_id: String,
    pub url: String,
    pub name: String,
    pub out_tab: u8,
    pub in_tab: u8,
    pub connecting: bool,
    pub disconnecting: bool,
    pub failed: bool,
    pub failed_reason: String,
    pub connected: bool,
    pub out_buffer: String,
    pub out_queue: Vec<WsMessage>,
    pub out_headers: Vec<Vec<String>>,
    pub out_params: Vec<Vec<String>>,
    pub in_queue: Vec<WsMessage>,
    pub msg_history: Vec<WsMessage>,
}

/// The client's notice that it added a connection.
pub struct AddWsConnectionMsg {
    pub msg_type: MsgType,
    pub connection_id: String,
}

/// The event that a connection is up.
pub struct WsConnectedMsg {
    pub msg_type: MsgType,
    pub connection_id: String,
}

/// The event that a connection was closed.
pub struct WsDisconnectedMsg {
    pub msg_type: MsgType,
    pub connection_id: String,
}

/// The event that a pending message was written to the peer.
pub struct WsSentMsg {
    pub msg_type: MsgType,
    pub connection_id: String,
    pub msg: WsMessage,
}

/// The event that a message arrived from the peer.
pub struct WsReceivedMsg {
    pub msg_type: MsgType,
    pub connection_id: String,
    pub msg: WsMessage,
}

/// The event that a connect attempt failed, with the error's text.
pub struct WsConnectionFailedMsg {
    pub msg_type: MsgType,
    pub connection_id: String,
    pub reason: String,
}

/// The connection after its transport was closed.
pub open spec fn ws_after_disconnect(before: WsConnection) -> WsConnection {
    WsConnection { connecting: false, connected: false, disconnecting: false, ..before }
}

/// The connection after a connect attempt succeeded.
pub open spec fn ws_after_connect(before: WsConnection) -> WsConnection {
    WsConnection { connecting: false, connected: true, failed: false, ..before }
}

/// The connection after a connect attempt failed for the given reason.
pub open spec fn ws_after_failure(before: WsConnection, reason: String) -> WsConnection {
    WsConnection { connecting: false, failed: true, failed_reason: reason, ..before }
}

/// Whether the flags of a connection are settled.
pub open spec fn ws_settled(c: WsConnection) -> bool {
    flags_settled(c.connecting, c.disconnecting, c.connected, c.failed)
}

/// What the flags of a connection call for.
pub open spec fn ws_action(c: WsConnection) -> WorkerAction {
    action_for(c.connecting, c.disconnecting, c.connected)
}

/// Every transition that a worker applies on the step that calls for it
/// leaves the flags settled.
pub proof fn lemma_ws_transitions_settle(before: WsConnection, reason: String)
    ensures
        ws_settled(ws_after_disconnect(before)),
        ws_action(before) == WorkerAction::Connect ==> ws_settled(ws_after_connect(before)),
        ws_action(before) == WorkerAction::Connect ==> ws_settled(ws_after_failure(before, reason)),
{
}

/// How a connection changes when a message from the peer is recorded:
/// it joins the end of the history; nothing else changes.
pub open spec fn ws_received_step(
    before: WsConnection,
    after: WsConnection,
    received: WsMessageView,
) -> bool {
    &&& after.msg_history@.len() == before.msg_history@.len() + 1
    &&& after.msg_history@.drop_last() == before.msg_history@
    &&& after.msg_history@.last()@ == received
    &&& after == (WsConnection { msg_history: after.msg_history, ..before })
}

/// How a connection changes when its oldest pending message has been
/// written at `timestamp`: the message leaves the queue and its sent form
/// joins the end of the history; nothing else changes.
pub open spec fn ws_sent_step(before: WsConnection, after: WsConnection, timestamp: u64) -> bool {
    &&& before.out_queue@.len() > 0
    &&& after.out_queue@ == before.out_queue@.skip(1)
    &&& after.msg_history@.len() == before.msg_history@.len() + 1
    &&& after.msg_history@.drop_last() == before.msg_history@
    &&& after.msg_history@.last()@ == ws_sent_form(before.out_queue@[0]@, timestamp)
    &&& after == (WsConnection {
        out_queue: after.out_queue,
        msg_history: after.msg_history,
        ..before
    })
}

/// The sent forms of the first `stamps.len()` messages of a queue, each
/// with its own time stamp.
pub open spec fn ws_sent_forms(queue: Seq<WsMessage>, stamps: Seq<u64>) -> Seq<WsMessageView> {
    Seq::new(stamps.len(), |i: int| ws_sent_form(queue[i]@, stamps[i]))
}

/// First in, first out: when pending messages are written one after the
/// other, the message written at each step is the next of the queue
/// as it first was, and the history grows by their sent forms in that same
/// order.
pub proof fn lemma_ws_fifo(states: Seq<WsConnection>, stamps: Seq<u64>)
    requires
        states.len() == stamps.len() + 1,
        forall|i: int| 0 <= i < stamps.len() ==> ws_sent_step(#[trigger] states[i], states[i + 1], stamps[i]),
    ensures
        stamps.len() <= states[0].out_queue@.len(),
        forall|i: int| 0 <= i < stamps.len() ==> (#[trigger] states[i]).out_queue@[0] == states[0].out_queue@[i],
        states.last().out_queue@ == states[0].out_queue@.skip(stamps.len() as int),
        ws_views(states.last().msg_history@) == ws_views(states[0].msg_history@) + ws_sent_forms(
            states[0].out_queue@,
            stamps,
        ),
    decreases stamps.len(),
{
    let n = stamps.len() as int;
    if n == 0 {
        assert(states[0].out_queue@.skip(0) =~= states[0].out_queue@);
        assert(ws_views(states[0].msg_history@) + ws_sent_forms(states[0].out_queue@, stamps)
            =~= ws_views(states[0].msg_history@));
    } else {
        let front = states.drop_last();
        let early = stamps.drop_last();
        assert forall|i: int| 0 <= i < early.len() implies ws_sent_step(
            #[trigger] front[i],
            front[i + 1],
            early[i],
        ) by {
            assert(ws_sent_step(states[i], states[i + 1], stamps[i]));
        }
        lemma_ws_fifo(front, early);
        let first = states[0];
        let prev = states[n - 1];
        let last = states[n];
        assert(ws_sent_step(prev, last, stamps[n - 1]));
        assert(prev == front.last());
        assert(prev.out_queue@ == first.out_queue@.skip(n - 1));
        assert(prev.out_queue@[0] == first.out_queue@[n - 1]);
        assert(last.out_queue@ =~= first.out_queue@.skip(n));
        assert(last.msg_history@ =~= prev.msg_history@.push(last.msg_history@.last()));
        assert(ws_views(last.msg_history@) =~= ws_views(prev.msg_history@).push(
            last.msg_history@.last()@,
        ));
        assert(ws_sent_forms(first.out_queue@, stamps) =~= ws_sent_forms(first.out_queue@, early).push(
            ws_sent_form(first.out_queue@[n - 1]@, stamps[n - 1]),
        ));
        assert forall|i: int| 0 <= i < stamps.len() implies (#[trigger] states[i]).out_queue@[0]
            == states[0].out_queue@[i] by {
            if i < n - 1 {
                assert(states[i] == front[i]);
            }
        }
    }
}

/// An idle connection with nothing queued, nothing recorded, no address
/// and the blank header and parameter tables.
pub open spec fn ws_is_fresh(c: WsConnection) -> bool {
    &&& is_short_id(c.connection_id@)
    &&& c.url@.len() == 0
    &&& c.name@ == "Ws connection "@
    &&& c.out_tab == 1
    &&& c.in_tab == 1
    &&& !c.connecting
    &&& !c.disconnecting
    &&& !c.failed
    &&& c.failed_reason@.len() == 0
    &&& !c.connected
    &&& c.out_buffer@.len() == 0
    &&& c.out_queue@.len() == 0
    &&& is_blank_table(c.out_headers@)
    &&& is_blank_table(c.out_params@)
    &&& c.in_queue@.len() == 0
    &&& c.msg_history@.len() == 0
}

impl WsConnection {
    /// An idle connection with a fresh id, no address and nothing queued.
    pub fn new() -> (connection: WsConnection)
        ensures
            ws_is_fresh(connection),
    {
        WsConnection {
            connection_id: short_id(),
            url: String::new(),
            name: String::from_str("Ws connection "),
            out_tab: 1,
            in_tab: 1,
            connecting: false,
            disconnecting: false,
            failed: false,
            failed_reason: String::new(),
            connected: false,
            out_buffer: String::new(),
            out_queue: Vec::new(),
            out_headers: blank_table(),
            out_params: blank_table(),
            in_queue: Vec::new(),
            msg_history: Vec::new(),
        }
    }

    /// The transport was closed: clears `connecting`, `connected` and
    /// `disconnecting`, and reports the disconnect.
    pub fn complete_disconnect(&mut self) -> (event: WsDisconnectedMsg)
        ensures
            *final(self) == ws_after_disconnect(*old(self)),
            event.msg_type == MsgType::WS_DISCONNECTED,
            event.connection_id == old(self).connection_id,
    {
        self.connecting = false;
        self.connected = false;
        self.disconnecting = false;
        WsDisconnectedMsg {
            msg_type: MsgType::WS_DISCONNECTED,
            connection_id: self.connection_id.clone(),
        }
    }

    /// The connect attempt succeeded: clears `connecting` and `failed`,
    /// sets `connected`, and reports the connection.
    pub fn connect_succeeded(&mut self) -> (event: WsConnectedMsg)
        ensures
            *final(self) == ws_after_connect(*old(self)),
            event.msg_type == MsgType::WS_CONNECTED,
            event.connection_id == old(self).connection_id,
    {
        self.connecting = false;
        self.connected = true;
        self.failed = false;
        WsConnectedMsg {
            msg_type: MsgType::WS_CONNECTED,
            connection_id: self.connection_id.clone(),
        }
    }

    /// The connect attempt failed: clears `connecting`, sets `failed` with
    /// the error's text as the reason, and reports the failure. Nothing
    /// is retried.
    pub fn connect_failed(&mut self, reason: String) -> (event: WsConnectionFailedMsg)
        ensures
            *final(self) == ws_after_failure(*old(self), reason),
            event.msg_type == MsgType::WS_CONNECTION_FAILED,
            event.connection_id == old(self).connection_id,
            event.reason == reason,
    {
        let event = WsConnectionFailedMsg {
            msg_type: MsgType::WS_CONNECTION_FAILED,
            connection_id: self.connection_id.clone(),
            reason: reason.clone(),
        };
        self.connecting = false;
        self.failed = true;
        self.failed_reason = reason;
        event
    }

    /// The message that is written next: the oldest pending one.
    pub fn next_outbound(&self) -> (pending: Option<&WsMessage>)
        ensures
            self.out_queue@.len() == 0 ==> pending is None,
            self.out_queue@.len() > 0 ==> pending == Some(&self.out_queue@[0]),
    {
        if self.out_queue.len() == 0 {
            None
        } else {
            Some(&self.out_queue[0])
        }
    }

    /// The oldest pending message was written to the peer: takes it off
    /// the queue, appends its sent form to the history and reports it.
    /// With nothing pending, nothing changes and nothing is reported.
    pub fn commit_sent(&mut self, timestamp: u64) -> (event: Option<WsSentMsg>)
        ensures
            old(self).out_queue@.len() == 0 ==> event is None && *final(self) == *old(self),
            old(self).out_queue@.len() > 0 ==> {
                &&& event is Some
                &&& event.unwrap().msg_type == MsgType::WS_MSG_SENT
                &&& event.unwrap().connection_id == old(self).connection_id
                &&& event.unwrap().msg@ == ws_sent_form(old(self).out_queue@[0]@, timestamp)
                &&& ws_sent_step(*old(self), *final(self), timestamp)
            },
    {
        if self.out_queue.len() == 0 {
            return None;
        }
        let pending = self.out_queue.remove(0);
        assert(self.out_queue@ =~= old(self).out_queue@.skip(1));
        let sent = WsMessage {
            txt: pending.txt,
            timestamp,
            msg_id: pending.msg_id,
            msg_type: WsMsgType::OUT,
        };
        assert(sent@ == ws_sent_form(old(self).out_queue@[0]@, timestamp));
        let event = WsSentMsg {
            msg_type: MsgType::WS_MSG_SENT,
            connection_id: self.connection_id.clone(),
            msg: sent.duplicate(),
        };
        self.msg_history.push(sent);
        assert(self.msg_history@.drop_last() =~= old(self).msg_history@);
        Some(event)
    }

    /// A message arrived from the peer and was given the id `msg_id`:
    /// appends it to the history and reports it.
    pub fn record_received(&mut self, txt: String, msg_id: String, timestamp: u64) -> (event:
        WsReceivedMsg)
        ensures
            event.msg_type == MsgType::WS_RECEIVED_MSG,
            event.connection_id == old(self).connection_id,
            event.msg@ == ws_received_form(txt@, msg_id@, timestamp),
            ws_received_step(
                *old(self),
                *final(self),
                ws_received_form(txt@, msg_id@, timestamp),
            ),
    {
        let received = WsMessage { txt, timestamp, msg_id, msg_type: WsMsgType::IN };
        let event = WsReceivedMsg {
            msg_type: MsgType::WS_RECEIVED_MSG,
            connection_id: self.connection_id.clone(),
            msg: received.duplicate(),
        };
        self.msg_history.push(received);
        assert(self.msg_history@.drop_last() =~= old(self).msg_history@);
        event
    }
}

} // verus!
