//! UDP connections: the descriptor that the client declares, the datagrams
//! that travel over it, and the transitions that its worker applies.

use crate::http::{blank_table, is_blank_table};
use crate::ids::{is_short_id, short_id};
use crate::message::MsgType;
use crate::worker::{action_for, flags_settled, WorkerAction};
use vstd::prelude::*;
use vstd::string::StringExecFns;

verus! {

/// The direction of a message.
#[derive(Clone, Copy, Debug, PartialEq, Eq, Structural)]
pub enum UdpMsgType {
    IN,
    OUT,
}

/// One datagram of a UDP connection, with the address of the other side.
#[derive(Debug)]
pub struct UdpMessage {
    pub data: Vec<u8>,
    pub timestamp: u64,
    pub msg_id: String,
    pub msg_type: UdpMsgType,
    pub peer_address: String,
}

/// What a message holds, as plain values.
pub struct UdpMessageView {
    pub data: Seq<u8>,
    pub timestamp: u64,
    pub msg_id: Seq<char>,
    pub msg_type: UdpMsgType,
    pub peer_address: Seq<char>,
}

impl View for UdpMessage {
    type V = UdpMessageView;

    open spec fn view(&self) -> UdpMessageView {
        UdpMessageView {
            data: self.data@,
            timestamp: self.timestamp,
            msg_id: self.msg_id@,
            msg_type: self.msg_type,
            peer_address: self.peer_address@,
        }
    }
}

/// What a list of messages holds, in order.
pub open spec fn udp_views(messages: Seq<UdpMessage>) -> Seq<UdpMessageView> {
    messages.map_values(|m: UdpMessage| m@)
}

/// A datagram as it is recorded once it has been sent: the same
/// datagram, stamped and marked outbound.
pub open spec fn udp_sent_form(pending: UdpMessageView, timestamp: u64) -> UdpMessageView {
    UdpMessageView {
        data: pending.data,
        timestamp,
        msg_id: pending.msg_id,
        msg_type: UdpMsgType::OUT,
        peer_address: pending.peer_address,
    }
}

/// A datagram as it is recorded when it arrived, with its sender.
pub open spec fn udp_received_form(
    data: Seq<u8>,
    peer_address: Seq<char>,
    msg_id: Seq<char>,
    timestamp: u64,
) -> UdpMessageView {
    UdpMessageView { data, timestamp, msg_id, msg_type: UdpMsgType::IN, peer_address }
}

impl UdpMessage {
    /// An empty outbound message with a fresh id.
    pub fn new() -> (message: UdpMessage)
        ensures
            message.data@.len() == 0,
            message.timestamp == 0,
            is_short_id(message.msg_id@),
            message.msg_type == UdpMsgType::OUT,
            message.peer_address@.len() == 0,
    {
        UdpMessage {
            data: Vec::new(),
            timestamp: 0,
            msg_id: short_id(),
            msg_type: UdpMsgType::OUT,
            peer_address: String::new(),
        }
    }

    /// A second copy of the message.
    pub fn duplicate(&self) -> (copy: UdpMessage)
        ensures
            copy@ == self@,
    {
        UdpMessage {
            data: self.data.clone(),
            timestamp: self.timestamp,
            msg_id: self.msg_id.clone(),
            msg_type: self.msg_type,
            peer_address: self.peer_address.clone(),
        }
    }
}

/// A UDP connection as the client declares it and the worker updates it.
#[derive(Debug)]
pub struct UdpConnection {
    pub connection_id: String,
    pub host_address: String,
    pub peer_address: String,
    pub name: String,
    pub out_tab: u8,
    pub in_tab: u8,
    pub connecting: bool,
    pub disconnecting: bool,
    pub failed: bool,
    pub failed_reason: String,
    pub connected: bool,
    pub out_data_buffer: String,
    pub out_queue: Vec<UdpMessage>,
    pub out_headers: Vec<Vec<String>>,
    pub out_params: Vec<Vec<String>>,
    pub in_queue: Vec<UdpMessage>,
    pub msg_history: Vec<UdpMessage>,
}

/// The client's notice that it added a connection.
pub struct AddUdpConnectionMsg {
    pub msg_type: MsgType,
    pub connection_id: String,
}

/// The event that a connection is up.
pub struct UdpConnectedMsg {
    pub msg_type: MsgType,
    pub connection_id: String,
}

/// The event that a connection was closed.
pub struct UdpDisconnectedMsg {
    pub msg_type: MsgType,
    pub connection_id: String,
}

/// The event that a pending message was written to the peer.
pub struct UdpSentMsg {
    pub msg_type: MsgType,
    pub connection_id: String,
    pub msg: UdpMessage,
}

/// The event that a message arrived from the peer.
pub struct UdpReceivedMsg {
    pub msg_type: MsgType,
    pub connection_id: String,
    pub msg: UdpMessage,
}

/// The event that a connect attempt failed, with the error's text.
pub struct UdpConnectionFailedMsg {
    pub msg_type: MsgType,
    pub connection_id: String,
    pub reason: String,
}

/// The connection after its transport was closed.
pub open spec fn udp_after_disconnect(before: UdpConnection) -> UdpConnection {
    UdpConnection { connecting: false, connected: false, disconnecting: false, ..before }
}

/// The connection after a connect attempt succeeded.
pub open spec fn udp_after_connect(before: UdpConnection) -> UdpConnection {
    UdpConnection { connecting: false, connected: true, failed: false, ..before }
}

/// The connection after a connect attempt failed for the given reason.
pub open spec fn udp_after_failure(before: UdpConnection, reason: String) -> UdpConnection {
    UdpConnection { connecting: false, failed: true, failed_reason: reason, ..before }
}

/// Whether the flags of a connection are settled.
pub open spec fn udp_settled(c: UdpConnection) -> bool {
    flags_settled(c.connecting, c.disconnecting, c.connected, c.failed)
}

/// What the flags of a connection call for.
pub open spec fn udp_action(c: UdpConnection) -> WorkerAction {
    action_for(c.connecting, c.disconnecting, c.connected)
}

/// Every transition that a worker applies on the step that calls for it
/// leaves the flags settled.
pub proof fn lemma_udp_transitions_settle(before: UdpConnection, reason: String)
    ensures
        udp_settled(udp_after_disconnect(before)),
        udp_action(before) == WorkerAction::Connect ==> udp_settled(udp_after_connect(before)),
        udp_action(before) == WorkerAction::Connect ==> udp_settled(udp_after_failure(before, reason)),
{
}

/// How a connection changes when a message from the peer is recorded:
/// it joins the end of the history; nothing else changes.
pub open spec fn udp_received_step(
    before: UdpConnection,
    after: UdpConnection,
    received: UdpMessageView,
) -> bool {
    &&& after.msg_history@.len() == before.msg_history@.len() + 1
    &&& after.msg_history@.drop_last() == before.msg_history@
    &&& after.msg_history@.last()@ == received
    &&& after == (UdpConnection { msg_history: after.msg_history, ..before })
}

/// How a connection changes when its oldest pending message has been
/// written at `timestamp`: the message leaves the queue and its sent form
/// joins the end of the history; nothing else changes.
pub open spec fn udp_sent_step(before: UdpConnection, after: UdpConnection, timestamp: u64) -> bool {
    &&& before.out_queue@.len() > 0
    &&& after.out_queue@ == before.out_queue@.skip(1)
    &&& after.msg_history@.len() == before.msg_history@.len() + 1
    &&& after.msg_history@.drop_last() == before.msg_history@
    &&& after.msg_history@.last()@ == udp_sent_form(before.out_queue@[0]@, timestamp)
    &&& after == (UdpConnection {
        out_queue: after.out_queue,
        msg_history: after.msg_history,
        ..before
    })
}

/// The sent forms of the first `stamps.len()` messages of a queue, each
/// with its own time stamp.
pub open spec fn udp_sent_forms(queue: Seq<UdpMessage>, stamps: Seq<u64>) -> Seq<UdpMessageView> {
    Seq::new(stamps.len(), |i: int| udp_sent_form(queue[i]@, stamps[i]))
}

/// First in, first out: when pending messages are written one after the
/// other, the message written at each step is the next of the queue
/// as it first was, and the history grows by their sent forms in that same
/// order.
pub proof fn lemma_udp_fifo(states: Seq<UdpConnection>, stamps: Seq<u64>)
    requires
        states.len() == stamps.len() + 1,
        forall|i: int| 0 <= i < stamps.len() ==> udp_sent_step(#[trigger] states[i], states[i + 1], stamps[i]),
    ensures
        stamps.len() <= states[0].out_queue@.len(),
        forall|i: int| 0 <= i < stamps.len() ==> (#[trigger] states[i]).out_queue@[0] == states[0].out_queue@[i],
        states.last().out_queue@ == states[0].out_queue@.skip(stamps.len() as int),
        udp_views(states.last().msg_history@) == udp_views(states[0].msg_history@) + udp_sent_forms(
            states[0].out_queue@,
            stamps,
        ),
    decreases stamps.len(),
{
    let n = stamps.len() as int;
    if n == 0 {
        assert(states[0].out_queue@.skip(0) =~= states[0].out_queue@);
        assert(udp_views(states[0].msg_history@) + udp_sent_forms(states[0].out_queue@, stamps)
            =~= udp_views(states[0].msg_history@));
    } else {
        let front = states.drop_last();
        let early = stamps.drop_last();
        assert forall|i: int| 0 <= i < early.len() implies udp_sent_step(
            #[trigger] front[i],
            front[i + 1],
            early[i],
        ) by {
            assert(udp_sent_step(states[i], states[i + 1], stamps[i]));
        }
        lemma_udp_fifo(front, early);
        let first = states[0];
        let prev = states[n - 1];
        let last = states[n];
        assert(udp_sent_step(prev, last, stamps[n - 1]));
        assert(prev == front.last());
        assert(prev.out_queue@ == first.out_queue@.skip(n - 1));
        assert(prev.out_queue@[0] == first.out_queue@[n - 1]);
        assert(last.out_queue@ =~= first.out_queue@.skip(n));
        assert(last.msg_history@ =~= prev.msg_history@.push(last.msg_history@.last()));
        assert(udp_views(last.msg_history@) =~= udp_views(prev.msg_history@).push(
            last.msg_history@.last()@,
        ));
        assert(udp_sent_forms(first.out_queue@, stamps) =~= udp_sent_forms(first.out_queue@, early).push(
            udp_sent_form(first.out_queue@[n - 1]@, stamps[n - 1]),
        ));
        assert forall|i: int| 0 <= i < stamps.len() implies (#[trigger] states[i]).out_queue@[0]
            == states[0].out_queue@[i] by {
            if i < n - 1 {
                assert(states[i] == front[i]);
            }
        }
    }
}

/// An idle connection with nothing queued, nothing recorded, no address
/// and the blank header and parameter tables.
pub open spec fn udp_is_fresh(c: UdpConnection) -> bool {
    &&& is_short_id(c.connection_id@)
    &&& c.host_address@.len() == 0
    &&& c.peer_address@.len() == 0
    &&& c.name@ == "UDP connection "@
    &&& c.out_tab == 1
    &&& c.in_tab == 1
    &&& !c.connecting
    &&& !c.disconnecting
    &&& !c.failed
    &&& c.failed_reason@.len() == 0
    &&& !c.connected
    &&& c.out_data_buffer@.len() == 0
    &&& c.out_queue@.len() == 0
    &&& is_blank_table(c.out_headers@)
    &&& is_blank_table(c.out_params@)
    &&& c.in_queue@.len() == 0
    &&& c.msg_history@.len() == 0
}

impl UdpConnection {
    /// An idle connection with a fresh id, no addresses and nothing queued.
    pub fn new() -> (connection: UdpConnection)
        ensures
            udp_is_fresh(connection),
    {
        UdpConnection {
            connection_id: short_id(),
            host_address: String::new(),
            peer_address: String::new(),
            name: String::from_str("UDP connection "),
            out_tab: 1,
            in_tab: 1,
            connecting: false,
            disconnecting: false,
            failed: false,
            failed_reason: String::new(),
            connected: false,
            out_data_buffer: String::new(),
            out_queue: Vec::new(),
            out_headers: blank_table(),
            out_params: blank_table(),
            in_queue: Vec::new(),
            msg_history: Vec::new(),
        }
    }

    /// The transport was closed: clears `connecting`, `connected` and
    /// `disconnecting`, and reports the disconnect.
    pub fn complete_disconnect(&mut self) -> (event: UdpDisconnectedMsg)
        ensures
            *final(self) == udp_after_disconnect(*old(self)),
            event.msg_type == MsgType::UDP_DISCONNECTED,
            event.connection_id == old(self).connection_id,
    {
        self.connecting = false;
        self.connected = false;
        self.disconnecting = false;
        UdpDisconnectedMsg {
            msg_type: MsgType::UDP_DISCONNECTED,
            connection_id: self.connection_id.clone(),
        }
    }

    /// The connect attempt succeeded: clears `connecting` and `failed`,
    /// sets `connected`, and reports the connection.
    pub fn connect_succeeded(&mut self) -> (event: UdpConnectedMsg)
        ensures
            *final(self) == udp_after_connect(*old(self)),
            event.msg_type == MsgType::UDP_CONNECTED,
            event.connection_id == old(self).connection_id,
    {
        self.connecting = false;
        self.connected = true;
        self.failed = false;
        UdpConnectedMsg {
            msg_type: MsgType::UDP_CONNECTED,
            connection_id: self.connection_id.clone(),
        }
    }

    /// The connect attempt failed: clears `connecting`, sets `failed` with
    /// the error's text as the reason, and reports the failure. Nothing
    /// is retried.
    pub fn connect_failed(&mut self, reason: String) -> (event: UdpConnectionFailedMsg)
        ensures
            *final(self) == udp_after_failure(*old(self), reason),
            event.msg_type == MsgType::UDP_CONNECTION_FAILED,
            event.connection_id == old(self).connection_id,
            event.reason == reason,
    {
        let event = UdpConnectionFailedMsg {
            msg_type: MsgType::UDP_CONNECTION_FAILED,
            connection_id: self.connection_id.clone(),
            reason: reason.clone(),
        };
        self.connecting = false;
        self.failed = true;
        self.failed_reason = reason;
        event
    }

    /// The message that is written next: the oldest pending one.
    pub fn next_outbound(&self) -> (pending: Option<&UdpMessage>)
        ensures
            self.out_queue@.len() == 0 ==> pending is None,
            self.out_queue@.len() > 0 ==> pending == Some(&self.out_queue@[0]),
    {
        if self.out_queue.len() == 0 {
            None
        } else {
            Some(&self.out_queue[0])
        }
    }

    /// The oldest pending message was written to the peer: takes it off
    /// the queue, appends its sent form to the history and reports it.
    /// With nothing pending, nothing changes and nothing is reported.
    pub fn commit_sent(&mut self, timestamp: u64) -> (event: Option<UdpSentMsg>)
        ensures
            old(self).out_queue@.len() == 0 ==> event is None && *final(self) == *old(self),
            old(self).out_queue@.len() > 0 ==> {
                &&& event is Some
                &&& event.unwrap().msg_type == MsgType::UDP_MSG_SENT
                &&& event.unwrap().connection_id == old(self).connection_id
                &&& event.unwrap().msg@ == udp_sent_form(old(self).out_queue@[0]@, timestamp)
                &&& udp_sent_step(*old(self), *final(self), timestamp)
            },
    {
        if self.out_queue.len() == 0 {
            return None;
        }
        let pending = self.out_queue.remove(0);
        assert(self.out_queue@ =~= old(self).out_queue@.skip(1));
        let sent = UdpMessage {
            data: pending.data,
            timestamp,
            msg_id: pending.msg_id,
            msg_type: UdpMsgType::OUT,
            peer_address: pending.peer_address,
        };
        assert(sent@ == udp_sent_form(old(self).out_queue@[0]@, timestamp));
        let event = UdpSentMsg {
            msg_type: MsgType::UDP_MSG_SENT,
            connection_id: self.connection_id.clone(),
            msg: sent.duplicate(),
        };
        self.msg_history.push(sent);
        assert(self.msg_history@.drop_last() =~= old(self).msg_history@);
        Some(event)
    }

    /// A datagram arrived from `peer_address` and was given the id
    /// `msg_id`: appends it to the history and reports it.
    pub fn record_received(
        &mut self,
        data: Vec<u8>,
        peer_address: String,
        msg_id: String,
        timestamp: u64,
    ) -> (event: UdpReceivedMsg)
        ensures
            event.msg_type == MsgType::UDP_RECEIVED_MSG,
            event.connection_id == old(self).connection_id,
            event.msg@ == udp_received_form(data@, peer_address@, msg_id@, timestamp),
            udp_received_step(
                *old(self),
                *final(self),
                udp_received_form(data@, peer_address@, msg_id@, timestamp),
            ),
    {
        let received = UdpMessage {
            data,
            timestamp,
            msg_id,
            msg_type: UdpMsgType::IN,
            peer_address,
        };
        let event = UdpReceivedMsg {
            msg_type: MsgType::UDP_RECEIVED_MSG,
            connection_id: self.connection_id.clone(),
            msg: received.duplicate(),
        };
        self.msg_history.push(received);
        assert(self.msg_history@.drop_last() =~= old(self).msg_history@);
        event
    }
}

} // verus!
