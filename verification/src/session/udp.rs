//! The UDP family: its reconciliation tick, and what a UDP worker and
//! its reader ask of the session.

use crate::ids::{is_short_id, short_id};
use crate::message::MsgType;
use crate::reconcile::{entry_ids, is_live, missing_ids, reconciled, retired};
use crate::session::{step_for, CoreState, WorkerStep, WorkerStepView};
use crate::state::MainState;
use crate::text::{first_position, lemma_first_position, same_text, texts};
use crate::udp::{
    udp_action, udp_after_connect, udp_after_disconnect, udp_after_failure, udp_received_form,
    udp_received_step, udp_sent_form, udp_sent_step, UdpConnectedMsg, UdpConnection,
    UdpConnectionFailedMsg, UdpDisconnectedMsg, UdpMessage, UdpReceivedMsg, UdpSentMsg,
};
use crate::worker::{decide, WorkerAction};
use vstd::prelude::*;

verus! {

/// The ids of a list of UDP connections, in order.
pub open spec fn udp_ids_of(connections: Seq<UdpConnection>) -> Seq<Seq<char>> {
    connections.map_values(|c: UdpConnection| c.connection_id@)
}

/// The position of the declared UDP connection that the live worker `id`
/// drives: the first one with that id. A worker that has no record, or
/// whose record carries the termination signal, drives none.
pub open spec fn udp_slot(state: CoreState, id: Seq<char>) -> Option<int> {
    if is_live(state.udp_services@, id) {
        first_position(udp_ids_of(state.main_state.udp_connections@), id)
    } else {
        None
    }
}

/// The step of the UDP worker `id`: it ends once its record carries the
/// termination signal or is gone, waits while its connection is not
/// declared, and else does what the connection's flags call for.
pub open spec fn udp_step_of(state: CoreState, id: Seq<char>) -> WorkerStepView {
    if !is_live(state.udp_services@, id) {
        WorkerStepView::Exit
    } else {
        match udp_slot(state, id) {
            None => WorkerStepView::Wait,
            Some(i) => {
                let c = state.main_state.udp_connections@[i];
                step_for(udp_action(c), c.host_address@)
            },
        }
    }
}

/// The position of the connection on which the UDP worker `id` may carry
/// out `action`: its slot, if the flags there call for that action.
pub open spec fn udp_slot_for(state: CoreState, id: Seq<char>, action: WorkerAction) -> Option<int> {
    match udp_slot(state, id) {
        Some(i) => if udp_action(state.main_state.udp_connections@[i]) == action {
            Some(i)
        } else {
            None
        },
        None => None,
    }
}

/// Nothing but the UDP connection at position `i` differs between the
/// two states.
pub open spec fn udp_changed_only(before: CoreState, after: CoreState, i: int) -> bool {
    &&& after == (CoreState {
        main_state: MainState {
            udp_connections: after.main_state.udp_connections,
            ..before.main_state
        },
        ..before
    })
    &&& after.main_state.udp_connections@.len() == before.main_state.udp_connections@.len()
    &&& forall|j: int|
        0 <= j < before.main_state.udp_connections@.len() && j != i
            ==> after.main_state.udp_connections@[j] == before.main_state.udp_connections@[j]
}

impl CoreState {
    /// The position of the first declared UDP connection with this id.
    pub fn udp_position(&self, id: &str) -> (found: Option<usize>)
        ensures
            match found {
                Some(i) => {
                    &&& i < self.main_state.udp_connections@.len()
                    &&& self.main_state.udp_connections@[i as int].connection_id@ == id@
                    &&& first_position(udp_ids_of(self.main_state.udp_connections@), id@) == Some(
                        i as int,
                    )
                },
                None => first_position(udp_ids_of(self.main_state.udp_connections@), id@) is None,
            },
    {
        let ghost ids = udp_ids_of(self.main_state.udp_connections@);
        let mut i: usize = 0;
        while i < self.main_state.udp_connections.len()
            invariant
                i <= self.main_state.udp_connections.len(),
                ids == udp_ids_of(self.main_state.udp_connections@),
                forall|k: int| 0 <= k < i ==> ids[k] != id@,
            decreases self.main_state.udp_connections.len() - i,
        {
            if same_text(self.main_state.udp_connections[i].connection_id.as_str(), id) {
                proof {
                    lemma_first_position(ids, id@, i as int);
                }
                return Some(i);
            }
            i += 1;
        }
        proof {
            lemma_first_position(ids, id@, i as int);
        }
        None
    }

    /// The ids of the declared UDP connections, in order.
    pub fn udp_ids(&self) -> (ids: Vec<String>)
        ensures
            texts(ids@) == udp_ids_of(self.main_state.udp_connections@),
    {
        let mut ids: Vec<String> = Vec::new();
        let mut i: usize = 0;
        while i < self.main_state.udp_connections.len()
            invariant
                i <= self.main_state.udp_connections.len(),
                texts(ids@) == udp_ids_of(self.main_state.udp_connections@).take(i as int),
            decreases self.main_state.udp_connections.len() - i,
        {
            let ghost prior = ids@;
            let id = self.main_state.udp_connections[i].connection_id.clone();
            ids.push(id);
            assert(texts(ids@) =~= texts(prior).push(id@));
            i += 1;
            assert(texts(ids@) =~= udp_ids_of(self.main_state.udp_connections@).take(i as int));
        }
        assert(udp_ids_of(self.main_state.udp_connections@).take(i as int) =~= udp_ids_of(
            self.main_state.udp_connections@,
        ));
        ids
    }

    /// One reconciliation tick for the UDP family: signals the workers
    /// whose connection is no longer declared, records a worker for every
    /// declared connection that has none, and returns the ids whose
    /// workers the caller has to start.
    pub fn reconcile_udp(&mut self) -> (spawned: Vec<String>)
        ensures
            final(self).udp_services@ == reconciled(
                old(self).udp_services@,
                udp_ids_of(old(self).main_state.udp_connections@),
            ),
            texts(spawned@) == missing_ids(
                udp_ids_of(old(self).main_state.udp_connections@),
                entry_ids(old(self).udp_services@),
            ),
            *final(self) == (CoreState { udp_services: final(self).udp_services, ..*old(self) }),
    {
        let desired = self.udp_ids();
        self.udp_services.reconcile(&desired)
    }

    /// One tick of the UDP worker `id`: tells it what to do, and takes its
    /// record out of the table when it has to end.
    pub fn udp_step(&mut self, id: &str) -> (step: WorkerStep)
        ensures
            step@ == udp_step_of(*old(self), id@),
            step is Exit ==> final(self).udp_services@ == retired(old(self).udp_services@, id@),
            step is Exit ==> *final(self) == (CoreState {
                udp_services: final(self).udp_services,
                ..*old(self)
            }),
            !(step is Exit) ==> *final(self) == *old(self),
    {
        if self.udp_services.must_exit(id) {
            self.udp_services.retire(id);
            return WorkerStep::Exit;
        }
        match self.udp_position(id) {
            None => WorkerStep::Wait,
            Some(i) => {
                let c = &self.main_state.udp_connections[i];
                match decide(c.connecting, c.disconnecting, c.connected) {
                    WorkerAction::Disconnect => WorkerStep::Disconnect,
                    WorkerAction::Connect => WorkerStep::Connect(c.host_address.clone()),
                    WorkerAction::Drain => WorkerStep::Drain,
                    WorkerAction::Wait => WorkerStep::Wait,
                }
            },
        }
    }

    /// Where the UDP worker `id` may carry out `action` right now.
    fn udp_find_slot(&self, id: &str, action: WorkerAction) -> (found: Option<usize>)
        ensures
            match found {
                Some(i) => {
                    &&& udp_slot_for(*self, id@, action) == Some(i as int)
                    &&& i < self.main_state.udp_connections@.len()
                    &&& self.main_state.udp_connections@[i as int].connection_id@ == id@
                },
                None => udp_slot_for(*self, id@, action) is None,
            },
    {
        if self.udp_services.must_exit(id) {
            return None;
        }
        match self.udp_position(id) {
            None => None,
            Some(i) => {
                let c = &self.main_state.udp_connections[i];
                if decide(c.connecting, c.disconnecting, c.connected) == action {
                    Some(i)
                } else {
                    None
                }
            },
        }
    }

    /// The transport of the UDP connection `id` was closed on a
    /// `Disconnect` step: clears `connecting`, `connected` and
    /// `disconnecting` there and hands back the event to send. On any
    /// other step nothing changes and there is no event.
    pub fn udp_disconnected(&mut self, id: &str) -> (event: Option<UdpDisconnectedMsg>)
        ensures
            match udp_slot_for(*old(self), id@, WorkerAction::Disconnect) {
                Some(i) => {
                    &&& event is Some
                    &&& event.unwrap().msg_type == MsgType::UDP_DISCONNECTED
                    &&& event.unwrap().connection_id@ == id@
                    &&& udp_changed_only(*old(self), *final(self), i)
                    &&& final(self).main_state.udp_connections@[i] == udp_after_disconnect(
                        old(self).main_state.udp_connections@[i],
                    )
                },
                None => event is None && *final(self) == *old(self),
            },
    {
        match self.udp_find_slot(id, WorkerAction::Disconnect) {
            Some(i) => Some(self.main_state.udp_connections[i].complete_disconnect()),
            None => None,
        }
    }

    /// The connect attempt for the UDP connection `id`, made on a
    /// `Connect` step, succeeded: clears `connecting` and `failed`, sets
    /// `connected` and hands back the event to send. On any other step
    /// nothing changes and there is no event.
    pub fn udp_connected(&mut self, id: &str) -> (event: Option<UdpConnectedMsg>)
        ensures
            match udp_slot_for(*old(self), id@, WorkerAction::Connect) {
                Some(i) => {
                    &&& event is Some
                    &&& event.unwrap().msg_type == MsgType::UDP_CONNECTED
                    &&& event.unwrap().connection_id@ == id@
                    &&& udp_changed_only(*old(self), *final(self), i)
                    &&& final(self).main_state.udp_connections@[i] == udp_after_connect(
                        old(self).main_state.udp_connections@[i],
                    )
                },
                None => event is None && *final(self) == *old(self),
            },
    {
        match self.udp_find_slot(id, WorkerAction::Connect) {
            Some(i) => Some(self.main_state.udp_connections[i].connect_succeeded()),
            None => None,
        }
    }

    /// The connect attempt for the UDP connection `id`, made on a
    /// `Connect` step, failed with the error text `reason`: clears
    /// `connecting`, sets `failed` with that reason and hands back the
    /// event to send. Nothing is retried. On any other step nothing
    /// changes and there is no event.
    pub fn udp_connect_failed(&mut self, id: &str, reason: String) -> (event: Option<
        UdpConnectionFailedMsg,
    >)
        ensures
            match udp_slot_for(*old(self), id@, WorkerAction::Connect) {
                Some(i) => {
                    &&& event is Some
                    &&& event.unwrap().msg_type == MsgType::UDP_CONNECTION_FAILED
                    &&& event.unwrap().connection_id@ == id@
                    &&& event.unwrap().reason == reason
                    &&& udp_changed_only(*old(self), *final(self), i)
                    &&& final(self).main_state.udp_connections@[i] == udp_after_failure(
                        old(self).main_state.udp_connections@[i],
                        reason,
                    )
                },
                None => event is None && *final(self) == *old(self),
            },
    {
        match self.udp_find_slot(id, WorkerAction::Connect) {
            Some(i) => Some(self.main_state.udp_connections[i].connect_failed(reason)),
            None => None,
        }
    }

    /// The message that the UDP worker `id` has to write next on a
    /// `Drain` step: a copy of the oldest pending one. There is none on
    /// any other step, or when nothing is pending.
    pub fn udp_next_outbound(&self, id: &str) -> (pending: Option<UdpMessage>)
        ensures
            match udp_slot_for(*self, id@, WorkerAction::Drain) {
                Some(i) => if self.main_state.udp_connections@[i].out_queue@.len() > 0 {
                    pending is Some && pending.unwrap()@
                        == self.main_state.udp_connections@[i].out_queue@[0]@
                } else {
                    pending is None
                },
                None => pending is None,
            },
    {
        match self.udp_find_slot(id, WorkerAction::Drain) {
            Some(i) => match self.main_state.udp_connections[i].next_outbound() {
                Some(message) => Some(message.duplicate()),
                None => None,
            },
            None => None,
        }
    }

    /// The oldest pending message of the UDP connection `id` was written
    /// on a `Drain` step: it leaves the queue, its sent form joins the
    /// end of the history, and the event to send is handed back. On any
    /// other step, or with nothing pending, nothing changes and there is
    /// no event.
    pub fn udp_sent(&mut self, id: &str, timestamp: u64) -> (event: Option<UdpSentMsg>)
        ensures
            match udp_slot_for(*old(self), id@, WorkerAction::Drain) {
                Some(i) => if old(self).main_state.udp_connections@[i].out_queue@.len() > 0 {
                    &&& event is Some
                    &&& event.unwrap().msg_type == MsgType::UDP_MSG_SENT
                    &&& event.unwrap().connection_id@ == id@
                    &&& event.unwrap().msg@ == udp_sent_form(
                        old(self).main_state.udp_connections@[i].out_queue@[0]@,
                        timestamp,
                    )
                    &&& udp_changed_only(*old(self), *final(self), i)
                    &&& udp_sent_step(
                        old(self).main_state.udp_connections@[i],
                        final(self).main_state.udp_connections@[i],
                        timestamp,
                    )
                } else {
                    event is None && *final(self) == *old(self)
                },
                None => event is None && *final(self) == *old(self),
            },
    {
        match self.udp_find_slot(id, WorkerAction::Drain) {
            Some(i) => {
                if self.main_state.udp_connections[i].out_queue.len() == 0 {
                    None
                } else {
                    self.main_state.udp_connections[i].commit_sent(timestamp)
                }
            },
            None => None,
        }
    }

    /// A datagram from `peer_address` arrived on the UDP connection `id` while it is connected:
    /// it gets a fresh id and joins the end of the history, and the event
    /// to send is handed back. For a connection that is not connected, not
    /// declared, or whose worker is ending, nothing changes and there is
    /// no event.
    pub fn udp_received(&mut self, id: &str, data: Vec<u8>, peer_address: String, timestamp: u64) -> (event: Option<
        UdpReceivedMsg,
    >)
        ensures
            match udp_slot(*old(self), id@) {
                Some(i) => if old(self).main_state.udp_connections@[i].connected {
                    &&& event is Some
                    &&& event.unwrap().msg_type == MsgType::UDP_RECEIVED_MSG
                    &&& event.unwrap().connection_id@ == id@
                    &&& is_short_id(event.unwrap().msg.msg_id@)
                    &&& event.unwrap().msg@ == udp_received_form(
                        data@,
                        peer_address@,
                        event.unwrap().msg.msg_id@,
                        timestamp,
                    )
                    &&& udp_changed_only(*old(self), *final(self), i)
                    &&& udp_received_step(
                        old(self).main_state.udp_connections@[i],
                        final(self).main_state.udp_connections@[i],
                        event.unwrap().msg@,
                    )
                } else {
                    event is None && *final(self) == *old(self)
                },
                None => event is None && *final(self) == *old(self),
            },
    {
        if self.udp_services.must_exit(id) {
            return None;
        }
        match self.udp_position(id) {
            Some(i) => {
                if self.main_state.udp_connections[i].connected {
                    let msg_id = short_id();
                    Some(
                        self.main_state.udp_connections[i].record_received(
                            data,
                            peer_address,
                            msg_id,
                            timestamp,
                        ),
                    )
                } else {
                    None
                }
            },
            None => None,
        }
    }
}

/// Idempotence: for a UDP connection that is already down (neither
/// connected nor connecting), a disconnect request calls for no step, so
/// that `udp_disconnected` reports nothing and leaves the state as it is.
pub proof fn lemma_udp_disconnect_idempotent(state: CoreState, id: Seq<char>)
    requires
        match udp_slot(state, id) {
            Some(i) => !state.main_state.udp_connections@[i].connected
                && !state.main_state.udp_connections@[i].connecting,
            None => true,
        },
    ensures
        udp_slot_for(state, id, WorkerAction::Disconnect) is None,
        !(udp_step_of(state, id) is Disconnect),
{
}

/// Silence: a worker that has no record, or whose record carries the
/// termination signal, drives no connection, so that no transition is
/// applied and no event is handed back for its id.
pub proof fn lemma_udp_silent_without_worker(state: CoreState, id: Seq<char>, action: WorkerAction)
    requires
        !is_live(state.udp_services@, id),
    ensures
        udp_slot(state, id) is None,
        udp_slot_for(state, id, action) is None,
        udp_step_of(state, id) is Exit,
{
}

/// After the disconnect of a UDP connection has been carried out, a
/// repeated request finds the connection down and calls for no action.
pub proof fn lemma_udp_disconnect_settles(before: UdpConnection, again: bool)
    ensures
        udp_action(UdpConnection { disconnecting: again, ..udp_after_disconnect(before) })
            == WorkerAction::Wait,
{
}

} // verus!
