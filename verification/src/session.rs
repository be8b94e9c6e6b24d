//! The session: the declared state together with the records of the live
//! workers. What the workers of each protocol family ask of it on every
//! tick is in the module of that family.

pub mod tcp;
pub mod udp;
pub mod ws;

use crate::reconcile::WorkerTable;
use crate::state::{is_first_state, MainState};
use crate::worker::WorkerAction;
use vstd::prelude::*;

verus! {

/// What a worker is told to do on one tick.
pub enum WorkerStep {
    /// The termination signal was observed and the record is gone: end.
    Exit,
    /// Nothing to do until the next tick.
    Wait,
    /// Close the transport, then report the disconnect.
    Disconnect,
    /// Attempt a connect to, or a bind on, the given address.
    Connect(String),
    /// Write the pending messages, oldest first.
    Drain,
}

/// What a step holds, as plain values.
pub enum WorkerStepView {
    Exit,
    Wait,
    Disconnect,
    Connect(Seq<char>),
    Drain,
}

impl View for WorkerStep {
    type V = WorkerStepView;

    open spec fn view(&self) -> WorkerStepView {
        match self {
            WorkerStep::Exit => WorkerStepView::Exit,
            WorkerStep::Wait => WorkerStepView::Wait,
            WorkerStep::Disconnect => WorkerStepView::Disconnect,
            WorkerStep::Connect(address) => WorkerStepView::Connect(address@),
            WorkerStep::Drain => WorkerStepView::Drain,
        }
    }
}

impl WorkerStep {
    /// The step of a worker that has met a transport error after its
    /// connect: it reports nothing more and changes nothing, and only
    /// still ends when it is told to.
    pub fn when_halted(self) -> (step: WorkerStep)
        ensures
            step@ == if self is Exit {
                WorkerStepView::Exit
            } else {
                WorkerStepView::Wait
            },
    {
        match self {
            WorkerStep::Exit => WorkerStep::Exit,
            _ => WorkerStep::Wait,
        }
    }
}

/// The step that an action stands for, with the address to connect to.
pub open spec fn step_for(action: WorkerAction, address: Seq<char>) -> WorkerStepView {
    match action {
        WorkerAction::Disconnect => WorkerStepView::Disconnect,
        WorkerAction::Connect => WorkerStepView::Connect(address),
        WorkerAction::Drain => WorkerStepView::Drain,
        WorkerAction::Wait => WorkerStepView::Wait,
    }
}

/// The shared root of a session: what the client has declared, and one
/// table of worker records for each protocol family.
pub struct CoreState {
    pub main_state: MainState,
    pub ws_services: WorkerTable,
    pub tcp_services: WorkerTable,
    pub udp_services: WorkerTable,
}

impl CoreState {
    /// The state of a first start, with no worker running.
    pub fn new() -> (state: CoreState)
        ensures
            state.ws_services@.len() == 0,
            state.tcp_services@.len() == 0,
            state.udp_services@.len() == 0,
            is_first_state(state.main_state),
    {
        CoreState {
            main_state: MainState::new(),
            ws_services: WorkerTable::new(),
            tcp_services: WorkerTable::new(),
            udp_services: WorkerTable::new(),
        }
    }

    /// Replaces the declared state wholesale. The workers are untouched:
    /// the next reconciliation tick brings them in line.
    pub fn set_main_state(&mut self, client_state: MainState)
        ensures
            *final(self) == (CoreState { main_state: client_state, ..*old(self) }),
    {
        self.main_state = client_state;
    }
}

} // verus!
