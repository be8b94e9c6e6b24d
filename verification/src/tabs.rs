//! The tabs of the client's request and response panes, as the small
//! numbers under which the session document stores them.

use vstd::prelude::*;

verus! {

/// The tabs of the HTTP request pane.
#[derive(Clone, Copy, Debug, PartialEq, Eq, Structural)]
pub enum HttpReqTabs {
    Body,
    Params,
    Headers,
}

/// The tabs of the HTTP response pane.
#[derive(Clone, Copy, Debug, PartialEq, Eq, Structural)]
pub enum HttpRespTabs {
    Body,
    Headers,
}

/// The tabs of the outbound pane of a connection.
#[derive(Clone, Copy, Debug, PartialEq, Eq, Structural)]
pub enum WsOutTabs {
    Message,
    Params,
    Headers,
}

/// The tabs of the inbound pane of a connection.
#[derive(Clone, Copy, Debug, PartialEq, Eq, Structural)]
pub enum WsInTabs {
    Messages,
}

impl HttpReqTabs {
    /// The number of the tab.
    pub open spec fn number_of(self) -> u8 {
        match self {
            HttpReqTabs::Body => 1,
            HttpReqTabs::Params => 2,
            HttpReqTabs::Headers => 3,
        }
    }

    /// The tab with the given number.
    pub fn from_number(value: u8) -> (tab: HttpReqTabs)
        requires
            1 <= value <= 3,
        ensures
            tab.number_of() == value,
    {
        if value == 1 {
            HttpReqTabs::Body
        } else if value == 2 {
            HttpReqTabs::Params
        } else {
            HttpReqTabs::Headers
        }
    }

    /// The number of the tab.
    pub fn number(self) -> (value: u8)
        ensures
            value == self.number_of(),
            1 <= value <= 3,
    {
        match self {
            HttpReqTabs::Body => 1,
            HttpReqTabs::Params => 2,
            HttpReqTabs::Headers => 3,
        }
    }
}

impl HttpRespTabs {
    /// The number of the tab.
    pub open spec fn number_of(self) -> u8 {
        match self {
            HttpRespTabs::Body => 1,
            HttpRespTabs::Headers => 2,
        }
    }

    /// The tab with the given number.
    pub fn from_number(value: u8) -> (tab: HttpRespTabs)
        requires
            1 <= value <= 2,
        ensures
            tab.number_of() == value,
    {
        if value == 1 {
            HttpRespTabs::Body
        } else {
            HttpRespTabs::Headers
        }
    }

    /// The number of the tab.
    pub fn number(self) -> (value: u8)
        ensures
            value == self.number_of(),
            1 <= value <= 2,
    {
        match self {
            HttpRespTabs::Body => 1,
            HttpRespTabs::Headers => 2,
        }
    }
}

impl WsOutTabs {
    /// The number of the tab.
    pub open spec fn number_of(self) -> u8 {
        match self {
            WsOutTabs::Message => 1,
            WsOutTabs::Params => 2,
            WsOutTabs::Headers => 3,
        }
    }

    /// The tab with the given number.
    pub fn from_number(value: u8) -> (tab: WsOutTabs)
        requires
            1 <= value <= 3,
        ensures
            tab.number_of() == value,
    {
        if value == 1 {
            WsOutTabs::Message
        } else if value == 2 {
            WsOutTabs::Params
        } else {
            WsOutTabs::Headers
        }
    }

    /// The number of the tab.
    pub fn number(self) -> (value: u8)
        ensures
            value == self.number_of(),
            1 <= value <= 3,
    {
        match self {
            WsOutTabs::Message => 1,
            WsOutTabs::Params => 2,
            WsOutTabs::Headers => 3,
        }
    }
}

impl WsInTabs {
    /// The number of the tab.
    pub open spec fn number_of(self) -> u8 {
        1
    }

    /// The tab with the given number.
    pub fn from_number(value: u8) -> (tab: WsInTabs)
        requires
            value == 1,
        ensures
            tab.number_of() == value,
    {
        WsInTabs::Messages
    }

    /// The number of the tab.
    pub fn number(self) -> (value: u8)
        ensures
            value == self.number_of(),
    {
        1
    }
}

} // verus!
