//! The session state that the client declares and persists.

use crate::collection::Collection;
use crate::http::{is_fresh_request, HttpRequest};
use crate::tcp::{tcp_is_fresh, TcpConnection};
use crate::udp::{udp_is_fresh, UdpConnection};
use crate::ws::{ws_is_fresh, WsConnection};
use vstd::prelude::*;

verus! {

/// The page that the client shows.
#[derive(Clone, Copy, Debug, PartialEq, Eq, Structural)]
pub enum Page {
    HttpPage,
    Collections,
    Websockets,
    Tcp,
    Udp,
    Servers,
}

/// Everything the client declares: its requests, its connections of each
/// protocol, its collections and what it has selected.
pub struct MainState {
    pub page: Page,
    pub http_current: usize,
    pub ws_current: usize,
    pub tcp_current: usize,
    pub udp_current: usize,
    pub col_current: Vec<usize>,
    pub http_requests: Vec<HttpRequest>,
    pub ws_connections: Vec<WsConnection>,
    pub tcp_connections: Vec<TcpConnection>,
    pub udp_connections: Vec<UdpConnection>,
    pub collections: Vec<Collection>,
}

/// The state of a first start: the first page, one empty request, one idle
/// connection of each protocol, no collection, everything selected at zero.
pub open spec fn is_first_state(s: MainState) -> bool {
    &&& s.page == Page::HttpPage
    &&& s.http_current == 0
    &&& s.ws_current == 0
    &&& s.tcp_current == 0
    &&& s.udp_current == 0
    &&& s.col_current@ == seq![0usize, 0usize]
    &&& s.http_requests@.len() == 1
    &&& s.ws_connections@.len() == 1
    &&& s.tcp_connections@.len() == 1
    &&& s.udp_connections@.len() == 1
    &&& s.collections@.len() == 0
    &&& is_fresh_request(s.http_requests@[0])
    &&& ws_is_fresh(s.ws_connections@[0])
    &&& tcp_is_fresh(s.tcp_connections@[0])
    &&& udp_is_fresh(s.udp_connections@[0])
}

impl MainState {
    /// The state of a first start: one empty request, one idle connection
    /// of each protocol, no collection, everything selected at zero.
    pub fn new() -> (state: MainState)
        ensures
            is_first_state(state),
    {
        let mut col_current: Vec<usize> = Vec::new();
        col_current.push(0);
        col_current.push(0);
        let mut http_requests: Vec<HttpRequest> = Vec::new();
        http_requests.push(HttpRequest::new());
        let mut ws_connections: Vec<WsConnection> = Vec::new();
        ws_connections.push(WsConnection::new());
        let mut tcp_connections: Vec<TcpConnection> = Vec::new();
        tcp_connections.push(TcpConnection::new());
        let mut udp_connections: Vec<UdpConnection> = Vec::new();
        udp_connections.push(UdpConnection::new());
        assert(col_current@ =~= seq![0usize, 0usize]);
        MainState {
            page: Page::HttpPage,
            http_current: 0,
            ws_current: 0,
            tcp_current: 0,
            udp_current: 0,
            col_current,
            http_requests,
            ws_connections,
            tcp_connections,
            udp_connections,
            collections: Vec::new(),
        }
    }
}

} // verus!
