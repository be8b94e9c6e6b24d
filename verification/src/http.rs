//! One-shot HTTP requests: the data the client keeps for each, and the
//! rules that shape a request before it is sent and a reply after it came.

use crate::message::MsgType;
use crate::text::{contains, contains_text, rows, same_text, texts};
use vstd::prelude::*;
use vstd::string::StringExecFns;

verus! {

/// The request methods that the client offers.
#[derive(Clone, Copy, Debug, PartialEq, Eq, Structural)]
pub enum HttpMethod {
    GET,
    POST,
    PUT,
    DELETE,
    HEAD,
    PATCH,
    OPTIONS,
    CONNECT,
}

/// The method at a position of the client's method list.
pub open spec fn method_at(index: int) -> HttpMethod {
    if index == 0 {
        HttpMethod::GET
    } else if index == 1 {
        HttpMethod::POST
    } else if index == 2 {
        HttpMethod::PUT
    } else if index == 3 {
        HttpMethod::DELETE
    } else if index == 4 {
        HttpMethod::HEAD
    } else if index == 5 {
        HttpMethod::PATCH
    } else if index == 6 {
        HttpMethod::OPTIONS
    } else {
        HttpMethod::CONNECT
    }
}

/// The upper-case name of a method.
pub open spec fn method_name(method: HttpMethod) -> Seq<char> {
    match method {
        HttpMethod::GET => "GET"@,
        HttpMethod::POST => "POST"@,
        HttpMethod::PUT => "PUT"@,
        HttpMethod::DELETE => "DELETE"@,
        HttpMethod::HEAD => "HEAD"@,
        HttpMethod::PATCH => "PATCH"@,
        HttpMethod::OPTIONS => "OPTIONS"@,
        HttpMethod::CONNECT => "CONNECT"@,
    }
}

/// The method that an upper-case name stands for, if it is one.
pub open spec fn method_named(name: Seq<char>) -> Option<HttpMethod> {
    if name == "GET"@ {
        Some(HttpMethod::GET)
    } else if name == "POST"@ {
        Some(HttpMethod::POST)
    } else if name == "PUT"@ {
        Some(HttpMethod::PUT)
    } else if name == "DELETE"@ {
        Some(HttpMethod::DELETE)
    } else if name == "HEAD"@ {
        Some(HttpMethod::HEAD)
    } else if name == "PATCH"@ {
        Some(HttpMethod::PATCH)
    } else if name == "OPTIONS"@ {
        Some(HttpMethod::OPTIONS)
    } else if name == "CONNECT"@ {
        Some(HttpMethod::CONNECT)
    } else {
        None
    }
}

/// What `str::to_lowercase` makes of a text.
pub uninterp spec fn lowercased(text: Seq<char>) -> Seq<char>;

/// Calls `str::to_lowercase`, which maps every character to its Unicode
/// lower-case form; the result depends on the text alone.
#[verifier::external_body]
fn lowercase(text: &str) -> (lower: String)
    ensures
        lower@ == lowercased(text@),
{
    text.to_lowercase()
}

/// The method that a lower-case name stands for, if it is one.
pub open spec fn method_lower_named(name: Seq<char>) -> Option<HttpMethod> {
    if name == "get"@ {
        Some(HttpMethod::GET)
    } else if name == "post"@ {
        Some(HttpMethod::POST)
    } else if name == "put"@ {
        Some(HttpMethod::PUT)
    } else if name == "delete"@ {
        Some(HttpMethod::DELETE)
    } else if name == "head"@ {
        Some(HttpMethod::HEAD)
    } else if name == "patch"@ {
        Some(HttpMethod::PATCH)
    } else if name == "options"@ {
        Some(HttpMethod::OPTIONS)
    } else if name == "connect"@ {
        Some(HttpMethod::CONNECT)
    } else {
        None
    }
}

impl HttpMethod {
    /// Recognises the lower-case name of a method.
    pub fn from_lower_name(name: &str) -> (method: Option<HttpMethod>)
        ensures
            method == method_lower_named(name@),
    {
        if same_text(name, "get") {
            Some(HttpMethod::GET)
        } else if same_text(name, "post") {
            Some(HttpMethod::POST)
        } else if same_text(name, "put") {
            Some(HttpMethod::PUT)
        } else if same_text(name, "delete") {
            Some(HttpMethod::DELETE)
        } else if same_text(name, "head") {
            Some(HttpMethod::HEAD)
        } else if same_text(name, "patch") {
            Some(HttpMethod::PATCH)
        } else if same_text(name, "options") {
            Some(HttpMethod::OPTIONS)
        } else if same_text(name, "connect") {
            Some(HttpMethod::CONNECT)
        } else {
            None
        }
    }

    /// Recognises the name of a method in any mix of upper and lower
    /// case.
    pub fn from_text(text: &str) -> (method: Option<HttpMethod>)
        ensures
            method == method_lower_named(lowercased(text@)),
    {
        let lower = lowercase(text);
        HttpMethod::from_lower_name(lower.as_str())
    }

    /// How many methods there are.
    pub fn count() -> (n: usize)
        ensures
            n == 8,
    {
        8
    }

    /// The method at `index` of the method list.
    pub fn from_index(index: usize) -> (method: HttpMethod)
        requires
            index < 8,
        ensures
            method == method_at(index as int),
    {
        if index == 0 {
            HttpMethod::GET
        } else if index == 1 {
            HttpMethod::POST
        } else if index == 2 {
            HttpMethod::PUT
        } else if index == 3 {
            HttpMethod::DELETE
        } else if index == 4 {
            HttpMethod::HEAD
        } else if index == 5 {
            HttpMethod::PATCH
        } else if index == 6 {
            HttpMethod::OPTIONS
        } else {
            HttpMethod::CONNECT
        }
    }

    /// The upper-case name of the method.
    pub fn name(&self) -> (name: &'static str)
        ensures
            name@ == method_name(*self),
    {
        match self {
            HttpMethod::GET => "GET",
            HttpMethod::POST => "POST",
            HttpMethod::PUT => "PUT",
            HttpMethod::DELETE => "DELETE",
            HttpMethod::HEAD => "HEAD",
            HttpMethod::PATCH => "PATCH",
            HttpMethod::OPTIONS => "OPTIONS",
            HttpMethod::CONNECT => "CONNECT",
        }
    }

    /// Recognises the upper-case name of a method.
    pub fn from_name(name: &str) -> (method: Option<HttpMethod>)
        ensures
            method == method_named(name@),
    {
        if same_text(name, "GET") {
            Some(HttpMethod::GET)
        } else if same_text(name, "POST") {
            Some(HttpMethod::POST)
        } else if same_text(name, "PUT") {
            Some(HttpMethod::PUT)
        } else if same_text(name, "DELETE") {
            Some(HttpMethod::DELETE)
        } else if same_text(name, "HEAD") {
            Some(HttpMethod::HEAD)
        } else if same_text(name, "PATCH") {
            Some(HttpMethod::PATCH)
        } else if same_text(name, "OPTIONS") {
            Some(HttpMethod::OPTIONS)
        } else if same_text(name, "CONNECT") {
            Some(HttpMethod::CONNECT)
        } else {
            None
        }
    }
}

/// Every method is recognised under its own name.
pub proof fn lemma_method_name_round_trip(method: HttpMethod)
    ensures
        method_named(method_name(method)) == Some(method),
{
    reveal_strlit("GET");
    reveal_strlit("POST");
    reveal_strlit("PUT");
    reveal_strlit("DELETE");
    reveal_strlit("HEAD");
    reveal_strlit("PATCH");
    reveal_strlit("OPTIONS");
    reveal_strlit("CONNECT");
    assert("GET"@.len() == 3 && "GET"@[0] == 'G');
    assert("PUT"@.len() == 3 && "PUT"@[0] == 'P');
    assert("POST"@.len() == 4 && "POST"@[0] == 'P');
    assert("HEAD"@.len() == 4 && "HEAD"@[0] == 'H');
    assert("PATCH"@.len() == 5);
    assert("DELETE"@.len() == 6);
    assert("OPTIONS"@.len() == 7 && "OPTIONS"@[0] == 'O');
    assert("CONNECT"@.len() == 7 && "CONNECT"@[0] == 'C');
}

/// How the body of a reply is to be shown.
#[derive(Clone, Copy, Debug, PartialEq, Eq, Structural)]
pub enum HttpResponseType {
    TEXT,
    JSON,
}

/// The reply that the client keeps with a request.
pub struct HttpResponse {
    pub status: u16,
    pub body: String,
    pub body_highlight: String,
    pub headers: Vec<Vec<String>>,
    pub time: u32,
    pub size: u64,
    pub response_type: HttpResponseType,
    pub request_index: usize,
    pub failed: bool,
}

/// The reply of a request that was never sent: all empty, status zero.
pub open spec fn is_blank_response(r: HttpResponse) -> bool {
    &&& r.status == 0
    &&& r.body@.len() == 0
    &&& r.body_highlight@.len() == 0
    &&& r.headers@.len() == 0
    &&& r.time == 0
    &&& r.size == 0
    &&& r.response_type == HttpResponseType::TEXT
    &&& r.request_index == 0
    &&& !r.failed
}

impl HttpResponse {
    /// The reply of a request that was never sent.
    pub fn new() -> (response: HttpResponse)
        ensures
            is_blank_response(response),
    {
        HttpResponse {
            status: 0,
            body: String::new(),
            body_highlight: String::new(),
            headers: Vec::new(),
            time: 0,
            size: 0,
            response_type: HttpResponseType::TEXT,
            request_index: 0,
            failed: false,
        }
    }
}

/// A table with the single row of two empty cells that the client starts
/// every header and parameter list with.
pub open spec fn is_blank_table(table: Seq<Vec<String>>) -> bool {
    &&& table.len() == 1
    &&& table[0]@.len() == 2
    &&& table[0]@[0]@.len() == 0
    &&& table[0]@[1]@.len() == 0
}

/// Builds the table of one row of two empty cells.
pub fn blank_table() -> (table: Vec<Vec<String>>)
    ensures
        is_blank_table(table@),
{
    let mut row: Vec<String> = Vec::new();
    row.push(String::new());
    row.push(String::new());
    let mut table: Vec<Vec<String>> = Vec::new();
    table.push(row);
    table
}

/// A request as the client edits and keeps it.
pub struct HttpRequest {
    pub url: String,
    pub body: String,
    pub headers: Vec<Vec<String>>,
    pub params: Vec<Vec<String>>,
    pub method: HttpMethod,
    pub response: HttpResponse,
    pub name: String,
    pub req_tab: u8,
    pub resp_tab: u8,
    pub loading: bool,
}

/// An empty GET request, named `New Request `, with the blank header and
/// parameter tables and a reply that was never sent.
pub open spec fn is_fresh_request(r: HttpRequest) -> bool {
    &&& r.url@.len() == 0
    &&& r.body@.len() == 0
    &&& is_blank_table(r.headers@)
    &&& is_blank_table(r.params@)
    &&& r.method == HttpMethod::GET
    &&& is_blank_response(r.response)
    &&& r.name@ == "New Request "@
    &&& r.req_tab == 1
    &&& r.resp_tab == 1
    &&& !r.loading
}

impl HttpRequest {
    /// An empty GET request with an unsent reply.
    pub fn new() -> (request: HttpRequest)
        ensures
            is_fresh_request(request),
    {
        HttpRequest {
            url: String::new(),
            body: String::new(),
            headers: blank_table(),
            params: blank_table(),
            method: HttpMethod::GET,
            response: HttpResponse::new(),
            name: String::from_str("New Request "),
            req_tab: 1,
            resp_tab: 1,
            loading: false,
        }
    }
}

/// The client's order to send a request, as it arrives on the control
/// channel.
pub struct SendHttpMsg {
    pub msg_type: MsgType,
    pub url: String,
    pub method: HttpMethod,
    pub body: String,
    pub headers: Vec<Vec<String>>,
    pub index: usize,
}

/// A request on its way to the transport.
pub struct SendHttpRequest {
    pub url: String,
    pub method: HttpMethod,
    pub body: String,
    pub headers: Vec<Vec<String>>,
    pub request_index: usize,
}

/// What a request on its way to the transport holds, as plain values.
pub struct SendHttpRequestView {
    pub url: Seq<char>,
    pub method: HttpMethod,
    pub body: Seq<char>,
    pub headers: Seq<Seq<Seq<char>>>,
    pub request_index: usize,
}

impl View for SendHttpRequest {
    type V = SendHttpRequestView;

    open spec fn view(&self) -> SendHttpRequestView {
        SendHttpRequestView {
            url: self.url@,
            method: self.method,
            body: self.body@,
            headers: rows(self.headers@),
            request_index: self.request_index,
        }
    }
}

/// How the body of a reply on the control channel is to be shown.
#[derive(Clone, Copy, Debug, PartialEq, Eq, Structural)]
pub enum SendHttpResponseType {
    TEXT,
    JSON,
}

/// The reply to a `SEND_HTTP` order.
pub struct SendHttpResponse {
    pub msg_type: MsgType,
    pub status: u16,
    pub body: String,
    pub body_highlight: String,
    pub headers: Vec<Vec<String>>,
    pub time: u32,
    pub size: u64,
    pub response_type: SendHttpResponseType,
    pub request_index: usize,
    pub failed: bool,
}

impl SendHttpResponse {
    /// An empty reply: status zero, no body, not failed.
    pub fn new() -> (response: SendHttpResponse)
        ensures
            response.msg_type == MsgType::HTTP_RESPONSE,
            response.status == 0,
            response.body@.len() == 0,
            response.body_highlight@.len() == 0,
            response.headers@.len() == 0,
            response.time == 0,
            response.size == 0,
            response.response_type == SendHttpResponseType::TEXT,
            response.request_index == 0,
            !response.failed,
    {
        SendHttpResponse {
            msg_type: MsgType::HTTP_RESPONSE,
            status: 0,
            body: String::new(),
            body_highlight: String::new(),
            headers: Vec::new(),
            time: 0,
            size: 0,
            response_type: SendHttpResponseType::TEXT,
            request_index: 0,
            failed: false,
        }
    }
}

/// The address that a request goes to: the given one if it mentions
/// `http` anywhere, else the given one behind `http://`.
pub open spec fn effective_url(url: Seq<char>) -> Seq<char> {
    if contains_text(url, "http"@) {
        url
    } else {
        "http://"@ + url
    }
}

/// Completes an address that names no scheme.
pub fn normalize_url(url: String) -> (full: String)
    ensures
        full@ == effective_url(url@),
{
    if contains(url.as_str(), "http") {
        url
    } else {
        let full = String::from_str("http://");
        full.concat(url.as_str())
    }
}

/// A header row goes out if it has a name and a value and neither is
/// empty.
pub open spec fn is_usable_header(row: Seq<Seq<char>>) -> bool {
    row.len() >= 2 && row[0].len() > 0 && row[1].len() > 0
}

/// The name and value pairs of the usable rows of a header table, in the
/// table's order.
pub open spec fn usable_headers(table: Seq<Seq<Seq<char>>>) -> Seq<(Seq<char>, Seq<char>)>
    decreases table.len(),
{
    if table.len() == 0 {
        Seq::empty()
    } else if is_usable_header(table.last()) {
        usable_headers(table.drop_last()).push((table.last()[0], table.last()[1]))
    } else {
        usable_headers(table.drop_last())
    }
}

/// The name and value texts of a list of pairs.
pub open spec fn pair_texts(pairs: Seq<(String, String)>) -> Seq<(Seq<char>, Seq<char>)> {
    pairs.map_values(|p: (String, String)| (p.0@, p.1@))
}

/// Selects the headers that go out with a request.
pub fn outgoing_headers(headers: &Vec<Vec<String>>) -> (pairs: Vec<(String, String)>)
    ensures
        pair_texts(pairs@) == usable_headers(rows(headers@)),
{
    let mut pairs: Vec<(String, String)> = Vec::new();
    let mut i: usize = 0;
    while i < headers.len()
        invariant
            i <= headers.len(),
            pair_texts(pairs@) == usable_headers(rows(headers@).take(i as int)),
        decreases headers.len() - i,
    {
        let row = &headers[i];
        proof {
            let table = rows(headers@);
            assert(table.take(i + 1).drop_last() =~= table.take(i as int));
            assert(table.take(i + 1).last() == texts(row@));
        }
        if row.len() >= 2 && !row[0].as_str().is_empty() && !row[1].as_str().is_empty() {
            let ghost before = pairs@;
            let name = row[0].clone();
            let value = row[1].clone();
            pairs.push((name, value));
            assert(pair_texts(pairs@) =~= pair_texts(before).push((row@[0]@, row@[1]@)));
        }
        i += 1;
    }
    assert(rows(headers@).take(i as int) =~= rows(headers@));
    pairs
}

/// Whether a reply's headers announce a JSON body: some row is named
/// `content-type` and its value mentions `application/json`.
pub open spec fn announces_json(table: Seq<Seq<Seq<char>>>) -> bool {
    exists|i: int| 0 <= i < table.len() && is_json_content_type(#[trigger] table[i])
}

/// A `content-type` row whose value mentions `application/json`.
pub open spec fn is_json_content_type(row: Seq<Seq<char>>) -> bool {
    row.len() >= 2 && row[0] == "content-type"@ && contains_text(row[1], "application/json"@)
}

/// Looks for a `content-type` header that mentions `application/json`.
pub fn has_json_content_type(headers: &Vec<Vec<String>>) -> (found: bool)
    ensures
        found == announces_json(rows(headers@)),
{
    let mut i: usize = 0;
    while i < headers.len()
        invariant
            i <= headers.len(),
            forall|k: int| 0 <= k < i ==> !is_json_content_type(#[trigger] rows(headers@)[k]),
        decreases headers.len() - i,
    {
        let row = &headers[i];
        assert(rows(headers@)[i as int] == texts(row@));
        if row.len() >= 2 && same_text(row[0].as_str(), "content-type") && contains(
            row[1].as_str(),
            "application/json",
        ) {
            return true;
        }
        i += 1;
    }
    false
}

/// What the transport hands back when a request was answered.
pub struct HttpAnswer {
    pub status: u16,
    pub headers: Vec<Vec<String>>,
    pub body: String,
}

/// The elapsed milliseconds between two clock readings as the reply
/// carries them: the difference cut to its low 32 bits, and zero if the
/// clock went backwards.
pub open spec fn elapsed_millis(started: u64, finished: u64) -> u32 {
    if finished >= started {
        ((finished - started) % 0x1_0000_0000) as u32
    } else {
        0
    }
}

/// Computes the elapsed time that a reply reports.
pub fn elapsed(started: u64, finished: u64) -> (millis: u32)
    ensures
        millis == elapsed_millis(started, finished),
{
    if finished >= started {
        let span: u64 = finished - started;
        (span % 0x1_0000_0000) as u32
    } else {
        0
    }
}

/// The size that a reply reports: the number of bytes of the body's UTF-8
/// encoding, as a machine word.
pub open spec fn body_size(body: Seq<char>) -> u64 {
    (vstd::utf8::encode_utf8(body).len() as usize) as u64
}

/// The reply to the client for a request that the transport answered.
pub open spec fn is_answer_reply(
    reply: SendHttpResponse,
    answer: HttpAnswer,
    started: u64,
    finished: u64,
    request_index: usize,
) -> bool {
    &&& reply.msg_type == MsgType::HTTP_RESPONSE
    &&& reply.status == answer.status
    &&& reply.body == answer.body
    &&& reply.body_highlight@.len() == 0
    &&& reply.headers == answer.headers
    &&& reply.time == elapsed_millis(started, finished)
    &&& reply.size == body_size(answer.body@)
    &&& reply.response_type == if announces_json(rows(answer.headers@)) {
        SendHttpResponseType::JSON
    } else {
        SendHttpResponseType::TEXT
    }
    &&& reply.request_index == request_index
    &&& !reply.failed
}

/// The reply to the client for a request that the transport could not
/// complete: flagged as failed, with the error's text as its body.
pub open spec fn is_failure_reply(
    reply: SendHttpResponse,
    error: String,
    request_index: usize,
) -> bool {
    &&& reply.msg_type == MsgType::HTTP_RESPONSE
    &&& reply.status == 0
    &&& reply.body == error
    &&& reply.body_highlight@.len() == 0
    &&& reply.headers@.len() == 0
    &&& reply.time == 0
    &&& reply.size == 0
    &&& reply.response_type == SendHttpResponseType::TEXT
    &&& reply.request_index == request_index
    &&& reply.failed
}

/// Turns the transport's outcome into the reply for the client, echoing
/// the index that the order carried.
pub fn http_reply(
    outcome: Result<HttpAnswer, String>,
    started: u64,
    finished: u64,
    request_index: usize,
) -> (reply: SendHttpResponse)
    ensures
        match outcome {
            Ok(answer) => is_answer_reply(reply, answer, started, finished, request_index),
            Err(error) => is_failure_reply(reply, error, request_index),
        },
{
    let mut reply = SendHttpResponse::new();
    match outcome {
        Ok(answer) => {
            if has_json_content_type(&answer.headers) {
                reply.response_type = SendHttpResponseType::JSON;
            }
            reply.status = answer.status;
            reply.time = elapsed(started, finished);
            reply.size = answer.body.as_str().len() as u64;
            reply.headers = answer.headers;
            reply.body = answer.body;
        },
        Err(error) => {
            reply.failed = true;
            reply.body = error;
        },
    }
    reply.request_index = request_index;
    reply
}

/// The request that a `SEND_HTTP` order asks for.
pub fn request_of(order: SendHttpMsg) -> (request: SendHttpRequest)
    ensures
        request.url@ == effective_url(order.url@),
        request.method == order.method,
        request.body == order.body,
        request.headers == order.headers,
        request.request_index == order.index,
{
    SendHttpRequest {
        url: normalize_url(order.url),
        method: order.method,
        body: order.body,
        headers: order.headers,
        request_index: order.index,
    }
}

} // verus!
