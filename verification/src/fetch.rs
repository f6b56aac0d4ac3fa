//! One fetch: a single `GET` to the endpoint and what is made of the answer.
//!
//! Sending the request is the transport's work. What is sent, and what an
//! answer comes to, is decided here.

use crate::envelope::{envelope_of, parse_envelope, EnvelopeError};
use crate::request::{opt_text, request_url, request_url_text, texts, ACCEPT_HEADER, ACCEPT_JSON};
use crate::store::{lemma_index_last_wins, store_of, SibResponse, SibResponseView};
use vstd::prelude::*;

verus! {

/// A header of a request.
#[derive(Debug)]
pub struct Header {
    pub name: String,
    pub value: String,
}

/// The method of a request. A fetch only ever reads.
#[derive(Debug, Clone, Copy, PartialEq, Eq, Structural)]
pub enum Method {
    Get,
}

/// A request without a body.
#[derive(Debug)]
pub struct Request {
    pub method: Method,
    pub url: String,
    pub headers: Vec<Header>,
}

/// A request as the contracts speak of it.
pub struct RequestView {
    pub method: Method,
    pub url: Seq<char>,
    pub headers: Seq<(Seq<char>, Seq<char>)>,
}

impl View for Request {
    type V = RequestView;

    open spec fn view(&self) -> RequestView {
        RequestView {
            method: self.method,
            url: self.url@,
            headers: self.headers@.map_values(|header: Header| (header.name@, header.value@)),
        }
    }
}

/// What the server answered: the status code and the whole body.
#[derive(Debug)]
pub struct Reply {
    pub status: u16,
    pub body: Vec<u8>,
}

/// Why a fetch yields no store. `E` is the transport's own error.
#[derive(Debug)]
pub enum FetchError<E> {
    /// The endpoint is a URL too long to take the query parameters. Nothing
    /// was sent.
    UrlTooLong,
    /// The request did not get an answer.
    Transport(E),
    /// The server answered with a status other than success.
    Status(u16),
    /// The body of the answer is no envelope.
    Envelope(EnvelopeError),
}

/// The view of what a fetch returns.
pub open spec fn fetch_view<E>(r: Result<SibResponse, FetchError<E>>) -> Result<
    SibResponseView,
    FetchError<E>,
> {
    match r {
        Ok(store) => Ok(store@),
        Err(e) => Err(e),
    }
}

/// The request of a fetch: a `GET` to the URL that [`request_url_text`]
/// gives, with the one header `accept: application/json`. `None` where that
/// URL cannot be built.
pub open spec fn planned_request(
    endpoint: Seq<char>,
    types: Seq<Seq<char>>,
    source: Option<Seq<char>>,
) -> Option<RequestView> {
    match request_url_text(endpoint, types, source) {
        Some(url) => Some(
            RequestView { method: Method::Get, url, headers: seq![(ACCEPT_HEADER@, ACCEPT_JSON@)] },
        ),
        None => None,
    }
}

/// Whether a status code reports success: the codes from 200 to 299.
pub open spec fn is_success(status: u16) -> bool {
    200 <= status <= 299
}

/// What an answer comes to: the store of its blocks under the endpoint as
/// the caller gave it, or the reason why there is none. The status is looked
/// at first; with a status other than success the body does not matter.
pub open spec fn response_outcome<E>(endpoint: Seq<char>, status: u16, body: Seq<u8>) -> Result<
    SibResponseView,
    FetchError<E>,
> {
    if !is_success(status) {
        Err(FetchError::Status(status))
    } else {
        match envelope_of(body) {
            Ok(blocks) => Ok(store_of(endpoint, blocks)),
            Err(e) => Err(FetchError::Envelope(e)),
        }
    }
}

/// What a fetch comes to once the transport has done its part.
pub open spec fn fetch_outcome<E>(endpoint: Seq<char>, answer: Result<Reply, E>) -> Result<
    SibResponseView,
    FetchError<E>,
> {
    match answer {
        Ok(reply) => response_outcome(endpoint, reply.status, reply.body@),
        Err(e) => Err(FetchError::Transport(e)),
    }
}

/// Whether a transport may be handed the request of a fetch.
pub open spec fn can_send<E, F: FnOnce(Request) -> Result<Reply, E>>(
    endpoint: Seq<char>,
    types: Seq<Seq<char>>,
    source: Option<Seq<char>>,
    transport: F,
) -> bool {
    forall|request: Request|
        planned_request(endpoint, types, source) == Some(request@) ==> #[trigger] transport.requires(
            (request,),
        )
}

/// Whether `outcome` is what a fetch comes to with a transport: the error
/// `UrlTooLong` where no request can be built, and else what
/// [`fetch_outcome`] makes of something that the transport returns for the
/// planned request.
pub open spec fn may_fetch<E, F: FnOnce(Request) -> Result<Reply, E>>(
    endpoint: Seq<char>,
    types: Seq<Seq<char>>,
    source: Option<Seq<char>>,
    transport: F,
    outcome: Result<SibResponseView, FetchError<E>>,
) -> bool {
    if planned_request(endpoint, types, source) is None {
        outcome == Err::<SibResponseView, FetchError<E>>(FetchError::UrlTooLong)
    } else {
        exists|request: Request, answer: Result<Reply, E>|
            {
                &&& planned_request(endpoint, types, source) == Some(request@)
                &&& #[trigger] transport.ensures((request,), answer)
                &&& outcome == fetch_outcome(endpoint, answer)
            }
    }
}

/// Builds the request of a fetch; see [`planned_request`].
pub fn plan_request(endpoint: &str, types: &[&str], source: Option<&str>) -> (r: Option<Request>)
    ensures
        match r {
            Some(request) => planned_request(endpoint@, texts(types@), opt_text(source)) == Some(
                request@,
            ),
            None => planned_request(endpoint@, texts(types@), opt_text(source)) is None,
        },
{
    match request_url(endpoint, types, source) {
        None => None,
        Some(url) => {
            let mut headers: Vec<Header> = Vec::new();
            headers.push(Header { name: ACCEPT_HEADER.to_owned(), value: ACCEPT_JSON.to_owned() });
            let request = Request { method: Method::Get, url, headers };
            proof {
                assert(request@.headers =~= seq![(ACCEPT_HEADER@, ACCEPT_JSON@)]);
            }
            Some(request)
        },
    }
}

/// Whether a status code reports success.
pub fn status_is_success(status: u16) -> (r: bool)
    ensures
        r == is_success(status),
{
    200 <= status && status <= 299
}

/// Makes the store out of an answer; see [`response_outcome`]. `endpoint` is
/// the endpoint as the caller gave it.
pub fn read_response<E>(endpoint: &str, status: u16, body: &[u8]) -> (r: Result<
    SibResponse,
    FetchError<E>,
>)
    ensures
        fetch_view(r) == response_outcome::<E>(endpoint@, status, body@),
{
    if !status_is_success(status) {
        return Err(FetchError::Status(status));
    }
    match parse_envelope(body) {
        Err(e) => Err(FetchError::Envelope(e)),
        Ok(blocks) => Ok(SibResponse::new(endpoint, blocks)),
    }
}

/// Fetches the blocks of `types` from `url`, for the data source `source` if
/// one is given, and indexes them.
///
/// `transport` is handed the planned request and is called once, unless the
/// URL cannot be built, in which case nothing is sent. Whatever it returns
/// decides the rest: its error is passed on, its reply is read as
/// [`response_outcome`] says.
pub fn query_sib<E, F>(url: &str, types: &[&str], source: Option<&str>, transport: F) -> (r: Result<
    SibResponse,
    FetchError<E>,
>) where F: FnOnce(Request) -> Result<Reply, E>
    requires
        can_send(url@, texts(types@), opt_text(source), transport),
    ensures
        may_fetch(url@, texts(types@), opt_text(source), transport, fetch_view(r)),
{
    let request = match plan_request(url, types, source) {
        None => { return Err(FetchError::UrlTooLong); },
        Some(request) => request,
    };
    let ghost sent = request;
    let answer = transport(request);
    let ghost got = answer;
    let r = match answer {
        Err(e) => Err(FetchError::Transport(e)),
        Ok(reply) => read_response(url, reply.status, reply.body.as_slice()),
    };
    proof {
        assert(transport.ensures((sent,), got));
        assert(fetch_view(r) == fetch_outcome(url@, got));
    }
    r
}

/// A status other than success ends the fetch with that status as the
/// error, whatever the body holds: no store comes out, and so no block of
/// the body does.
pub proof fn lemma_failed_status<E>(endpoint: Seq<char>, status: u16, body: Seq<u8>)
    requires
        !is_success(status),
    ensures
        response_outcome::<E>(endpoint, status, body) == Err::<SibResponseView, FetchError<E>>(
            FetchError::Status(status),
        ),
{
}

/// A successful answer whose body is an envelope gives a store that keeps
/// the endpoint as it was given and holds, under the type of each block that
/// is the last of its type, that block as the body spells it.
pub proof fn lemma_store_holds_envelope<E>(endpoint: Seq<char>, status: u16, body: Seq<u8>, i: int)
    requires
        is_success(status),
        envelope_of(body) is Ok,
        0 <= i < envelope_of(body)->Ok_0.len(),
        forall|j: int|
            i < j < envelope_of(body)->Ok_0.len() ==> (#[trigger] envelope_of(body)->Ok_0[j]).block_type
                != envelope_of(body)->Ok_0[i].block_type,
    ensures
        response_outcome::<E>(endpoint, status, body) is Ok,
        ({
            let store = response_outcome::<E>(endpoint, status, body)->Ok_0;
            let block = envelope_of(body)->Ok_0[i];
            &&& store.url == endpoint
            &&& store.blocks.contains_key(block.block_type)
            &&& store.blocks[block.block_type] == block
        }),
{
    lemma_index_last_wins(envelope_of(body)->Ok_0, i);
}

} // verus!
