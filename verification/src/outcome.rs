//! The handler-chain protocol: a handler either terminates the chain with a
//! fully described response, or declines and leaves the response untouched
//! for a later handler.

use vstd::prelude::*;

verus! {

/// A response as a handler commits it: a status code, the two headers this
/// policy ever sets, and the body bytes.
#[derive(Debug, Clone, PartialEq, Eq)]
pub struct ServedResponse {
    /// The HTTP status code written for this response.
    pub status: u16,
    /// The value of the `Location` header, when one is set.
    pub location: Option<Vec<u8>>,
    /// The value of the `Cache-Control` header, when one is set.
    pub cache_control: Option<Vec<u8>>,
    /// The response body.
    pub body: Vec<u8>,
}

/// The mathematical value of a [`ServedResponse`].
pub struct ResponseView {
    pub status: u16,
    pub location: Option<Seq<u8>>,
    pub cache_control: Option<Seq<u8>>,
    pub body: Seq<u8>,
}

/// The mathematical value of an optional byte string.
pub open spec fn opt_bytes_view(o: Option<Vec<u8>>) -> Option<Seq<u8>> {
    match o {
        Some(v) => Some(v@),
        None => None,
    }
}

impl View for ServedResponse {
    type V = ResponseView;

    open spec fn view(&self) -> ResponseView {
        ResponseView {
            status: self.status,
            location: opt_bytes_view(self.location),
            cache_control: opt_bytes_view(self.cache_control),
            body: self.body@,
        }
    }
}

/// What a handler decided for one request. `Decline` carries no response at
/// all: by construction a declining handler has written nothing.
#[derive(Debug, Clone, PartialEq, Eq)]
pub enum HandlerOutcome {
    /// The response is fully committed; the chain stops here.
    Terminate(ServedResponse),
    /// This handler produced nothing; the chain continues.
    Decline,
}

/// The mathematical value of a [`HandlerOutcome`].
pub enum OutcomeView {
    Terminate(ResponseView),
    Decline,
}

impl View for HandlerOutcome {
    type V = OutcomeView;

    open spec fn view(&self) -> OutcomeView {
        match self {
            HandlerOutcome::Terminate(resp) => OutcomeView::Terminate(resp.view()),
            HandlerOutcome::Decline => OutcomeView::Decline,
        }
    }
}

} // verus!
