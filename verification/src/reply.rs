//! What a handler answers, as plain values: a status and a body.

use crate::handler::{results_view, ConstantProcessResult, ResultView};
use vstd::prelude::*;

verus! {

/// The status of an answer that succeeded.
pub const STATUS_OK: u16 = 200;

/// The status of an answer that reports a failure of the service.
pub const STATUS_SERVICE_ERROR: u16 = 500;

/// What an answer carries.
#[derive(Debug, Clone, PartialEq, Eq)]
pub enum Body {
    /// Plain text.
    Text(String),
    /// An HTML page.
    Page(String),
    /// The answers to a batch of names, to be sent as a JSON array.
    Results(Vec<ConstantProcessResult>),
}

/// The answer to one request.
#[derive(Debug, Clone, PartialEq, Eq)]
pub struct Reply {
    pub status: u16,
    pub body: Body,
}

/// A body as plain values.
pub enum BodyView {
    Text(Seq<char>),
    Page(Seq<char>),
    Results(Seq<ResultView>),
}

/// An answer as plain values.
pub struct ReplyView {
    pub status: int,
    pub body: BodyView,
}

impl View for Body {
    type V = BodyView;

    open spec fn view(&self) -> BodyView {
        match self {
            Body::Text(text) => BodyView::Text(text@),
            Body::Page(page) => BodyView::Page(page@),
            Body::Results(results) => BodyView::Results(results_view(results@)),
        }
    }
}

impl View for Reply {
    type V = ReplyView;

    open spec fn view(&self) -> ReplyView {
        ReplyView { status: self.status as int, body: self.body@ }
    }
}

/// The answer that succeeds with a plain text.
pub open spec fn ok_text(text: Seq<char>) -> ReplyView {
    ReplyView { status: 200, body: BodyView::Text(text) }
}

/// The answer that reports a failure of the service in plain text.
pub open spec fn service_error(text: Seq<char>) -> ReplyView {
    ReplyView { status: 500, body: BodyView::Text(text) }
}

impl Reply {
    /// Whether the status says that the request succeeded: 200 to 299.
    pub fn is_success(&self) -> (r: bool)
        ensures
            r == (200 <= self.status <= 299),
    {
        200 <= self.status && self.status <= 299
    }
}

} // verus!
