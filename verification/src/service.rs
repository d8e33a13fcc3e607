//! The handlers of the service: what each request is answered with.
//!
//! A handler takes and gives plain values. Receiving the request and sending
//! the answer is the caller's work.

use crate::handler::{
    batch,
    process_constant,
    resolution,
    results_view,
    ConstantProcessResult,
    ConstantRequestPayload,
    Dataset,
};
use crate::lifecycle::ShutdownSignal;
use crate::reply::{ok_text, Body, BodyView, Reply, ReplyView, STATUS_OK};
use vstd::prelude::*;

verus! {

/// Answers the liveness probe.
pub fn hello() -> (r: Reply)
    ensures
        r@ == ok_text("Hello, world!"@),
{
    Reply { status: STATUS_OK, body: Body::Text(String::from_str("Hello, world!")) }
}

/// Answers the health probe.
pub fn health_check() -> (r: Reply)
    ensures
        r@ == ok_text("Tutto Bene!"@),
{
    Reply { status: STATUS_OK, body: Body::Text(String::from_str("Tutto Bene!")) }
}

/// Answers the request to shut down: an acknowledgement, and the signal that
/// the caller is to send to the coordinator. However often it is asked, it
/// answers the same.
pub fn quit() -> (r: (Reply, ShutdownSignal))
    ensures
        r.0@ == ok_text("Shutting down server..."@),
{
    (
        Reply { status: STATUS_OK, body: Body::Text(String::from_str("Shutting down server...")) },
        ShutdownSignal {  },
    )
}

/// Resolves a batch of names. The answer always succeeds and holds one
/// result for each name, in the order of the names, each bearing its name; a
/// name that is not known is a result that says so, not a failure. No names
/// give no results.
pub fn request_constants(dataset: &Dataset, payload: &ConstantRequestPayload) -> (r: Reply)
    ensures
        r@ == (ReplyView { status: 200, body: BodyView::Results(batch(dataset@, payload@)) }),
        r.status == 200,
        r.body matches Body::Results(results) && {
            &&& results.len() == payload.names.len()
            &&& forall|i: int|
                0 <= i < results.len() ==> (#[trigger] results[i]).name@ == payload.names[i]@
            &&& forall|i: int|
                0 <= i < results.len() ==> (#[trigger] results[i])@ == resolution(
                    dataset@,
                    payload.names[i]@,
                )
            &&& payload.names.len() == 0 ==> results@ == Seq::<ConstantProcessResult>::empty()
        },
{
    let mut results: Vec<ConstantProcessResult> = Vec::new();
    let mut i: usize = 0;
    while i < payload.names.len()
        invariant
            i <= payload.names.len(),
            results.len() == i,
            forall|j: int|
                0 <= j < i ==> (#[trigger] results[j])@ == resolution(
                    dataset@,
                    payload.names[j]@,
                ),
        decreases payload.names.len() - i,
    {
        let result = process_constant(dataset, payload.names[i].as_str());
        results.push(result);
        i = i + 1;
    }
    assert(results_view(results@) == batch(dataset@, payload@));
    Reply { status: STATUS_OK, body: Body::Results(results) }
}

} // verus!
