//! The write path and the consumer: a comment is stored first, then its topic
//! is handed to the pipeline on a best-effort basis; the consumer applies the
//! queued promotions in order.

use vstd::prelude::*;
use crate::comment::{stamped, Comment, CommentRequest, CommentStore, StoreError};
use crate::pipeline::{PipelineSaturated, UpdatePipeline};
use crate::recency::{promoted_all, RecencyList};
use crate::response::{HandlerResponse, Operation};

verus! {

/// Answers a comment submission once the store has spoken. On success the
/// topic is offered to the pipeline; a full pipeline is reported beside the
/// answer and changes nothing in it.
pub fn finish_submission(outcome: Result<Comment, StoreError>, pipeline: &mut UpdatePipeline) -> (r: (
    HandlerResponse<Comment>,
    Option<PipelineSaturated>,
))
    requires
        old(pipeline).wf(),
    ensures
        final(pipeline).wf(),
        final(pipeline).cap() == old(pipeline).cap(),
        outcome matches Ok(c) ==> {
            &&& r.0 == HandlerResponse::<Comment>::Success(c)
            &&& old(pipeline)@.len() < old(pipeline).cap() ==> r.1 is None && final(pipeline)@ == old(
                pipeline,
            )@.push(c.topic_id)
            &&& old(pipeline)@.len() >= old(pipeline).cap() ==> r.1 == Some(
                PipelineSaturated { topic_id: c.topic_id },
            ) && final(pipeline)@ == old(pipeline)@
        },
        outcome is Err ==> {
            &&& r.0.is_failure_of(Operation::AddComment)
            &&& r.1 is None
            &&& final(pipeline)@ == old(pipeline)@
            &&& final(pipeline).dropped_count() == old(pipeline).dropped_count()
        },
{
    match outcome {
        Ok(c) => {
            let sent = pipeline.notify(c.topic_id);
            let saturation = match sent {
                Ok(()) => None,
                Err(e) => Some(e),
            };
            (HandlerResponse::Success(c), saturation)
        },
        Err(_) => (HandlerResponse::failure(Operation::AddComment), None),
    }
}

/// Stores `request` as accepted at `now` and offers its topic to the
/// pipeline. The submission succeeds whatever state the pipeline is in.
pub fn submit_comment(
    store: &mut CommentStore,
    pipeline: &mut UpdatePipeline,
    request: CommentRequest,
    now: i64,
) -> (r: (HandlerResponse<Comment>, Option<PipelineSaturated>))
    requires
        old(store).wf(),
        old(store)@.len() < usize::MAX,
        old(pipeline).wf(),
    ensures
        final(store).wf(),
        final(pipeline).wf(),
        r.0 == HandlerResponse::<Comment>::Success(stamped(request, now)),
        exists|p: int|
            0 <= p <= old(store)@.len() && final(store)@ == old(store)@.insert(p, stamped(request, now)),
        old(pipeline)@.len() < old(pipeline).cap() ==> r.1 is None && final(pipeline)@ == old(
            pipeline,
        )@.push(request.topic_id),
        old(pipeline)@.len() >= old(pipeline).cap() ==> r.1 == Some(
            PipelineSaturated { topic_id: request.topic_id },
        ) && final(pipeline)@ == old(pipeline)@,
{
    let c = store.append_at(request, now);
    finish_submission(Ok(c), pipeline)
}

/// Hands every waiting notification, oldest first, to `tracker`.
pub fn process_pending(pipeline: &mut UpdatePipeline, tracker: &mut RecencyList) -> (r: usize)
    requires
        old(pipeline).wf(),
        old(tracker).wf(),
    ensures
        final(pipeline).wf(),
        final(pipeline)@ == Seq::<u128>::empty(),
        final(pipeline).cap() == old(pipeline).cap(),
        final(tracker).wf(),
        final(tracker).cap() == old(tracker).cap(),
        final(tracker)@ == promoted_all(old(tracker)@, old(pipeline)@, old(tracker).cap()),
        r == old(pipeline)@.len(),
{
    let ghost ids = pipeline@;
    let ghost start = tracker@;
    let total = pipeline.pending();
    let mut n: usize = 0;
    while pipeline.pending() > 0
        invariant
            pipeline.wf(),
            tracker.wf(),
            pipeline.cap() == old(pipeline).cap(),
            tracker.cap() == old(tracker).cap(),
            n <= ids.len(),
            ids.len() == total,
            pipeline@ == ids.skip(n as int),
            promoted_all(start, ids, tracker.cap()) == promoted_all(tracker@, pipeline@, tracker.cap()),
        decreases pipeline@.len(),
    {
        let ghost before = pipeline@;
        let next = pipeline.next();
        match next {
            Some(id) => {
                assert(ids.skip(n + 1) =~= ids.skip(n as int).drop_first());
                tracker.promote(id);
                n = n + 1;
            },
            None => {},
        }
    }
    proof {
        assert(ids.skip(ids.len() as int) =~= Seq::<u128>::empty());
    }
    n
}

} // verus!
