use vstd::prelude::*;
use vstd::string::*;
use crate::dto::message::Message;
use crate::infra::s3::app_state::AppState;
use crate::infra::s3::repository::S3Repository;
use crate::infra::sqs::repository::SqsRepository;
use crate::services::response::{texts, texts_result_view, unit_result_view, ApiResponse, ResponseView};

verus! {

/// The status text sent back once a message is on the queue.
pub open spec fn published_status() -> Seq<char> {
    "mensagem publicada na fila!"@
}

/// The answer to a publish request, given what the queue answered.
pub open spec fn publish_outcome(published: Result<(), Seq<char>>) -> ResponseView {
    match published {
        Ok(()) => ResponseView::Status(published_status()),
        Err(e) => ResponseView::Failure(e),
    }
}

/// The answer to a consume request, given what the queue answered.
pub open spec fn consume_outcome(consumed: Result<Seq<Seq<char>>, Seq<char>>) -> ResponseView {
    match consumed {
        Ok(bodies) => ResponseView::QueueMessages(bodies),
        Err(e) => ResponseView::Failure(e),
    }
}

/// The answer to a publish request: the published status, or the queue's error.
pub fn publish_response(published: Result<(), String>) -> (response: ApiResponse)
    ensures
        response@ == publish_outcome(
            match published {
                Ok(()) => Ok(()),
                Err(e) => Err(e@),
            },
        ),
        published is Ok ==> (response matches ApiResponse::Status(t) && t@ == "mensagem publicada na fila!"@),
        published matches Err(e) ==> (response matches ApiResponse::Failure(f) && f@ == e@),
{
    match published {
        Ok(()) => ApiResponse::Status(String::from_str("mensagem publicada na fila!")),
        Err(e) => ApiResponse::Failure(e),
    }
}

/// The answer to a consume request: the bodies taken from the queue, in the
/// order the queue gave them, or the queue's error.
pub fn consume_response(consumed: Result<Vec<String>, String>) -> (response: ApiResponse)
    ensures
        response@ == consume_outcome(
            match consumed {
                Ok(bodies) => Ok(texts(bodies@)),
                Err(e) => Err(e@),
            },
        ),
        consumed matches Ok(bodies) ==> (response matches ApiResponse::QueueMessages(out) && out@.len() == bodies@.len()
            && forall|i: int| 0 <= i < bodies@.len() ==> #[trigger] out@[i]@ == bodies@[i]@),
        consumed matches Err(e) ==> (response matches ApiResponse::Failure(f) && f@ == e@),
{
    match consumed {
        Ok(bodies) => ApiResponse::QueueMessages(bodies),
        Err(e) => ApiResponse::Failure(e),
    }
}

/// Publishes the message's text to the queue and answers with the published
/// status or the queue's error.
pub fn publish_message<S: S3Repository, Q: SqsRepository>(state: &AppState<S, Q>, payload: Message) -> (response: ApiResponse)
    ensures
        exists|published: Result<(), Seq<char>>|
            state.sqs.publish_answer(state.queue_url@, payload.content@, published)
            && response@ == #[trigger] publish_outcome(published),
{
    let published = state.sqs.publish(state.queue_url.as_str(), payload.content.as_str());
    let ghost published_view = unit_result_view(published);
    let response = publish_response(published);
    assert(state.sqs.publish_answer(state.queue_url@, payload.content@, published_view)
        && response@ == publish_outcome(published_view));
    response
}

/// Takes the waiting messages from the queue and answers with their bodies or
/// with the queue's error.
pub fn consume_messages<S: S3Repository, Q: SqsRepository>(state: &AppState<S, Q>) -> (response: ApiResponse)
    ensures
        consume_answered(&state.sqs, state.queue_url@, response@),
{
    let consumed = state.sqs.consume(state.queue_url.as_str());
    let ghost consumed_view = texts_result_view(consumed);
    let response = consume_response(consumed);
    assert(state.sqs.consume_answer(state.queue_url@, consumed_view) && response@ == consume_outcome(consumed_view));
    response
}

/// A consume answer hands the queue's bodies back as they came: the same
/// number, each in its place; a failed consume hands back the queue's error.
pub proof fn lemma_consume_outcome(bodies: Seq<Seq<char>>, error: Seq<char>)
    ensures
        consume_outcome(Ok(bodies)) matches ResponseView::QueueMessages(out) && out.len() == bodies.len()
            && forall|i: int| 0 <= i < bodies.len() ==> #[trigger] out[i] == bodies[i],
        consume_outcome(Err(error)) == ResponseView::Failure(error),
{
}

/// `response` answers a consume request on the queue at `queue_url`: it is
/// `consume_outcome` of an answer the queue may give to that request.
pub open spec fn consume_answered<Q: SqsRepository>(queue: &Q, queue_url: Seq<char>, response: ResponseView) -> bool {
    exists|consumed: Result<Seq<Seq<char>>, Seq<char>>|
        #[trigger] queue.consume_answer(queue_url, consumed) && response == consume_outcome(consumed)
}

/// The queue delivers `message`: every answer it may give to a consume request
/// on `queue_url` succeeds and includes `message`.
pub open spec fn delivers<Q: SqsRepository>(queue: &Q, queue_url: Seq<char>, message: Seq<char>) -> bool {
    forall|consumed: Result<Seq<Seq<char>>, Seq<char>>|
        #[trigger] queue.consume_answer(queue_url, consumed) ==> (consumed matches Ok(bodies) && bodies.contains(message))
}

/// Publish, then consume: when the queue at `queue_url` accepted `message` (as
/// `publish_message` asks it to) and then delivers it, the answer to a later
/// consume request on that queue holds `message`.
pub proof fn lemma_publish_then_consume<Q: SqsRepository>(
    queue: &Q,
    queue_url: Seq<char>,
    message: Seq<char>,
    response: ResponseView,
)
    requires
        queue.publish_answer(queue_url, message, Ok(())),
        delivers(queue, queue_url, message),
        consume_answered(queue, queue_url, response),
    ensures
        response matches ResponseView::QueueMessages(bodies) && bodies.contains(message),
{
    let consumed = choose|consumed: Result<Seq<Seq<char>>, Seq<char>>|
        #[trigger] queue.consume_answer(queue_url, consumed) && response == consume_outcome(consumed);
    assert(queue.consume_answer(queue_url, consumed));
}

/// Publish, then consume, on a queue that held nothing before: when the queue
/// at `queue_url` accepted `message` and every answer it may give to a consume
/// request there is exactly `[message]`, a later consume request is answered
/// with that one body and nothing else.
pub proof fn lemma_publish_then_consume_only<Q: SqsRepository>(
    queue: &Q,
    queue_url: Seq<char>,
    message: Seq<char>,
    response: ResponseView,
)
    requires
        queue.publish_answer(queue_url, message, Ok(())),
        forall|consumed: Result<Seq<Seq<char>>, Seq<char>>|
            #[trigger] queue.consume_answer(queue_url, consumed) ==> consumed == Ok::<Seq<Seq<char>>, Seq<char>>(seq![message]),
        consume_answered(queue, queue_url, response),
    ensures
        response == ResponseView::QueueMessages(seq![message]),
{
    let consumed = choose|consumed: Result<Seq<Seq<char>>, Seq<char>>|
        #[trigger] queue.consume_answer(queue_url, consumed) && response == consume_outcome(consumed);
    assert(queue.consume_answer(queue_url, consumed));
}

} // verus!
