use vstd::prelude::*;
use crate::services::response::{texts_result_view, unit_result_view};

verus! {

/// A message queue.
///
/// Implemented by the service's own queue client and by test doubles. Nothing
/// is promised of what a queue answers: the handlers are verified for every
/// answer. `publish_answer` and `consume_answer` are how an implementation
/// relates a request to the answers it may give; the handlers speak of their
/// requests through them.
pub trait SqsRepository {
    /// Holds when `answer` is an answer this queue may give to a request to
    /// send `message` to the queue at `queue_url`. By default every
    /// answer counts; an implementation that knows more says so.
    open spec fn publish_answer(&self, queue_url: Seq<char>, message: Seq<char>, answer: Result<(), Seq<char>>) -> bool {
        true
    }

    /// Holds when `answer` is an answer this queue may give to a request to
    /// take the waiting bodies from the queue at `queue_url`. By default
    /// every answer counts; an implementation that knows more says so.
    open spec fn consume_answer(&self, queue_url: Seq<char>, answer: Result<Seq<Seq<char>>, Seq<char>>) -> bool {
        true
    }

    /// Sends `message` to the queue at `queue_url`.
    fn publish(&self, queue_url: &str, message: &str) -> (answer: Result<(), String>)
        ensures
            self.publish_answer(queue_url@, message@, unit_result_view(answer)),
    ;

    /// Takes the waiting message bodies from the queue at `queue_url`.
    fn consume(&self, queue_url: &str) -> (answer: Result<Vec<String>, String>)
        ensures
            self.consume_answer(queue_url@, texts_result_view(answer)),
    ;
}

} // verus!
