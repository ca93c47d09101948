use vstd::prelude::*;
use crate::services::response::{result_view, texts_result_view, unit_result_view};

verus! {

/// An object store that keeps messages as objects in a bucket.
///
/// Implemented by the service's own store client and by test doubles. Nothing
/// is promised of what a store answers: the handlers are verified for every
/// answer. `save_answer`, `list_answer` and `get_answer` are how an
/// implementation relates a store request to the answers it may give; the
/// handlers speak of their requests through them.
pub trait S3Repository {
    /// Holds when `answer` is an answer this store may give to a request to
    /// store `content` under `key` in `bucket`. By default every
    /// answer counts; an implementation that knows more says so.
    open spec fn save_answer(&self, bucket: Seq<char>, key: Seq<char>, content: Seq<u8>, answer: Result<(), Seq<char>>) -> bool {
        true
    }

    /// Stores `content` under `key` in `bucket`.
    fn save(&self, bucket: &str, key: &str, content: Vec<u8>) -> (answer: Result<(), String>)
        ensures
            self.save_answer(bucket@, key@, content@, unit_result_view(answer)),
    ;

    /// Holds when `answer` is an answer this store may give to a request to
    /// list the keys in `bucket`. By default every answer counts; an
    /// implementation that knows more says so.
    open spec fn list_answer(&self, bucket: Seq<char>, answer: Result<Seq<Seq<char>>, Seq<char>>) -> bool {
        true
    }

    /// Holds when `answer` is an answer this store may give to a request to
    /// fetch the text stored under `key` in `bucket`. By default every answer
    /// counts; an implementation that knows more says so.
    open spec fn get_answer(&self, bucket: Seq<char>, key: Seq<char>, answer: Result<Seq<char>, Seq<char>>) -> bool {
        true
    }

    /// The keys of the objects in `bucket`.
    fn list(&self, bucket: &str) -> (answer: Result<Vec<String>, String>)
        ensures
            self.list_answer(bucket@, texts_result_view(answer)),
    ;

    /// The text of the object stored under `key` in `bucket`.
    fn get(&self, bucket: &str, key: &str) -> (answer: Result<String, String>)
        ensures
            self.get_answer(bucket@, key@, result_view(answer)),
    ;
}

} // verus!
