use vstd::prelude::*;
use crate::infra::s3::repository::S3Repository;
use crate::infra::sqs::repository::SqsRepository;

verus! {

/// What every handler works with: the object store and its bucket, the queue
/// and its URL.
pub struct AppState<S: S3Repository, Q: SqsRepository> {
    pub s3: S,
    pub bucket: String,
    pub sqs: Q,
    pub queue_url: String,
}

impl<S: S3Repository, Q: SqsRepository> AppState<S, Q> {
    /// Puts the store, the bucket, the queue and the queue's URL together.
    pub fn new(s3: S, bucket: String, sqs: Q, queue_url: String) -> (state: Self)
        ensures
            state.s3 == s3,
            state.bucket == bucket,
            state.sqs == sqs,
            state.queue_url == queue_url,
    {
        AppState { s3, bucket, sqs, queue_url }
    }
}

} // verus!
