pub mod repository;
pub mod sqs;
