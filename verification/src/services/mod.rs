pub mod filtering;
pub mod response;
pub mod s3;
pub mod sqs;
