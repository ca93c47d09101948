pub mod s3;
pub mod sqs;
