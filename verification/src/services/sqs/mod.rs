pub mod sqs;
