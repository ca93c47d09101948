pub mod app_state;
pub mod object_key;
pub mod repository;
pub mod s3;
