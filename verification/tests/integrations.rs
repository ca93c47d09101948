use std::cell::RefCell;
use std::collections::{BTreeMap, VecDeque};

use rust_cloud_lab::dto::message::Message;
use rust_cloud_lab::infra::s3::app_state::AppState;
use rust_cloud_lab::infra::s3::repository::S3Repository;
use rust_cloud_lab::infra::sqs::repository::SqsRepository;
use rust_cloud_lab::services::response::ApiResponse;
use rust_cloud_lab::services::s3::s3::{health_handler, read_message, save_message};
use rust_cloud_lab::services::sqs::sqs::{consume_messages, publish_message};

/// An object store kept in memory, one map of keys to bytes per bucket.
struct MemoryStore {
    buckets: RefCell<BTreeMap<String, BTreeMap<String, Vec<u8>>>>,
}

impl S3Repository for MemoryStore {
    fn save(&self, bucket: &str, key: &str, content: Vec<u8>) -> Result<(), String> {
        self.buckets
            .borrow_mut()
            .entry(bucket.to_string())
            .or_default()
            .insert(key.to_string(), content);
        Ok(())
    }
    fn list(&self, bucket: &str) -> Result<Vec<String>, String> {
        match self.buckets.borrow().get(bucket) {
            Some(objects) => Ok(objects.keys().cloned().collect()),
            None => Err(format!("no bucket {}", bucket)),
        }
    }
    fn get(&self, bucket: &str, key: &str) -> Result<String, String> {
        let buckets = self.buckets.borrow();
        let bytes = buckets
            .get(bucket)
            .and_then(|objects| objects.get(key))
            .ok_or_else(|| format!("no object {}", key))?;
        String::from_utf8(bytes.clone()).map_err(|e| e.to_string())
    }
}

/// A queue kept in memory; a receive takes at most ten messages.
struct MemoryQueue {
    queues: RefCell<BTreeMap<String, VecDeque<String>>>,
}

impl SqsRepository for MemoryQueue {
    fn publish(&self, queue_url: &str, message: &str) -> Result<(), String> {
        self.queues
            .borrow_mut()
            .entry(queue_url.to_string())
            .or_default()
            .push_back(message.to_string());
        Ok(())
    }
    fn consume(&self, queue_url: &str) -> Result<Vec<String>, String> {
        let mut queues = self.queues.borrow_mut();
        let queue = queues.entry(queue_url.to_string()).or_default();
        let n = queue.len().min(10);
        Ok(queue.drain(..n).collect())
    }
}

fn spawn_app() -> AppState<MemoryStore, MemoryQueue> {
    let mut buckets = BTreeMap::new();
    buckets.insert("test-bucket".to_string(), BTreeMap::new());
    AppState::new(
        MemoryStore { buckets: RefCell::new(buckets) },
        "test-bucket".to_string(),
        MemoryQueue { queues: RefCell::new(BTreeMap::new()) },
        "http://localhost:4566/000000000000/test-queue".to_string(),
    )
}

#[test]
fn health_check_retorna_ok() {
    assert_eq!(health_handler(), "OK");
}

#[test]
fn save_e_read_message() {
    let state = spawn_app();

    let response = save_message(&state, Message { content: "teste de integração".to_string() });
    assert_eq!(response, ApiResponse::Status("salvo no S3!".to_string()));

    let response = read_message(&state);
    match response {
        ApiResponse::Messages(messages) => {
            assert!(!messages.is_empty());
            assert_eq!(messages[0].content, "teste de integração");
        }
        other => panic!("unexpected answer {:?}", other),
    }
}

#[test]
fn publish_e_consume_message() {
    let state = spawn_app();

    let response = publish_message(&state, Message { content: "teste sqs integração".to_string() });
    assert_eq!(response, ApiResponse::Status("mensagem publicada na fila!".to_string()));

    let response = consume_messages(&state);
    match response {
        ApiResponse::QueueMessages(messages) => {
            assert!(!messages.is_empty());
            assert_eq!(messages[0], "teste sqs integração");
        }
        other => panic!("unexpected answer {:?}", other),
    }
}

#[test]
fn save_then_read_returns_every_saved_message_under_its_key() {
    let state = spawn_app();
    save_message(&state, Message::new("primeira".to_string()));
    save_message(&state, Message::new("segunda".to_string()));
    let keys = state.s3.list("test-bucket").unwrap();
    assert_eq!(keys.len(), 2);
    match read_message(&state) {
        ApiResponse::Messages(messages) => {
            assert_eq!(messages.len(), 2);
            let mut contents: Vec<String> = messages.iter().map(|m| m.content.clone()).collect();
            contents.sort();
            assert_eq!(contents, vec!["primeira".to_string(), "segunda".to_string()]);
            for m in &messages {
                assert!(keys.contains(&m.id));
                assert!(m.id.ends_with(".txt"));
            }
        }
        other => panic!("unexpected answer {:?}", other),
    }
}

#[test]
fn read_from_missing_bucket_reports_error() {
    let state = AppState::new(
        MemoryStore { buckets: RefCell::new(BTreeMap::new()) },
        "absent".to_string(),
        MemoryQueue { queues: RefCell::new(BTreeMap::new()) },
        "q".to_string(),
    );
    assert_eq!(read_message(&state), ApiResponse::Failure("no bucket absent".to_string()));
}
