use rust_cloud_lab::dto::message::Message;
use rust_cloud_lab::infra::s3::app_state::AppState;
use rust_cloud_lab::infra::s3::repository::S3Repository;
use rust_cloud_lab::infra::sqs::repository::SqsRepository;
use rust_cloud_lab::services::response::ApiResponse;
use rust_cloud_lab::services::sqs::sqs::{consume_messages, publish_message};

/// A store that is never used by the queue's handlers.
struct MockS3Repository;

impl S3Repository for MockS3Repository {
    fn save(&self, _bucket: &str, _key: &str, _content: Vec<u8>) -> Result<(), String> {
        Err("unexpected save".to_string())
    }
    fn list(&self, _bucket: &str) -> Result<Vec<String>, String> {
        Err("unexpected list".to_string())
    }
    fn get(&self, _bucket: &str, _key: &str) -> Result<String, String> {
        Err("unexpected get".to_string())
    }
}

/// A queue that gives fixed answers.
struct MockSqsRepository {
    publish_answer: Result<(), String>,
    consume_answer: Result<Vec<String>, String>,
}

impl MockSqsRepository {
    fn new() -> Self {
        MockSqsRepository {
            publish_answer: Err("unexpected publish".to_string()),
            consume_answer: Err("unexpected consume".to_string()),
        }
    }
}

impl SqsRepository for MockSqsRepository {
    fn publish(&self, _queue_url: &str, _message: &str) -> Result<(), String> {
        self.publish_answer.clone()
    }
    fn consume(&self, _queue_url: &str) -> Result<Vec<String>, String> {
        self.consume_answer.clone()
    }
}

fn make_state(mock_sqs: MockSqsRepository) -> AppState<MockS3Repository, MockSqsRepository> {
    AppState::new(
        MockS3Repository,
        "test-bucket".to_string(),
        mock_sqs,
        "http://localhost:4566/000000000000/test-queue".to_string(),
    )
}

#[test]
fn publish_message_retorna_sucesso() {
    let mut mock_sqs = MockSqsRepository::new();
    mock_sqs.publish_answer = Ok(());
    let state = make_state(mock_sqs);
    let payload = Message { content: "teste sqs".to_string() };
    let response = publish_message(&state, payload);
    assert_eq!(response, ApiResponse::Status("mensagem publicada na fila!".to_string()));
}

#[test]
fn consume_messages_retorna_lista_vazia() {
    let mut mock_sqs = MockSqsRepository::new();
    mock_sqs.consume_answer = Ok(vec![]);
    let state = make_state(mock_sqs);
    let response = consume_messages(&state);
    assert_eq!(response, ApiResponse::QueueMessages(vec![]));
}

#[test]
fn consume_messages_retorna_mensagens() {
    let mut mock_sqs = MockSqsRepository::new();
    mock_sqs.consume_answer = Ok(vec!["mensagem de teste".to_string()]);
    let state = make_state(mock_sqs);
    let response = consume_messages(&state);
    match response {
        ApiResponse::QueueMessages(messages) => assert_eq!(messages[0], "mensagem de teste"),
        other => panic!("unexpected answer {:?}", other),
    }
}

#[test]
fn publish_message_retorna_erro_da_fila() {
    let mut mock_sqs = MockSqsRepository::new();
    mock_sqs.publish_answer = Err("queue gone".to_string());
    let state = make_state(mock_sqs);
    let response = publish_message(&state, Message::new("x".to_string()));
    assert_eq!(response, ApiResponse::Failure("queue gone".to_string()));
}

#[test]
fn consume_messages_retorna_erro_da_fila() {
    let state = make_state(MockSqsRepository::new());
    assert_eq!(consume_messages(&state), ApiResponse::Failure("unexpected consume".to_string()));
}
