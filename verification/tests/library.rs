use rust_cloud_lab::dto::message::Message;
use rust_cloud_lab::services::s3::s3::stored_object;
use rust_cloud_lab::infra::s3::object_key::{message_key, new_message_key, uuid_key};
use rust_cloud_lab::infra::s3::s3::{choose_endpoint, listed_keys, object_text, S3};
use rust_cloud_lab::infra::sqs::sqs::{received_bodies, Sqs};
use rust_cloud_lab::services::response::{ApiResponse, MessageEntry};
use rust_cloud_lab::services::s3::s3::{read_response, save_response};
use rust_cloud_lab::services::sqs::sqs::{consume_response, publish_response};

#[test]
fn message_key_appends_txt() {
    assert_eq!(message_key("abc"), "abc.txt");
    assert_eq!(message_key(""), ".txt");
}

#[test]
fn new_message_key_is_a_v4_uuid_text_with_txt() {
    let key = new_message_key();
    assert_eq!(key.len(), 40);
    assert!(key.ends_with(".txt"));
    let chars: Vec<char> = key.chars().collect();
    for (i, c) in chars[..36].iter().enumerate() {
        if i == 8 || i == 13 || i == 18 || i == 23 {
            assert_eq!(*c, '-');
        } else {
            assert!(c.is_ascii_hexdigit() && !c.is_ascii_uppercase());
        }
    }
    assert_eq!(chars[14], '4');
    assert!("89ab".contains(chars[19]));
}

#[test]
fn new_message_keys_differ() {
    assert_ne!(new_message_key(), new_message_key());
}

#[test]
fn s3_settings_and_info() {
    let s3 = S3::new(None, "bucket-1".to_string());
    assert_eq!(s3.endpoint, "http://localstack:4566");
    assert_eq!(s3.info(), "Endpoint: http://localstack:4566, Bucket_Name: bucket-1");
    let s3 = S3::new(Some("http://example:1".to_string()), "b".to_string());
    assert_eq!(s3.info(), "Endpoint: http://example:1, Bucket_Name: b");
}

#[test]
fn sqs_settings_and_info() {
    let sqs = Sqs::new(None, "http://q/1".to_string());
    assert_eq!(sqs.info(), "Endpoint: http://localstack:4566, Queue: http://q/1");
    assert_eq!(choose_endpoint(Some("e".to_string())), "e");
}

#[test]
fn received_bodies_skip_missing() {
    assert_eq!(received_bodies(None), Vec::<String>::new());
    assert_eq!(
        received_bodies(Some(vec![Some("a".to_string()), None, Some("b".to_string())])),
        vec!["a".to_string(), "b".to_string()]
    );
    assert_eq!(received_bodies(Some(vec![None, None])), Vec::<String>::new());
}

#[test]
fn read_response_cases() {
    assert_eq!(read_response(Err("e".to_string()), vec![]), ApiResponse::Failure("e".to_string()));
    assert_eq!(read_response(Ok(vec![]), vec![]), ApiResponse::Messages(vec![]));
    assert_eq!(
        read_response(
            Ok(vec!["k1".to_string(), "k2".to_string(), "k3".to_string()]),
            vec![Ok("c1".to_string()), Err("lost".to_string()), Ok("c3".to_string())]
        ),
        ApiResponse::Messages(vec![
            MessageEntry { id: "k1".to_string(), content: "c1".to_string() },
            MessageEntry { id: "k3".to_string(), content: "c3".to_string() },
        ])
    );
}

#[test]
fn status_responses() {
    assert_eq!(save_response(Ok(())), ApiResponse::Status("salvo no S3!".to_string()));
    assert_eq!(save_response(Err("x".to_string())), ApiResponse::Failure("x".to_string()));
    assert_eq!(publish_response(Ok(())), ApiResponse::Status("mensagem publicada na fila!".to_string()));
    assert_eq!(publish_response(Err("y".to_string())), ApiResponse::Failure("y".to_string()));
    assert_eq!(consume_response(Ok(vec!["m".to_string()])), ApiResponse::QueueMessages(vec!["m".to_string()]));
    assert_eq!(consume_response(Err("z".to_string())), ApiResponse::Failure("z".to_string()));
}

#[test]
fn stored_object_is_key_and_utf8_text() {
    let (key, bytes) = stored_object(Message::new("olá".to_string()));
    assert_eq!(bytes, "olá".as_bytes().to_vec());
    assert_eq!(bytes.len(), 4);
    assert_eq!(key.len(), 40);
    assert!(key.ends_with(".txt"));
}

#[test]
fn listed_keys_skip_missing() {
    assert_eq!(listed_keys(vec![]), Vec::<String>::new());
    assert_eq!(
        listed_keys(vec![None, Some("a.txt".to_string()), None, Some("b.txt".to_string())]),
        vec!["a.txt".to_string(), "b.txt".to_string()]
    );
}

#[test]
fn object_text_reads_utf8() {
    assert_eq!(object_text("olá".as_bytes().to_vec()), Ok("olá".to_string()));
    assert_eq!(object_text(vec![]), Ok(String::new()));
    assert_eq!(object_text(vec![0xff, 0xfe]), Err("objeto nao e texto UTF-8".to_string()));
}

#[test]
fn uuid_key_is_hyphenated_lower_hex() {
    let bytes: [u8; 16] = [0, 1, 2, 3, 4, 5, 6, 7, 8, 9, 10, 11, 12, 13, 14, 15];
    assert_eq!(uuid_key(bytes), "00010203-0405-0607-0809-0a0b0c0d0e0f.txt");
    let bytes: [u8; 16] = [0xff, 0xab, 0x40, 0x9c, 0xde, 0xf0, 0x4a, 0x12, 0xb3, 0x00, 0x11, 0x22, 0x33, 0x44, 0x55, 0xee];
    assert_eq!(uuid_key(bytes), "ffab409c-def0-4a12-b300-1122334455ee.txt");
}
