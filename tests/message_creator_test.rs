use sms_manager::error::SMSManagerError;
use sms_manager::message_utils::{create_message, generate_fake_messages};
use uuid::Uuid;

#[test]
fn test_create_message() {
    let producer_id = Uuid::new_v4().as_u128();

    let result = create_message(producer_id);

    assert!(
        result.message_body.len() <= 100,
        "The message body length should not exceed 100 characters"
    );
    assert!(
        result.message_body.chars().all(|c| c.is_alphanumeric()),
        "The message body should only contain alphanumeric characters"
    );
    assert_eq!(
        result.produced_by, producer_id,
        "The produced_by field should match the producer ID"
    );
}

#[test]
fn generate_fake_messages_makes_the_requested_count() {
    let producer_id = 42u128;
    let messages = generate_fake_messages(7, producer_id).ok().unwrap();
    assert_eq!(messages.len(), 7);
    for m in &messages {
        assert_eq!(m.produced_by, producer_id);
        assert!(m.message_body.len() <= 100);
        assert!(m.message_body.chars().all(|c| c.is_ascii_alphanumeric()));
    }
}

#[test]
fn generate_fake_messages_zero_is_empty() {
    let messages = generate_fake_messages(0, 1).ok().unwrap();
    assert!(messages.is_empty());
}

#[test]
fn generate_fake_messages_refuses_negative_count() {
    match generate_fake_messages(-1, 1) {
        Err(SMSManagerError::InvalidEncoding(m)) => {
            assert_eq!(m, "Could not initialize message array")
        }
        _ => panic!("expected InvalidEncoding"),
    }
}
