use sms_manager::error::SMSManagerError;
use sms_manager::ids::parse_uuid;
use sms_manager::message_utils::prepare_generation;
use sms_manager::model::{
    first_found, prepare_new_producer, prepare_producer_update, Message, Producer,
    ProducerStatus, ProducerUpdateArgs,
};
use sms_manager::transformers::{ProgressData, PublicProducer};

fn args(name: &str, number_messages: i32, delay: i32, failure_rate: i32) -> ProducerUpdateArgs {
    ProducerUpdateArgs {
        name: name.to_string(),
        number_messages,
        average_send_delay: delay,
        failure_rate,
        num_senders: None,
    }
}

fn producer(id: u128, number_messages: i32, delay: i32, failure_rate: i32) -> Producer {
    Producer {
        id,
        name: "Valid Producer".to_string(),
        number_messages,
        average_send_delay: delay,
        failure_rate,
        num_senders: None,
        status: ProducerStatus::Inactive,
    }
}

fn message(id: u128, owner: u128, body: &str, sent: bool, failed: bool, time_took: Option<i32>) -> Message {
    Message {
        id,
        message_body: body.to_string(),
        sent,
        failed,
        time_took,
        produced_by: owner,
    }
}

fn expect_general(r: Result<impl Sized, SMSManagerError>, reason: &str) {
    match r {
        Err(SMSManagerError::GeneralException(m)) => assert_eq!(m, reason),
        Err(_) => panic!("Expected GeneralException error"),
        Ok(_) => panic!("Expected GeneralException error"),
    }
}

const COUNT_AND_DELAY: &str =
    "Number of messages and average send delay must be greater than or equal to 1";

#[test]
fn test_create_producer_valid_data() {
    let p = prepare_new_producer(args("Valid Producer", 100, 20, 10)).ok().unwrap();
    assert_eq!(p.name, "Valid Producer");
    assert_eq!(p.number_messages, 100);
    assert_eq!(p.average_send_delay, 20);
    assert_eq!(p.failure_rate, 10);
    assert_eq!(p.num_senders, None);
    assert_eq!(p.status.as_str(), "INACTIVE");
}

#[test]
fn test_create_producer_invalid_failure_rate() {
    expect_general(
        prepare_new_producer(args("Invalid Failure Rate", 100, 20, 101)),
        "Failure rate must be within 0 - 100",
    );
}

#[test]
fn test_create_producer_invalid_number_messages() {
    expect_general(
        prepare_new_producer(args("Invalid Number of Messages", 0, 20, 10)),
        COUNT_AND_DELAY,
    );
}

#[test]
fn test_create_producer_invalid_average_send_delay() {
    expect_general(
        prepare_new_producer(args("Invalid Average Send Delay", 100, 0, 10)),
        COUNT_AND_DELAY,
    );
}

#[test]
fn create_producer_failure_rate_checked_before_count() {
    expect_general(
        prepare_new_producer(args("Both Wrong", 0, 0, -1)),
        "Failure rate must be within 0 - 100",
    );
}

#[test]
fn test_update_producer_valid_data() {
    let id = 0x1234_5678_9abc_def0_1234_5678_9abc_def0u128;
    let text = "12345678-9abc-def0-1234-56789abcdef0";
    let r = prepare_producer_update(text, &args("Updated Producer", 100, 20, 10));
    assert_eq!(r.ok(), Some(id));
}

#[test]
fn test_update_producer_invalid_failure_rate() {
    expect_general(
        prepare_producer_update("some-uuid", &args("Invalid Failure Rate", 100, 20, 101)),
        "Failure rate must be within 0 - 100",
    );
}

#[test]
fn test_update_producer_invalid_number_messages() {
    expect_general(
        prepare_producer_update("some-uuid", &args("Invalid Number of Messages", 0, 20, 10)),
        COUNT_AND_DELAY,
    );
}

#[test]
fn test_update_producer_not_found() {
    match prepare_producer_update("some-uuid", &args("Updated Producer", 100, 20, 10)) {
        Err(SMSManagerError::InvalidEncoding(m)) => assert_eq!(m, "Producer Id Is Invalid"),
        _ => panic!("expected the id to be refused"),
    }
}

#[test]
fn test_get_producer_by_id() {
    let found = first_found(vec![producer(5, 100, 20, 10), producer(6, 1, 1, 1)]).ok().unwrap();
    assert_eq!(found.id, 5);
    assert_eq!(found.name, "Valid Producer");
    assert_eq!(found.number_messages, 100);
    assert_eq!(found.average_send_delay, 20);
    assert_eq!(found.failure_rate, 10);
    assert_eq!(found.num_senders, None);
    assert_eq!(found.status, ProducerStatus::Inactive);
}

#[test]
fn get_producer_by_id_missing_is_empty_result() {
    assert!(matches!(first_found(vec![]), Err(SMSManagerError::EmptyResult)));
}

#[test]
fn test_get_producer_progress() {
    let owner = 9u128;
    let messages = vec![
        message(1, owner, "Test Message 1", true, false, Some(4)),
        message(2, owner, "Test Message 2", true, true, Some(7)),
        message(3, owner, "Test Message 3", false, false, None),
    ];
    let progress = ProgressData::from_messages(messages);
    assert_eq!(progress.number_messages_created, 3);
    assert_eq!(progress.number_messages_sent, 2);
    assert_eq!(progress.number_messages_failed, 1);
    assert_eq!(progress.message_times, vec![4, 7]);
    assert_eq!(progress.average_message_time, 5);
}

#[test]
fn progress_of_no_messages_is_zero() {
    let progress = ProgressData::from_messages(vec![]);
    assert_eq!(progress.number_messages_created, 0);
    assert_eq!(progress.number_messages_sent, 0);
    assert_eq!(progress.average_message_time, 0);
    assert!(progress.message_times.is_empty());
}

#[test]
fn progress_ignores_sent_messages_without_time() {
    let messages = vec![
        message(1, 1, "a", true, false, None),
        message(2, 1, "b", false, true, Some(3)),
        message(3, 1, "c", true, false, Some(2)),
    ];
    let progress = ProgressData::from_messages(messages);
    assert_eq!(progress.number_messages_sent, 1);
    assert_eq!(progress.number_messages_failed, 1);
    assert_eq!(progress.message_times, vec![2]);
    assert_eq!(progress.average_message_time, 2);
}

#[test]
fn test_generate_messages() {
    let p = producer(77, 100, 20, 10);
    let generated = prepare_generation(&p).ok().unwrap();
    assert_eq!(generated.len(), 100);
    assert!(generated.iter().all(|m| m.produced_by == 77));
}

#[test]
fn generate_refuses_zero_count_and_inserts_nothing() {
    expect_general(prepare_generation(&producer(1, 0, 20, 10)), COUNT_AND_DELAY);
}

#[test]
fn generate_refuses_zero_delay_and_inserts_nothing() {
    expect_general(prepare_generation(&producer(1, 10, 0, 10)), COUNT_AND_DELAY);
}

#[test]
fn public_producer_shows_id_text_and_status_label() {
    let id = parse_uuid("550e8400-e29b-41d4-a716-446655440000").ok().unwrap();
    let mut p = producer(id, 100, 20, 10);
    p.status = ProducerStatus::Generated;
    let public = PublicProducer::from_producer(p);
    assert_eq!(public.id, "550e8400-e29b-41d4-a716-446655440000");
    assert_eq!(public.name, "Valid Producer");
    assert_eq!(public.number_messages, 100);
    assert_eq!(public.status, "GENERATED");
}
