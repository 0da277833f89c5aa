use sms_manager::error::SMSManagerError;
use sms_manager::ids::parse_uuid;
use uuid::Uuid;

#[test]
fn test_parse_uuid_valid() {
    let valid_uuid = Uuid::new_v4().to_string();
    let result = parse_uuid(&valid_uuid);

    assert!(
        result.is_ok(),
        "parse_uuid should return Ok for valid UUID strings"
    );
    assert_eq!(
        Uuid::from_u128(result.ok().unwrap()).to_string(),
        valid_uuid,
        "parse_uuid should correctly parse a valid UUID"
    );
}

fn assert_invalid_id(input: &str) {
    match parse_uuid(input) {
        Ok(_) => panic!("parse_uuid should return Err for {:?}", input),
        Err(SMSManagerError::InvalidEncoding(message)) => {
            assert_eq!(
                message, "Producer Id Is Invalid",
                "Error message should match expected text"
            );
        }
        Err(_) => panic!("Unexpected error type"),
    }
}

#[test]
fn test_parse_uuid_invalid() {
    assert_invalid_id("not-a-uuid");
}

#[test]
fn test_parse_uuid_empty_string() {
    assert_invalid_id("");
}

#[test]
fn test_parse_uuid_partial_uuid() {
    assert_invalid_id("12345");
}

#[test]
fn parse_uuid_reads_the_value_of_a_known_text() {
    let parsed = parse_uuid("550e8400-e29b-41d4-a716-446655440000");
    assert_eq!(parsed.ok(), Some(0x550e8400_e29b_41d4_a716_446655440000u128));
}

#[test]
fn parse_uuid_accepts_the_simple_form() {
    let parsed = parse_uuid("550e8400e29b41d4a716446655440000");
    assert_eq!(parsed.ok(), Some(0x550e8400_e29b_41d4_a716_446655440000u128));
}

#[test]
fn parse_uuid_refuses_bad_digits_of_the_right_length() {
    assert_invalid_id("550e8400-e29b-41d4-a716-44665544000g");
}
