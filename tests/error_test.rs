use sms_manager::error::SMSManagerError;
use sms_manager::model::ProducerStatus;

#[test]
fn error_status_codes() {
    assert_eq!(SMSManagerError::ConnError("x".to_string()).status_code(), 500);
    assert_eq!(SMSManagerError::DbError("x".to_string()).status_code(), 400);
    assert_eq!(SMSManagerError::InvalidEncoding("x".to_string()).status_code(), 422);
    assert_eq!(SMSManagerError::GeneralException("x".to_string()).status_code(), 500);
    assert_eq!(SMSManagerError::EmptyResult.status_code(), 404);
}

#[test]
fn error_reasons() {
    assert_eq!(
        SMSManagerError::ConnError("timed out".to_string()).reason(),
        "Could not connect to db: timed out"
    );
    assert_eq!(
        SMSManagerError::DbError("bad row".to_string()).reason(),
        "Misc query error: bad row"
    );
    assert_eq!(
        SMSManagerError::InvalidEncoding("Producer Id Is Invalid".to_string()).reason(),
        "Producer Id Is Invalid"
    );
    assert_eq!(
        SMSManagerError::GeneralException("Already sending messages".to_string()).reason(),
        "Already sending messages"
    );
    assert_eq!(
        SMSManagerError::EmptyResult.reason(),
        "Fetched an empty result that should not be!"
    );
}

#[test]
fn status_labels_round_trip() {
    let all = [
        ProducerStatus::Inactive,
        ProducerStatus::Generating,
        ProducerStatus::Generated,
        ProducerStatus::Sending,
        ProducerStatus::Empty,
    ];
    for st in all {
        assert_eq!(ProducerStatus::from_label(st.as_str()), Some(st));
    }
    assert_eq!(ProducerStatus::Sending.as_str(), "SENDING");
    assert_eq!(ProducerStatus::from_label("sending"), None);
    assert_eq!(ProducerStatus::from_label(""), None);
    assert_eq!(ProducerStatus::from_label("EMPTYX"), None);
}
