use vstd::prelude::*;
use vstd::string::StringExecFns;

use crate::ids::{uuid_text, uuid_text_of};
use crate::message_utils::{failed_count, get_producer_info_from_messages, mean_time, sent_times};
use crate::model::{Message, Producer};

verus! {

/// A producer as clients see it: its id as hyphenated UUID text and its
/// status as a label.
pub struct PublicProducer {
    pub id: String,
    pub name: String,
    pub number_messages: i32,
    pub average_send_delay: i32,
    pub failure_rate: i32,
    pub num_senders: Option<i32>,
    pub status: String,
}

/// How far a producer's messages have got.
pub struct ProgressData {
    pub number_messages_created: i32,
    pub number_messages_sent: i32,
    pub number_messages_failed: i32,
    pub average_message_time: i32,
    pub message_times: Vec<i32>,
}

/// A producer together with its progress.
pub struct PublicProducerWithProgressData {
    pub producer: PublicProducer,
    pub progress_data: ProgressData,
}

impl PublicProducer {
    /// The client's view of a stored producer.
    pub fn from_producer(value: Producer) -> (r: PublicProducer)
        ensures
            r.id@ == uuid_text_of(value.id),
            r.name == value.name,
            r.number_messages == value.number_messages,
            r.average_send_delay == value.average_send_delay,
            r.failure_rate == value.failure_rate,
            r.num_senders == value.num_senders,
            r.status@ == value.status.spec_label(),
    {
        PublicProducer {
            id: uuid_text(value.id),
            average_send_delay: value.average_send_delay,
            name: value.name,
            number_messages: value.number_messages,
            num_senders: value.num_senders,
            failure_rate: value.failure_rate,
            status: String::from_str(value.status.as_str()),
        }
    }
}

impl ProgressData {
    /// The progress that a producer's stored messages show.
    pub fn from_messages(messages: Vec<Message>) -> (r: ProgressData)
        requires
            messages@.len() <= i32::MAX,
        ensures
            r.number_messages_created == messages@.len(),
            r.number_messages_failed == failed_count(messages@),
            r.message_times@ == sent_times(messages@),
            r.number_messages_sent == sent_times(messages@).len(),
            r.average_message_time == mean_time(sent_times(messages@)),
    {
        let (
            number_messages_created,
            number_messages_failed,
            message_times,
            number_messages_sent,
            average_message_time,
        ) = get_producer_info_from_messages(messages);
        ProgressData {
            number_messages_created,
            number_messages_sent,
            number_messages_failed,
            average_message_time,
            message_times,
        }
    }
}

} // verus!
