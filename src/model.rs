use vstd::prelude::*;
use vstd::string::StrSliceExecFns;
use vstd::string::StringExecFns;

use crate::error::SMSManagerError;

verus! {

/// Where a producer stands in its life: created, generating its messages,
/// holding pending messages, dispatching them, or drained.
#[derive(Clone, Copy, Debug, PartialEq, Eq, Structural)]
pub enum ProducerStatus {
    Inactive,
    Generating,
    Generated,
    Sending,
    Empty,
}

impl ProducerStatus {
    pub open spec fn spec_label(&self) -> Seq<char> {
        match self {
            ProducerStatus::Inactive => "INACTIVE"@,
            ProducerStatus::Generating => "GENERATING"@,
            ProducerStatus::Generated => "GENERATED"@,
            ProducerStatus::Sending => "SENDING"@,
            ProducerStatus::Empty => "EMPTY"@,
        }
    }

    /// The label under which the status is stored and shown.
    pub fn as_str(&self) -> (r: &'static str)
        ensures
            r@ == self.spec_label(),
    {
        match self {
            ProducerStatus::Inactive => "INACTIVE",
            ProducerStatus::Generating => "GENERATING",
            ProducerStatus::Generated => "GENERATED",
            ProducerStatus::Sending => "SENDING",
            ProducerStatus::Empty => "EMPTY",
        }
    }

    /// The status whose label is `label`, if any.
    pub fn from_label(label: &str) -> (r: Option<ProducerStatus>)
        ensures
            match r {
                Some(st) => st.spec_label() == label@,
                None => forall|st: ProducerStatus| #[trigger] st.spec_label() != label@,
            },
    {
        proof {
            reveal_strlit("INACTIVE");
            reveal_strlit("GENERATING");
            reveal_strlit("GENERATED");
            reveal_strlit("SENDING");
            reveal_strlit("EMPTY");
        }
        if same_text(label, "INACTIVE") {
            Some(ProducerStatus::Inactive)
        } else if same_text(label, "GENERATING") {
            Some(ProducerStatus::Generating)
        } else if same_text(label, "GENERATED") {
            Some(ProducerStatus::Generated)
        } else if same_text(label, "SENDING") {
            Some(ProducerStatus::Sending)
        } else if same_text(label, "EMPTY") {
            Some(ProducerStatus::Empty)
        } else {
            proof {
                assert forall|st: ProducerStatus| #[trigger] st.spec_label() != label@ by {
                    match st {
                        ProducerStatus::Inactive => {},
                        ProducerStatus::Generating => {},
                        ProducerStatus::Generated => {},
                        ProducerStatus::Sending => {},
                        ProducerStatus::Empty => {},
                    }
                }
            }
            None
        }
    }
}

/// Whether two texts hold the same characters.
pub fn same_text(a: &str, b: &str) -> (r: bool)
    ensures
        r == (a@ == b@),
{
    let n = a.unicode_len();
    if n != b.unicode_len() {
        return false;
    }
    let mut i: usize = 0;
    while i < n
        invariant
            n == a@.len(),
            n == b@.len(),
            i <= n,
            a@.subrange(0, i as int) == b@.subrange(0, i as int),
        decreases n - i,
    {
        if a.get_char(i) != b.get_char(i) {
            return false;
        }
        assert(a@.subrange(0, i + 1) =~= a@.subrange(0, i as int).push(a@[i as int]));
        assert(b@.subrange(0, i + 1) =~= b@.subrange(0, i as int).push(b@[i as int]));
        i = i + 1;
    }
    assert(a@ =~= a@.subrange(0, n as int));
    assert(b@ =~= b@.subrange(0, n as int));
    true
}

/// A stored producer.
#[derive(Clone, Debug)]
pub struct Producer {
    pub id: u128,
    pub name: String,
    pub number_messages: i32,
    pub average_send_delay: i32,
    pub failure_rate: i32,
    pub num_senders: Option<i32>,
    pub status: ProducerStatus,
}

/// A producer about to be stored; the store gives it its id.
pub struct NewProducer {
    pub name: String,
    pub number_messages: i32,
    pub average_send_delay: i32,
    pub failure_rate: i32,
    pub num_senders: Option<i32>,
    pub status: ProducerStatus,
}

/// The settings of a producer, as a client sends them to create or update one.
pub struct ProducerUpdateArgs {
    pub name: String,
    pub number_messages: i32,
    pub average_send_delay: i32,
    pub failure_rate: i32,
    pub num_senders: Option<i32>,
}

/// A stored message. `time_took` is the elapsed time, in seconds, of its send.
#[derive(Clone, Debug)]
pub struct Message {
    pub id: u128,
    pub message_body: String,
    pub sent: bool,
    pub failed: bool,
    pub time_took: Option<i32>,
    pub produced_by: u128,
}

/// A message about to be stored: pending, unsent, not failed.
#[derive(Clone, Debug)]
pub struct NewMessage {
    pub message_body: String,
    pub produced_by: u128,
}

pub open spec fn failure_rate_reason() -> Seq<char> {
    "Failure rate must be within 0 - 100"@
}

pub open spec fn count_and_delay_reason() -> Seq<char> {
    "Number of messages and average send delay must be greater than or equal to 1"@
}

/// Whether `r` is a refusal (`GeneralException`) with the given reason.
pub open spec fn is_refusal<T>(r: Result<T, SMSManagerError>, reason: Seq<char>) -> bool {
    r matches Err(SMSManagerError::GeneralException(m)) && m@ == reason
}

/// The settings that a producer may hold: a failure rate in `[0, 100]`, and at
/// least one message and one unit of delay.
pub open spec fn valid_settings(number_messages: i32, average_send_delay: i32, failure_rate: i32) -> bool {
    0 <= failure_rate <= 100 && number_messages >= 1 && average_send_delay >= 1
}

/// Checks producer settings. The failure rate is checked first.
pub fn validate_settings(number_messages: i32, average_send_delay: i32, failure_rate: i32) -> (r:
    Result<(), SMSManagerError>)
    ensures
        r.is_ok() <==> valid_settings(number_messages, average_send_delay, failure_rate),
        !(0 <= failure_rate <= 100) ==> is_refusal(r, failure_rate_reason()),
        0 <= failure_rate <= 100 && (number_messages < 1 || average_send_delay < 1)
            ==> is_refusal(r, count_and_delay_reason()),
{
    if failure_rate < 0 || failure_rate > 100 {
        return Err(
            SMSManagerError::GeneralException(
                String::from_str("Failure rate must be within 0 - 100"),
            ),
        );
    }
    if number_messages < 1 || average_send_delay < 1 {
        return Err(
            SMSManagerError::GeneralException(
                String::from_str(
                    "Number of messages and average send delay must be greater than or equal to 1",
                ),
            ),
        );
    }
    Ok(())
}

/// The producer to store for a creation request: the settings, checked, with
/// the status `INACTIVE`.
pub fn prepare_new_producer(args: ProducerUpdateArgs) -> (r: Result<NewProducer, SMSManagerError>)
    ensures
        r.is_ok() <==> valid_settings(args.number_messages, args.average_send_delay, args.failure_rate),
        !(0 <= args.failure_rate <= 100) ==> is_refusal(r, failure_rate_reason()),
        0 <= args.failure_rate <= 100 && (args.number_messages < 1 || args.average_send_delay < 1)
            ==> is_refusal(r, count_and_delay_reason()),
        r matches Ok(p) ==> {
            &&& p.name == args.name
            &&& p.number_messages == args.number_messages
            &&& p.average_send_delay == args.average_send_delay
            &&& p.failure_rate == args.failure_rate
            &&& p.num_senders == args.num_senders
            &&& p.status == ProducerStatus::Inactive
        },
{
    match validate_settings(args.number_messages, args.average_send_delay, args.failure_rate) {
        Err(e) => Err(e),
        Ok(()) => Ok(
            NewProducer {
                name: args.name,
                number_messages: args.number_messages,
                average_send_delay: args.average_send_delay,
                failure_rate: args.failure_rate,
                num_senders: args.num_senders,
                status: ProducerStatus::Inactive,
            },
        ),
    }
}

/// Checks an update request: the settings first, then the producer's id.
/// On success, the id of the producer to update.
pub fn prepare_producer_update(producer_id: &str, args: &ProducerUpdateArgs) -> (r: Result<
    u128,
    SMSManagerError,
>)
    ensures
        !(0 <= args.failure_rate <= 100) ==> is_refusal(r, failure_rate_reason()),
        0 <= args.failure_rate <= 100 && (args.number_messages < 1 || args.average_send_delay < 1)
            ==> is_refusal(r, count_and_delay_reason()),
        valid_settings(args.number_messages, args.average_send_delay, args.failure_rate) ==> match crate::ids::uuid_value_of(producer_id@) {
            Some(v) => r == Ok::<u128, SMSManagerError>(v),
            None => r matches Err(SMSManagerError::InvalidEncoding(m)) && m@ == crate::ids::invalid_id_reason(),
        },
{
    match validate_settings(args.number_messages, args.average_send_delay, args.failure_rate) {
        Err(e) => Err(e),
        Ok(()) => crate::ids::parse_uuid(producer_id),
    }
}

/// The producer that a lookup by id found: the first row, or `EmptyResult`
/// when there is none.
pub fn first_found(found: Vec<Producer>) -> (r: Result<Producer, SMSManagerError>)
    ensures
        found@.len() == 0 ==> r matches Err(SMSManagerError::EmptyResult),
        found@.len() > 0 ==> r == Ok::<Producer, SMSManagerError>(found@[0]),
{
    if found.len() == 0 {
        return Err(SMSManagerError::EmptyResult);
    }
    let mut rows = found;
    Ok(rows.remove(0))
}

} // verus!
