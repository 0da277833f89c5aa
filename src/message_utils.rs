use vstd::prelude::*;
use vstd::string::StringExecFns;

use crate::error::SMSManagerError;
use crate::model::{
    count_and_delay_reason, is_refusal, Message, NewMessage, Producer,
};
use crate::random_utils::{generate_random_string, is_ascii_alphanumeric, MAX_RANDOM_STRING_LEN};

verus! {

/// A body that a generated message may have: at most 100 ASCII letters and digits.
pub open spec fn valid_body(body: Seq<char>) -> bool {
    &&& body.len() <= MAX_RANDOM_STRING_LEN
    &&& forall|i: int| 0 <= i < body.len() ==> is_ascii_alphanumeric(#[trigger] body[i])
}

/// A pending message of the given producer with a random body.
pub fn create_message(producer_id: u128) -> (r: NewMessage)
    ensures
        r.produced_by == producer_id,
        valid_body(r.message_body@),
{
    let body = generate_random_string();
    NewMessage { message_body: body, produced_by: producer_id }
}

pub open spec fn array_init_reason() -> Seq<char> {
    "Could not initialize message array"@
}

/// `number_messages` pending messages of the given producer with random
/// bodies. A negative count is refused with `InvalidEncoding`.
pub fn generate_fake_messages(number_messages: i32, producer_id: u128) -> (r: Result<
    Vec<NewMessage>,
    SMSManagerError,
>)
    ensures
        number_messages < 0 <==> r is Err,
        number_messages < 0 ==> (r matches Err(SMSManagerError::InvalidEncoding(m)) && m@
            == array_init_reason()),
        r matches Ok(v) ==> {
            &&& v@.len() == number_messages
            &&& forall|i: int| 0 <= i < v@.len() ==> (#[trigger] v@[i]).produced_by == producer_id
                && valid_body(v@[i].message_body@)
        },
{
    if number_messages < 0 {
        return Err(
            SMSManagerError::InvalidEncoding(String::from_str("Could not initialize message array")),
        );
    }
    let n = number_messages as usize;
    let mut messages: Vec<NewMessage> = Vec::with_capacity(n);
    let mut i: usize = 0;
    while i < n
        invariant
            i <= n,
            n == number_messages,
            messages@.len() == i,
            forall|j: int| 0 <= j < i ==> (#[trigger] messages@[j]).produced_by == producer_id
                && valid_body(messages@[j].message_body@),
        decreases n - i,
    {
        messages.push(create_message(producer_id));
        i = i + 1;
    }
    Ok(messages)
}

/// The messages to store for a producer's generation step: as many as its
/// configured count. A count or an average delay under 1 is refused, and then
/// nothing is to be stored.
pub fn prepare_generation(producer: &Producer) -> (r: Result<Vec<NewMessage>, SMSManagerError>)
    ensures
        r is Ok <==> producer.number_messages >= 1 && producer.average_send_delay >= 1,
        r is Err ==> is_refusal(r, count_and_delay_reason()),
        r matches Ok(v) ==> {
            &&& v@.len() == producer.number_messages
            &&& forall|i: int| 0 <= i < v@.len() ==> (#[trigger] v@[i]).produced_by == producer.id
                && valid_body(v@[i].message_body@)
        },
{
    if producer.number_messages < 1 || producer.average_send_delay < 1 {
        return Err(
            SMSManagerError::GeneralException(
                String::from_str(
                    "Number of messages and average send delay must be greater than or equal to 1",
                ),
            ),
        );
    }
    generate_fake_messages(producer.number_messages, producer.id)
}

/// How many of the messages failed.
pub open spec fn failed_count(s: Seq<Message>) -> nat
    decreases s.len(),
{
    if s.len() == 0 {
        0
    } else {
        failed_count(s.drop_last()) + if s.last().failed { 1nat } else { 0nat }
    }
}

/// The elapsed times of the sent messages that record one, in order.
pub open spec fn sent_times(s: Seq<Message>) -> Seq<i32>
    decreases s.len(),
{
    if s.len() == 0 {
        Seq::empty()
    } else {
        let prev = sent_times(s.drop_last());
        match s.last().time_took {
            Some(t) => if s.last().sent { prev.push(t) } else { prev },
            None => prev,
        }
    }
}

pub open spec fn total(t: Seq<i32>) -> int
    decreases t.len(),
{
    if t.len() == 0 {
        0
    } else {
        total(t.drop_last()) + t.last()
    }
}

/// Division rounded toward zero, for a positive divisor.
pub open spec fn div_toward_zero(a: int, b: int) -> int {
    if a >= 0 { a / b } else { -((-a) / b) }
}

/// The mean of the times, rounded toward zero; 0 for no times.
pub open spec fn mean_time(t: Seq<i32>) -> int {
    if t.len() == 0 { 0 } else { div_toward_zero(total(t), t.len() as int) }
}

proof fn lemma_total_bounds(t: Seq<i32>)
    ensures
        -0x8000_0000 * t.len() <= total(t) <= 0x7fff_ffff * t.len(),
    decreases t.len(),
{
    if t.len() > 0 {
        lemma_total_bounds(t.drop_last());
    }
}

/// The progress of a producer from its messages: how many there are, how many
/// failed, the elapsed times of the sent ones, how many of those there are,
/// and their mean rounded toward zero.
pub fn get_producer_info_from_messages(messages: Vec<Message>) -> (r: (i32, i32, Vec<i32>, i32, i32))
    requires
        messages@.len() <= i32::MAX,
    ensures
        r.0 == messages@.len(),
        r.1 == failed_count(messages@),
        r.2@ == sent_times(messages@),
        r.3 == sent_times(messages@).len(),
        r.4 == mean_time(sent_times(messages@)),
{
    let n = messages.len();
    let mut failed: i32 = 0;
    let mut times: Vec<i32> = Vec::new();
    let mut sum: i64 = 0;
    let mut i: usize = 0;
    while i < n
        invariant
            n == messages@.len(),
            n <= i32::MAX,
            i <= n,
            failed == failed_count(messages@.subrange(0, i as int)),
            failed <= i,
            times@ == sent_times(messages@.subrange(0, i as int)),
            times@.len() <= i,
            sum == total(times@),
        decreases n - i,
    {
        let m = &messages[i];
        let ghost prefix = messages@.subrange(0, i as int);
        assert(messages@.subrange(0, i + 1).drop_last() =~= prefix);
        proof {
            lemma_total_bounds(times@);
        }
        if m.failed {
            failed = failed + 1;
        }
        if m.sent {
            match m.time_took {
                Some(t) => {
                    assert(times@.push(t).drop_last() =~= times@);
                    times.push(t);
                    sum = sum + t as i64;
                },
                None => {},
            }
        }
        i = i + 1;
    }
    assert(messages@.subrange(0, n as int) =~= messages@);
    let count = times.len();
    let mut average: i32 = 0;
    if count > 0 {
        proof {
            lemma_total_bounds(times@);
        }
        if sum >= 0 {
            let q = (sum as u64) / (count as u64);
            assert(q <= 0x7fff_ffff) by (nonlinear_arith)
                requires
                    q == (sum as int) / (count as int),
                    0 <= sum <= 0x7fff_ffff * count,
                    count > 0,
            ;
            average = q as i32;
        } else {
            let q = ((-sum) as u64) / (count as u64);
            assert(q <= 0x8000_0000) by (nonlinear_arith)
                requires
                    q == (-sum as int) / (count as int),
                    0 <= -sum <= 0x8000_0000 * count,
                    count > 0,
            ;
            average = -(q as i64) as i32;
        }
    }
    (n as i32, failed, times, count as i32, average)
}

} // verus!
