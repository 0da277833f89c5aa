use vstd::prelude::*;
use vstd::string::StringExecFns;

use crate::error::SMSManagerError;
use crate::ledger::{ids_in, SettleLedger};
use crate::model::{is_refusal, Message, Producer, ProducerStatus};
use crate::queue::WorkQueue;
use crate::random_utils::{coin, effective_percentage, random_chance};

verus! {

/// Relies on `num_cpus::get`: the number of CPUs available to this process,
/// documented to be at least 1.
#[verifier::external_body]
fn available_parallelism() -> (r: usize)
    ensures
        r >= 1,
{
    num_cpus::get()
}

/// The number of workers for a dispatch: the configured number, or the
/// available parallelism where none is configured, brought into
/// `[1, parallelism]`.
pub open spec fn worker_count_for(configured: Option<i32>, parallelism: usize) -> int {
    let wanted: int = match configured {
        Some(n) => n as int,
        None => parallelism as int,
    };
    if wanted > parallelism {
        parallelism as int
    } else if wanted <= 0 {
        1
    } else {
        wanted
    }
}

/// The number of workers for a dispatch, on a host with the given parallelism.
pub fn effective_worker_count(configured: Option<i32>, parallelism: usize) -> (r: usize)
    requires
        parallelism >= 1,
    ensures
        r == worker_count_for(configured, parallelism),
        1 <= r <= parallelism,
{
    match configured {
        None => parallelism,
        Some(n) => {
            if n <= 0 {
                1
            } else if n as usize > parallelism {
                parallelism
            } else {
                n as usize
            }
        },
    }
}

/// The message after its send: sent, with its elapsed time and outcome.
pub open spec fn settled(m: Message, elapsed: i32, did_fail: bool) -> Message {
    Message {
        id: m.id,
        message_body: m.message_body,
        sent: true,
        failed: did_fail,
        time_took: Some(elapsed),
        produced_by: m.produced_by,
    }
}

/// Settles a message that a worker has sent, with the elapsed time of the
/// send and whether it failed.
pub fn settle_message(item: Message, elapsed: i32, did_fail: bool) -> (r: Message)
    ensures
        r == settled(item, elapsed, did_fail),
{
    Message {
        id: item.id,
        message_body: item.message_body,
        sent: true,
        failed: did_fail,
        time_took: Some(elapsed),
        produced_by: item.produced_by,
    }
}

/// Ends a worker's send of `item`: flips the weighted coin at the producer's
/// failure rate and settles the message with the elapsed time and the outcome.
pub fn finish_send(item: Message, elapsed: i32, failure_rate: i32) -> (r: Message)
    ensures
        exists|roll: int| 0 <= roll < 100 && r == settled(item, elapsed, #[trigger] coin(failure_rate, roll)),
        effective_percentage(failure_rate) == 0 ==> !r.failed,
        effective_percentage(failure_rate) == 100 ==> r.failed,
{
    let did_fail = random_chance(failure_rate);
    settle_message(item, elapsed, did_fail)
}

/// The messages of `s` that the producer `owner` has yet to send, in order.
pub open spec fn pending_of(owner: u128, s: Seq<Message>) -> Seq<Message> {
    s.filter(|m: Message| m.produced_by == owner && !m.sent)
}

/// Keeps the messages of `owner` that are not sent yet.
pub fn pending_messages(owner: u128, stored: Vec<Message>) -> (r: Vec<Message>)
    ensures
        r@ == pending_of(owner, stored@),
{
    let mut r: Vec<Message> = Vec::new();
    let mut rest = stored;
    let ghost all = rest@;
    let mut back: Vec<Message> = Vec::new();
    while rest.len() > 0
        invariant
            all == rest@ + back@.reverse(),
        decreases rest@.len(),
    {
        let x = rest.pop().unwrap();
        proof {
            assert(back@.push(x).reverse() =~= seq![x] + back@.reverse());
        }
        back.push(x);
        assert(all =~= rest@ + back@.reverse());
    }
    let ghost n = all.len();
    while back.len() > 0
        invariant
            n == all.len(),
            back@.len() <= n,
            all == all.subrange(0, n - back@.len()) + back@.reverse(),
            r@ == pending_of(owner, all.subrange(0, n - back@.len())),
        decreases back@.len(),
    {
        let ghost k = n - back@.len();
        let x = back.pop().unwrap();
        proof {
            assert(back@.push(x).reverse() =~= seq![x] + back@.reverse());
            assert(all[k] == x);
            assert(all.subrange(0, k + 1).drop_last() =~= all.subrange(0, k));
            assert(all.subrange(0, k + 1).last() == x);
            assert(all =~= all.subrange(0, k + 1) + back@.reverse());
            reveal(Seq::filter);
        }
        if x.produced_by == owner && !x.sent {
            r.push(x);
        }
    }
    assert(all.subrange(0, n as int) =~= all);
    r
}

pub open spec fn already_sending_reason() -> Seq<char> {
    "Already sending messages"@
}

/// What a dispatch runs on: the number of workers, the queue of the
/// producer's pending messages, and the writer's ledger expecting them.
pub struct DispatchPlan {
    pub worker_count: usize,
    pub queue: WorkQueue<Message>,
    pub ledger: SettleLedger,
}

/// Checks a dispatch of `producer` and sets up its run over the producer's
/// stored messages, on a host with the given parallelism. A producer already
/// `SENDING` is refused, and nothing is set up.
pub fn prepare_dispatch(producer: &Producer, stored: Vec<Message>, parallelism: usize) -> (r: Result<
    DispatchPlan,
    SMSManagerError,
>)
    requires
        parallelism >= 1,
    ensures
        r is Err <==> producer.status == ProducerStatus::Sending,
        r is Err ==> is_refusal(r, already_sending_reason()),
        r matches Ok(plan) ==> {
            &&& plan.worker_count == worker_count_for(producer.num_senders, parallelism)
            &&& plan.queue@ == pending_of(producer.id, stored@)
            &&& plan.ledger.wf()
            &&& plan.ledger.expected() == ids_in(pending_of(producer.id, stored@))
            &&& plan.ledger.settled_ids() == Set::<u128>::empty()
            &&& plan.ledger.spec_received() == 0
        },
{
    if producer.status == ProducerStatus::Sending {
        return Err(SMSManagerError::GeneralException(String::from_str("Already sending messages")));
    }
    let pending = pending_messages(producer.id, stored);
    let ledger = SettleLedger::new(&pending);
    let queue = WorkQueue::load(pending);
    let worker_count = effective_worker_count(producer.num_senders, parallelism);
    Ok(DispatchPlan { worker_count, queue, ledger })
}

/// `prepare_dispatch` on this host's available parallelism.
pub fn plan_dispatch(producer: &Producer, stored: Vec<Message>) -> (r: Result<
    DispatchPlan,
    SMSManagerError,
>)
    ensures
        r is Err <==> producer.status == ProducerStatus::Sending,
        r is Err ==> is_refusal(r, already_sending_reason()),
        r matches Ok(plan) ==> {
            &&& plan.worker_count >= 1
            &&& exists|p: usize|
                p >= 1 && plan.worker_count == #[trigger] worker_count_for(producer.num_senders, p)
            &&& plan.queue@ == pending_of(producer.id, stored@)
            &&& plan.ledger.wf()
            &&& plan.ledger.expected() == ids_in(pending_of(producer.id, stored@))
            &&& plan.ledger.settled_ids() == Set::<u128>::empty()
            &&& plan.ledger.spec_received() == 0
        },
{
    let parallelism = available_parallelism();
    prepare_dispatch(producer, stored, parallelism)
}

} // verus!
