use vstd::prelude::*;

verus! {

/// The next thing the orchestrator of a dispatch does.
#[derive(Clone, Copy, Debug, PartialEq, Eq, Structural)]
pub enum RunAction {
    /// Store the producer's status as `SENDING`.
    MarkSending,
    /// Start the workers and the writer on the shared result channel.
    StartWorkers,
    /// Wait for one more worker to finish.
    JoinWorker,
    /// Release the orchestrator's own handle on the result channel, so that
    /// the channel closes once the writer has drained it.
    CloseChannel,
    /// Wait for the writer to finish.
    JoinWriter,
    /// Store the producer's status as `EMPTY`.
    MarkEmpty,
    /// Nothing is left to do.
    Finished,
}

/// The orchestrator's progress through a dispatch with a fixed number of
/// workers. Workers are all joined before the channel closes, and the writer
/// is joined after it closes and before the run ends.
pub struct DispatchRun {
    workers: usize,
    marked_sending: bool,
    started: bool,
    joined: usize,
    channel_closed: bool,
    writer_joined: bool,
    marked_empty: bool,
}

impl DispatchRun {
    pub closed spec fn spec_workers(&self) -> nat {
        self.workers as nat
    }

    pub closed spec fn spec_joined(&self) -> nat {
        self.joined as nat
    }

    pub closed spec fn spec_started(&self) -> bool {
        self.started
    }

    pub closed spec fn spec_channel_closed(&self) -> bool {
        self.channel_closed
    }

    pub closed spec fn spec_writer_joined(&self) -> bool {
        self.writer_joined
    }

    pub closed spec fn wf(&self) -> bool {
        &&& self.started ==> self.marked_sending
        &&& self.joined > 0 ==> self.started
        &&& self.joined <= self.workers
        &&& self.channel_closed ==> self.started && self.joined == self.workers
        &&& self.writer_joined ==> self.channel_closed
        &&& self.marked_empty ==> self.writer_joined
    }

    pub closed spec fn spec_next(&self) -> RunAction {
        if !self.marked_sending {
            RunAction::MarkSending
        } else if !self.started {
            RunAction::StartWorkers
        } else if self.joined < self.workers {
            RunAction::JoinWorker
        } else if !self.channel_closed {
            RunAction::CloseChannel
        } else if !self.writer_joined {
            RunAction::JoinWriter
        } else if !self.marked_empty {
            RunAction::MarkEmpty
        } else {
            RunAction::Finished
        }
    }

    /// The run after its next action is done.
    pub closed spec fn spec_advance(&self) -> DispatchRun {
        match self.spec_next() {
            RunAction::MarkSending => DispatchRun { marked_sending: true, ..*self },
            RunAction::StartWorkers => DispatchRun { started: true, ..*self },
            RunAction::JoinWorker => DispatchRun { joined: (self.joined + 1) as usize, ..*self },
            RunAction::CloseChannel => DispatchRun { channel_closed: true, ..*self },
            RunAction::JoinWriter => DispatchRun { writer_joined: true, ..*self },
            RunAction::MarkEmpty => DispatchRun { marked_empty: true, ..*self },
            RunAction::Finished => *self,
        }
    }

    /// How many actions are left before the run is finished.
    pub closed spec fn steps_left(&self) -> nat {
        (if self.marked_sending { 0nat } else { 1nat }) + (if self.started { 0nat } else { 1nat }) + (
        self.workers - self.joined) as nat + (if self.channel_closed { 0nat } else { 1nat }) + (
        if self.writer_joined { 0nat } else { 1nat }) + (if self.marked_empty { 0nat } else { 1nat })
    }

    /// A run that has done nothing yet.
    pub fn new(workers: usize) -> (r: DispatchRun)
        ensures
            r.wf(),
            r.spec_workers() == workers,
            r.spec_next() == RunAction::MarkSending,
            r.steps_left() == workers + 5,
    {
        DispatchRun {
            workers,
            marked_sending: false,
            started: false,
            joined: 0,
            channel_closed: false,
            writer_joined: false,
            marked_empty: false,
        }
    }

    /// What the orchestrator does next.
    pub fn next_action(&self) -> (r: RunAction)
        ensures
            r == self.spec_next(),
    {
        if !self.marked_sending {
            RunAction::MarkSending
        } else if !self.started {
            RunAction::StartWorkers
        } else if self.joined < self.workers {
            RunAction::JoinWorker
        } else if !self.channel_closed {
            RunAction::CloseChannel
        } else if !self.writer_joined {
            RunAction::JoinWriter
        } else if !self.marked_empty {
            RunAction::MarkEmpty
        } else {
            RunAction::Finished
        }
    }

    /// Records that the next action has been done.
    pub fn record(&mut self, done: RunAction)
        requires
            old(self).wf(),
            done == old(self).spec_next(),
        ensures
            *final(self) == old(self).spec_advance(),
            final(self).wf(),
            final(self).spec_workers() == old(self).spec_workers(),
    {
        match done {
            RunAction::MarkSending => {
                self.marked_sending = true;
            },
            RunAction::StartWorkers => {
                self.started = true;
            },
            RunAction::JoinWorker => {
                self.joined = self.joined + 1;
            },
            RunAction::CloseChannel => {
                self.channel_closed = true;
            },
            RunAction::JoinWriter => {
                self.writer_joined = true;
            },
            RunAction::MarkEmpty => {
                self.marked_empty = true;
            },
            RunAction::Finished => {},
        }
    }

    /// Whether the run is over.
    pub fn is_finished(&self) -> (r: bool)
        requires
            self.wf(),
        ensures
            r == (self.spec_next() == RunAction::Finished),
    {
        self.marked_empty
    }
}

/// The completion order of a dispatch: the channel closes only once every
/// worker has been joined, the writer is joined only after the channel has
/// closed, and the status becomes `EMPTY` only after the writer has been
/// joined. Each action brings the run one step nearer its end, so a run with
/// `k` workers is finished after exactly `k + 5` actions.
pub proof fn lemma_completion_order(s: DispatchRun)
    requires
        s.wf(),
    ensures
        s.spec_next() == RunAction::CloseChannel ==> s.spec_started() && s.spec_joined()
            == s.spec_workers(),
        s.spec_next() == RunAction::JoinWriter ==> s.spec_channel_closed() && s.spec_joined()
            == s.spec_workers(),
        s.spec_next() == RunAction::MarkEmpty ==> s.spec_writer_joined() && s.spec_channel_closed()
            && s.spec_joined() == s.spec_workers(),
        s.spec_next() == RunAction::Finished <==> s.steps_left() == 0,
        s.spec_next() != RunAction::Finished ==> s.spec_advance().wf() && s.spec_advance().steps_left()
            == s.steps_left() - 1,
{
}

} // verus!
