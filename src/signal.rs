use vstd::prelude::*;

verus! {

/// What a wait on the stop signal reports.
#[derive(Clone, Copy, Debug, PartialEq, Eq, Structural)]
pub enum WaitOutcome {
    /// A stop was requested.
    Notified,
    /// The interval ran out with nothing pending.
    TimedOut,
    /// The writer went away without ever sending.
    Disconnected,
}

/// What a non-blocking look at the stop signal reports.
#[derive(Clone, Copy, Debug, PartialEq, Eq, Structural)]
pub enum CheckOutcome {
    Notified,
    Empty,
}

/// Something the writer side can do to the signal.
#[derive(Clone, Copy, Debug, PartialEq, Eq, Structural)]
pub enum SignalOp {
    Send,
    CloseWriter,
}

/// The abstract state of a stop signal.
pub struct SignalModel {
    /// A notification has been delivered.
    pub sent: bool,
    /// The writer handle still exists.
    pub writer_open: bool,
}

impl SignalModel {
    pub open spec fn fresh() -> SignalModel {
        SignalModel { sent: false, writer_open: true }
    }

    /// A send delivers only while the writer exists; a second one changes nothing.
    pub open spec fn after_send(self) -> SignalModel {
        SignalModel { sent: self.sent || self.writer_open, writer_open: self.writer_open }
    }

    pub open spec fn after_close(self) -> SignalModel {
        SignalModel { sent: self.sent, writer_open: false }
    }

    pub open spec fn after(self, op: SignalOp) -> SignalModel {
        match op {
            SignalOp::Send => self.after_send(),
            SignalOp::CloseWriter => self.after_close(),
        }
    }

    /// The state after the writer side has done each of `ops` in turn.
    pub open spec fn after_all(self, ops: Seq<SignalOp>) -> SignalModel
        decreases ops.len(),
    {
        if ops.len() == 0 {
            self
        } else {
            self.after_all(ops.drop_last()).after(ops.last())
        }
    }

    /// A pending notification wins over a closed writer, which wins over waiting on.
    pub open spec fn wait_result(self) -> WaitOutcome {
        if self.sent {
            WaitOutcome::Notified
        } else if !self.writer_open {
            WaitOutcome::Disconnected
        } else {
            WaitOutcome::TimedOut
        }
    }

    pub open spec fn check_result(self) -> CheckOutcome {
        if self.sent {
            CheckOutcome::Notified
        } else {
            CheckOutcome::Empty
        }
    }
}

/// A single-shot, one-way stop notification: written at most once in effect,
/// read any number of times.
pub struct StopSignal {
    sent: bool,
    writer_open: bool,
}

impl View for StopSignal {
    type V = SignalModel;

    closed spec fn view(&self) -> SignalModel {
        SignalModel { sent: self.sent, writer_open: self.writer_open }
    }
}

impl StopSignal {
    /// A signal with its writer in place and nothing sent.
    pub fn new() -> (r: StopSignal)
        ensures
            r@ == SignalModel::fresh(),
    {
        StopSignal { sent: false, writer_open: true }
    }

    /// Requests a stop. Never blocks or fails; sending again is harmless.
    pub fn send(&mut self)
        ensures
            final(self)@ == old(self)@.after_send(),
    {
        if self.writer_open {
            self.sent = true;
        }
    }

    /// The writer handle goes away, whether or not it ever sent.
    pub fn close_writer(&mut self)
        ensures
            final(self)@ == old(self)@.after_close(),
    {
        self.writer_open = false;
    }

    /// Applies one writer-side operation.
    pub fn apply(&mut self, op: SignalOp)
        ensures
            final(self)@ == old(self)@.after(op),
    {
        match op {
            SignalOp::Send => self.send(),
            SignalOp::CloseWriter => self.close_writer(),
        }
    }

    /// Looks at the signal without waiting.
    pub fn try_check(&self) -> (r: CheckOutcome)
        ensures
            r == self@.check_result(),
    {
        if self.sent {
            CheckOutcome::Notified
        } else {
            CheckOutcome::Empty
        }
    }

    /// What a wait of any length reports once it ends: a pending or arriving
    /// notification, a writer that went away, or the timeout.
    pub fn wait(&self) -> (r: WaitOutcome)
        ensures
            r == self@.wait_result(),
    {
        if self.sent {
            WaitOutcome::Notified
        } else if !self.writer_open {
            WaitOutcome::Disconnected
        } else {
            WaitOutcome::TimedOut
        }
    }
}

/// Before any send, with the writer in place, every wait times out; once a
/// send has happened, every later wait and check reports the notification,
/// whatever the writer does afterwards.
pub proof fn lemma_times_out_until_sent(m: SignalModel, later: Seq<SignalOp>)
    requires
        !m.sent,
        m.writer_open,
    ensures
        m.wait_result() == WaitOutcome::TimedOut,
        m.check_result() == CheckOutcome::Empty,
        m.after_send().after_all(later).wait_result() == WaitOutcome::Notified,
        m.after_send().after_all(later).check_result() == CheckOutcome::Notified,
    decreases later.len(),
{
    if later.len() > 0 {
        lemma_times_out_until_sent(m, later.drop_last());
    }
}

/// Sending twice is the same as sending once, for everything that follows.
pub proof fn lemma_send_twice_same_as_once(m: SignalModel, later: Seq<SignalOp>)
    ensures
        m.after_send().after_send() == m.after_send(),
        m.after_send().after_send().after_all(later) == m.after_send().after_all(later),
{
}

/// A writer that goes away without sending leaves every later wait reporting a
/// disconnection rather than waiting forever: nothing can be sent any more.
pub proof fn lemma_closed_writer_disconnects(m: SignalModel, later: Seq<SignalOp>)
    requires
        !m.sent,
    ensures
        m.after_close().after_all(later) == m.after_close(),
        m.after_close().after_all(later).wait_result() == WaitOutcome::Disconnected,
    decreases later.len(),
{
    if later.len() > 0 {
        lemma_closed_writer_disconnects(m, later.drop_last());
    }
}

} // verus!
