//! A single-shot, resettable completion signal that pairs a "completed" flag
//! with the resumption handle of the task waiting on it.
//!
//! Resumption handles are opaque task identifiers (`u64`); whoever drives the
//! tasks maps them to real wakers.
use vstd::prelude::*;

verus! {

/// What a task learns when it polls a signal.
#[derive(PartialEq, Eq, Structural, Debug, Clone, Copy)]
pub enum SignalPoll {
    Ready,
    Pending,
}

/// Abstract state of an [`AsyncWaitObject`].
pub struct SignalState {
    /// Set by `wake`, cleared only by `reset`.
    pub completed: bool,
    /// The task to resume on completion, if one is waiting.
    pub waker: Option<u64>,
    /// Counts resets, so that a token taken before a reset can be told apart.
    pub epoch: u64,
}

/// The epoch that follows `e` (wrapping at the end of the range).
pub open spec fn next_epoch(e: u64) -> u64 {
    if e == u64::MAX { 0 } else { (e + 1) as u64 }
}

impl SignalState {
    /// A completed signal keeps no waiting task: its completion resumed it.
    pub open spec fn wf(self) -> bool {
        self.completed ==> self.waker is None
    }

    /// The state after `wake`.
    pub open spec fn woken(self) -> SignalState {
        SignalState { completed: true, waker: None, epoch: self.epoch }
    }

    /// The task resumed by `wake`.
    pub open spec fn resumed(self) -> Option<u64> {
        self.waker
    }

    /// The answer of `register_and_poll`.
    pub open spec fn poll_result(self) -> SignalPoll {
        if self.completed { SignalPoll::Ready } else { SignalPoll::Pending }
    }

    /// The state after `register_and_poll(w)`.
    pub open spec fn polled(self, w: u64) -> SignalState {
        if self.completed {
            self
        } else {
            SignalState { waker: Some(w), ..self }
        }
    }

    /// The state after `reset`.
    pub open spec fn fresh(self) -> SignalState {
        SignalState { completed: false, waker: None, epoch: next_epoch(self.epoch) }
    }
}

/// A completion flag with a single waiting task.
pub struct AsyncWaitObject {
    completed: bool,
    waker: Option<u64>,
    epoch: u64,
}

/// Names one operation of an [`AsyncWaitObject`]: the one in course when the
/// token was taken.
#[derive(Debug, Clone, Copy)]
pub struct AwaitableToken {
    epoch: u64,
}

impl AsyncWaitObject {
    #[verifier::type_invariant]
    spec fn inv(self) -> bool {
        self.completed ==> self.waker is None
    }
}

impl View for AsyncWaitObject {
    type V = SignalState;

    closed spec fn view(&self) -> SignalState {
        SignalState { completed: self.completed, waker: self.waker, epoch: self.epoch }
    }
}

impl View for AwaitableToken {
    type V = u64;

    closed spec fn view(&self) -> u64 {
        self.epoch
    }
}

impl AsyncWaitObject {
    /// A signal that has not completed and has no waiting task.
    pub fn new() -> (r: AsyncWaitObject)
        ensures
            r@ == (SignalState { completed: false, waker: None, epoch: 0 }),
            r@.wf(),
    {
        AsyncWaitObject { completed: false, waker: None, epoch: 0 }
    }

    /// Marks the operation complete and hands back the task to resume, if one
    /// was waiting; it is handed back once, since the slot is emptied.
    pub fn wake(&mut self) -> (r: Option<u64>)
        ensures
            old(self)@.wf(),
            final(self)@ == old(self)@.woken(),
            final(self)@.wf(),
            r == old(self)@.resumed(),
            old(self)@.completed ==> r is None,
    {
        proof {
            use_type_invariant(&*self);
        }
        let w = self.waker;
        self.waker = None;
        self.completed = true;
        w
    }

    /// `Ready` if the operation has completed (the handle is then not kept);
    /// otherwise keeps `waker` as the one task to resume, replacing any
    /// earlier one, and answers `Pending`.
    pub fn register_and_poll(&mut self, waker: u64) -> (r: SignalPoll)
        ensures
            old(self)@.wf(),
            r == old(self)@.poll_result(),
            final(self)@ == old(self)@.polled(waker),
            final(self)@.wf(),
    {
        proof {
            use_type_invariant(&*self);
        }
        if self.completed {
            SignalPoll::Ready
        } else {
            self.waker = Some(waker);
            SignalPoll::Pending
        }
    }

    /// Starts a new operation: not completed, no waiting task, and tokens of
    /// the previous operation no longer refer to this one.
    pub fn reset(&mut self)
        ensures
            final(self)@ == old(self)@.fresh(),
            final(self)@.wf(),
    {
        self.completed = false;
        self.waker = None;
        self.epoch = self.epoch.wrapping_add(1);
    }

    /// A token for the operation in course.
    pub fn get_await_token(&self) -> (r: AwaitableToken)
        ensures
            r@ == self@.epoch,
            self@.wf(),
    {
        proof {
            use_type_invariant(self);
        }
        AwaitableToken { epoch: self.epoch }
    }

    /// Whether the operation in course has completed.
    pub fn is_completed(&self) -> (r: bool)
        ensures
            r == self@.completed,
            self@.wf(),
    {
        proof {
            use_type_invariant(self);
        }
        self.completed
    }
}

impl AwaitableToken {
    /// Whether this token names the operation in course on `signal`.
    pub fn is_current(&self, signal: &AsyncWaitObject) -> (r: bool)
        ensures
            r == (self@ == signal@.epoch),
    {
        self.epoch == signal.epoch
    }

    /// Polls `signal` for the operation this token names. A token taken before
    /// the last `reset` answers `Pending` and registers nothing: completions of
    /// later operations are not its own.
    pub fn poll(&self, signal: &mut AsyncWaitObject, waker: u64) -> (r: SignalPoll)
        ensures
            self@ == old(signal)@.epoch ==> r == old(signal)@.poll_result() && final(signal)@
                == old(signal)@.polled(waker),
            self@ != old(signal)@.epoch ==> r == SignalPoll::Pending && final(signal)@ == old(
                signal,
            )@,
            final(signal)@.wf(),
    {
        proof {
            use_type_invariant(&*signal);
        }
        if self.epoch == signal.epoch {
            signal.register_and_poll(waker)
        } else {
            SignalPoll::Pending
        }
    }
}

/// After `reset` and then `wake`, polling answers `Ready`; after `reset` alone
/// it answers `Pending`, and polling again before any `wake` answers `Pending`
/// again while keeping a single waiting task (the latest one).
pub proof fn lemma_reset_wake_poll(s: SignalState, w1: u64, w2: u64)
    ensures
        s.fresh().woken().poll_result() == SignalPoll::Ready,
        s.fresh().poll_result() == SignalPoll::Pending,
        s.fresh().polled(w1).poll_result() == SignalPoll::Pending,
        s.fresh().polled(w1).polled(w2).waker == Some(w2),
        s.fresh().polled(w1).woken().waker == None::<u64>,
        s.fresh().polled(w1).resumed() == Some(w1),
{
}

} // verus!
