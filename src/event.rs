//! Waiting on a waitable handle through a one-shot thread-pool registration:
//! the registration's callback wakes a signal, and the registration is
//! withdrawn (synchronously, by the caller) once the wait is over or given up.
use vstd::prelude::*;

use crate::signal::{AsyncWaitObject, SignalPoll, SignalState};

verus! {

/// Abstract state of an [`AwaitableObject`].
pub struct WaitState {
    pub signal: SignalState,
    /// The registration to withdraw, while one is held.
    pub wait_obj: Option<u64>,
}

/// What a wait answers.
#[derive(PartialEq, Eq, Structural, Debug, Clone, Copy)]
pub enum WaitPoll {
    /// Not signaled yet; the task will be resumed.
    Pending,
    /// Signaled. The registration given here (if any) must now be withdrawn,
    /// blocking until a callback in flight has returned.
    Ready { unregister: Option<u64> },
}

impl WaitState {
    /// The state after the registration's callback fired: it wakes the signal
    /// while the registration is held, and is not observed after.
    pub open spec fn fired(self) -> WaitState {
        if self.wait_obj is Some {
            WaitState { signal: self.signal.woken(), ..self }
        } else {
            self
        }
    }

    /// The task resumed by the callback.
    pub open spec fn fire_wakes(self) -> Option<u64> {
        if self.wait_obj is Some {
            self.signal.waker
        } else {
            None
        }
    }

    /// The answer of `wait`.
    pub open spec fn wait_result(self) -> WaitPoll {
        if self.signal.completed {
            WaitPoll::Ready { unregister: self.wait_obj }
        } else {
            WaitPoll::Pending
        }
    }

    /// The state after `wait(w)`.
    pub open spec fn waited(self, w: u64) -> WaitState {
        if self.signal.completed {
            WaitState { wait_obj: None, ..self }
        } else {
            WaitState { signal: self.signal.polled(w), ..self }
        }
    }
}

/// A wait on a handle this object does not own: it owns only the
/// registration.
pub struct AwaitableObject {
    as_obj: AsyncWaitObject,
    wait_obj: Option<u64>,
}

impl View for AwaitableObject {
    type V = WaitState;

    closed spec fn view(&self) -> WaitState {
        WaitState { signal: self.as_obj@, wait_obj: self.wait_obj }
    }
}

impl AwaitableObject {
    /// A wait made from the outcome of the registration call: its error is
    /// returned as it is; a registration makes a wait that holds it and has
    /// not been signaled.
    pub fn new(registration: Result<u64, u32>) -> (r: Result<AwaitableObject, u32>)
        ensures
            registration matches Err(e) ==> r == Err::<AwaitableObject, u32>(e),
            registration matches Ok(h) ==> r matches Ok(a) && a@.wait_obj == Some(h)
                && !a@.signal.completed && a@.signal.waker is None,
    {
        match registration {
            Ok(h) => Ok(AwaitableObject { as_obj: AsyncWaitObject::new(), wait_obj: Some(h) }),
            Err(e) => Err(e),
        }
    }

    /// The registration's callback: the handle was signaled (or the wait
    /// timed out). Hands back the task to resume. Once the registration has
    /// been withdrawn the call changes nothing and resumes no task.
    pub fn on_fired(&mut self) -> (r: Option<u64>)
        ensures
            final(self)@ == old(self)@.fired(),
            r == old(self)@.fire_wakes(),
    {
        if self.wait_obj.is_some() {
            self.as_obj.wake()
        } else {
            None
        }
    }

    /// Polls the wait: once signaled, `Ready`, handing over the registration
    /// to withdraw (it is no longer held); before that `Pending`, keeping
    /// `waker` as the task to resume.
    pub fn wait(&mut self, waker: u64) -> (r: WaitPoll)
        ensures
            r == old(self)@.wait_result(),
            final(self)@ == old(self)@.waited(waker),
    {
        match self.as_obj.register_and_poll(waker) {
            SignalPoll::Ready => WaitPoll::Ready { unregister: self.wait_obj.take() },
            SignalPoll::Pending => WaitPoll::Pending,
        }
    }

    /// Gives the wait up: hands over the registration to withdraw, if one is
    /// still held.
    pub fn unregister(&mut self) -> (r: Option<u64>)
        ensures
            r == old(self)@.wait_obj,
            final(self)@ == (WaitState { wait_obj: None, ..old(self)@ }),
    {
        self.wait_obj.take()
    }

    /// Whether a registration is still held.
    pub fn is_registered(&self) -> (r: bool)
        ensures
            r == self@.wait_obj is Some,
    {
        self.wait_obj.is_some()
    }
}

/// Once a wait has returned `Ready`, the registration is no longer held: a later firing of its callback changes nothing and
/// resumes no task, not even one that polls the same object afterwards.
pub proof fn lemma_no_wake_after_wait(s: WaitState, w: u64, w2: u64)
    requires
        s.signal.completed,
    ensures
        s.wait_result() is Ready,
        s.waited(w).wait_obj is None,
        s.waited(w).fired() == s.waited(w),
        s.waited(w).fire_wakes() is None,
        s.waited(w).waited(w2).fired() == s.waited(w).waited(w2),
        s.waited(w).waited(w2).fire_wakes() is None,
{
}

/// Once a wait has been given up, a later firing of its callback changes
/// nothing and resumes no task.
pub proof fn lemma_no_wake_after_unregister(s: WaitState)
    ensures
        (WaitState { wait_obj: None, ..s }).fired() == (WaitState { wait_obj: None, ..s }),
        (WaitState { wait_obj: None, ..s }).fire_wakes() is None,
{
}

} // verus!
