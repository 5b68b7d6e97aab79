//! Completion-port dispatch: operation records kept in an arena, one per
//! overlapped operation in flight, found again by their index when the
//! completion dispatcher reports `(status, bytes transferred, record)`.
use vstd::prelude::*;

use crate::signal::{AsyncWaitObject, SignalState};
use crate::{OpPoll, ProtocolError};

verus! {

/// Abstract state of an operation record.
pub struct RecordState {
    pub signal: SignalState,
    /// The status code reported, if the operation failed.
    pub err: Option<u32>,
    /// The byte count reported, if the operation succeeded.
    pub len: u32,
}

impl RecordState {
    /// A record whose operation has just been submitted.
    pub open spec fn is_fresh(self) -> bool {
        &&& !self.signal.completed
        &&& self.signal.waker is None
        &&& self.err is None
        &&& self.len == 0
    }

    /// The record once the dispatcher has reported `(status, len)`: a
    /// non-zero status is the error; otherwise `len` bytes were transferred.
    pub open spec fn completed_with(self, status: u32, len: u32) -> RecordState {
        if status != 0 {
            RecordState { signal: self.signal.woken(), err: Some(status), ..self }
        } else {
            RecordState { signal: self.signal.woken(), len: len, ..self }
        }
    }

    /// What the awaiting task receives.
    pub open spec fn outcome(self) -> Result<u32, u32> {
        match self.err {
            Some(e) => Err(e),
            None => Ok(self.len),
        }
    }

    /// The answer of `poll`.
    pub open spec fn poll_result(self) -> OpPoll {
        if self.signal.completed {
            OpPoll::Ready(self.outcome())
        } else {
            OpPoll::Pending
        }
    }
}

/// The bookkeeping of one overlapped operation: its signal and its result.
pub struct OverlappedWrap {
    as_obj: AsyncWaitObject,
    err: Option<u32>,
    len: u32,
}

impl View for OverlappedWrap {
    type V = RecordState;

    closed spec fn view(&self) -> RecordState {
        RecordState { signal: self.as_obj@, err: self.err, len: self.len }
    }
}

impl OverlappedWrap {
    /// A record for an operation about to be submitted.
    pub fn new() -> (r: OverlappedWrap)
        ensures
            r@.is_fresh(),
    {
        OverlappedWrap { as_obj: AsyncWaitObject::new(), err: None, len: 0 }
    }

    /// Stores what the dispatcher reported and wakes the signal; hands back
    /// the task to resume.
    pub fn complete(&mut self, status: u32, len: u32) -> (r: Option<u64>)
        ensures
            final(self)@ == old(self)@.completed_with(status, len),
            r == old(self)@.signal.waker,
    {
        if status != 0 {
            self.err = Some(status);
        } else {
            self.len = len;
        }
        self.as_obj.wake()
    }

    /// `Ready` with the result once completed; else `Pending`, keeping `waker`.
    pub fn poll(&mut self, waker: u64) -> (r: OpPoll)
        ensures
            r == old(self)@.poll_result(),
            final(self)@ == (RecordState { signal: old(self)@.signal.polled(waker), ..old(self)@ }),
    {
        match self.as_obj.register_and_poll(waker) {
            crate::signal::SignalPoll::Ready => OpPoll::Ready(
                match self.err {
                    Some(e) => Err(e),
                    None => Ok(self.len),
                },
            ),
            crate::signal::SignalPoll::Pending => OpPoll::Pending,
        }
    }

    /// The status code reported, if the operation failed.
    pub fn get_ec(&self) -> (r: Option<u32>)
        ensures
            r == self@.err,
    {
        self.err
    }

    /// The byte count reported.
    pub fn get_len(&self) -> (r: u32)
        ensures
            r == self@.len,
    {
        self.len
    }

    /// Whether the dispatcher has reported the operation.
    pub fn is_completed(&self) -> (r: bool)
        ensures
            r == self@.signal.completed,
    {
        self.as_obj.is_completed()
    }
}

/// Who owns a slot of the arena.
#[derive(PartialEq, Eq, Structural, Debug, Clone, Copy)]
pub enum SlotPhase {
    /// Holds no operation; may be handed out again.
    Free,
    /// Holds an operation whose task still awaits it.
    Active,
    /// Holds an operation whose task gave up on it; the completion reclaims it.
    Orphaned,
}

/// How the OS answered the submission of an operation.
#[derive(PartialEq, Eq, Structural, Debug, Clone, Copy)]
pub enum Submission {
    /// Finished at once; the dispatcher still reports it.
    Completed,
    /// Queued; the dispatcher reports it later.
    Pending,
    /// Refused with this status code; nothing is reported.
    Failed(u32),
}

/// Status code of a submission that was queued.
pub const ERROR_IO_PENDING: u32 = 997;

/// The submission outcome that a status code returned by a submission call
/// stands for: zero finished at once, [`ERROR_IO_PENDING`] was queued, any
/// other code refused the operation.
pub open spec fn submission_of(code: u32) -> Submission {
    if code == 0 {
        Submission::Completed
    } else if code == ERROR_IO_PENDING {
        Submission::Pending
    } else {
        Submission::Failed(code)
    }
}

impl Submission {
    /// The outcome of a submission call that returns its status code.
    pub fn from_status(code: u32) -> (r: Submission)
        ensures
            r == submission_of(code),
    {
        if code == 0 {
            Submission::Completed
        } else if code == ERROR_IO_PENDING {
            Submission::Pending
        } else {
            Submission::Failed(code)
        }
    }
}

/// Abstract state of one slot.
pub struct SlotState {
    pub phase: SlotPhase,
    pub record: RecordState,
}

struct Slot {
    phase: SlotPhase,
    record: OverlappedWrap,
}

impl View for Slot {
    type V = SlotState;

    closed spec fn view(&self) -> SlotState {
        SlotState { phase: self.phase, record: self.record@ }
    }
}

/// The handle a task keeps on its operation: the index of its record, which
/// is also the correlation token passed to the OS.
#[derive(Debug, Clone, Copy)]
pub struct OverlappedObject {
    id: usize,
}

impl View for OverlappedObject {
    type V = usize;

    closed spec fn view(&self) -> usize {
        self.id
    }
}

impl OverlappedObject {
    /// The correlation token that the completion will name.
    pub fn get(&self) -> (r: usize)
        ensures
            r == self@,
    {
        self.id
    }
}

/// Whether slot `id` holds an operation that a task awaits.
pub open spec fn active_at(s: Seq<SlotState>, id: int) -> bool {
    0 <= id < s.len() && s[id].phase is Active
}

/// An orphaned operation has not completed: its completion frees it.
pub open spec fn port_wf(s: Seq<SlotState>) -> bool {
    forall|i: int| 0 <= i < s.len() && #[trigger] s[i].phase is Orphaned ==> !s[i].record.signal.completed
}

/// Whether the dispatcher may report on slot `id`.
pub open spec fn dispatch_verdict(s: Seq<SlotState>, id: int) -> Result<(), ProtocolError> {
    if !(0 <= id < s.len()) || s[id].phase is Free {
        Err(ProtocolError::UnknownRecord)
    } else if s[id].record.signal.completed {
        Err(ProtocolError::AlreadyCompleted)
    } else {
        Ok(())
    }
}

/// The arena once the dispatcher has reported `(status, len)` on slot `id`
/// (when the verdict allows it): an active record stores the result; an
/// orphaned one is freed.
pub open spec fn dispatched(s: Seq<SlotState>, id: int, status: u32, len: u32) -> Seq<SlotState> {
    if s[id].phase is Orphaned {
        s.update(id, SlotState { phase: SlotPhase::Free, ..s[id] })
    } else {
        s.update(id, SlotState { record: s[id].record.completed_with(status, len), ..s[id] })
    }
}

/// The task that a report on slot `id` resumes.
pub open spec fn dispatch_wakes(s: Seq<SlotState>, id: int) -> Option<u64> {
    if s[id].phase is Orphaned {
        None
    } else {
        s[id].record.signal.waker
    }
}

/// All operation records of one process-wide completion dispatcher.
pub struct CompletionPort {
    slots: Vec<Slot>,
}

impl View for CompletionPort {
    type V = Seq<SlotState>;

    closed spec fn view(&self) -> Seq<SlotState> {
        self.slots@.map_values(|s: Slot| s@)
    }
}

impl CompletionPort {
    /// A port with no records.
    pub fn new() -> (r: CompletionPort)
        ensures
            r@ == Seq::<SlotState>::empty(),
    {
        CompletionPort { slots: Vec::new() }
    }

    /// Number of slots, free or not.
    pub fn len(&self) -> (r: usize)
        ensures
            r == self@.len(),
    {
        self.slots.len()
    }

    /// Whether `op` names an operation that its task still awaits.
    pub fn is_active(&self, op: &OverlappedObject) -> (r: bool)
        ensures
            r == active_at(self@, op@ as int),
    {
        op.id < self.slots.len() && self.slots[op.id].phase == SlotPhase::Active
    }

    /// The phase of slot `id`, if there is one.
    pub fn phase(&self, id: usize) -> (r: Option<SlotPhase>)
        ensures
            id < self@.len() ==> r == Some(self@[id as int].phase),
            id >= self@.len() ==> r is None,
    {
        if id < self.slots.len() {
            Some(self.slots[id].phase)
        } else {
            None
        }
    }

    /// Allocates a record for a new operation in the lowest free slot, or in a
    /// new slot at the end when none is free. The record stays put until its
    /// completion has been taken or reclaimed.
    pub fn begin_op(&mut self) -> (op: OverlappedObject)
        requires
            old(self)@.len() < usize::MAX,
            port_wf(old(self)@),
        ensures
            op@ <= old(self)@.len(),
            forall|j: int| 0 <= j < op@ ==> !(#[trigger] old(self)@[j].phase is Free),
            op@ < old(self)@.len() ==> old(self)@[op@ as int].phase is Free,
            final(self)@.len() == if op@ < old(self)@.len() {
                old(self)@.len()
            } else {
                old(self)@.len() + 1
            },
            final(self)@[op@ as int].phase is Active,
            final(self)@[op@ as int].record.is_fresh(),
            forall|j: int| 0 <= j < old(self)@.len() && j != op@ ==> #[trigger] final(self)@[j]
                == old(self)@[j],
            port_wf(final(self)@),
    {
        let n = self.slots.len();
        let mut i: usize = 0;
        while i < n
            invariant
                n == self.slots@.len(),
                self@ == old(self)@,
                i <= n,
                forall|j: int| 0 <= j < i ==> !(#[trigger] old(self)@[j].phase is Free),
            ensures
                i <= n,
                i < n ==> old(self)@[i as int].phase is Free,
                forall|j: int| 0 <= j < i ==> !(#[trigger] old(self)@[j].phase is Free),
            decreases n - i,
        {
            if self.slots[i].phase == SlotPhase::Free {
                assert(self.slots@[i as int]@ == self@[i as int]);
                break;
            }
            assert(self.slots@[i as int]@ == self@[i as int]);
            i = i + 1;
        }
        let slot = Slot { phase: SlotPhase::Active, record: OverlappedWrap::new() };
        let ghost new_state = slot@;
        if i < n {
            self.slots.set(i, slot);
            assert(self@ =~= old(self)@.update(i as int, new_state));
        } else {
            self.slots.push(slot);
            assert(self@ =~= old(self)@.push(new_state));
        }
        OverlappedObject { id: i }
    }

    /// Takes the OS's answer to the submission of `op`. A refusal frees the
    /// record at once (no completion will come) and is returned; otherwise
    /// the operation stays in flight and the caller goes on to poll it.
    pub fn submitted(&mut self, op: &OverlappedObject, outcome: Submission) -> (r: Result<(), u32>)
        requires
            active_at(old(self)@, op@ as int),
            port_wf(old(self)@),
        ensures
            outcome matches Submission::Failed(c) ==> r == Err::<(), u32>(c) && final(self)@
                == old(self)@.update(
                op@ as int,
                SlotState { phase: SlotPhase::Free, ..old(self)@[op@ as int] },
            ),
            !(outcome is Failed) ==> r is Ok && final(self)@ == old(self)@,
            port_wf(final(self)@),
    {
        match outcome {
            Submission::Failed(c) => {
                self.slots[op.id].phase = SlotPhase::Free;
                proof {
                    assert(self@ =~= old(self)@.update(
                        op@ as int,
                        SlotState { phase: SlotPhase::Free, ..old(self)@[op@ as int] },
                    ));
                }
                Err(c)
            },
            _ => Ok(()),
        }
    }

    /// Polls `op`: once the dispatcher has reported it, `Ready` with its byte
    /// count or its status code, and the record is freed; before that
    /// `Pending`, keeping `waker` as the task to resume.
    pub fn poll(&mut self, op: &OverlappedObject, waker: u64) -> (r: OpPoll)
        requires
            active_at(old(self)@, op@ as int),
            port_wf(old(self)@),
        ensures
            r == old(self)@[op@ as int].record.poll_result(),
            old(self)@[op@ as int].record.signal.completed ==> final(self)@ == old(self)@.update(
                op@ as int,
                SlotState { phase: SlotPhase::Free, ..old(self)@[op@ as int] },
            ),
            !old(self)@[op@ as int].record.signal.completed ==> final(self)@ == old(self)@.update(
                op@ as int,
                SlotState {
                    record: RecordState {
                        signal: old(self)@[op@ as int].record.signal.polled(waker),
                        ..old(self)@[op@ as int].record
                    },
                    ..old(self)@[op@ as int]
                },
            ),
            port_wf(final(self)@),
    {
        let r = self.slots[op.id].record.poll(waker);
        if let OpPoll::Ready(_) = r {
            self.slots[op.id].phase = SlotPhase::Free;
        }
        proof {
            let o = old(self)@[op@ as int];
            if o.record.signal.completed {
                assert(self@ =~= old(self)@.update(
                    op@ as int,
                    SlotState { phase: SlotPhase::Free, ..o },
                ));
            } else {
                assert(self@ =~= old(self)@.update(
                    op@ as int,
                    SlotState {
                        record: RecordState { signal: o.record.signal.polled(waker), ..o.record },
                        ..o
                    },
                ));
            }
        }
        r
    }

    /// The task awaiting `op` gives up on it. A record already reported is
    /// freed; otherwise it is orphaned and stays valid until its completion
    /// arrives and reclaims it.
    pub fn abandon(&mut self, op: &OverlappedObject)
        requires
            active_at(old(self)@, op@ as int),
            port_wf(old(self)@),
        ensures
            final(self)@ == old(self)@.update(
                op@ as int,
                SlotState {
                    phase: if old(self)@[op@ as int].record.signal.completed {
                        SlotPhase::Free
                    } else {
                        SlotPhase::Orphaned
                    },
                    ..old(self)@[op@ as int]
                },
            ),
            port_wf(final(self)@),
    {
        if self.slots[op.id].record.is_completed() {
            self.slots[op.id].phase = SlotPhase::Free;
        } else {
            self.slots[op.id].phase = SlotPhase::Orphaned;
        }
        proof {
            assert(self@ =~= old(self)@.update(
                op@ as int,
                SlotState {
                    phase: if old(self)@[op@ as int].record.signal.completed {
                        SlotPhase::Free
                    } else {
                        SlotPhase::Orphaned
                    },
                    ..old(self)@[op@ as int]
                },
            ));
        }
    }

    /// Whether the dispatcher may report on slot `id`, and if not, which
    /// protocol violation it is: a slot that holds no operation, or a second
    /// report on one operation.
    pub fn completion_verdict(&self, id: usize) -> (r: Result<(), ProtocolError>)
        ensures
            r == dispatch_verdict(self@, id as int),
    {
        if id >= self.slots.len() || self.slots[id].phase == SlotPhase::Free {
            Err(ProtocolError::UnknownRecord)
        } else if self.slots[id].record.is_completed() {
            Err(ProtocolError::AlreadyCompleted)
        } else {
            Ok(())
        }
    }

    /// The dispatcher's entry point: the operation of slot `id` finished with
    /// `status` (zero for success) after transferring `len` bytes. The slot
    /// must hold an operation not reported yet (callers test
    /// [`Self::completion_verdict`] first). An active record stores the result,
    /// its signal is woken and the task to resume is handed back; an orphaned
    /// record is freed.
    pub fn on_completion(&mut self, id: usize, status: u32, len: u32) -> (r: Option<u64>)
        requires
            port_wf(old(self)@),
            dispatch_verdict(old(self)@, id as int) is Ok,
        ensures
            r == dispatch_wakes(old(self)@, id as int),
            final(self)@ == dispatched(old(self)@, id as int, status, len),
            port_wf(final(self)@),
    {
        if self.slots[id].phase == SlotPhase::Orphaned {
            self.slots[id].phase = SlotPhase::Free;
            proof {
                assert(self@ =~= dispatched(old(self)@, id as int, status, len));
            }
            None
        } else {
            let w = self.slots[id].record.complete(status, len);
            proof {
                assert(self@ =~= dispatched(old(self)@, id as int, status, len));
            }
            w
        }
    }
}

/// Completions of distinct records are independent: reporting on `i` leaves
/// every other slot as it was and resumes the task that awaits `i` and no
/// other; the reports on `i` and `j` may come in either order with the same
/// result; and once reported, `i` cannot be reported again.
pub proof fn lemma_completions_independent(
    s: Seq<SlotState>,
    i: int,
    j: int,
    si: u32,
    li: u32,
    sj: u32,
    lj: u32,
)
    requires
        port_wf(s),
        active_at(s, i),
        active_at(s, j),
        i != j,
        !s[i].record.signal.completed,
        !s[j].record.signal.completed,
    ensures
        dispatch_verdict(s, i) is Ok,
        dispatch_wakes(s, i) == s[i].record.signal.waker,
        forall|k: int| 0 <= k < s.len() && k != i ==> #[trigger] dispatched(s, i, si, li)[k] == s[k],
        dispatch_verdict(dispatched(s, i, si, li), j) is Ok,
        dispatch_wakes(dispatched(s, i, si, li), j) == s[j].record.signal.waker,
        dispatched(dispatched(s, i, si, li), j, sj, lj) == dispatched(
            dispatched(s, j, sj, lj),
            i,
            si,
            li,
        ),
        dispatch_verdict(dispatched(s, i, si, li), i) == Err::<(), ProtocolError>(
            ProtocolError::AlreadyCompleted,
        ),
        dispatched(s, i, si, li)[i].record.poll_result() == OpPoll::Ready(
            s[i].record.completed_with(si, li).outcome(),
        ),
{
    assert(dispatched(dispatched(s, i, si, li), j, sj, lj) =~= dispatched(
        dispatched(s, j, sj, lj),
        i,
        si,
        li,
    ));
}

} // verus!
