//! The per-frame scheduling state machine.
//!
//! One frame iteration walks slot `frame_counter mod F` (F frame slots may
//! have outstanding GPU work at once) through: wait on the slot's fence,
//! acquire a presentable image, record and submit the slot's command buffer,
//! present, advance the counter. Staleness reported on acquire or present
//! diverts into exactly one swapchain-recreation cycle; the counter advances
//! exactly once per completed submission, whatever the present outcome.
//!
//! The scheduler decides; an unverified front end performs each decided
//! [`FrameAction`] against the graphics API and reports the resulting
//! [`FrameEvent`] back.

use vstd::prelude::*;
use vstd::arithmetic::div_mod::{
    lemma_add_mod_noop,
    lemma_mod_bound,
    lemma_mod_self_0,
    lemma_small_mod,
};
use vstd::pervasive::unreached;
use vstd::pervasive::VecAdditionalExecFns;

use crate::error::DrawError;
use crate::MAX_FRAMES_IN_FLIGHT;

verus! {

/// Where the current frame iteration stands.
#[derive(Clone, Copy, PartialEq, Eq, Structural, Debug)]
pub enum FramePhase {
    /// Start of an iteration: the slot's fence must be waited on next.
    Ready,
    /// The slot's fence has signaled; an image must be acquired next.
    Acquire,
    /// An image is acquired; the slot's command buffer must be recorded and
    /// submitted next.
    Record {
        /// Index of the acquired swapchain image.
        image: u32,
    },
    /// The submission is enqueued; the image must be presented next.
    Present {
        /// Index of the acquired swapchain image.
        image: u32,
    },
    /// The swapchain is stale; it must be recreated before the next frame.
    Recreate,
    /// The device was reported lost; only teardown remains.
    Lost,
}

/// What the front end must do next against the graphics API.
#[derive(Clone, Copy, PartialEq, Eq, Structural, Debug)]
pub enum FrameAction {
    /// Block until the slot's fence signals. The fence is not reset here:
    /// were the iteration aborted after an out-of-date acquisition, a reset
    /// fence would never signal again and the next wait would block forever.
    WaitFence {
        /// Frame slot whose fence gates this iteration.
        slot: usize,
    },
    /// Request the next presentable image, signaling the slot's
    /// image-available semaphore.
    AcquireImage {
        /// Frame slot whose semaphore the acquisition signals.
        slot: usize,
    },
    /// Record the slot's command buffer against the image's framebuffer and
    /// submit it, signaling the slot's render-finished semaphore and, on
    /// completion, the fence. The fence must be reset only immediately
    /// before the submission that will signal it again: a failure that
    /// leaves it reset and unsubmitted would make the slot's next wait
    /// block forever, so such a failure must be reported as device loss
    /// unless the fence can be re-signaled.
    RecordAndSubmit {
        /// Frame slot whose command buffer is recorded.
        slot: usize,
        /// Acquired swapchain image index.
        image: u32,
    },
    /// Present the image, waiting on the slot's render-finished semaphore.
    PresentImage {
        /// Frame slot whose semaphore presentation waits on.
        slot: usize,
        /// Acquired swapchain image index.
        image: u32,
    },
    /// Run one swapchain recreation cycle.
    RecreateSwapchain,
    /// Stop driving frames; the device is lost and must be torn down.
    Halt,
}

/// What the graphics API reported for the action just performed.
#[derive(Clone, Copy, PartialEq, Eq, Structural, Debug)]
pub enum FrameEvent {
    /// The slot's fence signaled: its previous GPU work is complete.
    FenceSignaled,
    /// An image was acquired.
    ImageAcquired {
        /// Index of the acquired swapchain image.
        image: u32,
    },
    /// Acquisition reported the swapchain out of date.
    AcquireStale,
    /// Recording and submission were enqueued.
    SubmitCompleted,
    /// Recording or submission failed.
    SubmitFailed,
    /// Presentation succeeded.
    PresentOk,
    /// Presentation reported the swapchain out of date or suboptimal.
    PresentStale,
    /// Presentation failed for another reason.
    PresentFailed,
    /// The swapchain recreation cycle finished.
    SwapchainRecreated,
    /// The device was reported lost.
    DeviceLost,
}

/// How the iteration proceeds after an event.
#[derive(Clone, Copy, PartialEq, Eq, Structural, Debug)]
pub enum StepOutcome {
    /// Keep performing actions within this iteration.
    InProgress,
    /// The iteration is over; the next one may begin.
    Completed,
    /// The iteration is over with a per-frame error; whether the loop may
    /// continue depends on the error.
    Faulted(DrawError),
}

/// Mathematical state of the scheduler.
#[verifier::ext_equal]
pub struct SchedView {
    /// Completed submissions so far; the active slot is this modulo F.
    pub frame_counter: nat,
    /// One flag per slot: the slot's fence is not yet known to have
    /// signaled, so its command buffer may still be referenced by the GPU.
    pub outstanding: Seq<bool>,
    /// Where the current iteration stands.
    pub phase: FramePhase,
    /// Swapchain recreation cycles completed so far.
    pub recreations: nat,
}

/// The frame slot `v` is working on.
pub open spec fn slot_of(v: SchedView) -> int {
    (v.frame_counter % (MAX_FRAMES_IN_FLIGHT as nat)) as int
}

impl SchedView {
    /// Well-formed scheduler state: one flag per slot, and a slot is never
    /// recorded into while its previous work may still be outstanding.
    pub open spec fn wf(self) -> bool {
        &&& self.outstanding.len() == MAX_FRAMES_IN_FLIGHT
        &&& (self.phase is Acquire || self.phase is Record) ==> !self.outstanding[slot_of(
            self,
        )]
    }
}

/// The scheduler's initial state: counter at zero, every fence signaled
/// (slots start idle), ready for the first iteration.
pub open spec fn spec_init() -> SchedView {
    SchedView {
        frame_counter: 0,
        outstanding: seq![false, false, false],
        phase: FramePhase::Ready,
        recreations: 0,
    }
}

/// Which events can answer the pending action of a state: each report
/// matches the phase whose action produced it; device loss can strike
/// during any of them.
pub open spec fn accepts(v: SchedView, e: FrameEvent) -> bool {
    match e {
        FrameEvent::FenceSignaled => v.phase is Ready,
        FrameEvent::ImageAcquired { .. } => v.phase is Acquire,
        FrameEvent::AcquireStale => v.phase is Acquire,
        FrameEvent::SubmitCompleted => v.phase is Record,
        FrameEvent::SubmitFailed => v.phase is Record,
        FrameEvent::PresentOk => v.phase is Present,
        FrameEvent::PresentStale => v.phase is Present,
        FrameEvent::PresentFailed => v.phase is Present,
        FrameEvent::SwapchainRecreated => v.phase is Recreate,
        FrameEvent::DeviceLost => true,
    }
}

/// The transition relation of the scheduler, as a function: the state and
/// outcome that event `e` produces from state `v`.
///
/// The frame counter advances exactly on the three present reports — once
/// per completed submission, whatever the present outcome — and on nothing
/// else. Staleness on acquire diverts to recreation without advancing it.
pub open spec fn spec_step(v: SchedView, e: FrameEvent) -> (SchedView, StepOutcome) {
    match e {
        FrameEvent::DeviceLost => (
            SchedView { phase: FramePhase::Lost, ..v },
            StepOutcome::Faulted(DrawError::DeviceLost),
        ),
        FrameEvent::FenceSignaled => (
            SchedView {
                outstanding: v.outstanding.update(slot_of(v), false),
                phase: FramePhase::Acquire,
                ..v
            },
            StepOutcome::InProgress,
        ),
        FrameEvent::ImageAcquired { image } => (
            SchedView { phase: FramePhase::Record { image }, ..v },
            StepOutcome::InProgress,
        ),
        FrameEvent::AcquireStale => (
            SchedView { phase: FramePhase::Recreate, ..v },
            StepOutcome::InProgress,
        ),
        FrameEvent::SubmitCompleted => (
            SchedView {
                outstanding: v.outstanding.update(slot_of(v), true),
                phase: FramePhase::Present { image: v.phase->Record_image },
                ..v
            },
            StepOutcome::InProgress,
        ),
        FrameEvent::SubmitFailed => (
            SchedView { phase: FramePhase::Ready, ..v },
            StepOutcome::Faulted(DrawError::Submit),
        ),
        FrameEvent::PresentOk => (
            SchedView { frame_counter: v.frame_counter + 1, phase: FramePhase::Ready, ..v },
            StepOutcome::Completed,
        ),
        FrameEvent::PresentStale => (
            SchedView { frame_counter: v.frame_counter + 1, phase: FramePhase::Recreate, ..v },
            StepOutcome::InProgress,
        ),
        FrameEvent::PresentFailed => (
            SchedView { frame_counter: v.frame_counter + 1, phase: FramePhase::Ready, ..v },
            StepOutcome::Faulted(DrawError::Present),
        ),
        FrameEvent::SwapchainRecreated => (
            SchedView { recreations: v.recreations + 1, phase: FramePhase::Ready, ..v },
            StepOutcome::Completed,
        ),
    }
}

/// The action a state calls for.
pub open spec fn spec_action(v: SchedView) -> FrameAction {
    match v.phase {
        FramePhase::Ready => FrameAction::WaitFence { slot: slot_of(v) as usize },
        FramePhase::Acquire => FrameAction::AcquireImage { slot: slot_of(v) as usize },
        FramePhase::Record { image } => FrameAction::RecordAndSubmit {
            slot: slot_of(v) as usize,
            image,
        },
        FramePhase::Present { image } => FrameAction::PresentImage {
            slot: slot_of(v) as usize,
            image,
        },
        FramePhase::Recreate => FrameAction::RecreateSwapchain,
        FramePhase::Lost => FrameAction::Halt,
    }
}

/// The per-frame scheduler: sync-slot bookkeeping and the acquire, record,
/// submit, present protocol with swapchain-recreation recovery.
pub struct FrameScheduler {
    frame_counter: u64,
    outstanding: Vec<bool>,
    phase: FramePhase,
    recreations: u64,
}

impl View for FrameScheduler {
    type V = SchedView;

    closed spec fn view(&self) -> SchedView {
        SchedView {
            frame_counter: self.frame_counter as nat,
            outstanding: self.outstanding@,
            phase: self.phase,
            recreations: self.recreations as nat,
        }
    }
}

impl FrameScheduler {
    /// A scheduler in its initial state.
    pub fn new() -> (s: FrameScheduler)
        ensures
            s@ == spec_init(),
            s@.wf(),
    {
        let mut outstanding: Vec<bool> = Vec::new();
        outstanding.push(false);
        outstanding.push(false);
        outstanding.push(false);
        let s = FrameScheduler {
            frame_counter: 0,
            outstanding,
            phase: FramePhase::Ready,
            recreations: 0,
        };
        proof {
            assert(s@.outstanding =~= spec_init().outstanding);
            assert(s@ =~= spec_init());
        }
        s
    }

    /// The frame slot the scheduler is working on.
    pub fn current_slot(&self) -> (s: usize)
        ensures
            s == slot_of(self@) as usize,
            s < MAX_FRAMES_IN_FLIGHT,
    {
        (self.frame_counter % (MAX_FRAMES_IN_FLIGHT as u64)) as usize
    }

    /// Completed submissions so far.
    pub fn frame_counter(&self) -> (c: u64)
        ensures
            c == self@.frame_counter,
    {
        self.frame_counter
    }

    /// Swapchain recreation cycles completed so far.
    pub fn recreations(&self) -> (c: u64)
        ensures
            c == self@.recreations,
    {
        self.recreations
    }

    /// Where the current iteration stands.
    pub fn phase(&self) -> (p: FramePhase)
        ensures
            p == self@.phase,
    {
        self.phase
    }

    /// What the front end must do next.
    pub fn next_action(&self) -> (a: FrameAction)
        ensures
            a == spec_action(self@),
    {
        let slot = self.current_slot();
        match self.phase {
            FramePhase::Ready => FrameAction::WaitFence { slot },
            FramePhase::Acquire => FrameAction::AcquireImage { slot },
            FramePhase::Record { image } => FrameAction::RecordAndSubmit { slot, image },
            FramePhase::Present { image } => FrameAction::PresentImage { slot, image },
            FramePhase::Recreate => FrameAction::RecreateSwapchain,
            FramePhase::Lost => FrameAction::Halt,
        }
    }

    /// Feeds back what the graphics API reported for the pending action and
    /// takes the state machine one step. The counters are monotonic, so the
    /// machine's word size bounds them.
    pub fn handle_event(&mut self, e: FrameEvent) -> (r: StepOutcome)
        requires
            old(self)@.wf(),
            accepts(old(self)@, e),
            (e is PresentOk || e is PresentStale || e is PresentFailed) ==> old(
                self,
            )@.frame_counter < u64::MAX,
            e is SwapchainRecreated ==> old(self)@.recreations < u64::MAX,
        ensures
            final(self)@.wf(),
            final(self)@ == spec_step(old(self)@, e).0,
            r == spec_step(old(self)@, e).1,
    {
        let slot = self.current_slot();
        match e {
            FrameEvent::DeviceLost => {
                self.phase = FramePhase::Lost;
                StepOutcome::Faulted(DrawError::DeviceLost)
            },
            FrameEvent::FenceSignaled => {
                self.outstanding.set(slot, false);
                self.phase = FramePhase::Acquire;
                StepOutcome::InProgress
            },
            FrameEvent::ImageAcquired { image } => {
                self.phase = FramePhase::Record { image };
                StepOutcome::InProgress
            },
            FrameEvent::AcquireStale => {
                self.phase = FramePhase::Recreate;
                StepOutcome::InProgress
            },
            FrameEvent::SubmitCompleted => {
                let image = match self.phase {
                    FramePhase::Record { image } => image,
                    _ => unreached(),
                };
                self.outstanding.set(slot, true);
                self.phase = FramePhase::Present { image };
                StepOutcome::InProgress
            },
            FrameEvent::SubmitFailed => {
                self.phase = FramePhase::Ready;
                StepOutcome::Faulted(DrawError::Submit)
            },
            FrameEvent::PresentOk => {
                self.frame_counter = self.frame_counter + 1;
                self.phase = FramePhase::Ready;
                StepOutcome::Completed
            },
            FrameEvent::PresentStale => {
                self.frame_counter = self.frame_counter + 1;
                self.phase = FramePhase::Recreate;
                StepOutcome::InProgress
            },
            FrameEvent::PresentFailed => {
                self.frame_counter = self.frame_counter + 1;
                self.phase = FramePhase::Ready;
                StepOutcome::Faulted(DrawError::Present)
            },
            FrameEvent::SwapchainRecreated => {
                self.recreations = self.recreations + 1;
                self.phase = FramePhase::Ready;
                StepOutcome::Completed
            },
        }
    }
}

/// Slots of `s` whose previous GPU work may still be outstanding.
pub open spec fn count_true(s: Seq<bool>) -> nat
    decreases s.len(),
{
    if s.len() == 0 {
        0
    } else {
        count_true(s.drop_last()) + if s.last() {
            1nat
        } else {
            0nat
        }
    }
}

proof fn lemma_count_true_le_len(s: Seq<bool>)
    ensures
        count_true(s) <= s.len(),
    decreases s.len(),
{
    if s.len() > 0 {
        lemma_count_true_le_len(s.drop_last());
    }
}

/// At every instant, the number of command buffers with outstanding
/// (unsignaled) fences is at most the number of frame slots.
pub proof fn lemma_bounded_outstanding(v: SchedView)
    requires
        v.wf(),
    ensures
        count_true(v.outstanding) <= MAX_FRAMES_IN_FLIGHT,
{
    lemma_count_true_le_len(v.outstanding);
}

/// Every step of the machine preserves well-formedness, so the outstanding
/// bound holds at every instant of every run.
pub proof fn lemma_step_preserves_wf(v: SchedView, e: FrameEvent)
    requires
        v.wf(),
        accepts(v, e),
    ensures
        spec_step(v, e).0.wf(),
{
}

/// The frame counter advances exactly once per completed submission —
/// on each present report, whatever the outcome — and never otherwise.
pub proof fn lemma_counter_advances_once(v: SchedView, e: FrameEvent)
    requires
        accepts(v, e),
    ensures
        (e is PresentOk || e is PresentStale || e is PresentFailed) ==> spec_step(
            v,
            e,
        ).0.frame_counter == v.frame_counter + 1,
        !(e is PresentOk || e is PresentStale || e is PresentFailed) ==> spec_step(
            v,
            e,
        ).0.frame_counter == v.frame_counter,
{
}

/// Successive completed frames use successive slots, with no skips.
pub proof fn lemma_slot_succession(v: SchedView, e: FrameEvent)
    requires
        accepts(v, e),
        e is PresentOk || e is PresentStale || e is PresentFailed,
    ensures
        slot_of(spec_step(v, e).0) == (slot_of(v) + 1) % (MAX_FRAMES_IN_FLIGHT as int),
{
    let f = MAX_FRAMES_IN_FLIGHT as int;
    let c = v.frame_counter as int;
    lemma_add_mod_noop(c, 1, f);
    lemma_small_mod(1nat, f as nat);
}

/// Starting from any counter value, a run of F completed frames visits
/// every slot: round-robin with no slot skipped.
pub proof fn lemma_round_robin_coverage(c: nat, s: nat)
    requires
        s < MAX_FRAMES_IN_FLIGHT,
    ensures
        exists|j: nat|
            j < MAX_FRAMES_IN_FLIGHT && #[trigger] ((c + j) % (MAX_FRAMES_IN_FLIGHT as nat))
                == s,
{
    let f = MAX_FRAMES_IN_FLIGHT as int;
    let r = (c as int) % f;
    lemma_mod_bound(c as int, f);
    let j: int = if s as int >= r {
        s as int - r
    } else {
        s as int + f - r
    };
    assert(0 <= j < f);
    lemma_add_mod_noop(c as int, j, f);
    lemma_small_mod(j as nat, f as nat);
    if s as int >= r {
        lemma_small_mod(s, f as nat);
    } else {
        lemma_add_mod_noop(s as int, f, f);
        lemma_mod_self_0(f);
        lemma_small_mod(s, f as nat);
    }
    assert((c + j as nat) % (MAX_FRAMES_IN_FLIGHT as nat) == s);
}

/// A stale signal on acquire triggers exactly one recreation cycle and does
/// not advance the frame counter: the iteration is retried.
pub proof fn lemma_acquire_stale_recovery(v: SchedView)
    requires
        v.wf(),
        v.phase is Acquire,
    ensures
        ({
            let v1 = spec_step(v, FrameEvent::AcquireStale).0;
            let (v2, out) = spec_step(v1, FrameEvent::SwapchainRecreated);
            &&& spec_action(v1) == FrameAction::RecreateSwapchain
            &&& v2.recreations == v.recreations + 1
            &&& v2.frame_counter == v.frame_counter
            &&& v2.phase is Ready
            &&& out is Completed
        }),
{
}

/// A stale signal on present triggers exactly one recreation cycle and
/// still advances the frame counter: the submission completed.
pub proof fn lemma_present_stale_recovery(v: SchedView)
    requires
        v.wf(),
        v.phase is Present,
    ensures
        ({
            let v1 = spec_step(v, FrameEvent::PresentStale).0;
            let (v2, out) = spec_step(v1, FrameEvent::SwapchainRecreated);
            &&& spec_action(v1) == FrameAction::RecreateSwapchain
            &&& v2.recreations == v.recreations + 1
            &&& v2.frame_counter == v.frame_counter + 1
            &&& v2.phase is Ready
            &&& out is Completed
        }),
{
}

/// No step other than the end of a recreation cycle counts a recreation:
/// a stale signal leads to exactly one cycle, never more.
pub proof fn lemma_no_spurious_recreation(v: SchedView, e: FrameEvent)
    requires
        !(e is SwapchainRecreated),
    ensures
        spec_step(v, e).0.recreations == v.recreations,
{
}

} // verus!
