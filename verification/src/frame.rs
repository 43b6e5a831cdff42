//! The per-frame presentation protocol.
//!
//! The loop that acquires an image, waits for the image's last submission,
//! submits, presents and tracks one completion marker per swapchain image is
//! a state machine here: [`FrameLoop::step`] takes what happened and says
//! what to do next. The caller does the GPU work and reports its outcome.
//! The completion markers are the caller's; the loop only stores them.

use vstd::prelude::*;

verus! {

/// Where the loop stands in its cycle.
#[derive(Clone, Copy, Debug, PartialEq, Eq, Structural)]
pub enum Phase {
    /// Between frames.
    Idle,
    /// The swapchain is being recreated before the next acquisition.
    Recreating,
    /// An image has been requested.
    Acquiring,
    /// The acquired image's slot holds a marker that has not been waited for.
    Waiting { image_i: u32 },
    /// The command buffer for the acquired image may be submitted.
    Submitting { image_i: u32 },
    /// The submission is chained; the present is under way.
    Presenting { image_i: u32 },
    /// An unrecoverable error was reported. Nothing leaves this phase.
    Failed,
}

/// What happened outside, reported to the loop.
pub enum FrameEvent<F> {
    /// The event loop has drained its events: time for a frame.
    Tick,
    /// Swapchain recreation is done; the new swapchain has `image_count` images.
    Recreated { image_count: usize },
    /// An image was acquired.
    Acquired { image_i: u32, suboptimal: bool },
    /// Acquisition found the surface out of date.
    AcquireOutOfDate,
    /// Acquisition failed for another reason.
    AcquireFailed,
    /// The marker in the acquired image's slot has signaled.
    FenceSignaled,
    /// The command buffer was chained for execution.
    Submitted,
    /// The chain was flushed; `F` signals when it has run.
    Presented(F),
    /// Flushing the chain found the surface out of date.
    PresentOutOfDate,
    /// Flushing the chain failed for another reason.
    PresentFailed,
}

/// What the caller is to do next.
#[derive(Clone, Copy, Debug, PartialEq, Eq, Structural)]
pub enum FrameAction {
    /// The frame is over or was dropped: wait for the next tick.
    Rest,
    /// Recreate the swapchain, then report `Recreated`. With `window_resized`
    /// the viewport has changed too.
    RecreateSwapchain { window_resized: bool },
    /// Acquire the next image and report the outcome.
    AcquireImage,
    /// Block until the marker in slot `image_i` signals, then report
    /// `FenceSignaled`.
    WaitForFence { image_i: u32 },
    /// Submit the command buffer of image `image_i`, after the acquisition
    /// and after the marker in slot `after`, or after nothing else where
    /// `after` is `None`; then report `Submitted`.
    Submit { image_i: u32, after: Option<u32> },
    /// Chain the present of image `image_i`, ask for a completion marker,
    /// flush, and report the outcome.
    Present { image_i: u32 },
    /// Unrecoverable: stop the process.
    Abort,
    /// The event does not belong to the current phase; nothing changed.
    OutOfTurn,
}

/// The loop's state as a mathematical value.
pub struct FrameState<F> {
    pub phase: Phase,
    pub window_resized: bool,
    pub recreate_swapchain: bool,
    /// One slot per swapchain image: the marker of the last submission that
    /// targeted the image, if it was flushed.
    pub fences: Seq<Option<F>>,
    /// The slot of the last flushed submission.
    pub previous_fence_i: u32,
}

impl<F> FrameState<F> {
    /// The image that the current phase works on, if it works on one.
    pub open spec fn current_image(self) -> Option<u32> {
        match self.phase {
            Phase::Waiting { image_i } => Some(image_i),
            Phase::Submitting { image_i } => Some(image_i),
            Phase::Presenting { image_i } => Some(image_i),
            _ => None,
        }
    }

    /// The indices in the state name existing slots, and the loop only
    /// waits on a slot that holds a marker.
    pub open spec fn wf(self) -> bool {
        &&& self.previous_fence_i < self.fences.len() || (self.fences.len() == 0
            && self.previous_fence_i == 0)
        &&& match self.current_image() {
            Some(image_i) => image_i < self.fences.len(),
            None => true,
        }
        &&& match self.phase {
            Phase::Waiting { image_i } => self.fences[image_i as int] is Some,
            _ => true,
        }
    }

    /// The state before the first frame, with `image_count` empty slots.
    pub open spec fn initial(image_count: nat) -> FrameState<F> {
        FrameState {
            phase: Phase::Idle,
            window_resized: false,
            recreate_swapchain: false,
            fences: Seq::new(image_count, |k: int| None::<F>),
            previous_fence_i: 0,
        }
    }

    /// Whether the swapchain is recreated before the next acquisition.
    pub open spec fn needs_recreate(self) -> bool {
        self.window_resized || self.recreate_swapchain
    }

    /// The slot that the next submission is chained after: the slot of the
    /// last flushed submission, if it holds a marker.
    pub open spec fn chain_after(self) -> Option<u32> {
        if self.previous_fence_i < self.fences.len()
            && self.fences[self.previous_fence_i as int] is Some {
            Some(self.previous_fence_i)
        } else {
            None
        }
    }

    /// The state after a resize notification.
    pub open spec fn resized(self) -> FrameState<F> {
        FrameState { window_resized: true, ..self }
    }

    /// The slots after a recreation that left `image_count` images: kept
    /// where the count is unchanged, else allocated anew and empty. A kept
    /// marker still guards the command buffer of its image, which may be in
    /// use again after a recreation that changed nothing.
    pub open spec fn reallocated(self, image_count: usize) -> FrameState<F> {
        if image_count == self.fences.len() {
            self
        } else {
            FrameState {
                fences: Seq::new(image_count as nat, |k: int| None::<F>),
                previous_fence_i: 0,
                ..self
            }
        }
    }

    /// The state after `event`.
    pub open spec fn next(self, event: FrameEvent<F>) -> FrameState<F> {
        match (self.phase, event) {
            (Phase::Idle, FrameEvent::Tick) => if self.needs_recreate() {
                FrameState {
                    phase: Phase::Recreating,
                    window_resized: false,
                    recreate_swapchain: false,
                    ..self
                }
            } else {
                FrameState { phase: Phase::Acquiring, ..self }
            },
            (Phase::Recreating, FrameEvent::Recreated { image_count }) => FrameState {
                phase: Phase::Acquiring,
                ..self.reallocated(image_count)
            },
            (Phase::Acquiring, FrameEvent::Acquired { image_i, suboptimal }) => if image_i
                >= self.fences.len() {
                FrameState { phase: Phase::Failed, ..self }
            } else {
                FrameState {
                    phase: if self.fences[image_i as int] is Some {
                        Phase::Waiting { image_i }
                    } else {
                        Phase::Submitting { image_i }
                    },
                    recreate_swapchain: self.recreate_swapchain || suboptimal,
                    ..self
                }
            },
            (Phase::Acquiring, FrameEvent::AcquireOutOfDate) => FrameState {
                phase: Phase::Idle,
                recreate_swapchain: true,
                ..self
            },
            (Phase::Acquiring, FrameEvent::AcquireFailed) => FrameState {
                phase: Phase::Failed,
                ..self
            },
            (Phase::Waiting { image_i }, FrameEvent::FenceSignaled) => FrameState {
                phase: Phase::Submitting { image_i },
                ..self
            },
            (Phase::Submitting { image_i }, FrameEvent::Submitted) => FrameState {
                phase: Phase::Presenting { image_i },
                ..self
            },
            (Phase::Presenting { image_i }, FrameEvent::Presented(fence)) => FrameState {
                phase: Phase::Idle,
                fences: self.fences.update(image_i as int, Some(fence)),
                previous_fence_i: image_i,
                ..self
            },
            (Phase::Presenting { image_i }, FrameEvent::PresentOutOfDate) => FrameState {
                phase: Phase::Idle,
                recreate_swapchain: true,
                fences: self.fences.update(image_i as int, None),
                ..self
            },
            (Phase::Presenting { image_i }, FrameEvent::PresentFailed) => FrameState {
                phase: Phase::Idle,
                fences: self.fences.update(image_i as int, None),
                ..self
            },
            _ => self,
        }
    }

    /// The state after all of `events`, in order.
    pub open spec fn run(self, events: Seq<FrameEvent<F>>) -> FrameState<F>
        decreases events.len(),
    {
        if events.len() == 0 {
            self
        } else {
            self.run(events.drop_last()).next(events.last())
        }
    }

    /// What the caller is told to do on `event`.
    pub open spec fn action(self, event: FrameEvent<F>) -> FrameAction {
        match (self.phase, event) {
            (Phase::Idle, FrameEvent::Tick) => if self.needs_recreate() {
                FrameAction::RecreateSwapchain { window_resized: self.window_resized }
            } else {
                FrameAction::AcquireImage
            },
            (Phase::Recreating, FrameEvent::Recreated { image_count }) => FrameAction::AcquireImage,
            (Phase::Acquiring, FrameEvent::Acquired { image_i, suboptimal }) => if image_i
                >= self.fences.len() {
                FrameAction::Abort
            } else if self.fences[image_i as int] is Some {
                FrameAction::WaitForFence { image_i }
            } else {
                FrameAction::Submit { image_i, after: self.chain_after() }
            },
            (Phase::Acquiring, FrameEvent::AcquireOutOfDate) => FrameAction::Rest,
            (Phase::Acquiring, FrameEvent::AcquireFailed) => FrameAction::Abort,
            (Phase::Waiting { image_i }, FrameEvent::FenceSignaled) => FrameAction::Submit {
                image_i,
                after: self.chain_after(),
            },
            (Phase::Submitting { image_i }, FrameEvent::Submitted) => FrameAction::Present {
                image_i,
            },
            (Phase::Presenting { image_i }, FrameEvent::Presented(fence)) => FrameAction::Rest,
            (Phase::Presenting { image_i }, FrameEvent::PresentOutOfDate) => FrameAction::Rest,
            (Phase::Presenting { image_i }, FrameEvent::PresentFailed) => FrameAction::Rest,
            _ => FrameAction::OutOfTurn,
        }
    }
}

impl Phase {
    /// The most events that can still be answered in turn before the loop
    /// rests or aborts.
    pub open spec fn steps_left(self) -> nat {
        match self {
            Phase::Recreating => 5,
            Phase::Acquiring => 4,
            Phase::Waiting { image_i } => 3,
            Phase::Submitting { image_i } => 2,
            Phase::Presenting { image_i } => 1,
            Phase::Idle => 0,
            Phase::Failed => 0,
        }
    }
}

/// The presentation loop's state: its phase, the two recreation flags, one
/// fence slot per swapchain image, and the slot of the last flushed
/// submission.
pub struct FrameLoop<F> {
    phase: Phase,
    window_resized: bool,
    recreate_swapchain: bool,
    fences: Vec<Option<F>>,
    previous_fence_i: u32,
}

impl<F> View for FrameLoop<F> {
    type V = FrameState<F>;

    closed spec fn view(&self) -> FrameState<F> {
        FrameState {
            phase: self.phase,
            window_resized: self.window_resized,
            recreate_swapchain: self.recreate_swapchain,
            fences: self.fences@,
            previous_fence_i: self.previous_fence_i,
        }
    }
}

/// `n` empty fence slots.
fn empty_slots<F>(n: usize) -> (slots: Vec<Option<F>>)
    ensures
        slots@ == Seq::new(n as nat, |k: int| None::<F>),
{
    let mut slots: Vec<Option<F>> = Vec::new();
    let mut k: usize = 0;
    while k < n
        invariant
            k <= n,
            slots@.len() == k,
            forall|j: int| 0 <= j < k ==> slots@[j] == None::<F>,
        decreases n - k,
    {
        slots.push(None);
        k = k + 1;
    }
    slots
}

impl<F> FrameLoop<F> {
    /// A loop before its first frame, for a swapchain of `image_count`
    /// images: idle, no recreation pending, every slot empty.
    pub fn new(image_count: usize) -> (r: FrameLoop<F>)
        ensures
            r@ == FrameState::<F>::initial(image_count as nat),
            r@.wf(),
    {
        FrameLoop {
            phase: Phase::Idle,
            window_resized: false,
            recreate_swapchain: false,
            fences: empty_slots(image_count),
            previous_fence_i: 0,
        }
    }

    /// The current phase.
    pub fn phase(&self) -> (r: Phase)
        ensures
            r == self@.phase,
    {
        self.phase
    }

    /// Whether the swapchain will be recreated before the next acquisition.
    pub fn needs_recreate(&self) -> (r: bool)
        ensures
            r == self@.needs_recreate(),
    {
        self.window_resized || self.recreate_swapchain
    }

    /// The number of fence slots.
    pub fn image_count(&self) -> (r: usize)
        ensures
            r == self@.fences.len(),
    {
        self.fences.len()
    }

    /// The slot of the last flushed submission.
    pub fn previous_fence_i(&self) -> (r: u32)
        ensures
            r == self@.previous_fence_i,
    {
        self.previous_fence_i
    }

    /// The marker in slot `image_i`, or `None` where the slot is empty or
    /// does not exist.
    pub fn fence(&self, image_i: u32) -> (r: Option<&F>)
        ensures
            match r {
                Some(fence) => image_i < self@.fences.len() && self@.fences[image_i as int]
                    == Some(*fence),
                None => image_i >= self@.fences.len() || self@.fences[image_i as int] is None,
            },
    {
        if (image_i as usize) < self.fences.len() {
            self.fences[image_i as usize].as_ref()
        } else {
            None
        }
    }

    /// Whether the state is well formed. Every loop made by `new` and
    /// changed by `step` and `notify_resized` alone is.
    pub fn is_well_formed(&self) -> (r: bool)
        ensures
            r == self@.wf(),
    {
        let n: usize = self.fences.len();
        let previous_ok: bool = (self.previous_fence_i as usize) < n || (n == 0
            && self.previous_fence_i == 0);
        let phase_ok: bool = match self.phase {
            Phase::Waiting { image_i } => (image_i as usize) < n
                && self.fences[image_i as usize].is_some(),
            Phase::Submitting { image_i } => (image_i as usize) < n,
            Phase::Presenting { image_i } => (image_i as usize) < n,
            _ => true,
        };
        previous_ok && phase_ok
    }

    /// Notes that the window was resized: the swapchain and what depends on
    /// the viewport are rebuilt before the next acquisition.
    pub fn notify_resized(&mut self)
        ensures
            final(self)@ == old(self)@.resized(),
            old(self)@.wf() ==> final(self)@.wf(),
    {
        self.window_resized = true;
    }

    /// Takes what happened and returns what to do next. An event that does
    /// not belong to the current phase changes nothing and is answered with
    /// `OutOfTurn`.
    pub fn step(&mut self, event: FrameEvent<F>) -> (r: FrameAction)
        requires
            old(self)@.wf(),
        ensures
            final(self)@ == old(self)@.next(event),
            r == old(self)@.action(event),
            final(self)@.wf(),
    {
        match (self.phase, event) {
            (Phase::Idle, FrameEvent::Tick) => {
                if self.window_resized || self.recreate_swapchain {
                    let window_resized: bool = self.window_resized;
                    self.phase = Phase::Recreating;
                    self.window_resized = false;
                    self.recreate_swapchain = false;
                    FrameAction::RecreateSwapchain { window_resized }
                } else {
                    self.phase = Phase::Acquiring;
                    FrameAction::AcquireImage
                }
            },
            (Phase::Recreating, FrameEvent::Recreated { image_count }) => {
                if image_count != self.fences.len() {
                    self.previous_fence_i = 0;
                    self.fences = empty_slots(image_count);
                }
                self.phase = Phase::Acquiring;
                FrameAction::AcquireImage
            },
            (Phase::Acquiring, FrameEvent::Acquired { image_i, suboptimal }) => {
                if (image_i as usize) >= self.fences.len() {
                    self.phase = Phase::Failed;
                    FrameAction::Abort
                } else {
                    if suboptimal {
                        self.recreate_swapchain = true;
                    }
                    if self.fences[image_i as usize].is_some() {
                        self.phase = Phase::Waiting { image_i };
                        FrameAction::WaitForFence { image_i }
                    } else {
                        self.phase = Phase::Submitting { image_i };
                        FrameAction::Submit { image_i, after: self.chain_after() }
                    }
                }
            },
            (Phase::Acquiring, FrameEvent::AcquireOutOfDate) => {
                self.recreate_swapchain = true;
                self.phase = Phase::Idle;
                FrameAction::Rest
            },
            (Phase::Acquiring, FrameEvent::AcquireFailed) => {
                self.phase = Phase::Failed;
                FrameAction::Abort
            },
            (Phase::Waiting { image_i }, FrameEvent::FenceSignaled) => {
                self.phase = Phase::Submitting { image_i };
                FrameAction::Submit { image_i, after: self.chain_after() }
            },
            (Phase::Submitting { image_i }, FrameEvent::Submitted) => {
                self.phase = Phase::Presenting { image_i };
                FrameAction::Present { image_i }
            },
            (Phase::Presenting { image_i }, FrameEvent::Presented(fence)) => {
                self.fences.set(image_i as usize, Some(fence));
                self.previous_fence_i = image_i;
                self.phase = Phase::Idle;
                FrameAction::Rest
            },
            (Phase::Presenting { image_i }, FrameEvent::PresentOutOfDate) => {
                self.fences.set(image_i as usize, None);
                self.recreate_swapchain = true;
                self.phase = Phase::Idle;
                FrameAction::Rest
            },
            (Phase::Presenting { image_i }, FrameEvent::PresentFailed) => {
                self.fences.set(image_i as usize, None);
                self.phase = Phase::Idle;
                FrameAction::Rest
            },
            _ => FrameAction::OutOfTurn,
        }
    }

    /// The slot that the next submission is chained after.
    fn chain_after(&self) -> (r: Option<u32>)
        ensures
            r == self@.chain_after(),
    {
        if (self.previous_fence_i as usize) < self.fences.len()
            && self.fences[self.previous_fence_i as usize].is_some() {
            Some(self.previous_fence_i)
        } else {
            None
        }
    }
}

/// Every step keeps the state well formed.
pub proof fn lemma_next_preserves_wf<F>(s: FrameState<F>, event: FrameEvent<F>)
    requires
        s.wf(),
    ensures
        s.next(event).wf(),
{
}

/// A submission is only ever ordered for an image whose slot was empty when
/// the image was acquired, or whose marker has signaled since: the loop
/// never submits past a pending marker of the same image.
pub proof fn lemma_submit_only_after_wait<F>(
    s: FrameState<F>,
    event: FrameEvent<F>,
    image_i: u32,
    after: Option<u32>,
)
    requires
        s.wf(),
        s.action(event) == (FrameAction::Submit { image_i, after }),
    ensures
        image_i < s.fences.len(),
        after == s.chain_after(),
        s.next(event).phase == (Phase::Submitting { image_i }),
        (s.phase == Phase::Acquiring && s.fences[image_i as int] is None && event
            is Acquired) || (s.phase == (Phase::Waiting { image_i }) && event is FenceSignaled),
{
}

/// An image whose slot holds a marker is not submitted for on acquisition:
/// the loop orders a wait on that slot and stays put until the marker is
/// reported signaled. Every other event is out of turn and changes nothing.
pub proof fn lemma_pending_marker_blocks<F>(
    s: FrameState<F>,
    image_i: u32,
    suboptimal: bool,
    event: FrameEvent<F>,
)
    requires
        s.wf(),
        s.phase == Phase::Acquiring,
        image_i < s.fences.len(),
        s.fences[image_i as int] is Some,
        !(event is FenceSignaled),
    ensures
        s.action(FrameEvent::Acquired { image_i, suboptimal }) == (FrameAction::WaitForFence {
            image_i,
        }),
        ({
            let waiting = s.next(FrameEvent::Acquired { image_i, suboptimal });
            &&& waiting.phase == (Phase::Waiting { image_i })
            &&& waiting.fences == s.fences
            &&& waiting.action(event) == FrameAction::OutOfTurn
            &&& waiting.next(event) == waiting
        }),
{
}

/// A flushed frame leaves its marker in the slot of its image and touches
/// no other slot, the next submission is chained after that slot, and when
/// the same image is acquired in the next frame the loop waits on it.
pub proof fn lemma_flushed_frame_guards_image<F>(s: FrameState<F>, image_i: u32, fence: F)
    requires
        s.wf(),
        s.phase == (Phase::Presenting { image_i }),
    ensures
        ({
            let rest = s.next(FrameEvent::Presented(fence));
            &&& rest.phase == Phase::Idle
            &&& rest.fences.len() == s.fences.len()
            &&& rest.fences[image_i as int] == Some(fence)
            &&& forall|j: int|
                0 <= j < s.fences.len() && j != image_i ==> rest.fences[j] == s.fences[j]
            &&& rest.chain_after() == Some(image_i)
            &&& !rest.needs_recreate() ==> rest.next(FrameEvent::Tick).action(
                FrameEvent::Acquired { image_i, suboptimal: false },
            ) == (FrameAction::WaitForFence { image_i })
        }),
{
}

/// A frame for one image leaves the slots of all other images as they
/// were: only a recreation that changes the image count empties them.
pub proof fn lemma_other_slots_untouched<F>(s: FrameState<F>, event: FrameEvent<F>, j: int)
    requires
        s.wf(),
        s.phase != Phase::Recreating,
        0 <= j < s.fences.len(),
        match s.current_image() {
            Some(image_i) => image_i != j,
            None => true,
        },
    ensures
        s.next(event).fences.len() == s.fences.len(),
        s.next(event).fences[j] == s.fences[j],
{
}

/// When acquisition finds the surface out of date, the frame is dropped:
/// the recreate flag is set, nothing is submitted, no slot changes, and the
/// next tick orders the recreation.
pub proof fn lemma_out_of_date_acquire_drops_frame<F>(s: FrameState<F>)
    requires
        s.wf(),
        s.phase == Phase::Acquiring,
    ensures
        s.action(FrameEvent::AcquireOutOfDate) == FrameAction::Rest,
        ({
            let rest = s.next(FrameEvent::AcquireOutOfDate);
            &&& rest.phase == Phase::Idle
            &&& rest.recreate_swapchain
            &&& rest.fences == s.fences
            &&& rest.previous_fence_i == s.previous_fence_i
            &&& rest.action(FrameEvent::Tick) == (FrameAction::RecreateSwapchain {
                window_resized: s.window_resized,
            })
        }),
{
}

/// A suboptimal acquisition still presents its frame, and the swapchain is
/// recreated before the next one.
pub proof fn lemma_suboptimal_recreates_next_frame<F>(s: FrameState<F>, image_i: u32)
    requires
        s.wf(),
        s.phase == Phase::Acquiring,
        image_i < s.fences.len(),
    ensures
        ({
            let t = s.next(FrameEvent::Acquired { image_i, suboptimal: true });
            &&& t.current_image() == Some(image_i)
            &&& t.needs_recreate()
        }),
{
}

/// A failed flush leaves the image's slot empty, so the image's next frame
/// does not wait; only an out-of-date flush asks for recreation.
pub proof fn lemma_failed_flush_empties_slot<F>(s: FrameState<F>, image_i: u32)
    requires
        s.wf(),
        s.phase == (Phase::Presenting { image_i }),
    ensures
        s.next(FrameEvent::PresentFailed).fences[image_i as int] is None,
        s.next(FrameEvent::PresentFailed).recreate_swapchain == s.recreate_swapchain,
        s.next(FrameEvent::PresentFailed).phase == Phase::Idle,
        s.next(FrameEvent::PresentOutOfDate).fences[image_i as int] is None,
        s.next(FrameEvent::PresentOutOfDate).recreate_swapchain,
        s.next(FrameEvent::PresentOutOfDate).phase == Phase::Idle,
{
}

/// However long the loop runs and whatever is reported to it, its state
/// stays well formed.
pub proof fn lemma_run_preserves_wf<F>(s: FrameState<F>, events: Seq<FrameEvent<F>>)
    requires
        s.wf(),
    ensures
        s.run(events).wf(),
    decreases events.len(),
{
    if events.len() > 0 {
        lemma_run_preserves_wf(s, events.drop_last());
        lemma_next_preserves_wf(s.run(events.drop_last()), events.last());
    }
}

/// In no run from the start does the loop order a submission for an image
/// whose slot holds a marker that it has not waited for: when the event
/// after `history` is answered with a submission for `image_i`, slot
/// `image_i` was empty at that point, or the loop was waiting on it and the
/// event reports its marker signaled.
pub proof fn lemma_no_submission_past_pending_marker<F>(
    image_count: nat,
    history: Seq<FrameEvent<F>>,
    event: FrameEvent<F>,
    image_i: u32,
    after: Option<u32>,
)
    requires
        FrameState::<F>::initial(image_count).run(history).action(event) == (FrameAction::Submit {
            image_i,
            after,
        }),
    ensures
        ({
            let s = FrameState::<F>::initial(image_count).run(history);
            &&& image_i < s.fences.len()
            &&& s.fences[image_i as int] is None || (s.phase == (Phase::Waiting { image_i })
                && event is FenceSignaled)
        }),
{
    let start = FrameState::<F>::initial(image_count);
    lemma_run_preserves_wf(start, history);
    lemma_submit_only_after_wait(start.run(history), event, image_i, after);
}

/// The recreate flag is raised by nothing but an out-of-date acquisition,
/// a suboptimal acquisition, or an out-of-date flush; and the swapchain is
/// recreated on a tick exactly when that flag or the resize flag is up,
/// which takes both down.
pub proof fn lemma_recreation_triggers<F>(s: FrameState<F>, event: FrameEvent<F>)
    requires
        s.wf(),
    ensures
        !s.recreate_swapchain && s.next(event).recreate_swapchain ==> {
            ||| s.phase == Phase::Acquiring && event is AcquireOutOfDate
            ||| s.phase == Phase::Acquiring && event matches FrameEvent::Acquired {
                suboptimal: true,
                ..
            }
            ||| s.phase is Presenting && event is PresentOutOfDate
        },
        s.action(event) is RecreateSwapchain <==> s.phase == Phase::Idle && event is Tick
            && s.needs_recreate(),
        s.action(event) is RecreateSwapchain ==> !s.next(event).needs_recreate() && s.next(
            event,
        ).phase == Phase::Recreating,
        s.next(event).window_resized ==> s.window_resized,
{
}

/// A frame comes to an end: a tick starts it, every event answered in turn
/// after that brings the loop closer to rest, and a frame takes six events
/// at most. The loop rests or aborts exactly when no step is left.
pub proof fn lemma_frame_makes_progress<F>(s: FrameState<F>, event: FrameEvent<F>)
    requires
        s.wf(),
        s.action(event) != FrameAction::OutOfTurn,
    ensures
        s.phase == Phase::Idle ==> event is Tick && 4 <= s.next(event).phase.steps_left() <= 5,
        s.phase != Phase::Idle ==> s.next(event).phase.steps_left() < s.phase.steps_left(),
        s.phase != Phase::Failed,
        s.next(event).phase.steps_left() == 0 <==> s.action(event) == FrameAction::Rest
            || s.action(event) == FrameAction::Abort,
        s.action(event) == FrameAction::Rest <==> s.next(event).phase == Phase::Idle,
        s.action(event) == FrameAction::Abort <==> s.next(event).phase == Phase::Failed,
{
}

} // verus!
