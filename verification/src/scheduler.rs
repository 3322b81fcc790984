//! The frame scheduler: a state machine that decides, one step at a time,
//! what the host must ask of the device next.
//!
//! The scheduler never touches the device. Each call hands back an
//! [`Action`]; the host performs it and reports how it ended with
//! [`FrameScheduler::step`]. One tick runs through the phases
//!
//! wait for the slot's fence, reset it, acquire an image, wait for the
//! image's last user, submit, present, and, where the surface changed,
//! wait for the device to go idle and rebuild the swapchain,
//!
//! and ends by moving on to the next frame slot.
//!
//! The slot's fence is reset right after the wait for it, before the image
//! is acquired. If the swapchain then hands out an image whose last user is
//! the current slot, the wait for that image is a wait on the fence just
//! reset, which nothing will signal: the tick cannot go on. The module
//! `fences` proves this of its model of the device.

use vstd::prelude::*;
use crate::sync::{all_unset, next_slot, slots_valid, FrameSlot, FrameSlotTable, ImageFenceMap};
use crate::sync::lemma_next_slot_wraps;

verus! {

/// The timeout of every wait and of every acquisition: none at all.
pub const NO_TIMEOUT: u64 = u64::MAX;

/// The pipeline stage at which a submission waits for its image: the
/// output of color attachments.
pub const COLOR_ATTACHMENT_OUTPUT: u32 = 0x400;

/// Where the scheduler stands: at rest, or waiting for the outcome of the
/// action it asked for last.
#[derive(Clone, Copy, Debug, PartialEq, Eq)]
pub enum Phase {
    /// Between ticks.
    Idle,
    /// Waiting for the in-flight fence of the current slot.
    SlotFenceWait,
    /// Resetting the in-flight fence of the current slot.
    FenceReset,
    /// Acquiring the next presentable image.
    Acquire,
    /// Waiting for the fence that guards the last use of the acquired image.
    ImageFenceWait { image: usize },
    /// Submitting the commands recorded for the acquired image.
    Submit { image: usize },
    /// Presenting the image.
    Present { image: usize },
    /// Waiting for the device to go idle before the swapchain is rebuilt.
    RebuildIdle,
    /// Rebuilding the swapchain and everything that depends on it.
    Rebuild,
    /// Waiting for the device to go idle before everything is torn down.
    CloseIdle,
    /// Tearing everything down.
    Teardown,
    /// Torn down; nothing is scheduled any more.
    Closed,
    /// A fatal error ended the last tick; no tick is started any more, and
    /// only the shutdown is left to do.
    Failed,
}

/// What the presentation engine said of a presented image.
#[derive(Clone, Copy, Debug, PartialEq, Eq)]
pub enum PresentResult {
    /// Presented, and the swapchain still matches the surface.
    Success,
    /// Presented, but the swapchain no longer matches the surface exactly.
    Suboptimal,
    /// Not presented: the swapchain no longer fits the surface.
    OutOfDate,
}

/// How the action that the scheduler asked for ended.
#[derive(Clone, Copy, Debug, PartialEq, Eq)]
pub enum Outcome {
    /// The wait returned, or the reset, submission, rebuild step or teardown
    /// succeeded.
    Done,
    /// The swapchain handed out the image with this index.
    Acquired { image: usize },
    /// The present call returned one of the results that are no failure.
    Presented { result: PresentResult },
    /// The swapchain was rebuilt and now has this many images.
    Rebuilt { image_count: usize },
    /// The action failed.
    Failed,
}

/// What the host must do next.
#[derive(Clone, Copy, Debug, PartialEq, Eq)]
pub enum Action {
    /// Nothing: the tick is over, or none was started.
    Nothing,
    /// Block until `fence`, the in-flight fence of slot `slot`, is signaled,
    /// for `timeout` nanoseconds at most.
    WaitFence { slot: usize, fence: u64, timeout: u64 },
    /// Reset `fence`, the in-flight fence of slot `slot`, to unsignaled.
    ResetFence { slot: usize, fence: u64 },
    /// Acquire the next image of the swapchain, waiting `timeout`
    /// nanoseconds at most, and have `signal` signaled when the image is
    /// ready.
    AcquireImage { signal: u64, timeout: u64 },
    /// Submit the commands recorded for image `image`: they wait for `wait`
    /// at the pipeline stages `wait_stage`, and their completion signals
    /// `signal` and `fence`, the in-flight fence of slot `slot`.
    Submit { image: usize, slot: usize, wait: u64, wait_stage: u32, signal: u64, fence: u64 },
    /// Present image `image` once `wait` is signaled.
    Present { image: usize, wait: u64 },
    /// Block until the device has finished all submitted work.
    WaitIdle,
    /// Destroy and build anew the swapchain and what depends on it.
    Rebuild,
    /// Destroy everything.
    Teardown,
}

/// Why a step was refused or a tick was aborted.
#[derive(Clone, Copy, Debug, PartialEq, Eq)]
pub enum FrameError {
    /// The outcome does not answer the action that the scheduler is waiting
    /// for. The scheduler is unchanged.
    OutOfTurn,
    /// The swapchain handed out an image index that it does not have.
    ImageOutOfRange,
    /// The action asked for in phase `during` failed.
    DeviceFailed { during: Phase },
}

/// The scheduler as a mathematical value.
#[verifier::ext_equal]
pub struct SchedulerState {
    /// The ring of frame slots.
    pub slots: Seq<FrameSlot>,
    /// The index of the slot that the current or next tick uses.
    pub frame: int,
    /// For each swapchain image, the slot that used it last.
    pub image_fences: Seq<Option<usize>>,
    /// A rebuild has been asked for and not yet been carried out.
    pub resized: bool,
    /// The window has no area.
    pub minimized: bool,
    /// The phase.
    pub phase: Phase,
}

impl SchedulerState {
    /// The state right after construction.
    pub open spec fn initial(slots: Seq<FrameSlot>, image_count: nat) -> SchedulerState {
        SchedulerState {
            slots,
            frame: 0,
            image_fences: all_unset(image_count),
            resized: false,
            minimized: false,
            phase: Phase::Idle,
        }
    }

    /// What every reachable state satisfies: the ring is usable, the frame
    /// index lies in it, every recorded last user is a slot of the ring, and
    /// the image that a phase speaks of is an image of the swapchain.
    pub open spec fn wf(self) -> bool {
        &&& slots_valid(self.slots)
        &&& 0 <= self.frame < self.slots.len()
        &&& forall|i: int|
            0 <= i < self.image_fences.len() ==> (#[trigger] self.image_fences[i] matches Some(s)
                ==> s < self.slots.len())
        &&& match self.phase {
            Phase::ImageFenceWait { image } => image < self.image_fences.len()
                && self.image_fences[image as int] is Some,
            Phase::Submit { image } => image < self.image_fences.len(),
            Phase::Present { image } => image < self.image_fences.len(),
            _ => true,
        }
    }

    /// The slot of the current tick.
    pub open spec fn slot(self) -> FrameSlot {
        self.slots[self.frame]
    }

    /// A tick is under way, or the scheduler is closing.
    pub open spec fn busy(self) -> bool {
        match self.phase {
            Phase::Idle | Phase::Closed | Phase::Failed => false,
            _ => true,
        }
    }

    /// The action whose outcome the scheduler is waiting for.
    pub open spec fn awaited(self) -> Action {
        match self.phase {
            Phase::Idle | Phase::Closed | Phase::Failed => Action::Nothing,
            Phase::SlotFenceWait => Action::WaitFence {
                slot: self.frame as usize,
                fence: self.slot().in_flight,
                timeout: NO_TIMEOUT,
            },
            Phase::FenceReset => Action::ResetFence {
                slot: self.frame as usize,
                fence: self.slot().in_flight,
            },
            Phase::Acquire => Action::AcquireImage {
                signal: self.slot().image_available,
                timeout: NO_TIMEOUT,
            },
            Phase::ImageFenceWait { image } => Action::WaitFence {
                slot: self.image_fences[image as int]->0,
                fence: self.slots[self.image_fences[image as int]->0 as int].in_flight,
                timeout: NO_TIMEOUT,
            },
            Phase::Submit { image } => Action::Submit {
                image,
                slot: self.frame as usize,
                wait: self.slot().image_available,
                wait_stage: COLOR_ATTACHMENT_OUTPUT,
                signal: self.slot().render_finished,
                fence: self.slot().in_flight,
            },
            Phase::Present { image } => Action::Present {
                image,
                wait: self.slot().render_finished,
            },
            Phase::RebuildIdle | Phase::CloseIdle => Action::WaitIdle,
            Phase::Rebuild => Action::Rebuild,
            Phase::Teardown => Action::Teardown,
        }
    }

    /// The same state in another phase.
    pub open spec fn entering(self, phase: Phase) -> SchedulerState {
        SchedulerState { phase, ..self }
    }

    /// The end of a tick: on to the next slot of the ring.
    pub open spec fn advanced(self) -> SchedulerState {
        SchedulerState {
            frame: next_slot(self.frame, self.slots.len() as int),
            phase: Phase::Idle,
            ..self
        }
    }

    /// The effect of a rebuild: the new swapchain has `image_count` images,
    /// none of them used. Slots and frame index are as before.
    pub open spec fn rebuilt(self, image_count: nat) -> SchedulerState {
        SchedulerState { image_fences: all_unset(image_count), ..self }
    }

    /// The current slot becomes the last user of `image`, whose commands are
    /// submitted next.
    pub open spec fn submitting(self, image: usize) -> SchedulerState {
        SchedulerState {
            image_fences: self.image_fences.update(image as int, Some(self.frame as usize)),
            phase: Phase::Submit { image },
            ..self
        }
    }

    /// The swapchain must be rebuilt: the pending flag is consumed and the
    /// device is waited for.
    pub open spec fn rebuilding(self) -> SchedulerState {
        SchedulerState { resized: false, phase: Phase::RebuildIdle, ..self }
    }

    /// The pending-rebuild flag is set.
    pub open spec fn invalidated(self) -> SchedulerState {
        SchedulerState { resized: true, ..self }
    }

    /// The window changed its size. A window without area suspends
    /// scheduling; any other size resumes it and asks for a rebuild.
    pub open spec fn resize(self, width: u32, height: u32) -> SchedulerState {
        if width == 0 || height == 0 {
            SchedulerState { minimized: true, ..self }
        } else {
            SchedulerState { minimized: false, resized: true, ..self }
        }
    }

    /// A tick is due. It starts only at rest and with a window that has an
    /// area, and then begins with the wait for the current slot's fence.
    pub open spec fn tick(self) -> (SchedulerState, Action) {
        if self.phase == Phase::Idle && !self.minimized {
            (
                self.entering(Phase::SlotFenceWait),
                self.entering(Phase::SlotFenceWait).awaited(),
            )
        } else {
            (self, Action::Nothing)
        }
    }

    /// The host is closing. At rest, and after a fatal error, this begins
    /// the shutdown with the wait for an idle device.
    pub open spec fn close(self) -> (SchedulerState, Action) {
        if self.phase == Phase::Idle || self.phase == Phase::Failed {
            (self.entering(Phase::CloseIdle), self.entering(Phase::CloseIdle).awaited())
        } else {
            (self, Action::Nothing)
        }
    }

    /// The state that follows when the awaited action has ended with
    /// `outcome`, or the reason why none follows.
    ///
    /// Within a tick the wait for the slot's fence is followed by its
    /// reset, and the reset by the acquisition of an image. An image that
    /// has a last user is waited for, whichever slot that user is; then, or
    /// at once, the current slot becomes its last user and its commands are
    /// submitted, and after that the image is presented. When the present
    /// has returned, a rebuild follows if one is pending or if the swapchain
    /// was found suboptimal or out of date; with a rebuild pending, a
    /// present that failed in any other way is followed by the rebuild too.
    /// A rebuild waits for the device, builds the swapchain anew, and ends
    /// the tick, as does a present that plainly succeeded. Any other failure
    /// is fatal, and an outcome that does not answer the awaited action is
    /// out of turn.
    pub open spec fn next(self, outcome: Outcome) -> Result<SchedulerState, FrameError> {
        match (self.phase, outcome) {
            (Phase::SlotFenceWait, Outcome::Done) => Ok(self.entering(Phase::FenceReset)),
            (Phase::FenceReset, Outcome::Done) => Ok(self.entering(Phase::Acquire)),
            (Phase::Acquire, Outcome::Acquired { image }) => {
                if image >= self.image_fences.len() {
                    Err(FrameError::ImageOutOfRange)
                } else if self.image_fences[image as int] is Some {
                    Ok(self.entering(Phase::ImageFenceWait { image }))
                } else {
                    Ok(self.submitting(image))
                }
            },
            (Phase::ImageFenceWait { image }, Outcome::Done) => Ok(self.submitting(image)),
            (Phase::Submit { image }, Outcome::Done) => Ok(
                self.entering(Phase::Present { image }),
            ),
            (Phase::Present { .. }, Outcome::Presented { result }) => {
                if self.resized || result != PresentResult::Success {
                    Ok(self.rebuilding())
                } else {
                    Ok(self.advanced())
                }
            },
            (Phase::Present { .. }, Outcome::Failed) => {
                if self.resized {
                    Ok(self.rebuilding())
                } else {
                    Err(FrameError::DeviceFailed { during: self.phase })
                }
            },
            (Phase::RebuildIdle, Outcome::Done) => Ok(self.entering(Phase::Rebuild)),
            (Phase::Rebuild, Outcome::Rebuilt { image_count }) => Ok(
                self.rebuilt(image_count as nat).advanced(),
            ),
            (Phase::CloseIdle, Outcome::Done) => Ok(self.entering(Phase::Teardown)),
            (Phase::Teardown, Outcome::Done) => Ok(self.entering(Phase::Closed)),
            (_, Outcome::Failed) => {
                if self.busy() {
                    Err(FrameError::DeviceFailed { during: self.phase })
                } else {
                    Err(FrameError::OutOfTurn)
                }
            },
            _ => Err(FrameError::OutOfTurn),
        }
    }

    /// The transition taken when the awaited action has ended with
    /// `outcome`, and what the host is asked to do then: the action that
    /// the new state awaits. An outcome out of turn changes nothing; any
    /// other error ends the tick and leaves only the shutdown to do.
    pub open spec fn step(self, outcome: Outcome) -> (SchedulerState, Result<Action, FrameError>) {
        match self.next(outcome) {
            Ok(next) => (next, Ok(next.awaited())),
            Err(FrameError::OutOfTurn) => (self, Err(FrameError::OutOfTurn)),
            Err(error) => (self.entering(Phase::Failed), Err(error)),
        }
    }
}

/// The frame scheduler. It owns the frame slot table and the image fence
/// map, the index of the current slot, and the pending-rebuild flag.
pub struct FrameScheduler {
    slots: FrameSlotTable,
    images: ImageFenceMap,
    frame: usize,
    resized: bool,
    minimized: bool,
    phase: Phase,
}

impl View for FrameScheduler {
    type V = SchedulerState;

    closed spec fn view(&self) -> SchedulerState {
        SchedulerState {
            slots: self.slots@,
            frame: self.frame as int,
            image_fences: self.images@,
            resized: self.resized,
            minimized: self.minimized,
            phase: self.phase,
        }
    }
}

/// Sets up frame pacing for the given slots, whose objects the host has
/// created, and a swapchain of `image_count` images: the scheduler is at
/// rest on slot 0 and no image has a last user. Refused exactly when the
/// slots do not form a usable ring.
pub fn create_sync_objects(slots: Vec<FrameSlot>, image_count: usize) -> (scheduler: Option<
    FrameScheduler,
>)
    ensures
        scheduler is Some <==> slots_valid(slots@),
        scheduler matches Some(s) ==> s@ == SchedulerState::initial(slots@, image_count as nat)
            && s.wf(),
{
    match FrameSlotTable::new(slots) {
        Some(table) => {
            let scheduler = FrameScheduler {
                slots: table,
                images: ImageFenceMap::new(image_count),
                frame: 0,
                resized: false,
                minimized: false,
                phase: Phase::Idle,
            };
            Some(scheduler)
        },
        None => None,
    }
}

impl FrameScheduler {
    /// The invariant of the scheduler, which every operation keeps.
    pub open spec fn wf(&self) -> bool {
        self@.wf()
    }

    /// The index of the current frame slot.
    pub fn frame(&self) -> (frame: usize)
        ensures
            frame == self@.frame,
    {
        self.frame
    }

    /// The phase.
    pub fn phase(&self) -> (phase: Phase)
        ensures
            phase == self@.phase,
    {
        self.phase
    }

    /// The number of frame slots.
    pub fn slot_count(&self) -> (n: usize)
        requires
            self.wf(),
        ensures
            n == self@.slots.len(),
    {
        self.slots.len()
    }

    /// The frame slot at `index`, if there is one.
    pub fn slot(&self, index: usize) -> (slot: Option<FrameSlot>)
        requires
            self.wf(),
        ensures
            slot == if index < self@.slots.len() {
                Some(self@.slots[index as int])
            } else {
                None
            },
    {
        if index < self.slots.len() {
            Some(self.slots.get(index))
        } else {
            None
        }
    }

    /// The number of swapchain images.
    pub fn image_count(&self) -> (n: usize)
        ensures
            n == self@.image_fences.len(),
    {
        self.images.len()
    }

    /// The slot whose fence guards the last use of `image`; nothing if the
    /// image has not been used since the swapchain was built, or if there
    /// is no such image.
    pub fn last_use(&self, image: usize) -> (slot: Option<usize>)
        ensures
            slot == if image < self@.image_fences.len() {
                self@.image_fences[image as int]
            } else {
                None
            },
    {
        if image < self.images.len() {
            self.images.last_use(image)
        } else {
            None
        }
    }

    /// Whether a rebuild has been asked for and not yet been carried out.
    pub fn rebuild_pending(&self) -> (pending: bool)
        ensures
            pending == self@.resized,
    {
        self.resized
    }

    /// Whether scheduling is suspended because the window has no area.
    pub fn is_minimized(&self) -> (minimized: bool)
        ensures
            minimized == self@.minimized,
    {
        self.minimized
    }

    /// Notes that the surface changed: the swapchain is rebuilt after the
    /// next present. Asking twice is asking once.
    pub fn invalidate(&mut self)
        requires
            old(self).wf(),
        ensures
            final(self)@ == old(self)@.invalidated(),
            final(self).wf(),
    {
        self.resized = true;
    }

    /// Takes note of the window's new size.
    pub fn on_resize(&mut self, width: u32, height: u32)
        requires
            old(self).wf(),
        ensures
            final(self)@ == old(self)@.resize(width, height),
            final(self).wf(),
    {
        if width == 0 || height == 0 {
            self.minimized = true;
        } else {
            self.minimized = false;
            self.resized = true;
        }
    }

    /// The action whose outcome the scheduler is waiting for; nothing while
    /// it is at rest or has stopped.
    pub fn awaited(&self) -> (action: Action)
        requires
            self.wf(),
        ensures
            action == self@.awaited(),
    {
        match self.phase {
            Phase::Idle | Phase::Closed | Phase::Failed => Action::Nothing,
            Phase::SlotFenceWait => Action::WaitFence {
                slot: self.frame,
                fence: self.slots.get(self.frame).in_flight,
                timeout: NO_TIMEOUT,
            },
            Phase::FenceReset => Action::ResetFence {
                slot: self.frame,
                fence: self.slots.get(self.frame).in_flight,
            },
            Phase::Acquire => Action::AcquireImage {
                signal: self.slots.get(self.frame).image_available,
                timeout: NO_TIMEOUT,
            },
            Phase::ImageFenceWait { image } => match self.images.last_use(image) {
                Some(user) => Action::WaitFence {
                    slot: user,
                    fence: self.slots.get(user).in_flight,
                    timeout: NO_TIMEOUT,
                },
                None => Action::Nothing,
            },
            Phase::Submit { image } => {
                let slot = self.slots.get(self.frame);
                Action::Submit {
                    image,
                    slot: self.frame,
                    wait: slot.image_available,
                    wait_stage: COLOR_ATTACHMENT_OUTPUT,
                    signal: slot.render_finished,
                    fence: slot.in_flight,
                }
            },
            Phase::Present { image } => Action::Present {
                image,
                wait: self.slots.get(self.frame).render_finished,
            },
            Phase::RebuildIdle | Phase::CloseIdle => Action::WaitIdle,
            Phase::Rebuild => Action::Rebuild,
            Phase::Teardown => Action::Teardown,
        }
    }

    /// Starts a tick if one may start, and says what to do first.
    pub fn on_tick(&mut self) -> (action: Action)
        requires
            old(self).wf(),
        ensures
            (final(self)@, action) == old(self)@.tick(),
            final(self).wf(),
    {
        match self.phase {
            Phase::Idle => {
                if self.minimized {
                    Action::Nothing
                } else {
                    self.phase = Phase::SlotFenceWait;
                    self.awaited()
                }
            },
            _ => Action::Nothing,
        }
    }

    /// Starts the shutdown if the scheduler is at rest or has given up
    /// after a fatal error.
    pub fn on_close(&mut self) -> (action: Action)
        requires
            old(self).wf(),
        ensures
            (final(self)@, action) == old(self)@.close(),
            final(self).wf(),
    {
        match self.phase {
            Phase::Idle | Phase::Failed => {
                self.phase = Phase::CloseIdle;
                self.awaited()
            },
            _ => Action::Nothing,
        }
    }

    fn submitting(&mut self, image: usize)
        requires
            old(self).wf(),
            image < old(self)@.image_fences.len(),
        ensures
            final(self)@ == old(self)@.submitting(image),
            final(self).wf(),
    {
        self.images.assign(image, self.frame);
        self.phase = Phase::Submit { image };
    }

    fn rebuilding(&mut self)
        requires
            old(self).wf(),
        ensures
            final(self)@ == old(self)@.rebuilding(),
            final(self).wf(),
    {
        self.resized = false;
        self.phase = Phase::RebuildIdle;
    }

    fn rebuilt(&mut self, image_count: usize)
        requires
            old(self).wf(),
            old(self)@.phase == Phase::Rebuild,
        ensures
            final(self)@ == old(self)@.rebuilt(image_count as nat),
            final(self).wf(),
    {
        self.images.reset(image_count);
    }

    fn advance(&mut self)
        requires
            old(self).wf(),
        ensures
            final(self)@ == old(self)@.advanced(),
            final(self).wf(),
    {
        proof {
            lemma_next_slot_wraps(self.frame as int, self@.slots.len() as int);
        }
        self.frame = self.slots.next(self.frame);
        self.phase = Phase::Idle;
    }

    fn next(&mut self, outcome: Outcome) -> (r: Result<(), FrameError>)
        requires
            old(self).wf(),
        ensures
            match r {
                Ok(_) => old(self)@.next(outcome) == Ok::<SchedulerState, FrameError>(
                    final(self)@,
                ),
                Err(e) => old(self)@.next(outcome) == Err::<SchedulerState, FrameError>(e)
                    && final(self)@ == old(self)@,
            },
            final(self).wf(),
    {
        match (self.phase, outcome) {
            (Phase::SlotFenceWait, Outcome::Done) => {
                self.phase = Phase::FenceReset;
            },
            (Phase::FenceReset, Outcome::Done) => {
                self.phase = Phase::Acquire;
            },
            (Phase::Acquire, Outcome::Acquired { image }) => {
                if image >= self.images.len() {
                    return Err(FrameError::ImageOutOfRange);
                }
                match self.images.last_use(image) {
                    Some(_) => {
                        self.phase = Phase::ImageFenceWait { image };
                    },
                    None => {
                        self.submitting(image);
                    },
                }
            },
            (Phase::ImageFenceWait { image }, Outcome::Done) => {
                self.submitting(image);
            },
            (Phase::Submit { image }, Outcome::Done) => {
                self.phase = Phase::Present { image };
            },
            (Phase::Present { .. }, Outcome::Presented { result }) => {
                let plain = match result {
                    PresentResult::Success => true,
                    _ => false,
                };
                if self.resized || !plain {
                    self.rebuilding();
                } else {
                    self.advance();
                }
            },
            (Phase::Present { .. }, Outcome::Failed) => {
                if self.resized {
                    self.rebuilding();
                } else {
                    return Err(FrameError::DeviceFailed { during: self.phase });
                }
            },
            (Phase::RebuildIdle, Outcome::Done) => {
                self.phase = Phase::Rebuild;
            },
            (Phase::Rebuild, Outcome::Rebuilt { image_count }) => {
                self.rebuilt(image_count);
                self.advance();
            },
            (Phase::CloseIdle, Outcome::Done) => {
                self.phase = Phase::Teardown;
            },
            (Phase::Teardown, Outcome::Done) => {
                self.phase = Phase::Closed;
            },
            (Phase::Idle, Outcome::Failed) => {
                return Err(FrameError::OutOfTurn);
            },
            (Phase::Closed, Outcome::Failed) => {
                return Err(FrameError::OutOfTurn);
            },
            (Phase::Failed, Outcome::Failed) => {
                return Err(FrameError::OutOfTurn);
            },
            (_, Outcome::Failed) => {
                return Err(FrameError::DeviceFailed { during: self.phase });
            },
            _ => {
                return Err(FrameError::OutOfTurn);
            },
        }
        Ok(())
    }

    /// Takes the outcome of the action asked for last and says what to do
    /// next. An outcome that does not answer that action is refused and
    /// changes nothing; a failure ends the tick, and all scheduling, for
    /// good, unless it is a failed present while a rebuild is pending.
    pub fn step(&mut self, outcome: Outcome) -> (r: Result<Action, FrameError>)
        requires
            old(self).wf(),
        ensures
            (final(self)@, r) == old(self)@.step(outcome),
            final(self).wf(),
    {
        match self.next(outcome) {
            Ok(_) => Ok(self.awaited()),
            Err(FrameError::OutOfTurn) => Err(FrameError::OutOfTurn),
            Err(error) => {
                self.phase = Phase::Failed;
                Err(error)
            },
        }
    }
}

/// Every transition keeps the invariant and leaves the frame slot table as
/// it was: slots are never reallocated, whatever happens to the swapchain.
pub proof fn lemma_step_keeps_wf(s: SchedulerState, outcome: Outcome)
    requires
        s.wf(),
    ensures
        s.step(outcome).0.wf(),
        s.step(outcome).0.slots == s.slots,
        s.tick().0.wf() && s.tick().0.slots == s.slots,
        s.close().0.wf() && s.close().0.slots == s.slots,
{
    lemma_next_slot_wraps(s.frame, s.slots.len() as int);
}

/// A notification from the window never disturbs a tick: it changes the two
/// flags and nothing else.
pub proof fn lemma_notifications_keep_wf(s: SchedulerState, width: u32, height: u32)
    requires
        s.wf(),
    ensures
        s.invalidated().wf(),
        s.resize(width, height).wf(),
        s.invalidated().phase == s.phase && s.invalidated().frame == s.frame,
        s.resize(width, height).phase == s.phase && s.resize(width, height).frame == s.frame,
        s.invalidated().image_fences == s.image_fences,
        s.resize(width, height).image_fences == s.image_fences,
{
}

/// Asking for a rebuild twice is asking once.
pub proof fn lemma_invalidate_idempotent(s: SchedulerState)
    ensures
        s.invalidated().invalidated() == s.invalidated(),
{
}

/// While the window has no area no tick starts: nothing is waited for,
/// acquired, submitted or presented, and the state does not move.
pub proof fn lemma_minimized_suppresses_ticks(s: SchedulerState)
    requires
        s.minimized,
    ensures
        s.tick() == (s, Action::Nothing),
{
}

/// The frame index moves only when a tick ends, and then by one slot around
/// the ring, whether or not the swapchain was rebuilt. A tick ends exactly
/// when a present has plainly succeeded with no rebuild pending, or when a
/// rebuild is done.
pub proof fn lemma_frame_advances_at_tick_end(s: SchedulerState, outcome: Outcome)
    requires
        s.wf(),
    ensures
        s.tick().0.frame == s.frame,
        s.close().0.frame == s.frame,
        s.busy() && s.step(outcome).0.phase == Phase::Idle <==> (s.phase is Present && !s.resized
            && outcome == Outcome::Presented { result: PresentResult::Success }) || (s.phase
            == Phase::Rebuild && outcome is Rebuilt),
        s.step(outcome).0.frame == if s.busy() && s.step(outcome).0.phase == Phase::Idle {
            next_slot(s.frame, s.slots.len() as int)
        } else {
            s.frame
        },
{
    lemma_next_slot_wraps(s.frame, s.slots.len() as int);
}

/// The record of last users changes at two moments only. When the commands
/// for an acquired image are about to be submitted, the current slot becomes
/// the last user of that image, and of no other; this happens once in a
/// tick, in the step that asks for the submission. When a rebuild is done,
/// every image loses its last user.
pub proof fn lemma_last_users_change_on_submit_and_rebuild(s: SchedulerState, outcome: Outcome)
    requires
        s.wf(),
    ensures
        s.tick().0.image_fences == s.image_fences,
        s.close().0.image_fences == s.image_fences,
        s.step(outcome).1 matches Ok(Action::Submit { image, slot, .. }) ==> slot == s.frame
            && s.step(outcome).0.image_fences == s.image_fences.update(
            image as int,
            Some(slot),
        ),
        s.phase == Phase::Rebuild && outcome is Rebuilt ==> s.step(outcome).0.image_fences
            == all_unset(outcome->image_count as nat),
        !(s.step(outcome).1 matches Ok(Action::Submit { .. })) && !(s.phase == Phase::Rebuild
            && outcome is Rebuilt) ==> s.step(outcome).0.image_fences == s.image_fences,
{
}

/// A rebuild leaves the frame index and the frame slots alone and unsets the
/// last user of every image. The step that takes the rebuild's outcome then
/// ends the tick as every tick ends: at rest, on the next slot of the ring.
pub proof fn lemma_rebuild_resets_image_fences(s: SchedulerState, image_count: usize)
    requires
        s.wf(),
    ensures
        s.rebuilt(image_count as nat).frame == s.frame,
        s.rebuilt(image_count as nat).slots == s.slots,
        s.rebuilt(image_count as nat).image_fences.len() == image_count,
        forall|i: int|
            0 <= i < image_count ==> s.rebuilt(image_count as nat).image_fences[i] is None,
        s.phase == Phase::Rebuild ==> {
            let (after, asked) = s.step(Outcome::Rebuilt { image_count });
            &&& asked == Ok::<Action, FrameError>(Action::Nothing)
            &&& after.phase == Phase::Idle
            &&& after.frame == next_slot(s.frame, s.slots.len() as int)
            &&& 0 <= after.frame < s.slots.len()
            &&& after.slots == s.slots
            &&& after.image_fences.len() == image_count
            &&& forall|i: int| 0 <= i < image_count ==> after.image_fences[i] is None
        },
{
    lemma_next_slot_wraps(s.frame, s.slots.len() as int);
}

/// A step begins a rebuild exactly when a present has returned and either a
/// rebuild was pending or the present did not plainly succeed. It then
/// consumes the pending flag and waits for the device; the rebuild itself is
/// asked for once that wait has returned, and at no other time. A failed
/// present without a pending rebuild aborts the tick.
pub proof fn lemma_rebuild_follows_present(s: SchedulerState, outcome: Outcome)
    requires
        s.wf(),
    ensures
        s.step(outcome).1 == Ok::<Action, FrameError>(Action::WaitIdle) <==> s.phase is Present
            && (outcome == Outcome::Failed && s.resized || (outcome matches Outcome::Presented {
            result,
        } && (s.resized || result != PresentResult::Success))),
        s.step(outcome).1 == Ok::<Action, FrameError>(Action::WaitIdle) ==> s.step(outcome).0
            == (SchedulerState { resized: false, phase: Phase::RebuildIdle, ..s }),
        s.step(outcome).1 == Ok::<Action, FrameError>(Action::Rebuild) <==> s.phase
            == Phase::RebuildIdle && outcome == Outcome::Done,
        s.phase is Present && outcome == Outcome::Failed && !s.resized ==> s.step(outcome).1
            == Err::<Action, FrameError>(FrameError::DeviceFailed { during: s.phase }),
{
}

} // verus!
