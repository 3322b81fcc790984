//! A model of the device as the scheduler meets it, and the proofs that the
//! scheduler uses the device's fences safely.
//!
//! The device runs on its own. The host learns of its progress only through
//! fences: a submission made with a slot's in-flight fence completes at a
//! time of the device's choosing and then signals that fence. The model
//! keeps, for every frame slot, whether the fence is signaled and how many
//! submissions made with it have not completed.
//!
//! A [`World`] pairs a scheduler with a device. It moves by [`Event`]s: calls
//! of the host into the scheduler, the host's reports of how an action ended,
//! and completions on the device. The proofs show that in every world that
//! can be reached from a fresh start
//!
//! - no slot has more than one submission outstanding, so that at most as many
//!   submissions are outstanding as there are slots;
//! - a fence is reset only after the wait for it has returned and before it
//!   is handed to a new submission;
//! - the swapchain is rebuilt, and everything torn down, only on an idle
//!   device.

use vstd::prelude::*;
use crate::scheduler::{Action, Outcome, Phase, SchedulerState, NO_TIMEOUT};
use crate::scheduler::{lemma_notifications_keep_wf, lemma_step_keeps_wf};
use crate::sync::{slots_valid, FrameSlot};

verus! {

/// The sum of the numbers in `counts`.
pub open spec fn total(counts: Seq<nat>) -> nat
    decreases counts.len(),
{
    if counts.len() == 0 {
        0
    } else {
        total(counts.drop_last()) + counts.last()
    }
}

/// The device's fences and outstanding work, slot by slot.
#[verifier::ext_equal]
pub struct Gpu {
    /// Whether the in-flight fence of each slot is signaled.
    pub signaled: Seq<bool>,
    /// How many submissions made with the fence of each slot have not
    /// completed.
    pub pending: Seq<nat>,
}

impl Gpu {
    /// The device right after the slots' objects were created: every fence
    /// is created signaled, and nothing has been submitted.
    pub open spec fn fresh(slots: nat) -> Gpu {
        Gpu { signaled: Seq::new(slots, |k: int| true), pending: Seq::new(slots, |k: int| 0nat) }
    }

    /// The number of submissions that have not completed.
    pub open spec fn outstanding(self) -> nat {
        total(self.pending)
    }

    /// Nothing is outstanding.
    pub open spec fn idle(self) -> bool {
        forall|k: int| 0 <= k < self.pending.len() ==> self.pending[k] == 0
    }

    /// The fence of `slot` is reset.
    pub open spec fn reset(self, slot: int) -> Gpu {
        Gpu { signaled: self.signaled.update(slot, false), ..self }
    }

    /// Work is submitted that will signal the fence of `slot`.
    pub open spec fn submit(self, slot: int) -> Gpu {
        Gpu { pending: self.pending.update(slot, self.pending[slot] + 1), ..self }
    }

    /// A submission made with the fence of `slot` completes and signals it.
    pub open spec fn complete(self, slot: int) -> Gpu {
        Gpu {
            signaled: self.signaled.update(slot, true),
            pending: self.pending.update(slot, (self.pending[slot] - 1) as nat),
        }
    }

    /// What the device demands of an action at the moment it is performed: a
    /// fence that is reset is signaled and has no submission behind it; a
    /// fence that is handed to a submission is unsignaled and has no other
    /// submission behind it; the swapchain is rebuilt or torn down only
    /// when nothing is outstanding.
    pub open spec fn permits(self, action: Action) -> bool {
        match action {
            Action::ResetFence { slot, .. } => self.signaled[slot as int] && self.pending[slot as int]
                == 0,
            Action::Submit { slot, .. } => !self.signaled[slot as int] && self.pending[slot as int]
                == 0,
            Action::Rebuild | Action::Teardown => self.idle(),
            _ => true,
        }
    }
}

/// A scheduler together with the device it drives.
pub struct World {
    pub scheduler: SchedulerState,
    pub gpu: Gpu,
}

/// What can happen to a world.
pub enum Event {
    /// The host asks for a tick.
    Tick,
    /// The host passes on a change of the window's size.
    Resize { width: u32, height: u32 },
    /// The host passes on that the surface changed.
    Invalidate,
    /// The host asks for the shutdown.
    Close,
    /// The host has performed the awaited action and reports how it ended.
    Report { outcome: Outcome },
    /// The device completes a submission made with the fence of `slot`.
    Complete { slot: int },
}

impl World {
    /// The world right after setup.
    pub open spec fn fresh(slots: Seq<FrameSlot>, image_count: nat) -> World {
        World {
            scheduler: SchedulerState::initial(slots, image_count),
            gpu: Gpu::fresh(slots.len()),
        }
    }

    /// Whether `event` can happen. A wait returns only when what it waits
    /// for holds: the fence is signaled, or the device is idle. The device
    /// completes only what is outstanding. Everything else can always
    /// happen.
    pub open spec fn admits(self, event: Event) -> bool {
        match event {
            Event::Report { outcome } => match (self.scheduler.phase, outcome) {
                (Phase::SlotFenceWait, Outcome::Done) => self.gpu.signaled[self.scheduler.frame],
                (Phase::ImageFenceWait { image }, Outcome::Done) => self.gpu.signaled[self.scheduler.image_fences[image as int]->0 as int],
                (Phase::RebuildIdle, Outcome::Done) => self.gpu.idle(),
                (Phase::CloseIdle, Outcome::Done) => self.gpu.idle(),
                _ => true,
            },
            Event::Complete { slot } => 0 <= slot < self.gpu.pending.len() && self.gpu.pending[slot]
                > 0,
            _ => true,
        }
    }

    /// The device after the awaited action ended with `outcome`: a reset or
    /// a submission that succeeded has taken effect.
    pub open spec fn performed(self, outcome: Outcome) -> Gpu {
        match (self.scheduler.phase, outcome) {
            (Phase::FenceReset, Outcome::Done) => self.gpu.reset(self.scheduler.frame),
            (Phase::Submit { .. }, Outcome::Done) => self.gpu.submit(self.scheduler.frame),
            _ => self.gpu,
        }
    }

    /// The world after `event`.
    pub open spec fn after(self, event: Event) -> World {
        match event {
            Event::Tick => World { scheduler: self.scheduler.tick().0, ..self },
            Event::Resize { width, height } => World {
                scheduler: self.scheduler.resize(width, height),
                ..self
            },
            Event::Invalidate => World { scheduler: self.scheduler.invalidated(), ..self },
            Event::Close => World { scheduler: self.scheduler.close().0, ..self },
            Event::Report { outcome } => World {
                scheduler: self.scheduler.step(outcome).0,
                gpu: self.performed(outcome),
            },
            Event::Complete { slot } => World { gpu: self.gpu.complete(slot), ..self },
        }
    }

    /// Whether the events can happen one after the other, starting here.
    pub open spec fn admits_all(self, events: Seq<Event>) -> bool
        decreases events.len(),
    {
        if events.len() == 0 {
            true
        } else {
            self.admits_all(events.drop_last()) && self.after_all(events.drop_last()).admits(
                events.last(),
            )
        }
    }

    /// The world after all of `events`, in their order.
    pub open spec fn after_all(self, events: Seq<Event>) -> World
        decreases events.len(),
    {
        if events.len() == 0 {
            self
        } else {
            self.after_all(events.drop_last()).after(events.last())
        }
    }

    /// Scheduler and device agree. The scheduler is well formed; the device
    /// has one fence per slot; no slot has more than one submission
    /// outstanding, and none behind a signaled fence; and the fence of the
    /// current slot is in the state that the scheduler's phase expects:
    /// signaled when it is about to be reset, unsignaled and free from then
    /// until it is submitted with. A rebuild or teardown that is awaited or
    /// done finds the device idle.
    pub open spec fn coherent(self) -> bool {
        let slots = self.scheduler.slots.len();
        let frame = self.scheduler.frame;
        &&& self.scheduler.wf()
        &&& self.gpu.signaled.len() == slots
        &&& self.gpu.pending.len() == slots
        &&& forall|k: int|
            0 <= k < slots ==> #[trigger] self.gpu.pending[k] <= 1 && (self.gpu.signaled[k]
                ==> self.gpu.pending[k] == 0)
        &&& match self.scheduler.phase {
            Phase::FenceReset => self.gpu.signaled[frame],
            Phase::Acquire | Phase::ImageFenceWait { .. } | Phase::Submit { .. } => {
                !self.gpu.signaled[frame] && self.gpu.pending[frame] == 0
            },
            Phase::Rebuild | Phase::Teardown | Phase::Closed => self.gpu.idle(),
            _ => true,
        }
    }
}

/// A sum of numbers none of which exceeds one is at most their count.
pub proof fn lemma_total_bounded(counts: Seq<nat>)
    requires
        forall|k: int| 0 <= k < counts.len() ==> #[trigger] counts[k] <= 1,
    ensures
        total(counts) <= counts.len(),
    decreases counts.len(),
{
    if counts.len() > 0 {
        let front = counts.drop_last();
        assert forall|k: int| 0 <= k < front.len() implies #[trigger] front[k] <= 1 by {
            assert(front[k] == counts[k]);
        }
        lemma_total_bounded(front);
    }
}

/// A fresh world is coherent.
pub proof fn lemma_fresh_coherent(slots: Seq<FrameSlot>, image_count: nat)
    requires
        slots_valid(slots),
    ensures
        World::fresh(slots, image_count).coherent(),
{
}

/// No event that can happen breaks the agreement of scheduler and device.
pub proof fn lemma_event_keeps_coherent(w: World, event: Event)
    requires
        w.coherent(),
        w.admits(event),
    ensures
        w.after(event).coherent(),
        w.after(event).scheduler.slots == w.scheduler.slots,
{
    let s = w.scheduler;
    match event {
        Event::Report { outcome } => {
            lemma_step_keeps_wf(s, outcome);
        },
        Event::Tick => {
            lemma_step_keeps_wf(s, Outcome::Done);
        },
        Event::Close => {
            lemma_step_keeps_wf(s, Outcome::Done);
        },
        Event::Resize { width, height } => {
            lemma_notifications_keep_wf(s, width, height);
        },
        Event::Invalidate => {
            lemma_notifications_keep_wf(s, 0, 0);
        },
        Event::Complete { slot } => {},
    }
}

/// Whatever can happen, in whatever order and number, scheduler and device
/// stay in agreement.
pub proof fn lemma_run_keeps_coherent(w: World, events: Seq<Event>)
    requires
        w.coherent(),
        w.admits_all(events),
    ensures
        w.after_all(events).coherent(),
        w.after_all(events).scheduler.slots == w.scheduler.slots,
    decreases events.len(),
{
    if events.len() > 0 {
        lemma_run_keeps_coherent(w, events.drop_last());
        lemma_event_keeps_coherent(w.after_all(events.drop_last()), events.last());
    }
}

/// With `N` frame slots, at most `N` submissions are outstanding on the
/// device at any time, whatever the host and the device have done since
/// setup: each slot has at most one.
pub proof fn lemma_frames_in_flight_bounded(
    slots: Seq<FrameSlot>,
    image_count: nat,
    events: Seq<Event>,
)
    requires
        slots_valid(slots),
        World::fresh(slots, image_count).admits_all(events),
    ensures
        World::fresh(slots, image_count).after_all(events).gpu.outstanding() <= slots.len(),
        forall|k: int|
            0 <= k < slots.len() ==> World::fresh(slots, image_count).after_all(
                events,
            ).gpu.pending[k] <= 1,
{
    let w = World::fresh(slots, image_count);
    lemma_fresh_coherent(slots, image_count);
    lemma_run_keeps_coherent(w, events);
    lemma_total_bounded(w.after_all(events).gpu.pending);
}

/// At any time the device permits the action that the scheduler has asked
/// for and is waiting on. In particular, when the scheduler asks for a
/// fence to be reset, the wait for that fence has returned and the fence is
/// still signaled; when it asks for a submission, the slot's fence has been
/// reset since and no other submission is using it; and when it asks for a
/// rebuild or a teardown, the device is idle. Completions on the device
/// between the request and its execution change none of this.
pub proof fn lemma_awaited_action_permitted(
    slots: Seq<FrameSlot>,
    image_count: nat,
    events: Seq<Event>,
)
    requires
        slots_valid(slots),
        World::fresh(slots, image_count).admits_all(events),
    ensures
        ({
            let w = World::fresh(slots, image_count).after_all(events);
            w.gpu.permits(w.scheduler.awaited())
        }),
{
    let w = World::fresh(slots, image_count);
    lemma_fresh_coherent(slots, image_count);
    lemma_run_keeps_coherent(w, events);
}

/// The wait for the last user of an acquired image returns only if that
/// user is another slot. Where the image was last used by the current slot,
/// the fence waited for has been reset in this very tick and no submission
/// stands behind it: the wait cannot return, and nothing that the device
/// completes changes that, since a completion leaves the scheduler where it
/// is and the world coherent.
pub proof fn lemma_wait_for_own_fence_blocks(w: World, image: usize)
    requires
        w.coherent(),
        w.scheduler.phase == (Phase::ImageFenceWait { image }),
        w.scheduler.image_fences[image as int] == Some(w.scheduler.frame as usize),
    ensures
        !w.admits(Event::Report { outcome: Outcome::Done }),
        forall|slot: int| #[trigger]
            w.admits(Event::Complete { slot }) ==> {
                &&& slot != w.scheduler.frame
                &&& w.after(Event::Complete { slot }).coherent()
                &&& w.after(Event::Complete { slot }).scheduler == w.scheduler
            },
{
}

/// The order of wait, reset and submission within a tick, as the scheduler
/// alone enforces it: a reset is asked for only in answer to the return of
/// the wait for the same fence, and a submission is asked for only after
/// the reset of its fence has been reported, with nothing in between but
/// the acquisition of the image and the wait for the image's last user.
pub proof fn lemma_reset_between_wait_and_submit(s: SchedulerState, outcome: Outcome)
    requires
        s.wf(),
    ensures
        s.step(outcome).1 matches Ok(Action::ResetFence { slot, fence }) ==> s.phase
            == Phase::SlotFenceWait && outcome == Outcome::Done && s.awaited()
            == (Action::WaitFence { slot, fence, timeout: NO_TIMEOUT }),
        s.step(outcome).1 matches Ok(Action::Submit { slot, fence, .. }) ==> slot == s.frame
            && fence == s.slot().in_flight && (s.phase == Phase::Acquire
            || s.phase is ImageFenceWait),
        s.step(outcome).0.phase == Phase::Acquire && s.phase != Phase::Acquire ==> s.phase
            == Phase::FenceReset && outcome == Outcome::Done,
        s.step(outcome).0.phase is ImageFenceWait && !(s.phase is ImageFenceWait) ==> s.phase
            == Phase::Acquire,
{
}

} // verus!
