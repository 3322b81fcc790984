//! The synchronization state that frame pacing rests on: the ring of frame
//! slots and the per-image record of which slot last drew to an image.
//!
//! Handles are carried as the raw 64-bit values of the device objects they
//! name. The zero handle is the null handle and never names an object.

use vstd::prelude::*;

verus! {

/// Number of frame slots unless configured otherwise.
pub const MAX_FRAMES_IN_FLIGHT: usize = 2;

/// One reusable synchronization context: the two device-side signals that
/// order acquire, submit and present, and the fence on which the host waits
/// for the slot's submission to complete.
#[derive(Clone, Copy, Debug, PartialEq, Eq)]
pub struct FrameSlot {
    /// The signal by which the presentation engine tells the device that the
    /// acquired image is ready to be drawn to.
    pub image_available: u64,
    /// The signal by which the device tells the presentation engine that the
    /// slot's submission has finished.
    pub render_finished: u64,
    /// The fence by which the device tells the host that the slot's
    /// submission has finished.
    pub in_flight: u64,
}

/// A slot names three live objects, and its two signals are different objects.
pub open spec fn slot_complete(slot: FrameSlot) -> bool {
    &&& slot.image_available != 0
    &&& slot.render_finished != 0
    &&& slot.in_flight != 0
    &&& slot.image_available != slot.render_finished
}

/// Two slots share no fence and no signal.
pub open spec fn slots_disjoint(a: FrameSlot, b: FrameSlot) -> bool {
    &&& a.in_flight != b.in_flight
    &&& a.image_available != b.image_available
    &&& a.image_available != b.render_finished
    &&& a.render_finished != b.image_available
    &&& a.render_finished != b.render_finished
}

/// A usable ring: at least one slot and no more than can be indexed, every
/// slot complete, and no object shared between two slots. With `N` slots
/// there are therefore exactly `N` distinct fences and `2 * N` distinct
/// signals.
pub open spec fn slots_valid(slots: Seq<FrameSlot>) -> bool {
    &&& 1 <= slots.len() <= usize::MAX
    &&& forall|i: int| 0 <= i < slots.len() ==> slot_complete(#[trigger] slots[i])
    &&& forall|i: int, j: int|
        0 <= i < j < slots.len() ==> slots_disjoint(#[trigger] slots[i], #[trigger] slots[j])
}

/// The render-finished signals of the slots, slot by slot.
pub open spec fn render_finished_signals(slots: Seq<FrameSlot>) -> Seq<u64> {
    slots.map_values(|slot: FrameSlot| slot.render_finished)
}

/// The image-available signals of the slots, slot by slot.
pub open spec fn image_available_signals(slots: Seq<FrameSlot>) -> Seq<u64> {
    slots.map_values(|slot: FrameSlot| slot.image_available)
}

/// The in-flight fences of the slots, slot by slot.
pub open spec fn in_flight_fences(slots: Seq<FrameSlot>) -> Seq<u64> {
    slots.map_values(|slot: FrameSlot| slot.in_flight)
}

/// Signals and fences belong to slots: a usable ring of `N` slots has `N`
/// different render-finished signals, `N` different image-available signals
/// and `N` different fences, however many images the swapchain has.
pub proof fn lemma_one_signal_per_slot(slots: Seq<FrameSlot>)
    requires
        slots_valid(slots),
    ensures
        render_finished_signals(slots).no_duplicates(),
        render_finished_signals(slots).to_set().len() == slots.len(),
        image_available_signals(slots).no_duplicates(),
        image_available_signals(slots).to_set().len() == slots.len(),
        in_flight_fences(slots).no_duplicates(),
        in_flight_fences(slots).to_set().len() == slots.len(),
{
    assert forall|i: int, j: int| 0 <= i < j < slots.len() implies {
        &&& slots[i].render_finished != slots[j].render_finished
        &&& slots[i].image_available != slots[j].image_available
        &&& slots[i].in_flight != slots[j].in_flight
    } by {
        assert(slots_disjoint(slots[i], slots[j]));
    }
    render_finished_signals(slots).unique_seq_to_set();
    image_available_signals(slots).unique_seq_to_set();
    in_flight_fences(slots).unique_seq_to_set();
}

/// The index that follows `index` in a ring of `slots` positions.
pub open spec fn next_slot(index: int, slots: int) -> int {
    (index + 1) % slots
}

/// Walking the ring stays inside it, and wraps to the start after the last
/// position.
pub proof fn lemma_next_slot_wraps(index: int, slots: int)
    requires
        0 <= index < slots,
    ensures
        0 <= next_slot(index, slots) < slots,
        index + 1 < slots ==> next_slot(index, slots) == index + 1,
        index + 1 == slots ==> next_slot(index, slots) == 0,
{
    if index + 1 == slots {
        assert(slots % slots == 0) by (nonlinear_arith)
            requires
                slots > 0,
        ;
    } else {
        assert((index + 1) % slots == index + 1) by (nonlinear_arith)
            requires
                0 <= index + 1 < slots,
        ;
    }
}

fn slot_is_complete(slot: &FrameSlot) -> (ok: bool)
    ensures
        ok == slot_complete(*slot),
{
    slot.image_available != 0 && slot.render_finished != 0 && slot.in_flight != 0
        && slot.image_available != slot.render_finished
}

fn slots_are_disjoint(a: &FrameSlot, b: &FrameSlot) -> (ok: bool)
    ensures
        ok == slots_disjoint(*a, *b),
{
    a.in_flight != b.in_flight && a.image_available != b.image_available && a.image_available
        != b.render_finished && a.render_finished != b.image_available && a.render_finished
        != b.render_finished
}

/// The fixed-size ring of frame slots.
pub struct FrameSlotTable {
    slots: Vec<FrameSlot>,
}

impl View for FrameSlotTable {
    type V = Seq<FrameSlot>;

    closed spec fn view(&self) -> Seq<FrameSlot> {
        self.slots@
    }
}

impl FrameSlotTable {
    /// Every table that exists holds a usable ring.
    pub open spec fn wf(&self) -> bool {
        slots_valid(self@)
    }

    /// Builds the ring from the given slots, in their order. Refuses an empty
    /// list, a slot with a null handle or with one signal in both roles, and
    /// a list in which two slots share a fence or a signal.
    pub fn new(slots: Vec<FrameSlot>) -> (table: Option<FrameSlotTable>)
        ensures
            table is Some <==> slots_valid(slots@),
            table matches Some(t) ==> t@ == slots@ && t.wf(),
    {
        let n = slots.len();
        if n == 0 {
            return None;
        }
        let mut i: usize = 0;
        while i < n
            invariant
                n == slots.len(),
                i <= n,
                forall|a: int| 0 <= a < i ==> slot_complete(#[trigger] slots[a]),
                forall|a: int, b: int|
                    0 <= a < b < i ==> slots_disjoint(#[trigger] slots[a], #[trigger] slots[b]),
            decreases n - i,
        {
            if !slot_is_complete(&slots[i]) {
                return None;
            }
            let mut j: usize = 0;
            while j < i
                invariant
                    n == slots.len(),
                    i < n,
                    j <= i,
                    forall|a: int|
                        0 <= a < j ==> slots_disjoint(#[trigger] slots[a], slots[i as int]),
                decreases i - j,
            {
                if !slots_are_disjoint(&slots[j], &slots[i]) {
                    return None;
                }
                j += 1;
            }
            i += 1;
        }
        Some(FrameSlotTable { slots })
    }

    /// The number of slots, `N`.
    pub fn len(&self) -> (n: usize)
        requires
            self.wf(),
        ensures
            n == self@.len(),
            n >= 1,
    {
        self.slots.len()
    }

    /// The slot at `index`.
    pub fn get(&self, index: usize) -> (slot: FrameSlot)
        requires
            index < self@.len(),
        ensures
            slot == self@[index as int],
    {
        self.slots[index]
    }

    /// The index of the slot used after the one at `index`.
    pub fn next(&self, index: usize) -> (next: usize)
        requires
            self.wf(),
            index < self@.len(),
        ensures
            next == next_slot(index as int, self@.len() as int),
            next < self@.len(),
    {
        let n = self.slots.len();
        proof {
            lemma_next_slot_wraps(index as int, n as int);
        }
        (index + 1) % n
    }
}

/// For every image of the swapchain, the slot whose fence guards the image's
/// most recent use, or nothing while the image has not been drawn to since
/// the swapchain was built.
pub struct ImageFenceMap {
    last_use: Vec<Option<usize>>,
}

impl View for ImageFenceMap {
    type V = Seq<Option<usize>>;

    closed spec fn view(&self) -> Seq<Option<usize>> {
        self.last_use@
    }
}

/// The map of `image_count` images none of which has been used.
pub open spec fn all_unset(image_count: nat) -> Seq<Option<usize>> {
    Seq::new(image_count, |i: int| None::<usize>)
}

impl ImageFenceMap {
    /// A map for `image_count` images, every entry unset.
    pub fn new(image_count: usize) -> (map: ImageFenceMap)
        ensures
            map@ == all_unset(image_count as nat),
    {
        let mut last_use: Vec<Option<usize>> = Vec::new();
        let mut i: usize = 0;
        while i < image_count
            invariant
                i <= image_count,
                last_use@ == all_unset(i as nat),
            decreases image_count - i,
        {
            last_use.push(None);
            i += 1;
        }
        ImageFenceMap { last_use }
    }

    /// The number of images the map covers.
    pub fn len(&self) -> (n: usize)
        ensures
            n == self@.len(),
    {
        self.last_use.len()
    }

    /// The slot that last used `image`, if any did.
    pub fn last_use(&self, image: usize) -> (slot: Option<usize>)
        requires
            image < self@.len(),
        ensures
            slot == self@[image as int],
    {
        self.last_use[image]
    }

    /// Records that `slot` is the latest user of `image`.
    pub fn assign(&mut self, image: usize, slot: usize)
        requires
            image < old(self)@.len(),
        ensures
            final(self)@ == old(self)@.update(image as int, Some(slot)),
    {
        self.last_use.set(image, Some(slot));
    }

    /// Forgets every recorded use and resizes the map to `image_count`
    /// images.
    pub fn reset(&mut self, image_count: usize)
        ensures
            final(self)@ == all_unset(image_count as nat),
    {
        let fresh = ImageFenceMap::new(image_count);
        self.last_use = fresh.last_use;
    }
}

} // verus!
