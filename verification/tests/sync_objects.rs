use frame_pacing::sync::{FrameSlot, FrameSlotTable, ImageFenceMap, MAX_FRAMES_IN_FLIGHT};
use vulkanalia::vk;
use vulkanalia::vk::Handle;

fn slot(k: u64) -> FrameSlot {
    FrameSlot {
        image_available: 10 * k + 1,
        render_finished: 10 * k + 2,
        in_flight: 10 * k + 3,
    }
}

#[test]
fn null_handle_is_zero() {
    assert_eq!(vk::Fence::null().as_raw(), 0);
    assert_eq!(vk::Semaphore::null().as_raw(), 0);
    assert!(vk::Fence::from_raw(0).is_null());
    assert!(!vk::Fence::from_raw(7).is_null());
    assert_eq!(vk::Semaphore::from_raw(u64::MAX).as_raw(), u64::MAX);
}

#[test]
fn two_frames_in_flight_unless_configured_otherwise() {
    assert_eq!(MAX_FRAMES_IN_FLIGHT, 2);
}

#[test]
fn table_keeps_the_slots_in_their_order() {
    let table = FrameSlotTable::new(vec![slot(3), slot(1), slot(2)]).unwrap();
    assert_eq!(table.len(), 3);
    assert_eq!(table.get(0), slot(3));
    assert_eq!(table.get(1), slot(1));
    assert_eq!(table.get(2), slot(2));
}

#[test]
fn table_is_a_ring() {
    let table = FrameSlotTable::new(vec![slot(1), slot(2), slot(3)]).unwrap();
    assert_eq!(table.next(0), 1);
    assert_eq!(table.next(1), 2);
    assert_eq!(table.next(2), 0);
    let single = FrameSlotTable::new(vec![slot(1)]).unwrap();
    assert_eq!(single.len(), 1);
    assert_eq!(single.next(0), 0);
}

#[test]
fn table_refuses_what_is_no_ring() {
    assert!(FrameSlotTable::new(Vec::new()).is_none());
    assert!(FrameSlotTable::new(vec![slot(1), slot(1)]).is_none());
    assert!(FrameSlotTable::new(vec![slot(1), slot(2), slot(1)]).is_none());
    let mut null = slot(1);
    null.in_flight = 0;
    assert!(FrameSlotTable::new(vec![null]).is_none());
    assert!(FrameSlotTable::new(vec![slot(2), null]).is_none());
    let mut twice = slot(1);
    twice.render_finished = twice.image_available;
    assert!(FrameSlotTable::new(vec![twice]).is_none());
    let mut borrowed = slot(2);
    borrowed.image_available = slot(1).render_finished;
    assert!(FrameSlotTable::new(vec![slot(1), borrowed]).is_none());
    assert!(FrameSlotTable::new(vec![borrowed, slot(1)]).is_none());
    let mut same_fence = slot(2);
    same_fence.in_flight = slot(1).in_flight;
    assert!(FrameSlotTable::new(vec![slot(1), slot(3), same_fence]).is_none());
}

#[test]
fn fresh_map_has_no_last_users() {
    let map = ImageFenceMap::new(4);
    assert_eq!(map.len(), 4);
    for image in 0..4 {
        assert_eq!(map.last_use(image), None);
    }
    assert_eq!(ImageFenceMap::new(0).len(), 0);
}

#[test]
fn assigning_touches_one_image() {
    let mut map = ImageFenceMap::new(3);
    map.assign(1, 0);
    assert_eq!(map.last_use(0), None);
    assert_eq!(map.last_use(1), Some(0));
    assert_eq!(map.last_use(2), None);
    map.assign(1, 1);
    map.assign(2, 0);
    assert_eq!(map.last_use(0), None);
    assert_eq!(map.last_use(1), Some(1));
    assert_eq!(map.last_use(2), Some(0));
    assert_eq!(map.len(), 3);
}

#[test]
fn reset_forgets_every_last_user() {
    let mut map = ImageFenceMap::new(3);
    map.assign(0, 1);
    map.assign(2, 0);
    map.reset(3);
    assert_eq!(map.len(), 3);
    for image in 0..3 {
        assert_eq!(map.last_use(image), None);
    }
    map.assign(1, 1);
    map.reset(5);
    assert_eq!(map.len(), 5);
    for image in 0..5 {
        assert_eq!(map.last_use(image), None);
    }
    map.assign(4, 0);
    map.reset(1);
    assert_eq!(map.len(), 1);
    assert_eq!(map.last_use(0), None);
}
