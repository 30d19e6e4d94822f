use music_player::queue::SampleQueue;
use music_player::volume::{Volume, VOLUME_MAX};

#[test]
fn queue_is_first_in_first_out() {
    let mut queue: SampleQueue<i16> = SampleQueue::new();
    assert!(queue.is_empty());
    assert_eq!(queue.len(), 0);
    assert_eq!(queue.pop_front(), None);
    queue.push(&[1, 2, 3]);
    queue.push(&[]);
    queue.push(&[4]);
    assert!(!queue.is_empty());
    assert_eq!(queue.len(), 4);
    assert_eq!(queue.pop_front(), Some(1));
    assert_eq!(queue.pop_front(), Some(2));
    queue.push(&[5]);
    assert_eq!(queue.pop_front(), Some(3));
    assert_eq!(queue.pop_front(), Some(4));
    assert_eq!(queue.pop_front(), Some(5));
    assert_eq!(queue.pop_front(), None);
    assert_eq!(queue.len(), 0);
}

#[test]
fn queue_clear_discards_everything() {
    let mut queue: SampleQueue<f32> = SampleQueue::new();
    queue.push(&[0.5; 100]);
    assert_eq!(queue.len(), 100);
    queue.clear();
    assert!(queue.is_empty());
    assert_eq!(queue.pop_front(), None);
    queue.clear();
    assert!(queue.is_empty());
}

#[test]
fn volume_type_saturates_at_both_ends() {
    let mut volume = Volume::full();
    assert_eq!(volume.get(), VOLUME_MAX);
    volume.lower(20);
    assert_eq!(volume.get(), 980);
    volume.raise(50);
    assert_eq!(volume.get(), 1000);
    volume.lower(999);
    assert_eq!(volume.get(), 1);
    volume.lower(1);
    assert_eq!(volume.get(), 0);
    volume.lower(1);
    assert_eq!(volume.get(), 0);
    volume.raise(1000);
    assert_eq!(volume.get(), 1000);
    volume.lower(u32::MAX);
    assert_eq!(volume.get(), 0);
    volume.raise(u32::MAX);
    assert_eq!(volume.get(), 1000);
}
