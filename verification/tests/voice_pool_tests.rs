use rustysynth::voice_pool::{SlotChoice, VoicePool, VoiceTag};

fn tag(channel: i32, key: i32, exclusive_class: i32) -> VoiceTag {
    VoiceTag { channel, key, exclusive_class }
}

#[test]
fn voice_pool_starts_empty_with_its_capacity() {
    let pool = VoicePool::new(8);
    assert_eq!(pool.active_count(), 0);
    assert_eq!(pool.maximum_polyphony(), 8);
}

#[test]
fn voice_pool_fills_free_slots_in_order() {
    let mut pool = VoicePool::new(3);
    assert_eq!(pool.request(tag(0, 60, 0)), SlotChoice::Fresh(0));
    assert_eq!(pool.request(tag(0, 64, 0)), SlotChoice::Fresh(1));
    assert_eq!(pool.request(tag(1, 67, 0)), SlotChoice::Fresh(2));
    assert_eq!(pool.active_count(), 3);
    assert_eq!(pool.tag(1), tag(0, 64, 0));
}

#[test]
fn voice_pool_reports_busy_when_full_and_changes_nothing() {
    let mut pool = VoicePool::new(2);
    pool.request(tag(0, 60, 0));
    pool.request(tag(0, 62, 0));
    assert_eq!(pool.request(tag(0, 64, 0)), SlotChoice::Busy);
    assert_eq!(pool.active_count(), 2);
    assert_eq!(pool.tag(0), tag(0, 60, 0));
    assert_eq!(pool.tag(1), tag(0, 62, 0));
}

#[test]
fn voice_pool_steal_replaces_the_chosen_slot() {
    let mut pool = VoicePool::new(2);
    pool.request(tag(0, 60, 0));
    pool.request(tag(0, 62, 0));
    assert_eq!(pool.request(tag(2, 70, 0)), SlotChoice::Busy);
    pool.steal(1, tag(2, 70, 0));
    assert_eq!(pool.active_count(), 2);
    assert_eq!(pool.tag(1), tag(2, 70, 0));
}

#[test]
fn voice_pool_reuses_the_voice_of_the_same_exclusive_class_on_the_channel() {
    // A closed hi-hat cuts off the open hi-hat of the same class.
    let mut pool = VoicePool::new(4);
    pool.request(tag(9, 36, 0));
    assert_eq!(pool.request(tag(9, 46, 1)), SlotChoice::Fresh(1));
    assert_eq!(pool.request(tag(9, 42, 1)), SlotChoice::Reused(1));
    assert_eq!(pool.active_count(), 2);
    assert_eq!(pool.tag(1), tag(9, 42, 1));
}

#[test]
fn voice_pool_exclusive_class_is_per_channel_and_zero_means_none() {
    let mut pool = VoicePool::new(4);
    pool.request(tag(9, 46, 1));
    // Same class on another channel: a new voice.
    assert_eq!(pool.request(tag(10, 42, 1)), SlotChoice::Fresh(1));
    pool.request(tag(0, 60, 0));
    // Class 0 never reuses.
    assert_eq!(pool.request(tag(0, 60, 0)), SlotChoice::Fresh(3));
}

#[test]
fn voice_pool_retire_moves_the_last_voice_into_the_slot() {
    let mut pool = VoicePool::new(4);
    pool.request(tag(0, 60, 0));
    pool.request(tag(0, 62, 0));
    pool.request(tag(0, 64, 0));
    assert_eq!(pool.retire(0), 2);
    assert_eq!(pool.active_count(), 2);
    assert_eq!(pool.tag(0), tag(0, 64, 0));
    assert_eq!(pool.tag(1), tag(0, 62, 0));
    // Retiring the last slot moves nothing else.
    assert_eq!(pool.retire(1), 1);
    assert_eq!(pool.active_count(), 1);
    assert_eq!(pool.tag(0), tag(0, 64, 0));
    // The freed slot is taken by the next note.
    assert_eq!(pool.request(tag(1, 50, 0)), SlotChoice::Fresh(1));
}

#[test]
fn voice_pool_clear_stops_every_voice() {
    let mut pool = VoicePool::new(2);
    pool.request(tag(0, 60, 0));
    pool.request(tag(0, 62, 0));
    pool.clear();
    assert_eq!(pool.active_count(), 0);
    assert_eq!(pool.request(tag(0, 64, 0)), SlotChoice::Fresh(0));
}

#[test]
fn voice_pool_finds_the_voices_of_a_channel_and_of_a_key() {
    let mut pool = VoicePool::new(8);
    pool.request(tag(0, 60, 0));
    pool.request(tag(1, 60, 0));
    pool.request(tag(0, 64, 0));
    pool.request(tag(0, 60, 0));
    assert_eq!(pool.slots_of_channel(0), vec![0, 2, 3]);
    assert_eq!(pool.slots_of_channel(1), vec![1]);
    assert_eq!(pool.slots_of_channel(5), Vec::<usize>::new());
    assert_eq!(pool.slots_of_key(0, 60), vec![0, 3]);
    assert_eq!(pool.slots_of_key(1, 64), Vec::<usize>::new());
}
