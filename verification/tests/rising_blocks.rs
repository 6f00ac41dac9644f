use vibe_renderer::components::rising_blocks::block_manager::{BlockData, BlockManager};
use vibe_renderer::components::rising_blocks::descriptor::RisingBlocksEasing;

fn columns(manager: &BlockManager) -> Vec<u32> {
    let mut it = manager.blocks().iter();
    let mut out = Vec::new();
    while let Some(b) = it.next() {
        out.push(b.column_idx());
    }
    out
}

#[test]
fn new_manager_is_empty() {
    let manager = BlockManager::new(4);
    assert_eq!(manager.amount_active_blocks(), 0);
    assert_eq!(manager.max_amount_blocks(), 64);
    assert_eq!(manager.last_time_bits(), 0);
}

#[test]
fn rising_edges_start_blocks_in_column_order() {
    let mut manager = BlockManager::new(4);
    manager.process_beats(&[true, false, true, false]);
    assert_eq!(manager.amount_active_blocks(), 2);
    assert_eq!(columns(&manager), vec![0, 2]);
}

#[test]
fn held_beats_start_no_new_blocks() {
    let mut manager = BlockManager::new(3);
    manager.process_beats(&[true, true, false]);
    manager.process_beats(&[true, true, false]);
    assert_eq!(manager.amount_active_blocks(), 2);
    // a beat that ends and comes back starts again
    manager.process_beats(&[false, true, true]);
    manager.process_beats(&[true, true, true]);
    assert_eq!(columns(&manager), vec![0, 1, 2, 0]);
}

#[test]
fn only_known_columns_are_looked_at() {
    let mut manager = BlockManager::new(2);
    manager.process_beats(&[true, true, true, true]);
    assert_eq!(columns(&manager), vec![0, 1]);
    let mut other = BlockManager::new(3);
    other.process_beats(&[true]);
    assert_eq!(columns(&other), vec![0]);
}

#[test]
fn blocks_start_at_the_last_time() {
    let mut manager = BlockManager::new(1);
    let time = 2.5f32.to_bits();
    manager.discard_expired_blocks(time, |_| false);
    manager.process_beats(&[true]);
    let first = *manager.blocks().iter().next().unwrap();
    assert_eq!(first, BlockData::new(time, 0));
    assert_eq!(first.start_time_bits(), time);
}

#[test]
fn blocks_without_room_are_dropped() {
    let mut manager = BlockManager::new(1);
    // 16 slots for one column
    for _ in 0..20 {
        manager.process_beats(&[true]);
        manager.process_beats(&[false]);
    }
    assert_eq!(manager.amount_active_blocks(), 16);
}

#[test]
fn expired_blocks_are_discarded_from_the_front() {
    let mut manager = BlockManager::new(2);
    manager.discard_expired_blocks(1.0f32.to_bits(), |_| false);
    manager.process_beats(&[true, false]);
    manager.discard_expired_blocks(2.0f32.to_bits(), |_| false);
    manager.process_beats(&[false, true]);
    assert_eq!(manager.amount_active_blocks(), 2);

    let now = 2.5f32;
    manager.discard_expired_blocks(now.to_bits(), |block| {
        now - f32::from_bits(block.start_time_bits()) > 1.0
    });
    assert_eq!(columns(&manager), vec![1]);
    assert_eq!(manager.last_time_bits(), now.to_bits());
}

#[test]
fn easing_names() {
    assert_eq!(RisingBlocksEasing::InSine.as_str(), "in_sine");
    assert_eq!(RisingBlocksEasing::OutSine.as_str(), "out_sine");
    assert_eq!(RisingBlocksEasing::InOutSine.as_str(), "in_out_sine");
    assert_eq!(RisingBlocksEasing::InCubic.as_str(), "in_cubic");
    assert_eq!(RisingBlocksEasing::OutCubic.as_str(), "out_cubic");
    assert_eq!(RisingBlocksEasing::InOutCubic.as_str(), "in_out_cubic");
}
