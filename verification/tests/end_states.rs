use rosella::end_state::{BufferEndState, ImageEndState, ImageLayout};
use rosella::features::InitResult;

#[test]
fn buffer_end_state_default() {
    let state = BufferEndState::default();
    assert!(!state.host_available);
    assert_eq!(state.queue, None);
}

#[test]
fn image_end_state_default() {
    // freshly default-constructed: not host available, no owning queue,
    // undefined layout
    let state = ImageEndState::default();
    assert!(!state.host_available);
    assert_eq!(state.queue, None);
    assert_eq!(state.layout, ImageLayout::Undefined);
    assert_eq!(ImageLayout::default(), ImageLayout::Undefined);
}

#[test]
fn host_flush_does_not_touch_queue() {
    // an execution that signals host visibility flips host_available
    // without altering the owning queue unless ownership also moved
    let mut state = ImageEndState::default();
    state.apply_execution(true, None, None);
    assert!(state.host_available);
    assert_eq!(state.queue, None);
    assert_eq!(state.layout, ImageLayout::Undefined);
}

#[test]
fn ownership_transfer_recorded() {
    let mut state = ImageEndState::default();
    state.apply_execution(true, Some(2), Some(ImageLayout::TransferDstOptimal));
    assert!(state.host_available);
    assert_eq!(state.queue, Some(2));
    assert_eq!(state.layout, ImageLayout::TransferDstOptimal);
}

#[test]
fn unflushed_device_write_invalidates_host_availability() {
    let mut state = BufferEndState::default();
    state.apply_execution(true, Some(0));
    assert!(state.host_available);
    assert_eq!(state.queue, Some(0));
    // a further device write that is not re-flushed drops host availability
    // and leaves ownership where it was
    state.apply_execution(false, None);
    assert!(!state.host_available);
    assert_eq!(state.queue, Some(0));
}

#[test]
fn buffer_end_state_updates() {
    let mut state = BufferEndState::default();
    state.apply_execution(false, Some(3));
    assert!(!state.host_available);
    assert_eq!(state.queue, Some(3));
    state.apply_execution(true, Some(1));
    assert!(state.host_available);
    assert_eq!(state.queue, Some(1));
}

#[test]
fn init_result_variants() {
    let ok = InitResult::Supported;
    let no = InitResult::Disable;
    assert_ne!(ok, no);
    assert!(matches!(ok, InitResult::Supported));
    assert!(matches!(no, InitResult::Disable));
}
