use goopinator::lifecycle::LayerRegistry;
use goopinator::present::forward_present_result;
use goopinator::registry::HandleRegistry;
use goopinator::{LayerState, VK_SUCCESS};

const VK_ERROR_OUT_OF_HOST_MEMORY: i32 = -1;
const VK_SUBOPTIMAL_KHR: i32 = 1_000_001_003;

#[test]
fn layer_state_initializes() {
    let state = LayerState::default();
    assert!(state.enabled);
}

#[test]
fn fresh_state_has_no_frames() {
    let state = LayerState::default();
    assert_eq!(state.frame_count, 0);
}

#[test]
fn successful_create_registers_the_instance() {
    let mut reg = LayerRegistry::new();
    let r = reg.complete_create_instance(VK_SUCCESS, 0xAA, 0x2000);
    assert_eq!(r, VK_SUCCESS);
    let entry = reg.lookup_instance(0xAA).expect("created instance is live");
    assert!(entry.state.enabled);
    assert_eq!(entry.state.frame_count, 0);
    assert_eq!(entry.dispatch.next_get_instance_proc_addr, 0x2000);
}

#[test]
fn failed_create_registers_nothing_and_propagates_verbatim() {
    let mut reg = LayerRegistry::new();
    let r = reg.complete_create_instance(VK_ERROR_OUT_OF_HOST_MEMORY, 0xAA, 0x2000);
    assert_eq!(r, VK_ERROR_OUT_OF_HOST_MEMORY);
    assert!(reg.lookup_instance(0xAA).is_none());
}

#[test]
fn destroy_removes_only_the_destroyed_instance() {
    let mut reg = LayerRegistry::new();
    reg.complete_create_instance(VK_SUCCESS, 1, 0x2000);
    reg.complete_create_instance(VK_SUCCESS, 2, 0x2001);
    assert!(reg.complete_destroy_instance(1));
    assert!(reg.lookup_instance(1).is_none());
    let other = reg.lookup_instance(2).expect("other instance stays live");
    assert!(other.state.enabled);
    assert_eq!(other.dispatch.next_get_instance_proc_addr, 0x2001);
}

#[test]
fn destroying_an_unknown_handle_is_a_harmless_no_op() {
    let mut reg = LayerRegistry::new();
    reg.complete_create_instance(VK_SUCCESS, 1, 0x2000);
    let was_live = reg.complete_destroy_instance(42);
    assert!(!was_live);
    let survivor = reg.lookup_instance(1).expect("unrelated instance untouched");
    assert_eq!(survivor.state.frame_count, 0);
    assert!(survivor.state.enabled);
}

#[test]
fn two_instances_have_independent_state() {
    let mut reg = LayerRegistry::new();
    reg.complete_create_instance(VK_SUCCESS, 1, 0x2000);
    reg.complete_create_instance(VK_SUCCESS, 2, 0x2001);
    reg.complete_create_device(VK_SUCCESS, 10, 1, 0x3000, 0x3001);

    // Three frames on a device owned by instance 1.
    reg.note_present(10);
    reg.note_present(10);
    reg.note_present(10);

    assert_eq!(reg.lookup_instance(1).unwrap().state.frame_count, 3);
    assert_eq!(reg.lookup_instance(2).unwrap().state.frame_count, 0);
}

#[test]
fn present_forwards_and_counts_frames() {
    let mut reg = LayerRegistry::new();
    reg.complete_create_instance(VK_SUCCESS, 1, 0x2000);
    reg.complete_create_device(VK_SUCCESS, 10, 1, 0x3000, 0x3001);

    let plan = reg.note_present(10);
    assert_eq!(plan.onward_present, Some(0x3001));
    assert!(plan.overlay_active);
    assert!(!plan.violation);
    assert_eq!(reg.lookup_instance(1).unwrap().state.frame_count, 1);
}

#[test]
fn present_forwards_even_when_disabled() {
    let mut reg = LayerRegistry::new();
    reg.complete_create_instance(VK_SUCCESS, 1, 0x2000);
    reg.complete_create_device(VK_SUCCESS, 10, 1, 0x3000, 0x3001);
    assert!(reg.set_instance_enabled(1, false));

    let plan = reg.note_present(10);
    assert_eq!(plan.onward_present, Some(0x3001));
    assert!(!plan.overlay_active);
    assert!(!plan.violation);
    assert_eq!(reg.lookup_instance(1).unwrap().state.frame_count, 0);
}

#[test]
fn present_on_an_unknown_device_degrades_to_a_violation() {
    let mut reg = LayerRegistry::new();
    let plan = reg.note_present(99);
    assert_eq!(plan.onward_present, None);
    assert!(plan.violation);
    assert!(!plan.overlay_active);
}

#[test]
fn present_result_is_returned_unmodified() {
    assert_eq!(forward_present_result(VK_SUCCESS), VK_SUCCESS);
    assert_eq!(forward_present_result(VK_SUBOPTIMAL_KHR), VK_SUBOPTIMAL_KHR);
    assert_eq!(
        forward_present_result(VK_ERROR_OUT_OF_HOST_MEMORY),
        VK_ERROR_OUT_OF_HOST_MEMORY
    );
}

#[test]
fn toggling_an_unknown_instance_changes_nothing() {
    let mut reg = LayerRegistry::new();
    reg.complete_create_instance(VK_SUCCESS, 1, 0x2000);
    assert!(!reg.set_instance_enabled(77, false));
    assert!(reg.lookup_instance(1).unwrap().state.enabled);
}

#[test]
fn device_lifecycle_mirrors_instances() {
    let mut reg = LayerRegistry::new();
    reg.complete_create_instance(VK_SUCCESS, 1, 0x2000);
    let r = reg.complete_create_device(VK_SUCCESS, 10, 1, 0x3000, 0x3001);
    assert_eq!(r, VK_SUCCESS);
    let entry = reg.lookup_device(10).expect("created device is live");
    assert_eq!(entry.owner_instance, 1);
    assert_eq!(entry.dispatch.next_get_device_proc_addr, 0x3000);
    assert_eq!(entry.dispatch.next_queue_present, 0x3001);

    assert!(reg.complete_destroy_device(10));
    assert!(reg.lookup_device(10).is_none());
    assert!(!reg.complete_destroy_device(10));
}

#[test]
fn chain_terminal_answers_null_for_unknown_handles() {
    let mut reg = LayerRegistry::new();
    assert_eq!(reg.next_instance_proc_addr(1), 0);
    reg.complete_create_instance(VK_SUCCESS, 1, 0x2000);
    assert_eq!(reg.next_instance_proc_addr(1), 0x2000);
    assert_eq!(reg.next_device_proc_addr(10), 0);
    reg.complete_create_device(VK_SUCCESS, 10, 1, 0x3000, 0x3001);
    assert_eq!(reg.next_device_proc_addr(10), 0x3000);
}

#[test]
fn handle_registry_insert_lookup_remove() {
    let mut reg: HandleRegistry<u32> = HandleRegistry::new();
    assert_eq!(reg.len(), 0);
    assert!(!reg.contains(5));
    reg.insert(5, 50);
    reg.insert(6, 60);
    assert_eq!(reg.len(), 2);
    assert_eq!(reg.get(5), Some(&50));
    reg.insert(5, 55);
    assert_eq!(reg.len(), 2);
    assert_eq!(reg.get(5), Some(&55));
    assert!(reg.remove(5));
    assert!(!reg.remove(5));
    assert_eq!(reg.get(5), None);
    assert_eq!(reg.get(6), Some(&60));
}
