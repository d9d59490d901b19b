use vk_compute::error::KernelError;
use vk_compute::layout::{find_slot, validate_layout};
use vk_compute::shader::{LayoutDescription, LayoutDescriptorIndex};

fn matrix_layout() -> Vec<LayoutDescription> {
    vec![
        LayoutDescription { binding: 0, buffer_size: 24, index: LayoutDescriptorIndex::WriteIndex(0) },
        LayoutDescription { binding: 1, buffer_size: 24, index: LayoutDescriptorIndex::WriteIndex(1) },
        LayoutDescription { binding: 2, buffer_size: 36, index: LayoutDescriptorIndex::ReadIndex(0) },
    ]
}

#[test]
fn get_index_gives_the_slot_of_either_direction() {
    let layout = matrix_layout();
    assert_eq!(layout[0].get_index(), 0);
    assert_eq!(layout[1].get_index(), 1);
    assert_eq!(layout[2].get_index(), 0);
}

#[test]
fn valid_layout_is_split_by_direction_and_ordered_by_slot() {
    let mut layout = matrix_layout();
    layout.swap(0, 1);
    let order = validate_layout(&layout, 2, 1).expect("the layout lines up");
    assert_eq!(order.write, vec![layout[1], layout[0]]);
    assert_eq!(order.read, vec![layout[2]]);
}

#[test]
fn repeated_binding_is_a_binding_mismatch() {
    let mut layout = matrix_layout();
    layout[1].binding = 0;
    assert_eq!(validate_layout(&layout, 2, 1).err(), Some(KernelError::BindingMismatch));
}

#[test]
fn repeated_slot_is_a_binding_mismatch() {
    let mut layout = matrix_layout();
    layout[1].index = LayoutDescriptorIndex::WriteIndex(0);
    assert_eq!(validate_layout(&layout, 2, 1).err(), Some(KernelError::BindingMismatch));
}

#[test]
fn slot_outside_the_payload_list_is_a_binding_mismatch() {
    let layout = matrix_layout();
    assert_eq!(validate_layout(&layout, 1, 1).err(), Some(KernelError::BindingMismatch));
    assert_eq!(validate_layout(&layout, 2, 0).err(), Some(KernelError::BindingMismatch));
}

#[test]
fn payload_without_descriptor_is_a_binding_mismatch() {
    let layout = matrix_layout();
    assert_eq!(validate_layout(&layout, 3, 1).err(), Some(KernelError::BindingMismatch));
    assert_eq!(validate_layout(&layout, 2, 2).err(), Some(KernelError::BindingMismatch));
}

#[test]
fn empty_layout_lines_up_with_no_payloads() {
    let order = validate_layout(&Vec::new(), 0, 0).expect("nothing to line up");
    assert!(order.write.is_empty());
    assert!(order.read.is_empty());
}

#[test]
fn find_slot_gives_the_first_descriptor_of_a_slot() {
    let layout = matrix_layout();
    assert_eq!(find_slot(&layout, LayoutDescriptorIndex::ReadIndex(0)), Some(2));
    assert_eq!(find_slot(&layout, LayoutDescriptorIndex::WriteIndex(1)), Some(1));
    assert_eq!(find_slot(&layout, LayoutDescriptorIndex::ReadIndex(1)), None);
}
