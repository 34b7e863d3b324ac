use voodoo::device::Device;
use voodoo::device::DeviceHandle;
use voodoo::device::PhysicalDevice;
use voodoo::device::PhysicalDeviceHandle;
use voodoo::flags::QueueFlags;
use voodoo::flags::QUEUE_COMPUTE_BIT;
use voodoo::flags::QUEUE_GRAPHICS_BIT;
use voodoo::flags::QUEUE_TRANSFER_BIT;
use voodoo::handle::Handle;
use voodoo::queue::queue_families;
use voodoo::queue::Queue;
use voodoo::queue::QueueFamilyIndices;
use voodoo::queue::QueueFamilyRecord;

fn rec(queue_count: u32, bits: u32, presentation_support: bool) -> QueueFamilyRecord {
    QueueFamilyRecord {
        queue_count,
        queue_flags: QueueFlags::from_bits(bits),
        presentation_support,
    }
}

fn phys() -> PhysicalDevice {
    PhysicalDevice::new(PhysicalDeviceHandle(11))
}

#[test]
fn queue_flags_contains_superset() {
    let both = QueueFlags::from_bits(QUEUE_GRAPHICS_BIT | QUEUE_COMPUTE_BIT);
    let graphics = QueueFlags::from_bits(QUEUE_GRAPHICS_BIT);
    assert!(both.contains(graphics));
    assert!(!graphics.contains(both));
    assert!(graphics.contains(QueueFlags::empty()));
}

#[test]
fn fresh_indices_are_incomplete() {
    let indices = QueueFamilyIndices::new(phys(), QueueFlags::from_bits(QUEUE_GRAPHICS_BIT));
    assert!(!indices.is_complete());
    assert_eq!(indices.flag_idxs.len(), 0);
    assert_eq!(indices.presentation_support_idxs.len(), 0);
    assert_eq!(indices.family_idxs(), &[] as &[i32]);
}

#[test]
fn scan_scenario_three_families() {
    // Family 0: graphics, one queue, no presentation.  Family 1:
    // compute and graphics, two queues, presentation.  Family 2:
    // transfer only, one queue.  Requesting graphics halts at family 0,
    // whose presentation answer (no) is the only one recorded.
    let records = vec![
        rec(1, QUEUE_GRAPHICS_BIT, false),
        rec(2, QUEUE_COMPUTE_BIT | QUEUE_GRAPHICS_BIT, true),
        rec(1, QUEUE_TRANSFER_BIT, false),
    ];
    let indices = queue_families(phys(), QueueFlags::from_bits(QUEUE_GRAPHICS_BIT), &records);
    assert!(indices.is_complete());
    assert_eq!(indices.family_idxs(), &[0][..]);
    assert_eq!(indices.presentation_support_idxs.len(), 0);
    assert_eq!(indices.flags.bits, QUEUE_GRAPHICS_BIT);
    assert_eq!(indices.physical_device.handle().0, 11);
}

#[test]
fn scan_halts_at_first_match() {
    // The first graphics match sits at index 2; presentation answers up
    // to and including that index are recorded, later ones are not.
    let records = vec![
        rec(1, QUEUE_TRANSFER_BIT, true),
        rec(1, QUEUE_COMPUTE_BIT, false),
        rec(4, QUEUE_GRAPHICS_BIT | QUEUE_TRANSFER_BIT, true),
        rec(1, QUEUE_GRAPHICS_BIT, true),
    ];
    let indices = queue_families(phys(), QueueFlags::from_bits(QUEUE_GRAPHICS_BIT), &records);
    assert!(indices.is_complete());
    assert_eq!(indices.family_idxs(), &[2][..]);
    assert_eq!(indices.presentation_support_idxs.len(), 2);
    assert_eq!(indices.presentation_support_idxs.as_slice(), &[0, 2][..]);
}

#[test]
fn scan_no_match_covers_all_families() {
    let records = vec![
        rec(1, QUEUE_TRANSFER_BIT, true),
        rec(0, QUEUE_GRAPHICS_BIT, true),
        rec(2, QUEUE_COMPUTE_BIT, true),
    ];
    let indices = queue_families(phys(), QueueFlags::from_bits(QUEUE_GRAPHICS_BIT), &records);
    assert!(!indices.is_complete());
    assert_eq!(indices.family_idxs(), &[] as &[i32]);
    // Family 1 matches the flags but has no queues, and it presents only
    // on paper: a zero queue count keeps it out of both sequences.
    assert_eq!(indices.presentation_support_idxs.as_slice(), &[0, 2][..]);
}

#[test]
fn scan_skips_zero_queue_count_match() {
    let records = vec![rec(0, QUEUE_GRAPHICS_BIT, false), rec(1, QUEUE_GRAPHICS_BIT, false)];
    let indices = queue_families(phys(), QueueFlags::from_bits(QUEUE_GRAPHICS_BIT), &records);
    assert_eq!(indices.family_idxs(), &[1][..]);
}

#[test]
fn scan_of_empty_list_is_incomplete() {
    let records: Vec<QueueFamilyRecord> = vec![];
    let indices = queue_families(phys(), QueueFlags::from_bits(QUEUE_GRAPHICS_BIT), &records);
    assert!(!indices.is_complete());
    assert_eq!(indices.presentation_support_idxs.len(), 0);
}

#[test]
fn queue_new_retrieves_handle() {
    let q = Queue::new(Device::new(DeviceHandle(7)), 2, 0, Ok(0x55)).unwrap();
    assert_eq!(q.handle().to_raw(), 0x55);
    assert_eq!(q.family_idx(), 2);
    assert_eq!(q.idx(), 0);
    assert_eq!(q.device().handle().0, 7);
}

#[test]
fn queue_new_propagates_failure() {
    let err = Queue::new(Device::new(DeviceHandle(7)), 0, 0, Err(-7)).err().unwrap();
    assert_eq!(err.code, -7);
}
