use voodoo::command_buffer::CommandBufferLevel;
use voodoo::command_pool::CommandPool;
use voodoo::command_pool::CommandPoolCreateInfo;
use voodoo::device::Device;
use voodoo::device::DeviceHandle;
use voodoo::flags::CommandPoolCreateFlags;
use voodoo::flags::COMMAND_POOL_CREATE_RESET_COMMAND_BUFFER_BIT;
use voodoo::flags::COMMAND_POOL_CREATE_TRANSIENT_BIT;
use voodoo::handle::Handle;

fn device() -> Device {
    Device::new(DeviceHandle(7))
}

fn pool() -> CommandPool {
    CommandPool::builder()
        .queue_family_index(2)
        .build(device(), Ok(0x1000))
        .unwrap()
}

#[test]
fn builder_defaults() {
    let b = CommandPool::builder();
    assert_eq!(b.create_info.flags.bits, 0);
    assert_eq!(b.create_info.queue_family_index, 0);
}

#[test]
fn builder_accumulates_parameters() {
    let b = CommandPool::builder()
        .flags(CommandPoolCreateFlags::from_bits(COMMAND_POOL_CREATE_RESET_COMMAND_BUFFER_BIT))
        .queue_family_index(3);
    assert_eq!(b.create_info.flags.bits, COMMAND_POOL_CREATE_RESET_COMMAND_BUFFER_BIT);
    assert_eq!(b.create_info.queue_family_index, 3);
}

#[test]
fn create_info_default_is_empty() {
    let i: CommandPoolCreateInfo = Default::default();
    assert_eq!(i.flags.bits, 0);
    assert_eq!(i.queue_family_index, 0);
}

#[test]
fn build_returns_exact_parameters() {
    let b = CommandPool::builder()
        .flags(CommandPoolCreateFlags::from_bits(COMMAND_POOL_CREATE_TRANSIENT_BIT))
        .queue_family_index(5);
    let pool = b.build(device(), Ok(0x2000)).unwrap();
    assert_eq!(pool.handle().0, 0x2000);
    assert_eq!(pool.flags().bits, COMMAND_POOL_CREATE_TRANSIENT_BIT);
    assert_eq!(pool.queue_family_index(), 5);
    assert_eq!(pool.device().handle().0, 7);
}

#[test]
fn build_propagates_native_failure() {
    let err = CommandPool::builder().build(device(), Err(-4)).err().unwrap();
    assert_eq!(err.code, -4);
    assert_eq!(err.code(), -4);
}

#[test]
fn pool_handle_trait_returns_raw_handle() {
    let p = pool();
    let by_ref = &p;
    assert_eq!(by_ref.handle().0, 0x1000);
    assert_eq!(by_ref.handle().handle().0, 0x1000);
}

#[test]
fn allocate_info_describes_request() {
    let p = pool();
    let info = p.allocate_info(CommandBufferLevel::Secondary, 4);
    assert_eq!(info.command_pool.0, p.handle().0);
    assert_eq!(info.level, CommandBufferLevel::Secondary);
    assert_eq!(info.command_buffer_count, 4);
}

#[test]
fn allocate_handles_exact_count() {
    let p = pool();
    let buf = p
        .allocate_command_buffer_handles(CommandBufferLevel::Primary, 3, Ok(vec![10, 11, 12]))
        .unwrap();
    assert_eq!(buf.len(), 3);
    assert_eq!(buf.get(0).0, 10);
    assert_eq!(buf.get(1).0, 11);
    assert_eq!(buf.get(2).0, 12);
}

#[test]
fn allocate_handles_propagates_native_failure() {
    let p = pool();
    let err = p
        .allocate_command_buffer_handles(CommandBufferLevel::Primary, 2, Err(-1))
        .err().unwrap();
    assert_eq!(err.code, -1);
}

#[test]
fn allocate_command_buffers_reference_same_pool() {
    let p = pool();
    let cbs = p
        .allocate_command_buffers(CommandBufferLevel::Primary, 3, Ok(vec![21, 22, 23]))
        .unwrap();
    assert_eq!(cbs.len(), 3);
    let mut i: u64 = 0;
    for cb in &cbs {
        assert_eq!(cb.handle().0, 21 + i);
        assert_eq!(cb.pool().handle().0, p.handle().0);
        assert_eq!(cb.pool().queue_family_index(), p.queue_family_index());
        assert_eq!(cb.pool().device().handle().0, p.device().handle().0);
        i += 1;
    }
}

#[test]
fn allocate_command_buffers_propagates_native_failure() {
    let p = pool();
    let err = p
        .allocate_command_buffers(CommandBufferLevel::Primary, 2, Err(-3))
        .err().unwrap();
    assert_eq!(err.code, -3);
}

#[test]
fn single_allocation_matches_batch_of_one() {
    let p = pool();
    let cb = p
        .allocate_command_buffer(CommandBufferLevel::Secondary, Ok(vec![99]))
        .unwrap();
    let cbs = p
        .allocate_command_buffers(CommandBufferLevel::Secondary, 1, Ok(vec![99]))
        .unwrap();
    assert_eq!(cbs.len(), 1);
    assert_eq!(cb.handle().0, cbs[0].handle().0);
    assert_eq!(cb.pool().handle().0, cbs[0].pool().handle().0);
    let e1 = p
        .allocate_command_buffer(CommandBufferLevel::Secondary, Err(-5))
        .err().unwrap();
    let e2 = p
        .allocate_command_buffers(CommandBufferLevel::Secondary, 1, Err(-5))
        .err().unwrap();
    assert_eq!(e1, e2);
}

#[test]
fn command_buffer_clone_shares_pool_and_handle() {
    let p = pool();
    let cb = p
        .allocate_command_buffer(CommandBufferLevel::Primary, Ok(vec![42]))
        .unwrap();
    let cb2 = cb.clone();
    assert_eq!(cb2.handle().0, cb.handle().0);
    assert_eq!(cb2.pool().handle().0, cb.pool().handle().0);
}

#[test]
fn pool_clone_shares_resource() {
    let p = pool();
    let p2 = p.clone();
    assert_eq!(p2.handle().0, p.handle().0);
    assert_eq!(p2.device().handle().0, p.device().handle().0);
    assert_eq!(p2.queue_family_index(), p.queue_family_index());
    assert_eq!(p2.flags().bits, p.flags().bits);
}
