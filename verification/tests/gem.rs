use rknpu_drivers::data::{RknpuConfig, RknpuType};
use rknpu_drivers::err::RknpuError;
use rknpu_drivers::gem::GemPool;
use rknpu_drivers::ioctrl::{RknpuMemCreate, RknpuMemDestroy, RknpuMemMap};
use rknpu_drivers::npu::Rknpu;
use rknpu_drivers::service::error::RknpuServiceError;
use rknpu_drivers::service::ioctl::{handle_mem_destroy_request, handle_mem_map_request};

fn create(pool: &mut GemPool, bus: u64, len: usize) -> u32 {
    let mut args = RknpuMemCreate::default();
    args.size = len as u64;
    pool.create(&mut args, bus, bus + 0x1_0000_0000, len).unwrap();
    assert_eq!(args.dma_addr, bus);
    assert_eq!(args.sram_size, len as u64);
    assert_eq!(args.obj_addr, bus + 0x1_0000_0000);
    args.handle
}

#[test]
fn handles_count_up_from_one() {
    let mut pool = GemPool::new();
    assert_eq!(create(&mut pool, 0x1000, 0x100), 1);
    assert_eq!(create(&mut pool, 0x2000, 0x200), 2);
    assert_eq!(pool.get_phys_addr_and_size(1), Some((0x1000, 0x100)));
    assert_eq!(pool.get_phys_addr_and_size(2), Some((0x2000, 0x200)));
    assert_eq!(pool.get_phys_addr_and_size(3), None);
}

#[test]
fn destroy_forgets_only_its_handle() {
    let mut pool = GemPool::new();
    let a = create(&mut pool, 0x1000, 0x100);
    let b = create(&mut pool, 0x2000, 0x200);
    pool.destroy(a);
    assert_eq!(pool.get_phys_addr_and_size(a), None);
    assert_eq!(pool.get_phys_addr_and_size(b), Some((0x2000, 0x200)));
    pool.destroy(a);
    assert_eq!(create(&mut pool, 0x3000, 0x10), 3);
}

#[test]
fn wrapped_handle_replaces_the_old_buffer() {
    let mut pool = GemPool::new();
    create(&mut pool, 0x1000, 0x100);
    pool.handle_counter = 1;
    assert_eq!(create(&mut pool, 0x9000, 0x40), 1);
    assert_eq!(pool.get_phys_addr_and_size(1), Some((0x9000, 0x40)));
    assert_eq!(pool.pool.len(), 1);
}

#[test]
fn regcmd_words_are_found_by_bus_address() {
    let mut pool = GemPool::new();
    create(&mut pool, 0x1000, 0x100);
    let b = create(&mut pool, 0x4000, 0x1000);
    assert_eq!(pool.locate_regcmd_words(0x4000, 0x10, 4), Some((b, 0x10)));
    assert_eq!(pool.locate_regcmd_words(0x1000, 0xf8, 1), Some((1, 0xf8)));
    assert_eq!(pool.locate_regcmd_words(0x1000, 0xf8, 2), None);
    assert_eq!(pool.locate_regcmd_words(0x800, 0, 1), None);
    assert_eq!(pool.locate_regcmd_words(u64::MAX, 1, 1), None);
}

#[test]
fn mem_ioctls_map_and_destroy_by_handle() {
    let mut npu = Rknpu::new(1, RknpuConfig { rknpu_type: RknpuType::Rk3588 });
    let mut args = RknpuMemCreate::default();
    npu.gem.create(&mut args, 0x8000, 0x9000, 0x1000).unwrap();
    let map = handle_mem_map_request(&npu, RknpuMemMap { handle: args.handle, reserved: 0, offset: 0 }).unwrap();
    assert_eq!(map.offset, 0x1000);
    let missing = handle_mem_map_request(&npu, RknpuMemMap { handle: 9, reserved: 0, offset: 0 });
    assert_eq!(missing.err(), Some(RknpuServiceError::Driver(RknpuError::InvalidHandle)));
    let destroy = RknpuMemDestroy { handle: args.handle, reserved: 0, obj_addr: 0 };
    assert_eq!(handle_mem_destroy_request(&mut npu, destroy), Ok(0));
    assert_eq!(npu.gem.get_phys_addr_and_size(args.handle), None);
    assert_eq!(handle_mem_destroy_request(&mut npu, destroy), Ok(0));
}
