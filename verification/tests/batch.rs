use rknpu_drivers::batch::{batch_ref, batch_size, wait_step, WaitStep};
use rknpu_drivers::data::{RknpuData, RknpuType};
use rknpu_drivers::emmc::csd::CSDRegister;
use rknpu_drivers::interrupt::RknpuSharedState;
use rknpu_drivers::job::RknpuTask;
use rknpu_drivers::registers::RknpuCore;

#[test]
fn wait_step_classifies_status() {
    assert_eq!(wait_step(0x300, 0x300), WaitStep::Done(0x300));
    assert_eq!(wait_step(0x3ff, 0x100), WaitStep::Done(0x100));
    assert_eq!(wait_step(0x3, 0x300), WaitStep::Fault);
    assert_eq!(wait_step(0, 0x300), WaitStep::Pending);
}

#[test]
fn batch_size_is_capped_by_the_limit() {
    assert_eq!(batch_size(0, 10, 4095), 10);
    assert_eq!(batch_size(0, 10_000, 4095), 4095);
    assert_eq!(batch_size(8190, 10_000, 4095), 1810);
}

#[test]
fn batch_waits_on_last_task_and_clears_first() {
    let tasks = vec![
        RknpuTask { int_mask: 0x100, regcfg_amount: 20, regcmd_addr: 0x1000, ..RknpuTask::default() },
        RknpuTask { int_mask: 0x200, regcfg_amount: 30, regcmd_addr: 0x2000, ..RknpuTask::default() },
        RknpuTask { int_mask: 0x300, regcfg_amount: 40, regcmd_addr: 0x3000, ..RknpuTask::default() },
    ];
    let b = batch_ref(0x5, 0x8000, 2, &tasks, 1, 2);
    assert_eq!(b.base.int_mask, 0x300);
    assert_eq!(b.base.int_clear, 0x200);
    assert_eq!(b.base.regcfg_amount, 30);
    assert_eq!(b.regcmd_base_addr, 0x2000);
    assert_eq!(b.task_number, 2);
    assert_eq!(b.base.core_idx, 2);
    assert_eq!(b.base.task_array_dma_address, 0x8000);
}

#[test]
fn batch_start_and_finish_update_core_and_task() {
    let mut core = RknpuCore::new(0);
    let mut shared = RknpuSharedState::new();
    let data = RknpuData::new(RknpuType::Rk3588);
    let mut tasks = vec![RknpuTask { int_mask: 0x300, regcfg_amount: 10, ..RknpuTask::default() }];
    core.irq_status = 0x9;
    let b = batch_ref(0, 0, 0, &tasks, 0, 1);
    core.start_batch(&mut shared, &data, &b);
    assert_eq!(core.irq_status, 0);
    assert_eq!(core.read_mmio_u32(0x30), (0x6 << 12) | 1);
    assert_eq!(core.read_mmio_u32(0x14), 6);
    core.write_mmio_u32(0x28, 0x300);
    assert_eq!(wait_step(core.poll_status(), b.base.int_mask), WaitStep::Done(0x300));
    core.finish_batch(&mut tasks[0], 0x300);
    assert_eq!(tasks[0].int_status, 0x300);
    assert_eq!(core.read_mmio_u32(0x28), 0);
}

#[test]
fn csd_fields_decode() {
    let csd = CSDRegister::new(&[0, 0xc000_8000, 0x0000_0a01, 0x9400_0000]);
    assert_eq!(csd.csd_structure, 2);
    assert_eq!(csd.spec_version, 5);
    assert_eq!(csd.device_size, 0x807);
    assert_eq!(csd.devoce_size_mult, 1);
    assert_eq!(csd.read_bl_len, 0xa);
}
