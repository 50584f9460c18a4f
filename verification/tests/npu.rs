use rknpu_drivers::data::{RknpuConfig, RknpuType};
use rknpu_drivers::err::RknpuError;
use rknpu_drivers::ioctrl::RknpuSubmit;
use rknpu_drivers::job::RknpuTask;
use rknpu_drivers::npu::{version, Rknpu, RknpuAction};

fn build_test_npu(core_count: usize) -> Rknpu {
    let config = RknpuConfig {
        rknpu_type: RknpuType::Rk3588,
    };
    Rknpu::new(core_count, config)
}

fn build_fake_rknpu() -> Rknpu {
    build_test_npu(3)
}

fn fake_submit(task_number: u32) -> RknpuSubmit {
    let mut submit = RknpuSubmit::default();
    submit.task_array_cpu_address = 0x1000;
    submit.task_array_dma_address = 0x2000;
    submit.task_number = task_number;
    submit.core_mask = 0x1;
    submit.subcore_task[0].task_start = 0;
    submit.subcore_task[0].task_number = task_number;
    submit
}

fn window_word(npu: &Rknpu, core: usize, offset: usize) -> u32 {
    u32::from_le_bytes(npu.base[core].mmio[offset..offset + 4].try_into().unwrap())
}

#[test]
fn harvest_completed_dispatches_returns_raw_core_status() {
    let mut npu = build_test_npu(1);
    npu.base[0].irq_status = 0x300;

    let completed = npu.harvest_completed_dispatches();

    assert_eq!(completed.len(), 1);
    assert_eq!(completed[0].core_slot, 0);
    assert_eq!(completed[0].observed_irq_status, 0x300);
    assert_eq!(npu.base[0].irq_status, 0);
}

#[test]
fn harvest_completed_dispatches_collects_multiple_cores() {
    let mut npu = build_test_npu(2);

    npu.base[0].irq_status = 0x100;
    npu.base[1].irq_status = 0x300;

    let completed = npu.harvest_completed_dispatches();

    assert_eq!(completed.len(), 2);
    assert_eq!(completed[0].core_slot, 0);
    assert_eq!(completed[0].observed_irq_status, 0x100);
    assert_eq!(completed[1].core_slot, 1);
    assert_eq!(completed[1].observed_irq_status, 0x300);
    assert_eq!(npu.base[0].irq_status, 0);
    assert_eq!(npu.base[1].irq_status, 0);
}

#[test]
fn action_iommu_domain_round_trip_uses_input_value() {
    let mut npu = build_test_npu(1);

    assert_eq!(npu.action(RknpuAction::GetIommuDomainId, 0).unwrap(), 0);
    assert_eq!(npu.action(RknpuAction::SetIommuDomainId, 7).unwrap(), 0);
    assert_eq!(npu.action(RknpuAction::GetIommuDomainId, 0).unwrap(), 7);
}

#[test]
fn action_rejects_out_of_range_iommu_domain() {
    let mut npu = build_test_npu(1);

    let err = npu.action(RknpuAction::SetIommuDomainId, 16).unwrap_err();

    assert_eq!(err, RknpuError::InvalidParameter);
}

#[test]
fn action_reports_total_sram_from_variant_data() {
    let mut npu = build_test_npu(1);
    npu.data.nbuf_size = 0x4000;

    assert_eq!(
        npu.action(RknpuAction::GetTotalSramSize, 0).unwrap(),
        0x4000
    );
    assert_eq!(npu.action(RknpuAction::GetFreeSramSize, 0).unwrap(), 0x4000);
}

#[test]
fn soft_reset_clears_published_irq_state() {
    let mut npu = build_test_npu(2);
    npu.base[0].irq_status = 0x100;
    npu.base[1].irq_status = 0x300;

    npu.soft_reset().unwrap();

    assert_eq!(npu.base[0].irq_status, 0);
    assert_eq!(npu.base[1].irq_status, 0);
}

#[test]
fn soft_reset_clears_every_window_interrupt() {
    let mut npu = build_test_npu(2);
    npu.base[0].write_mmio_u32(0x28, 0x2_0004);
    npu.base[0].write_mmio_u32(0x2c, 0x4);
    npu.base[0].write_mmio_u32(0x100, 0xabcd);
    npu.base[1].write_mmio_u32(0x28, 0x1);

    npu.soft_reset().unwrap();

    assert_eq!(window_word(&npu, 0, 0x24), 0x1_ffff);
    assert_eq!(window_word(&npu, 0, 0x28), 0x2_0000);
    assert_eq!(window_word(&npu, 0, 0x2c), 0);
    assert_eq!(window_word(&npu, 0, 0x100), 0xabcd);
    assert_eq!(window_word(&npu, 1, 0x24), 0x1_ffff);
    assert_eq!(window_word(&npu, 1, 0x28), 0);
}

#[test]
fn submit_step_rejects_invalid_core_slot() {
    let mut npu = build_fake_rknpu();
    let mut tasks = [RknpuTask::default()];
    let submit = fake_submit(1);

    let err = npu
        .submit_ioctrl_step(
            3,
            submit.flags,
            submit.task_number,
            submit.task_array_dma_address,
            0,
            0,
            &mut tasks[0],
        )
        .unwrap_err();

    assert_eq!(err, RknpuError::InvalidParameter);
}

#[test]
fn submit_step_dispatches_one_task() {
    let mut npu = build_fake_rknpu();
    let mut tasks = [RknpuTask {
        int_mask: 0x300,
        ..RknpuTask::default()
    }];
    let submit = fake_submit(1);

    npu.submit_ioctrl_step(
        0,
        submit.flags,
        submit.task_number,
        submit.task_array_dma_address,
        0,
        0,
        &mut tasks[0],
    )
    .unwrap();

    assert_eq!(tasks[0].int_status, 0);
    assert_eq!(npu.base[0].irq_status, 0);
}

#[test]
fn submit_step_rejects_out_of_range_task_index() {
    let mut npu = build_fake_rknpu();
    let mut tasks = [RknpuTask {
        int_mask: 0x300,
        ..RknpuTask::default()
    }];
    let submit = fake_submit(1);
    let err = npu
        .submit_ioctrl_step(
            0,
            submit.flags,
            submit.task_number,
            submit.task_array_dma_address,
            0,
            1,
            &mut tasks[0],
        )
        .unwrap_err();

    assert_eq!(err, RknpuError::InvalidParameter);
}

#[test]
fn submit_step_accepts_legacy_zero_task_array_dma_address() {
    let mut npu = build_fake_rknpu();
    let mut tasks = [RknpuTask {
        int_mask: 0x300,
        ..RknpuTask::default()
    }];
    let mut submit = fake_submit(1);
    submit.task_array_dma_address = 0;

    npu.submit_ioctrl_step(
        0,
        submit.flags,
        submit.task_number,
        submit.task_array_dma_address,
        0,
        0,
        &mut tasks[0],
    )
    .unwrap();

    let task_dma_reg = window_word(&npu, 0, 0x34);
    assert_eq!(task_dma_reg, 0);
}

#[test]
fn submit_step_rejects_empty_submit() {
    let mut npu = build_fake_rknpu();
    let mut task = RknpuTask::default();
    let err = npu.submit_ioctrl_step(0, 0, 0, 0x2000, 0, 0, &mut task).unwrap_err();
    assert_eq!(err, RknpuError::InvalidParameter);
}

#[test]
fn submit_step_programs_the_pc_block() {
    let mut npu = build_fake_rknpu();
    let mut task = RknpuTask {
        int_mask: 0x300,
        regcfg_amount: 108,
        regcmd_addr: 0x4000,
        int_status: 0x55,
        ..RknpuTask::default()
    };
    npu.submit_ioctrl_step(1, 0x4, 3, 0x2000, 0, 2, &mut task).unwrap();
    assert_eq!(task.int_status, 0);
    // task 2 of the array at 0x2000: 0x2000 + 2 * 40
    assert_eq!(window_word(&npu, 1, 0x34), 0x2050);
    assert_eq!(window_word(&npu, 1, 0x10), 0x4000);
    // (108 + 4) / 2 - 1
    assert_eq!(window_word(&npu, 1, 0x14), 55);
    assert_eq!(window_word(&npu, 1, 0x20), 0x300);
    assert_eq!(window_word(&npu, 1, 0x24), 0x300);
    // ping-pong set: (0x6 | 1) << 12 | 1
    assert_eq!(window_word(&npu, 1, 0x30), 0x7001);
    assert_eq!(window_word(&npu, 1, 0x08), 0);
    // core 1 selects itself in the CNA and MAC pointers
    assert_eq!(window_word(&npu, 1, 0x1004), 0x1000_000e);
    assert_eq!(window_word(&npu, 1, 0x3004), 0x1000_000e);
    // other cores are untouched
    assert_eq!(window_word(&npu, 0, 0x34), 0);
}

#[test]
fn action_returns_driver_version_and_refuses_platform_actions() {
    let mut npu = build_test_npu(1);
    assert_eq!(npu.action(RknpuAction::GetDrvVersion, 0).unwrap(), 908);
    assert_eq!(version(1, 2, 3), 10203);
    assert_eq!(
        npu.action(RknpuAction::SetFreq, 1).unwrap_err(),
        RknpuError::NotSupported
    );
    assert_eq!(
        npu.action(RknpuAction::PowerOn, 0).unwrap_err(),
        RknpuError::NotSupported
    );
    assert_eq!(npu.action(RknpuAction::GetIommuEn, 0).unwrap(), 0);
    npu.set_iommu_enabled(true);
    assert!(npu.is_iommu_enabled());
    assert_eq!(npu.action(RknpuAction::GetIommuEn, 0).unwrap(), 1);
    assert_eq!(npu.action(RknpuAction::GetTotalRwAmount, 0).unwrap(), 0);
    assert_eq!(npu.action(RknpuAction::ActClrTotalRwAmount, 0).unwrap(), 0);
}

#[test]
fn action_rejects_negative_iommu_domain() {
    let mut npu = build_test_npu(1);
    let err = npu.action(RknpuAction::SetIommuDomainId, 0xffff_ffff).unwrap_err();
    assert_eq!(err, RknpuError::InvalidParameter);
    assert_eq!(npu.action(RknpuAction::GetIommuDomainId, 0).unwrap(), 0);
}

#[test]
fn action_codes_decode() {
    assert_eq!(RknpuAction::try_from_code(0), Ok(RknpuAction::GetHwVersion));
    assert_eq!(RknpuAction::try_from_code(25), Ok(RknpuAction::SetIommuDomainId));
    assert_eq!(RknpuAction::try_from_code(26), Err(()));
    assert_eq!(RknpuAction::try_from(13u32), Ok(RknpuAction::ActClrTotalRwAmount));
    assert_eq!(RknpuAction::try_from(100u32), Err(()));
}

#[test]
fn hw_version_reads_core_zero() {
    let mut npu = build_test_npu(2);
    npu.base[0].write_mmio_u32(0x0, 0x100);
    npu.base[0].write_mmio_u32(0x4, 0x1_0002);
    assert_eq!(npu.get_hw_version(), 0x102);
    assert_eq!(npu.action(RknpuAction::GetHwVersion, 0).unwrap(), 0x102);
}

#[test]
fn irq_handler_takes_its_core_interrupt() {
    let mut npu = build_test_npu(2);
    npu.base[1].write_mmio_u32(0x28, 0x4);
    let handler = npu.new_irq_handler(1);
    assert_eq!(handler.handle(&mut npu), 0xc);
    assert_eq!(npu.base[1].irq_status, 0xc);
    assert_eq!(npu.base[0].irq_status, 0);
    assert_eq!(npu.handle_interrupt0(), 0);
}

#[test]
fn rw_amount_counters_scale_and_saturate() {
    let mut npu = build_test_npu(1);
    npu.data.amount_top = Some(rknpu_drivers::data::RknpuAmountData {
        offset_clr_all: 0x8010,
        offset_dt_wr: 0x8034,
        offset_dt_rd: 0x8038,
        offset_wt_rd: 0x803c,
    });
    npu.base[0].write_mmio_u32(0x8034, 10);
    npu.base[0].write_mmio_u32(0x8038, 0x8000_0000);
    npu.base[0].write_mmio_u32(0x803c, 3);
    assert_eq!(npu.get_rw_amount().unwrap(), (20, u32::MAX, 6));
    assert_eq!(npu.get_total_rw_amount().unwrap(), u32::MAX);
    npu.clear_rw_amount().unwrap();
    assert_eq!(window_word(&npu, 0, 0x8010), 0x101);
}
