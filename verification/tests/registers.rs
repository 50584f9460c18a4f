use rknpu_drivers::def::{
    npu_op, BLOCK_CNA, CNA_S_POINTER, DPU_DST_BASE_ADD, DPU_S_POINTER, OP_REG_CNA, OP_REG_DPU,
    OP_REG_PC, PC_REGISTER_AMOUNTS,
};
use rknpu_drivers::interrupt::{rknpu_fuzz_status, RknpuSharedState};
use rknpu_drivers::registers::{
    RknpuCore, CNA_OPERATION_ENABLE_OFFSET, GLOBAL_OPERATION_ENABLE_OFFSET, PC_BASE_ADDRESS_OFFSET,
    PC_INTERRUPT_MASK_OFFSET, PC_INTERRUPT_RAW_STATUS_OFFSET, PC_INTERRUPT_STATUS_OFFSET,
    PC_TASK_CON_OFFSET, PC_TASK_DMA_BASE_ADDR_OFFSET,
};
use rknpu_drivers::status::{
    ActiveCoreBinding, NpuCoreRestoreImage, NpuOwnerIds, NpuTaskRegisterWrite, TaskNpuState,
    TaskNpuStateKey,
};

fn build_fake_core() -> (RknpuCore, RknpuSharedState) {
    (RknpuCore::new(0), RknpuSharedState::new())
}

fn state_of<'a>(shared: &'a RknpuSharedState, key: TaskNpuStateKey) -> Option<&'a TaskNpuState> {
    shared.task_npu_state.iter().find(|s| s.key == key)
}

#[test]
fn decode_task_reg_write_keeps_rw_task_window() {
    let rw = RknpuCore::decode_task_reg_write(npu_op(OP_REG_DPU, 0x1234_5678, DPU_DST_BASE_ADD))
        .expect("rw task reg should be restorable");
    assert_eq!(rw.offset, DPU_DST_BASE_ADD as u16);
    assert_eq!(rw.value, 0x1234_5678);

    let s_pointer = RknpuCore::decode_task_reg_write(npu_op(OP_REG_DPU, 0x3f, DPU_S_POINTER));
    assert!(s_pointer.is_none());
}

#[test]
fn decode_task_reg_write_skips_readonly_status_registers() {
    let pc_interrupt_status = RknpuCore::decode_task_reg_write(npu_op(
        OP_REG_PC,
        0x300,
        PC_INTERRUPT_STATUS_OFFSET as u32,
    ));
    let pc_interrupt_raw = RknpuCore::decode_task_reg_write(npu_op(
        OP_REG_PC,
        0x300,
        PC_INTERRUPT_RAW_STATUS_OFFSET as u32,
    ));
    let cna_status = RknpuCore::decode_task_reg_write(npu_op(OP_REG_CNA, 0x1, 0x1000));

    assert!(pc_interrupt_status.is_none());
    assert!(pc_interrupt_raw.is_none());
    assert!(cna_status.is_none());
}

#[test]
fn verify_restore_image_ignores_task_shadow_readback_mismatch() {
    let (core, _shared) = build_fake_core();
    let mut image = NpuCoreRestoreImage::default();
    image.task_shadow_writes.push(NpuTaskRegisterWrite {
        block: BLOCK_CNA as u16,
        offset: 0x100c,
        value: 0x1234_5678,
    });

    assert_eq!(core.verify_restore_image(&image), 0);
    assert_eq!(
        core.first_task_shadow_mismatch(&image),
        Some((0x100c, 0x1234_5678, 0))
    );
}

#[test]
fn handle_interrupt_without_binding_only_publishes_irq_status() {
    let (mut core, mut shared) = build_fake_core();
    core.write_mmio_u32(PC_INTERRUPT_STATUS_OFFSET, 0x200);

    let fuzzed = core.handle_interrupt(&mut shared);

    assert_eq!(fuzzed, 0x300);
    assert_eq!(core.irq_status, 0x300);
    assert!(shared.task_npu_state.is_empty());
}

#[test]
fn handle_interrupt_with_binding_snapshots_and_restores() {
    let (mut core, mut shared) = build_fake_core();
    let key = TaskNpuStateKey {
        owner: NpuOwnerIds {
            task_id: 1,
            process_id: 2,
            address_space_id: 3,
        },
        core_slot: 0,
    };
    let binding = ActiveCoreBinding {
        key,
        subcore_slot: 0,
        batch_task_start: 0,
        batch_task_count: 1,
        current_task_index: 0,
        expected_irq_mask: 0x300,
    };
    let mut restore_image = NpuCoreRestoreImage::default();
    restore_image.task_shadow_writes.push(NpuTaskRegisterWrite {
        block: BLOCK_CNA as u16,
        offset: 0x100c,
        value: 0x1234_5678,
    });
    shared.prepare_active_binding(
        binding,
        TaskNpuState {
            key,
            expected_irq_mask: 0x300,
            restore_image,
            ..TaskNpuState::default()
        },
    );

    core.write_mmio_u32(PC_BASE_ADDRESS_OFFSET, 0x1000);
    core.write_mmio_u32(PC_REGISTER_AMOUNTS as u16, 0x22);
    core.write_mmio_u32(PC_INTERRUPT_MASK_OFFSET, 0x300);
    core.write_mmio_u32(PC_INTERRUPT_STATUS_OFFSET, 0x300);
    core.write_mmio_u32(PC_INTERRUPT_RAW_STATUS_OFFSET, 0x300);
    core.write_mmio_u32(PC_TASK_CON_OFFSET, 0x2001);
    core.write_mmio_u32(PC_TASK_DMA_BASE_ADDR_OFFSET, 0x8800);
    core.write_mmio_u32(CNA_S_POINTER as u16, 0x3f);
    core.write_mmio_u32(CNA_OPERATION_ENABLE_OFFSET, 1);
    core.write_mmio_u32(GLOBAL_OPERATION_ENABLE_OFFSET, 1);
    core.write_mmio_u32(0x100c, 0);

    let fuzzed = core.handle_interrupt(&mut shared);
    let state = state_of(&shared, key).expect("state entry must exist");

    assert_eq!(fuzzed, 0x300);
    assert_eq!(core.irq_status, 0x300);
    assert_eq!(state.observed_irq_status, 0x300);
    assert_eq!(state.last_task_int_status, 0x300);
    assert!(state.restore_verified);
    assert_eq!(state.restore_mismatch_mask, 0);
    assert!(state.restore_image.unsafe_snapshot);
    assert_eq!(core.read_mmio_u32(0x100c), 0x1234_5678);
    assert_eq!(core.read_mmio_u32(CNA_S_POINTER as u16), 0x0f);
    assert_eq!(core.read_mmio_u32(PC_TASK_CON_OFFSET), 0x0001);
    assert_eq!(core.read_mmio_u32(CNA_OPERATION_ENABLE_OFFSET), 0);
    assert_eq!(core.read_mmio_u32(GLOBAL_OPERATION_ENABLE_OFFSET), 0);
}

#[test]
fn handle_interrupt_updates_pre_registered_entry_without_inserting_new_map_item() {
    let (mut core, mut shared) = build_fake_core();
    let key = TaskNpuStateKey {
        owner: NpuOwnerIds {
            task_id: 7,
            process_id: 8,
            address_space_id: 9,
        },
        core_slot: 0,
    };
    let binding = ActiveCoreBinding {
        key,
        subcore_slot: 0,
        batch_task_start: 4,
        batch_task_count: 1,
        current_task_index: 4,
        expected_irq_mask: 0x300,
    };

    shared.ensure_task_state_entry(key);
    assert_eq!(shared.task_npu_state.len(), 1);
    shared.prepare_active_binding(
        binding,
        TaskNpuState {
            key,
            expected_irq_mask: 0x300,
            ..TaskNpuState::default()
        },
    );
    assert_eq!(shared.task_npu_state.len(), 1);

    core.write_mmio_u32(PC_INTERRUPT_MASK_OFFSET, 0x300);
    core.write_mmio_u32(PC_INTERRUPT_STATUS_OFFSET, 0x300);

    let fuzzed = core.handle_interrupt(&mut shared);
    let state = state_of(&shared, key).expect("pre-registered state entry must remain");

    assert_eq!(fuzzed, 0x300);
    assert_eq!(shared.task_npu_state.len(), 1);
    assert_eq!(state.batch_task_start, 4);
    assert_eq!(state.current_task_index, 4);
    assert_eq!(state.expected_irq_mask, 0x300);
    assert_eq!(state.observed_irq_status, 0x300);
}

#[test]
fn fuzz_status_widens_each_pair() {
    assert_eq!(rknpu_fuzz_status(0), 0);
    assert_eq!(rknpu_fuzz_status(0x1), 0x3);
    assert_eq!(rknpu_fuzz_status(0x200), 0x300);
    assert_eq!(rknpu_fuzz_status(0x804), 0xc0c);
    assert_eq!(rknpu_fuzz_status(0x1000), 0);
    assert_eq!(rknpu_fuzz_status(0xffff_ffff), 0xfff);
}

#[test]
fn fuzz_status_is_idempotent_on_examples() {
    for s in [0u32, 1, 0x20, 0x104, 0xabc, 0x1_2345] {
        let f = rknpu_fuzz_status(s);
        assert_eq!(rknpu_fuzz_status(f), f);
    }
}

#[test]
fn register_reads_back_what_was_written() {
    let (mut core, _shared) = build_fake_core();
    core.write_mmio_u32(0x4020, 0xdead_beef);
    core.write_mmio_u32(0x4024, 0x0102_0304);
    assert_eq!(core.read_mmio_u32(0x4020), 0xdead_beef);
    assert_eq!(core.read_mmio_u32(0x4024), 0x0102_0304);
    assert_eq!(core.mmio[0x4020], 0xef);
    assert_eq!(core.mmio[0x4023], 0xde);
}

#[test]
fn version_adds_low_half_of_version_num() {
    let (mut core, _shared) = build_fake_core();
    core.write_mmio_u32(0x0, 0x1000);
    core.write_mmio_u32(0x4, 0xabcd_0042);
    assert_eq!(core.version(), 0x1042);
    core.write_mmio_u32(0x0, 0xffff_ffff);
    core.write_mmio_u32(0x4, 0x2);
    assert_eq!(core.version(), 1);
}

#[test]
fn clean_interrupts_clears_status_bits() {
    let (mut core, _shared) = build_fake_core();
    core.write_mmio_u32(PC_INTERRUPT_STATUS_OFFSET, 0x2_0300);
    core.write_mmio_u32(PC_INTERRUPT_RAW_STATUS_OFFSET, 0x1_0001);
    core.clean_interrupts();
    assert_eq!(core.read_mmio_u32(0x24), 0x1_ffff);
    assert_eq!(core.read_mmio_u32(PC_INTERRUPT_STATUS_OFFSET), 0x2_0000);
    assert_eq!(core.read_mmio_u32(PC_INTERRUPT_RAW_STATUS_OFFSET), 0);
}

#[test]
fn drain_pending_interrupts_leaves_nothing_pending() {
    let (mut core, mut shared) = build_fake_core();
    core.write_mmio_u32(PC_INTERRUPT_STATUS_OFFSET, 0x30);
    core.irq_status = 0x5;
    core.drain_pending_interrupts(&mut shared);
    assert_eq!(core.irq_status, 0);
    assert_eq!(rknpu_fuzz_status(core.read_mmio_u32(PC_INTERRUPT_STATUS_OFFSET)), 0);
}

#[test]
fn shadow_writes_keep_last_value_per_register() {
    let (core, _shared) = build_fake_core();
    let regcmds = [
        npu_op(OP_REG_DPU, 0x11, DPU_DST_BASE_ADD),
        npu_op(OP_REG_CNA, 0x22, 0x100c),
        npu_op(OP_REG_DPU, 0x33, DPU_DST_BASE_ADD),
        npu_op(OP_REG_PC, 0x300, PC_INTERRUPT_STATUS_OFFSET as u32),
    ];
    let writes = core.build_task_shadow_writes_from_regcmds(&regcmds);
    assert_eq!(writes.len(), 2);
    assert_eq!(writes[0].offset, DPU_DST_BASE_ADD as u16);
    assert_eq!(writes[0].value, 0x33);
    assert_eq!(writes[1].offset, 0x100c);
    assert_eq!(writes[1].value, 0x22);
}

#[test]
fn restore_after_poison_reads_back_clean() {
    let (mut core, _shared) = build_fake_core();
    let mut image = NpuCoreRestoreImage::default();
    image.pc_base_address = 0x1000;
    image.pc_task_con = 0x1;
    image.cna_s_pointer = 0xe;
    core.apply_poison_to_restore_image(&image);
    assert_ne!(core.verify_restore_image(&image), 0);
    core.apply_restore_image(&image);
    assert_eq!(core.verify_restore_image(&image), 0);
    assert_eq!(core.read_mmio_u32(PC_BASE_ADDRESS_OFFSET), 0x1000);
}

#[test]
fn sanitizers_drop_clear_bits() {
    assert_eq!(RknpuCore::sanitize_s_pointer(0x3f), 0x0f);
    assert_eq!(RknpuCore::sanitize_task_con(0x2001), 0x1);
    assert_eq!(RknpuCore::poison_value(0x1008, 0x1234), 0);
    assert_eq!(RknpuCore::poison_value(0x4020, 0x0), 0x5a5a_4020);
}
