use rknpu_drivers::context::{NpuContext, ProcessNpuState};
use rknpu_drivers::status::{NpuCtxState, INVALID_CORE_SLOT};

#[test]
fn default_context_starts_empty() {
    let ctx = NpuContext::default();

    assert!(matches!(ctx.driver_status.ctx_state, NpuCtxState::Empty));
    assert!(!ctx.driver_status.savepoint_valid);
    assert_eq!(ctx.driver_status.active_core_count, 0);

    for core in &ctx.driver_status.cores {
        assert!(core.core_slot == INVALID_CORE_SLOT || !core.enabled);
        assert_eq!(core.regs.pc.task_status, 0);
        assert_eq!(core.regs.pc.interrupt_status, 0);
        assert_eq!(core.regs.cna.s_status, 0);
        assert_eq!(core.regs.global.operation_enable, 0);
    }
}

#[test]
fn format_pretty_contains_summary_sections() {
    let state = ProcessNpuState {
        driver_status: Default::default(),
        npu_context: Default::default(),
    };
    let pretty = state.format_pretty();

    assert!(pretty.contains("Process NPU State"));
    assert!(pretty.contains("batch"));
    assert!(pretty.contains("submit"));
    assert!(pretty.contains("core0"));
    assert!(pretty.contains("core1"));
    assert!(pretty.contains("core2"));
}

#[test]
fn format_pretty_renders_values_in_decimal_and_hex() {
    let mut state = ProcessNpuState {
        driver_status: Default::default(),
        npu_context: Default::default(),
    };
    state.driver_status.owner_task_id = 42;
    state.driver_status.core_mask = 0x7;
    state.driver_status.ctx_state = NpuCtxState::Running;
    state.driver_status.can_resume = true;
    state.npu_context.submit.hw_elapse_time = -5;
    state.driver_status.cores[1].regs.pc.task_status = 0xabc;
    let pretty = state.format_pretty();

    let lines: Vec<&str> = pretty.lines().collect();
    assert_eq!(lines[0], "Process NPU State");
    assert_eq!(lines[1], "  owner: task=42 process=0 addr_space=0");
    assert_eq!(lines[2], "  ctx: state=Running can_resume=true savepoint_valid=false");
    assert_eq!(
        lines[3],
        "  masks: core_mask=0x7 active=0 running=0x0 waiting=0x0 irq_done=0x0"
    );
    assert_eq!(lines[4], "batch");
    assert!(lines[7].contains("hw_elapse_time=-5"));
    assert_eq!(lines[8], "core0");
    assert!(pretty.contains("task_status=0xabc"));
    assert_eq!(lines.len(), 8 + 3 * 11);
}
