//! The driver handle of one RKNPU device and its management actions.
use vstd::prelude::*;
use crate::registers::{RknpuCore, window_store, window_word, MMIO_WINDOW_LEN, INT_CLEAR_ALL};
use crate::interrupt::{
    RknpuSharedState, spec_fuzz_status, interrupt_cleared, irq_effect, irq_records, spec_register_snapshot,
    irq_taken_window,
    lemma_cleared_status_fuzzes_to_zero, lemma_cleared_reads, lemma_clear_idempotent,
};
use crate::data::{RknpuConfig, RknpuData, RknpuAmountData};
use crate::status::{CoreCompletion, NPU_MAX_CORES};
use crate::err::RknpuError;
use crate::job::RknpuTask;
use crate::pc::{pc_program_window, one_task_batch};

verus! {

/// Major version of the driver.
pub const VERSION_MAJOR: u32 = 0;
/// Minor version of the driver.
pub const VERSION_MINOR: u32 = 9;
/// Patch version of the driver.
pub const VERSION_PATCH: u32 = 8;

/// A version as one number: `major * 10000 + minor * 100 + patch`.
pub open spec fn spec_version(major: u32, minor: u32, patch: u32) -> int {
    major * 10000 + minor * 100 + patch
}

/// A version number reads back as its parts: two decimal digits each for
/// the minor and patch numbers, the major number above them; so versions
/// order as their parts do.
pub proof fn law_version_digits(major: u32, minor: u32, patch: u32)
    requires
        minor < 100,
        patch < 100,
    ensures
        spec_version(major, minor, patch) / 10000 == major,
        (spec_version(major, minor, patch) / 100) % 100 == minor,
        spec_version(major, minor, patch) % 100 == patch,
{
    let v = spec_version(major, minor, patch);
    assert(v == major * 10000 + (minor * 100 + patch));
    vstd::arithmetic::div_mod::lemma_fundamental_div_mod_converse(v, 10000, major as int, minor * 100 + patch);
    vstd::arithmetic::div_mod::lemma_fundamental_div_mod_converse(v, 100, major * 100 + minor, patch as int);
    vstd::arithmetic::div_mod::lemma_fundamental_div_mod_converse(
        major * 100 + minor,
        100,
        major as int,
        minor as int,
    );
}

/// Encode a version as one number.
pub fn version(major: u32, minor: u32, patch: u32) -> (v: u32)
    requires
        spec_version(major, minor, patch) <= u32::MAX,
    ensures
        v == spec_version(major, minor, patch),
{
    major * 10000 + minor * 100 + patch
}

/// Hardware actions that may be requested through `Rknpu::action`.
#[derive(Debug, Clone, Copy, PartialEq, Eq, Structural)]
pub enum RknpuAction {
    GetHwVersion,
    GetDrvVersion,
    GetFreq,
    SetFreq,
    GetVolt,
    SetVolt,
    ActReset,
    GetBwPriority,
    SetBwPriority,
    GetBwExpect,
    SetBwExpect,
    GetBwTw,
    SetBwTw,
    ActClrTotalRwAmount,
    GetDtWrAmount,
    GetDtRdAmount,
    GetWtRdAmount,
    GetTotalRwAmount,
    GetIommuEn,
    SetProcNice,
    PowerOn,
    PowerOff,
    GetTotalSramSize,
    GetFreeSramSize,
    GetIommuDomainId,
    SetIommuDomainId,
}

/// The action a wire code names, if any.
pub open spec fn spec_action_from_code(value: u32) -> Option<RknpuAction> {
    if value == 0 { Some(RknpuAction::GetHwVersion) }
    else if value == 1 { Some(RknpuAction::GetDrvVersion) }
    else if value == 2 { Some(RknpuAction::GetFreq) }
    else if value == 3 { Some(RknpuAction::SetFreq) }
    else if value == 4 { Some(RknpuAction::GetVolt) }
    else if value == 5 { Some(RknpuAction::SetVolt) }
    else if value == 6 { Some(RknpuAction::ActReset) }
    else if value == 7 { Some(RknpuAction::GetBwPriority) }
    else if value == 8 { Some(RknpuAction::SetBwPriority) }
    else if value == 9 { Some(RknpuAction::GetBwExpect) }
    else if value == 10 { Some(RknpuAction::SetBwExpect) }
    else if value == 11 { Some(RknpuAction::GetBwTw) }
    else if value == 12 { Some(RknpuAction::SetBwTw) }
    else if value == 13 { Some(RknpuAction::ActClrTotalRwAmount) }
    else if value == 14 { Some(RknpuAction::GetDtWrAmount) }
    else if value == 15 { Some(RknpuAction::GetDtRdAmount) }
    else if value == 16 { Some(RknpuAction::GetWtRdAmount) }
    else if value == 17 { Some(RknpuAction::GetTotalRwAmount) }
    else if value == 18 { Some(RknpuAction::GetIommuEn) }
    else if value == 19 { Some(RknpuAction::SetProcNice) }
    else if value == 20 { Some(RknpuAction::PowerOn) }
    else if value == 21 { Some(RknpuAction::PowerOff) }
    else if value == 22 { Some(RknpuAction::GetTotalSramSize) }
    else if value == 23 { Some(RknpuAction::GetFreeSramSize) }
    else if value == 24 { Some(RknpuAction::GetIommuDomainId) }
    else if value == 25 { Some(RknpuAction::SetIommuDomainId) }
    else { None }
}

/// The action codes run from 0 to 25 in the order of the driver's action
/// list, each naming its own action; codes from 26 on are refused.
pub proof fn law_action_codes(a: u32, b: u32)
    ensures
        spec_action_from_code(a) is Some <==> a < 26,
        spec_action_from_code(a) is Some && spec_action_from_code(a) == spec_action_from_code(b) ==> a
            == b,
        spec_action_from_code(0) == Some(RknpuAction::GetHwVersion),
        spec_action_from_code(1) == Some(RknpuAction::GetDrvVersion),
        spec_action_from_code(6) == Some(RknpuAction::ActReset),
        spec_action_from_code(13) == Some(RknpuAction::ActClrTotalRwAmount),
        spec_action_from_code(14) == Some(RknpuAction::GetDtWrAmount),
        spec_action_from_code(15) == Some(RknpuAction::GetDtRdAmount),
        spec_action_from_code(16) == Some(RknpuAction::GetWtRdAmount),
        spec_action_from_code(17) == Some(RknpuAction::GetTotalRwAmount),
        spec_action_from_code(18) == Some(RknpuAction::GetIommuEn),
        spec_action_from_code(22) == Some(RknpuAction::GetTotalSramSize),
        spec_action_from_code(23) == Some(RknpuAction::GetFreeSramSize),
        spec_action_from_code(24) == Some(RknpuAction::GetIommuDomainId),
        spec_action_from_code(25) == Some(RknpuAction::SetIommuDomainId),
{
}

impl RknpuAction {
    /// Decode a wire action code; codes past the last action are refused.
    pub fn try_from_code(value: u32) -> (r: Result<RknpuAction, ()>)
        ensures
            match spec_action_from_code(value) {
                Some(a) => r == Ok::<RknpuAction, ()>(a),
                None => r == Err::<RknpuAction, ()>(()),
            },
    {
        match value {
            0 => Ok(RknpuAction::GetHwVersion),
            1 => Ok(RknpuAction::GetDrvVersion),
            2 => Ok(RknpuAction::GetFreq),
            3 => Ok(RknpuAction::SetFreq),
            4 => Ok(RknpuAction::GetVolt),
            5 => Ok(RknpuAction::SetVolt),
            6 => Ok(RknpuAction::ActReset),
            7 => Ok(RknpuAction::GetBwPriority),
            8 => Ok(RknpuAction::SetBwPriority),
            9 => Ok(RknpuAction::GetBwExpect),
            10 => Ok(RknpuAction::SetBwExpect),
            11 => Ok(RknpuAction::GetBwTw),
            12 => Ok(RknpuAction::SetBwTw),
            13 => Ok(RknpuAction::ActClrTotalRwAmount),
            14 => Ok(RknpuAction::GetDtWrAmount),
            15 => Ok(RknpuAction::GetDtRdAmount),
            16 => Ok(RknpuAction::GetWtRdAmount),
            17 => Ok(RknpuAction::GetTotalRwAmount),
            18 => Ok(RknpuAction::GetIommuEn),
            19 => Ok(RknpuAction::SetProcNice),
            20 => Ok(RknpuAction::PowerOn),
            21 => Ok(RknpuAction::PowerOff),
            22 => Ok(RknpuAction::GetTotalSramSize),
            23 => Ok(RknpuAction::GetFreeSramSize),
            24 => Ok(RknpuAction::GetIommuDomainId),
            25 => Ok(RknpuAction::SetIommuDomainId),
            _ => Err(()),
        }
    }
}

impl core::convert::TryFrom<u32> for RknpuAction {
    type Error = ();

    /// Decode a wire action code; codes past the last action are refused.
    fn try_from(value: u32) -> (r: Result<RknpuAction, ()>)
        ensures
            match spec_action_from_code(value) {
                Some(a) => r == Ok::<RknpuAction, ()>(a),
                None => r == Err::<RknpuAction, ()>(()),
            },
    {
        RknpuAction::try_from_code(value)
    }
}

impl vstd::std_specs::convert::TryFromSpecImpl<u32> for RknpuAction {
    open spec fn obeys_try_from_spec() -> bool {
        true
    }

    open spec fn try_from_spec(v: u32) -> Result<RknpuAction, ()> {
        match spec_action_from_code(v) {
            Some(a) => Ok(a),
            None => Err(()),
        }
    }
}

/// `x * y`, or `u32::MAX` when the product does not fit.
pub open spec fn spec_sat_mul(x: u32, y: u32) -> u32 {
    if x * y > u32::MAX {
        u32::MAX
    } else {
        (x * y) as u32
    }
}

/// Saturating sums and products: the exact value when it fits in 32 bits,
/// `u32::MAX` otherwise; so they never fall below a summand, and do not
/// depend on the order of their operands.
pub proof fn law_saturating(x: u32, y: u32)
    ensures
        x + y <= u32::MAX ==> spec_sat_add(x, y) == x + y,
        x + y > u32::MAX ==> spec_sat_add(x, y) == u32::MAX,
        spec_sat_add(x, y) >= x && spec_sat_add(x, y) >= y,
        spec_sat_add(x, y) == spec_sat_add(y, x),
        x * y <= u32::MAX ==> spec_sat_mul(x, y) == x * y,
        x * y > u32::MAX ==> spec_sat_mul(x, y) == u32::MAX,
        spec_sat_mul(x, y) == spec_sat_mul(y, x),
{
    assert(x * y == y * x) by (nonlinear_arith);
}

/// `x + y`, or `u32::MAX` when the sum does not fit.
pub open spec fn spec_sat_add(x: u32, y: u32) -> u32 {
    if x + y > u32::MAX {
        u32::MAX
    } else {
        (x + y) as u32
    }
}

/// Saturating product.
fn sat_mul(x: u32, y: u32) -> (r: u32)
    ensures
        r == spec_sat_mul(x, y),
{
    match x.checked_mul(y) {
        Some(v) => v,
        None => u32::MAX,
    }
}

/// One traffic counter of core 0 scaled to bytes, plus the per-core counter
/// when there is one, saturating.
pub open spec fn spec_counter(w: Seq<u8>, top_offset: u16, core_offset: Option<u16>, scale: u32) -> u32 {
    let top = spec_sat_mul(window_word(w, top_offset as int), scale);
    match core_offset {
        Some(o) => spec_sat_add(top, spec_sat_mul(window_word(w, o as int), scale)),
        None => top,
    }
}

/// The traffic counters offsets lie inside the register window.
pub open spec fn amount_in_window(a: Option<RknpuAmountData>) -> bool {
    match a {
        Some(d) => d.offset_clr_all <= 0xfffc && d.offset_dt_wr <= 0xfffc && d.offset_dt_rd <= 0xfffc
            && d.offset_wt_rd <= 0xfffc,
        None => true,
    }
}

/// The driver handle of one device: one register window per visible core,
/// the variant data, the IOMMU settings and the state shared with the IRQ
/// path.
pub struct Rknpu {
    /// One core per visible register window; core `i` has slot `i`.
    pub base: Vec<RknpuCore>,
    /// Static configuration.
    pub config: RknpuConfig,
    /// Variant-specific data.
    pub data: RknpuData,
    /// Whether an IOMMU sits between the NPU and memory.
    pub iommu_enabled: bool,
    /// Logical IOMMU domain exposed through the action interface.
    pub iommu_domain_id: i32,
    /// Bindings and snapshots shared with the IRQ path.
    pub shared: RknpuSharedState,
    /// DMA buffers handed to userspace.
    pub gem: crate::gem::GemPool,
}

/// Wrap the bits of `value` as a signed number.
fn reinterpret_i32(value: u32) -> (r: i32)
    ensures
        r == value as i32,
{
    value as i32
}

impl Rknpu {
    /// Every window is a full register file with its own slot, the data can
    /// program the PC, and the shared state is consistent.
    pub open spec fn wf(&self) -> bool {
        &&& forall|i: int| 0 <= i < self.base@.len() ==> (#[trigger] self.base@[i]).wf() && self.base@[i].core_slot == i
        &&& self.base@.len() <= 255
        &&& self.data.wf()
        &&& self.shared.wf()
        &&& self.gem.wf()
        &&& amount_in_window(self.data.amount_top)
        &&& amount_in_window(self.data.amount_core)
    }

    /// A driver with `core_count` zeroed register windows.
    pub fn new(core_count: usize, config: RknpuConfig) -> (npu: Rknpu)
        requires
            core_count <= 255,
        ensures
            npu.wf(),
            npu.base@.len() == core_count,
            npu.config == config,
            npu.data.is_rk3588(),
            !npu.iommu_enabled,
            npu.iommu_domain_id == 0,
            forall|i: int| 0 <= i < core_count ==> #[trigger] npu.base@[i].irq_status == 0,
            forall|i: int, j: int|
                0 <= i < core_count && 0 <= j < MMIO_WINDOW_LEN ==> #[trigger] npu.base@[i].mmio@[j] == 0,
            forall|i: int| 0 <= i < NPU_MAX_CORES ==> #[trigger] npu.shared.active_bindings@[i] is None,
            npu.shared.task_npu_state@.len() == 0,
            npu.gem.pool@.len() == 0,
            npu.gem.handle_counter == 1,
    {
        let data = RknpuData::new(config.rknpu_type);
        let mut base: Vec<RknpuCore> = Vec::new();
        let mut slot: usize = 0;
        while slot < core_count
            invariant
                slot <= core_count <= 255,
                base@.len() == slot,
                forall|i: int| 0 <= i < slot ==> (#[trigger] base@[i]).wf() && base@[i].core_slot == i
                    && base@[i].irq_status == 0,
                forall|i: int, j: int|
                    0 <= i < slot && 0 <= j < MMIO_WINDOW_LEN ==> #[trigger] base@[i].mmio@[j] == 0,
            decreases core_count - slot,
        {
            base.push(RknpuCore::new(slot as u8));
            slot = slot + 1;
        }
        Rknpu {
            base,
            config,
            data,
            iommu_enabled: false,
            iommu_domain_id: 0,
            shared: RknpuSharedState::new(),
            gem: crate::gem::GemPool::new(),
        }
    }

    /// Open the device.
    pub fn open(&mut self) -> (r: Result<(), RknpuError>)
        ensures
            r is Ok,
            *final(self) == *old(self),
    {
        Ok(())
    }

    /// Hardware version read from core 0.
    pub fn get_hw_version(&self) -> (v: u32)
        requires
            self.wf(),
            self.base@.len() > 0,
        ensures
            v as int == (window_word(self.base@[0].mmio@, 0x0) as int + (window_word(self.base@[0].mmio@, 0x4)
                & 0xffff) as int) % 0x1_0000_0000,
    {
        self.base[0].version()
    }

    /// Whether an IOMMU is enabled.
    pub fn is_iommu_enabled(&self) -> (b: bool)
        ensures
            b == self.iommu_enabled,
    {
        self.iommu_enabled
    }

    /// Enable or disable the IOMMU.
    pub fn set_iommu_enabled(&mut self, enabled: bool)
        ensures
            *final(self) == (Rknpu { iommu_enabled: enabled, ..*old(self) }),
    {
        self.iommu_enabled = enabled;
    }

    /// The traffic counters of core 0 as `(data write, data read, weight
    /// read)` bytes; all zero when the variant has no counters.
    pub open spec fn spec_rw_amounts(&self) -> (u32, u32, u32) {
        match self.data.amount_top {
            None => (0, 0, 0),
            Some(top) => {
                let core = self.data.amount_core;
                let w = self.base@[0].mmio@;
                let s = self.data.pc_data_amount_scale;
                (
                    spec_counter(w, top.offset_dt_wr, match core { Some(c) => Some(c.offset_dt_wr), None => None }, s),
                    spec_counter(w, top.offset_dt_rd, match core { Some(c) => Some(c.offset_dt_rd), None => None }, s),
                    spec_counter(w, top.offset_wt_rd, match core { Some(c) => Some(c.offset_wt_rd), None => None }, s),
                )
            },
        }
    }

    /// Read the traffic counters of core 0.
    pub fn get_rw_amount(&self) -> (r: Result<(u32, u32, u32), RknpuError>)
        requires
            self.wf(),
            self.data.amount_top is Some ==> self.base@.len() > 0,
        ensures
            r == Ok::<(u32, u32, u32), RknpuError>(self.spec_rw_amounts()),
    {
        match self.data.amount_top {
            None => Ok((0, 0, 0)),
            Some(top) => {
                let core = self.data.amount_core;
                let wr = self.read_counter(top.offset_dt_wr, match core { Some(c) => Some(c.offset_dt_wr), None => None });
                let rd = self.read_counter(top.offset_dt_rd, match core { Some(c) => Some(c.offset_dt_rd), None => None });
                let wt = self.read_counter(top.offset_wt_rd, match core { Some(c) => Some(c.offset_wt_rd), None => None });
                Ok((wr, rd, wt))
            },
        }
    }

    /// The register at `offset` of core `core_slot`.
    fn read_core_u32(&self, core_slot: usize, offset: u16) -> (v: u32)
        requires
            self.wf(),
            core_slot < self.base@.len(),
            offset <= 0xfffc,
        ensures
            v == window_word(self.base@[core_slot as int].mmio@, offset as int),
    {
        self.base[core_slot].read_mmio_u32(offset)
    }

    /// One scaled traffic counter of core 0.
    fn read_counter(&self, top_offset: u16, core_offset: Option<u16>) -> (v: u32)
        requires
            self.wf(),
            self.base@.len() > 0,
            top_offset <= 0xfffc,
            core_offset is Some ==> core_offset.unwrap() <= 0xfffc,
        ensures
            v == spec_counter(self.base@[0].mmio@, top_offset, core_offset, self.data.pc_data_amount_scale),
    {
        let scale = self.data.pc_data_amount_scale;
        let top = sat_mul(self.read_core_u32(0, top_offset), scale);
        match core_offset {
            Some(o) => top.saturating_add(sat_mul(self.read_core_u32(0, o), scale)),
            None => top,
        }
    }

    /// Sum of the three traffic counters, saturating; zero without counters.
    pub open spec fn spec_total_rw_amount(&self) -> u32 {
        let (wr, rd, wt) = self.spec_rw_amounts();
        spec_sat_add(spec_sat_add(wr, rd), wt)
    }

    /// Sum of the three traffic counters, saturating; zero without counters.
    pub fn get_total_rw_amount(&self) -> (r: Result<u32, RknpuError>)
        requires
            self.wf(),
            self.data.amount_top is Some ==> self.base@.len() > 0,
        ensures
            r == Ok::<u32, RknpuError>(self.spec_total_rw_amount()),
    {
        if self.data.amount_top.is_none() {
            return Ok(0);
        }
        match self.get_rw_amount() {
            Ok((wr, rd, wt)) => Ok(wr.saturating_add(rd).saturating_add(wt)),
            Err(e) => Err(e),
        }
    }
}


/// The completions published by the first `n` cores, in core order: one per
/// core whose `irq_status` is non-zero.
pub open spec fn spec_harvested(cores: Seq<RknpuCore>, n: nat) -> Seq<CoreCompletion>
    decreases n,
{
    if n == 0 {
        Seq::empty()
    } else {
        let prev = spec_harvested(cores, (n - 1) as nat);
        if cores[n - 1].irq_status != 0 {
            prev.push(CoreCompletion { core_slot: (n - 1) as u8, observed_irq_status: cores[n - 1].irq_status })
        } else {
            prev
        }
    }
}

/// Number of cores the completion path looks at.
pub open spec fn harvest_span(len: nat) -> nat {
    if len < NPU_MAX_CORES {
        len
    } else {
        NPU_MAX_CORES as nat
    }
}

/// Each core's interrupts were cleared and drained and its published status
/// reset: its window is the one `INTERRUPT_CLEAR` leaves, with nothing left
/// pending, and everything else is unchanged; no IRQ is recorded, since a
/// cleared status fuzzes to zero.
pub open spec fn reset_done(before: Rknpu, after: Rknpu) -> bool {
    &&& after.wf()
    &&& after.base@.len() == before.base@.len()
    &&& forall|i: int| 0 <= i < after.base@.len() ==> (#[trigger] after.base@[i]).irq_status == 0
        && after.base@[i].core_slot == before.base@[i].core_slot
        && after.base@[i].mmio@ == interrupt_cleared(before.base@[i].mmio@, INT_CLEAR_ALL)
        && spec_fuzz_status(window_word(after.base@[i].mmio@, 0x28)) == 0
    &&& after.config == before.config
    &&& after.data == before.data
    &&& after.iommu_enabled == before.iommu_enabled
    &&& after.iommu_domain_id == before.iommu_domain_id
    &&& after.shared.active_bindings@ == before.shared.active_bindings@
    &&& after.shared.task_npu_state@ == before.shared.task_npu_state@
    &&& after.gem == before.gem
}

/// Interrupt handler of one core, for the platform's IRQ table.
#[derive(Debug, Clone, Copy, PartialEq, Eq, Structural)]
pub struct RknpuIrqHandler {
    /// Slot of the core this handler serves.
    pub core_slot: usize,
}

/// The device after core `c` took an IRQ whose status fuzzed to `fuzzed`:
/// the core's window is what the IRQ leaves, its published status gains
/// `fuzzed`, the IRQ is recorded in the shared states as `irq_effect`
/// describes, and everything else is unchanged.
pub open spec fn core_irq_taken(before: Rknpu, after: Rknpu, c: int, fuzzed: u32) -> bool {
    let old_core = before.base@[c];
    let binding = before.shared.binding_of(c);
    &&& after.wf()
    &&& fuzzed == spec_fuzz_status(window_word(old_core.mmio@, 0x28))
    &&& after.base@.len() == before.base@.len()
    &&& after.base@[c].core_slot == old_core.core_slot
    &&& after.base@[c].mmio@ == irq_taken_window(
        old_core.mmio@,
        before.shared.task_npu_state@,
        binding,
        after.shared.task_npu_state@,
    )
    &&& window_word(after.base@[c].mmio@, 0x28) == window_word(old_core.mmio@, 0x28) & !INT_CLEAR_ALL
    &&& after.base@[c].irq_status == (if fuzzed != 0 {
        old_core.irq_status | fuzzed
    } else {
        old_core.irq_status
    })
    &&& forall|j: int| 0 <= j < before.base@.len() && j != c ==> #[trigger] after.base@[j] == before.base@[j]
    &&& after.config == before.config
    &&& after.data == before.data
    &&& after.iommu_enabled == before.iommu_enabled
    &&& after.iommu_domain_id == before.iommu_domain_id
    &&& after.gem == before.gem
    &&& after.shared.active_bindings@ == before.shared.active_bindings@
    &&& irq_effect(
        before.shared.task_npu_state@,
        after.shared.task_npu_state@,
        binding,
        fuzzed,
        spec_register_snapshot(old_core.mmio@),
    )
}

impl RknpuIrqHandler {
    /// Take the IRQ of the handler's core; returns the fuzzed status.
    pub fn handle(&self, npu: &mut Rknpu) -> (fuzzed: u32)
        requires
            old(npu).wf(),
            self.core_slot < old(npu).base@.len(),
        ensures
            core_irq_taken(*old(npu), *final(npu), self.core_slot as int, fuzzed),
            !irq_records(old(npu).shared.task_npu_state@, old(npu).shared.binding_of(self.core_slot as int), fuzzed)
                ==> final(npu).base@[self.core_slot as int].mmio@ == interrupt_cleared(
                old(npu).base@[self.core_slot as int].mmio@,
                INT_CLEAR_ALL,
            ),
    {
        npu.handle_core_interrupt(self.core_slot)
    }
}

impl Rknpu {
    /// Take the IRQ of one core.
    pub fn handle_core_interrupt(&mut self, core_slot: usize) -> (fuzzed: u32)
        requires
            old(self).wf(),
            core_slot < old(self).base@.len(),
        ensures
            core_irq_taken(*old(self), *final(self), core_slot as int, fuzzed),
            !irq_records(old(self).shared.task_npu_state@, old(self).shared.binding_of(core_slot as int), fuzzed)
                ==> final(self).base@[core_slot as int].mmio@ == interrupt_cleared(
                old(self).base@[core_slot as int].mmio@,
                INT_CLEAR_ALL,
            ),
    {
        let fuzzed = self.base[core_slot].handle_interrupt(&mut self.shared);
        proof {
            assert forall|i: int| 0 <= i < self.base@.len() implies (#[trigger] self.base@[i]).wf()
                && self.base@[i].core_slot == i by {
                if i != core_slot {
                    assert(self.base@[i] == old(self).base@[i]);
                }
            }
        }
        fuzzed
    }

    /// Take the IRQ of core 0.
    pub fn handle_interrupt0(&mut self) -> (fuzzed: u32)
        requires
            old(self).wf(),
            old(self).base@.len() > 0,
        ensures
            core_irq_taken(*old(self), *final(self), 0, fuzzed),
    {
        self.handle_core_interrupt(0)
    }

    /// A handler for the IRQ of core `core_idx`.
    pub fn new_irq_handler(&self, core_idx: usize) -> (h: RknpuIrqHandler)
        requires
            core_idx < self.base@.len(),
        ensures
            h.core_slot == core_idx,
    {
        RknpuIrqHandler { core_slot: core_idx }
    }

    /// Collect the status each of the first three cores published and reset
    /// it; one completion per core whose status was non-zero, in core order.
    pub fn harvest_completed_dispatches(&mut self) -> (completed: Vec<CoreCompletion>)
        requires
            old(self).wf(),
        ensures
            final(self).wf(),
            completed@ == spec_harvested(old(self).base@, harvest_span(old(self).base@.len())),
            final(self).base@.len() == old(self).base@.len(),
            forall|i: int| 0 <= i < old(self).base@.len() ==> (#[trigger] final(self).base@[i]).mmio@ == old(
                self,
            ).base@[i].mmio@ && final(self).base@[i].core_slot == old(self).base@[i].core_slot,
            forall|i: int| 0 <= i < harvest_span(old(self).base@.len()) ==> (#[trigger] final(self).base@[i]).irq_status == 0,
            forall|i: int|
                harvest_span(old(self).base@.len()) <= i < old(self).base@.len() ==> (#[trigger] final(self).base@[i]).irq_status
                    == old(self).base@[i].irq_status,
            final(self).config == old(self).config,
            final(self).data == old(self).data,
            final(self).shared == old(self).shared,
            final(self).iommu_enabled == old(self).iommu_enabled,
            final(self).iommu_domain_id == old(self).iommu_domain_id,
            final(self).gem == old(self).gem,
    {
        let mut completed: Vec<CoreCompletion> = Vec::new();
        let n: usize = if self.base.len() < NPU_MAX_CORES { self.base.len() } else { NPU_MAX_CORES };
        let mut slot: usize = 0;
        while slot < n
            invariant
                n == harvest_span(old(self).base@.len()),
                slot <= n <= self.base@.len(),
                self.base@.len() == old(self).base@.len(),
                self.wf(),
                completed@ == spec_harvested(old(self).base@, slot as nat),
                forall|i: int| 0 <= i < old(self).base@.len() ==> (#[trigger] self.base@[i]).mmio@ == old(
                    self,
                ).base@[i].mmio@ && self.base@[i].core_slot == old(self).base@[i].core_slot,
                forall|i: int| 0 <= i < slot ==> (#[trigger] self.base@[i]).irq_status == 0,
                forall|i: int| slot <= i < old(self).base@.len() ==> (#[trigger] self.base@[i]).irq_status
                    == old(self).base@[i].irq_status,
                self.config == old(self).config,
                self.data == old(self).data,
                self.shared == old(self).shared,
                self.iommu_enabled == old(self).iommu_enabled,
                self.iommu_domain_id == old(self).iommu_domain_id,
                self.gem == old(self).gem,
            decreases n - slot,
        {
            let irq_status = self.base[slot].irq_status;
            self.base[slot].irq_status = 0;
            if irq_status != 0 {
                completed.push(CoreCompletion { core_slot: slot as u8, observed_irq_status: irq_status });
            }
            slot = slot + 1;
        }
        completed
    }

    /// Best-effort reset: clear and drain every core's interrupts and reset
    /// its published status.
    pub fn soft_reset(&mut self) -> (r: Result<(), RknpuError>)
        requires
            old(self).wf(),
        ensures
            r is Ok,
            reset_done(*old(self), *final(self)),
    {
        let mut i: usize = 0;
        while i < self.base.len()
            invariant
                i <= self.base@.len() == old(self).base@.len(),
                self.wf(),
                forall|j: int| 0 <= j < i ==> (#[trigger] self.base@[j]).irq_status == 0
                    && self.base@[j].core_slot == old(self).base@[j].core_slot
                    && self.base@[j].mmio@ == interrupt_cleared(old(self).base@[j].mmio@, INT_CLEAR_ALL)
                    && spec_fuzz_status(window_word(self.base@[j].mmio@, 0x28)) == 0,
                forall|j: int| i <= j < self.base@.len() ==> #[trigger] self.base@[j] == old(self).base@[j],
                self.config == old(self).config,
                self.data == old(self).data,
                self.iommu_enabled == old(self).iommu_enabled,
                self.iommu_domain_id == old(self).iommu_domain_id,
                self.shared.active_bindings@ == old(self).shared.active_bindings@,
                self.shared.task_npu_state@ == old(self).shared.task_npu_state@,
                self.gem == old(self).gem,
            decreases self.base@.len() - i,
        {
            let ghost before = self.base@;
            self.base[i].clean_interrupts();
            proof {
                lemma_cleared_status_fuzzes_to_zero(window_word(before[i as int].mmio@, 0x28));
                lemma_cleared_reads(before[i as int].mmio@, INT_CLEAR_ALL);
                lemma_clear_idempotent(before[i as int].mmio@, INT_CLEAR_ALL);
            }
            self.base[i].drain_pending_interrupts(&mut self.shared);
            self.base[i].irq_status = 0;
            proof {
                assert forall|j: int| 0 <= j < self.base@.len() implies (#[trigger] self.base@[j]).wf()
                    && self.base@[j].core_slot == j by {
                    if j != i {
                        assert(self.base@[j] == before[j]);
                    }
                }
                assert forall|j: int| 0 <= j < i + 1 implies (#[trigger] self.base@[j]).irq_status == 0
                    && self.base@[j].core_slot == old(self).base@[j].core_slot
                    && self.base@[j].mmio@ == interrupt_cleared(old(self).base@[j].mmio@, INT_CLEAR_ALL)
                    && spec_fuzz_status(window_word(self.base@[j].mmio@, 0x28)) == 0 by {
                    if j != i {
                        assert(self.base@[j] == before[j]);
                    }
                }
                assert forall|j: int| i + 1 <= j < self.base@.len() implies #[trigger] self.base@[j] == old(self).base@[j] by {
                    assert(self.base@[j] == before[j]);
                }
            }
            i = i + 1;
        }
        Ok(())
    }
}

/// Only core 0's window changed, and nothing but windows changed.
pub open spec fn only_core0_window_changed(before: Rknpu, after: Rknpu) -> bool {
    &&& after.wf()
    &&& after.base@.len() == before.base@.len()
    &&& forall|j: int| 1 <= j < before.base@.len() ==> #[trigger] after.base@[j] == before.base@[j]
    &&& after.base@[0].core_slot == before.base@[0].core_slot
    &&& after.base@[0].irq_status == before.base@[0].irq_status
    &&& after.config == before.config
    &&& after.data == before.data
    &&& after.iommu_enabled == before.iommu_enabled
    &&& after.iommu_domain_id == before.iommu_domain_id
    &&& after.shared == before.shared
    &&& after.gem == before.gem
}

/// Two registers do not overlap.
pub open spec fn apart(a: int, b: int) -> bool {
    a + 4 <= b || b + 4 <= a
}

/// Window `w` after pulsing the clear register at `offset`: `0x80000101`,
/// then `0x101`.
pub open spec fn pulsed(w: Seq<u8>, offset: int) -> Seq<u8> {
    window_store(window_store(w, offset, 0x8000_0101), offset, 0x101)
}

/// Core 0's window after clearing the counters whose top clear register is
/// at `top_clr`: on variants with legacy DMA control one is first stored at
/// the word the PC base address names; then the top clear register is
/// pulsed, then the core clear register if there is one.
pub open spec fn counters_cleared_window(before: Rknpu, top_clr: int) -> Seq<u8> {
    let w0 = before.base@[0].mmio@;
    let w1 = if before.data.pc_dma_ctrl > 0 {
        window_store(w0, window_word(w0, 0x10) as int, 1)
    } else {
        w0
    };
    let w2 = pulsed(w1, top_clr);
    match before.data.amount_core {
        Some(core) => pulsed(w2, core.offset_clr_all as int),
        None => w2,
    }
}

/// The traffic counters were cleared: each clear register was pulsed and
/// ends at `0x101`, and on variants with legacy DMA control the word the PC
/// base address points at was set to one first. Without counters nothing
/// changes.
pub open spec fn counters_cleared(before: Rknpu, after: Rknpu) -> bool {
    match before.data.amount_top {
        None => after == before,
        Some(top) => {
            let w = after.base@[0].mmio@;
            let pc_addr = window_word(before.base@[0].mmio@, 0x10) as int;
            &&& only_core0_window_changed(before, after)
            &&& w == counters_cleared_window(before, top.offset_clr_all as int)
            &&& match before.data.amount_core {
                None => window_word(w, top.offset_clr_all as int) == 0x101,
                Some(core) => {
                    &&& window_word(w, core.offset_clr_all as int) == 0x101
                    &&& (core.offset_clr_all == top.offset_clr_all || apart(
                        core.offset_clr_all as int,
                        top.offset_clr_all as int,
                    )) ==> window_word(w, top.offset_clr_all as int) == 0x101
                },
            }
            &&& (before.data.pc_dma_ctrl > 0 && apart(pc_addr, top.offset_clr_all as int) && (
            before.data.amount_core is Some ==> apart(
                pc_addr,
                before.data.amount_core.unwrap().offset_clr_all as int,
            ))) ==> window_word(w, pc_addr) == 1
        },
    }
}

impl Rknpu {
    /// Write a register of core 0.
    fn write_core0(&mut self, offset: u16, value: u32)
        requires
            old(self).wf(),
            old(self).base@.len() > 0,
            offset <= 0xfffc,
        ensures
            only_core0_window_changed(*old(self), *final(self)),
            final(self).base@[0].mmio@ == window_store(old(self).base@[0].mmio@, offset as int, value),
            window_word(final(self).base@[0].mmio@, offset as int) == value,
            forall|o: int|
                0 <= o && o + 4 <= MMIO_WINDOW_LEN && apart(o, offset as int) ==> #[trigger] window_word(
                    final(self).base@[0].mmio@,
                    o,
                ) == window_word(old(self).base@[0].mmio@, o),
    {
        self.base[0].write_reg_keeping(offset, value);
        proof {
            assert forall|j: int| 0 <= j < self.base@.len() implies (#[trigger] self.base@[j]).wf()
                && self.base@[j].core_slot == j by {
                if j != 0 {
                    assert(self.base@[j] == old(self).base@[j]);
                }
            }
        }
    }

    /// Pulse a counter clear register: `0x80000101`, then `0x101`.
    fn pulse_clear(&mut self, offset: u16)
        requires
            old(self).wf(),
            old(self).base@.len() > 0,
            offset <= 0xfffc,
        ensures
            only_core0_window_changed(*old(self), *final(self)),
            final(self).base@[0].mmio@ == pulsed(old(self).base@[0].mmio@, offset as int),
            window_word(final(self).base@[0].mmio@, offset as int) == 0x101,
            forall|o: int|
                0 <= o && o + 4 <= MMIO_WINDOW_LEN && apart(o, offset as int) ==> #[trigger] window_word(
                    final(self).base@[0].mmio@,
                    o,
                ) == window_word(old(self).base@[0].mmio@, o),
    {
        self.write_core0(offset, 0x80000101);
        self.write_core0(offset, 0x00000101);
    }

    /// Clear the hardware traffic counters.
    pub fn clear_rw_amount(&mut self) -> (r: Result<(), RknpuError>)
        requires
            old(self).wf(),
            old(self).data.amount_top is Some ==> old(self).base@.len() > 0,
            old(self).data.amount_top is Some && old(self).data.pc_dma_ctrl > 0 ==> window_word(
                old(self).base@[0].mmio@,
                0x10,
            ) <= 0xfffc,
        ensures
            r is Ok,
            counters_cleared(*old(self), *final(self)),
    {
        let top = match self.data.amount_top {
            None => { return Ok(()); },
            Some(t) => t,
        };
        if self.data.pc_dma_ctrl > 0 {
            let pc_data_addr = self.base[0].read_mmio_u32(crate::registers::PC_BASE_ADDRESS_OFFSET);
            self.write_core0(pc_data_addr as u16, 1);
        }
        self.pulse_clear(top.offset_clr_all);
        if let Some(core) = self.data.amount_core {
            self.pulse_clear(core.offset_clr_all);
        }
        Ok(())
    }
}

/// The actions that need platform integration this driver does not have.
pub open spec fn unsupported_action(action: RknpuAction) -> bool {
    action == RknpuAction::GetFreq || action == RknpuAction::SetFreq || action == RknpuAction::GetVolt
        || action == RknpuAction::SetVolt || action == RknpuAction::GetBwPriority || action
        == RknpuAction::SetBwPriority || action == RknpuAction::GetBwExpect || action
        == RknpuAction::SetBwExpect || action == RknpuAction::GetBwTw || action == RknpuAction::SetBwTw
        || action == RknpuAction::PowerOn || action == RknpuAction::PowerOff
}

/// Hardware version of core 0.
pub open spec fn spec_hw_version(npu: Rknpu) -> u32 {
    ((window_word(npu.base@[0].mmio@, 0x0) as int + (window_word(npu.base@[0].mmio@, 0x4) & 0xffff) as int)
        % 0x1_0000_0000) as u32
}

/// The actions that read core 0's traffic counters.
pub open spec fn reads_traffic_counters(a: RknpuAction) -> bool {
    a == RknpuAction::ActClrTotalRwAmount || a == RknpuAction::GetDtWrAmount || a
        == RknpuAction::GetDtRdAmount || a == RknpuAction::GetWtRdAmount || a
        == RknpuAction::GetTotalRwAmount
}

/// Whether `a` reads core 0's traffic counters.
pub fn action_reads_traffic_counters(a: RknpuAction) -> (b: bool)
    ensures
        b == reads_traffic_counters(a),
{
    match a {
        RknpuAction::ActClrTotalRwAmount | RknpuAction::GetDtWrAmount | RknpuAction::GetDtRdAmount
        | RknpuAction::GetWtRdAmount | RknpuAction::GetTotalRwAmount => true,
        _ => false,
    }
}

/// What `action` with `value` does: its result `r` and the device `after`
/// it leaves of the device `before`.
pub open spec fn action_outcome(
    before: Rknpu,
    action: RknpuAction,
    value: u32,
    r: Result<u32, RknpuError>,
    after: Rknpu,
) -> bool {
    &&& unsupported_action(action) ==> r == Err::<u32, RknpuError>(RknpuError::NotSupported) && after == before
    &&& action == RknpuAction::GetHwVersion ==> r == Ok::<u32, RknpuError>(spec_hw_version(before)) && after == before
    &&& action == RknpuAction::GetDrvVersion ==> r == Ok::<u32, RknpuError>(908) && after == before
    &&& action == RknpuAction::ActReset ==> r == Ok::<u32, RknpuError>(0) && reset_done(before, after)
    &&& action == RknpuAction::ActClrTotalRwAmount ==> r == Ok::<u32, RknpuError>(0) && counters_cleared(before, after)
    &&& action == RknpuAction::GetDtWrAmount ==> r == Ok::<u32, RknpuError>(before.spec_rw_amounts().0) && after == before
    &&& action == RknpuAction::GetDtRdAmount ==> r == Ok::<u32, RknpuError>(before.spec_rw_amounts().1) && after == before
    &&& action == RknpuAction::GetWtRdAmount ==> r == Ok::<u32, RknpuError>(before.spec_rw_amounts().2) && after == before
    &&& action == RknpuAction::GetTotalRwAmount ==> r == Ok::<u32, RknpuError>(before.spec_total_rw_amount()) && after == before
    &&& action == RknpuAction::GetIommuEn ==> r == Ok::<u32, RknpuError>(if before.iommu_enabled { 1 } else { 0 }) && after == before
    &&& action == RknpuAction::SetProcNice ==> r == Ok::<u32, RknpuError>(0) && after == before
    &&& action == RknpuAction::GetTotalSramSize || action == RknpuAction::GetFreeSramSize ==> r == Ok::<u32, RknpuError>(before.data.nbuf_size as u32) && after == before
    &&& action == RknpuAction::GetIommuDomainId ==> r == Ok::<u32, RknpuError>(before.iommu_domain_id as u32) && after == before
    &&& action == RknpuAction::SetIommuDomainId && 0 <= (value as i32) < 16 ==> r == Ok::<u32, RknpuError>(0) && after == (Rknpu { iommu_domain_id: value as i32, ..before })
    &&& action == RknpuAction::SetIommuDomainId && !(0 <= (value as i32) < 16) ==> r == Err::<u32, RknpuError>(RknpuError::InvalidParameter) && after == before
}

impl Rknpu {
    /// Run a management action. Returns the value the action reads, zero
    /// for the actions that only act, `NotSupported` for those that need
    /// platform integration, and `InvalidParameter` for a domain id outside
    /// `0..16`.
    pub fn action(&mut self, action: RknpuAction, value: u32) -> (r: Result<u32, RknpuError>)
        requires
            old(self).wf(),
            action == RknpuAction::GetHwVersion ==> old(self).base@.len() > 0,
            reads_traffic_counters(action) && old(self).data.amount_top is Some ==> old(self).base@.len()
                > 0,
            action == RknpuAction::ActClrTotalRwAmount && old(self).data.amount_top is Some && old(
                self,
            ).data.pc_dma_ctrl > 0 ==> window_word(old(self).base@[0].mmio@, 0x10) <= 0xfffc,
        ensures
            action_outcome(*old(self), action, value, r, *final(self)),
    {
        match action {
            RknpuAction::GetHwVersion => Ok(self.get_hw_version()),
            RknpuAction::GetDrvVersion => Ok(version(VERSION_MAJOR, VERSION_MINOR, VERSION_PATCH)),
            RknpuAction::GetFreq | RknpuAction::SetFreq | RknpuAction::GetVolt | RknpuAction::SetVolt
            | RknpuAction::GetBwPriority | RknpuAction::SetBwPriority | RknpuAction::GetBwExpect
            | RknpuAction::SetBwExpect | RknpuAction::GetBwTw | RknpuAction::SetBwTw
            | RknpuAction::PowerOn | RknpuAction::PowerOff => Err(RknpuError::NotSupported),
            RknpuAction::ActReset => {
                match self.soft_reset() {
                    Ok(()) => Ok(0),
                    Err(e) => Err(e),
                }
            },
            RknpuAction::ActClrTotalRwAmount => {
                match self.clear_rw_amount() {
                    Ok(()) => Ok(0),
                    Err(e) => Err(e),
                }
            },
            RknpuAction::GetDtWrAmount => {
                match self.get_rw_amount() {
                    Ok((wr, _, _)) => Ok(wr),
                    Err(e) => Err(e),
                }
            },
            RknpuAction::GetDtRdAmount => {
                match self.get_rw_amount() {
                    Ok((_, rd, _)) => Ok(rd),
                    Err(e) => Err(e),
                }
            },
            RknpuAction::GetWtRdAmount => {
                match self.get_rw_amount() {
                    Ok((_, _, wt)) => Ok(wt),
                    Err(e) => Err(e),
                }
            },
            RknpuAction::GetTotalRwAmount => self.get_total_rw_amount(),
            RknpuAction::GetIommuEn => Ok(if self.iommu_enabled { 1 } else { 0 }),
            RknpuAction::SetProcNice => Ok(0),
            RknpuAction::GetTotalSramSize => Ok(self.data.nbuf_size as u32),
            RknpuAction::GetFreeSramSize => Ok(self.data.nbuf_size as u32),
            RknpuAction::GetIommuDomainId => Ok(self.iommu_domain_id as u32),
            RknpuAction::SetIommuDomainId => {
                let domain_id = reinterpret_i32(value);
                if !(0 <= domain_id && domain_id < 16) {
                    return Err(RknpuError::InvalidParameter);
                }
                self.iommu_domain_id = domain_id;
                Ok(0)
            },
        }
    }
}

/// Size in bytes of one `RknpuTask` descriptor.
pub const RKNPU_TASK_SIZE: u64 = 40;

/// DMA address of task `task_index` of the descriptor array at
/// `task_dma_base`; a zero base stays zero.
pub open spec fn spec_task_dma_addr(task_dma_base: u64, task_index: u32) -> int {
    if task_dma_base == 0 {
        0
    } else {
        task_dma_base + task_index * RKNPU_TASK_SIZE
    }
}

/// Task descriptors lie 40 bytes apart from the array's DMA base: the first
/// at the base, each next one 40 bytes on; a zero base stays zero for
/// every task.
pub proof fn law_task_dma_addresses(base: u64, i: u32)
    ensures
        spec_task_dma_addr(base, 0) == base,
        base != 0 ==> spec_task_dma_addr(base, (i + 1) as u32) - spec_task_dma_addr(base, i) == 40
            || i == u32::MAX,
        base == 0 ==> spec_task_dma_addr(base, i) == 0,
{
}

/// The arguments of one dispatch step are refused.
pub open spec fn step_rejected(npu: Rknpu, core_slot: usize, task_total: u32, task_index: u32) -> bool {
    core_slot >= npu.base@.len() || task_total == 0 || task_index >= task_total
}

impl Rknpu {
    /// Dispatch one task to one core without waiting for it: reject a core
    /// past the last, an empty submit or a task index past its end with
    /// `InvalidParameter`; otherwise reset the task's status, drain the
    /// core's stale interrupts and program it with the task.
    pub fn submit_ioctrl_step(
        &mut self,
        core_slot: usize,
        submit_flags: u32,
        task_total: u32,
        task_dma_base: u64,
        subcore_slot: u8,
        task_index: u32,
        task: &mut RknpuTask,
    ) -> (r: Result<(), RknpuError>)
        requires
            old(self).wf(),
            spec_task_dma_addr(task_dma_base, task_index) <= u64::MAX,
            old(task).regcfg_amount + crate::registers::RKNPU_PC_DATA_EXTRA_AMOUNT <= u32::MAX,
        ensures
            step_rejected(*old(self), core_slot, task_total, task_index) ==> r == Err::<(), RknpuError>(
                RknpuError::InvalidParameter,
            ) && *final(self) == *old(self) && *final(task) == *old(task),
            !step_rejected(*old(self), core_slot, task_total, task_index) ==> {
                &&& r is Ok
                &&& *final(task) == (RknpuTask { int_status: 0, ..*old(task) })
                &&& final(self).wf()
                &&& final(self).base@.len() == old(self).base@.len()
                &&& forall|j: int| 0 <= j < old(self).base@.len() && j != core_slot ==> #[trigger] final(self).base@[j]
                    == old(self).base@[j]
                &&& final(self).base@[core_slot as int].irq_status == 0
                &&& final(self).base@[core_slot as int].core_slot == old(self).base@[core_slot as int].core_slot
                &&& final(self).base@[core_slot as int].mmio@ == pc_program_window(
                    interrupt_cleared(
                        irq_taken_window(
                            old(self).base@[core_slot as int].mmio@,
                            old(self).shared.task_npu_state@,
                            old(self).shared.binding_of(core_slot as int),
                            final(self).shared.task_npu_state@,
                        ),
                        INT_CLEAR_ALL,
                    ),
                    old(self).data,
                    one_task_batch(
                        core_slot,
                        *final(task),
                        submit_flags,
                        spec_task_dma_addr(task_dma_base, task_index) as u64,
                    ),
                )
                &&& irq_effect(
                    old(self).shared.task_npu_state@,
                    final(self).shared.task_npu_state@,
                    old(self).shared.binding_of(core_slot as int),
                    spec_fuzz_status(window_word(old(self).base@[core_slot as int].mmio@, 0x28)),
                    spec_register_snapshot(old(self).base@[core_slot as int].mmio@),
                )
                &&& final(self).iommu_enabled == old(self).iommu_enabled
                &&& final(self).iommu_domain_id == old(self).iommu_domain_id
                &&& final(self).gem == old(self).gem
                &&& final(self).data == old(self).data
                &&& final(self).config == old(self).config
                &&& final(self).shared.active_bindings@ == old(self).shared.active_bindings@
            },
    {
        if core_slot >= self.base.len() {
            return Err(RknpuError::InvalidParameter);
        }
        if task_total == 0 {
            return Err(RknpuError::InvalidParameter);
        }
        if task_index >= task_total {
            return Err(RknpuError::InvalidParameter);
        }
        let task_dma_addr: u64 = if task_dma_base == 0 {
            0
        } else {
            task_dma_base + (task_index as u64) * RKNPU_TASK_SIZE
        };
        task.int_status = 0;
        let ghost before = self.base@;
        self.base[core_slot].drain_pending_interrupts(&mut self.shared);
        let started = self.base[core_slot].start_execute_one(core_slot, &self.data, task, submit_flags, task_dma_addr);
        proof {
            assert forall|j: int| 0 <= j < self.base@.len() implies (#[trigger] self.base@[j]).wf()
                && self.base@[j].core_slot == j by {
                if j != core_slot {
                    assert(self.base@[j] == before[j]);
                }
            }
        }
        match started {
            Ok(()) => Ok(()),
            Err(err) => Err(err),
        }
    }
}

/// A domain id set through the action interface is what it reads back:
/// after `SetIommuDomainId` with a value in `0..16`, `GetIommuDomainId`
/// returns that value.
pub proof fn law_iommu_domain_round_trip(npu: Rknpu, value: u32)
    requires
        0 <= (value as i32) < 16,
    ensures
        (Rknpu { iommu_domain_id: value as i32, ..npu }).iommu_domain_id as u32 == value,
{
    assert(0 <= (value as i32) ==> (value as i32) as u32 == value) by (bit_vector);
}

} // verus!
