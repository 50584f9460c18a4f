//! Raising the bus to the fastest mode card and host share, as a state
//! machine: each step names the operation the host performs next, and its
//! outcome decides the step after it and the card's bus settings (clock,
//! width, timing) that the host then applies.
use vstd::prelude::*;
use crate::emmc::aux::MMC_VERSION_4;
use crate::emmc::card::EMmcCard;
use crate::emmc::err::SdError;
use crate::emmc::sdhci::{MMC_MODE_4BIT, MMC_MODE_8BIT};
use crate::emmc::speed::{
    bus_speed_clock, bus_test_matches, bus_width_candidates, card_type_of, spec_bus_speed_clock,
    spec_bus_test_matches, spec_bus_width_candidates, spec_card_type, spec_speed_mode,
    spec_tuning_poll, speed_mode, tuning_poll, SpeedMode, EXT_CSD_CARD_TYPE,
    EXT_CSD_CARD_TYPE_DDR_52, EXT_CSD_CARD_TYPE_HS400, EXT_CSD_STROBE_SUPPORT, MAX_TUNING_LOOP,
    MMC_BUS_WIDTH_8BIT, MMC_TIMING_MMC_HS, MMC_TIMING_MMC_HS200, MMC_TIMING_MMC_HS400ES,
};
use crate::emmc::init::EXT_CSD_HC_ERASE_GRP_SIZE;

verus! {

/// Why a bus width is being chosen.
#[derive(Debug, Clone, Copy, PartialEq, Eq, Structural)]
pub enum WidthFor {
    /// Before switching to HS200.
    Hs200,
    /// As the last step of a high-speed or legacy bus.
    Final,
}

/// The operation the host performs next; `avail` is the speed modes card
/// and host share.
#[derive(Debug, Clone, PartialEq, Eq)]
pub enum FreqStep {
    /// Nothing to perform: start.
    Start,
    /// Read the extended CSD.
    ReadExtCsd,
    /// Switch the card to high-speed timing (with a status check).
    SwitchHs(u16),
    /// Read the extended CSD before trying bus widths.
    WidthRead(WidthFor, u16),
    /// Switch the card to bus-width candidate `idx` (with a status check);
    /// carries the extended CSD read before.
    WidthSwitch(WidthFor, u16, Vec<u8>, usize),
    /// With the host at that width, read the extended CSD again.
    WidthVerify(WidthFor, u16, Vec<u8>, usize),
    /// Switch the card to HS200 timing (without a status check).
    SwitchHs200(u16),
    /// Start tuning: set the execute-tuning bit of host control 2.
    TuneStart(u16),
    /// Send a tuning block and read host control 2; this many blocks are
    /// left.
    Tune(u16, u32),
    /// The card offers DDR at 52 MHz, whose selection the driver does not
    /// have: the bring-up cannot go on.
    HsDdrPending,
    /// The bus runs at its final speed.
    Complete,
}

/// The outcome of the operation of a step.
#[derive(Debug, Clone, PartialEq, Eq)]
pub enum FreqEvent {
    Done,
    Failed(SdError),
    ExtCsd(Vec<u8>),
    Ctrl2(u16),
}

/// A step the machine can take: the extended CSD it carries holds every
/// byte compared, and the candidate exists.
pub open spec fn freq_step_wf(step: FreqStep, caps: u32) -> bool {
    match step {
        FreqStep::WidthSwitch(_, _, e, idx) => e@.len() > EXT_CSD_HC_ERASE_GRP_SIZE && idx
            < spec_bus_width_candidates(caps).len(),
        FreqStep::WidthVerify(_, _, e, idx) => e@.len() > EXT_CSD_HC_ERASE_GRP_SIZE && idx
            < spec_bus_width_candidates(caps).len(),
        _ => true,
    }
}

/// What the machine asks of a step and its outcome: a well-formed step, and
/// an extended CSD that holds every byte read.
pub open spec fn freq_acceptable(step: FreqStep, event: FreqEvent, caps: u32) -> bool {
    &&& freq_step_wf(step, caps)
    &&& event matches FreqEvent::ExtCsd(e) ==> e@.len() > EXT_CSD_HC_ERASE_GRP_SIZE
}

/// A result and the card after it.
pub type FreqOutcome = (Result<FreqStep, SdError>, EMmcCard);

/// After the final bus-width choice: a width that took, and the DDR
/// selection still to come when the card offers it; `BusWidth` when none
/// took.
pub open spec fn width_done_final(c: EMmcCard, avail: u16, w: u8) -> FreqOutcome {
    if w > 0 {
        if avail & EXT_CSD_CARD_TYPE_DDR_52 != 0 {
            (Ok(FreqStep::HsDdrPending), c)
        } else {
            (Ok(FreqStep::Complete), c)
        }
    } else {
        (Err(SdError::BusWidth), c)
    }
}

/// Start the final bus-width choice: width 0 when the card is older than
/// version 4 or the host has no 4- or 8-bit bus.
pub open spec fn enter_width_final(c: EMmcCard, caps: u32, avail: u16) -> FreqOutcome {
    if c.version < MMC_VERSION_4 || caps & (MMC_MODE_4BIT | MMC_MODE_8BIT) == 0 {
        width_done_final(c, avail, 0)
    } else {
        (Ok(FreqStep::WidthRead(WidthFor::Final, avail)), c)
    }
}

/// Once the speed mode is set: the clock of the timing, then tuning in
/// HS200, the final bus width unless in HS400 with enhanced strobe.
pub open spec fn after_speed(c: EMmcCard, caps: u32, avail: u16) -> FreqOutcome {
    let c1 = EMmcCard { clock: spec_bus_speed_clock(c.timing, avail as u32), ..c };
    if c1.timing == MMC_TIMING_MMC_HS200 {
        (Ok(FreqStep::TuneStart(avail)), c1)
    } else if c1.timing != MMC_TIMING_MMC_HS400ES {
        enter_width_final(c1, caps, avail)
    } else {
        (Ok(FreqStep::Complete), c1)
    }
}

/// After the bus-width choice that precedes HS200: switch to HS200 when a
/// width took, else go on at the present timing.
pub open spec fn width_done_hs200(c: EMmcCard, caps: u32, avail: u16, w: u8) -> FreqOutcome {
    if w > 0 {
        (Ok(FreqStep::SwitchHs200(avail)), c)
    } else {
        after_speed(c, caps, avail)
    }
}

/// After a bus-width choice.
pub open spec fn width_done(c: EMmcCard, caps: u32, purpose: WidthFor, avail: u16, w: u8) -> FreqOutcome {
    match purpose {
        WidthFor::Hs200 => width_done_hs200(c, caps, avail, w),
        WidthFor::Final => width_done_final(c, avail, w),
    }
}

/// Start the bus-width choice that precedes HS200.
pub open spec fn enter_width_hs200(c: EMmcCard, caps: u32, avail: u16) -> FreqOutcome {
    if c.version < MMC_VERSION_4 || caps & (MMC_MODE_4BIT | MMC_MODE_8BIT) == 0 {
        width_done_hs200(c, caps, avail, 0)
    } else {
        (Ok(FreqStep::WidthRead(WidthFor::Hs200, avail)), c)
    }
}

/// The next bus-width candidate, or `BadMessage` when none is left.
pub open spec fn next_width(
    c: EMmcCard,
    caps: u32,
    purpose: WidthFor,
    avail: u16,
    e: Vec<u8>,
    idx: usize,
) -> FreqOutcome {
    if idx + 1 < spec_bus_width_candidates(caps).len() {
        (Ok(FreqStep::WidthSwitch(purpose, avail, e, (idx + 1) as usize)), c)
    } else {
        (Err(SdError::BadMessage), c)
    }
}

/// The end of tuning: with HS400 on an 8-bit bus the clock is set again;
/// then the tuning's own result.
pub open spec fn tune_done(c: EMmcCard, avail: u16, r: Result<(), SdError>) -> FreqOutcome {
    let c1 = if avail & EXT_CSD_CARD_TYPE_HS400 != 0 && c.bus_width == MMC_BUS_WIDTH_8BIT {
        EMmcCard { clock: spec_bus_speed_clock(c.timing, avail as u32), ..c }
    } else {
        c
    };
    match r {
        Ok(()) => (Ok(FreqStep::Complete), c1),
        Err(e) => (Err(e), c1),
    }
}

/// The result of one step and the card after it, for host modes `caps`. A
/// failed bus-width switch or read-back moves on to the next candidate; a
/// failed tuning block ends tuning with its error; any other failure ends
/// with its error; an outcome that does not answer the step is refused as
/// an invalid argument.
pub open spec fn spec_freq_step(c: EMmcCard, caps: u32, step: FreqStep, event: FreqEvent) -> FreqOutcome {
    match (step, event) {
        (FreqStep::WidthSwitch(p, a, e, idx), FreqEvent::Failed(_)) => next_width(c, caps, p, a, e, idx),
        (FreqStep::WidthVerify(p, a, e, idx), FreqEvent::Failed(_)) => next_width(c, caps, p, a, e, idx),
        (FreqStep::Tune(a, _), FreqEvent::Failed(err)) => tune_done(c, a, Err(err)),
        (_, FreqEvent::Failed(err)) => (Err(err), c),
        (FreqStep::Start, FreqEvent::Done) => {
            if c.version < MMC_VERSION_4 {
                (Ok(FreqStep::Complete), EMmcCard { card_caps: 0, ..c })
            } else {
                (Ok(FreqStep::ReadExtCsd), EMmcCard { card_caps: MMC_MODE_4BIT | MMC_MODE_8BIT, ..c })
            }
        },
        (FreqStep::ReadExtCsd, FreqEvent::ExtCsd(e)) => {
            let avail = spec_card_type(
                caps,
                e@[EXT_CSD_CARD_TYPE as int] as u16,
                e@[EXT_CSD_STROBE_SUPPORT as int],
            );
            match spec_speed_mode(avail) {
                Err(err) => (Err(err), c),
                Ok(SpeedMode::Hs200) => enter_width_hs200(c, caps, avail),
                Ok(SpeedMode::HighSpeed) => (Ok(FreqStep::SwitchHs(avail)), c),
            }
        },
        (FreqStep::SwitchHs(a), FreqEvent::Done) => after_speed(
            EMmcCard { timing: MMC_TIMING_MMC_HS, ..c },
            caps,
            a,
        ),
        (FreqStep::WidthRead(p, a), FreqEvent::ExtCsd(e)) => (Ok(FreqStep::WidthSwitch(p, a, e, 0)), c),
        (FreqStep::WidthSwitch(p, a, e, idx), FreqEvent::Done) => (
            Ok(FreqStep::WidthVerify(p, a, e, idx)),
            EMmcCard { bus_width: spec_bus_width_candidates(caps)[idx as int].1, ..c },
        ),
        (FreqStep::WidthVerify(p, a, e, idx), FreqEvent::ExtCsd(t)) => {
            if spec_bus_test_matches(e@, t@) {
                width_done(c, caps, p, a, spec_bus_width_candidates(caps)[idx as int].1)
            } else {
                next_width(c, caps, p, a, e, idx)
            }
        },
        (FreqStep::SwitchHs200(a), FreqEvent::Done) => after_speed(
            EMmcCard { timing: MMC_TIMING_MMC_HS200, ..c },
            caps,
            a,
        ),
        (FreqStep::TuneStart(a), FreqEvent::Done) => (Ok(FreqStep::Tune(a, MAX_TUNING_LOOP)), c),
        (FreqStep::Tune(a, left), FreqEvent::Ctrl2(v)) => match spec_tuning_poll(v) {
            None => if left > 1 {
                (Ok(FreqStep::Tune(a, (left - 1) as u32)), c)
            } else {
                tune_done(c, a, Err(SdError::Timeout))
            },
            Some(r) => tune_done(c, a, r),
        },
        _ => (Err(SdError::InvalidArgument), c),
    }
}

fn width_done_final_exec(c: &mut EMmcCard, avail: u16, w: u8) -> (r: Result<FreqStep, SdError>)
    ensures
        (r, *final(c)) == width_done_final(*old(c), avail, w),
{
    if w > 0 {
        if avail & EXT_CSD_CARD_TYPE_DDR_52 != 0 {
            Ok(FreqStep::HsDdrPending)
        } else {
            Ok(FreqStep::Complete)
        }
    } else {
        Err(SdError::BusWidth)
    }
}

fn enter_width_final_exec(c: &mut EMmcCard, caps: u32, avail: u16) -> (r: Result<FreqStep, SdError>)
    ensures
        (r, *final(c)) == enter_width_final(*old(c), caps, avail),
{
    if c.version < MMC_VERSION_4 || caps & (MMC_MODE_4BIT | MMC_MODE_8BIT) == 0 {
        width_done_final_exec(c, avail, 0)
    } else {
        Ok(FreqStep::WidthRead(WidthFor::Final, avail))
    }
}

fn after_speed_exec(c: &mut EMmcCard, caps: u32, avail: u16) -> (r: Result<FreqStep, SdError>)
    ensures
        (r, *final(c)) == after_speed(*old(c), caps, avail),
{
    c.clock = bus_speed_clock(c.timing, avail as u32);
    if c.timing == MMC_TIMING_MMC_HS200 {
        Ok(FreqStep::TuneStart(avail))
    } else if c.timing != MMC_TIMING_MMC_HS400ES {
        enter_width_final_exec(c, caps, avail)
    } else {
        Ok(FreqStep::Complete)
    }
}

fn width_done_hs200_exec(c: &mut EMmcCard, caps: u32, avail: u16, w: u8) -> (r: Result<FreqStep, SdError>)
    ensures
        (r, *final(c)) == width_done_hs200(*old(c), caps, avail, w),
{
    if w > 0 {
        Ok(FreqStep::SwitchHs200(avail))
    } else {
        after_speed_exec(c, caps, avail)
    }
}

fn enter_width_hs200_exec(c: &mut EMmcCard, caps: u32, avail: u16) -> (r: Result<FreqStep, SdError>)
    ensures
        (r, *final(c)) == enter_width_hs200(*old(c), caps, avail),
{
    if c.version < MMC_VERSION_4 || caps & (MMC_MODE_4BIT | MMC_MODE_8BIT) == 0 {
        width_done_hs200_exec(c, caps, avail, 0)
    } else {
        Ok(FreqStep::WidthRead(WidthFor::Hs200, avail))
    }
}

fn next_width_exec(c: &mut EMmcCard, caps: u32, purpose: WidthFor, avail: u16, e: Vec<u8>, idx: usize) -> (r:
    Result<FreqStep, SdError>)
    requires
        e@.len() > EXT_CSD_HC_ERASE_GRP_SIZE,
        idx < spec_bus_width_candidates(caps).len(),
    ensures
        (r, *final(c)) == next_width(*old(c), caps, purpose, avail, e, idx),
        r matches Ok(n) ==> freq_step_wf(n, caps),
{
    let cands = bus_width_candidates(caps);
    if idx + 1 < cands.len() {
        Ok(FreqStep::WidthSwitch(purpose, avail, e, idx + 1))
    } else {
        Err(SdError::BadMessage)
    }
}

fn tune_done_exec(c: &mut EMmcCard, avail: u16, r: Result<(), SdError>) -> (out: Result<FreqStep, SdError>)
    ensures
        (out, *final(c)) == tune_done(*old(c), avail, r),
{
    if avail & EXT_CSD_CARD_TYPE_HS400 != 0 && c.bus_width == MMC_BUS_WIDTH_8BIT {
        c.clock = bus_speed_clock(c.timing, avail as u32);
    }
    match r {
        Ok(()) => Ok(FreqStep::Complete),
        Err(e) => Err(e),
    }
}

/// Take the outcome `event` of the operation of `step`, for host modes
/// `caps`: update the card's bus settings and name the next step.
pub fn freq_step(card: &mut EMmcCard, caps: u32, step: FreqStep, event: FreqEvent) -> (r: Result<
    FreqStep,
    SdError,
>)
    requires
        freq_acceptable(step, event, caps),
    ensures
        (r, *final(card)) == spec_freq_step(*old(card), caps, step, event),
        r matches Ok(next) ==> freq_step_wf(next, caps),
{
    match event {
        FreqEvent::Failed(err) => match step {
            FreqStep::WidthSwitch(p, a, e, idx) => next_width_exec(card, caps, p, a, e, idx),
            FreqStep::WidthVerify(p, a, e, idx) => next_width_exec(card, caps, p, a, e, idx),
            FreqStep::Tune(a, _) => tune_done_exec(card, a, Err(err)),
            _ => Err(err),
        },
        FreqEvent::Done => match step {
            FreqStep::Start => {
                if card.version < MMC_VERSION_4 {
                    card.card_caps = 0;
                    Ok(FreqStep::Complete)
                } else {
                    card.card_caps = MMC_MODE_4BIT | MMC_MODE_8BIT;
                    Ok(FreqStep::ReadExtCsd)
                }
            },
            FreqStep::SwitchHs(a) => {
                card.timing = MMC_TIMING_MMC_HS;
                after_speed_exec(card, caps, a)
            },
            FreqStep::WidthSwitch(p, a, e, idx) => {
                let cands = bus_width_candidates(caps);
                card.bus_width = cands[idx].1;
                Ok(FreqStep::WidthVerify(p, a, e, idx))
            },
            FreqStep::SwitchHs200(a) => {
                card.timing = MMC_TIMING_MMC_HS200;
                after_speed_exec(card, caps, a)
            },
            FreqStep::TuneStart(a) => Ok(FreqStep::Tune(a, MAX_TUNING_LOOP)),
            _ => Err(SdError::InvalidArgument),
        },
        FreqEvent::ExtCsd(e) => match step {
            FreqStep::ReadExtCsd => {
                let avail = card_type_of(caps, e.as_slice());
                match speed_mode(avail) {
                    Err(err) => Err(err),
                    Ok(SpeedMode::Hs200) => enter_width_hs200_exec(card, caps, avail),
                    Ok(SpeedMode::HighSpeed) => Ok(FreqStep::SwitchHs(avail)),
                }
            },
            FreqStep::WidthRead(p, a) => Ok(FreqStep::WidthSwitch(p, a, e, 0)),
            FreqStep::WidthVerify(p, a, ext, idx) => {
                if bus_test_matches(ext.as_slice(), e.as_slice()) {
                    let cands = bus_width_candidates(caps);
                    let w = cands[idx].1;
                    match p {
                        WidthFor::Hs200 => width_done_hs200_exec(card, caps, a, w),
                        WidthFor::Final => width_done_final_exec(card, a, w),
                    }
                } else {
                    next_width_exec(card, caps, p, a, ext, idx)
                }
            },
            _ => Err(SdError::InvalidArgument),
        },
        FreqEvent::Ctrl2(v) => match step {
            FreqStep::Tune(a, left) => match tuning_poll(v) {
                None => {
                    if left > 1 {
                        Ok(FreqStep::Tune(a, left - 1))
                    } else {
                        tune_done_exec(card, a, Err(SdError::Timeout))
                    }
                },
                Some(r) => tune_done_exec(card, a, r),
            },
            _ => Err(SdError::InvalidArgument),
        },
    }
}

} // verus!
