//! Card bring-up as a state machine: each step names the card operation the
//! host performs next, and the outcome of that operation decides the step
//! after it and what the card learns on the way.
use vstd::prelude::*;
use crate::emmc::aux::MMC_VERSION_4;
use crate::emmc::card::EMmcCard;
use crate::emmc::err::SdError;
use crate::emmc::init::{
    ext_csd_usable, spec_after_csd, spec_after_erase_groups, spec_after_ext_csd, spec_after_ocr,
    spec_dsr_command, spec_needs_erase_group_def, EXT_CSD_ERASE_GROUP_DEF, EXT_CSD_LEN, EXT_CSD_REV,
    MMCPART_NOAVAILABLE,
};

verus! {

/// The card operation the host performs next.
#[derive(Debug, Clone, PartialEq, Eq)]
pub enum EmmcInitStep {
    /// Put the card into the idle state (CMD0).
    GoIdle,
    /// Ask for the operating conditions until the card is ready (CMD1).
    SendOpCond,
    /// Read the card identification (CMD2).
    AllSendCid,
    /// Give the card its relative address (CMD3).
    SetRelativeAddr,
    /// Read the card-specific data (CMD9).
    SendCsd,
    /// Program the driver stage register with this argument (CMD4).
    SetDsr(u32),
    /// Select the card with this argument (CMD7).
    SelectCard(u32),
    /// Switch the card to high speed and raise the clock to 52 MHz.
    SelectHighSpeed,
    /// Read the extended CSD (CMD8).
    SendExtCsd,
    /// Switch on the erase group definition (CMD6); carries the extended
    /// CSD that was read.
    SwitchEraseGroupDef(Vec<u8>),
    /// Expose the user area and settle the bus frequency.
    Finish,
    /// The card is initialized.
    Complete,
}

/// The outcome of the operation of a step.
#[derive(Debug, Clone, PartialEq, Eq)]
pub enum EmmcInitEvent {
    /// The operation succeeded and returned nothing the card keeps.
    Done,
    /// The operation failed.
    Failed(SdError),
    /// The card is ready and reported these operating conditions.
    Ocr(u32),
    /// The card identification.
    Cid([u32; 4]),
    /// The card-specific data.
    Csd([u32; 4]),
    /// The extended CSD.
    ExtCsd(Vec<u8>),
}

/// The argument that selects the card at its relative address.
pub open spec fn select_arg(c: EMmcCard) -> u32 {
    c.rca << 16u32
}

/// A step the machine can take: an erase-group switch carries a whole
/// extended CSD.
pub open spec fn init_step_wf(step: EmmcInitStep) -> bool {
    step matches EmmcInitStep::SwitchEraseGroupDef(e) ==> e@.len() == EXT_CSD_LEN
}

/// What the machine asks of a step and its outcome: a well-formed step,
/// and an extended CSD that the host can take (a revision it does not know
/// stops the bring-up).
pub open spec fn init_step_acceptable(step: EmmcInitStep, event: EmmcInitEvent) -> bool {
    &&& init_step_wf(step)
    &&& step is SendExtCsd ==> (event matches EmmcInitEvent::ExtCsd(e) ==> ext_csd_usable(e@))
}

/// The result of one step and the card after it. A failure ends the
/// bring-up with its error (a failed erase-group switch as a command
/// error) and leaves the card as it was; an outcome that does not answer
/// the step is refused as an invalid argument.
pub open spec fn spec_init_card_step(c: EMmcCard, step: EmmcInitStep, event: EmmcInitEvent) -> (
    Result<EmmcInitStep, SdError>,
    EMmcCard,
) {
    match (step, event) {
        (EmmcInitStep::SwitchEraseGroupDef(_), EmmcInitEvent::Failed(_)) => (
            Err(SdError::CommandError),
            c,
        ),
        (_, EmmcInitEvent::Failed(err)) => (Err(err), c),
        (EmmcInitStep::GoIdle, EmmcInitEvent::Done) => (Ok(EmmcInitStep::SendOpCond), c),
        (EmmcInitStep::SendOpCond, EmmcInitEvent::Ocr(ocr)) => (
            Ok(EmmcInitStep::AllSendCid),
            spec_after_ocr(c, ocr),
        ),
        (EmmcInitStep::AllSendCid, EmmcInitEvent::Cid(cid)) => (
            Ok(EmmcInitStep::SetRelativeAddr),
            EMmcCard { cid, ..c },
        ),
        (EmmcInitStep::SetRelativeAddr, EmmcInitEvent::Done) => (Ok(EmmcInitStep::SendCsd), c),
        (EmmcInitStep::SendCsd, EmmcInitEvent::Csd(csd)) => {
            let c1 = spec_after_csd(EMmcCard { csd, ..c }, csd);
            (
                Ok(
                    match spec_dsr_command(c1) {
                        Some(arg) => EmmcInitStep::SetDsr(arg),
                        None => EmmcInitStep::SelectCard(select_arg(c1)),
                    },
                ),
                c1,
            )
        },
        (EmmcInitStep::SetDsr(_), EmmcInitEvent::Done) => (
            Ok(EmmcInitStep::SelectCard(select_arg(c))),
            c,
        ),
        (EmmcInitStep::SelectCard(_), EmmcInitEvent::Done) => {
            let c1 = EMmcCard { erase_grp_size: 1, part_config: MMCPART_NOAVAILABLE, ..c };
            (
                Ok(
                    if c1.version >= MMC_VERSION_4 {
                        EmmcInitStep::SelectHighSpeed
                    } else {
                        EmmcInitStep::Finish
                    },
                ),
                c1,
            )
        },
        (EmmcInitStep::SelectHighSpeed, EmmcInitEvent::Done) => (Ok(EmmcInitStep::SendExtCsd), c),
        (EmmcInitStep::SendExtCsd, EmmcInitEvent::ExtCsd(e)) => {
            let c1 = spec_after_ext_csd(c, e@);
            if spec_needs_erase_group_def(c, e@) {
                (Ok(EmmcInitStep::SwitchEraseGroupDef(e)), c1)
            } else {
                (
                    Ok(EmmcInitStep::Finish),
                    spec_after_erase_groups(c1, e@, e@[EXT_CSD_ERASE_GROUP_DEF as int] & 1 != 0, c1.csd[2]),
                )
            }
        },
        (EmmcInitStep::SwitchEraseGroupDef(e), EmmcInitEvent::Done) => (
            Ok(EmmcInitStep::Finish),
            spec_after_erase_groups(c, e@, true, c.csd[2]),
        ),
        (EmmcInitStep::Finish, EmmcInitEvent::Done) => (
            Ok(EmmcInitStep::Complete),
            EMmcCard { initialized: true, ..c },
        ),
        _ => (Err(SdError::InvalidArgument), c),
    }
}

/// Position of a step in the bring-up order.
pub open spec fn step_rank(step: EmmcInitStep) -> nat {
    match step {
        EmmcInitStep::GoIdle => 0,
        EmmcInitStep::SendOpCond => 1,
        EmmcInitStep::AllSendCid => 2,
        EmmcInitStep::SetRelativeAddr => 3,
        EmmcInitStep::SendCsd => 4,
        EmmcInitStep::SetDsr(_) => 5,
        EmmcInitStep::SelectCard(_) => 6,
        EmmcInitStep::SelectHighSpeed => 7,
        EmmcInitStep::SendExtCsd => 8,
        EmmcInitStep::SwitchEraseGroupDef(_) => 9,
        EmmcInitStep::Finish => 10,
        EmmcInitStep::Complete => 11,
    }
}

/// The bring-up only moves forward: every step it takes leads to a later
/// one, so it ends, in success or with an error, after at most eleven
/// steps; and the card is marked initialized exactly when it completes.
pub proof fn law_bring_up_moves_forward(c: EMmcCard, step: EmmcInitStep, event: EmmcInitEvent)
    ensures
        spec_init_card_step(c, step, event).0 matches Ok(next) ==> step_rank(next) > step_rank(
            step,
        ),
        spec_init_card_step(c, step, event).0 == Ok::<EmmcInitStep, SdError>(EmmcInitStep::Complete)
            ==> spec_init_card_step(c, step, event).1.initialized,
        !c.initialized && spec_init_card_step(c, step, event).1.initialized
            ==> spec_init_card_step(c, step, event).0 == Ok::<EmmcInitStep, SdError>(
            EmmcInitStep::Complete,
        ),
{
}

/// Whether the host can take this extended CSD: 512 bytes, and a revision
/// it knows from revision 2 on.
pub fn ext_csd_acceptable(e: &[u8]) -> (b: bool)
    ensures
        b == ext_csd_usable(e@),
{
    if e.len() != EXT_CSD_LEN {
        return false;
    }
    let rev = e[EXT_CSD_REV];
    rev < 2 || rev == 2 || rev == 3 || (5 <= rev && rev <= 8)
}

/// Take the outcome `event` of the operation of `step`: update the card
/// with what it reported and name the next step.
pub fn init_card_step(card: &mut EMmcCard, step: EmmcInitStep, event: EmmcInitEvent) -> (r: Result<
    EmmcInitStep,
    SdError,
>)
    requires
        init_step_acceptable(step, event),
    ensures
        (r, *final(card)) == spec_init_card_step(*old(card), step, event),
        r matches Ok(next) ==> init_step_wf(next),
{
    match event {
        EmmcInitEvent::Failed(err) => match step {
            EmmcInitStep::SwitchEraseGroupDef(_) => Err(SdError::CommandError),
            _ => Err(err),
        },
        EmmcInitEvent::Done => match step {
            EmmcInitStep::GoIdle => Ok(EmmcInitStep::SendOpCond),
            EmmcInitStep::SetRelativeAddr => Ok(EmmcInitStep::SendCsd),
            EmmcInitStep::SetDsr(_) => Ok(EmmcInitStep::SelectCard(card.rca << 16u32)),
            EmmcInitStep::SelectCard(_) => {
                card.apply_selected();
                if card.uses_ext_csd() {
                    Ok(EmmcInitStep::SelectHighSpeed)
                } else {
                    Ok(EmmcInitStep::Finish)
                }
            },
            EmmcInitStep::SelectHighSpeed => Ok(EmmcInitStep::SendExtCsd),
            EmmcInitStep::SwitchEraseGroupDef(e) => {
                let csd2 = card.csd[2];
                card.apply_erase_groups(e.as_slice(), true, csd2);
                Ok(EmmcInitStep::Finish)
            },
            EmmcInitStep::Finish => {
                card.initialized = true;
                Ok(EmmcInitStep::Complete)
            },
            _ => Err(SdError::InvalidArgument),
        },
        EmmcInitEvent::Ocr(ocr) => match step {
            EmmcInitStep::SendOpCond => {
                card.apply_ocr(ocr);
                Ok(EmmcInitStep::AllSendCid)
            },
            _ => Err(SdError::InvalidArgument),
        },
        EmmcInitEvent::Cid(cid) => match step {
            EmmcInitStep::AllSendCid => {
                card.cid = cid;
                Ok(EmmcInitStep::SetRelativeAddr)
            },
            _ => Err(SdError::InvalidArgument),
        },
        EmmcInitEvent::Csd(csd) => match step {
            EmmcInitStep::SendCsd => {
                card.csd = csd;
                match card.apply_csd(&csd) {
                    Some(arg) => Ok(EmmcInitStep::SetDsr(arg)),
                    None => Ok(EmmcInitStep::SelectCard(card.rca << 16u32)),
                }
            },
            _ => Err(SdError::InvalidArgument),
        },
        EmmcInitEvent::ExtCsd(e) => match step {
            EmmcInitStep::SendExtCsd => {
                let needs = card.apply_ext_csd(e.as_slice());
                if needs {
                    Ok(EmmcInitStep::SwitchEraseGroupDef(e))
                } else {
                    let def = (e[EXT_CSD_ERASE_GROUP_DEF] & 1) != 0;
                    let csd2 = card.csd[2];
                    card.apply_erase_groups(e.as_slice(), def, csd2);
                    Ok(EmmcInitStep::Finish)
                }
            },
            _ => Err(SdError::InvalidArgument),
        },
    }
}

} // verus!
