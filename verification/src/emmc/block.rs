//! Block transfers: which command moves a run of blocks, at which card
//! address, when a request is refused, and what the controller's status
//! says while a DMA transfer runs.
use vstd::prelude::*;
use crate::emmc::card::EMmcCard;
use crate::emmc::err::SdError;
use crate::emmc::host::EMmcHost;

verus! {

/// Card state bit of a block-addressed card.
pub const MMC_STATE_HIGHCAPACITY: u32 = 0x08;
/// Stop a multiple-block transfer (CMD12).
pub const MMC_STOP_TRANSMISSION: u8 = 12;
/// Read one block (CMD17).
pub const MMC_READ_SINGLE_BLOCK: u8 = 17;
/// Read blocks until stopped (CMD18).
pub const MMC_READ_MULTIPLE_BLOCK: u8 = 18;
/// Write one block (CMD24).
pub const MMC_WRITE_BLOCK: u8 = 24;
/// Write blocks until stopped (CMD25).
pub const MMC_WRITE_MULTIPLE_BLOCK: u8 = 25;
/// Bytes of a block.
pub const BLOCK_LEN: u32 = 512;

/// The data command of a block transfer.
#[derive(Debug, Clone, Copy, PartialEq, Eq, Structural)]
pub struct BlockCommand {
    /// Command index.
    pub opcode: u8,
    /// Card address argument.
    pub arg: u32,
    /// Blocks of 512 bytes to move.
    pub blocks: u16,
    /// Whether data moves from the card.
    pub read: bool,
    /// Whether a stop transmission (CMD12) must follow.
    pub stop_after: bool,
}

/// The card address of block `block_id`: the block number on a
/// block-addressed card, else its byte offset.
pub open spec fn spec_card_addr(c: EMmcCard, block_id: u32) -> int {
    if c.state & MMC_STATE_HIGHCAPACITY != 0 {
        block_id as int
    } else {
        block_id * 512
    }
}

/// The card can address block `block_id` in 32 bits.
pub open spec fn addr_fits(host: EMmcHost, block_id: u32) -> bool {
    host.card matches Some(c) ==> spec_card_addr(c, block_id) <= u32::MAX
}

/// The command moving `blocks` blocks from card address `addr`: a single
/// block, or a run followed by a stop.
pub open spec fn spec_block_command(addr: u32, blocks: u16, read: bool) -> BlockCommand {
    BlockCommand {
        opcode: if blocks == 1 {
            if read {
                MMC_READ_SINGLE_BLOCK
            } else {
                MMC_WRITE_BLOCK
            }
        } else if read {
            MMC_READ_MULTIPLE_BLOCK
        } else {
            MMC_WRITE_MULTIPLE_BLOCK
        },
        arg: addr,
        blocks,
        read,
        stop_after: blocks != 1,
    }
}

/// The command of a transfer of `blocks` blocks at card address `addr`.
pub fn block_command(addr: u32, blocks: u16, read: bool) -> (c: BlockCommand)
    ensures
        c == spec_block_command(addr, blocks, read),
{
    let opcode = if blocks == 1 {
        if read {
            MMC_READ_SINGLE_BLOCK
        } else {
            MMC_WRITE_BLOCK
        }
    } else if read {
        MMC_READ_MULTIPLE_BLOCK
    } else {
        MMC_WRITE_MULTIPLE_BLOCK
    };
    BlockCommand { opcode, arg: addr, blocks, read, stop_after: blocks != 1 }
}

/// The card address of block `block_id` on `card`.
fn card_addr(card: &EMmcCard, block_id: u32) -> (a: u32)
    requires
        spec_card_addr(*card, block_id) <= u32::MAX,
    ensures
        a == spec_card_addr(*card, block_id),
{
    if card.state & MMC_STATE_HIGHCAPACITY != 0 {
        block_id
    } else {
        block_id * 512
    }
}

/// A DMA read: the buffer must hold the blocks exactly (`IoError`), and a
/// card must be attached (`NoCard`).
pub open spec fn spec_dma_read(host: EMmcHost, block_id: u32, blocks: u16, buffer_len: usize) -> Result<BlockCommand, SdError> {
    if buffer_len != blocks * 512 {
        Err(SdError::IoError)
    } else {
        match host.card {
            None => Err(SdError::NoCard),
            Some(c) => Ok(spec_block_command(spec_card_addr(c, block_id) as u32, blocks, true)),
        }
    }
}

/// A DMA write: the buffer must hold the blocks exactly (`IoError`), the
/// card must be attached (`NoCard`) and initialized (`UnsupportedCard`),
/// and the medium writable (`IoError`).
pub open spec fn spec_dma_write(
    host: EMmcHost,
    block_id: u32,
    blocks: u16,
    buffer_len: usize,
    write_protected: bool,
) -> Result<BlockCommand, SdError> {
    if buffer_len != blocks * 512 {
        Err(SdError::IoError)
    } else {
        match host.card {
            None => Err(SdError::NoCard),
            Some(c) => if !c.initialized {
                Err(SdError::UnsupportedCard)
            } else if write_protected {
                Err(SdError::IoError)
            } else {
                Ok(spec_block_command(spec_card_addr(c, block_id) as u32, blocks, false))
            },
        }
    }
}

/// A programmed-I/O transfer: a card must be attached (`NoCard`), and a
/// write needs a writable medium (`IoError`).
pub open spec fn spec_pio_transfer(host: EMmcHost, block_id: u32, blocks: u16, read: bool, write_protected: bool) -> Result<
    BlockCommand,
    SdError,
> {
    match host.card {
        None => Err(SdError::NoCard),
        Some(c) => if !read && write_protected {
            Err(SdError::IoError)
        } else {
            Ok(spec_block_command(spec_card_addr(c, block_id) as u32, blocks, read))
        },
    }
}

impl EMmcHost {
    /// Whether the card can address block `block_id` in 32 bits.
    pub fn block_addr_fits(&self, block_id: u32) -> (b: bool)
        ensures
            b == addr_fits(*self, block_id),
    {
        match &self.card {
            None => true,
            Some(card) => card.state & MMC_STATE_HIGHCAPACITY != 0 || block_id <= u32::MAX / 512,
        }
    }
}

impl EMmcHost {
    /// The command of a DMA read into a buffer of `buffer_len` bytes.
    pub fn plan_dma_read(&self, block_id: u32, blocks: u16, buffer_len: usize) -> (r: Result<BlockCommand, SdError>)
        requires
            addr_fits(*self, block_id),
        ensures
            r == spec_dma_read(*self, block_id, blocks, buffer_len),
    {
        if buffer_len != blocks as usize * 512 {
            return Err(SdError::IoError);
        }
        match &self.card {
            None => Err(SdError::NoCard),
            Some(card) => Ok(block_command(card_addr(card, block_id), blocks, true)),
        }
    }

    /// The command of a DMA write from a buffer of `buffer_len` bytes;
    /// `write_protected` is the controller's write-protect switch.
    pub fn plan_dma_write(&self, block_id: u32, blocks: u16, buffer_len: usize, write_protected: bool) -> (r:
        Result<BlockCommand, SdError>)
        requires
            addr_fits(*self, block_id),
        ensures
            r == spec_dma_write(*self, block_id, blocks, buffer_len, write_protected),
    {
        if buffer_len != blocks as usize * 512 {
            return Err(SdError::IoError);
        }
        match &self.card {
            None => Err(SdError::NoCard),
            Some(card) => {
                if !card.initialized {
                    Err(SdError::UnsupportedCard)
                } else if write_protected {
                    Err(SdError::IoError)
                } else {
                    Ok(block_command(card_addr(card, block_id), blocks, false))
                }
            },
        }
    }

    /// The command of a programmed-I/O read or write.
    pub fn plan_pio_transfer(&self, block_id: u32, blocks: u16, read: bool, write_protected: bool) -> (r:
        Result<BlockCommand, SdError>)
        requires
            addr_fits(*self, block_id),
        ensures
            r == spec_pio_transfer(*self, block_id, blocks, read, write_protected),
    {
        match &self.card {
            None => Err(SdError::NoCard),
            Some(card) => {
                if !read && write_protected {
                    Err(SdError::IoError)
                } else {
                    Ok(block_command(card_addr(card, block_id), blocks, read))
                }
            },
        }
    }
}

/// The card address a block transfer names: block `block_id` itself on a
/// block-addressed card (state bit `MMC_STATE_HIGHCAPACITY`), its byte offset
/// `block_id * 512` on any other card; and the command is the single-block
/// one exactly for one block, with a stop after any run.
pub proof fn law_block_command_addresses(
    host: EMmcHost,
    block_id: u32,
    blocks: u16,
    read: bool,
    write_protected: bool,
    buffer_len: usize,
)
    requires
        addr_fits(host, block_id),
    ensures
        ({
            let expected = |c: EMmcCard| if c.state & MMC_STATE_HIGHCAPACITY != 0 {
                block_id as int
            } else {
                block_id * 512
            };
            &&& spec_pio_transfer(host, block_id, blocks, read, write_protected) matches Ok(cmd)
                ==> cmd.arg == expected(host.card.unwrap()) && cmd.read == read && cmd.blocks
                == blocks && (cmd.stop_after <==> blocks != 1) && (blocks == 1 ==> cmd.opcode == (
                if read {
                    17u8
                } else {
                    24u8
                })) && (blocks != 1 ==> cmd.opcode == (if read {
                18u8
            } else {
                25u8
            }))
            &&& spec_dma_read(host, block_id, blocks, buffer_len) matches Ok(cmd) ==> cmd.arg
                == expected(host.card.unwrap()) && cmd.read
            &&& spec_dma_write(host, block_id, blocks, buffer_len, write_protected) matches Ok(cmd)
                ==> cmd.arg == expected(host.card.unwrap()) && !cmd.read
        }),
{
}

/// Interrupt status: an error occurred.
pub const EMMC_INT_ERROR: u16 = 0x8000;
/// Interrupt status: the data transfer ended.
pub const EMMC_INT_DATA_END: u16 = 0x0002;
/// Polls of a DMA transfer before it times out.
pub const DMA_TRANSFER_TIMEOUT: u32 = 100;

/// Where a DMA transfer stands after a read of the interrupt status.
#[derive(Debug, Clone, Copy, PartialEq, Eq, Structural)]
pub enum DmaPoll {
    /// An error: read the error status, reset the data circuit, report.
    Error,
    /// The transfer ended: clear the data-end bit.
    Done,
    /// Still running: wait a millisecond, with this many polls left.
    Wait(u32),
    /// Still running and no polls left.
    TimedOut,
}

/// Judge the interrupt status `stat` of a DMA transfer with `remaining`
/// polls left.
pub fn dma_poll(stat: u16, remaining: u32) -> (r: DmaPoll)
    ensures
        r == (if stat & EMMC_INT_ERROR != 0 {
            DmaPoll::Error
        } else if stat & EMMC_INT_DATA_END != 0 {
            DmaPoll::Done
        } else if remaining > 0 {
            DmaPoll::Wait((remaining - 1) as u32)
        } else {
            DmaPoll::TimedOut
        }),
{
    if stat & EMMC_INT_ERROR != 0 {
        DmaPoll::Error
    } else if stat & EMMC_INT_DATA_END != 0 {
        DmaPoll::Done
    } else if remaining > 0 {
        DmaPoll::Wait(remaining - 1)
    } else {
        DmaPoll::TimedOut
    }
}

/// The error a data error status reports: a data timeout, a CRC error, an
/// end-bit error, or another data error, in that priority.
pub fn data_error_of(err_status: u16) -> (e: SdError)
    ensures
        e == (if err_status & 0x10 != 0 {
            SdError::DataTimeout
        } else if err_status & 0x20 != 0 {
            SdError::DataCrc
        } else if err_status & 0x40 != 0 {
            SdError::DataEndBit
        } else {
            SdError::DataError
        }),
{
    if err_status & 0x10 != 0 {
        SdError::DataTimeout
    } else if err_status & 0x20 != 0 {
        SdError::DataCrc
    } else if err_status & 0x40 != 0 {
        SdError::DataEndBit
    } else {
        SdError::DataError
    }
}

} // verus!
