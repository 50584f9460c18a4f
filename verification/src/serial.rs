//! NS16550 UART decisions: the line-control encodings of the frame format,
//! the baud-rate divisor, the interrupt-enable encoding of the interrupt
//! mask, and what a pending interrupt asks of the driver. The register
//! reads and writes themselves are the platform's.
use vstd::prelude::*;

verus! {

/// Byte-wide access to the UART's registers, by register index; the
/// platform implements it for port or memory-mapped I/O.
pub trait Kind: Send + Sync + 'static {
    fn read_reg(&self, reg: u8) -> u8;

    fn write_reg(&mut self, reg: u8, val: u8);

    fn get_base(&self) -> usize;

    fn set_base(&mut self, base: usize);
}

/// Line control: word length field.
pub const UART_LCR_WLEN_MASK: u8 = 0x03;
/// Line control: two stop bits.
pub const UART_LCR_STOP: u8 = 0x04;
/// Line control: parity enable.
pub const UART_LCR_PARITY: u8 = 0x08;
/// Line control: even parity.
pub const UART_LCR_EPAR: u8 = 0x10;
/// Line control: stick parity.
pub const UART_LCR_SPAR: u8 = 0x20;
/// Line control: all parity bits.
pub const UART_LCR_PARITY_MASK: u8 = 0x38;
/// Line control: divisor latch access.
pub const UART_LCR_DLAB: u8 = 0x80;
/// Interrupt identification: no interrupt pending.
pub const UART_IIR_NO_INT: u8 = 0x01;
/// Interrupt identification: interrupt id field.
pub const UART_IIR_ID: u8 = 0x0e;
/// Interrupt id: modem status.
pub const UART_IIR_MSI: u8 = 0x00;
/// Interrupt id: transmitter holding register empty.
pub const UART_IIR_THRI: u8 = 0x02;
/// Interrupt id: received data available.
pub const UART_IIR_RDI: u8 = 0x04;
/// Interrupt id: receiver line status.
pub const UART_IIR_RLSI: u8 = 0x06;
/// Interrupt id: character timeout.
pub const UART_IIR_CTI: u8 = 0x0c;
/// Line status: data ready.
pub const UART_LSR_DR: u8 = 0x01;
/// Line status: overrun error.
pub const UART_LSR_OE: u8 = 0x02;
/// Line status: parity error.
pub const UART_LSR_PE: u8 = 0x04;
/// Line status: framing error.
pub const UART_LSR_FE: u8 = 0x08;
/// Line status: break interrupt.
pub const UART_LSR_BI: u8 = 0x10;
/// Line status: transmitter holding register empty.
pub const UART_LSR_THRE: u8 = 0x20;
/// Interrupt enable: received data available.
pub const UART_IER_RDI: u8 = 0x01;
/// Interrupt enable: transmitter holding register empty.
pub const UART_IER_THRI: u8 = 0x02;
/// Interrupt enable: receiver line status.
pub const UART_IER_RLSI: u8 = 0x04;
/// FIFO control: trigger level field.
pub const UART_FCR_TRIGGER_MASK: u8 = 0xc0;
/// FIFO control: trigger at 1 byte.
pub const UART_FCR_TRIGGER_1: u8 = 0x00;
/// FIFO control: trigger at 4 bytes.
pub const UART_FCR_TRIGGER_4: u8 = 0x40;
/// FIFO control: trigger at 8 bytes.
pub const UART_FCR_TRIGGER_8: u8 = 0x80;
/// FIFO control: trigger at 14 bytes.
pub const UART_FCR_TRIGGER_14: u8 = 0xc0;

/// Bits of a character.
#[derive(Debug, Clone, Copy, PartialEq, Eq, Structural)]
pub enum DataBits {
    Five,
    Six,
    Seven,
    Eight,
}

/// Stop bits of a character.
#[derive(Debug, Clone, Copy, PartialEq, Eq, Structural)]
pub enum StopBits {
    One,
    Two,
}

/// Parity of a character.
#[derive(Debug, Clone, Copy, PartialEq, Eq, Structural)]
pub enum Parity {
    NoParity,
    Odd,
    Even,
    Mark,
    Space,
}

/// A frame format the UART cannot take.
#[derive(Debug, Clone, Copy, PartialEq, Eq, Structural)]
pub enum UartConfigError {
    InvalidBaudrate,
}

/// An error of the receive path.
#[derive(Debug, Clone, Copy, PartialEq, Eq, Structural)]
pub enum UartTransferError {
    /// A character was lost; carries the character read with the error.
    Overrun(u8),
    Parity,
    Framing,
    Break,
}

/// Interrupts the driver's user asks for.
#[derive(Debug, Clone, Copy, PartialEq, Eq, Structural)]
pub struct UartIrqMask {
    pub rx_available: bool,
    pub tx_empty: bool,
}

/// The word-length field of a data-bits setting.
pub open spec fn wlen_field(b: DataBits) -> u8 {
    match b {
        DataBits::Five => 0,
        DataBits::Six => 1,
        DataBits::Seven => 2,
        DataBits::Eight => 3,
    }
}

/// Line control with the word length replaced.
pub open spec fn spec_lcr_with_data_bits(lcr: u8, b: DataBits) -> u8 {
    (lcr & !UART_LCR_WLEN_MASK) | wlen_field(b)
}

/// Data bits of a line control value.
pub open spec fn spec_data_bits_of(lcr: u8) -> DataBits {
    let w = lcr & UART_LCR_WLEN_MASK;
    if w == 0 {
        DataBits::Five
    } else if w == 1 {
        DataBits::Six
    } else if w == 2 {
        DataBits::Seven
    } else {
        DataBits::Eight
    }
}

/// Line control with the stop bits replaced.
pub open spec fn spec_lcr_with_stop_bits(lcr: u8, s: StopBits) -> u8 {
    match s {
        StopBits::One => lcr & !UART_LCR_STOP,
        StopBits::Two => lcr | UART_LCR_STOP,
    }
}

/// Stop bits of a line control value.
pub open spec fn spec_stop_bits_of(lcr: u8) -> StopBits {
    if lcr & UART_LCR_STOP != 0 {
        StopBits::Two
    } else {
        StopBits::One
    }
}

/// The parity bits of a parity setting: enable (0x08), with even (0x10)
/// and stick (0x20) parity.
pub open spec fn parity_field(p: Parity) -> u8 {
    match p {
        Parity::NoParity => 0,
        Parity::Odd => 0x08,
        Parity::Even => 0x18,
        Parity::Mark => 0x28,
        Parity::Space => 0x38,
    }
}

/// Line control with the parity replaced.
pub open spec fn spec_lcr_with_parity(lcr: u8, p: Parity) -> u8 {
    (lcr & !UART_LCR_PARITY_MASK) | parity_field(p)
}

/// Parity of a line control value.
pub open spec fn spec_parity_of(lcr: u8) -> Parity {
    if lcr & UART_LCR_PARITY == 0 {
        Parity::NoParity
    } else if lcr & UART_LCR_SPAR != 0 {
        if lcr & UART_LCR_EPAR != 0 {
            Parity::Space
        } else {
            Parity::Mark
        }
    } else if lcr & UART_LCR_EPAR != 0 {
        Parity::Even
    } else {
        Parity::Odd
    }
}

/// Set the word length in a line control value.
pub fn lcr_with_data_bits(lcr: u8, bits: DataBits) -> (r: u8)
    ensures
        r == spec_lcr_with_data_bits(lcr, bits),
{
    let wlen: u8 = match bits {
        DataBits::Five => 0,
        DataBits::Six => 1,
        DataBits::Seven => 2,
        DataBits::Eight => 3,
    };
    (lcr & !UART_LCR_WLEN_MASK) | wlen
}

/// Data bits of a line control value.
pub fn data_bits_of(lcr: u8) -> (b: DataBits)
    ensures
        b == spec_data_bits_of(lcr),
{
    let w = lcr & UART_LCR_WLEN_MASK;
    if w == 0 {
        DataBits::Five
    } else if w == 1 {
        DataBits::Six
    } else if w == 2 {
        DataBits::Seven
    } else {
        DataBits::Eight
    }
}

/// Set the stop bits in a line control value.
pub fn lcr_with_stop_bits(lcr: u8, bits: StopBits) -> (r: u8)
    ensures
        r == spec_lcr_with_stop_bits(lcr, bits),
{
    match bits {
        StopBits::One => lcr & !UART_LCR_STOP,
        StopBits::Two => lcr | UART_LCR_STOP,
    }
}

/// Stop bits of a line control value.
pub fn stop_bits_of(lcr: u8) -> (s: StopBits)
    ensures
        s == spec_stop_bits_of(lcr),
{
    if lcr & UART_LCR_STOP != 0 {
        StopBits::Two
    } else {
        StopBits::One
    }
}

/// Set the parity in a line control value.
pub fn lcr_with_parity(lcr: u8, parity: Parity) -> (r: u8)
    ensures
        r == spec_lcr_with_parity(lcr, parity),
{
    let bits: u8 = match parity {
        Parity::NoParity => 0,
        Parity::Odd => 0x08,
        Parity::Even => 0x18,
        Parity::Mark => 0x28,
        Parity::Space => 0x38,
    };
    (lcr & !UART_LCR_PARITY_MASK) | bits
}

/// Parity of a line control value.
pub fn parity_of(lcr: u8) -> (p: Parity)
    ensures
        p == spec_parity_of(lcr),
{
    if lcr & UART_LCR_PARITY == 0 {
        Parity::NoParity
    } else if lcr & UART_LCR_SPAR != 0 {
        if lcr & UART_LCR_EPAR != 0 {
            Parity::Space
        } else {
            Parity::Mark
        }
    } else if lcr & UART_LCR_EPAR != 0 {
        Parity::Even
    } else {
        Parity::Odd
    }
}

/// Bit facts of the line control and interrupt enable encodings.
proof fn lemma_uart_bits(lcr: u8, w: u8, pf: u8, t: u8)
    by (bit_vector)
    requires
        w <= 3,
        pf == 0 || pf == 0x08 || pf == 0x18 || pf == 0x28 || pf == 0x38,
        t == 0 || t == 0x40 || t == 0x80 || t == 0xc0,
    ensures
        lcr & 3u8 <= 3,
        ((lcr & !3u8) | w) & !3u8 == lcr & !3u8,
        ((lcr & !0xc0u8) | t) & 0xc0u8 == t,
        ((lcr & !0xc0u8) | t) & 0x3fu8 == lcr & 0x3fu8,
        ((lcr & !3u8) | w) & 3u8 == w,
        ((lcr & !3u8) | w) & 4u8 == lcr & 4u8,
        ((lcr & !3u8) | w) & 8u8 == lcr & 8u8,
        ((lcr & !3u8) | w) & 0x10u8 == lcr & 0x10u8,
        ((lcr & !3u8) | w) & 0x20u8 == lcr & 0x20u8,
        (lcr & !4u8) & 4u8 == 0,
        (lcr | 4u8) & 4u8 != 0,
        (lcr & !4u8) & 3u8 == lcr & 3u8,
        (lcr | 4u8) & 3u8 == lcr & 3u8,
        (lcr & !4u8) & 8u8 == lcr & 8u8,
        (lcr | 4u8) & 8u8 == lcr & 8u8,
        (lcr & !4u8) & 0x10u8 == lcr & 0x10u8,
        (lcr | 4u8) & 0x10u8 == lcr & 0x10u8,
        (lcr & !4u8) & 0x20u8 == lcr & 0x20u8,
        (lcr | 4u8) & 0x20u8 == lcr & 0x20u8,
        ((lcr & !0x38u8) | pf) & 3u8 == lcr & 3u8,
        ((lcr & !0x38u8) | pf) & 4u8 == lcr & 4u8,
        ((lcr & !0x38u8) | pf) & 8u8 == pf & 8u8,
        ((lcr & !0x38u8) | pf) & 0x10u8 == pf & 0x10u8,
        ((lcr & !0x38u8) | pf) & 0x20u8 == pf & 0x20u8,
        0u8 & 8u8 == 0 && 0x08u8 & 8u8 != 0 && 0x18u8 & 8u8 != 0 && 0x28u8 & 8u8 != 0 && 0x38u8 & 8u8 != 0,
        0x08u8 & 0x10u8 == 0 && 0x18u8 & 0x10u8 != 0 && 0x28u8 & 0x10u8 == 0 && 0x38u8 & 0x10u8 != 0,
        0x08u8 & 0x20u8 == 0 && 0x18u8 & 0x20u8 == 0 && 0x28u8 & 0x20u8 != 0 && 0x38u8 & 0x20u8 != 0,
        7u8 & 1u8 != 0 && 5u8 & 1u8 != 0 && 2u8 & 1u8 == 0 && 0u8 & 1u8 == 0,
        (1u8 | 4u8) | 2u8 == 7u8 && 1u8 | 4u8 == 5u8,
        0u8 & 0x10u8 == 0 && 0u8 & 0x20u8 == 0,
        7u8 & 4u8 != 0 && 5u8 & 4u8 != 0 && 2u8 & 4u8 == 0 && 0u8 & 4u8 == 0,
        7u8 & 2u8 != 0 && 5u8 & 2u8 == 0 && 2u8 & 2u8 != 0 && 0u8 & 2u8 == 0,
{
}

/// Each field of the frame format reads back as it was set, and setting
/// one field leaves the other two as they were.
pub proof fn law_line_control_round_trip(lcr: u8, b: DataBits, s: StopBits, p: Parity)
    ensures
        spec_data_bits_of(spec_lcr_with_data_bits(lcr, b)) == b,
        spec_stop_bits_of(spec_lcr_with_stop_bits(lcr, s)) == s,
        spec_parity_of(spec_lcr_with_parity(lcr, p)) == p,
        spec_stop_bits_of(spec_lcr_with_data_bits(lcr, b)) == spec_stop_bits_of(lcr),
        spec_parity_of(spec_lcr_with_data_bits(lcr, b)) == spec_parity_of(lcr),
        spec_data_bits_of(spec_lcr_with_stop_bits(lcr, s)) == spec_data_bits_of(lcr),
        spec_parity_of(spec_lcr_with_stop_bits(lcr, s)) == spec_parity_of(lcr),
        spec_data_bits_of(spec_lcr_with_parity(lcr, p)) == spec_data_bits_of(lcr),
        spec_stop_bits_of(spec_lcr_with_parity(lcr, p)) == spec_stop_bits_of(lcr),
{
    lemma_uart_bits(lcr, wlen_field(b), parity_field(p), 0);
}

/// Characters in a frame of a data-bits setting.
pub open spec fn data_bit_count(b: DataBits) -> int {
    match b {
        DataBits::Five => 5,
        DataBits::Six => 6,
        DataBits::Seven => 7,
        DataBits::Eight => 8,
    }
}

/// The word-length field of the line control is the number of data bits
/// minus five: setting `b` writes `data_bit_count(b) - 5` there and keeps
/// every other bit, and reading a value back gives five plus its field.
pub proof fn law_word_length_field(lcr: u8, b: DataBits)
    ensures
        (spec_lcr_with_data_bits(lcr, b) & UART_LCR_WLEN_MASK) + 5 == data_bit_count(b),
        spec_lcr_with_data_bits(lcr, b) & !UART_LCR_WLEN_MASK == lcr & !UART_LCR_WLEN_MASK,
        data_bit_count(spec_data_bits_of(lcr)) == (lcr & UART_LCR_WLEN_MASK) + 5,
{
    let w = wlen_field(b);
    lemma_uart_bits(lcr, w, 0, 0);
}

/// The register bits of the frame format: two stop bits set bit 2 and one
/// clears it; any parity sets the enable bit 3, even and space parity set
/// bit 4, mark and space (stick) parity set bit 5; no other bit changes.
pub proof fn law_line_control_bits(lcr: u8, s: StopBits, p: Parity)
    ensures
        (spec_lcr_with_stop_bits(lcr, s) & 0x04 != 0) <==> s == StopBits::Two,
        spec_lcr_with_stop_bits(lcr, s) & 0x03 == lcr & 0x03,
        spec_lcr_with_stop_bits(lcr, s) & 0x08 == lcr & 0x08,
        spec_lcr_with_stop_bits(lcr, s) & 0x10 == lcr & 0x10,
        spec_lcr_with_stop_bits(lcr, s) & 0x20 == lcr & 0x20,
        (spec_lcr_with_parity(lcr, p) & 0x08 != 0) <==> p != Parity::NoParity,
        (spec_lcr_with_parity(lcr, p) & 0x10 != 0) <==> (p == Parity::Even || p == Parity::Space),
        (spec_lcr_with_parity(lcr, p) & 0x20 != 0) <==> (p == Parity::Mark || p == Parity::Space),
        spec_lcr_with_parity(lcr, p) & 0x03 == lcr & 0x03,
        spec_lcr_with_parity(lcr, p) & 0x04 == lcr & 0x04,
{
    lemma_uart_bits(lcr, 0, parity_field(p), 0);
}

/// The interrupt enable bits of a mask: received data (bit 0) and receiver
/// line status (bit 2) exactly when received-data interrupts are wanted,
/// the transmitter holding register (bit 1) exactly when transmit-empty
/// interrupts are.
pub proof fn law_ier_bits(m: UartIrqMask)
    ensures
        (spec_ier_of_mask(m) & 0x01 != 0) <==> m.rx_available,
        (spec_ier_of_mask(m) & 0x04 != 0) <==> m.rx_available,
        (spec_ier_of_mask(m) & 0x02 != 0) <==> m.tx_empty,
{
    lemma_uart_bits(0, 0, 0, 0);
}

/// Set the FIFO trigger level field for a trigger level in bytes.
pub open spec fn spec_fifo_trigger(level: u8) -> u8 {
    if level <= 3 {
        UART_FCR_TRIGGER_1
    } else if level <= 7 {
        UART_FCR_TRIGGER_4
    } else if level <= 11 {
        UART_FCR_TRIGGER_8
    } else {
        UART_FCR_TRIGGER_14
    }
}

/// FIFO control with the trigger level for `level` bytes.
pub fn fcr_with_trigger(fcr: u8, level: u8) -> (r: u8)
    ensures
        r == (fcr & !UART_FCR_TRIGGER_MASK) | spec_fifo_trigger(level),
{
    let trigger = if level <= 3 {
        UART_FCR_TRIGGER_1
    } else if level <= 7 {
        UART_FCR_TRIGGER_4
    } else if level <= 11 {
        UART_FCR_TRIGGER_8
    } else {
        UART_FCR_TRIGGER_14
    };
    (fcr & !UART_FCR_TRIGGER_MASK) | trigger
}

/// The trigger field names the bytes the receiver FIFO collects before it
/// interrupts: one for levels 0 to 3, four for 4 to 7, eight for 8 to 11
/// and fourteen above, i.e. the field is `0x40 * min(level / 4, 3)`; the
/// other FIFO control bits are kept.
pub proof fn law_fifo_trigger_field(fcr: u8, level: u8)
    ensures
        ((fcr & !UART_FCR_TRIGGER_MASK) | spec_fifo_trigger(level)) & UART_FCR_TRIGGER_MASK == 0x40 * (
        if level / 4 >= 3 {
            3
        } else {
            level / 4
        }),
        ((fcr & !UART_FCR_TRIGGER_MASK) | spec_fifo_trigger(level)) & 0x3f == fcr & 0x3f,
{
    lemma_uart_bits(fcr, 0, 0, spec_fifo_trigger(level));
}

/// The baud-rate divisor for a clock: none for a zero rate or clock, or
/// when the divisor is zero or does not fit in 16 bits.
pub open spec fn spec_baud_divisor(clock_freq: u32, baudrate: u32) -> Option<u16> {
    if baudrate == 0 || clock_freq == 0 {
        None
    } else {
        let d = clock_freq as int / (16 * baudrate);
        if d == 0 || d > 0xffff {
            None
        } else {
            Some(d as u16)
        }
    }
}

/// The baud-rate divisor, or `InvalidBaudrate` when there is none.
pub fn baud_divisor(clock_freq: u32, baudrate: u32) -> (r: Result<u16, UartConfigError>)
    requires
        16 * baudrate <= u32::MAX,
    ensures
        match spec_baud_divisor(clock_freq, baudrate) {
            Some(d) => r == Ok::<u16, UartConfigError>(d),
            None => r == Err::<u16, UartConfigError>(UartConfigError::InvalidBaudrate),
        },
{
    if baudrate == 0 || clock_freq == 0 {
        return Err(UartConfigError::InvalidBaudrate);
    }
    let divisor = clock_freq / (16 * baudrate);
    if divisor == 0 || divisor > 0xffff {
        return Err(UartConfigError::InvalidBaudrate);
    }
    Ok(divisor as u16)
}

/// The divisor latch bytes (low, high) of a divisor.
pub fn divisor_latch(divisor: u16) -> (r: (u8, u8))
    ensures
        r.0 == divisor % 256,
        r.1 == divisor / 256,
{
    ((divisor % 256) as u8, (divisor / 256) as u8)
}

/// The baud rate the divisor latch gives at a clock; zero for a zero
/// divisor.
pub open spec fn spec_baudrate_of(clock_freq: u32, dll: u8, dlh: u8) -> u32 {
    let d = dll + 256 * dlh;
    if d == 0 {
        0
    } else {
        (clock_freq as int / (16 * d)) as u32
    }
}

/// The baud rate the divisor latch gives at a clock.
pub fn baudrate_of(clock_freq: u32, dll: u8, dlh: u8) -> (b: u32)
    ensures
        b == spec_baudrate_of(clock_freq, dll, dlh),
{
    let divisor: u32 = (dll as u32) + 256 * (dlh as u32);
    if divisor == 0 {
        return 0;
    }
    clock_freq / (16 * divisor)
}

/// The divisor written for a baud rate reads back from the latch as the
/// rate that divisor gives.
pub proof fn law_baud_round_trip(clock_freq: u32, baudrate: u32)
    requires
        spec_baud_divisor(clock_freq, baudrate) is Some,
    ensures
        ({
            let d = spec_baud_divisor(clock_freq, baudrate).unwrap();
            spec_baudrate_of(clock_freq, (d % 256) as u8, (d / 256) as u8) == clock_freq as int / (16
                * d)
        }),
{
}

/// Interrupt-enable bits for an interrupt mask: received data with line
/// status, and the transmitter holding register.
pub open spec fn spec_ier_of_mask(m: UartIrqMask) -> u8 {
    if m.rx_available && m.tx_empty {
        UART_IER_RDI | UART_IER_RLSI | UART_IER_THRI
    } else if m.rx_available {
        UART_IER_RDI | UART_IER_RLSI
    } else if m.tx_empty {
        UART_IER_THRI
    } else {
        0
    }
}

/// The interrupt-enable value of a mask, and whether transmit-empty
/// interrupts are wanted.
pub fn ier_of_mask(m: UartIrqMask) -> (r: (u8, bool))
    ensures
        r.0 == spec_ier_of_mask(m),
        r.1 == m.tx_empty,
{
    let ier: u8 = if m.rx_available && m.tx_empty {
        UART_IER_RDI | UART_IER_RLSI | UART_IER_THRI
    } else if m.rx_available {
        UART_IER_RDI | UART_IER_RLSI
    } else if m.tx_empty {
        UART_IER_THRI
    } else {
        0
    };
    (ier, m.tx_empty)
}

/// The interrupt mask an interrupt-enable value and the transmit-empty
/// choice stand for.
pub fn mask_of(ier: u8, tx_int_enabled: bool) -> (m: UartIrqMask)
    ensures
        m == (UartIrqMask { rx_available: ier & UART_IER_RDI != 0, tx_empty: tx_int_enabled }),
{
    UartIrqMask { rx_available: ier & UART_IER_RDI != 0, tx_empty: tx_int_enabled }
}

/// A mask that was set reads back unchanged.
pub proof fn law_irq_mask_round_trip(m: UartIrqMask)
    ensures
        (UartIrqMask { rx_available: spec_ier_of_mask(m) & UART_IER_RDI != 0, tx_empty: m.tx_empty })
            == m,
{
    lemma_uart_bits(0, 0, 0, 0);
}

/// What a pending interrupt asks of the driver.
#[derive(Debug, Clone, Copy, PartialEq, Eq, Structural)]
pub enum UartIrq {
    /// Nothing is pending.
    NoInterrupt,
    /// A receive error: read the line status, then the character.
    LineStatus,
    /// Received data or a character timeout: drain the receiver.
    RxData,
    /// The transmitter holding register is empty.
    TxEmpty,
    /// Modem status changed: read it to clear it.
    ModemStatus,
    /// An interrupt id the driver does not handle.
    Other,
}

/// The interrupt an interrupt identification value reports.
pub open spec fn spec_uart_irq(iir: u8) -> UartIrq {
    if iir & UART_IIR_NO_INT != 0 {
        UartIrq::NoInterrupt
    } else {
        let id = iir & UART_IIR_ID;
        if id == UART_IIR_RLSI {
            UartIrq::LineStatus
        } else if id == UART_IIR_RDI || id == UART_IIR_CTI {
            UartIrq::RxData
        } else if id == UART_IIR_THRI {
            UartIrq::TxEmpty
        } else if id == UART_IIR_MSI {
            UartIrq::ModemStatus
        } else {
            UartIrq::Other
        }
    }
}

/// Decode the interrupt identification register.
pub fn uart_irq_decision(iir: u8) -> (r: UartIrq)
    ensures
        r == spec_uart_irq(iir),
{
    if iir & UART_IIR_NO_INT != 0 {
        return UartIrq::NoInterrupt;
    }
    let id = iir & UART_IIR_ID;
    if id == UART_IIR_RLSI {
        UartIrq::LineStatus
    } else if id == UART_IIR_RDI || id == UART_IIR_CTI {
        UartIrq::RxData
    } else if id == UART_IIR_THRI {
        UartIrq::TxEmpty
    } else if id == UART_IIR_MSI {
        UartIrq::ModemStatus
    } else {
        UartIrq::Other
    }
}

/// What a receiver-line-status interrupt leaves: the error it reports, by
/// priority (overrun, parity, framing, break), or else the character `d`
/// to store when data is ready; nothing when neither holds.
pub open spec fn spec_line_status_outcome(lsr: u8, d: u8) -> Option<Result<u8, UartTransferError>> {
    if lsr & UART_LSR_OE != 0 {
        Some(Err(UartTransferError::Overrun(d)))
    } else if lsr & UART_LSR_PE != 0 {
        Some(Err(UartTransferError::Parity))
    } else if lsr & UART_LSR_FE != 0 {
        Some(Err(UartTransferError::Framing))
    } else if lsr & UART_LSR_BI != 0 {
        Some(Err(UartTransferError::Break))
    } else if lsr & UART_LSR_DR != 0 {
        Some(Ok(d))
    } else {
        None
    }
}

/// Decide a receiver-line-status interrupt from the line status and the
/// character read after it. Received data is reported exactly when the
/// result is `Some`.
pub fn line_status_outcome(lsr: u8, d: u8) -> (r: Option<Result<u8, UartTransferError>>)
    ensures
        r == spec_line_status_outcome(lsr, d),
{
    if lsr & UART_LSR_OE != 0 {
        Some(Err(UartTransferError::Overrun(d)))
    } else if lsr & UART_LSR_PE != 0 {
        Some(Err(UartTransferError::Parity))
    } else if lsr & UART_LSR_FE != 0 {
        Some(Err(UartTransferError::Framing))
    } else if lsr & UART_LSR_BI != 0 {
        Some(Err(UartTransferError::Break))
    } else if lsr & UART_LSR_DR != 0 {
        Some(Ok(d))
    } else {
        None
    }
}

/// Answer a transmitter-empty interrupt: the interrupt enable value with
/// the transmitter interrupt switched off (writing a byte switches it on
/// again), and whether to report it to the user.
pub fn tx_empty_response(ier: u8, tx_int_enabled: bool) -> (r: (u8, bool))
    ensures
        r.0 == ier & !UART_IER_THRI,
        r.1 == tx_int_enabled,
{
    (ier & !UART_IER_THRI, tx_int_enabled)
}

/// The interrupt enable value after a byte is written: the transmitter
/// interrupt switched on again when the user wants it.
pub fn ier_after_write(ier: u8, tx_int_enabled: bool) -> (r: u8)
    ensures
        r == (if tx_int_enabled {
            ier | UART_IER_THRI
        } else {
            ier
        }),
{
    if tx_int_enabled {
        ier | UART_IER_THRI
    } else {
        ier
    }
}

/// The line status the driver reports, and whether it must read a
/// character into its receive queue first.
#[derive(Debug, Clone, Copy, PartialEq, Eq, Structural)]
pub struct UartLineView {
    pub data_ready: bool,
    pub tx_holding_empty: bool,
    pub read_rbr: bool,
}

/// Data is ready when an error waits, or, with receive interrupts on,
/// when the receive queue holds data; with them off, when the line status
/// says so, and then the character is read into the queue.
pub open spec fn spec_line_view(has_err: bool, lsr: u8, ier: u8, queue_nonempty: bool) -> UartLineView {
    let rdi = ier & UART_IER_RDI != 0;
    let dr = lsr & UART_LSR_DR != 0;
    UartLineView {
        data_ready: has_err || (if rdi {
            queue_nonempty
        } else {
            dr
        }),
        tx_holding_empty: lsr & UART_LSR_THRE != 0,
        read_rbr: !rdi && dr,
    }
}

/// Decide the line status report.
pub fn line_view(has_err: bool, lsr: u8, ier: u8, queue_nonempty: bool) -> (v: UartLineView)
    ensures
        v == spec_line_view(has_err, lsr, ier, queue_nonempty),
{
    let rdi = ier & UART_IER_RDI != 0;
    let dr = lsr & UART_LSR_DR != 0;
    UartLineView {
        data_ready: has_err || (if rdi {
            queue_nonempty
        } else {
            dr
        }),
        tx_holding_empty: lsr & UART_LSR_THRE != 0,
        read_rbr: !rdi && dr,
    }
}

/// The interrupt identification register of a 16550: bit 0 set means no
/// interrupt is pending; otherwise bits 3:1 name it: 0b011 a receiver line
/// status, 0b010 received data and 0b110 a character timeout (both drained
/// as received data), 0b001 an empty transmitter holding register and 0b000
/// a modem status change.
pub proof fn law_uart_irq_ids(iir: u8)
    ensures
        (spec_uart_irq(iir) == UartIrq::NoInterrupt) <==> iir & 0x01 != 0,
        iir & 0x01 == 0 ==> ((spec_uart_irq(iir) == UartIrq::LineStatus) <==> iir & 0x0e == 0x06),
        iir & 0x01 == 0 ==> ((spec_uart_irq(iir) == UartIrq::RxData) <==> (iir & 0x0e == 0x04 || iir
            & 0x0e == 0x0c)),
        iir & 0x01 == 0 ==> ((spec_uart_irq(iir) == UartIrq::TxEmpty) <==> iir & 0x0e == 0x02),
        iir & 0x01 == 0 ==> ((spec_uart_irq(iir) == UartIrq::ModemStatus) <==> iir & 0x0e == 0x00),
{
}

/// A receiver-line-status interrupt reports an overrun (bit 1, carrying
/// the character read) before a parity error (bit 2), a framing error
/// (bit 3) and a break (bit 4); the character is stored only when no error
/// bit is set and data is ready (bit 0).
pub proof fn law_line_status_priority(lsr: u8, d: u8)
    ensures
        (spec_line_status_outcome(lsr, d) == Some(Err::<u8, UartTransferError>(
            UartTransferError::Overrun(d),
        ))) <==> lsr & 0x02 != 0,
        (spec_line_status_outcome(lsr, d) == Some(Err::<u8, UartTransferError>(
            UartTransferError::Parity,
        ))) <==> (lsr & 0x02 == 0 && lsr & 0x04 != 0),
        (spec_line_status_outcome(lsr, d) == Some(Err::<u8, UartTransferError>(
            UartTransferError::Framing,
        ))) <==> (lsr & 0x02 == 0 && lsr & 0x04 == 0 && lsr & 0x08 != 0),
        (spec_line_status_outcome(lsr, d) == Some(Err::<u8, UartTransferError>(
            UartTransferError::Break,
        ))) <==> (lsr & 0x02 == 0 && lsr & 0x04 == 0 && lsr & 0x08 == 0 && lsr & 0x10 != 0),
        (spec_line_status_outcome(lsr, d) == Some(Ok::<u8, UartTransferError>(d))) <==> (lsr & 0x02
            == 0 && lsr & 0x04 == 0 && lsr & 0x08 == 0 && lsr & 0x10 == 0 && lsr & 0x01 != 0),
        spec_line_status_outcome(lsr, d) is None <==> (lsr & 0x02 == 0 && lsr & 0x04 == 0 && lsr
            & 0x08 == 0 && lsr & 0x10 == 0 && lsr & 0x01 == 0),
{
}

/// The divisor chosen for a baud rate is the largest whose rate is at
/// least the one asked: `16 * baudrate * d <= clock_freq < 16 * baudrate *
/// (d + 1)`, and it fits the 16-bit latch; there is none exactly when the
/// rate or clock is zero or no such divisor lies in 1 to 0xffff.
pub proof fn law_baud_divisor_bounds(clock_freq: u32, baudrate: u32)
    ensures
        spec_baud_divisor(clock_freq, baudrate) matches Some(d) ==> {
            &&& 1 <= d <= 0xffff
            &&& 16 * baudrate * d <= clock_freq
            &&& clock_freq < 16 * baudrate * (d + 1)
        },
        spec_baud_divisor(clock_freq, baudrate) is None <==> (baudrate == 0 || clock_freq == 0
            || clock_freq < 16 * baudrate || clock_freq >= 16 * baudrate * 0x10000),
{
    if baudrate != 0 && clock_freq != 0 {
        let m = 16 * baudrate;
        let q = clock_freq as int / m;
        vstd::arithmetic::div_mod::lemma_fundamental_div_mod(clock_freq as int, m);
        vstd::arithmetic::div_mod::lemma_mod_pos_bound(clock_freq as int, m);
        assert(m * q <= clock_freq < m * (q + 1)) by (nonlinear_arith)
            requires
                clock_freq == m * q + clock_freq as int % m,
                0 <= clock_freq as int % m < m,
        ;
        if q > 0xffff {
            assert(m * 0x10000 <= m * q) by (nonlinear_arith)
                requires
                    q >= 0x10000,
                    m > 0,
            ;
        }
        if q <= 0xffff {
            assert(m * (q + 1) <= m * 0x10000) by (nonlinear_arith)
                requires
                    q + 1 <= 0x10000,
                    m > 0,
            ;
        }
        if q == 0 {
            assert(m * (q + 1) == m) by (nonlinear_arith)
                requires
                    q == 0,
            ;
        } else {
            assert(m <= m * q) by (nonlinear_arith)
                requires
                    q >= 1,
                    m > 0,
            ;
        }
    }
}

/// The baud rate read back from a divisor latch holding `d` (low byte
/// `dll`, high byte `dlh`) is the largest rate whose divisor is `d`:
/// `16 * d * rate <= clock_freq < 16 * d * (rate + 1)`; no rate for a zero
/// latch.
pub proof fn law_baudrate_read_back(clock_freq: u32, dll: u8, dlh: u8)
    ensures
        dll == 0 && dlh == 0 ==> spec_baudrate_of(clock_freq, dll, dlh) == 0,
        ({
            let d = dll + 256 * dlh;
            let b = spec_baudrate_of(clock_freq, dll, dlh);
            d > 0 ==> 16 * d * b <= clock_freq < 16 * d * (b + 1)
        }),
{
    let d = dll + 256 * dlh;
    if d > 0 {
        let m = 16 * d;
        let q = clock_freq as int / m;
        vstd::arithmetic::div_mod::lemma_fundamental_div_mod(clock_freq as int, m);
        vstd::arithmetic::div_mod::lemma_mod_pos_bound(clock_freq as int, m);
        assert(0 <= q <= clock_freq) by (nonlinear_arith)
            requires
                clock_freq == m * q + clock_freq as int % m,
                0 <= clock_freq as int % m < m,
                m >= 16,
        ;
        assert(m * q <= clock_freq < m * (q + 1)) by (nonlinear_arith)
            requires
                clock_freq == m * q + clock_freq as int % m,
                0 <= clock_freq as int % m < m,
        ;
    }
}

/// The line status report: data is ready when an error waits, else, with
/// received-data interrupts on (IER bit 0), when the receive queue holds
/// data, else when the line status says so (LSR bit 0), and only then is a
/// character read; the transmitter holding register is reported empty
/// exactly when LSR bit 5 says so.
pub proof fn law_line_view_bits(has_err: bool, lsr: u8, ier: u8, queue_nonempty: bool)
    ensures
        spec_line_view(has_err, lsr, ier, queue_nonempty).data_ready == (has_err || (if ier & 0x01 != 0 {
            queue_nonempty
        } else {
            lsr & 0x01 != 0
        })),
        spec_line_view(has_err, lsr, ier, queue_nonempty).read_rbr == (ier & 0x01 == 0 && lsr & 0x01 != 0),
        spec_line_view(has_err, lsr, ier, queue_nonempty).tx_holding_empty == (lsr & 0x20 != 0),
{
}

} // verus!
