use rknpu_drivers::serial::{
    baud_divisor, baudrate_of, data_bits_of, divisor_latch, fcr_with_trigger, ier_after_write,
    ier_of_mask, lcr_with_data_bits, lcr_with_parity, lcr_with_stop_bits, line_status_outcome,
    line_view, mask_of, parity_of, stop_bits_of, tx_empty_response, uart_irq_decision, DataBits,
    Parity, StopBits, UartConfigError, UartIrq, UartIrqMask, UartLineView, UartTransferError,
};

#[test]
fn frame_format_fields_read_back() {
    let lcr = lcr_with_data_bits(0x80, DataBits::Eight);
    assert_eq!(lcr, 0x83);
    assert_eq!(data_bits_of(lcr), DataBits::Eight);
    let lcr = lcr_with_stop_bits(lcr, StopBits::Two);
    assert_eq!(lcr, 0x87);
    assert_eq!(stop_bits_of(lcr), StopBits::Two);
    let lcr = lcr_with_parity(lcr, Parity::Space);
    assert_eq!(lcr, 0xbf);
    assert_eq!(parity_of(lcr), Parity::Space);
    assert_eq!(data_bits_of(lcr), DataBits::Eight);
    assert_eq!(stop_bits_of(lcr), StopBits::Two);
    let lcr = lcr_with_parity(lcr, Parity::Even);
    assert_eq!(lcr, 0x9f);
    assert_eq!(parity_of(lcr), Parity::Even);
    assert_eq!(parity_of(lcr_with_parity(lcr, Parity::Odd)), Parity::Odd);
    assert_eq!(parity_of(lcr_with_parity(lcr, Parity::Mark)), Parity::Mark);
    assert_eq!(parity_of(lcr_with_parity(lcr, Parity::NoParity)), Parity::NoParity);
    assert_eq!(data_bits_of(lcr_with_data_bits(lcr, DataBits::Five)), DataBits::Five);
    assert_eq!(stop_bits_of(lcr_with_stop_bits(lcr, StopBits::One)), StopBits::One);
}

#[test]
fn baud_divisor_and_its_read_back() {
    assert_eq!(baud_divisor(24_000_000, 115_200), Ok(13));
    assert_eq!(baud_divisor(24_000_000, 0), Err(UartConfigError::InvalidBaudrate));
    assert_eq!(baud_divisor(0, 9600), Err(UartConfigError::InvalidBaudrate));
    assert_eq!(baud_divisor(1_000, 115_200), Err(UartConfigError::InvalidBaudrate));
    assert_eq!(baud_divisor(0xffff_ffff, 1), Err(UartConfigError::InvalidBaudrate));
    assert_eq!(divisor_latch(0x1234), (0x34, 0x12));
    assert_eq!(baudrate_of(24_000_000, 13, 0), 115_384);
    assert_eq!(baudrate_of(24_000_000, 0, 0), 0);
    assert_eq!(baudrate_of(1_843_200, 0x00, 0x01), 450);
}

#[test]
fn fifo_trigger_levels() {
    assert_eq!(fcr_with_trigger(0xc7, 0), 0x07);
    assert_eq!(fcr_with_trigger(0x01, 4), 0x41);
    assert_eq!(fcr_with_trigger(0x01, 11), 0x81);
    assert_eq!(fcr_with_trigger(0x01, 200), 0xc1);
}

#[test]
fn irq_mask_round_trip() {
    for (rx, tx, ier) in [(false, false, 0u8), (true, false, 5), (false, true, 2), (true, true, 7)] {
        let m = UartIrqMask { rx_available: rx, tx_empty: tx };
        let (v, t) = ier_of_mask(m);
        assert_eq!(v, ier);
        assert_eq!(mask_of(v, t), m);
    }
}

#[test]
fn pending_interrupts_are_told_apart() {
    assert_eq!(uart_irq_decision(0xc1), UartIrq::NoInterrupt);
    assert_eq!(uart_irq_decision(0xc6), UartIrq::LineStatus);
    assert_eq!(uart_irq_decision(0xc4), UartIrq::RxData);
    assert_eq!(uart_irq_decision(0xcc), UartIrq::RxData);
    assert_eq!(uart_irq_decision(0xc2), UartIrq::TxEmpty);
    assert_eq!(uart_irq_decision(0xc0), UartIrq::ModemStatus);
    assert_eq!(uart_irq_decision(0x08), UartIrq::Other);
}

#[test]
fn line_status_errors_by_priority() {
    assert_eq!(line_status_outcome(0x1f, 7), Some(Err(UartTransferError::Overrun(7))));
    assert_eq!(line_status_outcome(0x1d, 7), Some(Err(UartTransferError::Parity)));
    assert_eq!(line_status_outcome(0x19, 7), Some(Err(UartTransferError::Framing)));
    assert_eq!(line_status_outcome(0x11, 7), Some(Err(UartTransferError::Break)));
    assert_eq!(line_status_outcome(0x61, 7), Some(Ok(7)));
    assert_eq!(line_status_outcome(0x60, 7), None);
}

#[test]
fn transmitter_interrupt_toggling() {
    assert_eq!(tx_empty_response(0x07, true), (0x05, true));
    assert_eq!(tx_empty_response(0x07, false), (0x05, false));
    assert_eq!(ier_after_write(0x05, true), 0x07);
    assert_eq!(ier_after_write(0x05, false), 0x05);
}

#[test]
fn line_status_report() {
    assert_eq!(
        line_view(false, 0x61, 0x01, false),
        UartLineView { data_ready: false, tx_holding_empty: true, read_rbr: false }
    );
    assert_eq!(
        line_view(false, 0x61, 0x00, false),
        UartLineView { data_ready: true, tx_holding_empty: true, read_rbr: true }
    );
    assert_eq!(
        line_view(true, 0x00, 0x01, false),
        UartLineView { data_ready: true, tx_holding_empty: false, read_rbr: false }
    );
    assert_eq!(
        line_view(false, 0x00, 0x01, true),
        UartLineView { data_ready: true, tx_holding_empty: false, read_rbr: false }
    );
}
