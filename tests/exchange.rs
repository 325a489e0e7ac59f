use rnfc_st25r39::{
    fifo_read_len, poll_step, received_bytes, tx_length_registers, tx_setup, CollisionPosition,
    Command, Error, ErrorKind, Exchange, FieldOnError, FifoStatus, Frame, Iso14443a, IrqFlags,
    PollStep, StartError, TxLength,
};

fn no_irqs() -> IrqFlags {
    IrqFlags { framing: false, parity: false, crc: false, collision: false, rx_end: false }
}

fn status(count: usize) -> FifoStatus {
    FifoStatus {
        overflow: false,
        underflow: false,
        last_byte_missing_parity: false,
        count_low: (count % 256) as u8,
        count_high: (count / 256) as u8,
    }
}

fn session() -> Iso14443a {
    Iso14443a::start_iso14443a(Ok(())).result.unwrap()
}

#[test]
fn error_kinds() {
    assert_eq!(Error::Timeout.kind(), ErrorKind::NoResponse);
    for e in [
        Error::Framing,
        Error::FramingLastByteMissingParity,
        Error::Crc,
        Error::Collision,
        Error::Parity,
        Error::ResponseTooShort,
        Error::ResponseTooLong,
        Error::FifoOverflow,
        Error::FifoUnderflow,
    ] {
        assert_eq!(e.kind(), ErrorKind::Other);
    }
}

#[test]
fn short_frames_setup() {
    let r = tx_setup(0, Frame::ReqA);
    assert_eq!(r.command, Command::TransmitReqa);
    assert!(r.raw && !r.anticoll);
    assert_eq!(r.tx_length, None);
    assert_eq!(r.fifo_len, 0);
    assert_eq!(r.fwt_ms, 5);
    assert!(r.receiver.agc_en && r.receiver.corr_s6 && !r.receiver.antcl && r.receiver.no_crc_rx);
    assert!(r.receiver.sqm_dyn && r.receiver.agc_m && r.receiver.agc6_3);
    let w = tx_setup(3, Frame::WupA);
    assert_eq!(w.command, Command::TransmitWupa);
    assert_eq!(w.fifo_len, 0);
}

#[test]
fn anticoll_setup() {
    let r = tx_setup(5, Frame::Anticoll { bits: 20 });
    assert_eq!(r.command, Command::TransmitWithoutCrc);
    assert!(r.raw && r.anticoll);
    assert_eq!(r.fifo_len, 3);
    assert_eq!(r.tx_length, Some(TxLength { low: 20, high: 0 }));
    assert_eq!(r.fwt_ms, 5);
    assert!(!r.receiver.agc_en && !r.receiver.corr_s6 && r.receiver.antcl && r.receiver.sqm_dyn);
    assert_eq!(tx_setup(5, Frame::Anticoll { bits: 16 }).fifo_len, 2);
    assert_eq!(tx_setup(5, Frame::Anticoll { bits: 0 }).fifo_len, 0);
}

#[test]
fn standard_setup() {
    let r = tx_setup(300, Frame::Standard { timeout_ms: 40 });
    assert_eq!(r.command, Command::TransmitWithCrc);
    assert!(!r.raw && !r.anticoll);
    assert_eq!(r.fifo_len, 300);
    // 2400 bits = 0x960
    assert_eq!(r.tx_length, Some(TxLength { low: 0x60, high: 0x09 }));
    assert_eq!(r.fwt_ms, 40);
    assert!(r.receiver.agc_en && !r.receiver.no_crc_rx);
}

#[test]
fn length_registers() {
    assert_eq!(tx_length_registers(0x1234), TxLength { low: 0x34, high: 0x12 });
    assert_eq!(tx_length_registers(70000), TxLength { low: 0x70, high: 0x11 });
}

#[test]
fn poll_fault_priority() {
    let all = IrqFlags { framing: true, parity: true, crc: true, collision: true, rx_end: true };
    assert_eq!(poll_step(all, false, 0), PollStep::Fault(Error::Framing));
    let f = IrqFlags { framing: false, ..all };
    assert_eq!(poll_step(f, false, 0), PollStep::Fault(Error::Parity));
    let f = IrqFlags { parity: false, ..f };
    assert_eq!(poll_step(f, false, 0), PollStep::Fault(Error::Crc));
    let f = IrqFlags { crc: false, ..f };
    assert_eq!(poll_step(f, false, 0), PollStep::Fault(Error::Collision));
    assert_eq!(poll_step(f, true, 0), PollStep::Received);
    assert_eq!(poll_step(no_irqs(), false, 499), PollStep::Pending);
    assert_eq!(poll_step(no_irqs(), false, 500), PollStep::Fault(Error::Timeout));
    let col = IrqFlags { collision: true, ..no_irqs() };
    assert_eq!(poll_step(col, true, 10), PollStep::Pending);
}

#[test]
fn fifo_status_checks() {
    let all = FifoStatus {
        overflow: true,
        underflow: true,
        last_byte_missing_parity: true,
        count_low: 1,
        count_high: 0,
    };
    assert_eq!(received_bytes(all), Err(Error::FifoOverflow));
    let s = FifoStatus { overflow: false, ..all };
    assert_eq!(received_bytes(s), Err(Error::FifoUnderflow));
    let s = FifoStatus { underflow: false, ..s };
    assert_eq!(received_bytes(s), Err(Error::FramingLastByteMissingParity));
    let s = FifoStatus { last_byte_missing_parity: false, count_low: 0x12, count_high: 1, ..s };
    assert_eq!(received_bytes(s), Ok(274));
}

#[test]
fn standard_too_short_reads_nothing() {
    let s = session();
    let ex = Exchange::begin(&s, 2, 16, Frame::Standard { timeout_ms: 10 });
    assert_eq!(ex.read_count(status(1)), Err(Error::ResponseTooShort));
    assert_eq!(ex.read_count(status(0)), Err(Error::ResponseTooShort));
    assert_eq!(fifo_read_len(Frame::Standard { timeout_ms: 10 }, 1, 16), Err(Error::ResponseTooShort));
}

#[test]
fn standard_too_long_reads_nothing() {
    let s = session();
    let ex = Exchange::begin(&s, 2, 7, Frame::Standard { timeout_ms: 10 });
    assert_eq!(ex.read_count(status(10)), Err(Error::ResponseTooLong));
    assert_eq!(ex.read_count(status(9)), Ok(7));
}

#[test]
fn standard_answer_strips_crc() {
    let s = session();
    let tx = [0x30u8, 0x04];
    let mut rx = [0u8; 18];
    let ex = Exchange::begin(&s, tx.len(), rx.len(), Frame::Standard { timeout_ms: 10 });
    let n = ex.read_count(status(18)).unwrap();
    assert_eq!(n, 16);
    let fifo: Vec<u8> = (1..=16).collect();
    assert_eq!(ex.finish(&tx, &fifo, None, &mut rx), 128);
    assert_eq!(&rx[..16], &fifo[..]);
    assert_eq!(&rx[16..], &[0, 0]);
}

#[test]
fn reqa_answer_is_raw() {
    let s = session();
    let mut rx = [0u8; 2];
    let ex = Exchange::begin(&s, 0, rx.len(), Frame::ReqA);
    assert_eq!(ex.read_count(status(2)), Ok(2));
    assert_eq!(ex.read_count(status(3)), Err(Error::ResponseTooLong));
    assert_eq!(ex.finish(&[], &[0x44, 0x00], None, &mut rx), 16);
    assert_eq!(rx, [0x44, 0x00]);
}

#[test]
fn anticoll_echoes_reader_bits() {
    let s = session();
    let tx = [0x11u8, 0x22, 0x3F];
    let mut rx = [0u8; 8];
    let frame = Frame::Anticoll { bits: 20 };
    let ex = Exchange::begin(&s, tx.len(), rx.len(), frame);
    let n = ex.read_count(status(3)).unwrap();
    assert_eq!(n, 3);
    let bits = ex.finish(&tx, &[0xA0, 0xBB, 0xCC], None, &mut rx);
    assert_eq!(rx, [0x11, 0x22, 0xAF, 0xBB, 0xCC, 0, 0, 0]);
    assert_eq!(bits, 16 + 24);
}

#[test]
fn anticoll_every_bit_count_echoes() {
    let tx = [0xA5u8, 0x5A, 0xFF, 0x0F, 0xF0];
    for bits in 0..=40usize {
        let s = session();
        let mut rx = [0u8; 10];
        let ex = Exchange::begin(&s, tx.len(), rx.len(), Frame::Anticoll { bits });
        let fifo = [0u8; 2];
        assert_eq!(ex.read_count(status(2)), Ok(2));
        ex.finish(&tx, &fifo, None, &mut rx);
        assert_eq!(&rx[..bits / 8], &tx[..bits / 8]);
        if bits % 8 != 0 {
            let mask = (1u8 << (bits % 8)) - 1;
            assert_eq!(rx[bits / 8], tx[bits / 8] & mask);
        }
    }
}

#[test]
fn anticoll_collision_position() {
    let s = session();
    let tx = [0x93u8, 0x70, 0x01, 0x02, 0x03];
    let mut rx = [0u8; 10];
    let ex = Exchange::begin(&s, tx.len(), rx.len(), Frame::Anticoll { bits: 40 });
    assert_eq!(ex.read_count(status(4)), Ok(4));
    let col = CollisionPosition { byte: 2, bit: 3 };
    let bits = ex.finish(&tx, &[9, 9, 9, 9], Some(col), &mut rx);
    assert_eq!(bits, 19);
    assert_eq!(&rx[..5], &tx[..]);
    assert_eq!(&rx[5..9], &[9, 9, 9, 9]);
}

#[test]
fn anticoll_answer_too_long() {
    let s = session();
    let ex = Exchange::begin(&s, 5, 6, Frame::Anticoll { bits: 32 });
    assert_eq!(ex.read_count(status(3)), Err(Error::ResponseTooLong));
    assert_eq!(ex.read_count(status(2)), Ok(2));
    let ex = Exchange::begin(&s, 5, 4, Frame::Anticoll { bits: 36 });
    assert_eq!(ex.read_count(status(0)), Err(Error::ResponseTooLong));
}

#[test]
fn timeout_then_exchange_succeeds() {
    let s = session();
    let ex = Exchange::begin(&s, 0, 2, Frame::ReqA);
    assert_eq!(ex.answer_started(false), Err(Error::Timeout));
    assert_eq!(Error::Timeout.kind(), ErrorKind::NoResponse);
    assert!(s.active());
    let ex = Exchange::begin(&s, 0, 2, Frame::WupA);
    assert_eq!(ex.setup().command, Command::TransmitWupa);
    assert_eq!(ex.answer_started(true), Ok(()));
    let done = IrqFlags { rx_end: true, ..no_irqs() };
    assert_eq!(ex.poll(done, 3), PollStep::Received);
    let mut rx = [0u8; 2];
    assert_eq!(ex.read_count(status(2)), Ok(2));
    assert_eq!(ex.finish(&[], &[0x04, 0x00], None, &mut rx), 16);
    assert_eq!(rx, [0x04, 0x00]);
}

#[test]
fn release_switches_off_once_after_error() {
    let mut s = session();
    let ex = Exchange::begin(&s, 2, 4, Frame::Standard { timeout_ms: 5 });
    assert_eq!(ex.poll(IrqFlags { crc: true, ..no_irqs() }, 0), PollStep::Fault(Error::Crc));
    let mut switched_off = 0;
    for _ in 0..3 {
        if s.release() {
            switched_off += 1;
        }
    }
    assert_eq!(switched_off, 1);
    assert!(!s.active());
}

#[test]
fn start_with_field_collision_reverts_mode() {
    let plan = Iso14443a::start_iso14443a(Err(FieldOnError::FieldCollision));
    assert!(matches!(plan.result, Err(StartError::FieldCollision)));
    assert!(plan.mode_off);
    assert_eq!(plan.guard_ms, 0);
    let plan = Iso14443a::start_iso14443a(Ok(()));
    assert!(!plan.mode_off);
    assert_eq!(plan.guard_ms, 5);
    assert!(plan.result.unwrap().active());
}

#[test]
fn frame_fits_transmit_buffer() {
    assert!(Frame::ReqA.fits(0));
    assert!(Frame::Anticoll { bits: 16 }.fits(2));
    assert!(!Frame::Anticoll { bits: 17 }.fits(2));
    assert!(Frame::Anticoll { bits: 17 }.fits(3));
    assert!(Frame::Anticoll { bits: 0 }.fits(0));
    assert!(Frame::Standard { timeout_ms: 1 }.fits(64));
    assert!(!Frame::Standard { timeout_ms: 1 }.fits(usize::MAX));
}
