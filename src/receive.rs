use vstd::prelude::*;
use crate::error::Error;
use crate::frame::Frame;

verus! {

/// Safety bound on the wait for the end of reception, in ms. It should never
/// be reached; it only guarantees progress if the hardware misbehaves.
pub const RX_SAFETY_TIMEOUT_MS: u64 = 500;

/// The largest byte count the FIFO status registers can report.
pub const MAX_FIFO_COUNT: usize = 65535;

/// Interrupt latches read while waiting for the end of reception.
#[derive(Debug, Clone, Copy, PartialEq, Eq, Structural)]
pub struct IrqFlags {
    pub framing: bool,
    pub parity: bool,
    pub crc: bool,
    pub collision: bool,
    pub rx_end: bool,
}

/// What one pass of the reception poll decides.
#[derive(Debug, Clone, Copy, PartialEq, Eq, Structural)]
pub enum PollStep {
    /// A fault latched: the exchange fails with it.
    Fault(Error),
    /// Reception ended cleanly.
    Received,
    /// Nothing decided yet: yield, refresh the latches and poll again.
    Pending,
}

/// FIFO status registers after reception.
#[derive(Debug, Clone, Copy, PartialEq, Eq, Structural)]
pub struct FifoStatus {
    pub overflow: bool,
    pub underflow: bool,
    /// The last received byte came without its parity bit.
    pub last_byte_missing_parity: bool,
    /// Low eight bits of the received byte count.
    pub count_low: u8,
    /// High bits of the received byte count.
    pub count_high: u8,
}

/// Position of the first colliding bit, from the collision-status register.
#[derive(Debug, Clone, Copy, PartialEq, Eq, Structural)]
pub struct CollisionPosition {
    pub byte: u8,
    pub bit: u8,
}

/// The fault, if any, that the latches show; faults are taken in priority order
/// framing, parity, CRC, then collision (which is expected, and so ignored,
/// during anticollision).
pub open spec fn latched_fault(flags: IrqFlags, anticoll: bool) -> Option<Error> {
    if flags.framing {
        Some(Error::Framing)
    } else if flags.parity {
        Some(Error::Parity)
    } else if flags.crc {
        Some(Error::Crc)
    } else if !anticoll && flags.collision {
        Some(Error::Collision)
    } else {
        None
    }
}

/// Outcome of the bounded wait for the start of the answer: expiry is the
/// ordinary "no card answered" result.
pub fn rx_start_outcome(latched: bool) -> (r: Result<(), Error>)
    ensures
        r is Ok <==> latched,
        !latched ==> r == Err::<(), Error>(Error::Timeout),
{
    if latched {
        Ok(())
    } else {
        Err(Error::Timeout)
    }
}

/// One pass of the wait for the end of reception, `elapsed_ms` after it began.
pub fn poll_step(flags: IrqFlags, anticoll: bool, elapsed_ms: u64) -> (r: PollStep)
    ensures
        latched_fault(flags, anticoll) is Some ==> r == PollStep::Fault(
            latched_fault(flags, anticoll)->Some_0,
        ),
        latched_fault(flags, anticoll) is None && flags.rx_end ==> r == PollStep::Received,
        latched_fault(flags, anticoll) is None && !flags.rx_end && elapsed_ms
            >= RX_SAFETY_TIMEOUT_MS ==> r == PollStep::Fault(Error::Timeout),
        latched_fault(flags, anticoll) is None && !flags.rx_end && elapsed_ms
            < RX_SAFETY_TIMEOUT_MS ==> r == PollStep::Pending,
{
    if flags.framing {
        PollStep::Fault(Error::Framing)
    } else if flags.parity {
        PollStep::Fault(Error::Parity)
    } else if flags.crc {
        PollStep::Fault(Error::Crc)
    } else if !anticoll && flags.collision {
        PollStep::Fault(Error::Collision)
    } else if flags.rx_end {
        PollStep::Received
    } else if elapsed_ms >= RX_SAFETY_TIMEOUT_MS {
        PollStep::Fault(Error::Timeout)
    } else {
        PollStep::Pending
    }
}

/// Number of bytes the FIFO status reports.
pub open spec fn fifo_count(stat: FifoStatus) -> nat {
    stat.count_low as nat + stat.count_high as nat * 256
}

/// What the FIFO status after reception says: a FIFO fault, a last byte
/// without parity, or the number of received bytes.
pub open spec fn status_count(stat: FifoStatus) -> Result<usize, Error> {
    if stat.overflow {
        Err(Error::FifoOverflow)
    } else if stat.underflow {
        Err(Error::FifoUnderflow)
    } else if stat.last_byte_missing_parity {
        Err(Error::FramingLastByteMissingParity)
    } else {
        Ok(fifo_count(stat) as usize)
    }
}

/// Checks the FIFO status after reception and returns the received byte count.
pub fn received_bytes(stat: FifoStatus) -> (r: Result<usize, Error>)
    ensures
        r == status_count(stat),
        r is Ok ==> r->Ok_0 <= MAX_FIFO_COUNT,
{
    if stat.overflow {
        return Err(Error::FifoOverflow);
    }
    if stat.underflow {
        return Err(Error::FifoUnderflow);
    }
    if stat.last_byte_missing_parity {
        return Err(Error::FramingLastByteMissingParity);
    }
    Ok(stat.count_low as usize + stat.count_high as usize * 256)
}

/// An anticollision answer of `rx_bytes` bytes fits a receive buffer of
/// `rx_len` bytes after the `bits / 8` bytes the reader already knows, with
/// room for the partial byte when `bits` is not byte-aligned.
pub open spec fn anticoll_fits(bits: nat, rx_bytes: nat, rx_len: nat) -> bool {
    bits / 8 + rx_bytes <= rx_len && (bits % 8 == 0 || bits / 8 < rx_len)
}

/// How many of `rx_bytes` received bytes go into a receive buffer of `rx_len`
/// bytes. A CRC frame carries two CRC bytes that are not handed on; an answer
/// that does not fit is too long.
pub open spec fn read_len_of(frame: Frame, rx_bytes: usize, rx_len: usize) -> Result<usize, Error> {
    match frame {
        Frame::Anticoll { bits } => if anticoll_fits(bits as nat, rx_bytes as nat, rx_len as nat) {
            Ok(rx_bytes)
        } else {
            Err(Error::ResponseTooLong)
        },
        Frame::Standard { .. } => if rx_bytes < 2 {
            Err(Error::ResponseTooShort)
        } else if rx_bytes - 2 > rx_len {
            Err(Error::ResponseTooLong)
        } else {
            Ok((rx_bytes - 2) as usize)
        },
        _ => if rx_bytes > rx_len {
            Err(Error::ResponseTooLong)
        } else {
            Ok(rx_bytes)
        },
    }
}

/// Decides, before anything is read from the FIFO, how many received bytes go
/// into a receive buffer of `rx_len` bytes.
pub fn fifo_read_len(frame: Frame, rx_bytes: usize, rx_len: usize) -> (r: Result<usize, Error>)
    ensures
        r == read_len_of(frame, rx_bytes, rx_len),
{
    match frame {
        Frame::Anticoll { bits } => {
            let full_bytes = bits / 8;
            if rx_bytes <= rx_len && full_bytes <= rx_len - rx_bytes && (bits % 8 == 0
                || full_bytes < rx_len) {
                Ok(rx_bytes)
            } else {
                Err(Error::ResponseTooLong)
            }
        },
        Frame::Standard { .. } => {
            if rx_bytes < 2 {
                Err(Error::ResponseTooShort)
            } else if rx_bytes - 2 > rx_len {
                Err(Error::ResponseTooLong)
            } else {
                Ok(rx_bytes - 2)
            }
        },
        _ => {
            if rx_bytes > rx_len {
                Err(Error::ResponseTooLong)
            } else {
                Ok(rx_bytes)
            }
        },
    }
}

} // verus!
