use vstd::prelude::*;
use crate::error::Error;
use crate::frame::{frame_fits, is_anticoll, setup_for, tx_setup, Frame, TxSetup};
use crate::receive::{
    anticoll_fits, fifo_read_len, latched_fault, poll_step, read_len_of, received_bytes,
    rx_start_outcome, status_count, CollisionPosition, FifoStatus, IrqFlags, PollStep,
    RX_SAFETY_TIMEOUT_MS,
};
use crate::response::{anticoll_byte, anticoll_response, anticoll_valid_bits, plain_response};
use crate::session::Iso14443a;

verus! {

/// One frame exchange on an active session: a frame sent from a transmit
/// buffer of `tx_len` bytes, answered into a receive buffer of `rx_len` bytes.
///
/// An exchange keeps nothing in the session: whatever its outcome, the next
/// exchange starts from a stopped chip with its latches cleared.
#[derive(Debug, Clone, Copy)]
pub struct Exchange {
    frame: Frame,
    tx_len: usize,
    rx_len: usize,
}

/// What the received bytes count decides: a fault, or how many bytes to read.
pub open spec fn read_count_of(frame: Frame, stat: FifoStatus, rx_len: usize) -> Result<usize, Error> {
    match status_count(stat) {
        Err(e) => Err(e),
        Ok(n) => read_len_of(frame, n, rx_len),
    }
}

/// An answer of `count` bytes read from the FIFO fits a receive buffer of
/// `rx_len` bytes.
pub open spec fn fits_answer(frame: Frame, count: nat, rx_len: nat) -> bool {
    match frame {
        Frame::Anticoll { bits } => anticoll_fits(bits as nat, count, rx_len),
        _ => count <= rx_len,
    }
}

/// Any count that `read_count` hands out fits the receive buffer.
pub proof fn read_count_fits(frame: Frame, stat: FifoStatus, rx_len: usize)
    requires
        read_count_of(frame, stat, rx_len) is Ok,
    ensures
        fits_answer(frame, read_count_of(frame, stat, rx_len)->Ok_0 as nat, rx_len as nat),
{
}

/// A CRC frame whose answer is shorter than its two CRC bytes is rejected as
/// too short before anything is read from the FIFO.
pub proof fn short_crc_answer_rejected(timeout_ms: u32, stat: FifoStatus, rx_len: usize)
    requires
        status_count(stat) is Ok,
        status_count(stat)->Ok_0 < 2,
    ensures
        read_count_of(Frame::Standard { timeout_ms }, stat, rx_len) == Err::<usize, Error>(
            Error::ResponseTooShort,
        ),
{
}

/// A CRC frame whose answer, without its CRC, exceeds the receive buffer is
/// rejected as too long before anything is read from the FIFO.
pub proof fn long_crc_answer_rejected(timeout_ms: u32, stat: FifoStatus, rx_len: usize)
    requires
        status_count(stat) is Ok,
        status_count(stat)->Ok_0 >= 2,
        status_count(stat)->Ok_0 - 2 > rx_len,
    ensures
        read_count_of(Frame::Standard { timeout_ms }, stat, rx_len) == Err::<usize, Error>(
            Error::ResponseTooLong,
        ),
{
}

impl Exchange {
    pub closed spec fn frame(&self) -> Frame {
        self.frame
    }

    pub closed spec fn tx_len(&self) -> usize {
        self.tx_len
    }

    pub closed spec fn rx_len(&self) -> usize {
        self.rx_len
    }

    pub closed spec fn wf(&self) -> bool {
        frame_fits(self.frame, self.tx_len as nat)
    }

    /// Begins an exchange of `frame` on an active session.
    pub fn begin(session: &Iso14443a, tx_len: usize, rx_len: usize, frame: Frame) -> (r: Exchange)
        requires
            session.is_active(),
            frame_fits(frame, tx_len as nat),
        ensures
            r.wf(),
            r.frame() == frame,
            r.tx_len() == tx_len,
            r.rx_len() == rx_len,
    {
        Exchange { frame, tx_len, rx_len }
    }

    /// How the chip is programmed before the command is dispatched. It
    /// depends on the frame and the transmit length alone.
    pub fn setup(&self) -> (r: TxSetup)
        requires
            self.wf(),
        ensures
            setup_for(r, self.frame(), self.tx_len() as nat),
    {
        tx_setup(self.tx_len, self.frame)
    }

    /// Outcome of the wait, bounded by the frame-waiting time, for the start
    /// of the answer.
    pub fn answer_started(&self, latched: bool) -> (r: Result<(), Error>)
        ensures
            r is Ok <==> latched,
            !latched ==> r == Err::<(), Error>(Error::Timeout),
    {
        rx_start_outcome(latched)
    }

    /// One pass of the wait for the end of reception.
    pub fn poll(&self, flags: IrqFlags, elapsed_ms: u64) -> (r: PollStep)
        ensures
            latched_fault(flags, is_anticoll(self.frame())) is Some ==> r == PollStep::Fault(
                latched_fault(flags, is_anticoll(self.frame()))->Some_0,
            ),
            latched_fault(flags, is_anticoll(self.frame())) is None && flags.rx_end ==> r
                == PollStep::Received,
            latched_fault(flags, is_anticoll(self.frame())) is None && !flags.rx_end && elapsed_ms
                >= RX_SAFETY_TIMEOUT_MS ==> r == PollStep::Fault(Error::Timeout),
            latched_fault(flags, is_anticoll(self.frame())) is None && !flags.rx_end && elapsed_ms
                < RX_SAFETY_TIMEOUT_MS ==> r == PollStep::Pending,
    {
        poll_step(flags, matches!(self.frame, Frame::Anticoll { .. }), elapsed_ms)
    }

    /// Checks the FIFO status after reception and decides how many bytes to
    /// read from the FIFO, before any is read.
    pub fn read_count(&self, stat: FifoStatus) -> (r: Result<usize, Error>)
        ensures
            r == read_count_of(self.frame(), stat, self.rx_len()),
    {
        match received_bytes(stat) {
            Err(e) => Err(e),
            Ok(n) => fifo_read_len(self.frame, n, self.rx_len),
        }
    }

    /// Puts the `fifo` bytes read from the chip into `rx` and returns the
    /// number of valid bits of the answer. `collision` is the collision
    /// position, read when a bit collision latched during anticollision.
    pub fn finish(
        &self,
        tx: &[u8],
        fifo: &[u8],
        collision: Option<CollisionPosition>,
        rx: &mut [u8],
    ) -> (r: usize)
        requires
            self.wf(),
            tx@.len() == self.tx_len(),
            old(rx)@.len() == self.rx_len(),
            self.rx_len() * 8 <= usize::MAX,
            fits_answer(self.frame(), fifo@.len(), self.rx_len() as nat),
        ensures
            final(rx)@.len() == old(rx)@.len(),
            match self.frame() {
                Frame::Anticoll { bits } => {
                    &&& forall|i: int|
                        0 <= i < final(rx)@.len() ==> final(rx)@[i] == anticoll_byte(
                            tx@,
                            bits as nat,
                            fifo@,
                            old(rx)@,
                            i,
                        )
                    &&& r == anticoll_valid_bits(bits as nat, fifo@.len(), collision)
                },
                _ => {
                    &&& final(rx)@.subrange(0, fifo@.len() as int) == fifo@
                    &&& final(rx)@.subrange(fifo@.len() as int, final(rx)@.len() as int)
                        == old(rx)@.subrange(fifo@.len() as int, old(rx)@.len() as int)
                    &&& r == fifo@.len() * 8
                },
            },
    {
        match self.frame {
            Frame::Anticoll { bits } => anticoll_response(tx, bits, fifo, collision, rx),
            _ => plain_response(fifo, rx),
        }
    }
}

} // verus!
