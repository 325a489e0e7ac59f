use vstd::prelude::*;

verus! {

/// Frame-waiting time of short frames and anticollision frames, in ms.
pub const SHORT_FRAME_FWT_MS: u32 = 5;

/// A logical frame request for one exchange.
#[derive(Debug, Clone, Copy, PartialEq, Eq, Structural)]
pub enum Frame {
    /// The 7-bit REQA short frame.
    ReqA,
    /// The 7-bit WUPA short frame.
    WupA,
    /// Transmit exactly `bits` bits of the transmit buffer, no CRC.
    Anticoll { bits: usize },
    /// Transmit the whole transmit buffer with CRC; the card must start its
    /// answer within `timeout_ms`.
    Standard { timeout_ms: u32 },
}

/// Chip commands used by the transceiver.
#[derive(Debug, Clone, Copy, PartialEq, Eq, Structural)]
pub enum Command {
    Stop,
    ResetRxgain,
    TransmitReqa,
    TransmitWupa,
    TransmitWithoutCrc,
    TransmitWithCrc,
}

/// Receiver settings written before each transmission.
#[derive(Debug, Clone, Copy, PartialEq, Eq, Structural)]
pub struct ReceiverConfig {
    /// Correlator `corr_s6` bit (the rest of the register holds 0x13).
    pub corr_s6: bool,
    /// Anticollision framing: stay on the line through a bit collision.
    pub antcl: bool,
    /// Raw reception: no CRC check and no CRC stripping by the chip.
    pub no_crc_rx: bool,
    /// Automatic gain control.
    pub agc_en: bool,
    /// AGC operates during the complete receive period.
    pub agc_m: bool,
    /// AGC ratio 3.
    pub agc6_3: bool,
    /// Automatic squelch after end of transmission.
    pub sqm_dyn: bool,
}

/// Value of the transmit-length register pair.
#[derive(Debug, Clone, Copy, PartialEq, Eq, Structural)]
pub struct TxLength {
    pub low: u8,
    pub high: u8,
}

/// How the chip is programmed for one frame.
#[derive(Debug, Clone, Copy, PartialEq, Eq, Structural)]
pub struct TxSetup {
    /// The command that starts the transmission.
    pub command: Command,
    /// Raw mode: the response carries no CRC to strip.
    pub raw: bool,
    /// Anticollision framing.
    pub anticoll: bool,
    /// The transmit-length registers, when the frame programs them; short
    /// frames leave them alone.
    pub tx_length: Option<TxLength>,
    /// Number of leading transmit-buffer bytes loaded into the FIFO.
    pub fifo_len: usize,
    /// Frame-waiting time for the start of the answer, in ms.
    pub fwt_ms: u32,
    /// Receiver settings.
    pub receiver: ReceiverConfig,
}

pub open spec fn is_anticoll(f: Frame) -> bool {
    f is Anticoll
}

/// Whether the frame is sent and received without CRC.
pub open spec fn is_raw(f: Frame) -> bool {
    !(f is Standard)
}

/// Frame-waiting time of a frame.
pub open spec fn fwt_of(f: Frame) -> u32 {
    match f {
        Frame::Standard { timeout_ms } => timeout_ms,
        _ => SHORT_FRAME_FWT_MS,
    }
}

/// Number of bytes that carry `bits` bits.
pub open spec fn bytes_for_bits(bits: nat) -> nat {
    (bits + 7) / 8
}

/// A frame can be sent from a transmit buffer of `tx_len` bytes.
pub open spec fn frame_fits(f: Frame, tx_len: nat) -> bool {
    match f {
        Frame::Anticoll { bits } => bytes_for_bits(bits as nat) <= tx_len,
        Frame::Standard { .. } => tx_len * 8 <= usize::MAX,
        _ => true,
    }
}

impl Frame {
    /// Whether the frame can be sent from a transmit buffer of `tx_len` bytes.
    pub fn fits(&self, tx_len: usize) -> (r: bool)
        ensures
            r == frame_fits(*self, tx_len as nat),
    {
        match *self {
            Frame::Anticoll { bits } => bits / 8 + if bits % 8 == 0 { 0 } else { 1 } <= tx_len,
            Frame::Standard { .. } => tx_len <= usize::MAX / 8,
            _ => true,
        }
    }
}

pub open spec fn command_of(f: Frame) -> Command {
    match f {
        Frame::ReqA => Command::TransmitReqa,
        Frame::WupA => Command::TransmitWupa,
        Frame::Anticoll { .. } => Command::TransmitWithoutCrc,
        Frame::Standard { .. } => Command::TransmitWithCrc,
    }
}

/// The transmit-length register pair holds the low and the next eight bits of
/// the bit count.
pub fn tx_length_registers(bits: usize) -> (r: TxLength)
    ensures
        r.low == bits % 256,
        r.high == (bits / 256) % 256,
{
    TxLength { low: (bits % 256) as u8, high: ((bits / 256) % 256) as u8 }
}

/// Receiver settings for a frame: gain control is off during anticollision so
/// that the amplitude differences of a collision survive; squelch is automatic.
pub fn receiver_config(anticoll: bool, raw: bool) -> (r: ReceiverConfig)
    ensures
        r.corr_s6 == !anticoll,
        r.antcl == anticoll,
        r.no_crc_rx == raw,
        r.agc_en == !anticoll,
        r.agc_m,
        r.agc6_3,
        r.sqm_dyn,
{
    ReceiverConfig {
        corr_s6: !anticoll,
        antcl: anticoll,
        no_crc_rx: raw,
        agc_en: !anticoll,
        agc_m: true,
        agc6_3: true,
        sqm_dyn: true,
    }
}

/// `r` is how the chip is programmed for `frame` sent from a transmit buffer
/// of `tx_len` bytes.
pub open spec fn setup_for(r: TxSetup, frame: Frame, tx_len: nat) -> bool {
    &&& r.command == command_of(frame)
    &&& r.raw == is_raw(frame)
    &&& r.anticoll == is_anticoll(frame)
    &&& r.fwt_ms == fwt_of(frame)
    &&& r.receiver == ReceiverConfig {
        corr_s6: !is_anticoll(frame),
        antcl: is_anticoll(frame),
        no_crc_rx: is_raw(frame),
        agc_en: !is_anticoll(frame),
        agc_m: true,
        agc6_3: true,
        sqm_dyn: true,
    }
    &&& match frame {
        Frame::ReqA | Frame::WupA => r.tx_length is None && r.fifo_len == 0,
        Frame::Anticoll { bits } => r.fifo_len == bytes_for_bits(bits as nat) && r.tx_length
            == Some(TxLength { low: (bits % 256) as u8, high: ((bits / 256) % 256) as u8 }),
        Frame::Standard { .. } => r.fifo_len == tx_len && r.tx_length == Some(
            (TxLength { low: ((tx_len * 8) % 256) as u8, high: (((tx_len * 8) / 256) % 256) as u8 }),
        ),
    }
}

/// Programs the chip for `frame`, sent from a transmit buffer of `tx_len` bytes.
pub fn tx_setup(tx_len: usize, frame: Frame) -> (r: TxSetup)
    requires
        frame_fits(frame, tx_len as nat),
    ensures
        setup_for(r, frame, tx_len as nat),
{
    let anticoll = matches!(frame, Frame::Anticoll { .. });
    let (raw, command, tx_length, fifo_len, fwt_ms) = match frame {
        Frame::ReqA => (true, Command::TransmitReqa, None, 0, SHORT_FRAME_FWT_MS),
        Frame::WupA => (true, Command::TransmitWupa, None, 0, SHORT_FRAME_FWT_MS),
        Frame::Anticoll { bits } => {
            let n: usize = bits / 8 + if bits % 8 == 0 { 0 } else { 1 };
            (true, Command::TransmitWithoutCrc, Some(tx_length_registers(bits)), n, SHORT_FRAME_FWT_MS)
        },
        Frame::Standard { timeout_ms } => {
            (false, Command::TransmitWithCrc, Some(tx_length_registers(tx_len * 8)), tx_len, timeout_ms)
        },
    };
    TxSetup { command, raw, anticoll, tx_length, fifo_len, fwt_ms, receiver: receiver_config(anticoll, raw) }
}

} // verus!
