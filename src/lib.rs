//! ISO14443A frame transceiver for an ST25R39xx-class reader chip.
//!
//! The library decides everything about a session and its frame exchanges:
//! how the chip is programmed for a frame, how the interrupt latches and FIFO
//! status are classified into errors, how many bytes are read back and how the
//! answer is assembled. The holder of the chip performs what is decided.
mod error;
mod exchange;
mod frame;
mod receive;
mod response;
mod session;

pub use error::{Error, ErrorKind, StartError};
pub use exchange::{
    fits_answer, long_crc_answer_rejected, read_count_fits, read_count_of,
    short_crc_answer_rejected, Exchange,
};
pub use frame::{
    bytes_for_bits, command_of, frame_fits, fwt_of, is_anticoll, is_raw, receiver_config,
    setup_for, tx_length_registers, tx_setup, Command, Frame, ReceiverConfig, TxLength, TxSetup,
    SHORT_FRAME_FWT_MS,
};
pub use receive::{
    anticoll_fits, fifo_count, fifo_read_len, latched_fault, poll_step, read_len_of,
    received_bytes, rx_start_outcome, status_count, CollisionPosition, FifoStatus, IrqFlags,
    PollStep, MAX_FIFO_COUNT, RX_SAFETY_TIMEOUT_MS,
};
pub use response::{
    anticoll_base, anticoll_byte, anticoll_echoes_reader_bits, anticoll_response,
    anticoll_valid_bits, collision_position_bounds_answer, low_mask, partial_bits, plain_response,
};
pub use session::{
    release_switches_off_once, FieldOnError, Iso14443a, StartPlan, FRAME_SPACING_MS,
    GUARD_TIME_MS,
};
