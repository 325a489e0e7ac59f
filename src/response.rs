use vstd::prelude::*;
use crate::frame::bytes_for_bits;
use crate::receive::{anticoll_fits, CollisionPosition};

verus! {

/// Mask of the `n` low bits of a byte.
pub open spec fn low_mask(n: nat) -> u8 {
    if n == 0 { 0 } else if n == 1 { 1 } else if n == 2 { 3 } else if n == 3 { 7 } else if n == 4 {
        15
    } else if n == 5 { 31 } else if n == 6 { 63 } else { 127 }
}

/// The reader's own bits of the partial byte of an anticollision frame.
pub open spec fn partial_bits(tx: Seq<u8>, bits: nat) -> u8 {
    tx[(bits / 8) as int] & low_mask(bits % 8)
}

/// Byte `i` of the receive buffer before the partial bits are merged: the
/// reader's own full bytes, then the received bytes, then what was there.
pub open spec fn anticoll_base(tx: Seq<u8>, bits: nat, fifo: Seq<u8>, old_rx: Seq<u8>, i: int) -> u8 {
    let full = (bits / 8) as int;
    if i < full {
        tx[i]
    } else if i < full + fifo.len() {
        fifo[i - full]
    } else {
        old_rx[i]
    }
}

/// Byte `i` of the receive buffer after an anticollision answer.
pub open spec fn anticoll_byte(tx: Seq<u8>, bits: nat, fifo: Seq<u8>, old_rx: Seq<u8>, i: int) -> u8 {
    if bits % 8 != 0 && i == (bits / 8) as int {
        anticoll_base(tx, bits, fifo, old_rx, i) | partial_bits(tx, bits)
    } else {
        anticoll_base(tx, bits, fifo, old_rx, i)
    }
}

/// Number of valid bits of an anticollision answer: up to the first
/// colliding bit if a collision was flagged, else the reader's full bytes and
/// every received byte.
pub open spec fn anticoll_valid_bits(bits: nat, fifo_len: nat, collision: Option<CollisionPosition>) -> nat {
    match collision {
        Some(c) => c.byte as nat * 8 + c.bit as nat,
        None => (bits / 8) * 8 + fifo_len * 8,
    }
}

/// An anticollision answer echoes the reader's own bits: its first `bits / 8`
/// bytes are the transmitted ones, and every bit the reader sent of the
/// partial byte is set in the byte after them.
pub proof fn anticoll_echoes_reader_bits(tx: Seq<u8>, bits: nat, fifo: Seq<u8>, old_rx: Seq<u8>, rx: Seq<u8>)
    requires
        bytes_for_bits(bits) <= tx.len(),
        anticoll_fits(bits, fifo.len(), old_rx.len()),
        rx.len() == old_rx.len(),
        forall|i: int| 0 <= i < rx.len() ==> rx[i] == anticoll_byte(tx, bits, fifo, old_rx, i),
    ensures
        forall|i: int| 0 <= i < bits / 8 ==> rx[i] == tx[i],
        bits % 8 != 0 ==> rx[(bits / 8) as int] & partial_bits(tx, bits) == partial_bits(tx, bits),
{
    assert forall|i: int| 0 <= i < bits / 8 implies rx[i] == tx[i] by {
        assert(rx[i] == anticoll_byte(tx, bits, fifo, old_rx, i));
    }
    if bits % 8 != 0 {
        let full = (bits / 8) as int;
        let base = anticoll_base(tx, bits, fifo, old_rx, full);
        let p = partial_bits(tx, bits);
        assert(rx[full] == anticoll_byte(tx, bits, fifo, old_rx, full));
        assert((base | p) & p == p) by (bit_vector);
    }
}

/// When a collision is flagged, the valid bit count is the position of the
/// first colliding bit, whatever the number of received bytes.
pub proof fn collision_position_bounds_answer(bits: nat, fifo_len: nat, other_len: nat, c: CollisionPosition)
    ensures
        anticoll_valid_bits(bits, fifo_len, Some(c)) == c.byte as nat * 8 + c.bit as nat,
        anticoll_valid_bits(bits, fifo_len, Some(c)) == anticoll_valid_bits(bits, other_len, Some(c)),
{
}

fn mask_of(n: usize) -> (r: u8)
    requires
        n < 8,
    ensures
        r == low_mask(n as nat),
{
    if n == 0 { 0 } else if n == 1 { 1 } else if n == 2 { 3 } else if n == 3 { 7 } else if n == 4 {
        15
    } else if n == 5 { 31 } else if n == 6 { 63 } else { 127 }
}

/// Assembles an anticollision answer in `rx`: the reader's own `bits / 8`
/// leading bytes come from `tx`, the bytes read from the FIFO follow them, and
/// the reader's bits of a partial byte are merged into the first byte after
/// the full ones. Returns the number of valid bits.
pub fn anticoll_response(
    tx: &[u8],
    bits: usize,
    fifo: &[u8],
    collision: Option<CollisionPosition>,
    rx: &mut [u8],
) -> (r: usize)
    requires
        bytes_for_bits(bits as nat) <= tx@.len(),
        anticoll_fits(bits as nat, fifo@.len(), old(rx)@.len()),
        (bits / 8 + fifo@.len()) * 8 <= usize::MAX,
    ensures
        final(rx)@.len() == old(rx)@.len(),
        forall|i: int|
            0 <= i < final(rx)@.len() ==> final(rx)@[i] == anticoll_byte(
                tx@,
                bits as nat,
                fifo@,
                old(rx)@,
                i,
            ),
        forall|i: int| 0 <= i < bits / 8 ==> final(rx)@[i] == tx@[i],
        bits % 8 != 0 ==> final(rx)@[(bits / 8) as int] & partial_bits(tx@, bits as nat)
            == partial_bits(tx@, bits as nat),
        r == anticoll_valid_bits(bits as nat, fifo@.len(), collision),
{
    let full = bits / 8;
    let mut i: usize = 0;
    while i < full
        invariant
            full == bits / 8,
            full <= tx@.len(),
            full <= rx@.len(),
            i <= full,
            rx@.len() == old(rx)@.len(),
            forall|j: int| 0 <= j < i ==> rx@[j] == tx@[j],
            forall|j: int| i <= j < rx@.len() ==> rx@[j] == old(rx)@[j],
        decreases full - i,
    {
        rx[i] = tx[i];
        i = i + 1;
    }
    let mut k: usize = 0;
    while k < fifo.len()
        invariant
            full == bits / 8,
            full + fifo@.len() <= rx@.len(),
            (full + fifo@.len()) * 8 <= usize::MAX,
            full <= tx@.len(),
            k <= fifo@.len(),
            rx@.len() == old(rx)@.len(),
            forall|j: int| 0 <= j < full ==> rx@[j] == tx@[j],
            forall|j: int| full <= j < full + k ==> rx@[j] == fifo@[j - full],
            forall|j: int| full + k <= j < rx@.len() ==> rx@[j] == old(rx)@[j],
        decreases fifo@.len() - k,
    {
        rx[full + k] = fifo[k];
        k = k + 1;
    }
    assert forall|j: int| 0 <= j < rx@.len() implies rx@[j] == anticoll_base(
        tx@,
        bits as nat,
        fifo@,
        old(rx)@,
        j,
    ) by {}
    if bits % 8 != 0 {
        let partial = tx[full] & mask_of(bits % 8);
        let current = rx[full];
        let merged = current | partial;
        assert(merged & partial == partial) by (bit_vector)
            requires
                merged == current | partial,
        ;
        rx[full] = merged;
    }
    match collision {
        Some(c) => c.byte as usize * 8 + c.bit as usize,
        None => full * 8 + fifo.len() * 8,
    }
}

/// Copies the bytes read from the FIFO to the front of `rx`. Returns their
/// number of bits.
pub fn plain_response(fifo: &[u8], rx: &mut [u8]) -> (r: usize)
    requires
        fifo@.len() <= old(rx)@.len(),
        fifo@.len() * 8 <= usize::MAX,
    ensures
        final(rx)@.len() == old(rx)@.len(),
        final(rx)@.subrange(0, fifo@.len() as int) == fifo@,
        final(rx)@.subrange(fifo@.len() as int, final(rx)@.len() as int) == old(rx)@.subrange(
            fifo@.len() as int,
            old(rx)@.len() as int,
        ),
        r == fifo@.len() * 8,
{
    let mut k: usize = 0;
    while k < fifo.len()
        invariant
            fifo@.len() <= rx@.len(),
            k <= fifo@.len(),
            rx@.len() == old(rx)@.len(),
            forall|j: int| 0 <= j < k ==> rx@[j] == fifo@[j],
            forall|j: int| k <= j < rx@.len() ==> rx@[j] == old(rx)@[j],
        decreases fifo@.len() - k,
    {
        rx[k] = fifo[k];
        k = k + 1;
    }
    assert(rx@.subrange(0, fifo@.len() as int) =~= fifo@);
    assert(rx@.subrange(fifo@.len() as int, rx@.len() as int) =~= old(rx)@.subrange(
        fifo@.len() as int,
        old(rx)@.len() as int,
    ));
    fifo.len() * 8
}

} // verus!
