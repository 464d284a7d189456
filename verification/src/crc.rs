//! The CRC-16/MCRF4XX checksum that closes every frame.
//!
//! The checksum is defined here bit by bit, in the usual parameter model:
//! width 16, polynomial 0x1021 fed least significant bit first (0x8408 once
//! reflected), register preset to 0xffff, no final inversion.  The number
//! itself is computed by the `crc16` crate; what is proved here is what
//! follows from the definition.

use vstd::prelude::*;

verus! {

/// One turn of the shift register: the lowest bit leaves, and the reflected
/// polynomial is folded in where that bit was set.
pub open spec fn crc_shift(crc: u16) -> u16 {
    if crc & 1 == 1 {
        (crc >> 1) ^ 0x8408
    } else {
        crc >> 1
    }
}

/// The register after one more byte of input.
pub open spec fn crc_step(crc: u16, byte: u8) -> u16 {
    crc_shift(
        crc_shift(
            crc_shift(
                crc_shift(crc_shift(crc_shift(crc_shift(crc_shift(crc ^ (byte as u16)))))),
            ),
        ),
    )
}

/// The register after all of `data`, starting from `init`.
pub open spec fn crc_fold(init: u16, data: Seq<u8>) -> u16
    decreases data.len(),
{
    if data.len() == 0 {
        init
    } else {
        crc_step(crc_fold(init, data.drop_last()), data.last())
    }
}

/// CRC-16/MCRF4XX of `data`.
pub open spec fn crc16_mcrf4xx(data: Seq<u8>) -> u16 {
    crc_fold(0xffff, data)
}

/// Feeding the same byte to two different registers leaves them different.
pub proof fn lemma_step_keeps_registers_apart(a: u16, b: u16, byte: u8)
    requires
        a != b,
    ensures
        crc_step(a, byte) != crc_step(b, byte),
{
    assert(a != b ==> crc_step(a, byte) != crc_step(b, byte)) by (bit_vector);
}

/// Feeding two different bytes to the same register leaves two different registers.
pub proof fn lemma_step_tells_bytes_apart(crc: u16, x: u8, y: u8)
    requires
        x != y,
    ensures
        crc_step(crc, x) != crc_step(crc, y),
{
    assert(x != y ==> crc_step(crc, x) != crc_step(crc, y)) by (bit_vector);
}

/// Folding over a concatenation is folding over the second part from where
/// the first part left the register.
pub proof fn lemma_fold_concat(init: u16, a: Seq<u8>, b: Seq<u8>)
    ensures
        crc_fold(init, a + b) == crc_fold(crc_fold(init, a), b),
    decreases b.len(),
{
    if b.len() == 0 {
        assert(a + b =~= a);
    } else {
        lemma_fold_concat(init, a, b.drop_last());
        assert((a + b).drop_last() =~= a + b.drop_last());
        assert((a + b).last() == b.last());
    }
}

/// Two registers that differ still differ after the same input.
pub proof fn lemma_fold_keeps_registers_apart(a: u16, b: u16, data: Seq<u8>)
    requires
        a != b,
    ensures
        crc_fold(a, data) != crc_fold(b, data),
    decreases data.len(),
{
    if data.len() > 0 {
        lemma_fold_keeps_registers_apart(a, b, data.drop_last());
        lemma_step_keeps_registers_apart(
            crc_fold(a, data.drop_last()),
            crc_fold(b, data.drop_last()),
            data.last(),
        );
    }
}

/// Two inputs of one length that differ in exactly one byte have different
/// checksums.  A flipped bit is the least such difference: any corruption
/// that stays within one byte is detected.
pub proof fn lemma_one_byte_changes_checksum(a: Seq<u8>, b: Seq<u8>, k: int)
    requires
        a.len() == b.len(),
        0 <= k < a.len(),
        a[k] != b[k],
        forall|i: int| 0 <= i < a.len() && i != k ==> a[i] == b[i],
    ensures
        crc16_mcrf4xx(a) != crc16_mcrf4xx(b),
{
    let head = a.subrange(0, k);
    let tail = a.subrange(k + 1, a.len() as int);
    assert(a =~= head.push(a[k]) + tail);
    assert(b =~= head.push(b[k]) + tail);
    let before = crc_fold(0xffff, head);
    assert(head.push(a[k]).drop_last() =~= head);
    assert(head.push(b[k]).drop_last() =~= head);
    lemma_step_tells_bytes_apart(before, a[k], b[k]);
    lemma_fold_concat(0xffff, head.push(a[k]), tail);
    lemma_fold_concat(0xffff, head.push(b[k]), tail);
    lemma_fold_keeps_registers_apart(
        crc_fold(0xffff, head.push(a[k])),
        crc_fold(0xffff, head.push(b[k])),
        tail,
    );
}

/// CRC-16/MCRF4XX of `msg`, by `crc16::State::<crc16::MCRF4XX>::calculate`.
///
/// Trusted: the crate documents this variant as poly=0x1021 init=0xffff
/// refin=true refout=true xorout=0x0000, which is what `crc16_mcrf4xx` spells
/// out; that its table-driven code computes that function is taken on its word.
#[verifier::external_body]
pub(crate) fn calculate(msg: &[u8]) -> (crc: u16)
    ensures
        crc == crc16_mcrf4xx(msg@),
{
    crc16::State::<crc16::MCRF4XX>::calculate(msg)
}

} // verus!
