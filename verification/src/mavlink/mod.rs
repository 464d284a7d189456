//! Framing shared by every message kind: a six-byte header, a payload of a
//! length that the kind fixes, and a two-byte checksum.
//!
//! A kind supplies its identifier, its checksum seed, its payload length and
//! the layout of its payload; everything else is written once, here.

pub mod msg202;
pub mod msg203;
pub mod msg246;
pub mod msg66;
pub mod msg84;

use crate::crc::{calculate, crc16_mcrf4xx, lemma_one_byte_changes_checksum};
use crate::wire::{le16, lemma_le16_roundtrip, put_u16, put_zeros, zeros};
use vstd::prelude::*;
use vstd::slice::slice_subrange;

verus! {

broadcast use crate::wire::lemma_le16_len;

/// First byte of every frame.
pub const STX: u8 = 0xfe;

/// System identifier that the simulated device sends under.
pub const SYSID: u8 = 0x19;

/// Component identifier that the simulated device sends under.
pub const COMPID: u8 = 0x59;

/// Number of bytes before the payload.
pub const HEADER_LEN: usize = 6;

/// Number of bytes after the payload.
pub const CRC_LEN: usize = 2;

/// Offset of the sequence number in a frame.
pub const SEQNO_AT: usize = 2;

/// Offset of the kind identifier in a frame.
pub const MSGID_AT: usize = 5;

/// Why a payload could not be packed or unpacked.
#[derive(Clone, Copy, Debug, PartialEq, Eq, Structural)]
pub enum CodecError {
    /// The kind does not go this way: one that is only ever sent has no
    /// decoder.
    NotImplemented,
    /// The buffer ends before the payload does.
    Truncated,
}

/// The sequence number that follows `n`.
pub open spec fn successor(n: u8) -> u8 {
    if n == 255 {
        0
    } else {
        (n + 1) as u8
    }
}

/// The sequence number reached from `n` by `steps` frames.
pub open spec fn advanced(n: u8, steps: nat) -> u8 {
    ((n + steps) % 256) as u8
}

/// The counter that numbers outgoing frames.  One counter serves every kind:
/// whoever encodes holds it and lends it to each call.
pub struct Sequence {
    next: u8,
}

impl Sequence {
    /// The number that the next frame will carry.
    pub closed spec fn value(&self) -> u8 {
        self.next
    }

    /// A counter whose first frame is numbered 0.
    pub fn new() -> (s: Sequence)
        ensures
            s.value() == 0,
    {
        Sequence { next: 0 }
    }

    /// The number that the next frame will carry.
    pub fn peek(&self) -> (n: u8)
        ensures
            n == self.value(),
    {
        self.next
    }

    /// Hands out the number for one frame and moves on, from 255 back to 0.
    pub fn take(&mut self) -> (n: u8)
        ensures
            n == old(self).value(),
            final(self).value() == successor(old(self).value()),
    {
        let n: u8 = self.next;
        self.next = n.wrapping_add(1);
        n
    }
}

/// The six bytes that open a frame.
pub open spec fn header(paylen: u8, seqno: u8, msgid: u8) -> Seq<u8> {
    seq![STX, paylen, seqno, SYSID, COMPID, msgid]
}

/// The two bytes that close `body`, a header with its payload: the checksum
/// of the body without its first byte, followed by the kind's seed `extra`,
/// least significant byte first.
pub open spec fn trailer(body: Seq<u8>, extra: u8) -> Seq<u8> {
    le16(crc16_mcrf4xx(body.skip(1).push(extra)))
}

/// A whole frame: header, payload, checksum.
pub open spec fn frame(paylen: u8, seqno: u8, msgid: u8, extra: u8, payload: Seq<u8>) -> Seq<u8> {
    let body = header(paylen, seqno, msgid) + payload;
    body + trailer(body, extra)
}

/// Whether the last two bytes of `bytes` are the checksum of what precedes them.
pub open spec fn crc_matches(bytes: Seq<u8>, extra: u8) -> bool {
    &&& bytes.len() >= 3
    &&& bytes.skip(bytes.len() - 2) == trailer(bytes.take(bytes.len() - 2), extra)
}

/// The bytes of `bytes` where a frame keeps a payload of `paylen` bytes.
pub open spec fn payload_part(bytes: Seq<u8>, paylen: nat) -> Seq<u8> {
    bytes.subrange(HEADER_LEN as int, HEADER_LEN + paylen)
}

/// Whether `bytes` is a whole frame, numbered `seqno`, of the kind that has
/// `paylen` payload bytes, the identifier `msgid` and the seed `extra`.
pub open spec fn is_frame(bytes: Seq<u8>, paylen: nat, seqno: u8, msgid: u8, extra: u8) -> bool {
    &&& bytes.len() == HEADER_LEN + paylen + CRC_LEN
    &&& bytes == frame(paylen as u8, seqno, msgid, extra, payload_part(bytes, paylen))
}

/// Numbering goes up by one with every frame, whatever its kind, and comes
/// round after 256 of them.
pub proof fn lemma_sequence_wraps(n: u8, steps: nat)
    ensures
        advanced(n, 0) == n,
        advanced(n, 1) == successor(n),
        advanced(n, steps + 1) == successor(advanced(n, steps)),
        advanced(n, steps + 256) == advanced(n, steps),
        advanced(n, 256) == n,
{
}

/// A frame around a payload of the right length is a frame, and its payload
/// is found where payloads are.
pub proof fn lemma_frame_payload(paylen: u8, seqno: u8, msgid: u8, extra: u8, payload: Seq<u8>)
    requires
        payload.len() == paylen,
    ensures
        payload_part(frame(paylen, seqno, msgid, extra, payload), paylen as nat) == payload,
        is_frame(frame(paylen, seqno, msgid, extra, payload), paylen as nat, seqno, msgid, extra),
        frame(paylen, seqno, msgid, extra, payload)[SEQNO_AT as int] == seqno,
        frame(paylen, seqno, msgid, extra, payload)[MSGID_AT as int] == msgid,
{
    let bytes = frame(paylen, seqno, msgid, extra, payload);
    assert(payload_part(bytes, paylen as nat) =~= payload);
}

/// A frame closes with the checksum of its own header and payload.
pub proof fn lemma_frame_checks(paylen: u8, seqno: u8, msgid: u8, extra: u8, payload: Seq<u8>)
    ensures
        crc_matches(frame(paylen, seqno, msgid, extra, payload), extra),
{
    let body = header(paylen, seqno, msgid) + payload;
    let bytes = frame(paylen, seqno, msgid, extra, payload);
    assert(bytes.skip(bytes.len() - 2) =~= trailer(body, extra));
    assert(bytes.take(bytes.len() - 2) =~= body);
}

/// Bytes that pass the check no longer pass it once one byte after the first
/// and before the checksum has changed, by one bit or by more.
pub proof fn lemma_corruption_detected(bytes: Seq<u8>, corrupt: Seq<u8>, k: int, extra: u8)
    requires
        crc_matches(bytes, extra),
        corrupt.len() == bytes.len(),
        1 <= k < bytes.len() - 2,
        corrupt[k] != bytes[k],
        forall|i: int| 0 <= i < bytes.len() && i != k ==> corrupt[i] == bytes[i],
    ensures
        !crc_matches(corrupt, extra),
{
    let n = bytes.len() as int;
    let good = bytes.take(n - 2).skip(1).push(extra);
    let bad = corrupt.take(n - 2).skip(1).push(extra);
    assert(good[k - 1] == bytes[k]);
    assert(bad[k - 1] == corrupt[k]);
    assert forall|i: int| 0 <= i < good.len() && i != k - 1 implies good[i] == bad[i] by {
        if i < n - 3 {
            assert(good[i] == bytes[i + 1]);
            assert(bad[i] == corrupt[i + 1]);
        }
    }
    lemma_one_byte_changes_checksum(good, bad, k - 1);
    let e = Seq::<u8>::empty();
    lemma_le16_roundtrip(crc16_mcrf4xx(good), e, e);
    lemma_le16_roundtrip(crc16_mcrf4xx(bad), e, e);
    assert(e + le16(crc16_mcrf4xx(good)) + e =~= le16(crc16_mcrf4xx(good)));
    assert(e + le16(crc16_mcrf4xx(bad)) + e =~= le16(crc16_mcrf4xx(bad)));
    assert(le16(crc16_mcrf4xx(good)) != le16(crc16_mcrf4xx(bad)));
    assert(corrupt.skip(n - 2) =~= bytes.skip(n - 2));
}

/// The byte `b` with bit `bit` flipped.
pub open spec fn flipped(b: u8, bit: u8) -> u8 {
    b ^ (1u8 << bit)
}

/// Bytes that pass the check no longer pass it once a single bit of the
/// header after its first byte, or of the payload, has flipped.
pub proof fn lemma_bit_flip_detected(bytes: Seq<u8>, k: int, bit: u8, extra: u8)
    requires
        crc_matches(bytes, extra),
        1 <= k < bytes.len() - 2,
        bit < 8,
    ensures
        !crc_matches(bytes.update(k, flipped(bytes[k], bit)), extra),
{
    let b = bytes[k];
    assert(bit < 8 ==> b ^ (1u8 << bit) != b) by (bit_vector);
    lemma_corruption_detected(bytes, bytes.update(k, flipped(b, bit)), k, extra);
}

/// Appends the header of a frame numbered `seqno`.
pub fn write_header(buffy: &mut Vec<u8>, paylen: u8, seqno: u8, msgid: u8)
    ensures
        final(buffy)@ == old(buffy)@ + header(paylen, seqno, msgid),
{
    buffy.push(STX);
    buffy.push(paylen);
    buffy.push(seqno);
    buffy.push(SYSID);
    buffy.push(COMPID);
    buffy.push(msgid);
    assert(buffy@ =~= old(buffy)@ + header(paylen, seqno, msgid));
}

/// Appends the checksum of `buffy` without its first byte, seeded with `extra`.
pub fn write_crc(buffy: &mut Vec<u8>, extra: u8)
    requires
        old(buffy)@.len() >= 1,
    ensures
        final(buffy)@ == old(buffy)@ + trailer(old(buffy)@, extra),
{
    buffy.push(extra);
    let n: usize = buffy.len();
    let crc: u16 = calculate(slice_subrange(buffy.as_slice(), 1, n));
    assert(buffy@.subrange(1, n as int) =~= old(buffy)@.skip(1).push(extra));
    buffy.pop();
    assert(buffy@ =~= old(buffy)@);
    put_u16(buffy, crc);
}

/// The frame that goes out in place of one whose payload could not be
/// packed: the same header, zeros for the payload, and their checksum.
pub fn zero_frame(paylen: u8, seqno: u8, msgid: u8, extra: u8) -> (buffy: Vec<u8>)
    ensures
        buffy@ == frame(paylen, seqno, msgid, extra, zeros(paylen as nat)),
{
    let mut buffy: Vec<u8> = Vec::with_capacity(HEADER_LEN + 256 + CRC_LEN);
    write_header(&mut buffy, paylen, seqno, msgid);
    put_zeros(&mut buffy, paylen as usize);
    write_crc(&mut buffy, extra);
    assert(buffy@ =~= frame(paylen, seqno, msgid, extra, zeros(paylen as nat)));
    buffy
}

/// Whether `bytes` end in the checksum of what precedes them, seeded with `extra`.
pub fn check_crc(bytes: &[u8], extra: u8) -> (ok: bool)
    ensures
        ok == crc_matches(bytes@, extra),
{
    let n: usize = bytes.len();
    if n < 3 {
        return false;
    }
    let mut covered: Vec<u8> = Vec::with_capacity(n - 2);
    let mut i: usize = 1;
    while i < n - 2
        invariant
            1 <= i <= n - 2,
            n == bytes@.len(),
            covered@ == bytes@.subrange(1, i as int),
        decreases n - i,
    {
        covered.push(bytes[i]);
        i = i + 1;
        assert(covered@ =~= bytes@.subrange(1, i as int));
    }
    covered.push(extra);
    assert(covered@ =~= bytes@.take(n - 2).skip(1).push(extra));
    let crc: u16 = calculate(covered.as_slice());
    let lo: u8 = (crc % 256) as u8;
    let hi: u8 = (crc / 256) as u8;
    let ok: bool = bytes[n - 2] == lo && bytes[n - 1] == hi;
    proof {
        reveal(le16);
    }
    assert(ok == (bytes@.skip(n - 2) =~= le16(crc)));
    ok
}

/// What every message kind provides, and the framing that it gets in return.
pub trait Message: Sized {
    /// Identifier of the kind, the last byte of the header.
    const MSGID: u8;

    /// Seed that is checksummed after the payload and never sent.
    const EXTRA: u8;

    /// Number of payload bytes, the same for every message of the kind.
    const PAYLEN: usize;

    /// What holds of the three constants of every kind: the payload length
    /// fits the one byte that the header has for it.  Each kind adds the
    /// values of its own.
    proof fn lemma_kind()
        ensures
            Self::PAYLEN <= 255,
    ;

    /// Whether `payload` is a payload that this message packs to.  A kind
    /// that stamps its payload with the time of packing has one for each
    /// reading of the clock; every other kind has exactly one.
    spec fn is_payload(&self, payload: Seq<u8>) -> bool;

    /// Whether packing a message of this kind always succeeds.
    spec fn infallible() -> bool;

    /// What unpacking `payload` makes of this message.
    spec fn unpacked(&self, payload: Seq<u8>) -> Result<Self, CodecError>;

    /// The frame that the message holds: the last one serialised or
    /// deserialised.
    spec fn buffer(&self) -> Seq<u8>;

    /// Every payload has the length that the kind fixes.
    proof fn lemma_payload_len(&self, payload: Seq<u8>)
        requires
            self.is_payload(payload),
        ensures
            payload.len() == Self::PAYLEN,
    ;

    /// Encodes the message into its own buffer under the next sequence
    /// number.  The message packs to the same payloads afterwards as before.
    fn serialise(&mut self, seq: &mut Sequence) -> (ret: &mut Self)
        ensures
            *final(self) == *final(ret),
            final(seq).value() == successor(old(seq).value()),
            forall|q: Seq<u8>| #[trigger] ret.is_payload(q) == old(self).is_payload(q),
            is_frame(
                ret.buffer(),
                Self::PAYLEN as nat,
                old(seq).value(),
                Self::MSGID,
                Self::EXTRA,
            ),
            Self::infallible() ==> old(self).is_payload(
                payload_part(ret.buffer(), Self::PAYLEN as nat),
            ),
            old(self).is_payload(payload_part(ret.buffer(), Self::PAYLEN as nat)) || payload_part(
                ret.buffer(),
                Self::PAYLEN as nat,
            ) == zeros(Self::PAYLEN as nat),
    ;

    /// Keeps a copy of `buffy` in the message's own buffer and decodes it.
    /// A buffer that ends before the payload does is kept and not decoded.
    /// Where decoding succeeds the message packs to the payloads of what was
    /// decoded, and where it fails to the same payloads as before.
    fn deserialise(&mut self, buffy: &[u8]) -> (r: Result<(), CodecError>)
        ensures
            final(self).buffer() == buffy@,
            buffy@.len() < HEADER_LEN + Self::PAYLEN ==> r == Err::<(), CodecError>(
                CodecError::Truncated,
            ),
            buffy@.len() >= HEADER_LEN + Self::PAYLEN ==> match old(self).unpacked(
                payload_part(buffy@, Self::PAYLEN as nat),
            ) {
                Ok(m) => r is Ok && forall|q: Seq<u8>| #[trigger]
                    final(self).is_payload(q) == m.is_payload(q),
                Err(e) => r == Err::<(), CodecError>(e),
            },
            r is Err ==> forall|q: Seq<u8>| #[trigger]
                final(self).is_payload(q) == old(self).is_payload(q),
    ;

    /// The frame that the message holds.
    fn message(&self) -> (bytes: &[u8])
        ensures
            bytes@ == self.buffer(),
    ;

    /// Appends the payload.
    fn pack_payload(&self, buffy: &mut Vec<u8>) -> (r: Result<(), CodecError>)
        ensures
            Self::infallible() ==> r is Ok,
            r is Ok ==> {
                &&& final(buffy)@.len() == old(buffy)@.len() + Self::PAYLEN
                &&& final(buffy)@.take(old(buffy)@.len() as int) == old(buffy)@
                &&& self.is_payload(final(buffy)@.skip(old(buffy)@.len() as int))
            },
    ;

    /// Reads the fields from `payload`, or leaves the message as it was.
    fn unpack_payload(&mut self, payload: &[u8]) -> (r: Result<(), CodecError>)
        ensures
            match old(self).unpacked(payload@) {
                Ok(m) => r is Ok && *final(self) == m,
                Err(e) => r == Err::<(), CodecError>(e) && *final(self) == *old(self),
            },
    ;

    /// Appends the header under the next sequence number, and moves the
    /// counter on.
    fn pack_header(buffy: &mut Vec<u8>, seq: &mut Sequence)
        ensures
            final(buffy)@ == old(buffy)@ + header(
                Self::PAYLEN as u8,
                old(seq).value(),
                Self::MSGID,
            ),
            final(seq).value() == successor(old(seq).value()),
    {
        proof {
            Self::lemma_kind();
        }
        let seqno: u8 = seq.take();
        write_header(buffy, Self::PAYLEN as u8, seqno, Self::MSGID);
    }

    /// Appends the checksum of all of `buffy` but its first byte.
    fn pack_crc(buffy: &mut Vec<u8>)
        requires
            old(buffy)@.len() >= 1,
        ensures
            final(buffy)@ == old(buffy)@ + trailer(old(buffy)@, Self::EXTRA),
    {
        write_crc(buffy, Self::EXTRA);
    }

    /// Appends header, payload and checksum, or stops where the payload
    /// cannot be packed.  The sequence number is spent either way.  As the
    /// checksum is that of all of `buffy` but its first byte, what is
    /// appended to an empty buffer is a frame.
    fn pack_message(&self, buffy: &mut Vec<u8>, seq: &mut Sequence) -> (r: Result<(), CodecError>)
        ensures
            final(seq).value() == successor(old(seq).value()),
            Self::infallible() ==> r is Ok,
            r is Ok ==> {
                let head = old(buffy)@ + header(Self::PAYLEN as u8, old(seq).value(), Self::MSGID);
                let body = final(buffy)@.take(head.len() + Self::PAYLEN);
                &&& final(buffy)@.len() == head.len() + Self::PAYLEN + CRC_LEN
                &&& body.take(head.len() as int) == head
                &&& self.is_payload(body.skip(head.len() as int))
                &&& final(buffy)@ == body + trailer(body, Self::EXTRA)
            },
    {
        proof {
            Self::lemma_kind();
        }
        Self::pack_header(buffy, seq);
        let ghost head = buffy@;
        match self.pack_payload(buffy) {
            Ok(()) => {},
            Err(e) => {
                return Err(e);
            },
        }
        let ghost body = buffy@;
        Self::pack_crc(buffy);
        proof {
            self.lemma_payload_len(body.skip(head.len() as int));
            assert(buffy@.take(head.len() + Self::PAYLEN) =~= body);
        }
        Ok(())
    }

    /// The frame of this message under the next sequence number.  Where the
    /// payload cannot be packed, the frame carries zeros in its place.
    fn serialise_message(&self, seq: &mut Sequence) -> (buffy: Vec<u8>)
        ensures
            final(seq).value() == successor(old(seq).value()),
            is_frame(buffy@, Self::PAYLEN as nat, old(seq).value(), Self::MSGID, Self::EXTRA),
            Self::infallible() ==> self.is_payload(payload_part(buffy@, Self::PAYLEN as nat)),
            self.is_payload(payload_part(buffy@, Self::PAYLEN as nat)) || payload_part(
                buffy@,
                Self::PAYLEN as nat,
            ) == zeros(Self::PAYLEN as nat),
    {
        let seqno: u8 = seq.peek();
        let mut buffy: Vec<u8> = Vec::with_capacity(HEADER_LEN + 256 + CRC_LEN);
        proof {
            Self::lemma_kind();
        }
        match self.pack_message(&mut buffy, seq) {
            Ok(()) => {
                proof {
                    let head = header(Self::PAYLEN as u8, seqno, Self::MSGID);
                    let body = buffy@.take(HEADER_LEN + Self::PAYLEN);
                    let payload = body.skip(HEADER_LEN as int);
                    assert(Seq::<u8>::empty() + head =~= head);
                    assert(payload =~= payload_part(buffy@, Self::PAYLEN as nat));
                    assert(body =~= head + payload);
                }
            },
            Err(_) => {
                buffy = zero_frame(Self::PAYLEN as u8, seqno, Self::MSGID, Self::EXTRA);
                proof {
                    let head = header(Self::PAYLEN as u8, seqno, Self::MSGID);
                    let body = head + zeros(Self::PAYLEN as nat);
                    assert(buffy@ == body + trailer(body, Self::EXTRA));
                    assert(payload_part(buffy@, Self::PAYLEN as nat) =~= zeros(
                        Self::PAYLEN as nat,
                    ));
                }
            },
        }
        buffy
    }

    /// Decodes the payload of the frame in `buffy` into this message.  The
    /// header is skipped and the checksum is not looked at.  A buffer that
    /// ends before the payload does leaves the message as it was.
    fn deserialise_message(&mut self, buffy: &[u8]) -> (r: Result<(), CodecError>)
        ensures
            buffy@.len() < HEADER_LEN + Self::PAYLEN ==> r == Err::<(), CodecError>(
                CodecError::Truncated,
            ) && *final(self) == *old(self),
            buffy@.len() >= HEADER_LEN + Self::PAYLEN ==> match old(self).unpacked(
                payload_part(buffy@, Self::PAYLEN as nat),
            ) {
                Ok(m) => r is Ok && *final(self) == m,
                Err(e) => r == Err::<(), CodecError>(e) && *final(self) == *old(self),
            },
    {
        proof {
            Self::lemma_kind();
        }
        if buffy.len() < HEADER_LEN + Self::PAYLEN {
            return Err(CodecError::Truncated);
        }
        let payload = slice_subrange(buffy, HEADER_LEN, HEADER_LEN + Self::PAYLEN);
        self.unpack_payload(payload)
    }
}

} // verus!
