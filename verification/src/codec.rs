//! Packet codec: framing a typed message into a flat byte buffer and back.
//!
//! A packet on the wire is the message kind's tag byte, the payload bytes
//! (whose count the message registry fixes per kind), and one trailing
//! checksum byte computed over tag plus payload. Decoding validates the tag,
//! the length and the checksum, and never partially trusts a buffer: any
//! mismatch discards the whole buffer.

use vstd::prelude::*;

use crate::checksum::ChecksumTable;
use crate::checksum::crc_fold;
use crate::checksum::lemma_fold_single_difference;
use crate::msg::MsgType;
use crate::msg::PARAMS_SIZE;
use crate::msg::lemma_tag_round_trip;

verus! {

/// A validated packet: the payload length always equals the size the
/// message registry declares for the kind.
pub struct Packet {
    /// The kind whose tag led the buffer.
    pub message_type: MsgType,
    /// The payload bytes, exactly `message_type`'s declared count.
    pub payload: Vec<u8>,
    /// The checksum byte that closed the buffer.
    pub crc: u8,
}

impl Packet {
    /// The kind/length pair is consistent: an inconsistent packet is never
    /// constructed.
    pub open spec fn wf(&self) -> bool {
        self.payload@.len() == self.message_type.spec_payload_size()
    }
}

/// Encoding was asked for a payload whose length does not match the kind.
pub struct EncodeError {}

/// The buffer is not a valid packet: unrecognized tag, short buffer, or
/// checksum mismatch.
pub struct DecodeError {}

/// The byte buffer that encodes a kind and payload: tag, payload, then the
/// checksum over tag plus payload.
pub open spec fn spec_encode(kind: MsgType, payload: Seq<u8>) -> Seq<u8> {
    (seq![kind.spec_tag()] + payload).push(crc_fold(seq![kind.spec_tag()] + payload))
}

/// What a buffer decodes to: the kind its first byte names, the payload
/// bytes that kind's size selects, and the trailing checksum byte — or
/// nothing, when the tag is unknown, the buffer is too short for the kind,
/// or the recomputed checksum disagrees with the stored one.
pub open spec fn spec_decode(bytes: Seq<u8>) -> Option<(MsgType, Seq<u8>, u8)> {
    if bytes.len() < 1 {
        None
    } else {
        match MsgType::spec_from_tag(bytes[0]) {
            None => None,
            Some(kind) => {
                let n = kind.spec_payload_size() as int;
                if bytes.len() < n + 2 {
                    None
                } else if crc_fold(bytes.take(n + 1)) != bytes[n + 1] {
                    None
                } else {
                    Some((kind, bytes.subrange(1, n + 1), bytes[n + 1]))
                }
            },
        }
    }
}

/// Encode a message: tag byte, payload bytes, then the checksum of the tag
/// and payload. Fails exactly when the payload length is not the size the
/// registry declares for the kind.
pub fn encode(table: &ChecksumTable, kind: MsgType, payload: &[u8]) -> (r: Result<
    Vec<u8>,
    EncodeError,
>)
    requires
        table.wf(),
    ensures
        r is Ok <==> payload@.len() == kind.spec_payload_size(),
        r matches Ok(buf) ==> buf@ == spec_encode(kind, payload@),
{
    if payload.len() != kind.payload_size() {
        return Err(EncodeError {});
    }
    let mut buf: Vec<u8> = Vec::new();
    buf.push(kind.tag());
    let mut j: usize = 0;
    while j < payload.len()
        invariant
            j <= payload@.len(),
            buf@ == seq![kind.spec_tag()] + payload@.take(j as int),
        decreases payload@.len() - j,
    {
        buf.push(payload[j]);
        j = j + 1;
        proof {
            assert(buf@ =~= seq![kind.spec_tag()] + payload@.take(j as int));
        }
    }
    proof {
        assert(payload@.take(payload@.len() as int) =~= payload@);
    }
    let crc = table.checksum(buf.as_slice());
    buf.push(crc);
    Ok(buf)
}

/// Decode a buffer into a packet. Succeeds exactly when the first byte
/// names a known kind, the buffer holds that kind's payload plus the
/// checksum byte, and the checksum recomputed over tag and payload equals
/// the stored byte; any other buffer is rejected whole.
pub fn decode(table: &ChecksumTable, bytes: &[u8]) -> (r: Result<Packet, DecodeError>)
    requires
        table.wf(),
    ensures
        r is Ok <==> spec_decode(bytes@) is Some,
        r matches Ok(p) ==> Some((p.message_type, p.payload@, p.crc)) == spec_decode(bytes@),
        r matches Ok(p) ==> p.wf(),
{
    if bytes.len() == 0 {
        return Err(DecodeError {});
    }
    let kind = match MsgType::from_tag(bytes[0]) {
        Some(k) => k,
        None => {
            return Err(DecodeError {});
        },
    };
    let n = kind.payload_size();
    // No kind's payload outgrows PARAMS_SIZE, so `n + 2` cannot overflow.
    assert(n <= PARAMS_SIZE);
    if bytes.len() < n + 2 {
        return Err(DecodeError {});
    }
    let crc = table.checksum_prefix(bytes, n + 1);
    if crc != bytes[n + 1] {
        return Err(DecodeError {});
    }
    let mut payload: Vec<u8> = Vec::new();
    let mut j: usize = 0;
    while j < n
        invariant
            j <= n,
            n + 2 <= bytes@.len(),
            payload@ == bytes@.subrange(1, 1 + j as int),
        decreases n - j,
    {
        payload.push(bytes[1 + j]);
        j = j + 1;
        proof {
            assert(payload@ =~= bytes@.subrange(1, 1 + j as int));
        }
    }
    Ok(Packet { message_type: kind, payload, crc })
}

/// Round trip: every valid kind/payload pair survives encode then decode
/// unchanged, with the matching checksum in the trailing byte.
pub proof fn lemma_round_trip(kind: MsgType, payload: Seq<u8>)
    requires
        payload.len() == kind.spec_payload_size(),
    ensures
        spec_decode(spec_encode(kind, payload)) == Some(
            (kind, payload, crc_fold(seq![kind.spec_tag()] + payload)),
        ),
{
    let body = seq![kind.spec_tag()] + payload;
    let e = spec_encode(kind, payload);
    let n = kind.spec_payload_size() as int;
    lemma_tag_round_trip(kind);
    assert(e[0] == kind.spec_tag());
    assert(e.len() == n + 2);
    assert(e.take(n + 1) =~= body);
    assert(e[n + 1] == crc_fold(body));
    assert(e.subrange(1, n + 1) =~= payload);
}

/// The buffer `s` with bit `k` of byte `i` inverted.
pub open spec fn flip_bit(s: Seq<u8>, i: int, k: u8) -> Seq<u8> {
    s.update(i, s[i] ^ (1u8 << k))
}

/// Corruption is rejected: flipping any single bit of an encoded buffer at
/// or after the payload — any payload byte, or the trailing checksum byte —
/// makes decoding fail. (For the tag byte see
/// `lemma_tag_corruption_rejected`.)
pub proof fn lemma_corruption_rejected(kind: MsgType, payload: Seq<u8>, i: int, k: u8)
    requires
        payload.len() == kind.spec_payload_size(),
        1 <= i < spec_encode(kind, payload).len(),
        k < 8,
    ensures
        spec_decode(flip_bit(spec_encode(kind, payload), i, k)) is None,
{
    let body = seq![kind.spec_tag()] + payload;
    let e = spec_encode(kind, payload);
    let f = flip_bit(e, i, k);
    let n = kind.spec_payload_size() as int;
    let b = e[i];
    assert(b ^ (1u8 << k) != b) by (bit_vector)
        requires
            k < 8,
    ;
    lemma_tag_round_trip(kind);
    assert(e.take(n + 1) =~= body);
    assert(crc_fold(e.take(n + 1)) == e[n + 1]);
    assert(f.len() == n + 2);
    assert(f[0] == kind.spec_tag());
    if i == n + 1 {
        assert(f.take(n + 1) =~= e.take(n + 1));
        assert(f[n + 1] != e[n + 1]);
    } else {
        assert(f[n + 1] == e[n + 1]);
        assert(e.take(n + 1).len() == f.take(n + 1).len());
        assert(e.take(n + 1)[i] != f.take(n + 1)[i]);
        assert(forall|j: int|
            0 <= j < n + 1 && j != i ==> e.take(n + 1)[j] == #[trigger] f.take(n + 1)[j]);
        lemma_fold_single_difference(e.take(n + 1), f.take(n + 1), i);
        assert(crc_fold(f.take(n + 1)) != f[n + 1]);
    }
}

/// Corruption of the tag byte is rejected whenever the flipped tag is
/// unknown or names a kind whose payload is at least as large — in
/// particular, for the zero-payload kinds every tag flip is rejected. A
/// flip that lands on a kind with a strictly smaller payload re-frames the
/// buffer, and the checksum over that shorter prefix cannot always catch
/// it; such flips are outside this statement.
pub proof fn lemma_tag_corruption_rejected(kind: MsgType, payload: Seq<u8>, k: u8)
    requires
        payload.len() == kind.spec_payload_size(),
        k < 8,
        (match MsgType::spec_from_tag(kind.spec_tag() ^ (1u8 << k)) {
            None => true,
            Some(kind2) => kind2.spec_payload_size() >= kind.spec_payload_size(),
        }),
    ensures
        spec_decode(flip_bit(spec_encode(kind, payload), 0, k)) is None,
{
    let body = seq![kind.spec_tag()] + payload;
    let e = spec_encode(kind, payload);
    let f = flip_bit(e, 0, k);
    let n = kind.spec_payload_size() as int;
    let t = kind.spec_tag();
    let t2 = t ^ (1u8 << k);
    assert(t2 != t) by (bit_vector)
        requires
            k < 8,
            t2 == t ^ (1u8 << k),
    ;
    assert(f[0] == t2);
    assert(f.len() == n + 2);
    assert(e.take(n + 1) =~= body);
    assert(crc_fold(e.take(n + 1)) == e[n + 1]);
    match MsgType::spec_from_tag(t2) {
        None => {},
        Some(kind2) => {
            let n2 = kind2.spec_payload_size() as int;
            if n2 == n {
                assert(f[n + 1] == e[n + 1]);
                assert(e.take(n + 1)[0] != f.take(n + 1)[0]);
                assert(forall|j: int|
                    0 <= j < n + 1 && j != 0 ==> e.take(n + 1)[j] == #[trigger] f.take(n + 1)[j]);
                lemma_fold_single_difference(e.take(n + 1), f.take(n + 1), 0);
                assert(crc_fold(f.take(n + 1)) != f[n + 1]);
            } else {
                assert(f.len() < n2 + 2);
            }
        },
    }
}

} // verus!
