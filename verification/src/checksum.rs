//! 8-bit checksum over packet bytes.
//!
//! The instrument's protocol guards every packet with an 8-bit cyclic
//! checksum over the message-type tag and the payload, reduced by a fixed
//! polynomial. The table-driven form here is the one consulted on both the
//! encode and the decode path, so the value written at encode time is by
//! construction the value recomputed at decode time.

use vstd::prelude::*;

verus! {

/// Fixed reduction polynomial of the packet checksum.
pub const CRC_POLY: u8 = 0xab;

/// One shift-and-reduce round of the polynomial division.
pub open spec fn crc_round(c: u8) -> u8 {
    if c & 0x80 != 0 {
        (c << 1) ^ CRC_POLY
    } else {
        c << 1
    }
}

/// Undoes one round: the polynomial's low bit is set, so the round's output
/// records in its low bit whether the reduction fired.
pub open spec fn crc_round_inv(d: u8) -> u8 {
    if d & 1 == 1 {
        ((d ^ CRC_POLY) >> 1) | 0x80
    } else {
        d >> 1
    }
}

/// Table entry for one byte value: eight rounds of the polynomial division.
pub open spec fn crc_entry_spec(b: u8) -> u8 {
    crc_round(
        crc_round(crc_round(crc_round(crc_round(crc_round(crc_round(crc_round(b))))))),
    )
}

/// Checksum of a whole byte sequence: start from zero and fold each byte
/// through the table, mixing it in with exclusive-or.
pub open spec fn crc_fold(s: Seq<u8>) -> u8
    decreases s.len(),
{
    if s.len() == 0 {
        0
    } else {
        crc_entry_spec(crc_fold(s.drop_last()) ^ s.last())
    }
}

/// Each round is undone exactly by `crc_round_inv`.
proof fn lemma_round_inverts(c: u8)
    by (bit_vector)
    ensures
        crc_round_inv(crc_round(c)) == c,
{
}

/// A single round never maps two byte values together.
proof fn lemma_round_injective(a: u8, b: u8)
    requires
        crc_round(a) == crc_round(b),
    ensures
        a == b,
{
    lemma_round_inverts(a);
    lemma_round_inverts(b);
}

/// The 256-entry table is a permutation of the byte values: two different
/// bytes never share a table entry.
pub proof fn lemma_entry_injective(x: u8, y: u8)
    requires
        crc_entry_spec(x) == crc_entry_spec(y),
    ensures
        x == y,
{
    let x1 = crc_round(x);
    let y1 = crc_round(y);
    let x2 = crc_round(x1);
    let y2 = crc_round(y1);
    let x3 = crc_round(x2);
    let y3 = crc_round(y2);
    let x4 = crc_round(x3);
    let y4 = crc_round(y3);
    let x5 = crc_round(x4);
    let y5 = crc_round(y4);
    let x6 = crc_round(x5);
    let y6 = crc_round(y5);
    let x7 = crc_round(x6);
    let y7 = crc_round(y6);
    lemma_round_injective(x7, y7);
    lemma_round_injective(x6, y6);
    lemma_round_injective(x5, y5);
    lemma_round_injective(x4, y4);
    lemma_round_injective(x3, y3);
    lemma_round_injective(x2, y2);
    lemma_round_injective(x1, y1);
    lemma_round_injective(x, y);
}

/// Two equally long byte sequences that differ in exactly one position have
/// different checksums: a changed byte perturbs the running value, and every
/// later fold step is injective in the running value.
pub proof fn lemma_fold_single_difference(s1: Seq<u8>, s2: Seq<u8>, i: int)
    requires
        s1.len() == s2.len(),
        0 <= i < s1.len(),
        s1[i] != s2[i],
        forall|j: int| 0 <= j < s1.len() && j != i ==> s1[j] == s2[j],
    ensures
        crc_fold(s1) != crc_fold(s2),
    decreases s1.len(),
{
    if i == s1.len() - 1 {
        assert(s1.drop_last() =~= s2.drop_last());
        let c = crc_fold(s1.drop_last());
        let a = s1.last();
        let b = s2.last();
        assert((c ^ a) != (c ^ b)) by (bit_vector)
            requires
                a != b,
        ;
        if crc_fold(s1) == crc_fold(s2) {
            lemma_entry_injective(c ^ a, c ^ b);
            assert(false);
        }
    } else {
        lemma_fold_single_difference(s1.drop_last(), s2.drop_last(), i);
        let c1 = crc_fold(s1.drop_last());
        let c2 = crc_fold(s2.drop_last());
        let b = s1.last();
        assert(s2.last() == b);
        assert((c1 ^ b) != (c2 ^ b)) by (bit_vector)
            requires
                c1 != c2,
        ;
        if crc_fold(s1) == crc_fold(s2) {
            lemma_entry_injective(c1 ^ b, c2 ^ b);
            assert(false);
        }
    }
}

/// One round of the polynomial division, executable form.
fn crc_round_exec(c: u8) -> (r: u8)
    ensures
        r == crc_round(c),
{
    if c & 0x80 != 0 {
        (c << 1u8) ^ CRC_POLY
    } else {
        c << 1u8
    }
}

/// Table entry for one byte value, executable form.
fn crc_entry(b: u8) -> (r: u8)
    ensures
        r == crc_entry_spec(b),
{
    let mut c = b;
    c = crc_round_exec(c);
    c = crc_round_exec(c);
    c = crc_round_exec(c);
    c = crc_round_exec(c);
    c = crc_round_exec(c);
    c = crc_round_exec(c);
    c = crc_round_exec(c);
    c = crc_round_exec(c);
    c
}

/// The 256-entry lookup table, built once from the fixed polynomial before
/// any packet is checked. Every byte value maps to its eight-round
/// reduction, so the table is a pure function of `CRC_POLY`.
pub struct ChecksumTable {
    table: Vec<u8>,
}

impl ChecksumTable {
    /// The table holds exactly the polynomial reduction of every byte value.
    pub closed spec fn wf(&self) -> bool {
        &&& self.table@.len() == 256
        &&& forall|i: int| 0 <= i < 256 ==> self.table@[i] == crc_entry_spec(i as u8)
    }

    /// Build the table by feeding every byte value through the polynomial.
    pub fn new() -> (r: Self)
        ensures
            r.wf(),
    {
        let mut table: Vec<u8> = Vec::new();
        let mut i: usize = 0;
        while i < 256
            invariant
                i <= 256,
                table@.len() == i,
                forall|j: int| 0 <= j < i ==> table@[j] == crc_entry_spec(j as u8),
            decreases 256 - i,
        {
            table.push(crc_entry(i as u8));
            i = i + 1;
        }
        ChecksumTable { table }
    }

    /// Checksum of the first `end` bytes of `data`.
    pub fn checksum_prefix(&self, data: &[u8], end: usize) -> (r: u8)
        requires
            self.wf(),
            end <= data@.len(),
        ensures
            r == crc_fold(data@.take(end as int)),
    {
        let mut crc: u8 = 0;
        let mut i: usize = 0;
        while i < end
            invariant
                self.wf(),
                i <= end <= data@.len(),
                crc == crc_fold(data@.take(i as int)),
            decreases end - i,
        {
            crc = self.table[(crc ^ data[i]) as usize];
            i = i + 1;
            proof {
                assert(data@.take(i as int).drop_last() =~= data@.take(i - 1));
                assert(data@.take(i as int).last() == data@[i - 1]);
            }
        }
        crc
    }

    /// Checksum of a byte buffer. The result is a function of the bytes
    /// alone, so the value is stable across calls and across process
    /// restarts, and the encode- and decode-side computations agree.
    pub fn checksum(&self, data: &[u8]) -> (r: u8)
        requires
            self.wf(),
        ensures
            r == crc_fold(data@),
    {
        let r = self.checksum_prefix(data, data.len());
        proof {
            assert(data@.take(data@.len() as int) =~= data@);
        }
        r
    }
}

} // verus!
