//! The fixed-width little-endian encodings that every record and
//! instruction is built from.

use vstd::prelude::*;
use crate::pubkey::Pubkey;

verus! {

/// The byte that stands for a flag: 1 for `true`, 0 for `false`.
pub open spec fn bool_byte(flag: bool) -> u8 {
    if flag { 1 } else { 0 }
}

/// The two little-endian bytes of `x`.
pub open spec fn u16_le(x: u16) -> Seq<u8> {
    seq![(x % 0x100) as u8, (x / 0x100) as u8]
}

/// The value whose little-endian bytes are the first two elements of `s`.
pub open spec fn le_u16(s: Seq<u8>) -> u16 {
    (s[0] + 0x100 * s[1]) as u16
}

/// The eight little-endian bytes of `x`.
pub open spec fn u64_le(x: u64) -> Seq<u8> {
    seq![
        (x % 0x100) as u8,
        (x / 0x100 % 0x100) as u8,
        (x / 0x1_0000 % 0x100) as u8,
        (x / 0x100_0000 % 0x100) as u8,
        (x / 0x1_0000_0000 % 0x100) as u8,
        (x / 0x100_0000_0000 % 0x100) as u8,
        (x / 0x1_0000_0000_0000 % 0x100) as u8,
        (x / 0x100_0000_0000_0000) as u8,
    ]
}

/// The value whose little-endian bytes are the first eight elements of `s`.
pub open spec fn le_u64(s: Seq<u8>) -> u64 {
    (s[0] + 0x100 * s[1] + 0x1_0000 * s[2] + 0x100_0000 * s[3] + 0x1_0000_0000 * s[4]
        + 0x100_0000_0000 * s[5] + 0x1_0000_0000_0000 * s[6] + 0x100_0000_0000_0000 * s[7]) as u64
}

/// Decoding inverts encoding for 16-bit values, in both directions.
pub proof fn lemma_u16_le(x: u16, s: Seq<u8>)
    ensures
        u16_le(x).len() == 2,
        le_u16(u16_le(x)) == x,
        s.len() == 2 ==> u16_le(le_u16(s)) == s,
{
    if s.len() == 2 {
        assert(u16_le(le_u16(s)) =~= s);
    }
}

/// Decoding inverts encoding for 64-bit values, in both directions.
pub proof fn lemma_u64_le(x: u64, s: Seq<u8>)
    ensures
        u64_le(x).len() == 8,
        le_u64(u64_le(x)) == x,
        s.len() == 8 ==> u64_le(le_u64(s)) == s,
{
    lemma_u64_digits(x as int);
    if s.len() == 8 {
        let t7: int = s[7] as int;
        let t6: int = s[6] + 0x100 * t7;
        let t5: int = s[5] + 0x100 * t6;
        let t4: int = s[4] + 0x100 * t5;
        let t3: int = s[3] + 0x100 * t4;
        let t2: int = s[2] + 0x100 * t3;
        let t1: int = s[1] + 0x100 * t2;
        let t0: int = s[0] + 0x100 * t1;
        assert(t0 == le_u64(s));
        lemma_u64_digits(t0);
        assert(t0 / 0x100 == t1);
        assert(t1 / 0x100 == t2);
        assert(t2 / 0x100 == t3);
        assert(t3 / 0x100 == t4);
        assert(t4 / 0x100 == t5);
        assert(t5 / 0x100 == t6);
        assert(t6 / 0x100 == t7);
        assert(u64_le(le_u64(s)) =~= s);
    }
}

/// Dividing by a power of 256 is dividing by 256 that many times, and a
/// 64-bit value is the sum of its eight base-256 digits.
proof fn lemma_u64_digits(x: int)
    requires
        0 <= x <= u64::MAX,
    ensures
        x / 0x1_0000 == x / 0x100 / 0x100,
        x / 0x100_0000 == x / 0x100 / 0x100 / 0x100,
        x / 0x1_0000_0000 == x / 0x100 / 0x100 / 0x100 / 0x100,
        x / 0x100_0000_0000 == x / 0x100 / 0x100 / 0x100 / 0x100 / 0x100,
        x / 0x1_0000_0000_0000 == x / 0x100 / 0x100 / 0x100 / 0x100 / 0x100 / 0x100,
        x / 0x100_0000_0000_0000 == x / 0x100 / 0x100 / 0x100 / 0x100 / 0x100 / 0x100 / 0x100,
        x / 0x100_0000_0000_0000 < 0x100,
        x == x % 0x100 + 0x100 * (x / 0x100 % 0x100) + 0x1_0000 * (x / 0x1_0000 % 0x100)
            + 0x100_0000 * (x / 0x100_0000 % 0x100) + 0x1_0000_0000 * (x / 0x1_0000_0000 % 0x100)
            + 0x100_0000_0000 * (x / 0x100_0000_0000 % 0x100) + 0x1_0000_0000_0000 * (x
            / 0x1_0000_0000_0000 % 0x100) + 0x100_0000_0000_0000 * (x / 0x100_0000_0000_0000),
{
    let q1 = x / 0x100;
    let q2 = q1 / 0x100;
    let q3 = q2 / 0x100;
    let q4 = q3 / 0x100;
    let q5 = q4 / 0x100;
    let q6 = q5 / 0x100;
    let q7 = q6 / 0x100;
    assert(x / 0x1_0000 == q2);
    assert(x / 0x100_0000 == q3);
    assert(x / 0x1_0000_0000 == q4);
    assert(x / 0x100_0000_0000 == q5);
    assert(x / 0x1_0000_0000_0000 == q6);
    assert(x / 0x100_0000_0000_0000 == q7);
}

/// Appends the byte of a flag.
pub fn put_bool(out: &mut Vec<u8>, flag: bool)
    ensures
        final(out)@ == old(out)@.push(bool_byte(flag)),
{
    out.push(if flag { 1 } else { 0 });
}

/// Appends the two little-endian bytes of `x`.
pub fn put_u16(out: &mut Vec<u8>, x: u16)
    ensures
        final(out)@ == old(out)@ + u16_le(x),
{
    out.push((x % 0x100) as u8);
    out.push((x / 0x100) as u8);
    assert(out@ =~= old(out)@ + u16_le(x));
}

/// Appends the eight little-endian bytes of `x`.
pub fn put_u64(out: &mut Vec<u8>, x: u64)
    ensures
        final(out)@ == old(out)@ + u64_le(x),
{
    out.push((x % 0x100) as u8);
    out.push((x / 0x100 % 0x100) as u8);
    out.push((x / 0x1_0000 % 0x100) as u8);
    out.push((x / 0x100_0000 % 0x100) as u8);
    out.push((x / 0x1_0000_0000 % 0x100) as u8);
    out.push((x / 0x100_0000_0000 % 0x100) as u8);
    out.push((x / 0x1_0000_0000_0000 % 0x100) as u8);
    out.push((x / 0x100_0000_0000_0000) as u8);
    assert(out@ =~= old(out)@ + u64_le(x));
}

/// Appends the 32 bytes of a key.
pub fn put_key(out: &mut Vec<u8>, key: &Pubkey)
    ensures
        final(out)@ == old(out)@ + key@,
{
    let mut i: usize = 0;
    while i < 32
        invariant
            i <= 32,
            out@ == old(out)@ + key@.subrange(0, i as int),
        decreases 32 - i,
    {
        out.push(key.bytes[i]);
        assert(out@ =~= old(out)@ + key@.subrange(0, i + 1));
        i += 1;
    }
    assert(key@.subrange(0, 32) =~= key@);
}

/// Reads the flag stored at `at`; a byte other than 0 or 1 is no flag.
pub fn get_bool(src: &[u8], at: usize) -> (flag: Option<bool>)
    requires
        at < src.len(),
    ensures
        flag == (if src[at as int] == 0 {
            Some(false)
        } else if src[at as int] == 1 {
            Some(true)
        } else {
            None
        }),
{
    let byte: u8 = src[at];
    if byte == 0 {
        Some(false)
    } else if byte == 1 {
        Some(true)
    } else {
        None
    }
}

/// Reads the 16-bit value stored at `at`.
pub fn get_u16(src: &[u8], at: usize) -> (x: u16)
    requires
        at + 2 <= src.len(),
    ensures
        x == le_u16(src@.subrange(at as int, at + 2)),
{
    src[at] as u16 + 0x100 * (src[at + 1] as u16)
}

/// Reads the 64-bit value stored at `at`.
pub fn get_u64(src: &[u8], at: usize) -> (x: u64)
    requires
        at + 8 <= src.len(),
    ensures
        x == le_u64(src@.subrange(at as int, at + 8)),
{
    src[at] as u64 + 0x100 * (src[at + 1] as u64) + 0x1_0000 * (src[at + 2] as u64) + 0x100_0000
        * (src[at + 3] as u64) + 0x1_0000_0000 * (src[at + 4] as u64) + 0x100_0000_0000 * (src[at
        + 5] as u64) + 0x1_0000_0000_0000 * (src[at + 6] as u64) + 0x100_0000_0000_0000 * (src[at
        + 7] as u64)
}

/// Reads the key stored at `at`.
pub fn get_key(src: &[u8], at: usize) -> (key: Pubkey)
    requires
        at + 32 <= src.len(),
    ensures
        key == Pubkey::from_seq(src@.subrange(at as int, at + 32)),
{
    let mut bytes: [u8; 32] = [0u8; 32];
    let mut i: usize = 0;
    while i < 32
        invariant
            i <= 32,
            at + 32 <= src.len(),
            forall|j: int| 0 <= j < i ==> bytes[j] == src[at + j],
        decreases 32 - i,
    {
        bytes[i] = src[at + i];
        i += 1;
    }
    let key = Pubkey { bytes };
    assert(key.bytes =~= Pubkey::from_seq(src@.subrange(at as int, at + 32)).bytes);
    key
}

} // verus!
