//! The fingerprint hash: 64-bit FNV-1a over the identity-relevant pieces of
//! a source's newest content. The exact value is this crate's own choice; it
//! only has to be deterministic and spread well enough for change detection.

use vstd::prelude::*;

verus! {

/// Offset basis of the 64-bit FNV-1a hash.
pub const FNV_OFFSET: u64 = 0xcbf2_9ce4_8422_2325;

/// Prime of the 64-bit FNV-1a hash.
pub const FNV_PRIME: u64 = 0x100_0000_01b3;

/// One FNV-1a round: fold one 64-bit value into the running hash.
pub open spec fn spec_fnv_step(h: u64, x: u64) -> u64 {
    vstd::wrapping::u64_specs::wrapping_mul(h ^ x, FNV_PRIME)
}

pub fn fnv_step(h: u64, x: u64) -> (r: u64)
    ensures
        r == spec_fnv_step(h, x),
{
    (h ^ x).wrapping_mul(FNV_PRIME)
}

/// Folding a sequence of characters into a running hash, front to back.
pub open spec fn spec_fnv_chars(h: u64, s: Seq<char>) -> u64
    decreases s.len(),
{
    if s.len() == 0 {
        h
    } else {
        spec_fnv_chars(spec_fnv_step(h, s.first() as u64), s.drop_first())
    }
}

/// The fingerprint of a piece of text: FNV-1a over its characters.
pub open spec fn spec_str_fingerprint(s: Seq<char>) -> u64 {
    spec_fnv_chars(FNV_OFFSET, s)
}

pub fn str_fingerprint(s: &str) -> (r: u64)
    ensures
        r == spec_str_fingerprint(s@),
{
    let len: usize = s.unicode_len();
    let mut h: u64 = FNV_OFFSET;
    let mut i: usize = 0;
    proof {
        assert(s@.skip(0) =~= s@);
    }
    while i < len
        invariant
            i <= len,
            len == s@.len(),
            spec_fnv_chars(FNV_OFFSET, s@) == spec_fnv_chars(h, s@.skip(i as int)),
        decreases len - i,
    {
        let c = s.get_char(i);
        proof {
            assert(s@.skip(i as int).first() == s@[i as int]);
            assert(s@.skip(i as int).drop_first() =~= s@.skip(i + 1));
        }
        h = fnv_step(h, c as u64);
        i = i + 1;
    }
    proof {
        assert(s@.skip(len as int) =~= Seq::<char>::empty());
    }
    h
}

/// The two's-complement image of a signed second count, used as hash input.
pub open spec fn spec_ts_bits(t: i64) -> u64 {
    if t >= 0 {
        t as u64
    } else {
        (t + 0x1_0000_0000_0000_0000) as u64
    }
}

pub fn ts_bits(t: i64) -> (r: u64)
    ensures
        r == spec_ts_bits(t),
{
    if t >= 0 {
        t as u64
    } else {
        ((t as i128) + 0x1_0000_0000_0000_0000i128) as u64
    }
}

} // verus!
