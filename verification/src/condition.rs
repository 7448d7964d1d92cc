//! Scanning rcheevos condition strings for the memory addresses they read.
//!
//! A condition string references memory with tokens such as `0xH00801234`
//! (8-bit), `0x 00801234` (16-bit), `0xX00801234` (32-bit) or `d0xH00801234`
//! (delta).  The scanner finds every `0x` that has at least one byte after
//! it, skips the size modifier, and reads the run of hex digits that follows.
use vstd::prelude::*;
use vstd::string::StringSliceAdditionalSpecFns;

verus! {

/// ASCII hex digit (`0-9`, `A-F`, `a-f`).
pub open spec fn is_hex_byte(c: u8) -> bool {
    (48 <= c <= 57) || (65 <= c <= 70) || (97 <= c <= 102)
}

/// Numeric value of an ASCII hex digit.
pub open spec fn hex_byte_value(c: u8) -> nat {
    if c <= 57 {
        (c - 48) as nat
    } else if c <= 70 {
        (c - 55) as nat
    } else {
        (c - 87) as nat
    }
}

/// Big-endian value of a run of hex digits.
pub open spec fn hex_bytes_value(s: Seq<u8>) -> nat
    decreases s.len(),
{
    if s.len() == 0 {
        0
    } else {
        hex_bytes_value(s.drop_last()) * 16 + hex_byte_value(s.last())
    }
}

/// Bytes at which the modifier skip stops: a hex digit, `+` or `-`.
pub open spec fn stops_modifier_skip(c: u8) -> bool {
    is_hex_byte(c) || c == 43 || c == 45
}

/// First index at or after `j` where the modifier skip stops (or the end).
pub open spec fn skip_modifier(b: Seq<u8>, j: int) -> int
    decreases b.len() - j,
{
    if j >= b.len() || stops_modifier_skip(b[j]) {
        j
    } else {
        skip_modifier(b, j + 1)
    }
}

/// First index at or after `j` that is not a hex digit (or the end).
pub open spec fn hex_run_end(b: Seq<u8>, j: int) -> int
    decreases b.len() - j,
{
    if j >= b.len() || !is_hex_byte(b[j]) {
        j
    } else {
        hex_run_end(b, j + 1)
    }
}

/// A memory reference starts at `i`: `0x` with at least one byte after it.
pub open spec fn starts_reference(b: Seq<u8>, i: int) -> bool {
    &&& 0 <= i
    &&& i + 2 < b.len()
    &&& b[i] == 48
    &&& b[i + 1] == 120
}

pub proof fn lemma_skip_modifier_bounds(b: Seq<u8>, j: int)
    requires
        j <= b.len(),
    ensures
        j <= skip_modifier(b, j) <= b.len(),
    decreases b.len() - j,
{
    if j < b.len() && !stops_modifier_skip(b[j]) {
        lemma_skip_modifier_bounds(b, j + 1);
    }
}

pub proof fn lemma_hex_run_end_bounds(b: Seq<u8>, j: int)
    requires
        j <= b.len(),
    ensures
        j <= hex_run_end(b, j) <= b.len(),
    decreases b.len() - j,
{
    if j < b.len() && is_hex_byte(b[j]) {
        lemma_hex_run_end_bounds(b, j + 1);
    }
}

/// The address read by the reference starting at `i`, if its digits parse
/// as a `u32` (a run of hex digits whose value fits).
pub open spec fn reference_address(b: Seq<u8>, i: int) -> Option<u32> {
    let s = skip_modifier(b, i + 2);
    let e = hex_run_end(b, s);
    if e > s && hex_bytes_value(b.subrange(s, e)) <= u32::MAX {
        Some(hex_bytes_value(b.subrange(s, e)) as u32)
    } else {
        None
    }
}

/// Addresses found by scanning `b` from index `i` on, in order.
pub open spec fn addresses_from(b: Seq<u8>, i: int) -> Seq<u32>
    decreases b.len() - i,
{
    if i < 0 || i >= b.len() {
        Seq::empty()
    } else if starts_reference(b, i) {
        let s = skip_modifier(b, i + 2);
        let e = hex_run_end(b, s);
        proof {
            lemma_skip_modifier_bounds(b, i + 2);
            lemma_hex_run_end_bounds(b, s);
        }
        let here = match reference_address(b, i) {
            Some(a) => seq![a],
            None => Seq::empty(),
        };
        here + addresses_from(b, e)
    } else {
        addresses_from(b, i + 1)
    }
}

/// All addresses referenced by a condition string given as UTF-8 bytes.
pub open spec fn condition_addresses(b: Seq<u8>) -> Seq<u32> {
    addresses_from(b, 0)
}

pub fn is_hex_digit_byte(c: u8) -> (r: bool)
    ensures
        r == is_hex_byte(c),
{
    (48 <= c && c <= 57) || (65 <= c && c <= 70) || (97 <= c && c <= 102)
}

pub fn hex_digit_byte_value(c: u8) -> (v: u64)
    requires
        is_hex_byte(c),
    ensures
        v == hex_byte_value(c),
        v < 16,
{
    if c <= 57 {
        (c - 48) as u64
    } else if c <= 70 {
        (c - 55) as u64
    } else {
        (c - 87) as u64
    }
}

/// Reads the run of hex digits starting at `start`; returns its end and the
/// value when it fits in a `u32`.
fn read_hex_run(bytes: &[u8], start: usize) -> (res: (usize, Option<u32>))
    requires
        start <= bytes@.len(),
    ensures
        res.0 == hex_run_end(bytes@, start as int),
        res.0 <= bytes@.len(),
        match res.1 {
            Some(v) => hex_bytes_value(bytes@.subrange(start as int, res.0 as int)) <= u32::MAX
                && v == hex_bytes_value(bytes@.subrange(start as int, res.0 as int)),
            None => hex_bytes_value(bytes@.subrange(start as int, res.0 as int)) > u32::MAX,
        },
{
    let len = bytes.len();
    let mut j = start;
    let mut value: u64 = 0;
    let mut overflow = false;
    assert(bytes@.subrange(start as int, start as int) =~= Seq::<u8>::empty());
    while j < len && is_hex_digit_byte(bytes[j])
        invariant
            start <= j <= len,
            len == bytes@.len(),
            hex_run_end(bytes@, j as int) == hex_run_end(bytes@, start as int),
            !overflow ==> value == hex_bytes_value(bytes@.subrange(start as int, j as int))
                && value <= u32::MAX,
            overflow ==> hex_bytes_value(bytes@.subrange(start as int, j as int)) > u32::MAX,
        decreases len - j,
    {
        let d = hex_digit_byte_value(bytes[j]);
        let ghost prev = bytes@.subrange(start as int, j as int);
        let ghost next = bytes@.subrange(start as int, j + 1);
        assert(next.drop_last() =~= prev);
        assert(hex_bytes_value(next) == hex_bytes_value(prev) * 16 + hex_byte_value(bytes@[j as int]));
        if !overflow {
            let nv = value * 16 + d;
            if nv > 0xFFFF_FFFF {
                overflow = true;
            } else {
                value = nv;
            }
        }
        j = j + 1;
    }
    if overflow {
        (j, None)
    } else {
        (j, Some(value as u32))
    }
}

/// Parses all memory addresses referenced by an rcheevos condition string.
///
/// Each reference is a `0x` followed by at least one more byte; the size
/// modifier bytes are skipped up to the first hex digit, `+` or `-`, and the
/// hex digits that follow are read as the address.  A reference whose digits
/// do not fit in a `u32`, or that has no digits, yields nothing.
pub fn parse_addresses_from_condition(condition: &str) -> (addrs: Vec<u32>)
    ensures
        addrs@ == condition_addresses(condition.spec_bytes()),
{
    let bytes = condition.as_bytes();
    let ghost b = bytes@;
    let len = bytes.len();
    let mut addresses: Vec<u32> = Vec::new();
    let mut i: usize = 0;
    while i < len
        invariant
            b == bytes@,
            len == b.len(),
            i <= len,
            addresses@ + addresses_from(b, i as int) == addresses_from(b, 0),
        decreases len - i,
    {
        if len - i > 2 && bytes[i] == 48 && bytes[i + 1] == 120 {
            let mut j = i + 2;
            while j < len && !is_hex_digit_byte(bytes[j]) && bytes[j] != 43 && bytes[j] != 45
                invariant
                    b == bytes@,
                    len == b.len(),
                    i + 2 <= j <= len,
                    skip_modifier(b, j as int) == skip_modifier(b, i + 2),
                decreases len - j,
            {
                j = j + 1;
            }
            let start = j;
            let (end, value) = read_hex_run(bytes, start);
            proof {
                lemma_hex_run_end_bounds(b, start as int);
            }
            let ghost here = match reference_address(b, i as int) {
                Some(a) => seq![a],
                None => Seq::<u32>::empty(),
            };
            assert(addresses_from(b, i as int) == here + addresses_from(b, end as int));
            let ghost old_addrs = addresses@;
            if end > start {
                match value {
                    Some(v) => {
                        addresses.push(v);
                    },
                    None => {},
                }
            }
            assert(addresses@ =~= old_addrs + here);
            assert(addresses@ + addresses_from(b, end as int) =~= addresses_from(b, 0));
            i = end;
        } else {
            i = i + 1;
        }
    }
    assert(addresses_from(b, len as int) =~= Seq::<u32>::empty());
    assert(addresses@ + Seq::<u32>::empty() =~= addresses@);
    addresses
}

} // verus!
