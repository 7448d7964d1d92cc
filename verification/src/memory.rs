//! Snapshots of emulator memory reported by Dolphin's MemoryWatcher, and
//! the reads that achievement conditions make from them.
//!
//! MemoryWatcher sends datagrams made of line pairs: the watched address as
//! written to `Locations.txt`, then its new value, both in hex.  The latest
//! value of every 4-byte word is kept in a [`MemoryCache`].
use vstd::prelude::*;
use vstd::utf8::{decode_utf8, valid_utf8};
use std::collections::HashMap;
use crate::text::chars_of;

verus! {

broadcast use vstd::std_specs::hash::group_hash_axioms;

/// The latest `u32` value seen for each watched (aligned) address.
pub struct MemoryCache {
    words: HashMap<u32, u32>,
}

impl View for MemoryCache {
    type V = Map<u32, u32>;

    closed spec fn view(&self) -> Map<u32, u32> {
        self.words@
    }
}

/// A new, empty memory cache.
pub fn new_memory_cache() -> (cache: MemoryCache)
    ensures
        cache@ == Map::<u32, u32>::empty(),
{
    MemoryCache { words: HashMap::new() }
}

impl MemoryCache {
    /// The value stored for `addr`, if any.
    pub fn get(&self, addr: u32) -> (r: Option<u32>)
        ensures
            r == (if self@.contains_key(addr) { Some(self@[addr]) } else { None::<u32> }),
    {
        match self.words.get(&addr) {
            Some(v) => Some(*v),
            None => None,
        }
    }

    /// Records `value` as the latest value of `addr`.
    pub fn insert(&mut self, addr: u32, value: u32)
        ensures
            final(self)@ == old(self)@.insert(addr, value),
    {
        self.words.insert(addr, value);
    }

    /// The number of addresses with a recorded value.
    pub fn len(&self) -> (n: usize)
        ensures
            n == self@.len(),
    {
        self.words.len()
    }
}

/// The value of the word holding `addr`, or 0 when nothing was reported.
pub open spec fn word_at(m: Map<u32, u32>, addr: u32) -> u32 {
    let aligned = addr & 0xFFFF_FFFCu32;
    if m.contains_key(aligned) {
        m[aligned]
    } else {
        0
    }
}

/// Size specifier of an rcheevos memory reference.
#[derive(Debug, Clone, Copy, PartialEq, Eq, Structural)]
pub enum MemorySize {
    /// `0xH`: 8-bit value
    Bit8,
    /// `0x ` (space): 16-bit value
    Bit16,
    /// `0xX`: 32-bit value
    Bit32,
    /// `0xL`: lower 16 bits
    Lower16,
    /// `0xU`: upper 16 bits
    Upper16,
    /// `0xM`/`0xT`: a single bit, its index given by `addr & 7`
    Bit0,
}

/// The part of the word `value` that a reference of `size` at `addr` reads.
pub open spec fn extract_sized(value: u32, addr: u32, size: MemorySize) -> u32 {
    match size {
        MemorySize::Bit8 => value & 0xFF,
        MemorySize::Bit16 => value & 0xFFFF,
        MemorySize::Bit32 => value,
        MemorySize::Lower16 => value & 0xFFFF,
        MemorySize::Upper16 => (value >> 16u32) & 0xFFFF,
        MemorySize::Bit0 => (value >> (addr & 7)) & 1,
    }
}

/// Reads a value of the given size at `addr` from the cache: the word that
/// holds `addr` (0 if none was reported), narrowed to the requested part.
pub fn read_memory_value(cache: &MemoryCache, addr: u32, size: MemorySize) -> (r: u32)
    ensures
        r == extract_sized(word_at(cache@, addr), addr, size),
{
    let aligned = addr & 0xFFFF_FFFCu32;
    let value = match cache.get(aligned) {
        Some(v) => v,
        None => 0,
    };
    match size {
        MemorySize::Bit8 => value & 0xFF,
        MemorySize::Bit16 => value & 0xFFFF,
        MemorySize::Bit32 => value,
        MemorySize::Lower16 => value & 0xFFFF,
        MemorySize::Upper16 => (value >> 16u32) & 0xFFFF,
        MemorySize::Bit0 => {
            let sh = addr & 7;
            assert(sh < 8) by (bit_vector)
                requires
                    sh == addr & 7,
            ;
            (value >> sh) & 1
        },
    }
}

/// What each read size gives of a word, in arithmetic terms: the low byte,
/// the low or high half, or the whole word.
pub proof fn lemma_sized_reads(w: u32, a: u32)
    ensures
        extract_sized(w, a, MemorySize::Bit8) == w % 0x100,
        extract_sized(w, a, MemorySize::Bit16) == w % 0x1_0000,
        extract_sized(w, a, MemorySize::Lower16) == w % 0x1_0000,
        extract_sized(w, a, MemorySize::Upper16) == w / 0x1_0000,
        extract_sized(w, a, MemorySize::Bit32) == w,
{
    assert(w & 0xFF == w % 0x100) by (bit_vector);
    assert(w & 0xFFFF == w % 0x1_0000) by (bit_vector);
    assert((w >> 16u32) & 0xFFFF == w / 0x1_0000) by (bit_vector);
}

/// A single-bit read at `a` reads bit `a mod 8` of its word: the result is
/// 0 or 1, flipping that bit of the word flips it, flipping any other bit
/// leaves it alone, and addresses congruent mod 8 read the same bit.
pub proof fn lemma_single_bit_read(w: u32, a: u32, b: u32, k: u32)
    ensures
        extract_sized(w, a, MemorySize::Bit0) <= 1,
        extract_sized(w ^ (1u32 << (a % 8)), a, MemorySize::Bit0) != extract_sized(
            w,
            a,
            MemorySize::Bit0,
        ),
        k < 32 && k != a % 8 ==> extract_sized(w ^ (1u32 << k), a, MemorySize::Bit0)
            == extract_sized(w, a, MemorySize::Bit0),
        a % 8 == b % 8 ==> extract_sized(w, a, MemorySize::Bit0) == extract_sized(
            w,
            b,
            MemorySize::Bit0,
        ),
{
    let f = w ^ (1u32 << (a % 8));
    let g = w ^ (1u32 << k);
    assert((w >> (a & 7)) & 1 <= 1) by (bit_vector);
    assert((f >> (a & 7)) & 1 != (w >> (a & 7)) & 1) by (bit_vector)
        requires
            f == w ^ (1u32 << (a % 8)),
    ;
    assert(k < 32 && k != a % 8 ==> (g >> (a & 7)) & 1 == (w >> (a & 7)) & 1) by (bit_vector)
        requires
            g == w ^ (1u32 << k),
    ;
    assert(a % 8 == b % 8 ==> (w >> (a & 7)) & 1 == (w >> (b & 7)) & 1) by (bit_vector);
}

/// The bytes rcheevos asks for at `address` out of a big-endian word:
/// one byte, one half-word, or the whole word.
pub open spec fn peek_bytes(value: u32, address: u32, num_bytes: u32) -> u32 {
    if num_bytes == 1 {
        (value >> ((3 - (address & 3)) * 8) as u32) & 0xFF
    } else if num_bytes == 2 {
        (value >> ((1 - ((address & 2) >> 1u32)) * 16) as u32) & 0xFFFF
    } else {
        value
    }
}

/// Answers an rcheevos memory peek from the cache.  GameCube memory is
/// big-endian, so byte 0 of a word is its most significant byte.
pub fn peek_memory(cache: &MemoryCache, address: u32, num_bytes: u32) -> (r: u32)
    ensures
        r == peek_bytes(word_at(cache@, address), address, num_bytes),
{
    let aligned = address & 0xFFFF_FFFCu32;
    let value = match cache.get(aligned) {
        Some(v) => v,
        None => 0,
    };
    if num_bytes == 1 {
        let byte_offset = address & 3;
        assert(byte_offset <= 3) by (bit_vector)
            requires
                byte_offset == address & 3,
        ;
        (value >> ((3 - byte_offset) * 8)) & 0xFF
    } else if num_bytes == 2 {
        let half_offset = (address & 2) >> 1;
        assert(half_offset <= 1) by (bit_vector)
            requires
                half_offset == (address & 2) >> 1,
        ;
        (value >> ((1 - half_offset) * 16)) & 0xFFFF
    } else {
        value
    }
}

/// A read of any size but a single bit depends only on the word that holds
/// the address: two addresses in the same 4-byte word read the same value.
pub proof fn lemma_read_depends_on_word(m: Map<u32, u32>, a: u32, b: u32, size: MemorySize)
    requires
        a & 0xFFFF_FFFCu32 == b & 0xFFFF_FFFCu32,
        size != MemorySize::Bit0,
    ensures
        extract_sized(word_at(m, a), a, size) == extract_sized(word_at(m, b), b, size),
{
}

/// The four single-byte peeks of a word, most significant first, put back
/// together give the word; so do its two half-word peeks.
pub proof fn lemma_peeks_reassemble_word(m: Map<u32, u32>, base: u32)
    requires
        base & 3 == 0,
        base <= u32::MAX - 3,
    ensures
        ({
            let w = word_at(m, base);
            let b0 = peek_bytes(w, base, 1);
            let b1 = peek_bytes(word_at(m, (base + 1) as u32), (base + 1) as u32, 1);
            let b2 = peek_bytes(word_at(m, (base + 2) as u32), (base + 2) as u32, 1);
            let b3 = peek_bytes(word_at(m, (base + 3) as u32), (base + 3) as u32, 1);
            let h0 = peek_bytes(w, base, 2);
            let h1 = peek_bytes(word_at(m, (base + 2) as u32), (base + 2) as u32, 2);
            &&& b0 * 0x100_0000 + b1 * 0x1_0000 + b2 * 0x100 + b3 == w
            &&& h0 * 0x1_0000 + h1 == w
        }),
{
    let w = word_at(m, base);
    let a1 = (base + 1) as u32;
    let a2 = (base + 2) as u32;
    let a3 = (base + 3) as u32;
    assert(a1 & 0xFFFF_FFFCu32 == base & 0xFFFF_FFFCu32 && a2 & 0xFFFF_FFFCu32 == base
        & 0xFFFF_FFFCu32 && a3 & 0xFFFF_FFFCu32 == base & 0xFFFF_FFFCu32 && a1 & 3 == 1 && a2 & 3
        == 2 && a3 & 3 == 3 && (base & 2) >> 1u32 == 0 && (a2 & 2) >> 1u32 == 1) by (bit_vector)
        requires
            base & 3 == 0,
            base <= 0xFFFF_FFFC,
            a1 == base + 1,
            a2 == base + 2,
            a3 == base + 3,
    ;
    assert(((w >> 24u32) & 0xFF) * 0x100_0000 + ((w >> 16u32) & 0xFF) * 0x1_0000 + ((w >> 8u32)
        & 0xFF) * 0x100 + ((w >> 0u32) & 0xFF) == w) by (bit_vector);
    assert(((w >> 16u32) & 0xFFFF) * 0x1_0000 + ((w >> 0u32) & 0xFFFF) == w) by (bit_vector);
}

// ---------------------------------------------------------------------
// Datagram text: lines, trimming and hex numbers
// ---------------------------------------------------------------------

/// The text that `String::from_utf8_lossy` makes of `bytes`.
pub uninterp spec fn lossy_utf8(bytes: Seq<u8>) -> Seq<char>;

/// `String::from_utf8_lossy`: decodes UTF-8, replacing each invalid
/// sequence with U+FFFD.  The contract names the result, and states the
/// documented fact that valid UTF-8 is decoded unchanged.
#[verifier::external_body]
fn utf8_lossy(data: &[u8]) -> (s: String)
    ensures
        s@ == lossy_utf8(data@),
        valid_utf8(data@) ==> s@ == decode_utf8(data@),
{
    String::from_utf8_lossy(data).into_owned()
}

/// Unicode `White_Space`, the property `char::is_whitespace` tests.
pub open spec fn is_white_space(c: char) -> bool {
    let u = c as u32;
    (0x09 <= u <= 0x0D) || u == 0x20 || u == 0x85 || u == 0xA0 || u == 0x1680 || (0x2000 <= u
        <= 0x200A) || u == 0x2028 || u == 0x2029 || u == 0x202F || u == 0x205F || u == 0x3000
}

pub fn is_white_space_char(c: char) -> (r: bool)
    ensures
        r == is_white_space(c),
{
    let u = c as u32;
    (0x09 <= u && u <= 0x0D) || u == 0x20 || u == 0x85 || u == 0xA0 || u == 0x1680 || (0x2000
        <= u && u <= 0x200A) || u == 0x2028 || u == 0x2029 || u == 0x202F || u == 0x205F || u
        == 0x3000
}

/// Index of the first `\n` at or after `i`, or the length.
pub open spec fn next_newline(t: Seq<char>, i: int) -> int
    decreases t.len() - i,
{
    if i >= t.len() || t[i] == '\n' {
        i
    } else {
        next_newline(t, i + 1)
    }
}

pub proof fn lemma_next_newline_bounds(t: Seq<char>, i: int)
    requires
        0 <= i <= t.len(),
    ensures
        i <= next_newline(t, i) <= t.len(),
        next_newline(t, i) < t.len() ==> t[next_newline(t, i)] == '\n',
    decreases t.len() - i,
{
    if i < t.len() && t[i] != '\n' {
        lemma_next_newline_bounds(t, i + 1);
    }
}

/// The lines of `t` from index `i` on, as `str::lines` yields them: split at
/// `\n`, a `\r` right before the `\n` dropped, no line after a final `\n`.
pub open spec fn lines_from(t: Seq<char>, i: int) -> Seq<Seq<char>>
    decreases t.len() - i,
{
    if i < 0 || i >= t.len() {
        Seq::empty()
    } else {
        let e = next_newline(t, i);
        proof {
            lemma_next_newline_bounds(t, i);
        }
        if e >= t.len() {
            seq![t.subrange(i, t.len() as int)]
        } else {
            let line = t.subrange(i, e);
            let line = if line.len() > 0 && line.last() == '\r' {
                line.drop_last()
            } else {
                line
            };
            seq![line] + lines_from(t, e + 1)
        }
    }
}

pub open spec fn lines_of(t: Seq<char>) -> Seq<Seq<char>> {
    lines_from(t, 0)
}

/// Index of the first non-whitespace character at or after `i`.
pub open spec fn trim_start_from(s: Seq<char>, i: int) -> int
    decreases s.len() - i,
{
    if i >= s.len() || !is_white_space(s[i]) {
        i
    } else {
        trim_start_from(s, i + 1)
    }
}

/// One past the last non-whitespace character before `e` (at least `lo`).
pub open spec fn trim_end_from(s: Seq<char>, lo: int, e: int) -> int
    decreases e - lo,
{
    if e <= lo || !is_white_space(s[e - 1]) {
        e
    } else {
        trim_end_from(s, lo, e - 1)
    }
}

pub proof fn lemma_trim_bounds(s: Seq<char>, i: int, lo: int, e: int)
    requires
        0 <= i <= s.len(),
        0 <= lo <= e <= s.len(),
    ensures
        i <= trim_start_from(s, i) <= s.len(),
        lo <= trim_end_from(s, lo, e) <= e,
    decreases s.len() - i + e - lo,
{
    if i < s.len() && is_white_space(s[i]) {
        lemma_trim_bounds(s, i + 1, lo, e);
    } else if e > lo && is_white_space(s[e - 1]) {
        lemma_trim_bounds(s, i, lo, e - 1);
    }
}

/// `str::trim`: the characters with leading and trailing whitespace removed.
pub open spec fn trim(s: Seq<char>) -> Seq<char> {
    let a = trim_start_from(s, 0);
    s.subrange(a, trim_end_from(s, a, s.len() as int))
}

pub open spec fn is_hex_char(c: char) -> bool {
    ('0' <= c <= '9') || ('A' <= c <= 'F') || ('a' <= c <= 'f')
}

pub open spec fn hex_char_value(c: char) -> nat {
    if c <= '9' {
        (c as u32 - 48) as nat
    } else if c <= 'F' {
        (c as u32 - 55) as nat
    } else {
        (c as u32 - 87) as nat
    }
}

pub open spec fn hex_chars_value(s: Seq<char>) -> nat
    decreases s.len(),
{
    if s.len() == 0 {
        0
    } else {
        hex_chars_value(s.drop_last()) * 16 + hex_char_value(s.last())
    }
}

/// The digits of a number after an optional leading `+`.
pub open spec fn without_plus(s: Seq<char>) -> Seq<char> {
    if s.len() > 0 && s[0] == '+' {
        s.drop_first()
    } else {
        s
    }
}

pub open spec fn all_hex_chars(s: Seq<char>) -> bool {
    forall|k: int| 0 <= k < s.len() ==> is_hex_char(#[trigger] s[k])
}

/// `u32::from_str_radix(s, 16)`: an optional `+`, then at least one hex
/// digit, with a value that fits in 32 bits.
pub open spec fn parse_hex_u32(s: Seq<char>) -> Option<u32> {
    let digits = without_plus(s);
    if digits.len() > 0 && all_hex_chars(digits) && hex_chars_value(digits) <= u32::MAX {
        Some(hex_chars_value(digits) as u32)
    } else {
        None
    }
}

/// The effect of one address/value line pair on the cache contents.
pub open spec fn apply_pair(m: Map<u32, u32>, addr_line: Seq<char>, value_line: Seq<char>) -> Map<
    u32,
    u32,
> {
    match (parse_hex_u32(trim(addr_line)), parse_hex_u32(trim(value_line))) {
        (Some(a), Some(v)) => m.insert(a, v),
        _ => m,
    }
}

/// Applies the line pairs `(k, k + 1), (k + 2, k + 3), ...`; an unpaired
/// last line is ignored.
pub open spec fn apply_pairs_from(m: Map<u32, u32>, lines: Seq<Seq<char>>, k: int) -> Map<
    u32,
    u32,
>
    decreases lines.len() - k,
{
    if k < 0 || k + 1 >= lines.len() {
        m
    } else {
        apply_pairs_from(apply_pair(m, lines[k], lines[k + 1]), lines, k + 2)
    }
}

/// A line pair whose trimmed lines both read as hex `u32`s records that
/// value for that address, whatever the value; a pair in which either line
/// does not read changes nothing.
pub proof fn lemma_pair_records_value(
    m: Map<u32, u32>,
    addr_line: Seq<char>,
    value_line: Seq<char>,
    a: u32,
    v: u32,
)
    ensures
        parse_hex_u32(trim(addr_line)) == Some(a) && parse_hex_u32(trim(value_line)) == Some(v)
            ==> apply_pair(m, addr_line, value_line)[a] == v && apply_pair(
            m,
            addr_line,
            value_line,
        ).dom() == m.dom().insert(a) && forall|x: u32|
            x != a ==> #[trigger] apply_pair(m, addr_line, value_line).get(x) == m.get(x),
        parse_hex_u32(trim(addr_line)) is None || parse_hex_u32(trim(value_line)) is None
            ==> apply_pair(m, addr_line, value_line) == m,
{
}

/// The cache contents after a MemoryWatcher datagram has been applied.
pub open spec fn apply_datagram(m: Map<u32, u32>, data: Seq<u8>) -> Map<u32, u32> {
    apply_pairs_from(m, lines_of(lossy_utf8(data)), 0)
}

/// The line ranges of `t`, as `(start, end)` index pairs.
fn line_ranges(t: &Vec<char>) -> (r: Vec<(usize, usize)>)
    ensures
        r@.len() == lines_of(t@).len(),
        forall|k: int|
            0 <= k < r@.len() ==> {
                &&& (#[trigger] r@[k]).0 <= r@[k].1 <= t@.len()
                &&& t@.subrange(r@[k].0 as int, r@[k].1 as int) == lines_of(t@)[k]
            },
{
    let len = t.len();
    let mut r: Vec<(usize, usize)> = Vec::new();
    let mut i: usize = 0;
    let ghost tt = t@;
    while i < len
        invariant
            tt == t@,
            len == tt.len(),
            i <= len,
            r@.len() + lines_from(tt, i as int).len() == lines_of(tt).len(),
            forall|k: int|
                0 <= k < r@.len() ==> {
                    &&& (#[trigger] r@[k]).0 <= r@[k].1 <= tt.len()
                    &&& tt.subrange(r@[k].0 as int, r@[k].1 as int) == lines_of(tt)[k]
                },
            forall|k: int|
                0 <= k < lines_from(tt, i as int).len() ==> #[trigger] lines_from(tt, i as int)[k]
                    == lines_of(tt)[r@.len() + k],
        decreases len - i,
    {
        let mut e = i;
        while e < len && t[e] != '\n'
            invariant
                tt == t@,
                len == tt.len(),
                i <= e <= len,
                next_newline(tt, e as int) == next_newline(tt, i as int),
            decreases len - e,
        {
            e = e + 1;
        }
        proof {
            lemma_next_newline_bounds(tt, i as int);
        }
        let ghost rest = lines_from(tt, i as int);
        if e >= len {
            assert(rest == seq![tt.subrange(i as int, len as int)]);
            assert(rest[0] == lines_of(tt)[r@.len() as int]);
            r.push((i, len));
            i = len;
        } else {
            let end = if e > i && t[e - 1] == '\r' {
                e - 1
            } else {
                e
            };
            let ghost line = tt.subrange(i as int, e as int);
            assert(line.len() > 0 && line.last() == '\r' ==> tt.subrange(i as int, end as int)
                =~= line.drop_last());
            assert(!(line.len() > 0 && line.last() == '\r') ==> end == e);
            assert(rest[0] == lines_of(tt)[r@.len() as int]);
            assert(rest == seq![rest[0]] + lines_from(tt, e + 1));
            assert forall|k: int| 0 <= k < lines_from(tt, e + 1).len() implies #[trigger] lines_from(
                tt,
                e + 1,
            )[k] == lines_of(tt)[r@.len() + 1 + k] by {
                assert(lines_from(tt, e + 1)[k] == rest[k + 1]);
            }
            r.push((i, end));
            i = e + 1;
        }
    }
    r
}

fn is_hex_char_exec(c: char) -> (r: bool)
    ensures
        r == is_hex_char(c),
{
    ('0' <= c && c <= '9') || ('A' <= c && c <= 'F') || ('a' <= c && c <= 'f')
}

/// `u32::from_str_radix(s, 16)` on the characters `t[lo..hi]`.
fn parse_hex_range(t: &Vec<char>, lo: usize, hi: usize) -> (r: Option<u32>)
    requires
        lo <= hi <= t@.len(),
    ensures
        r == parse_hex_u32(t@.subrange(lo as int, hi as int)),
{
    let ghost s = t@.subrange(lo as int, hi as int);
    let start = if hi > lo && t[lo] == '+' {
        lo + 1
    } else {
        lo
    };
    let ghost digits = t@.subrange(start as int, hi as int);
    assert(s.len() > 0 && s[0] == '+' ==> s.drop_first() =~= digits);
    assert(!(s.len() > 0 && s[0] == '+') ==> s =~= digits);
    assert(digits == without_plus(s));
    if start == hi {
        return None;
    }
    let mut j = start;
    let mut value: u64 = 0;
    assert(t@.subrange(start as int, start as int) =~= Seq::<char>::empty());
    while j < hi
        invariant
            lo <= start <= j <= hi <= t@.len(),
            digits == t@.subrange(start as int, hi as int),
            s == t@.subrange(lo as int, hi as int),
            digits == without_plus(s),
            forall|k: int| 0 <= k < j - start ==> is_hex_char(#[trigger] digits[k]),
            value == hex_chars_value(t@.subrange(start as int, j as int)),
            value <= u32::MAX,
        decreases hi - j,
    {
        let c = t[j];
        if !is_hex_char_exec(c) {
            assert(digits[j - start] == c);
            assert(!is_hex_char(digits[j - start]));
            assert(!all_hex_chars(digits));
            assert(parse_hex_u32(s).is_none());
            return None;
        }
        let d: u64 = if c <= '9' {
            (c as u32 - 48) as u64
        } else if c <= 'F' {
            (c as u32 - 55) as u64
        } else {
            (c as u32 - 87) as u64
        };
        let ghost prev = t@.subrange(start as int, j as int);
        let ghost next = t@.subrange(start as int, j + 1);
        assert(next.drop_last() =~= prev);
        assert(next.last() == c);
        let nv = value * 16 + d;
        if nv > 0xFFFF_FFFF {
            proof {
                lemma_hex_value_grows(t@, start as int, j + 1, hi as int);
            }
            assert(hex_chars_value(next) == hex_chars_value(prev) * 16 + hex_char_value(c));
            assert(hex_chars_value(digits) > u32::MAX);
            assert(parse_hex_u32(s).is_none());
            return None;
        }
        value = nv;
        j = j + 1;
    }
    assert(t@.subrange(start as int, hi as int) =~= digits);
    Some(value as u32)
}

/// Appending hex digits never makes the value smaller.
proof fn lemma_hex_value_grows(t: Seq<char>, start: int, j: int, hi: int)
    requires
        0 <= start <= j <= hi <= t.len(),
    ensures
        hex_chars_value(t.subrange(start, j)) <= hex_chars_value(t.subrange(start, hi)),
    decreases hi - j,
{
    if j < hi {
        lemma_hex_value_grows(t, start, j + 1, hi);
        assert(t.subrange(start, j + 1).drop_last() =~= t.subrange(start, j));
    }
}

/// The trimmed range of `t[lo..hi]`.
fn trim_range(t: &Vec<char>, lo: usize, hi: usize) -> (r: (usize, usize))
    requires
        lo <= hi <= t@.len(),
    ensures
        r.0 <= r.1 <= t@.len(),
        t@.subrange(r.0 as int, r.1 as int) == trim(t@.subrange(lo as int, hi as int)),
{
    let ghost s = t@.subrange(lo as int, hi as int);
    let mut a = lo;
    while a < hi && is_white_space_char(t[a])
        invariant
            lo <= a <= hi <= t@.len(),
            s == t@.subrange(lo as int, hi as int),
            trim_start_from(s, a - lo) == trim_start_from(s, 0),
        decreases hi - a,
    {
        a = a + 1;
    }
    proof {
        lemma_trim_bounds(s, 0, 0, 0);
    }
    let mut b = hi;
    while b > a && is_white_space_char(t[b - 1])
        invariant
            lo <= a <= b <= hi <= t@.len(),
            s == t@.subrange(lo as int, hi as int),
            a - lo == trim_start_from(s, 0),
            trim_end_from(s, a - lo, b - lo) == trim_end_from(s, a - lo, s.len() as int),
        decreases b - a,
    {
        b = b - 1;
    }
    assert(t@.subrange(a as int, b as int) =~= s.subrange(a - lo, b - lo));
    (a, b)
}

/// Applies a MemoryWatcher datagram to the cache.
///
/// The datagram is decoded as UTF-8 (invalid sequences replaced), split
/// into lines, and read as address/value line pairs.  For each pair whose
/// trimmed lines both parse as hex `u32`s, the value is recorded for the
/// address; a later pair for the same address wins, and a pair in which
/// either line does not parse changes nothing.  A last unpaired line is
/// ignored.
pub fn parse_memorywatcher_datagram(data: &[u8], cache: &mut MemoryCache)
    ensures
        final(cache)@ == apply_datagram(old(cache)@, data@),
        valid_utf8(data@) ==> final(cache)@ == apply_pairs_from(
            old(cache)@,
            lines_of(decode_utf8(data@)),
            0,
        ),
{
    let text = utf8_lossy(data);
    let t = chars_of(text.as_str());
    let lines = line_ranges(&t);
    let ghost ls = lines_of(t@);
    let ghost m0 = cache@;
    let n = lines.len();
    let mut k: usize = 0;
    while n - k >= 2
        invariant
            n == lines@.len(),
            n == ls.len(),
            ls == lines_of(t@),
            k <= n,
            forall|q: int|
                0 <= q < n ==> {
                    &&& (#[trigger] lines@[q]).0 <= lines@[q].1 <= t@.len()
                    &&& t@.subrange(lines@[q].0 as int, lines@[q].1 as int) == ls[q]
                },
            apply_pairs_from(cache@, ls, k as int) == apply_pairs_from(m0, ls, 0),
        decreases n - k,
    {
        let (a0, a1) = lines[k];
        let (v0, v1) = lines[k + 1];
        let (ta0, ta1) = trim_range(&t, a0, a1);
        let (tv0, tv1) = trim_range(&t, v0, v1);
        let addr = parse_hex_range(&t, ta0, ta1);
        let value = parse_hex_range(&t, tv0, tv1);
        let ghost before = cache@;
        match (addr, value) {
            (Some(a), Some(v)) => {
                cache.insert(a, v);
            },
            _ => {},
        }
        assert(cache@ == apply_pair(before, ls[k as int], ls[k + 1]));
        k = k + 2;
    }
    assert(apply_pairs_from(cache@, ls, k as int) == cache@);
}

} // verus!
