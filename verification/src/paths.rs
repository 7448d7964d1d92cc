//! Where Dolphin's MemoryWatcher files live, and the text of `Locations.txt`.
use vstd::prelude::*;
use crate::text::chars_of;
use crate::memory::{
    apply_pair, apply_pairs_from, hex_char_value, hex_chars_value, is_hex_char, is_white_space, lemma_next_newline_bounds,
    lines_from, lines_of, next_newline, parse_hex_u32, trim, trim_end_from, trim_start_from,
    without_plus,
};

verus! {

/// `PathBuf::join` on Unix: an absolute component (one starting with `/`)
/// replaces the base; any other is appended, with a `/` in between unless
/// the base is empty or already ends with one.
pub open spec fn path_join(base: Seq<char>, component: Seq<char>) -> Seq<char> {
    if component.len() > 0 && component[0] == '/' {
        component
    } else if base.len() == 0 || base.last() == '/' {
        base + component
    } else {
        base + seq!['/'] + component
    }
}

/// Joins a path component onto a base path.
pub fn join_path(base: &str, component: &str) -> (p: String)
    ensures
        p@ == path_join(base@, component@),
{
    let c = chars_of(component);
    if c.len() > 0 && c[0] == '/' {
        return component.to_owned();
    }
    let b = chars_of(base);
    let mut p = base.to_owned();
    if b.len() > 0 && b[b.len() - 1] != '/' {
        p.push('/');
    }
    p.append(component);
    p
}

/// The standard Dolphin user directory under a home directory.
pub fn standard_dolphin_dir(home: &str) -> (p: String)
    ensures
        p@ == path_join(home@, ".local/share/dolphin-emu"@),
{
    proof {
        reveal_strlit(".local/share/dolphin-emu");
    }
    join_path(home, ".local/share/dolphin-emu")
}

/// Chooses the Dolphin user directory: the standard one if it exists, else
/// the portable `./User` if that exists, else the standard one (it will be
/// created when `Locations.txt` is written).
pub fn select_dolphin_user_dir(standard: String, standard_exists: bool, portable_exists: bool) -> (p:
    String)
    ensures
        p@ == (if !standard_exists && portable_exists {
            "./User"@
        } else {
            standard@
        }),
{
    if standard_exists {
        standard
    } else if portable_exists {
        "./User".to_owned()
    } else {
        standard
    }
}

/// The MemoryWatcher directory inside a Dolphin user directory.
pub fn memorywatcher_dir(user_dir: &str) -> (p: String)
    ensures
        p@ == path_join(user_dir@, "MemoryWatcher"@),
{
    proof {
        reveal_strlit("MemoryWatcher");
    }
    join_path(user_dir, "MemoryWatcher")
}

/// The `Locations.txt` file that tells MemoryWatcher which addresses to watch.
pub fn locations_file_path(user_dir: &str) -> (p: String)
    ensures
        p@ == path_join(path_join(user_dir@, "MemoryWatcher"@), "Locations.txt"@),
{
    proof {
        reveal_strlit("Locations.txt");
    }
    let dir = memorywatcher_dir(user_dir);
    join_path(dir.as_str(), "Locations.txt")
}

/// The datagram socket that MemoryWatcher writes to.
pub fn socket_file_path(user_dir: &str) -> (p: String)
    ensures
        p@ == path_join(path_join(user_dir@, "MemoryWatcher"@), "MemoryWatcher"@),
{
    proof {
        reveal_strlit("MemoryWatcher");
    }
    let dir = memorywatcher_dir(user_dir);
    join_path(dir.as_str(), "MemoryWatcher")
}

/// How many times binding the MemoryWatcher socket is tried before giving up.
pub const SOCKET_BIND_ATTEMPTS: u32 = 30;

/// The pause, in milliseconds, after failed bind attempt `attempt` (counted
/// from 0) before the next one: 500 ms, or none after the last attempt.
pub fn bind_retry_pause_ms(attempt: u32) -> (p: Option<u64>)
    ensures
        p == (if attempt < SOCKET_BIND_ATTEMPTS - 1 {
            Some(500u64)
        } else {
            None::<u64>
        }),
{
    if attempt < SOCKET_BIND_ATTEMPTS - 1 {
        Some(500)
    } else {
        None
    }
}

/// Upper-case hex digit for a value below 16.
pub open spec fn hex_upper(d: u32) -> char {
    if d < 10 {
        (48 + d) as char
    } else {
        (55 + d) as char
    }
}

/// `format!("{:08X}", a)`: exactly eight upper-case hex digits.
pub open spec fn hex8(a: u32) -> Seq<char> {
    Seq::new(8, |k: int| hex_upper((a >> ((28 - 4 * k) as u32)) & 0xF))
}

/// The text of `Locations.txt`: one eight-digit hex address per line.
pub open spec fn locations_text(words: Seq<u32>) -> Seq<char>
    decreases words.len(),
{
    if words.len() == 0 {
        Seq::empty()
    } else {
        hex8(words[0]) + seq!['\n'] + locations_text(words.drop_first())
    }
}

fn hex_upper_char(d: u32) -> (c: char)
    requires
        d < 16,
    ensures
        c == hex_upper(d),
{
    if d < 10 {
        ((48 + d) as u8) as char
    } else {
        ((55 + d) as u8) as char
    }
}

fn push_hex8(s: &mut String, a: u32)
    ensures
        final(s)@ == old(s)@ + hex8(a),
{
    let mut shift: u32 = 32;
    let ghost start = s@;
    while shift > 0
        invariant
            shift % 4 == 0,
            shift <= 32,
            s@ == start + hex8(a).take(8 - shift / 4),
        decreases shift,
    {
        shift = shift - 4;
        let d = (a >> shift) & 0xF;
        assert(d < 16) by (bit_vector)
            requires
                d == (a >> shift) & 0xF,
        ;
        let c = hex_upper_char(d);
        let ghost k = 7 - shift / 4;
        assert(hex8(a)[k] == c);
        s.push(c);
        assert(hex8(a).take(k + 1) =~= hex8(a).take(k).push(c));
    }
    assert(hex8(a).take(8) =~= hex8(a));
}

/// The contents of `Locations.txt` for the given memory words: each as
/// eight upper-case hex digits followed by a newline.
pub fn locations_file_contents(words: &[u32]) -> (s: String)
    ensures
        s@ == locations_text(words@),
{
    let mut s = String::new();
    let mut k: usize = 0;
    assert(words@.skip(0) =~= words@);
    while k < words.len()
        invariant
            k <= words@.len(),
            s@ + locations_text(words@.skip(k as int)) == locations_text(words@),
        decreases words@.len() - k,
    {
        assert(words@.skip(k as int).drop_first() =~= words@.skip(k + 1));
        let ghost before = s@;
        push_hex8(&mut s, words[k]);
        s.push('\n');
        assert(s@ == before + hex8(words@[k as int]) + seq!['\n']);
        assert(s@ + locations_text(words@.skip(k + 1)) =~= before + locations_text(
            words@.skip(k as int),
        ));
        k = k + 1;
    }
    assert(words@.skip(k as int) =~= Seq::<u32>::empty());
    assert(s@ + Seq::<char>::empty() =~= s@);
    s
}

} // verus!

verus! {

proof fn lemma_next_newline_shift(p: Seq<char>, q: Seq<char>, i: int)
    requires
        0 <= i <= q.len(),
    ensures
        next_newline(p + q, p.len() + i) == p.len() + next_newline(q, i),
    decreases q.len() - i,
{
    if i < q.len() {
        assert((p + q)[p.len() + i] == q[i]);
        if q[i] != '\n' {
            lemma_next_newline_shift(p, q, i + 1);
        }
    }
}

/// Lines of a text that starts with `p` are, from the end of `p` on, the
/// lines of the rest.
proof fn lemma_lines_from_shift(p: Seq<char>, q: Seq<char>, i: int)
    requires
        0 <= i <= q.len(),
    ensures
        lines_from(p + q, p.len() + i) == lines_from(q, i),
    decreases q.len() - i,
{
    let t = p + q;
    if i < q.len() {
        lemma_next_newline_shift(p, q, i);
        lemma_next_newline_bounds(q, i);
        let e = next_newline(q, i);
        assert(t.subrange(p.len() + i, p.len() + e) =~= q.subrange(i, e));
        assert(t.subrange(p.len() + i, t.len() as int) =~= q.subrange(i, q.len() as int));
        if e < q.len() {
            lemma_lines_from_shift(p, q, e + 1);
        }
    }
}

proof fn lemma_hex_upper_digit(d: u32)
    requires
        d < 16,
    ensures
        is_hex_char(hex_upper(d)),
        hex_char_value(hex_upper(d)) == d,
        !is_white_space(hex_upper(d)),
        hex_upper(d) != '\n',
        hex_upper(d) != '\r',
        hex_upper(d) != '+',
{
}

proof fn lemma_hex_step(a: u32, s: u32)
    requires
        s <= 28,
    ensures
        (a >> ((s + 4) as u32)) * 16 + ((a >> s) & 15) == a >> s,
{
    assert((a >> ((s + 4) as u32)) * 16 + ((a >> s) & 15) == a >> s) by (bit_vector)
        requires
            s <= 28,
    ;
}

/// The value of the first `m` digits of `hex8(a)`.
proof fn lemma_hex8_prefix_value(a: u32, m: int)
    requires
        0 <= m <= 8,
    ensures
        hex_chars_value(hex8(a).take(m)) == (if m == 0 {
            0
        } else {
            (a >> ((32 - 4 * m) as u32)) as int
        }),
    decreases m,
{
    if m > 0 {
        lemma_hex8_prefix_value(a, m - 1);
        let s = (32 - 4 * m) as u32;
        let d = (a >> s) & 0xF;
        assert(d < 16) by (bit_vector)
            requires
                d == (a >> s) & 0xF,
        ;
        lemma_hex_upper_digit(d);
        assert(hex8(a).take(m).drop_last() =~= hex8(a).take(m - 1));
        assert(hex8(a).take(m).last() == hex_upper(d));
        if m == 1 {
            assert((a >> 28u32) < 16) by (bit_vector);
            assert(d == a >> 28u32) by (bit_vector)
                requires
                    d == (a >> 28u32) & 0xF,
            ;
        } else {
            lemma_hex_step(a, s);
        }
    }
}

/// Eight hex digits read back as a `u32` give the number they were made from.
pub proof fn lemma_hex8_parses_back(a: u32)
    ensures
        trim(hex8(a)) == hex8(a),
        parse_hex_u32(hex8(a)) == Some(a),
{
    let h = hex8(a);
    assert forall|k: int| 0 <= k < 8 implies is_hex_char(#[trigger] h[k]) && !is_white_space(h[k])
        && h[k] != '+' by {
        let d = (a >> ((28 - 4 * k) as u32)) & 0xF;
        let s = (28 - 4 * k) as u32;
        assert(d < 16) by (bit_vector)
            requires
                d == (a >> s) & 0xF,
        ;
        lemma_hex_upper_digit(d);
    }
    assert(trim_start_from(h, 0) == 0);
    assert(trim_end_from(h, 0, 8) == 8);
    assert(h.subrange(0, 8) =~= h);
    assert(without_plus(h) == h);
    lemma_hex8_prefix_value(a, 8);
    assert(h.take(8) =~= h);
    assert(a >> 0u32 == a) by (bit_vector);
}

/// Writing addresses into `Locations.txt` and reading its lines back the
/// way MemoryWatcher datagram lines are read gives the same addresses, one
/// per line and in order.
pub proof fn lemma_locations_text_reads_back(words: Seq<u32>)
    ensures
        lines_of(locations_text(words)).len() == words.len(),
        forall|k: int|
            0 <= k < words.len() ==> parse_hex_u32(trim(#[trigger] lines_of(locations_text(words))[k]))
                == Some(words[k]),
    decreases words.len(),
{
    if words.len() > 0 {
        let rest = words.drop_first();
        lemma_locations_text_reads_back(rest);
        let w0 = words[0];
        let h = hex8(w0);
        let p = h + seq!['\n'];
        let t = locations_text(words);
        assert(t == p + locations_text(rest));
        lemma_hex8_parses_back(w0);
        assert forall|k: int| 0 <= k < 8 implies #[trigger] t[k] != '\n' && t[k] == h[k] by {
            let s = (28 - 4 * k) as u32;
            let d = (w0 >> s) & 0xF;
            assert(d < 16) by (bit_vector)
                requires
                    d == (w0 >> s) & 0xF,
            ;
            lemma_hex_upper_digit(d);
        }
        assert(t[8] == '\n');
        lemma_next_newline_down(t, 8);
        assert(next_newline(t, 0) == 8);
        assert(t.subrange(0, 8) =~= h);
        let h_last = h.last();
        assert(h_last != '\r') by {
            let d = w0 & 0xF;
            assert(d < 16) by (bit_vector)
                requires
                    d == w0 & 0xF,
            ;
            lemma_hex_upper_digit(d);
            assert(h[7] == hex_upper((w0 >> 0u32) & 0xF));
            assert(w0 >> 0u32 == w0) by (bit_vector);
        }
        lemma_lines_from_shift(p, locations_text(rest), 0);
        assert(lines_of(t) == seq![h] + lines_of(locations_text(rest)));
    }
}

proof fn lemma_next_newline_down(t: Seq<char>, j: int)
    requires
        0 <= j <= 8,
        t.len() > 8,
        t[8] == '\n',
        forall|k: int| 0 <= k < 8 ==> #[trigger] t[k] != '\n',
    ensures
        next_newline(t, 8 - j) == 8,
    decreases j,
{
    if j > 0 {
        lemma_next_newline_down(t, j - 1);
    }
}

/// A datagram text of two address/value pairs, each written as eight hex
/// digits per line, records both values in order: the first value at the
/// first address, then the second at the second address (so a later pair
/// for the same address wins), whatever the values.
pub proof fn lemma_datagram_records_pairs_in_order(
    m: Map<u32, u32>,
    a1: u32,
    v1: u32,
    a2: u32,
    v2: u32,
)
    ensures
        apply_pairs_from(m, lines_of(locations_text(seq![a1, v1, a2, v2])), 0) == m.insert(
            a1,
            v1,
        ).insert(a2, v2),
{
    let words = seq![a1, v1, a2, v2];
    lemma_locations_text_reads_back(words);
    let ls = lines_of(locations_text(words));
    assert(parse_hex_u32(trim(ls[0])) == Some(a1));
    assert(parse_hex_u32(trim(ls[1])) == Some(v1));
    assert(parse_hex_u32(trim(ls[2])) == Some(a2));
    assert(parse_hex_u32(trim(ls[3])) == Some(v2));
    let m1 = apply_pair(m, ls[0], ls[1]);
    assert(m1 == m.insert(a1, v1));
    assert(apply_pairs_from(m1, ls, 2) == apply_pairs_from(apply_pair(m1, ls[2], ls[3]), ls, 4));
    assert(apply_pairs_from(apply_pair(m1, ls[2], ls[3]), ls, 4) == apply_pair(m1, ls[2], ls[3]));
}

} // verus!
