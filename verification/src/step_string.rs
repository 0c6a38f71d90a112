//! Decoding of the escape sequences of STEP (ISO 10303-21) string literals
//! as they appear in IFC files: `\X2\HHHH...\X0\` (UTF-16 code units in
//! hex), `\S\c` (extended character) and the doubled quote `''`.

use vstd::prelude::*;

use crate::text::{chars_of, string_from_chars};

verus! {

/// Number of bytes in the UTF-8 encoding of a character.
pub open spec fn char_utf8_len(c: char) -> nat {
    if (c as u32) < 0x80 {
        1
    } else if (c as u32) < 0x800 {
        2
    } else if (c as u32) < 0x10000 {
        3
    } else {
        4
    }
}

/// Number of bytes in the UTF-8 encoding of a character sequence.
pub open spec fn utf8_len(h: Seq<char>) -> nat
    decreases h.len(),
{
    if h.len() == 0 {
        0
    } else {
        utf8_len(h.drop_last()) + char_utf8_len(h.last())
    }
}

/// A Unicode scalar value: at most `0x10FFFF` and not a surrogate.
pub open spec fn is_scalar_value(cp: u32) -> bool {
    cp <= 0x10FFFF && !(0xD800 <= cp && cp <= 0xDFFF)
}

/// Value of an ASCII hexadecimal digit character, if it is one.
pub open spec fn hex_digit_value(c: char) -> Option<u32> {
    if '0' <= c && c <= '9' {
        Some((c as u32 - 48) as u32)
    } else if 'a' <= c && c <= 'f' {
        Some((c as u32 - 87) as u32)
    } else if 'A' <= c && c <= 'F' {
        Some((c as u32 - 55) as u32)
    } else {
        None
    }
}

/// Every character is an ASCII hexadecimal digit.
pub open spec fn all_hex(d: Seq<char>) -> bool {
    forall|i: int| 0 <= i < d.len() ==> #[trigger] hex_digit_value(d[i]) is Some
}

/// The number a string of hexadecimal digits spells.
pub open spec fn hex_value(d: Seq<char>) -> nat
    decreases d.len(),
{
    if d.len() == 0 {
        0
    } else {
        hex_value(d.drop_last()) * 16 + (hex_digit_value(d.last())->0) as nat
    }
}

/// The character a four-byte hex chunk stands for: an optional `+`, then
/// hexadecimal digits (as `u32::from_str_radix(_, 16)` reads them), naming
/// a Unicode scalar value (as `char::from_u32` accepts it).
pub open spec fn hex_chunk_char(chunk: Seq<char>) -> Option<char> {
    let d = if chunk.len() > 0 && chunk[0] == '+' { chunk.drop_first() } else { chunk };
    if d.len() > 0 && d.len() <= 4 && all_hex(d) && is_scalar_value(hex_value(d) as u32) {
        Some(hex_value(d) as u32 as char)
    } else {
        None
    }
}

/// Char index at or after `ci` whose byte offset is `target`, walking from
/// `ci` at byte offset `bi`; `None` when `target` falls inside a character
/// (or past the end).
pub open spec fn chunk_end(h: Seq<char>, ci: int, bi: int, target: int) -> Option<int>
    decreases h.len() - ci,
{
    if bi == target {
        Some(ci)
    } else if bi > target || ci < 0 || ci >= h.len() {
        None
    } else {
        chunk_end(h, ci + 1, bi + char_utf8_len(h[ci]), target)
    }
}

/// What [`chunk_end`] finds lies between `ci` and the end of `h`.
pub proof fn lemma_chunk_end_range(h: Seq<char>, ci: int, bi: int, target: int)
    requires
        0 <= ci <= h.len(),
    ensures
        chunk_end(h, ci, bi, target) matches Some(cj) ==> ci <= cj <= h.len(),
    decreases h.len() - ci,
{
    if bi != target && !(bi > target || ci >= h.len()) {
        lemma_chunk_end_range(h, ci + 1, bi + char_utf8_len(h[ci]), target);
    }
}

/// Decoding of the hex payload from char index `ci` (byte offset `bi`):
/// four bytes at a time while four remain; a chunk that does not end on a
/// character boundary makes the byte slicing panic (`None`); chunks that do
/// not name a character are skipped.
pub open spec fn hex_walk(h: Seq<char>, ci: int, bi: int) -> Option<Seq<char>>
    decreases h.len() - ci,
{
    if ci < 0 || bi + 3 >= utf8_len(h) {
        Some(Seq::empty())
    } else {
        match chunk_end(h, ci, bi, bi + 4) {
            None => None,
            Some(cj) => if cj <= ci {
                None
            } else {
                proof {
                    lemma_chunk_end_range(h, ci, bi, bi + 4);
                }
                match hex_walk(h, cj, bi + 4) {
                    None => None,
                    Some(rest) => match hex_chunk_char(h.subrange(ci, cj)) {
                        Some(ch) => Some(seq![ch] + rest),
                        None => Some(rest),
                    },
                }
            },
        }
    }
}

/// The hex payload of a `\X2\` sequence starting at `q` and the position
/// after its `\X0\` terminator (or the end of the text).
pub open spec fn read_hex(s: Seq<char>, q: int) -> (Seq<char>, int)
    decreases s.len() - q,
{
    if q < 0 || q >= s.len() {
        (Seq::empty(), s.len() as int)
    } else if s[q] == '\\' && q + 1 < s.len() && s[q + 1] == 'X' {
        (Seq::empty(), if q + 4 < s.len() { q + 4 } else { s.len() as int })
    } else {
        let (h, k) = read_hex(s, q + 1);
        (seq![s[q]] + h, k)
    }
}

/// The payload read by [`read_hex`] ends after `q` and within the text.
pub proof fn lemma_read_hex_range(s: Seq<char>, q: int)
    requires
        0 <= q,
    ensures
        q <= read_hex(s, q).1 <= s.len() || (q > s.len() && read_hex(s, q).1 == s.len()),
        read_hex(s, q).1 <= s.len(),
    decreases s.len() - q,
{
    if q < s.len() && !(s[q] == '\\' && q + 1 < s.len() && s[q + 1] == 'X') {
        lemma_read_hex_range(s, q + 1);
    }
}

/// Prefix a partial result; `None` (a panicking input) stays `None`.
pub open spec fn cat_opt(a: Seq<char>, b: Option<Seq<char>>) -> Option<Seq<char>> {
    match b {
        Some(x) => Some(a + x),
        None => None,
    }
}

/// The smaller of `a` and `b`.
pub open spec fn min_int(a: int, b: int) -> int {
    if a < b { a } else { b }
}

/// The ISO 8859-1 extended character a `\S\c` escape names: an ASCII `c`
/// shifted up by `0x80`; a character beyond ASCII is kept as it is.
pub open spec fn extended_char(c: char) -> char {
    if (c as u32) < 0x80 {
        ((c as u32) + 0x80) as char
    } else {
        c
    }
}

/// Decoding from position `i`; `None` when slicing the bytes of a
/// hex payload would panic.
pub open spec fn decode_from(s: Seq<char>, i: int) -> Option<Seq<char>>
    decreases s.len() - i,
{
    if i < 0 || i >= s.len() {
        Some(Seq::empty())
    } else if s[i] == '\\' {
        if i + 1 < s.len() && s[i + 1] == 'X' {
            if i + 2 < s.len() && s[i + 2] == '2' {
                if i + 3 < s.len() && s[i + 3] == '\\' {
                    let (h, k) = read_hex(s, i + 4);
                    if k <= i {
                        None
                    } else {
                        proof {
                            lemma_read_hex_range(s, i + 4);
                        }
                        match hex_walk(h, 0, 0) {
                            None => None,
                            Some(out) => cat_opt(out, decode_from(s, k)),
                        }
                    }
                } else {
                    decode_from(s, min_int(i + 4, s.len() as int))
                }
            } else if i + 2 < s.len() {
                cat_opt(seq!['\\', 'X', s[i + 2]], decode_from(s, i + 3))
            } else {
                Some(seq!['\\', 'X', ' '])
            }
        } else if i + 1 < s.len() && s[i + 1] == 'S' {
            if i + 3 < s.len() {
                cat_opt(seq![extended_char(s[i + 3])], decode_from(s, i + 4))
            } else {
                Some(Seq::empty())
            }
        } else {
            cat_opt(seq!['\\'], decode_from(s, i + 1))
        }
    } else if s[i] == '\'' && i + 1 < s.len() && s[i + 1] == '\'' {
        cat_opt(seq!['\''], decode_from(s, i + 2))
    } else {
        cat_opt(seq![s[i]], decode_from(s, i + 1))
    }
}

/// The decoded text, or `None` for inputs on which decoding panics (a hex
/// payload whose UTF-8 bytes cannot be cut into four-byte chunks on
/// character boundaries).
pub open spec fn decode_ifc(s: Seq<char>) -> Option<Seq<char>> {
    decode_from(s, 0)
}


/// Calls `char::from_u32`, which returns the character with that code
/// point exactly when it is a Unicode scalar value.
#[verifier::external_body]
fn char_from_u32(cp: u32) -> (r: Option<char>)
    ensures
        r == (if is_scalar_value(cp) { Some(cp as char) } else { None }),
{
    char::from_u32(cp)
}

/// Executable [`extended_char`].
fn extended_char_exec(c: char) -> (r: char)
    ensures
        r == extended_char(c),
{
    let v = c as u32;
    if v < 0x80 {
        match char_from_u32(v + 0x80) {
            Some(x) => x,
            None => c,
        }
    } else {
        c
    }
}

/// Executable [`char_utf8_len`].
fn char_utf8_len_exec(c: char) -> (r: usize)
    ensures
        r == char_utf8_len(c),
{
    let v = c as u32;
    if v < 0x80 {
        1
    } else if v < 0x800 {
        2
    } else if v < 0x10000 {
        3
    } else {
        4
    }
}

/// Every character takes one to four bytes.
proof fn lemma_utf8_len_bounds(h: Seq<char>)
    ensures
        h.len() <= utf8_len(h) <= 4 * h.len(),
    decreases h.len(),
{
    if h.len() > 0 {
        lemma_utf8_len_bounds(h.drop_last());
    }
}

/// Executable [`utf8_len`], for texts whose byte length fits in `usize`.
fn utf8_len_exec(h: &Vec<char>) -> (r: usize)
    requires
        4 * h@.len() <= usize::MAX,
    ensures
        r == utf8_len(h@),
{
    let mut acc: usize = 0;
    let mut i: usize = 0;
    while i < h.len()
        invariant
            4 * h@.len() <= usize::MAX,
            i <= h@.len(),
            acc == utf8_len(h@.take(i as int)),
            acc <= 4 * i,
        decreases h@.len() - i,
    {
        assert(h@.take(i + 1).drop_last() =~= h@.take(i as int));
        acc = acc + char_utf8_len_exec(h[i]);
        i = i + 1;
    }
    assert(h@.take(i as int) =~= h@);
    acc
}

/// Value of an ASCII hexadecimal digit, if the character is one.
fn hex_digit_value_exec(c: char) -> (r: Option<u32>)
    ensures
        r == hex_digit_value(c),
{
    if '0' <= c && c <= '9' {
        Some(c as u32 - 48)
    } else if 'a' <= c && c <= 'f' {
        Some(c as u32 - 87)
    } else if 'A' <= c && c <= 'F' {
        Some(c as u32 - 55)
    } else {
        None
    }
}

/// Hex values of at most four digits stay below `0x10000`.
proof fn lemma_hex_value_bound(d: Seq<char>)
    requires
        all_hex(d),
    ensures
        hex_value(d) < pow16(d.len()),
    decreases d.len(),
{
    if d.len() > 0 {
        let p = d.drop_last();
        assert(all_hex(p)) by {
            assert forall|i: int| 0 <= i < p.len() implies #[trigger] hex_digit_value(p[i]) is Some by {
                assert(p[i] == d[i]);
            }
        }
        lemma_hex_value_bound(p);
        assert(hex_digit_value(d[d.len() - 1]) is Some);
    }
}

/// `16` to the power `n`.
pub open spec fn pow16(n: nat) -> nat
    decreases n,
{
    if n == 0 { 1 } else { 16 * pow16((n - 1) as nat) }
}

/// Executable [`hex_chunk_char`] on the characters `h[ci..cj]`.
fn hex_chunk_char_exec(h: &Vec<char>, ci: usize, cj: usize) -> (r: Option<char>)
    requires
        ci <= cj <= h@.len(),
    ensures
        r == hex_chunk_char(h@.subrange(ci as int, cj as int)),
{
    let ghost chunk = h@.subrange(ci as int, cj as int);
    let mut a = ci;
    if a < cj && h[a] == '+' {
        a = a + 1;
    }
    let ghost d = if chunk.len() > 0 && chunk[0] == '+' { chunk.drop_first() } else { chunk };
    assert(d =~= h@.subrange(a as int, cj as int));
    if a == cj || cj - a > 4 {
        return None;
    }
    let mut v: u32 = 0;
    let mut k = a;
    while k < cj
        invariant
            ci <= a <= k <= cj <= h@.len(),
            cj - a <= 4,
            d == h@.subrange(a as int, cj as int),
            chunk == h@.subrange(ci as int, cj as int),
            d == (if chunk.len() > 0 && chunk[0] == '+' { chunk.drop_first() } else { chunk }),
            all_hex(d.take(k - a)),
            v == hex_value(d.take(k - a)),
            v < pow16((k - a) as nat),
        decreases cj - k,
    {
        match hex_digit_value_exec(h[k]) {
            None => {
                assert(hex_digit_value(d[k - a]) is None);
                return None;
            },
            Some(dv) => {
                assert(d.take(k - a + 1).drop_last() =~= d.take(k - a));
                assert(pow16((k - a + 1) as nat) == 16 * pow16((k - a) as nat));
                assert(pow16((k - a) as nat) <= 0x1000) by {
                    assert(pow16(0) == 1);
                    assert(pow16(1) == 16);
                    assert(pow16(2) == 256);
                    assert(pow16(3) == 4096);
                }
                v = v * 16 + dv;
                k = k + 1;
                assert(all_hex(d.take(k - a))) by {
                    assert forall|i: int| 0 <= i < d.take(k - a).len() implies #[trigger] hex_digit_value(d.take(k - a)[i]) is Some by {
                        if i < k - a - 1 {
                            assert(d.take(k - a)[i] == d.take(k - a - 1)[i]);
                        }
                    }
                }
            },
        }
    }
    assert(d.take(k - a) =~= d);
    char_from_u32(v)
}

/// Executable [`chunk_end`].
fn chunk_end_exec(h: &Vec<char>, ci: usize, bi: usize, target: usize) -> (r: Option<usize>)
    requires
        ci <= h@.len(),
        bi <= target,
    ensures
        match r {
            Some(cj) => chunk_end(h@, ci as int, bi as int, target as int) == Some(cj as int),
            None => chunk_end(h@, ci as int, bi as int, target as int) is None,
        },
{
    let mut c = ci;
    let mut b = bi;
    while b < target && c < h.len()
        invariant
            ci <= c <= h@.len(),
            b <= target,
            chunk_end(h@, ci as int, bi as int, target as int) == chunk_end(h@, c as int, b as int, target as int),
        decreases h@.len() - c,
    {
        let l = char_utf8_len_exec(h[c]);
        if l > target - b {
            assert(chunk_end(h@, c as int + 1, b + l, target as int) is None);
            return None;
        }
        b = b + l;
        c = c + 1;
    }
    if b == target {
        Some(c)
    } else {
        None
    }
}

/// Executable [`hex_walk`] from the start of the payload, appending the
/// decoded characters to `out`; `false` where a payload byte cannot be
/// sliced as a two-digit group.
fn hex_walk_exec(h: &Vec<char>, out: &mut Vec<char>) -> (ok: bool)
    requires
        4 * h@.len() <= usize::MAX,
    ensures
        ok ==> (hex_walk(h@, 0, 0) matches Some(v) && final(out)@ == old(out)@ + v),
        !ok ==> hex_walk(h@, 0, 0) is None,
{
    let total = utf8_len_exec(h);
    let ghost start = out@;
    let ghost mut acc: Seq<char> = Seq::empty();
    let mut ci: usize = 0;
    let mut bi: usize = 0;
    proof {
        lemma_utf8_len_bounds(h@);
        if let Some(x) = hex_walk(h@, 0, 0) {
            assert(acc + x =~= x);
        }
    }
    while bi < total && total - bi > 3
        invariant
            start == old(out)@,
            out@ == start + acc,
            total == utf8_len(h@),
            ci <= h@.len(),
            bi <= total,
            hex_walk(h@, 0, 0) == cat_opt(acc, hex_walk(h@, ci as int, bi as int)),
        decreases h@.len() - ci,
    {
        let cj = match chunk_end_exec(h, ci, bi, bi + 4) {
            Some(cj) => cj,
            None => {
                return false;
            },
        };
        proof {
            lemma_chunk_end_range(h@, ci as int, bi as int, bi + 4);
        }
        if cj <= ci {
            return false;
        }
        let ch = hex_chunk_char_exec(h, ci, cj);
        match ch {
            Some(c) => {
                out.push(c);
                proof {
                    if let Some(rest) = hex_walk(h@, cj as int, bi + 4) {
                        assert(acc + (seq![c] + rest) =~= (acc + seq![c]) + rest);
                    }
                    acc = acc + seq![c];
                }
            },
            None => {},
        }
        ci = cj;
        bi = bi + 4;
    }
    assert(hex_walk(h@, ci as int, bi as int) == Some(Seq::<char>::empty()));
    assert(acc + Seq::<char>::empty() =~= acc);
    true
}

/// Executable [`read_hex`].
fn read_hex_exec(cs: &Vec<char>, q: usize) -> (r: (Vec<char>, usize))
    requires
        q <= cs@.len(),
    ensures
        r.0@ == read_hex(cs@, q as int).0,
        r.1 as int == read_hex(cs@, q as int).1,
{
    let mut hex: Vec<char> = Vec::new();
    let mut p = q;
    let n = cs.len();
    proof {
        assert(hex@ + read_hex(cs@, p as int).0 =~= read_hex(cs@, p as int).0);
    }
    while p < n
        invariant
            n == cs@.len(),
            q <= p <= n,
            read_hex(cs@, q as int).0 == hex@ + read_hex(cs@, p as int).0,
            read_hex(cs@, q as int).1 == read_hex(cs@, p as int).1,
        decreases n - p,
    {
        if cs[p] == '\\' && p + 1 < n && cs[p + 1] == 'X' {
            let k = if n - p > 4 { p + 4 } else { n };
            assert(hex@ + Seq::<char>::empty() =~= hex@);
            return (hex, k);
        }
        let ghost old_hex = hex@;
        hex.push(cs[p]);
        assert(old_hex + (seq![cs@[p as int]] + read_hex(cs@, p + 1).0) =~= hex@ + read_hex(cs@, p + 1).0);
        p = p + 1;
    }
    assert(hex@ + Seq::<char>::empty() =~= hex@);
    (hex, n)
}

/// Decode IFC STEP encoded string sequences: `\X2\HHHH...\X0\` becomes the
/// characters named by each four hex digits, `\S\c` becomes the ISO 8859-1
/// extended character `c + 0x80` (for ASCII `c`), and a
/// doubled quote `''` becomes one quote; anything else is copied.
pub fn decode_ifc_string(s: &str) -> (r: String)
    requires
        4 * s@.len() <= usize::MAX,
        decode_ifc(s@) is Some,
    ensures
        decode_ifc(s@) == Some(r@),
{
    let cs = chars_of(s);
    let n = cs.len();
    let mut out: Vec<char> = Vec::new();
    let mut i: usize = 0;
    proof {
        if let Some(x) = decode_from(cs@, 0) {
            assert(out@ + x =~= x);
        }
    }
    while i < n
        invariant
            n == cs@.len(),
            cs@ == s@,
            4 * n <= usize::MAX,
            i <= n,
            decode_from(cs@, 0) == cat_opt(out@, decode_from(cs@, i as int)),
            decode_from(cs@, 0) is Some,
        decreases n - i,
    {
        let ghost before = out@;
        let c = cs[i];
        if c == '\\' {
            if i + 1 < n && cs[i + 1] == 'X' {
                if i + 2 < n && cs[i + 2] == '2' {
                    if i + 3 < n && cs[i + 3] == '\\' {
                        let (hex, k) = read_hex_exec(&cs, i + 4);
                        proof {
                            lemma_read_hex_range(cs@, i + 4);
                        }
                        assert(4 * hex@.len() <= usize::MAX) by {
                            assert(hex@.len() <= n) by {
                                lemma_read_hex_payload_len(cs@, i + 4);
                            }
                        }
                        if !hex_walk_exec(&hex, &mut out) {
                            assert(false);
                            return string_from_chars(&out);
                        }
                        proof {
                            let w = hex_walk(hex@, 0, 0)->0;
                            if let Some(rest) = decode_from(cs@, k as int) {
                                assert(before + (w + rest) =~= (before + w) + rest);
                            }
                        }
                        i = k;
                    } else {
                        i = if i + 4 < n { i + 4 } else { n };
                    }
                } else if i + 2 < n {
                    out.push('\\');
                    out.push('X');
                    out.push(cs[i + 2]);
                    proof {
                        if let Some(rest) = decode_from(cs@, i + 3) {
                            assert(before + (seq!['\\', 'X', cs@[i + 2]] + rest) =~= out@ + rest);
                        }
                    }
                    i = i + 3;
                } else {
                    out.push('\\');
                    out.push('X');
                    out.push(' ');
                    proof {
                        assert(decode_from(cs@, (n as int)) == Some(Seq::<char>::empty()));
                        assert(before + seq!['\\', 'X', ' '] =~= out@ + Seq::<char>::empty());
                    }
                    i = n;
                }
            } else if i + 1 < n && cs[i + 1] == 'S' {
                if i + 3 < n {
                    out.push(extended_char_exec(cs[i + 3]));
                    proof {
                        if let Some(rest) = decode_from(cs@, i + 4) {
                            assert(before + (seq![extended_char(cs@[i + 3])] + rest) =~= out@ + rest);
                        }
                    }
                    i = i + 4;
                } else {
                    proof {
                        assert(decode_from(cs@, (n as int)) == Some(Seq::<char>::empty()));
                    }
                    i = n;
                }
            } else {
                out.push('\\');
                proof {
                    if let Some(rest) = decode_from(cs@, i + 1) {
                        assert(before + (seq!['\\'] + rest) =~= out@ + rest);
                    }
                }
                i = i + 1;
            }
        } else if c == '\'' && i + 1 < n && cs[i + 1] == '\'' {
            out.push('\'');
            proof {
                if let Some(rest) = decode_from(cs@, i + 2) {
                    assert(before + (seq!['\''] + rest) =~= out@ + rest);
                }
            }
            i = i + 2;
        } else {
            out.push(c);
            proof {
                if let Some(rest) = decode_from(cs@, i + 1) {
                    assert(before + (seq![c] + rest) =~= out@ + rest);
                }
            }
            i = i + 1;
        }
    }
    assert(decode_from(cs@, i as int) == Some(Seq::<char>::empty()));
    assert(out@ + Seq::<char>::empty() =~= out@);
    string_from_chars(&out)
}

/// The payload read by [`read_hex`] is no longer than the text.
proof fn lemma_read_hex_payload_len(s: Seq<char>, q: int)
    requires
        0 <= q,
    ensures
        read_hex(s, q).0.len() <= s.len(),
        q <= s.len() ==> read_hex(s, q).0.len() <= s.len() - q,
    decreases s.len() - q,
{
    if q < s.len() && !(s[q] == '\\' && q + 1 < s.len() && s[q + 1] == 'X') {
        lemma_read_hex_payload_len(s, q + 1);
    }
}


/// Text with no backslash and no doubled quote has nothing to decode.
pub open spec fn is_plain_step_text(s: Seq<char>) -> bool {
    &&& forall|i: int| 0 <= i < s.len() ==> #[trigger] s[i] != '\\'
    &&& forall|i: int| 0 <= i < s.len() - 1 ==> !(#[trigger] s[i] == '\'' && s[i + 1] == '\'')
}

/// Plain text decodes to itself.
pub proof fn law_plain_text_unchanged(s: Seq<char>)
    requires
        is_plain_step_text(s),
    ensures
        decode_ifc(s) == Some(s),
{
    lemma_plain_suffix(s, 0);
    assert(s.subrange(0, s.len() as int) =~= s);
}

proof fn lemma_plain_suffix(s: Seq<char>, i: int)
    requires
        is_plain_step_text(s),
        0 <= i <= s.len(),
    ensures
        decode_from(s, i) == Some(s.subrange(i, s.len() as int)),
    decreases s.len() - i,
{
    if i < s.len() {
        lemma_plain_suffix(s, i + 1);
        assert(s[i] != '\\');
        if i + 1 < s.len() {
            assert(!(s[i] == '\'' && s[i + 1] == '\''));
        }
        assert(seq![s[i]] + s.subrange(i + 1, s.len() as int) =~= s.subrange(i, s.len() as int));
    } else {
        assert(s.subrange(i, s.len() as int) =~= Seq::<char>::empty());
    }
}

/// A doubled quote decodes to a single quote, whatever follows.
pub proof fn law_doubled_quote(s: Seq<char>, i: int)
    requires
        0 <= i,
        i + 1 < s.len(),
        s[i] == '\'',
        s[i + 1] == '\'',
    ensures
        decode_from(s, i) == cat_opt(seq!['\''], decode_from(s, i + 2)),
{
}

} // verus!
