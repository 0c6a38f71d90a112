//! Scanning the data section of a STEP file line by line for entity
//! headers `#<id>=<TYPE>(...)`: the first pass of the web viewer's loader,
//! which looks only at each line's id and type name.

use vstd::prelude::*;

use crate::text::{chars_of, string_from_chars};

verus! {

/// Unicode `White_Space` (what `char::is_whitespace` accepts).
pub open spec fn is_white(c: char) -> bool {
    ||| '\t' <= c && c <= '\r'
    ||| c == ' '
    ||| c == '\u{85}'
    ||| c == '\u{A0}'
    ||| c == '\u{1680}'
    ||| '\u{2000}' <= c && c <= '\u{200A}'
    ||| c == '\u{2028}'
    ||| c == '\u{2029}'
    ||| c == '\u{202F}'
    ||| c == '\u{205F}'
    ||| c == '\u{3000}'
}

/// Leading whitespace removed.
pub open spec fn trim_start_chars(s: Seq<char>) -> Seq<char>
    decreases s.len(),
{
    if s.len() > 0 && is_white(s[0]) {
        trim_start_chars(s.drop_first())
    } else {
        s
    }
}

/// Trailing whitespace removed.
pub open spec fn trim_end_chars(s: Seq<char>) -> Seq<char>
    decreases s.len(),
{
    if s.len() > 0 && is_white(s.last()) {
        trim_end_chars(s.drop_last())
    } else {
        s
    }
}

/// Whitespace removed from both ends, as `str::trim` does.
pub open spec fn trim_chars(s: Seq<char>) -> Seq<char> {
    trim_end_chars(trim_start_chars(s))
}

/// Position of the first `c` in `s`.
pub open spec fn first_index(s: Seq<char>, c: char) -> Option<int>
    decreases s.len(),
{
    if s.len() == 0 {
        None
    } else if s[0] == c {
        Some(0)
    } else {
        match first_index(s.drop_first(), c) {
            Some(k) => Some(k + 1),
            None => None,
        }
    }
}

/// A decimal digit character.
pub open spec fn is_digit_char(c: char) -> bool {
    '0' <= c && c <= '9'
}

/// The number a string of decimal digit characters spells.
pub open spec fn digits_value(d: Seq<char>) -> nat
    decreases d.len(),
{
    if d.len() == 0 {
        0
    } else {
        digits_value(d.drop_last()) * 10 + (d.last() as u32 - 48) as nat
    }
}

/// The text after an optional leading `+`.
pub open spec fn unsigned_part(t: Seq<char>) -> Seq<char> {
    if t.len() > 0 && t[0] == '+' {
        t.drop_first()
    } else {
        t
    }
}

/// Every character is a decimal digit.
pub open spec fn all_digit_chars(d: Seq<char>) -> bool {
    forall|i: int| 0 <= i < d.len() ==> is_digit_char(#[trigger] d[i])
}

/// `u32` parsing as `str::parse::<u32>` does it: an optional `+`, then one
/// or more decimal digits spelling a value that fits in 32 bits.
pub open spec fn parse_u32_chars(t: Seq<char>) -> Option<u32> {
    let d = unsigned_part(t);
    if d.len() > 0 && all_digit_chars(d) && digits_value(d) <= u32::MAX {
        Some(digits_value(d) as u32)
    } else {
        None
    }
}

/// The type name after an entity line's `=`: the text up to the first `(`
/// (or the end), trimmed.
pub open spec fn name_part(rest: Seq<char>) -> Seq<char> {
    let p = match first_index(rest, '(') {
        Some(p) => p,
        None => rest.len() as int,
    };
    trim_chars(rest.subrange(0, p))
}

/// The id and type name of an entity line: after trimming, the line starts
/// with `#`; the text up to the first `=` parses as a `u32` id; the type
/// name is what follows the `=` up to the first `(` (or the end), trimmed.
pub open spec fn entity_header(line: Seq<char>) -> Option<(u32, Seq<char>)> {
    let t = trim_chars(line);
    if t.len() == 0 || t[0] != '#' {
        None
    } else {
        match first_index(t, '=') {
            None => None,
            Some(e) => match parse_u32_chars(t.subrange(1, e)) {
                None => None,
                Some(id) => Some((id, name_part(t.subrange(e + 1, t.len() as int)))),
            },
        }
    }
}

/// What [`first_index`] finds is an occurrence, and the first.
pub proof fn lemma_first_index(s: Seq<char>, c: char)
    ensures
        match first_index(s, c) {
            Some(k) => 0 <= k < s.len() && s[k] == c && forall|j: int| 0 <= j < k ==> s[j] != c,
            None => forall|j: int| 0 <= j < s.len() ==> s[j] != c,
        },
    decreases s.len(),
{
    if s.len() > 0 && s[0] != c {
        lemma_first_index(s.drop_first(), c);
        assert forall|j: int| 0 < j < s.len() implies s[j] == s.drop_first()[j - 1] by {}
    }
}

/// Executable [`is_white`].
fn is_white_exec(c: char) -> (r: bool)
    ensures
        r == is_white(c),
{
    ('\t' <= c && c <= '\r') || c == ' ' || c == '\u{85}' || c == '\u{A0}' || c == '\u{1680}'
        || ('\u{2000}' <= c && c <= '\u{200A}') || c == '\u{2028}' || c == '\u{2029}'
        || c == '\u{202F}' || c == '\u{205F}' || c == '\u{3000}'
}

/// Bounds `[i, j)` of the trimmed part of `s[lo..hi]`.
fn trim_bounds(s: &Vec<char>, lo: usize, hi: usize) -> (r: (usize, usize))
    requires
        lo <= hi <= s@.len(),
    ensures
        lo <= r.0 <= r.1 <= hi,
        s@.subrange(r.0 as int, r.1 as int) == trim_chars(s@.subrange(lo as int, hi as int)),
{
    let mut i = lo;
    assert(s@.subrange(lo as int, hi as int) == s@.subrange(i as int, hi as int));
    while i < hi && is_white_exec(s[i])
        invariant
            lo <= i <= hi <= s@.len(),
            trim_start_chars(s@.subrange(lo as int, hi as int)) == trim_start_chars(s@.subrange(i as int, hi as int)),
        decreases hi - i,
    {
        assert(s@.subrange(i as int, hi as int).drop_first() =~= s@.subrange(i + 1, hi as int));
        i = i + 1;
    }
    let mut j = hi;
    assert(trim_start_chars(s@.subrange(i as int, hi as int)) == s@.subrange(i as int, hi as int));
    while j > i && is_white_exec(s[j - 1])
        invariant
            lo <= i <= j <= hi <= s@.len(),
            trim_chars(s@.subrange(lo as int, hi as int)) == trim_end_chars(s@.subrange(i as int, j as int)),
        decreases j - i,
    {
        assert(s@.subrange(i as int, j as int).drop_last() =~= s@.subrange(i as int, j - 1));
        j = j - 1;
    }
    (i, j)
}

/// First position of `c` in `s[lo..hi]`, relative to `lo`.
fn find_char_in(s: &Vec<char>, lo: usize, hi: usize, c: char) -> (r: Option<usize>)
    requires
        lo <= hi <= s@.len(),
    ensures
        r == match first_index(s@.subrange(lo as int, hi as int), c) {
            Some(k) => Some(k as usize),
            None => None::<usize>,
        },
{
    let ghost w = s@.subrange(lo as int, hi as int);
    let mut k = lo;
    while k < hi
        invariant
            lo <= k <= hi <= s@.len(),
            w == s@.subrange(lo as int, hi as int),
            forall|j: int| lo <= j < k ==> s@[j] != c,
        decreases hi - k,
    {
        if s[k] == c {
            proof {
                lemma_first_index(w, c);
                assert(w[k - lo] == c);
                match first_index(w, c) {
                    Some(f) => {
                        assert(w[f] == s@[lo + f]);
                        if f > k - lo {
                            assert(w[k - lo] != c);
                        }
                    },
                    None => {
                        assert(w[k - lo] != c);
                    },
                }
            }
            return Some(k - lo);
        }
        k = k + 1;
    }
    proof {
        lemma_first_index(w, c);
        match first_index(w, c) {
            Some(f) => {
                assert(w[f] == s@[lo + f]);
            },
            None => {},
        }
    }
    None
}

/// Executable [`parse_u32_chars`] on `s[lo..hi]`.
fn parse_u32_in(s: &Vec<char>, lo: usize, hi: usize) -> (r: Option<u32>)
    requires
        lo <= hi <= s@.len(),
    ensures
        r == parse_u32_chars(s@.subrange(lo as int, hi as int)),
{
    let ghost t = s@.subrange(lo as int, hi as int);
    let start = if lo < hi && s[lo] == '+' { lo + 1 } else { lo };
    let ghost d = s@.subrange(start as int, hi as int);
    assert(d == unsigned_part(t));
    if start >= hi {
        return None;
    }
    let mut v: u64 = 0;
    let mut k = start;
    while k < hi
        invariant
            lo <= start <= k <= hi <= s@.len(),
            t == s@.subrange(lo as int, hi as int),
            d == unsigned_part(t),
            d == s@.subrange(start as int, hi as int),
            forall|i: int| start <= i < k ==> is_digit_char(#[trigger] s@[i]),
            v == digits_value(s@.subrange(start as int, k as int)),
            v <= u32::MAX,
        decreases hi - k,
    {
        let c = s[k];
        if !('0' <= c && c <= '9') {
            proof {
                assert(!is_digit_char(d[k - start]));
                assert(!all_digit_chars(d));
                assert(parse_u32_chars(t) is None);
            }
            return None;
        }
        assert(s@.subrange(start as int, k + 1).drop_last() =~= s@.subrange(start as int, k as int));
        let nv: u64 = v * 10 + (c as u64 - 48);
        assert(nv == digits_value(s@.subrange(start as int, k + 1)));
        if nv > 0xFFFF_FFFF {
            proof {
                if all_digit_chars(d) {
                    lemma_digits_value_prefix(d, k + 1 - start);
                    assert(d.subrange(0, k + 1 - start) =~= s@.subrange(start as int, k + 1));
                }
                assert(parse_u32_chars(t) is None);
            }
            return None;
        }
        v = nv;
        k = k + 1;
    }
    assert(s@.subrange(start as int, k as int) =~= d);
    Some(v as u32)
}

/// A longer run of digits never spells a smaller number.
proof fn lemma_digits_value_prefix(d: Seq<char>, n: int)
    requires
        0 <= n <= d.len(),
        forall|i: int| 0 <= i < d.len() ==> is_digit_char(#[trigger] d[i]),
    ensures
        digits_value(d.subrange(0, n)) <= digits_value(d),
    decreases d.len() - n,
{
    if n < d.len() {
        lemma_digits_value_prefix(d, n + 1);
        assert(d.subrange(0, n + 1).drop_last() =~= d.subrange(0, n));
    } else {
        assert(d.subrange(0, n) =~= d);
    }
}

/// The characters `s[lo..hi]`.
fn copy_range(s: &Vec<char>, lo: usize, hi: usize) -> (r: Vec<char>)
    requires
        lo <= hi <= s@.len(),
    ensures
        r@ == s@.subrange(lo as int, hi as int),
{
    let mut out: Vec<char> = Vec::new();
    let mut k = lo;
    while k < hi
        invariant
            lo <= k <= hi <= s@.len(),
            out@ == s@.subrange(lo as int, k as int),
        decreases hi - k,
    {
        out.push(s[k]);
        k = k + 1;
        assert(out@ =~= s@.subrange(lo as int, k as int));
    }
    out
}

/// Executable [`name_part`] on `s[lo..hi]`.
fn name_part_in(s: &Vec<char>, lo: usize, hi: usize) -> (r: Vec<char>)
    requires
        lo <= hi <= s@.len(),
    ensures
        r@ == name_part(s@.subrange(lo as int, hi as int)),
{
    let ghost rest = s@.subrange(lo as int, hi as int);
    let p = match find_char_in(s, lo, hi, '(') {
        Some(p) => p,
        None => hi - lo,
    };
    proof {
        lemma_first_index(rest, '(');
    }
    assert(rest.subrange(0, p as int) =~= s@.subrange(lo as int, (lo + p) as int));
    let (c, d) = trim_bounds(s, lo, lo + p);
    copy_range(s, c, d)
}

/// Executable [`entity_header`] on `s[lo..hi]`.
fn header_in(s: &Vec<char>, lo: usize, hi: usize) -> (r: Option<(u32, Vec<char>)>)
    requires
        lo <= hi <= s@.len(),
    ensures
        match r {
            Some((id, name)) => entity_header(s@.subrange(lo as int, hi as int)) == Some((id, name@)),
            None => entity_header(s@.subrange(lo as int, hi as int)) is None,
        },
{
    let (a, b) = trim_bounds(s, lo, hi);
    let ghost t = s@.subrange(a as int, b as int);
    if a == b || s[a] != '#' {
        return None;
    }
    let e = match find_char_in(s, a, b, '=') {
        Some(e) => e,
        None => return None,
    };
    proof {
        lemma_first_index(t, '=');
    }
    assert(t.subrange(1, e as int) =~= s@.subrange(a + 1, (a + e) as int));
    let id = match parse_u32_in(s, a + 1, a + e) {
        Some(id) => id,
        None => return None,
    };
    assert(t.subrange(e + 1, t.len() as int) =~= s@.subrange((a + e + 1) as int, b as int));
    let name = name_part_in(s, a + e + 1, b);
    Some((id, name))
}

/// The id and type name of one line of a STEP data section, if it is an
/// entity line (see [`entity_header`]).
pub fn parse_entity_line(line: &str) -> (r: Option<(u32, String)>)
    ensures
        match r {
            Some((id, name)) => entity_header(line@) == Some((id, name@)),
            None => entity_header(line@) is None,
        },
{
    let s = chars_of(line);
    let n = s.len();
    assert(s@.subrange(0, n as int) =~= line@);
    match header_in(&s, 0, n) {
        Some((id, name)) => Some((id, string_from_chars(&name))),
        None => None,
    }
}

/// A line with the `'\r'` of a `"\r\n"` line ending removed.
pub open spec fn strip_cr(p: Seq<char>) -> Seq<char> {
    if p.len() > 0 && p.last() == '\r' {
        p.drop_last()
    } else {
        p
    }
}

/// The lines of a text as `str::lines` gives them: split at each `'\n'`,
/// a `'\r'` just before the `'\n'` dropped; a final line break does not
/// start another line.
pub open spec fn split_lines(s: Seq<char>) -> Seq<Seq<char>>
    decreases s.len(),
{
    if s.len() == 0 {
        Seq::empty()
    } else {
        match first_index(s, '\n') {
            None => seq![s],
            Some(k) => {
                proof {
                    lemma_first_index(s, '\n');
                }
                seq![strip_cr(s.subrange(0, k))] + split_lines(s.subrange(k + 1, s.len() as int))
            },
        }
    }
}

/// The header of a line as a sequence of zero or one items.
pub open spec fn header_seq(line: Seq<char>) -> Seq<(u32, Seq<char>)> {
    match entity_header(line) {
        Some(h) => seq![h],
        None => Seq::empty(),
    }
}

/// The headers of the entity lines among `lines`, in order.
pub open spec fn entity_headers(lines: Seq<Seq<char>>) -> Seq<(u32, Seq<char>)>
    decreases lines.len(),
{
    if lines.len() == 0 {
        Seq::empty()
    } else {
        header_seq(lines[0]) + entity_headers(lines.drop_first())
    }
}

/// Headers as text.
pub open spec fn headers_view(v: Seq<(u32, String)>) -> Seq<(u32, Seq<char>)> {
    Seq::new(v.len(), |i: int| (v[i].0, v[i].1@))
}

/// The id and type name of every entity line of a STEP text, in file
/// order (the first pass of the loader: spatial structure and
/// relationships are picked out by type name).
pub fn scan_entity_lines(content: &str) -> (r: Vec<(u32, String)>)
    ensures
        headers_view(r@) == entity_headers(split_lines(content@)),
{
    let s = chars_of(content);
    let n = s.len();
    let mut out: Vec<(u32, String)> = Vec::new();
    let mut start: usize = 0;
    assert(s@.subrange(0, n as int) =~= s@);
    assert(headers_view(out@) =~= Seq::<(u32, Seq<char>)>::empty());
    assert(Seq::<(u32, Seq<char>)>::empty() + entity_headers(split_lines(s@.subrange(0, n as int))) =~= entity_headers(split_lines(s@)));
    while start < n
        invariant
            start <= n == s@.len(),
            s@ == content@,
            headers_view(out@) + entity_headers(split_lines(s@.subrange(start as int, n as int))) == entity_headers(split_lines(s@)),
        decreases n - start,
    {
        let ghost w = s@.subrange(start as int, n as int);
        let ghost before = headers_view(out@);
        let found = find_char_in(&s, start, n, '\n');
        proof {
            lemma_first_index(w, '\n');
        }
        let (lo, hi, next) = match found {
            Some(k) => {
                let end = start + k;
                let hi = if end > start && s[end - 1] == '\r' { end - 1 } else { end };
                proof {
                    assert(w.subrange(0, k as int) =~= s@.subrange(start as int, end as int));
                    assert(w.subrange(k + 1, w.len() as int) =~= s@.subrange(end + 1, n as int));
                    assert(strip_cr(s@.subrange(start as int, end as int)) =~= s@.subrange(start as int, hi as int));
                }
                (start, hi, end + 1)
            },
            None => (start, n, n),
        };
        proof {
            assert(split_lines(w) == seq![s@.subrange(lo as int, hi as int)] + split_lines(s@.subrange(next as int, n as int)));
            let l = split_lines(w);
            assert(l[0] == s@.subrange(lo as int, hi as int));
            assert(l.drop_first() =~= split_lines(s@.subrange(next as int, n as int)));
        }
        match header_in(&s, lo, hi) {
            Some((id, name)) => {
                out.push((id, string_from_chars(&name)));
                proof {
                    assert(headers_view(out@) =~= before + seq![(id, name@)]);
                }
            },
            None => {},
        }
        proof {
            let rest = entity_headers(split_lines(s@.subrange(next as int, n as int)));
            let here = header_seq(s@.subrange(lo as int, hi as int));
            assert(entity_headers(split_lines(w)) == here + rest);
            assert(before + (here + rest) =~= (before + here) + rest);
            assert(headers_view(out@) =~= before + here);
        }
        start = next;
    }
    assert(s@.subrange(start as int, n as int) =~= Seq::<char>::empty());
    assert(headers_view(out@) + Seq::<(u32, Seq<char>)>::empty() =~= headers_view(out@));
    out
}

} // verus!
