//! Fast path of the triangulated-face-set processor: reading the
//! `CoordIndex` list straight from the raw STEP bytes of an
//! `IFCTRIANGULATEDFACESET(...)` record.
//!
//! Everything here works on bytes. The bytes that steer the parse (`(`,
//! `)`, `,`, `+`, digits) are ASCII, and in valid UTF-8 an ASCII byte never
//! occurs inside the encoding of another character, so byte positions and
//! character boundaries agree wherever the parse cuts the text.

use vstd::prelude::*;
use vstd::string::StringSliceAdditionalSpecFns;
use vstd::utf8::valid_utf8;

use super::processors::TriangulatedFaceSetProcessor;

verus! {

/// First position at or after `i` holding byte `b`.
pub open spec fn find_byte_from(s: Seq<u8>, b: u8, i: int) -> Option<int>
    decreases s.len() - i,
{
    if i < 0 || i >= s.len() {
        None
    } else if s[i] == b {
        Some(i)
    } else {
        find_byte_from(s, b, i + 1)
    }
}

/// What [`find_byte_from`] finds is a `b` at or after `i`, and nothing
/// between `i` and it is a `b`.
pub proof fn lemma_find_byte_from(s: Seq<u8>, b: u8, i: int)
    ensures
        find_byte_from(s, b, i) matches Some(k) ==> (0 <= i <= k < s.len() && s[k] == b),
    decreases s.len() - i,
{
    if 0 <= i < s.len() && s[i] != b {
        lemma_find_byte_from(s, b, i + 1);
    }
}

/// First position at or after `i` where the two bytes `a b` start.
pub open spec fn find_pair_from(s: Seq<u8>, a: u8, b: u8, i: int) -> Option<int>
    decreases s.len() - i,
{
    if i < 0 || i + 1 >= s.len() {
        None
    } else if s[i] == a && s[i + 1] == b {
        Some(i)
    } else {
        find_pair_from(s, a, b, i + 1)
    }
}

/// Last position below `k` where the two bytes `a b` start.
pub open spec fn rfind_pair_below(s: Seq<u8>, a: u8, b: u8, k: int) -> Option<int>
    decreases k,
{
    if k <= 0 {
        None
    } else if k < s.len() && s[k - 1] == a && s[k] == b {
        Some(k - 1)
    } else {
        rfind_pair_below(s, a, b, k - 1)
    }
}

/// Last position where the two bytes `a b` start.
pub open spec fn rfind_pair(s: Seq<u8>, a: u8, b: u8) -> Option<int> {
    rfind_pair_below(s, a, b, s.len() - 1)
}

/// Scan from `i` with the given paren depth and the number of top-level
/// commas seen so far, for the `n`-th top-level comma; a `)` at depth zero
/// ends the attribute list.
pub open spec fn scan_commas(s: Seq<u8>, i: int, depth: nat, count: nat, n: nat) -> Option<int>
    decreases s.len() - i,
{
    if i < 0 || i >= s.len() {
        None
    } else if s[i] == 40 {
        scan_commas(s, i + 1, depth + 1, count, n)
    } else if s[i] == 41 {
        if depth == 0 {
            None
        } else {
            scan_commas(s, i + 1, (depth - 1) as nat, count, n)
        }
    } else if s[i] == 44 && depth == 0 {
        if count + 1 == n {
            Some(i)
        } else {
            scan_commas(s, i + 1, depth, count + 1, n)
        }
    } else {
        scan_commas(s, i + 1, depth, count, n)
    }
}

/// Position of the `n`-th comma outside nested parentheses, counting from
/// just after the first `(` of the text.
pub open spec fn nth_top_level_comma(s: Seq<u8>, n: nat) -> Option<int> {
    match find_byte_from(s, 40, 0) {
        Some(start) => scan_commas(s, start + 1, 0, 0, n),
        None => None,
    }
}

/// Executable [`find_byte_from`] over `s[i..]`.
pub fn find_byte(s: &[u8], b: u8, i: usize) -> (r: Option<usize>)
    ensures
        match r {
            Some(k) => find_byte_from(s@, b, i as int) == Some(k as int) && i <= k < s@.len(),
            None => find_byte_from(s@, b, i as int) is None,
        },
{
    let mut k = i;
    while k < s.len()
        invariant
            i <= k,
            find_byte_from(s@, b, i as int) == find_byte_from(s@, b, k as int),
        decreases s.len() - k,
    {
        if s[k] == b {
            return Some(k);
        }
        k = k + 1;
    }
    None
}

/// Executable [`find_pair_from`] over `s[i..]`.
pub fn find_pair(s: &[u8], a: u8, b: u8, i: usize) -> (r: Option<usize>)
    ensures
        match r {
            Some(k) => find_pair_from(s@, a, b, i as int) == Some(k as int) && i <= k && k + 1 < s@.len(),
            None => find_pair_from(s@, a, b, i as int) is None,
        },
{
    let mut k = i;
    while k < s.len() && k + 1 < s.len()
        invariant
            i <= k,
            find_pair_from(s@, a, b, i as int) == find_pair_from(s@, a, b, k as int),
        decreases s.len() - k,
    {
        if s[k] == a && s[k + 1] == b {
            return Some(k);
        }
        k = k + 1;
    }
    None
}

/// Executable [`rfind_pair`].
pub fn rfind_pair_exec(s: &[u8], a: u8, b: u8) -> (r: Option<usize>)
    ensures
        match r {
            Some(k) => rfind_pair(s@, a, b) == Some(k as int) && k + 1 < s@.len(),
            None => rfind_pair(s@, a, b) is None,
        },
{
    if s.len() == 0 {
        return None;
    }
    let mut k = s.len() - 1;
    while k > 0
        invariant
            k < s@.len(),
            rfind_pair(s@, a, b) == rfind_pair_below(s@, a, b, k as int),
        decreases k,
    {
        if s[k - 1] == a && s[k] == b {
            return Some(k - 1);
        }
        k = k - 1;
    }
    None
}

/// Position of the `n`-th top-level comma in the bytes of an entity record,
/// counting from just after its opening parenthesis.
pub fn find_nth_top_level_comma_bytes(s: &[u8], n: usize) -> (r: Option<usize>)
    ensures
        match r {
            Some(k) => nth_top_level_comma(s@, n as nat) == Some(k as int) && k < s@.len(),
            None => nth_top_level_comma(s@, n as nat) is None,
        },
{
    let len = s.len();
    let start = match find_byte(s, 40, 0) {
        Some(k) => k,
        None => {
            return None;
        },
    };
    let mut depth: usize = 0;
    let mut count: usize = 0;
    let mut i: usize = start + 1;
    while i < s.len()
        invariant
            start < i <= s@.len(),
            depth < i,
            count < i,
            nth_top_level_comma(s@, n as nat) == scan_commas(s@, i as int, depth as nat, count as nat, n as nat),
        decreases s.len() - i,
    {
        let c = s[i];
        if c == 40 {
            depth = depth + 1;
        } else if c == 41 {
            if depth == 0 {
                return None;
            }
            depth = depth - 1;
        } else if c == 44 && depth == 0 {
            if count + 1 == n {
                return Some(i);
            }
            count = count + 1;
        }
        i = i + 1;
    }
    None
}

/// Position of the `n`-th top-level comma in an entity's STEP text (a byte
/// offset), counting from just after its opening parenthesis; `None` when
/// the attribute list closes first or the text has no `(`.
pub fn find_nth_top_level_comma(text: &str, n: usize) -> (r: Option<usize>)
    ensures
        match r {
            Some(k) => nth_top_level_comma(text.spec_bytes(), n as nat) == Some(k as int),
            None => nth_top_level_comma(text.spec_bytes(), n as nat) is None,
        },
{
    find_nth_top_level_comma_bytes(text.as_bytes(), n)
}


/// Length of the UTF-8 encoding of a whitespace character (Unicode
/// `White_Space`, what `char::is_whitespace` accepts) that `t` starts with,
/// or `0`.
pub open spec fn ws_prefix_len(t: Seq<u8>) -> int {
    if t.len() >= 1 && ((9 <= t[0] && t[0] <= 13) || t[0] == 32) {
        1
    } else if t.len() >= 2 && t[0] == 0xC2 && (t[1] == 0x85 || t[1] == 0xA0) {
        2
    } else if t.len() >= 3 && (
        (t[0] == 0xE1 && t[1] == 0x9A && t[2] == 0x80)
        || (t[0] == 0xE2 && t[1] == 0x80 && ((0x80 <= t[2] && t[2] <= 0x8A) || t[2] == 0xA8 || t[2] == 0xA9 || t[2] == 0xAF))
        || (t[0] == 0xE2 && t[1] == 0x81 && t[2] == 0x9F)
        || (t[0] == 0xE3 && t[1] == 0x80 && t[2] == 0x80)) {
        3
    } else {
        0
    }
}

/// Length of the UTF-8 encoding of a whitespace character that `t` ends
/// with, or `0`.
pub open spec fn ws_suffix_len(t: Seq<u8>) -> int {
    let n = t.len() as int;
    if n >= 1 && ((9 <= t[n - 1] && t[n - 1] <= 13) || t[n - 1] == 32) {
        1
    } else if n >= 2 && t[n - 2] == 0xC2 && (t[n - 1] == 0x85 || t[n - 1] == 0xA0) {
        2
    } else if n >= 3 && (
        (t[n - 3] == 0xE1 && t[n - 2] == 0x9A && t[n - 1] == 0x80)
        || (t[n - 3] == 0xE2 && t[n - 2] == 0x80 && ((0x80 <= t[n - 1] && t[n - 1] <= 0x8A) || t[n - 1] == 0xA8 || t[n - 1] == 0xA9 || t[n - 1] == 0xAF))
        || (t[n - 3] == 0xE2 && t[n - 2] == 0x81 && t[n - 1] == 0x9F)
        || (t[n - 3] == 0xE3 && t[n - 2] == 0x80 && t[n - 1] == 0x80)) {
        3
    } else {
        0
    }
}

/// Leading whitespace removed.
pub open spec fn trim_start_bytes(t: Seq<u8>) -> Seq<u8>
    decreases t.len(),
{
    let k = ws_prefix_len(t);
    if 0 < k <= t.len() {
        trim_start_bytes(t.subrange(k, t.len() as int))
    } else {
        t
    }
}

/// Trailing whitespace removed.
pub open spec fn trim_end_bytes(t: Seq<u8>) -> Seq<u8>
    decreases t.len(),
{
    let k = ws_suffix_len(t);
    if 0 < k <= t.len() {
        trim_end_bytes(t.subrange(0, t.len() - k))
    } else {
        t
    }
}

/// Whitespace removed from both ends, as `str::trim` does.
pub open spec fn trim_bytes(t: Seq<u8>) -> Seq<u8> {
    trim_end_bytes(trim_start_bytes(t))
}

/// An ASCII decimal digit.
pub open spec fn is_digit(b: u8) -> bool {
    48 <= b && b <= 57
}

/// Every byte is an ASCII decimal digit.
pub open spec fn all_digits(d: Seq<u8>) -> bool {
    forall|i: int| 0 <= i < d.len() ==> is_digit(#[trigger] d[i])
}

/// The number a string of decimal digits spells.
pub open spec fn dec_value(d: Seq<u8>) -> nat
    decreases d.len(),
{
    if d.len() == 0 {
        0
    } else {
        dec_value(d.drop_last()) * 10 + (d.last() - 48) as nat
    }
}

/// `u32` parsing as `str::parse::<u32>` does it: an optional `+`, then one
/// or more decimal digits spelling a value that fits in 32 bits.
pub open spec fn parse_u32_bytes(t: Seq<u8>) -> Option<u32> {
    let d = if t.len() > 0 && t[0] == 43 { t.subrange(1, t.len() as int) } else { t };
    if d.len() > 0 && all_digits(d) && dec_value(d) <= u32::MAX {
        Some(dec_value(d) as u32)
    } else {
        None
    }
}

/// One comma-separated token of an index group: blank tokens contribute
/// nothing, others must parse as `u32` and contribute the 0-based index
/// (one less, saturating at zero).
pub open spec fn token_vals(tok: Seq<u8>) -> Option<Seq<u32>> {
    let t = trim_bytes(tok);
    if t.len() == 0 {
        Some(Seq::empty())
    } else {
        match parse_u32_bytes(t) {
            Some(v) => Some(seq![if v == 0 { 0u32 } else { (v - 1) as u32 }]),
            None => None,
        }
    }
}

/// Concatenation of two partial results: defined when both are.
pub open spec fn prepend_opt(a: Option<Seq<u32>>, b: Option<Seq<u32>>) -> Option<Seq<u32>> {
    match (a, b) {
        (Some(x), Some(y)) => Some(x + y),
        _ => None,
    }
}

/// Concatenation of partial results is associative.
proof fn lemma_prepend_assoc(a: Seq<u32>, b: Option<Seq<u32>>, c: Option<Seq<u32>>)
    ensures
        prepend_opt(Some(a), prepend_opt(b, c)) == prepend_opt(prepend_opt(Some(a), b), c),
{
    if let (Some(x), Some(y)) = (b, c) {
        assert(a + (x + y) =~= (a + x) + y);
    }
}

/// The indices of one parenthesised group, split on commas.
pub open spec fn parse_group(g: Seq<u8>) -> Option<Seq<u32>>
    decreases g.len(),
{
    match find_byte_from(g, 44, 0) {
        None => token_vals(g),
        Some(c) => {
            proof {
                lemma_find_byte_from(g, 44, 0);
            }
            prepend_opt(token_vals(g.subrange(0, c)), parse_group(g.subrange(c + 1, g.len() as int)))
        },
    }
}

/// The indices of every `( ... )` group in order; a group without its `)`
/// fails the whole parse.
pub open spec fn parse_groups(cur: Seq<u8>) -> Option<Seq<u32>>
    decreases cur.len(),
{
    match find_byte_from(cur, 40, 0) {
        None => Some(Seq::empty()),
        Some(ps) => match find_byte_from(cur, 41, ps) {
            None => None,
            Some(pe) => {
                proof {
                    lemma_find_byte_from(cur, 40, 0);
                    lemma_find_byte_from(cur, 41, ps);
                }
                prepend_opt(parse_group(cur.subrange(ps + 1, pe)), parse_groups(cur.subrange(pe + 1, cur.len() as int)))
            },
        },
    }
}

/// The text after the third top-level comma of the record, which holds the
/// `CoordIndex` attribute.
pub open spec fn index_attribute(raw: Seq<u8>) -> Option<Seq<u8>> {
    match nth_top_level_comma(raw, 3) {
        Some(a) => Some(raw.subrange(a + 1, raw.len() as int)),
        None => None,
    }
}

/// The slice of the index attribute from just after its first `((` to just
/// before its last `))`, when both occur in that order.
pub open spec fn index_list_bounds(rem: Seq<u8>) -> Option<(int, int)> {
    match (find_pair_from(rem, 40, 40, 0), rfind_pair(rem, 41, 41)) {
        (Some(st), Some(en)) => Some((st, en)),
        _ => None,
    }
}

/// Inputs on which the fast path would slice backwards and panic: the last
/// `))` of the index attribute comes before its first `((`.
pub open spec fn fast_indices_panics(raw: Seq<u8>) -> bool {
    valid_utf8(raw) && match index_attribute(raw) {
        Some(rem) => match index_list_bounds(rem) {
            Some((st, en)) => st > en,
            None => false,
        },
        None => false,
    }
}

/// The 0-based triangle indices the fast path reads from a raw
/// `IFCTRIANGULATEDFACESET(...)` record, or `None` (not UTF-8, no fourth
/// attribute, no nested list, a malformed group or token, or no index).
pub open spec fn fast_indices(raw: Seq<u8>) -> Option<Seq<u32>> {
    if !valid_utf8(raw) {
        None
    } else {
        match index_attribute(raw) {
            None => None,
            Some(rem) => match index_list_bounds(rem) {
                None => None,
                Some((st, en)) => match parse_groups(rem.subrange(st + 1, en + 1)) {
                    Some(v) => if v.len() > 0 { Some(v) } else { None },
                    None => None,
                },
            },
        }
    }
}

/// Length of the whitespace character starting `t`.
fn ws_prefix_len_exec(t: &[u8]) -> (r: usize)
    ensures
        r == ws_prefix_len(t@),
{
    let n = t.len();
    if n >= 1 && ((9 <= t[0] && t[0] <= 13) || t[0] == 32) {
        1
    } else if n >= 2 && t[0] == 0xC2 && (t[1] == 0x85 || t[1] == 0xA0) {
        2
    } else if n >= 3 && (
        (t[0] == 0xE1 && t[1] == 0x9A && t[2] == 0x80)
        || (t[0] == 0xE2 && t[1] == 0x80 && ((0x80 <= t[2] && t[2] <= 0x8A) || t[2] == 0xA8 || t[2] == 0xA9 || t[2] == 0xAF))
        || (t[0] == 0xE2 && t[1] == 0x81 && t[2] == 0x9F)
        || (t[0] == 0xE3 && t[1] == 0x80 && t[2] == 0x80)) {
        3
    } else {
        0
    }
}

/// Length of the whitespace character ending `t`.
fn ws_suffix_len_exec(t: &[u8]) -> (r: usize)
    ensures
        r == ws_suffix_len(t@),
{
    let n = t.len();
    if n >= 1 && ((9 <= t[n - 1] && t[n - 1] <= 13) || t[n - 1] == 32) {
        1
    } else if n >= 2 && t[n - 2] == 0xC2 && (t[n - 1] == 0x85 || t[n - 1] == 0xA0) {
        2
    } else if n >= 3 && (
        (t[n - 3] == 0xE1 && t[n - 2] == 0x9A && t[n - 1] == 0x80)
        || (t[n - 3] == 0xE2 && t[n - 2] == 0x80 && ((0x80 <= t[n - 1] && t[n - 1] <= 0x8A) || t[n - 1] == 0xA8 || t[n - 1] == 0xA9 || t[n - 1] == 0xAF))
        || (t[n - 3] == 0xE2 && t[n - 2] == 0x81 && t[n - 1] == 0x9F)
        || (t[n - 3] == 0xE3 && t[n - 2] == 0x80 && t[n - 1] == 0x80)) {
        3
    } else {
        0
    }
}

/// Executable [`trim_bytes`].
pub fn trim_bytes_exec(t: &[u8]) -> (r: &[u8])
    ensures
        r@ == trim_bytes(t@),
{
    let mut cur: &[u8] = t;
    let mut k = ws_prefix_len_exec(cur);
    while 0 < k && k <= cur.len()
        invariant
            trim_start_bytes(t@) == trim_start_bytes(cur@),
            k == ws_prefix_len(cur@),
        decreases cur@.len(),
    {
        cur = &cur[k..cur.len()];
        k = ws_prefix_len_exec(cur);
    }
    let mut k = ws_suffix_len_exec(cur);
    while 0 < k && k <= cur.len()
        invariant
            trim_bytes(t@) == trim_end_bytes(cur@),
            k == ws_suffix_len(cur@),
        decreases cur@.len(),
    {
        cur = &cur[0..cur.len() - k];
        k = ws_suffix_len_exec(cur);
    }
    cur
}

/// Decimal values only grow as digits are appended.
proof fn lemma_dec_value_prefix(d: Seq<u8>, i: int)
    requires
        0 <= i <= d.len(),
        all_digits(d),
    ensures
        dec_value(d.take(i)) <= dec_value(d),
    decreases d.len() - i,
{
    if i < d.len() {
        lemma_dec_value_prefix(d, i + 1);
        assert(d.take(i + 1).drop_last() =~= d.take(i));
        assert(is_digit(d[i]));
    } else {
        assert(d.take(i) =~= d);
    }
}

/// Executable [`parse_u32_bytes`].
pub fn parse_u32_exec(t: &[u8]) -> (r: Option<u32>)
    ensures
        r == parse_u32_bytes(t@),
{
    let d: &[u8] = if t.len() > 0 && t[0] == 43 { &t[1..t.len()] } else { t };
    if d.len() == 0 {
        return None;
    }
    let mut acc: u64 = 0;
    let mut i: usize = 0;
    while i < d.len()
        invariant
            d@ == (if t@.len() > 0 && t@[0] == 43 { t@.subrange(1, t@.len() as int) } else { t@ }),
            i <= d@.len(),
            all_digits(d@.take(i as int)),
            acc == dec_value(d@.take(i as int)),
            acc <= u32::MAX,
        decreases d@.len() - i,
    {
        let b = d[i];
        if b < 48 || b > 57 {
            assert(!is_digit(d@[i as int]));
            return None;
        }
        assert(d@.take(i + 1).drop_last() =~= d@.take(i as int));
        let next: u64 = acc * 10 + (b - 48) as u64;
        assert(next == dec_value(d@.take(i + 1)));
        if next > 0xFFFF_FFFF {
            proof {
                if all_digits(d@) {
                    lemma_dec_value_prefix(d@, i + 1);
                }
            }
            return None;
        }
        acc = next;
        i = i + 1;
        assert(all_digits(d@.take(i as int)));
    }
    assert(d@.take(i as int) =~= d@);
    Some(acc as u32)
}

/// Executable [`token_vals`]: `Some(None)` for a blank token,
/// `Some(Some(v))` for a parsed index, `None` on a malformed token.
fn token_value(tok: &[u8]) -> (r: Option<Option<u32>>)
    ensures
        match r {
            None => token_vals(tok@) is None,
            Some(None) => token_vals(tok@) == Some(Seq::<u32>::empty()),
            Some(Some(v)) => token_vals(tok@) == Some(seq![v]),
        },
{
    let t = trim_bytes_exec(tok);
    if t.len() == 0 {
        return Some(None);
    }
    match parse_u32_exec(t) {
        Some(v) => Some(Some(v.saturating_sub(1))),
        None => None,
    }
}

/// Executable [`parse_group`], appending to `out`.
fn parse_group_exec(g: &[u8], out: &mut Vec<u32>) -> (ok: bool)
    ensures
        ok ==> (parse_group(g@) matches Some(v) && final(out)@ == old(out)@ + v),
        !ok ==> parse_group(g@) is None,
{
    let mut cur: &[u8] = g;
    let ghost start = out@;
    let ghost mut acc: Seq<u32> = Seq::empty();
    assert(prepend_opt(Some(acc), parse_group(cur@)) == parse_group(g@)) by {
        if let Some(x) = parse_group(cur@) {
            assert(acc + x =~= x);
        }
    }
    loop
        invariant
            start == old(out)@,
            out@ == start + acc,
            parse_group(g@) == prepend_opt(Some(acc), parse_group(cur@)),
        decreases cur@.len(),
    {
        proof {
            lemma_find_byte_from(cur@, 44, 0);
        }
        let n = cur.len();
        match find_byte(cur, 44, 0) {
            None => {
                assert(parse_group(cur@) == token_vals(cur@));
                match token_value(cur) {
                    None => {
                        return false;
                    },
                    Some(None) => {
                        assert(acc + Seq::<u32>::empty() =~= acc);
                        assert(parse_group(g@) == Some(acc));
                    },
                    Some(Some(v)) => {
                        out.push(v);
                        assert(out@ =~= start + (acc + seq![v]));
                        assert(parse_group(g@) == Some(acc + seq![v]));
                    },
                }
                return true;
            },
            Some(c) => {
                let tok = &cur[0..c];
                let rest = &cur[c + 1..cur.len()];
                proof {
                    lemma_prepend_assoc(acc, token_vals(tok@), parse_group(rest@));
                }
                match token_value(tok) {
                    None => {
                        return false;
                    },
                    Some(None) => {
                        assert(acc + Seq::<u32>::empty() =~= acc);
                    },
                    Some(Some(v)) => {
                        out.push(v);
                        proof {
                            acc = acc + seq![v];
                        }
                        assert(out@ =~= start + acc);
                    },
                }
                cur = rest;
            },
        }
    }
}

/// Executable [`parse_groups`], appending to `out`.
fn parse_groups_exec(content: &[u8], out: &mut Vec<u32>) -> (ok: bool)
    ensures
        ok ==> (parse_groups(content@) matches Some(v) && final(out)@ == old(out)@ + v),
        !ok ==> parse_groups(content@) is None,
{
    let mut cur: &[u8] = content;
    let ghost start = out@;
    let ghost mut acc: Seq<u32> = Seq::empty();
    assert(prepend_opt(Some(acc), parse_groups(cur@)) == parse_groups(content@)) by {
        if let Some(x) = parse_groups(cur@) {
            assert(acc + x =~= x);
        }
    }
    loop
        invariant
            start == old(out)@,
            out@ == start + acc,
            parse_groups(content@) == prepend_opt(Some(acc), parse_groups(cur@)),
        decreases cur@.len(),
    {
        let n = cur.len();
        proof {
            lemma_find_byte_from(cur@, 40, 0);
        }
        match find_byte(cur, 40, 0) {
            None => {
                assert(parse_groups(cur@) == Some(Seq::<u32>::empty()));
                assert(acc + Seq::<u32>::empty() =~= acc);
                return true;
            },
            Some(ps) => {
                proof {
                    lemma_find_byte_from(cur@, 41, ps as int);
                }
                match find_byte(cur, 41, ps) {
                    None => {
                        return false;
                    },
                    Some(pe) => {
                        let inner = &cur[ps + 1..pe];
                        let rest = &cur[pe + 1..n];
                        proof {
                            lemma_prepend_assoc(acc, parse_group(inner@), parse_groups(rest@));
                        }
                        let ghost before = out@;
                        if !parse_group_exec(inner, out) {
                            return false;
                        }
                        proof {
                            let v = parse_group(inner@)->0;
                            assert(out@ =~= start + (acc + v));
                            acc = acc + v;
                        }
                        cur = rest;
                    },
                }
            },
        }
    }
}

/// Calls `std::str::from_utf8` and reports whether the bytes are valid
/// UTF-8, which is what its documentation says it checks.
#[verifier::external_body]
fn is_valid_utf8(raw: &[u8]) -> (r: bool)
    ensures
        r == valid_utf8(raw@),
{
    std::str::from_utf8(raw).is_ok()
}

impl TriangulatedFaceSetProcessor {
    /// Fast path: read the `CoordIndex` list (the fourth attribute) of a raw
    /// `IFCTRIANGULATEDFACESET(...)` record, converting the 1-based IFC
    /// indices to 0-based ones.
    pub fn parse_indices_fast(raw: &[u8]) -> (r: Option<Vec<u32>>)
        requires
            !fast_indices_panics(raw@),
        ensures
            match r {
                Some(v) => fast_indices(raw@) == Some(v@),
                None => fast_indices(raw@) is None,
            },
    {
        if !is_valid_utf8(raw) {
            return None;
        }
        let n = raw.len();
        let attr_start = match find_nth_top_level_comma_bytes(raw, 3) {
            Some(a) => a,
            None => {
                return None;
            },
        };
        let remaining = &raw[attr_start + 1..n];
        let start = match find_pair(remaining, 40, 40, 0) {
            Some(k) => k,
            None => {
                return None;
            },
        };
        let end = match rfind_pair_exec(remaining, 41, 41) {
            Some(k) => k,
            None => {
                return None;
            },
        };
        let list_content = &remaining[start + 1..end + 1];
        let mut indices: Vec<u32> = Vec::new();
        if !parse_groups_exec(list_content, &mut indices) {
            return None;
        }
        assert(Seq::<u32>::empty() + parse_groups(list_content@)->0 =~= parse_groups(list_content@)->0);
        if indices.len() == 0 {
            None
        } else {
            Some(indices)
        }
    }
}

} // verus!
