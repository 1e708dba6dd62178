//! Byte-level scanning of one line of the search tool's JSON output.
//!
//! The grammar implemented here is the subset of JSON that the tool's
//! line-delimited records use: objects, arrays, strings (with the standard
//! escapes, including surrogate pairs), unsigned integers, `true`, `false`
//! and `null`.  Numbers in recognised fields are unsigned integers; values in
//! unrecognised fields are skipped structurally, with nesting bounded the way
//! conventional JSON parsers bound their recursion.  Every specification
//! function is mirrored by an executable function proved equal to it.

use vstd::prelude::*;

verus! {

/// The depth bound applied when skipping nested values of unrecognised
/// fields.
pub const SKIP_DEPTH: u32 = 128;

pub open spec fn is_json_ws(b: u8) -> bool {
    b == 0x20 || b == 0x09 || b == 0x0a || b == 0x0d
}

/// How many whitespace bytes stand at `i`.
pub open spec fn ws_count(s: Seq<u8>, i: int) -> nat
    decreases s.len() - i,
{
    if 0 <= i < s.len() && is_json_ws(s[i]) {
        1 + ws_count(s, i + 1)
    } else {
        0
    }
}

/// The first non-whitespace position at or after `i`.
pub open spec fn spec_skip_ws(s: Seq<u8>, i: int) -> int {
    i + ws_count(s, i)
}

fn json_ws(b: u8) -> (r: bool)
    ensures
        r == is_json_ws(b),
{
    b == 0x20 || b == 0x09 || b == 0x0a || b == 0x0d
}

pub(crate) fn skip_ws(s: &Vec<u8>, i: usize) -> (j: usize)
    requires
        i <= s.len(),
    ensures
        j as int == spec_skip_ws(s@, i as int),
        i <= j <= s.len(),
{
    let mut j = i;
    while j < s.len() && json_ws(s[j])
        invariant
            i <= j <= s.len(),
            spec_skip_ws(s@, i as int) == spec_skip_ws(s@, j as int),
        decreases s.len() - j,
    {
        j = j + 1;
    }
    j
}

/// The value of an ASCII hexadecimal digit.
pub open spec fn spec_hex_val(b: u8) -> Option<u32> {
    if 0x30 <= b && b <= 0x39 {
        Some((b - 0x30) as u32)
    } else if 0x41 <= b && b <= 0x46 {
        Some((b - 0x41 + 10) as u32)
    } else if 0x61 <= b && b <= 0x66 {
        Some((b - 0x61 + 10) as u32)
    } else {
        None
    }
}

/// The value of the four hexadecimal digits at `i`.
pub open spec fn spec_hex4(s: Seq<u8>, i: int) -> Option<u32> {
    if 0 <= i && i + 4 <= s.len() && spec_hex_val(s[i]) is Some && spec_hex_val(s[i + 1]) is Some
        && spec_hex_val(s[i + 2]) is Some && spec_hex_val(s[i + 3]) is Some {
        Some(
            (spec_hex_val(s[i]).unwrap() * 0x1000 + spec_hex_val(s[i + 1]).unwrap() * 0x100
                + spec_hex_val(s[i + 2]).unwrap() * 0x10 + spec_hex_val(s[i + 3]).unwrap()) as u32,
        )
    } else {
        None
    }
}

fn hex_val(b: u8) -> (r: Option<u32>)
    ensures
        r == spec_hex_val(b),
{
    if 0x30 <= b && b <= 0x39 {
        Some((b - 0x30) as u32)
    } else if 0x41 <= b && b <= 0x46 {
        Some((b - 0x41 + 10) as u32)
    } else if 0x61 <= b && b <= 0x66 {
        Some((b - 0x61 + 10) as u32)
    } else {
        None
    }
}

fn hex4(s: &Vec<u8>, i: usize) -> (r: Option<u32>)
    ensures
        r == spec_hex4(s@, i as int),
{
    if i < s.len() && s.len() - i >= 4 {
        match (hex_val(s[i]), hex_val(s[i + 1]), hex_val(s[i + 2]), hex_val(s[i + 3])) {
            (Some(h0), Some(h1), Some(h2), Some(h3)) => Some(
                h0 * 0x1000 + h1 * 0x100 + h2 * 0x10 + h3,
            ),
            _ => None,
        }
    } else {
        None
    }
}

/// The UTF-8 encoding of the scalar value `cp`.
pub open spec fn spec_encode_cp(cp: u32) -> Seq<u8> {
    if cp < 0x80 {
        seq![cp as u8]
    } else if cp < 0x800 {
        seq![(0xc0 + cp / 0x40) as u8, (0x80 + cp % 0x40) as u8]
    } else if cp < 0x10000 {
        seq![
            (0xe0 + cp / 0x1000) as u8,
            (0x80 + (cp / 0x40) % 0x40) as u8,
            (0x80 + cp % 0x40) as u8,
        ]
    } else {
        seq![
            (0xf0 + cp / 0x40000) as u8,
            (0x80 + (cp / 0x1000) % 0x40) as u8,
            (0x80 + (cp / 0x40) % 0x40) as u8,
            (0x80 + cp % 0x40) as u8,
        ]
    }
}

fn push_encoded_cp(cp: u32, out: &mut Vec<u8>)
    requires
        cp <= 0x10ffff,
    ensures
        final(out)@ == old(out)@ + spec_encode_cp(cp),
{
    if cp < 0x80 {
        out.push(cp as u8);
    } else if cp < 0x800 {
        out.push((0xc0 + cp / 0x40) as u8);
        out.push((0x80 + cp % 0x40) as u8);
    } else if cp < 0x10000 {
        out.push((0xe0 + cp / 0x1000) as u8);
        out.push((0x80 + (cp / 0x40) % 0x40) as u8);
        out.push((0x80 + cp % 0x40) as u8);
    } else {
        out.push((0xf0 + cp / 0x40000) as u8);
        out.push((0x80 + (cp / 0x1000) % 0x40) as u8);
        out.push((0x80 + (cp / 0x40) % 0x40) as u8);
        out.push((0x80 + cp % 0x40) as u8);
    }
    proof {
        assert(out@ =~= old(out)@ + spec_encode_cp(cp));
    }
}

/// The bytes denoted by the escape whose introducing backslash stands just
/// before `i`, and the position after it.  Surrogate pairs are combined; a
/// lone surrogate is rejected.
pub open spec fn spec_parse_escape(s: Seq<u8>, i: int) -> Option<(Seq<u8>, int)> {
    if i < 0 || i >= s.len() {
        None
    } else if s[i] == 0x22 {
        Some((seq![0x22u8], i + 1))
    } else if s[i] == 0x5c {
        Some((seq![0x5cu8], i + 1))
    } else if s[i] == 0x2f {
        Some((seq![0x2fu8], i + 1))
    } else if s[i] == 0x62 {
        Some((seq![0x08u8], i + 1))
    } else if s[i] == 0x66 {
        Some((seq![0x0cu8], i + 1))
    } else if s[i] == 0x6e {
        Some((seq![0x0au8], i + 1))
    } else if s[i] == 0x72 {
        Some((seq![0x0du8], i + 1))
    } else if s[i] == 0x74 {
        Some((seq![0x09u8], i + 1))
    } else if s[i] == 0x75 {
        match spec_hex4(s, i + 1) {
            Some(h) => if h < 0xd800 || h > 0xdfff {
                Some((spec_encode_cp(h), i + 5))
            } else if h < 0xdc00 {
                if i + 7 <= s.len() && s[i + 5] == 0x5c && s[i + 6] == 0x75 {
                    match spec_hex4(s, i + 7) {
                        Some(l) => if 0xdc00 <= l && l <= 0xdfff {
                            Some(
                                (
                                    spec_encode_cp(
                                        (0x10000 + (h - 0xd800) * 0x400 + (l - 0xdc00)) as u32,
                                    ),
                                    i + 11,
                                ),
                            )
                        } else {
                            None
                        },
                        None => None,
                    }
                } else {
                    None
                }
            } else {
                None
            },
            None => None,
        }
    } else {
        None
    }
}

fn parse_escape(s: &Vec<u8>, i: usize, out: &mut Vec<u8>) -> (r: Option<usize>)
    ensures
        match r {
            Some(j) => {
                &&& spec_parse_escape(s@, i as int) matches Some((b, sj))
                &&& final(out)@ == old(out)@ + spec_parse_escape(s@, i as int).unwrap().0
                &&& j as int == spec_parse_escape(s@, i as int).unwrap().1
                &&& i < j <= s.len()
            },
            None => spec_parse_escape(s@, i as int) is None && final(out)@ == old(out)@,
        },
{
    if i >= s.len() {
        return None;
    }
    let b = s[i];
    if b == 0x22 || b == 0x5c || b == 0x2f {
        out.push(b);
        proof {
            assert(out@ =~= old(out)@ + spec_parse_escape(s@, i as int).unwrap().0);
        }
        Some(i + 1)
    } else if b == 0x62 {
        out.push(0x08);
        proof {
            assert(out@ =~= old(out)@ + seq![0x08u8]);
        }
        Some(i + 1)
    } else if b == 0x66 {
        out.push(0x0c);
        proof {
            assert(out@ =~= old(out)@ + seq![0x0cu8]);
        }
        Some(i + 1)
    } else if b == 0x6e {
        out.push(0x0a);
        proof {
            assert(out@ =~= old(out)@ + seq![0x0au8]);
        }
        Some(i + 1)
    } else if b == 0x72 {
        out.push(0x0d);
        proof {
            assert(out@ =~= old(out)@ + seq![0x0du8]);
        }
        Some(i + 1)
    } else if b == 0x74 {
        out.push(0x09);
        proof {
            assert(out@ =~= old(out)@ + seq![0x09u8]);
        }
        Some(i + 1)
    } else if b == 0x75 {
        match hex4(s, i + 1) {
            Some(h) => {
                if h < 0xd800 || h > 0xdfff {
                    push_encoded_cp(h, out);
                    Some(i + 5)
                } else if h < 0xdc00 {
                    if s.len() - i >= 7 && s[i + 5] == 0x5c && s[i + 6] == 0x75 {
                        match hex4(s, i + 7) {
                            Some(l) => {
                                if 0xdc00 <= l && l <= 0xdfff {
                                    push_encoded_cp(0x10000 + (h - 0xd800) * 0x400 + (l - 0xdc00), out);
                                    Some(i + 11)
                                } else {
                                    None
                                }
                            },
                            None => None,
                        }
                    } else {
                        None
                    }
                } else {
                    None
                }
            },
            None => None,
        }
    } else {
        None
    }
}

/// Scan of a string body from `i` (just after the opening quote), with the
/// bytes already gathered in `acc`; yields the full contents and the
/// position after the closing quote.
pub open spec fn spec_scan_string(s: Seq<u8>, i: int, acc: Seq<u8>) -> Option<(Seq<u8>, int)>
    decreases s.len() - i,
{
    if i < 0 || i >= s.len() {
        None
    } else if s[i] == 0x22 {
        Some((acc, i + 1))
    } else if s[i] == 0x5c {
        match spec_parse_escape(s, i + 1) {
            Some((b, j)) => if i < j <= s.len() {
                spec_scan_string(s, j, acc + b)
            } else {
                None
            },
            None => None,
        }
    } else if s[i] < 0x20 {
        None
    } else {
        spec_scan_string(s, i + 1, acc.push(s[i]))
    }
}

/// A JSON string starting at `i`: its unescaped contents, and the position
/// after the closing quote.
pub open spec fn spec_parse_string(s: Seq<u8>, i: int) -> Option<(Seq<u8>, int)> {
    if 0 <= i < s.len() && s[i] == 0x22 {
        spec_scan_string(s, i + 1, Seq::empty())
    } else {
        None
    }
}

pub(crate) fn parse_string(s: &Vec<u8>, i: usize) -> (r: Option<(Vec<u8>, usize)>)
    ensures
        match r {
            Some((b, j)) => spec_parse_string(s@, i as int) == Some((b@, j as int)) && i < j
                <= s.len(),
            None => spec_parse_string(s@, i as int) is None,
        },
{
    if i >= s.len() || s[i] != 0x22 {
        return None;
    }
    let mut out: Vec<u8> = Vec::new();
    let mut j = i + 1;
    proof {
        assert(out@ =~= Seq::<u8>::empty());
    }
    while j < s.len()
        invariant
            i < j <= s.len(),
            i < s@.len() && s@[i as int] == 0x22,
            spec_scan_string(s@, i + 1, Seq::empty()) == spec_scan_string(s@, j as int, out@),
        decreases s.len() - j,
    {
        let b = s[j];
        if b == 0x22 {
            return Some((out, j + 1));
        } else if b == 0x5c {
            match parse_escape(s, j + 1, &mut out) {
                Some(k) => {
                    j = k;
                },
                None => {
                    return None;
                },
            }
        } else if b < 0x20 {
            return None;
        } else {
            out.push(b);
            j = j + 1;
        }
    }
    None
}

/// An unsigned decimal integer scanned from `i` with accumulator `acc`;
/// yields the value and the position after the digits.  Values that do not
/// fit in 64 bits are rejected.
pub open spec fn spec_scan_u64(s: Seq<u8>, i: int, acc: u64) -> Option<(u64, int)>
    decreases s.len() - i,
{
    if 0 <= i < s.len() && 0x30 <= s[i] && s[i] <= 0x39 {
        let d = (s[i] - 0x30) as u64;
        if acc <= (u64::MAX - d) / 10 {
            spec_scan_u64(s, i + 1, (acc * 10 + d) as u64)
        } else {
            None
        }
    } else {
        Some((acc, i))
    }
}

/// A JSON unsigned integer at `i`: no sign, no leading zero, 64-bit range.
pub open spec fn spec_parse_u64(s: Seq<u8>, i: int) -> Option<(u64, int)> {
    if 0 <= i < s.len() && 0x30 <= s[i] && s[i] <= 0x39 {
        if s[i] == 0x30 {
            if i + 1 < s.len() && 0x30 <= s[i + 1] && s[i + 1] <= 0x39 {
                None
            } else {
                Some((0, i + 1))
            }
        } else {
            spec_scan_u64(s, i, 0)
        }
    } else {
        None
    }
}

pub(crate) fn parse_u64(s: &Vec<u8>, i: usize) -> (r: Option<(u64, usize)>)
    requires
        i <= s.len(),
    ensures
        match r {
            Some((v, j)) => spec_parse_u64(s@, i as int) == Some((v, j as int)) && i < j <= s.len(),
            None => spec_parse_u64(s@, i as int) is None,
        },
{
    if i >= s.len() || s[i] < 0x30 || s[i] > 0x39 {
        return None;
    }
    if s[i] == 0x30 {
        if i + 1 < s.len() && 0x30 <= s[i + 1] && s[i + 1] <= 0x39 {
            return None;
        }
        return Some((0, i + 1));
    }
    let mut acc: u64 = 0;
    let mut j = i;
    while j < s.len() && 0x30 <= s[j] && s[j] <= 0x39 && acc <= (u64::MAX - ((s[j] - 0x30) as u64))
        / 10
        invariant
            i <= j <= s.len(),
            spec_scan_u64(s@, i as int, 0) == spec_scan_u64(s@, j as int, acc),
        decreases s.len() - j,
    {
        let d = (s[j] - 0x30) as u64;
        acc = acc * 10 + d;
        j = j + 1;
    }
    if j < s.len() && 0x30 <= s[j] && s[j] <= 0x39 {
        // an in-range digit follows but the accumulator would overflow
        return None;
    }
    proof {
        assert(spec_scan_u64(s@, j as int, acc) == Some((acc, j as int)));
    }
    Some((acc, j))
}

/// Whether the literal `true` stands at `i`.
pub open spec fn spec_true_at(s: Seq<u8>, i: int) -> bool {
    0 <= i && i + 4 <= s.len() && s[i] == 0x74 && s[i + 1] == 0x72 && s[i + 2] == 0x75 && s[i + 3]
        == 0x65
}

/// Whether the literal `false` stands at `i`.
pub open spec fn spec_false_at(s: Seq<u8>, i: int) -> bool {
    0 <= i && i + 5 <= s.len() && s[i] == 0x66 && s[i + 1] == 0x61 && s[i + 2] == 0x6c && s[i + 3]
        == 0x73 && s[i + 4] == 0x65
}

/// Whether the literal `null` stands at `i`.
pub open spec fn spec_null_at(s: Seq<u8>, i: int) -> bool {
    0 <= i && i + 4 <= s.len() && s[i] == 0x6e && s[i + 1] == 0x75 && s[i + 2] == 0x6c && s[i + 3]
        == 0x6c
}

/// Whether `null` stands at `i`; yields the position after it.
pub(crate) fn parse_null(s: &Vec<u8>, i: usize) -> (r: Option<usize>)
    requires
        i <= s.len(),
    ensures
        match r {
            Some(j) => spec_null_at(s@, i as int) && j == i + 4 && j <= s.len(),
            None => !spec_null_at(s@, i as int),
        },
{
    if i <= s.len() && s.len() - i >= 4 && s[i] == 0x6e && s[i + 1] == 0x75 && s[i + 2] == 0x6c
        && s[i + 3] == 0x6c {
        Some(i + 4)
    } else {
        None
    }
}

fn true_at(s: &Vec<u8>, i: usize) -> (r: bool)
    requires
        i <= s.len(),
    ensures
        r == spec_true_at(s@, i as int),
{
    s.len() - i >= 4 && s[i] == 0x74 && s[i + 1] == 0x72 && s[i + 2] == 0x75 && s[i + 3] == 0x65
}

fn false_at(s: &Vec<u8>, i: usize) -> (r: bool)
    requires
        i <= s.len(),
    ensures
        r == spec_false_at(s@, i as int),
{
    s.len() - i >= 5 && s[i] == 0x66 && s[i + 1] == 0x61 && s[i + 2] == 0x6c && s[i + 3] == 0x73
        && s[i + 4] == 0x65
}

pub open spec fn is_num_start(b: u8) -> bool {
    b == 0x2d || (0x30 <= b && b <= 0x39)
}

pub open spec fn is_num_byte(b: u8) -> bool {
    (0x30 <= b && b <= 0x39) || b == 0x2b || b == 0x2d || b == 0x2e || b == 0x45 || b == 0x65
}

/// The position after a run of number bytes.  Skipped numbers are consumed
/// structurally, not validated digit by digit.
pub open spec fn spec_skip_number(s: Seq<u8>, i: int) -> int
    decreases s.len() - i,
{
    if 0 <= i < s.len() && is_num_byte(s[i]) {
        spec_skip_number(s, i + 1)
    } else {
        i
    }
}

fn skip_number(s: &Vec<u8>, i: usize) -> (j: usize)
    requires
        i <= s.len(),
    ensures
        j as int == spec_skip_number(s@, i as int),
        i <= j <= s.len(),
{
    let mut j = i;
    while j < s.len() && (0x30 <= s[j] && s[j] <= 0x39 || s[j] == 0x2b || s[j] == 0x2d || s[j]
        == 0x2e || s[j] == 0x45 || s[j] == 0x65)
        invariant
            i <= j <= s.len(),
            spec_skip_number(s@, i as int) == spec_skip_number(s@, j as int),
        decreases s.len() - j,
    {
        j = j + 1;
    }
    j
}

/// The position after the value starting at `i`, for any value of the
/// grammar, with nesting bounded by `depth`.
pub open spec fn spec_skip_value(s: Seq<u8>, i: int, depth: int) -> Option<int>
    decreases s.len() - i, 0int,
{
    if depth <= 0 || i < 0 || i >= s.len() {
        None
    } else if s[i] == 0x22 {
        match spec_parse_string(s, i) {
            Some((b, j)) => Some(j),
            None => None,
        }
    } else if s[i] == 0x7b {
        spec_skip_members(s, i + 1, depth - 1, true)
    } else if s[i] == 0x5b {
        spec_skip_items(s, i + 1, depth - 1, true)
    } else if spec_true_at(s, i) {
        Some(i + 4)
    } else if spec_false_at(s, i) {
        Some(i + 5)
    } else if spec_null_at(s, i) {
        Some(i + 4)
    } else if is_num_start(s[i]) {
        Some(spec_skip_number(s, i + 1))
    } else {
        None
    }
}

/// The position after the remaining members of an object, starting just
/// after `{` or after a separating comma.
pub open spec fn spec_skip_members(s: Seq<u8>, i: int, depth: int, first: bool) -> Option<int>
    decreases s.len() - i, 1int,
{
    if i < 0 || i > s.len() {
        None
    } else {
        let j = spec_skip_ws(s, i);
        if j >= s.len() {
            None
        } else if first && s[j] == 0x7d {
            Some(j + 1)
        } else {
            match spec_parse_string(s, j) {
                Some((_key, k)) => if j < k <= s.len() {
                    let c = spec_skip_ws(s, k);
                    if c < s.len() && s[c] == 0x3a {
                        let v = spec_skip_ws(s, c + 1);
                        if c + 1 <= v <= s.len() {
                            match spec_skip_value(s, v, depth) {
                                Some(w) => if v < w <= s.len() {
                                    let e = spec_skip_ws(s, w);
                                    if e < s.len() && s[e] == 0x7d {
                                        Some(e + 1)
                                    } else if e < s.len() && s[e] == 0x2c && e + 1 > i {
                                        spec_skip_members(s, e + 1, depth, false)
                                    } else {
                                        None
                                    }
                                } else {
                                    None
                                },
                                None => None,
                            }
                        } else {
                            None
                        }
                    } else {
                        None
                    }
                } else {
                    None
                },
                None => None,
            }
        }
    }
}

/// The position after the remaining items of an array, starting just after
/// `[` or after a separating comma.
pub open spec fn spec_skip_items(s: Seq<u8>, i: int, depth: int, first: bool) -> Option<int>
    decreases s.len() - i, 1int,
{
    if i < 0 || i > s.len() {
        None
    } else {
        let j = spec_skip_ws(s, i);
        if j >= s.len() {
            None
        } else if first && s[j] == 0x5d {
            Some(j + 1)
        } else {
            if j < s.len() {
                match spec_skip_value(s, j, depth) {
                    Some(w) => if j < w <= s.len() && i < w {
                        let e = spec_skip_ws(s, w);
                        if e < s.len() && s[e] == 0x5d {
                            Some(e + 1)
                        } else if e < s.len() && s[e] == 0x2c && e + 1 > i {
                            spec_skip_items(s, e + 1, depth, false)
                        } else {
                            None
                        }
                    } else {
                        None
                    },
                    None => None,
                }
            } else {
                None
            }
        }
    }
}

/// Position after the value at `i`, per `spec_skip_value`.
pub(crate) fn skip_value(s: &Vec<u8>, i: usize, depth: u32) -> (r: Option<usize>)
    requires
        i <= s.len(),
    ensures
        match r {
            Some(j) => spec_skip_value(s@, i as int, depth as int) == Some(j as int) && i < j
                <= s.len(),
            None => spec_skip_value(s@, i as int, depth as int) is None,
        },
    decreases depth, 0int,
{
    if depth == 0 || i >= s.len() {
        return None;
    }
    let b = s[i];
    if b == 0x22 {
        match parse_string(s, i) {
            Some((_body, j)) => Some(j),
            None => None,
        }
    } else if b == 0x7b {
        skip_members(s, i + 1, depth - 1)
    } else if b == 0x5b {
        skip_items(s, i + 1, depth - 1)
    } else if true_at(s, i) {
        Some(i + 4)
    } else if false_at(s, i) {
        Some(i + 5)
    } else if parse_null(s, i).is_some() {
        Some(i + 4)
    } else if b == 0x2d || (0x30 <= b && b <= 0x39) {
        Some(skip_number(s, i + 1))
    } else {
        None
    }
}

/// Position after the remaining object members starting at `i`, per
/// `spec_skip_members` with `first` true.
fn skip_members(s: &Vec<u8>, i: usize, depth: u32) -> (r: Option<usize>)
    requires
        i <= s.len(),
    ensures
        match r {
            Some(j) => spec_skip_members(s@, i as int, depth as int, true) == Some(j as int) && i
                < j <= s.len(),
            None => spec_skip_members(s@, i as int, depth as int, true) is None,
        },
    decreases depth, 1int,
{
    let mut cur = i;
    let mut first = true;
    loop
        invariant
            i <= cur <= s.len(),
            spec_skip_members(s@, i as int, depth as int, true) == spec_skip_members(
                s@,
                cur as int,
                depth as int,
                first,
            ),
        decreases s.len() - cur,
    {
        let j = skip_ws(s, cur);
        if j >= s.len() {
            return None;
        }
        if first && s[j] == 0x7d {
            return Some(j + 1);
        }
        match parse_string(s, j) {
            None => {
                return None;
            },
            Some((_key, k)) => {
                let c = skip_ws(s, k);
                if c >= s.len() || s[c] != 0x3a {
                    return None;
                }
                let v = skip_ws(s, c + 1);
                match skip_value(s, v, depth) {
                    None => {
                        return None;
                    },
                    Some(w) => {
                        let e = skip_ws(s, w);
                        if e < s.len() && s[e] == 0x7d {
                            return Some(e + 1);
                        }
                        if e < s.len() && s[e] == 0x2c {
                            cur = e + 1;
                            first = false;
                        } else {
                            return None;
                        }
                    },
                }
            },
        }
    }
}

/// Position after the remaining array items starting at `i`, per
/// `spec_skip_items` with `first` true.
fn skip_items(s: &Vec<u8>, i: usize, depth: u32) -> (r: Option<usize>)
    requires
        i <= s.len(),
    ensures
        match r {
            Some(j) => spec_skip_items(s@, i as int, depth as int, true) == Some(j as int) && i < j
                <= s.len(),
            None => spec_skip_items(s@, i as int, depth as int, true) is None,
        },
    decreases depth, 1int,
{
    let mut cur = i;
    let mut first = true;
    loop
        invariant
            i <= cur <= s.len(),
            spec_skip_items(s@, i as int, depth as int, true) == spec_skip_items(
                s@,
                cur as int,
                depth as int,
                first,
            ),
        decreases s.len() - cur,
    {
        let j = skip_ws(s, cur);
        if j >= s.len() {
            return None;
        }
        if first && s[j] == 0x5d {
            return Some(j + 1);
        }
        match skip_value(s, j, depth) {
            None => {
                return None;
            },
            Some(w) => {
                let e = skip_ws(s, w);
                if e < s.len() && s[e] == 0x5d {
                    return Some(e + 1);
                }
                if e < s.len() && s[e] == 0x2c {
                    cur = e + 1;
                    first = false;
                } else {
                    return None;
                }
            },
        }
    }
}

} // verus!
