//! Text helpers shared by the decoder and the bridge: the whitespace set of
//! `str::trim`, verified trimming, decimal rendering of counters, and the
//! lossy bytes-to-text conversion used for fields that may not be valid UTF-8.

use vstd::prelude::*;
use vstd::string::StrSliceExecFns;
use vstd::utf8::{
    decode_utf8, encode_utf8, encode_utf8_decode_utf8, encode_utf8_valid_utf8, is_ascii_chars,
    is_ascii_chars_encode_utf8, valid_utf8,
};

verus! {

/// The code points that `str::trim` removes (the Unicode `White_Space` set).
pub open spec fn is_ws_code(u: u32) -> bool {
    ||| (0x09 <= u && u <= 0x0d)
    ||| u == 0x20
    ||| u == 0x85
    ||| u == 0xa0
    ||| u == 0x1680
    ||| (0x2000 <= u && u <= 0x200a)
    ||| u == 0x2028
    ||| u == 0x2029
    ||| u == 0x202f
    ||| u == 0x205f
    ||| u == 0x3000
}

pub open spec fn is_ws_char(c: char) -> bool {
    is_ws_code(c as u32)
}

/// Whether `c` is whitespace in the sense of `str::trim`.
pub fn is_ws(c: char) -> (r: bool)
    ensures
        r == is_ws_char(c),
{
    let u = c as u32;
    (0x09 <= u && u <= 0x0d) || u == 0x20 || u == 0x85 || u == 0xa0 || u == 0x1680 || (0x2000 <= u
        && u <= 0x200a) || u == 0x2028 || u == 0x2029 || u == 0x202f || u == 0x205f || u == 0x3000
}

/// `s` with all trailing whitespace removed.
pub open spec fn spec_trim_end(s: Seq<char>) -> Seq<char>
    decreases s.len(),
{
    if s.len() == 0 {
        s
    } else if is_ws_char(s.last()) {
        spec_trim_end(s.drop_last())
    } else {
        s
    }
}

/// `s` with all leading whitespace removed.
pub open spec fn spec_trim_start(s: Seq<char>) -> Seq<char>
    decreases s.len(),
{
    if s.len() == 0 {
        s
    } else if is_ws_char(s[0]) {
        spec_trim_start(s.drop_first())
    } else {
        s
    }
}

/// `s` with leading and trailing whitespace removed, as `str::trim` leaves it.
pub open spec fn spec_trim(s: Seq<char>) -> Seq<char> {
    spec_trim_start(spec_trim_end(s))
}

/// A trimmed-at-the-end string never ends in whitespace; in particular it
/// never ends in a line-ending character.
pub proof fn lemma_trim_end_no_trailing_ws(s: Seq<char>)
    ensures
        spec_trim_end(s).len() > 0 ==> !is_ws_char(spec_trim_end(s).last()),
    decreases s.len(),
{
    if s.len() > 0 && is_ws_char(s.last()) {
        lemma_trim_end_no_trailing_ws(s.drop_last());
    }
}

pub proof fn lemma_trim_start_no_leading_ws(s: Seq<char>)
    ensures
        spec_trim_start(s).len() > 0 ==> !is_ws_char(spec_trim_start(s)[0]),
    decreases s.len(),
{
    if s.len() > 0 && is_ws_char(s[0]) {
        lemma_trim_start_no_leading_ws(s.drop_first());
    }
}

/// Copy of `s` without its trailing whitespace.
pub fn trim_end_str(s: &str) -> (r: String)
    ensures
        r@ == spec_trim_end(s@),
{
    let n = s.unicode_len();
    let mut end: usize = n;
    proof {
        assert(s@.take(n as int) =~= s@);
    }
    while end > 0 && is_ws(s.get_char(end - 1))
        invariant
            end <= n,
            n == s@.len(),
            spec_trim_end(s@) == spec_trim_end(s@.take(end as int)),
        decreases end,
    {
        proof {
            assert(s@.take(end as int).drop_last() =~= s@.take(end - 1));
        }
        end = end - 1;
    }
    proof {
        if end > 0 {
            assert(s@.take(end as int).last() == s@[end - 1]);
        }
        assert(s@.subrange(0, end as int) =~= s@.take(end as int));
    }
    s.substring_char(0, end).to_owned()
}

/// Copy of `s` without leading or trailing whitespace.
pub fn trim_str(s: &str) -> (r: String)
    ensures
        r@ == spec_trim(s@),
{
    let n = s.unicode_len();
    let mut end: usize = n;
    proof {
        assert(s@.take(n as int) =~= s@);
    }
    while end > 0 && is_ws(s.get_char(end - 1))
        invariant
            end <= n,
            n == s@.len(),
            spec_trim_end(s@) == spec_trim_end(s@.take(end as int)),
        decreases end,
    {
        proof {
            assert(s@.take(end as int).drop_last() =~= s@.take(end - 1));
        }
        end = end - 1;
    }
    proof {
        if end > 0 {
            assert(s@.take(end as int).last() == s@[end - 1]);
        }
        assert(spec_trim_end(s@) == s@.take(end as int));
    }
    let mut start: usize = 0;
    while start < end && is_ws(s.get_char(start))
        invariant
            start <= end <= n,
            n == s@.len(),
            spec_trim_end(s@) == s@.take(end as int),
            spec_trim_start(s@.take(end as int)) == spec_trim_start(
                s@.subrange(start as int, end as int),
            ),
        decreases end - start,
    {
        proof {
            assert(s@.subrange(start as int, end as int).drop_first() =~= s@.subrange(
                start + 1,
                end as int,
            ));
            assert(s@.subrange(start as int, end as int)[0] == s@[start as int]);
        }
        start = start + 1;
    }
    proof {
        if start < end {
            assert(s@.subrange(start as int, end as int)[0] == s@[start as int]);
        }
        assert(spec_trim_start(s@.subrange(start as int, end as int)) == s@.subrange(
            start as int,
            end as int,
        ));
    }
    s.substring_char(start, end).to_owned()
}

/// What `String::from_utf8_lossy` turns a byte sequence into.  The exact
/// replacement of ill-formed sequences is not modelled; the facts the library
/// relies on are stated on the wrapper below.
pub uninterp spec fn lossy_decode(bytes: Seq<u8>) -> Seq<char>;

/// Relies on `String::from_utf8_lossy`: the result is a pure function of the
/// bytes; well-formed UTF-8 input decodes to exactly its scalar sequence
/// (vstd's `decode_utf8` model of the documented conversion), and empty input
/// gives an empty string.
#[verifier::external_body]
pub fn lossy_string(bytes: &Vec<u8>) -> (r: String)
    ensures
        r@ == lossy_decode(bytes@),
        valid_utf8(bytes@) ==> r@ == decode_utf8(bytes@),
        bytes@.len() == 0 ==> r@.len() == 0,
{
    String::from_utf8_lossy(bytes.as_slice()).into_owned()
}

/// Relies on `String::push_str`: appends the second string's characters after
/// the first's.
#[verifier::external_body]
pub fn concat_str(a: &str, b: &str) -> (r: String)
    ensures
        r@ == a@ + b@,
{
    let mut r = a.to_owned();
    r.push_str(b);
    r
}

/// A field of the search tool's output that is either printable text or a raw
/// byte sequence (emitted when the underlying data is not valid text).
pub enum TextOrBytes {
    Text(String),
    Bytes(Vec<u8>),
}

pub enum TextOrBytesV {
    Text(Seq<char>),
    Bytes(Seq<u8>),
}

impl View for TextOrBytes {
    type V = TextOrBytesV;

    open spec fn view(&self) -> TextOrBytesV {
        match self {
            TextOrBytes::Text(s) => TextOrBytesV::Text(s@),
            TextOrBytes::Bytes(b) => TextOrBytesV::Bytes(b@),
        }
    }
}

/// The single display form of a text-or-bytes field: text is kept, raw bytes
/// are converted lossily (never rejected).
pub open spec fn spec_to_string_lossy(t: TextOrBytesV) -> Seq<char> {
    match t {
        TextOrBytesV::Text(s) => s,
        TextOrBytesV::Bytes(b) => lossy_decode(b),
    }
}

impl TextOrBytes {
    /// Best-effort text form of the field.
    pub fn to_string_lossy(&self) -> (r: String)
        ensures
            r@ == spec_to_string_lossy(self@),
    {
        match self {
            TextOrBytes::Text(s) => s.as_str().to_owned(),
            TextOrBytes::Bytes(b) => lossy_string(b),
        }
    }
}

/// The ASCII digit bytes of `n` written in decimal, without the special case
/// for zero.
pub open spec fn spec_u64_digits(n: int) -> Seq<u8>
    decreases n,
{
    if n <= 0 {
        seq![]
    } else {
        spec_u64_digits(n / 10).push((n % 10 + 48) as u8)
    }
}

/// The ASCII digit bytes of `n` written in decimal.
pub open spec fn spec_u64_bytes(n: int) -> Seq<u8> {
    if n == 0 {
        seq![48u8]
    } else {
        spec_u64_digits(n)
    }
}

/// The decimal rendering of `n`, as characters.
pub open spec fn spec_u64_string(n: int) -> Seq<char> {
    Seq::new(spec_u64_bytes(n).len(), |i: int| spec_u64_bytes(n)[i] as char)
}

proof fn lemma_u64_digits_ascii(n: int)
    ensures
        forall|i: int|
            0 <= i < spec_u64_digits(n).len() ==> 48 <= #[trigger] spec_u64_digits(n)[i] <= 57,
    decreases n,
{
    if n > 0 {
        lemma_u64_digits_ascii(n / 10);
        let pre = spec_u64_digits(n / 10);
        let s = spec_u64_digits(n);
        assert forall|i: int| 0 <= i < s.len() implies 48 <= #[trigger] s[i] <= 57 by {
            if i < pre.len() {
                assert(s[i] == pre[i]);
            } else {
                assert(s[i] == (n % 10 + 48) as u8);
            }
        }
    }
}

/// Bytes below 0x80 form valid UTF-8 and decode one byte per character.
pub proof fn lemma_ascii_bytes_decode(b: Seq<u8>)
    requires
        forall|i: int| 0 <= i < b.len() ==> #[trigger] b[i] < 0x80,
    ensures
        valid_utf8(b),
        decode_utf8(b) == Seq::new(b.len(), |i: int| b[i] as char),
{
    let chars = Seq::new(b.len(), |i: int| b[i] as char);
    assert(is_ascii_chars(chars)) by {
        assert forall|i| 0 <= i < chars.len() implies '\0' <= #[trigger] chars[i] <= '\u{7f}' by {
            assert(chars[i] as u32 == b[i]);
        }
    }
    is_ascii_chars_encode_utf8(chars);
    assert(encode_utf8(chars) =~= b);
    encode_utf8_valid_utf8(chars);
    encode_utf8_decode_utf8(chars);
}

fn push_u64_digits(n: u64, out: &mut Vec<u8>)
    ensures
        final(out)@ == old(out)@ + spec_u64_digits(n as int),
    decreases n,
{
    if n > 0 {
        push_u64_digits(n / 10, out);
        out.push((n % 10) as u8 + 48);
        proof {
            assert(out@ =~= old(out)@ + spec_u64_digits(n as int));
        }
    } else {
        proof {
            assert(out@ =~= old(out)@ + spec_u64_digits(n as int));
        }
    }
}

/// The decimal rendering of `n`.
pub fn u64_to_string(n: u64) -> (r: String)
    ensures
        r@ == spec_u64_string(n as int),
{
    let mut digits: Vec<u8> = Vec::new();
    if n == 0 {
        digits.push(48);
    } else {
        push_u64_digits(n, &mut digits);
    }
    proof {
        assert(digits@ =~= spec_u64_bytes(n as int));
        lemma_u64_digits_ascii(n as int);
        lemma_ascii_bytes_decode(digits@);
    }
    let r = lossy_string(&digits);
    proof {
        assert(r@ =~= spec_u64_string(n as int));
    }
    r
}

} // verus!
