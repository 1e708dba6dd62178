//! The search tool's record schema: typed forms of the five record kinds its
//! line-delimited JSON output carries, and verified parsers from one line's
//! bytes into them.
//!
//! Objects are read order-independently; unrecognised fields are skipped;
//! a field given twice, a missing required field, or an unknown tag rejects
//! the line.

use vstd::prelude::*;
use vstd::utf8::encode_utf8;

use crate::json::{
    parse_null, parse_string, parse_u64, skip_value, skip_ws, spec_null_at, spec_parse_string,
    spec_parse_u64, spec_skip_value, spec_skip_ws, SKIP_DEPTH,
};
use crate::text::{lossy_decode, lossy_string, TextOrBytes, TextOrBytesV};

verus! {

/// View of an `Option` of a viewable type.
pub open spec fn view_opt<T: View>(o: Option<T>) -> Option<T::V> {
    match o {
        Some(t) => Some(t@),
        None => None,
    }
}

/// A file path as the tool reports it.
pub struct PathData {
    pub text_or_bytes: TextOrBytes,
}

pub struct PathDataV {
    pub text_or_bytes: TextOrBytesV,
}

impl View for PathData {
    type V = PathDataV;

    open spec fn view(&self) -> PathDataV {
        PathDataV { text_or_bytes: self.text_or_bytes@ }
    }
}

/// Line or match text as the tool reports it.
pub struct TextData {
    pub text_or_bytes: TextOrBytes,
}

pub struct TextDataV {
    pub text_or_bytes: TextOrBytesV,
}

impl View for TextData {
    type V = TextDataV;

    open spec fn view(&self) -> TextDataV {
        TextDataV { text_or_bytes: self.text_or_bytes@ }
    }
}

/// One sub-match span within a matched line.
pub struct SubMatch {
    pub m: TextData,
    pub start: u64,
    pub end: u64,
}

pub struct SubMatchV {
    pub m: TextDataV,
    pub start: u64,
    pub end: u64,
}

impl View for SubMatch {
    type V = SubMatchV;

    open spec fn view(&self) -> SubMatchV {
        SubMatchV { m: self.m@, start: self.start, end: self.end }
    }
}

/// Timing figures attached to statistics records.
pub struct DurationData {
    pub secs: u64,
    pub nanos: u32,
    pub human: String,
}

pub struct DurationDataV {
    pub secs: u64,
    pub nanos: u32,
    pub human: Seq<char>,
}

impl View for DurationData {
    type V = DurationDataV;

    open spec fn view(&self) -> DurationDataV {
        DurationDataV { secs: self.secs, nanos: self.nanos, human: self.human@ }
    }
}

/// Search statistics attached to end and summary records.
pub struct Stats {
    pub elapsed: DurationData,
    pub searches: u64,
    pub searches_with_match: u64,
    pub bytes_searched: u64,
    pub bytes_printed: u64,
    pub matched_lines: u64,
    pub matches: u64,
}

pub struct StatsV {
    pub elapsed: DurationDataV,
    pub searches: u64,
    pub searches_with_match: u64,
    pub bytes_searched: u64,
    pub bytes_printed: u64,
    pub matched_lines: u64,
    pub matches: u64,
}

impl View for Stats {
    type V = StatsV;

    open spec fn view(&self) -> StatsV {
        StatsV {
            elapsed: self.elapsed@,
            searches: self.searches,
            searches_with_match: self.searches_with_match,
            bytes_searched: self.bytes_searched,
            bytes_printed: self.bytes_printed,
            matched_lines: self.matched_lines,
            matches: self.matches,
        }
    }
}

/// The record opening a searched file's results.
pub struct Begin {
    pub path: Option<PathData>,
}

pub struct BeginV {
    pub path: Option<PathDataV>,
}

impl View for Begin {
    type V = BeginV;

    open spec fn view(&self) -> BeginV {
        BeginV { path: view_opt(self.path) }
    }
}

/// A matched line record.
pub struct Match {
    pub path: PathData,
    pub lines: TextData,
    pub line_number: Option<u64>,
    pub absolute_offset: u64,
    pub submatches: Vec<SubMatch>,
}

pub struct MatchV {
    pub path: PathDataV,
    pub lines: TextDataV,
    pub line_number: Option<u64>,
    pub absolute_offset: u64,
    pub submatches: Seq<SubMatchV>,
}

impl View for Match {
    type V = MatchV;

    open spec fn view(&self) -> MatchV {
        MatchV {
            path: self.path@,
            lines: self.lines@,
            line_number: self.line_number,
            absolute_offset: self.absolute_offset,
            submatches: self.submatches@.map_values(|sm: SubMatch| sm@),
        }
    }
}

/// The record closing a searched file's results.
pub struct End {
    pub path: Option<PathData>,
    pub binary_offset: Option<u64>,
    pub stats: Stats,
}

pub struct EndV {
    pub path: Option<PathDataV>,
    pub binary_offset: Option<u64>,
    pub stats: StatsV,
}

impl View for End {
    type V = EndV;

    open spec fn view(&self) -> EndV {
        EndV { path: view_opt(self.path), binary_offset: self.binary_offset, stats: self.stats@ }
    }
}

/// A context line record around a match.
pub struct Context {
    pub path: PathData,
    pub lines: TextData,
    pub line_number: Option<u64>,
    pub absolute_offset: u64,
    pub submatches: Vec<SubMatch>,
}

pub struct ContextV {
    pub path: PathDataV,
    pub lines: TextDataV,
    pub line_number: Option<u64>,
    pub absolute_offset: u64,
    pub submatches: Seq<SubMatchV>,
}

impl View for Context {
    type V = ContextV;

    open spec fn view(&self) -> ContextV {
        ContextV {
            path: self.path@,
            lines: self.lines@,
            line_number: self.line_number,
            absolute_offset: self.absolute_offset,
            submatches: self.submatches@.map_values(|sm: SubMatch| sm@),
        }
    }
}

/// The record closing a whole search run.
pub struct Summary {
    pub elapsed_total: DurationData,
    pub stats: Stats,
}

pub struct SummaryV {
    pub elapsed_total: DurationDataV,
    pub stats: StatsV,
}

impl View for Summary {
    type V = SummaryV;

    open spec fn view(&self) -> SummaryV {
        SummaryV { elapsed_total: self.elapsed_total@, stats: self.stats@ }
    }
}

/// One decoded line of the tool's output: a tagged record of one of the five
/// kinds the tool emits.
pub enum RawRecord {
    Begin(Begin),
    Match(Match),
    End(End),
    Context(Context),
    Summary(Summary),
}

pub enum RawRecordV {
    Begin(BeginV),
    Match(MatchV),
    End(EndV),
    Context(ContextV),
    Summary(SummaryV),
}

impl View for RawRecord {
    type V = RawRecordV;

    open spec fn view(&self) -> RawRecordV {
        match self {
            RawRecord::Begin(r) => RawRecordV::Begin(r@),
            RawRecord::Match(r) => RawRecordV::Match(r@),
            RawRecord::End(r) => RawRecordV::End(r@),
            RawRecord::Context(r) => RawRecordV::Context(r@),
            RawRecord::Summary(r) => RawRecordV::Summary(r@),
        }
    }
}

/// Whether the contents of `a` are exactly the bytes of `b`.
fn bytes_eq(a: &Vec<u8>, b: &[u8]) -> (r: bool)
    ensures
        r == (a@ == b@),
{
    if a.len() != b.len() {
        proof {
            assert(a@ != b@);
        }
        return false;
    }
    let n = a.len();
    let mut i: usize = 0;
    while i < n
        invariant
            i <= n,
            n == a@.len() == b@.len(),
            forall|k: int| 0 <= k < i ==> a@[k] == b@[k],
        decreases n - i,
    {
        if a[i] != b[i] {
            proof {
                assert(a@[i as int] != b@[i as int]);
            }
            return false;
        }
        i = i + 1;
    }
    proof {
        assert(a@ =~= b@);
    }
    true
}

/// The items of a JSON array of byte values, each an integer up to 255,
/// starting just after `[` or after a comma, with `acc` already gathered.
pub open spec fn spec_byte_items(s: Seq<u8>, i: int, acc: Seq<u8>, first: bool) -> Option<
    (Seq<u8>, int),
>
    decreases s.len() - i,
{
    if i < 0 || i > s.len() {
        None
    } else {
        let j = spec_skip_ws(s, i);
        if j >= s.len() {
            None
        } else if first && s[j] == 0x5d {
            Some((acc, j + 1))
        } else {
            match spec_parse_u64(s, j) {
                Some((v, k)) => if j < k <= s.len() && v <= 255 {
                    let e = spec_skip_ws(s, k);
                    if e < s.len() && s[e] == 0x5d {
                        Some((acc.push(v as u8), e + 1))
                    } else if e < s.len() && s[e] == 0x2c {
                        spec_byte_items(s, e + 1, acc.push(v as u8), false)
                    } else {
                        None
                    }
                } else {
                    None
                },
                None => None,
            }
        }
    }
}

fn parse_byte_items(s: &Vec<u8>, i: usize) -> (r: Option<(Vec<u8>, usize)>)
    requires
        i <= s.len(),
    ensures
        match r {
            Some((b, j)) => spec_byte_items(s@, i as int, Seq::empty(), true) == Some(
                (b@, j as int),
            ) && i < j <= s.len(),
            None => spec_byte_items(s@, i as int, Seq::empty(), true) is None,
        },
{
    let mut acc: Vec<u8> = Vec::new();
    let mut cur = i;
    let mut first = true;
    proof {
        assert(acc@ =~= Seq::<u8>::empty());
    }
    loop
        invariant
            i <= cur <= s.len(),
            spec_byte_items(s@, i as int, Seq::empty(), true) == spec_byte_items(
                s@,
                cur as int,
                acc@,
                first,
            ),
        decreases s.len() - cur,
    {
        let j = skip_ws(s, cur);
        if j >= s.len() {
            return None;
        }
        if first && s[j] == 0x5d {
            return Some((acc, j + 1));
        }
        match parse_u64(s, j) {
            None => {
                return None;
            },
            Some((v, k)) => {
                if v > 255 {
                    return None;
                }
                let e = skip_ws(s, k);
                if e < s.len() && s[e] == 0x5d {
                    acc.push(v as u8);
                    return Some((acc, e + 1));
                }
                if e < s.len() && s[e] == 0x2c {
                    acc.push(v as u8);
                    cur = e + 1;
                    first = false;
                } else {
                    return None;
                }
            },
        }
    }
}

/// A text-or-bytes object: `{"text": <string>}` or `{"bytes": [<bytes>]}`.
/// Text is taken in its single lossy display form.
pub open spec fn spec_parse_tob(s: Seq<u8>, i: int) -> Option<(TextOrBytesV, int)> {
    if 0 <= i < s.len() && s[i] == 0x7b {
        let j = spec_skip_ws(s, i + 1);
        match spec_parse_string(s, j) {
            Some((key, k)) => if j < k <= s.len() {
                let c = spec_skip_ws(s, k);
                if c < s.len() && s[c] == 0x3a {
                    let v = spec_skip_ws(s, c + 1);
                    if key == encode_utf8("text"@) {
                        match spec_parse_string(s, v) {
                            Some((content, w)) => if v < w <= s.len() {
                                let e = spec_skip_ws(s, w);
                                if e < s.len() && s[e] == 0x7d {
                                    Some((TextOrBytesV::Text(lossy_decode(content)), e + 1))
                                } else {
                                    None
                                }
                            } else {
                                None
                            },
                            None => None,
                        }
                    } else if key == encode_utf8("bytes"@) {
                        if v < s.len() && s[v] == 0x5b {
                            match spec_byte_items(s, v + 1, Seq::empty(), true) {
                                Some((bs, w)) => if v < w <= s.len() {
                                    let e = spec_skip_ws(s, w);
                                    if e < s.len() && s[e] == 0x7d {
                                        Some((TextOrBytesV::Bytes(bs), e + 1))
                                    } else {
                                        None
                                    }
                                } else {
                                    None
                                },
                                None => None,
                            }
                        } else {
                            None
                        }
                    } else {
                        None
                    }
                } else {
                    None
                }
            } else {
                None
            },
            None => None,
        }
    } else {
        None
    }
}

fn parse_tob(s: &Vec<u8>, i: usize) -> (r: Option<(TextOrBytes, usize)>)
    requires
        i <= s.len(),
    ensures
        match r {
            Some((t, j)) => spec_parse_tob(s@, i as int) == Some((t@, j as int)) && i < j
                <= s.len(),
            None => spec_parse_tob(s@, i as int) is None,
        },
{
    if i >= s.len() || s[i] != 0x7b {
        return None;
    }
    let j = skip_ws(s, i + 1);
    match parse_string(s, j) {
        None => None,
        Some((key, k)) => {
            let c = skip_ws(s, k);
            if c >= s.len() || s[c] != 0x3a {
                return None;
            }
            let v = skip_ws(s, c + 1);
            if bytes_eq(&key, "text".as_bytes()) {
                match parse_string(s, v) {
                    None => None,
                    Some((content, w)) => {
                        let e = skip_ws(s, w);
                        if e < s.len() && s[e] == 0x7d {
                            let txt = lossy_string(&content);
                            Some((TextOrBytes::Text(txt), e + 1))
                        } else {
                            None
                        }
                    },
                }
            } else if bytes_eq(&key, "bytes".as_bytes()) {
                if v < s.len() && s[v] == 0x5b {
                    match parse_byte_items(s, v + 1) {
                        None => None,
                        Some((bs, w)) => {
                            let e = skip_ws(s, w);
                            if e < s.len() && s[e] == 0x7d {
                                Some((TextOrBytes::Bytes(bs), e + 1))
                            } else {
                                None
                            }
                        },
                    }
                } else {
                    None
                }
            } else {
                None
            }
        },
    }
}

/// Gathered fields of a sub-match object while its members are walked.
pub struct SubAccV {
    pub m: Option<TextDataV>,
    pub start: Option<u64>,
    pub end: Option<u64>,
}

/// One field of a sub-match object: the accumulator after it and the
/// position after its value.  A field given twice rejects; an unrecognised
/// field is skipped.
pub open spec fn spec_submatch_field(s: Seq<u8>, v: int, acc: SubAccV, key: Seq<u8>) -> Option<
    (SubAccV, int),
> {
    if key == encode_utf8("match"@) {
        if acc.m is Some {
            None
        } else {
            match spec_parse_tob(s, v) {
                Some((t, w)) => Some((SubAccV { m: Some(TextDataV { text_or_bytes: t }), ..acc }, w)),
                None => None,
            }
        }
    } else if key == encode_utf8("start"@) {
        if acc.start is Some {
            None
        } else {
            match spec_parse_u64(s, v) {
                Some((x, w)) => Some((SubAccV { start: Some(x), ..acc }, w)),
                None => None,
            }
        }
    } else if key == encode_utf8("end"@) {
        if acc.end is Some {
            None
        } else {
            match spec_parse_u64(s, v) {
                Some((x, w)) => Some((SubAccV { end: Some(x), ..acc }, w)),
                None => None,
            }
        }
    } else {
        match spec_skip_value(s, v, SKIP_DEPTH as int) {
            Some(w) => Some((acc, w)),
            None => None,
        }
    }
}

pub open spec fn spec_submatch_finish(acc: SubAccV, pos: int) -> Option<(SubMatchV, int)> {
    match (acc.m, acc.start, acc.end) {
        (Some(m), Some(st), Some(en)) => Some((SubMatchV { m, start: st, end: en }, pos)),
        _ => None,
    }
}

/// The members of a sub-match object, starting just after `{` or a comma.
pub open spec fn spec_submatch_members(s: Seq<u8>, i: int, acc: SubAccV, first: bool) -> Option<
    (SubMatchV, int),
>
    decreases s.len() - i,
{
    if i < 0 || i > s.len() {
        None
    } else {
        let j = spec_skip_ws(s, i);
        if j >= s.len() {
            None
        } else if first && s[j] == 0x7d {
            spec_submatch_finish(acc, j + 1)
        } else {
            match spec_parse_string(s, j) {
                Some((key, k)) => if j < k <= s.len() {
                    let c = spec_skip_ws(s, k);
                    if c < s.len() && s[c] == 0x3a {
                        let v = spec_skip_ws(s, c + 1);
                        if v <= s.len() {
                            match spec_submatch_field(s, v, acc, key) {
                                Some((acc2, w)) => if v < w <= s.len() {
                                    let e = spec_skip_ws(s, w);
                                    if e < s.len() && s[e] == 0x7d {
                                        spec_submatch_finish(acc2, e + 1)
                                    } else if e < s.len() && s[e] == 0x2c {
                                        spec_submatch_members(s, e + 1, acc2, false)
                                    } else {
                                        None
                                    }
                                } else {
                                    None
                                },
                                None => None,
                            }
                        } else {
                            None
                        }
                    } else {
                        None
                    }
                } else {
                    None
                },
                None => None,
            }
        }
    }
}

/// A sub-match object starting at `i`.
pub open spec fn spec_parse_submatch(s: Seq<u8>, i: int) -> Option<(SubMatchV, int)> {
    if 0 <= i < s.len() && s[i] == 0x7b {
        spec_submatch_members(s, i + 1, SubAccV { m: None, start: None, end: None }, true)
    } else {
        None
    }
}

fn parse_submatch(s: &Vec<u8>, i: usize) -> (r: Option<(SubMatch, usize)>)
    requires
        i <= s.len(),
    ensures
        match r {
            Some((sm, j)) => spec_parse_submatch(s@, i as int) == Some((sm@, j as int)) && i < j
                <= s.len(),
            None => spec_parse_submatch(s@, i as int) is None,
        },
{
    if i >= s.len() || s[i] != 0x7b {
        return None;
    }
    let mut cur = i + 1;
    let mut first = true;
    let mut acc_m: Option<TextData> = None;
    let mut acc_start: Option<u64> = None;
    let mut acc_end: Option<u64> = None;
    loop
        invariant
            i + 1 <= cur <= s.len(),
            spec_parse_submatch(s@, i as int) == spec_submatch_members(
                s@,
                cur as int,
                SubAccV { m: view_opt(acc_m), start: acc_start, end: acc_end },
                first,
            ),
        decreases s.len() - cur,
    {
        let j = skip_ws(s, cur);
        if j >= s.len() {
            return None;
        }
        if first && s[j] == 0x7d {
            match (acc_m, acc_start, acc_end) {
                (Some(m), Some(st), Some(en)) => {
                    return Some((SubMatch { m, start: st, end: en }, j + 1));
                },
                _ => {
                    return None;
                },
            }
        }
        match parse_string(s, j) {
            None => {
                return None;
            },
            Some((key, k)) => {
                let c = skip_ws(s, k);
                if c >= s.len() || s[c] != 0x3a {
                    return None;
                }
                let v = skip_ws(s, c + 1);
                let w: usize;
                if bytes_eq(&key, "match".as_bytes()) {
                    if acc_m.is_some() {
                        return None;
                    }
                    match parse_tob(s, v) {
                        Some((t, w2)) => {
                            acc_m = Some(TextData { text_or_bytes: t });
                            w = w2;
                        },
                        None => {
                            return None;
                        },
                    }
                } else if bytes_eq(&key, "start".as_bytes()) {
                    if acc_start.is_some() {
                        return None;
                    }
                    match parse_u64(s, v) {
                        Some((x, w2)) => {
                            acc_start = Some(x);
                            w = w2;
                        },
                        None => {
                            return None;
                        },
                    }
                } else if bytes_eq(&key, "end".as_bytes()) {
                    if acc_end.is_some() {
                        return None;
                    }
                    match parse_u64(s, v) {
                        Some((x, w2)) => {
                            acc_end = Some(x);
                            w = w2;
                        },
                        None => {
                            return None;
                        },
                    }
                } else {
                    match skip_value(s, v, SKIP_DEPTH) {
                        Some(w2) => {
                            w = w2;
                        },
                        None => {
                            return None;
                        },
                    }
                }
                let e = skip_ws(s, w);
                if e < s.len() && s[e] == 0x7d {
                    match (acc_m, acc_start, acc_end) {
                        (Some(m), Some(st), Some(en)) => {
                            return Some((SubMatch { m, start: st, end: en }, e + 1));
                        },
                        _ => {
                            return None;
                        },
                    }
                }
                if e < s.len() && s[e] == 0x2c {
                    cur = e + 1;
                    first = false;
                } else {
                    return None;
                }
            },
        }
    }
}

/// The items of the sub-match array, starting just after `[` or a comma.
pub open spec fn spec_submatch_items(s: Seq<u8>, i: int, acc: Seq<SubMatchV>, first: bool) -> Option<
    (Seq<SubMatchV>, int),
>
    decreases s.len() - i,
{
    if i < 0 || i > s.len() {
        None
    } else {
        let j = spec_skip_ws(s, i);
        if j >= s.len() {
            None
        } else if first && s[j] == 0x5d {
            Some((acc, j + 1))
        } else {
            match spec_parse_submatch(s, j) {
                Some((sm, k)) => if j < k <= s.len() {
                    let e = spec_skip_ws(s, k);
                    if e < s.len() && s[e] == 0x5d {
                        Some((acc.push(sm), e + 1))
                    } else if e < s.len() && s[e] == 0x2c {
                        spec_submatch_items(s, e + 1, acc.push(sm), false)
                    } else {
                        None
                    }
                } else {
                    None
                },
                None => None,
            }
        }
    }
}

/// The sub-match array starting at `i`.
pub open spec fn spec_parse_submatches(s: Seq<u8>, i: int) -> Option<(Seq<SubMatchV>, int)> {
    if 0 <= i < s.len() && s[i] == 0x5b {
        spec_submatch_items(s, i + 1, Seq::empty(), true)
    } else {
        None
    }
}

fn parse_submatches(s: &Vec<u8>, i: usize) -> (r: Option<(Vec<SubMatch>, usize)>)
    requires
        i <= s.len(),
    ensures
        match r {
            Some((sms, j)) => spec_parse_submatches(s@, i as int) == Some(
                (sms@.map_values(|sm: SubMatch| sm@), j as int),
            ) && i < j <= s.len(),
            None => spec_parse_submatches(s@, i as int) is None,
        },
{
    if i >= s.len() || s[i] != 0x5b {
        return None;
    }
    let mut acc: Vec<SubMatch> = Vec::new();
    let mut cur = i + 1;
    let mut first = true;
    proof {
        assert(acc@.map_values(|sm: SubMatch| sm@) =~= Seq::<SubMatchV>::empty());
    }
    loop
        invariant
            i + 1 <= cur <= s.len(),
            spec_parse_submatches(s@, i as int) == spec_submatch_items(
                s@,
                cur as int,
                acc@.map_values(|sm: SubMatch| sm@),
                first,
            ),
        decreases s.len() - cur,
    {
        let j = skip_ws(s, cur);
        if j >= s.len() {
            return None;
        }
        if first && s[j] == 0x5d {
            return Some((acc, j + 1));
        }
        match parse_submatch(s, j) {
            None => {
                return None;
            },
            Some((sm, k)) => {
                let e = skip_ws(s, k);
                if e < s.len() && s[e] == 0x5d {
                    let ghost pre = acc@.map_values(|x: SubMatch| x@);
                    acc.push(sm);
                    proof {
                        assert(acc@.map_values(|x: SubMatch| x@) =~= pre.push(sm@));
                    }
                    return Some((acc, e + 1));
                }
                if e < s.len() && s[e] == 0x2c {
                    let ghost pre = acc@.map_values(|x: SubMatch| x@);
                    acc.push(sm);
                    proof {
                        assert(acc@.map_values(|x: SubMatch| x@) =~= pre.push(sm@));
                    }
                    cur = e + 1;
                    first = false;
                } else {
                    return None;
                }
            },
        }
    }
}

/// Gathered fields of a match (or context) payload while it is walked.
pub struct MatchAccV {
    pub path: Option<PathDataV>,
    pub lines: Option<TextDataV>,
    pub ln_seen: bool,
    pub ln: Option<u64>,
    pub off: Option<u64>,
    pub subs: Option<Seq<SubMatchV>>,
}

/// One field of a match payload.  `line_number` may be `null`; unrecognised
/// fields are skipped; a field given twice rejects.
pub open spec fn spec_match_field(s: Seq<u8>, v: int, acc: MatchAccV, key: Seq<u8>) -> Option<
    (MatchAccV, int),
> {
    if key == encode_utf8("path"@) {
        if acc.path is Some {
            None
        } else {
            match spec_parse_tob(s, v) {
                Some((t, w)) => Some(
                    (MatchAccV { path: Some(PathDataV { text_or_bytes: t }), ..acc }, w),
                ),
                None => None,
            }
        }
    } else if key == encode_utf8("lines"@) {
        if acc.lines is Some {
            None
        } else {
            match spec_parse_tob(s, v) {
                Some((t, w)) => Some(
                    (MatchAccV { lines: Some(TextDataV { text_or_bytes: t }), ..acc }, w),
                ),
                None => None,
            }
        }
    } else if key == encode_utf8("line_number"@) {
        if acc.ln_seen {
            None
        } else if spec_null_at(s, v) {
            Some((MatchAccV { ln_seen: true, ln: None, ..acc }, v + 4))
        } else {
            match spec_parse_u64(s, v) {
                Some((x, w)) => Some((MatchAccV { ln_seen: true, ln: Some(x), ..acc }, w)),
                None => None,
            }
        }
    } else if key == encode_utf8("absolute_offset"@) {
        if acc.off is Some {
            None
        } else {
            match spec_parse_u64(s, v) {
                Some((x, w)) => Some((MatchAccV { off: Some(x), ..acc }, w)),
                None => None,
            }
        }
    } else if key == encode_utf8("submatches"@) {
        if acc.subs is Some {
            None
        } else {
            match spec_parse_submatches(s, v) {
                Some((sms, w)) => Some((MatchAccV { subs: Some(sms), ..acc }, w)),
                None => None,
            }
        }
    } else {
        match spec_skip_value(s, v, SKIP_DEPTH as int) {
            Some(w) => Some((acc, w)),
            None => None,
        }
    }
}

pub open spec fn spec_match_finish(acc: MatchAccV, pos: int) -> Option<(MatchV, int)> {
    match (acc.path, acc.lines, acc.off, acc.subs) {
        (Some(p), Some(l), Some(o), Some(sms)) => Some(
            (
                MatchV {
                    path: p,
                    lines: l,
                    line_number: acc.ln,
                    absolute_offset: o,
                    submatches: sms,
                },
                pos,
            ),
        ),
        _ => None,
    }
}

/// The members of a match payload, starting just after `{` or a comma.
pub open spec fn spec_match_members(s: Seq<u8>, i: int, acc: MatchAccV, first: bool) -> Option<
    (MatchV, int),
>
    decreases s.len() - i,
{
    if i < 0 || i > s.len() {
        None
    } else {
        let j = spec_skip_ws(s, i);
        if j >= s.len() {
            None
        } else if first && s[j] == 0x7d {
            spec_match_finish(acc, j + 1)
        } else {
            match spec_parse_string(s, j) {
                Some((key, k)) => if j < k <= s.len() {
                    let c = spec_skip_ws(s, k);
                    if c < s.len() && s[c] == 0x3a {
                        let v = spec_skip_ws(s, c + 1);
                        if v <= s.len() {
                            match spec_match_field(s, v, acc, key) {
                                Some((acc2, w)) => if v < w <= s.len() {
                                    let e = spec_skip_ws(s, w);
                                    if e < s.len() && s[e] == 0x7d {
                                        spec_match_finish(acc2, e + 1)
                                    } else if e < s.len() && s[e] == 0x2c {
                                        spec_match_members(s, e + 1, acc2, false)
                                    } else {
                                        None
                                    }
                                } else {
                                    None
                                },
                                None => None,
                            }
                        } else {
                            None
                        }
                    } else {
                        None
                    }
                } else {
                    None
                },
                None => None,
            }
        }
    }
}

/// The match (or context) payload object starting at `i`.
pub open spec fn spec_parse_match_data(s: Seq<u8>, i: int) -> Option<(MatchV, int)> {
    if 0 <= i < s.len() && s[i] == 0x7b {
        spec_match_members(
            s,
            i + 1,
            MatchAccV { path: None, lines: None, ln_seen: false, ln: None, off: None, subs: None },
            true,
        )
    } else {
        None
    }
}

pub(crate) fn parse_match_data(s: &Vec<u8>, i: usize) -> (r: Option<(Match, usize)>)
    requires
        i <= s.len(),
    ensures
        match r {
            Some((m, j)) => spec_parse_match_data(s@, i as int) == Some((m@, j as int)) && i < j
                <= s.len(),
            None => spec_parse_match_data(s@, i as int) is None,
        },
{
    if i >= s.len() || s[i] != 0x7b {
        return None;
    }
    let mut cur = i + 1;
    let mut first = true;
    let mut a_path: Option<PathData> = None;
    let mut a_lines: Option<TextData> = None;
    let mut a_ln_seen = false;
    let mut a_ln: Option<u64> = None;
    let mut a_off: Option<u64> = None;
    let mut a_subs: Option<Vec<SubMatch>> = None;
    loop
        invariant
            i + 1 <= cur <= s.len(),
            spec_parse_match_data(s@, i as int) == spec_match_members(
                s@,
                cur as int,
                MatchAccV {
                    path: view_opt(a_path),
                    lines: view_opt(a_lines),
                    ln_seen: a_ln_seen,
                    ln: a_ln,
                    off: a_off,
                    subs: match a_subs {
                        Some(v) => Some(v@.map_values(|sm: SubMatch| sm@)),
                        None => None,
                    },
                },
                first,
            ),
        decreases s.len() - cur,
    {
        let j = skip_ws(s, cur);
        if j >= s.len() {
            return None;
        }
        if first && s[j] == 0x7d {
            match (a_path, a_lines, a_off, a_subs) {
                (Some(p), Some(l), Some(o), Some(sms)) => {
                    return Some(
                        (
                            Match {
                                path: p,
                                lines: l,
                                line_number: a_ln,
                                absolute_offset: o,
                                submatches: sms,
                            },
                            j + 1,
                        ),
                    );
                },
                _ => {
                    return None;
                },
            }
        }
        match parse_string(s, j) {
            None => {
                return None;
            },
            Some((key, k)) => {
                let c = skip_ws(s, k);
                if c >= s.len() || s[c] != 0x3a {
                    return None;
                }
                let v = skip_ws(s, c + 1);
                let w: usize;
                if bytes_eq(&key, "path".as_bytes()) {
                    if a_path.is_some() {
                        return None;
                    }
                    match parse_tob(s, v) {
                        Some((t, w2)) => {
                            a_path = Some(PathData { text_or_bytes: t });
                            w = w2;
                        },
                        None => {
                            return None;
                        },
                    }
                } else if bytes_eq(&key, "lines".as_bytes()) {
                    if a_lines.is_some() {
                        return None;
                    }
                    match parse_tob(s, v) {
                        Some((t, w2)) => {
                            a_lines = Some(TextData { text_or_bytes: t });
                            w = w2;
                        },
                        None => {
                            return None;
                        },
                    }
                } else if bytes_eq(&key, "line_number".as_bytes()) {
                    if a_ln_seen {
                        return None;
                    }
                    match parse_null(s, v) {
                        Some(w2) => {
                            a_ln_seen = true;
                            a_ln = None;
                            w = w2;
                        },
                        None => {
                            match parse_u64(s, v) {
                                Some((x, w2)) => {
                                    a_ln_seen = true;
                                    a_ln = Some(x);
                                    w = w2;
                                },
                                None => {
                                    return None;
                                },
                            }
                        },
                    }
                } else if bytes_eq(&key, "absolute_offset".as_bytes()) {
                    if a_off.is_some() {
                        return None;
                    }
                    match parse_u64(s, v) {
                        Some((x, w2)) => {
                            a_off = Some(x);
                            w = w2;
                        },
                        None => {
                            return None;
                        },
                    }
                } else if bytes_eq(&key, "submatches".as_bytes()) {
                    if a_subs.is_some() {
                        return None;
                    }
                    match parse_submatches(s, v) {
                        Some((sms, w2)) => {
                            a_subs = Some(sms);
                            w = w2;
                        },
                        None => {
                            return None;
                        },
                    }
                } else {
                    match skip_value(s, v, SKIP_DEPTH) {
                        Some(w2) => {
                            w = w2;
                        },
                        None => {
                            return None;
                        },
                    }
                }
                let e = skip_ws(s, w);
                if e < s.len() && s[e] == 0x7d {
                    match (a_path, a_lines, a_off, a_subs) {
                        (Some(p), Some(l), Some(o), Some(sms)) => {
                            return Some(
                                (
                                    Match {
                                        path: p,
                                        lines: l,
                                        line_number: a_ln,
                                        absolute_offset: o,
                                        submatches: sms,
                                    },
                                    e + 1,
                                ),
                            );
                        },
                        _ => {
                            return None;
                        },
                    }
                }
                if e < s.len() && s[e] == 0x2c {
                    cur = e + 1;
                    first = false;
                } else {
                    return None;
                }
            },
        }
    }
}

/// Gathered fields of a duration object.
pub struct DurAccV {
    pub secs: Option<u64>,
    pub nanos: Option<u32>,
    pub human: Option<Seq<char>>,
}

pub open spec fn spec_dur_field(s: Seq<u8>, v: int, acc: DurAccV, key: Seq<u8>) -> Option<
    (DurAccV, int),
> {
    if key == encode_utf8("secs"@) {
        if acc.secs is Some {
            None
        } else {
            match spec_parse_u64(s, v) {
                Some((x, w)) => Some((DurAccV { secs: Some(x), ..acc }, w)),
                None => None,
            }
        }
    } else if key == encode_utf8("nanos"@) {
        if acc.nanos is Some {
            None
        } else {
            match spec_parse_u64(s, v) {
                Some((x, w)) => if x <= 0xffff_ffff {
                    Some((DurAccV { nanos: Some(x as u32), ..acc }, w))
                } else {
                    None
                },
                None => None,
            }
        }
    } else if key == encode_utf8("human"@) {
        if acc.human is Some {
            None
        } else {
            match spec_parse_string(s, v) {
                Some((content, w)) => Some((DurAccV { human: Some(lossy_decode(content)), ..acc }, w)),
                None => None,
            }
        }
    } else {
        match spec_skip_value(s, v, SKIP_DEPTH as int) {
            Some(w) => Some((acc, w)),
            None => None,
        }
    }
}

pub open spec fn spec_dur_finish(acc: DurAccV, pos: int) -> Option<(DurationDataV, int)> {
    match (acc.secs, acc.nanos, acc.human) {
        (Some(sc), Some(na), Some(hu)) => Some(
            (DurationDataV { secs: sc, nanos: na, human: hu }, pos),
        ),
        _ => None,
    }
}

pub open spec fn spec_dur_members(s: Seq<u8>, i: int, acc: DurAccV, first: bool) -> Option<
    (DurationDataV, int),
>
    decreases s.len() - i,
{
    if i < 0 || i > s.len() {
        None
    } else {
        let j = spec_skip_ws(s, i);
        if j >= s.len() {
            None
        } else if first && s[j] == 0x7d {
            spec_dur_finish(acc, j + 1)
        } else {
            match spec_parse_string(s, j) {
                Some((key, k)) => if j < k <= s.len() {
                    let c = spec_skip_ws(s, k);
                    if c < s.len() && s[c] == 0x3a {
                        let v = spec_skip_ws(s, c + 1);
                        if v <= s.len() {
                            match spec_dur_field(s, v, acc, key) {
                                Some((acc2, w)) => if v < w <= s.len() {
                                    let e = spec_skip_ws(s, w);
                                    if e < s.len() && s[e] == 0x7d {
                                        spec_dur_finish(acc2, e + 1)
                                    } else if e < s.len() && s[e] == 0x2c {
                                        spec_dur_members(s, e + 1, acc2, false)
                                    } else {
                                        None
                                    }
                                } else {
                                    None
                                },
                                None => None,
                            }
                        } else {
                            None
                        }
                    } else {
                        None
                    }
                } else {
                    None
                },
                None => None,
            }
        }
    }
}

/// A duration object starting at `i`.
pub open spec fn spec_parse_duration(s: Seq<u8>, i: int) -> Option<(DurationDataV, int)> {
    if 0 <= i < s.len() && s[i] == 0x7b {
        spec_dur_members(s, i + 1, DurAccV { secs: None, nanos: None, human: None }, true)
    } else {
        None
    }
}

fn parse_duration(s: &Vec<u8>, i: usize) -> (r: Option<(DurationData, usize)>)
    requires
        i <= s.len(),
    ensures
        match r {
            Some((d, j)) => spec_parse_duration(s@, i as int) == Some((d@, j as int)) && i < j
                <= s.len(),
            None => spec_parse_duration(s@, i as int) is None,
        },
{
    if i >= s.len() || s[i] != 0x7b {
        return None;
    }
    let mut cur = i + 1;
    let mut first = true;
    let mut a_secs: Option<u64> = None;
    let mut a_nanos: Option<u32> = None;
    let mut a_human: Option<String> = None;
    loop
        invariant
            i + 1 <= cur <= s.len(),
            spec_parse_duration(s@, i as int) == spec_dur_members(
                s@,
                cur as int,
                DurAccV { secs: a_secs, nanos: a_nanos, human: view_opt(a_human) },
                first,
            ),
        decreases s.len() - cur,
    {
        let j = skip_ws(s, cur);
        if j >= s.len() {
            return None;
        }
        if first && s[j] == 0x7d {
            match (a_secs, a_nanos, a_human) {
                (Some(sc), Some(na), Some(hu)) => {
                    return Some((DurationData { secs: sc, nanos: na, human: hu }, j + 1));
                },
                _ => {
                    return None;
                },
            }
        }
        match parse_string(s, j) {
            None => {
                return None;
            },
            Some((key, k)) => {
                let c = skip_ws(s, k);
                if c >= s.len() || s[c] != 0x3a {
                    return None;
                }
                let v = skip_ws(s, c + 1);
                let w: usize;
                if bytes_eq(&key, "secs".as_bytes()) {
                    if a_secs.is_some() {
                        return None;
                    }
                    match parse_u64(s, v) {
                        Some((x, w2)) => {
                            a_secs = Some(x);
                            w = w2;
                        },
                        None => {
                            return None;
                        },
                    }
                } else if bytes_eq(&key, "nanos".as_bytes()) {
                    if a_nanos.is_some() {
                        return None;
                    }
                    match parse_u64(s, v) {
                        Some((x, w2)) => {
                            if x > 0xffff_ffff {
                                return None;
                            }
                            a_nanos = Some(x as u32);
                            w = w2;
                        },
                        None => {
                            return None;
                        },
                    }
                } else if bytes_eq(&key, "human".as_bytes()) {
                    if a_human.is_some() {
                        return None;
                    }
                    match parse_string(s, v) {
                        Some((content, w2)) => {
                            a_human = Some(lossy_string(&content));
                            w = w2;
                        },
                        None => {
                            return None;
                        },
                    }
                } else {
                    match skip_value(s, v, SKIP_DEPTH) {
                        Some(w2) => {
                            w = w2;
                        },
                        None => {
                            return None;
                        },
                    }
                }
                let e = skip_ws(s, w);
                if e < s.len() && s[e] == 0x7d {
                    match (a_secs, a_nanos, a_human) {
                        (Some(sc), Some(na), Some(hu)) => {
                            return Some((DurationData { secs: sc, nanos: na, human: hu }, e + 1));
                        },
                        _ => {
                            return None;
                        },
                    }
                }
                if e < s.len() && s[e] == 0x2c {
                    cur = e + 1;
                    first = false;
                } else {
                    return None;
                }
            },
        }
    }
}

/// Gathered fields of a statistics object.
pub struct StatsAccV {
    pub elapsed: Option<DurationDataV>,
    pub searches: Option<u64>,
    pub searches_with_match: Option<u64>,
    pub bytes_searched: Option<u64>,
    pub bytes_printed: Option<u64>,
    pub matched_lines: Option<u64>,
    pub matches: Option<u64>,
}

pub open spec fn spec_stats_field(s: Seq<u8>, v: int, acc: StatsAccV, key: Seq<u8>) -> Option<
    (StatsAccV, int),
> {
    if key == encode_utf8("elapsed"@) {
        if acc.elapsed is Some {
            None
        } else {
            match spec_parse_duration(s, v) {
                Some((d, w)) => Some((StatsAccV { elapsed: Some(d), ..acc }, w)),
                None => None,
            }
        }
    } else if key == encode_utf8("searches"@) {
        if acc.searches is Some {
            None
        } else {
            match spec_parse_u64(s, v) {
                Some((x, w)) => Some((StatsAccV { searches: Some(x), ..acc }, w)),
                None => None,
            }
        }
    } else if key == encode_utf8("searches_with_match"@) {
        if acc.searches_with_match is Some {
            None
        } else {
            match spec_parse_u64(s, v) {
                Some((x, w)) => Some((StatsAccV { searches_with_match: Some(x), ..acc }, w)),
                None => None,
            }
        }
    } else if key == encode_utf8("bytes_searched"@) {
        if acc.bytes_searched is Some {
            None
        } else {
            match spec_parse_u64(s, v) {
                Some((x, w)) => Some((StatsAccV { bytes_searched: Some(x), ..acc }, w)),
                None => None,
            }
        }
    } else if key == encode_utf8("bytes_printed"@) {
        if acc.bytes_printed is Some {
            None
        } else {
            match spec_parse_u64(s, v) {
                Some((x, w)) => Some((StatsAccV { bytes_printed: Some(x), ..acc }, w)),
                None => None,
            }
        }
    } else if key == encode_utf8("matched_lines"@) {
        if acc.matched_lines is Some {
            None
        } else {
            match spec_parse_u64(s, v) {
                Some((x, w)) => Some((StatsAccV { matched_lines: Some(x), ..acc }, w)),
                None => None,
            }
        }
    } else if key == encode_utf8("matches"@) {
        if acc.matches is Some {
            None
        } else {
            match spec_parse_u64(s, v) {
                Some((x, w)) => Some((StatsAccV { matches: Some(x), ..acc }, w)),
                None => None,
            }
        }
    } else {
        match spec_skip_value(s, v, SKIP_DEPTH as int) {
            Some(w) => Some((acc, w)),
            None => None,
        }
    }
}

pub open spec fn spec_stats_finish(acc: StatsAccV, pos: int) -> Option<(StatsV, int)> {
    if acc.elapsed is Some && acc.searches is Some && acc.searches_with_match is Some
        && acc.bytes_searched is Some && acc.bytes_printed is Some && acc.matched_lines is Some
        && acc.matches is Some {
        Some(
            (
                StatsV {
                    elapsed: acc.elapsed.unwrap(),
                    searches: acc.searches.unwrap(),
                    searches_with_match: acc.searches_with_match.unwrap(),
                    bytes_searched: acc.bytes_searched.unwrap(),
                    bytes_printed: acc.bytes_printed.unwrap(),
                    matched_lines: acc.matched_lines.unwrap(),
                    matches: acc.matches.unwrap(),
                },
                pos,
            ),
        )
    } else {
        None
    }
}

pub open spec fn spec_stats_members(s: Seq<u8>, i: int, acc: StatsAccV, first: bool) -> Option<
    (StatsV, int),
>
    decreases s.len() - i,
{
    if i < 0 || i > s.len() {
        None
    } else {
        let j = spec_skip_ws(s, i);
        if j >= s.len() {
            None
        } else if first && s[j] == 0x7d {
            spec_stats_finish(acc, j + 1)
        } else {
            match spec_parse_string(s, j) {
                Some((key, k)) => if j < k <= s.len() {
                    let c = spec_skip_ws(s, k);
                    if c < s.len() && s[c] == 0x3a {
                        let v = spec_skip_ws(s, c + 1);
                        if v <= s.len() {
                            match spec_stats_field(s, v, acc, key) {
                                Some((acc2, w)) => if v < w <= s.len() {
                                    let e = spec_skip_ws(s, w);
                                    if e < s.len() && s[e] == 0x7d {
                                        spec_stats_finish(acc2, e + 1)
                                    } else if e < s.len() && s[e] == 0x2c {
                                        spec_stats_members(s, e + 1, acc2, false)
                                    } else {
                                        None
                                    }
                                } else {
                                    None
                                },
                                None => None,
                            }
                        } else {
                            None
                        }
                    } else {
                        None
                    }
                } else {
                    None
                },
                None => None,
            }
        }
    }
}

/// A statistics object starting at `i`.
pub open spec fn spec_parse_stats(s: Seq<u8>, i: int) -> Option<(StatsV, int)> {
    if 0 <= i < s.len() && s[i] == 0x7b {
        spec_stats_members(
            s,
            i + 1,
            StatsAccV {
                elapsed: None,
                searches: None,
                searches_with_match: None,
                bytes_searched: None,
                bytes_printed: None,
                matched_lines: None,
                matches: None,
            },
            true,
        )
    } else {
        None
    }
}

fn parse_stats(s: &Vec<u8>, i: usize) -> (r: Option<(Stats, usize)>)
    requires
        i <= s.len(),
    ensures
        match r {
            Some((st, j)) => spec_parse_stats(s@, i as int) == Some((st@, j as int)) && i < j
                <= s.len(),
            None => spec_parse_stats(s@, i as int) is None,
        },
{
    if i >= s.len() || s[i] != 0x7b {
        return None;
    }
    let mut cur = i + 1;
    let mut first = true;
    let mut a_elapsed: Option<DurationData> = None;
    let mut a_searches: Option<u64> = None;
    let mut a_swm: Option<u64> = None;
    let mut a_bs: Option<u64> = None;
    let mut a_bp: Option<u64> = None;
    let mut a_ml: Option<u64> = None;
    let mut a_matches: Option<u64> = None;
    loop
        invariant
            i + 1 <= cur <= s.len(),
            spec_parse_stats(s@, i as int) == spec_stats_members(
                s@,
                cur as int,
                StatsAccV {
                    elapsed: view_opt(a_elapsed),
                    searches: a_searches,
                    searches_with_match: a_swm,
                    bytes_searched: a_bs,
                    bytes_printed: a_bp,
                    matched_lines: a_ml,
                    matches: a_matches,
                },
                first,
            ),
        decreases s.len() - cur,
    {
        let j = skip_ws(s, cur);
        if j >= s.len() {
            return None;
        }
        if first && s[j] == 0x7d {
            match (a_elapsed, a_searches, a_swm, a_bs, a_bp, a_ml, a_matches) {
                (Some(el), Some(se), Some(swm), Some(bs), Some(bp), Some(ml), Some(ma)) => {
                    return Some(
                        (
                            Stats {
                                elapsed: el,
                                searches: se,
                                searches_with_match: swm,
                                bytes_searched: bs,
                                bytes_printed: bp,
                                matched_lines: ml,
                                matches: ma,
                            },
                            j + 1,
                        ),
                    );
                },
                _ => {
                    return None;
                },
            }
        }
        match parse_string(s, j) {
            None => {
                return None;
            },
            Some((key, k)) => {
                let c = skip_ws(s, k);
                if c >= s.len() || s[c] != 0x3a {
                    return None;
                }
                let v = skip_ws(s, c + 1);
                let w: usize;
                if bytes_eq(&key, "elapsed".as_bytes()) {
                    if a_elapsed.is_some() {
                        return None;
                    }
                    match parse_duration(s, v) {
                        Some((d, w2)) => {
                            a_elapsed = Some(d);
                            w = w2;
                        },
                        None => {
                            return None;
                        },
                    }
                } else if bytes_eq(&key, "searches".as_bytes()) {
                    if a_searches.is_some() {
                        return None;
                    }
                    match parse_u64(s, v) {
                        Some((x, w2)) => {
                            a_searches = Some(x);
                            w = w2;
                        },
                        None => {
                            return None;
                        },
                    }
                } else if bytes_eq(&key, "searches_with_match".as_bytes()) {
                    if a_swm.is_some() {
                        return None;
                    }
                    match parse_u64(s, v) {
                        Some((x, w2)) => {
                            a_swm = Some(x);
                            w = w2;
                        },
                        None => {
                            return None;
                        },
                    }
                } else if bytes_eq(&key, "bytes_searched".as_bytes()) {
                    if a_bs.is_some() {
                        return None;
                    }
                    match parse_u64(s, v) {
                        Some((x, w2)) => {
                            a_bs = Some(x);
                            w = w2;
                        },
                        None => {
                            return None;
                        },
                    }
                } else if bytes_eq(&key, "bytes_printed".as_bytes()) {
                    if a_bp.is_some() {
                        return None;
                    }
                    match parse_u64(s, v) {
                        Some((x, w2)) => {
                            a_bp = Some(x);
                            w = w2;
                        },
                        None => {
                            return None;
                        },
                    }
                } else if bytes_eq(&key, "matched_lines".as_bytes()) {
                    if a_ml.is_some() {
                        return None;
                    }
                    match parse_u64(s, v) {
                        Some((x, w2)) => {
                            a_ml = Some(x);
                            w = w2;
                        },
                        None => {
                            return None;
                        },
                    }
                } else if bytes_eq(&key, "matches".as_bytes()) {
                    if a_matches.is_some() {
                        return None;
                    }
                    match parse_u64(s, v) {
                        Some((x, w2)) => {
                            a_matches = Some(x);
                            w = w2;
                        },
                        None => {
                            return None;
                        },
                    }
                } else {
                    match skip_value(s, v, SKIP_DEPTH) {
                        Some(w2) => {
                            w = w2;
                        },
                        None => {
                            return None;
                        },
                    }
                }
                let e = skip_ws(s, w);
                if e < s.len() && s[e] == 0x7d {
                    match (a_elapsed, a_searches, a_swm, a_bs, a_bp, a_ml, a_matches) {
                        (Some(el), Some(se), Some(swm), Some(bs), Some(bp), Some(ml), Some(ma)) => {
                            return Some(
                                (
                                    Stats {
                                        elapsed: el,
                                        searches: se,
                                        searches_with_match: swm,
                                        bytes_searched: bs,
                                        bytes_printed: bp,
                                        matched_lines: ml,
                                        matches: ma,
                                    },
                                    e + 1,
                                ),
                            );
                        },
                        _ => {
                            return None;
                        },
                    }
                }
                if e < s.len() && s[e] == 0x2c {
                    cur = e + 1;
                    first = false;
                } else {
                    return None;
                }
            },
        }
    }
}

/// Gathered fields of a begin payload.
pub struct BeginAccV {
    pub path_seen: bool,
    pub path: Option<PathDataV>,
}

pub open spec fn spec_begin_field(s: Seq<u8>, v: int, acc: BeginAccV, key: Seq<u8>) -> Option<
    (BeginAccV, int),
> {
    if key == encode_utf8("path"@) {
        if acc.path_seen {
            None
        } else if spec_null_at(s, v) {
            Some((BeginAccV { path_seen: true, path: None }, v + 4))
        } else {
            match spec_parse_tob(s, v) {
                Some((t, w)) => Some(
                    (BeginAccV { path_seen: true, path: Some(PathDataV { text_or_bytes: t }) }, w),
                ),
                None => None,
            }
        }
    } else {
        match spec_skip_value(s, v, SKIP_DEPTH as int) {
            Some(w) => Some((acc, w)),
            None => None,
        }
    }
}

pub open spec fn spec_begin_members(s: Seq<u8>, i: int, acc: BeginAccV, first: bool) -> Option<
    (BeginV, int),
>
    decreases s.len() - i,
{
    if i < 0 || i > s.len() {
        None
    } else {
        let j = spec_skip_ws(s, i);
        if j >= s.len() {
            None
        } else if first && s[j] == 0x7d {
            Some((BeginV { path: acc.path }, j + 1))
        } else {
            match spec_parse_string(s, j) {
                Some((key, k)) => if j < k <= s.len() {
                    let c = spec_skip_ws(s, k);
                    if c < s.len() && s[c] == 0x3a {
                        let v = spec_skip_ws(s, c + 1);
                        if v <= s.len() {
                            match spec_begin_field(s, v, acc, key) {
                                Some((acc2, w)) => if v < w <= s.len() {
                                    let e = spec_skip_ws(s, w);
                                    if e < s.len() && s[e] == 0x7d {
                                        Some((BeginV { path: acc2.path }, e + 1))
                                    } else if e < s.len() && s[e] == 0x2c {
                                        spec_begin_members(s, e + 1, acc2, false)
                                    } else {
                                        None
                                    }
                                } else {
                                    None
                                },
                                None => None,
                            }
                        } else {
                            None
                        }
                    } else {
                        None
                    }
                } else {
                    None
                },
                None => None,
            }
        }
    }
}

/// A begin payload object starting at `i`.
pub open spec fn spec_parse_begin_data(s: Seq<u8>, i: int) -> Option<(BeginV, int)> {
    if 0 <= i < s.len() && s[i] == 0x7b {
        spec_begin_members(s, i + 1, BeginAccV { path_seen: false, path: None }, true)
    } else {
        None
    }
}

pub(crate) fn parse_begin_data(s: &Vec<u8>, i: usize) -> (r: Option<(Begin, usize)>)
    requires
        i <= s.len(),
    ensures
        match r {
            Some((b, j)) => spec_parse_begin_data(s@, i as int) == Some((b@, j as int)) && i < j
                <= s.len(),
            None => spec_parse_begin_data(s@, i as int) is None,
        },
{
    if i >= s.len() || s[i] != 0x7b {
        return None;
    }
    let mut cur = i + 1;
    let mut first = true;
    let mut a_path_seen = false;
    let mut a_path: Option<PathData> = None;
    loop
        invariant
            i + 1 <= cur <= s.len(),
            spec_parse_begin_data(s@, i as int) == spec_begin_members(
                s@,
                cur as int,
                BeginAccV { path_seen: a_path_seen, path: view_opt(a_path) },
                first,
            ),
        decreases s.len() - cur,
    {
        let j = skip_ws(s, cur);
        if j >= s.len() {
            return None;
        }
        if first && s[j] == 0x7d {
            return Some((Begin { path: a_path }, j + 1));
        }
        match parse_string(s, j) {
            None => {
                return None;
            },
            Some((key, k)) => {
                let c = skip_ws(s, k);
                if c >= s.len() || s[c] != 0x3a {
                    return None;
                }
                let v = skip_ws(s, c + 1);
                let w: usize;
                if bytes_eq(&key, "path".as_bytes()) {
                    if a_path_seen {
                        return None;
                    }
                    match parse_null(s, v) {
                        Some(w2) => {
                            a_path_seen = true;
                            a_path = None;
                            w = w2;
                        },
                        None => {
                            match parse_tob(s, v) {
                                Some((t, w2)) => {
                                    a_path_seen = true;
                                    a_path = Some(PathData { text_or_bytes: t });
                                    w = w2;
                                },
                                None => {
                                    return None;
                                },
                            }
                        },
                    }
                } else {
                    match skip_value(s, v, SKIP_DEPTH) {
                        Some(w2) => {
                            w = w2;
                        },
                        None => {
                            return None;
                        },
                    }
                }
                let e = skip_ws(s, w);
                if e < s.len() && s[e] == 0x7d {
                    return Some((Begin { path: a_path }, e + 1));
                }
                if e < s.len() && s[e] == 0x2c {
                    cur = e + 1;
                    first = false;
                } else {
                    return None;
                }
            },
        }
    }
}

/// Gathered fields of an end payload.
pub struct EndAccV {
    pub path_seen: bool,
    pub path: Option<PathDataV>,
    pub bo_seen: bool,
    pub bo: Option<u64>,
    pub stats: Option<StatsV>,
}

pub open spec fn spec_end_field(s: Seq<u8>, v: int, acc: EndAccV, key: Seq<u8>) -> Option<
    (EndAccV, int),
> {
    if key == encode_utf8("path"@) {
        if acc.path_seen {
            None
        } else if spec_null_at(s, v) {
            Some((EndAccV { path_seen: true, path: None, ..acc }, v + 4))
        } else {
            match spec_parse_tob(s, v) {
                Some((t, w)) => Some(
                    (
                        EndAccV {
                            path_seen: true,
                            path: Some(PathDataV { text_or_bytes: t }),
                            ..acc
                        },
                        w,
                    ),
                ),
                None => None,
            }
        }
    } else if key == encode_utf8("binary_offset"@) {
        if acc.bo_seen {
            None
        } else if spec_null_at(s, v) {
            Some((EndAccV { bo_seen: true, bo: None, ..acc }, v + 4))
        } else {
            match spec_parse_u64(s, v) {
                Some((x, w)) => Some((EndAccV { bo_seen: true, bo: Some(x), ..acc }, w)),
                None => None,
            }
        }
    } else if key == encode_utf8("stats"@) {
        if acc.stats is Some {
            None
        } else {
            match spec_parse_stats(s, v) {
                Some((st, w)) => Some((EndAccV { stats: Some(st), ..acc }, w)),
                None => None,
            }
        }
    } else {
        match spec_skip_value(s, v, SKIP_DEPTH as int) {
            Some(w) => Some((acc, w)),
            None => None,
        }
    }
}

pub open spec fn spec_end_finish(acc: EndAccV, pos: int) -> Option<(EndV, int)> {
    match acc.stats {
        Some(st) => Some((EndV { path: acc.path, binary_offset: acc.bo, stats: st }, pos)),
        None => None,
    }
}

pub open spec fn spec_end_members(s: Seq<u8>, i: int, acc: EndAccV, first: bool) -> Option<
    (EndV, int),
>
    decreases s.len() - i,
{
    if i < 0 || i > s.len() {
        None
    } else {
        let j = spec_skip_ws(s, i);
        if j >= s.len() {
            None
        } else if first && s[j] == 0x7d {
            spec_end_finish(acc, j + 1)
        } else {
            match spec_parse_string(s, j) {
                Some((key, k)) => if j < k <= s.len() {
                    let c = spec_skip_ws(s, k);
                    if c < s.len() && s[c] == 0x3a {
                        let v = spec_skip_ws(s, c + 1);
                        if v <= s.len() {
                            match spec_end_field(s, v, acc, key) {
                                Some((acc2, w)) => if v < w <= s.len() {
                                    let e = spec_skip_ws(s, w);
                                    if e < s.len() && s[e] == 0x7d {
                                        spec_end_finish(acc2, e + 1)
                                    } else if e < s.len() && s[e] == 0x2c {
                                        spec_end_members(s, e + 1, acc2, false)
                                    } else {
                                        None
                                    }
                                } else {
                                    None
                                },
                                None => None,
                            }
                        } else {
                            None
                        }
                    } else {
                        None
                    }
                } else {
                    None
                },
                None => None,
            }
        }
    }
}

/// An end payload object starting at `i`.
pub open spec fn spec_parse_end_data(s: Seq<u8>, i: int) -> Option<(EndV, int)> {
    if 0 <= i < s.len() && s[i] == 0x7b {
        spec_end_members(
            s,
            i + 1,
            EndAccV { path_seen: false, path: None, bo_seen: false, bo: None, stats: None },
            true,
        )
    } else {
        None
    }
}

pub(crate) fn parse_end_data(s: &Vec<u8>, i: usize) -> (r: Option<(End, usize)>)
    requires
        i <= s.len(),
    ensures
        match r {
            Some((en, j)) => spec_parse_end_data(s@, i as int) == Some((en@, j as int)) && i < j
                <= s.len(),
            None => spec_parse_end_data(s@, i as int) is None,
        },
{
    if i >= s.len() || s[i] != 0x7b {
        return None;
    }
    let mut cur = i + 1;
    let mut first = true;
    let mut a_path_seen = false;
    let mut a_path: Option<PathData> = None;
    let mut a_bo_seen = false;
    let mut a_bo: Option<u64> = None;
    let mut a_stats: Option<Stats> = None;
    loop
        invariant
            i + 1 <= cur <= s.len(),
            spec_parse_end_data(s@, i as int) == spec_end_members(
                s@,
                cur as int,
                EndAccV {
                    path_seen: a_path_seen,
                    path: view_opt(a_path),
                    bo_seen: a_bo_seen,
                    bo: a_bo,
                    stats: view_opt(a_stats),
                },
                first,
            ),
        decreases s.len() - cur,
    {
        let j = skip_ws(s, cur);
        if j >= s.len() {
            return None;
        }
        if first && s[j] == 0x7d {
            match a_stats {
                Some(st) => {
                    return Some((End { path: a_path, binary_offset: a_bo, stats: st }, j + 1));
                },
                None => {
                    return None;
                },
            }
        }
        match parse_string(s, j) {
            None => {
                return None;
            },
            Some((key, k)) => {
                let c = skip_ws(s, k);
                if c >= s.len() || s[c] != 0x3a {
                    return None;
                }
                let v = skip_ws(s, c + 1);
                let w: usize;
                if bytes_eq(&key, "path".as_bytes()) {
                    if a_path_seen {
                        return None;
                    }
                    match parse_null(s, v) {
                        Some(w2) => {
                            a_path_seen = true;
                            a_path = None;
                            w = w2;
                        },
                        None => {
                            match parse_tob(s, v) {
                                Some((t, w2)) => {
                                    a_path_seen = true;
                                    a_path = Some(PathData { text_or_bytes: t });
                                    w = w2;
                                },
                                None => {
                                    return None;
                                },
                            }
                        },
                    }
                } else if bytes_eq(&key, "binary_offset".as_bytes()) {
                    if a_bo_seen {
                        return None;
                    }
                    match parse_null(s, v) {
                        Some(w2) => {
                            a_bo_seen = true;
                            a_bo = None;
                            w = w2;
                        },
                        None => {
                            match parse_u64(s, v) {
                                Some((x, w2)) => {
                                    a_bo_seen = true;
                                    a_bo = Some(x);
                                    w = w2;
                                },
                                None => {
                                    return None;
                                },
                            }
                        },
                    }
                } else if bytes_eq(&key, "stats".as_bytes()) {
                    if a_stats.is_some() {
                        return None;
                    }
                    match parse_stats(s, v) {
                        Some((st, w2)) => {
                            a_stats = Some(st);
                            w = w2;
                        },
                        None => {
                            return None;
                        },
                    }
                } else {
                    match skip_value(s, v, SKIP_DEPTH) {
                        Some(w2) => {
                            w = w2;
                        },
                        None => {
                            return None;
                        },
                    }
                }
                let e = skip_ws(s, w);
                if e < s.len() && s[e] == 0x7d {
                    match a_stats {
                        Some(st) => {
                            return Some(
                                (End { path: a_path, binary_offset: a_bo, stats: st }, e + 1),
                            );
                        },
                        None => {
                            return None;
                        },
                    }
                }
                if e < s.len() && s[e] == 0x2c {
                    cur = e + 1;
                    first = false;
                } else {
                    return None;
                }
            },
        }
    }
}

/// Gathered fields of a summary payload.
pub struct SumAccV {
    pub elapsed_total: Option<DurationDataV>,
    pub stats: Option<StatsV>,
}

pub open spec fn spec_sum_field(s: Seq<u8>, v: int, acc: SumAccV, key: Seq<u8>) -> Option<
    (SumAccV, int),
> {
    if key == encode_utf8("elapsed_total"@) {
        if acc.elapsed_total is Some {
            None
        } else {
            match spec_parse_duration(s, v) {
                Some((d, w)) => Some((SumAccV { elapsed_total: Some(d), ..acc }, w)),
                None => None,
            }
        }
    } else if key == encode_utf8("stats"@) {
        if acc.stats is Some {
            None
        } else {
            match spec_parse_stats(s, v) {
                Some((st, w)) => Some((SumAccV { stats: Some(st), ..acc }, w)),
                None => None,
            }
        }
    } else {
        match spec_skip_value(s, v, SKIP_DEPTH as int) {
            Some(w) => Some((acc, w)),
            None => None,
        }
    }
}

pub open spec fn spec_sum_finish(acc: SumAccV, pos: int) -> Option<(SummaryV, int)> {
    match (acc.elapsed_total, acc.stats) {
        (Some(et), Some(st)) => Some((SummaryV { elapsed_total: et, stats: st }, pos)),
        _ => None,
    }
}

pub open spec fn spec_sum_members(s: Seq<u8>, i: int, acc: SumAccV, first: bool) -> Option<
    (SummaryV, int),
>
    decreases s.len() - i,
{
    if i < 0 || i > s.len() {
        None
    } else {
        let j = spec_skip_ws(s, i);
        if j >= s.len() {
            None
        } else if first && s[j] == 0x7d {
            spec_sum_finish(acc, j + 1)
        } else {
            match spec_parse_string(s, j) {
                Some((key, k)) => if j < k <= s.len() {
                    let c = spec_skip_ws(s, k);
                    if c < s.len() && s[c] == 0x3a {
                        let v = spec_skip_ws(s, c + 1);
                        if v <= s.len() {
                            match spec_sum_field(s, v, acc, key) {
                                Some((acc2, w)) => if v < w <= s.len() {
                                    let e = spec_skip_ws(s, w);
                                    if e < s.len() && s[e] == 0x7d {
                                        spec_sum_finish(acc2, e + 1)
                                    } else if e < s.len() && s[e] == 0x2c {
                                        spec_sum_members(s, e + 1, acc2, false)
                                    } else {
                                        None
                                    }
                                } else {
                                    None
                                },
                                None => None,
                            }
                        } else {
                            None
                        }
                    } else {
                        None
                    }
                } else {
                    None
                },
                None => None,
            }
        }
    }
}

/// A summary payload object starting at `i`.
pub open spec fn spec_parse_summary_data(s: Seq<u8>, i: int) -> Option<(SummaryV, int)> {
    if 0 <= i < s.len() && s[i] == 0x7b {
        spec_sum_members(s, i + 1, SumAccV { elapsed_total: None, stats: None }, true)
    } else {
        None
    }
}

pub(crate) fn parse_summary_data(s: &Vec<u8>, i: usize) -> (r: Option<(Summary, usize)>)
    requires
        i <= s.len(),
    ensures
        match r {
            Some((su, j)) => spec_parse_summary_data(s@, i as int) == Some((su@, j as int)) && i
                < j <= s.len(),
            None => spec_parse_summary_data(s@, i as int) is None,
        },
{
    if i >= s.len() || s[i] != 0x7b {
        return None;
    }
    let mut cur = i + 1;
    let mut first = true;
    let mut a_et: Option<DurationData> = None;
    let mut a_stats: Option<Stats> = None;
    loop
        invariant
            i + 1 <= cur <= s.len(),
            spec_parse_summary_data(s@, i as int) == spec_sum_members(
                s@,
                cur as int,
                SumAccV { elapsed_total: view_opt(a_et), stats: view_opt(a_stats) },
                first,
            ),
        decreases s.len() - cur,
    {
        let j = skip_ws(s, cur);
        if j >= s.len() {
            return None;
        }
        if first && s[j] == 0x7d {
            match (a_et, a_stats) {
                (Some(et), Some(st)) => {
                    return Some((Summary { elapsed_total: et, stats: st }, j + 1));
                },
                _ => {
                    return None;
                },
            }
        }
        match parse_string(s, j) {
            None => {
                return None;
            },
            Some((key, k)) => {
                let c = skip_ws(s, k);
                if c >= s.len() || s[c] != 0x3a {
                    return None;
                }
                let v = skip_ws(s, c + 1);
                let w: usize;
                if bytes_eq(&key, "elapsed_total".as_bytes()) {
                    if a_et.is_some() {
                        return None;
                    }
                    match parse_duration(s, v) {
                        Some((d, w2)) => {
                            a_et = Some(d);
                            w = w2;
                        },
                        None => {
                            return None;
                        },
                    }
                } else if bytes_eq(&key, "stats".as_bytes()) {
                    if a_stats.is_some() {
                        return None;
                    }
                    match parse_stats(s, v) {
                        Some((st, w2)) => {
                            a_stats = Some(st);
                            w = w2;
                        },
                        None => {
                            return None;
                        },
                    }
                } else {
                    match skip_value(s, v, SKIP_DEPTH) {
                        Some(w2) => {
                            w = w2;
                        },
                        None => {
                            return None;
                        },
                    }
                }
                let e = skip_ws(s, w);
                if e < s.len() && s[e] == 0x7d {
                    match (a_et, a_stats) {
                        (Some(et), Some(st)) => {
                            return Some((Summary { elapsed_total: et, stats: st }, e + 1));
                        },
                        _ => {
                            return None;
                        },
                    }
                }
                if e < s.len() && s[e] == 0x2c {
                    cur = e + 1;
                    first = false;
                } else {
                    return None;
                }
            },
        }
    }
}

/// The tag naming one of the five record kinds.
pub enum TagKind {
    Begin,
    Match,
    End,
    Context,
    Summary,
}

/// The record kind a tag string names, if any.
pub open spec fn spec_tag_of(b: Seq<u8>) -> Option<TagKind> {
    if b == encode_utf8("begin"@) {
        Some(TagKind::Begin)
    } else if b == encode_utf8("match"@) {
        Some(TagKind::Match)
    } else if b == encode_utf8("end"@) {
        Some(TagKind::End)
    } else if b == encode_utf8("context"@) {
        Some(TagKind::Context)
    } else if b == encode_utf8("summary"@) {
        Some(TagKind::Summary)
    } else {
        None
    }
}

fn tag_of(b: &Vec<u8>) -> (r: Option<TagKind>)
    ensures
        r == spec_tag_of(b@),
{
    if bytes_eq(b, "begin".as_bytes()) {
        Some(TagKind::Begin)
    } else if bytes_eq(b, "match".as_bytes()) {
        Some(TagKind::Match)
    } else if bytes_eq(b, "end".as_bytes()) {
        Some(TagKind::End)
    } else if bytes_eq(b, "context".as_bytes()) {
        Some(TagKind::Context)
    } else if bytes_eq(b, "summary".as_bytes()) {
        Some(TagKind::Summary)
    } else {
        None
    }
}

/// Gathered fields of the top-level record object: its tag and where its
/// payload value starts.
pub struct TopAccV {
    pub tag: Option<TagKind>,
    pub data: Option<int>,
}

/// One member of the top-level object: only `type` and `data` are accepted.
pub open spec fn spec_top_field(s: Seq<u8>, v: int, acc: TopAccV, key: Seq<u8>) -> Option<
    (TopAccV, int),
> {
    if key == encode_utf8("type"@) {
        if acc.tag is Some {
            None
        } else {
            match spec_parse_string(s, v) {
                Some((content, w)) => match spec_tag_of(content) {
                    Some(t) => Some((TopAccV { tag: Some(t), ..acc }, w)),
                    None => None,
                },
                None => None,
            }
        }
    } else if key == encode_utf8("data"@) {
        if acc.data is Some {
            None
        } else {
            match spec_skip_value(s, v, SKIP_DEPTH as int) {
                Some(w) => Some((TopAccV { data: Some(v), ..acc }, w)),
                None => None,
            }
        }
    } else {
        None
    }
}

pub open spec fn spec_top_finish(acc: TopAccV, pos: int) -> Option<(TagKind, int, int)> {
    match (acc.tag, acc.data) {
        (Some(t), Some(d)) => Some((t, d, pos)),
        _ => None,
    }
}

/// The members of the top-level record object, starting just after `{` or a
/// comma; yields the tag, the payload position, and the position after `}`.
pub open spec fn spec_top_members(s: Seq<u8>, i: int, acc: TopAccV, first: bool) -> Option<
    (TagKind, int, int),
>
    decreases s.len() - i,
{
    if i < 0 || i > s.len() {
        None
    } else {
        let j = spec_skip_ws(s, i);
        if j >= s.len() {
            None
        } else if first && s[j] == 0x7d {
            spec_top_finish(acc, j + 1)
        } else {
            match spec_parse_string(s, j) {
                Some((key, k)) => if j < k <= s.len() {
                    let c = spec_skip_ws(s, k);
                    if c < s.len() && s[c] == 0x3a {
                        let v = spec_skip_ws(s, c + 1);
                        if v <= s.len() {
                            match spec_top_field(s, v, acc, key) {
                                Some((acc2, w)) => if v < w <= s.len() {
                                    let e = spec_skip_ws(s, w);
                                    if e < s.len() && s[e] == 0x7d {
                                        spec_top_finish(acc2, e + 1)
                                    } else if e < s.len() && s[e] == 0x2c {
                                        spec_top_members(s, e + 1, acc2, false)
                                    } else {
                                        None
                                    }
                                } else {
                                    None
                                },
                                None => None,
                            }
                        } else {
                            None
                        }
                    } else {
                        None
                    }
                } else {
                    None
                },
                None => None,
            }
        }
    }
}

pub open spec fn view_opt_pos(o: Option<usize>) -> Option<int> {
    match o {
        Some(d) => Some(d as int),
        None => None,
    }
}

fn parse_top(s: &Vec<u8>, i: usize) -> (r: Option<(TagKind, usize, usize)>)
    requires
        i <= s.len(),
    ensures
        match r {
            Some((t, d, j)) => spec_top_members(
                s@,
                i as int,
                TopAccV { tag: None, data: None },
                true,
            ) == Some((t, d as int, j as int)) && d <= s.len() && j <= s.len(),
            None => spec_top_members(s@, i as int, TopAccV { tag: None, data: None }, true)
                is None,
        },
{
    let mut cur = i;
    let mut first = true;
    let mut a_tag: Option<TagKind> = None;
    let mut a_data: Option<usize> = None;
    loop
        invariant
            i <= cur <= s.len(),
            match a_data {
                Some(d) => d <= s.len(),
                None => true,
            },
            spec_top_members(s@, i as int, TopAccV { tag: None, data: None }, true)
                == spec_top_members(
                s@,
                cur as int,
                TopAccV { tag: a_tag, data: view_opt_pos(a_data) },
                first,
            ),
        decreases s.len() - cur,
    {
        let j = skip_ws(s, cur);
        if j >= s.len() {
            return None;
        }
        if first && s[j] == 0x7d {
            match (a_tag, a_data) {
                (Some(t), Some(d)) => {
                    return Some((t, d, j + 1));
                },
                _ => {
                    return None;
                },
            }
        }
        match parse_string(s, j) {
            None => {
                return None;
            },
            Some((key, k)) => {
                let c = skip_ws(s, k);
                if c >= s.len() || s[c] != 0x3a {
                    return None;
                }
                let v = skip_ws(s, c + 1);
                let w: usize;
                if bytes_eq(&key, "type".as_bytes()) {
                    if a_tag.is_some() {
                        return None;
                    }
                    match parse_string(s, v) {
                        Some((content, w2)) => {
                            match tag_of(&content) {
                                Some(t) => {
                                    a_tag = Some(t);
                                    w = w2;
                                },
                                None => {
                                    return None;
                                },
                            }
                        },
                        None => {
                            return None;
                        },
                    }
                } else if bytes_eq(&key, "data".as_bytes()) {
                    if a_data.is_some() {
                        return None;
                    }
                    match skip_value(s, v, SKIP_DEPTH) {
                        Some(w2) => {
                            a_data = Some(v);
                            w = w2;
                        },
                        None => {
                            return None;
                        },
                    }
                } else {
                    return None;
                }
                let e = skip_ws(s, w);
                if e < s.len() && s[e] == 0x7d {
                    match (a_tag, a_data) {
                        (Some(t), Some(d)) => {
                            return Some((t, d, e + 1));
                        },
                        _ => {
                            return None;
                        },
                    }
                }
                if e < s.len() && s[e] == 0x2c {
                    cur = e + 1;
                    first = false;
                } else {
                    return None;
                }
            },
        }
    }
}

/// The record a whole line's bytes denote: a tagged object whose `type`
/// member selects the kind and whose `data` member holds the payload, with
/// nothing but whitespace around it.
pub open spec fn spec_parse_record(s: Seq<u8>) -> Option<RawRecordV> {
    let i0 = spec_skip_ws(s, 0);
    if 0 <= i0 < s.len() && s[i0] == 0x7b {
        match spec_top_members(s, i0 + 1, TopAccV { tag: None, data: None }, true) {
            Some((tag, dpos, end)) => if spec_skip_ws(s, end) == s.len() {
                match tag {
                    TagKind::Begin => match spec_parse_begin_data(s, dpos) {
                        Some((b, _w)) => Some(RawRecordV::Begin(b)),
                        None => None,
                    },
                    TagKind::Match => match spec_parse_match_data(s, dpos) {
                        Some((m, _w)) => Some(RawRecordV::Match(m)),
                        None => None,
                    },
                    TagKind::End => match spec_parse_end_data(s, dpos) {
                        Some((en, _w)) => Some(RawRecordV::End(en)),
                        None => None,
                    },
                    TagKind::Context => match spec_parse_match_data(s, dpos) {
                        Some((m, _w)) => Some(
                            RawRecordV::Context(
                                ContextV {
                                    path: m.path,
                                    lines: m.lines,
                                    line_number: m.line_number,
                                    absolute_offset: m.absolute_offset,
                                    submatches: m.submatches,
                                },
                            ),
                        ),
                        None => None,
                    },
                    TagKind::Summary => match spec_parse_summary_data(s, dpos) {
                        Some((su, _w)) => Some(RawRecordV::Summary(su)),
                        None => None,
                    },
                }
            } else {
                None
            },
            None => None,
        }
    } else {
        None
    }
}

/// Decode one line's bytes as a record of the tool's schema.  `None` means
/// the line is not a well-formed record of any recognised kind.
pub fn parse_record(s: &Vec<u8>) -> (r: Option<RawRecord>)
    ensures
        match r {
            Some(rec) => spec_parse_record(s@) == Some(rec@),
            None => spec_parse_record(s@) is None,
        },
{
    let i0 = skip_ws(s, 0);
    if i0 >= s.len() || s[i0] != 0x7b {
        return None;
    }
    match parse_top(s, i0 + 1) {
        None => None,
        Some((tag, dpos, end)) => {
            let after = skip_ws(s, end);
            if after != s.len() {
                return None;
            }
            match tag {
                TagKind::Begin => match parse_begin_data(s, dpos) {
                    Some((b, _w)) => Some(RawRecord::Begin(b)),
                    None => None,
                },
                TagKind::Match => match parse_match_data(s, dpos) {
                    Some((m, _w)) => Some(RawRecord::Match(m)),
                    None => None,
                },
                TagKind::End => match parse_end_data(s, dpos) {
                    Some((en, _w)) => Some(RawRecord::End(en)),
                    None => None,
                },
                TagKind::Context => match parse_match_data(s, dpos) {
                    Some((m, _w)) => Some(
                        RawRecord::Context(
                            Context {
                                path: m.path,
                                lines: m.lines,
                                line_number: m.line_number,
                                absolute_offset: m.absolute_offset,
                                submatches: m.submatches,
                            },
                        ),
                    ),
                    None => None,
                },
                TagKind::Summary => match parse_summary_data(s, dpos) {
                    Some((su, _w)) => Some(RawRecord::Summary(su)),
                    None => None,
                },
            }
        },
    }
}

} // verus!
