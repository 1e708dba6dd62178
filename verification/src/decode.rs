//! The result-stream decoder: one line of the search tool's output in, at
//! most one display-ready match out.
//!
//! Lines whose record kind is not a match (begin, end, context, summary) and
//! lines that are not well-formed records both yield nothing; decoding is
//! total, so a corrupt line can never abort the stream.

use vstd::prelude::*;
use vstd::string::{StrSliceExecFns, StringSliceAdditionalSpecFns};

use crate::schema::{parse_record, spec_parse_record, view_opt, MatchV, RawRecord, RawRecordV};
use crate::text::{
    is_ws_char, lemma_trim_end_no_trailing_ws, spec_to_string_lossy, spec_trim_end, trim_end_str,
};

verus! {

/// One match, reduced to what the display needs.
#[derive(Debug, Clone, PartialEq, Eq)]
pub struct GuiMatch {
    pub path: String,
    pub line_number: u64,
    pub line_text: String,
}

pub struct GuiMatchV {
    pub path: Seq<char>,
    pub line_number: u64,
    pub line_text: Seq<char>,
}

impl View for GuiMatch {
    type V = GuiMatchV;

    open spec fn view(&self) -> GuiMatchV {
        GuiMatchV {
            path: self.path@,
            line_number: self.line_number,
            line_text: self.line_text@,
        }
    }
}

/// The display form of a match record: lossy text for path and line, the
/// line's trailing whitespace stripped, and a line number of 0 when the
/// record carries none.
pub open spec fn spec_gui_of(m: MatchV) -> GuiMatchV {
    GuiMatchV {
        path: spec_to_string_lossy(m.path.text_or_bytes),
        line_number: match m.line_number {
            Some(n) => n,
            None => 0,
        },
        line_text: spec_trim_end(spec_to_string_lossy(m.lines.text_or_bytes)),
    }
}

/// What one line of output decodes to: a display match exactly for
/// well-formed match records, nothing for every other line.
pub open spec fn spec_decode_line(s: Seq<u8>) -> Option<GuiMatchV> {
    match spec_parse_record(s) {
        Some(RawRecordV::Match(m)) => Some(spec_gui_of(m)),
        _ => None,
    }
}

/// Decode one line of the tool's output.
pub fn decode_line(line: &str) -> (r: Option<GuiMatch>)
    ensures
        view_opt(r) == spec_decode_line(line.spec_bytes()),
        r matches Some(m) ==> (m.line_text@.len() == 0 || !is_ws_char(m.line_text@.last())),
{
    let bytes = line.as_bytes_vec();
    match parse_record(&bytes) {
        Some(RawRecord::Match(m)) => {
            let path = m.path.text_or_bytes.to_string_lossy();
            let full_text = m.lines.text_or_bytes.to_string_lossy();
            let line_text = trim_end_str(full_text.as_str());
            let line_number = match m.line_number {
                Some(n) => n,
                None => 0,
            };
            proof {
                lemma_trim_end_no_trailing_ws(full_text@);
            }
            Some(GuiMatch { path, line_number, line_text })
        },
        _ => None,
    }
}

/// A decoded match's text never ends in whitespace, and its line number is 0
/// exactly when the record either carried no line number (the tool omits it
/// in some modes) or carried a literal 0.
pub proof fn lemma_decoded_match_shape(s: Seq<u8>, m: MatchV)
    requires
        spec_parse_record(s) == Some(RawRecordV::Match(m)),
    ensures
        spec_decode_line(s) == Some(spec_gui_of(m)),
        spec_gui_of(m).line_text.len() == 0 || !is_ws_char(spec_gui_of(m).line_text.last()),
        spec_gui_of(m).line_number == 0 <==> (m.line_number is None || m.line_number == Some(
            0u64,
        )),
{
    lemma_trim_end_no_trailing_ws(spec_to_string_lossy(m.lines.text_or_bytes));
}

/// A well-formed record of any kind other than a match yields no event.
pub proof fn lemma_non_match_yields_nothing(s: Seq<u8>)
    requires
        spec_parse_record(s) is Some,
        !(spec_parse_record(s) matches Some(RawRecordV::Match(_))),
    ensures
        spec_decode_line(s) is None,
{
}

/// A line that is not a well-formed record yields no event; together with
/// `decode_line` being total, a malformed line never fails the stream.
pub proof fn lemma_malformed_yields_nothing(s: Seq<u8>)
    requires
        spec_parse_record(s) is None,
    ensures
        spec_decode_line(s) is None,
{
}

/// Decoding is a function of the line alone: two decodings of the same line
/// are structurally equal.
pub proof fn lemma_decode_deterministic(s: Seq<u8>, r1: Option<GuiMatchV>, r2: Option<GuiMatchV>)
    requires
        r1 == spec_decode_line(s),
        r2 == spec_decode_line(s),
    ensures
        r1 == r2,
{
}

} // verus!
