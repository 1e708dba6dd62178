//! The search process bridge, as a state machine.
//!
//! One invocation of the search tool moves through launch, streaming and
//! exit.  The surrounding application performs the outside work — spawning
//! the child, reading its output, sending on the channel — and reports each
//! outcome here as an event; the machine decides what the consumer is sent.
//! The machine guarantees that at most one terminal event (`Done` or
//! `Error`) is ever emitted, and that nothing follows it.

use vstd::prelude::*;
use vstd::string::{StrSliceExecFns, StringSliceAdditionalSpecFns};
use vstd::utf8::encode_utf8;

use crate::decode::{decode_line, spec_decode_line, GuiMatch, GuiMatchV};
use crate::schema::view_opt;
use crate::text::{
    concat_str, lossy_decode, lossy_string, spec_trim, spec_u64_string, trim_str, u64_to_string,
};

verus! {

/// An event delivered to the consumer over the channel.
#[derive(Debug, PartialEq, Eq)]
pub enum SearchResult {
    Match(GuiMatch),
    Error(String),
    Done,
}

pub enum SearchResultV {
    Match(GuiMatchV),
    Error(Seq<char>),
    Done,
}

impl View for SearchResult {
    type V = SearchResultV;

    open spec fn view(&self) -> SearchResultV {
        match self {
            SearchResult::Match(m) => SearchResultV::Match(m@),
            SearchResult::Error(e) => SearchResultV::Error(e@),
            SearchResult::Done => SearchResultV::Done,
        }
    }
}

/// Whether an event ends the stream of one invocation.
pub open spec fn is_terminal(r: SearchResultV) -> bool {
    r is Error || r is Done
}

/// The phase one invocation is in.
#[derive(Debug, Clone, Copy, PartialEq, Eq)]
pub enum BridgePhase {
    Launching,
    Streaming,
    AwaitingExit,
    Complete,
}

/// What the surrounding application observed and reports to the machine.
pub enum BridgeEvent {
    /// The child process started.
    Launched,
    /// The child process could not be spawned.
    LaunchFailed { not_found: bool, detail: String },
    /// One line was read from the child's standard output.
    LineRead { line: String },
    /// Reading the child's standard output failed.
    ReadFailed { detail: String },
    /// The child's standard output is exhausted.
    OutputExhausted,
    /// The consumer dropped the receiving end of the channel.
    SinkClosed,
    /// The child exited; its captured standard error is carried along.
    Exited { success: bool, code: Option<i32>, stderr: Vec<u8> },
    /// Waiting for the child's exit failed.
    WaitFailed { detail: String },
}

pub enum BridgeEventV {
    Launched,
    LaunchFailed { not_found: bool, detail: Seq<char> },
    LineRead { line: Seq<char> },
    ReadFailed { detail: Seq<char> },
    OutputExhausted,
    SinkClosed,
    Exited { success: bool, code: Option<i32>, stderr: Seq<u8> },
    WaitFailed { detail: Seq<char> },
}

impl View for BridgeEvent {
    type V = BridgeEventV;

    open spec fn view(&self) -> BridgeEventV {
        match self {
            BridgeEvent::Launched => BridgeEventV::Launched,
            BridgeEvent::LaunchFailed { not_found, detail } => BridgeEventV::LaunchFailed {
                not_found: *not_found,
                detail: detail@,
            },
            BridgeEvent::LineRead { line } => BridgeEventV::LineRead { line: line@ },
            BridgeEvent::ReadFailed { detail } => BridgeEventV::ReadFailed { detail: detail@ },
            BridgeEvent::OutputExhausted => BridgeEventV::OutputExhausted,
            BridgeEvent::SinkClosed => BridgeEventV::SinkClosed,
            BridgeEvent::Exited { success, code, stderr } => BridgeEventV::Exited {
                success: *success,
                code: *code,
                stderr: stderr@,
            },
            BridgeEvent::WaitFailed { detail } => BridgeEventV::WaitFailed { detail: detail@ },
        }
    }
}

/// The message reported when the tool cannot be launched: a hint to install
/// it when it was not found, the spawn error otherwise.
pub open spec fn spec_launch_error(not_found: bool, detail: Seq<char>) -> Seq<char> {
    if not_found {
        "Error: 'rg' command not found. Please ensure ripgrep is installed and in your PATH."@
    } else {
        "Failed to spawn rg process: "@ + detail
    }
}

fn launch_error_message(not_found: bool, detail: &str) -> (r: String)
    ensures
        r@ == spec_launch_error(not_found, detail@),
{
    if not_found {
        "Error: 'rg' command not found. Please ensure ripgrep is installed and in your PATH.".to_owned()
    } else {
        concat_str("Failed to spawn rg process: ", detail)
    }
}

/// The decimal rendering of a possibly negative exit code.
pub open spec fn spec_i32_string(n: int) -> Seq<char> {
    if n >= 0 {
        spec_u64_string(n)
    } else {
        seq!['-'] + spec_u64_string(-n)
    }
}

fn i32_to_string(n: i32) -> (r: String)
    ensures
        r@ == spec_i32_string(n as int),
{
    if n >= 0 {
        u64_to_string(n as u64)
    } else {
        let m: u64 = (-(n as i64)) as u64;
        let digits = u64_to_string(m);
        let r = concat_str("-", digits.as_str());
        proof {
            reveal_strlit("-");
            assert("-"@ =~= seq!['-']);
            assert(r@ =~= spec_i32_string(n as int));
        }
        r
    }
}

/// The message reported for a non-success exit: the captured standard error
/// (trimmed) when there was any, else the exit code, else a generic notice
/// for an exit without a code.
pub open spec fn spec_exit_error(code: Option<i32>, stderr: Seq<u8>) -> Seq<char> {
    if lossy_decode(stderr).len() > 0 {
        "rg exited with error: "@ + spec_trim(lossy_decode(stderr))
    } else {
        match code {
            Some(c) => "rg exited with status: "@ + spec_i32_string(c as int),
            None => "rg exited with non-zero status."@,
        }
    }
}

fn exit_error_message(code: Option<i32>, stderr: &Vec<u8>) -> (r: String)
    ensures
        r@ == spec_exit_error(code, stderr@),
{
    let text = lossy_string(stderr);
    if text.as_str().unicode_len() > 0 {
        let trimmed = trim_str(text.as_str());
        concat_str("rg exited with error: ", trimmed.as_str())
    } else {
        match code {
            Some(c) => {
                let rendered = i32_to_string(c);
                concat_str("rg exited with status: ", rendered.as_str())
            },
            None => "rg exited with non-zero status.".to_owned(),
        }
    }
}

/// One step of the bridge: from the current phase and an observed event to
/// the next phase and the event, if any, that is emitted to the consumer.
/// An event that cannot arise in the given phase changes nothing.
pub open spec fn spec_step(p: BridgePhase, e: BridgeEventV) -> (BridgePhase, Option<SearchResultV>) {
    match (p, e) {
        (BridgePhase::Launching, BridgeEventV::Launched) => (BridgePhase::Streaming, None),
        (BridgePhase::Launching, BridgeEventV::LaunchFailed { not_found, detail }) => (
            BridgePhase::Complete,
            Some(SearchResultV::Error(spec_launch_error(not_found, detail))),
        ),
        (BridgePhase::Streaming, BridgeEventV::LineRead { line }) => match spec_decode_line(
            encode_utf8(line),
        ) {
            Some(m) => (BridgePhase::Streaming, Some(SearchResultV::Match(m))),
            None => (BridgePhase::Streaming, None),
        },
        (BridgePhase::Streaming, BridgeEventV::ReadFailed { detail }) => (
            BridgePhase::Complete,
            Some(SearchResultV::Error("Error reading rg output: "@ + detail)),
        ),
        (BridgePhase::Streaming, BridgeEventV::OutputExhausted) => (BridgePhase::AwaitingExit, None),
        (BridgePhase::Streaming, BridgeEventV::SinkClosed) => (BridgePhase::Complete, None),
        (BridgePhase::AwaitingExit, BridgeEventV::Exited { success, code, stderr }) => if success {
            (BridgePhase::Complete, Some(SearchResultV::Done))
        } else {
            (BridgePhase::Complete, Some(SearchResultV::Error(spec_exit_error(code, stderr))))
        },
        (BridgePhase::AwaitingExit, BridgeEventV::WaitFailed { detail }) => (
            BridgePhase::Complete,
            Some(SearchResultV::Error("Failed to wait for rg process: "@ + detail)),
        ),
        (_, _) => (p, None),
    }
}

/// Advance the bridge by one observed event.
pub fn bridge_step(phase: BridgePhase, event: BridgeEvent) -> (r: (
    BridgePhase,
    Option<SearchResult>,
))
    ensures
        r.0 == spec_step(phase, event@).0,
        view_opt(r.1) == spec_step(phase, event@).1,
{
    match (phase, event) {
        (BridgePhase::Launching, BridgeEvent::Launched) => (BridgePhase::Streaming, None),
        (BridgePhase::Launching, BridgeEvent::LaunchFailed { not_found, detail }) => (
            BridgePhase::Complete,
            Some(SearchResult::Error(launch_error_message(not_found, detail.as_str()))),
        ),
        (BridgePhase::Streaming, BridgeEvent::LineRead { line }) => match decode_line(
            line.as_str(),
        ) {
            Some(m) => (BridgePhase::Streaming, Some(SearchResult::Match(m))),
            None => (BridgePhase::Streaming, None),
        },
        (BridgePhase::Streaming, BridgeEvent::ReadFailed { detail }) => (
            BridgePhase::Complete,
            Some(SearchResult::Error(concat_str("Error reading rg output: ", detail.as_str()))),
        ),
        (BridgePhase::Streaming, BridgeEvent::OutputExhausted) => (BridgePhase::AwaitingExit, None),
        (BridgePhase::Streaming, BridgeEvent::SinkClosed) => (BridgePhase::Complete, None),
        (BridgePhase::AwaitingExit, BridgeEvent::Exited { success, code, stderr }) => {
            if success {
                (BridgePhase::Complete, Some(SearchResult::Done))
            } else {
                (
                    BridgePhase::Complete,
                    Some(SearchResult::Error(exit_error_message(code, &stderr))),
                )
            }
        },
        (BridgePhase::AwaitingExit, BridgeEvent::WaitFailed { detail }) => (
            BridgePhase::Complete,
            Some(SearchResult::Error(concat_str("Failed to wait for rg process: ", detail.as_str()))),
        ),
        (p, _) => (p, None),
    }
}

/// The emitted sequence of a step, as a sequence of zero or one events.
pub open spec fn opt_seq(o: Option<SearchResultV>) -> Seq<SearchResultV> {
    match o {
        Some(r) => seq![r],
        None => Seq::empty(),
    }
}

/// Run the machine over a whole sequence of observed events: the final
/// phase and everything emitted, in order.
pub open spec fn spec_run(p: BridgePhase, events: Seq<BridgeEventV>) -> (
    BridgePhase,
    Seq<SearchResultV>,
)
    decreases events.len(),
{
    if events.len() == 0 {
        (p, Seq::empty())
    } else {
        let first = spec_step(p, events[0]);
        let rest = spec_run(first.0, events.drop_first());
        (rest.0, opt_seq(first.1) + rest.1)
    }
}

/// How many terminal events a sequence holds.
pub open spec fn spec_count_terminals(s: Seq<SearchResultV>) -> int
    decreases s.len(),
{
    if s.len() == 0 {
        0
    } else {
        (if is_terminal(s[0]) {
            1int
        } else {
            0int
        }) + spec_count_terminals(s.drop_first())
    }
}

/// While streaming, each line emits exactly what it decodes to — a match
/// for a well-formed match record, nothing otherwise — and the machine keeps
/// streaming: lines are neither dropped, reordered nor buffered.
pub proof fn lemma_streaming_emits_decodes(line: Seq<char>)
    ensures
        spec_step(BridgePhase::Streaming, BridgeEventV::LineRead { line }).0
            == BridgePhase::Streaming,
        spec_step(BridgePhase::Streaming, BridgeEventV::LineRead { line }).1 == match spec_decode_line(
            encode_utf8(line),
        ) {
            Some(m) => Some(SearchResultV::Match(m)),
            None => None,
        },
{
}

/// A completed machine emits nothing more.
pub proof fn lemma_run_complete_silent(events: Seq<BridgeEventV>)
    ensures
        spec_run(BridgePhase::Complete, events).1 == Seq::<SearchResultV>::empty(),
        spec_run(BridgePhase::Complete, events).0 == BridgePhase::Complete,
    decreases events.len(),
{
    if events.len() > 0 {
        lemma_run_complete_silent(events.drop_first());
        assert(spec_run(BridgePhase::Complete, events).1 =~= Seq::<SearchResultV>::empty());
    }
}

/// A step that emits a terminal event completes the machine.
proof fn lemma_step_terminal_completes(p: BridgePhase, e: BridgeEventV)
    ensures
        match spec_step(p, e).1 {
            Some(r) => is_terminal(r) ==> spec_step(p, e).0 == BridgePhase::Complete,
            None => true,
        },
{
}

/// Whatever the events, one invocation emits at most one terminal event,
/// and any terminal event is the last thing emitted.
pub proof fn lemma_run_single_terminal(p: BridgePhase, events: Seq<BridgeEventV>)
    ensures
        spec_count_terminals(spec_run(p, events).1) <= 1,
        forall|k: int|
            0 <= k < spec_run(p, events).1.len() && is_terminal(
                #[trigger] spec_run(p, events).1[k],
            ) ==> k == spec_run(p, events).1.len() - 1,
    decreases events.len(),
{
    if events.len() > 0 {
        let first = spec_step(p, events[0]);
        let rest = spec_run(first.0, events.drop_first());
        let out = spec_run(p, events).1;
        lemma_run_single_terminal(first.0, events.drop_first());
        match first.1 {
            None => {
                assert(out =~= rest.1);
            },
            Some(r) => {
                assert(out =~= seq![r] + rest.1);
                assert(out.drop_first() =~= rest.1);
                if is_terminal(r) {
                    lemma_step_terminal_completes(p, events[0]);
                    lemma_run_complete_silent(events.drop_first());
                    assert(out =~= seq![r]);
                } else {
                    assert(spec_count_terminals(out) == spec_count_terminals(rest.1));
                    assert forall|k: int|
                        0 <= k < out.len() && is_terminal(#[trigger] out[k]) implies k == out.len()
                        - 1 by {
                        assert(k != 0);
                        assert(out[k] == rest.1[k - 1]);
                    }
                }
            },
        }
    }
}

} // verus!
