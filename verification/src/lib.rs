//! Core of a desktop front-end for the `rg` line-search tool.
//!
//! The library holds everything that can be stated and proved: decoding the
//! tool's line-delimited JSON output into display-ready match records,
//! building the tool's argument list from user options, the per-invocation
//! bridge state machine that decides which event is emitted on each step of
//! a search, and the consumer-side accumulation of results.  Launching the
//! child process, reading its pipes and carrying events across a channel are
//! left to the surrounding application, which drives the state machine.

use vstd::prelude::*;

pub mod args;
pub mod bridge;
pub mod consumer;
pub mod decode;
pub mod json;
pub mod schema;
pub mod text;

pub use args::{build_args, split_globs, RgOptions};
pub use bridge::{bridge_step, BridgeEvent, BridgePhase, SearchResult};
pub use consumer::{ConsumerState, PollResult};
pub use decode::{decode_line, GuiMatch};
pub use schema::{Begin, Context, DurationData, End, Match, PathData, RawRecord, Stats, SubMatch,
    Summary, TextData};
pub use text::TextOrBytes;

verus! {

} // verus!
