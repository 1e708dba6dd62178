//! The consumer side of one search: how the display's state reacts to what
//! it finds on the channel each redraw tick.
//!
//! The accumulated result list is append-only for the lifetime of one
//! search; it is cleared only when a new search is explicitly started.

use vstd::prelude::*;

use crate::bridge::{SearchResult, SearchResultV};
use crate::decode::{GuiMatch, GuiMatchV};
use crate::text::{concat_str, spec_u64_string, u64_to_string};

verus! {

/// What one non-blocking poll of the channel found.
pub enum PollResult {
    /// An event was waiting.
    Received(SearchResult),
    /// Nothing was buffered; the worker is still running.
    Empty,
    /// The sending end is gone without a terminal event.
    Disconnected,
}

pub enum PollResultV {
    Received(SearchResultV),
    Empty,
    Disconnected,
}

impl View for PollResult {
    type V = PollResultV;

    open spec fn view(&self) -> PollResultV {
        match self {
            PollResult::Received(r) => PollResultV::Received(r@),
            PollResult::Empty => PollResultV::Empty,
            PollResult::Disconnected => PollResultV::Disconnected,
        }
    }
}

/// The display-owned state of the search screen.
pub struct ConsumerState {
    pub results: Vec<GuiMatch>,
    pub error_message: Option<String>,
    pub search_status: String,
    pub searching: bool,
}

pub open spec fn spec_results_of(s: &ConsumerState) -> Seq<GuiMatchV> {
    s.results@.map_values(|m: GuiMatch| m@)
}

pub open spec fn spec_found_status(n: int) -> Seq<char> {
    "Found "@ + spec_u64_string(n) + " results..."@
}

pub open spec fn spec_finished_status(n: int) -> Seq<char> {
    "Search finished. Found "@ + spec_u64_string(n) + " results."@
}

pub open spec fn spec_searching_status(n: int) -> Seq<char> {
    "Searching... Found "@ + spec_u64_string(n) + " results."@
}

pub open spec fn spec_failed_status(e: Seq<char>) -> Seq<char> {
    "Search failed: "@ + e
}

fn count_status(prefix: &str, n: u64, suffix: &str) -> (r: String)
    ensures
        r@ == prefix@ + spec_u64_string(n as int) + suffix@,
{
    let num = u64_to_string(n);
    let head = concat_str(prefix, num.as_str());
    concat_str(head.as_str(), suffix)
}

impl ConsumerState {
    /// The idle state before any search.
    pub fn new() -> (r: ConsumerState)
        ensures
            spec_results_of(&r) == Seq::<GuiMatchV>::empty(),
            r.error_message is None,
            r.search_status@ == "Ready"@,
            !r.searching,
    {
        let r = ConsumerState {
            results: Vec::new(),
            error_message: None,
            search_status: "Ready".to_owned(),
            searching: false,
        };
        proof {
            assert(spec_results_of(&r) =~= Seq::<GuiMatchV>::empty());
        }
        r
    }

    /// Begin a new search: the one place the accumulated list is cleared.
    pub fn start_search(&mut self)
        ensures
            spec_results_of(final(self)) == Seq::<GuiMatchV>::empty(),
            final(self).error_message is None,
            final(self).search_status@ == "Starting search..."@,
            final(self).searching,
    {
        self.results = Vec::new();
        self.error_message = None;
        self.search_status = "Starting search...".to_owned();
        self.searching = true;
        proof {
            assert(spec_results_of(self) =~= Seq::<GuiMatchV>::empty());
        }
    }

    /// Fold one poll of the channel into the display state.  The result list
    /// only ever grows here: every case leaves the old list a prefix of the
    /// new one.
    pub fn apply_poll(&mut self, p: PollResult)
        ensures
            spec_results_of(old(self)).is_prefix_of(spec_results_of(final(self))),
            match p@ {
                PollResultV::Received(SearchResultV::Match(m)) => {
                    &&& spec_results_of(final(self)) == spec_results_of(old(self)).push(m)
                    &&& final(self).searching == old(self).searching
                    &&& final(self).error_message == old(self).error_message
                    &&& final(self).search_status@ == spec_found_status(
                        spec_results_of(final(self)).len() as int,
                    )
                },
                PollResultV::Received(SearchResultV::Done) => {
                    &&& spec_results_of(final(self)) == spec_results_of(old(self))
                    &&& !final(self).searching
                    &&& final(self).error_message == old(self).error_message
                    &&& final(self).search_status@ == spec_finished_status(
                        spec_results_of(final(self)).len() as int,
                    )
                },
                PollResultV::Received(SearchResultV::Error(e)) => {
                    &&& spec_results_of(final(self)) == spec_results_of(old(self))
                    &&& !final(self).searching
                    &&& final(self).error_message matches Some(msg) && msg@ == e
                    &&& final(self).search_status@ == spec_failed_status(e)
                },
                PollResultV::Empty => {
                    &&& spec_results_of(final(self)) == spec_results_of(old(self))
                    &&& final(self).searching == old(self).searching
                    &&& final(self).error_message == old(self).error_message
                    &&& final(self).search_status@ == spec_searching_status(
                        spec_results_of(final(self)).len() as int,
                    )
                },
                PollResultV::Disconnected => {
                    &&& spec_results_of(final(self)) == spec_results_of(old(self))
                    &&& !final(self).searching
                    &&& final(self).error_message matches Some(msg) && msg@
                        == "Search thread disconnected unexpectedly."@
                    &&& final(self).search_status@ == "Error: Search thread disconnected."@
                },
            },
    {
        let ghost pre = spec_results_of(self);
        match p {
            PollResult::Received(SearchResult::Match(m)) => {
                let ghost mv = m@;
                self.results.push(m);
                proof {
                    assert(spec_results_of(self) =~= pre.push(mv));
                }
                let n = self.results.len() as u64;
                self.search_status = count_status("Found ", n, " results...");
            },
            PollResult::Received(SearchResult::Done) => {
                let n = self.results.len() as u64;
                self.search_status = count_status("Search finished. Found ", n, " results.");
                self.searching = false;
            },
            PollResult::Received(SearchResult::Error(e)) => {
                self.search_status = concat_str("Search failed: ", e.as_str());
                self.error_message = Some(e);
                self.searching = false;
            },
            PollResult::Empty => {
                let n = self.results.len() as u64;
                self.search_status = count_status("Searching... Found ", n, " results.");
            },
            PollResult::Disconnected => {
                self.error_message = Some("Search thread disconnected unexpectedly.".to_owned());
                self.search_status = "Error: Search thread disconnected.".to_owned();
                self.searching = false;
            },
        }
        proof {
            assert(spec_results_of(old(self)).is_prefix_of(spec_results_of(self)));
        }
    }
}

} // verus!
