use rg_bridge::bridge::SearchResult;
use rg_bridge::consumer::{ConsumerState, PollResult};
use rg_bridge::decode::GuiMatch;

fn sample_match(n: u64) -> GuiMatch {
    GuiMatch {
        path: String::from("src/lib.rs"),
        line_number: n,
        line_text: format!("line {}", n),
    }
}

#[test]
fn new_state_is_idle() {
    let state = ConsumerState::new();
    assert!(state.results.is_empty());
    assert!(state.error_message.is_none());
    assert_eq!(state.search_status, "Ready");
    assert!(!state.searching);
}

#[test]
fn matches_accumulate_in_order_and_update_the_status() {
    let mut state = ConsumerState::new();
    state.start_search();
    assert_eq!(state.search_status, "Starting search...");
    assert!(state.searching);
    state.apply_poll(PollResult::Received(SearchResult::Match(sample_match(1))));
    assert_eq!(state.search_status, "Found 1 results...");
    state.apply_poll(PollResult::Received(SearchResult::Match(sample_match(2))));
    assert_eq!(state.results.len(), 2);
    assert_eq!(state.results[0].line_number, 1);
    assert_eq!(state.results[1].line_number, 2);
    assert_eq!(state.search_status, "Found 2 results...");
    assert!(state.searching);
}

#[test]
fn done_keeps_results_and_ends_the_search() {
    let mut state = ConsumerState::new();
    state.start_search();
    state.apply_poll(PollResult::Received(SearchResult::Match(sample_match(1))));
    state.apply_poll(PollResult::Received(SearchResult::Done));
    assert_eq!(state.results.len(), 1);
    assert_eq!(state.search_status, "Search finished. Found 1 results.");
    assert!(!state.searching);
}

#[test]
fn an_error_event_is_surfaced_and_ends_the_search() {
    let mut state = ConsumerState::new();
    state.start_search();
    state.apply_poll(PollResult::Received(SearchResult::Error(String::from("boom"))));
    assert_eq!(state.error_message.as_deref(), Some("boom"));
    assert_eq!(state.search_status, "Search failed: boom");
    assert!(!state.searching);
}

#[test]
fn an_empty_poll_only_refreshes_the_status() {
    let mut state = ConsumerState::new();
    state.start_search();
    state.apply_poll(PollResult::Received(SearchResult::Match(sample_match(1))));
    state.apply_poll(PollResult::Empty);
    assert_eq!(state.results.len(), 1);
    assert_eq!(state.search_status, "Searching... Found 1 results.");
    assert!(state.searching);
}

#[test]
fn a_disconnection_is_reported_as_unexpected() {
    let mut state = ConsumerState::new();
    state.start_search();
    state.apply_poll(PollResult::Disconnected);
    assert_eq!(
        state.error_message.as_deref(),
        Some("Search thread disconnected unexpectedly.")
    );
    assert_eq!(state.search_status, "Error: Search thread disconnected.");
    assert!(!state.searching);
}

#[test]
fn starting_a_new_search_clears_previous_results() {
    let mut state = ConsumerState::new();
    state.start_search();
    state.apply_poll(PollResult::Received(SearchResult::Match(sample_match(1))));
    state.apply_poll(PollResult::Received(SearchResult::Error(String::from("late failure"))));
    state.start_search();
    assert!(state.results.is_empty());
    assert!(state.error_message.is_none());
    assert!(state.searching);
}
