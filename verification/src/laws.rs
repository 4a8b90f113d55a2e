//! What holds of every scan, proved over the state of the console sink.

use vstd::prelude::*;
use crate::console::{all_valid_text, unknown_found_text, ConsoleState};
use crate::event::EventView;
use crate::message::{MessageView, Stream};

verus! {

/// Events never change the configuration, and a sink is valid after a run
/// of events exactly when it was valid before and the run is empty.
pub proof fn after_events_state(state: ConsoleState, events: Seq<EventView>)
    ensures
        state.after_events(events).quiet == state.quiet,
        state.after_events(events).valid == (state.valid && events.len() == 0),
    decreases events.len(),
{
    if events.len() > 0 {
        after_events_state(state, events.drop_last());
    }
}

/// A scan without events passes, and prints the success line on standard
/// output and nothing else, or nothing at all when quiet.
pub proof fn empty_scan_passes(quiet: bool)
    ensures
        ConsoleState::initial(quiet).after_events(Seq::empty()).verdict(),
        !quiet ==> ConsoleState::initial(quiet).transcript(Seq::empty()) == seq![
            MessageView { stream: Stream::Stdout, text: all_valid_text() },
        ],
        quiet ==> ConsoleState::initial(quiet).transcript(Seq::empty()) == Seq::<
            MessageView,
        >::empty(),
{
    let state = ConsoleState::initial(quiet);
    let none = Seq::<EventView>::empty();
    assert(state.after_events(none) == state);
    assert(state.diagnostics(none) == Seq::<MessageView>::empty());
    if !quiet {
        assert(state.transcript(none) =~= seq![
            MessageView { stream: Stream::Stdout, text: all_valid_text() },
        ]);
    }
}

/// The verdict of a scan is `true` exactly when no event was received: one
/// event or more always fails it.
pub proof fn verdict_counts_events(quiet: bool, events: Seq<EventView>)
    ensures
        ConsoleState::initial(quiet).after_events(events).verdict() == (events.len() == 0),
{
    after_events_state(ConsoleState::initial(quiet), events);
}

/// Once invalid, a sink stays invalid whatever events follow.
pub proof fn invalid_is_final(state: ConsoleState, events: Seq<EventView>)
    requires
        !state.valid,
    ensures
        !state.after_events(events).valid,
{
    after_events_state(state, events);
}

/// A quiet sink prints nothing, neither for the events nor at the end, and
/// its verdict is that of a sink that prints.
pub proof fn quiet_is_silent(state: ConsoleState, events: Seq<EventView>)
    requires
        state.quiet,
    ensures
        state.diagnostics(events) == Seq::<MessageView>::empty(),
        state.transcript(events) == Seq::<MessageView>::empty(),
        state.after_events(events).verdict() == (ConsoleState {
            quiet: false,
            valid: state.valid,
        }).after_events(events).verdict(),
    decreases events.len(),
{
    after_events_state(state, events);
    after_events_state(ConsoleState { quiet: false, valid: state.valid }, events);
    if events.len() > 0 {
        quiet_is_silent(state, events.drop_last());
        after_events_state(state, events.drop_last());
    }
}

/// A sink that is not quiet prints one line per event on standard error, in
/// the order of arrival, each the diagnostic of its event.
pub proof fn diagnostics_follow_events(state: ConsoleState, events: Seq<EventView>)
    requires
        !state.quiet,
    ensures
        state.diagnostics(events).len() == events.len(),
        forall|i: int|
            0 <= i < events.len() ==> #[trigger] state.diagnostics(events)[i] == (MessageView {
                stream: Stream::Stderr,
                text: events[i].diagnostic(),
            }),
    decreases events.len(),
{
    if events.len() > 0 {
        let earlier = events.drop_last();
        diagnostics_follow_events(state, earlier);
        after_events_state(state, earlier);
        assert forall|i: int| 0 <= i < events.len() implies #[trigger] state.diagnostics(
            events,
        )[i] == (MessageView { stream: Stream::Stderr, text: events[i].diagnostic() }) by {
            if i < earlier.len() {
                assert(state.diagnostics(events)[i] == state.diagnostics(earlier)[i]);
                assert(earlier[i] == events[i]);
            }
        }
    }
}

/// A scan with events that is not quiet prints the diagnostics and then,
/// last, the failure line on standard error.
pub proof fn failed_scan_transcript(quiet: bool, events: Seq<EventView>)
    requires
        !quiet,
        events.len() > 0,
    ensures
        ConsoleState::initial(quiet).transcript(events) == ConsoleState::initial(
            quiet,
        ).diagnostics(events).push(
            MessageView { stream: Stream::Stderr, text: unknown_found_text() },
        ),
        ConsoleState::initial(quiet).transcript(events).len() == events.len() + 1,
{
    let state = ConsoleState::initial(quiet);
    after_events_state(state, events);
    diagnostics_follow_events(state, events);
}

} // verus!
