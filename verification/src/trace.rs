//! Runs of the lifecycle state machine over whole event sequences, and
//! the laws the coordination logic obeys along every such run.
//!
//! An input is an event paired with whether the window could be located
//! when the event was handled. [`run_trace`] folds [`spec_step`] over a
//! sequence of inputs; [`trace_actions`] collects the action each step
//! asked of the host.

use vstd::prelude::*;

use crate::lifecycle::{Action, AppState, Event, TrayTag, Visibility, spec_step};

verus! {

/// The state after consuming every input in order, starting from `s`.
pub open spec fn run_trace(s: AppState, inputs: Seq<(Event, bool)>) -> AppState
    decreases inputs.len(),
{
    if inputs.len() == 0 {
        s
    } else {
        run_trace(spec_step(s, inputs[0].0, inputs[0].1).0, inputs.drop_first())
    }
}

/// The actions the host is asked to perform while consuming every
/// input in order, starting from `s`.
pub open spec fn trace_actions(s: AppState, inputs: Seq<(Event, bool)>) -> Seq<Action>
    decreases inputs.len(),
{
    if inputs.len() == 0 {
        Seq::empty()
    } else {
        seq![spec_step(s, inputs[0].0, inputs[0].1).1] + trace_actions(
            spec_step(s, inputs[0].0, inputs[0].1).0,
            inputs.drop_first(),
        )
    }
}

/// How many inputs carry the window-ready event.
pub open spec fn count_ready_events(inputs: Seq<(Event, bool)>) -> nat
    decreases inputs.len(),
{
    if inputs.len() == 0 {
        0
    } else {
        (if inputs[0].0 == Event::WindowReady {
            1nat
        } else {
            0nat
        }) + count_ready_events(inputs.drop_first())
    }
}

/// How many actions ask for a style injection.
pub open spec fn count_injections(actions: Seq<Action>) -> nat
    decreases actions.len(),
{
    if actions.len() == 0 {
        0
    } else {
        (if actions[0] == Action::InjectStyle {
            1nat
        } else {
            0nat
        }) + count_injections(actions.drop_first())
    }
}

/// Consuming one more input at the end of a run is one more step after
/// the run.
pub proof fn lemma_run_trace_snoc(s: AppState, inputs: Seq<(Event, bool)>, last: (Event, bool))
    ensures
        run_trace(s, inputs.push(last)) == spec_step(run_trace(s, inputs), last.0, last.1).0,
    decreases inputs.len(),
{
    if inputs.len() == 0 {
        let s1 = spec_step(s, last.0, last.1).0;
        assert(inputs.push(last).drop_first() =~= Seq::<(Event, bool)>::empty());
        assert(run_trace(s1, Seq::<(Event, bool)>::empty()) == s1);
    } else {
        let s1 = spec_step(s, inputs[0].0, inputs[0].1).0;
        assert(inputs.push(last).drop_first() =~= inputs.drop_first().push(last));
        lemma_run_trace_snoc(s1, inputs.drop_first(), last);
    }
}

/// Every sequence of close requests leaves the window hidden and the
/// process running: closing never terminates, it only hides.
pub proof fn lemma_closes_end_hidden(s: AppState, closes: Seq<(Event, bool)>)
    requires
        s.running,
        closes.len() > 0,
        forall|i: int| 0 <= i < closes.len() ==> (#[trigger] closes[i]).0 == Event::CloseRequested,
    ensures
        run_trace(s, closes).visibility == Visibility::Hidden,
        run_trace(s, closes).running,
    decreases closes.len(),
{
    let s1 = spec_step(s, closes[0].0, closes[0].1).0;
    assert(closes[0].0 == Event::CloseRequested);
    assert(run_trace(s, closes) == run_trace(s1, closes.drop_first()));
    if closes.len() == 1 {
        assert(closes.drop_first() =~= Seq::<(Event, bool)>::empty());
        assert(run_trace(s1, closes.drop_first()) == s1);
    } else {
        assert(forall|i: int|
            0 <= i < closes.drop_first().len()
                ==> (#[trigger] closes.drop_first()[i]).0 == Event::CloseRequested);
        lemma_closes_end_hidden(s1, closes.drop_first());
    }
}

/// Hiding the window, however many times, and then selecting the
/// tray's show entry always ends with the window visible.
pub proof fn lemma_hide_then_show_ends_visible(s: AppState, closes: Seq<(Event, bool)>)
    requires
        s.running,
        forall|i: int| 0 <= i < closes.len() ==> (#[trigger] closes[i]).0 == Event::CloseRequested,
    ensures
        run_trace(s, closes.push((Event::TrayMenu(TrayTag::Show), true))).visibility
            == Visibility::Visible,
        run_trace(s, closes.push((Event::TrayMenu(TrayTag::Show), true))).running,
{
    lemma_run_trace_snoc(s, closes, (Event::TrayMenu(TrayTag::Show), true));
    if closes.len() > 0 {
        lemma_closes_end_hidden(s, closes);
    }
}

/// Selecting the tray's quit entry always terminates the process with
/// exit code zero, whatever the prior visibility state and whether or
/// not the window could be located.
pub proof fn lemma_quit_terminates(s: AppState, window_present: bool)
    requires
        s.running,
    ensures
        spec_step(s, Event::TrayMenu(TrayTag::Quit), window_present).1 == Action::Exit(0),
        !spec_step(s, Event::TrayMenu(TrayTag::Quit), window_present).0.running,
{
}

/// A second launch attempt while the window is hidden asks for exactly
/// a focus, never a show, and leaves the modelled visibility untouched:
/// the window stays hidden in the model even though the OS may raise it.
pub proof fn lemma_second_launch_focuses_only(s: AppState)
    requires
        s.running,
        s.visibility == Visibility::Hidden,
    ensures
        spec_step(s, Event::SecondLaunch, true).1 == Action::FocusWindow,
        spec_step(s, Event::SecondLaunch, true).1 != Action::ShowWindow,
        spec_step(s, Event::SecondLaunch, true).0 == s,
{
}

/// Along any run, style injection is asked for at most once per
/// window-ready event: no other event ever asks for it.
pub proof fn lemma_injection_at_most_once_per_ready(s: AppState, inputs: Seq<(Event, bool)>)
    ensures
        count_injections(trace_actions(s, inputs)) <= count_ready_events(inputs),
    decreases inputs.len(),
{
    if inputs.len() > 0 {
        let a = spec_step(s, inputs[0].0, inputs[0].1).1;
        let s1 = spec_step(s, inputs[0].0, inputs[0].1).0;
        let rest = trace_actions(s1, inputs.drop_first());
        assert((seq![a] + rest).drop_first() =~= rest);
        lemma_injection_at_most_once_per_ready(s1, inputs.drop_first());
    }
}

/// An unrecognized tray-menu tag changes nothing: the state (and with
/// it the visibility) is untouched, the process keeps running, and the
/// host is only asked to log a diagnostic.
pub proof fn lemma_unknown_tag_is_inert(s: AppState, window_present: bool)
    requires
        s.running,
    ensures
        spec_step(s, Event::TrayMenu(TrayTag::Other), window_present).0 == s,
        spec_step(s, Event::TrayMenu(TrayTag::Other), window_present).1 == Action::LogUnhandled,
{
}

/// The tray's quit entry is the only path that terminates the process:
/// a run without it leaves the process running.
pub proof fn lemma_only_quit_terminates(s: AppState, inputs: Seq<(Event, bool)>)
    requires
        s.running,
        forall|i: int| 0 <= i < inputs.len()
            ==> (#[trigger] inputs[i]).0 != Event::TrayMenu(TrayTag::Quit),
    ensures
        run_trace(s, inputs).running,
    decreases inputs.len(),
{
    if inputs.len() > 0 {
        lemma_only_quit_terminates(spec_step(s, inputs[0].0, inputs[0].1).0, inputs.drop_first());
    }
}

} // verus!
