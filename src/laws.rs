use vstd::prelude::*;
use crate::controller::{
    UiState, Reaction, next_state, reaction_is, is_visible, state_after, switch_count, has_ready,
    progress_message,
};
use crate::status::{
    LifecycleStatus, classify_spec, contains_seq, downloading_marker, extracting_marker,
    initializing_marker,
};

verus! {

/// A line that carries a progress marker is classified by that marker
/// (the first one, where it carries several), gets a progress message, and
/// leaves the window state as it was.
pub proof fn lemma_progress_markers(line: Seq<char>, s: UiState)
    ensures
        contains_seq(line, downloading_marker()) ==> classify_spec(line)
            == LifecycleStatus::Downloading,
        contains_seq(line, extracting_marker()) && !contains_seq(line, downloading_marker())
            ==> classify_spec(line) == LifecycleStatus::Extracting,
        contains_seq(line, initializing_marker()) && !contains_seq(line, downloading_marker())
            && !contains_seq(line, extracting_marker()) ==> classify_spec(line)
            == LifecycleStatus::InitializingEngine,
        contains_seq(line, downloading_marker()) || contains_seq(line, extracting_marker())
            || contains_seq(line, initializing_marker()) ==> {
            &&& next_state(s, classify_spec(line)) == s
            &&& progress_message(classify_spec(line)) is Some
        },
{
}

/// Lines read while the main window shows never move a window, and the
/// main window stays.
pub proof fn lemma_ready_in_main_is_idle(lines: Seq<Seq<char>>)
    ensures
        switch_count(UiState::Main, lines) == 0,
        state_after(UiState::Main, lines) == UiState::Main,
        forall|r: Reaction|
            reaction_is(r, UiState::Main, LifecycleStatus::Ready) ==> r is Nothing,
    decreases lines.len(),
{
    if lines.len() > 0 {
        lemma_ready_in_main_is_idle(lines.drop_last());
    }
}

/// The state after some lines is `Main` exactly when one of them announced
/// readiness, and otherwise the state they started in.
pub proof fn lemma_state_after(s: UiState, lines: Seq<Seq<char>>)
    ensures
        state_after(s, lines) == if has_ready(lines) {
            UiState::Main
        } else {
            s
        },
    decreases lines.len(),
{
    if lines.len() > 0 {
        let init = lines.drop_last();
        lemma_state_after(s, init);
        lemma_has_ready_snoc(lines);
    }
}

proof fn lemma_has_ready_snoc(lines: Seq<Seq<char>>)
    requires
        lines.len() > 0,
    ensures
        has_ready(lines) == (has_ready(lines.drop_last()) || classify_spec(lines.last())
            == LifecycleStatus::Ready),
{
    let init = lines.drop_last();
    if has_ready(lines) {
        let i = choose|i: int|
            0 <= i < lines.len() && classify_spec(#[trigger] lines[i]) == LifecycleStatus::Ready;
        if i < init.len() {
            assert(init[i] == lines[i]);
        }
    }
    if has_ready(init) {
        let i = choose|i: int|
            0 <= i < init.len() && classify_spec(#[trigger] init[i]) == LifecycleStatus::Ready;
        assert(lines[i] == init[i]);
    }
    if classify_spec(lines.last()) == LifecycleStatus::Ready {
        assert(lines[lines.len() - 1] == lines.last());
    }
}

/// Starting on the splash window, a stream of lines hands over to the main
/// window exactly once if some line announces readiness (at the first such
/// line), and never otherwise; the state ends in `Main` exactly then.
pub proof fn lemma_single_hand_over(lines: Seq<Seq<char>>)
    ensures
        switch_count(UiState::Splash, lines) == if has_ready(lines) {
            1nat
        } else {
            0nat
        },
        state_after(UiState::Splash, lines) == UiState::Main <==> has_ready(lines),
        forall|r: Reaction|
            reaction_is(r, UiState::Splash, LifecycleStatus::Ready) ==> r is SwitchToMain,
    decreases lines.len(),
{
    lemma_state_after(UiState::Splash, lines);
    if lines.len() > 0 {
        let init = lines.drop_last();
        lemma_single_hand_over(init);
        lemma_state_after(UiState::Splash, init);
        lemma_has_ready_snoc(lines);
    }
}

/// A line with no marker is unclassified: whatever the state, it asks the
/// user interface for nothing and leaves the state as it was.
pub proof fn lemma_passthrough(line: Seq<char>, s: UiState)
    requires
        classify_spec(line) == LifecycleStatus::Unclassified,
    ensures
        next_state(s, classify_spec(line)) == s,
        forall|r: Reaction| reaction_is(r, s, classify_spec(line)) ==> !is_visible(r),
{
}

/// Apart from the readiness hand-over, the reaction to a status and its
/// effect on the state do not depend on what came before: any status other
/// than `Ready` gets the same reaction in every state and changes no state.
pub proof fn lemma_status_independent_of_history(st: LifecycleStatus, s1: UiState, s2: UiState)
    requires
        st != LifecycleStatus::Ready,
    ensures
        next_state(s1, st) == s1,
        forall|r: Reaction| reaction_is(r, s1, st) <==> reaction_is(r, s2, st),
{
}

} // verus!
