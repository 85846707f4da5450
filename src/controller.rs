use vstd::prelude::*;
use crate::status::{LifecycleStatus, classify_spec, classify_line};

verus! {

/// Which window the user sees.
#[derive(Clone, Copy, Debug, PartialEq, Eq, Structural)]
pub enum UiState {
    Splash,
    Main,
}

/// What the user interface is asked to do after one status.
#[derive(Clone, Debug)]
pub enum Reaction {
    /// Nothing is shown.
    Nothing,
    /// A `splash-update` event carrying this text.
    Notify(String),
    /// Close the splash window, then show and focus the main window.
    SwitchToMain,
}

/// The progress text shown for a status, if it has one.
pub open spec fn progress_message(st: LifecycleStatus) -> Option<Seq<char>> {
    match st {
        LifecycleStatus::Downloading => Some(
            "Downloading knowledge base... (this may take a while)"@,
        ),
        LifecycleStatus::Extracting => Some("Extracting ancient wisdom..."@),
        LifecycleStatus::InitializingEngine => Some("Initializing AI engine..."@),
        _ => None,
    }
}

/// Whether a status seen in state `s` hands over from the splash to the main window.
pub open spec fn switches(s: UiState, st: LifecycleStatus) -> bool {
    s == UiState::Splash && st == LifecycleStatus::Ready
}

/// The state after a status: `Main` once ready, and `Main` for good.
pub open spec fn next_state(s: UiState, st: LifecycleStatus) -> UiState {
    if st == LifecycleStatus::Ready {
        UiState::Main
    } else {
        s
    }
}

/// `r` is the reaction owed to status `st` seen in state `s`.
pub open spec fn reaction_is(r: Reaction, s: UiState, st: LifecycleStatus) -> bool {
    match r {
        Reaction::Nothing => !switches(s, st) && progress_message(st) is None,
        Reaction::Notify(m) => progress_message(st) == Some(m@),
        Reaction::SwitchToMain => switches(s, st),
    }
}

/// Whether `r` asks the user interface for anything.
pub open spec fn is_visible(r: Reaction) -> bool {
    !(r is Nothing)
}

/// The operator trace line that echoes a line of the worker's output.
pub open spec fn trace_of(line: Seq<char>) -> Seq<char> {
    "[BACKEND]: "@ + line
}

/// The state after a sequence of lines.
pub open spec fn state_after(s: UiState, lines: Seq<Seq<char>>) -> UiState
    decreases lines.len(),
{
    if lines.len() == 0 {
        s
    } else {
        next_state(state_after(s, lines.drop_last()), classify_spec(lines.last()))
    }
}

/// How many window hand-overs a sequence of lines causes.
pub open spec fn switch_count(s: UiState, lines: Seq<Seq<char>>) -> nat
    decreases lines.len(),
{
    if lines.len() == 0 {
        0
    } else {
        let prev = state_after(s, lines.drop_last());
        switch_count(s, lines.drop_last()) + if switches(prev, classify_spec(lines.last())) {
            1nat
        } else {
            0nat
        }
    }
}

/// Some line of `lines` announces readiness.
pub open spec fn has_ready(lines: Seq<Seq<char>>) -> bool {
    exists|i: int| 0 <= i < lines.len() && classify_spec(#[trigger] lines[i]) == LifecycleStatus::Ready
}

/// The reaction to status `status` in state `state`, and the state after it.
pub fn transition(state: UiState, status: LifecycleStatus) -> (r: (UiState, Reaction))
    ensures
        r.0 == next_state(state, status),
        reaction_is(r.1, state, status),
{
    match status {
        LifecycleStatus::Downloading => (
            state,
            Reaction::Notify("Downloading knowledge base... (this may take a while)".to_owned()),
        ),
        LifecycleStatus::Extracting => (
            state,
            Reaction::Notify("Extracting ancient wisdom...".to_owned()),
        ),
        LifecycleStatus::InitializingEngine => (
            state,
            Reaction::Notify("Initializing AI engine...".to_owned()),
        ),
        LifecycleStatus::Ready => {
            if state == UiState::Splash {
                (UiState::Main, Reaction::SwitchToMain)
            } else {
                (UiState::Main, Reaction::Nothing)
            }
        },
        LifecycleStatus::Unclassified => (state, Reaction::Nothing),
    }
}

/// What one line of the worker's output leads to.
#[derive(Clone, Debug)]
pub struct LineOutcome {
    /// The line as echoed to the operator trace.
    pub trace: String,
    pub status: LifecycleStatus,
    pub reaction: Reaction,
}

/// `o` is the outcome owed to `line` read in state `s`.
pub open spec fn outcome_is(o: LineOutcome, s: UiState, line: Seq<char>) -> bool {
    &&& o.trace@ == trace_of(line)
    &&& o.status == classify_spec(line)
    &&& reaction_is(o.reaction, s, o.status)
}

/// The supervisor's view of the worker: the window state it has driven so far.
pub struct Supervisor {
    pub state: UiState,
}

impl Supervisor {
    /// A supervisor that shows the splash window.
    pub fn new() -> (r: Supervisor)
        ensures
            r.state == UiState::Splash,
    {
        Supervisor { state: UiState::Splash }
    }

    /// Handles one line of the worker's output: traces it, classifies it and
    /// reacts to its status.
    pub fn handle_line(&mut self, line: &str) -> (o: LineOutcome)
        ensures
            outcome_is(o, old(self).state, line@),
            final(self).state == next_state(old(self).state, classify_spec(line@)),
    {
        let mut trace = "[BACKEND]: ".to_owned();
        trace.append(line);
        let status = classify_line(line);
        let (next, reaction) = transition(self.state, status);
        self.state = next;
        LineOutcome { trace, status, reaction }
    }

    /// Handles lines in the order given; outcome `i` belongs to line `i`.
    pub fn handle_lines(&mut self, lines: &Vec<String>) -> (r: Vec<LineOutcome>)
        ensures
            r@.len() == lines@.len(),
            forall|i: int|
                0 <= i < lines@.len() ==> outcome_is(
                    #[trigger] r@[i],
                    state_after(old(self).state, views_of(lines@).take(i)),
                    lines@[i]@,
                ),
            final(self).state == state_after(old(self).state, views_of(lines@)),
    {
        let ghost start = self.state;
        let mut r: Vec<LineOutcome> = Vec::new();
        let mut i: usize = 0;
        while i < lines.len()
            invariant
                i <= lines@.len(),
                r@.len() == i,
                self.state == state_after(start, views_of(lines@).take(i as int)),
                forall|k: int|
                    0 <= k < i ==> outcome_is(
                        #[trigger] r@[k],
                        state_after(start, views_of(lines@).take(k)),
                        lines@[k]@,
                    ),
            decreases lines@.len() - i,
        {
            let ghost vs = views_of(lines@);
            assert(vs.take(i + 1).drop_last() =~= vs.take(i as int));
            let o = self.handle_line(lines[i].as_str());
            r.push(o);
            i = i + 1;
        }
        assert(views_of(lines@).take(i as int) =~= views_of(lines@));
        r
    }

    /// The notification owed when the worker could not be started; the
    /// state is left as it is.
    pub fn spawn_failed(&self, error: &str) -> (r: String)
        ensures
            r@ == "Error: "@ + error@,
    {
        let mut r = "Error: ".to_owned();
        r.append(error);
        r
    }
}

/// The text of each line.
pub open spec fn views_of(lines: Seq<String>) -> Seq<Seq<char>> {
    lines.map_values(|l: String| l@)
}

} // verus!
