use vstd::prelude::*;

verus! {

/// The phases the level goes through, in the order the game plays them.
#[derive(Clone, Copy, Debug, PartialEq, Eq, Structural, Hash)]
pub enum GamePhase {
    HangarEntering,
    HangarFight,
    MinibossFight,
    LabEntering,
    LabFight,
    BossEntering,
    BossFight,
}

impl GamePhase {
    /// The phase a new game starts in.
    pub fn default() -> (p: GamePhase)
        ensures
            p == GamePhase::HangarEntering,
    {
        GamePhase::HangarEntering
    }
}

/// The current phase of the level.
#[derive(Debug, Clone, Copy)]
pub struct GameState {
    phase: GamePhase,
}

impl View for GameState {
    type V = GamePhase;

    closed spec fn view(&self) -> GamePhase {
        self.phase
    }
}

impl Default for GameState {
    fn default() -> (s: GameState)
        ensures
            s@ == GamePhase::HangarEntering,
    {
        GameState { phase: GamePhase::default() }
    }
}

/// Phase and reported previous phase after asking `current` to move to `next`.
pub open spec fn transition_spec(current: GamePhase, next: GamePhase) -> (GamePhase, Option<GamePhase>) {
    if current == next {
        (current, None)
    } else {
        (next, Some(current))
    }
}

/// The phase reached after handling every request of `requests`, starting at `start`.
pub open spec fn phase_after(start: GamePhase, requests: Seq<GamePhase>) -> GamePhase {
    if requests.len() == 0 {
        start
    } else {
        requests.last()
    }
}

/// The "phase changed" notifications produced by handling `requests` in order, starting at
/// `start`: one for each request that names a phase other than the current one.
pub open spec fn changed_events(start: GamePhase, requests: Seq<GamePhase>) -> Seq<GamePhase>
    decreases requests.len(),
{
    if requests.len() == 0 {
        Seq::empty()
    } else {
        let prefix = requests.drop_last();
        let before = changed_events(start, prefix);
        if phase_after(start, prefix) == requests.last() {
            before
        } else {
            before.push(requests.last())
        }
    }
}

impl GameState {
    /// The current phase.
    pub fn phase(&self) -> (p: GamePhase)
        ensures
            p == self@,
    {
        self.phase
    }

    /// Moves to `next`; returns the previous phase when the phase changed, `None` when the
    /// state was already in `next`.
    pub fn transition_to(&mut self, next: GamePhase) -> (previous: Option<GamePhase>)
        ensures
            (final(self)@, previous) == transition_spec(old(self)@, next),
            final(self)@ == next,
    {
        if self.phase == next {
            None
        } else {
            let previous = self.phase;
            self.phase = next;
            Some(previous)
        }
    }
}

/// Handles the phase requests of one frame in order and returns the phases announced as
/// "changed", one per request that actually moved the state.
pub fn handle_game_phase_requests(state: &mut GameState, requests: &Vec<GamePhase>) -> (changed: Vec<
    GamePhase,
>)
    ensures
        changed@ == changed_events(old(state)@, requests@),
        final(state)@ == phase_after(old(state)@, requests@),
{
    let ghost start = state@;
    let mut changed: Vec<GamePhase> = Vec::new();
    let mut i: usize = 0;
    while i < requests.len()
        invariant
            0 <= i <= requests.len(),
            changed@ == changed_events(start, requests@.take(i as int)),
            state@ == phase_after(start, requests@.take(i as int)),
        decreases requests.len() - i,
    {
        let next = requests[i];
        assert(requests@.take(i + 1).drop_last() =~= requests@.take(i as int));
        if state.transition_to(next).is_some() {
            changed.push(next);
        }
        i = i + 1;
    }
    assert(requests@.take(requests.len() as int) =~= requests@);
    changed
}

/// Asking for the phase the game is already in changes nothing and reports nothing: a
/// repeated request is a no-op.
pub proof fn law_repeated_request_is_noop(current: GamePhase, next: GamePhase)
    ensures
        transition_spec(transition_spec(current, next).0, next) == (next, None::<GamePhase>),
{
}

proof fn lemma_changed_events_track_phase(start: GamePhase, requests: Seq<GamePhase>)
    ensures
        changed_events(start, requests).len() == 0 ==> phase_after(start, requests) == start,
        changed_events(start, requests).len() > 0 ==> changed_events(start, requests).last()
            == phase_after(start, requests),
        changed_events(start, requests).len() > 0 ==> changed_events(start, requests)[0]
            != start,
        forall|i: int|
            0 <= i < changed_events(start, requests).len() - 1 ==> #[trigger] changed_events(
                start,
                requests,
            )[i] != changed_events(start, requests)[i + 1],
    decreases requests.len(),
{
    if requests.len() > 0 {
        let prefix = requests.drop_last();
        lemma_changed_events_track_phase(start, prefix);
        let before = changed_events(start, prefix);
        let ce = changed_events(start, requests);
        if phase_after(start, prefix) != requests.last() {
            assert(ce == before.push(requests.last()));
            assert forall|i: int| 0 <= i < ce.len() - 1 implies #[trigger] ce[i] != ce[i + 1] by {
                if i < before.len() - 1 {
                    assert(ce[i] == before[i]);
                    assert(ce[i + 1] == before[i + 1]);
                }
            }
        }
    }
}

/// The "phase changed" notifications of a frame announce real changes only: the first differs
/// from the phase the frame started in, no two consecutive ones are equal, and the last one
/// is the phase the game ends the frame in.
pub proof fn law_changed_events_are_real_changes(start: GamePhase, requests: Seq<GamePhase>)
    ensures
        changed_events(start, requests).len() == 0 ==> phase_after(start, requests) == start,
        changed_events(start, requests).len() > 0 ==> changed_events(start, requests)[0]
            != start,
        changed_events(start, requests).len() > 0 ==> changed_events(start, requests).last()
            == phase_after(start, requests),
        forall|i: int|
            0 <= i < changed_events(start, requests).len() - 1 ==> #[trigger] changed_events(
                start,
                requests,
            )[i] != changed_events(start, requests)[i + 1],
{
    lemma_changed_events_track_phase(start, requests);
}

} // verus!
