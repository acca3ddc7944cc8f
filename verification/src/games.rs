//! The flow shared by the games: starting a game on a timeline, waiting for
//! it to load, asking and answering rounds, and ending.  The games themselves
//! run elsewhere; this decides, for the state of a game and what the user or
//! the database did, which state comes next and what the game is to do.

use crate::decimal::{parse_i32, parsed_i32};
use crate::helpers::{chars_of, same_text};
use crate::tags::{is_tag_component_text, tag_component_from};
use vstd::prelude::*;

verus! {

/// The state of a game
#[derive(Debug, Clone, Copy, PartialEq, Eq, Structural)]
pub enum GameState {
    NotStarted,
    StartedWaitingForTimeline,
    WaitingForAnswer,
    WaitingForNextRound,
    Finished,
}

impl GameState {
    /// Whether a game has been started (in any state but `NotStarted`)
    pub fn has_started(&self) -> (started: bool)
        ensures
            started == !(*self is NotStarted),
    {
        *self != GameState::NotStarted
    }
}

/// The games
#[derive(Debug, Clone, Copy, PartialEq, Eq, Structural)]
pub enum GameKind {
    /// Guess the decade of an entity
    Decades,
    /// Which of two entities came first
    LeftRight,
    /// Was a person alive at the time of an entity
    WereTheyAliveWhen,
    /// Enter the year or decade of an entity
    WhichDate,
}

/// What happens to a game
#[derive(Debug, Clone, Copy, PartialEq, Eq, Structural)]
pub enum GameEvent {
    /// The user clicked "Start"
    StartClicked,
    /// The timeline that the game is played with has been fetched; whether it
    /// holds any entities
    TimelineArrived { has_entities: bool },
    /// The timeline has not been fetched yet
    TimelineStillLoading,
    /// The user answered the current question
    Answered,
    /// The user clicked "End"
    EndClicked,
    /// The user clicked "Next Round"
    NextRoundClicked,
    /// The user clicked "New Game"
    NewGameClicked,
}

/// What the game is asked to do, in order
#[derive(Debug, Clone, Copy, PartialEq, Eq, Structural)]
pub enum GameAction {
    /// Reset the game engine for a new game
    NewGame,
    /// Ask the database for the timeline chosen
    FetchTimeline,
    /// Give the game engine the entities of the timeline
    SetEntityPool,
    /// Split the entities into people and the rest, and give both to the game
    /// engine
    SetPeopleAndOtherEntityPools,
    /// Prepare the next question
    SetupNextRound,
    /// Check the answer given
    CheckAnswer,
    /// Clear the text the user entered as an answer
    ClearAnswerInput,
}

/// What the GUI shows and offers when the user is to act
pub open spec fn event_offered(
    state: GameState,
    event: GameEvent,
    timeline_chosen: bool,
    has_question: bool,
    answer_ready: bool,
) -> bool {
    match event {
        GameEvent::StartClicked => state is NotStarted && timeline_chosen,
        GameEvent::TimelineArrived { .. } => state is StartedWaitingForTimeline,
        GameEvent::TimelineStillLoading => state is StartedWaitingForTimeline,
        GameEvent::Answered => state is WaitingForAnswer && has_question && answer_ready,
        GameEvent::EndClicked => state is WaitingForNextRound,
        GameEvent::NextRoundClicked => state is WaitingForNextRound,
        GameEvent::NewGameClicked => state is Finished || ((state is WaitingForAnswer
            || state is WaitingForNextRound) && !has_question),
    }
}

/// The state after the event
pub open spec fn state_after(state: GameState, event: GameEvent) -> GameState {
    match event {
        GameEvent::StartClicked => GameState::StartedWaitingForTimeline,
        GameEvent::TimelineArrived { .. } => GameState::WaitingForAnswer,
        GameEvent::TimelineStillLoading => state,
        GameEvent::Answered => GameState::WaitingForNextRound,
        GameEvent::EndClicked => GameState::Finished,
        GameEvent::NextRoundClicked => GameState::WaitingForAnswer,
        GameEvent::NewGameClicked => GameState::NotStarted,
    }
}

/// What the game is to do upon the event
pub open spec fn actions_for(kind: GameKind, event: GameEvent) -> Seq<GameAction> {
    match event {
        GameEvent::StartClicked => seq![GameAction::NewGame, GameAction::FetchTimeline],
        GameEvent::TimelineArrived { has_entities } => if kind is WereTheyAliveWhen {
            seq![GameAction::SetPeopleAndOtherEntityPools, GameAction::SetupNextRound]
        } else if has_entities {
            seq![GameAction::SetEntityPool, GameAction::SetupNextRound]
        } else {
            seq![GameAction::SetupNextRound]
        },
        GameEvent::TimelineStillLoading => seq![],
        GameEvent::Answered => seq![GameAction::CheckAnswer],
        GameEvent::EndClicked => seq![],
        GameEvent::NextRoundClicked => if kind is WhichDate {
            seq![GameAction::ClearAnswerInput, GameAction::SetupNextRound]
        } else {
            seq![GameAction::SetupNextRound]
        },
        GameEvent::NewGameClicked => seq![GameAction::NewGame],
    }
}

/// Whether the GUI offers the event: the "Start" button is enabled once a
/// timeline is chosen, answers can be given while a question is shown (for
/// typed answers, once the text reads as a number), "End" and "Next Round"
/// come after an answer, and "New Game" once the game has finished or when
/// there is no question to ask.
pub fn offers(
    state: GameState,
    event: GameEvent,
    timeline_chosen: bool,
    has_question: bool,
    answer_ready: bool,
) -> (offered: bool)
    ensures
        offered == event_offered(state, event, timeline_chosen, has_question, answer_ready),
{
    match event {
        GameEvent::StartClicked => state == GameState::NotStarted && timeline_chosen,
        GameEvent::TimelineArrived { .. } => state == GameState::StartedWaitingForTimeline,
        GameEvent::TimelineStillLoading => state == GameState::StartedWaitingForTimeline,
        GameEvent::Answered => state == GameState::WaitingForAnswer && has_question
            && answer_ready,
        GameEvent::EndClicked => state == GameState::WaitingForNextRound,
        GameEvent::NextRoundClicked => state == GameState::WaitingForNextRound,
        GameEvent::NewGameClicked => state == GameState::Finished || ((state
            == GameState::WaitingForAnswer || state == GameState::WaitingForNextRound)
            && !has_question),
    }
}

/// The next state of the game and what the game is to do, upon an event that
/// the GUI offered.
pub fn step(kind: GameKind, state: GameState, event: GameEvent) -> (r: (GameState, Vec<GameAction>))
    ensures
        r.0 == state_after(state, event),
        r.1@ == actions_for(kind, event),
{
    let mut actions: Vec<GameAction> = Vec::new();
    let next = match event {
        GameEvent::StartClicked => {
            actions.push(GameAction::NewGame);
            actions.push(GameAction::FetchTimeline);
            GameState::StartedWaitingForTimeline
        },
        GameEvent::TimelineArrived { has_entities } => {
            if kind == GameKind::WereTheyAliveWhen {
                actions.push(GameAction::SetPeopleAndOtherEntityPools);
            } else if has_entities {
                actions.push(GameAction::SetEntityPool);
            }
            actions.push(GameAction::SetupNextRound);
            GameState::WaitingForAnswer
        },
        GameEvent::TimelineStillLoading => state,
        GameEvent::Answered => {
            actions.push(GameAction::CheckAnswer);
            GameState::WaitingForNextRound
        },
        GameEvent::EndClicked => GameState::Finished,
        GameEvent::NextRoundClicked => {
            if kind == GameKind::WhichDate {
                actions.push(GameAction::ClearAnswerInput);
            }
            actions.push(GameAction::SetupNextRound);
            GameState::WaitingForAnswer
        },
        GameEvent::NewGameClicked => {
            actions.push(GameAction::NewGame);
            GameState::NotStarted
        },
    };
    proof {
        assert(actions@ =~= actions_for(kind, event));
    }
    (next, actions)
}

/// Whether the "which date" game lets the user change its variant (start or
/// end date, year or decade): only before the game starts
pub fn variant_choice_enabled(state: GameState) -> (enabled: bool)
    ensures
        enabled == (state is NotStarted),
{
    state == GameState::NotStarted
}

/// "New Game" always leads back to the start, from wherever it is offered
pub proof fn law_new_game_restarts(
    kind: GameKind,
    state: GameState,
    timeline_chosen: bool,
    has_question: bool,
    answer_ready: bool,
)
    requires
        event_offered(state, GameEvent::NewGameClicked, timeline_chosen, has_question, answer_ready),
    ensures
        state_after(state, GameEvent::NewGameClicked) is NotStarted,
        actions_for(kind, GameEvent::NewGameClicked) == seq![GameAction::NewGame],
{
}

/// A game leaves its initial state only by starting, which needs a timeline
/// and fetches it
pub proof fn law_only_start_leaves_not_started(
    kind: GameKind,
    event: GameEvent,
    timeline_chosen: bool,
    has_question: bool,
    answer_ready: bool,
)
    requires
        event_offered(GameState::NotStarted, event, timeline_chosen, has_question, answer_ready),
    ensures
        event is StartClicked,
        timeline_chosen,
        state_after(GameState::NotStarted, event) is StartedWaitingForTimeline,
        actions_for(kind, event).contains(GameAction::FetchTimeline),
{
    assert(actions_for(kind, event)[1] == GameAction::FetchTimeline);
}

/// A round: answering and moving on returns to waiting for an answer, having
/// checked the answer once and prepared the next question once
pub proof fn law_round_trip(kind: GameKind)
    ensures
        state_after(state_after(GameState::WaitingForAnswer, GameEvent::Answered), GameEvent::NextRoundClicked)
            is WaitingForAnswer,
        actions_for(kind, GameEvent::Answered) == seq![GameAction::CheckAnswer],
        actions_for(kind, GameEvent::NextRoundClicked).last() == GameAction::SetupNextRound,
        !actions_for(kind, GameEvent::NextRoundClicked).contains(GameAction::CheckAnswer),
{
}

/// Once started, a game goes back to `NotStarted` by "New Game" and by no
/// other event, and "New Game" is all that a finished game offers
pub proof fn law_started_until_new_game(
    state: GameState,
    event: GameEvent,
    timeline_chosen: bool,
    has_question: bool,
    answer_ready: bool,
)
    requires
        event_offered(state, event, timeline_chosen, has_question, answer_ready),
        !(state is NotStarted),
    ensures
        (state_after(state, event) is NotStarted) <==> (event is NewGameClicked),
        state is Finished ==> event is NewGameClicked,
{
}

/// The answer typed into the "which date" game: the text read as an `i32`,
/// as it stands (no whitespace is allowed); "Submit" is offered only when
/// there is one
pub fn which_date_answer(text: &str) -> (answer: Option<i32>)
    ensures
        match answer {
            Some(v) => parsed_i32(text@) == Some(v as int),
            None => parsed_i32(text@) is None,
        },
{
    let chars = chars_of(text);
    parse_i32(&chars)
}

/// The entity has a tag whose value is `person`
pub open spec fn has_value(values: Seq<Seq<char>>, person: Seq<char>) -> bool {
    exists|j: int| 0 <= j < values.len() && values[j] == person
}

/// The indices, in order, of the flags that equal `want`
pub open spec fn indices_where(flags: Seq<bool>, want: bool) -> Seq<usize>
    decreases flags.len(),
{
    if flags.len() == 0 {
        Seq::empty()
    } else if flags.last() == want {
        indices_where(flags.drop_last(), want).push((flags.len() - 1) as usize)
    } else {
        indices_where(flags.drop_last(), want)
    }
}

/// The texts of a list of strings
pub open spec fn texts(v: Seq<String>) -> Seq<Seq<char>> {
    v.map_values(|s: String| s@)
}

/// Whether one of the texts is `target`
fn any_text_is(values: &Vec<String>, target: &str) -> (found: bool)
    ensures
        found == has_value(texts(values@), target@),
{
    let mut i: usize = 0;
    while i < values.len()
        invariant
            i <= values.len(),
            forall|j: int| 0 <= j < i ==> values@[j]@ != target@,
        decreases values.len() - i,
    {
        if same_text(values[i].as_str(), target) {
            proof {
                assert(texts(values@)[i as int] == target@);
            }
            return true;
        }
        i = i + 1;
    }
    proof {
        if has_value(texts(values@), target@) {
            let j = choose|j: int| 0 <= j < texts(values@).len() && texts(values@)[j] == target@;
            assert(values@[j]@ == target@);
        }
    }
    false
}

/// The indices of the `true` flags and of the `false` flags, each in order
pub fn split_by_flags(flags: &Vec<bool>) -> (r: (Vec<usize>, Vec<usize>))
    ensures
        r.0@ == indices_where(flags@, true),
        r.1@ == indices_where(flags@, false),
{
    let mut yes: Vec<usize> = Vec::new();
    let mut no: Vec<usize> = Vec::new();
    for i in 0..flags.len()
        invariant
            yes@ == indices_where(flags@.take(i as int), true),
            no@ == indices_where(flags@.take(i as int), false),
    {
        proof {
            assert(flags@.take(i + 1).drop_last() =~= flags@.take(i as int));
        }
        if flags[i] {
            yes.push(i);
        } else {
            no.push(i);
        }
    }
    proof {
        assert(flags@.take(flags.len() as int) =~= flags@);
    }
    (yes, no)
}

/// The entities with a tag valued `person` and the others, as their indices
/// in order; `entity_tag_values[i]` holds the tag values of entity `i`
pub fn partition_people_by(entity_tag_values: &Vec<Vec<String>>, person: &str) -> (r: (
    Vec<usize>,
    Vec<usize>,
))
    ensures
        ({
            let flags = Seq::new(
                entity_tag_values@.len(),
                |i: int| has_value(texts(entity_tag_values@[i]@), person@),
            );
            r.0@ == indices_where(flags, true) && r.1@ == indices_where(flags, false)
        }),
{
    let ghost flags_spec = Seq::new(
        entity_tag_values@.len(),
        |i: int| has_value(texts(entity_tag_values@[i]@), person@),
    );
    let mut flags: Vec<bool> = Vec::new();
    for i in 0..entity_tag_values.len()
        invariant
            flags@ == flags_spec.take(i as int),
            flags_spec.len() == entity_tag_values@.len(),
            flags_spec == Seq::new(
                entity_tag_values@.len(),
                |i: int| has_value(texts(entity_tag_values@[i]@), person@),
            ),
    {
        let f = any_text_is(&entity_tag_values[i], person);
        flags.push(f);
        proof {
            assert(flags_spec.take(i + 1) =~= flags_spec.take(i as int).push(f));
        }
    }
    proof {
        assert(flags_spec.take(entity_tag_values.len() as int) =~= flags_spec);
    }
    split_by_flags(&flags)
}

/// The people and the rest among the entities of a timeline, for the "were
/// they alive when" game: people are the entities with a tag whose value is
/// the tag component `person`, which the tag crate accepts as it is, so the
/// result is always `Some`.
pub fn partition_people(entity_tag_values: &Vec<Vec<String>>) -> (r: Option<(Vec<usize>, Vec<usize>)>)
    ensures
        r matches Some(p) && ({
            let flags = Seq::new(
                entity_tag_values@.len(),
                |i: int| has_value(texts(entity_tag_values@[i]@), "person"@),
            );
            p.0@ == indices_where(flags, true) && p.1@ == indices_where(flags, false)
        }),
{
    proof {
        reveal_strlit("person");
        assert(is_tag_component_text("person"@));
    }
    match tag_component_from("person") {
        Ok(person) => Some(partition_people_by(entity_tag_values, person.as_str())),
        Err(_) => None,
    }
}

/// Every index is in exactly one of the two lists, and the two lists
/// together are as long as the flags (which, as the flags of a `Vec`, are
/// countable in a `usize`)
pub proof fn law_split_is_a_partition(flags: Seq<bool>)
    requires
        flags.len() <= usize::MAX,
    ensures
        indices_where(flags, true).len() + indices_where(flags, false).len() == flags.len(),
        forall|i: int|
            0 <= i < flags.len() ==> (indices_where(flags, flags[i]).contains(i as usize)
                && !indices_where(flags, !flags[i]).contains(i as usize)),
    decreases flags.len(),
{
    if flags.len() > 0 {
        let d = flags.drop_last();
        law_split_is_a_partition(d);
        lemma_indices_below(d, true);
        lemma_indices_below(d, false);
        assert forall|i: int| 0 <= i < flags.len() implies (indices_where(
            flags,
            flags[i],
        ).contains(i as usize) && !indices_where(flags, !flags[i]).contains(i as usize)) by {
            let n = (flags.len() - 1) as usize;
            if i < flags.len() - 1 {
                assert(d[i] == flags[i]);
                let k = indices_where(d, flags[i]).index_of(i as usize);
                assert(indices_where(flags, flags[i])[k] == i as usize);
                if indices_where(flags, !flags[i]).contains(i as usize) {
                    let m = indices_where(flags, !flags[i]).index_of(i as usize);
                    if m < indices_where(d, !flags[i]).len() {
                        assert(indices_where(d, !flags[i])[m] == i as usize);
                    }
                }
            } else {
                let w = indices_where(flags, flags[i]);
                assert(w[w.len() - 1] == n);
                if indices_where(flags, !flags[i]).contains(n) {
                    let m = indices_where(flags, !flags[i]).index_of(n);
                    assert(indices_where(d, !flags[i])[m] == n);
                }
            }
        }
    }
}

/// The indices listed for some flags all lie below their count
proof fn lemma_indices_below(flags: Seq<bool>, want: bool)
    requires
        flags.len() <= usize::MAX,
    ensures
        forall|k: int|
            0 <= k < indices_where(flags, want).len() ==> #[trigger] indices_where(flags, want)[k]
                < flags.len(),
    decreases flags.len(),
{
    if flags.len() > 0 {
        let d = flags.drop_last();
        lemma_indices_below(d, want);
        let w = indices_where(flags, want);
        assert forall|k: int| 0 <= k < w.len() implies #[trigger] w[k] < flags.len() by {
            if k < indices_where(d, want).len() {
                assert(w[k] == indices_where(d, want)[k]);
            }
        }
    }
}

/// When the timeline arrives the game waits for an answer, having prepared
/// its round last.  Every game but "were they alive when" is first given the
/// entities of the timeline when it has any (and is given no pool when it
/// has none); "were they alive when" is given the people and the other
/// entities.
pub proof fn law_arrived_timeline_fills_the_pool(kind: GameKind, has_entities: bool)
    ensures
        state_after(
            GameState::StartedWaitingForTimeline,
            GameEvent::TimelineArrived { has_entities },
        ) is WaitingForAnswer,
        actions_for(kind, GameEvent::TimelineArrived { has_entities }).last()
            == GameAction::SetupNextRound,
        !(kind is WereTheyAliveWhen) && has_entities ==> actions_for(
            kind,
            GameEvent::TimelineArrived { has_entities },
        ) == seq![GameAction::SetEntityPool, GameAction::SetupNextRound],
        !(kind is WereTheyAliveWhen) && !has_entities ==> actions_for(
            kind,
            GameEvent::TimelineArrived { has_entities },
        ) == seq![GameAction::SetupNextRound],
        kind is WereTheyAliveWhen ==> actions_for(
            kind,
            GameEvent::TimelineArrived { has_entities },
        ) == seq![GameAction::SetPeopleAndOtherEntityPools, GameAction::SetupNextRound],
{
}

/// What each button asks of the game: "Start" resets the game and fetches
/// the timeline, an answer is checked, "End" asks nothing and finishes the
/// game, "Next Round" prepares the next question (clearing the typed answer
/// first in the "which date" game), and "New Game" resets the game
pub proof fn law_buttons_ask_their_actions(kind: GameKind, state: GameState)
    ensures
        state_after(state, GameEvent::StartClicked) is StartedWaitingForTimeline,
        actions_for(kind, GameEvent::StartClicked) == seq![
            GameAction::NewGame,
            GameAction::FetchTimeline,
        ],
        state_after(state, GameEvent::Answered) is WaitingForNextRound,
        actions_for(kind, GameEvent::Answered) == seq![GameAction::CheckAnswer],
        state_after(state, GameEvent::EndClicked) is Finished,
        actions_for(kind, GameEvent::EndClicked).len() == 0,
        state_after(state, GameEvent::NextRoundClicked) is WaitingForAnswer,
        kind is WhichDate ==> actions_for(kind, GameEvent::NextRoundClicked) == seq![
            GameAction::ClearAnswerInput,
            GameAction::SetupNextRound,
        ],
        !(kind is WhichDate) ==> actions_for(kind, GameEvent::NextRoundClicked) == seq![
            GameAction::SetupNextRound,
        ],
        state_after(state, GameEvent::TimelineStillLoading) == state,
        actions_for(kind, GameEvent::TimelineStillLoading).len() == 0,
{
}

/// When each event is offered: "Start" before the game once a timeline is
/// chosen; the timeline's arrival (or its still loading) while waiting for
/// it; an answer while a question waits and an answer is ready; "End" and
/// "Next Round" after an answer; "New Game" once finished, or when no
/// question can be asked during the game
pub proof fn law_events_offered(
    state: GameState,
    timeline_chosen: bool,
    has_question: bool,
    answer_ready: bool,
    has_entities: bool,
)
    ensures
        event_offered(state, GameEvent::StartClicked, timeline_chosen, has_question, answer_ready)
            <==> (state is NotStarted && timeline_chosen),
        event_offered(
            state,
            GameEvent::TimelineArrived { has_entities },
            timeline_chosen,
            has_question,
            answer_ready,
        ) <==> state is StartedWaitingForTimeline,
        event_offered(state, GameEvent::Answered, timeline_chosen, has_question, answer_ready)
            <==> (state is WaitingForAnswer && has_question && answer_ready),
        event_offered(state, GameEvent::EndClicked, timeline_chosen, has_question, answer_ready)
            <==> state is WaitingForNextRound,
        event_offered(
            state,
            GameEvent::NextRoundClicked,
            timeline_chosen,
            has_question,
            answer_ready,
        ) <==> state is WaitingForNextRound,
        event_offered(state, GameEvent::NewGameClicked, timeline_chosen, has_question, answer_ready)
            <==> (state is Finished || (!has_question && (state is WaitingForAnswer
            || state is WaitingForNextRound))),
{
}

} // verus!
