use open_timeline_gui::games::{
    offers, partition_people, partition_people_by, split_by_flags, step, variant_choice_enabled,
    which_date_answer, GameAction, GameEvent, GameKind, GameState,
};

#[test]
fn has_started_is_false_only_before_starting() {
    assert!(!GameState::NotStarted.has_started());
    assert!(GameState::StartedWaitingForTimeline.has_started());
    assert!(GameState::WaitingForAnswer.has_started());
    assert!(GameState::WaitingForNextRound.has_started());
    assert!(GameState::Finished.has_started());
}

#[test]
fn start_fetches_the_timeline() {
    assert!(offers(GameState::NotStarted, GameEvent::StartClicked, true, false, false));
    assert!(!offers(GameState::NotStarted, GameEvent::StartClicked, false, false, false));
    let (state, actions) = step(GameKind::Decades, GameState::NotStarted, GameEvent::StartClicked);
    assert_eq!(state, GameState::StartedWaitingForTimeline);
    assert_eq!(actions, vec![GameAction::NewGame, GameAction::FetchTimeline]);
}

#[test]
fn arriving_timeline_sets_up_the_first_round() {
    let (state, actions) = step(
        GameKind::LeftRight,
        GameState::StartedWaitingForTimeline,
        GameEvent::TimelineArrived { has_entities: true },
    );
    assert_eq!(state, GameState::WaitingForAnswer);
    assert_eq!(actions.last(), Some(&GameAction::SetupNextRound));
    let (state, actions) = step(
        GameKind::WereTheyAliveWhen,
        GameState::StartedWaitingForTimeline,
        GameEvent::TimelineArrived { has_entities: true },
    );
    assert_eq!(state, GameState::WaitingForAnswer);
    assert!(actions.contains(&GameAction::SetPeopleAndOtherEntityPools));
    let (state, _) = step(
        GameKind::Decades,
        GameState::StartedWaitingForTimeline,
        GameEvent::TimelineStillLoading,
    );
    assert_eq!(state, GameState::StartedWaitingForTimeline);
}

#[test]
fn a_round_checks_the_answer_then_moves_on() {
    let (state, actions) = step(GameKind::WhichDate, GameState::WaitingForAnswer, GameEvent::Answered);
    assert_eq!(state, GameState::WaitingForNextRound);
    assert_eq!(actions, vec![GameAction::CheckAnswer]);
    let (state, actions) =
        step(GameKind::WhichDate, GameState::WaitingForNextRound, GameEvent::NextRoundClicked);
    assert_eq!(state, GameState::WaitingForAnswer);
    assert_eq!(actions.last(), Some(&GameAction::SetupNextRound));
    assert!(!actions.contains(&GameAction::CheckAnswer));
    assert!(actions.contains(&GameAction::ClearAnswerInput));
}

#[test]
fn end_and_new_game() {
    let (state, _) = step(GameKind::Decades, GameState::WaitingForNextRound, GameEvent::EndClicked);
    assert_eq!(state, GameState::Finished);
    assert!(offers(GameState::Finished, GameEvent::NewGameClicked, true, true, true));
    let (state, actions) = step(GameKind::Decades, GameState::Finished, GameEvent::NewGameClicked);
    assert_eq!(state, GameState::NotStarted);
    assert_eq!(actions, vec![GameAction::NewGame]);
    assert!(variant_choice_enabled(GameState::NotStarted));
    assert!(!variant_choice_enabled(GameState::WaitingForAnswer));
}

#[test]
fn which_date_answer_is_a_plain_i32() {
    assert_eq!(which_date_answer("1066"), Some(1066));
    assert_eq!(which_date_answer("-44"), Some(-44));
    assert_eq!(which_date_answer(" 1066"), None);
    assert_eq!(which_date_answer(""), None);
    assert_eq!(which_date_answer("196O"), None);
    assert_eq!(which_date_answer("3000000000"), None);
}

#[test]
fn split_keeps_the_order_of_both_parts() {
    assert_eq!(split_by_flags(&vec![true, false, false, true]), (vec![0, 3], vec![1, 2]));
    assert_eq!(split_by_flags(&vec![]), (vec![], vec![]));
}

#[test]
fn people_are_the_entities_tagged_person() {
    let values = vec![
        vec![String::from("scientist"), String::from("person")],
        vec![String::from("battle")],
        vec![],
        vec![String::from("person")],
    ];
    assert_eq!(partition_people_by(&values, "person"), (vec![0, 3], vec![1, 2]));
    assert_eq!(partition_people(&values), Some((vec![0, 3], vec![1, 2])));
    assert_eq!(partition_people(&vec![vec![String::from("Person")]]), Some((vec![], vec![0])));
}
