use libdarts::player::Player;
use libdarts::throw::Throw;
use libdarts::x01::leg::{Leg, State, ThrowResult};
use libdarts::x01::participants::Participants;
use libdarts::x01::ruleset::{InRule, OutRule, Ruleset};
use libdarts::x01::set::{CreateSetError, LegSet};

fn test_participants(n: u8) -> Participants {
    let mut participants = Participants::new();

    if n > 0 {
        participants = participants.add(&Player::new("Anna").unwrap());
    }

    if n > 1 {
        participants = participants.add(&Player::new("Pete").unwrap());
    }

    participants.build().unwrap()
}

#[test]
fn leg_simple_game() {
    let participants = test_participants(1);

    let ruleset = Ruleset::new().score(101).unwrap().build();

    let game = Leg::new(&ruleset, &participants);

    let first_throw = Throw::triple(20).unwrap();
    let second_throw = Throw::double(20).unwrap();
    let third_throw = Throw::single(1).unwrap();

    let ThrowResult { state, game } = game.add_throw(first_throw);

    assert_eq!(state, State::Unfinished);
    assert_eq!(game.current_points(), 41);

    let ThrowResult { state, game } = game.add_throw(second_throw);

    assert_eq!(state, State::Unfinished);
    assert_eq!(game.current_points(), 1);

    let ThrowResult { state, game } = game.add_throw(third_throw);

    assert_eq!(state, State::Finished);
    assert_eq!(game.current_points(), 0);
}

#[test]
fn leg_switching_players_works() {
    let participants = test_participants(2);

    let ruleset = Ruleset::new().score(101).unwrap().build();

    let mut game = Leg::new(&ruleset, &participants);

    let miss = Throw::miss().unwrap();

    assert_eq!(
        game.current_player().name(),
        participants.participant(0).player.name()
    );

    for _ in 0..3 {
        let ThrowResult {
            state: _,
            game: new_turn,
        } = game.add_throw(miss.clone());

        game = new_turn;
    }
    assert_eq!(
        game.current_player().name(),
        participants.participant(1).player.name()
    );
}

#[test]
fn leg_score_calculated_correctly() {
    let participants = test_participants(1);

    let ruleset = Ruleset::new().score(101).unwrap().build();

    let game = Leg::new(&ruleset, &participants);

    let miss = Throw::miss().unwrap();
    let d20 = Throw::double(20).unwrap();

    let ThrowResult { state: _, game } = game.add_throw(d20.clone());

    assert_eq!(game.current_points(), 61);

    let ThrowResult { state: _, game } = game.add_throw(miss.clone());
    let ThrowResult { state: _, game } = game.add_throw(miss.clone());

    assert_eq!(game.current_points(), 61);
}

#[test]
fn leg_score_is_calculated_correctyl_again_when_first_players_turn_again() {
    let participants = test_participants(2);

    let ruleset = Ruleset::new().score(101).unwrap().build();

    let game = Leg::new(&ruleset, &participants);

    let miss = Throw::miss().unwrap();
    let d20 = Throw::double(20).unwrap();

    let ThrowResult { state: _, game } = game.add_throw(d20.clone());

    assert_eq!(game.current_points(), 61);

    let ThrowResult { state: _, game } = game.add_throw(miss.clone());
    let ThrowResult { state: _, game } = game.add_throw(miss.clone());

    assert_eq!(game.current_points(), 101);

    let ThrowResult { state: _, game } = game.add_throw(miss.clone());
    let ThrowResult { state: _, game } = game.add_throw(miss.clone());
    let ThrowResult { state: _, game } = game.add_throw(miss.clone());

    assert_eq!(game.current_points(), 61);
}

#[test]
fn leg_next_player_after_bust() {
    let participants = test_participants(2);

    let ruleset = Ruleset::new().score(101).unwrap().build();

    let game = Leg::new(&ruleset, &participants);

    let t20 = Throw::triple(20).unwrap();

    let ThrowResult { state: _, game } = game.add_throw(t20.clone());
    let ThrowResult { state: _, game } = game.add_throw(t20.clone());

    assert_eq!(
        game.current_player().name(),
        participants.participant(1).player.name()
    );
}

#[test]
fn leg_bust_turn_is_added_corretly_to_participant() {
    let participants = test_participants(1);

    let ruleset = Ruleset::new().score(101).unwrap().build();

    let game = Leg::new(&ruleset, &participants);

    let t20 = Throw::triple(20).unwrap();

    let ThrowResult { state: _, game } = game.add_throw(t20.clone());
    let ThrowResult { state: _, game } = game.add_throw(t20.clone());

    assert_eq!(game.turns(0).len(), 1);
    assert_eq!(game.turns(0)[0].is_bust(), true);
}

#[test]
fn leg_score_is_calculated_correctly_in_busted_turn() {
    let participants = test_participants(1);

    let ruleset = Ruleset::new().score(101).unwrap().build();

    let game = Leg::new(&ruleset, &participants);

    let t20 = Throw::triple(20).unwrap();

    let ThrowResult { state: _, game } = game.add_throw(t20.clone());
    let ThrowResult { state: _, game } = game.add_throw(t20.clone());

    assert_eq!(game.current_points(), 101);
}

#[test]
fn creating_set_with_invalid_first_participant_results_in_error() {
    let participants = test_participants(1);
    let ruleset = Ruleset::new().score(101).unwrap().build();

    let set = LegSet::new(&ruleset, &participants, 2);

    assert_eq!(set, Err(CreateSetError::InvalidFirstPlayer(2)));
}

/// Plays `throws` on `leg` and collects the states it passes through.
fn play<'a>(mut leg: Leg<'a>, throws: &[Throw]) -> (Vec<State>, Leg<'a>) {
    let mut states = vec![];
    for throw in throws {
        let ThrowResult { state, game } = leg.add_throw(*throw);
        states.push(state);
        leg = game;
    }
    (states, leg)
}

fn t(text: &str) -> Throw {
    Throw::from_str(text).unwrap()
}

#[test]
fn bust_over_scored_turn_counts_nothing() {
    let participants = test_participants(1);
    let ruleset = Ruleset::new().score(101).unwrap().build();
    let leg = Leg::new(&ruleset, &participants);

    let ThrowResult { state, game } = leg.add_throw(t("T20"));
    assert_eq!(state, State::Unfinished);
    assert_eq!(game.current_points(), 41);
    let ThrowResult { state, game } = game.add_throw(t("T20"));
    assert_eq!(state, State::Unfinished);
    assert_eq!(game.current_points(), 101);
    assert_eq!(game.turns(0).len(), 1);
    assert_eq!(game.turns(0)[0].num_throws(), 2);
    assert_eq!(game.turns(0)[0].points(), 0);

    let (states, game) = play(game, &[t("D20"), t("0"), t("0")]);
    assert_eq!(states, vec![State::Unfinished; 3]);
    assert_eq!(game.current_points(), 61);
    assert_eq!(game.turns(0).len(), 2);
}

#[test]
fn two_players_rotate_and_keep_their_own_points() {
    let participants = test_participants(2);
    let ruleset = Ruleset::new().score(301).unwrap().build();
    let leg = Leg::new(&ruleset, &participants);

    let (_, leg) = play(leg, &[t("0"), t("0"), t("0")]);
    assert_eq!(leg.current_player().name(), "Pete");
    assert_eq!(leg.current_points(), 301);
    let (_, leg) = play(leg, &[t("T20"), t("T20"), t("T20")]);
    assert_eq!(leg.current_player().name(), "Anna");
    assert_eq!(leg.current_points(), 301);
    let (_, leg) = play(leg, &[t("20"), t("0"), t("0")]);
    assert_eq!(leg.current_player().name(), "Pete");
    assert_eq!(leg.current_points(), 121);
    assert_eq!(leg.turns(0).len(), 2);
    assert_eq!(leg.turns(1).len(), 1);
}

#[test]
fn replaying_throws_gives_the_same_states() {
    let participants = test_participants(2);
    let ruleset = Ruleset::new()
        .score(101)
        .unwrap()
        .in_rule(InRule::Double)
        .out_rule(OutRule::Double)
        .build();
    let throws: Vec<Throw> = [
        "20", "T20", "0", "D20", "T20", "T19", "D10", "5", "T20", "D20", "1", "D20", "T7",
        "20", "D16",
    ]
    .iter()
    .map(|s| t(s))
    .collect();
    let (first, first_leg) = play(Leg::new(&ruleset, &participants), &throws);
    let (second, second_leg) = play(Leg::new(&ruleset, &participants), &throws);
    assert_eq!(first, second);
    assert_eq!(first_leg, second_leg);
}

#[test]
fn double_out_single_onto_zero_is_a_bust() {
    let participants = test_participants(1);
    let ruleset = Ruleset::new()
        .score(101)
        .unwrap()
        .out_rule(OutRule::Double)
        .build();
    let leg = Leg::new(&ruleset, &participants);
    let (states, leg) = play(leg, &[t("T20"), t("0"), t("0"), t("20"), t("1")]);
    assert_eq!(states, vec![State::Unfinished; 5]);
    assert_eq!(leg.current_points(), 20);
    let ThrowResult { state, game } = leg.add_throw(t("20"));
    assert_eq!(state, State::Unfinished);
    assert_eq!(game.current_points(), 41);
    assert!(game.turns(0)[1].is_bust());
    let (states, game) = play(game, &[t("D10"), t("1"), t("D10")]);
    assert_eq!(
        states,
        vec![State::Unfinished, State::Unfinished, State::Finished]
    );
    assert_eq!(game.current_points(), 0);
}

#[test]
fn double_out_leaving_one_point_is_a_bust() {
    let participants = test_participants(1);
    let ruleset = Ruleset::new()
        .score(101)
        .unwrap()
        .out_rule(OutRule::Double)
        .build();
    let leg = Leg::new(&ruleset, &participants);
    let (states, leg) = play(leg, &[t("T20"), t("20"), t("20")]);
    assert_eq!(states, vec![State::Unfinished; 3]);
    assert_eq!(leg.current_points(), 101);
    assert!(leg.turns(0)[0].is_bust());
    assert_eq!(leg.turns(0)[0].num_throws(), 3);
}

#[test]
fn triple_out_leaving_two_points_is_a_bust() {
    let participants = test_participants(1);
    let ruleset = Ruleset::new()
        .score(101)
        .unwrap()
        .out_rule(OutRule::Triple)
        .build();
    let leg = Leg::new(&ruleset, &participants);
    let (_, leg) = play(leg, &[t("T20"), t("T13")]);
    assert_eq!(leg.current_points(), 101);
    let (states, leg) = play(leg, &[t("T20"), t("D10"), t("T7")]);
    assert_eq!(
        states,
        vec![State::Unfinished, State::Unfinished, State::Finished]
    );
    assert_eq!(leg.current_points(), 0);
}

#[test]
fn double_in_applies_to_each_players_first_throw() {
    let participants = test_participants(2);
    let ruleset = Ruleset::new()
        .score(101)
        .unwrap()
        .in_rule(InRule::Double)
        .build();
    let leg = Leg::new(&ruleset, &participants);
    let ThrowResult { state, game } = leg.add_throw(t("T20"));
    assert_eq!(state, State::Unfinished);
    assert_eq!(game.current_player().name(), "Pete");
    assert_eq!(game.turns(0).len(), 1);
    assert!(game.turns(0)[0].is_bust());
    let (_, game) = play(game, &[t("D5"), t("20"), t("0")]);
    assert_eq!(game.current_player().name(), "Anna");
    let (_, game) = play(game, &[t("20"), t("0"), t("0")]);
    assert_eq!(game.current_player().name(), "Pete");
    assert_eq!(game.current_points(), 71);
    let (_, game) = play(game, &[t("0"), t("0"), t("0")]);
    assert_eq!(game.current_points(), 81);
}

#[test]
fn a_finished_leg_stays_finished() {
    let participants = test_participants(2);
    let ruleset = Ruleset::new().score(101).unwrap().build();
    let leg = Leg::new(&ruleset, &participants);
    let (states, leg) = play(leg, &[t("T20"), t("D20"), t("1")]);
    assert_eq!(states[2], State::Finished);
    let ThrowResult { state, game } = leg.add_throw(t("T20"));
    assert_eq!(state, State::Finished);
    assert_eq!(game.current_points(), 0);
    assert_eq!(game.current_player().name(), "Anna");
    assert_eq!(game.turns(0).len(), 0);
}

#[test]
fn finishing_on_the_third_throw_keeps_the_player() {
    let participants = test_participants(2);
    let ruleset = Ruleset::new().score(101).unwrap().build();
    let leg = Leg::new(&ruleset, &participants);
    let (states, leg) = play(leg, &[t("T20"), t("20"), t("T7")]);
    assert_eq!(states[2], State::Finished);
    assert_eq!(leg.current_player().name(), "Anna");
}

#[test]
fn a_set_starts_the_next_leg_with_the_next_player() {
    let participants = test_participants(2);
    let ruleset = Ruleset::new().score(101).unwrap().build();
    let set = LegSet::new(&ruleset, &participants, 1).unwrap();
    assert_eq!(set.current_leg_number(), 1);
    assert_eq!(set.current_leg().current_player().name(), "Pete");
    let mut set = set;
    for throw in ["T20", "D20", "1"] {
        set = set.add_throw(t(throw));
    }
    assert_eq!(set.current_leg_number(), 2);
    assert_eq!(set.legs_won(1), 1);
    assert_eq!(set.legs_won(0), 0);
    assert_eq!(set.current_leg().current_player().name(), "Anna");
    assert_eq!(set.current_leg().current_points(), 101);
    for throw in ["T20", "D20", "1"] {
        set = set.add_throw(t(throw));
    }
    assert_eq!(set.current_leg_number(), 3);
    assert_eq!(set.legs_won(0), 1);
    assert_eq!(set.current_leg().current_player().name(), "Pete");
}

#[test]
fn a_set_for_one_player_first_player_must_be_zero() {
    let participants = test_participants(1);
    let ruleset = Ruleset::new().score(101).unwrap().build();
    assert!(LegSet::new(&ruleset, &participants, 0).is_ok());
    assert_eq!(
        LegSet::new(&ruleset, &participants, 1),
        Err(CreateSetError::InvalidFirstPlayer(1))
    );
}

#[test]
fn participants_keep_their_order_and_need_one() {
    assert!(Participants::new().build().is_none());
    let participants = test_participants(2);
    assert_eq!(participants.count(), 2);
    assert_eq!(participants.participant(0).player.name(), "Anna");
    assert_eq!(participants.participant(1).player.name(), "Pete");
}
