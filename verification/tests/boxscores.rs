use std::collections::HashMap;

use mlb_api::boxscore::{Boxscore, PlayerWithGameData, TeamWithGameData};
use mlb_api::game::{AtBatCount, Inning, InningHalf, PlayerGameStatusFlags, RHE};
use mlb_api::linescore::{Linescore, LinescoreDefense, LinescoreOffense};
use mlb_api::ids::{PersonId, TeamId};
use mlb_api::roster::RosterStatus;
use mlb_api::teams::{IdentifiableTeam, NamedTeam, TeamName, UnhydratedTeamName};
use mlb_api::types::{Copyright, HomeAwaySplit, Position};

fn player(id: u32, jersey: &str) -> PlayerWithGameData {
    PlayerWithGameData {
        person: PersonId(id),
        jersey_number: Some(jersey.to_string()),
        position: Position::Pitcher,
        status: RosterStatus::Active,
        game_status: PlayerGameStatusFlags {
            is_current_batter: false,
            is_current_pitcher: false,
            is_on_bench: false,
            is_substitute: false,
        },
        all_positions: vec![],
        batting_order: None,
    }
}

fn team(id: u32, players: Vec<PlayerWithGameData>) -> TeamWithGameData {
    TeamWithGameData {
        team: NamedTeam {
            name: TeamName::Unhydrated(UnhydratedTeamName { name: format!("team {id}") }),
            inner: IdentifiableTeam { id: TeamId(id) },
        },
        players: players.into_iter().map(|p| (p.person.0, p)).collect::<HashMap<_, _>>(),
        batters: vec![],
        pitchers: vec![],
        bench: vec![],
        bullpen: vec![],
        batting_order: None,
        sectioned_labelled_values: vec![],
        notes: vec![],
    }
}

#[test]
fn players_are_found_home_first_then_away() {
    let boxscore = Boxscore {
        copyright: Copyright::for_year(2025),
        misc: vec![],
        pitching_notes: vec![],
        teams: HomeAwaySplit::new(
            team(141, vec![player(1, "home 1"), player(2, "home 2")]),
            team(147, vec![player(2, "away 2"), player(3, "away 3")]),
        ),
        officials: vec![],
    };
    let find = |id: u32| boxscore.find_player_with_game_data(PersonId(id)).and_then(|p| p.jersey_number.clone());
    assert_eq!(find(1).as_deref(), Some("home 1"));
    assert_eq!(find(2).as_deref(), Some("home 2"));
    assert_eq!(find(3).as_deref(), Some("away 3"));
    assert_eq!(find(4), None);
}

#[test]
fn a_line_score_starts_in_the_top_of_the_first() {
    assert_eq!(Inning::starting(), Inning(1));
    assert_eq!(InningHalf::starting(), InningHalf::Top);
    let rhe = RHE { runs: 0, hits: 0, errors: 0, left_on_base: 0, was_inning_half_played: true };
    let offense = LinescoreOffense {
        batter: PersonId(1),
        on_deck: PersonId(2),
        in_the_hole: PersonId(3),
        team: team(141, vec![]).team,
        batting_order_index: 4,
    };
    let defense = LinescoreDefense {
        pitcher: PersonId(10),
        catcher: PersonId(11),
        first_baseman: PersonId(12),
        second_baseman: PersonId(13),
        third_baseman: PersonId(14),
        shortstop: PersonId(15),
        leftfielder: PersonId(16),
        centerfielder: PersonId(17),
        rightfielder: PersonId(18),
        offense: offense.clone(),
    };
    assert_eq!(defense.offense().batting_order_index, 4);
    let line = Linescore {
        copyright: Copyright::for_year(2025),
        current_inning: Inning::starting(),
        inning_half: InningHalf::starting(),
        scheduled_innings: 9,
        innings: vec![],
        rhe_totals: HomeAwaySplit::new(rhe, rhe),
        offense: Some(offense),
        defense: Some(defense),
        note: None,
        count: AtBatCount { balls: 0, strikes: 0, outs: 0 },
    };
    assert_eq!(line.current_inning.to_string(), "1st");
}
