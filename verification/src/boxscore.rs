//! The box score of a game: each team's players with what they did in the game, its batters,
//! pitchers, bench and bullpen, notes, and the officials.

use vstd::prelude::*;
use std::collections::HashMap;
use crate::game::{BattingOrderIndex, LabelledValue, Official, PlayerGameStatusFlags, SectionedLabelledValues};
use crate::ids::PersonId;
use crate::roster::RosterStatus;
use crate::teams::NamedTeam;
use crate::types::{Copyright, HomeAwaySplit, Position};

verus! {

broadcast use vstd::std_specs::hash::group_hash_axioms;

/// A player of a team in a game, with what the box score tells of them.
#[derive(Debug, Clone)]
pub struct PlayerWithGameData {
    pub person: PersonId,
    pub jersey_number: Option<String>,
    pub position: Position,
    pub status: RosterStatus,
    pub game_status: PlayerGameStatusFlags,
    pub all_positions: Vec<Position>,
    pub batting_order: Option<BattingOrderIndex>,
}

/// A team in a game: its players, keyed by the number of each player's person identifier, and
/// its batters, pitchers, bench, bullpen and batting order.
#[derive(Debug, Clone)]
pub struct TeamWithGameData {
    pub team: NamedTeam,
    pub players: HashMap<u32, PlayerWithGameData>,
    pub batters: Vec<PersonId>,
    pub pitchers: Vec<PersonId>,
    pub bench: Vec<PersonId>,
    pub bullpen: Vec<PersonId>,
    pub batting_order: Option<Vec<PersonId>>,
    pub sectioned_labelled_values: Vec<SectionedLabelledValues>,
    pub notes: Vec<LabelledValue>,
}

/// The box score of a game.
#[derive(Debug, Clone)]
pub struct Boxscore {
    pub copyright: Copyright,
    pub misc: Vec<LabelledValue>,
    pub pitching_notes: Vec<String>,
    pub teams: HomeAwaySplit<TeamWithGameData>,
    pub officials: Vec<Official>,
}

/// The player of a game with the given identifier: the home team's where it has one, else the
/// away team's.
pub open spec fn player_in_game(b: Boxscore, id: PersonId) -> Option<PlayerWithGameData> {
    if b.teams.home.players@.contains_key(id.0) {
        Some(b.teams.home.players@[id.0])
    } else if b.teams.away.players@.contains_key(id.0) {
        Some(b.teams.away.players@[id.0])
    } else {
        None
    }
}

impl Boxscore {
    /// The player with the given identifier, with their data of the game: looked up among the
    /// home team's players first, then among the away team's.
    pub fn find_player_with_game_data(&self, id: PersonId) -> (res: Option<&PlayerWithGameData>)
        ensures
            match player_in_game(*self, id) {
                Some(p) => res matches Some(q) && *q == p,
                None => res is None,
            },
    {
        match self.teams.home.players.get(&id.0) {
            Some(p) => Some(p),
            None => self.teams.away.players.get(&id.0),
        }
    }
}

} // verus!
