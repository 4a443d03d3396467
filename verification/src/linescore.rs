//! The line score of a game: runs, hits and errors of each team inning by inning and in
//! total, the current inning and count, and who is at bat and in the field.

use vstd::prelude::*;
use crate::game::{AtBatCount, Inning, InningHalf, RHE};
use crate::ids::PersonId;
use crate::teams::NamedTeam;
use crate::types::{Copyright, HomeAwaySplit};

verus! {

/// The runs, hits and errors of both teams in one inning.
#[derive(Debug, Clone, Copy)]
pub struct LinescoreInningRecord {
    pub inning: Inning,
    pub inning_record: HomeAwaySplit<RHE>,
}

/// The team at bat: its batter, the next two batters, and the index of the batter in the
/// batting order.
#[derive(Debug, Clone)]
pub struct LinescoreOffense {
    pub batter: PersonId,
    pub on_deck: PersonId,
    pub in_the_hole: PersonId,
    pub team: NamedTeam,
    pub batting_order_index: usize,
}

/// The team in the field, with the players at each position; it holds its own offense too.
#[derive(Debug, Clone)]
pub struct LinescoreDefense {
    pub pitcher: PersonId,
    pub catcher: PersonId,
    pub first_baseman: PersonId,
    pub second_baseman: PersonId,
    pub third_baseman: PersonId,
    pub shortstop: PersonId,
    pub leftfielder: PersonId,
    pub centerfielder: PersonId,
    pub rightfielder: PersonId,
    pub offense: LinescoreOffense,
}

/// The line score of a game: the current inning, half and count, the scheduled innings, the
/// record of each inning, each team's totals, and the teams at bat and in the field.
#[derive(Debug, Clone)]
pub struct Linescore {
    pub copyright: Copyright,
    pub current_inning: Inning,
    pub inning_half: InningHalf,
    pub scheduled_innings: usize,
    pub innings: Vec<LinescoreInningRecord>,
    pub rhe_totals: HomeAwaySplit<RHE>,
    pub offense: Option<LinescoreOffense>,
    pub defense: Option<LinescoreDefense>,
    pub note: Option<String>,
    pub count: AtBatCount,
}

impl LinescoreDefense {
    /// The fielding team's own offense.
    pub fn offense(&self) -> (res: &LinescoreOffense)
        ensures
            *res == self.offense,
    {
        &self.offense
    }
}

} // verus!
