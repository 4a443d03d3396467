//! Statistics: catching lines, decisions and innings pitched, and the stat leader requests.

use vstd::prelude::*;
use crate::ids::{BaseballStatId, GameType, PersonId, PlayerPool, SeasonId, StatGroup, StatType, TeamId};
use crate::date::Date;
use crate::types::Copyright;
use crate::teams::Team;
use crate::league::{NamedLeague, opt_id};
use crate::sports::Sport;
use crate::text::{kv, query, opt_views, opt_param, param};
use crate::request::{
    num_kv, opt_num_kv, opt_text_kv, opt_date_kv, opt_nat, id_param, opt_id_param, opt_num_param, opt_date_param,
    opt_text_id_param, text_id_param, url_with_query, join_texts, texts_text,
};
use crate::team_requests::{team_path, team_path_string, opt_small, widen};

verus! {

/// The catching statistics of a player.
#[derive(Debug, PartialEq, Eq, Structural, Copy, Clone)]
pub struct CatchingStats {
    pub at_bats: u32,
    pub base_on_balls: u32,
    pub batters_faced: u32,
    pub catchers_interference: u32,
    pub caught_stealing: u32,
    pub earned_runs: u32,
    pub games_pitched: u32,
    pub games_played: u32,
    pub hit_by_pitch: u32,
    pub hits: u32,
    pub home_runs: u32,
    pub intentional_walks: u32,
    pub passed_balls: u32,
    pub pickoffs: u32,
    pub runs: u32,
    pub sac_bunts: u32,
    pub sac_flies: u32,
    pub stolen_bases: u32,
    pub strikeouts: u32,
    pub total_bases: u32,
    pub wild_pitches: u32,
}

/// Whether every sum of two catching lines fits in a `u32`.
pub open spec fn catching_add_fits(a: CatchingStats, b: CatchingStats) -> bool {
    &&& a.at_bats + b.at_bats <= u32::MAX
    &&& a.base_on_balls + b.base_on_balls <= u32::MAX
    &&& a.batters_faced + b.batters_faced <= u32::MAX
    &&& a.catchers_interference + b.catchers_interference <= u32::MAX
    &&& a.caught_stealing + b.caught_stealing <= u32::MAX
    &&& a.earned_runs + b.earned_runs <= u32::MAX
    &&& a.games_pitched + b.games_pitched <= u32::MAX
    &&& a.games_played + b.games_played <= u32::MAX
    &&& a.hit_by_pitch + b.hit_by_pitch <= u32::MAX
    &&& a.hits + b.hits <= u32::MAX
    &&& a.home_runs + b.home_runs <= u32::MAX
    &&& a.intentional_walks + b.intentional_walks <= u32::MAX
    &&& a.passed_balls + b.passed_balls <= u32::MAX
    &&& a.pickoffs + b.pickoffs <= u32::MAX
    &&& a.runs + b.runs <= u32::MAX
    &&& a.sac_bunts + b.sac_bunts <= u32::MAX
    &&& a.sac_flies + b.sac_flies <= u32::MAX
    &&& a.stolen_bases + b.stolen_bases <= u32::MAX
    &&& a.strikeouts + b.strikeouts <= u32::MAX
    &&& a.total_bases + b.total_bases <= u32::MAX
    &&& a.wild_pitches + b.wild_pitches <= u32::MAX
}

/// The field by field sum of two catching lines.
pub open spec fn catching_sum(a: CatchingStats, b: CatchingStats) -> CatchingStats {
    CatchingStats {
        at_bats: (a.at_bats + b.at_bats) as u32,
        base_on_balls: (a.base_on_balls + b.base_on_balls) as u32,
        batters_faced: (a.batters_faced + b.batters_faced) as u32,
        catchers_interference: (a.catchers_interference + b.catchers_interference) as u32,
        caught_stealing: (a.caught_stealing + b.caught_stealing) as u32,
        earned_runs: (a.earned_runs + b.earned_runs) as u32,
        games_pitched: (a.games_pitched + b.games_pitched) as u32,
        games_played: (a.games_played + b.games_played) as u32,
        hit_by_pitch: (a.hit_by_pitch + b.hit_by_pitch) as u32,
        hits: (a.hits + b.hits) as u32,
        home_runs: (a.home_runs + b.home_runs) as u32,
        intentional_walks: (a.intentional_walks + b.intentional_walks) as u32,
        passed_balls: (a.passed_balls + b.passed_balls) as u32,
        pickoffs: (a.pickoffs + b.pickoffs) as u32,
        runs: (a.runs + b.runs) as u32,
        sac_bunts: (a.sac_bunts + b.sac_bunts) as u32,
        sac_flies: (a.sac_flies + b.sac_flies) as u32,
        stolen_bases: (a.stolen_bases + b.stolen_bases) as u32,
        strikeouts: (a.strikeouts + b.strikeouts) as u32,
        total_bases: (a.total_bases + b.total_bases) as u32,
        wild_pitches: (a.wild_pitches + b.wild_pitches) as u32,
    }
}

impl Default for CatchingStats {
    /// The empty line: every count is 0.
    fn default() -> (res: Self)
        ensures
            res.at_bats == 0,
            res.base_on_balls == 0,
            res.batters_faced == 0,
            res.catchers_interference == 0,
            res.caught_stealing == 0,
            res.earned_runs == 0,
            res.games_pitched == 0,
            res.games_played == 0,
            res.hit_by_pitch == 0,
            res.hits == 0,
            res.home_runs == 0,
            res.intentional_walks == 0,
            res.passed_balls == 0,
            res.pickoffs == 0,
            res.runs == 0,
            res.sac_bunts == 0,
            res.sac_flies == 0,
            res.stolen_bases == 0,
            res.strikeouts == 0,
            res.total_bases == 0,
            res.wild_pitches == 0,
    {
        CatchingStats {
            at_bats: 0,
            base_on_balls: 0,
            batters_faced: 0,
            catchers_interference: 0,
            caught_stealing: 0,
            earned_runs: 0,
            games_pitched: 0,
            games_played: 0,
            hit_by_pitch: 0,
            hits: 0,
            home_runs: 0,
            intentional_walks: 0,
            passed_balls: 0,
            pickoffs: 0,
            runs: 0,
            sac_bunts: 0,
            sac_flies: 0,
            stolen_bases: 0,
            strikeouts: 0,
            total_bases: 0,
            wild_pitches: 0,
        }
    }
}

/// Adding two catching lines adds each count: every count of the sum is the sum of the two
/// lines' counts.
pub proof fn lemma_catching_sum_adds_each_count(a: CatchingStats, b: CatchingStats)
    requires
        catching_add_fits(a, b),
    ensures
        catching_sum(a, b).at_bats == a.at_bats + b.at_bats,
        catching_sum(a, b).base_on_balls == a.base_on_balls + b.base_on_balls,
        catching_sum(a, b).batters_faced == a.batters_faced + b.batters_faced,
        catching_sum(a, b).catchers_interference == a.catchers_interference + b.catchers_interference,
        catching_sum(a, b).caught_stealing == a.caught_stealing + b.caught_stealing,
        catching_sum(a, b).earned_runs == a.earned_runs + b.earned_runs,
        catching_sum(a, b).games_pitched == a.games_pitched + b.games_pitched,
        catching_sum(a, b).games_played == a.games_played + b.games_played,
        catching_sum(a, b).hit_by_pitch == a.hit_by_pitch + b.hit_by_pitch,
        catching_sum(a, b).hits == a.hits + b.hits,
        catching_sum(a, b).home_runs == a.home_runs + b.home_runs,
        catching_sum(a, b).intentional_walks == a.intentional_walks + b.intentional_walks,
        catching_sum(a, b).passed_balls == a.passed_balls + b.passed_balls,
        catching_sum(a, b).pickoffs == a.pickoffs + b.pickoffs,
        catching_sum(a, b).runs == a.runs + b.runs,
        catching_sum(a, b).sac_bunts == a.sac_bunts + b.sac_bunts,
        catching_sum(a, b).sac_flies == a.sac_flies + b.sac_flies,
        catching_sum(a, b).stolen_bases == a.stolen_bases + b.stolen_bases,
        catching_sum(a, b).strikeouts == a.strikeouts + b.strikeouts,
        catching_sum(a, b).total_bases == a.total_bases + b.total_bases,
        catching_sum(a, b).wild_pitches == a.wild_pitches + b.wild_pitches,
{
}

/// Adding catching lines does not depend on their order.
pub proof fn lemma_catching_sum_commutes(a: CatchingStats, b: CatchingStats)
    requires
        catching_add_fits(a, b),
    ensures
        catching_sum(a, b) == catching_sum(b, a),
{
}

impl CatchingStats {
    /// The attempts to steal a base: stolen bases and times caught stealing.
    pub fn stolen_base_attempts(&self) -> (res: u32)
        requires
            self.stolen_bases + self.caught_stealing <= u32::MAX,
        ensures
            res == self.stolen_bases + self.caught_stealing,
    {
        self.stolen_bases + self.caught_stealing
    }

    /// Adds two lines field by field, as when summing a player's games.
    pub fn add(self, other: Self) -> (res: Self)
        requires
            catching_add_fits(self, other),
        ensures
            res == catching_sum(self, other),
    {
        CatchingStats {
            at_bats: self.at_bats + other.at_bats,
            base_on_balls: self.base_on_balls + other.base_on_balls,
            batters_faced: self.batters_faced + other.batters_faced,
            catchers_interference: self.catchers_interference + other.catchers_interference,
            caught_stealing: self.caught_stealing + other.caught_stealing,
            earned_runs: self.earned_runs + other.earned_runs,
            games_pitched: self.games_pitched + other.games_pitched,
            games_played: self.games_played + other.games_played,
            hit_by_pitch: self.hit_by_pitch + other.hit_by_pitch,
            hits: self.hits + other.hits,
            home_runs: self.home_runs + other.home_runs,
            intentional_walks: self.intentional_walks + other.intentional_walks,
            passed_balls: self.passed_balls + other.passed_balls,
            pickoffs: self.pickoffs + other.pickoffs,
            runs: self.runs + other.runs,
            sac_bunts: self.sac_bunts + other.sac_bunts,
            sac_flies: self.sac_flies + other.sac_flies,
            stolen_bases: self.stolen_bases + other.stolen_bases,
            strikeouts: self.strikeouts + other.strikeouts,
            total_bases: self.total_bases + other.total_bases,
            wild_pitches: self.wild_pitches + other.wild_pitches,
        }
    }
}

/// The decisions of a pitcher: wins, losses, holds, saves, save opportunities and blown saves.
#[derive(Debug, PartialEq, Eq, Structural, Copy, Clone)]
pub struct DecisionsData {
    pub wins: u32,
    pub losses: u32,
    pub holds: u32,
    pub saves: u32,
    pub save_opportunities: u32,
    pub blown_saves: u32,
}

/// Statistics that hold the decisions of a pitcher.
pub trait DecisionsPiece {
    /// The decisions held.
    spec fn decision_counts(&self) -> DecisionsData;

    /// Wins.
    fn wins(&self) -> (res: u32)
        ensures
            res == self.decision_counts().wins,
    ;

    /// Losses.
    fn losses(&self) -> (res: u32)
        ensures
            res == self.decision_counts().losses,
    ;

    /// Holds.
    fn holds(&self) -> (res: u32)
        ensures
            res == self.decision_counts().holds,
    ;

    /// Saves.
    fn saves(&self) -> (res: u32)
        ensures
            res == self.decision_counts().saves,
    ;

    /// Save opportunities.
    fn save_opportunities(&self) -> (res: u32)
        ensures
            res == self.decision_counts().save_opportunities,
    ;

    /// Blown saves.
    fn blown_saves(&self) -> (res: u32)
        ensures
            res == self.decision_counts().blown_saves,
    ;

    /// The games in which the pitcher got a decision: wins, losses, holds and saves.
    fn decisions(&self) -> (res: u32)
        requires
            self.decision_counts().wins + self.decision_counts().losses + self.decision_counts().holds
                + self.decision_counts().saves <= u32::MAX,
        ensures
            res == self.decision_counts().wins + self.decision_counts().losses + self.decision_counts().holds
                + self.decision_counts().saves,
    {
        self.wins() + self.losses() + self.holds() + self.saves()
    }
}

impl DecisionsPiece for DecisionsData {
    open spec fn decision_counts(&self) -> DecisionsData {
        *self
    }

    fn wins(&self) -> (res: u32) {
        self.wins
    }

    fn losses(&self) -> (res: u32) {
        self.losses
    }

    fn holds(&self) -> (res: u32) {
        self.holds
    }

    fn saves(&self) -> (res: u32) {
        self.saves
    }

    fn save_opportunities(&self) -> (res: u32) {
        self.save_opportunities
    }

    fn blown_saves(&self) -> (res: u32) {
        self.blown_saves
    }
}

/// Innings pitched, counted in outs recorded: three outs make an inning.
#[derive(Debug, PartialEq, Eq, Structural, Copy, Clone)]
pub struct InningsPitched {
    pub outs: u32,
}

impl InningsPitched {
    /// The innings pitched in recording `outs` outs.
    pub fn from_outs(outs: u32) -> (res: Self)
        ensures
            res.outs == outs,
    {
        InningsPitched { outs }
    }

    /// The outs recorded.
    pub fn as_outs(&self) -> (res: u32)
        ensures
            res == self.outs,
    {
        self.outs
    }
}

/// Statistics that hold innings pitched.
#[derive(Debug, PartialEq, Eq, Structural, Copy, Clone)]
pub struct InningsPitchedData {
    pub innings_pitched: InningsPitched,
}

/// The message given where a line holds neither innings pitched nor outs.
pub open spec fn missing_innings_message() -> Seq<char> {
    "could not get either outs-based field (innings_pitched`"@
}

impl InningsPitchedData {
    /// The innings pitched of a line: as given, else from the outs given, else an error.
    pub fn from_fields(innings_pitched: Option<InningsPitched>, outs: Option<u32>) -> (res: Result<Self, &'static str>)
        ensures
            match innings_pitched {
                Some(ip) => res == Ok::<Self, &'static str>(InningsPitchedData { innings_pitched: ip }),
                None => match outs {
                    Some(o) => res == Ok::<Self, &'static str>(InningsPitchedData { innings_pitched: InningsPitched { outs: o } }),
                    None => res matches Err(m) && m@ == missing_innings_message(),
                },
            },
    {
        match innings_pitched {
            Some(ip) => Ok(InningsPitchedData { innings_pitched: ip }),
            None => match outs {
                Some(o) => Ok(InningsPitchedData { innings_pitched: InningsPitched::from_outs(o) }),
                None => Err("could not get either outs-based field (innings_pitched`"),
            },
        }
    }
}

/// Statistics that hold innings pitched.
pub trait InningsPitchedPiece {
    /// The innings pitched held.
    spec fn innings(&self) -> InningsPitched;

    /// The innings pitched.
    fn innings_pitched(&self) -> (res: InningsPitched)
        ensures
            res == self.innings(),
    ;

    /// The outs recorded.
    fn outs(&self) -> (res: u32)
        ensures
            res == self.innings().outs,
    {
        self.innings_pitched().as_outs()
    }
}

impl InningsPitchedPiece for InningsPitchedData {
    open spec fn innings(&self) -> InningsPitched {
        self.innings_pitched
    }

    fn innings_pitched(&self) -> (res: InningsPitched) {
        self.innings_pitched
    }
}

/// The response of the stat leaders endpoint.
#[derive(Debug, Clone)]
pub struct StatLeadersResponse {
    pub copyright: Copyright,
    pub league_leaders: Vec<StatLeaders>,
}

/// The leaders in one statistic.
#[derive(Debug, Clone)]
pub struct StatLeaders {
    pub category: BaseballStatId,
    pub game_type: GameType,
    pub leaders: Vec<StatLeader>,
    pub stat_group: StatGroup,
    pub total_splits: u32,
}

/// The leaders in one statistic as the response gives them.
#[derive(Debug, Clone)]
pub struct StatLeadersRaw {
    pub leader_category: String,
    pub game_type: GameType,
    pub leaders: Vec<StatLeader>,
    pub stat_group: String,
    pub total_splits: u32,
}

impl StatLeaders {
    /// Reads the leaders in a statistic: the category is the statistic of that identifier,
    /// and the stat group the group of that name.
    pub fn from_raw(raw: StatLeadersRaw) -> (res: StatLeaders)
        ensures
            res.category.0@ == raw.leader_category@,
            res.game_type == raw.game_type,
            res.leaders == raw.leaders,
            res.stat_group.0@ == raw.stat_group@,
            res.total_splits == raw.total_splits,
    {
        StatLeaders {
            category: BaseballStatId::new(raw.leader_category),
            game_type: raw.game_type,
            leaders: raw.leaders,
            stat_group: StatGroup::new(raw.stat_group),
            total_splits: raw.total_splits,
        }
    }
}

/// One leader in a statistic.
#[derive(Debug, Clone)]
pub struct StatLeader {
    pub rank: u32,
    pub team: Team,
    pub league: NamedLeague,
    pub person: PersonId,
    pub sport: Sport,
    pub season: SeasonId,
}

/// The optional text of a list of text identifiers.
pub open spec fn opt_texts<T: crate::request::TextId>(o: Option<Vec<T>>) -> Option<Seq<char>> {
    match o {
        Some(v) => Some(texts_text(v@)),
        None => None,
    }
}

/// Joins an optional list of text identifiers with commas.
pub fn opt_join_texts<T: crate::request::TextId>(o: &Option<Vec<T>>) -> (res: Option<String>)
    ensures
        crate::text::opt_view(res) == opt_texts(*o),
{
    match o {
        Some(v) => Some(join_texts(v)),
        None => None,
    }
}

/// The request for the leaders in some statistics.
#[derive(Debug, Clone)]
pub struct StatLeadersEndpoint {
    pub stats: Vec<BaseballStatId>,
    pub stat_group: Option<StatGroup>,
    pub season: Option<SeasonId>,
    pub sport_id: crate::ids::SportId,
    pub stat_types: Vec<StatType>,
    pub start_date: Option<Date>,
    pub end_date: Option<Date>,
    pub pool: PlayerPool,
    /// Number of days to go back for data, from yesterday.
    pub days_back: Option<u32>,
    /// How many leaders to show per statistic; the API shows 5 where none is given.
    pub limit: Option<u16>,
    /// Offset into the results.
    pub offset: Option<u16>,
    /// `None` stands for all game types.
    pub game_types: Option<Vec<GameType>>,
}

/// The URL of a [`StatLeadersEndpoint`].
pub open spec fn stat_leaders_url(r: StatLeadersEndpoint) -> Seq<char> {
    "http://statsapi.mlb.com/api/v1/stats/leaders"@ + query(
        seq![
            Some(kv("leaderCategories"@, texts_text(r.stats@))),
            opt_text_kv("statGroup"@, match r.stat_group { Some(g) => Some(g.0@), None => None }),
            opt_num_kv("season"@, opt_id(r.season)),
            num_kv("sportId"@, r.sport_id.0 as nat),
            Some(kv("stats"@, texts_text(r.stat_types@))),
            opt_date_kv("startDate"@, r.start_date),
            opt_date_kv("endDate"@, r.end_date),
            Some(kv("playerPool"@, r.pool.0@)),
            opt_num_kv("daysBack"@, opt_nat(r.days_back)),
            opt_num_kv("limit"@, opt_small(r.limit)),
            opt_num_kv("offset"@, opt_small(r.offset)),
            opt_text_kv("gameTypes"@, opt_texts(r.game_types)),
        ],
    )
}

impl StatLeadersEndpoint {
    /// Starts a request for MLB; the statistics, the stat types and the pool must be given
    /// before it is built.
    pub fn builder() -> (res: StatLeadersEndpointBuilder)
        ensures
            res.stats is None,
            res.stat_group is None,
            res.season is None,
            res.sport_id.0 == 1,
            res.stat_types is None,
            res.start_date is None,
            res.end_date is None,
            res.pool is None,
            res.days_back is None,
            res.limit is None,
            res.offset is None,
            res.game_types is None,
    {
        StatLeadersEndpointBuilder {
            stats: None,
            stat_group: None,
            season: None,
            sport_id: crate::ids::SportId::default(),
            stat_types: None,
            start_date: None,
            end_date: None,
            pool: None,
            days_back: None,
            limit: None,
            offset: None,
            game_types: None,
        }
    }

    /// The URL of the request.
    pub fn to_string(&self) -> (res: String)
        ensures
            res@ == stat_leaders_url(*self),
    {
        let stats = join_texts(&self.stats);
        let stat_types = join_texts(&self.stat_types);
        let pieces = vec![
            Some(param("leaderCategories", stats.as_str())),
            opt_text_id_param("statGroup", &self.stat_group),
            opt_id_param("season", &self.season),
            id_param("sportId", &self.sport_id),
            Some(param("stats", stat_types.as_str())),
            opt_date_param("startDate", self.start_date),
            opt_date_param("endDate", self.end_date),
            text_id_param("playerPool", &self.pool),
            opt_num_param("daysBack", self.days_back),
            opt_num_param("limit", widen(self.limit)),
            opt_num_param("offset", widen(self.offset)),
            opt_param("gameTypes", opt_join_texts(&self.game_types)),
        ];
        assert(opt_views(pieces@) =~= seq![
            Some(kv("leaderCategories"@, texts_text(self.stats@))),
            opt_text_kv("statGroup"@, match self.stat_group { Some(g) => Some(g.0@), None => None }),
            opt_num_kv("season"@, opt_id(self.season)),
            num_kv("sportId"@, self.sport_id.0 as nat),
            Some(kv("stats"@, texts_text(self.stat_types@))),
            opt_date_kv("startDate"@, self.start_date),
            opt_date_kv("endDate"@, self.end_date),
            Some(kv("playerPool"@, self.pool.0@)),
            opt_num_kv("daysBack"@, opt_nat(self.days_back)),
            opt_num_kv("limit"@, opt_small(self.limit)),
            opt_num_kv("offset"@, opt_small(self.offset)),
            opt_text_kv("gameTypes"@, opt_texts(self.game_types)),
        ]);
        url_with_query("http://statsapi.mlb.com/api/v1/stats/leaders", &pieces)
    }
}

/// Builder of a [`StatLeadersEndpoint`].
#[derive(Debug, Clone)]
pub struct StatLeadersEndpointBuilder {
    pub stats: Option<Vec<BaseballStatId>>,
    pub stat_group: Option<StatGroup>,
    pub season: Option<SeasonId>,
    pub sport_id: crate::ids::SportId,
    pub stat_types: Option<Vec<StatType>>,
    pub start_date: Option<Date>,
    pub end_date: Option<Date>,
    pub pool: Option<PlayerPool>,
    pub days_back: Option<u32>,
    pub limit: Option<u16>,
    pub offset: Option<u16>,
    pub game_types: Option<Vec<GameType>>,
}

impl StatLeadersEndpointBuilder {
    /// Sets the statistics.
    pub fn stats(self, stats: Vec<BaseballStatId>) -> (res: Self)
        ensures
            res == (Self { stats: Some(stats), ..self }),
    {
        Self { stats: Some(stats), ..self }
    }

    /// Sets the stat group.
    pub fn stat_group(self, group: StatGroup) -> (res: Self)
        ensures
            res == (Self { stat_group: Some(group), ..self }),
    {
        Self { stat_group: Some(group), ..self }
    }

    /// Sets the season.
    pub fn season(self, season: SeasonId) -> (res: Self)
        ensures
            res == (Self { season: Some(season), ..self }),
    {
        Self { season: Some(season), ..self }
    }

    /// Sets the sport.
    pub fn sport_id(self, id: crate::ids::SportId) -> (res: Self)
        ensures
            res == (Self { sport_id: id, ..self }),
    {
        Self { sport_id: id, ..self }
    }

    /// Sets the stat types.
    pub fn stat_types(self, types: Vec<StatType>) -> (res: Self)
        ensures
            res == (Self { stat_types: Some(types), ..self }),
    {
        Self { stat_types: Some(types), ..self }
    }

    /// Sets the first date.
    pub fn start_date(self, date: Date) -> (res: Self)
        ensures
            res == (Self { start_date: Some(date), ..self }),
    {
        Self { start_date: Some(date), ..self }
    }

    /// Sets the last date.
    pub fn end_date(self, date: Date) -> (res: Self)
        ensures
            res == (Self { end_date: Some(date), ..self }),
    {
        Self { end_date: Some(date), ..self }
    }

    /// Sets the player pool.
    pub fn pool(self, pool: PlayerPool) -> (res: Self)
        ensures
            res == (Self { pool: Some(pool), ..self }),
    {
        Self { pool: Some(pool), ..self }
    }

    /// Sets the number of days to go back.
    pub fn days_back(self, days: u32) -> (res: Self)
        ensures
            res == (Self { days_back: Some(days), ..self }),
    {
        Self { days_back: Some(days), ..self }
    }

    /// Sets how many leaders to show per statistic.
    pub fn limit(self, limit: u16) -> (res: Self)
        ensures
            res == (Self { limit: Some(limit), ..self }),
    {
        Self { limit: Some(limit), ..self }
    }

    /// Sets the offset into the results.
    pub fn offset(self, offset: u16) -> (res: Self)
        ensures
            res == (Self { offset: Some(offset), ..self }),
    {
        Self { offset: Some(offset), ..self }
    }

    /// Sets the game types.
    pub fn game_types(self, types: Vec<GameType>) -> (res: Self)
        ensures
            res == (Self { game_types: Some(types), ..self }),
    {
        Self { game_types: Some(types), ..self }
    }

    /// The request; the statistics, the stat types and the pool must have been given.
    pub fn build(self) -> (res: StatLeadersEndpoint)
        requires
            self.stats is Some,
            self.stat_types is Some,
            self.pool is Some,
        ensures
            Some(res.stats) == self.stats,
            res.stat_group == self.stat_group,
            res.season == self.season,
            res.sport_id == self.sport_id,
            Some(res.stat_types) == self.stat_types,
            res.start_date == self.start_date,
            res.end_date == self.end_date,
            Some(res.pool) == self.pool,
            res.days_back == self.days_back,
            res.limit == self.limit,
            res.offset == self.offset,
            res.game_types == self.game_types,
    {
        StatLeadersEndpoint {
            stats: self.stats.unwrap(),
            stat_group: self.stat_group,
            season: self.season,
            sport_id: self.sport_id,
            stat_types: self.stat_types.unwrap(),
            start_date: self.start_date,
            end_date: self.end_date,
            pool: self.pool.unwrap(),
            days_back: self.days_back,
            limit: self.limit,
            offset: self.offset,
            game_types: self.game_types,
        }
    }
}

/// The response of the team stat leaders endpoint.
#[derive(Debug, Clone)]
pub struct TeamStatLeadersResponse {
    pub copyright: Copyright,
    pub team_leaders: Vec<StatLeaders>,
}

/// The request for the leaders of a team in some statistics.
#[derive(Debug, Clone)]
pub struct TeamStatLeadersEndpoint {
    pub team_id: TeamId,
    pub stats: Vec<BaseballStatId>,
    pub season: Option<u16>,
    pub pool: PlayerPool,
    /// `None` stands for all game types.
    pub game_types: Option<Vec<GameType>>,
}

/// The URL of a [`TeamStatLeadersEndpoint`].
pub open spec fn team_stat_leaders_url(r: TeamStatLeadersEndpoint) -> Seq<char> {
    team_path(r.team_id, "/leaders"@) + query(
        seq![
            Some(kv("leaderCategories"@, texts_text(r.stats@))),
            opt_num_kv("season"@, opt_small(r.season)),
            Some(kv("pool"@, r.pool.0@)),
            opt_text_kv("game_types"@, opt_texts(r.game_types)),
        ],
    )
}

impl TeamStatLeadersEndpoint {
    /// The URL of the request.
    pub fn to_string(&self) -> (res: String)
        ensures
            res@ == team_stat_leaders_url(*self),
    {
        let stats = join_texts(&self.stats);
        let pieces = vec![
            Some(param("leaderCategories", stats.as_str())),
            opt_num_param("season", widen(self.season)),
            text_id_param("pool", &self.pool),
            opt_param("game_types", opt_join_texts(&self.game_types)),
        ];
        assert(opt_views(pieces@) =~= seq![
            Some(kv("leaderCategories"@, texts_text(self.stats@))),
            opt_num_kv("season"@, opt_small(self.season)),
            Some(kv("pool"@, self.pool.0@)),
            opt_text_kv("game_types"@, opt_texts(self.game_types)),
        ]);
        let base = team_path_string(self.team_id, "/leaders");
        url_with_query(base.as_str(), &pieces)
    }
}


/// The URL of a stat leaders request holds the statistics, the sport, the stat types and the
/// player pool, and each other filter that is given.
pub proof fn lemma_stat_leaders_url_holds_filters(r: StatLeadersEndpoint)
    ensures
        crate::text::holds_entry(stat_leaders_url(r), crate::text::kv("leaderCategories"@, texts_text(r.stats@))),
        r.stat_group matches Some(g) ==> crate::text::holds_entry(stat_leaders_url(r), crate::text::kv("statGroup"@, g.0@)),
        r.season matches Some(v) ==> crate::text::holds_entry(stat_leaders_url(r), crate::text::kv("season"@, crate::text::dec(v.0 as nat))),
        crate::text::holds_entry(stat_leaders_url(r), crate::text::kv("sportId"@, crate::text::dec(r.sport_id.0 as nat))),
        crate::text::holds_entry(stat_leaders_url(r), crate::text::kv("stats"@, texts_text(r.stat_types@))),
        r.start_date matches Some(d) ==> crate::text::holds_entry(stat_leaders_url(r), crate::text::kv("startDate"@, crate::date::date_text(d@.0, d@.1, d@.2))),
        r.end_date matches Some(d) ==> crate::text::holds_entry(stat_leaders_url(r), crate::text::kv("endDate"@, crate::date::date_text(d@.0, d@.1, d@.2))),
        crate::text::holds_entry(stat_leaders_url(r), crate::text::kv("playerPool"@, r.pool.0@)),
        r.days_back matches Some(v) ==> crate::text::holds_entry(stat_leaders_url(r), crate::text::kv("daysBack"@, crate::text::dec(v as nat))),
        r.limit matches Some(v) ==> crate::text::holds_entry(stat_leaders_url(r), crate::text::kv("limit"@, crate::text::dec(v as nat))),
        r.offset matches Some(v) ==> crate::text::holds_entry(stat_leaders_url(r), crate::text::kv("offset"@, crate::text::dec(v as nat))),
        r.game_types matches Some(t) ==> crate::text::holds_entry(stat_leaders_url(r), crate::text::kv("gameTypes"@, texts_text(t@))),
{
    let base = "http://statsapi.mlb.com/api/v1/stats/leaders"@;
    let pieces = seq![
            Some(kv("leaderCategories"@, texts_text(r.stats@))),
            opt_text_kv("statGroup"@, match r.stat_group { Some(g) => Some(g.0@), None => None }),
            opt_num_kv("season"@, opt_id(r.season)),
            num_kv("sportId"@, r.sport_id.0 as nat),
            Some(kv("stats"@, texts_text(r.stat_types@))),
            opt_date_kv("startDate"@, r.start_date),
            opt_date_kv("endDate"@, r.end_date),
            Some(kv("playerPool"@, r.pool.0@)),
            opt_num_kv("daysBack"@, opt_nat(r.days_back)),
            opt_num_kv("limit"@, opt_small(r.limit)),
            opt_num_kv("offset"@, opt_small(r.offset)),
            opt_text_kv("gameTypes"@, opt_texts(r.game_types)),
        ];
    assert(stat_leaders_url(r) == base + query(pieces));
    crate::text::lemma_query_holds_entries(base, pieces);
}

/// The URL of a team's stat leaders request names the team, and holds the statistics and the
/// pool, and the season and game types where they are given.
pub proof fn lemma_team_stat_leaders_url_holds_filters(r: TeamStatLeadersEndpoint)
    ensures
        ("http://statsapi.mlb.com/api/v1/teams/"@ + crate::text::dec(r.team_id.0 as nat) + "/leaders"@).is_prefix_of(team_stat_leaders_url(r)),
        crate::text::holds_entry(team_stat_leaders_url(r), crate::text::kv("leaderCategories"@, texts_text(r.stats@))),
        r.season matches Some(v) ==> crate::text::holds_entry(team_stat_leaders_url(r), crate::text::kv("season"@, crate::text::dec(v as nat))),
        crate::text::holds_entry(team_stat_leaders_url(r), crate::text::kv("pool"@, r.pool.0@)),
        r.game_types matches Some(t) ==> crate::text::holds_entry(team_stat_leaders_url(r), crate::text::kv("game_types"@, texts_text(t@))),
{
    let base = team_path(r.team_id, "/leaders"@);
    let pieces = seq![
            Some(kv("leaderCategories"@, texts_text(r.stats@))),
            opt_num_kv("season"@, opt_small(r.season)),
            Some(kv("pool"@, r.pool.0@)),
            opt_text_kv("game_types"@, opt_texts(r.game_types)),
        ];
    assert(team_stat_leaders_url(r) == base + query(pieces));
    crate::text::lemma_query_holds_entries(base, pieces);
    assert(team_stat_leaders_url(r).subrange(0, ("http://statsapi.mlb.com/api/v1/teams/"@ + crate::text::dec(r.team_id.0 as nat) + "/leaders"@).len() as int) =~= ("http://statsapi.mlb.com/api/v1/teams/"@ + crate::text::dec(r.team_id.0 as nat) + "/leaders"@));
}

} // verus!
