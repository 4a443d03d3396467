//! Requests about one game, the metadata of its live feed, and the game pace requests.

use vstd::prelude::*;
use crate::ids::{GameId, GameType, LeagueId, SeasonId, SportId, TeamId};
use crate::game::DoubleHeaderKind;
use crate::text::{dec, kv, query, opt_views, param};
use crate::request::{num_kv, opt_num_kv, id_param, opt_id_param, url_with_query, join_ids, ids_text};
use crate::league::opt_id;

verus! {

/// `{base}{game}{rest}`, the URL of a request about one game.
pub open spec fn game_url(base: Seq<char>, id: GameId, rest: Seq<char>) -> Seq<char> {
    base + dec(id.0 as nat) + rest
}

/// Builds the URL of a request about one game.
pub fn game_url_string(base: &str, id: GameId, rest: &str) -> (res: String)
    ensures
        res@ == game_url(base@, id, rest@),
{
    let mut s = String::from_str(base);
    let t = id.to_string();
    s.append(t.as_str());
    s.append(rest);
    s
}

/// The request for the plays of a game.
#[derive(Debug, PartialEq, Eq, Structural, Copy, Clone)]
pub struct PlayByPlayRequest {
    pub id: GameId,
}

/// The URL of a [`PlayByPlayRequest`].
pub open spec fn play_by_play_url(r: PlayByPlayRequest) -> Seq<char> {
    game_url("http://statsapi.mlb.com/api/v1/game/"@, r.id, "/playByPlay"@)
}

impl PlayByPlayRequest {
    /// Starts a request; the game must be given before it is built.
    pub fn builder() -> (res: PlayByPlayRequestBuilder)
        ensures
            res.id is None,
    {
        PlayByPlayRequestBuilder { id: None }
    }

    /// The URL of the request.
    pub fn to_string(&self) -> (res: String)
        ensures
            res@ == play_by_play_url(*self),
    {
        game_url_string("http://statsapi.mlb.com/api/v1/game/", self.id, "/playByPlay")
    }
}

/// Builder of a [`PlayByPlayRequest`].
#[derive(Debug, PartialEq, Eq, Structural, Copy, Clone)]
pub struct PlayByPlayRequestBuilder {
    pub id: Option<GameId>,
}

impl PlayByPlayRequestBuilder {
    /// Sets the game.
    pub fn id(self, id: GameId) -> (res: Self)
        ensures
            res.id == Some(id),
    {
        PlayByPlayRequestBuilder { id: Some(id) }
    }

    /// The request; the game must have been given.
    pub fn build(self) -> (res: PlayByPlayRequest)
        requires
            self.id is Some,
        ensures
            Some(res.id) == self.id,
    {
        PlayByPlayRequest { id: self.id.unwrap() }
    }
}

/// The request for the boxscore of a game.
#[derive(Debug, PartialEq, Eq, Structural, Copy, Clone)]
pub struct BoxscoreRequest {
    pub id: GameId,
}

/// The URL of a [`BoxscoreRequest`].
pub open spec fn boxscore_url(r: BoxscoreRequest) -> Seq<char> {
    game_url("http://statsapi.mlb.com/api/v1/game/"@, r.id, "/boxscore"@)
}

impl BoxscoreRequest {
    /// Starts a request; the game must be given before it is built.
    pub fn builder() -> (res: BoxscoreRequestBuilder)
        ensures
            res.id is None,
    {
        BoxscoreRequestBuilder { id: None }
    }

    /// The URL of the request.
    pub fn to_string(&self) -> (res: String)
        ensures
            res@ == boxscore_url(*self),
    {
        game_url_string("http://statsapi.mlb.com/api/v1/game/", self.id, "/boxscore")
    }
}

/// Builder of a [`BoxscoreRequest`].
#[derive(Debug, PartialEq, Eq, Structural, Copy, Clone)]
pub struct BoxscoreRequestBuilder {
    pub id: Option<GameId>,
}

impl BoxscoreRequestBuilder {
    /// Sets the game.
    pub fn id(self, id: GameId) -> (res: Self)
        ensures
            res.id == Some(id),
    {
        BoxscoreRequestBuilder { id: Some(id) }
    }

    /// The request; the game must have been given.
    pub fn build(self) -> (res: BoxscoreRequest)
        requires
            self.id is Some,
        ensures
            Some(res.id) == self.id,
    {
        BoxscoreRequest { id: self.id.unwrap() }
    }
}

/// The request for the linescore of a game.
#[derive(Debug, PartialEq, Eq, Structural, Copy, Clone)]
pub struct LinescoreRequest {
    pub id: GameId,
}

/// The URL of a [`LinescoreRequest`].
pub open spec fn linescore_url(r: LinescoreRequest) -> Seq<char> {
    game_url("http://statsapi.mlb.com/api/v1/game/"@, r.id, "/linescore"@)
}

impl LinescoreRequest {
    /// Starts a request; the game must be given before it is built.
    pub fn builder() -> (res: LinescoreRequestBuilder)
        ensures
            res.id is None,
    {
        LinescoreRequestBuilder { id: None }
    }

    /// The URL of the request.
    pub fn to_string(&self) -> (res: String)
        ensures
            res@ == linescore_url(*self),
    {
        game_url_string("http://statsapi.mlb.com/api/v1/game/", self.id, "/linescore")
    }
}

/// Builder of a [`LinescoreRequest`].
#[derive(Debug, PartialEq, Eq, Structural, Copy, Clone)]
pub struct LinescoreRequestBuilder {
    pub id: Option<GameId>,
}

impl LinescoreRequestBuilder {
    /// Sets the game.
    pub fn id(self, id: GameId) -> (res: Self)
        ensures
            res.id == Some(id),
    {
        LinescoreRequestBuilder { id: Some(id) }
    }

    /// The request; the game must have been given.
    pub fn build(self) -> (res: LinescoreRequest)
        requires
            self.id is Some,
        ensures
            Some(res.id) == self.id,
    {
        LinescoreRequest { id: self.id.unwrap() }
    }
}

/// The request for the live feed of a game: its plays, linescore, boxscore and more.
#[derive(Debug, PartialEq, Eq, Structural, Copy, Clone)]
pub struct LiveFeedRequest {
    pub id: GameId,
}

/// The URL of a [`LiveFeedRequest`].
pub open spec fn live_feed_url(r: LiveFeedRequest) -> Seq<char> {
    game_url("http://statsapi.mlb.com/api/v1.1/game/"@, r.id, "/feed/live"@)
}

impl LiveFeedRequest {
    /// Starts a request; the game must be given before it is built.
    pub fn builder() -> (res: LiveFeedRequestBuilder)
        ensures
            res.id is None,
    {
        LiveFeedRequestBuilder { id: None }
    }

    /// The URL of the request.
    pub fn to_string(&self) -> (res: String)
        ensures
            res@ == live_feed_url(*self),
    {
        game_url_string("http://statsapi.mlb.com/api/v1.1/game/", self.id, "/feed/live")
    }
}

/// Builder of a [`LiveFeedRequest`].
#[derive(Debug, PartialEq, Eq, Structural, Copy, Clone)]
pub struct LiveFeedRequestBuilder {
    pub id: Option<GameId>,
}

impl LiveFeedRequestBuilder {
    /// Sets the game.
    pub fn id(self, id: GameId) -> (res: Self)
        ensures
            res.id == Some(id),
    {
        LiveFeedRequestBuilder { id: Some(id) }
    }

    /// The request; the game must have been given.
    pub fn build(self) -> (res: LiveFeedRequest)
        requires
            self.id is Some,
        ensures
            Some(res.id) == self.id,
    {
        LiveFeedRequest { id: self.id.unwrap() }
    }
}

/// The request for the timestamps of the plays and play events of a game.
#[derive(Debug, PartialEq, Eq, Structural, Copy, Clone)]
pub struct GameTimestampsRequest {
    pub id: GameId,
}

/// The URL of a [`GameTimestampsRequest`].
pub open spec fn timestamps_url(r: GameTimestampsRequest) -> Seq<char> {
    game_url("http://statsapi.mlb.com/api/v1.1/game/"@, r.id, "/feed/live/timestamps"@)
}

impl GameTimestampsRequest {
    /// Starts a request; the game must be given before it is built.
    pub fn builder() -> (res: GameTimestampsRequestBuilder)
        ensures
            res.id is None,
    {
        GameTimestampsRequestBuilder { id: None }
    }

    /// The URL of the request.
    pub fn to_string(&self) -> (res: String)
        ensures
            res@ == timestamps_url(*self),
    {
        game_url_string("http://statsapi.mlb.com/api/v1.1/game/", self.id, "/feed/live/timestamps")
    }
}

/// Builder of a [`GameTimestampsRequest`].
#[derive(Debug, PartialEq, Eq, Structural, Copy, Clone)]
pub struct GameTimestampsRequestBuilder {
    pub id: Option<GameId>,
}

impl GameTimestampsRequestBuilder {
    /// Sets the game.
    pub fn id(self, id: GameId) -> (res: Self)
        ensures
            res.id == Some(id),
    {
        GameTimestampsRequestBuilder { id: Some(id) }
    }

    /// The request; the game must have been given.
    pub fn build(self) -> (res: GameTimestampsRequest)
        requires
            self.id is Some,
        ensures
            Some(res.id) == self.id,
    {
        GameTimestampsRequest { id: self.id.unwrap() }
    }
}

/// Metadata of a live feed.
#[derive(Debug, Clone)]
pub struct LiveFeedMetadata {
    /// Seconds to wait before polling again.
    pub wait: u32,
    pub game_events: Vec<String>,
    pub logical_events: Vec<String>,
}

/// What a live feed tells of the game itself.
#[derive(Debug, Clone)]
pub struct LiveFeedDataMeta {
    pub id: GameId,
    pub game_type: GameType,
    pub double_header: DoubleHeaderKind,
    /// `P` for playoff games, whatever their series.
    pub gameday_type: GameType,
    pub tiebreaker: bool,
    pub game_number: u32,
    pub season: SeasonId,
    pub displayed_season: SeasonId,
}

/// The request for the pace of games of a sport in a season.
#[derive(Debug, Clone, Copy)]
pub struct SportGamePaceRequest {
    pub season: SeasonId,
    pub sport: Option<SportId>,
}

/// The URL of a [`SportGamePaceRequest`].
pub open spec fn sport_pace_url(r: SportGamePaceRequest) -> Seq<char> {
    "http://statsapi.mlb.com/api/v1/gamePace"@ + query(
        seq![num_kv("season"@, r.season.0 as nat), opt_num_kv("sportId"@, opt_id(r.sport))],
    )
}

impl SportGamePaceRequest {
    /// Starts a request; the season must be given before it is built.
    pub fn builder() -> (res: SportGamePaceRequestBuilder)
        ensures
            res.season is None,
            res.sport is None,
    {
        SportGamePaceRequestBuilder { season: None, sport: None }
    }

    /// The URL of the request.
    pub fn to_string(&self) -> (res: String)
        ensures
            res@ == sport_pace_url(*self),
    {
        let pieces = vec![id_param("season", &self.season), opt_id_param("sportId", &self.sport)];
        assert(opt_views(pieces@) =~= seq![num_kv("season"@, self.season.0 as nat), opt_num_kv("sportId"@, opt_id(self.sport))]);
        url_with_query("http://statsapi.mlb.com/api/v1/gamePace", &pieces)
    }
}

/// Builder of a [`SportGamePaceRequest`].
#[derive(Debug, Clone, Copy)]
pub struct SportGamePaceRequestBuilder {
    pub season: Option<SeasonId>,
    pub sport: Option<SportId>,
}

impl SportGamePaceRequestBuilder {
    /// Sets the season.
    pub fn season(self, season: SeasonId) -> (res: Self)
        ensures
            res == (Self { season: Some(season), ..self }),
    {
        Self { season: Some(season), ..self }
    }

    /// Sets the sport.
    pub fn sport(self, sport: SportId) -> (res: Self)
        ensures
            res == (Self { sport: Some(sport), ..self }),
    {
        Self { sport: Some(sport), ..self }
    }

    /// The request; the season must have been given.
    pub fn build(self) -> (res: SportGamePaceRequest)
        requires
            self.season is Some,
        ensures
            Some(res.season) == self.season,
            res.sport == self.sport,
    {
        SportGamePaceRequest { season: self.season.unwrap(), sport: self.sport }
    }
}

/// The request for the pace of games of some teams in a season.
#[derive(Debug, Clone)]
pub struct TeamGamePaceRequest {
    pub season: SeasonId,
    pub teams: Vec<TeamId>,
}

/// The URL of a [`TeamGamePaceRequest`].
pub open spec fn team_pace_url(r: TeamGamePaceRequest) -> Seq<char> {
    "http://statsapi.mlb.com/api/v1/gamePace"@ + query(
        seq![num_kv("season"@, r.season.0 as nat), Some(kv("teamIds"@, ids_text(r.teams@)))],
    )
}

impl TeamGamePaceRequest {
    /// Starts a request; the season and the teams must be given before it is built.
    pub fn builder() -> (res: TeamGamePaceRequestBuilder)
        ensures
            res.season is None,
            res.teams is None,
    {
        TeamGamePaceRequestBuilder { season: None, teams: None }
    }

    /// The URL of the request.
    pub fn to_string(&self) -> (res: String)
        ensures
            res@ == team_pace_url(*self),
    {
        let ids = join_ids(&self.teams);
        let pieces = vec![id_param("season", &self.season), Some(param("teamIds", ids.as_str()))];
        assert(opt_views(pieces@) =~= seq![num_kv("season"@, self.season.0 as nat), Some(kv("teamIds"@, ids_text(self.teams@)))]);
        url_with_query("http://statsapi.mlb.com/api/v1/gamePace", &pieces)
    }
}

/// Builder of a [`TeamGamePaceRequest`].
#[derive(Debug, Clone)]
pub struct TeamGamePaceRequestBuilder {
    pub season: Option<SeasonId>,
    pub teams: Option<Vec<TeamId>>,
}

impl TeamGamePaceRequestBuilder {
    /// Sets the season.
    pub fn season(self, season: SeasonId) -> (res: Self)
        ensures
            res.season == Some(season),
            res.teams == self.teams,
    {
        TeamGamePaceRequestBuilder { season: Some(season), teams: self.teams }
    }

    /// Sets the teams.
    pub fn teams(self, teams: Vec<TeamId>) -> (res: Self)
        ensures
            res.season == self.season,
            res.teams == Some(teams),
    {
        TeamGamePaceRequestBuilder { season: self.season, teams: Some(teams) }
    }

    /// The request; the season and the teams must have been given.
    pub fn build(self) -> (res: TeamGamePaceRequest)
        requires
            self.season is Some,
            self.teams is Some,
        ensures
            Some(res.season) == self.season,
            Some(res.teams) == self.teams,
    {
        TeamGamePaceRequest { season: self.season.unwrap(), teams: self.teams.unwrap() }
    }
}

/// The request for the pace of games of some leagues in a season.
#[derive(Debug, Clone)]
pub struct LeagueGamePaceRequest {
    pub season: SeasonId,
    pub leagues: Vec<LeagueId>,
}

/// The URL of a [`LeagueGamePaceRequest`].
pub open spec fn league_pace_url(r: LeagueGamePaceRequest) -> Seq<char> {
    "http://statsapi.mlb.com/api/v1/gamePace"@ + query(
        seq![num_kv("season"@, r.season.0 as nat), Some(kv("leagueIds"@, ids_text(r.leagues@)))],
    )
}

impl LeagueGamePaceRequest {
    /// Starts a request; the season and the leagues must be given before it is built.
    pub fn builder() -> (res: LeagueGamePaceRequestBuilder)
        ensures
            res.season is None,
            res.leagues is None,
    {
        LeagueGamePaceRequestBuilder { season: None, leagues: None }
    }

    /// The URL of the request.
    pub fn to_string(&self) -> (res: String)
        ensures
            res@ == league_pace_url(*self),
    {
        let ids = join_ids(&self.leagues);
        let pieces = vec![id_param("season", &self.season), Some(param("leagueIds", ids.as_str()))];
        assert(opt_views(pieces@) =~= seq![num_kv("season"@, self.season.0 as nat), Some(kv("leagueIds"@, ids_text(self.leagues@)))]);
        url_with_query("http://statsapi.mlb.com/api/v1/gamePace", &pieces)
    }
}

/// Builder of a [`LeagueGamePaceRequest`].
#[derive(Debug, Clone)]
pub struct LeagueGamePaceRequestBuilder {
    pub season: Option<SeasonId>,
    pub leagues: Option<Vec<LeagueId>>,
}

impl LeagueGamePaceRequestBuilder {
    /// Sets the season.
    pub fn season(self, season: SeasonId) -> (res: Self)
        ensures
            res.season == Some(season),
            res.leagues == self.leagues,
    {
        LeagueGamePaceRequestBuilder { season: Some(season), leagues: self.leagues }
    }

    /// Sets the leagues.
    pub fn leagues(self, leagues: Vec<LeagueId>) -> (res: Self)
        ensures
            res.season == self.season,
            res.leagues == Some(leagues),
    {
        LeagueGamePaceRequestBuilder { season: self.season, leagues: Some(leagues) }
    }

    /// The request; the season and the leagues must have been given.
    pub fn build(self) -> (res: LeagueGamePaceRequest)
        requires
            self.season is Some,
            self.leagues is Some,
        ensures
            Some(res.season) == self.season,
            Some(res.leagues) == self.leagues,
    {
        LeagueGamePaceRequest { season: self.season.unwrap(), leagues: self.leagues.unwrap() }
    }
}


/// The URL of a sport's game pace request holds the season, and the sport where it is given.
pub proof fn lemma_sport_pace_url_holds_filters(r: SportGamePaceRequest)
    ensures
        crate::text::holds_entry(sport_pace_url(r), crate::text::kv("season"@, crate::text::dec(r.season.0 as nat))),
        r.sport matches Some(v) ==> crate::text::holds_entry(sport_pace_url(r), crate::text::kv("sportId"@, crate::text::dec(v.0 as nat))),
{
    let base = "http://statsapi.mlb.com/api/v1/gamePace"@;
    let pieces = seq![num_kv("season"@, r.season.0 as nat), opt_num_kv("sportId"@, opt_id(r.sport))];
    assert(sport_pace_url(r) == base + query(pieces));
    crate::text::lemma_query_holds_entries(base, pieces);
}

/// The URL of a team game pace request holds the season and the teams.
pub proof fn lemma_team_pace_url_holds_filters(r: TeamGamePaceRequest)
    ensures
        crate::text::holds_entry(team_pace_url(r), crate::text::kv("season"@, crate::text::dec(r.season.0 as nat))),
        crate::text::holds_entry(team_pace_url(r), crate::text::kv("teamIds"@, ids_text(r.teams@))),
{
    let base = "http://statsapi.mlb.com/api/v1/gamePace"@;
    let pieces = seq![num_kv("season"@, r.season.0 as nat), Some(kv("teamIds"@, ids_text(r.teams@)))];
    assert(team_pace_url(r) == base + query(pieces));
    crate::text::lemma_query_holds_entries(base, pieces);
}

/// The URL of a league game pace request holds the season and the leagues.
pub proof fn lemma_league_pace_url_holds_filters(r: LeagueGamePaceRequest)
    ensures
        crate::text::holds_entry(league_pace_url(r), crate::text::kv("season"@, crate::text::dec(r.season.0 as nat))),
        crate::text::holds_entry(league_pace_url(r), crate::text::kv("leagueIds"@, ids_text(r.leagues@))),
{
    let base = "http://statsapi.mlb.com/api/v1/gamePace"@;
    let pieces = seq![num_kv("season"@, r.season.0 as nat), Some(kv("leagueIds"@, ids_text(r.leagues@)))];
    assert(league_pace_url(r) == base + query(pieces));
    crate::text::lemma_query_holds_entries(base, pieces);
}


/// The URL of each request about one game is its endpoint's base, the game's number, and the
/// endpoint's path after it.
pub proof fn lemma_game_urls_name_the_game(play_by_play: PlayByPlayRequest, boxscore: BoxscoreRequest, linescore: LinescoreRequest, live_feed: LiveFeedRequest, timestamps: GameTimestampsRequest)
    ensures
        play_by_play_url(play_by_play) == "http://statsapi.mlb.com/api/v1/game/"@ + crate::text::dec(play_by_play.id.0 as nat) + "/playByPlay"@,
        boxscore_url(boxscore) == "http://statsapi.mlb.com/api/v1/game/"@ + crate::text::dec(boxscore.id.0 as nat) + "/boxscore"@,
        linescore_url(linescore) == "http://statsapi.mlb.com/api/v1/game/"@ + crate::text::dec(linescore.id.0 as nat) + "/linescore"@,
        live_feed_url(live_feed) == "http://statsapi.mlb.com/api/v1.1/game/"@ + crate::text::dec(live_feed.id.0 as nat) + "/feed/live"@,
        timestamps_url(timestamps) == "http://statsapi.mlb.com/api/v1.1/game/"@ + crate::text::dec(timestamps.id.0 as nat) + "/feed/live/timestamps"@,
{
}

} // verus!
