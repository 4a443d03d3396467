//! Requests about teams: the list of teams, a team's history, affiliates, alumni, coaches and
//! personnel.

use vstd::prelude::*;
use crate::ids::{SeasonId, SportId, TeamId};
use crate::date::Date;
use crate::text::{dec, query, opt_views};
use crate::league::opt_id;
use crate::request::{opt_num_kv, opt_date_kv, opt_nat, opt_id_param, opt_num_param, opt_date_param, url_with_query};

verus! {

/// An optional `u16` as a natural number.
pub open spec fn opt_small(o: Option<u16>) -> Option<nat> {
    match o {
        Some(v) => Some(v as nat),
        None => None,
    }
}

/// An optional `u16` widened to a `u32`.
pub fn widen(o: Option<u16>) -> (res: Option<u32>)
    ensures
        opt_nat(res) == opt_small(o),
{
    match o {
        Some(v) => Some(v as u32),
        None => None,
    }
}

/// `base/{team}/{rest}`, the path of a request about one team.
pub open spec fn team_path(team: TeamId, rest: Seq<char>) -> Seq<char> {
    "http://statsapi.mlb.com/api/v1/teams/"@ + dec(team.0 as nat) + rest
}

/// Builds the path of a request about one team.
pub fn team_path_string(team: TeamId, rest: &str) -> (res: String)
    ensures
        res@ == team_path(team, rest@),
{
    let mut s = String::from_str("http://statsapi.mlb.com/api/v1/teams/");
    let t = team.to_string();
    s.append(t.as_str());
    s.append(rest);
    s
}

/// The request for the teams of a sport, or of a season.
#[derive(Debug, Clone, Copy)]
pub struct TeamsEndpoint {
    pub sport_id: Option<SportId>,
    pub season: Option<SeasonId>,
}

/// The URL of a [`TeamsEndpoint`].
pub open spec fn teams_url(r: TeamsEndpoint) -> Seq<char> {
    "http://statsapi.mlb.com/api/v1/teams"@ + query(
        seq![opt_num_kv("sportId"@, opt_id(r.sport_id)), opt_num_kv("season"@, opt_id(r.season))],
    )
}

impl TeamsEndpoint {
    /// Starts a request with nothing given.
    pub fn builder() -> (res: TeamsEndpointBuilder)
        ensures
            res.sport_id is None,
            res.season is None,
    {
        TeamsEndpointBuilder { sport_id: None, season: None }
    }

    /// The URL of the request.
    pub fn to_string(&self) -> (res: String)
        ensures
            res@ == teams_url(*self),
    {
        let pieces = vec![opt_id_param("sportId", &self.sport_id), opt_id_param("season", &self.season)];
        assert(opt_views(pieces@) =~= seq![
            opt_num_kv("sportId"@, opt_id(self.sport_id)),
            opt_num_kv("season"@, opt_id(self.season)),
        ]);
        url_with_query("http://statsapi.mlb.com/api/v1/teams", &pieces)
    }
}

/// Builder of a [`TeamsEndpoint`].
#[derive(Debug, Clone, Copy)]
pub struct TeamsEndpointBuilder {
    pub sport_id: Option<SportId>,
    pub season: Option<SeasonId>,
}

impl TeamsEndpointBuilder {
    /// Sets the sport.
    pub fn sport_id(self, id: SportId) -> (res: Self)
        ensures
            res == (Self { sport_id: Some(id), ..self }),
    {
        Self { sport_id: Some(id), ..self }
    }

    /// Sets the season.
    pub fn season(self, season: SeasonId) -> (res: Self)
        ensures
            res == (Self { season: Some(season), ..self }),
    {
        Self { season: Some(season), ..self }
    }

    /// The request.
    pub fn build(self) -> (res: TeamsEndpoint)
        ensures
            res.sport_id == self.sport_id,
            res.season == self.season,
    {
        TeamsEndpoint { sport_id: self.sport_id, season: self.season }
    }
}

/// The history of a team through the years: the Los Angeles Dodgers' includes the Brooklyn
/// Dodgers'.
#[derive(Debug, Clone, Copy)]
pub struct TeamHistoryEndpoint {
    pub team_id: TeamId,
    pub start_season: Option<SeasonId>,
    pub end_season: Option<SeasonId>,
}

/// The URL of a [`TeamHistoryEndpoint`].
pub open spec fn team_history_url(r: TeamHistoryEndpoint) -> Seq<char> {
    team_path(r.team_id, "/history"@) + query(
        seq![opt_num_kv("startSeason"@, opt_id(r.start_season)), opt_num_kv("endSeason"@, opt_id(r.end_season))],
    )
}

impl TeamHistoryEndpoint {
    /// Starts a request; the team must be given before it is built.
    pub fn builder() -> (res: TeamHistoryEndpointBuilder)
        ensures
            res.team_id is None,
            res.start_season is None,
            res.end_season is None,
    {
        TeamHistoryEndpointBuilder { team_id: None, start_season: None, end_season: None }
    }

    /// The URL of the request.
    pub fn to_string(&self) -> (res: String)
        ensures
            res@ == team_history_url(*self),
    {
        let pieces = vec![opt_id_param("startSeason", &self.start_season), opt_id_param("endSeason", &self.end_season)];
        assert(opt_views(pieces@) =~= seq![
            opt_num_kv("startSeason"@, opt_id(self.start_season)),
            opt_num_kv("endSeason"@, opt_id(self.end_season)),
        ]);
        let base = team_path_string(self.team_id, "/history");
        url_with_query(base.as_str(), &pieces)
    }
}

/// Builder of a [`TeamHistoryEndpoint`].
#[derive(Debug, Clone, Copy)]
pub struct TeamHistoryEndpointBuilder {
    pub team_id: Option<TeamId>,
    pub start_season: Option<SeasonId>,
    pub end_season: Option<SeasonId>,
}

impl TeamHistoryEndpointBuilder {
    /// Sets the team.
    pub fn team_id(self, id: TeamId) -> (res: Self)
        ensures
            res == (Self { team_id: Some(id), ..self }),
    {
        Self { team_id: Some(id), ..self }
    }

    /// Sets the first season.
    pub fn start_season(self, season: SeasonId) -> (res: Self)
        ensures
            res == (Self { start_season: Some(season), ..self }),
    {
        Self { start_season: Some(season), ..self }
    }

    /// Sets the last season.
    pub fn end_season(self, season: SeasonId) -> (res: Self)
        ensures
            res == (Self { end_season: Some(season), ..self }),
    {
        Self { end_season: Some(season), ..self }
    }

    /// The request; the team must have been given.
    pub fn build(self) -> (res: TeamHistoryEndpoint)
        requires
            self.team_id is Some,
        ensures
            Some(res.team_id) == self.team_id,
            res.start_season == self.start_season,
            res.end_season == self.end_season,
    {
        TeamHistoryEndpoint {
            team_id: self.team_id.unwrap(),
            start_season: self.start_season,
            end_season: self.end_season,
        }
    }
}

/// The minor league affiliates of a team.
#[derive(Debug, Clone, Copy)]
pub struct TeamAffiliatesEndpointUrl {
    pub id: TeamId,
    pub season: Option<u16>,
}

/// The URL of a [`TeamAffiliatesEndpointUrl`].
pub open spec fn affiliates_url(r: TeamAffiliatesEndpointUrl) -> Seq<char> {
    team_path(r.id, "/affiliates"@) + query(seq![opt_num_kv("season"@, opt_small(r.season))])
}

impl TeamAffiliatesEndpointUrl {
    /// The URL of the request.
    pub fn to_string(&self) -> (res: String)
        ensures
            res@ == affiliates_url(*self),
    {
        let pieces = vec![opt_num_param("season", widen(self.season))];
        assert(opt_views(pieces@) =~= seq![opt_num_kv("season"@, opt_small(self.season))]);
        let base = team_path_string(self.id, "/affiliates");
        url_with_query(base.as_str(), &pieces)
    }
}

/// The alumni of a team.
#[derive(Debug, Clone, Copy)]
pub struct AlumniEndpoint {
    pub team_id: TeamId,
    pub season: Option<SeasonId>,
}

/// The URL of an [`AlumniEndpoint`].
pub open spec fn alumni_url(r: AlumniEndpoint) -> Seq<char> {
    team_path(r.team_id, "/alumni"@) + query(seq![opt_num_kv("season"@, opt_id(r.season))])
}

impl AlumniEndpoint {
    /// Starts a request; the team must be given before it is built.
    pub fn builder() -> (res: AlumniEndpointBuilder)
        ensures
            res.team_id is None,
            res.season is None,
    {
        AlumniEndpointBuilder { team_id: None, season: None }
    }

    /// The URL of the request.
    pub fn to_string(&self) -> (res: String)
        ensures
            res@ == alumni_url(*self),
    {
        let pieces = vec![opt_id_param("season", &self.season)];
        assert(opt_views(pieces@) =~= seq![opt_num_kv("season"@, opt_id(self.season))]);
        let base = team_path_string(self.team_id, "/alumni");
        url_with_query(base.as_str(), &pieces)
    }
}

/// Builder of an [`AlumniEndpoint`].
#[derive(Debug, Clone, Copy)]
pub struct AlumniEndpointBuilder {
    pub team_id: Option<TeamId>,
    pub season: Option<SeasonId>,
}

impl AlumniEndpointBuilder {
    /// Sets the team.
    pub fn team_id(self, id: TeamId) -> (res: Self)
        ensures
            res == (Self { team_id: Some(id), ..self }),
    {
        Self { team_id: Some(id), ..self }
    }

    /// Sets the season.
    pub fn season(self, season: SeasonId) -> (res: Self)
        ensures
            res == (Self { season: Some(season), ..self }),
    {
        Self { season: Some(season), ..self }
    }

    /// The request; the team must have been given.
    pub fn build(self) -> (res: AlumniEndpoint)
        requires
            self.team_id is Some,
        ensures
            Some(res.team_id) == self.team_id,
            res.season == self.season,
    {
        AlumniEndpoint { team_id: self.team_id.unwrap(), season: self.season }
    }
}

/// The coaches of a team.
#[derive(Debug, Clone, Copy)]
pub struct CoachesEndpoint {
    pub team_id: TeamId,
    pub season: Option<SeasonId>,
    pub date: Option<Date>,
}

/// The URL of a [`CoachesEndpoint`].
pub open spec fn coaches_url(r: CoachesEndpoint) -> Seq<char> {
    team_path(r.team_id, "/coaches"@) + query(
        seq![opt_num_kv("season"@, opt_id(r.season)), opt_date_kv("date"@, r.date)],
    )
}

impl CoachesEndpoint {
    /// Starts a request; the team must be given before it is built.
    pub fn builder() -> (res: CoachesEndpointBuilder)
        ensures
            res.team_id is None,
            res.season is None,
            res.date is None,
    {
        CoachesEndpointBuilder { team_id: None, season: None, date: None }
    }

    /// The URL of the request.
    pub fn to_string(&self) -> (res: String)
        ensures
            res@ == coaches_url(*self),
    {
        let pieces = vec![opt_id_param("season", &self.season), opt_date_param("date", self.date)];
        assert(opt_views(pieces@) =~= seq![
            opt_num_kv("season"@, opt_id(self.season)),
            opt_date_kv("date"@, self.date),
        ]);
        let base = team_path_string(self.team_id, "/coaches");
        url_with_query(base.as_str(), &pieces)
    }
}

/// Builder of a [`CoachesEndpoint`].
#[derive(Debug, Clone, Copy)]
pub struct CoachesEndpointBuilder {
    pub team_id: Option<TeamId>,
    pub season: Option<SeasonId>,
    pub date: Option<Date>,
}

impl CoachesEndpointBuilder {
    /// Sets the team.
    pub fn team_id(self, id: TeamId) -> (res: Self)
        ensures
            res == (Self { team_id: Some(id), ..self }),
    {
        Self { team_id: Some(id), ..self }
    }

    /// Sets the season.
    pub fn season(self, season: SeasonId) -> (res: Self)
        ensures
            res == (Self { season: Some(season), ..self }),
    {
        Self { season: Some(season), ..self }
    }

    /// Sets the date.
    pub fn date(self, date: Date) -> (res: Self)
        ensures
            res == (Self { date: Some(date), ..self }),
    {
        Self { date: Some(date), ..self }
    }

    /// The request; the team must have been given.
    pub fn build(self) -> (res: CoachesEndpoint)
        requires
            self.team_id is Some,
        ensures
            Some(res.team_id) == self.team_id,
            res.season == self.season,
            res.date == self.date,
    {
        CoachesEndpoint { team_id: self.team_id.unwrap(), season: self.season, date: self.date }
    }
}

/// The personnel of a team.
#[derive(Debug, Clone, Copy)]
pub struct PersonnelEndpointUrl {
    pub team_id: TeamId,
    pub season: Option<u16>,
    pub date: Option<Date>,
}

/// The URL of a [`PersonnelEndpointUrl`].
pub open spec fn personnel_url(r: PersonnelEndpointUrl) -> Seq<char> {
    team_path(r.team_id, "/personnel"@) + query(
        seq![opt_num_kv("season"@, opt_small(r.season)), opt_date_kv("date"@, r.date)],
    )
}

impl PersonnelEndpointUrl {
    /// The URL of the request.
    pub fn to_string(&self) -> (res: String)
        ensures
            res@ == personnel_url(*self),
    {
        let pieces = vec![opt_num_param("season", widen(self.season)), opt_date_param("date", self.date)];
        assert(opt_views(pieces@) =~= seq![
            opt_num_kv("season"@, opt_small(self.season)),
            opt_date_kv("date"@, self.date),
        ]);
        let base = team_path_string(self.team_id, "/personnel");
        url_with_query(base.as_str(), &pieces)
    }
}


/// The URL of a teams request holds the sport and the season where they are given.
pub proof fn lemma_teams_url_holds_filters(r: TeamsEndpoint)
    ensures
        r.sport_id matches Some(v) ==> crate::text::holds_entry(teams_url(r), crate::text::kv("sportId"@, crate::text::dec(v.0 as nat))),
        r.season matches Some(v) ==> crate::text::holds_entry(teams_url(r), crate::text::kv("season"@, crate::text::dec(v.0 as nat))),
{
    let base = "http://statsapi.mlb.com/api/v1/teams"@;
    let pieces = seq![opt_num_kv("sportId"@, opt_id(r.sport_id)), opt_num_kv("season"@, opt_id(r.season))];
    assert(teams_url(r) == base + query(pieces));
    crate::text::lemma_query_holds_entries(base, pieces);
}

/// The URL of a team history request names the team, and holds the first and last seasons
/// where they are given.
pub proof fn lemma_team_history_url_holds_filters(r: TeamHistoryEndpoint)
    ensures
        ("http://statsapi.mlb.com/api/v1/teams/"@ + crate::text::dec(r.team_id.0 as nat) + "/history"@).is_prefix_of(team_history_url(r)),
        r.start_season matches Some(v) ==> crate::text::holds_entry(team_history_url(r), crate::text::kv("startSeason"@, crate::text::dec(v.0 as nat))),
        r.end_season matches Some(v) ==> crate::text::holds_entry(team_history_url(r), crate::text::kv("endSeason"@, crate::text::dec(v.0 as nat))),
{
    let base = team_path(r.team_id, "/history"@);
    let pieces = seq![opt_num_kv("startSeason"@, opt_id(r.start_season)), opt_num_kv("endSeason"@, opt_id(r.end_season))];
    assert(team_history_url(r) == base + query(pieces));
    crate::text::lemma_query_holds_entries(base, pieces);
    assert(team_history_url(r).subrange(0, ("http://statsapi.mlb.com/api/v1/teams/"@ + crate::text::dec(r.team_id.0 as nat) + "/history"@).len() as int) =~= ("http://statsapi.mlb.com/api/v1/teams/"@ + crate::text::dec(r.team_id.0 as nat) + "/history"@));
}

/// The URL of a team affiliates request names the team, and holds the season where it is given.
pub proof fn lemma_affiliates_url_holds_filters(r: TeamAffiliatesEndpointUrl)
    ensures
        ("http://statsapi.mlb.com/api/v1/teams/"@ + crate::text::dec(r.id.0 as nat) + "/affiliates"@).is_prefix_of(affiliates_url(r)),
        r.season matches Some(v) ==> crate::text::holds_entry(affiliates_url(r), crate::text::kv("season"@, crate::text::dec(v as nat))),
{
    let base = team_path(r.id, "/affiliates"@);
    let pieces = seq![opt_num_kv("season"@, opt_small(r.season))];
    assert(affiliates_url(r) == base + query(pieces));
    crate::text::lemma_query_holds_entries(base, pieces);
    assert(affiliates_url(r).subrange(0, ("http://statsapi.mlb.com/api/v1/teams/"@ + crate::text::dec(r.id.0 as nat) + "/affiliates"@).len() as int) =~= ("http://statsapi.mlb.com/api/v1/teams/"@ + crate::text::dec(r.id.0 as nat) + "/affiliates"@));
}

/// The URL of a team alumni request names the team, and holds the season where it is given.
pub proof fn lemma_alumni_url_holds_filters(r: AlumniEndpoint)
    ensures
        ("http://statsapi.mlb.com/api/v1/teams/"@ + crate::text::dec(r.team_id.0 as nat) + "/alumni"@).is_prefix_of(alumni_url(r)),
        r.season matches Some(v) ==> crate::text::holds_entry(alumni_url(r), crate::text::kv("season"@, crate::text::dec(v.0 as nat))),
{
    let base = team_path(r.team_id, "/alumni"@);
    let pieces = seq![opt_num_kv("season"@, opt_id(r.season))];
    assert(alumni_url(r) == base + query(pieces));
    crate::text::lemma_query_holds_entries(base, pieces);
    assert(alumni_url(r).subrange(0, ("http://statsapi.mlb.com/api/v1/teams/"@ + crate::text::dec(r.team_id.0 as nat) + "/alumni"@).len() as int) =~= ("http://statsapi.mlb.com/api/v1/teams/"@ + crate::text::dec(r.team_id.0 as nat) + "/alumni"@));
}

/// The URL of a team coaches request names the team, and holds the season and the date where
/// they are given.
pub proof fn lemma_coaches_url_holds_filters(r: CoachesEndpoint)
    ensures
        ("http://statsapi.mlb.com/api/v1/teams/"@ + crate::text::dec(r.team_id.0 as nat) + "/coaches"@).is_prefix_of(coaches_url(r)),
        r.season matches Some(v) ==> crate::text::holds_entry(coaches_url(r), crate::text::kv("season"@, crate::text::dec(v.0 as nat))),
        r.date matches Some(d) ==> crate::text::holds_entry(coaches_url(r), crate::text::kv("date"@, crate::date::date_text(d@.0, d@.1, d@.2))),
{
    let base = team_path(r.team_id, "/coaches"@);
    let pieces = seq![opt_num_kv("season"@, opt_id(r.season)), opt_date_kv("date"@, r.date)];
    assert(coaches_url(r) == base + query(pieces));
    crate::text::lemma_query_holds_entries(base, pieces);
    assert(coaches_url(r).subrange(0, ("http://statsapi.mlb.com/api/v1/teams/"@ + crate::text::dec(r.team_id.0 as nat) + "/coaches"@).len() as int) =~= ("http://statsapi.mlb.com/api/v1/teams/"@ + crate::text::dec(r.team_id.0 as nat) + "/coaches"@));
}

/// The URL of a team personnel request names the team, and holds the season and the date where
/// they are given.
pub proof fn lemma_personnel_url_holds_filters(r: PersonnelEndpointUrl)
    ensures
        ("http://statsapi.mlb.com/api/v1/teams/"@ + crate::text::dec(r.team_id.0 as nat) + "/personnel"@).is_prefix_of(personnel_url(r)),
        r.season matches Some(v) ==> crate::text::holds_entry(personnel_url(r), crate::text::kv("season"@, crate::text::dec(v as nat))),
        r.date matches Some(d) ==> crate::text::holds_entry(personnel_url(r), crate::text::kv("date"@, crate::date::date_text(d@.0, d@.1, d@.2))),
{
    let base = team_path(r.team_id, "/personnel"@);
    let pieces = seq![opt_num_kv("season"@, opt_small(r.season)), opt_date_kv("date"@, r.date)];
    assert(personnel_url(r) == base + query(pieces));
    crate::text::lemma_query_holds_entries(base, pieces);
    assert(personnel_url(r).subrange(0, ("http://statsapi.mlb.com/api/v1/teams/"@ + crate::text::dec(r.team_id.0 as nat) + "/personnel"@).len() as int) =~= ("http://statsapi.mlb.com/api/v1/teams/"@ + crate::text::dec(r.team_id.0 as nat) + "/personnel"@));
}

} // verus!
