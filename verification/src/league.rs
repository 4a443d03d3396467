//! Leagues, conferences, divisions and awards, and the requests that list them.

use vstd::prelude::*;
use crate::ids::{AwardId, ConferenceId, DivisionId, LeagueId, SeasonId, SportId};
use crate::types::Copyright;
use crate::text::{query, opt_views, opt_param};
use crate::request::{
    opt_num_kv, opt_text_kv, opt_id_param, opt_text_id_param, url_with_query, join_ids, ids_text,
};

verus! {

/// An optional numeric identifier as a natural number.
pub open spec fn opt_id<T: crate::request::NumericId>(o: Option<T>) -> Option<nat> {
    match o {
        Some(v) => Some(v.num()),
        None => None,
    }
}

/// The response of the `leagues` endpoint.
#[derive(Debug, Clone)]
pub struct LeagueResponse {
    pub copyright: String,
    pub leagues: Vec<League>,
}

/// A league with its name.
#[derive(Debug, Clone)]
pub struct NamedLeague {
    pub name: String,
    pub id: LeagueId,
}

impl NamedLeague {
    /// The league that stands for an unknown one: named `null`, of identifier 0.
    pub fn unknown_league() -> (res: Self)
        ensures
            res.name@ == "null"@,
            res.id.0 == 0,
    {
        NamedLeague { name: String::from_str("null"), id: LeagueId(0) }
    }

    /// Whether this is the league that stands for an unknown one, of identifier 0.
    pub fn is_unknown(&self) -> (res: bool)
        ensures
            res == (self.id.0 == 0),
    {
        self.id.0 == 0
    }
}

impl PartialEq for NamedLeague {
    /// Two leagues are the same where their identifiers are.
    fn eq(&self, other: &Self) -> (res: bool) {
        self.id.0 == other.id.0
    }
}

impl vstd::std_specs::cmp::PartialEqSpecImpl for NamedLeague {
    open spec fn obeys_eq_spec() -> bool {
        true
    }

    open spec fn eq_spec(&self, other: &Self) -> bool {
        self.id == other.id
    }
}

/// A league with everything the API tells of it.
#[derive(Debug, Clone)]
pub struct League {
    pub abbreviation: String,
    pub short_name: Option<String>,
    pub code: String,
    pub has_split_season: bool,
    pub num_games: u8,
    pub has_playoff_points: Option<bool>,
    pub num_teams: u8,
    pub num_wildcard_teams: Option<u8>,
    pub has_conferences: bool,
    pub has_divisions: bool,
    pub sport: Option<SportId>,
    pub active: bool,
    pub inner: NamedLeague,
}

impl League {
    /// The request that gives the league with the given identifier.
    pub fn url_for_id(id: LeagueId) -> (res: LeaguesRequest)
        ensures
            res.sport_id is None,
            res.league_ids matches Some(ids) && ids@ == seq![id],
    {
        LeaguesRequest { sport_id: None, league_ids: Some(vec![id]) }
    }
}

impl PartialEq for League {
    /// Two leagues are the same where their identifiers are.
    fn eq(&self, other: &Self) -> (res: bool) {
        self.inner.id.0 == other.inner.id.0
    }
}

impl vstd::std_specs::cmp::PartialEqSpecImpl for League {
    open spec fn obeys_eq_spec() -> bool {
        true
    }

    open spec fn eq_spec(&self, other: &Self) -> bool {
        self.inner.id == other.inner.id
    }
}

/// The request for leagues: of a sport, or a given list.
#[derive(Debug, Clone)]
pub struct LeaguesRequest {
    pub sport_id: Option<SportId>,
    pub league_ids: Option<Vec<LeagueId>>,
}

/// The URL of a [`LeaguesRequest`].
pub open spec fn leagues_url(r: LeaguesRequest) -> Seq<char> {
    "http://statsapi.mlb.com/api/v1/leagues"@ + query(
        seq![
            opt_num_kv("sportId"@, opt_id(r.sport_id)),
            opt_text_kv("leagueIds"@, match r.league_ids { Some(ids) => Some(ids_text(ids@)), None => None }),
        ],
    )
}

impl LeaguesRequest {
    /// Starts a request with nothing given.
    pub fn builder() -> (res: LeaguesRequestBuilder)
        ensures
            res.sport_id is None,
            res.league_ids is None,
    {
        LeaguesRequestBuilder { sport_id: None, league_ids: None }
    }

    /// The URL of the request.
    pub fn to_string(&self) -> (res: String)
        ensures
            res@ == leagues_url(*self),
    {
        let ids = match &self.league_ids {
            Some(ids) => Some(join_ids(ids)),
            None => None,
        };
        let pieces = vec![opt_id_param("sportId", &self.sport_id), opt_param("leagueIds", ids)];
        assert(opt_views(pieces@) =~= seq![
            opt_num_kv("sportId"@, opt_id(self.sport_id)),
            opt_text_kv("leagueIds"@, match self.league_ids { Some(ids) => Some(ids_text(ids@)), None => None }),
        ]);
        url_with_query("http://statsapi.mlb.com/api/v1/leagues", &pieces)
    }
}

/// Builder of a [`LeaguesRequest`].
#[derive(Debug, Clone)]
pub struct LeaguesRequestBuilder {
    pub sport_id: Option<SportId>,
    pub league_ids: Option<Vec<LeagueId>>,
}

impl LeaguesRequestBuilder {
    /// Sets the sport.
    pub fn sport_id(self, sport_id: SportId) -> (res: Self)
        ensures
            res.sport_id == Some(sport_id),
            res.league_ids == self.league_ids,
    {
        LeaguesRequestBuilder { sport_id: Some(sport_id), league_ids: self.league_ids }
    }

    /// Sets the leagues.
    pub fn league_ids(self, league_ids: Vec<LeagueId>) -> (res: Self)
        ensures
            res.sport_id == self.sport_id,
            res.league_ids == Some(league_ids),
    {
        LeaguesRequestBuilder { sport_id: self.sport_id, league_ids: Some(league_ids) }
    }

    /// The request.
    pub fn build(self) -> (res: LeaguesRequest)
        ensures
            res.sport_id == self.sport_id,
            res.league_ids == self.league_ids,
    {
        LeaguesRequest { sport_id: self.sport_id, league_ids: self.league_ids }
    }
}

/// The response of the `conferences` endpoint.
#[derive(Debug, Clone)]
pub struct ConferencesResponse {
    pub copyright: Copyright,
    pub conferences: Vec<Conference>,
}

/// A conference with its name.
#[derive(Debug, Clone)]
pub struct NamedConference {
    pub name: String,
    pub id: ConferenceId,
}

impl PartialEq for NamedConference {
    /// Two conferences are the same where their identifiers are.
    fn eq(&self, other: &Self) -> (res: bool) {
        self.id.0 == other.id.0
    }
}

impl vstd::std_specs::cmp::PartialEqSpecImpl for NamedConference {
    open spec fn obeys_eq_spec() -> bool {
        true
    }

    open spec fn eq_spec(&self, other: &Self) -> bool {
        self.id == other.id
    }
}

/// A conference with everything the API tells of it.
#[derive(Debug, Clone)]
pub struct Conference {
    pub abbreviation: String,
    pub short_name: String,
    pub has_wildcard: bool,
    pub league: LeagueId,
    pub sport: SportId,
    pub inner: NamedConference,
}

impl Conference {
    /// The request that gives the conference with the given identifier.
    pub fn url_for_id(id: ConferenceId) -> (res: ConferencesRequest)
        ensures
            res.conference_id == Some(id),
            res.season is None,
    {
        ConferencesRequest { conference_id: Some(id), season: None }
    }
}

impl PartialEq for Conference {
    /// Two conferences are the same where their identifiers are.
    fn eq(&self, other: &Self) -> (res: bool) {
        self.inner.id.0 == other.inner.id.0
    }
}

impl vstd::std_specs::cmp::PartialEqSpecImpl for Conference {
    open spec fn obeys_eq_spec() -> bool {
        true
    }

    open spec fn eq_spec(&self, other: &Self) -> bool {
        self.inner.id == other.inner.id
    }
}

/// The request for conferences.
#[derive(Debug, Clone, Copy)]
pub struct ConferencesRequest {
    pub conference_id: Option<ConferenceId>,
    pub season: Option<SeasonId>,
}

/// The URL of a [`ConferencesRequest`].
pub open spec fn conferences_url(r: ConferencesRequest) -> Seq<char> {
    "http://statsapi.mlb.com/api/v1/conferences"@ + query(
        seq![opt_num_kv("conferenceId"@, opt_id(r.conference_id)), opt_num_kv("season"@, opt_id(r.season))],
    )
}

impl ConferencesRequest {
    /// Starts a request with nothing given.
    pub fn builder() -> (res: ConferencesRequestBuilder)
        ensures
            res.conference_id is None,
            res.season is None,
    {
        ConferencesRequestBuilder { conference_id: None, season: None }
    }

    /// The URL of the request.
    pub fn to_string(&self) -> (res: String)
        ensures
            res@ == conferences_url(*self),
    {
        let pieces = vec![opt_id_param("conferenceId", &self.conference_id), opt_id_param("season", &self.season)];
        assert(opt_views(pieces@) =~= seq![
            opt_num_kv("conferenceId"@, opt_id(self.conference_id)),
            opt_num_kv("season"@, opt_id(self.season)),
        ]);
        url_with_query("http://statsapi.mlb.com/api/v1/conferences", &pieces)
    }
}

/// Builder of a [`ConferencesRequest`].
#[derive(Debug, Clone, Copy)]
pub struct ConferencesRequestBuilder {
    pub conference_id: Option<ConferenceId>,
    pub season: Option<SeasonId>,
}

impl ConferencesRequestBuilder {
    /// Sets the conference.
    pub fn conference_id(self, id: ConferenceId) -> (res: Self)
        ensures
            res == (Self { conference_id: Some(id), ..self }),
    {
        Self { conference_id: Some(id), ..self }
    }

    /// Sets the season.
    pub fn season(self, season: SeasonId) -> (res: Self)
        ensures
            res == (Self { season: Some(season), ..self }),
    {
        Self { season: Some(season), ..self }
    }

    /// The request.
    pub fn build(self) -> (res: ConferencesRequest)
        ensures
            res.conference_id == self.conference_id,
            res.season == self.season,
    {
        ConferencesRequest { conference_id: self.conference_id, season: self.season }
    }
}

/// The response of the `divisions` endpoint.
#[derive(Debug, Clone)]
pub struct DivisionsResponse {
    pub copyright: Copyright,
    pub divisions: Vec<Division>,
}

/// A division with its name.
#[derive(Debug, Clone)]
pub struct NamedDivision {
    pub name: String,
    pub id: DivisionId,
}

impl PartialEq for NamedDivision {
    /// Two divisions are the same where their identifiers are.
    fn eq(&self, other: &Self) -> (res: bool) {
        self.id.0 == other.id.0
    }
}

impl vstd::std_specs::cmp::PartialEqSpecImpl for NamedDivision {
    open spec fn obeys_eq_spec() -> bool {
        true
    }

    open spec fn eq_spec(&self, other: &Self) -> bool {
        self.id == other.id
    }
}

/// A division with everything the API tells of it.
#[derive(Debug, Clone)]
pub struct Division {
    pub short_name: String,
    pub season: SeasonId,
    pub abbreviation: String,
    pub league: LeagueId,
    pub sport: SportId,
    pub has_wildcard: bool,
    pub num_playoff_teams: Option<u8>,
    pub active: bool,
    pub inner: NamedDivision,
}

impl Division {
    /// The request that gives the division with the given identifier.
    pub fn url_for_id(id: DivisionId) -> (res: DivisionsRequest)
        ensures
            res.division_id == Some(id),
            res.league_id is None,
            res.sport_id is None,
            res.season is None,
    {
        DivisionsRequest { division_id: Some(id), league_id: None, sport_id: None, season: None }
    }
}

impl PartialEq for Division {
    /// Two divisions are the same where their identifiers are.
    fn eq(&self, other: &Self) -> (res: bool) {
        self.inner.id.0 == other.inner.id.0
    }
}

impl vstd::std_specs::cmp::PartialEqSpecImpl for Division {
    open spec fn obeys_eq_spec() -> bool {
        true
    }

    open spec fn eq_spec(&self, other: &Self) -> bool {
        self.inner.id == other.inner.id
    }
}

/// The request for divisions.
#[derive(Debug, Clone, Copy)]
pub struct DivisionsRequest {
    pub division_id: Option<DivisionId>,
    pub league_id: Option<LeagueId>,
    pub sport_id: Option<SportId>,
    pub season: Option<SeasonId>,
}

/// The URL of a [`DivisionsRequest`].
pub open spec fn divisions_url(r: DivisionsRequest) -> Seq<char> {
    "http://statsapi.mlb.com/api/v1/divisions"@ + query(
        seq![
            opt_num_kv("divisionId"@, opt_id(r.division_id)),
            opt_num_kv("leagueId"@, opt_id(r.league_id)),
            opt_num_kv("sportId"@, opt_id(r.sport_id)),
            opt_num_kv("season"@, opt_id(r.season)),
        ],
    )
}

impl DivisionsRequest {
    /// Starts a request with nothing given.
    pub fn builder() -> (res: DivisionsRequestBuilder)
        ensures
            res.division_id is None,
            res.league_id is None,
            res.sport_id is None,
            res.season is None,
    {
        DivisionsRequestBuilder { division_id: None, league_id: None, sport_id: None, season: None }
    }

    /// The URL of the request.
    pub fn to_string(&self) -> (res: String)
        ensures
            res@ == divisions_url(*self),
    {
        let pieces = vec![
            opt_id_param("divisionId", &self.division_id),
            opt_id_param("leagueId", &self.league_id),
            opt_id_param("sportId", &self.sport_id),
            opt_id_param("season", &self.season),
        ];
        assert(opt_views(pieces@) =~= seq![
            opt_num_kv("divisionId"@, opt_id(self.division_id)),
            opt_num_kv("leagueId"@, opt_id(self.league_id)),
            opt_num_kv("sportId"@, opt_id(self.sport_id)),
            opt_num_kv("season"@, opt_id(self.season)),
        ]);
        url_with_query("http://statsapi.mlb.com/api/v1/divisions", &pieces)
    }
}

/// Builder of a [`DivisionsRequest`].
#[derive(Debug, Clone, Copy)]
pub struct DivisionsRequestBuilder {
    pub division_id: Option<DivisionId>,
    pub league_id: Option<LeagueId>,
    pub sport_id: Option<SportId>,
    pub season: Option<SeasonId>,
}

impl DivisionsRequestBuilder {
    /// Sets the division.
    pub fn division_id(self, id: DivisionId) -> (res: Self)
        ensures
            res == (Self { division_id: Some(id), ..self }),
    {
        Self { division_id: Some(id), ..self }
    }

    /// Sets the league.
    pub fn league_id(self, id: LeagueId) -> (res: Self)
        ensures
            res == (Self { league_id: Some(id), ..self }),
    {
        Self { league_id: Some(id), ..self }
    }

    /// Sets the sport.
    pub fn sport_id(self, id: SportId) -> (res: Self)
        ensures
            res == (Self { sport_id: Some(id), ..self }),
    {
        Self { sport_id: Some(id), ..self }
    }

    /// Sets the season.
    pub fn season(self, season: SeasonId) -> (res: Self)
        ensures
            res == (Self { season: Some(season), ..self }),
    {
        Self { season: Some(season), ..self }
    }

    /// The request.
    pub fn build(self) -> (res: DivisionsRequest)
        ensures
            res.division_id == self.division_id,
            res.league_id == self.league_id,
            res.sport_id == self.sport_id,
            res.season == self.season,
    {
        DivisionsRequest {
            division_id: self.division_id,
            league_id: self.league_id,
            sport_id: self.sport_id,
            season: self.season,
        }
    }
}

/// The response of the `awards` endpoint.
#[derive(Debug, Clone)]
pub struct AwardsResponse {
    pub copyright: Copyright,
    pub awards: Vec<Award>,
}

/// An award, such as the Cy Young or the MVP.
#[derive(Debug, Clone)]
pub struct Award {
    pub name: String,
    pub description: Option<String>,
    pub sport: Option<SportId>,
    pub league: Option<LeagueId>,
    pub notes: Option<String>,
    pub id: AwardId,
}

impl Award {
    /// The request that gives the award with the given identifier.
    pub fn url_for_id(id: AwardId) -> (res: AwardRequest)
        ensures
            res.award_id matches Some(a) && a.0@ == id.0@,
            res.sport_id is None,
            res.league_id is None,
            res.season is None,
    {
        AwardRequest { award_id: Some(id), sport_id: None, league_id: None, season: None }
    }
}

/// The request for awards.
#[derive(Debug, Clone)]
pub struct AwardRequest {
    pub award_id: Option<AwardId>,
    pub sport_id: Option<SportId>,
    pub league_id: Option<LeagueId>,
    pub season: Option<SeasonId>,
}

/// The URL of an [`AwardRequest`].
pub open spec fn awards_url(r: AwardRequest) -> Seq<char> {
    "http://statsapi.mlb.com/api/v1/awards"@ + query(
        seq![
            opt_text_kv("awardId"@, match r.award_id { Some(a) => Some(a.0@), None => None }),
            opt_num_kv("sportId"@, opt_id(r.sport_id)),
            opt_num_kv("leagueId"@, opt_id(r.league_id)),
            opt_num_kv("season"@, opt_id(r.season)),
        ],
    )
}

impl AwardRequest {
    /// Starts a request with nothing given.
    pub fn builder() -> (res: AwardRequestBuilder)
        ensures
            res.award_id is None,
            res.sport_id is None,
            res.league_id is None,
            res.season is None,
    {
        AwardRequestBuilder { award_id: None, sport_id: None, league_id: None, season: None }
    }

    /// The URL of the request.
    pub fn to_string(&self) -> (res: String)
        ensures
            res@ == awards_url(*self),
    {
        let pieces = vec![
            opt_text_id_param("awardId", &self.award_id),
            opt_id_param("sportId", &self.sport_id),
            opt_id_param("leagueId", &self.league_id),
            opt_id_param("season", &self.season),
        ];
        assert(opt_views(pieces@) =~= seq![
            opt_text_kv("awardId"@, match self.award_id { Some(a) => Some(a.0@), None => None }),
            opt_num_kv("sportId"@, opt_id(self.sport_id)),
            opt_num_kv("leagueId"@, opt_id(self.league_id)),
            opt_num_kv("season"@, opt_id(self.season)),
        ]);
        url_with_query("http://statsapi.mlb.com/api/v1/awards", &pieces)
    }
}

/// Builder of an [`AwardRequest`].
#[derive(Debug, Clone)]
pub struct AwardRequestBuilder {
    pub award_id: Option<AwardId>,
    pub sport_id: Option<SportId>,
    pub league_id: Option<LeagueId>,
    pub season: Option<SeasonId>,
}

impl AwardRequestBuilder {
    /// Sets the award.
    pub fn award_id(self, id: AwardId) -> (res: Self)
        ensures
            res == (Self { award_id: Some(id), ..self }),
    {
        Self { award_id: Some(id), ..self }
    }

    /// Sets the sport.
    pub fn sport_id(self, id: SportId) -> (res: Self)
        ensures
            res == (Self { sport_id: Some(id), ..self }),
    {
        Self { sport_id: Some(id), ..self }
    }

    /// Sets the league.
    pub fn league_id(self, id: LeagueId) -> (res: Self)
        ensures
            res == (Self { league_id: Some(id), ..self }),
    {
        Self { league_id: Some(id), ..self }
    }

    /// Sets the season.
    pub fn season(self, season: SeasonId) -> (res: Self)
        ensures
            res == (Self { season: Some(season), ..self }),
    {
        Self { season: Some(season), ..self }
    }

    /// The request.
    pub fn build(self) -> (res: AwardRequest)
        ensures
            res == (AwardRequest {
                award_id: self.award_id,
                sport_id: self.sport_id,
                league_id: self.league_id,
                season: self.season,
            }),
    {
        AwardRequest {
            award_id: self.award_id,
            sport_id: self.sport_id,
            league_id: self.league_id,
            season: self.season,
        }
    }
}


/// The URL of a leagues request holds the sport and the leagues where they are given.
pub proof fn lemma_leagues_url_holds_filters(r: LeaguesRequest)
    ensures
        r.sport_id matches Some(v) ==> crate::text::holds_entry(leagues_url(r), crate::text::kv("sportId"@, crate::text::dec(v.0 as nat))),
        r.league_ids matches Some(ids) ==> crate::text::holds_entry(leagues_url(r), crate::text::kv("leagueIds"@, ids_text(ids@))),
{
    let base = "http://statsapi.mlb.com/api/v1/leagues"@;
    let pieces = seq![
            opt_num_kv("sportId"@, opt_id(r.sport_id)),
            opt_text_kv("leagueIds"@, match r.league_ids { Some(ids) => Some(ids_text(ids@)), None => None }),
        ];
    assert(leagues_url(r) == base + query(pieces));
    crate::text::lemma_query_holds_entries(base, pieces);
}

/// The URL of a conferences request holds the conference and the season where they are given.
pub proof fn lemma_conferences_url_holds_filters(r: ConferencesRequest)
    ensures
        r.conference_id matches Some(v) ==> crate::text::holds_entry(conferences_url(r), crate::text::kv("conferenceId"@, crate::text::dec(v.0 as nat))),
        r.season matches Some(v) ==> crate::text::holds_entry(conferences_url(r), crate::text::kv("season"@, crate::text::dec(v.0 as nat))),
{
    let base = "http://statsapi.mlb.com/api/v1/conferences"@;
    let pieces = seq![opt_num_kv("conferenceId"@, opt_id(r.conference_id)), opt_num_kv("season"@, opt_id(r.season))];
    assert(conferences_url(r) == base + query(pieces));
    crate::text::lemma_query_holds_entries(base, pieces);
}

/// The URL of a divisions request holds the division, league, sport and season where they are
/// given.
pub proof fn lemma_divisions_url_holds_filters(r: DivisionsRequest)
    ensures
        r.division_id matches Some(v) ==> crate::text::holds_entry(divisions_url(r), crate::text::kv("divisionId"@, crate::text::dec(v.0 as nat))),
        r.league_id matches Some(v) ==> crate::text::holds_entry(divisions_url(r), crate::text::kv("leagueId"@, crate::text::dec(v.0 as nat))),
        r.sport_id matches Some(v) ==> crate::text::holds_entry(divisions_url(r), crate::text::kv("sportId"@, crate::text::dec(v.0 as nat))),
        r.season matches Some(v) ==> crate::text::holds_entry(divisions_url(r), crate::text::kv("season"@, crate::text::dec(v.0 as nat))),
{
    let base = "http://statsapi.mlb.com/api/v1/divisions"@;
    let pieces = seq![
            opt_num_kv("divisionId"@, opt_id(r.division_id)),
            opt_num_kv("leagueId"@, opt_id(r.league_id)),
            opt_num_kv("sportId"@, opt_id(r.sport_id)),
            opt_num_kv("season"@, opt_id(r.season)),
        ];
    assert(divisions_url(r) == base + query(pieces));
    crate::text::lemma_query_holds_entries(base, pieces);
}

/// The URL of an awards request holds the award, sport, league and season where they are given.
pub proof fn lemma_awards_url_holds_filters(r: AwardRequest)
    ensures
        r.award_id matches Some(a) ==> crate::text::holds_entry(awards_url(r), crate::text::kv("awardId"@, a.0@)),
        r.sport_id matches Some(v) ==> crate::text::holds_entry(awards_url(r), crate::text::kv("sportId"@, crate::text::dec(v.0 as nat))),
        r.league_id matches Some(v) ==> crate::text::holds_entry(awards_url(r), crate::text::kv("leagueId"@, crate::text::dec(v.0 as nat))),
        r.season matches Some(v) ==> crate::text::holds_entry(awards_url(r), crate::text::kv("season"@, crate::text::dec(v.0 as nat))),
{
    let base = "http://statsapi.mlb.com/api/v1/awards"@;
    let pieces = seq![
            opt_text_kv("awardId"@, match r.award_id { Some(a) => Some(a.0@), None => None }),
            opt_num_kv("sportId"@, opt_id(r.sport_id)),
            opt_num_kv("leagueId"@, opt_id(r.league_id)),
            opt_num_kv("season"@, opt_id(r.season)),
        ];
    assert(awards_url(r) == base + query(pieces));
    crate::text::lemma_query_holds_entries(base, pieces);
}

} // verus!
