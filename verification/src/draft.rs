//! The draft: picks, prospects, and the requests for them.

use vstd::prelude::*;
use crate::ids::{EBISPersonId, PersonId, PositionCode, SeasonId, TeamId};
use crate::types::Copyright;
use crate::teams::NamedTeam;
use crate::text::{dec, query, opt_views, param, push_char, holds_entry, kv, lemma_query_holds_entries};
use crate::request::{opt_num_kv, opt_text_kv, opt_nat, opt_id_param, opt_num_param, opt_text_id_param, url_with_query};
use crate::league::opt_id;
use crate::types::str_eq;

verus! {

/// The response of the draft endpoint.
#[derive(Debug, Clone)]
pub struct DraftResponse {
    pub copyright: Copyright,
    pub drafts: DraftYear,
}

/// The draft of one year.
#[derive(Debug, Clone)]
pub struct DraftYear {
    pub year: u32,
    pub rounds: Vec<DraftRound>,
}

/// One round of a draft.
#[derive(Debug, Clone)]
pub struct DraftRound {
    pub round: String,
    pub picks: Vec<DraftPick>,
}

/// The response of the draft prospects endpoint.
#[derive(Debug, Clone)]
pub struct DraftProspectsResponse {
    pub copyright: Copyright,
    pub total_prospects: usize,
    pub returned_prospects: usize,
    pub offset: usize,
    pub prospects: Vec<DraftPick>,
}

/// A pick of a draft, or a prospect.
#[derive(Debug, Clone)]
pub struct DraftPick {
    /// The player's identifier in the EBIS system.
    pub ebis_player_id: Option<EBISPersonId>,
    pub round: String,
    pub pick_number: u32,
    pub displayed_pick_number: Option<u32>,
    pub rank: Option<u32>,
    pub signing_bonus: Option<u32>,
    pub scouting_report_url: Option<String>,
    pub school: School,
    pub blurb: Option<String>,
    pub headshot_url: String,
    pub person: Option<PersonId>,
    pub team: NamedTeam,
    pub draft_type: DraftType,
    pub is_drafted: bool,
    pub is_pass: bool,
    pub year: SeasonId,
}

/// The URL of the headshot that stands in for a pick without one.
pub open spec fn default_headshot() -> Seq<char> {
    "https://img.mlbstatic.com/mlb-photos/image/upload/d_people:generic:headshot:silo:current.png/w_120,q_auto:best/v1/people/0/headshot/draft/current"@
}

/// The URL of the headshot that stands in for a pick without one.
pub fn get_default_headshot() -> (res: String)
    ensures
        res@ == default_headshot(),
{
    String::from_str(
        "https://img.mlbstatic.com/mlb-photos/image/upload/d_people:generic:headshot:silo:current.png/w_120,q_auto:best/v1/people/0/headshot/draft/current",
    )
}

impl DraftPick {
    /// The pick number that is shown: the displayed number where the API gives one, else the
    /// pick number.
    pub fn displayed_pick_number(&self) -> (res: u32)
        ensures
            res == match self.displayed_pick_number {
                Some(n) => n,
                None => self.pick_number,
            },
    {
        match self.displayed_pick_number {
            Some(n) => n,
            None => self.pick_number,
        }
    }
}

/// The school a pick comes from.
#[derive(Debug, Clone)]
pub struct School {
    pub name: Option<String>,
    pub city: Option<String>,
    pub class: Option<String>,
    pub country: Option<String>,
    pub state: Option<String>,
}

/// The kind of a draft. Only the June amateur draft (`JR`) ever appears.
#[derive(Debug, PartialEq, Eq, Structural, Copy, Clone)]
pub enum DraftType {
    JR,
    JS,
    NS,
    NR,
    AL,
    RA,
    RT,
    JD,
    AD,
}

/// Why a draft type could not be read.
#[derive(Debug, Clone)]
pub enum DraftTypeParseError {
    /// The code is not that of a known draft type.
    InvalidCode(String),
}

/// How a draft type is displayed.
pub open spec fn draft_type_text(t: DraftType) -> Seq<char> {
    match t {
        DraftType::JR => "June Amateur Draft"@,
        DraftType::JS => "JS"@,
        DraftType::NS => "NS"@,
        DraftType::NR => "NR"@,
        DraftType::AL => "AL"@,
        DraftType::RA => "RA"@,
        DraftType::RT => "RT"@,
        DraftType::JD => "JD"@,
        DraftType::AD => "AD"@,
    }
}

impl DraftType {
    /// Reads a draft type from its code: only `JR` is known.
    pub fn from_code(code: String) -> (res: Result<DraftType, DraftTypeParseError>)
        ensures
            code@ == "JR"@ ==> res == Ok::<DraftType, DraftTypeParseError>(DraftType::JR),
            code@ != "JR"@ ==> (res matches Err(DraftTypeParseError::InvalidCode(c)) && c@ == code@),
    {
        if str_eq(code.as_str(), "JR") {
            Ok(DraftType::JR)
        } else {
            Err(DraftTypeParseError::InvalidCode(code))
        }
    }

    /// How the draft type is displayed: `June Amateur Draft` for `JR`, the code for the others.
    pub fn to_string(&self) -> (res: &'static str)
        ensures
            res@ == draft_type_text(*self),
    {
        match self {
            DraftType::JR => "June Amateur Draft",
            DraftType::JS => "JS",
            DraftType::NS => "NS",
            DraftType::NR => "NR",
            DraftType::AL => "AL",
            DraftType::RA => "RA",
            DraftType::RT => "RT",
            DraftType::JD => "JD",
            DraftType::AD => "AD",
        }
    }
}

/// The latest picks of a draft.
#[derive(Debug, Clone, Copy)]
pub struct DraftRequestLatest {
    pub year: Option<SeasonId>,
}

/// The year segment of a draft URL: the year, or nothing.
pub open spec fn year_segment(year: Option<SeasonId>) -> Seq<char> {
    match year {
        Some(y) => dec(y.0 as nat),
        None => Seq::empty(),
    }
}

/// Writes the year segment of a draft URL.
pub fn year_segment_string(year: Option<SeasonId>) -> (res: String)
    ensures
        res@ == year_segment(year),
{
    match year {
        Some(y) => y.to_string(),
        None => String::new(),
    }
}

/// The URL of a [`DraftRequestLatest`].
pub open spec fn draft_latest_url(r: DraftRequestLatest) -> Seq<char> {
    "http://statsapi.mlb.com/api/v1/draft/"@ + year_segment(r.year) + "/latest"@
}

impl DraftRequestLatest {
    /// The URL of the request.
    pub fn to_string(&self) -> (res: String)
        ensures
            res@ == draft_latest_url(*self),
    {
        let mut s = String::from_str("http://statsapi.mlb.com/api/v1/draft/");
        let y = year_segment_string(self.year);
        s.append(y.as_str());
        s.append("/latest");
        s
    }
}

/// Builder of a [`DraftRequestLatest`].
#[derive(Debug, Clone, Copy)]
pub struct DraftRequestLatestBuilder {
    pub year: Option<SeasonId>,
}

impl DraftRequestLatestBuilder {
    /// Sets the year.
    pub fn year(self, year: SeasonId) -> (res: Self)
        ensures
            res.year == Some(year),
    {
        DraftRequestLatestBuilder { year: Some(year) }
    }

    /// The request.
    pub fn build(self) -> (res: DraftRequestLatest)
        ensures
            res.year == self.year,
    {
        DraftRequestLatest { year: self.year }
    }
}

/// The text of a flag, as `Display` writes it.
pub open spec fn bool_text(b: bool) -> Seq<char> {
    if b {
        "true"@
    } else {
        "false"@
    }
}

/// The entry `key=true` or `key=false` where a flag is present.
pub fn opt_bool_param(key: &str, b: Option<bool>) -> (res: Option<String>)
    ensures
        crate::text::opt_view(res) == opt_text_kv(key@, match b { Some(v) => Some(bool_text(v)), None => None }),
{
    match b {
        Some(true) => Some(param(key, "true")),
        Some(false) => Some(param(key, "false")),
        None => None,
    }
}

/// The entry `key=c` where a character is present.
pub fn opt_char_param(key: &str, c: Option<char>) -> (res: Option<String>)
    ensures
        crate::text::opt_view(res) == opt_text_kv(key@, match c { Some(v) => Some(seq![v]), None => None }),
{
    match c {
        Some(v) => {
            let mut s = String::from_str(key);
            push_char(&mut s, '=');
            push_char(&mut s, v);
            Some(s)
        },
        None => None,
    }
}

/// The entry `key=text` where a text is present.
pub fn opt_string_param(key: &str, t: &Option<String>) -> (res: Option<String>)
    ensures
        crate::text::opt_view(res) == opt_text_kv(key@, crate::text::opt_view(*t)),
{
    match t {
        Some(v) => Some(param(key, v.as_str())),
        None => None,
    }
}

/// The query entries of the filters of a draft request.
pub open spec fn draft_filter_entries(
    limit: Option<u32>,
    offset: Option<u32>,
    round: Option<u32>,
    drafted_only: Option<bool>,
    last_name: Option<char>,
    school: Option<char>,
    position: Option<PositionCode>,
    team_id: Option<TeamId>,
    home_country: Option<String>,
    player_id: Option<PersonId>,
) -> Seq<Option<Seq<char>>> {
    seq![
        opt_num_kv("limit"@, opt_nat(limit)),
        opt_num_kv("offset"@, opt_nat(offset)),
        opt_num_kv("round"@, opt_nat(round)),
        opt_text_kv("drafted"@, match drafted_only { Some(v) => Some(bool_text(v)), None => None }),
        opt_text_kv("name"@, match last_name { Some(v) => Some(seq![v]), None => None }),
        opt_text_kv("school"@, match school { Some(v) => Some(seq![v]), None => None }),
        opt_text_kv("position"@, match position { Some(p) => Some(p.0@), None => None }),
        opt_num_kv("teamId"@, opt_id(team_id)),
        opt_text_kv("homeCountry"@, crate::text::opt_view(home_country)),
        opt_num_kv("playerId"@, opt_id(player_id)),
    ]
}

/// The picks of a draft, sorted into rounds.
#[derive(Debug, Clone)]
pub struct DraftRequest {
    pub year: Option<SeasonId>,
    pub limit: Option<u32>,
    pub offset: Option<u32>,
    pub round: Option<u32>,
    pub drafted_only: Option<bool>,
    pub last_name: Option<char>,
    pub school: Option<char>,
    pub position: Option<PositionCode>,
    pub team_id: Option<TeamId>,
    pub home_country: Option<String>,
    pub player_id: Option<PersonId>,
}

/// The URL of a [`DraftRequest`].
pub open spec fn draft_url(r: DraftRequest) -> Seq<char> {
    "http://statsapi.mlb.com/api/v1/draft/"@ + year_segment(r.year) + query(draft_filter_entries(r.limit, r.offset, r.round, r.drafted_only, r.last_name, r.school, r.position, r.team_id, r.home_country, r.player_id))
}

/// The URL of a draft request names the year that is given, and its query holds an entry
/// `key=value` for each filter that is given.
pub proof fn lemma_draft_url_holds_filters(r: DraftRequest)
    ensures
        r.year matches Some(y) ==> ("http://statsapi.mlb.com/api/v1/draft/"@ + dec(y.0 as nat)).is_prefix_of(draft_url(r)),
        r.limit matches Some(n) ==> holds_entry(draft_url(r), kv("limit"@, dec(n as nat))),
        r.offset matches Some(n) ==> holds_entry(draft_url(r), kv("offset"@, dec(n as nat))),
        r.round matches Some(n) ==> holds_entry(draft_url(r), kv("round"@, dec(n as nat))),
        r.drafted_only matches Some(b) ==> holds_entry(draft_url(r), kv("drafted"@, if b { "true"@ } else { "false"@ })),
        r.last_name matches Some(c) ==> holds_entry(draft_url(r), kv("name"@, seq![c])),
        r.school matches Some(c) ==> holds_entry(draft_url(r), kv("school"@, seq![c])),
        r.position matches Some(p) ==> holds_entry(draft_url(r), kv("position"@, p.0@)),
        r.team_id matches Some(t) ==> holds_entry(draft_url(r), kv("teamId"@, dec(t.0 as nat))),
        r.home_country matches Some(c) ==> holds_entry(draft_url(r), kv("homeCountry"@, c@)),
        r.player_id matches Some(p) ==> holds_entry(draft_url(r), kv("playerId"@, dec(p.0 as nat))),
{
    let base = "http://statsapi.mlb.com/api/v1/draft/"@ + year_segment(r.year);
    let pieces = draft_filter_entries(
        r.limit,
        r.offset,
        r.round,
        r.drafted_only,
        r.last_name,
        r.school,
        r.position,
        r.team_id,
        r.home_country,
        r.player_id,
    );
    assert(draft_url(r) == base + query(pieces));
    lemma_query_holds_entries(base, pieces);
    assert(pieces[0] == opt_num_kv("limit"@, opt_nat(r.limit)));
    assert(pieces[1] == opt_num_kv("offset"@, opt_nat(r.offset)));
    assert(pieces[2] == opt_num_kv("round"@, opt_nat(r.round)));
    assert(pieces[4] == opt_text_kv("name"@, match r.last_name { Some(v) => Some(seq![v]), None => None }));
    assert(pieces[9] == opt_num_kv("playerId"@, opt_id(r.player_id)));
    if let Some(y) = r.year {
        assert(("http://statsapi.mlb.com/api/v1/draft/"@ + dec(y.0 as nat)).is_prefix_of(draft_url(r))) by {
            assert(draft_url(r).subrange(0, ("http://statsapi.mlb.com/api/v1/draft/"@ + dec(y.0 as nat)).len() as int) =~= "http://statsapi.mlb.com/api/v1/draft/"@ + dec(y.0 as nat));
        }
    }
}

impl DraftRequest {
    /// Starts a request with nothing given.
    pub fn regular() -> (res: DraftRequestBuilder)
        ensures
            res.year is None,
            res.limit is None,
            res.offset is None,
            res.round is None,
            res.drafted_only is None,
            res.last_name is None,
            res.school is None,
            res.position is None,
            res.team_id is None,
            res.home_country is None,
            res.player_id is None,
    {
        DraftRequestBuilder { year: None, limit: None, offset: None, round: None, drafted_only: None, last_name: None, school: None, position: None, team_id: None, home_country: None, player_id: None }
    }

    /// The URL of the request.
    pub fn to_string(&self) -> (res: String)
        ensures
            res@ == draft_url(*self),
    {
        let pieces = vec![
            opt_num_param("limit", self.limit),
            opt_num_param("offset", self.offset),
            opt_num_param("round", self.round),
            opt_bool_param("drafted", self.drafted_only),
            opt_char_param("name", self.last_name),
            opt_char_param("school", self.school),
            opt_text_id_param("position", &self.position),
            opt_id_param("teamId", &self.team_id),
            opt_string_param("homeCountry", &self.home_country),
            opt_id_param("playerId", &self.player_id),
        ];
        assert(opt_views(pieces@) =~= draft_filter_entries(self.limit, self.offset, self.round, self.drafted_only, self.last_name, self.school, self.position, self.team_id, self.home_country, self.player_id));
        let mut base = String::from_str("http://statsapi.mlb.com/api/v1/draft/");
        let y = year_segment_string(self.year);
        base.append(y.as_str());
        url_with_query(base.as_str(), &pieces)
    }
}

/// Builder of a [`DraftRequest`].
#[derive(Debug, Clone)]
pub struct DraftRequestBuilder {
    pub year: Option<SeasonId>,
    pub limit: Option<u32>,
    pub offset: Option<u32>,
    pub round: Option<u32>,
    pub drafted_only: Option<bool>,
    pub last_name: Option<char>,
    pub school: Option<char>,
    pub position: Option<PositionCode>,
    pub team_id: Option<TeamId>,
    pub home_country: Option<String>,
    pub player_id: Option<PersonId>,
}

impl DraftRequestBuilder {
    /// Sets `year`.
    pub fn year(self, v: SeasonId) -> (res: Self)
        ensures
            res == (Self { year: Some(v), ..self }),
    {
        Self { year: Some(v), ..self }
    }

    /// Sets `limit`.
    pub fn limit(self, v: u32) -> (res: Self)
        ensures
            res == (Self { limit: Some(v), ..self }),
    {
        Self { limit: Some(v), ..self }
    }

    /// Sets `offset`.
    pub fn offset(self, v: u32) -> (res: Self)
        ensures
            res == (Self { offset: Some(v), ..self }),
    {
        Self { offset: Some(v), ..self }
    }

    /// Sets `round`.
    pub fn round(self, v: u32) -> (res: Self)
        ensures
            res == (Self { round: Some(v), ..self }),
    {
        Self { round: Some(v), ..self }
    }

    /// Sets `drafted_only`.
    pub fn drafted_only(self, v: bool) -> (res: Self)
        ensures
            res == (Self { drafted_only: Some(v), ..self }),
    {
        Self { drafted_only: Some(v), ..self }
    }

    /// Sets `last_name`.
    pub fn last_name(self, v: char) -> (res: Self)
        ensures
            res == (Self { last_name: Some(v), ..self }),
    {
        Self { last_name: Some(v), ..self }
    }

    /// Sets `school`.
    pub fn school(self, v: char) -> (res: Self)
        ensures
            res == (Self { school: Some(v), ..self }),
    {
        Self { school: Some(v), ..self }
    }

    /// Sets `position`.
    pub fn position(self, v: PositionCode) -> (res: Self)
        ensures
            res == (Self { position: Some(v), ..self }),
    {
        Self { position: Some(v), ..self }
    }

    /// Sets `team_id`.
    pub fn team_id(self, v: TeamId) -> (res: Self)
        ensures
            res == (Self { team_id: Some(v), ..self }),
    {
        Self { team_id: Some(v), ..self }
    }

    /// Sets `home_country`.
    pub fn home_country(self, v: String) -> (res: Self)
        ensures
            res == (Self { home_country: Some(v), ..self }),
    {
        Self { home_country: Some(v), ..self }
    }

    /// Sets `player_id`.
    pub fn player_id(self, v: PersonId) -> (res: Self)
        ensures
            res == (Self { player_id: Some(v), ..self }),
    {
        Self { player_id: Some(v), ..self }
    }

    /// The request.
    pub fn build(self) -> (res: DraftRequest)
        ensures
            res.year == self.year,
            res.limit == self.limit,
            res.offset == self.offset,
            res.round == self.round,
            res.drafted_only == self.drafted_only,
            res.last_name == self.last_name,
            res.school == self.school,
            res.position == self.position,
            res.team_id == self.team_id,
            res.home_country == self.home_country,
            res.player_id == self.player_id,
    {
        DraftRequest { year: self.year, limit: self.limit, offset: self.offset, round: self.round, drafted_only: self.drafted_only, last_name: self.last_name, school: self.school, position: self.position, team_id: self.team_id, home_country: self.home_country, player_id: self.player_id }
    }
}

impl DraftRequest {
    /// Starts a request for the latest picks of a draft.
    pub fn latest() -> (res: DraftRequestLatestBuilder)
        ensures
            res.year is None,
    {
        DraftRequestLatestBuilder { year: None }
    }
}

/// The prospects of a draft.
#[derive(Debug, Clone)]
pub struct DraftProspectsRequest {
    pub year: Option<SeasonId>,
    pub limit: Option<u32>,
    pub offset: Option<u32>,
    pub round: Option<u32>,
    pub drafted_only: Option<bool>,
    pub last_name: Option<char>,
    pub school: Option<char>,
    pub position: Option<PositionCode>,
    pub team_id: Option<TeamId>,
    pub home_country: Option<String>,
    pub player_id: Option<PersonId>,
}

/// The URL of a [`DraftProspectsRequest`].
pub open spec fn draft_prospects_url(r: DraftProspectsRequest) -> Seq<char> {
    "http://statsapi.mlb.com/api/v1/draft/prospects/"@ + year_segment(r.year) + query(draft_filter_entries(r.limit, r.offset, r.round, r.drafted_only, r.last_name, r.school, r.position, r.team_id, r.home_country, r.player_id))
}

/// The URL of a draft prospects request names the year that is given, and its query holds
/// an entry `key=value` for each filter that is given.
pub proof fn lemma_draft_prospects_url_holds_filters(r: DraftProspectsRequest)
    ensures
        r.year matches Some(y) ==> ("http://statsapi.mlb.com/api/v1/draft/prospects/"@ + dec(y.0 as nat)).is_prefix_of(draft_prospects_url(r)),
        r.limit matches Some(n) ==> holds_entry(draft_prospects_url(r), kv("limit"@, dec(n as nat))),
        r.offset matches Some(n) ==> holds_entry(draft_prospects_url(r), kv("offset"@, dec(n as nat))),
        r.round matches Some(n) ==> holds_entry(draft_prospects_url(r), kv("round"@, dec(n as nat))),
        r.drafted_only matches Some(b) ==> holds_entry(draft_prospects_url(r), kv("drafted"@, if b { "true"@ } else { "false"@ })),
        r.last_name matches Some(c) ==> holds_entry(draft_prospects_url(r), kv("name"@, seq![c])),
        r.school matches Some(c) ==> holds_entry(draft_prospects_url(r), kv("school"@, seq![c])),
        r.position matches Some(p) ==> holds_entry(draft_prospects_url(r), kv("position"@, p.0@)),
        r.team_id matches Some(t) ==> holds_entry(draft_prospects_url(r), kv("teamId"@, dec(t.0 as nat))),
        r.home_country matches Some(c) ==> holds_entry(draft_prospects_url(r), kv("homeCountry"@, c@)),
        r.player_id matches Some(p) ==> holds_entry(draft_prospects_url(r), kv("playerId"@, dec(p.0 as nat))),
{
    let base = "http://statsapi.mlb.com/api/v1/draft/prospects/"@ + year_segment(r.year);
    let pieces = draft_filter_entries(
        r.limit,
        r.offset,
        r.round,
        r.drafted_only,
        r.last_name,
        r.school,
        r.position,
        r.team_id,
        r.home_country,
        r.player_id,
    );
    assert(draft_prospects_url(r) == base + query(pieces));
    lemma_query_holds_entries(base, pieces);
    assert(pieces[0] == opt_num_kv("limit"@, opt_nat(r.limit)));
    assert(pieces[1] == opt_num_kv("offset"@, opt_nat(r.offset)));
    assert(pieces[2] == opt_num_kv("round"@, opt_nat(r.round)));
    assert(pieces[4] == opt_text_kv("name"@, match r.last_name { Some(v) => Some(seq![v]), None => None }));
    assert(pieces[9] == opt_num_kv("playerId"@, opt_id(r.player_id)));
    if let Some(y) = r.year {
        assert(("http://statsapi.mlb.com/api/v1/draft/prospects/"@ + dec(y.0 as nat)).is_prefix_of(draft_prospects_url(r))) by {
            assert(draft_prospects_url(r).subrange(0, ("http://statsapi.mlb.com/api/v1/draft/prospects/"@ + dec(y.0 as nat)).len() as int) =~= "http://statsapi.mlb.com/api/v1/draft/prospects/"@ + dec(y.0 as nat));
        }
    }
}

impl DraftProspectsRequest {
    /// Starts a request with nothing given.
    pub fn regular() -> (res: DraftProspectsRequestBuilder)
        ensures
            res.year is None,
            res.limit is None,
            res.offset is None,
            res.round is None,
            res.drafted_only is None,
            res.last_name is None,
            res.school is None,
            res.position is None,
            res.team_id is None,
            res.home_country is None,
            res.player_id is None,
    {
        DraftProspectsRequestBuilder { year: None, limit: None, offset: None, round: None, drafted_only: None, last_name: None, school: None, position: None, team_id: None, home_country: None, player_id: None }
    }

    /// The URL of the request.
    pub fn to_string(&self) -> (res: String)
        ensures
            res@ == draft_prospects_url(*self),
    {
        let pieces = vec![
            opt_num_param("limit", self.limit),
            opt_num_param("offset", self.offset),
            opt_num_param("round", self.round),
            opt_bool_param("drafted", self.drafted_only),
            opt_char_param("name", self.last_name),
            opt_char_param("school", self.school),
            opt_text_id_param("position", &self.position),
            opt_id_param("teamId", &self.team_id),
            opt_string_param("homeCountry", &self.home_country),
            opt_id_param("playerId", &self.player_id),
        ];
        assert(opt_views(pieces@) =~= draft_filter_entries(self.limit, self.offset, self.round, self.drafted_only, self.last_name, self.school, self.position, self.team_id, self.home_country, self.player_id));
        let mut base = String::from_str("http://statsapi.mlb.com/api/v1/draft/prospects/");
        let y = year_segment_string(self.year);
        base.append(y.as_str());
        url_with_query(base.as_str(), &pieces)
    }
}

/// Builder of a [`DraftProspectsRequest`].
#[derive(Debug, Clone)]
pub struct DraftProspectsRequestBuilder {
    pub year: Option<SeasonId>,
    pub limit: Option<u32>,
    pub offset: Option<u32>,
    pub round: Option<u32>,
    pub drafted_only: Option<bool>,
    pub last_name: Option<char>,
    pub school: Option<char>,
    pub position: Option<PositionCode>,
    pub team_id: Option<TeamId>,
    pub home_country: Option<String>,
    pub player_id: Option<PersonId>,
}

impl DraftProspectsRequestBuilder {
    /// Sets `year`.
    pub fn year(self, v: SeasonId) -> (res: Self)
        ensures
            res == (Self { year: Some(v), ..self }),
    {
        Self { year: Some(v), ..self }
    }

    /// Sets `limit`.
    pub fn limit(self, v: u32) -> (res: Self)
        ensures
            res == (Self { limit: Some(v), ..self }),
    {
        Self { limit: Some(v), ..self }
    }

    /// Sets `offset`.
    pub fn offset(self, v: u32) -> (res: Self)
        ensures
            res == (Self { offset: Some(v), ..self }),
    {
        Self { offset: Some(v), ..self }
    }

    /// Sets `round`.
    pub fn round(self, v: u32) -> (res: Self)
        ensures
            res == (Self { round: Some(v), ..self }),
    {
        Self { round: Some(v), ..self }
    }

    /// Sets `drafted_only`.
    pub fn drafted_only(self, v: bool) -> (res: Self)
        ensures
            res == (Self { drafted_only: Some(v), ..self }),
    {
        Self { drafted_only: Some(v), ..self }
    }

    /// Sets `last_name`.
    pub fn last_name(self, v: char) -> (res: Self)
        ensures
            res == (Self { last_name: Some(v), ..self }),
    {
        Self { last_name: Some(v), ..self }
    }

    /// Sets `school`.
    pub fn school(self, v: char) -> (res: Self)
        ensures
            res == (Self { school: Some(v), ..self }),
    {
        Self { school: Some(v), ..self }
    }

    /// Sets `position`.
    pub fn position(self, v: PositionCode) -> (res: Self)
        ensures
            res == (Self { position: Some(v), ..self }),
    {
        Self { position: Some(v), ..self }
    }

    /// Sets `team_id`.
    pub fn team_id(self, v: TeamId) -> (res: Self)
        ensures
            res == (Self { team_id: Some(v), ..self }),
    {
        Self { team_id: Some(v), ..self }
    }

    /// Sets `home_country`.
    pub fn home_country(self, v: String) -> (res: Self)
        ensures
            res == (Self { home_country: Some(v), ..self }),
    {
        Self { home_country: Some(v), ..self }
    }

    /// Sets `player_id`.
    pub fn player_id(self, v: PersonId) -> (res: Self)
        ensures
            res == (Self { player_id: Some(v), ..self }),
    {
        Self { player_id: Some(v), ..self }
    }

    /// The request.
    pub fn build(self) -> (res: DraftProspectsRequest)
        ensures
            res.year == self.year,
            res.limit == self.limit,
            res.offset == self.offset,
            res.round == self.round,
            res.drafted_only == self.drafted_only,
            res.last_name == self.last_name,
            res.school == self.school,
            res.position == self.position,
            res.team_id == self.team_id,
            res.home_country == self.home_country,
            res.player_id == self.player_id,
    {
        DraftProspectsRequest { year: self.year, limit: self.limit, offset: self.offset, round: self.round, drafted_only: self.drafted_only, last_name: self.last_name, school: self.school, position: self.position, team_id: self.team_id, home_country: self.home_country, player_id: self.player_id }
    }
}

} // verus!
