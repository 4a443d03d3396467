//! People with jobs (umpires, datacasters, official scorers), a person's stats in one game,
//! and hydrations.

use vstd::prelude::*;
use crate::ids::{GameId, JobTypeId, PersonId, SportId};
use crate::date::Date;
use crate::types::Copyright;
use crate::text::{dec, kv, query, opt_views};
use crate::request::{num_kv, opt_date_kv, id_param, opt_date_param, text_id_param, url_with_query};

verus! {

/// The response of the `jobs` endpoints.
#[derive(Debug, Clone)]
pub struct JobsResponse {
    pub copyright: Copyright,
    pub roster: Vec<EmployedPerson>,
}

/// A person with a job.
#[derive(Debug, Clone)]
pub struct EmployedPerson {
    pub person: PersonId,
    pub jersey_number: Option<String>,
    pub job_name: String,
    pub job_id: JobTypeId,
    pub job_title: String,
}

/// The request for the people with a given job.
#[derive(Debug, Clone)]
pub struct JobsRequest {
    pub job_type: JobTypeId,
    pub sport_id: SportId,
    pub date: Option<Date>,
}

/// The URL of a [`JobsRequest`].
pub open spec fn jobs_url(r: JobsRequest) -> Seq<char> {
    "http://statsapi.mlb.com/api/v1/jobs"@ + query(
        seq![
            Some(kv("jobType"@, r.job_type.0@)),
            num_kv("sportId"@, r.sport_id.0 as nat),
            opt_date_kv("date"@, r.date),
        ],
    )
}

impl JobsRequest {
    /// Starts a request for MLB; the job type must be given before it is built.
    pub fn builder() -> (res: JobsRequestBuilder)
        ensures
            res.job_type is None,
            res.sport_id.0 == 1,
            res.date is None,
    {
        JobsRequestBuilder { job_type: None, sport_id: SportId::default(), date: None }
    }

    /// The URL of the request.
    pub fn to_string(&self) -> (res: String)
        ensures
            res@ == jobs_url(*self),
    {
        let pieces = vec![
            text_id_param("jobType", &self.job_type),
            id_param("sportId", &self.sport_id),
            opt_date_param("date", self.date),
        ];
        assert(opt_views(pieces@) =~= seq![
            Some(kv("jobType"@, self.job_type.0@)),
            num_kv("sportId"@, self.sport_id.0 as nat),
            opt_date_kv("date"@, self.date),
        ]);
        url_with_query("http://statsapi.mlb.com/api/v1/jobs", &pieces)
    }
}

/// Builder of a [`JobsRequest`].
#[derive(Debug, Clone)]
pub struct JobsRequestBuilder {
    pub job_type: Option<JobTypeId>,
    pub sport_id: SportId,
    pub date: Option<Date>,
}

impl JobsRequestBuilder {
    /// Sets the job type.
    pub fn job_type(self, job_type: JobTypeId) -> (res: Self)
        ensures
            res == (Self { job_type: Some(job_type), ..self }),
    {
        Self { job_type: Some(job_type), ..self }
    }

    /// Sets the sport.
    pub fn sport_id(self, id: SportId) -> (res: Self)
        ensures
            res == (Self { sport_id: id, ..self }),
    {
        Self { sport_id: id, ..self }
    }

    /// Sets the date.
    pub fn date(self, date: Date) -> (res: Self)
        ensures
            res == (Self { date: Some(date), ..self }),
    {
        Self { date: Some(date), ..self }
    }

    /// The request; the job type must have been given.
    pub fn build(self) -> (res: JobsRequest)
        requires
            self.job_type is Some,
        ensures
            Some(res.job_type) == self.job_type,
            res.sport_id == self.sport_id,
            res.date == self.date,
    {
        JobsRequest { job_type: self.job_type.unwrap(), sport_id: self.sport_id, date: self.date }
    }
}

/// The URL of a request for the people of one job, of a sport and maybe at a date.
pub open spec fn job_list_url(base: Seq<char>, sport_id: SportId, date: Option<Date>) -> Seq<char> {
    base + query(seq![num_kv("sportId"@, sport_id.0 as nat), opt_date_kv("date"@, date)])
}

/// Builds the URL of a request for the people of one job.
pub fn job_list_url_string(base: &str, sport_id: SportId, date: Option<Date>) -> (res: String)
    ensures
        res@ == job_list_url(base@, sport_id, date),
{
    let pieces = vec![id_param("sportId", &sport_id), opt_date_param("date", date)];
    assert(opt_views(pieces@) =~= seq![num_kv("sportId"@, sport_id.0 as nat), opt_date_kv("date"@, date)]);
    url_with_query(base, &pieces)
}

/// The request for the datacasters.
#[derive(Debug, Clone, Copy)]
pub struct JobsDatacastersRequest {
    pub sport_id: SportId,
    pub date: Option<Date>,
}

impl JobsDatacastersRequest {
    /// Starts a request for MLB, at no given date.
    pub fn builder() -> (res: JobsDatacastersRequestBuilder)
        ensures
            res.sport_id.0 == 1,
            res.date is None,
    {
        JobsDatacastersRequestBuilder { sport_id: SportId::default(), date: None }
    }

    /// The URL of the request.
    pub fn to_string(&self) -> (res: String)
        ensures
            res@ == job_list_url("http://statsapi.mlb.com/api/v1/jobs/datacasters"@, self.sport_id, self.date),
    {
        job_list_url_string("http://statsapi.mlb.com/api/v1/jobs/datacasters", self.sport_id, self.date)
    }
}

/// Builder of a [`JobsUmpiresRequest`].
#[derive(Debug, Clone, Copy)]
pub struct JobsUmpiresRequestBuilder {
    pub sport_id: SportId,
    pub date: Option<Date>,
}

impl JobsUmpiresRequestBuilder {
    /// Sets the sport.
    pub fn sport_id(self, id: SportId) -> (res: Self)
        ensures
            res == (Self { sport_id: id, ..self }),
    {
        Self { sport_id: id, ..self }
    }

    /// Sets the date.
    pub fn date(self, date: Date) -> (res: Self)
        ensures
            res == (Self { date: Some(date), ..self }),
    {
        Self { date: Some(date), ..self }
    }

    /// The request.
    pub fn build(self) -> (res: JobsUmpiresRequest)
        ensures
            res.sport_id == self.sport_id,
            res.date == self.date,
    {
        JobsUmpiresRequest { sport_id: self.sport_id, date: self.date }
    }
}

/// The request for the umpires.
#[derive(Debug, Clone, Copy)]
pub struct JobsUmpiresRequest {
    pub sport_id: SportId,
    pub date: Option<Date>,
}

impl JobsUmpiresRequest {
    /// Starts a request for MLB, at no given date.
    pub fn builder() -> (res: JobsUmpiresRequestBuilder)
        ensures
            res.sport_id.0 == 1,
            res.date is None,
    {
        JobsUmpiresRequestBuilder { sport_id: SportId::default(), date: None }
    }

    /// The URL of the request.
    pub fn to_string(&self) -> (res: String)
        ensures
            res@ == job_list_url("http://statsapi.mlb.com/api/v1/jobs/umpires"@, self.sport_id, self.date),
    {
        job_list_url_string("http://statsapi.mlb.com/api/v1/jobs/umpires", self.sport_id, self.date)
    }
}

/// Builder of a [`JobsDatacastersRequest`].
#[derive(Debug, Clone, Copy)]
pub struct JobsDatacastersRequestBuilder {
    pub sport_id: SportId,
    pub date: Option<Date>,
}

impl JobsDatacastersRequestBuilder {
    /// Sets the sport.
    pub fn sport_id(self, id: SportId) -> (res: Self)
        ensures
            res == (Self { sport_id: id, ..self }),
    {
        Self { sport_id: id, ..self }
    }

    /// Sets the date.
    pub fn date(self, date: Date) -> (res: Self)
        ensures
            res == (Self { date: Some(date), ..self }),
    {
        Self { date: Some(date), ..self }
    }

    /// The request.
    pub fn build(self) -> (res: JobsDatacastersRequest)
        ensures
            res.sport_id == self.sport_id,
            res.date == self.date,
    {
        JobsDatacastersRequest { sport_id: self.sport_id, date: self.date }
    }
}

/// The request for the official scorers.
#[derive(Debug, Clone, Copy)]
pub struct JobsOfficialScorersRequest {}

impl JobsOfficialScorersRequest {
    /// The request; it takes nothing.
    pub fn builder() -> (res: JobsOfficialScorersRequest) {
        JobsOfficialScorersRequest {}
    }

    /// The URL of the request.
    pub fn to_string(&self) -> (res: String)
        ensures
            res@ == "http://statsapi.mlb.com/api/v1/jobs/officialScorers"@,
    {
        String::from_str("http://statsapi.mlb.com/api/v1/jobs/officialScorers")
    }
}

/// The request for the stats of a person in one game.
#[derive(Debug, PartialEq, Eq, Structural, Copy, Clone)]
pub struct PersonSingleGameStatsEndpoint {
    pub person_id: PersonId,
    pub game_id: GameId,
}

/// The URL of a [`PersonSingleGameStatsEndpoint`].
pub open spec fn person_game_stats_url(r: PersonSingleGameStatsEndpoint) -> Seq<char> {
    "http://statsapi.mlb.com/api/v1/people/"@ + dec(r.person_id.0 as nat) + "/stats/game/"@ + dec(
        r.game_id.0 as nat,
    )
}

impl PersonSingleGameStatsEndpoint {
    /// The URL of the request.
    pub fn to_string(&self) -> (res: String)
        ensures
            res@ == person_game_stats_url(*self),
    {
        let mut s = String::from_str("http://statsapi.mlb.com/api/v1/people/");
        let p = self.person_id.to_string();
        s.append(p.as_str());
        s.append("/stats/game/");
        let g = self.game_id.to_string();
        s.append(g.as_str());
        s
    }
}

/// What a request asks the API to add to its response, as the text of its `hydrate` entry.
pub trait HydrationText {
    /// The data the text is made from.
    type RequestData;

    /// The text of the hydrations.
    fn hydration_text(data: &Self::RequestData) -> String;
}

/// A set of hydrations.
pub trait Hydrations: HydrationText {}

impl HydrationText for () {
    type RequestData = ();

    /// No hydration: the empty text.
    fn hydration_text(data: &()) -> (res: String)
        ensures
            res@ == Seq::<char>::empty(),
    {
        String::new()
    }
}

impl Hydrations for () {}


/// The URL of a jobs request holds the job type and the sport, and the date where it is given.
pub proof fn lemma_jobs_url_holds_filters(r: JobsRequest)
    ensures
        crate::text::holds_entry(jobs_url(r), crate::text::kv("jobType"@, r.job_type.0@)),
        crate::text::holds_entry(jobs_url(r), crate::text::kv("sportId"@, crate::text::dec(r.sport_id.0 as nat))),
        r.date matches Some(d) ==> crate::text::holds_entry(jobs_url(r), crate::text::kv("date"@, crate::date::date_text(d@.0, d@.1, d@.2))),
{
    let base = "http://statsapi.mlb.com/api/v1/jobs"@;
    let pieces = seq![
            Some(kv("jobType"@, r.job_type.0@)),
            num_kv("sportId"@, r.sport_id.0 as nat),
            opt_date_kv("date"@, r.date),
        ];
    assert(jobs_url(r) == base + query(pieces));
    crate::text::lemma_query_holds_entries(base, pieces);
}


/// The URL of a request for the people of one job starts with the job's base, and its query
/// holds the sport, and the date where it is given.
pub proof fn lemma_job_list_url_holds_filters(base: Seq<char>, sport_id: SportId, date: Option<Date>)
    ensures
        base.is_prefix_of(job_list_url(base, sport_id, date)),
        crate::text::holds_entry(job_list_url(base, sport_id, date), crate::text::kv("sportId"@, crate::text::dec(sport_id.0 as nat))),
        date matches Some(d) ==> crate::text::holds_entry(job_list_url(base, sport_id, date), crate::text::kv("date"@, crate::date::date_text(d@.0, d@.1, d@.2))),
{
    let pieces = seq![num_kv("sportId"@, sport_id.0 as nat), opt_date_kv("date"@, date)];
    crate::text::lemma_query_holds_entries(base, pieces);
    assert(job_list_url(base, sport_id, date).subrange(0, base.len() as int) =~= base);
}

/// The URL of a person's stats in one game names the person, then the game.
pub proof fn lemma_person_game_stats_url_names_both(r: PersonSingleGameStatsEndpoint)
    ensures
        person_game_stats_url(r) == "http://statsapi.mlb.com/api/v1/people/"@ + crate::text::dec(r.person_id.0 as nat) + "/stats/game/"@
            + crate::text::dec(r.game_id.0 as nat),
{
}

} // verus!
