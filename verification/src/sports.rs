//! Sports, such as MLB, Triple-A or the KBO, and the requests that list them.

use vstd::prelude::*;
use crate::ids::{PersonId, SeasonId, SportId};
use crate::types::Copyright;
use crate::text::{dec, query, opt_views};
use crate::request::{num_kv, opt_num_kv, opt_id_param, id_param, url_with_query};

verus! {

/// The response of the endpoint of a sport's players.
#[derive(Debug, Clone)]
pub struct SportsPlayersResponse {
    pub copyright: Copyright,
    pub people: Vec<PersonId>,
}

/// A sport with its identifier and name, as older responses give it.
#[derive(Debug, Clone)]
pub struct UnhydratedSport {
    pub id: SportId,
    pub name: String,
}

/// The response of the `sports` endpoint.
#[derive(Debug, Clone)]
pub struct SportsResponse {
    pub copyright: Copyright,
    pub sports: Vec<Sport>,
}

/// A sport known only by its identifier.
#[derive(Debug, PartialEq, Eq, Structural, Copy, Clone)]
pub struct IdentifiableSport {
    pub id: SportId,
}

/// A sport with its name.
#[derive(Debug, Clone)]
pub struct NamedSport {
    pub name: String,
    pub inner: IdentifiableSport,
}

/// A sport with everything the API tells of it.
#[derive(Debug, Clone)]
pub struct HydratedSport {
    pub code: String,
    pub abbreviation: String,
    pub active: bool,
    pub inner: NamedSport,
}

/// A sport, with as much as the response held of it.
#[derive(Debug, Clone)]
pub enum Sport {
    Hydrated(HydratedSport),
    Named(NamedSport),
    Identifiable(IdentifiableSport),
}

/// The identifier of a sport, whichever form it came in.
pub open spec fn sport_id(s: Sport) -> SportId {
    match s {
        Sport::Hydrated(h) => h.inner.inner.id,
        Sport::Named(n) => n.inner.id,
        Sport::Identifiable(i) => i.id,
    }
}

impl Sport {
    /// The identifier of the sport.
    pub fn id(&self) -> (res: SportId)
        ensures
            res == sport_id(*self),
    {
        match self {
            Sport::Hydrated(h) => h.inner.inner.id,
            Sport::Named(n) => n.inner.id,
            Sport::Identifiable(i) => i.id,
        }
    }

    /// The request that gives the sport with the given identifier.
    pub fn url_for_id(id: SportId) -> (res: SportsEndpointUrl)
        ensures
            res.id == Some(id),
    {
        SportsEndpointUrl { id: Some(id) }
    }
}

/// The identifiable part of a sport, whichever form it came in.
pub open spec fn sport_identity(s: Sport) -> IdentifiableSport {
    match s {
        Sport::Hydrated(h) => h.inner.inner,
        Sport::Named(n) => n.inner,
        Sport::Identifiable(i) => i,
    }
}

/// A sport with its identifiable part replaced, all else kept.
pub open spec fn with_sport_identity(s: Sport, i: IdentifiableSport) -> Sport {
    match s {
        Sport::Hydrated(h) => Sport::Hydrated(HydratedSport { inner: NamedSport { inner: i, ..h.inner }, ..h }),
        Sport::Named(n) => Sport::Named(NamedSport { inner: i, ..n }),
        Sport::Identifiable(_) => Sport::Identifiable(i),
    }
}

impl Sport {
    /// The identifiable part of the sport, to change in place.
    pub fn identity_mut(&mut self) -> (res: &mut IdentifiableSport)
        ensures
            *res == sport_identity(*old(self)),
            *final(self) == with_sport_identity(*old(self), *final(res)),
    {
        match self {
            Sport::Hydrated(h) => &mut h.inner.inner,
            Sport::Named(n) => &mut n.inner,
            Sport::Identifiable(i) => i,
        }
    }
}

impl PartialEq for Sport {
    /// Two sports are the same where their identifiers are.
    fn eq(&self, other: &Self) -> (res: bool) {
        self.id().0 == other.id().0
    }
}

impl vstd::std_specs::cmp::PartialEqSpecImpl for Sport {
    open spec fn obeys_eq_spec() -> bool {
        true
    }

    open spec fn eq_spec(&self, other: &Self) -> bool {
        sport_id(*self) == sport_id(*other)
    }
}

impl HydratedSport {
    /// The request that gives this sport.
    pub fn as_link(&self) -> (res: SportsEndpointUrl)
        ensures
            res.id == Some(self.inner.inner.id),
    {
        SportsEndpointUrl { id: Some(self.inner.inner.id) }
    }
}

/// The request for the list of sports, or for one sport.
#[derive(Debug, Clone, Copy)]
pub struct SportsEndpointUrl {
    pub id: Option<SportId>,
}

/// The URL of a [`SportsEndpointUrl`].
pub open spec fn sports_url(r: SportsEndpointUrl) -> Seq<char> {
    "http://statsapi.mlb.com/api/v1/sports"@ + query(
        seq![opt_num_kv("sportId"@, match r.id { Some(i) => Some(i.0 as nat), None => None })],
    )
}

impl SportsEndpointUrl {
    /// The URL of the request.
    pub fn to_string(&self) -> (res: String)
        ensures
            res@ == sports_url(*self),
    {
        let pieces = vec![opt_id_param("sportId", &self.id)];
        assert(opt_views(pieces@) =~= seq![
            opt_num_kv("sportId"@, match self.id { Some(i) => Some(i.0 as nat), None => None }),
        ]);
        url_with_query("http://statsapi.mlb.com/api/v1/sports", &pieces)
    }
}

/// The request for the players of a sport in a season.
#[derive(Debug, Clone, Copy)]
pub struct SportsPlayersEndpoint {
    pub id: SportId,
    pub season: Option<SeasonId>,
}

/// The URL of a [`SportsPlayersEndpoint`].
pub open spec fn sports_players_url(r: SportsPlayersEndpoint) -> Seq<char> {
    "http://statsapi.mlb.com/api/v1/sports/"@ + dec(r.id.0 as nat) + "/players"@ + query(
        seq![
            num_kv("sportId"@, r.id.0 as nat),
            opt_num_kv("season"@, match r.season { Some(s) => Some(s.0 as nat), None => None }),
        ],
    )
}

impl SportsPlayersEndpoint {
    /// Starts a request: MLB, with no season given.
    pub fn builder() -> (res: SportsPlayersEndpointBuilder)
        ensures
            res.id.0 == 1,
            res.season is None,
    {
        SportsPlayersEndpointBuilder { id: SportId::default(), season: None }
    }

    /// The URL of the request.
    pub fn to_string(&self) -> (res: String)
        ensures
            res@ == sports_players_url(*self),
    {
        let pieces = vec![id_param("sportId", &self.id), opt_id_param("season", &self.season)];
        assert(opt_views(pieces@) =~= seq![
            num_kv("sportId"@, self.id.0 as nat),
            opt_num_kv("season"@, match self.season { Some(s) => Some(s.0 as nat), None => None }),
        ]);
        let mut base = String::from_str("http://statsapi.mlb.com/api/v1/sports/");
        let id = self.id.to_string();
        base.append(id.as_str());
        base.append("/players");
        url_with_query(base.as_str(), &pieces)
    }
}

/// Builder of a [`SportsPlayersEndpoint`].
#[derive(Debug, Clone, Copy)]
pub struct SportsPlayersEndpointBuilder {
    pub id: SportId,
    pub season: Option<SeasonId>,
}

impl SportsPlayersEndpointBuilder {
    /// Sets the sport.
    pub fn id(self, id: SportId) -> (res: Self)
        ensures
            res == (Self { id, ..self }),
    {
        Self { id, ..self }
    }

    /// Sets the season.
    pub fn season(self, season: SeasonId) -> (res: Self)
        ensures
            res == (Self { season: Some(season), ..self }),
    {
        Self { season: Some(season), ..self }
    }

    /// The request.
    pub fn build(self) -> (res: SportsPlayersEndpoint)
        ensures
            res.id == self.id,
            res.season == self.season,
    {
        SportsPlayersEndpoint { id: self.id, season: self.season }
    }
}


/// The URL of a sports request holds the sport where it is given.
pub proof fn lemma_sports_url_holds_filters(r: SportsEndpointUrl)
    ensures
        r.id matches Some(v) ==> crate::text::holds_entry(sports_url(r), crate::text::kv("sportId"@, crate::text::dec(v.0 as nat))),
{
    let base = "http://statsapi.mlb.com/api/v1/sports"@;
    let pieces = seq![opt_num_kv("sportId"@, match r.id { Some(i) => Some(i.0 as nat), None => None })];
    assert(sports_url(r) == base + query(pieces));
    crate::text::lemma_query_holds_entries(base, pieces);
}

/// The URL of a sport's players request names the sport in its path and query, and holds the
/// season where it is given.
pub proof fn lemma_sports_players_url_holds_filters(r: SportsPlayersEndpoint)
    ensures
        ("http://statsapi.mlb.com/api/v1/sports/"@ + crate::text::dec(r.id.0 as nat) + "/players"@).is_prefix_of(sports_players_url(r)),
        crate::text::holds_entry(sports_players_url(r), crate::text::kv("sportId"@, crate::text::dec(r.id.0 as nat))),
        r.season matches Some(v) ==> crate::text::holds_entry(sports_players_url(r), crate::text::kv("season"@, crate::text::dec(v.0 as nat))),
{
    let base = "http://statsapi.mlb.com/api/v1/sports/"@ + dec(r.id.0 as nat) + "/players"@;
    let pieces = seq![
            num_kv("sportId"@, r.id.0 as nat),
            opt_num_kv("season"@, match r.season { Some(s) => Some(s.0 as nat), None => None }),
        ];
    assert(sports_players_url(r) == base + query(pieces));
    crate::text::lemma_query_holds_entries(base, pieces);
    assert(sports_players_url(r).subrange(0, ("http://statsapi.mlb.com/api/v1/sports/"@ + crate::text::dec(r.id.0 as nat) + "/players"@).len() as int) =~= ("http://statsapi.mlb.com/api/v1/sports/"@ + crate::text::dec(r.id.0 as nat) + "/players"@));
}

} // verus!
