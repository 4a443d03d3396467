//! Venues, such as Yankee Stadium or Dodger Stadium, and the request that lists them.

use vstd::prelude::*;
use crate::ids::{SportId, VenueId};
use crate::types::Copyright;
use crate::text::{dec, query, opt_views, opt_param, push_char};
use crate::request::{opt_num_kv, opt_text_kv, opt_num_param, url_with_query, join_ids, ids_text};

verus! {

/// A venue with its identifier and name, as older responses give it.
#[derive(Debug, Clone)]
pub struct UnhydratedVenue {
    pub id: VenueId,
    pub name: String,
}

/// The response of the `venues` endpoint.
#[derive(Debug, Clone)]
pub struct VenuesResponse {
    pub copyright: Copyright,
    pub venues: Vec<Venue>,
}

/// A venue known only by its identifier.
#[derive(Debug, PartialEq, Eq, Structural, Copy, Clone)]
pub struct IdentifiableVenue {
    pub id: VenueId,
}

impl Default for IdentifiableVenue {
    /// The venue of identifier 0, which stands for an unknown venue.
    fn default() -> (res: Self)
        ensures
            res.id.0 == 0,
    {
        IdentifiableVenue { id: VenueId(0) }
    }
}

/// A venue with its name.
#[derive(Debug, Clone)]
pub struct NamedVenue {
    pub name: String,
    pub inner: IdentifiableVenue,
}

impl Default for NamedVenue {
    /// The unknown venue: named `null`, of identifier 0.
    fn default() -> (res: Self)
        ensures
            res.name@ == "null"@,
            res.inner.id.0 == 0,
    {
        NamedVenue { name: String::from_str("null"), inner: IdentifiableVenue::default() }
    }
}

/// A venue with everything the API tells of it.
#[derive(Debug, Clone)]
pub struct HydratedVenue {
    pub active: bool,
    pub season: u16,
    pub inner: NamedVenue,
}

/// A venue, with as much as the response held of it.
#[derive(Debug, Clone)]
pub enum Venue {
    Hydrated(HydratedVenue),
    Named(NamedVenue),
    Identifiable(IdentifiableVenue),
}

/// The identifier of a venue, whichever form it came in.
pub open spec fn venue_id(v: Venue) -> VenueId {
    match v {
        Venue::Hydrated(h) => h.inner.inner.id,
        Venue::Named(n) => n.inner.id,
        Venue::Identifiable(i) => i.id,
    }
}

impl Venue {
    /// The venue that stands for an unknown one: named `null`, of identifier 0.
    pub fn unknown_venue() -> (res: Self)
        ensures
            res matches Venue::Named(n) && n.name@ == "null"@ && n.inner.id.0 == 0,
    {
        Venue::Named(NamedVenue::default())
    }

    /// The identifier of the venue.
    pub fn id(&self) -> (res: VenueId)
        ensures
            res == venue_id(*self),
    {
        match self {
            Venue::Hydrated(h) => h.inner.inner.id,
            Venue::Named(n) => n.inner.id,
            Venue::Identifiable(i) => i.id,
        }
    }

    /// The request that gives the venue with the given identifier.
    pub fn url_for_id(id: VenueId) -> (res: VenuesEndpoint)
        ensures
            res.sport_id is None,
            res.season is None,
            res.venue_ids matches Some(ids) && ids@ == seq![id],
    {
        VenuesEndpoint { sport_id: None, venue_ids: Some(vec![id]), season: None }
    }
}

/// The identifiable part of a venue, whichever form it came in.
pub open spec fn venue_identity(v: Venue) -> IdentifiableVenue {
    match v {
        Venue::Hydrated(h) => h.inner.inner,
        Venue::Named(n) => n.inner,
        Venue::Identifiable(i) => i,
    }
}

/// A venue with its identifiable part replaced, all else kept.
pub open spec fn with_venue_identity(v: Venue, i: IdentifiableVenue) -> Venue {
    match v {
        Venue::Hydrated(h) => Venue::Hydrated(HydratedVenue { inner: NamedVenue { inner: i, ..h.inner }, ..h }),
        Venue::Named(n) => Venue::Named(NamedVenue { inner: i, ..n }),
        Venue::Identifiable(_) => Venue::Identifiable(i),
    }
}

impl Venue {
    /// The identifiable part of the venue, to change in place.
    pub fn identity_mut(&mut self) -> (res: &mut IdentifiableVenue)
        ensures
            *res == venue_identity(*old(self)),
            *final(self) == with_venue_identity(*old(self), *final(res)),
    {
        match self {
            Venue::Hydrated(h) => &mut h.inner.inner,
            Venue::Named(n) => &mut n.inner,
            Venue::Identifiable(i) => i,
        }
    }
}

impl PartialEq for Venue {
    /// Two venues are the same where their identifiers are.
    fn eq(&self, other: &Self) -> (res: bool) {
        self.id().0 == other.id().0
    }
}

impl vstd::std_specs::cmp::PartialEqSpecImpl for Venue {
    open spec fn obeys_eq_spec() -> bool {
        true
    }

    open spec fn eq_spec(&self, other: &Self) -> bool {
        venue_id(*self) == venue_id(*other)
    }
}

/// The request for venues: of a sport, of a season, or a given list.
#[derive(Debug, Clone)]
pub struct VenuesEndpoint {
    pub sport_id: Option<SportId>,
    pub venue_ids: Option<Vec<VenueId>>,
    pub season: Option<u16>,
}

impl Default for VenuesEndpoint {
    /// The request for all venues.
    fn default() -> (res: Self)
        ensures
            res.sport_id is None,
            res.venue_ids is None,
            res.season is None,
    {
        VenuesEndpoint { sport_id: None, venue_ids: None, season: None }
    }
}

/// The URL of a [`VenuesEndpoint`]: the sport, where there is one, is a path segment.
pub open spec fn venues_url(r: VenuesEndpoint) -> Seq<char> {
    "http://statsapi.mlb.com/api/v1/venues"@ + (match r.sport_id {
        Some(s) => seq!['/'] + dec(s.0 as nat),
        None => Seq::empty(),
    }) + query(
        seq![
            opt_num_kv("season"@, match r.season { Some(s) => Some(s as nat), None => None }),
            opt_text_kv("venueIds"@, match r.venue_ids { Some(ids) => Some(ids_text(ids@)), None => None }),
        ],
    )
}

impl VenuesEndpoint {
    /// The URL of the request.
    pub fn to_string(&self) -> (res: String)
        ensures
            res@ == venues_url(*self),
    {
        let ids = match &self.venue_ids {
            Some(ids) => Some(join_ids(ids)),
            None => None,
        };
        let season = match self.season {
            Some(s) => Some(s as u32),
            None => None,
        };
        let pieces = vec![opt_num_param("season", season), opt_param("venueIds", ids)];
        assert(opt_views(pieces@) =~= seq![
            opt_num_kv("season"@, match self.season { Some(s) => Some(s as nat), None => None }),
            opt_text_kv("venueIds"@, match self.venue_ids { Some(ids) => Some(ids_text(ids@)), None => None }),
        ]);
        let mut base = String::from_str("http://statsapi.mlb.com/api/v1/venues");
        match self.sport_id {
            Some(s) => {
                push_char(&mut base, '/');
                let t = s.to_string();
                base.append(t.as_str());
            },
            None => {},
        }
        assert(base@ =~= "http://statsapi.mlb.com/api/v1/venues"@ + (match self.sport_id {
            Some(s) => seq!['/'] + dec(s.0 as nat),
            None => Seq::empty(),
        }));
        url_with_query(base.as_str(), &pieces)
    }
}


/// The URL of a venues request names the sport in its path where it is given, and holds the
/// season and the venues where they are given.
pub proof fn lemma_venues_url_holds_filters(r: VenuesEndpoint)
    ensures
        r.sport_id matches Some(s) ==> ("http://statsapi.mlb.com/api/v1/venues/"@ + crate::text::dec(s.0 as nat)).is_prefix_of(venues_url(r)),
        r.season matches Some(v) ==> crate::text::holds_entry(venues_url(r), crate::text::kv("season"@, crate::text::dec(v as nat))),
        r.venue_ids matches Some(ids) ==> crate::text::holds_entry(venues_url(r), crate::text::kv("venueIds"@, ids_text(ids@))),
{
    let base = "http://statsapi.mlb.com/api/v1/venues"@ + (match r.sport_id {
        Some(s) => seq!['/'] + dec(s.0 as nat),
        None => Seq::empty(),
    });
    let pieces = seq![
            opt_num_kv("season"@, match r.season { Some(s) => Some(s as nat), None => None }),
            opt_text_kv("venueIds"@, match r.venue_ids { Some(ids) => Some(ids_text(ids@)), None => None }),
        ];
    assert(venues_url(r) == base + query(pieces));
    crate::text::lemma_query_holds_entries(base, pieces);
    if let Some(s) = r.sport_id {
        let p = "http://statsapi.mlb.com/api/v1/venues/"@ + crate::text::dec(s.0 as nat);
        reveal_strlit("http://statsapi.mlb.com/api/v1/venues/");
        reveal_strlit("http://statsapi.mlb.com/api/v1/venues");
        assert(venues_url(r).subrange(0, p.len() as int) =~= p);
    }
}

} // verus!
