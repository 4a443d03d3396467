//! Teams and organizations: how a team's names are completed, and the requests about teams.

use vstd::prelude::*;
use crate::ids::{OrganizationId, TeamId};
use crate::types::Copyright;
use crate::venue::NamedVenue;
use crate::league::{NamedLeague, NamedDivision};
use crate::sports::NamedSport;
use crate::text::{dec, push_char, push_dec};

verus! {

/// The parent organization of a team, with its name and identifier, as older responses give
/// it.
#[derive(Debug, Clone)]
pub struct UnhydratedOrganization {
    pub name: String,
    pub id: OrganizationId,
}

/// The names of a team as a response gives them: everything but the full name may be missing.
#[derive(Debug, Clone)]
pub struct TeamNameRaw {
    pub name: String,
    pub team_code: Option<String>,
    pub file_code: Option<String>,
    pub abbreviation: Option<String>,
    pub team_name: Option<String>,
    pub short_name: Option<String>,
    pub franchise_name: Option<String>,
    pub club_name: Option<String>,
}

/// The full name of a team, where no other name is known.
#[derive(Debug, Clone)]
pub struct UnhydratedTeamName {
    pub name: String,
}

/// All the names of a team.
#[derive(Debug, Clone)]
pub struct HydratedTeamName {
    pub inner: UnhydratedTeamName,
    pub team_code: String,
    pub file_code: String,
    pub abbreviation: String,
    pub team_name: String,
    pub short_name: String,
    pub franchise_name: String,
    pub club_name: String,
}

/// The names of a team: all of them, or the full name alone.
#[derive(Debug, Clone)]
pub enum TeamName {
    Hydrated(HydratedTeamName),
    Unhydrated(UnhydratedTeamName),
}

/// The view of an optional string.
pub open spec fn ov(o: Option<String>) -> Option<Seq<char>> {
    match o {
        Some(s) => Some(s@),
        None => None,
    }
}

/// The value of an optional text, or a fallback.
pub open spec fn or_else(o: Option<Seq<char>>, fallback: Seq<char>) -> Seq<char> {
    match o {
        Some(s) => s,
        None => fallback,
    }
}

/// The file code a team gets where the response gives none: `t` and its identifier.
pub open spec fn default_file_code(id: TeamId) -> Seq<char> {
    seq!['t'] + dec(id.0 as nat)
}

/// Whether the names of a team are complete enough to count as hydrated: the team code, the
/// abbreviation, the team name and the short name are all present.
pub open spec fn names_complete(raw: TeamNameRaw) -> bool {
    raw.team_code is Some && raw.abbreviation is Some && raw.team_name is Some && raw.short_name is Some
}

/// What [`TeamNameRaw::initialize`] makes of the names of the team `id`, as views: hydrated where
/// the names are complete, the file code defaulting to `t` and the identifier, the franchise name
/// to the short name and the club name to the team name.
pub open spec fn initialized_name(raw: TeamNameRaw, id: TeamId, res: TeamName) -> bool {
    if names_complete(raw) {
        res matches TeamName::Hydrated(h) && {
            &&& h.inner.name@ == raw.name@
            &&& Some(h.team_code@) == ov(raw.team_code)
            &&& Some(h.abbreviation@) == ov(raw.abbreviation)
            &&& Some(h.team_name@) == ov(raw.team_name)
            &&& Some(h.short_name@) == ov(raw.short_name)
            &&& h.file_code@ == or_else(ov(raw.file_code), default_file_code(id))
            &&& h.franchise_name@ == or_else(ov(raw.franchise_name), h.short_name@)
            &&& h.club_name@ == or_else(ov(raw.club_name), h.team_name@)
        }
    } else {
        res matches TeamName::Unhydrated(u) && u.name@ == raw.name@
    }
}

/// The full name of a team, whichever form its names came in.
pub open spec fn full_name(n: TeamName) -> Seq<char> {
    match n {
        TeamName::Hydrated(h) => h.inner.name@,
        TeamName::Unhydrated(u) => u.name@,
    }
}

/// Completing the names of a team keeps its full name, hydrates it exactly where the four
/// required names are given, and keeps every name the response gave.
pub proof fn lemma_initialized_name_keeps_given_names(raw: TeamNameRaw, id: TeamId, res: TeamName)
    requires
        initialized_name(raw, id, res),
    ensures
        full_name(res) == raw.name@,
        res is Hydrated <==> names_complete(raw),
        res matches TeamName::Hydrated(h) ==> {
            &&& raw.file_code matches Some(f) ==> h.file_code@ == f@
            &&& raw.franchise_name matches Some(f) ==> h.franchise_name@ == f@
            &&& raw.club_name matches Some(c) ==> h.club_name@ == c@
            &&& raw.file_code is None ==> h.file_code@ == seq!['t'] + dec(id.0 as nat)
        },
{
}

impl TeamNameRaw {
    /// Completes the names of the team `id`: where the team code, the abbreviation, the team
    /// name and the short name are all given, the names are hydrated, with the file code
    /// defaulting to `t` followed by the identifier, the franchise name to the short name and
    /// the club name to the team name; else only the full name is kept.
    pub fn initialize(self, id: TeamId) -> (res: TeamName)
        ensures
            initialized_name(self, id, res),
    {
        let TeamNameRaw { name, team_code, file_code, abbreviation, team_name, short_name, franchise_name, club_name } =
            self;
        let inner = UnhydratedTeamName { name };
        match (team_code, abbreviation, team_name, short_name) {
            (Some(team_code), Some(abbreviation), Some(team_name), Some(short_name)) => {
                let file_code = match file_code {
                    Some(f) => f,
                    None => {
                        let mut f = String::new();
                        push_char(&mut f, 't');
                        push_dec(&mut f, id.0 as u64);
                        f
                    },
                };
                let franchise_name = match franchise_name {
                    Some(f) => f,
                    None => short_name.clone(),
                };
                let club_name = match club_name {
                    Some(c) => c,
                    None => team_name.clone(),
                };
                TeamName::Hydrated(
                    HydratedTeamName {
                        inner,
                        team_code,
                        file_code,
                        abbreviation,
                        team_name,
                        short_name,
                        franchise_name,
                        club_name,
                    },
                )
            },
            _ => TeamName::Unhydrated(inner),
        }
    }
}

impl TeamName {
    /// The full name of the team.
    pub fn name(&self) -> (res: &String)
        ensures
            res@ == full_name(*self),
    {
        match self {
            TeamName::Hydrated(h) => &h.inner.name,
            TeamName::Unhydrated(u) => &u.name,
        }
    }
}

/// A team name with its full name replaced, all else kept.
pub open spec fn with_full_name(n: TeamName, u: UnhydratedTeamName) -> TeamName {
    match n {
        TeamName::Hydrated(h) => TeamName::Hydrated(HydratedTeamName { inner: u, ..h }),
        TeamName::Unhydrated(_) => TeamName::Unhydrated(u),
    }
}

/// The full name part of a team name, whichever form it came in.
pub open spec fn full_name_part(n: TeamName) -> UnhydratedTeamName {
    match n {
        TeamName::Hydrated(h) => h.inner,
        TeamName::Unhydrated(u) => u,
    }
}

impl TeamName {
    /// The full name part of the team name, to change in place.
    pub fn name_mut(&mut self) -> (res: &mut UnhydratedTeamName)
        ensures
            *res == full_name_part(*old(self)),
            *final(self) == with_full_name(*old(self), *final(res)),
    {
        match self {
            TeamName::Hydrated(h) => &mut h.inner,
            TeamName::Unhydrated(u) => u,
        }
    }
}

impl PartialEq for TeamName {
    /// Two names are the same where the full names are.
    fn eq(&self, other: &Self) -> (res: bool) {
        *self.name() == *other.name()
    }
}

impl vstd::std_specs::cmp::PartialEqSpecImpl for TeamName {
    open spec fn obeys_eq_spec() -> bool {
        true
    }

    open spec fn eq_spec(&self, other: &Self) -> bool {
        full_name(*self) == full_name(*other)
    }
}

/// A team known only by its identifier.
#[derive(Debug, PartialEq, Eq, Structural, Copy, Clone)]
pub struct IdentifiableTeam {
    pub id: TeamId,
}

/// A team with its names.
#[derive(Debug, Clone)]
pub struct NamedTeam {
    pub name: TeamName,
    pub inner: IdentifiableTeam,
}

/// A named team as a response gives it, before its names are completed.
#[derive(Debug, Clone)]
pub struct NamedTeamRaw {
    pub name: TeamNameRaw,
    pub inner: IdentifiableTeam,
}

impl NamedTeam {
    /// Completes the names of a team, as [`TeamNameRaw::initialize`] does.
    pub fn from_raw(raw: NamedTeamRaw) -> (res: Self)
        ensures
            res.inner == raw.inner,
            initialized_name(raw.name, raw.inner.id, res.name),
    {
        let NamedTeamRaw { name, inner } = raw;
        NamedTeam { name: name.initialize(inner.id), inner }
    }
}

/// A parent organization of a team.
#[derive(Debug, Clone)]
pub struct NamedOrganization {
    pub name: String,
    pub id: OrganizationId,
}

/// A parent organization, with as much as the response held of it.
#[derive(Debug, Clone)]
pub enum Organization {
    NamedOrganization(NamedOrganization),
}

impl Organization {
    /// The identifier of the organization.
    pub fn id(&self) -> (res: OrganizationId)
        ensures
            self matches Organization::NamedOrganization(o) && res == o.id,
    {
        match self {
            Organization::NamedOrganization(o) => o.id,
        }
    }
}

impl PartialEq for Organization {
    /// Two organizations are the same where their identifiers are.
    fn eq(&self, other: &Self) -> (res: bool) {
        self.id().0 == other.id().0
    }
}

impl vstd::std_specs::cmp::PartialEqSpecImpl for Organization {
    open spec fn obeys_eq_spec() -> bool {
        true
    }

    open spec fn eq_spec(&self, other: &Self) -> bool {
        match (*self, *other) {
            (Organization::NamedOrganization(a), Organization::NamedOrganization(b)) => a.id == b.id,
        }
    }
}

/// A team as a response gives it, before its names are completed and its first year known.
#[derive(Debug, Clone)]
pub struct RegularTeamRaw {
    pub all_star_status: bool,
    pub active: bool,
    pub season: u16,
    pub venue: NamedVenue,
    pub name: TeamNameRaw,
    pub location_name: Option<String>,
    pub first_year_of_play: Option<u16>,
    pub league: NamedLeague,
    pub division: Option<NamedDivision>,
    pub sport: NamedSport,
    pub parent_organization: Option<Organization>,
    pub inner: NamedTeam,
}

/// A team with everything the API tells of it.
#[derive(Debug, Clone)]
pub struct RegularTeam {
    pub all_star_status: bool,
    pub active: bool,
    pub season: u16,
    pub venue: NamedVenue,
    pub name: TeamName,
    pub location_name: Option<String>,
    pub first_year_of_play: u16,
    pub league: NamedLeague,
    pub division: Option<NamedDivision>,
    pub sport: NamedSport,
    pub parent_organization: Option<Organization>,
    pub inner: NamedTeam,
}

impl RegularTeam {
    /// Completes a team: its names are completed as [`TeamNameRaw::initialize`] does, with
    /// the team's identifier, and its first year of play defaults to the season.
    pub fn from_raw(raw: RegularTeamRaw) -> (res: Self)
        ensures
            res.all_star_status == raw.all_star_status,
            res.active == raw.active,
            res.season == raw.season,
            res.venue == raw.venue,
            initialized_name(raw.name, raw.inner.inner.id, res.name),
            res.location_name == raw.location_name,
            res.first_year_of_play == match raw.first_year_of_play {
                Some(y) => y,
                None => raw.season,
            },
            res.league == raw.league,
            res.division == raw.division,
            res.sport == raw.sport,
            res.parent_organization == raw.parent_organization,
            res.inner == raw.inner,
    {
        let RegularTeamRaw {
            all_star_status,
            active,
            season,
            venue,
            name,
            location_name,
            first_year_of_play,
            league,
            division,
            sport,
            parent_organization,
            inner,
        } = raw;
        let id = inner.inner.id;
        RegularTeam {
            all_star_status,
            active,
            season,
            venue,
            name: name.initialize(id),
            location_name,
            first_year_of_play: match first_year_of_play {
                Some(y) => y,
                None => season,
            },
            league,
            division,
            sport,
            parent_organization,
            inner,
        }
    }
}

/// An MLB team: a team with its spring training venue and league.
#[derive(Debug, Clone)]
pub struct MLBTeam {
    pub spring_venue: NamedVenue,
    pub spring_league: NamedLeague,
    pub inner: RegularTeam,
}

/// A team, with as much as the response held of it.
#[derive(Debug, Clone)]
pub enum Team {
    MLB(MLBTeam),
    Regular(RegularTeam),
    Named(NamedTeam),
    Identifiable(IdentifiableTeam),
}

/// The identifier of a team, whichever form it came in.
pub open spec fn team_id(t: Team) -> TeamId {
    match t {
        Team::MLB(m) => m.inner.inner.inner.id,
        Team::Regular(r) => r.inner.inner.id,
        Team::Named(n) => n.inner.id,
        Team::Identifiable(i) => i.id,
    }
}

impl Team {
    /// The identifier of the team.
    pub fn id(&self) -> (res: TeamId)
        ensures
            res == team_id(*self),
    {
        match self {
            Team::MLB(m) => m.inner.inner.inner.id,
            Team::Regular(r) => r.inner.inner.id,
            Team::Named(n) => n.inner.id,
            Team::Identifiable(i) => i.id,
        }
    }
}

/// The identifiable part of a team, whichever form it came in.
pub open spec fn team_identity(t: Team) -> IdentifiableTeam {
    match t {
        Team::MLB(m) => m.inner.inner.inner,
        Team::Regular(r) => r.inner.inner,
        Team::Named(n) => n.inner,
        Team::Identifiable(i) => i,
    }
}

/// A team with its identifiable part replaced, all else kept.
pub open spec fn with_team_identity(t: Team, i: IdentifiableTeam) -> Team {
    match t {
        Team::MLB(m) => Team::MLB(
            MLBTeam {
                inner: RegularTeam { inner: NamedTeam { inner: i, ..m.inner.inner }, ..m.inner },
                ..m
            },
        ),
        Team::Regular(r) => Team::Regular(RegularTeam { inner: NamedTeam { inner: i, ..r.inner }, ..r }),
        Team::Named(n) => Team::Named(NamedTeam { inner: i, ..n }),
        Team::Identifiable(_) => Team::Identifiable(i),
    }
}

impl Team {
    /// The identifiable part of the team, to change in place.
    pub fn identity_mut(&mut self) -> (res: &mut IdentifiableTeam)
        ensures
            *res == team_identity(*old(self)),
            *final(self) == with_team_identity(*old(self), *final(res)),
    {
        match self {
            Team::MLB(m) => &mut m.inner.inner.inner,
            Team::Regular(r) => &mut r.inner.inner,
            Team::Named(n) => &mut n.inner,
            Team::Identifiable(i) => i,
        }
    }
}

impl PartialEq for Team {
    /// Two teams are the same where their identifiers are.
    fn eq(&self, other: &Self) -> (res: bool) {
        self.id().0 == other.id().0
    }
}

impl vstd::std_specs::cmp::PartialEqSpecImpl for Team {
    open spec fn obeys_eq_spec() -> bool {
        true
    }

    open spec fn eq_spec(&self, other: &Self) -> bool {
        team_id(*self) == team_id(*other)
    }
}

/// The response of the `teams` endpoint and of the requests that list teams.
#[derive(Debug, Clone)]
pub struct TeamsResponse {
    pub copyright: Copyright,
    pub teams: Vec<Team>,
}

} // verus!
