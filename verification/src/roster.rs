//! Rosters and uniforms of teams.

use vstd::prelude::*;
use crate::ids::{PersonId, RosterTypeId, TeamId, UniformAssetCategoryId, UniformAssetId};
use crate::date::{Date, date_text};
use crate::types::{Copyright, Position, str_eq};
use crate::teams::Team;
use crate::text::{dec, query, opt_views, split_once, split_once_spec, parse_unsigned_spec, parse_u32, holds_entry, kv, lemma_query_holds_entries};
use crate::request::{opt_num_kv, opt_date_kv, opt_num_param, opt_date_param, text_id_param, url_with_query, join_ids, ids_text};
use crate::team_requests::{team_path, team_path_string, opt_small, widen};

verus! {

/// The status of a player on a roster.
#[derive(Debug, PartialEq, Eq, Structural, Copy, Clone)]
pub enum RosterStatus {
    Active,
    Claimed,
    ReassignedToMinors,
    Released,
    MinorLeagueContract,
    InjuryLeave7Day,
    InjuryLeave10Day,
    InjuryLeave15Day,
    InjuryLeave60Day,
    Traded,
    DesignatedForAssignment,
    FreeAgent,
    RestrictedList,
    AssignedToNewTeam,
}

/// The status that a code of the API stands for. Both `D7` and `D10` are read as the 10-day
/// injured list.
pub open spec fn roster_status_of(code: Seq<char>) -> Option<RosterStatus> {
    if code == "A"@ {
        Some(RosterStatus::Active)
    } else if code == "CL"@ {
        Some(RosterStatus::Claimed)
    } else if code == "RM"@ {
        Some(RosterStatus::ReassignedToMinors)
    } else if code == "RL"@ {
        Some(RosterStatus::Released)
    } else if code == "MIN"@ {
        Some(RosterStatus::MinorLeagueContract)
    } else if code == "D7"@ {
        Some(RosterStatus::InjuryLeave10Day)
    } else if code == "D10"@ {
        Some(RosterStatus::InjuryLeave10Day)
    } else if code == "D15"@ {
        Some(RosterStatus::InjuryLeave15Day)
    } else if code == "D60"@ {
        Some(RosterStatus::InjuryLeave60Day)
    } else if code == "TR"@ {
        Some(RosterStatus::Traded)
    } else if code == "DES"@ {
        Some(RosterStatus::DesignatedForAssignment)
    } else if code == "FA"@ {
        Some(RosterStatus::FreeAgent)
    } else if code == "RST"@ {
        Some(RosterStatus::RestrictedList)
    } else if code == "ASG"@ {
        Some(RosterStatus::AssignedToNewTeam)
    } else {
        None
    }
}

/// The message of an unknown status code.
pub open spec fn invalid_code_message(code: Seq<char>, description: Seq<char>) -> Seq<char> {
    "Invalid code '"@ + code + "' (desc: "@ + description + ")"@
}

impl RosterStatus {
    /// Reads a status from its code and description, as the API sends them; an unknown code
    /// gives a message that names it and its description.
    pub fn from_code(code: &str, description: &str) -> (res: Result<RosterStatus, String>)
        ensures
            match res {
                Ok(s) => roster_status_of(code@) == Some(s),
                Err(m) => roster_status_of(code@) is None && m@ == invalid_code_message(code@, description@),
            },
    {
        if str_eq(code, "A") {
            Ok(RosterStatus::Active)
        } else if str_eq(code, "CL") {
            Ok(RosterStatus::Claimed)
        } else if str_eq(code, "RM") {
            Ok(RosterStatus::ReassignedToMinors)
        } else if str_eq(code, "RL") {
            Ok(RosterStatus::Released)
        } else if str_eq(code, "MIN") {
            Ok(RosterStatus::MinorLeagueContract)
        } else if str_eq(code, "D7") {
            Ok(RosterStatus::InjuryLeave10Day)
        } else if str_eq(code, "D10") {
            Ok(RosterStatus::InjuryLeave10Day)
        } else if str_eq(code, "D15") {
            Ok(RosterStatus::InjuryLeave15Day)
        } else if str_eq(code, "D60") {
            Ok(RosterStatus::InjuryLeave60Day)
        } else if str_eq(code, "TR") {
            Ok(RosterStatus::Traded)
        } else if str_eq(code, "DES") {
            Ok(RosterStatus::DesignatedForAssignment)
        } else if str_eq(code, "FA") {
            Ok(RosterStatus::FreeAgent)
        } else if str_eq(code, "RST") {
            Ok(RosterStatus::RestrictedList)
        } else if str_eq(code, "ASG") {
            Ok(RosterStatus::AssignedToNewTeam)
        } else {
            let mut m = String::from_str("Invalid code '");
            m.append(code);
            m.append("' (desc: ");
            m.append(description);
            m.append(")");
            Err(m)
        }
    }
}

/// A player on a roster.
#[derive(Debug, Clone)]
pub struct RosterPlayer {
    pub person: PersonId,
    pub jersey_number: Option<u8>,
    pub position: Position,
    pub status: RosterStatus,
    pub parent_team_id: Option<TeamId>,
}

/// The response of the `roster` endpoint.
#[derive(Debug, Clone)]
pub struct RosterResponse {
    pub copyright: Copyright,
    pub roster: Vec<RosterPlayer>,
    pub team_id: TeamId,
    pub roster_type: RosterTypeId,
}

/// A stint of a player on a team's roster.
#[derive(Debug, Clone)]
pub struct RosterEntry {
    pub position: Position,
    pub status: RosterStatus,
    pub team: Team,
    pub is_active: bool,
    pub is_active_forty_man: bool,
    pub start_date: Date,
    pub end_date: Date,
    pub status_date: Date,
}

/// The request for the roster of a team.
#[derive(Debug, Clone)]
pub struct RosterEndpoint {
    pub team_id: TeamId,
    pub season: Option<u16>,
    pub date: Option<Date>,
    pub roster_type: RosterTypeId,
}

/// The URL of a [`RosterEndpoint`].
pub open spec fn roster_url(r: RosterEndpoint) -> Seq<char> {
    team_path(r.team_id, "/roster"@) + query(
        seq![
            opt_num_kv("season"@, opt_small(r.season)),
            opt_date_kv("date"@, r.date),
            Some(crate::text::kv("rosterType"@, r.roster_type.0@)),
        ],
    )
}

/// The URL of a roster request names the team, and its query holds the season and the date
/// where they are given, and the roster type.
pub proof fn lemma_roster_url_holds_filters(r: RosterEndpoint)
    ensures
        ("http://statsapi.mlb.com/api/v1/teams/"@ + dec(r.team_id.0 as nat) + "/roster"@).is_prefix_of(roster_url(r)),
        r.season matches Some(s) ==> holds_entry(roster_url(r), kv("season"@, dec(s as nat))),
        r.date matches Some(d) ==> holds_entry(roster_url(r), kv("date"@, date_text(d@.0, d@.1, d@.2))),
        holds_entry(roster_url(r), kv("rosterType"@, r.roster_type.0@)),
{
    let base = team_path(r.team_id, "/roster"@);
    let pieces = seq![
        opt_num_kv("season"@, opt_small(r.season)),
        opt_date_kv("date"@, r.date),
        Some(kv("rosterType"@, r.roster_type.0@)),
    ];
    assert(roster_url(r) == base + query(pieces));
    lemma_query_holds_entries(base, pieces);
    assert(pieces[0] == opt_num_kv("season"@, opt_small(r.season)));
    assert(pieces[1] == opt_date_kv("date"@, r.date));
    assert(pieces[2] == Some(kv("rosterType"@, r.roster_type.0@)));
    assert(roster_url(r).subrange(0, base.len() as int) =~= base);
}

impl RosterEndpoint {
    /// The URL of the request.
    pub fn to_string(&self) -> (res: String)
        ensures
            res@ == roster_url(*self),
    {
        let pieces = vec![
            opt_num_param("season", widen(self.season)),
            opt_date_param("date", self.date),
            text_id_param("rosterType", &self.roster_type),
        ];
        assert(opt_views(pieces@) =~= seq![
            opt_num_kv("season"@, opt_small(self.season)),
            opt_date_kv("date"@, self.date),
            Some(crate::text::kv("rosterType"@, self.roster_type.0@)),
        ]);
        let base = team_path_string(self.team_id, "/roster");
        url_with_query(base.as_str(), &pieces)
    }
}

/// The response of the `uniforms` endpoint.
#[derive(Debug, Clone)]
pub struct UniformsResponse {
    pub copyright: Copyright,
    pub teams: Vec<TeamUniformAssets>,
}

/// The uniform assets of one team.
#[derive(Debug, Clone)]
pub struct TeamUniformAssets {
    pub team_id: TeamId,
    pub uniform_assets: Vec<UniformAsset>,
}

/// A uniform asset known by its identifier and code.
#[derive(Debug, Clone)]
pub struct IdentifiableUniformAsset {
    pub id: UniformAssetId,
    pub code: String,
}

/// The category of a uniform asset.
#[derive(Debug, Clone)]
pub struct UniformAssetCategory {
    pub name: String,
    pub code: String,
    pub description: String,
    pub id: UniformAssetCategoryId,
}

/// A uniform asset with everything the API tells of it.
#[derive(Debug, Clone)]
pub struct HydratedUniformAsset {
    pub name: String,
    pub category: UniformAssetCategory,
    pub inner: IdentifiableUniformAsset,
}

/// A uniform asset, with as much as the response held of it.
#[derive(Debug, Clone)]
pub enum UniformAsset {
    Hydrated(HydratedUniformAsset),
    Identifiable(IdentifiableUniformAsset),
}

/// The identifier of a uniform asset, whichever form it came in.
pub open spec fn uniform_asset_id(u: UniformAsset) -> UniformAssetId {
    match u {
        UniformAsset::Hydrated(h) => h.inner.id,
        UniformAsset::Identifiable(i) => i.id,
    }
}

/// The team a uniform asset code names: the number before its first `_`, or 0 where there is
/// no such number.
pub open spec fn uniform_code_team(code: Seq<char>) -> nat {
    match split_once_spec(code, "_"@) {
        Some((num, _rest)) => match parse_unsigned_spec(num, u32::MAX as nat) {
            Some(v) => v,
            None => 0,
        },
        None => 0,
    }
}

impl UniformAsset {
    /// The identifier of the asset.
    pub fn id(&self) -> (res: UniformAssetId)
        ensures
            res == uniform_asset_id(*self),
    {
        match self {
            UniformAsset::Hydrated(h) => h.inner.id,
            UniformAsset::Identifiable(i) => i.id,
        }
    }

    /// The request that gives the asset with the given code: the uniforms of the team whose
    /// number begins the code, such as 147 for `147_...`, or of team 0 where none does.
    pub fn url_for_id(code: &str) -> (res: UniformsEndpoint)
        ensures
            res.teams@.len() == 1,
            res.teams@[0].0 as nat == uniform_code_team(code@),
            res.season is None,
    {
        proof {
            reveal_strlit("_");
        }
        let team = match split_once(code, "_") {
            Some((num, _rest)) => match parse_u32(num) {
                Some(v) => v,
                None => 0,
            },
            None => 0,
        };
        UniformsEndpoint { teams: vec![TeamId(team)], season: None }
    }
}

/// The identifiable part of a uniform asset, whichever form it came in.
pub open spec fn uniform_identity(u: UniformAsset) -> IdentifiableUniformAsset {
    match u {
        UniformAsset::Hydrated(h) => h.inner,
        UniformAsset::Identifiable(i) => i,
    }
}

/// A uniform asset with its identifiable part replaced, all else kept.
pub open spec fn with_uniform_identity(u: UniformAsset, i: IdentifiableUniformAsset) -> UniformAsset {
    match u {
        UniformAsset::Hydrated(h) => UniformAsset::Hydrated(HydratedUniformAsset { inner: i, ..h }),
        UniformAsset::Identifiable(_) => UniformAsset::Identifiable(i),
    }
}

impl UniformAsset {
    /// The identifiable part of the asset, to change in place.
    pub fn identity_mut(&mut self) -> (res: &mut IdentifiableUniformAsset)
        ensures
            *res == uniform_identity(*old(self)),
            *final(self) == with_uniform_identity(*old(self), *final(res)),
    {
        match self {
            UniformAsset::Hydrated(h) => &mut h.inner,
            UniformAsset::Identifiable(i) => i,
        }
    }
}

impl PartialEq for UniformAsset {
    /// Two assets are the same where their identifiers are.
    fn eq(&self, other: &Self) -> (res: bool) {
        self.id().0 == other.id().0
    }
}

impl vstd::std_specs::cmp::PartialEqSpecImpl for UniformAsset {
    open spec fn obeys_eq_spec() -> bool {
        true
    }

    open spec fn eq_spec(&self, other: &Self) -> bool {
        uniform_asset_id(*self) == uniform_asset_id(*other)
    }
}

/// The request for the uniforms of teams.
#[derive(Debug, Clone)]
pub struct UniformsEndpoint {
    pub teams: Vec<TeamId>,
    pub season: Option<u16>,
}

/// The URL of a [`UniformsEndpoint`].
pub open spec fn uniforms_url(r: UniformsEndpoint) -> Seq<char> {
    "http://statsapi.mlb.com/api/v1/uniforms/team"@ + query(
        seq![Some(crate::text::kv("teamIds"@, ids_text(r.teams@))), opt_num_kv("season"@, opt_small(r.season))],
    )
}

/// The uniforms URL names every requested team, joined by commas, and the season where one
/// is given.
pub proof fn lemma_uniforms_url_holds_filters(r: UniformsEndpoint)
    ensures
        "http://statsapi.mlb.com/api/v1/uniforms/team"@.is_prefix_of(uniforms_url(r)),
        holds_entry(uniforms_url(r), kv("teamIds"@, ids_text(r.teams@))),
        r.season matches Some(s) ==> holds_entry(uniforms_url(r), kv("season"@, dec(s as nat))),
{
    let base = "http://statsapi.mlb.com/api/v1/uniforms/team"@;
    let pieces = seq![Some(kv("teamIds"@, ids_text(r.teams@))), opt_num_kv("season"@, opt_small(r.season))];
    assert(uniforms_url(r) == base + query(pieces));
    lemma_query_holds_entries(base, pieces);
    assert(pieces[0] == Some(kv("teamIds"@, ids_text(r.teams@))));
    assert(pieces[1] == opt_num_kv("season"@, opt_small(r.season)));
    assert(uniforms_url(r).subrange(0, base.len() as int) =~= base);
}

impl UniformsEndpoint {
    /// The URL of the request.
    pub fn to_string(&self) -> (res: String)
        ensures
            res@ == uniforms_url(*self),
    {
        let ids = join_ids(&self.teams);
        let pieces = vec![Some(crate::text::param("teamIds", ids.as_str())), opt_num_param("season", widen(self.season))];
        assert(opt_views(pieces@) =~= seq![
            Some(crate::text::kv("teamIds"@, ids_text(self.teams@))),
            opt_num_kv("season"@, opt_small(self.season)),
        ]);
        url_with_query("http://statsapi.mlb.com/api/v1/uniforms/team", &pieces)
    }
}

} // verus!
