//! Identifiers of the entities of the API.

use vstd::prelude::*;
use crate::text::dec_string;
use crate::text::dec;
use crate::request::{NumericId, TextId};

verus! {

/// A sport, such as MLB (1) or Triple-A (11).
#[derive(Debug, PartialEq, Eq, Structural, PartialOrd, Ord, Copy, Clone, Hash)]
pub struct SportId(pub u32);

impl SportId {
    /// Wraps a raw identifier.
    pub fn new(id: u32) -> (res: Self)
        ensures
            res.0 == id,
    {
        SportId(id)
    }

    /// The identifier in decimal, as it is written in request URLs.
    pub fn to_string(&self) -> (res: String)
        ensures
            res@ == dec(self.0 as nat),
    {
        dec_string(self.0 as u64)
    }
}

/// A team.
#[derive(Debug, PartialEq, Eq, Structural, PartialOrd, Ord, Copy, Clone, Hash)]
pub struct TeamId(pub u32);

impl TeamId {
    /// Wraps a raw identifier.
    pub fn new(id: u32) -> (res: Self)
        ensures
            res.0 == id,
    {
        TeamId(id)
    }

    /// The identifier in decimal, as it is written in request URLs.
    pub fn to_string(&self) -> (res: String)
        ensures
            res@ == dec(self.0 as nat),
    {
        dec_string(self.0 as u64)
    }
}

/// A league, such as the American League (103).
#[derive(Debug, PartialEq, Eq, Structural, PartialOrd, Ord, Copy, Clone, Hash)]
pub struct LeagueId(pub u32);

impl LeagueId {
    /// Wraps a raw identifier.
    pub fn new(id: u32) -> (res: Self)
        ensures
            res.0 == id,
    {
        LeagueId(id)
    }

    /// The identifier in decimal, as it is written in request URLs.
    pub fn to_string(&self) -> (res: String)
        ensures
            res@ == dec(self.0 as nat),
    {
        dec_string(self.0 as u64)
    }
}

/// A season, written as its year.
#[derive(Debug, PartialEq, Eq, Structural, PartialOrd, Ord, Copy, Clone, Hash)]
pub struct SeasonId(pub u32);

impl SeasonId {
    /// Wraps a raw identifier.
    pub fn new(id: u32) -> (res: Self)
        ensures
            res.0 == id,
    {
        SeasonId(id)
    }

    /// The identifier in decimal, as it is written in request URLs.
    pub fn to_string(&self) -> (res: String)
        ensures
            res@ == dec(self.0 as nat),
    {
        dec_string(self.0 as u64)
    }
}

/// A person: player, coach, umpire, etc.
#[derive(Debug, PartialEq, Eq, Structural, PartialOrd, Ord, Copy, Clone, Hash)]
pub struct PersonId(pub u32);

impl PersonId {
    /// Wraps a raw identifier.
    pub fn new(id: u32) -> (res: Self)
        ensures
            res.0 == id,
    {
        PersonId(id)
    }

    /// The identifier in decimal, as it is written in request URLs.
    pub fn to_string(&self) -> (res: String)
        ensures
            res@ == dec(self.0 as nat),
    {
        dec_string(self.0 as u64)
    }
}

/// A baseball game, independent of the sport.
#[derive(Debug, PartialEq, Eq, Structural, PartialOrd, Ord, Copy, Clone, Hash)]
pub struct GameId(pub u32);

impl GameId {
    /// Wraps a raw identifier.
    pub fn new(id: u32) -> (res: Self)
        ensures
            res.0 == id,
    {
        GameId(id)
    }

    /// The identifier in decimal, as it is written in request URLs.
    pub fn to_string(&self) -> (res: String)
        ensures
            res@ == dec(self.0 as nat),
    {
        dec_string(self.0 as u64)
    }
}

/// A venue, such as a ballpark.
#[derive(Debug, PartialEq, Eq, Structural, PartialOrd, Ord, Copy, Clone, Hash)]
pub struct VenueId(pub u32);

impl VenueId {
    /// Wraps a raw identifier.
    pub fn new(id: u32) -> (res: Self)
        ensures
            res.0 == id,
    {
        VenueId(id)
    }

    /// The identifier in decimal, as it is written in request URLs.
    pub fn to_string(&self) -> (res: String)
        ensures
            res@ == dec(self.0 as nat),
    {
        dec_string(self.0 as u64)
    }
}

/// A division of a league.
#[derive(Debug, PartialEq, Eq, Structural, PartialOrd, Ord, Copy, Clone, Hash)]
pub struct DivisionId(pub u32);

impl DivisionId {
    /// Wraps a raw identifier.
    pub fn new(id: u32) -> (res: Self)
        ensures
            res.0 == id,
    {
        DivisionId(id)
    }

    /// The identifier in decimal, as it is written in request URLs.
    pub fn to_string(&self) -> (res: String)
        ensures
            res@ == dec(self.0 as nat),
    {
        dec_string(self.0 as u64)
    }
}

/// A conference.
#[derive(Debug, PartialEq, Eq, Structural, PartialOrd, Ord, Copy, Clone, Hash)]
pub struct ConferenceId(pub u32);

impl ConferenceId {
    /// Wraps a raw identifier.
    pub fn new(id: u32) -> (res: Self)
        ensures
            res.0 == id,
    {
        ConferenceId(id)
    }

    /// The identifier in decimal, as it is written in request URLs.
    pub fn to_string(&self) -> (res: String)
        ensures
            res@ == dec(self.0 as nat),
    {
        dec_string(self.0 as u64)
    }
}

/// A parent organization of a team.
#[derive(Debug, PartialEq, Eq, Structural, PartialOrd, Ord, Copy, Clone, Hash)]
pub struct OrganizationId(pub u16);

impl OrganizationId {
    /// Wraps a raw identifier.
    pub fn new(id: u16) -> (res: Self)
        ensures
            res.0 == id,
    {
        OrganizationId(id)
    }

    /// The identifier in decimal, as it is written in request URLs.
    pub fn to_string(&self) -> (res: String)
        ensures
            res@ == dec(self.0 as nat),
    {
        dec_string(self.0 as u64)
    }
}

/// A transaction, such as a trade or a roster move.
#[derive(Debug, PartialEq, Eq, Structural, PartialOrd, Ord, Copy, Clone, Hash)]
pub struct TransactionId(pub u32);

impl TransactionId {
    /// Wraps a raw identifier.
    pub fn new(id: u32) -> (res: Self)
        ensures
            res.0 == id,
    {
        TransactionId(id)
    }

    /// The identifier in decimal, as it is written in request URLs.
    pub fn to_string(&self) -> (res: String)
        ensures
            res@ == dec(self.0 as nat),
    {
        dec_string(self.0 as u64)
    }
}

/// A uniform asset.
#[derive(Debug, PartialEq, Eq, Structural, PartialOrd, Ord, Copy, Clone, Hash)]
pub struct UniformAssetId(pub u32);

impl UniformAssetId {
    /// Wraps a raw identifier.
    pub fn new(id: u32) -> (res: Self)
        ensures
            res.0 == id,
    {
        UniformAssetId(id)
    }

    /// The identifier in decimal, as it is written in request URLs.
    pub fn to_string(&self) -> (res: String)
        ensures
            res@ == dec(self.0 as nat),
    {
        dec_string(self.0 as u64)
    }
}

/// A category of uniform assets.
#[derive(Debug, PartialEq, Eq, Structural, PartialOrd, Ord, Copy, Clone, Hash)]
pub struct UniformAssetCategoryId(pub u32);

impl UniformAssetCategoryId {
    /// Wraps a raw identifier.
    pub fn new(id: u32) -> (res: Self)
        ensures
            res.0 == id,
    {
        UniformAssetCategoryId(id)
    }

    /// The identifier in decimal, as it is written in request URLs.
    pub fn to_string(&self) -> (res: String)
        ensures
            res@ == dec(self.0 as nat),
    {
        dec_string(self.0 as u64)
    }
}

/// A player on the EBIS system.
#[derive(Debug, PartialEq, Eq, Structural, PartialOrd, Ord, Copy, Clone, Hash)]
pub struct EBISPersonId(pub u32);

impl EBISPersonId {
    /// Wraps a raw identifier.
    pub fn new(id: u32) -> (res: Self)
        ensures
            res.0 == id,
    {
        EBISPersonId(id)
    }

    /// The identifier in decimal, as it is written in request URLs.
    pub fn to_string(&self) -> (res: String)
        ensures
            res@ == dec(self.0 as nat),
    {
        dec_string(self.0 as u64)
    }
}

/// A device-property asset.
#[derive(Debug, PartialEq, Eq, Structural, PartialOrd, Ord, Copy, Clone, Hash)]
pub struct AssetId(pub u32);

impl AssetId {
    /// Wraps a raw identifier.
    pub fn new(id: u32) -> (res: Self)
        ensures
            res.0 == id,
    {
        AssetId(id)
    }

    /// The identifier in decimal, as it is written in request URLs.
    pub fn to_string(&self) -> (res: String)
        ensures
            res@ == dec(self.0 as nat),
    {
        dec_string(self.0 as u64)
    }
}

/// An award, such as the Cy Young.
#[derive(Debug, Clone, Hash)]
pub struct AwardId(pub String);

impl AwardId {
    /// Wraps a raw identifier.
    pub fn new(id: String) -> (res: Self)
        ensures
            res.0@ == id@,
    {
        AwardId(id)
    }

    /// The identifier, as it is written in request URLs.
    pub fn to_string(&self) -> (res: String)
        ensures
            res@ == self.0@,
    {
        self.0.clone()
    }
}

/// A baseball stat, used as a leader category.
#[derive(Debug, Clone, Hash)]
pub struct BaseballStatId(pub String);

impl BaseballStatId {
    /// Wraps a raw identifier.
    pub fn new(id: String) -> (res: Self)
        ensures
            res.0@ == id@,
    {
        BaseballStatId(id)
    }

    /// The identifier, as it is written in request URLs.
    pub fn to_string(&self) -> (res: String)
        ensures
            res@ == self.0@,
    {
        self.0.clone()
    }
}

/// A job type, such as `UMPR` for umpires.
#[derive(Debug, Clone, Hash)]
pub struct JobTypeId(pub String);

impl JobTypeId {
    /// Wraps a raw identifier.
    pub fn new(id: String) -> (res: Self)
        ensures
            res.0@ == id@,
    {
        JobTypeId(id)
    }

    /// The identifier, as it is written in request URLs.
    pub fn to_string(&self) -> (res: String)
        ensures
            res@ == self.0@,
    {
        self.0.clone()
    }
}

/// A roster type, such as `active`.
#[derive(Debug, Clone, Hash)]
pub struct RosterTypeId(pub String);

impl RosterTypeId {
    /// Wraps a raw identifier.
    pub fn new(id: String) -> (res: Self)
        ensures
            res.0@ == id@,
    {
        RosterTypeId(id)
    }

    /// The identifier, as it is written in request URLs.
    pub fn to_string(&self) -> (res: String)
        ensures
            res@ == self.0@,
    {
        self.0.clone()
    }
}

/// The reason of a replay review.
#[derive(Debug, Clone, Hash)]
pub struct ReviewReasonId(pub String);

impl ReviewReasonId {
    /// Wraps a raw identifier.
    pub fn new(id: String) -> (res: Self)
        ensures
            res.0@ == id@,
    {
        ReviewReasonId(id)
    }

    /// The identifier, as it is written in request URLs.
    pub fn to_string(&self) -> (res: String)
        ensures
            res@ == self.0@,
    {
        self.0.clone()
    }
}

/// A wind direction, such as `Out To CF`.
#[derive(Debug, Clone, Hash)]
pub struct WindDirectionId(pub String);

impl WindDirectionId {
    /// Wraps a raw identifier.
    pub fn new(id: String) -> (res: Self)
        ensures
            res.0@ == id@,
    {
        WindDirectionId(id)
    }

    /// The identifier, as it is written in request URLs.
    pub fn to_string(&self) -> (res: String)
        ensures
            res@ == self.0@,
    {
        self.0.clone()
    }
}

/// A fielding position code, used as a draft filter.
#[derive(Debug, Clone, Hash)]
pub struct PositionCode(pub String);

impl PositionCode {
    /// Wraps a raw identifier.
    pub fn new(id: String) -> (res: Self)
        ensures
            res.0@ == id@,
    {
        PositionCode(id)
    }

    /// The identifier, as it is written in request URLs.
    pub fn to_string(&self) -> (res: String)
        ensures
            res@ == self.0@,
    {
        self.0.clone()
    }
}

/// A game type code, such as `R` for the regular season.
#[derive(Debug, Clone, Hash)]
pub struct GameType(pub String);

impl GameType {
    /// Wraps a raw identifier.
    pub fn new(id: String) -> (res: Self)
        ensures
            res.0@ == id@,
    {
        GameType(id)
    }

    /// The identifier, as it is written in request URLs.
    pub fn to_string(&self) -> (res: String)
        ensures
            res@ == self.0@,
    {
        self.0.clone()
    }
}

/// A stat group, such as `hitting`.
#[derive(Debug, Clone, Hash)]
pub struct StatGroup(pub String);

impl StatGroup {
    /// Wraps a raw identifier.
    pub fn new(id: String) -> (res: Self)
        ensures
            res.0@ == id@,
    {
        StatGroup(id)
    }

    /// The identifier, as it is written in request URLs.
    pub fn to_string(&self) -> (res: String)
        ensures
            res@ == self.0@,
    {
        self.0.clone()
    }
}

/// A stat type, such as `season`.
#[derive(Debug, Clone, Hash)]
pub struct StatType(pub String);

impl StatType {
    /// Wraps a raw identifier.
    pub fn new(id: String) -> (res: Self)
        ensures
            res.0@ == id@,
    {
        StatType(id)
    }

    /// The identifier, as it is written in request URLs.
    pub fn to_string(&self) -> (res: String)
        ensures
            res@ == self.0@,
    {
        self.0.clone()
    }
}

/// A pool of players for leader boards, such as `ALL`.
#[derive(Debug, Clone, Hash)]
pub struct PlayerPool(pub String);

impl PlayerPool {
    /// Wraps a raw identifier.
    pub fn new(id: String) -> (res: Self)
        ensures
            res.0@ == id@,
    {
        PlayerPool(id)
    }

    /// The identifier, as it is written in request URLs.
    pub fn to_string(&self) -> (res: String)
        ensures
            res@ == self.0@,
    {
        self.0.clone()
    }
}


impl NumericId for SportId {
    open spec fn num(&self) -> nat {
        self.0 as nat
    }

    fn number(&self) -> (res: u32) {
        self.0 as u32
    }
}

impl NumericId for TeamId {
    open spec fn num(&self) -> nat {
        self.0 as nat
    }

    fn number(&self) -> (res: u32) {
        self.0 as u32
    }
}

impl NumericId for LeagueId {
    open spec fn num(&self) -> nat {
        self.0 as nat
    }

    fn number(&self) -> (res: u32) {
        self.0 as u32
    }
}

impl NumericId for SeasonId {
    open spec fn num(&self) -> nat {
        self.0 as nat
    }

    fn number(&self) -> (res: u32) {
        self.0 as u32
    }
}

impl NumericId for PersonId {
    open spec fn num(&self) -> nat {
        self.0 as nat
    }

    fn number(&self) -> (res: u32) {
        self.0 as u32
    }
}

impl NumericId for GameId {
    open spec fn num(&self) -> nat {
        self.0 as nat
    }

    fn number(&self) -> (res: u32) {
        self.0 as u32
    }
}

impl NumericId for VenueId {
    open spec fn num(&self) -> nat {
        self.0 as nat
    }

    fn number(&self) -> (res: u32) {
        self.0 as u32
    }
}

impl NumericId for DivisionId {
    open spec fn num(&self) -> nat {
        self.0 as nat
    }

    fn number(&self) -> (res: u32) {
        self.0 as u32
    }
}

impl NumericId for ConferenceId {
    open spec fn num(&self) -> nat {
        self.0 as nat
    }

    fn number(&self) -> (res: u32) {
        self.0 as u32
    }
}

impl NumericId for OrganizationId {
    open spec fn num(&self) -> nat {
        self.0 as nat
    }

    fn number(&self) -> (res: u32) {
        self.0 as u32
    }
}

impl NumericId for TransactionId {
    open spec fn num(&self) -> nat {
        self.0 as nat
    }

    fn number(&self) -> (res: u32) {
        self.0 as u32
    }
}

impl NumericId for UniformAssetId {
    open spec fn num(&self) -> nat {
        self.0 as nat
    }

    fn number(&self) -> (res: u32) {
        self.0 as u32
    }
}

impl NumericId for UniformAssetCategoryId {
    open spec fn num(&self) -> nat {
        self.0 as nat
    }

    fn number(&self) -> (res: u32) {
        self.0 as u32
    }
}

impl NumericId for EBISPersonId {
    open spec fn num(&self) -> nat {
        self.0 as nat
    }

    fn number(&self) -> (res: u32) {
        self.0 as u32
    }
}

impl NumericId for AssetId {
    open spec fn num(&self) -> nat {
        self.0 as nat
    }

    fn number(&self) -> (res: u32) {
        self.0 as u32
    }
}

impl PartialEq for AwardId {
    /// Two identifiers are the same where their texts are.
    fn eq(&self, other: &Self) -> (res: bool) {
        self.0 == other.0
    }
}

impl Eq for AwardId {}

impl vstd::std_specs::cmp::PartialEqSpecImpl for AwardId {
    open spec fn obeys_eq_spec() -> bool {
        true
    }

    open spec fn eq_spec(&self, other: &Self) -> bool {
        self.0@ == other.0@
    }
}

impl TextId for AwardId {
    open spec fn text(&self) -> Seq<char> {
        self.0@
    }

    fn as_text(&self) -> (res: &str) {
        self.0.as_str()
    }
}

impl PartialEq for BaseballStatId {
    /// Two identifiers are the same where their texts are.
    fn eq(&self, other: &Self) -> (res: bool) {
        self.0 == other.0
    }
}

impl Eq for BaseballStatId {}

impl vstd::std_specs::cmp::PartialEqSpecImpl for BaseballStatId {
    open spec fn obeys_eq_spec() -> bool {
        true
    }

    open spec fn eq_spec(&self, other: &Self) -> bool {
        self.0@ == other.0@
    }
}

impl TextId for BaseballStatId {
    open spec fn text(&self) -> Seq<char> {
        self.0@
    }

    fn as_text(&self) -> (res: &str) {
        self.0.as_str()
    }
}

impl PartialEq for JobTypeId {
    /// Two identifiers are the same where their texts are.
    fn eq(&self, other: &Self) -> (res: bool) {
        self.0 == other.0
    }
}

impl Eq for JobTypeId {}

impl vstd::std_specs::cmp::PartialEqSpecImpl for JobTypeId {
    open spec fn obeys_eq_spec() -> bool {
        true
    }

    open spec fn eq_spec(&self, other: &Self) -> bool {
        self.0@ == other.0@
    }
}

impl TextId for JobTypeId {
    open spec fn text(&self) -> Seq<char> {
        self.0@
    }

    fn as_text(&self) -> (res: &str) {
        self.0.as_str()
    }
}

impl PartialEq for RosterTypeId {
    /// Two identifiers are the same where their texts are.
    fn eq(&self, other: &Self) -> (res: bool) {
        self.0 == other.0
    }
}

impl Eq for RosterTypeId {}

impl vstd::std_specs::cmp::PartialEqSpecImpl for RosterTypeId {
    open spec fn obeys_eq_spec() -> bool {
        true
    }

    open spec fn eq_spec(&self, other: &Self) -> bool {
        self.0@ == other.0@
    }
}

impl TextId for RosterTypeId {
    open spec fn text(&self) -> Seq<char> {
        self.0@
    }

    fn as_text(&self) -> (res: &str) {
        self.0.as_str()
    }
}

impl PartialEq for ReviewReasonId {
    /// Two identifiers are the same where their texts are.
    fn eq(&self, other: &Self) -> (res: bool) {
        self.0 == other.0
    }
}

impl Eq for ReviewReasonId {}

impl vstd::std_specs::cmp::PartialEqSpecImpl for ReviewReasonId {
    open spec fn obeys_eq_spec() -> bool {
        true
    }

    open spec fn eq_spec(&self, other: &Self) -> bool {
        self.0@ == other.0@
    }
}

impl TextId for ReviewReasonId {
    open spec fn text(&self) -> Seq<char> {
        self.0@
    }

    fn as_text(&self) -> (res: &str) {
        self.0.as_str()
    }
}

impl PartialEq for WindDirectionId {
    /// Two identifiers are the same where their texts are.
    fn eq(&self, other: &Self) -> (res: bool) {
        self.0 == other.0
    }
}

impl Eq for WindDirectionId {}

impl vstd::std_specs::cmp::PartialEqSpecImpl for WindDirectionId {
    open spec fn obeys_eq_spec() -> bool {
        true
    }

    open spec fn eq_spec(&self, other: &Self) -> bool {
        self.0@ == other.0@
    }
}

impl TextId for WindDirectionId {
    open spec fn text(&self) -> Seq<char> {
        self.0@
    }

    fn as_text(&self) -> (res: &str) {
        self.0.as_str()
    }
}

impl PartialEq for PositionCode {
    /// Two identifiers are the same where their texts are.
    fn eq(&self, other: &Self) -> (res: bool) {
        self.0 == other.0
    }
}

impl Eq for PositionCode {}

impl vstd::std_specs::cmp::PartialEqSpecImpl for PositionCode {
    open spec fn obeys_eq_spec() -> bool {
        true
    }

    open spec fn eq_spec(&self, other: &Self) -> bool {
        self.0@ == other.0@
    }
}

impl TextId for PositionCode {
    open spec fn text(&self) -> Seq<char> {
        self.0@
    }

    fn as_text(&self) -> (res: &str) {
        self.0.as_str()
    }
}

impl PartialEq for GameType {
    /// Two identifiers are the same where their texts are.
    fn eq(&self, other: &Self) -> (res: bool) {
        self.0 == other.0
    }
}

impl Eq for GameType {}

impl vstd::std_specs::cmp::PartialEqSpecImpl for GameType {
    open spec fn obeys_eq_spec() -> bool {
        true
    }

    open spec fn eq_spec(&self, other: &Self) -> bool {
        self.0@ == other.0@
    }
}

impl TextId for GameType {
    open spec fn text(&self) -> Seq<char> {
        self.0@
    }

    fn as_text(&self) -> (res: &str) {
        self.0.as_str()
    }
}

impl PartialEq for StatGroup {
    /// Two identifiers are the same where their texts are.
    fn eq(&self, other: &Self) -> (res: bool) {
        self.0 == other.0
    }
}

impl Eq for StatGroup {}

impl vstd::std_specs::cmp::PartialEqSpecImpl for StatGroup {
    open spec fn obeys_eq_spec() -> bool {
        true
    }

    open spec fn eq_spec(&self, other: &Self) -> bool {
        self.0@ == other.0@
    }
}

impl TextId for StatGroup {
    open spec fn text(&self) -> Seq<char> {
        self.0@
    }

    fn as_text(&self) -> (res: &str) {
        self.0.as_str()
    }
}

impl PartialEq for StatType {
    /// Two identifiers are the same where their texts are.
    fn eq(&self, other: &Self) -> (res: bool) {
        self.0 == other.0
    }
}

impl Eq for StatType {}

impl vstd::std_specs::cmp::PartialEqSpecImpl for StatType {
    open spec fn obeys_eq_spec() -> bool {
        true
    }

    open spec fn eq_spec(&self, other: &Self) -> bool {
        self.0@ == other.0@
    }
}

impl TextId for StatType {
    open spec fn text(&self) -> Seq<char> {
        self.0@
    }

    fn as_text(&self) -> (res: &str) {
        self.0.as_str()
    }
}

impl PartialEq for PlayerPool {
    /// Two identifiers are the same where their texts are.
    fn eq(&self, other: &Self) -> (res: bool) {
        self.0 == other.0
    }
}

impl Eq for PlayerPool {}

impl vstd::std_specs::cmp::PartialEqSpecImpl for PlayerPool {
    open spec fn obeys_eq_spec() -> bool {
        true
    }

    open spec fn eq_spec(&self, other: &Self) -> bool {
        self.0@ == other.0@
    }
}

impl TextId for PlayerPool {
    open spec fn text(&self) -> Seq<char> {
        self.0@
    }

    fn as_text(&self) -> (res: &str) {
        self.0.as_str()
    }
}

impl Default for SportId {
    /// MLB, the sport that requests ask for where none is given.
    fn default() -> (res: Self)
        ensures
            res.0 == 1,
    {
        SportId(1)
    }
}

} // verus!
