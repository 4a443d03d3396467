//! Small types of a game: innings, counts, bases, batting order positions, officials, and how
//! the API writes each of them.

use vstd::prelude::*;
use crate::ids::PersonId;
use crate::date::Date;
use crate::types::str_eq;
use crate::text::{dec, ordinal_suffix, push_char, push_dec, push_nth, push_str, parse_unsigned_spec, parse_unsigned, parse_u32, parse_i32, parse_i32_spec, split_once, split_once_spec};

verus! {

/// Whether a game is part of a double-header, and which game it is.
#[derive(Debug, PartialEq, Eq, Structural, Copy, Clone)]
pub enum DoubleHeaderKind {
    /// Not a double-header (`N`).
    Not,
    /// The first game of a double-header (`Y`).
    FirstGame,
    /// The second game of a double-header (`S`).
    SecondGame,
}

/// The double-header kind that a code of the API stands for.
pub open spec fn double_header_of(code: Seq<char>) -> Option<DoubleHeaderKind> {
    if code == "N"@ {
        Some(DoubleHeaderKind::Not)
    } else if code == "Y"@ {
        Some(DoubleHeaderKind::FirstGame)
    } else if code == "S"@ {
        Some(DoubleHeaderKind::SecondGame)
    } else {
        None
    }
}

impl DoubleHeaderKind {
    /// Reads a double-header kind from its code: `N`, `Y` or `S`.
    pub fn from_code(code: &str) -> (res: Option<DoubleHeaderKind>)
        ensures
            res == double_header_of(code@),
    {
        if str_eq(code, "N") {
            Some(DoubleHeaderKind::Not)
        } else if str_eq(code, "Y") {
            Some(DoubleHeaderKind::FirstGame)
        } else if str_eq(code, "S") {
            Some(DoubleHeaderKind::SecondGame)
        } else {
            None
        }
    }

    /// Whether the game is one of a double-header.
    pub fn is_double_header(self) -> (res: bool)
        ensures
            res == (self == DoubleHeaderKind::FirstGame || self == DoubleHeaderKind::SecondGame),
    {
        match self {
            DoubleHeaderKind::FirstGame | DoubleHeaderKind::SecondGame => true,
            DoubleHeaderKind::Not => false,
        }
    }
}

/// An inning of a game, from 1.
#[derive(Debug, PartialEq, Eq, Structural, Copy, Clone)]
pub struct Inning(pub usize);

impl Inning {
    /// The first inning, where a game starts.
    pub fn starting() -> (res: Inning)
        ensures
            res.0 == 1,
    {
        Inning(1)
    }

    /// The inning as an English ordinal, such as `1st` or `12th`.
    pub fn to_string(&self) -> (res: String)
        ensures
            res@ == dec(self.0 as nat) + ordinal_suffix(self.0 as nat),
    {
        let mut s = String::new();
        push_nth(&mut s, self.0 as u64);
        s
    }
}

/// A half of an inning.
#[derive(Debug, PartialEq, Eq, Structural, Copy, Clone)]
pub enum InningHalf {
    Top,
    Bottom,
}

/// The other half of an inning.
pub open spec fn other_half(h: InningHalf) -> InningHalf {
    match h {
        InningHalf::Top => InningHalf::Bottom,
        InningHalf::Bottom => InningHalf::Top,
    }
}

/// The inning half that a name of the API stands for: `Top` or `top`, `Bottom` or `bottom`.
pub open spec fn inning_half_of(name: Seq<char>) -> Option<InningHalf> {
    if name == "Top"@ || name == "top"@ {
        Some(InningHalf::Top)
    } else if name == "Bottom"@ || name == "bottom"@ {
        Some(InningHalf::Bottom)
    } else {
        None
    }
}

impl InningHalf {
    /// The top half, where an inning starts.
    pub fn starting() -> (res: InningHalf)
        ensures
            res == InningHalf::Top,
    {
        InningHalf::Top
    }

    /// Reads an inning half from its name.
    pub fn from_name(name: &str) -> (res: Option<InningHalf>)
        ensures
            res == inning_half_of(name@),
    {
        if str_eq(name, "Top") || str_eq(name, "top") {
            Some(InningHalf::Top)
        } else if str_eq(name, "Bottom") || str_eq(name, "bottom") {
            Some(InningHalf::Bottom)
        } else {
            None
        }
    }

    /// The other half of the inning.
    pub fn not(self) -> (res: InningHalf)
        ensures
            res == other_half(self),
    {
        match self {
            InningHalf::Top => InningHalf::Bottom,
            InningHalf::Bottom => InningHalf::Top,
        }
    }

    /// A filled arrow for the half: up for the top, down for the bottom.
    pub fn unicode_char_filled(self) -> (res: char)
        ensures
            res == (if self == InningHalf::Top { '\u{25B2}' } else { '\u{25BC}' }),
    {
        match self {
            InningHalf::Top => '\u{25B2}',
            InningHalf::Bottom => '\u{25BC}',
        }
    }

    /// A hollow arrow for the half: up for the top, down for the bottom.
    pub fn unicode_char_empty(self) -> (res: char)
        ensures
            res == (if self == InningHalf::Top { '\u{25B3}' } else { '\u{25BD}' }),
    {
        match self {
            InningHalf::Top => '\u{25B3}',
            InningHalf::Bottom => '\u{25BD}',
        }
    }

    /// The half in three letters: `Top` or `Bot`.
    pub fn three_char(self) -> (res: &'static str)
        ensures
            res@ == (if self == InningHalf::Top { "Top"@ } else { "Bot"@ }),
    {
        match self {
            InningHalf::Top => "Top",
            InningHalf::Bottom => "Bot",
        }
    }
}

/// Taking the other half twice gives back the half, and the other half is never the same.
pub proof fn lemma_other_half_involution(h: InningHalf)
    ensures
        other_half(other_half(h)) == h,
        other_half(h) != h,
{
}

/// The balls, strikes and outs of an at-bat.
#[derive(Debug, PartialEq, Eq, Structural, Copy, Clone)]
pub struct AtBatCount {
    pub balls: u8,
    pub strikes: u8,
    pub outs: u8,
}

/// How a count is written: `{balls}-{strikes} ({outs} out)`.
pub open spec fn count_text(c: AtBatCount) -> Seq<char> {
    dec(c.balls as nat) + seq!['-'] + dec(c.strikes as nat) + " ("@ + dec(c.outs as nat) + " out)"@
}

impl AtBatCount {
    /// The count as it is displayed, such as `3-2 (2 out)`.
    pub fn to_string(&self) -> (res: String)
        ensures
            res@ == count_text(*self),
    {
        let mut s = String::new();
        push_dec(&mut s, self.balls as u64);
        push_char(&mut s, '-');
        push_dec(&mut s, self.strikes as u64);
        push_str(&mut s, " (");
        push_dec(&mut s, self.outs as u64);
        push_str(&mut s, " out)");
        s
    }
}

/// Runs, hits, errors and runners left on base, of a team in an inning or a game.
#[derive(Debug, PartialEq, Eq, Structural, Copy, Clone)]
pub struct RHE {
    pub runs: usize,
    pub hits: usize,
    pub errors: usize,
    pub left_on_base: usize,
    /// Whether the half-inning was played: the home team that leads needs no bottom of the ninth.
    pub was_inning_half_played: bool,
}

/// Runs, hits, errors and runners left on base as a response gives them: no runs where the
/// half-inning was not played.
#[derive(Debug, PartialEq, Eq, Structural, Copy, Clone)]
pub struct RHERaw {
    pub runs: Option<usize>,
    pub hits: usize,
    pub errors: usize,
    pub left_on_base: usize,
}

impl RHE {
    /// Reads a line: no runs given means the half-inning was not played, and counts 0 runs.
    pub fn from_raw(raw: RHERaw) -> (res: RHE)
        ensures
            res.runs == match raw.runs {
                Some(r) => r,
                None => 0,
            },
            res.hits == raw.hits,
            res.errors == raw.errors,
            res.left_on_base == raw.left_on_base,
            res.was_inning_half_played == raw.runs is Some,
    {
        RHE {
            runs: match raw.runs {
                Some(r) => r,
                None => 0,
            },
            hits: raw.hits,
            errors: raw.errors,
            left_on_base: raw.left_on_base,
            was_inning_half_played: raw.runs.is_some(),
        }
    }
}

/// A labelled value of a boxscore, such as `Att: 44,713.`.
#[derive(Debug, Clone)]
pub struct LabelledValue {
    pub label: String,
    pub value: String,
}

/// A titled section of labelled values.
#[derive(Debug, Clone)]
pub struct SectionedLabelledValues {
    pub section: String,
    pub values: Vec<LabelledValue>,
}

/// Flags about a player in the current game.
#[derive(Debug, PartialEq, Eq, Structural, Copy, Clone)]
pub struct PlayerGameStatusFlags {
    pub is_current_batter: bool,
    pub is_current_pitcher: bool,
    pub is_on_bench: bool,
    pub is_substitute: bool,
}

/// Miscellaneous facts about a game.
#[derive(Debug, Clone, Copy)]
pub struct GameInfo {
    pub attendance: Option<u32>,
    pub first_pitch: chrono::NaiveDateTime,
    /// In minutes.
    pub game_duration: Option<u32>,
    /// The length of the delays, in minutes.
    pub delay_duration: Option<u32>,
}

/// Tags about a game, such as a no-hitter or a perfect game in progress.
#[derive(Debug, PartialEq, Eq, Structural, Copy, Clone)]
pub struct GameTags {
    pub no_hitter: bool,
    pub perfect_game: bool,
    pub away_team_no_hitter: bool,
    pub away_team_perfect_game: bool,
    pub home_team_no_hitter: bool,
    pub home_team_perfect_game: bool,
}

/// An umpire of a game and where they stand.
#[derive(Debug, PartialEq, Eq, Structural, Copy, Clone)]
pub struct Official {
    pub official: PersonId,
    pub official_type: OfficialType,
}

/// Where an umpire stands.
#[derive(Debug, PartialEq, Eq, Structural, Copy, Clone)]
pub enum OfficialType {
    HomePlate,
    FirstBase,
    SecondBase,
    ThirdBase,
    LeftField,
    RightField,
}

/// The official type that a name of the API stands for.
pub open spec fn official_type_of(name: Seq<char>) -> Option<OfficialType> {
    if name == "Home Plate"@ {
        Some(OfficialType::HomePlate)
    } else if name == "First Base"@ {
        Some(OfficialType::FirstBase)
    } else if name == "Second Base"@ {
        Some(OfficialType::SecondBase)
    } else if name == "Third Base"@ {
        Some(OfficialType::ThirdBase)
    } else if name == "Left Field"@ {
        Some(OfficialType::LeftField)
    } else if name == "Right Field"@ {
        Some(OfficialType::RightField)
    } else {
        None
    }
}

impl OfficialType {
    /// Reads an official type from its name, such as `Home Plate`.
    pub fn from_name(name: &str) -> (res: Option<OfficialType>)
        ensures
            res == official_type_of(name@),
    {
        if str_eq(name, "Home Plate") {
            Some(OfficialType::HomePlate)
        } else if str_eq(name, "First Base") {
            Some(OfficialType::FirstBase)
        } else if str_eq(name, "Second Base") {
            Some(OfficialType::SecondBase)
        } else if str_eq(name, "Third Base") {
            Some(OfficialType::ThirdBase)
        } else if str_eq(name, "Left Field") {
            Some(OfficialType::LeftField)
        } else if str_eq(name, "Right Field") {
            Some(OfficialType::RightField)
        } else {
            None
        }
    }
}

/// A position in the batting order. The `major` part is the spot in the order; a player who
/// replaces the one in a spot gets a `minor` part one higher than the one before.
///
/// Alice bats first (major 1, minor 0); Bob pinch hits for her (major 1, minor 1); Charlie
/// pinch runs later and stays (major 1, minor 2). A minor part is displayed one higher than it
/// is held, so (1, 1) displays as `1st (2)`.
#[derive(Debug, PartialEq, Eq, Structural, Copy, Clone)]
pub struct BattingOrderIndex {
    pub major: usize,
    pub minor: usize,
}

/// How a batting order position is displayed: the major part as an ordinal, then the minor
/// part plus one in brackets where it is not 0.
pub open spec fn batting_order_text(b: BattingOrderIndex) -> Seq<char> {
    dec(b.major as nat) + ordinal_suffix(b.major as nat) + if b.minor > 0 {
        " ("@ + dec((b.minor + 1) as nat) + seq![')']
    } else {
        Seq::empty()
    }
}

impl BattingOrderIndex {
    /// The position of the number the API sends, such as 101 for (1, 1): the hundreds are the
    /// major part and the rest the minor part.
    pub fn from_number(v: usize) -> (res: BattingOrderIndex)
        ensures
            res.major == v / 100,
            res.minor == v % 100,
    {
        BattingOrderIndex { major: v / 100, minor: v % 100 }
    }

    /// Reads the text the API sends, such as `101`, as [`BattingOrderIndex::from_number`] does;
    /// `None` where it is not a number that fits in a `usize`.
    pub fn parse(s: &str) -> (res: Option<BattingOrderIndex>)
        ensures
            match parse_unsigned_spec(s@, usize::MAX as nat) {
                Some(v) => res == Some(BattingOrderIndex { major: (v / 100) as usize, minor: (v % 100) as usize }),
                None => res is None,
            },
    {
        match parse_unsigned(s, usize::MAX as u64) {
            Some(v) => Some(BattingOrderIndex::from_number(v as usize)),
            None => None,
        }
    }

    /// The position as it is displayed, such as `1st` or `1st (2)`.
    pub fn to_string(&self) -> (res: String)
        requires
            self.minor < usize::MAX,
        ensures
            res@ == batting_order_text(*self),
    {
        let mut s = String::new();
        push_nth(&mut s, self.major as u64);
        if self.minor > 0 {
            push_str(&mut s, " (");
            push_dec(&mut s, (self.minor + 1) as u64);
            push_char(&mut s, ')');
        }
        s
    }
}

/// The winner, loser and save of a game.
#[derive(Debug, PartialEq, Eq, Structural, Copy, Clone)]
pub struct Decisions {
    pub winner: Option<PersonId>,
    pub loser: Option<PersonId>,
    pub save: Option<PersonId>,
}

/// A base. Bases are ordered from first to home.
#[derive(Debug, PartialEq, Eq, Structural, PartialOrd, Ord, Copy, Clone)]
pub enum Base {
    First,
    Second,
    Third,
    Home,
}

/// The base that a text of the API stands for.
pub open spec fn base_of_text(t: Seq<char>) -> Option<Base> {
    if t == "1B"@ || t == "1"@ {
        Some(Base::First)
    } else if t == "2B"@ || t == "2"@ {
        Some(Base::Second)
    } else if t == "3B"@ || t == "3"@ {
        Some(Base::Third)
    } else if t == "score"@ || t == "HP"@ || t == "4B"@ || t == "4"@ {
        Some(Base::Home)
    } else {
        None
    }
}

/// The base that a number of the API stands for.
pub open spec fn base_of_number(n: u64) -> Option<Base> {
    if n == 1 {
        Some(Base::First)
    } else if n == 2 {
        Some(Base::Second)
    } else if n == 3 {
        Some(Base::Third)
    } else if n == 4 {
        Some(Base::Home)
    } else {
        None
    }
}

/// How a base is displayed.
pub open spec fn base_text(b: Base) -> Seq<char> {
    match b {
        Base::First => "1B"@,
        Base::Second => "2B"@,
        Base::Third => "3B"@,
        Base::Home => "HP"@,
    }
}

impl Base {
    /// Reads a base from a text: `1B` or `1`, `2B` or `2`, `3B` or `3`, and `score`, `HP`, `4B`
    /// or `4` for home.
    pub fn from_text(t: &str) -> (res: Option<Base>)
        ensures
            res == base_of_text(t@),
    {
        if str_eq(t, "1B") || str_eq(t, "1") {
            Some(Base::First)
        } else if str_eq(t, "2B") || str_eq(t, "2") {
            Some(Base::Second)
        } else if str_eq(t, "3B") || str_eq(t, "3") {
            Some(Base::Third)
        } else if str_eq(t, "score") || str_eq(t, "HP") || str_eq(t, "4B") || str_eq(t, "4") {
            Some(Base::Home)
        } else {
            None
        }
    }

    /// Reads a base from a number, 1 to 4.
    pub fn from_number(n: u64) -> (res: Option<Base>)
        ensures
            res == base_of_number(n),
    {
        if n == 1 {
            Some(Base::First)
        } else if n == 2 {
            Some(Base::Second)
        } else if n == 3 {
            Some(Base::Third)
        } else if n == 4 {
            Some(Base::Home)
        } else {
            None
        }
    }

    /// How the base is displayed: `1B`, `2B`, `3B` or `HP`.
    pub fn to_string(&self) -> (res: &'static str)
        ensures
            res@ == base_text(*self),
    {
        match self {
            Base::First => "1B",
            Base::Second => "2B",
            Base::Third => "3B",
            Base::Home => "HP",
        }
    }
}

/// Two texts differ where their lengths do or where they differ at some place.
proof fn lemma_texts_differ(a: Seq<char>, b: Seq<char>, i: int)
    requires
        a.len() != b.len() || (0 <= i < a.len() && i < b.len() && a[i] != b[i]),
    ensures
        a != b,
{
}

/// The texts of the API for bases tell the bases apart: each pair of them that
/// [`base_of_text`] reads as different bases differs.
proof fn lemma_base_texts_differ()
    ensures
        "2B"@ != "1B"@, "2B"@ != "1"@, "2"@ != "1B"@, "2"@ != "1"@,
        "3B"@ != "1B"@, "3B"@ != "1"@, "3B"@ != "2B"@, "3B"@ != "2"@,
        "3"@ != "1B"@, "3"@ != "1"@, "3"@ != "2B"@, "3"@ != "2"@,
        "HP"@ != "1B"@, "HP"@ != "1"@, "HP"@ != "2B"@, "HP"@ != "2"@, "HP"@ != "3B"@, "HP"@ != "3"@,
        "4B"@ != "1B"@, "4B"@ != "1"@, "4B"@ != "2B"@, "4B"@ != "2"@, "4B"@ != "3B"@, "4B"@ != "3"@,
        "4"@ != "1B"@, "4"@ != "1"@, "4"@ != "2B"@, "4"@ != "2"@, "4"@ != "3B"@, "4"@ != "3"@,
        "4"@ != "score"@, "4"@ != "HP"@, "4"@ != "4B"@,
{
    reveal_strlit("1B");
    reveal_strlit("2B");
    reveal_strlit("3B");
    reveal_strlit("4B");
    reveal_strlit("HP");
    reveal_strlit("1");
    reveal_strlit("2");
    reveal_strlit("3");
    reveal_strlit("4");
    reveal_strlit("score");
    let two_char = seq!["1B"@, "2B"@, "3B"@, "4B"@, "HP"@];
    let one_char = seq!["1"@, "2"@, "3"@, "4"@];
    assert forall|i: int, j: int| 0 <= i < 5 && 0 <= j < 4 implies #[trigger] two_char[i] != #[trigger] one_char[j] by {
        lemma_texts_differ(two_char[i], one_char[j], 0);
    }
    assert forall|i: int, j: int| 0 <= i < j < 5 implies #[trigger] two_char[i] != #[trigger] two_char[j] by {
        lemma_texts_differ(two_char[i], two_char[j], 0);
    }
    assert forall|i: int, j: int| 0 <= i < j < 4 implies #[trigger] one_char[i] != #[trigger] one_char[j] by {
        lemma_texts_differ(one_char[i], one_char[j], 0);
    }
    lemma_texts_differ("4"@, "score"@, 0);
    assert(two_char[0] == "1B"@ && two_char[1] == "2B"@ && two_char[2] == "3B"@ && two_char[3] == "4B"@ && two_char[4] == "HP"@);
    assert(one_char[0] == "1"@ && one_char[1] == "2"@ && one_char[2] == "3"@ && one_char[3] == "4"@);
}

/// A base read back from how it is displayed is the same base.
pub proof fn lemma_base_text_round_trip(b: Base)
    ensures
        base_of_text(base_text(b)) == Some(b),
{
    lemma_base_texts_differ();
}

/// The forms of a base that name its number agree with the number: the digit `n` and the text
/// `nB` stand for the base that the number `n` stands for, from 1 to 4.
pub proof fn lemma_base_forms_agree(n: u64)
    requires
        1 <= n <= 4,
    ensures
        base_of_text(dec(n as nat)) == base_of_number(n),
        base_of_text(dec(n as nat) + "B"@) == base_of_number(n),
{
    lemma_base_texts_differ();
    reveal_strlit("1B");
    reveal_strlit("2B");
    reveal_strlit("3B");
    reveal_strlit("4B");
    reveal_strlit("1");
    reveal_strlit("2");
    reveal_strlit("3");
    reveal_strlit("4");
    reveal_strlit("B");
    let d = crate::text::digit_char(n as nat);
    assert(dec(n as nat) == seq![d]);
    if n == 1 {
        assert(dec(n as nat) =~= "1"@);
        assert(dec(n as nat) + "B"@ =~= "1B"@);
    } else if n == 2 {
        assert(dec(n as nat) =~= "2"@);
        assert(dec(n as nat) + "B"@ =~= "2B"@);
    } else if n == 3 {
        assert(dec(n as nat) =~= "3"@);
        assert(dec(n as nat) + "B"@ =~= "3B"@);
    } else {
        assert(dec(n as nat) =~= "4"@);
        assert(dec(n as nat) + "B"@ =~= "4B"@);
    }
}

/// How hard a ball was hit.
#[derive(Debug, PartialEq, Eq, Structural, Copy, Clone)]
pub enum ContactHardness {
    Soft,
    Medium,
    Hard,
}

/// The hardness that a name of the API stands for.
pub open spec fn hardness_of(name: Seq<char>) -> Option<ContactHardness> {
    if name == "soft"@ {
        Some(ContactHardness::Soft)
    } else if name == "medium"@ {
        Some(ContactHardness::Medium)
    } else if name == "hard"@ {
        Some(ContactHardness::Hard)
    } else {
        None
    }
}

impl ContactHardness {
    /// Reads a hardness from its name: `soft`, `medium` or `hard`.
    pub fn from_name(name: &str) -> (res: Option<ContactHardness>)
        ensures
            res == hardness_of(name@),
    {
        if str_eq(name, "soft") {
            Some(ContactHardness::Soft)
        } else if str_eq(name, "medium") {
            Some(ContactHardness::Medium)
        } else if str_eq(name, "hard") {
            Some(ContactHardness::Hard)
        } else {
            None
        }
    }
}

/// Why a key of a table of players could not be read.
#[derive(Debug, PartialEq, Eq, Structural, Copy, Clone)]
pub enum PlayerKeyError {
    /// The key does not begin with `ID`.
    InvalidFormat,
    /// What follows `ID` is not a number that fits in a `u32`.
    InvalidNumber,
}

/// What a key of a table of players, such as `ID660271`, stands for.
pub open spec fn player_key_spec(key: Seq<char>) -> Result<nat, PlayerKeyError> {
    if key.len() >= 2 && key[0] == 'I' && key[1] == 'D' {
        match parse_unsigned_spec(key.skip(2), u32::MAX as nat) {
            Some(v) => Ok(v),
            None => Err(PlayerKeyError::InvalidNumber),
        }
    } else {
        Err(PlayerKeyError::InvalidFormat)
    }
}

/// Reads the person a key of a table of players names: `ID` followed by the identifier.
pub fn person_id_from_key(key: &str) -> (res: Result<PersonId, PlayerKeyError>)
    ensures
        match res {
            Ok(p) => player_key_spec(key@) == Ok::<nat, PlayerKeyError>(p.0 as nat),
            Err(e) => player_key_spec(key@) == Err::<nat, PlayerKeyError>(e),
        },
{
    let len = key.unicode_len();
    if len >= 2 && key.get_char(0) == 'I' && key.get_char(1) == 'D' {
        let rest = key.substring_char(2, len);
        assert(rest@ =~= key@.skip(2));
        match parse_u32(rest) {
            Some(v) => Ok(PersonId(v)),
            None => Err(PlayerKeyError::InvalidNumber),
        }
    } else {
        Err(PlayerKeyError::InvalidFormat)
    }
}

/// What the wind text of the weather, such as `5 mph, Out To CF`, stands for: the speed in
/// miles per hour and the direction, or the message of what is wrong with it.
pub open spec fn wind_spec(wind: Seq<char>) -> Result<(int, Seq<char>), Seq<char>> {
    match split_once_spec(wind, " mph, "@) {
        Some((speed, direction)) => match parse_i32_spec(speed) {
            Some(v) => Ok((v, direction)),
            None => Err("invalid wind speed"@),
        },
        None => Err("invalid wind format"@),
    }
}

/// Reads the wind text of the weather: the speed before ` mph, ` and the direction after it.
pub fn parse_wind(wind: &str) -> (res: Result<(i32, &str), &'static str>)
    ensures
        match res {
            Ok((v, d)) => wind_spec(wind@) == Ok::<(int, Seq<char>), Seq<char>>((v as int, d@)),
            Err(m) => wind_spec(wind@) == Err::<(int, Seq<char>), Seq<char>>(m@),
        },
{
    match split_once(wind, " mph, ") {
        Some((speed, direction)) => match parse_i32(speed) {
            Some(v) => Ok((v, direction)),
            None => Err("invalid wind speed"),
        },
        None => Err("invalid wind format"),
    }
}


/// The half of the day a 12-hour time of day falls in.
#[derive(Debug, PartialEq, Eq, Structural, Copy, Clone)]
pub enum DayHalf {
    AM,
    PM,
}

/// The hour of a 24-hour clock that an hour of a 12-hour clock stands for: 12 AM is 0 and
/// 12 PM is 12; in the afternoon 12 hours are added.
pub open spec fn hour_24(half: DayHalf, hour: nat) -> nat {
    (hour % 12) + match half {
        DayHalf::AM => 0nat,
        DayHalf::PM => 12nat,
    }
}

impl DayHalf {
    /// The hour of a 24-hour clock that `hour`, read in this half of the day, stands for.
    pub fn into_24_hour(self, hour: u32) -> (res: u32)
        requires
            hour < 24,
        ensures
            res == hour_24(self, hour as nat),
            res < 24,
    {
        match self {
            DayHalf::AM => hour % 12,
            DayHalf::PM => hour % 12 + 12,
        }
    }
}

/// Whether a game is played in daylight or at night.
#[derive(Debug, PartialEq, Eq, Structural, Copy, Clone)]
pub enum DayNight {
    Day,
    Night,
}

/// The date and time of a game as the API sends them: the date of its scheduled date and time,
/// the time of day on a 12-hour clock with its half of the day, the original and official
/// dates, and whether it is a day or night game.
#[derive(Debug, Clone, Copy)]
pub struct GameDateTimeRaw {
    pub datetime_date: Date,
    pub hour: u32,
    pub minute: u32,
    pub second: u32,
    pub ampm: DayHalf,
    pub original_date: Date,
    pub official_date: Date,
    pub sky: DayNight,
}

/// The date and time of a game, the time on a 24-hour clock. The time is typically rounded to
/// the hour; the first pitch has a timestamp of its own.
#[derive(Debug, Clone, Copy)]
pub struct GameDateTime {
    pub date: Date,
    pub hour: u32,
    pub minute: u32,
    pub second: u32,
    pub original_date: Date,
    pub official_date: Date,
    pub sky: DayNight,
}

impl GameDateTime {
    /// The date and time of a game: the date of the scheduled date and time, with the time of
    /// day turned to a 24-hour clock.
    pub fn from_raw(raw: GameDateTimeRaw) -> (res: GameDateTime)
        requires
            raw.hour < 24,
        ensures
            res.date == raw.datetime_date,
            res.hour == hour_24(raw.ampm, raw.hour as nat),
            res.minute == raw.minute,
            res.second == raw.second,
            res.original_date == raw.original_date,
            res.official_date == raw.official_date,
            res.sky == raw.sky,
    {
        GameDateTime {
            date: raw.datetime_date,
            hour: raw.ampm.into_24_hour(raw.hour),
            minute: raw.minute,
            second: raw.second,
            original_date: raw.original_date,
            official_date: raw.official_date,
            sky: raw.sky,
        }
    }
}

} // verus!
