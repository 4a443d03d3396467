//! Attendance for games and seasons.
//!
//! Within regards to attendance, the term used is "opening" rather than "game": single ticket
//! double headers and rescheduled games make the two differ. Averages are taken over the
//! openings of the sample.

use vstd::prelude::*;
use crate::date::Date;
use crate::ids::{GameId, GameType, LeagueId, SeasonId, TeamId};
use crate::text::{dec, parse_u32, parse_unsigned_spec, push_char, push_dec, query, split_once, split_once_spec, kv, lemma_dec_digits, lemma_parse_dec, matches_at, is_first_match, lemma_first_match_unique, is_digit};
use crate::types::{Copyright, HomeAwaySplit};
use crate::request::{opt_num_kv, opt_text_kv, opt_date_kv, opt_num_param, opt_text_param, opt_date_param, text_param, url_with_query};
use crate::text::opt_views;

verus! {

/// A season with an optional minor part: some years hold more than one season, written like
/// `2018.2`.
#[derive(Debug, PartialEq, Eq, Structural, PartialOrd, Ord, Copy, Clone, Hash)]
pub struct SeasonWithMinorId {
    season: SeasonId,
    minor: Option<u32>,
}

impl View for SeasonWithMinorId {
    type V = (u32, Option<u32>);

    closed spec fn view(&self) -> (u32, Option<u32>) {
        (self.season.0, self.minor)
    }
}

/// The text of a season: the year, then `.` and the minor part where there is one.
pub open spec fn season_text(v: (u32, Option<u32>)) -> Seq<char> {
    match v.1 {
        Some(m) => dec(v.0 as nat) + seq!['.'] + dec(m as nat),
        None => dec(v.0 as nat),
    }
}

/// Whether season `a` comes no later than season `b`: by year, then by minor part, a season
/// without one coming first.
pub open spec fn season_le(a: (u32, Option<u32>), b: (u32, Option<u32>)) -> bool {
    a.0 < b.0 || (a.0 == b.0 && match (a.1, b.1) {
        (None, _) => true,
        (Some(_), None) => false,
        (Some(x), Some(y)) => x <= y,
    })
}

/// The later of two seasons; where they are equal, the second.
pub open spec fn season_max(a: (u32, Option<u32>), b: (u32, Option<u32>)) -> (u32, Option<u32>) {
    if season_le(a, b) {
        b
    } else {
        a
    }
}

/// Why the text of a season could not be read.
#[derive(Debug, PartialEq, Eq, Structural, Copy, Clone)]
pub enum SeasonParseError {
    /// The year or the minor part is not a `u32`.
    InvalidNumber,
    /// The minor part is 0.
    ZeroMinor,
}

/// What reading the text of a season gives: where there is a `.`, the year before the first
/// one and a non-zero minor part after it; else the year alone.
pub open spec fn season_parse_spec(s: Seq<char>) -> Result<(u32, Option<u32>), SeasonParseError> {
    match split_once_spec(s, "."@) {
        Some((season, minor)) => match (
            parse_unsigned_spec(season, u32::MAX as nat),
            parse_unsigned_spec(minor, u32::MAX as nat),
        ) {
            (Some(y), Some(m)) => if m == 0 {
                Err(SeasonParseError::ZeroMinor)
            } else {
                Ok((y as u32, Some(m as u32)))
            },
            _ => Err(SeasonParseError::InvalidNumber),
        },
        None => match parse_unsigned_spec(s, u32::MAX as nat) {
            Some(y) => Ok((y as u32, None)),
            None => Err(SeasonParseError::InvalidNumber),
        },
    }
}

impl SeasonWithMinorId {
    #[verifier::type_invariant]
    closed spec fn inv(self) -> bool {
        self.minor != Some(0u32)
    }

    /// A season without a minor part.
    pub fn from_season(season: SeasonId) -> (res: Self)
        ensures
            res@ == (season.0, None::<u32>),
    {
        SeasonWithMinorId { season, minor: None }
    }

    /// A season with a minor part; `None` where the minor part is 0.
    pub fn with_minor(season: SeasonId, minor: u32) -> (res: Option<Self>)
        ensures
            res is Some <==> minor != 0,
            res matches Some(s) ==> s@ == (season.0, Some(minor)),
    {
        if minor == 0 {
            None
        } else {
            Some(SeasonWithMinorId { season, minor: Some(minor) })
        }
    }

    /// The year of the season.
    pub fn season(&self) -> (res: SeasonId)
        ensures
            res.0 == self@.0,
    {
        self.season
    }

    /// The minor part, never 0.
    pub fn minor(&self) -> (res: Option<u32>)
        ensures
            res == self@.1,
            res != Some(0u32),
    {
        proof {
            use_type_invariant(self);
        }
        self.minor
    }

    /// Whether this season comes no later than `other`.
    pub fn le(&self, other: &Self) -> (res: bool)
        ensures
            res == season_le(self@, other@),
    {
        if self.season.0 != other.season.0 {
            self.season.0 < other.season.0
        } else {
            match (self.minor, other.minor) {
                (None, _) => true,
                (Some(_), None) => false,
                (Some(x), Some(y)) => x <= y,
            }
        }
    }

    /// The later of two seasons; where they are equal, the second.
    pub fn max(self, other: Self) -> (res: Self)
        ensures
            res@ == season_max(self@, other@),
            res == season_max_value(self, other),
    {
        if self.le(&other) {
            other
        } else {
            self
        }
    }

    /// The text of the season, such as `2018` or `2018.2`.
    pub fn to_string(&self) -> (res: String)
        ensures
            res@ == season_text(self@),
    {
        let mut s = String::new();
        push_dec(&mut s, self.season.0 as u64);
        match self.minor {
            Some(m) => {
                push_char(&mut s, '.');
                push_dec(&mut s, m as u64);
            },
            None => {},
        }
        assert(s@ =~= season_text(self@));
        s
    }

    /// Reads the text of a season, such as `2018` or `2018.2`.
    pub fn parse(s: &str) -> (res: Result<Self, SeasonParseError>)
        ensures
            match res {
                Ok(v) => season_parse_spec(s@) == Ok::<(u32, Option<u32>), SeasonParseError>(v@),
                Err(e) => season_parse_spec(s@) == Err::<(u32, Option<u32>), SeasonParseError>(e),
            },
    {
        match split_once(s, ".") {
            Some((season, minor)) => match (parse_u32(season), parse_u32(minor)) {
                (Some(y), Some(m)) => if m == 0 {
                    Err(SeasonParseError::ZeroMinor)
                } else {
                    Ok(SeasonWithMinorId { season: SeasonId(y), minor: Some(m) })
                },
                _ => Err(SeasonParseError::InvalidNumber),
            },
            None => match parse_u32(s) {
                Some(y) => Ok(SeasonWithMinorId { season: SeasonId(y), minor: None }),
                None => Err(SeasonParseError::InvalidNumber),
            },
        }
    }
}

/// Reading the text of a season gives the season back: `parse` undoes `to_string`.
pub proof fn lemma_season_text_roundtrip(v: (u32, Option<u32>))
    requires
        v.1 != Some(0u32),
    ensures
        season_parse_spec(season_text(v)) == Ok::<(u32, Option<u32>), SeasonParseError>(v),
{
    reveal_strlit(".");
    lemma_dec_digits(v.0 as nat);
    lemma_parse_dec(v.0 as nat, u32::MAX as nat);
    let y = dec(v.0 as nat);
    match v.1 {
        Some(m) => {
            lemma_dec_digits(m as nat);
            lemma_parse_dec(m as nat, u32::MAX as nat);
            let s = season_text(v);
            let k = y.len() as int;
            assert(s.subrange(k, k + 1) =~= "."@);
            assert forall|j: int| 0 <= j < k implies !#[trigger] matches_at(s, "."@, j) by {
                assert(s[j] == y[j]);
                assert(is_digit(y[j]));
                assert(s.subrange(j, j + 1)[0] == s[j]);
            }
            lemma_first_match_unique(s, "."@, k);
            assert(s.take(k) =~= y);
            assert(s.skip(k + 1) =~= dec(m as nat));
        },
        None => {
            assert forall|j: int| !matches_at(y, "."@, j) by {
                if 0 <= j < y.len() {
                    assert(is_digit(y[j]));
                    assert(y.subrange(j, j + 1)[0] == y[j]);
                }
            }
            assert(!exists|i: int| is_first_match(y, "."@, i));
        },
    }
}

} // verus!

verus! {

/// The attendance of a single opening.
#[derive(Debug, Clone, Copy)]
pub struct DatedAttendance {
    /// Number of people attending.
    pub value: u32,
    /// Date of the opening.
    pub date: Date,
    /// Game in which people attended.
    pub game: GameId,
}

/// A season of attendance data, for one game type.
#[derive(Debug, Clone)]
pub struct AttendanceRecord {
    pub total_openings: HomeAwaySplit<u32>,
    pub total_openings_lost: u32,
    pub total_games: HomeAwaySplit<u32>,
    pub season: SeasonWithMinorId,
    pub attendance_totals: HomeAwaySplit<u32>,
    /// The least attended opening, then the most attended one.
    pub single_opening_min_max: Option<(DatedAttendance, DatedAttendance)>,
    pub game_type: GameType,
}

/// Whether adding two records keeps every total within `u32`.
pub open spec fn add_fits(a: AttendanceRecord, b: AttendanceRecord) -> bool {
    &&& a.total_openings.home + b.total_openings.home <= u32::MAX
    &&& a.total_openings.away + b.total_openings.away <= u32::MAX
    &&& a.total_openings_lost + b.total_openings_lost <= u32::MAX
    &&& a.total_games.home + b.total_games.home <= u32::MAX
    &&& a.total_games.away + b.total_games.away <= u32::MAX
    &&& a.attendance_totals.home + b.attendance_totals.home <= u32::MAX
    &&& a.attendance_totals.away + b.attendance_totals.away <= u32::MAX
}

/// The least of two attendances by value; where they are equal, the first.
pub open spec fn attendance_min(a: DatedAttendance, b: DatedAttendance) -> DatedAttendance {
    if a.value <= b.value {
        a
    } else {
        b
    }
}

/// The greatest of two attendances by value; where they are equal, the second.
pub open spec fn attendance_max(a: DatedAttendance, b: DatedAttendance) -> DatedAttendance {
    if a.value <= b.value {
        b
    } else {
        a
    }
}

/// Combines the least and most attended openings of two records; ties go to the second.
pub open spec fn min_max_add(
    a: Option<(DatedAttendance, DatedAttendance)>,
    b: Option<(DatedAttendance, DatedAttendance)>,
) -> Option<(DatedAttendance, DatedAttendance)> {
    match (a, b) {
        (None, None) => None,
        (Some(x), None) => Some(x),
        (None, Some(y)) => Some(y),
        (Some((a_min, a_max)), Some((b_min, b_max))) => Some(
            (attendance_min(b_min, a_min), attendance_max(a_max, b_max)),
        ),
    }
}

/// The sum of two records: totals add up, the season is the later one, the least and most
/// attended openings are kept, and the game type is the second record's.
pub open spec fn record_add(a: AttendanceRecord, b: AttendanceRecord) -> AttendanceRecord {
    AttendanceRecord {
        total_openings: HomeAwaySplit {
            home: (a.total_openings.home + b.total_openings.home) as u32,
            away: (a.total_openings.away + b.total_openings.away) as u32,
        },
        total_openings_lost: (a.total_openings_lost + b.total_openings_lost) as u32,
        total_games: HomeAwaySplit {
            home: (a.total_games.home + b.total_games.home) as u32,
            away: (a.total_games.away + b.total_games.away) as u32,
        },
        season: season_max_value(a.season, b.season),
        attendance_totals: HomeAwaySplit {
            home: (a.attendance_totals.home + b.attendance_totals.home) as u32,
            away: (a.attendance_totals.away + b.attendance_totals.away) as u32,
        },
        single_opening_min_max: min_max_add(a.single_opening_min_max, b.single_opening_min_max),
        game_type: b.game_type,
    }
}

/// The later of two seasons; where they are equal, the second.
pub open spec fn season_max_value(a: SeasonWithMinorId, b: SeasonWithMinorId) -> SeasonWithMinorId {
    if season_le(a@, b@) {
        b
    } else {
        a
    }
}

impl DatedAttendance {
    /// The less attended of two openings; where they are equal, `self`.
    pub fn min(self, other: Self) -> (res: Self)
        ensures
            res == attendance_min(self, other),
    {
        if self.value <= other.value {
            self
        } else {
            other
        }
    }

    /// The more attended of two openings; where they are equal, `other`.
    pub fn max(self, other: Self) -> (res: Self)
        ensures
            res == attendance_max(self, other),
    {
        if self.value <= other.value {
            other
        } else {
            self
        }
    }
}

impl AttendanceRecord {
    /// Adds two records: totals add up, the season is the later one, the least and most
    /// attended openings are kept (ties going to `rhs`), and the game type is `rhs`'s.
    pub fn add(self, rhs: Self) -> (res: Self)
        requires
            add_fits(self, rhs),
        ensures
            res == record_add(self, rhs),
    {
        let single_opening_min_max = match (self.single_opening_min_max, rhs.single_opening_min_max) {
            (None, None) => None,
            (Some(min_max), None) => Some(min_max),
            (None, Some(min_max)) => Some(min_max),
            (Some((a_min, a_max)), Some((b_min, b_max))) => Some((b_min.min(a_min), a_max.max(b_max))),
        };
        AttendanceRecord {
            total_openings: HomeAwaySplit {
                home: self.total_openings.home + rhs.total_openings.home,
                away: self.total_openings.away + rhs.total_openings.away,
            },
            total_openings_lost: self.total_openings_lost + rhs.total_openings_lost,
            total_games: HomeAwaySplit {
                home: self.total_games.home + rhs.total_games.home,
                away: self.total_games.away + rhs.total_games.away,
            },
            season: self.season.max(rhs.season),
            attendance_totals: HomeAwaySplit {
                home: self.attendance_totals.home + rhs.attendance_totals.home,
                away: self.attendance_totals.away + rhs.attendance_totals.away,
            },
            single_opening_min_max,
            game_type: rhs.game_type,
        }
    }
}


/// The `k`-th of the seven totals of a record: openings (home, away), openings lost, games
/// (home, away) and attendance (home, away).
pub open spec fn total_of(r: AttendanceRecord, k: int) -> int {
    if k == 0 {
        r.total_openings.home as int
    } else if k == 1 {
        r.total_openings.away as int
    } else if k == 2 {
        r.total_openings_lost as int
    } else if k == 3 {
        r.total_games.home as int
    } else if k == 4 {
        r.total_games.away as int
    } else if k == 5 {
        r.attendance_totals.home as int
    } else {
        r.attendance_totals.away as int
    }
}

/// The sum of the `k`-th total over a list of records.
pub open spec fn totals_sum(s: Seq<AttendanceRecord>, k: int) -> int
    decreases s.len(),
{
    if s.len() == 0 {
        0
    } else {
        totals_sum(s.drop_last(), k) + total_of(s.last(), k)
    }
}

/// Whether adding up `init` and all of `s` keeps every total within `u32`.
pub open spec fn sum_fits(init: AttendanceRecord, s: Seq<AttendanceRecord>) -> bool {
    forall|k: int| 0 <= k < 7 ==> #[trigger] total_of(init, k) + totals_sum(s, k) <= u32::MAX
}

/// `init`, then each record of `s` added in turn.
pub open spec fn record_sum(init: AttendanceRecord, s: Seq<AttendanceRecord>) -> AttendanceRecord
    decreases s.len(),
{
    if s.len() == 0 {
        init
    } else {
        record_add(record_sum(init, s.drop_last()), s.last())
    }
}

/// The game type a record has before any game is added: the regular season.
pub open spec fn default_game_type(g: GameType) -> bool {
    g.0@ == "R"@
}

/// The record of no openings at all in the given year.
pub open spec fn is_empty_record_for(r: AttendanceRecord, year: i32) -> bool {
    &&& r.total_openings == HomeAwaySplit { home: 0u32, away: 0u32 }
    &&& r.total_openings_lost == 0
    &&& r.total_games == HomeAwaySplit { home: 0u32, away: 0u32 }
    &&& r.season@ == (year as u32, None::<u32>)
    &&& r.attendance_totals == HomeAwaySplit { home: 0u32, away: 0u32 }
    &&& r.single_opening_min_max is None
    &&& default_game_type(r.game_type)
}

proof fn lemma_total_of_add(a: AttendanceRecord, b: AttendanceRecord)
    requires
        add_fits(a, b),
    ensures
        forall|k: int| 0 <= k < 7 ==> #[trigger] total_of(record_add(a, b), k) == total_of(a, k) + total_of(b, k),
{
}

proof fn lemma_sum_fits_prefix(init: AttendanceRecord, s: Seq<AttendanceRecord>)
    requires
        s.len() > 0,
        sum_fits(init, s),
    ensures
        sum_fits(init, s.drop_last()),
        forall|k: int| 0 <= k < 7 ==> #[trigger] total_of(record_sum(init, s.drop_last()), k) == total_of(init, k) + totals_sum(s.drop_last(), k),
        add_fits(record_sum(init, s.drop_last()), s.last()),
    decreases s.len(), 0int,
{
    assert forall|k: int| 0 <= k < 7 implies #[trigger] total_of(init, k) + totals_sum(s.drop_last(), k) <= u32::MAX by {
        assert(total_of(init, k) + totals_sum(s, k) <= u32::MAX);
    }
    lemma_record_sum_totals(init, s.drop_last());
    assert forall|k: int| 0 <= k < 7 implies #[trigger] total_of(record_sum(init, s.drop_last()), k) + total_of(s.last(), k) <= u32::MAX by {
        assert(total_of(init, k) + totals_sum(s, k) <= u32::MAX);
    }
    let r = record_sum(init, s.drop_last());
    assert(total_of(r, 0) + total_of(s.last(), 0) <= u32::MAX);
    assert(total_of(r, 1) + total_of(s.last(), 1) <= u32::MAX);
    assert(total_of(r, 2) + total_of(s.last(), 2) <= u32::MAX);
    assert(total_of(r, 3) + total_of(s.last(), 3) <= u32::MAX);
    assert(total_of(r, 4) + total_of(s.last(), 4) <= u32::MAX);
    assert(total_of(r, 5) + total_of(s.last(), 5) <= u32::MAX);
    assert(total_of(r, 6) + total_of(s.last(), 6) <= u32::MAX);
}

/// Each total of an aggregate is the starting record's total plus the totals of every record.
pub proof fn lemma_record_sum_totals(init: AttendanceRecord, s: Seq<AttendanceRecord>)
    requires
        sum_fits(init, s),
    ensures
        forall|k: int| 0 <= k < 7 ==> #[trigger] total_of(record_sum(init, s), k) == total_of(init, k) + totals_sum(s, k),
    decreases s.len(), 1int,
{
    if s.len() > 0 {
        lemma_sum_fits_prefix(init, s);
        lemma_total_of_add(record_sum(init, s.drop_last()), s.last());
    }
}

/// Whether the least and most attended openings `r` reach as far as those of `x`: where `x`
/// has openings, `r` has some, its least attended is no more attended than `x`'s and its most
/// attended no less than `x`'s.
pub open spec fn covers_openings(
    r: Option<(DatedAttendance, DatedAttendance)>,
    x: Option<(DatedAttendance, DatedAttendance)>,
) -> bool {
    x matches Some((mn, mx)) ==> r matches Some((lo, hi)) && lo.value <= mn.value && hi.value >= mx.value
}

/// The least and most attended openings of an aggregate reach as far as those of the starting
/// record and of every record added, and there are none only where no record has any.
pub proof fn lemma_record_sum_extremes(init: AttendanceRecord, s: Seq<AttendanceRecord>)
    ensures
        covers_openings(record_sum(init, s).single_opening_min_max, init.single_opening_min_max),
        forall|k: int| 0 <= k < s.len() ==> covers_openings(
            record_sum(init, s).single_opening_min_max,
            #[trigger] s[k].single_opening_min_max,
        ),
        record_sum(init, s).single_opening_min_max is None <==> (init.single_opening_min_max is None && forall|k: int|
            0 <= k < s.len() ==> (#[trigger] s[k].single_opening_min_max) is None),
    decreases s.len(),
{
    if s.len() > 0 {
        let p = s.drop_last();
        lemma_record_sum_extremes(init, p);
        let a = record_sum(init, p).single_opening_min_max;
        let b = s.last().single_opening_min_max;
        let r = record_sum(init, s).single_opening_min_max;
        assert(r == min_max_add(a, b));
        assert forall|x: Option<(DatedAttendance, DatedAttendance)>| covers_openings(a, x) implies covers_openings(r, x) by {
        }
        assert forall|k: int| 0 <= k < s.len() implies covers_openings(r, #[trigger] s[k].single_opening_min_max) by {
            if k < p.len() {
                assert(p[k] == s[k]);
                assert(covers_openings(a, p[k].single_opening_min_max));
            }
        }
        if r is None {
            assert forall|k: int| 0 <= k < s.len() implies (#[trigger] s[k].single_opening_min_max) is None by {
                if k < p.len() {
                    assert(p[k] == s[k]);
                }
            }
        }
        if init.single_opening_min_max is None && forall|k: int| 0 <= k < s.len() ==> (#[trigger] s[k].single_opening_min_max) is None {
            assert forall|k: int| 0 <= k < p.len() implies (#[trigger] p[k].single_opening_min_max) is None by {
                assert(p[k] == s[k]);
            }
            assert(s[s.len() - 1].single_opening_min_max is None);
        }
    }
}

/// What adding two records gives: each total is the sum of the two totals; the season is the
/// later of the two; and where both records have openings, the least attended opening of the
/// sum is the less attended of the two least attended ones and the most attended opening the
/// more attended of the two most attended ones, ties going to `b`; where only one has openings,
/// they are that record's.
pub proof fn lemma_record_add_combines(a: AttendanceRecord, b: AttendanceRecord)
    requires
        add_fits(a, b),
    ensures
        ({
            let r = record_add(a, b);
            &&& r.total_openings.home == a.total_openings.home + b.total_openings.home
            &&& r.total_openings.away == a.total_openings.away + b.total_openings.away
            &&& r.total_openings_lost == a.total_openings_lost + b.total_openings_lost
            &&& r.total_games.home == a.total_games.home + b.total_games.home
            &&& r.total_games.away == a.total_games.away + b.total_games.away
            &&& r.attendance_totals.home == a.attendance_totals.home + b.attendance_totals.home
            &&& r.attendance_totals.away == a.attendance_totals.away + b.attendance_totals.away
            &&& r.season == a.season || r.season == b.season
            &&& season_le(a.season@, r.season@)
            &&& season_le(b.season@, r.season@)
            &&& r.game_type == b.game_type
            &&& match (a.single_opening_min_max, b.single_opening_min_max) {
                (None, None) => r.single_opening_min_max is None,
                (Some(x), None) => r.single_opening_min_max == Some(x),
                (None, Some(y)) => r.single_opening_min_max == Some(y),
                (Some((a_min, a_max)), Some((b_min, b_max))) => r.single_opening_min_max matches Some((lo, hi)) && {
                    &&& lo.value <= a_min.value && lo.value <= b_min.value
                    &&& lo == a_min || lo == b_min
                    &&& lo.value == b_min.value ==> lo == b_min
                    &&& hi.value >= a_max.value && hi.value >= b_max.value
                    &&& hi == a_max || hi == b_max
                    &&& hi.value == b_max.value ==> hi == b_max
                },
            }
        }),
{
}

/// Adding records is associative: `(a + b) + c == a + (b + c)` wherever the totals fit.
pub proof fn lemma_record_add_associative(a: AttendanceRecord, b: AttendanceRecord, c: AttendanceRecord)
    requires
        forall|k: int| 0 <= k < 7 ==> #[trigger] total_of(a, k) + total_of(b, k) + total_of(c, k) <= u32::MAX,
    ensures
        add_fits(a, b),
        add_fits(record_add(a, b), c),
        add_fits(b, c),
        add_fits(a, record_add(b, c)),
        record_add(record_add(a, b), c) == record_add(a, record_add(b, c)),
{
    assert(total_of(a, 0) + total_of(b, 0) + total_of(c, 0) <= u32::MAX);
    assert(total_of(a, 1) + total_of(b, 1) + total_of(c, 1) <= u32::MAX);
    assert(total_of(a, 2) + total_of(b, 2) + total_of(c, 2) <= u32::MAX);
    assert(total_of(a, 3) + total_of(b, 3) + total_of(c, 3) <= u32::MAX);
    assert(total_of(a, 4) + total_of(b, 4) + total_of(c, 4) <= u32::MAX);
    assert(total_of(a, 5) + total_of(b, 5) + total_of(c, 5) <= u32::MAX);
    assert(total_of(a, 6) + total_of(b, 6) + total_of(c, 6) <= u32::MAX);
    let l = record_add(record_add(a, b), c);
    let r = record_add(a, record_add(b, c));
    lemma_season_max_assoc(a.season, b.season, c.season);
    assert(l.season == r.season);
    assert(l.single_opening_min_max == r.single_opening_min_max);
    assert(l.total_openings == r.total_openings);
    assert(l.total_games == r.total_games);
    assert(l.attendance_totals == r.attendance_totals);
}

proof fn lemma_season_view_injective(a: SeasonWithMinorId, b: SeasonWithMinorId)
    requires
        a@ == b@,
    ensures
        a == b,
{
}

proof fn lemma_season_max_assoc(a: SeasonWithMinorId, b: SeasonWithMinorId, c: SeasonWithMinorId)
    ensures
        season_max_value(season_max_value(a, b), c) == season_max_value(a, season_max_value(b, c)),
{
    let l = season_max_value(season_max_value(a, b), c);
    let r = season_max_value(a, season_max_value(b, c));
    if season_le(a@, b@) && season_le(b@, a@) {
        lemma_season_view_injective(a, b);
    }
    if season_le(b@, c@) && season_le(c@, b@) {
        lemma_season_view_injective(b, c);
    }
    if season_le(a@, c@) && season_le(c@, a@) {
        lemma_season_view_injective(a, c);
    }
}

impl AttendanceRecord {
    /// The record of no openings at all, dated to the given year.
    pub fn default_for_year(year: i32) -> (res: Self)
        ensures
            is_empty_record_for(res, year),
    {
        AttendanceRecord {
            total_openings: HomeAwaySplit { home: 0, away: 0 },
            total_openings_lost: 0,
            total_games: HomeAwaySplit { home: 0, away: 0 },
            season: SeasonWithMinorId::from_season(SeasonId(year as u32)),
            attendance_totals: HomeAwaySplit { home: 0, away: 0 },
            single_opening_min_max: None,
            game_type: GameType(String::from_str("R")),
        }
    }

    /// Adds up a list of records, starting from `init`.
    pub fn sum_from(init: Self, records: Vec<Self>) -> (res: Self)
        requires
            sum_fits(init, records@),
        ensures
            res == record_sum(init, records@),
    {
        let mut acc = init;
        let mut i: usize = 0;
        let n = records.len();
        let mut records = records;
        let ghost all = records@;
        while i < n
            invariant
                n == all.len(),
                i <= n,
                records@ == all.subrange(i as int, n as int),
                sum_fits(init, all),
                acc == record_sum(init, all.take(i as int)),
            decreases n - i,
        {
            let ghost taken = all.take(i + 1);
            assert(taken.drop_last() =~= all.take(i as int));
            assert(sum_fits(init, taken)) by {
                assert forall|k: int| 0 <= k < 7 implies #[trigger] total_of(init, k) + totals_sum(taken, k) <= u32::MAX by {
                    lemma_totals_sum_prefix(all, i + 1, k);
                }
            }
            proof {
                lemma_sum_fits_prefix(init, taken);
            }
            let r = records.remove(0);
            assert(r == all[i as int]);
            acc = acc.add(r);
            i = i + 1;
        }
        assert(all.take(n as int) =~= all);
        acc
    }

    /// The average attendance of an opening, at home and away, rounded to the nearest whole
    /// number (halves rounded up).
    pub fn average_attendance(&self) -> (res: HomeAwaySplit<u32>)
        requires
            self.total_openings.home > 0,
            self.total_openings.away > 0,
            self.attendance_totals.home + self.total_openings.home / 2 <= u32::MAX,
            self.attendance_totals.away + self.total_openings.away / 2 <= u32::MAX,
        ensures
            res.home == (self.attendance_totals.home + self.total_openings.home / 2) / self.total_openings.home as int,
            res.away == (self.attendance_totals.away + self.total_openings.away / 2) / self.total_openings.away as int,
    {
        let home = self.attendance_totals.home;
        let away = self.attendance_totals.away;
        let num_at_home = self.total_openings.home;
        let num_at_away = self.total_openings.away;
        HomeAwaySplit::new((home + num_at_home / 2) / num_at_home, (away + num_at_away / 2) / num_at_away)
    }
}

proof fn lemma_totals_sum_prefix(s: Seq<AttendanceRecord>, i: int, k: int)
    requires
        0 <= i <= s.len(),
        0 <= k < 7,
    ensures
        totals_sum(s.take(i), k) <= totals_sum(s, k),
    decreases s.len() - i,
{
    if i < s.len() {
        lemma_totals_sum_prefix(s, i + 1, k);
        assert(s.take(i + 1).drop_last() =~= s.take(i));
    } else {
        assert(s.take(i) =~= s);
    }
}


/// A season of attendance as the API sends it, before it is turned into an
/// [`AttendanceRecord`]; dates are the days of the API's date-times.
#[derive(Debug, Clone)]
pub struct AnnualRecord {
    pub openings_total_away: u32,
    pub openings_total_home: u32,
    pub openings_total_lost: u32,
    pub games_away_total: u32,
    pub games_home_total: u32,
    pub year: SeasonWithMinorId,
    pub attendance_high: Option<u32>,
    pub attendance_high_date: Option<Date>,
    pub attendance_high_game: Option<GameId>,
    pub attendance_low: Option<u32>,
    pub attendance_low_date: Option<Date>,
    pub attendance_low_game: Option<GameId>,
    pub attendance_total_away: Option<u32>,
    pub attendance_total_home: Option<u32>,
    pub game_type: GameType,
}

/// The least and most attended openings of a raw record: none unless value, date and game of
/// the most attended one are all there; the least attended one is the most attended one unless
/// all three of its own are there.
pub open spec fn annual_min_max(raw: AnnualRecord) -> Option<(DatedAttendance, DatedAttendance)> {
    match (raw.attendance_high, raw.attendance_high_date, raw.attendance_high_game) {
        (Some(hv), Some(hd), Some(hg)) => {
            let max = DatedAttendance { value: hv, date: hd, game: hg };
            let min = match (raw.attendance_low, raw.attendance_low_date, raw.attendance_low_game) {
                (Some(lv), Some(ld), Some(lg)) => DatedAttendance { value: lv, date: ld, game: lg },
                _ => max,
            };
            Some((min, max))
        },
        _ => None,
    }
}

/// The number a missing attendance total stands for: 0.
pub open spec fn total_or_zero(t: Option<u32>) -> u32 {
    match t {
        Some(v) => v,
        None => 0,
    }
}

impl AttendanceRecord {
    /// Turns a season of attendance as the API sends it into a record.
    pub fn from_annual(raw: AnnualRecord) -> (res: Self)
        ensures
            res.total_openings.home == raw.openings_total_home,
            res.total_openings.away == raw.openings_total_away,
            res.total_openings_lost == raw.openings_total_lost,
            res.total_games.home == raw.games_home_total,
            res.total_games.away == raw.games_away_total,
            res.season == raw.year,
            res.attendance_totals.home == total_or_zero(raw.attendance_total_home),
            res.attendance_totals.away == total_or_zero(raw.attendance_total_away),
            res.single_opening_min_max == annual_min_max(raw),
            res.game_type == raw.game_type,
    {
        let single_opening_min_max = match (raw.attendance_high, raw.attendance_high_date, raw.attendance_high_game) {
            (Some(hv), Some(hd), Some(hg)) => {
                let max = DatedAttendance { value: hv, date: hd, game: hg };
                let min = match (raw.attendance_low, raw.attendance_low_date, raw.attendance_low_game) {
                    (Some(lv), Some(ld), Some(lg)) => DatedAttendance { value: lv, date: ld, game: lg },
                    _ => max,
                };
                Some((min, max))
            },
            _ => None,
        };
        AttendanceRecord {
            total_openings: HomeAwaySplit { home: raw.openings_total_home, away: raw.openings_total_away },
            total_openings_lost: raw.openings_total_lost,
            total_games: HomeAwaySplit { home: raw.games_home_total, away: raw.games_away_total },
            season: raw.year,
            attendance_totals: HomeAwaySplit {
                home: match raw.attendance_total_home {
                    Some(v) => v,
                    None => 0,
                },
                away: match raw.attendance_total_away {
                    Some(v) => v,
                    None => 0,
                },
            },
            single_opening_min_max,
            game_type: raw.game_type,
        }
    }
}

/// Response of the `attendance` endpoint: one record per season and game type.
#[derive(Debug, Clone)]
pub struct AttendanceResponse {
    pub copyright: Copyright,
    pub annual_records: Vec<AttendanceRecord>,
}

/// Whether every total over all records fits in `u32`.
pub open spec fn totals_fit(s: Seq<AttendanceRecord>) -> bool {
    forall|k: int| 0 <= k < 7 ==> #[trigger] totals_sum(s, k) <= u32::MAX
}

impl AttendanceResponse {
    /// All records combined into one, starting from the empty record of `year`.
    pub fn aggregate_for_year(self, year: i32) -> (res: AttendanceRecord)
        requires
            totals_fit(self.annual_records@),
        ensures
            exists|init: AttendanceRecord| is_empty_record_for(init, year) && res == record_sum(init, self.annual_records@),
    {
        let init = AttendanceRecord::default_for_year(year);
        assert(sum_fits(init, self.annual_records@)) by {
            assert forall|k: int| 0 <= k < 7 implies #[trigger] total_of(init, k) + totals_sum(self.annual_records@, k) <= u32::MAX by {
                assert(totals_sum(self.annual_records@, k) <= u32::MAX);
            }
        }
        AttendanceRecord::sum_from(init, self.annual_records)
    }
}

/// Each total of an aggregate is the sum of that total over every record, since the empty
/// record starts from zero.
pub proof fn lemma_aggregate_totals(init: AttendanceRecord, year: i32, s: Seq<AttendanceRecord>)
    requires
        is_empty_record_for(init, year),
        totals_fit(s),
    ensures
        forall|k: int| 0 <= k < 7 ==> #[trigger] total_of(record_sum(init, s), k) == totals_sum(s, k),
{
    assert forall|k: int| 0 <= k < 7 implies #[trigger] total_of(init, k) + totals_sum(s, k) <= u32::MAX by {
        assert(totals_sum(s, k) <= u32::MAX);
    }
    lemma_record_sum_totals(init, s);
}


/// Whose attendance a request asks for.
#[derive(Debug, PartialEq, Eq, Structural, Copy, Clone)]
pub enum TeamOrLeague {
    Team(TeamId),
    League(LeagueId),
}

/// A request for [`AttendanceResponse`]: the attendance of a team or a league.
#[derive(Debug, Clone)]
pub struct AttendanceRequest {
    pub id: TeamOrLeague,
    pub season: Option<SeasonWithMinorId>,
    pub date: Option<Date>,
    pub game_type: GameType,
}

/// The text of an optional season.
pub open spec fn opt_season_text(s: Option<SeasonWithMinorId>) -> Option<Seq<char>> {
    match s {
        Some(v) => Some(season_text(v@)),
        None => None,
    }
}

/// The URL of an attendance request.
pub open spec fn attendance_url(r: AttendanceRequest) -> Seq<char> {
    "http://statsapi.mlb.com/api/v1/attendance"@ + query(
        seq![
            opt_num_kv("teamId"@, match r.id { TeamOrLeague::Team(t) => Some(t.0 as nat), _ => None }),
            opt_num_kv("leagueId"@, match r.id { TeamOrLeague::League(l) => Some(l.0 as nat), _ => None }),
            opt_text_kv("season"@, opt_season_text(r.season)),
            opt_date_kv("date"@, r.date),
            Some(kv("gameType"@, r.game_type.0@)),
        ],
    )
}

impl AttendanceRequest {
    /// Starts a request; the team or league must be given before it is built.
    pub fn builder() -> (res: AttendanceRequestBuilder)
        ensures
            res.id is None,
            res.season is None,
            res.date is None,
            default_game_type(res.game_type),
    {
        AttendanceRequestBuilder {
            id: None,
            season: None,
            date: None,
            game_type: GameType(String::from_str("R")),
        }
    }

    /// The URL of the request.
    pub fn to_string(&self) -> (res: String)
        ensures
            res@ == attendance_url(*self),
    {
        let team = match self.id {
            TeamOrLeague::Team(t) => Some(t.0),
            TeamOrLeague::League(_) => None,
        };
        let league = match self.id {
            TeamOrLeague::League(l) => Some(l.0),
            TeamOrLeague::Team(_) => None,
        };
        let season = match &self.season {
            Some(s) => Some(s.to_string()),
            None => None,
        };
        let pieces = vec![
            opt_num_param("teamId", team),
            opt_num_param("leagueId", league),
            opt_text_param("season", season),
            opt_date_param("date", self.date),
            text_param("gameType", self.game_type.0.as_str()),
        ];
        assert(opt_views(pieces@) =~= seq![
            opt_num_kv("teamId"@, match self.id { TeamOrLeague::Team(t) => Some(t.0 as nat), _ => None }),
            opt_num_kv("leagueId"@, match self.id { TeamOrLeague::League(l) => Some(l.0 as nat), _ => None }),
            opt_text_kv("season"@, opt_season_text(self.season)),
            opt_date_kv("date"@, self.date),
            Some(kv("gameType"@, self.game_type.0@)),
        ]);
        url_with_query("http://statsapi.mlb.com/api/v1/attendance", &pieces)
    }
}

/// Builder of an [`AttendanceRequest`].
#[derive(Debug, Clone)]
pub struct AttendanceRequestBuilder {
    pub id: Option<TeamOrLeague>,
    pub season: Option<SeasonWithMinorId>,
    pub date: Option<Date>,
    pub game_type: GameType,
}

impl AttendanceRequestBuilder {
    /// Asks for a team's attendance.
    pub fn team_id(self, id: TeamId) -> (res: Self)
        ensures
            res.id == Some(TeamOrLeague::Team(id)),
            res.season == self.season,
            res.date == self.date,
            res.game_type == self.game_type,
    {
        AttendanceRequestBuilder { id: Some(TeamOrLeague::Team(id)), ..self }
    }

    /// Asks for a league's attendance.
    pub fn league_id(self, id: LeagueId) -> (res: Self)
        ensures
            res.id == Some(TeamOrLeague::League(id)),
            res.season == self.season,
            res.date == self.date,
            res.game_type == self.game_type,
    {
        AttendanceRequestBuilder { id: Some(TeamOrLeague::League(id)), ..self }
    }

    /// Restricts the request to a season.
    pub fn season(self, season: SeasonWithMinorId) -> (res: Self)
        ensures
            res.id == self.id,
            res.season == Some(season),
            res.date == self.date,
            res.game_type == self.game_type,
    {
        AttendanceRequestBuilder { season: Some(season), ..self }
    }

    /// Restricts the request to a date.
    pub fn date(self, date: Date) -> (res: Self)
        ensures
            res.id == self.id,
            res.season == self.season,
            res.date == Some(date),
            res.game_type == self.game_type,
    {
        AttendanceRequestBuilder { date: Some(date), ..self }
    }

    /// Sets the game type.
    pub fn game_type(self, game_type: GameType) -> (res: Self)
        ensures
            res.id == self.id,
            res.season == self.season,
            res.date == self.date,
            res.game_type == game_type,
    {
        AttendanceRequestBuilder { game_type, ..self }
    }

    /// The request; the team or league must have been given.
    pub fn build(self) -> (res: AttendanceRequest)
        requires
            self.id is Some,
        ensures
            Some(res.id) == self.id,
            res.season == self.season,
            res.date == self.date,
            res.game_type == self.game_type,
    {
        AttendanceRequest {
            id: self.id.unwrap(),
            season: self.season,
            date: self.date,
            game_type: self.game_type,
        }
    }
}


/// The URL of an attendance request holds the team or the league, the season and the date
/// where they are given, and the game type.
pub proof fn lemma_attendance_url_holds_filters(r: AttendanceRequest)
    ensures
        r.id matches TeamOrLeague::Team(t) ==> crate::text::holds_entry(attendance_url(r), crate::text::kv("teamId"@, crate::text::dec(t.0 as nat))),
        r.id matches TeamOrLeague::League(l) ==> crate::text::holds_entry(attendance_url(r), crate::text::kv("leagueId"@, crate::text::dec(l.0 as nat))),
        r.season matches Some(s) ==> crate::text::holds_entry(attendance_url(r), crate::text::kv("season"@, season_text(s@))),
        r.date matches Some(d) ==> crate::text::holds_entry(attendance_url(r), crate::text::kv("date"@, crate::date::date_text(d@.0, d@.1, d@.2))),
        crate::text::holds_entry(attendance_url(r), crate::text::kv("gameType"@, r.game_type.0@)),
{
    let base = "http://statsapi.mlb.com/api/v1/attendance"@;
    let pieces = seq![
            opt_num_kv("teamId"@, match r.id { TeamOrLeague::Team(t) => Some(t.0 as nat), _ => None }),
            opt_num_kv("leagueId"@, match r.id { TeamOrLeague::League(l) => Some(l.0 as nat), _ => None }),
            opt_text_kv("season"@, opt_season_text(r.season)),
            opt_date_kv("date"@, r.date),
            Some(kv("gameType"@, r.game_type.0@)),
        ];
    assert(attendance_url(r) == base + query(pieces));
    crate::text::lemma_query_holds_entries(base, pieces);
}

} // verus!
