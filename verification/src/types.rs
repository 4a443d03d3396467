//! Types shared across endpoints.

use vstd::prelude::*;
use crate::text::{dec, push_char, push_dec, split_once, split_once_spec, parse_unsigned_spec, parse_u8, parse_u16};

verus! {

/// A value for the home team and one for the away team.
#[derive(Debug, PartialEq, Eq, Structural, Copy, Clone)]
pub struct HomeAwaySplit<T> {
    pub home: T,
    pub away: T,
}

impl<T> HomeAwaySplit<T> {
    /// Makes a split from its home and away values.
    pub fn new(home: T, away: T) -> (res: Self)
        ensures
            res.home == home,
            res.away == away,
    {
        HomeAwaySplit { home, away }
    }
}

/// A signed integer in decimal, with a `-` before negative values.
pub open spec fn int_text(n: int) -> Seq<char> {
    if n < 0 {
        seq!['-'] + dec((-n) as nat)
    } else {
        dec(n as nat)
    }
}

/// Appends a signed integer in decimal, as `Display` writes it.
pub fn push_int(s: &mut String, n: i32)
    ensures
        final(s)@ == old(s)@ + int_text(n as int),
{
    let ghost before = s@;
    if n < 0 {
        push_char(s, '-');
        let m: u64 = (0i64 - n as i64) as u64;
        push_dec(s, m);
        assert(s@ =~= before + int_text(n as int));
    } else {
        push_dec(s, n as u64);
    }
}

/// The copyright notice that the API sends with its responses.
#[derive(Debug, Clone)]
pub struct Copyright(pub String);

/// The notice for a given year.
pub open spec fn copyright_text(year: int) -> Seq<char> {
    "Copyright "@ + int_text(year)
        + " MLB Advanced Media, L.P.  Use of any content on this page acknowledges agreement to the terms posted here http://gdx.mlb.com/components/copyright.txt"@
}

impl Copyright {
    /// The notice that the API sends in the given year.
    pub fn for_year(year: i32) -> (res: Self)
        ensures
            res.0@ == copyright_text(year as int),
    {
        let mut s = String::from_str("Copyright ");
        push_int(&mut s, year);
        s.append(
            " MLB Advanced Media, L.P.  Use of any content on this page acknowledges agreement to the terms posted here http://gdx.mlb.com/components/copyright.txt",
        );
        Copyright(s)
    }
}

/// A fielding position.
#[derive(Debug, PartialEq, Eq, Structural, Copy, Clone)]
pub enum Position {
    Unknown,
    Pitcher,
    Catcher,
    FirstBaseman,
    SecondBaseman,
    ThirdBaseman,
    Shortstop,
    Leftfielder,
    Centerfielder,
    Rightfielder,
    Outfielder,
    DesignatedHitter,
    TwoWayPlayer,
}

/// The position of an abbreviation, as the API writes it.
pub open spec fn position_of(abbreviation: Seq<char>) -> Option<Position> {
    if abbreviation == "X"@ {
        Some(Position::Unknown)
    } else if abbreviation == "P"@ {
        Some(Position::Pitcher)
    } else if abbreviation == "C"@ {
        Some(Position::Catcher)
    } else if abbreviation == "1B"@ {
        Some(Position::FirstBaseman)
    } else if abbreviation == "2B"@ {
        Some(Position::SecondBaseman)
    } else if abbreviation == "3B"@ {
        Some(Position::ThirdBaseman)
    } else if abbreviation == "SS"@ {
        Some(Position::Shortstop)
    } else if abbreviation == "LF"@ {
        Some(Position::Leftfielder)
    } else if abbreviation == "CF"@ {
        Some(Position::Centerfielder)
    } else if abbreviation == "RF"@ {
        Some(Position::Rightfielder)
    } else if abbreviation == "OF"@ {
        Some(Position::Outfielder)
    } else if abbreviation == "DH"@ {
        Some(Position::DesignatedHitter)
    } else if abbreviation == "TWP"@ {
        Some(Position::TwoWayPlayer)
    } else {
        None
    }
}

/// The number the API writes for a position: 1 to 9 on the field, 10 for the designated
/// hitter, 0 for unknown, the code of `'0'` for a general outfielder and of `'Y'` for a two-way
/// player.
pub open spec fn position_number(p: Position) -> u8 {
    match p {
        Position::Unknown => 0u8,
        Position::Pitcher => 1,
        Position::Catcher => 2,
        Position::FirstBaseman => 3,
        Position::SecondBaseman => 4,
        Position::ThirdBaseman => 5,
        Position::Shortstop => 6,
        Position::Leftfielder => 7,
        Position::Centerfielder => 8,
        Position::Rightfielder => 9,
        Position::Outfielder => 48,
        Position::DesignatedHitter => 10,
        Position::TwoWayPlayer => 89,
    }
}

/// The abbreviations the API writes name the positions whose numbers it writes beside them:
/// `X` is 0, `P` 1, `C` 2, `1B` 3, `2B` 4, `3B` 5, `SS` 6, `LF` 7, `CF` 8, `RF` 9, `DH` 10,
/// `OF` the code of `'0'` and `TWP` the code of `'Y'`.
pub proof fn lemma_abbreviations_match_numbers()
    ensures
        position_of("X"@) matches Some(p) && position_number(p) == 0,
        position_of("P"@) matches Some(p) && position_number(p) == 1,
        position_of("C"@) matches Some(p) && position_number(p) == 2,
        position_of("1B"@) matches Some(p) && position_number(p) == 3,
        position_of("2B"@) matches Some(p) && position_number(p) == 4,
        position_of("3B"@) matches Some(p) && position_number(p) == 5,
        position_of("SS"@) matches Some(p) && position_number(p) == 6,
        position_of("LF"@) matches Some(p) && position_number(p) == 7,
        position_of("CF"@) matches Some(p) && position_number(p) == 8,
        position_of("RF"@) matches Some(p) && position_number(p) == 9,
        position_of("DH"@) matches Some(p) && position_number(p) == 10,
        position_of("OF"@) matches Some(p) && position_number(p) == 48,
        position_of("TWP"@) matches Some(p) && position_number(p) == 89,
{
    reveal_strlit("X");
    reveal_strlit("P");
    reveal_strlit("C");
    reveal_strlit("1B");
    reveal_strlit("2B");
    reveal_strlit("3B");
    reveal_strlit("SS");
    reveal_strlit("LF");
    reveal_strlit("CF");
    reveal_strlit("RF");
    reveal_strlit("OF");
    reveal_strlit("DH");
    reveal_strlit("TWP");
    assert("P"@ != "X"@) by {
        assert("P"@[0] != "X"@[0]);
    }
    assert("C"@ != "X"@ && "C"@ != "P"@) by {
        assert("C"@[0] != "X"@[0]);
        assert("C"@[0] != "P"@[0]);
    }
    assert("1B"@ != "X"@ && "1B"@ != "P"@ && "1B"@ != "C"@) by {
        assert("1B"@.len() != "X"@.len());
        assert("1B"@.len() != "P"@.len());
        assert("1B"@.len() != "C"@.len());
    }
    assert("2B"@ != "X"@ && "2B"@ != "P"@ && "2B"@ != "C"@ && "2B"@ != "1B"@) by {
        assert("2B"@.len() != "X"@.len());
        assert("2B"@.len() != "P"@.len());
        assert("2B"@.len() != "C"@.len());
        assert("2B"@[0] != "1B"@[0]);
    }
    assert("3B"@ != "X"@ && "3B"@ != "P"@ && "3B"@ != "C"@ && "3B"@ != "1B"@ && "3B"@ != "2B"@) by {
        assert("3B"@.len() != "X"@.len());
        assert("3B"@.len() != "P"@.len());
        assert("3B"@.len() != "C"@.len());
        assert("3B"@[0] != "1B"@[0]);
        assert("3B"@[0] != "2B"@[0]);
    }
    assert("SS"@ != "X"@ && "SS"@ != "P"@ && "SS"@ != "C"@ && "SS"@ != "1B"@ && "SS"@ != "2B"@ && "SS"@ != "3B"@) by {
        assert("SS"@.len() != "X"@.len());
        assert("SS"@.len() != "P"@.len());
        assert("SS"@.len() != "C"@.len());
        assert("SS"@[0] != "1B"@[0]);
        assert("SS"@[0] != "2B"@[0]);
        assert("SS"@[0] != "3B"@[0]);
    }
    assert("LF"@ != "X"@ && "LF"@ != "P"@ && "LF"@ != "C"@ && "LF"@ != "1B"@ && "LF"@ != "2B"@ && "LF"@ != "3B"@ && "LF"@ != "SS"@) by {
        assert("LF"@.len() != "X"@.len());
        assert("LF"@.len() != "P"@.len());
        assert("LF"@.len() != "C"@.len());
        assert("LF"@[0] != "1B"@[0]);
        assert("LF"@[0] != "2B"@[0]);
        assert("LF"@[0] != "3B"@[0]);
        assert("LF"@[0] != "SS"@[0]);
    }
    assert("CF"@ != "X"@ && "CF"@ != "P"@ && "CF"@ != "C"@ && "CF"@ != "1B"@ && "CF"@ != "2B"@ && "CF"@ != "3B"@ && "CF"@ != "SS"@ && "CF"@ != "LF"@) by {
        assert("CF"@.len() != "X"@.len());
        assert("CF"@.len() != "P"@.len());
        assert("CF"@.len() != "C"@.len());
        assert("CF"@[0] != "1B"@[0]);
        assert("CF"@[0] != "2B"@[0]);
        assert("CF"@[0] != "3B"@[0]);
        assert("CF"@[0] != "SS"@[0]);
        assert("CF"@[0] != "LF"@[0]);
    }
    assert("RF"@ != "X"@ && "RF"@ != "P"@ && "RF"@ != "C"@ && "RF"@ != "1B"@ && "RF"@ != "2B"@ && "RF"@ != "3B"@ && "RF"@ != "SS"@ && "RF"@ != "LF"@ && "RF"@ != "CF"@) by {
        assert("RF"@.len() != "X"@.len());
        assert("RF"@.len() != "P"@.len());
        assert("RF"@.len() != "C"@.len());
        assert("RF"@[0] != "1B"@[0]);
        assert("RF"@[0] != "2B"@[0]);
        assert("RF"@[0] != "3B"@[0]);
        assert("RF"@[0] != "SS"@[0]);
        assert("RF"@[0] != "LF"@[0]);
        assert("RF"@[0] != "CF"@[0]);
    }
    assert("OF"@ != "X"@ && "OF"@ != "P"@ && "OF"@ != "C"@ && "OF"@ != "1B"@ && "OF"@ != "2B"@ && "OF"@ != "3B"@ && "OF"@ != "SS"@ && "OF"@ != "LF"@ && "OF"@ != "CF"@ && "OF"@ != "RF"@) by {
        assert("OF"@.len() != "X"@.len());
        assert("OF"@.len() != "P"@.len());
        assert("OF"@.len() != "C"@.len());
        assert("OF"@[0] != "1B"@[0]);
        assert("OF"@[0] != "2B"@[0]);
        assert("OF"@[0] != "3B"@[0]);
        assert("OF"@[0] != "SS"@[0]);
        assert("OF"@[0] != "LF"@[0]);
        assert("OF"@[0] != "CF"@[0]);
        assert("OF"@[0] != "RF"@[0]);
    }
    assert("DH"@ != "X"@ && "DH"@ != "P"@ && "DH"@ != "C"@ && "DH"@ != "1B"@ && "DH"@ != "2B"@ && "DH"@ != "3B"@ && "DH"@ != "SS"@ && "DH"@ != "LF"@ && "DH"@ != "CF"@ && "DH"@ != "RF"@ && "DH"@ != "OF"@) by {
        assert("DH"@.len() != "X"@.len());
        assert("DH"@.len() != "P"@.len());
        assert("DH"@.len() != "C"@.len());
        assert("DH"@[0] != "1B"@[0]);
        assert("DH"@[0] != "2B"@[0]);
        assert("DH"@[0] != "3B"@[0]);
        assert("DH"@[0] != "SS"@[0]);
        assert("DH"@[0] != "LF"@[0]);
        assert("DH"@[0] != "CF"@[0]);
        assert("DH"@[0] != "RF"@[0]);
        assert("DH"@[0] != "OF"@[0]);
    }
    assert("TWP"@ != "X"@ && "TWP"@ != "P"@ && "TWP"@ != "C"@ && "TWP"@ != "1B"@ && "TWP"@ != "2B"@ && "TWP"@ != "3B"@ && "TWP"@ != "SS"@ && "TWP"@ != "LF"@ && "TWP"@ != "CF"@ && "TWP"@ != "RF"@ && "TWP"@ != "OF"@ && "TWP"@ != "DH"@) by {
        assert("TWP"@.len() != "X"@.len());
        assert("TWP"@.len() != "P"@.len());
        assert("TWP"@.len() != "C"@.len());
        assert("TWP"@.len() != "1B"@.len());
        assert("TWP"@.len() != "2B"@.len());
        assert("TWP"@.len() != "3B"@.len());
        assert("TWP"@.len() != "SS"@.len());
        assert("TWP"@.len() != "LF"@.len());
        assert("TWP"@.len() != "CF"@.len());
        assert("TWP"@.len() != "RF"@.len());
        assert("TWP"@.len() != "OF"@.len());
        assert("TWP"@.len() != "DH"@.len());
    }
}

/// No two abbreviations name the same position.
pub proof fn lemma_abbreviations_name_each_position_once()
    ensures
        forall|a: Seq<char>, b: Seq<char>|
            #![trigger position_of(a), position_of(b)]
            position_of(a) is Some && position_of(a) == position_of(b) ==> a == b,
{
}

/// Compares two strings by their characters.
pub fn str_eq(a: &str, b: &str) -> (res: bool)
    ensures
        res == (a@ == b@),
{
    let n = a.unicode_len();
    if n != b.unicode_len() {
        return false;
    }
    let mut i: usize = 0;
    while i < n
        invariant
            n == a@.len(),
            n == b@.len(),
            i <= n,
            forall|j: int| 0 <= j < i ==> a@[j] == b@[j],
        decreases n - i,
    {
        if a.get_char(i) != b.get_char(i) {
            return false;
        }
        i = i + 1;
    }
    assert(a@ =~= b@);
    true
}

impl Position {
    /// The position of an abbreviation (`P`, `C`, `1B`, ..., `DH`, `TWP`, or `X` for unknown);
    /// `None` for any other text.
    pub fn from_abbreviation(abbreviation: &str) -> (res: Option<Position>)
        ensures
            res == position_of(abbreviation@),
    {
        if str_eq(abbreviation, "X") {
            Some(Position::Unknown)
        } else if str_eq(abbreviation, "P") {
            Some(Position::Pitcher)
        } else if str_eq(abbreviation, "C") {
            Some(Position::Catcher)
        } else if str_eq(abbreviation, "1B") {
            Some(Position::FirstBaseman)
        } else if str_eq(abbreviation, "2B") {
            Some(Position::SecondBaseman)
        } else if str_eq(abbreviation, "3B") {
            Some(Position::ThirdBaseman)
        } else if str_eq(abbreviation, "SS") {
            Some(Position::Shortstop)
        } else if str_eq(abbreviation, "LF") {
            Some(Position::Leftfielder)
        } else if str_eq(abbreviation, "CF") {
            Some(Position::Centerfielder)
        } else if str_eq(abbreviation, "RF") {
            Some(Position::Rightfielder)
        } else if str_eq(abbreviation, "OF") {
            Some(Position::Outfielder)
        } else if str_eq(abbreviation, "DH") {
            Some(Position::DesignatedHitter)
        } else if str_eq(abbreviation, "TWP") {
            Some(Position::TwoWayPlayer)
        } else {
            None
        }
    }

    /// Reads a position from its code and abbreviation, as the API sends them; an unknown
    /// abbreviation gives a message that names it and the code.
    pub fn from_api(code: &str, abbreviation: &str) -> (res: Result<Position, String>)
        ensures
            match res {
                Ok(p) => position_of(abbreviation@) == Some(p),
                Err(m) => position_of(abbreviation@) is None && m@ == "Invalid player position '"@ + abbreviation@
                    + "' (code = "@ + code@ + ")"@,
            },
    {
        match Position::from_abbreviation(abbreviation) {
            Some(p) => Ok(p),
            None => {
                let mut m = String::from_str("Invalid player position '");
                m.append(abbreviation);
                m.append("' (code = ");
                m.append(code);
                m.append(")");
                Err(m)
            },
        }
    }

    /// The position's number: 1 to 9 on the field, 10 for the designated hitter, 0 for unknown,
    /// the code of `'0'` for a general outfielder and of `'Y'` for a two-way player.
    pub fn code(self) -> (res: u8)
        ensures
            res == position_number(self),
    {
        match self {
            Position::Unknown => 0,
            Position::Pitcher => 1,
            Position::Catcher => 2,
            Position::FirstBaseman => 3,
            Position::SecondBaseman => 4,
            Position::ThirdBaseman => 5,
            Position::Shortstop => 6,
            Position::Leftfielder => 7,
            Position::Centerfielder => 8,
            Position::Rightfielder => 9,
            Position::Outfielder => 48,
            Position::DesignatedHitter => 10,
            Position::TwoWayPlayer => 89,
        }
    }
}

/// A height, in feet and inches or in centimeters.
#[derive(Debug, PartialEq, Eq, Structural, Copy, Clone)]
pub enum HeightMeasurement {
    FeetAndInches { feet: u8, inches: u8 },
    Centimeters { cm: u16 },
}

/// Why a height could not be read.
#[derive(Debug, Clone)]
pub enum HeightMeasurementParseError {
    /// A number in it is not a valid integer of its type.
    ParseIntError,
    /// It matches neither `F' I"` nor `Ncm`; the text is kept.
    UnknownSpec(String),
}

/// What is wrong with the text of a height.
#[derive(Debug, PartialEq, Eq, Structural, Copy, Clone)]
pub enum HeightProblem {
    /// A number in it is not a valid integer of its type.
    BadNumber,
    /// It matches neither `F' I"` nor `Ncm`.
    UnknownForm,
}

/// What reading a height gives: `F' I"` (feet, a quote, a space, inches, a double quote at the
/// very end), else `Ncm` (centimeters, then `cm` at the very end).
pub open spec fn height_spec(s: Seq<char>) -> Result<HeightMeasurement, HeightProblem> {
    match split_once_spec(s, "' "@) {
        Some((feet, rest)) if split_once_spec(rest, "\""@) matches Some((inches, tail)) && tail.len()
            == 0 => {
            let (inches, tail) = split_once_spec(rest, "\""@).unwrap();
            match (parse_unsigned_spec(feet, 255), parse_unsigned_spec(inches, 255)) {
                (Some(f), Some(i)) => Ok(HeightMeasurement::FeetAndInches { feet: f as u8, inches: i as u8 }),
                _ => Err(HeightProblem::BadNumber),
            }
        },
        _ => match split_once_spec(s, "cm"@) {
            Some((cm, tail)) if tail.len() == 0 => match parse_unsigned_spec(cm, 65535) {
                Some(c) => Ok(HeightMeasurement::Centimeters { cm: c as u16 }),
                None => Err(HeightProblem::BadNumber),
            },
            _ => Err(HeightProblem::UnknownForm),
        },
    }
}

/// A height written as the API writes it reads back as that height: feet, `' `, inches and
/// `"` give those feet and inches, and centimeters followed by `cm` give those centimeters.
pub proof fn lemma_height_text_round_trip(feet: u8, inches: u8, cm: u16)
    ensures
        height_spec(dec(feet as nat) + "' "@ + dec(inches as nat) + "\""@) == Ok::<HeightMeasurement, HeightProblem>(
            HeightMeasurement::FeetAndInches { feet, inches },
        ),
        height_spec(dec(cm as nat) + "cm"@) == Ok::<HeightMeasurement, HeightProblem>(
            HeightMeasurement::Centimeters { cm },
        ),
{
    reveal_strlit("' ");
    reveal_strlit("\"");
    reveal_strlit("cm");
    crate::text::lemma_dec_digits(feet as nat);
    crate::text::lemma_dec_digits(inches as nat);
    crate::text::lemma_dec_digits(cm as nat);
    crate::text::lemma_parse_dec(feet as nat, 255);
    crate::text::lemma_parse_dec(inches as nat, 255);
    crate::text::lemma_parse_dec(cm as nat, 65535);
    let f = dec(feet as nat);
    let i = dec(inches as nat);
    let rest = i + "\""@;
    assert(f + "' "@ + i + "\""@ =~= f + "' "@ + rest);
    crate::text::lemma_split_after_digits(f, "' "@, rest);
    assert(i + "\""@ =~= i + "\""@ + Seq::<char>::empty());
    crate::text::lemma_split_after_digits(i, "\""@, Seq::<char>::empty());
    let c = dec(cm as nat);
    let t = c + "cm"@;
    assert forall|k: int| 0 <= k < t.len() implies t[k] != "' "@[0] by {
        if k < c.len() {
            assert(t[k] == c[k]);
            assert(crate::text::is_digit(c[k]));
        }
    }
    crate::text::lemma_split_absent(t, "' "@);
    assert(c + "cm"@ =~= c + "cm"@ + Seq::<char>::empty());
    crate::text::lemma_split_after_digits(c, "cm"@, Seq::<char>::empty());
}

impl HeightMeasurement {
    /// Reads a height such as `6' 2"` or `188cm`.
    pub fn parse(s: &str) -> (res: Result<HeightMeasurement, HeightMeasurementParseError>)
        ensures
            match res {
                Ok(h) => height_spec(s@) == Ok::<HeightMeasurement, HeightProblem>(h),
                Err(HeightMeasurementParseError::ParseIntError) => height_spec(s@) == Err::<
                    HeightMeasurement,
                    HeightProblem,
                >(HeightProblem::BadNumber),
                Err(HeightMeasurementParseError::UnknownSpec(t)) => height_spec(s@) == Err::<
                    HeightMeasurement,
                    HeightProblem,
                >(HeightProblem::UnknownForm) && t@ == s@,
            },
    {
        match split_once(s, "' ") {
            Some((feet, rest)) => {
                match split_once(rest, "\"") {
                    Some((inches, tail)) => {
                        if tail.unicode_len() == 0 {
                            let f = parse_u8(feet);
                            let i = parse_u8(inches);
                            return match (f, i) {
                                (Some(f), Some(i)) => Ok(HeightMeasurement::FeetAndInches { feet: f, inches: i }),
                                _ => Err(HeightMeasurementParseError::ParseIntError),
                            };
                        }
                    },
                    None => {},
                }
            },
            None => {},
        }
        match split_once(s, "cm") {
            Some((cm, tail)) => {
                if tail.unicode_len() == 0 {
                    match parse_u16(cm) {
                        Some(c) => Ok(HeightMeasurement::Centimeters { cm: c }),
                        None => Err(HeightMeasurementParseError::ParseIntError),
                    }
                } else {
                    Err(HeightMeasurementParseError::UnknownSpec(s.to_owned()))
                }
            },
            None => Err(HeightMeasurementParseError::UnknownSpec(s.to_owned())),
        }
    }
}

/// A gender, as the API writes it (`M`, `F`, anything else).
#[derive(Debug, PartialEq, Eq, Structural, Copy, Clone)]
pub enum Gender {
    Male,
    Female,
    Other,
}

impl Gender {
    /// `M` is male, `F` female, any other code other.
    pub fn from_code(code: &str) -> (res: Gender)
        ensures
            res == (if code@ == "M"@ {
                Gender::Male
            } else if code@ == "F"@ {
                Gender::Female
            } else {
                Gender::Other
            }),
    {
        if str_eq(code, "M") {
            Gender::Male
        } else if str_eq(code, "F") {
            Gender::Female
        } else {
            Gender::Other
        }
    }
}

/// The side a batter hits from or a pitcher throws with.
#[derive(Debug, PartialEq, Eq, Structural, Copy, Clone)]
pub enum Handedness {
    Left,
    Right,
}

impl Handedness {
    /// `L` is left, `R` right; any other code is refused.
    pub fn from_code(code: &str) -> (res: Option<Handedness>)
        ensures
            res == (if code@ == "L"@ {
                Some(Handedness::Left)
            } else if code@ == "R"@ {
                Some(Handedness::Right)
            } else {
                None
            }),
    {
        if str_eq(code, "L") {
            Some(Handedness::Left)
        } else if str_eq(code, "R") {
            Some(Handedness::Right)
        } else {
            None
        }
    }
}

} // verus!
