use mlb_api::attendance::{SeasonParseError, SeasonWithMinorId};
use mlb_api::date::Date;
use mlb_api::draft::{get_default_headshot, DraftType, DraftTypeParseError};
use mlb_api::game::{
    parse_wind, person_id_from_key, AtBatCount, Base, BattingOrderIndex, ContactHardness, DoubleHeaderKind, Inning,
    InningHalf, OfficialType, PlayerKeyError, RHERaw, RHE,
};
use mlb_api::ids::{PersonId, SeasonId};
use mlb_api::plays::{CreditKind, MovementReason};
use mlb_api::roster::RosterStatus;
use mlb_api::text::{parse_i32, parse_u32};
use mlb_api::types::{Gender, Handedness, HeightMeasurement, HeightMeasurementParseError, Position};

#[test]
fn roster_status_codes() {
    assert_eq!(RosterStatus::from_code("A", "Active"), Ok(RosterStatus::Active));
    assert_eq!(RosterStatus::from_code("D7", "Injured 7-Day"), Ok(RosterStatus::InjuryLeave10Day));
    assert_eq!(RosterStatus::from_code("D10", "Injured 10-Day"), Ok(RosterStatus::InjuryLeave10Day));
    assert_eq!(RosterStatus::from_code("D60", "Injured 60-Day"), Ok(RosterStatus::InjuryLeave60Day));
    assert_eq!(RosterStatus::from_code("ASG", "Assigned"), Ok(RosterStatus::AssignedToNewTeam));
    assert_eq!(RosterStatus::from_code("XX", "Who knows"), Err("Invalid code 'XX' (desc: Who knows)".to_string()));
}

#[test]
fn draft_types() {
    assert_eq!(DraftType::from_code("JR".to_string()).ok(), Some(DraftType::JR));
    match DraftType::from_code("JS".to_string()) {
        Err(DraftTypeParseError::InvalidCode(c)) => assert_eq!(c, "JS"),
        Ok(_) => panic!("JS is not read"),
    }
    assert_eq!(DraftType::JR.to_string(), "June Amateur Draft");
    assert_eq!(DraftType::AD.to_string(), "AD");
    assert!(get_default_headshot().ends_with("/people/0/headshot/draft/current"));
}

#[test]
fn bases() {
    assert_eq!(Base::from_text("1B"), Some(Base::First));
    assert_eq!(Base::from_text("2"), Some(Base::Second));
    assert_eq!(Base::from_text("3B"), Some(Base::Third));
    assert_eq!(Base::from_text("score"), Some(Base::Home));
    assert_eq!(Base::from_text("4"), Some(Base::Home));
    assert_eq!(Base::from_text("5B"), None);
    assert_eq!(Base::from_number(4), Some(Base::Home));
    assert_eq!(Base::from_number(0), None);
    assert_eq!(Base::Home.to_string(), "HP");
    assert_eq!(Base::Second.to_string(), "2B");
    assert!(Base::First < Base::Second && Base::Third < Base::Home);
}

#[test]
fn inning_halves() {
    assert_eq!(InningHalf::from_name("Top"), Some(InningHalf::Top));
    assert_eq!(InningHalf::from_name("bottom"), Some(InningHalf::Bottom));
    assert_eq!(InningHalf::from_name("TOP"), None);
    assert_eq!(InningHalf::Top.not(), InningHalf::Bottom);
    assert_eq!(InningHalf::Bottom.not().not(), InningHalf::Bottom);
    assert_eq!(InningHalf::Top.unicode_char_filled(), '\u{25B2}');
    assert_eq!(InningHalf::Bottom.unicode_char_empty(), '\u{25BD}');
    assert_eq!(InningHalf::Bottom.three_char(), "Bot");
    assert_eq!(InningHalf::Top.three_char(), "Top");
}

#[test]
fn innings_and_counts() {
    assert_eq!(Inning(1).to_string(), "1st");
    assert_eq!(Inning(2).to_string(), "2nd");
    assert_eq!(Inning(3).to_string(), "3rd");
    assert_eq!(Inning(11).to_string(), "11th");
    assert_eq!(Inning(22).to_string(), "22nd");
    assert_eq!(AtBatCount { balls: 3, strikes: 2, outs: 2 }.to_string(), "3-2 (2 out)");
}

#[test]
fn batting_order_positions() {
    let b = BattingOrderIndex::parse("101").unwrap();
    assert_eq!(b, BattingOrderIndex { major: 1, minor: 1 });
    assert_eq!(b.to_string(), "1st (2)");
    assert_eq!(BattingOrderIndex::from_number(300).to_string(), "3rd");
    assert_eq!(BattingOrderIndex::from_number(912).to_string(), "9th (13)");
    assert_eq!(BattingOrderIndex::parse("x"), None);
}

#[test]
fn rhe_lines() {
    let played = RHE::from_raw(RHERaw { runs: Some(3), hits: 5, errors: 1, left_on_base: 2 });
    assert_eq!(played, RHE { runs: 3, hits: 5, errors: 1, left_on_base: 2, was_inning_half_played: true });
    let unplayed = RHE::from_raw(RHERaw { runs: None, hits: 0, errors: 0, left_on_base: 0 });
    assert_eq!(unplayed.runs, 0);
    assert!(!unplayed.was_inning_half_played);
}

#[test]
fn small_codes() {
    assert_eq!(DoubleHeaderKind::from_code("S"), Some(DoubleHeaderKind::SecondGame));
    assert_eq!(DoubleHeaderKind::from_code("Q"), None);
    assert!(DoubleHeaderKind::FirstGame.is_double_header());
    assert!(!DoubleHeaderKind::Not.is_double_header());
    assert_eq!(OfficialType::from_name("Left Field"), Some(OfficialType::LeftField));
    assert_eq!(OfficialType::from_name("Home"), None);
    assert_eq!(ContactHardness::from_name("hard"), Some(ContactHardness::Hard));
    assert_eq!(ContactHardness::from_name("Hard"), None);
    assert_eq!(Gender::from_code("F"), Gender::Female);
    assert_eq!(Gender::from_code("?"), Gender::Other);
    assert_eq!(Handedness::from_code("L"), Some(Handedness::Left));
    assert_eq!(Position::from_abbreviation("SS"), Some(Position::Shortstop));
    assert_eq!(Position::from_abbreviation("QB"), None);
    assert_eq!(Position::from_api("Y", "TWP"), Ok(Position::TwoWayPlayer));
    assert_eq!(Position::from_api("?", "QB"), Err("Invalid player position 'QB' (code = ?)".to_string()));
    assert_eq!(Position::Outfielder.code(), b'0');
}

#[test]
fn wind_texts() {
    assert_eq!(parse_wind("5 mph, Out To CF"), Ok((5, "Out To CF")));
    assert_eq!(parse_wind("-3 mph, Calm"), Ok((-3, "Calm")));
    assert_eq!(parse_wind("x mph, Calm"), Err("invalid wind speed"));
    assert_eq!(parse_wind("5mph Calm"), Err("invalid wind format"));
}

#[test]
fn player_keys() {
    assert_eq!(person_id_from_key("ID660271"), Ok(PersonId(660271)));
    assert_eq!(person_id_from_key("660271"), Err(PlayerKeyError::InvalidFormat));
    assert_eq!(person_id_from_key("IDx"), Err(PlayerKeyError::InvalidNumber));
    assert_eq!(person_id_from_key("ID"), Err(PlayerKeyError::InvalidNumber));
}

#[test]
fn integers_read_as_std_reads_them() {
    assert_eq!(parse_i32("-2147483648"), Some(i32::MIN));
    assert_eq!(parse_i32("2147483647"), Some(i32::MAX));
    assert_eq!(parse_i32("2147483648"), None);
    assert_eq!(parse_i32("+5"), Some(5));
    assert_eq!(parse_i32("-+5"), None);
    assert_eq!(parse_i32("-"), None);
    assert_eq!(parse_i32(""), None);
    assert_eq!(parse_u32("4294967295"), Some(u32::MAX));
    assert_eq!(parse_u32("4294967296"), None);
    assert_eq!(parse_u32("+"), None);
    for s in ["0", "12", "+7", "-1", "1a", "99999999999"] {
        assert_eq!(parse_i32(s), s.parse::<i32>().ok());
        assert_eq!(parse_u32(s), s.parse::<u32>().ok());
    }
}

#[test]
fn heights() {
    assert_eq!(HeightMeasurement::parse("6' 2\"").ok(), Some(HeightMeasurement::FeetAndInches { feet: 6, inches: 2 }));
    assert_eq!(HeightMeasurement::parse("188cm").ok(), Some(HeightMeasurement::Centimeters { cm: 188 }));
    assert!(matches!(HeightMeasurement::parse("6' x\""), Err(HeightMeasurementParseError::ParseIntError)));
    assert!(matches!(HeightMeasurement::parse("188cmx"), Err(HeightMeasurementParseError::UnknownSpec(t)) if t == "188cmx"));
    assert!(matches!(HeightMeasurement::parse("tall"), Err(HeightMeasurementParseError::UnknownSpec(t)) if t == "tall"));
    assert!(matches!(HeightMeasurement::parse("6' 2\"x"), Err(HeightMeasurementParseError::UnknownSpec(_))));
}

#[test]
fn seasons_round_trip() {
    let s = SeasonWithMinorId::parse("2018.2").unwrap();
    assert_eq!(s.season(), SeasonId(2018));
    assert_eq!(s.minor(), Some(2));
    assert_eq!(s.to_string(), "2018.2");
    assert_eq!(SeasonWithMinorId::parse("2024").unwrap().to_string(), "2024");
    assert_eq!(SeasonWithMinorId::parse("2018.0"), Err(SeasonParseError::ZeroMinor));
    assert_eq!(SeasonWithMinorId::parse("20x"), Err(SeasonParseError::InvalidNumber));
}

#[test]
fn dates() {
    assert!(Date::from_ymd_opt(2024, 2, 29).is_some());
    assert!(Date::from_ymd_opt(2023, 2, 29).is_none());
    assert_eq!(Date::from_ymd_opt(987, 3, 4).unwrap().to_api_string(), "0987-03-04");
}

#[test]
fn movement_reasons() {
    assert!(MovementReason::StolenBase2B.is_stolen_base());
    assert!(MovementReason::StolenBase2B.is_stolen_base_attempt());
    assert!(!MovementReason::StolenBase2B.is_pickoff());
    assert!(MovementReason::PickoffCaughtStealingHome.is_pickoff());
    assert!(MovementReason::PickoffCaughtStealingHome.is_stolen_base_attempt());
    assert!(!MovementReason::PickoffCaughtStealingHome.is_stolen_base());
    assert!(MovementReason::CaughtStealing3B.is_stolen_base_attempt());
    assert!(!MovementReason::Rundown.is_stolen_base_attempt());
    assert_eq!(MovementReason::PickoffError2B.to_string(), "Pickoff (Error) (2B)");
    assert_eq!(CreditKind::CatchersInterference.to_string(), "Catcher's Interference");
}
