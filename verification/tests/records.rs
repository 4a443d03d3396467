use mlb_api::date::Date;
use mlb_api::game::{DayHalf, DayNight, GameDateTime, GameDateTimeRaw};
use mlb_api::device::{Asset, ImageData};
use mlb_api::ids::{AssetId, GameType, PersonId, SportId, TeamId, TransactionId, UniformAssetId, VenueId};
use mlb_api::roster::{IdentifiableUniformAsset, UniformAsset};
use mlb_api::sports::{IdentifiableSport, NamedSport, Sport};
use mlb_api::stats::{StatLeaders, StatLeadersRaw};
use mlb_api::teams::{IdentifiableTeam, Team, TeamName, UnhydratedTeamName};
use mlb_api::timestamps::{DateTimeParts, SimplifiedTimestamp};
use mlb_api::transactions::{Transaction, TransactionCommon, TransactionDates};
use mlb_api::venue::{IdentifiableVenue, NamedVenue, Venue};

fn parts(year: i32, month: u32, day: u32, hour: u32, minute: u32, second: u32, nanosecond: u32) -> DateTimeParts {
    DateTimeParts { year, month, day, hour, minute, second, nanosecond }
}

#[test]
fn simplified_timestamps_read_and_display() {
    let t = SimplifiedTimestamp::from_str("20251231_235959").unwrap();
    assert_eq!(t.parts(), parts(2025, 12, 31, 23, 59, 59, 0));
    assert_eq!(t.to_string(), "20251231_235959");
    assert!(SimplifiedTimestamp::from_str("2025-12-31").is_err());
    let leap = SimplifiedTimestamp::from_parts(parts(2016, 12, 31, 23, 59, 59, 1_500_000_000)).unwrap();
    assert_eq!(leap.to_string(), "20161231_235960");
    assert!(SimplifiedTimestamp::from_parts(parts(2016, 12, 31, 23, 58, 30, 1_500_000_000)).is_none());
    assert!(SimplifiedTimestamp::from_parts(parts(2023, 2, 29, 0, 0, 0, 0)).is_none());
    let same = SimplifiedTimestamp::from_str("20250505_010203").unwrap();
    assert_eq!(SimplifiedTimestamp::from_str(&same.to_string()).unwrap(), same);
    assert_eq!(SimplifiedTimestamp::from_str(&t.to_string()).unwrap(), t);
}

#[test]
fn asset_ids() {
    let at = chrono::NaiveDate::from_ymd_opt(2024, 1, 2).unwrap().and_hms_opt(3, 4, 5).unwrap();
    let a = Asset::BinaryAsset { id: AssetId(7), timestamp: at, binary_file_url: "u".to_string() };
    assert_eq!(a.id(), AssetId(7));
    let b = Asset::ShortContent {
        id: AssetId(8),
        timestamp: at,
        title: "t".to_string(),
        description: "d".to_string(),
        url: "u".to_string(),
        image: ImageData { title: None, alt_text: None },
    };
    assert_eq!(b.clone().id(), AssetId(8));
}

fn common(id: u32, description: &str) -> TransactionCommon {
    TransactionCommon {
        id: TransactionId(id),
        description: description.to_string(),
        dates: TransactionDates { date: Date::from_ymd_opt(2025, 3, 1).unwrap(), effective_date: None, resolution_date: None },
    }
}

#[test]
fn transactions_share_a_common_part() {
    let team = Team::Identifiable(IdentifiableTeam { id: TeamId(141) });
    let mut t = Transaction::Trade {
        common: common(477955, "Traded for cash."),
        person: None,
        source_team: team.clone(),
        destination_team: Team::Identifiable(IdentifiableTeam { id: TeamId(147) }),
    };
    assert_eq!(t.common().id, TransactionId(477955));
    assert_eq!(t.to_string(), "Traded for cash.");
    t.common_mut().description = "Traded.".to_string();
    assert_eq!(t.to_string(), "Traded.");
    match &t {
        Transaction::Trade { destination_team, person, .. } => {
            assert_eq!(destination_team.id(), TeamId(147));
            assert_eq!(*person, None);
        },
        _ => panic!("still a trade"),
    }
    let s = Transaction::Signed { common: common(1, "Signed."), person: PersonId(5), team };
    assert_eq!(s.common().description, "Signed.");
}

#[test]
fn identities_change_in_place() {
    let mut v = Venue::Named(NamedVenue { name: "Rogers Centre".to_string(), inner: IdentifiableVenue { id: VenueId(14) } });
    v.identity_mut().id = VenueId(15);
    assert_eq!(v.id(), VenueId(15));
    match &v {
        Venue::Named(n) => assert_eq!(n.name, "Rogers Centre"),
        _ => panic!("still named"),
    }
    let mut s = Sport::Named(NamedSport { name: "MLB".to_string(), inner: IdentifiableSport { id: SportId(1) } });
    s.identity_mut().id = SportId(11);
    assert_eq!(s.id(), SportId(11));
    let mut t = Team::Identifiable(IdentifiableTeam { id: TeamId(1) });
    t.identity_mut().id = TeamId(2);
    assert_eq!(t.id(), TeamId(2));
    let mut u = UniformAsset::Identifiable(IdentifiableUniformAsset { id: UniformAssetId(3), code: "141_x".to_string() });
    u.identity_mut().id = UniformAssetId(4);
    assert_eq!(u.id(), UniformAssetId(4));
    let mut n = TeamName::Unhydrated(UnhydratedTeamName { name: "A".to_string() });
    n.name_mut().name = "B".to_string();
    assert_eq!(n.name(), "B");
}

#[test]
fn stat_leaders_from_the_response() {
    let l = StatLeaders::from_raw(StatLeadersRaw {
        leader_category: "homeRuns".to_string(),
        game_type: GameType("R".to_string()),
        leaders: vec![],
        stat_group: "hitting".to_string(),
        total_splits: 250,
    });
    assert_eq!(l.category.0, "homeRuns");
    assert_eq!(l.stat_group.0, "hitting");
    assert_eq!(l.total_splits, 250);
}

#[test]
fn dates_of_date_times() {
    let d = Date::from_datetime_text("2015-09-18T23:56:04").unwrap();
    assert_eq!((d.year(), d.month(), d.day()), (2015, 9, 18));
    let d = Date::from_datetime_text("2019-07-04T19:10:30.5").unwrap();
    assert_eq!(d.to_api_string(), "2019-07-04");
    assert!(Date::from_datetime_text("2015-09-18").is_none());
    assert!(Date::from_datetime_text("2015-09-18T23:56:04Z").is_none());
    assert!(Date::from_datetime_text("foo").is_none());
}

#[test]
fn game_times_on_a_24_hour_clock() {
    let day = Date::from_ymd_opt(2024, 7, 4).unwrap();
    let raw = |hour: u32, ampm: DayHalf| GameDateTimeRaw {
        datetime_date: day,
        hour,
        minute: 5,
        second: 0,
        ampm,
        original_date: day,
        official_date: day,
        sky: DayNight::Night,
    };
    let t = GameDateTime::from_raw(raw(7, DayHalf::PM));
    assert_eq!((t.hour, t.minute, t.second), (19, 5, 0));
    assert_eq!(t.date, day);
    assert_eq!(t.sky, DayNight::Night);
    assert_eq!(GameDateTime::from_raw(raw(12, DayHalf::AM)).hour, 0);
    assert_eq!(GameDateTime::from_raw(raw(12, DayHalf::PM)).hour, 12);
    assert_eq!(GameDateTime::from_raw(raw(1, DayHalf::AM)).hour, 1);
}
