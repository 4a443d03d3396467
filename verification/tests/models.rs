use mlb_api::attendance::{AttendanceRecord, DatedAttendance, SeasonWithMinorId};
use mlb_api::date::Date;
use mlb_api::draft::{DraftPick, DraftType, School};
use mlb_api::ids::{GameId, GameType, LeagueId, OrganizationId, PersonId, ReviewReasonId, SeasonId, SportId, TeamId, VenueId};
use mlb_api::league::{NamedDivision, NamedLeague};
use mlb_api::plays::{merge_review_data, InningPlaysIndices, Plays, ReviewData};
use mlb_api::sports::{IdentifiableSport, NamedSport, Sport};
use mlb_api::stats::{
    CatchingStats, DecisionsData, DecisionsPiece, InningsPitched, InningsPitchedData, InningsPitchedPiece,
};
use mlb_api::teams::{
    IdentifiableTeam, NamedOrganization, NamedTeam, NamedTeamRaw, Organization, RegularTeam, RegularTeamRaw, Team,
    TeamName, TeamNameRaw,
};
use mlb_api::types::{Copyright, HomeAwaySplit};
use mlb_api::venue::{IdentifiableVenue, NamedVenue, Venue};

fn raw_names(complete: bool) -> TeamNameRaw {
    TeamNameRaw {
        name: "Toronto Blue Jays".to_string(),
        team_code: if complete { Some("tor".to_string()) } else { None },
        file_code: None,
        abbreviation: Some("TOR".to_string()),
        team_name: Some("Blue Jays".to_string()),
        short_name: Some("Toronto".to_string()),
        franchise_name: None,
        club_name: None,
    }
}

#[test]
fn team_names_complete_with_defaults() {
    match raw_names(true).initialize(TeamId(141)) {
        TeamName::Hydrated(h) => {
            assert_eq!(h.inner.name, "Toronto Blue Jays");
            assert_eq!(h.file_code, "t141");
            assert_eq!(h.franchise_name, "Toronto");
            assert_eq!(h.club_name, "Blue Jays");
            assert_eq!(h.team_code, "tor");
            assert_eq!(h.abbreviation, "TOR");
        },
        TeamName::Unhydrated(_) => panic!("the names are complete"),
    }
}

#[test]
fn team_names_keep_given_values() {
    let mut raw = raw_names(true);
    raw.file_code = Some("tor".to_string());
    raw.franchise_name = Some("Toronto Franchise".to_string());
    raw.club_name = Some("Jays".to_string());
    match raw.initialize(TeamId(141)) {
        TeamName::Hydrated(h) => {
            assert_eq!(h.file_code, "tor");
            assert_eq!(h.franchise_name, "Toronto Franchise");
            assert_eq!(h.club_name, "Jays");
        },
        TeamName::Unhydrated(_) => panic!("the names are complete"),
    }
}

#[test]
fn team_names_without_code_stay_unhydrated() {
    match raw_names(false).initialize(TeamId(141)) {
        TeamName::Unhydrated(u) => assert_eq!(u.name, "Toronto Blue Jays"),
        TeamName::Hydrated(_) => panic!("no team code"),
    }
    assert!(raw_names(false).initialize(TeamId(1)) == raw_names(true).initialize(TeamId(2)));
}

fn regular_raw(first_year: Option<u16>) -> RegularTeamRaw {
    RegularTeamRaw {
        all_star_status: false,
        active: true,
        season: 2025,
        venue: NamedVenue::default(),
        name: raw_names(true),
        location_name: Some("Toronto".to_string()),
        first_year_of_play: first_year,
        league: NamedLeague::unknown_league(),
        division: Some(NamedDivision { name: "American League East".to_string(), id: mlb_api::ids::DivisionId(201) }),
        sport: NamedSport { name: "Major League Baseball".to_string(), inner: IdentifiableSport { id: SportId(1) } },
        parent_organization: Some(Organization::NamedOrganization(NamedOrganization {
            name: "Toronto Blue Jays".to_string(),
            id: OrganizationId(141),
        })),
        inner: NamedTeam::from_raw(NamedTeamRaw { name: raw_names(true), inner: IdentifiableTeam { id: TeamId(141) } }),
    }
}

#[test]
fn regular_team_first_year_defaults_to_season() {
    assert_eq!(RegularTeam::from_raw(regular_raw(None)).first_year_of_play, 2025);
    assert_eq!(RegularTeam::from_raw(regular_raw(Some(1977))).first_year_of_play, 1977);
    let team = RegularTeam::from_raw(regular_raw(None));
    match &team.name {
        TeamName::Hydrated(h) => assert_eq!(h.file_code, "t141"),
        TeamName::Unhydrated(_) => panic!("the names are complete"),
    }
    let t = Team::Regular(team);
    assert_eq!(t.id(), TeamId(141));
    assert!(t == Team::Identifiable(IdentifiableTeam { id: TeamId(141) }));
    assert!(t != Team::Identifiable(IdentifiableTeam { id: TeamId(142) }));
}

#[test]
fn unknown_league_and_venue() {
    let league = NamedLeague::unknown_league();
    assert_eq!(league.name, "null");
    assert!(league.is_unknown());
    assert!(!NamedLeague { name: "AL".to_string(), id: LeagueId(103) }.is_unknown());
    match Venue::unknown_venue() {
        Venue::Named(n) => {
            assert_eq!(n.name, "null");
            assert_eq!(n.inner.id, VenueId(0));
        },
        _ => panic!("the unknown venue is named"),
    }
    assert!(Venue::unknown_venue() == Venue::Identifiable(IdentifiableVenue { id: VenueId(0) }));
}

#[test]
fn sports_are_equal_by_id() {
    let named = Sport::Named(NamedSport { name: "MLB".to_string(), inner: IdentifiableSport { id: SportId(1) } });
    assert!(named == Sport::Identifiable(IdentifiableSport { id: SportId(1) }));
    assert!(named != Sport::Identifiable(IdentifiableSport { id: SportId(11) }));
}

#[test]
fn catching_lines() {
    let mut a = CatchingStats::default();
    a.stolen_bases = 10;
    a.caught_stealing = 4;
    assert_eq!(a.stolen_base_attempts(), 14);
    let mut b = CatchingStats::default();
    b.stolen_bases = 1;
    b.hits = 3;
    let c = a.add(b);
    assert_eq!(c.stolen_bases, 11);
    assert_eq!(c.hits, 3);
    assert_eq!(c.caught_stealing, 4);
}

#[test]
fn decisions_and_innings() {
    let d = DecisionsData { wins: 10, losses: 5, holds: 3, saves: 2, save_opportunities: 4, blown_saves: 2 };
    assert_eq!(d.decisions(), 20);
    assert_eq!(d.blown_saves(), 2);
    let ip = InningsPitchedData::from_fields(None, Some(20)).unwrap();
    assert_eq!(ip.outs(), 20);
    let ip = InningsPitchedData::from_fields(Some(InningsPitched::from_outs(7)), Some(20)).unwrap();
    assert_eq!(ip.outs(), 7);
    assert_eq!(
        InningsPitchedData::from_fields(None, None),
        Err("could not get either outs-based field (innings_pitched`")
    );
}

fn review(t: &str, in_progress: bool) -> ReviewData {
    ReviewData {
        is_overturned: false,
        is_in_progress: in_progress,
        review_type: ReviewReasonId(t.to_string()),
        challenging_team: None,
        player: Some(PersonId(1)),
    }
}

#[test]
fn reviews_start_with_the_base_review() {
    let all = merge_review_data(review("a", false), vec![review("b", false), review("c", true)]);
    let kinds: Vec<String> = all.iter().map(|r| r.review_type.0.clone()).collect();
    assert_eq!(kinds, vec!["a", "b", "c"]);
    assert_eq!(merge_review_data(review("x", true), vec![]).len(), 1);
}

#[test]
fn plays_by_index() {
    let plays = Plays {
        copyright: Copyright::for_year(2025),
        plays: vec![10, 11, 12, 13, 14],
        current_play: None,
        scoring_play_indices: vec![3, 9, 0],
        play_indices_by_inning: vec![
            InningPlaysIndices { start: 0, end: 2, top_indices: vec![0, 1], bottom_indices: vec![2] },
            InningPlaysIndices { start: 3, end: 7, top_indices: vec![3, 4], bottom_indices: vec![8] },
            InningPlaysIndices { start: 6, end: 5, top_indices: vec![], bottom_indices: vec![] },
        ],
    };
    assert_eq!(plays.scoring_plays(), vec![&13, &10]);
    assert_eq!(plays.by_inning(), vec![vec![&10, &11, &12], vec![&13, &14], vec![]]);
    let halves = plays.by_inning_halves();
    assert_eq!(halves[0], (vec![&10, &11], vec![&12]));
    assert_eq!(halves[1], (vec![&13, &14], vec![]));
    assert_eq!(plays.into_plays(), vec![10, 11, 12, 13, 14]);
}

fn dated(value: u32, y: i32, m: u32, d: u32, game: u32) -> DatedAttendance {
    DatedAttendance { value, date: Date::from_ymd_opt(y, m, d).unwrap(), game: GameId(game) }
}

fn record(home: u32, away: u32, openings: u32, season: u32) -> AttendanceRecord {
    AttendanceRecord {
        total_openings: HomeAwaySplit { home: openings, away: openings },
        total_openings_lost: 0,
        total_games: HomeAwaySplit { home: openings, away: openings },
        season: SeasonWithMinorId::from_season(SeasonId(season)),
        attendance_totals: HomeAwaySplit { home, away },
        single_opening_min_max: None,
        game_type: GameType("R".to_string()),
    }
}

#[test]
fn average_attendance_example() {
    let mut r = AttendanceRecord::default_for_year(2025);
    r.total_openings = HomeAwaySplit::new(2, 2);
    r.attendance_totals = HomeAwaySplit::new(200, 200);
    let avg = r.average_attendance();
    assert_eq!((avg.home, avg.away), (100, 100));
    let mut r = record(0, 0, 0, 2024);
    r.total_openings = HomeAwaySplit::new(3, 4);
    r.attendance_totals = HomeAwaySplit::new(10, 10);
    let avg = r.average_attendance();
    assert_eq!((avg.home, avg.away), (3, 3));
}

#[test]
fn attendance_records_add_up() {
    let mut a = record(100, 50, 2, 2023);
    a.single_opening_min_max = Some((dated(10, 2023, 4, 1, 1), dated(60, 2023, 5, 1, 2)));
    let mut b = record(30, 70, 1, 2024);
    b.single_opening_min_max = Some((dated(10, 2024, 4, 1, 3), dated(90, 2024, 6, 1, 4)));
    let s = a.clone().add(b.clone());
    assert_eq!(s.attendance_totals.home, 130);
    assert_eq!(s.attendance_totals.away, 120);
    assert_eq!(s.total_openings.home, 3);
    assert_eq!(s.season.season(), SeasonId(2024));
    let (min, max) = s.single_opening_min_max.unwrap();
    assert_eq!(min.game, GameId(3));
    assert_eq!(max.game, GameId(4));
    let total = AttendanceRecord::sum_from(AttendanceRecord::default_for_year(2000), vec![a, b]);
    assert_eq!(total.attendance_totals.home, 130);
    assert_eq!(total.season.season(), SeasonId(2024));
}

#[test]
fn draft_pick_numbers() {
    let mut pick = DraftPick {
        ebis_player_id: None,
        round: "1".to_string(),
        pick_number: 7,
        displayed_pick_number: None,
        rank: None,
        signing_bonus: None,
        scouting_report_url: None,
        school: School { name: None, city: None, class: None, country: None, state: None },
        blurb: None,
        headshot_url: mlb_api::draft::get_default_headshot(),
        person: None,
        team: NamedTeam::from_raw(NamedTeamRaw { name: raw_names(false), inner: IdentifiableTeam { id: TeamId(141) } }),
        draft_type: DraftType::JR,
        is_drafted: true,
        is_pass: false,
        year: SeasonId(2025),
    };
    assert_eq!(pick.displayed_pick_number(), 7);
    pick.displayed_pick_number = Some(3);
    assert_eq!(pick.displayed_pick_number(), 3);
}
