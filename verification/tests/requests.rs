use mlb_api::attendance::{AttendanceRequest, SeasonWithMinorId};
use mlb_api::date::Date;
use mlb_api::draft::{DraftProspectsRequest, DraftRequest};
use mlb_api::feeds::{
    BoxscoreRequest, GameTimestampsRequest, LeagueGamePaceRequest, LinescoreRequest, LiveFeedRequest,
    PlayByPlayRequest, SportGamePaceRequest, TeamGamePaceRequest,
};
use mlb_api::ids::{
    AwardId, BaseballStatId, ConferenceId, DivisionId, GameId, GameType, JobTypeId, LeagueId, PersonId,
    PlayerPool, PositionCode, RosterTypeId, SeasonId, SportId, StatGroup, StatType, TeamId, TransactionId, VenueId,
};
use mlb_api::jobs::{
    JobsDatacastersRequest, JobsOfficialScorersRequest, JobsRequest, JobsUmpiresRequest, PersonSingleGameStatsEndpoint,
};
use mlb_api::league::{Award, AwardRequest, Conference, ConferencesRequest, Division, DivisionsRequest, League, LeaguesRequest};
use mlb_api::roster::{RosterEndpoint, UniformAsset, UniformsEndpoint};
use mlb_api::sports::{Sport, SportsEndpointUrl, SportsPlayersEndpoint};
use mlb_api::stats::{StatLeadersEndpoint, TeamStatLeadersEndpoint};
use mlb_api::team_requests::{
    AlumniEndpoint, CoachesEndpoint, PersonnelEndpointUrl, TeamAffiliatesEndpointUrl, TeamHistoryEndpoint, TeamsEndpoint,
};
use mlb_api::transactions::{TransactionsEndpointUrl, TransactionsEndpointUrlKind};
use mlb_api::venue::{Venue, VenuesEndpoint};

fn date(y: i32, m: u32, d: u32) -> Date {
    Date::from_ymd_opt(y, m, d).unwrap()
}

#[test]
fn sports_urls() {
    assert_eq!(SportsEndpointUrl { id: None }.to_string(), "http://statsapi.mlb.com/api/v1/sports");
    assert_eq!(
        SportsEndpointUrl { id: Some(SportId(11)) }.to_string(),
        "http://statsapi.mlb.com/api/v1/sports?sportId=11"
    );
    assert_eq!(Sport::url_for_id(SportId(1)).to_string(), "http://statsapi.mlb.com/api/v1/sports?sportId=1");
}

#[test]
fn sports_players_url_defaults_to_mlb() {
    let r = SportsPlayersEndpoint::builder().build();
    assert_eq!(r.to_string(), "http://statsapi.mlb.com/api/v1/sports/1/players?sportId=1");
    let r = SportsPlayersEndpoint::builder().id(SportId(11)).season(SeasonId(2025)).build();
    assert_eq!(r.to_string(), "http://statsapi.mlb.com/api/v1/sports/11/players?sportId=11&season=2025");
}

#[test]
fn venues_urls() {
    let all = VenuesEndpoint { sport_id: None, venue_ids: None, season: None };
    assert_eq!(all.to_string(), "http://statsapi.mlb.com/api/v1/venues");
    let r = VenuesEndpoint { sport_id: Some(SportId(1)), venue_ids: Some(vec![VenueId(15), VenueId(22)]), season: Some(2024) };
    assert_eq!(r.to_string(), "http://statsapi.mlb.com/api/v1/venues/1?season=2024&venueIds=15,22");
    assert_eq!(Venue::url_for_id(VenueId(3)).to_string(), "http://statsapi.mlb.com/api/v1/venues?venueIds=3");
}

#[test]
fn league_conference_division_award_urls() {
    let r = LeaguesRequest::builder().sport_id(SportId(1)).league_ids(vec![LeagueId(103), LeagueId(104)]).build();
    assert_eq!(r.to_string(), "http://statsapi.mlb.com/api/v1/leagues?sportId=1&leagueIds=103,104");
    assert_eq!(League::url_for_id(LeagueId(103)).to_string(), "http://statsapi.mlb.com/api/v1/leagues?leagueIds=103");
    assert_eq!(ConferencesRequest::builder().build().to_string(), "http://statsapi.mlb.com/api/v1/conferences");
    assert_eq!(
        Conference::url_for_id(ConferenceId(7)).to_string(),
        "http://statsapi.mlb.com/api/v1/conferences?conferenceId=7"
    );
    let d = DivisionsRequest::builder().league_id(LeagueId(103)).season(SeasonId(2024)).build();
    assert_eq!(d.to_string(), "http://statsapi.mlb.com/api/v1/divisions?leagueId=103&season=2024");
    assert_eq!(
        Division::url_for_id(DivisionId(200)).to_string(),
        "http://statsapi.mlb.com/api/v1/divisions?divisionId=200"
    );
    let a = AwardRequest::builder().award_id(AwardId("MLBHOF".to_string())).sport_id(SportId(1)).build();
    assert_eq!(a.to_string(), "http://statsapi.mlb.com/api/v1/awards?awardId=MLBHOF&sportId=1");
    assert_eq!(
        Award::url_for_id(AwardId("ALMVP".to_string())).to_string(),
        "http://statsapi.mlb.com/api/v1/awards?awardId=ALMVP"
    );
}

#[test]
fn team_urls() {
    let t = TeamsEndpoint::builder().sport_id(SportId(1)).season(SeasonId(2025)).build();
    assert_eq!(t.to_string(), "http://statsapi.mlb.com/api/v1/teams?sportId=1&season=2025");
    let h = TeamHistoryEndpoint::builder().team_id(TeamId(119)).start_season(SeasonId(2000)).build();
    assert_eq!(h.to_string(), "http://statsapi.mlb.com/api/v1/teams/119/history?startSeason=2000");
    let a = TeamAffiliatesEndpointUrl { id: TeamId(147), season: None };
    assert_eq!(a.to_string(), "http://statsapi.mlb.com/api/v1/teams/147/affiliates");
    let al = AlumniEndpoint::builder().team_id(TeamId(147)).season(SeasonId(2024)).build();
    assert_eq!(al.to_string(), "http://statsapi.mlb.com/api/v1/teams/147/alumni?season=2024");
    let c = CoachesEndpoint::builder().team_id(TeamId(141)).date(date(2024, 4, 1)).build();
    assert_eq!(c.to_string(), "http://statsapi.mlb.com/api/v1/teams/141/coaches?date=2024-04-01");
    let p = PersonnelEndpointUrl { team_id: TeamId(141), season: Some(2023), date: Some(date(2023, 9, 30)) };
    assert_eq!(p.to_string(), "http://statsapi.mlb.com/api/v1/teams/141/personnel?season=2023&date=2023-09-30");
    let r = RosterEndpoint { team_id: TeamId(147), season: None, date: None, roster_type: RosterTypeId("active".to_string()) };
    assert_eq!(r.to_string(), "http://statsapi.mlb.com/api/v1/teams/147/roster?rosterType=active");
}

#[test]
fn uniform_urls() {
    let u = UniformsEndpoint { teams: vec![TeamId(147), TeamId(121)], season: Some(2023) };
    assert_eq!(u.to_string(), "http://statsapi.mlb.com/api/v1/uniforms/team?teamIds=147,121&season=2023");
    assert_eq!(UniformAsset::url_for_id("147_home_jersey").teams, vec![TeamId(147)]);
    assert_eq!(UniformAsset::url_for_id("nounderscore").teams, vec![TeamId(0)]);
    assert_eq!(UniformAsset::url_for_id("x_1").teams, vec![TeamId(0)]);
    assert_eq!(UniformAsset::url_for_id("+12_a").teams, vec![TeamId(12)]);
    assert_eq!(
        UniformAsset::url_for_id("133_away").to_string(),
        "http://statsapi.mlb.com/api/v1/uniforms/team?teamIds=133"
    );
}

#[test]
fn transactions_urls() {
    let t = TransactionsEndpointUrl { kind: TransactionsEndpointUrlKind::Team(TeamId(141)), sport_id: Some(SportId(1)) };
    assert_eq!(t.to_string(), "http://statsapi.mlb.com/api/v1/transactions?teamId=141&sportId=1");
    let p = TransactionsEndpointUrl { kind: TransactionsEndpointUrlKind::Player(PersonId(666182)), sport_id: None };
    assert_eq!(p.to_string(), "http://statsapi.mlb.com/api/v1/transactions?playerId=666182");
    let ids = TransactionsEndpointUrl {
        kind: TransactionsEndpointUrlKind::Transactions(vec![TransactionId(477955), TransactionId(1)]),
        sport_id: None,
    };
    assert_eq!(ids.to_string(), "http://statsapi.mlb.com/api/v1/transactions?transactionIds=477955,1");
    let range = TransactionsEndpointUrl {
        kind: TransactionsEndpointUrlKind::DateRange(date(2020, 1, 1), date(2025, 12, 31)),
        sport_id: Some(SportId(1)),
    };
    assert_eq!(
        range.to_string(),
        "http://statsapi.mlb.com/api/v1/transactions?startDate=2020-01-01&endDate=2025-12-31&sportId=1"
    );
}

#[test]
fn stat_leaders_urls() {
    let r = StatLeadersEndpoint::builder()
        .stats(vec![BaseballStatId("homeRuns".to_string()), BaseballStatId("hits".to_string())])
        .stat_types(vec![StatType("season".to_string())])
        .pool(PlayerPool("ALL".to_string()))
        .season(SeasonId(2024))
        .limit(100)
        .game_types(vec![GameType("R".to_string()), GameType("P".to_string())])
        .build();
    assert_eq!(
        r.to_string(),
        "http://statsapi.mlb.com/api/v1/stats/leaders?leaderCategories=homeRuns,hits&season=2024&sportId=1&stats=season&playerPool=ALL&limit=100&gameTypes=R,P"
    );
    let g = StatLeadersEndpoint::builder()
        .stats(vec![])
        .stat_types(vec![])
        .pool(PlayerPool("QUALIFIED".to_string()))
        .stat_group(StatGroup("hitting".to_string()))
        .start_date(date(2024, 5, 1))
        .days_back(7)
        .offset(5)
        .build();
    assert_eq!(
        g.to_string(),
        "http://statsapi.mlb.com/api/v1/stats/leaders?leaderCategories=&statGroup=hitting&sportId=1&stats=&startDate=2024-05-01&playerPool=QUALIFIED&daysBack=7&offset=5"
    );
    let t = TeamStatLeadersEndpoint {
        team_id: TeamId(141),
        stats: vec![BaseballStatId("era".to_string())],
        season: Some(2024),
        pool: PlayerPool("ALL".to_string()),
        game_types: None,
    };
    assert_eq!(t.to_string(), "http://statsapi.mlb.com/api/v1/teams/141/leaders?leaderCategories=era&season=2024&pool=ALL");
}

#[test]
fn draft_urls() {
    assert_eq!(DraftRequest::regular().build().to_string(), "http://statsapi.mlb.com/api/v1/draft/");
    let r = DraftRequest::regular()
        .year(SeasonId(2025))
        .limit(10)
        .drafted_only(true)
        .last_name('S')
        .position(PositionCode("P".to_string()))
        .team_id(TeamId(141))
        .home_country("USA".to_string())
        .build();
    assert_eq!(
        r.to_string(),
        "http://statsapi.mlb.com/api/v1/draft/2025?limit=10&drafted=true&name=S&position=P&teamId=141&homeCountry=USA"
    );
    let p = DraftProspectsRequest::regular().year(SeasonId(2024)).drafted_only(false).school('A').player_id(PersonId(1)).build();
    assert_eq!(
        p.to_string(),
        "http://statsapi.mlb.com/api/v1/draft/prospects/2024?drafted=false&school=A&playerId=1"
    );
    assert_eq!(
        DraftRequest::latest().year(SeasonId(2025)).build().to_string(),
        "http://statsapi.mlb.com/api/v1/draft/2025/latest"
    );
    assert_eq!(DraftRequest::latest().build().to_string(), "http://statsapi.mlb.com/api/v1/draft//latest");
}

#[test]
fn game_urls() {
    let id = GameId(813024);
    assert_eq!(
        LiveFeedRequest::builder().id(id).build().to_string(),
        "http://statsapi.mlb.com/api/v1.1/game/813024/feed/live"
    );
    assert_eq!(
        BoxscoreRequest::builder().id(id).build().to_string(),
        "http://statsapi.mlb.com/api/v1/game/813024/boxscore"
    );
    assert_eq!(
        LinescoreRequest::builder().id(id).build().to_string(),
        "http://statsapi.mlb.com/api/v1/game/813024/linescore"
    );
    assert_eq!(
        PlayByPlayRequest::builder().id(id).build().to_string(),
        "http://statsapi.mlb.com/api/v1/game/813024/playByPlay"
    );
    assert_eq!(
        GameTimestampsRequest::builder().id(id).build().to_string(),
        "http://statsapi.mlb.com/api/v1.1/game/813024/feed/live/timestamps"
    );
}

#[test]
fn pace_urls() {
    let s = SportGamePaceRequest::builder().season(SeasonId(2024)).build();
    assert_eq!(s.to_string(), "http://statsapi.mlb.com/api/v1/gamePace?season=2024");
    let s = SportGamePaceRequest::builder().season(SeasonId(1901)).sport(SportId(1)).build();
    assert_eq!(s.to_string(), "http://statsapi.mlb.com/api/v1/gamePace?season=1901&sportId=1");
    let t = TeamGamePaceRequest::builder().season(SeasonId(2025)).teams(vec![TeamId(141), TeamId(147)]).build();
    assert_eq!(t.to_string(), "http://statsapi.mlb.com/api/v1/gamePace?season=2025&teamIds=141,147");
    let l = LeagueGamePaceRequest::builder().season(SeasonId(2025)).leagues(vec![LeagueId(103), LeagueId(104)]).build();
    assert_eq!(l.to_string(), "http://statsapi.mlb.com/api/v1/gamePace?season=2025&leagueIds=103,104");
}

#[test]
fn jobs_urls() {
    let j = JobsRequest::builder().job_type(JobTypeId("UMPR".to_string())).build();
    assert_eq!(j.to_string(), "http://statsapi.mlb.com/api/v1/jobs?jobType=UMPR&sportId=1");
    let j = JobsRequest::builder().job_type(JobTypeId("SCOR".to_string())).sport_id(SportId(11)).date(date(2024, 7, 4)).build();
    assert_eq!(j.to_string(), "http://statsapi.mlb.com/api/v1/jobs?jobType=SCOR&sportId=11&date=2024-07-04");
    assert_eq!(JobsDatacastersRequest::builder().build().to_string(), "http://statsapi.mlb.com/api/v1/jobs/datacasters?sportId=1");
    assert_eq!(
        JobsDatacastersRequest::builder().sport_id(SportId(11)).date(date(2024, 3, 2)).build().to_string(),
        "http://statsapi.mlb.com/api/v1/jobs/datacasters?sportId=11&date=2024-03-02"
    );
    assert_eq!(JobsUmpiresRequest::builder().build().to_string(), "http://statsapi.mlb.com/api/v1/jobs/umpires?sportId=1");
    assert_eq!(JobsOfficialScorersRequest::builder().to_string(), "http://statsapi.mlb.com/api/v1/jobs/officialScorers");
}

#[test]
fn single_sample() {
    let url = PersonSingleGameStatsEndpoint { person_id: PersonId(660271), game_id: GameId(776562) };
    assert_eq!(url.to_string(), "http://statsapi.mlb.com/api/v1/people/660271/stats/game/776562");
}

#[test]
fn attendance_urls() {
    let r = AttendanceRequest::builder().team_id(TeamId(141)).season(SeasonWithMinorId::from_season(SeasonId(2024))).build();
    assert_eq!(r.to_string(), "http://statsapi.mlb.com/api/v1/attendance?teamId=141&season=2024&gameType=R");
    let r = AttendanceRequest::builder()
        .league_id(LeagueId(103))
        .season(SeasonId(2018).into_minor(2))
        .date(date(2018, 6, 1))
        .game_type(GameType("P".to_string()))
        .build();
    assert_eq!(
        r.to_string(),
        "http://statsapi.mlb.com/api/v1/attendance?leagueId=103&season=2018.2&date=2018-06-01&gameType=P"
    );
}

trait IntoMinor {
    fn into_minor(self, minor: u32) -> SeasonWithMinorId;
}

impl IntoMinor for SeasonId {
    fn into_minor(self, minor: u32) -> SeasonWithMinorId {
        SeasonWithMinorId::with_minor(self, minor).unwrap()
    }
}
