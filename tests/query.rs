use lol_api::decimal::to_decimal;
use lol_api::league::match_v5::{ByPUUIDOptions, MatchV5};
use lol_api::league::summoner_v4::SummonerV4;
use lol_api::{is_valid_key, Platform, Region};

fn no_filters() -> ByPUUIDOptions {
    ByPUUIDOptions {
        start_time: None,
        end_time: None,
        queue: None,
        match_type: None,
        start: None,
        count: None,
    }
}

#[test]
fn query_without_filters_is_empty() {
    assert_eq!(MatchV5::stringify_options(no_filters()), "");
}

#[test]
fn query_with_all_filters_keeps_fixed_order() {
    let options = ByPUUIDOptions {
        start_time: Some(1700000000),
        end_time: Some(1700003600),
        queue: Some(420),
        match_type: Some("ranked".to_string()),
        start: Some(0),
        count: Some(20),
    };
    assert_eq!(
        MatchV5::stringify_options(options),
        "?start=0&count=20&queue=420&type=ranked&startTime=1700000000&endTime=1700003600"
    );
}

#[test]
fn query_with_one_late_filter() {
    let mut options = no_filters();
    options.end_time = Some(7);
    assert_eq!(MatchV5::stringify_options(options), "?endTime=7");
}

#[test]
fn query_omits_absent_filters() {
    let mut options = no_filters();
    options.queue = Some(450);
    options.start_time = Some(12);
    assert_eq!(MatchV5::stringify_options(options), "?queue=450&startTime=12");
}

#[test]
fn query_encoding_is_deterministic() {
    let mut options = no_filters();
    options.count = Some(255);
    options.match_type = Some("normal".to_string());
    let first = MatchV5::stringify_options(options.clone());
    let second = MatchV5::stringify_options(options);
    assert_eq!(first, second);
    assert_eq!(first, "?count=255&type=normal");
}

#[test]
fn decimal_rendering() {
    assert_eq!(to_decimal(0), "0");
    assert_eq!(to_decimal(9), "9");
    assert_eq!(to_decimal(10), "10");
    assert_eq!(to_decimal(1700000000), "1700000000");
    assert_eq!(to_decimal(u64::MAX), "18446744073709551615");
}

#[test]
fn endpoint_construction() {
    let summoner = SummonerV4::new("RGAPI-key", Platform::NA1);
    assert_eq!(summoner.endpoint(), "https://na1.api.riotgames.com/lol/summoner/v4/summoners");
    let matches = MatchV5::new("RGAPI-key", Region::AMERICAS);
    assert_eq!(matches.endpoint(), "https://americas.api.riotgames.com/lol/match/v5/matches");
    assert_eq!(matches.key(), "RGAPI-key");
}

#[test]
fn endpoints_of_other_routes() {
    let summoner = SummonerV4::new("k", Platform::EUW1);
    assert_eq!(summoner.endpoint(), "https://euw1.api.riotgames.com/lol/summoner/v4/summoners");
    let matches = MatchV5::new("k", Region::EUROPE);
    assert_eq!(matches.endpoint(), "https://europe.api.riotgames.com/lol/match/v5/matches");
}

#[test]
fn match_by_puuid_scenario() {
    let api = MatchV5::new("k", Region::AMERICAS);
    let options = ByPUUIDOptions {
        start: Some(1),
        count: Some(100),
        queue: None,
        match_type: None,
        start_time: None,
        end_time: None,
    };
    assert_eq!(
        api.by_puuid_url("P1", options),
        "https://americas.api.riotgames.com/lol/match/v5/matches/by-puuid/P1/ids?start=1&count=100"
    );
}

#[test]
fn match_by_puuid_without_filters_has_no_question_mark() {
    let api = MatchV5::new("k", Region::ASIA);
    assert_eq!(
        api.by_puuid_url("P1", no_filters()),
        "https://asia.api.riotgames.com/lol/match/v5/matches/by-puuid/P1/ids"
    );
}

#[test]
fn match_urls() {
    let api = MatchV5::new("k", Region::AMERICAS);
    assert_eq!(
        api.match_info_url("NA1_42"),
        "https://americas.api.riotgames.com/lol/match/v5/matches/NA1_42"
    );
    assert_eq!(
        api.match_timeline_url("NA1_42"),
        "https://americas.api.riotgames.com/lol/match/v5/matches/NA1_42/timeline"
    );
}

#[test]
fn summoner_urls() {
    let api = SummonerV4::new("k", Platform::NA1);
    let base = "https://na1.api.riotgames.com/lol/summoner/v4/summoners";
    assert_eq!(api.by_name_url("Faker"), format!("{}/by-name/Faker", base));
    assert_eq!(api.by_account_url("acc"), format!("{}/by-account/acc", base));
    assert_eq!(api.by_puuid_url("pu"), format!("{}/by-puuid/pu", base));
    assert_eq!(api.by_summoner_id_url("sid"), format!("{}/sid", base));
}

#[test]
fn platform_and_region_names() {
    assert_eq!(Platform::EUN1.to_string(), "EUN1");
    assert_eq!(Platform::EUN1.host_label(), "eun1");
    assert_eq!(Platform::RU.host_label(), "ru");
    assert_eq!(Region::ASIA.to_string(), "ASIA");
    assert_eq!(Region::ASIA.host_label(), "asia");
}

#[test]
fn api_key_validity() {
    assert!(is_valid_key("RGAPI-0000-1111"));
    assert!(is_valid_key("tab\tinside"));
    assert!(is_valid_key("caf\u{e9}"));
    assert!(is_valid_key(""));
    assert!(!is_valid_key("line\nbreak"));
    assert!(!is_valid_key("del\u{7f}"));
}
