use lol_api::error::{check_status, Error};
use lol_api::json::Json;
use lol_api::league::match_v5::{Event, MatchInfo, MatchTimeline, MatchV5, Position, Team};
use lol_api::league::summoner_v4::SummonerResponse;

fn convert(v: &serde_json::Value) -> Json {
    match v {
        serde_json::Value::Null => Json::Null,
        serde_json::Value::Bool(b) => Json::Bool(*b),
        serde_json::Value::Number(n) => match (n.as_i64(), n.as_u64()) {
            (Some(i), _) => Json::Int(i as i128),
            (None, Some(u)) => Json::Int(u as i128),
            _ => Json::Fraction,
        },
        serde_json::Value::String(s) => Json::Str(s.clone()),
        serde_json::Value::Array(items) => Json::Arr(items.iter().map(convert).collect()),
        serde_json::Value::Object(members) => {
            Json::Obj(members.iter().map(|(k, v)| (k.clone(), convert(v))).collect())
        }
    }
}

fn parse(text: &str) -> Json {
    convert(&serde_json::from_str::<serde_json::Value>(text).unwrap())
}

const SUMMONER: &str = r#"{"id":"x","accountId":"y","puuid":"z","name":"Faker","profileIconId":1,"revisionDate":1700000000,"summonerLevel":500}"#;

#[test]
fn summoner_by_name_scenario() {
    assert_eq!(check_status(&Ok(200)), Ok(()));
    let s = SummonerResponse::from_body(Ok(parse(SUMMONER))).unwrap();
    assert_eq!(s.name, "Faker");
    assert_eq!(s.id, "x");
    assert_eq!(s.account_id, "y");
    assert_eq!(s.puuid, "z");
    assert_eq!(s.profile_icon_id, 1);
    assert_eq!(s.revision_date, 1700000000);
    assert_eq!(s.summoner_level, 500);
}

#[test]
fn status_404_is_a_status_error() {
    assert_eq!(check_status(&Ok(404)), Err(Error::StatusCode(404)));
    assert_eq!(check_status(&Ok(429)), Err(Error::StatusCode(429)));
    assert_eq!(check_status(&Ok(201)), Err(Error::StatusCode(201)));
}

#[test]
fn transport_failure_is_a_message_error() {
    assert_eq!(
        check_status(&Err("connection refused".to_string())),
        Err(Error::Message("Failed:\nconnection refused".to_string()))
    );
}

#[test]
fn missing_required_field_is_a_message_error() {
    let body = parse(r#"{"id":"x","accountId":"y","name":"Faker","profileIconId":1,"revisionDate":1,"summonerLevel":5}"#);
    match SummonerResponse::from_body(Ok(body)) {
        Err(Error::Message(m)) => assert!(m.contains("puuid")),
        other => panic!("expected a message error, got {:?}", other),
    }
}

#[test]
fn wrong_shape_is_a_message_error() {
    let body = parse(r#"{"id":"x","accountId":"y","puuid":"z","name":"Faker","profileIconId":70000,"revisionDate":1,"summonerLevel":5}"#);
    assert!(matches!(SummonerResponse::from_body(Ok(body)), Err(Error::Message(_))));
    let body = parse(r#"{"id":1,"accountId":"y","puuid":"z","name":"Faker","profileIconId":7,"revisionDate":1,"summonerLevel":5}"#);
    assert!(matches!(SummonerResponse::from_body(Ok(body)), Err(Error::Message(_))));
}

#[test]
fn unparsable_body_is_a_message_error() {
    assert_eq!(
        SummonerResponse::from_body(Err("expected value at line 1".to_string())),
        Err(Error::Message("Couldn't Deserialize:\nexpected value at line 1".to_string()))
    );
}

#[test]
fn event_optionality() {
    let e = Event::from_json(&parse(
        r#"{"timestamp":1000,"type":"WARD_PLACED","creatorId":2,"wardType":"YELLOW_TRINKET"}"#,
    ))
    .unwrap();
    assert_eq!(e.timestamp, 1000);
    assert_eq!(e.type_field, "WARD_PLACED");
    assert_eq!(e.creator_id, Some(2));
    assert_eq!(e.ward_type, Some("YELLOW_TRINKET".to_string()));
    assert_eq!(e.real_timestamp, None);
    assert_eq!(e.level, None);
    assert_eq!(e.participant_id, None);
    assert_eq!(e.killer_id, None);
    assert_eq!(e.position, None);
    assert_eq!(e.team_id, None);
    assert_eq!(e.winning_team, None);
    assert!(e.assisting_participant_ids.is_empty());
    assert!(e.victim_damage_dealt.is_empty());
    assert!(e.victim_damage_received.is_empty());
}

#[test]
fn event_with_position_and_assists() {
    let e = Event::from_json(&parse(
        r#"{"timestamp":5,"type":"CHAMPION_KILL","killerId":3,"victimId":7,"position":{"x":100,"y":200},"assistingParticipantIds":[1,2],"realTimestamp":null}"#,
    ))
    .unwrap();
    assert_eq!(e.position, Some(Position { x: 100, y: 200 }));
    assert_eq!(e.assisting_participant_ids, vec![1, 2]);
    assert_eq!(e.killer_id, Some(3));
    assert_eq!(e.victim_id, Some(7));
    assert_eq!(e.real_timestamp, None);
}

#[test]
fn event_without_type_is_rejected() {
    assert!(Event::from_json(&parse(r#"{"timestamp":5}"#)).is_err());
    assert!(Event::from_json(&parse(r#"{"timestamp":5,"type":"X","killerId":"3"}"#)).is_err());
}

#[test]
fn match_ids_keep_their_order() {
    let ids = MatchV5::match_ids_from_body(Ok(parse(r#"["NA1_3","NA1_1","NA1_2"]"#))).unwrap();
    assert_eq!(ids, vec!["NA1_3", "NA1_1", "NA1_2"]);
    assert!(MatchV5::match_ids_from_body(Ok(parse(r#"["NA1_3",4]"#))).is_err());
    assert!(MatchV5::match_ids_from_body(Ok(parse(r#"{}"#))).is_err());
    assert_eq!(MatchV5::match_ids_from_body(Ok(parse("[]"))), Ok(vec![]));
}

#[test]
fn team_keeps_bans_as_sent() {
    let objective = r#"{"first":true,"kills":1}"#;
    let text = format!(
        r#"{{"bans":[{{"championId":7,"pickTurn":1}}],"objectives":{{"baron":{o},"champion":{o},"dragon":{o},"inhibitor":{o},"riftHerald":{o},"tower":{{"first":false,"kills":9}}}},"teamId":100,"win":true}}"#,
        o = objective
    );
    let t = Team::from_json(parse(&text)).unwrap();
    assert_eq!(t.team_id, 100);
    assert!(t.win);
    assert_eq!(t.objectives.tower.kills, 9);
    assert!(!t.objectives.tower.first);
    assert!(t.objectives.baron.first);
    assert_eq!(t.bans.len(), 1);
    assert_eq!(t.bans[0], parse(r#"{"championId":7,"pickTurn":1}"#));
}

fn frame_json(id: i64) -> String {
    let champion = [
        "abilityHaste", "abilityPower", "armor", "armorPen", "armorPenPercent", "attackDamage",
        "attackSpeed", "bonusArmorPenPercent", "bonusMagicPenPercent", "ccReduction",
        "cooldownReduction", "health", "healthMax", "healthRegen", "lifesteal", "magicPen",
        "magicPenPercent", "magicResist", "movementSpeed", "omnivamp", "physicalVamp", "power",
        "powerMax", "powerRegen", "spellVamp",
    ];
    let damage = [
        "magicDamageDone", "magicDamageDoneToChampions", "magicDamageTaken", "physicalDamageDone",
        "physicalDamageDoneToChampions", "physicalDamageTaken", "totalDamageDone",
        "totalDamageDoneToChampions", "totalDamageTaken", "trueDamageDone",
        "trueDamageDoneToChampions", "trueDamageTaken",
    ];
    let obj = |keys: &[&str]| {
        let parts: Vec<String> = keys.iter().map(|k| format!("\"{}\":1", k)).collect();
        format!("{{{}}}", parts.join(","))
    };
    format!(
        r#"{{"championStats":{},"currentGold":500,"damageStats":{},"goldPerSecond":2,"jungleMinionsKilled":0,"level":1,"minionsKilled":3,"participantId":{},"position":{{"x":1,"y":2}},"timeEnemySpentControlled":0,"totalGold":500,"xp":0}}"#,
        obj(&champion),
        obj(&damage),
        id
    )
}

#[test]
fn timeline_decodes() {
    let frames: Vec<String> = (1..=10).map(|i| format!("\"{}\":{}", i, frame_json(i))).collect();
    let text = format!(
        r#"{{"metadata":{{"dataVersion":"2","matchId":"NA1_9","participants":["a","b"]}},"info":{{"frameInterval":60000,"frames":[{{"events":[{{"timestamp":0,"type":"PAUSE_END"}}],"participantFrames":{{{}}},"timestamp":0}}],"gameId":9,"participants":[{{"participantId":1,"puuid":"a"}}]}}}}"#,
        frames.join(",")
    );
    let t = MatchTimeline::from_body(Ok(parse(&text))).unwrap();
    assert_eq!(t.metadata.match_id, "NA1_9");
    assert_eq!(t.metadata.participants, vec!["a", "b"]);
    assert_eq!(t.info.frame_interval, 60000);
    assert_eq!(t.info.frames.len(), 1);
    assert_eq!(t.info.frames[0].events[0].type_field, "PAUSE_END");
    assert_eq!(t.info.frames[0].participant_frames.frame7.participant_id, 7);
    assert_eq!(t.info.frames[0].participant_frames.frame10.current_gold, 500);
    assert_eq!(t.info.participants[0].puuid, "a");
}

#[test]
fn match_info_with_missing_info_is_rejected() {
    let text = r#"{"metadata":{"dataVersion":"2","matchId":"NA1_9","participants":[]}}"#;
    assert!(matches!(MatchInfo::from_body(Ok(parse(text))), Err(Error::Message(_))));
}

const MATCH: &str = r#"{
 "metadata": {
  "dataVersion": "dataVersion-177",
  "matchId": "matchId-178",
  "participants": [
   "p1",
   "p2"
  ]
 },
 "info": {
  "gameCreation": 1,
  "gameDuration": 2,
  "gameEndTimestamp": 3,
  "gameId": 4,
  "gameMode": "gameMode-5",
  "gameName": "gameName-6",
  "gameStartTimestamp": 7,
  "gameType": "gameType-8",
  "gameVersion": "gameVersion-9",
  "mapId": 10,
  "participants": [
   {
    "assists": 12,
    "baronKills": 13,
    "bountyLevel": 14,
    "champExperience": 15,
    "champLevel": 16,
    "championId": 17,
    "championName": "championName-18",
    "championTransform": 19,
    "consumablesPurchased": 20,
    "damageDealtToBuildings": 21,
    "damageDealtToObjectives": 22,
    "damageDealtToTurrets": 23,
    "damageSelfMitigated": 24,
    "deaths": 25,
    "detectorWardsPlaced": 26,
    "doubleKills": 27,
    "dragonKills": 28,
    "firstBloodAssist": false,
    "firstBloodKill": true,
    "firstTowerAssist": false,
    "firstTowerKill": true,
    "gameEndedInEarlySurrender": false,
    "gameEndedInSurrender": true,
    "goldEarned": 35,
    "goldSpent": 36,
    "individualPosition": "individualPosition-37",
    "inhibitorKills": 38,
    "inhibitorTakedowns": 39,
    "inhibitorsLost": 40,
    "item0": 41,
    "item1": 42,
    "item2": 43,
    "item3": 44,
    "item4": 45,
    "item5": 46,
    "item6": 47,
    "itemsPurchased": 48,
    "killingSprees": 49,
    "kills": 50,
    "lane": "lane-51",
    "largestCriticalStrike": 52,
    "largestKillingSpree": 53,
    "largestMultiKill": 54,
    "longestTimeSpentLiving": 55,
    "magicDamageDealt": 56,
    "magicDamageDealtToChampions": 57,
    "magicDamageTaken": 58,
    "neutralMinionsKilled": 59,
    "nexusKills": 60,
    "nexusLost": 61,
    "nexusTakedowns": 62,
    "objectivesStolen": 63,
    "objectivesStolenAssists": 64,
    "participantId": 65,
    "pentaKills": 66,
    "perks": {
     "statPerks": {
      "defense": 69,
      "flex": 70,
      "offense": 71
     },
     "styles": [
      {
       "description": "description-73",
       "selections": [
        {
         "perk": 75,
         "var1": 76,
         "var2": 77,
         "var3": 78
        }
       ],
       "style": 79
      }
     ]
    },
    "physicalDamageDealt": 80,
    "physicalDamageDealtToChampions": 81,
    "physicalDamageTaken": 82,
    "profileIcon": 83,
    "puuid": "puuid-84",
    "quadraKills": 85,
    "riotIdName": "riotIdName-86",
    "riotIdTagline": "riotIdTagline-87",
    "role": "role-88",
    "sightWardsBoughtInGame": 89,
    "spell1Casts": 90,
    "spell2Casts": 91,
    "spell3Casts": 92,
    "spell4Casts": 93,
    "summoner1Casts": 94,
    "summoner1Id": 95,
    "summoner2Casts": 96,
    "summoner2Id": 97,
    "summonerId": "summonerId-98",
    "summonerLevel": 99,
    "summonerName": "summonerName-100",
    "teamEarlySurrendered": false,
    "teamId": 102,
    "teamPosition": "teamPosition-103",
    "timeCCingOthers": 104,
    "timePlayed": 105,
    "totalDamageDealt": 106,
    "totalDamageDealtToChampions": 107,
    "totalDamageShieldedOnTeammates": 108,
    "totalDamageTaken": 109,
    "totalHeal": 110,
    "totalHealsOnTeammates": 111,
    "totalMinionsKilled": 112,
    "totalTimeCCDealt": 113,
    "totalTimeSpentDead": 114,
    "totalUnitsHealed": 115,
    "tripleKills": 116,
    "trueDamageDealt": 117,
    "trueDamageDealtToChampions": 118,
    "trueDamageTaken": 119,
    "turretKills": 120,
    "turretTakedowns": 121,
    "turretsLost": 122,
    "unrealKills": 123,
    "visionScore": 124,
    "visionWardsBoughtInGame": 125,
    "wardsKilled": 126,
    "wardsPlaced": 127,
    "win": true
   }
  ],
  "platformId": "platformId-129",
  "queueId": 130,
  "teams": [
   {
    "bans": [
     {
      "championId": 7,
      "pickTurn": 1
     }
    ],
    "objectives": {
     "baron": {
      "first": false,
      "kills": 136
     },
     "champion": {
      "first": true,
      "kills": 139
     },
     "dragon": {
      "first": false,
      "kills": 142
     },
     "inhibitor": {
      "first": true,
      "kills": 145
     },
     "riftHerald": {
      "first": false,
      "kills": 148
     },
     "tower": {
      "first": true,
      "kills": 151
     }
    },
    "teamId": 152,
    "win": false
   },
   {
    "bans": [
     {
      "championId": 7,
      "pickTurn": 1
     }
    ],
    "objectives": {
     "baron": {
      "first": true,
      "kills": 159
     },
     "champion": {
      "first": false,
      "kills": 162
     },
     "dragon": {
      "first": true,
      "kills": 165
     },
     "inhibitor": {
      "first": false,
      "kills": 168
     },
     "riftHerald": {
      "first": true,
      "kills": 171
     },
     "tower": {
      "first": false,
      "kills": 174
     }
    },
    "teamId": 175,
    "win": true
   }
  ],
  "tournamentCode": "tournamentCode-154"
 }
}"#;

#[test]
fn match_info_decodes_every_key() {
    let m = MatchInfo::from_body(Ok(parse(MATCH))).unwrap();
    assert_eq!(m.metadata.match_id, "matchId-178");
    assert_eq!(m.metadata.participants, vec!["p1", "p2"]);
    assert_eq!(m.info.game_mode, "gameMode-5");
    assert_eq!(m.info.queue_id, 130);
    assert_eq!(m.info.tournament_code, "tournamentCode-154");
    let p = &m.info.participants[0];
    assert_eq!(p.assists, 12);
    assert_eq!(p.spell1casts, 90);
    assert_eq!(p.spell4casts, 93);
    assert_eq!(p.summoner1casts, 94);
    assert_eq!(p.summoner1id, 95);
    assert_eq!(p.summoner2casts, 96);
    assert_eq!(p.summoner2id, 97);
    assert_eq!(p.time_ccing_others, 104);
    assert_eq!(p.total_time_ccdealt, 113);
    assert_eq!(p.item6, 47);
    assert_eq!(p.riot_id_tagline, "riotIdTagline-87");
    assert!(p.first_blood_kill);
    assert!(!p.first_blood_assist);
    assert!(p.win);
    assert_eq!(p.perks.stat_perks.offense, 71);
    assert_eq!(p.perks.styles[0].selections[0].var3, 78);
    assert_eq!(m.info.teams.len(), 2);
    assert_eq!(m.info.teams[0].team_id, 152);
    assert_eq!(m.info.teams[1].objectives.rift_herald.kills, 171);
    assert!(m.info.teams[1].win);
}

#[test]
fn match_info_without_a_participant_flag_is_rejected() {
    let text = MATCH.replace("\"win\": true\n   }\n  ],", "\"winner\": true\n   }\n  ],");
    assert_ne!(text, MATCH);
    assert!(matches!(MatchInfo::from_body(Ok(parse(&text))), Err(Error::Message(_))));
}

#[test]
fn participant_frames_by_id() {
    let frames: Vec<String> = (1..=10).map(|i| format!("\"{}\":{}", i, frame_json(i))).collect();
    let j = parse(&format!("{{{}}}", frames.join(",")));
    let pf = lol_api::league::match_v5::ParticipantFrames::from_json(&j).unwrap();
    assert_eq!(pf.frame(3).unwrap().participant_id, 3);
    assert_eq!(pf.frame(10).unwrap().participant_id, 10);
    assert!(pf.frame(0).is_none());
    assert!(pf.frame(11).is_none());
}

#[test]
fn summoner_round_trip() {
    let s = SummonerResponse::from_body(Ok(parse(SUMMONER))).unwrap();
    let back = SummonerResponse::from_json(&s.clone().into_json()).unwrap();
    assert_eq!(back, s);
}

#[test]
fn team_round_trip() {
    let objective = r#"{"first":false,"kills":2}"#;
    let text = format!(
        r#"{{"bans":[{{"championId":7,"pickTurn":1}},null],"objectives":{{"baron":{o},"champion":{o},"dragon":{o},"inhibitor":{o},"riftHerald":{o},"tower":{o}}},"teamId":200,"win":false}}"#,
        o = objective
    );
    let encoded = Team::from_json(parse(&text)).unwrap().into_json();
    let again = Team::from_json(encoded).unwrap();
    assert_eq!(again, Team::from_json(parse(&text)).unwrap());
    assert_eq!(again.bans[1], Json::Null);
}

#[test]
fn participant_frame_round_trip() {
    let frames: Vec<String> = (1..=10).map(|i| format!("\"{}\":{}", i, frame_json(i))).collect();
    let j = parse(&format!("{{{}}}", frames.join(",")));
    let pf = lol_api::league::match_v5::ParticipantFrames::from_json(&j).unwrap();
    let back = lol_api::league::match_v5::ParticipantFrames::from_json(&pf.clone().into_json()).unwrap();
    assert_eq!(back, pf);
    assert_eq!(back.frame(4).unwrap().position, Position { x: 1, y: 2 });
}

#[test]
fn encoded_object_uses_api_keys() {
    let p = Position { x: 3, y: -4 };
    assert_eq!(
        p.into_json(),
        Json::Obj(vec![("x".to_string(), Json::Int(3)), ("y".to_string(), Json::Int(-4))])
    );
}

#[test]
fn match_info_round_trip() {
    let m = MatchInfo::from_body(Ok(parse(MATCH))).unwrap();
    let encoded = m.into_json();
    let again = MatchInfo::from_json(encoded).unwrap();
    assert_eq!(again, MatchInfo::from_body(Ok(parse(MATCH))).unwrap());
}

#[test]
fn event_round_trip_keeps_absent_fields_absent() {
    let e = Event::from_json(&parse(
        r#"{"timestamp":1000,"type":"WARD_PLACED","creatorId":2,"wardType":"YELLOW_TRINKET"}"#,
    ))
    .unwrap();
    let again = Event::from_json(&e.clone().into_json()).unwrap();
    assert_eq!(again, e);
    assert_eq!(again.killer_id, None);
}

#[test]
fn timeline_round_trip() {
    let frames: Vec<String> = (1..=10).map(|i| format!("\"{}\":{}", i, frame_json(i))).collect();
    let text = format!(
        r#"{{"metadata":{{"dataVersion":"2","matchId":"NA1_9","participants":["a"]}},"info":{{"frameInterval":60000,"frames":[{{"events":[{{"timestamp":0,"type":"CHAMPION_KILL","position":{{"x":5,"y":6}},"assistingParticipantIds":[2,3]}}],"participantFrames":{{{}}},"timestamp":0}}],"gameId":9,"participants":[{{"participantId":1,"puuid":"a"}}]}}}}"#,
        frames.join(",")
    );
    let t = MatchTimeline::from_body(Ok(parse(&text))).unwrap();
    let again = MatchTimeline::from_json(&t.clone().into_json()).unwrap();
    assert_eq!(again, t);
}
