//! Match-V5: the match data model with its decoders and encoders, the query
//! encoder for match-id listings, and the region-scoped endpoint.
use vstd::prelude::*;
use crate::decimal::{decimal, to_decimal};
use crate::error::{undecodable_message, Error};
use crate::{lower_ascii, valid_api_key, Region};
use crate::json::{
    get_bool, get_i64, get_items, get_items_or_empty, get_opt, get_opt_i64, get_opt_str,
    get_required, get_str, i64s_into_json, key_lt_at, push_member, strs_into_json,
    as_opt_i64, as_opt_str, find_member, key_lt, opt_i64_into_json, opt_str_into_json,
    sorted_members, i64_at, bool_at, i64s_match, i64s_valid, items_at, items_or_empty_at,
    member, opt_at, opt_i64_at, opt_str_at, opt_view, read_i64s, read_strs, str_at, strs_match,
    strs_valid, take_items, take_member, Json,
};

verus! {

/// A match as the Match-V5 API reports it: its metadata and its record.
#[derive(Debug, PartialEq, Default)]
pub struct MatchInfo {
    pub metadata: Metadata,
    pub info: Info,
}

impl MatchInfo {
    /// `j` holds this value under the API's keys.
    #[verifier::opaque]
    pub open spec fn json_matches(self, j: Json) -> bool {
        &&& member(j, "metadata"@) matches Some(v) && self.metadata.json_matches(v)
        &&& member(j, "info"@) matches Some(v) && self.info.json_matches(v)
    }

    /// `j` is an object that decodes as this type: every key that is not
    /// optional is there, and every value has the declared shape.
    #[verifier::opaque]
    pub open spec fn json_valid(j: Json) -> bool {
        &&& member(j, "metadata"@) matches Some(v) && Metadata::json_valid(v)
        &&& member(j, "info"@) matches Some(v) && Info::json_valid(v)
    }

    /// Decodes `j`; fails with a message error exactly where `j` is not a
    /// valid encoding.
    pub fn from_json(j: Json) -> (r: Result<MatchInfo, Error>)
        ensures
            r is Ok <==> MatchInfo::json_valid(j),
            r matches Ok(x) ==> x.json_matches(j),
            r matches Err(e) ==> e is Message,
    {
        proof {
            reveal(MatchInfo::json_valid);
            reveal(MatchInfo::json_matches);
        }
        let metadata = Metadata::from_json(get_required(&j, "metadata")?)?;
        let info = Info::from_json(take_member(j, "info")?)?;
        Ok(MatchInfo {
            metadata,
            info,
        })
    }
}

/// What identifies a match or a timeline: data version, match id and the participants' PUUIDs in order.
#[derive(Debug, Clone, PartialEq, Default)]
pub struct Metadata {
    pub data_version: String,
    pub match_id: String,
    pub participants: Vec<String>,
}

impl Metadata {
    /// `j` holds this value under the API's keys.
    #[verifier::opaque]
    pub open spec fn json_matches(self, j: Json) -> bool {
        &&& str_at(j, "dataVersion"@) == Some(self.data_version@)
        &&& str_at(j, "matchId"@) == Some(self.match_id@)
        &&& items_at(j, "participants"@) matches Some(items) && strs_match(items, self.participants@)
    }

    /// `j` is an object that decodes as this type: every key that is not
    /// optional is there, and every value has the declared shape.
    #[verifier::opaque]
    pub open spec fn json_valid(j: Json) -> bool {
        &&& str_at(j, "dataVersion"@) is Some
        &&& str_at(j, "matchId"@) is Some
        &&& items_at(j, "participants"@) matches Some(items) && strs_valid(items)
    }

    /// Decodes `j`; fails with a message error exactly where `j` is not a
    /// valid encoding.
    pub fn from_json(j: &Json) -> (r: Result<Metadata, Error>)
        ensures
            r is Ok <==> Metadata::json_valid(*j),
            r matches Ok(x) ==> x.json_matches(*j),
            r matches Err(e) ==> e is Message,
    {
        proof {
            reveal(Metadata::json_valid);
            reveal(Metadata::json_matches);
        }
        let data_version = get_str(j, "dataVersion")?;
        let match_id = get_str(j, "matchId")?;
        let participants = read_strs(get_items(j, "participants")?)?;
        Ok(Metadata {
            data_version,
            match_id,
            participants,
        })
    }
}

/// The record of a match: timing, mode, type and version, its participants and its two teams.
#[derive(Debug, PartialEq, Default)]
pub struct Info {
    pub game_creation: i64,
    pub game_duration: i64,
    pub game_end_timestamp: i64,
    pub game_id: i64,
    pub game_mode: String,
    pub game_name: String,
    pub game_start_timestamp: i64,
    pub game_type: String,
    pub game_version: String,
    pub map_id: i64,
    pub participants: Vec<Participant>,
    pub platform_id: String,
    pub queue_id: i64,
    pub teams: Vec<Team>,
    pub tournament_code: String,
}

impl Info {
    /// `j` holds this value under the API's keys.
    #[verifier::opaque]
    pub open spec fn json_matches(self, j: Json) -> bool {
        &&& i64_at(j, "gameCreation"@) == Some(self.game_creation)
        &&& i64_at(j, "gameDuration"@) == Some(self.game_duration)
        &&& i64_at(j, "gameEndTimestamp"@) == Some(self.game_end_timestamp)
        &&& i64_at(j, "gameId"@) == Some(self.game_id)
        &&& str_at(j, "gameMode"@) == Some(self.game_mode@)
        &&& str_at(j, "gameName"@) == Some(self.game_name@)
        &&& i64_at(j, "gameStartTimestamp"@) == Some(self.game_start_timestamp)
        &&& str_at(j, "gameType"@) == Some(self.game_type@)
        &&& str_at(j, "gameVersion"@) == Some(self.game_version@)
        &&& i64_at(j, "mapId"@) == Some(self.map_id)
        &&& items_at(j, "participants"@) matches Some(items) && Participant::list_matches(self.participants@, items)
        &&& str_at(j, "platformId"@) == Some(self.platform_id@)
        &&& i64_at(j, "queueId"@) == Some(self.queue_id)
        &&& items_at(j, "teams"@) matches Some(items) && Team::list_matches(self.teams@, items)
        &&& str_at(j, "tournamentCode"@) == Some(self.tournament_code@)
    }

    /// `j` is an object that decodes as this type: every key that is not
    /// optional is there, and every value has the declared shape.
    #[verifier::opaque]
    pub open spec fn json_valid(j: Json) -> bool {
        &&& i64_at(j, "gameCreation"@) is Some
        &&& i64_at(j, "gameDuration"@) is Some
        &&& i64_at(j, "gameEndTimestamp"@) is Some
        &&& i64_at(j, "gameId"@) is Some
        &&& str_at(j, "gameMode"@) is Some
        &&& str_at(j, "gameName"@) is Some
        &&& i64_at(j, "gameStartTimestamp"@) is Some
        &&& str_at(j, "gameType"@) is Some
        &&& str_at(j, "gameVersion"@) is Some
        &&& i64_at(j, "mapId"@) is Some
        &&& items_at(j, "participants"@) matches Some(items) && Participant::list_valid(items)
        &&& str_at(j, "platformId"@) is Some
        &&& i64_at(j, "queueId"@) is Some
        &&& items_at(j, "teams"@) matches Some(items) && Team::list_valid(items)
        &&& str_at(j, "tournamentCode"@) is Some
    }

    /// Decodes `j`; fails with a message error exactly where `j` is not a
    /// valid encoding.
    pub fn from_json(j: Json) -> (r: Result<Info, Error>)
        ensures
            r is Ok <==> Info::json_valid(j),
            r matches Ok(x) ==> x.json_matches(j),
            r matches Err(e) ==> e is Message,
    {
        proof {
            reveal(Info::json_valid);
            reveal(Info::json_matches);
        }
        let game_creation = get_i64(&j, "gameCreation")?;
        let game_duration = get_i64(&j, "gameDuration")?;
        let game_end_timestamp = get_i64(&j, "gameEndTimestamp")?;
        let game_id = get_i64(&j, "gameId")?;
        let game_mode = get_str(&j, "gameMode")?;
        let game_name = get_str(&j, "gameName")?;
        let game_start_timestamp = get_i64(&j, "gameStartTimestamp")?;
        let game_type = get_str(&j, "gameType")?;
        let game_version = get_str(&j, "gameVersion")?;
        let map_id = get_i64(&j, "mapId")?;
        let participants = Participant::list_from_json(get_items(&j, "participants")?)?;
        let platform_id = get_str(&j, "platformId")?;
        let queue_id = get_i64(&j, "queueId")?;
        let tournament_code = get_str(&j, "tournamentCode")?;
        let teams = Team::list_from_json(take_items(j, "teams")?)?;
        Ok(Info {
            game_creation,
            game_duration,
            game_end_timestamp,
            game_id,
            game_mode,
            game_name,
            game_start_timestamp,
            game_type,
            game_version,
            map_id,
            participants,
            platform_id,
            queue_id,
            teams,
            tournament_code,
        })
    }
}

/// One player's statistics for one match.
#[derive(Debug, Clone, PartialEq, Default)]
pub struct Participant {
    pub assists: i64,
    pub baron_kills: i64,
    pub bounty_level: i64,
    pub champ_experience: i64,
    pub champ_level: i64,
    pub champion_id: i64,
    pub champion_name: String,
    pub champion_transform: i64,
    pub consumables_purchased: i64,
    pub damage_dealt_to_buildings: i64,
    pub damage_dealt_to_objectives: i64,
    pub damage_dealt_to_turrets: i64,
    pub damage_self_mitigated: i64,
    pub deaths: i64,
    pub detector_wards_placed: i64,
    pub double_kills: i64,
    pub dragon_kills: i64,
    pub first_blood_assist: bool,
    pub first_blood_kill: bool,
    pub first_tower_assist: bool,
    pub first_tower_kill: bool,
    pub game_ended_in_early_surrender: bool,
    pub game_ended_in_surrender: bool,
    pub gold_earned: i64,
    pub gold_spent: i64,
    pub individual_position: String,
    pub inhibitor_kills: i64,
    pub inhibitor_takedowns: i64,
    pub inhibitors_lost: i64,
    pub item0: i64,
    pub item1: i64,
    pub item2: i64,
    pub item3: i64,
    pub item4: i64,
    pub item5: i64,
    pub item6: i64,
    pub items_purchased: i64,
    pub killing_sprees: i64,
    pub kills: i64,
    pub lane: String,
    pub largest_critical_strike: i64,
    pub largest_killing_spree: i64,
    pub largest_multi_kill: i64,
    pub longest_time_spent_living: i64,
    pub magic_damage_dealt: i64,
    pub magic_damage_dealt_to_champions: i64,
    pub magic_damage_taken: i64,
    pub neutral_minions_killed: i64,
    pub nexus_kills: i64,
    pub nexus_lost: i64,
    pub nexus_takedowns: i64,
    pub objectives_stolen: i64,
    pub objectives_stolen_assists: i64,
    pub participant_id: i64,
    pub penta_kills: i64,
    pub perks: Perks,
    pub physical_damage_dealt: i64,
    pub physical_damage_dealt_to_champions: i64,
    pub physical_damage_taken: i64,
    pub profile_icon: i64,
    pub puuid: String,
    pub quadra_kills: i64,
    pub riot_id_name: String,
    pub riot_id_tagline: String,
    pub role: String,
    pub sight_wards_bought_in_game: i64,
    pub spell1casts: i64,
    pub spell2casts: i64,
    pub spell3casts: i64,
    pub spell4casts: i64,
    pub summoner1casts: i64,
    pub summoner1id: i64,
    pub summoner2casts: i64,
    pub summoner2id: i64,
    pub summoner_id: String,
    pub summoner_level: i64,
    pub summoner_name: String,
    pub team_early_surrendered: bool,
    pub team_id: i64,
    pub team_position: String,
    pub time_ccing_others: i64,
    pub time_played: i64,
    pub total_damage_dealt: i64,
    pub total_damage_dealt_to_champions: i64,
    pub total_damage_shielded_on_teammates: i64,
    pub total_damage_taken: i64,
    pub total_heal: i64,
    pub total_heals_on_teammates: i64,
    pub total_minions_killed: i64,
    pub total_time_ccdealt: i64,
    pub total_time_spent_dead: i64,
    pub total_units_healed: i64,
    pub triple_kills: i64,
    pub true_damage_dealt: i64,
    pub true_damage_dealt_to_champions: i64,
    pub true_damage_taken: i64,
    pub turret_kills: i64,
    pub turret_takedowns: i64,
    pub turrets_lost: i64,
    pub unreal_kills: i64,
    pub vision_score: i64,
    pub vision_wards_bought_in_game: i64,
    pub wards_killed: i64,
    pub wards_placed: i64,
    pub win: bool,
}

impl Participant {
    /// `j` holds this value under the API's keys.
    #[verifier::opaque]
    pub open spec fn json_matches(self, j: Json) -> bool {
        &&& i64_at(j, "assists"@) == Some(self.assists)
        &&& i64_at(j, "baronKills"@) == Some(self.baron_kills)
        &&& i64_at(j, "bountyLevel"@) == Some(self.bounty_level)
        &&& i64_at(j, "champExperience"@) == Some(self.champ_experience)
        &&& i64_at(j, "champLevel"@) == Some(self.champ_level)
        &&& i64_at(j, "championId"@) == Some(self.champion_id)
        &&& str_at(j, "championName"@) == Some(self.champion_name@)
        &&& i64_at(j, "championTransform"@) == Some(self.champion_transform)
        &&& i64_at(j, "consumablesPurchased"@) == Some(self.consumables_purchased)
        &&& i64_at(j, "damageDealtToBuildings"@) == Some(self.damage_dealt_to_buildings)
        &&& i64_at(j, "damageDealtToObjectives"@) == Some(self.damage_dealt_to_objectives)
        &&& i64_at(j, "damageDealtToTurrets"@) == Some(self.damage_dealt_to_turrets)
        &&& i64_at(j, "damageSelfMitigated"@) == Some(self.damage_self_mitigated)
        &&& i64_at(j, "deaths"@) == Some(self.deaths)
        &&& i64_at(j, "detectorWardsPlaced"@) == Some(self.detector_wards_placed)
        &&& i64_at(j, "doubleKills"@) == Some(self.double_kills)
        &&& i64_at(j, "dragonKills"@) == Some(self.dragon_kills)
        &&& bool_at(j, "firstBloodAssist"@) == Some(self.first_blood_assist)
        &&& bool_at(j, "firstBloodKill"@) == Some(self.first_blood_kill)
        &&& bool_at(j, "firstTowerAssist"@) == Some(self.first_tower_assist)
        &&& bool_at(j, "firstTowerKill"@) == Some(self.first_tower_kill)
        &&& bool_at(j, "gameEndedInEarlySurrender"@) == Some(self.game_ended_in_early_surrender)
        &&& bool_at(j, "gameEndedInSurrender"@) == Some(self.game_ended_in_surrender)
        &&& i64_at(j, "goldEarned"@) == Some(self.gold_earned)
        &&& i64_at(j, "goldSpent"@) == Some(self.gold_spent)
        &&& str_at(j, "individualPosition"@) == Some(self.individual_position@)
        &&& i64_at(j, "inhibitorKills"@) == Some(self.inhibitor_kills)
        &&& i64_at(j, "inhibitorTakedowns"@) == Some(self.inhibitor_takedowns)
        &&& i64_at(j, "inhibitorsLost"@) == Some(self.inhibitors_lost)
        &&& i64_at(j, "item0"@) == Some(self.item0)
        &&& i64_at(j, "item1"@) == Some(self.item1)
        &&& i64_at(j, "item2"@) == Some(self.item2)
        &&& i64_at(j, "item3"@) == Some(self.item3)
        &&& i64_at(j, "item4"@) == Some(self.item4)
        &&& i64_at(j, "item5"@) == Some(self.item5)
        &&& i64_at(j, "item6"@) == Some(self.item6)
        &&& i64_at(j, "itemsPurchased"@) == Some(self.items_purchased)
        &&& i64_at(j, "killingSprees"@) == Some(self.killing_sprees)
        &&& i64_at(j, "kills"@) == Some(self.kills)
        &&& str_at(j, "lane"@) == Some(self.lane@)
        &&& i64_at(j, "largestCriticalStrike"@) == Some(self.largest_critical_strike)
        &&& i64_at(j, "largestKillingSpree"@) == Some(self.largest_killing_spree)
        &&& i64_at(j, "largestMultiKill"@) == Some(self.largest_multi_kill)
        &&& i64_at(j, "longestTimeSpentLiving"@) == Some(self.longest_time_spent_living)
        &&& i64_at(j, "magicDamageDealt"@) == Some(self.magic_damage_dealt)
        &&& i64_at(j, "magicDamageDealtToChampions"@) == Some(self.magic_damage_dealt_to_champions)
        &&& i64_at(j, "magicDamageTaken"@) == Some(self.magic_damage_taken)
        &&& i64_at(j, "neutralMinionsKilled"@) == Some(self.neutral_minions_killed)
        &&& i64_at(j, "nexusKills"@) == Some(self.nexus_kills)
        &&& i64_at(j, "nexusLost"@) == Some(self.nexus_lost)
        &&& i64_at(j, "nexusTakedowns"@) == Some(self.nexus_takedowns)
        &&& i64_at(j, "objectivesStolen"@) == Some(self.objectives_stolen)
        &&& i64_at(j, "objectivesStolenAssists"@) == Some(self.objectives_stolen_assists)
        &&& i64_at(j, "participantId"@) == Some(self.participant_id)
        &&& i64_at(j, "pentaKills"@) == Some(self.penta_kills)
        &&& member(j, "perks"@) matches Some(v) && self.perks.json_matches(v)
        &&& i64_at(j, "physicalDamageDealt"@) == Some(self.physical_damage_dealt)
        &&& i64_at(j, "physicalDamageDealtToChampions"@) == Some(self.physical_damage_dealt_to_champions)
        &&& i64_at(j, "physicalDamageTaken"@) == Some(self.physical_damage_taken)
        &&& i64_at(j, "profileIcon"@) == Some(self.profile_icon)
        &&& str_at(j, "puuid"@) == Some(self.puuid@)
        &&& i64_at(j, "quadraKills"@) == Some(self.quadra_kills)
        &&& str_at(j, "riotIdName"@) == Some(self.riot_id_name@)
        &&& str_at(j, "riotIdTagline"@) == Some(self.riot_id_tagline@)
        &&& str_at(j, "role"@) == Some(self.role@)
        &&& i64_at(j, "sightWardsBoughtInGame"@) == Some(self.sight_wards_bought_in_game)
        &&& i64_at(j, "spell1Casts"@) == Some(self.spell1casts)
        &&& i64_at(j, "spell2Casts"@) == Some(self.spell2casts)
        &&& i64_at(j, "spell3Casts"@) == Some(self.spell3casts)
        &&& i64_at(j, "spell4Casts"@) == Some(self.spell4casts)
        &&& i64_at(j, "summoner1Casts"@) == Some(self.summoner1casts)
        &&& i64_at(j, "summoner1Id"@) == Some(self.summoner1id)
        &&& i64_at(j, "summoner2Casts"@) == Some(self.summoner2casts)
        &&& i64_at(j, "summoner2Id"@) == Some(self.summoner2id)
        &&& str_at(j, "summonerId"@) == Some(self.summoner_id@)
        &&& i64_at(j, "summonerLevel"@) == Some(self.summoner_level)
        &&& str_at(j, "summonerName"@) == Some(self.summoner_name@)
        &&& bool_at(j, "teamEarlySurrendered"@) == Some(self.team_early_surrendered)
        &&& i64_at(j, "teamId"@) == Some(self.team_id)
        &&& str_at(j, "teamPosition"@) == Some(self.team_position@)
        &&& i64_at(j, "timeCCingOthers"@) == Some(self.time_ccing_others)
        &&& i64_at(j, "timePlayed"@) == Some(self.time_played)
        &&& i64_at(j, "totalDamageDealt"@) == Some(self.total_damage_dealt)
        &&& i64_at(j, "totalDamageDealtToChampions"@) == Some(self.total_damage_dealt_to_champions)
        &&& i64_at(j, "totalDamageShieldedOnTeammates"@) == Some(self.total_damage_shielded_on_teammates)
        &&& i64_at(j, "totalDamageTaken"@) == Some(self.total_damage_taken)
        &&& i64_at(j, "totalHeal"@) == Some(self.total_heal)
        &&& i64_at(j, "totalHealsOnTeammates"@) == Some(self.total_heals_on_teammates)
        &&& i64_at(j, "totalMinionsKilled"@) == Some(self.total_minions_killed)
        &&& i64_at(j, "totalTimeCCDealt"@) == Some(self.total_time_ccdealt)
        &&& i64_at(j, "totalTimeSpentDead"@) == Some(self.total_time_spent_dead)
        &&& i64_at(j, "totalUnitsHealed"@) == Some(self.total_units_healed)
        &&& i64_at(j, "tripleKills"@) == Some(self.triple_kills)
        &&& i64_at(j, "trueDamageDealt"@) == Some(self.true_damage_dealt)
        &&& i64_at(j, "trueDamageDealtToChampions"@) == Some(self.true_damage_dealt_to_champions)
        &&& i64_at(j, "trueDamageTaken"@) == Some(self.true_damage_taken)
        &&& i64_at(j, "turretKills"@) == Some(self.turret_kills)
        &&& i64_at(j, "turretTakedowns"@) == Some(self.turret_takedowns)
        &&& i64_at(j, "turretsLost"@) == Some(self.turrets_lost)
        &&& i64_at(j, "unrealKills"@) == Some(self.unreal_kills)
        &&& i64_at(j, "visionScore"@) == Some(self.vision_score)
        &&& i64_at(j, "visionWardsBoughtInGame"@) == Some(self.vision_wards_bought_in_game)
        &&& i64_at(j, "wardsKilled"@) == Some(self.wards_killed)
        &&& i64_at(j, "wardsPlaced"@) == Some(self.wards_placed)
        &&& bool_at(j, "win"@) == Some(self.win)
    }

    /// `j` is an object that decodes as this type: every key that is not
    /// optional is there, and every value has the declared shape.
    #[verifier::opaque]
    pub open spec fn json_valid(j: Json) -> bool {
        &&& i64_at(j, "assists"@) is Some
        &&& i64_at(j, "baronKills"@) is Some
        &&& i64_at(j, "bountyLevel"@) is Some
        &&& i64_at(j, "champExperience"@) is Some
        &&& i64_at(j, "champLevel"@) is Some
        &&& i64_at(j, "championId"@) is Some
        &&& str_at(j, "championName"@) is Some
        &&& i64_at(j, "championTransform"@) is Some
        &&& i64_at(j, "consumablesPurchased"@) is Some
        &&& i64_at(j, "damageDealtToBuildings"@) is Some
        &&& i64_at(j, "damageDealtToObjectives"@) is Some
        &&& i64_at(j, "damageDealtToTurrets"@) is Some
        &&& i64_at(j, "damageSelfMitigated"@) is Some
        &&& i64_at(j, "deaths"@) is Some
        &&& i64_at(j, "detectorWardsPlaced"@) is Some
        &&& i64_at(j, "doubleKills"@) is Some
        &&& i64_at(j, "dragonKills"@) is Some
        &&& bool_at(j, "firstBloodAssist"@) is Some
        &&& bool_at(j, "firstBloodKill"@) is Some
        &&& bool_at(j, "firstTowerAssist"@) is Some
        &&& bool_at(j, "firstTowerKill"@) is Some
        &&& bool_at(j, "gameEndedInEarlySurrender"@) is Some
        &&& bool_at(j, "gameEndedInSurrender"@) is Some
        &&& i64_at(j, "goldEarned"@) is Some
        &&& i64_at(j, "goldSpent"@) is Some
        &&& str_at(j, "individualPosition"@) is Some
        &&& i64_at(j, "inhibitorKills"@) is Some
        &&& i64_at(j, "inhibitorTakedowns"@) is Some
        &&& i64_at(j, "inhibitorsLost"@) is Some
        &&& i64_at(j, "item0"@) is Some
        &&& i64_at(j, "item1"@) is Some
        &&& i64_at(j, "item2"@) is Some
        &&& i64_at(j, "item3"@) is Some
        &&& i64_at(j, "item4"@) is Some
        &&& i64_at(j, "item5"@) is Some
        &&& i64_at(j, "item6"@) is Some
        &&& i64_at(j, "itemsPurchased"@) is Some
        &&& i64_at(j, "killingSprees"@) is Some
        &&& i64_at(j, "kills"@) is Some
        &&& str_at(j, "lane"@) is Some
        &&& i64_at(j, "largestCriticalStrike"@) is Some
        &&& i64_at(j, "largestKillingSpree"@) is Some
        &&& i64_at(j, "largestMultiKill"@) is Some
        &&& i64_at(j, "longestTimeSpentLiving"@) is Some
        &&& i64_at(j, "magicDamageDealt"@) is Some
        &&& i64_at(j, "magicDamageDealtToChampions"@) is Some
        &&& i64_at(j, "magicDamageTaken"@) is Some
        &&& i64_at(j, "neutralMinionsKilled"@) is Some
        &&& i64_at(j, "nexusKills"@) is Some
        &&& i64_at(j, "nexusLost"@) is Some
        &&& i64_at(j, "nexusTakedowns"@) is Some
        &&& i64_at(j, "objectivesStolen"@) is Some
        &&& i64_at(j, "objectivesStolenAssists"@) is Some
        &&& i64_at(j, "participantId"@) is Some
        &&& i64_at(j, "pentaKills"@) is Some
        &&& member(j, "perks"@) matches Some(v) && Perks::json_valid(v)
        &&& i64_at(j, "physicalDamageDealt"@) is Some
        &&& i64_at(j, "physicalDamageDealtToChampions"@) is Some
        &&& i64_at(j, "physicalDamageTaken"@) is Some
        &&& i64_at(j, "profileIcon"@) is Some
        &&& str_at(j, "puuid"@) is Some
        &&& i64_at(j, "quadraKills"@) is Some
        &&& str_at(j, "riotIdName"@) is Some
        &&& str_at(j, "riotIdTagline"@) is Some
        &&& str_at(j, "role"@) is Some
        &&& i64_at(j, "sightWardsBoughtInGame"@) is Some
        &&& i64_at(j, "spell1Casts"@) is Some
        &&& i64_at(j, "spell2Casts"@) is Some
        &&& i64_at(j, "spell3Casts"@) is Some
        &&& i64_at(j, "spell4Casts"@) is Some
        &&& i64_at(j, "summoner1Casts"@) is Some
        &&& i64_at(j, "summoner1Id"@) is Some
        &&& i64_at(j, "summoner2Casts"@) is Some
        &&& i64_at(j, "summoner2Id"@) is Some
        &&& str_at(j, "summonerId"@) is Some
        &&& i64_at(j, "summonerLevel"@) is Some
        &&& str_at(j, "summonerName"@) is Some
        &&& bool_at(j, "teamEarlySurrendered"@) is Some
        &&& i64_at(j, "teamId"@) is Some
        &&& str_at(j, "teamPosition"@) is Some
        &&& i64_at(j, "timeCCingOthers"@) is Some
        &&& i64_at(j, "timePlayed"@) is Some
        &&& i64_at(j, "totalDamageDealt"@) is Some
        &&& i64_at(j, "totalDamageDealtToChampions"@) is Some
        &&& i64_at(j, "totalDamageShieldedOnTeammates"@) is Some
        &&& i64_at(j, "totalDamageTaken"@) is Some
        &&& i64_at(j, "totalHeal"@) is Some
        &&& i64_at(j, "totalHealsOnTeammates"@) is Some
        &&& i64_at(j, "totalMinionsKilled"@) is Some
        &&& i64_at(j, "totalTimeCCDealt"@) is Some
        &&& i64_at(j, "totalTimeSpentDead"@) is Some
        &&& i64_at(j, "totalUnitsHealed"@) is Some
        &&& i64_at(j, "tripleKills"@) is Some
        &&& i64_at(j, "trueDamageDealt"@) is Some
        &&& i64_at(j, "trueDamageDealtToChampions"@) is Some
        &&& i64_at(j, "trueDamageTaken"@) is Some
        &&& i64_at(j, "turretKills"@) is Some
        &&& i64_at(j, "turretTakedowns"@) is Some
        &&& i64_at(j, "turretsLost"@) is Some
        &&& i64_at(j, "unrealKills"@) is Some
        &&& i64_at(j, "visionScore"@) is Some
        &&& i64_at(j, "visionWardsBoughtInGame"@) is Some
        &&& i64_at(j, "wardsKilled"@) is Some
        &&& i64_at(j, "wardsPlaced"@) is Some
        &&& bool_at(j, "win"@) is Some
    }

    /// Every element of `items` decodes as this type.
    pub open spec fn list_valid(items: Seq<Json>) -> bool {
        forall|k: int| 0 <= k < items.len() ==> #[trigger] Participant::json_valid(items[k])
    }

    /// `v` is `items` decoded element by element.
    pub open spec fn list_matches(v: Seq<Participant>, items: Seq<Json>) -> bool {
        &&& v.len() == items.len()
        &&& forall|k: int| 0 <= k < v.len() ==> #[trigger] v[k].json_matches(items[k])
    }

    /// Decodes `j`; fails with a message error exactly where `j` is not a
    /// valid encoding.
    pub fn from_json(j: &Json) -> (r: Result<Participant, Error>)
        ensures
            r is Ok <==> Participant::json_valid(*j),
            r matches Ok(x) ==> x.json_matches(*j),
            r matches Err(e) ==> e is Message,
    {
        proof {
            reveal(Participant::json_valid);
            reveal(Participant::json_matches);
        }
        let assists = get_i64(j, "assists")?;
        let baron_kills = get_i64(j, "baronKills")?;
        let bounty_level = get_i64(j, "bountyLevel")?;
        let champ_experience = get_i64(j, "champExperience")?;
        let champ_level = get_i64(j, "champLevel")?;
        let champion_id = get_i64(j, "championId")?;
        let champion_name = get_str(j, "championName")?;
        let champion_transform = get_i64(j, "championTransform")?;
        let consumables_purchased = get_i64(j, "consumablesPurchased")?;
        let damage_dealt_to_buildings = get_i64(j, "damageDealtToBuildings")?;
        let damage_dealt_to_objectives = get_i64(j, "damageDealtToObjectives")?;
        let damage_dealt_to_turrets = get_i64(j, "damageDealtToTurrets")?;
        let damage_self_mitigated = get_i64(j, "damageSelfMitigated")?;
        let deaths = get_i64(j, "deaths")?;
        let detector_wards_placed = get_i64(j, "detectorWardsPlaced")?;
        let double_kills = get_i64(j, "doubleKills")?;
        let dragon_kills = get_i64(j, "dragonKills")?;
        let first_blood_assist = get_bool(j, "firstBloodAssist")?;
        let first_blood_kill = get_bool(j, "firstBloodKill")?;
        let first_tower_assist = get_bool(j, "firstTowerAssist")?;
        let first_tower_kill = get_bool(j, "firstTowerKill")?;
        let game_ended_in_early_surrender = get_bool(j, "gameEndedInEarlySurrender")?;
        let game_ended_in_surrender = get_bool(j, "gameEndedInSurrender")?;
        let gold_earned = get_i64(j, "goldEarned")?;
        let gold_spent = get_i64(j, "goldSpent")?;
        let individual_position = get_str(j, "individualPosition")?;
        let inhibitor_kills = get_i64(j, "inhibitorKills")?;
        let inhibitor_takedowns = get_i64(j, "inhibitorTakedowns")?;
        let inhibitors_lost = get_i64(j, "inhibitorsLost")?;
        let item0 = get_i64(j, "item0")?;
        let item1 = get_i64(j, "item1")?;
        let item2 = get_i64(j, "item2")?;
        let item3 = get_i64(j, "item3")?;
        let item4 = get_i64(j, "item4")?;
        let item5 = get_i64(j, "item5")?;
        let item6 = get_i64(j, "item6")?;
        let items_purchased = get_i64(j, "itemsPurchased")?;
        let killing_sprees = get_i64(j, "killingSprees")?;
        let kills = get_i64(j, "kills")?;
        let lane = get_str(j, "lane")?;
        let largest_critical_strike = get_i64(j, "largestCriticalStrike")?;
        let largest_killing_spree = get_i64(j, "largestKillingSpree")?;
        let largest_multi_kill = get_i64(j, "largestMultiKill")?;
        let longest_time_spent_living = get_i64(j, "longestTimeSpentLiving")?;
        let magic_damage_dealt = get_i64(j, "magicDamageDealt")?;
        let magic_damage_dealt_to_champions = get_i64(j, "magicDamageDealtToChampions")?;
        let magic_damage_taken = get_i64(j, "magicDamageTaken")?;
        let neutral_minions_killed = get_i64(j, "neutralMinionsKilled")?;
        let nexus_kills = get_i64(j, "nexusKills")?;
        let nexus_lost = get_i64(j, "nexusLost")?;
        let nexus_takedowns = get_i64(j, "nexusTakedowns")?;
        let objectives_stolen = get_i64(j, "objectivesStolen")?;
        let objectives_stolen_assists = get_i64(j, "objectivesStolenAssists")?;
        let participant_id = get_i64(j, "participantId")?;
        let penta_kills = get_i64(j, "pentaKills")?;
        let perks = Perks::from_json(get_required(j, "perks")?)?;
        let physical_damage_dealt = get_i64(j, "physicalDamageDealt")?;
        let physical_damage_dealt_to_champions = get_i64(j, "physicalDamageDealtToChampions")?;
        let physical_damage_taken = get_i64(j, "physicalDamageTaken")?;
        let profile_icon = get_i64(j, "profileIcon")?;
        let puuid = get_str(j, "puuid")?;
        let quadra_kills = get_i64(j, "quadraKills")?;
        let riot_id_name = get_str(j, "riotIdName")?;
        let riot_id_tagline = get_str(j, "riotIdTagline")?;
        let role = get_str(j, "role")?;
        let sight_wards_bought_in_game = get_i64(j, "sightWardsBoughtInGame")?;
        let spell1casts = get_i64(j, "spell1Casts")?;
        let spell2casts = get_i64(j, "spell2Casts")?;
        let spell3casts = get_i64(j, "spell3Casts")?;
        let spell4casts = get_i64(j, "spell4Casts")?;
        let summoner1casts = get_i64(j, "summoner1Casts")?;
        let summoner1id = get_i64(j, "summoner1Id")?;
        let summoner2casts = get_i64(j, "summoner2Casts")?;
        let summoner2id = get_i64(j, "summoner2Id")?;
        let summoner_id = get_str(j, "summonerId")?;
        let summoner_level = get_i64(j, "summonerLevel")?;
        let summoner_name = get_str(j, "summonerName")?;
        let team_early_surrendered = get_bool(j, "teamEarlySurrendered")?;
        let team_id = get_i64(j, "teamId")?;
        let team_position = get_str(j, "teamPosition")?;
        let time_ccing_others = get_i64(j, "timeCCingOthers")?;
        let time_played = get_i64(j, "timePlayed")?;
        let total_damage_dealt = get_i64(j, "totalDamageDealt")?;
        let total_damage_dealt_to_champions = get_i64(j, "totalDamageDealtToChampions")?;
        let total_damage_shielded_on_teammates = get_i64(j, "totalDamageShieldedOnTeammates")?;
        let total_damage_taken = get_i64(j, "totalDamageTaken")?;
        let total_heal = get_i64(j, "totalHeal")?;
        let total_heals_on_teammates = get_i64(j, "totalHealsOnTeammates")?;
        let total_minions_killed = get_i64(j, "totalMinionsKilled")?;
        let total_time_ccdealt = get_i64(j, "totalTimeCCDealt")?;
        let total_time_spent_dead = get_i64(j, "totalTimeSpentDead")?;
        let total_units_healed = get_i64(j, "totalUnitsHealed")?;
        let triple_kills = get_i64(j, "tripleKills")?;
        let true_damage_dealt = get_i64(j, "trueDamageDealt")?;
        let true_damage_dealt_to_champions = get_i64(j, "trueDamageDealtToChampions")?;
        let true_damage_taken = get_i64(j, "trueDamageTaken")?;
        let turret_kills = get_i64(j, "turretKills")?;
        let turret_takedowns = get_i64(j, "turretTakedowns")?;
        let turrets_lost = get_i64(j, "turretsLost")?;
        let unreal_kills = get_i64(j, "unrealKills")?;
        let vision_score = get_i64(j, "visionScore")?;
        let vision_wards_bought_in_game = get_i64(j, "visionWardsBoughtInGame")?;
        let wards_killed = get_i64(j, "wardsKilled")?;
        let wards_placed = get_i64(j, "wardsPlaced")?;
        let win = get_bool(j, "win")?;
        Ok(Participant {
            assists,
            baron_kills,
            bounty_level,
            champ_experience,
            champ_level,
            champion_id,
            champion_name,
            champion_transform,
            consumables_purchased,
            damage_dealt_to_buildings,
            damage_dealt_to_objectives,
            damage_dealt_to_turrets,
            damage_self_mitigated,
            deaths,
            detector_wards_placed,
            double_kills,
            dragon_kills,
            first_blood_assist,
            first_blood_kill,
            first_tower_assist,
            first_tower_kill,
            game_ended_in_early_surrender,
            game_ended_in_surrender,
            gold_earned,
            gold_spent,
            individual_position,
            inhibitor_kills,
            inhibitor_takedowns,
            inhibitors_lost,
            item0,
            item1,
            item2,
            item3,
            item4,
            item5,
            item6,
            items_purchased,
            killing_sprees,
            kills,
            lane,
            largest_critical_strike,
            largest_killing_spree,
            largest_multi_kill,
            longest_time_spent_living,
            magic_damage_dealt,
            magic_damage_dealt_to_champions,
            magic_damage_taken,
            neutral_minions_killed,
            nexus_kills,
            nexus_lost,
            nexus_takedowns,
            objectives_stolen,
            objectives_stolen_assists,
            participant_id,
            penta_kills,
            perks,
            physical_damage_dealt,
            physical_damage_dealt_to_champions,
            physical_damage_taken,
            profile_icon,
            puuid,
            quadra_kills,
            riot_id_name,
            riot_id_tagline,
            role,
            sight_wards_bought_in_game,
            spell1casts,
            spell2casts,
            spell3casts,
            spell4casts,
            summoner1casts,
            summoner1id,
            summoner2casts,
            summoner2id,
            summoner_id,
            summoner_level,
            summoner_name,
            team_early_surrendered,
            team_id,
            team_position,
            time_ccing_others,
            time_played,
            total_damage_dealt,
            total_damage_dealt_to_champions,
            total_damage_shielded_on_teammates,
            total_damage_taken,
            total_heal,
            total_heals_on_teammates,
            total_minions_killed,
            total_time_ccdealt,
            total_time_spent_dead,
            total_units_healed,
            triple_kills,
            true_damage_dealt,
            true_damage_dealt_to_champions,
            true_damage_taken,
            turret_kills,
            turret_takedowns,
            turrets_lost,
            unreal_kills,
            vision_score,
            vision_wards_bought_in_game,
            wards_killed,
            wards_placed,
            win,
        })
    }

    /// Decodes each element of `items`, in order.
    pub fn list_from_json(items: &Vec<Json>) -> (r: Result<Vec<Participant>, Error>)
        ensures
            r is Ok <==> Participant::list_valid(items@),
            r matches Ok(v) ==> Participant::list_matches(v@, items@),
            r matches Err(e) ==> e is Message,
    {
        let mut out: Vec<Participant> = Vec::new();
        let mut i: usize = 0;
        while i < items.len()
            invariant
                i <= items@.len(),
                out@.len() == i,
                forall|k: int| 0 <= k < i ==> #[trigger] Participant::json_valid(items@[k]),
                forall|k: int| 0 <= k < i ==> (#[trigger] out@[k]).json_matches(items@[k]),
            decreases items@.len() - i,
        {
            let x = match Participant::from_json(&items[i]) {
                Ok(x) => x,
                Err(e) => {
                    assert(!Participant::list_valid(items@));
                    return Err(e);
                },
            };
            out.push(x);
            i = i + 1;
        }
        Ok(out)
    }
}

/// A participant's rune selection.
#[derive(Debug, Clone, PartialEq, Default)]
pub struct Perks {
    pub stat_perks: StatPerks,
    pub styles: Vec<Style>,
}

impl Perks {
    /// `j` holds this value under the API's keys.
    #[verifier::opaque]
    pub open spec fn json_matches(self, j: Json) -> bool {
        &&& member(j, "statPerks"@) matches Some(v) && self.stat_perks.json_matches(v)
        &&& items_at(j, "styles"@) matches Some(items) && Style::list_matches(self.styles@, items)
    }

    /// `j` is an object that decodes as this type: every key that is not
    /// optional is there, and every value has the declared shape.
    #[verifier::opaque]
    pub open spec fn json_valid(j: Json) -> bool {
        &&& member(j, "statPerks"@) matches Some(v) && StatPerks::json_valid(v)
        &&& items_at(j, "styles"@) matches Some(items) && Style::list_valid(items)
    }

    /// Decodes `j`; fails with a message error exactly where `j` is not a
    /// valid encoding.
    pub fn from_json(j: &Json) -> (r: Result<Perks, Error>)
        ensures
            r is Ok <==> Perks::json_valid(*j),
            r matches Ok(x) ==> x.json_matches(*j),
            r matches Err(e) ==> e is Message,
    {
        proof {
            reveal(Perks::json_valid);
            reveal(Perks::json_matches);
        }
        let stat_perks = StatPerks::from_json(get_required(j, "statPerks")?)?;
        let styles = Style::list_from_json(get_items(j, "styles")?)?;
        Ok(Perks {
            stat_perks,
            styles,
        })
    }
}

/// The three stat runes.
#[derive(Debug, Clone, PartialEq, Default)]
pub struct StatPerks {
    pub defense: i64,
    pub flex: i64,
    pub offense: i64,
}

impl StatPerks {
    /// `j` holds this value under the API's keys.
    #[verifier::opaque]
    pub open spec fn json_matches(self, j: Json) -> bool {
        &&& i64_at(j, "defense"@) == Some(self.defense)
        &&& i64_at(j, "flex"@) == Some(self.flex)
        &&& i64_at(j, "offense"@) == Some(self.offense)
    }

    /// `j` is an object that decodes as this type: every key that is not
    /// optional is there, and every value has the declared shape.
    #[verifier::opaque]
    pub open spec fn json_valid(j: Json) -> bool {
        &&& i64_at(j, "defense"@) is Some
        &&& i64_at(j, "flex"@) is Some
        &&& i64_at(j, "offense"@) is Some
    }

    /// Decodes `j`; fails with a message error exactly where `j` is not a
    /// valid encoding.
    pub fn from_json(j: &Json) -> (r: Result<StatPerks, Error>)
        ensures
            r is Ok <==> StatPerks::json_valid(*j),
            r matches Ok(x) ==> x.json_matches(*j),
            r matches Err(e) ==> e is Message,
    {
        proof {
            reveal(StatPerks::json_valid);
            reveal(StatPerks::json_matches);
        }
        let defense = get_i64(j, "defense")?;
        let flex = get_i64(j, "flex")?;
        let offense = get_i64(j, "offense")?;
        Ok(StatPerks {
            defense,
            flex,
            offense,
        })
    }
}

/// A rune style with its selections.
#[derive(Debug, Clone, PartialEq, Default)]
pub struct Style {
    pub description: String,
    pub selections: Vec<Selection>,
    pub style: i64,
}

impl Style {
    /// `j` holds this value under the API's keys.
    #[verifier::opaque]
    pub open spec fn json_matches(self, j: Json) -> bool {
        &&& str_at(j, "description"@) == Some(self.description@)
        &&& items_at(j, "selections"@) matches Some(items) && Selection::list_matches(self.selections@, items)
        &&& i64_at(j, "style"@) == Some(self.style)
    }

    /// `j` is an object that decodes as this type: every key that is not
    /// optional is there, and every value has the declared shape.
    #[verifier::opaque]
    pub open spec fn json_valid(j: Json) -> bool {
        &&& str_at(j, "description"@) is Some
        &&& items_at(j, "selections"@) matches Some(items) && Selection::list_valid(items)
        &&& i64_at(j, "style"@) is Some
    }

    /// Every element of `items` decodes as this type.
    pub open spec fn list_valid(items: Seq<Json>) -> bool {
        forall|k: int| 0 <= k < items.len() ==> #[trigger] Style::json_valid(items[k])
    }

    /// `v` is `items` decoded element by element.
    pub open spec fn list_matches(v: Seq<Style>, items: Seq<Json>) -> bool {
        &&& v.len() == items.len()
        &&& forall|k: int| 0 <= k < v.len() ==> #[trigger] v[k].json_matches(items[k])
    }

    /// Decodes `j`; fails with a message error exactly where `j` is not a
    /// valid encoding.
    pub fn from_json(j: &Json) -> (r: Result<Style, Error>)
        ensures
            r is Ok <==> Style::json_valid(*j),
            r matches Ok(x) ==> x.json_matches(*j),
            r matches Err(e) ==> e is Message,
    {
        proof {
            reveal(Style::json_valid);
            reveal(Style::json_matches);
        }
        let description = get_str(j, "description")?;
        let selections = Selection::list_from_json(get_items(j, "selections")?)?;
        let style = get_i64(j, "style")?;
        Ok(Style {
            description,
            selections,
            style,
        })
    }

    /// Decodes each element of `items`, in order.
    pub fn list_from_json(items: &Vec<Json>) -> (r: Result<Vec<Style>, Error>)
        ensures
            r is Ok <==> Style::list_valid(items@),
            r matches Ok(v) ==> Style::list_matches(v@, items@),
            r matches Err(e) ==> e is Message,
    {
        let mut out: Vec<Style> = Vec::new();
        let mut i: usize = 0;
        while i < items.len()
            invariant
                i <= items@.len(),
                out@.len() == i,
                forall|k: int| 0 <= k < i ==> #[trigger] Style::json_valid(items@[k]),
                forall|k: int| 0 <= k < i ==> (#[trigger] out@[k]).json_matches(items@[k]),
            decreases items@.len() - i,
        {
            let x = match Style::from_json(&items[i]) {
                Ok(x) => x,
                Err(e) => {
                    assert(!Style::list_valid(items@));
                    return Err(e);
                },
            };
            out.push(x);
            i = i + 1;
        }
        Ok(out)
    }
}

/// One selected rune and its variables.
#[derive(Debug, Clone, PartialEq, Default)]
pub struct Selection {
    pub perk: i64,
    pub var1: i64,
    pub var2: i64,
    pub var3: i64,
}

impl Selection {
    /// `j` holds this value under the API's keys.
    #[verifier::opaque]
    pub open spec fn json_matches(self, j: Json) -> bool {
        &&& i64_at(j, "perk"@) == Some(self.perk)
        &&& i64_at(j, "var1"@) == Some(self.var1)
        &&& i64_at(j, "var2"@) == Some(self.var2)
        &&& i64_at(j, "var3"@) == Some(self.var3)
    }

    /// `j` is an object that decodes as this type: every key that is not
    /// optional is there, and every value has the declared shape.
    #[verifier::opaque]
    pub open spec fn json_valid(j: Json) -> bool {
        &&& i64_at(j, "perk"@) is Some
        &&& i64_at(j, "var1"@) is Some
        &&& i64_at(j, "var2"@) is Some
        &&& i64_at(j, "var3"@) is Some
    }

    /// Every element of `items` decodes as this type.
    pub open spec fn list_valid(items: Seq<Json>) -> bool {
        forall|k: int| 0 <= k < items.len() ==> #[trigger] Selection::json_valid(items[k])
    }

    /// `v` is `items` decoded element by element.
    pub open spec fn list_matches(v: Seq<Selection>, items: Seq<Json>) -> bool {
        &&& v.len() == items.len()
        &&& forall|k: int| 0 <= k < v.len() ==> #[trigger] v[k].json_matches(items[k])
    }

    /// Decodes `j`; fails with a message error exactly where `j` is not a
    /// valid encoding.
    pub fn from_json(j: &Json) -> (r: Result<Selection, Error>)
        ensures
            r is Ok <==> Selection::json_valid(*j),
            r matches Ok(x) ==> x.json_matches(*j),
            r matches Err(e) ==> e is Message,
    {
        proof {
            reveal(Selection::json_valid);
            reveal(Selection::json_matches);
        }
        let perk = get_i64(j, "perk")?;
        let var1 = get_i64(j, "var1")?;
        let var2 = get_i64(j, "var2")?;
        let var3 = get_i64(j, "var3")?;
        Ok(Selection {
            perk,
            var1,
            var2,
            var3,
        })
    }

    /// Decodes each element of `items`, in order.
    pub fn list_from_json(items: &Vec<Json>) -> (r: Result<Vec<Selection>, Error>)
        ensures
            r is Ok <==> Selection::list_valid(items@),
            r matches Ok(v) ==> Selection::list_matches(v@, items@),
            r matches Err(e) ==> e is Message,
    {
        let mut out: Vec<Selection> = Vec::new();
        let mut i: usize = 0;
        while i < items.len()
            invariant
                i <= items@.len(),
                out@.len() == i,
                forall|k: int| 0 <= k < i ==> #[trigger] Selection::json_valid(items@[k]),
                forall|k: int| 0 <= k < i ==> (#[trigger] out@[k]).json_matches(items@[k]),
            decreases items@.len() - i,
        {
            let x = match Selection::from_json(&items[i]) {
                Ok(x) => x,
                Err(e) => {
                    assert(!Selection::list_valid(items@));
                    return Err(e);
                },
            };
            out.push(x);
            i = i + 1;
        }
        Ok(out)
    }
}

/// One side's result: team id, win flag, bans and objectives. Each ban is kept as the JSON the API sent.
#[derive(Debug, PartialEq, Default)]
pub struct Team {
    pub bans: Vec<Json>,
    pub objectives: Objectives,
    pub team_id: i64,
    pub win: bool,
}

impl Team {
    /// `j` holds this value under the API's keys.
    #[verifier::opaque]
    pub open spec fn json_matches(self, j: Json) -> bool {
        &&& items_at(j, "bans"@) == Some(self.bans@)
        &&& member(j, "objectives"@) matches Some(v) && self.objectives.json_matches(v)
        &&& i64_at(j, "teamId"@) == Some(self.team_id)
        &&& bool_at(j, "win"@) == Some(self.win)
    }

    /// `j` is an object that decodes as this type: every key that is not
    /// optional is there, and every value has the declared shape.
    #[verifier::opaque]
    pub open spec fn json_valid(j: Json) -> bool {
        &&& items_at(j, "bans"@) is Some
        &&& member(j, "objectives"@) matches Some(v) && Objectives::json_valid(v)
        &&& i64_at(j, "teamId"@) is Some
        &&& bool_at(j, "win"@) is Some
    }

    /// Every element of `items` decodes as this type.
    pub open spec fn list_valid(items: Seq<Json>) -> bool {
        forall|k: int| 0 <= k < items.len() ==> #[trigger] Team::json_valid(items[k])
    }

    /// `v` is `items` decoded element by element.
    pub open spec fn list_matches(v: Seq<Team>, items: Seq<Json>) -> bool {
        &&& v.len() == items.len()
        &&& forall|k: int| 0 <= k < v.len() ==> #[trigger] v[k].json_matches(items[k])
    }

    /// Decodes `j`; fails with a message error exactly where `j` is not a
    /// valid encoding.
    pub fn from_json(j: Json) -> (r: Result<Team, Error>)
        ensures
            r is Ok <==> Team::json_valid(j),
            r matches Ok(x) ==> x.json_matches(j),
            r matches Err(e) ==> e is Message,
    {
        proof {
            reveal(Team::json_valid);
            reveal(Team::json_matches);
        }
        let objectives = Objectives::from_json(get_required(&j, "objectives")?)?;
        let team_id = get_i64(&j, "teamId")?;
        let win = get_bool(&j, "win")?;
        let bans = take_items(j, "bans")?;
        Ok(Team {
            bans,
            objectives,
            team_id,
            win,
        })
    }

    /// Decodes each element of `items`, in order.
    pub fn list_from_json(items: Vec<Json>) -> (r: Result<Vec<Team>, Error>)
        ensures
            r is Ok <==> Team::list_valid(items@),
            r matches Ok(v) ==> Team::list_matches(v@, items@),
            r matches Err(e) ==> e is Message,
    {
        let ghost whole = items@;
        let mut rest = items;
        let mut out: Vec<Team> = Vec::new();
        while rest.len() > 0
            invariant
                whole == items@,
                out@.len() <= whole.len(),
                rest@ == whole.subrange(out@.len() as int, whole.len() as int),
                forall|k: int| 0 <= k < out@.len() ==> #[trigger] Team::json_valid(whole[k]),
                forall|k: int| 0 <= k < out@.len() ==> (#[trigger] out@[k]).json_matches(whole[k]),
            decreases rest@.len(),
        {
            let ghost at = out@.len() as int;
            let item = rest.remove(0);
            assert(item == whole[at]);
            let x = match Team::from_json(item) {
                Ok(x) => x,
                Err(e) => {
                    assert(!Team::list_valid(whole));
                    return Err(e);
                },
            };
            out.push(x);
            assert(rest@ =~= whole.subrange(out@.len() as int, whole.len() as int));
        }
        Ok(out)
    }
}

/// The six objective categories of a team.
#[derive(Debug, Clone, PartialEq, Default)]
pub struct Objectives {
    pub baron: Baron,
    pub champion: Champion,
    pub dragon: Dragon,
    pub inhibitor: Inhibitor,
    pub rift_herald: RiftHerald,
    pub tower: Tower,
}

impl Objectives {
    /// `j` holds this value under the API's keys.
    #[verifier::opaque]
    pub open spec fn json_matches(self, j: Json) -> bool {
        &&& member(j, "baron"@) matches Some(v) && self.baron.json_matches(v)
        &&& member(j, "champion"@) matches Some(v) && self.champion.json_matches(v)
        &&& member(j, "dragon"@) matches Some(v) && self.dragon.json_matches(v)
        &&& member(j, "inhibitor"@) matches Some(v) && self.inhibitor.json_matches(v)
        &&& member(j, "riftHerald"@) matches Some(v) && self.rift_herald.json_matches(v)
        &&& member(j, "tower"@) matches Some(v) && self.tower.json_matches(v)
    }

    /// `j` is an object that decodes as this type: every key that is not
    /// optional is there, and every value has the declared shape.
    #[verifier::opaque]
    pub open spec fn json_valid(j: Json) -> bool {
        &&& member(j, "baron"@) matches Some(v) && Baron::json_valid(v)
        &&& member(j, "champion"@) matches Some(v) && Champion::json_valid(v)
        &&& member(j, "dragon"@) matches Some(v) && Dragon::json_valid(v)
        &&& member(j, "inhibitor"@) matches Some(v) && Inhibitor::json_valid(v)
        &&& member(j, "riftHerald"@) matches Some(v) && RiftHerald::json_valid(v)
        &&& member(j, "tower"@) matches Some(v) && Tower::json_valid(v)
    }

    /// Decodes `j`; fails with a message error exactly where `j` is not a
    /// valid encoding.
    pub fn from_json(j: &Json) -> (r: Result<Objectives, Error>)
        ensures
            r is Ok <==> Objectives::json_valid(*j),
            r matches Ok(x) ==> x.json_matches(*j),
            r matches Err(e) ==> e is Message,
    {
        proof {
            reveal(Objectives::json_valid);
            reveal(Objectives::json_matches);
        }
        let baron = Baron::from_json(get_required(j, "baron")?)?;
        let champion = Champion::from_json(get_required(j, "champion")?)?;
        let dragon = Dragon::from_json(get_required(j, "dragon")?)?;
        let inhibitor = Inhibitor::from_json(get_required(j, "inhibitor")?)?;
        let rift_herald = RiftHerald::from_json(get_required(j, "riftHerald")?)?;
        let tower = Tower::from_json(get_required(j, "tower")?)?;
        Ok(Objectives {
            baron,
            champion,
            dragon,
            inhibitor,
            rift_herald,
            tower,
        })
    }
}

/// Baron kills of a team, and whether it took the first.
#[derive(Debug, Clone, PartialEq, Default)]
pub struct Baron {
    pub first: bool,
    pub kills: i64,
}

impl Baron {
    /// `j` holds this value under the API's keys.
    #[verifier::opaque]
    pub open spec fn json_matches(self, j: Json) -> bool {
        &&& bool_at(j, "first"@) == Some(self.first)
        &&& i64_at(j, "kills"@) == Some(self.kills)
    }

    /// `j` is an object that decodes as this type: every key that is not
    /// optional is there, and every value has the declared shape.
    #[verifier::opaque]
    pub open spec fn json_valid(j: Json) -> bool {
        &&& bool_at(j, "first"@) is Some
        &&& i64_at(j, "kills"@) is Some
    }

    /// Decodes `j`; fails with a message error exactly where `j` is not a
    /// valid encoding.
    pub fn from_json(j: &Json) -> (r: Result<Baron, Error>)
        ensures
            r is Ok <==> Baron::json_valid(*j),
            r matches Ok(x) ==> x.json_matches(*j),
            r matches Err(e) ==> e is Message,
    {
        proof {
            reveal(Baron::json_valid);
            reveal(Baron::json_matches);
        }
        let first = get_bool(j, "first")?;
        let kills = get_i64(j, "kills")?;
        Ok(Baron {
            first,
            kills,
        })
    }
}

/// Champion kills of a team, and whether it took the first.
#[derive(Debug, Clone, PartialEq, Default)]
pub struct Champion {
    pub first: bool,
    pub kills: i64,
}

impl Champion {
    /// `j` holds this value under the API's keys.
    #[verifier::opaque]
    pub open spec fn json_matches(self, j: Json) -> bool {
        &&& bool_at(j, "first"@) == Some(self.first)
        &&& i64_at(j, "kills"@) == Some(self.kills)
    }

    /// `j` is an object that decodes as this type: every key that is not
    /// optional is there, and every value has the declared shape.
    #[verifier::opaque]
    pub open spec fn json_valid(j: Json) -> bool {
        &&& bool_at(j, "first"@) is Some
        &&& i64_at(j, "kills"@) is Some
    }

    /// Decodes `j`; fails with a message error exactly where `j` is not a
    /// valid encoding.
    pub fn from_json(j: &Json) -> (r: Result<Champion, Error>)
        ensures
            r is Ok <==> Champion::json_valid(*j),
            r matches Ok(x) ==> x.json_matches(*j),
            r matches Err(e) ==> e is Message,
    {
        proof {
            reveal(Champion::json_valid);
            reveal(Champion::json_matches);
        }
        let first = get_bool(j, "first")?;
        let kills = get_i64(j, "kills")?;
        Ok(Champion {
            first,
            kills,
        })
    }
}

/// Dragon kills of a team, and whether it took the first.
#[derive(Debug, Clone, PartialEq, Default)]
pub struct Dragon {
    pub first: bool,
    pub kills: i64,
}

impl Dragon {
    /// `j` holds this value under the API's keys.
    #[verifier::opaque]
    pub open spec fn json_matches(self, j: Json) -> bool {
        &&& bool_at(j, "first"@) == Some(self.first)
        &&& i64_at(j, "kills"@) == Some(self.kills)
    }

    /// `j` is an object that decodes as this type: every key that is not
    /// optional is there, and every value has the declared shape.
    #[verifier::opaque]
    pub open spec fn json_valid(j: Json) -> bool {
        &&& bool_at(j, "first"@) is Some
        &&& i64_at(j, "kills"@) is Some
    }

    /// Decodes `j`; fails with a message error exactly where `j` is not a
    /// valid encoding.
    pub fn from_json(j: &Json) -> (r: Result<Dragon, Error>)
        ensures
            r is Ok <==> Dragon::json_valid(*j),
            r matches Ok(x) ==> x.json_matches(*j),
            r matches Err(e) ==> e is Message,
    {
        proof {
            reveal(Dragon::json_valid);
            reveal(Dragon::json_matches);
        }
        let first = get_bool(j, "first")?;
        let kills = get_i64(j, "kills")?;
        Ok(Dragon {
            first,
            kills,
        })
    }
}

/// Inhibitor kills of a team, and whether it took the first.
#[derive(Debug, Clone, PartialEq, Default)]
pub struct Inhibitor {
    pub first: bool,
    pub kills: i64,
}

impl Inhibitor {
    /// `j` holds this value under the API's keys.
    #[verifier::opaque]
    pub open spec fn json_matches(self, j: Json) -> bool {
        &&& bool_at(j, "first"@) == Some(self.first)
        &&& i64_at(j, "kills"@) == Some(self.kills)
    }

    /// `j` is an object that decodes as this type: every key that is not
    /// optional is there, and every value has the declared shape.
    #[verifier::opaque]
    pub open spec fn json_valid(j: Json) -> bool {
        &&& bool_at(j, "first"@) is Some
        &&& i64_at(j, "kills"@) is Some
    }

    /// Decodes `j`; fails with a message error exactly where `j` is not a
    /// valid encoding.
    pub fn from_json(j: &Json) -> (r: Result<Inhibitor, Error>)
        ensures
            r is Ok <==> Inhibitor::json_valid(*j),
            r matches Ok(x) ==> x.json_matches(*j),
            r matches Err(e) ==> e is Message,
    {
        proof {
            reveal(Inhibitor::json_valid);
            reveal(Inhibitor::json_matches);
        }
        let first = get_bool(j, "first")?;
        let kills = get_i64(j, "kills")?;
        Ok(Inhibitor {
            first,
            kills,
        })
    }
}

/// Rift Herald kills of a team, and whether it took the first.
#[derive(Debug, Clone, PartialEq, Default)]
pub struct RiftHerald {
    pub first: bool,
    pub kills: i64,
}

impl RiftHerald {
    /// `j` holds this value under the API's keys.
    #[verifier::opaque]
    pub open spec fn json_matches(self, j: Json) -> bool {
        &&& bool_at(j, "first"@) == Some(self.first)
        &&& i64_at(j, "kills"@) == Some(self.kills)
    }

    /// `j` is an object that decodes as this type: every key that is not
    /// optional is there, and every value has the declared shape.
    #[verifier::opaque]
    pub open spec fn json_valid(j: Json) -> bool {
        &&& bool_at(j, "first"@) is Some
        &&& i64_at(j, "kills"@) is Some
    }

    /// Decodes `j`; fails with a message error exactly where `j` is not a
    /// valid encoding.
    pub fn from_json(j: &Json) -> (r: Result<RiftHerald, Error>)
        ensures
            r is Ok <==> RiftHerald::json_valid(*j),
            r matches Ok(x) ==> x.json_matches(*j),
            r matches Err(e) ==> e is Message,
    {
        proof {
            reveal(RiftHerald::json_valid);
            reveal(RiftHerald::json_matches);
        }
        let first = get_bool(j, "first")?;
        let kills = get_i64(j, "kills")?;
        Ok(RiftHerald {
            first,
            kills,
        })
    }
}

/// Tower kills of a team, and whether it took the first.
#[derive(Debug, Clone, PartialEq, Default)]
pub struct Tower {
    pub first: bool,
    pub kills: i64,
}

impl Tower {
    /// `j` holds this value under the API's keys.
    #[verifier::opaque]
    pub open spec fn json_matches(self, j: Json) -> bool {
        &&& bool_at(j, "first"@) == Some(self.first)
        &&& i64_at(j, "kills"@) == Some(self.kills)
    }

    /// `j` is an object that decodes as this type: every key that is not
    /// optional is there, and every value has the declared shape.
    #[verifier::opaque]
    pub open spec fn json_valid(j: Json) -> bool {
        &&& bool_at(j, "first"@) is Some
        &&& i64_at(j, "kills"@) is Some
    }

    /// Decodes `j`; fails with a message error exactly where `j` is not a
    /// valid encoding.
    pub fn from_json(j: &Json) -> (r: Result<Tower, Error>)
        ensures
            r is Ok <==> Tower::json_valid(*j),
            r matches Ok(x) ==> x.json_matches(*j),
            r matches Err(e) ==> e is Message,
    {
        proof {
            reveal(Tower::json_valid);
            reveal(Tower::json_matches);
        }
        let first = get_bool(j, "first")?;
        let kills = get_i64(j, "kills")?;
        Ok(Tower {
            first,
            kills,
        })
    }
}

/// A match timeline: its metadata and its frames.
#[derive(Debug, Clone, PartialEq, Default)]
pub struct MatchTimeline {
    pub metadata: Metadata,
    pub info: TimelineInfo,
}

impl MatchTimeline {
    /// `j` holds this value under the API's keys.
    #[verifier::opaque]
    pub open spec fn json_matches(self, j: Json) -> bool {
        &&& member(j, "metadata"@) matches Some(v) && self.metadata.json_matches(v)
        &&& member(j, "info"@) matches Some(v) && self.info.json_matches(v)
    }

    /// `j` is an object that decodes as this type: every key that is not
    /// optional is there, and every value has the declared shape.
    #[verifier::opaque]
    pub open spec fn json_valid(j: Json) -> bool {
        &&& member(j, "metadata"@) matches Some(v) && Metadata::json_valid(v)
        &&& member(j, "info"@) matches Some(v) && TimelineInfo::json_valid(v)
    }

    /// Decodes `j`; fails with a message error exactly where `j` is not a
    /// valid encoding.
    pub fn from_json(j: &Json) -> (r: Result<MatchTimeline, Error>)
        ensures
            r is Ok <==> MatchTimeline::json_valid(*j),
            r matches Ok(x) ==> x.json_matches(*j),
            r matches Err(e) ==> e is Message,
    {
        proof {
            reveal(MatchTimeline::json_valid);
            reveal(MatchTimeline::json_matches);
        }
        let metadata = Metadata::from_json(get_required(j, "metadata")?)?;
        let info = TimelineInfo::from_json(get_required(j, "info")?)?;
        Ok(MatchTimeline {
            metadata,
            info,
        })
    }
}

/// The frames of a timeline, its frame interval, game id and participants.
#[derive(Debug, Clone, PartialEq, Default)]
pub struct TimelineInfo {
    pub frame_interval: i64,
    pub frames: Vec<Frame>,
    pub game_id: i64,
    pub participants: Vec<TimelineParticipant>,
}

impl TimelineInfo {
    /// `j` holds this value under the API's keys.
    #[verifier::opaque]
    pub open spec fn json_matches(self, j: Json) -> bool {
        &&& i64_at(j, "frameInterval"@) == Some(self.frame_interval)
        &&& items_at(j, "frames"@) matches Some(items) && Frame::list_matches(self.frames@, items)
        &&& i64_at(j, "gameId"@) == Some(self.game_id)
        &&& items_at(j, "participants"@) matches Some(items) && TimelineParticipant::list_matches(self.participants@, items)
    }

    /// `j` is an object that decodes as this type: every key that is not
    /// optional is there, and every value has the declared shape.
    #[verifier::opaque]
    pub open spec fn json_valid(j: Json) -> bool {
        &&& i64_at(j, "frameInterval"@) is Some
        &&& items_at(j, "frames"@) matches Some(items) && Frame::list_valid(items)
        &&& i64_at(j, "gameId"@) is Some
        &&& items_at(j, "participants"@) matches Some(items) && TimelineParticipant::list_valid(items)
    }

    /// Decodes `j`; fails with a message error exactly where `j` is not a
    /// valid encoding.
    pub fn from_json(j: &Json) -> (r: Result<TimelineInfo, Error>)
        ensures
            r is Ok <==> TimelineInfo::json_valid(*j),
            r matches Ok(x) ==> x.json_matches(*j),
            r matches Err(e) ==> e is Message,
    {
        proof {
            reveal(TimelineInfo::json_valid);
            reveal(TimelineInfo::json_matches);
        }
        let frame_interval = get_i64(j, "frameInterval")?;
        let frames = Frame::list_from_json(get_items(j, "frames")?)?;
        let game_id = get_i64(j, "gameId")?;
        let participants = TimelineParticipant::list_from_json(get_items(j, "participants")?)?;
        Ok(TimelineInfo {
            frame_interval,
            frames,
            game_id,
            participants,
        })
    }
}

/// One time-sliced snapshot of a match: its events and the participants' state.
#[derive(Debug, Clone, PartialEq, Default)]
pub struct Frame {
    pub events: Vec<Event>,
    pub participant_frames: ParticipantFrames,
    pub timestamp: i64,
}

impl Frame {
    /// `j` holds this value under the API's keys.
    #[verifier::opaque]
    pub open spec fn json_matches(self, j: Json) -> bool {
        &&& items_at(j, "events"@) matches Some(items) && Event::list_matches(self.events@, items)
        &&& member(j, "participantFrames"@) matches Some(v) && self.participant_frames.json_matches(v)
        &&& i64_at(j, "timestamp"@) == Some(self.timestamp)
    }

    /// `j` is an object that decodes as this type: every key that is not
    /// optional is there, and every value has the declared shape.
    #[verifier::opaque]
    pub open spec fn json_valid(j: Json) -> bool {
        &&& items_at(j, "events"@) matches Some(items) && Event::list_valid(items)
        &&& member(j, "participantFrames"@) matches Some(v) && ParticipantFrames::json_valid(v)
        &&& i64_at(j, "timestamp"@) is Some
    }

    /// Every element of `items` decodes as this type.
    pub open spec fn list_valid(items: Seq<Json>) -> bool {
        forall|k: int| 0 <= k < items.len() ==> #[trigger] Frame::json_valid(items[k])
    }

    /// `v` is `items` decoded element by element.
    pub open spec fn list_matches(v: Seq<Frame>, items: Seq<Json>) -> bool {
        &&& v.len() == items.len()
        &&& forall|k: int| 0 <= k < v.len() ==> #[trigger] v[k].json_matches(items[k])
    }

    /// Decodes `j`; fails with a message error exactly where `j` is not a
    /// valid encoding.
    pub fn from_json(j: &Json) -> (r: Result<Frame, Error>)
        ensures
            r is Ok <==> Frame::json_valid(*j),
            r matches Ok(x) ==> x.json_matches(*j),
            r matches Err(e) ==> e is Message,
    {
        proof {
            reveal(Frame::json_valid);
            reveal(Frame::json_matches);
        }
        let events = Event::list_from_json(get_items(j, "events")?)?;
        let participant_frames = ParticipantFrames::from_json(get_required(j, "participantFrames")?)?;
        let timestamp = get_i64(j, "timestamp")?;
        Ok(Frame {
            events,
            participant_frames,
            timestamp,
        })
    }

    /// Decodes each element of `items`, in order.
    pub fn list_from_json(items: &Vec<Json>) -> (r: Result<Vec<Frame>, Error>)
        ensures
            r is Ok <==> Frame::list_valid(items@),
            r matches Ok(v) ==> Frame::list_matches(v@, items@),
            r matches Err(e) ==> e is Message,
    {
        let mut out: Vec<Frame> = Vec::new();
        let mut i: usize = 0;
        while i < items.len()
            invariant
                i <= items@.len(),
                out@.len() == i,
                forall|k: int| 0 <= k < i ==> #[trigger] Frame::json_valid(items@[k]),
                forall|k: int| 0 <= k < i ==> (#[trigger] out@[k]).json_matches(items@[k]),
            decreases items@.len() - i,
        {
            let x = match Frame::from_json(&items[i]) {
                Ok(x) => x,
                Err(e) => {
                    assert(!Frame::list_valid(items@));
                    return Err(e);
                },
            };
            out.push(x);
            i = i + 1;
        }
        Ok(out)
    }
}

/// A timeline event. `type_field` names its kind; which of the optional fields are there depends on the kind, and an absent one is `None`.
#[derive(Debug, Clone, PartialEq, Default)]
pub struct Event {
    pub real_timestamp: Option<i64>,
    pub timestamp: i64,
    pub type_field: String,
    pub level: Option<i64>,
    pub participant_id: Option<i64>,
    pub item_id: Option<i64>,
    pub level_up_type: Option<String>,
    pub skill_slot: Option<i64>,
    pub assisting_participant_ids: Vec<i64>,
    pub bounty: Option<i64>,
    pub kill_streak_length: Option<i64>,
    pub killer_id: Option<i64>,
    pub position: Option<Position>,
    pub victim_damage_dealt: Vec<VictimDamageDealt>,
    pub victim_damage_received: Vec<VictimDamageReceived>,
    pub victim_id: Option<i64>,
    pub kill_type: Option<String>,
    pub multi_kill_length: Option<i64>,
    pub after_id: Option<i64>,
    pub before_id: Option<i64>,
    pub gold_gain: Option<i64>,
    pub creator_id: Option<i64>,
    pub ward_type: Option<String>,
    pub building_type: Option<String>,
    pub lane_type: Option<String>,
    pub team_id: Option<i64>,
    pub tower_type: Option<String>,
    pub game_id: Option<i64>,
    pub winning_team: Option<i64>,
}

impl Event {
    /// `j` holds this value under the API's keys.
    #[verifier::opaque]
    pub open spec fn json_matches(self, j: Json) -> bool {
        &&& opt_i64_at(j, "realTimestamp"@) == Some(self.real_timestamp)
        &&& i64_at(j, "timestamp"@) == Some(self.timestamp)
        &&& str_at(j, "type"@) == Some(self.type_field@)
        &&& opt_i64_at(j, "level"@) == Some(self.level)
        &&& opt_i64_at(j, "participantId"@) == Some(self.participant_id)
        &&& opt_i64_at(j, "itemId"@) == Some(self.item_id)
        &&& opt_str_at(j, "levelUpType"@) == Some(opt_view(self.level_up_type))
        &&& opt_i64_at(j, "skillSlot"@) == Some(self.skill_slot)
        &&& items_or_empty_at(j, "assistingParticipantIds"@) matches Some(items) && i64s_match(items, self.assisting_participant_ids@)
        &&& opt_i64_at(j, "bounty"@) == Some(self.bounty)
        &&& opt_i64_at(j, "killStreakLength"@) == Some(self.kill_streak_length)
        &&& opt_i64_at(j, "killerId"@) == Some(self.killer_id)
        &&& match self.position {
                None => opt_at(j, "position"@) is None,
                Some(x) => opt_at(j, "position"@) matches Some(v) && x.json_matches(v),
            }
        &&& items_or_empty_at(j, "victimDamageDealt"@) matches Some(items) && VictimDamageDealt::list_matches(self.victim_damage_dealt@, items)
        &&& items_or_empty_at(j, "victimDamageReceived"@) matches Some(items) && VictimDamageReceived::list_matches(self.victim_damage_received@, items)
        &&& opt_i64_at(j, "victimId"@) == Some(self.victim_id)
        &&& opt_str_at(j, "killType"@) == Some(opt_view(self.kill_type))
        &&& opt_i64_at(j, "multiKillLength"@) == Some(self.multi_kill_length)
        &&& opt_i64_at(j, "afterId"@) == Some(self.after_id)
        &&& opt_i64_at(j, "beforeId"@) == Some(self.before_id)
        &&& opt_i64_at(j, "goldGain"@) == Some(self.gold_gain)
        &&& opt_i64_at(j, "creatorId"@) == Some(self.creator_id)
        &&& opt_str_at(j, "wardType"@) == Some(opt_view(self.ward_type))
        &&& opt_str_at(j, "buildingType"@) == Some(opt_view(self.building_type))
        &&& opt_str_at(j, "laneType"@) == Some(opt_view(self.lane_type))
        &&& opt_i64_at(j, "teamId"@) == Some(self.team_id)
        &&& opt_str_at(j, "towerType"@) == Some(opt_view(self.tower_type))
        &&& opt_i64_at(j, "gameId"@) == Some(self.game_id)
        &&& opt_i64_at(j, "winningTeam"@) == Some(self.winning_team)
    }

    /// `j` is an object that decodes as this type: every key that is not
    /// optional is there, and every value has the declared shape.
    #[verifier::opaque]
    pub open spec fn json_valid(j: Json) -> bool {
        &&& opt_i64_at(j, "realTimestamp"@) is Some
        &&& i64_at(j, "timestamp"@) is Some
        &&& str_at(j, "type"@) is Some
        &&& opt_i64_at(j, "level"@) is Some
        &&& opt_i64_at(j, "participantId"@) is Some
        &&& opt_i64_at(j, "itemId"@) is Some
        &&& opt_str_at(j, "levelUpType"@) is Some
        &&& opt_i64_at(j, "skillSlot"@) is Some
        &&& items_or_empty_at(j, "assistingParticipantIds"@) matches Some(items) && i64s_valid(items)
        &&& opt_i64_at(j, "bounty"@) is Some
        &&& opt_i64_at(j, "killStreakLength"@) is Some
        &&& opt_i64_at(j, "killerId"@) is Some
        &&& match opt_at(j, "position"@) {
                None => true,
                Some(v) => Position::json_valid(v),
            }
        &&& items_or_empty_at(j, "victimDamageDealt"@) matches Some(items) && VictimDamageDealt::list_valid(items)
        &&& items_or_empty_at(j, "victimDamageReceived"@) matches Some(items) && VictimDamageReceived::list_valid(items)
        &&& opt_i64_at(j, "victimId"@) is Some
        &&& opt_str_at(j, "killType"@) is Some
        &&& opt_i64_at(j, "multiKillLength"@) is Some
        &&& opt_i64_at(j, "afterId"@) is Some
        &&& opt_i64_at(j, "beforeId"@) is Some
        &&& opt_i64_at(j, "goldGain"@) is Some
        &&& opt_i64_at(j, "creatorId"@) is Some
        &&& opt_str_at(j, "wardType"@) is Some
        &&& opt_str_at(j, "buildingType"@) is Some
        &&& opt_str_at(j, "laneType"@) is Some
        &&& opt_i64_at(j, "teamId"@) is Some
        &&& opt_str_at(j, "towerType"@) is Some
        &&& opt_i64_at(j, "gameId"@) is Some
        &&& opt_i64_at(j, "winningTeam"@) is Some
    }

    /// Every element of `items` decodes as this type.
    pub open spec fn list_valid(items: Seq<Json>) -> bool {
        forall|k: int| 0 <= k < items.len() ==> #[trigger] Event::json_valid(items[k])
    }

    /// `v` is `items` decoded element by element.
    pub open spec fn list_matches(v: Seq<Event>, items: Seq<Json>) -> bool {
        &&& v.len() == items.len()
        &&& forall|k: int| 0 <= k < v.len() ==> #[trigger] v[k].json_matches(items[k])
    }

    /// Decodes `j`; fails with a message error exactly where `j` is not a
    /// valid encoding.
    pub fn from_json(j: &Json) -> (r: Result<Event, Error>)
        ensures
            r is Ok <==> Event::json_valid(*j),
            r matches Ok(x) ==> x.json_matches(*j),
            r matches Err(e) ==> e is Message,
    {
        proof {
            reveal(Event::json_valid);
            reveal(Event::json_matches);
        }
        let real_timestamp = get_opt_i64(j, "realTimestamp")?;
        let timestamp = get_i64(j, "timestamp")?;
        let type_field = get_str(j, "type")?;
        let level = get_opt_i64(j, "level")?;
        let participant_id = get_opt_i64(j, "participantId")?;
        let item_id = get_opt_i64(j, "itemId")?;
        let level_up_type = get_opt_str(j, "levelUpType")?;
        let skill_slot = get_opt_i64(j, "skillSlot")?;
        let assisting_participant_ids = match get_items_or_empty(j, "assistingParticipantIds")? {
            Some(items) => read_i64s(items)?,
            None => Vec::new(),
        };
        let bounty = get_opt_i64(j, "bounty")?;
        let kill_streak_length = get_opt_i64(j, "killStreakLength")?;
        let killer_id = get_opt_i64(j, "killerId")?;
        let position = match get_opt(j, "position") {
            None => None,
            Some(v) => Some(Position::from_json(v)?),
        };
        let victim_damage_dealt = match get_items_or_empty(j, "victimDamageDealt")? {
            Some(items) => VictimDamageDealt::list_from_json(items)?,
            None => Vec::new(),
        };
        let victim_damage_received = match get_items_or_empty(j, "victimDamageReceived")? {
            Some(items) => VictimDamageReceived::list_from_json(items)?,
            None => Vec::new(),
        };
        let victim_id = get_opt_i64(j, "victimId")?;
        let kill_type = get_opt_str(j, "killType")?;
        let multi_kill_length = get_opt_i64(j, "multiKillLength")?;
        let after_id = get_opt_i64(j, "afterId")?;
        let before_id = get_opt_i64(j, "beforeId")?;
        let gold_gain = get_opt_i64(j, "goldGain")?;
        let creator_id = get_opt_i64(j, "creatorId")?;
        let ward_type = get_opt_str(j, "wardType")?;
        let building_type = get_opt_str(j, "buildingType")?;
        let lane_type = get_opt_str(j, "laneType")?;
        let team_id = get_opt_i64(j, "teamId")?;
        let tower_type = get_opt_str(j, "towerType")?;
        let game_id = get_opt_i64(j, "gameId")?;
        let winning_team = get_opt_i64(j, "winningTeam")?;
        Ok(Event {
            real_timestamp,
            timestamp,
            type_field,
            level,
            participant_id,
            item_id,
            level_up_type,
            skill_slot,
            assisting_participant_ids,
            bounty,
            kill_streak_length,
            killer_id,
            position,
            victim_damage_dealt,
            victim_damage_received,
            victim_id,
            kill_type,
            multi_kill_length,
            after_id,
            before_id,
            gold_gain,
            creator_id,
            ward_type,
            building_type,
            lane_type,
            team_id,
            tower_type,
            game_id,
            winning_team,
        })
    }

    /// Decodes each element of `items`, in order.
    pub fn list_from_json(items: &Vec<Json>) -> (r: Result<Vec<Event>, Error>)
        ensures
            r is Ok <==> Event::list_valid(items@),
            r matches Ok(v) ==> Event::list_matches(v@, items@),
            r matches Err(e) ==> e is Message,
    {
        let mut out: Vec<Event> = Vec::new();
        let mut i: usize = 0;
        while i < items.len()
            invariant
                i <= items@.len(),
                out@.len() == i,
                forall|k: int| 0 <= k < i ==> #[trigger] Event::json_valid(items@[k]),
                forall|k: int| 0 <= k < i ==> (#[trigger] out@[k]).json_matches(items@[k]),
            decreases items@.len() - i,
        {
            let x = match Event::from_json(&items[i]) {
                Ok(x) => x,
                Err(e) => {
                    assert(!Event::list_valid(items@));
                    return Err(e);
                },
            };
            out.push(x);
            i = i + 1;
        }
        Ok(out)
    }
}

/// A position on the map.
#[derive(Debug, Clone, PartialEq, Default)]
pub struct Position {
    pub x: i64,
    pub y: i64,
}

impl Position {
    /// `j` holds this value under the API's keys.
    #[verifier::opaque]
    pub open spec fn json_matches(self, j: Json) -> bool {
        &&& i64_at(j, "x"@) == Some(self.x)
        &&& i64_at(j, "y"@) == Some(self.y)
    }

    /// `j` is an object that decodes as this type: every key that is not
    /// optional is there, and every value has the declared shape.
    #[verifier::opaque]
    pub open spec fn json_valid(j: Json) -> bool {
        &&& i64_at(j, "x"@) is Some
        &&& i64_at(j, "y"@) is Some
    }

    /// Decodes `j`; fails with a message error exactly where `j` is not a
    /// valid encoding.
    pub fn from_json(j: &Json) -> (r: Result<Position, Error>)
        ensures
            r is Ok <==> Position::json_valid(*j),
            r matches Ok(x) ==> x.json_matches(*j),
            r matches Err(e) ==> e is Message,
    {
        proof {
            reveal(Position::json_valid);
            reveal(Position::json_matches);
        }
        let x = get_i64(j, "x")?;
        let y = get_i64(j, "y")?;
        Ok(Position {
            x,
            y,
        })
    }
}

/// Damage that a victim dealt before a kill.
#[derive(Debug, Clone, PartialEq, Default)]
pub struct VictimDamageDealt {
    pub basic: bool,
    pub magic_damage: i64,
    pub name: String,
    pub participant_id: i64,
    pub physical_damage: i64,
    pub spell_name: String,
    pub spell_slot: i64,
    pub true_damage: i64,
    pub type_field: String,
}

impl VictimDamageDealt {
    /// `j` holds this value under the API's keys.
    #[verifier::opaque]
    pub open spec fn json_matches(self, j: Json) -> bool {
        &&& bool_at(j, "basic"@) == Some(self.basic)
        &&& i64_at(j, "magicDamage"@) == Some(self.magic_damage)
        &&& str_at(j, "name"@) == Some(self.name@)
        &&& i64_at(j, "participantId"@) == Some(self.participant_id)
        &&& i64_at(j, "physicalDamage"@) == Some(self.physical_damage)
        &&& str_at(j, "spellName"@) == Some(self.spell_name@)
        &&& i64_at(j, "spellSlot"@) == Some(self.spell_slot)
        &&& i64_at(j, "trueDamage"@) == Some(self.true_damage)
        &&& str_at(j, "type"@) == Some(self.type_field@)
    }

    /// `j` is an object that decodes as this type: every key that is not
    /// optional is there, and every value has the declared shape.
    #[verifier::opaque]
    pub open spec fn json_valid(j: Json) -> bool {
        &&& bool_at(j, "basic"@) is Some
        &&& i64_at(j, "magicDamage"@) is Some
        &&& str_at(j, "name"@) is Some
        &&& i64_at(j, "participantId"@) is Some
        &&& i64_at(j, "physicalDamage"@) is Some
        &&& str_at(j, "spellName"@) is Some
        &&& i64_at(j, "spellSlot"@) is Some
        &&& i64_at(j, "trueDamage"@) is Some
        &&& str_at(j, "type"@) is Some
    }

    /// Every element of `items` decodes as this type.
    pub open spec fn list_valid(items: Seq<Json>) -> bool {
        forall|k: int| 0 <= k < items.len() ==> #[trigger] VictimDamageDealt::json_valid(items[k])
    }

    /// `v` is `items` decoded element by element.
    pub open spec fn list_matches(v: Seq<VictimDamageDealt>, items: Seq<Json>) -> bool {
        &&& v.len() == items.len()
        &&& forall|k: int| 0 <= k < v.len() ==> #[trigger] v[k].json_matches(items[k])
    }

    /// Decodes `j`; fails with a message error exactly where `j` is not a
    /// valid encoding.
    pub fn from_json(j: &Json) -> (r: Result<VictimDamageDealt, Error>)
        ensures
            r is Ok <==> VictimDamageDealt::json_valid(*j),
            r matches Ok(x) ==> x.json_matches(*j),
            r matches Err(e) ==> e is Message,
    {
        proof {
            reveal(VictimDamageDealt::json_valid);
            reveal(VictimDamageDealt::json_matches);
        }
        let basic = get_bool(j, "basic")?;
        let magic_damage = get_i64(j, "magicDamage")?;
        let name = get_str(j, "name")?;
        let participant_id = get_i64(j, "participantId")?;
        let physical_damage = get_i64(j, "physicalDamage")?;
        let spell_name = get_str(j, "spellName")?;
        let spell_slot = get_i64(j, "spellSlot")?;
        let true_damage = get_i64(j, "trueDamage")?;
        let type_field = get_str(j, "type")?;
        Ok(VictimDamageDealt {
            basic,
            magic_damage,
            name,
            participant_id,
            physical_damage,
            spell_name,
            spell_slot,
            true_damage,
            type_field,
        })
    }

    /// Decodes each element of `items`, in order.
    pub fn list_from_json(items: &Vec<Json>) -> (r: Result<Vec<VictimDamageDealt>, Error>)
        ensures
            r is Ok <==> VictimDamageDealt::list_valid(items@),
            r matches Ok(v) ==> VictimDamageDealt::list_matches(v@, items@),
            r matches Err(e) ==> e is Message,
    {
        let mut out: Vec<VictimDamageDealt> = Vec::new();
        let mut i: usize = 0;
        while i < items.len()
            invariant
                i <= items@.len(),
                out@.len() == i,
                forall|k: int| 0 <= k < i ==> #[trigger] VictimDamageDealt::json_valid(items@[k]),
                forall|k: int| 0 <= k < i ==> (#[trigger] out@[k]).json_matches(items@[k]),
            decreases items@.len() - i,
        {
            let x = match VictimDamageDealt::from_json(&items[i]) {
                Ok(x) => x,
                Err(e) => {
                    assert(!VictimDamageDealt::list_valid(items@));
                    return Err(e);
                },
            };
            out.push(x);
            i = i + 1;
        }
        Ok(out)
    }
}

/// Damage that a victim received before a kill.
#[derive(Debug, Clone, PartialEq, Default)]
pub struct VictimDamageReceived {
    pub basic: bool,
    pub magic_damage: i64,
    pub name: String,
    pub participant_id: i64,
    pub physical_damage: i64,
    pub spell_name: String,
    pub spell_slot: i64,
    pub true_damage: i64,
    pub type_field: String,
}

impl VictimDamageReceived {
    /// `j` holds this value under the API's keys.
    #[verifier::opaque]
    pub open spec fn json_matches(self, j: Json) -> bool {
        &&& bool_at(j, "basic"@) == Some(self.basic)
        &&& i64_at(j, "magicDamage"@) == Some(self.magic_damage)
        &&& str_at(j, "name"@) == Some(self.name@)
        &&& i64_at(j, "participantId"@) == Some(self.participant_id)
        &&& i64_at(j, "physicalDamage"@) == Some(self.physical_damage)
        &&& str_at(j, "spellName"@) == Some(self.spell_name@)
        &&& i64_at(j, "spellSlot"@) == Some(self.spell_slot)
        &&& i64_at(j, "trueDamage"@) == Some(self.true_damage)
        &&& str_at(j, "type"@) == Some(self.type_field@)
    }

    /// `j` is an object that decodes as this type: every key that is not
    /// optional is there, and every value has the declared shape.
    #[verifier::opaque]
    pub open spec fn json_valid(j: Json) -> bool {
        &&& bool_at(j, "basic"@) is Some
        &&& i64_at(j, "magicDamage"@) is Some
        &&& str_at(j, "name"@) is Some
        &&& i64_at(j, "participantId"@) is Some
        &&& i64_at(j, "physicalDamage"@) is Some
        &&& str_at(j, "spellName"@) is Some
        &&& i64_at(j, "spellSlot"@) is Some
        &&& i64_at(j, "trueDamage"@) is Some
        &&& str_at(j, "type"@) is Some
    }

    /// Every element of `items` decodes as this type.
    pub open spec fn list_valid(items: Seq<Json>) -> bool {
        forall|k: int| 0 <= k < items.len() ==> #[trigger] VictimDamageReceived::json_valid(items[k])
    }

    /// `v` is `items` decoded element by element.
    pub open spec fn list_matches(v: Seq<VictimDamageReceived>, items: Seq<Json>) -> bool {
        &&& v.len() == items.len()
        &&& forall|k: int| 0 <= k < v.len() ==> #[trigger] v[k].json_matches(items[k])
    }

    /// Decodes `j`; fails with a message error exactly where `j` is not a
    /// valid encoding.
    pub fn from_json(j: &Json) -> (r: Result<VictimDamageReceived, Error>)
        ensures
            r is Ok <==> VictimDamageReceived::json_valid(*j),
            r matches Ok(x) ==> x.json_matches(*j),
            r matches Err(e) ==> e is Message,
    {
        proof {
            reveal(VictimDamageReceived::json_valid);
            reveal(VictimDamageReceived::json_matches);
        }
        let basic = get_bool(j, "basic")?;
        let magic_damage = get_i64(j, "magicDamage")?;
        let name = get_str(j, "name")?;
        let participant_id = get_i64(j, "participantId")?;
        let physical_damage = get_i64(j, "physicalDamage")?;
        let spell_name = get_str(j, "spellName")?;
        let spell_slot = get_i64(j, "spellSlot")?;
        let true_damage = get_i64(j, "trueDamage")?;
        let type_field = get_str(j, "type")?;
        Ok(VictimDamageReceived {
            basic,
            magic_damage,
            name,
            participant_id,
            physical_damage,
            spell_name,
            spell_slot,
            true_damage,
            type_field,
        })
    }

    /// Decodes each element of `items`, in order.
    pub fn list_from_json(items: &Vec<Json>) -> (r: Result<Vec<VictimDamageReceived>, Error>)
        ensures
            r is Ok <==> VictimDamageReceived::list_valid(items@),
            r matches Ok(v) ==> VictimDamageReceived::list_matches(v@, items@),
            r matches Err(e) ==> e is Message,
    {
        let mut out: Vec<VictimDamageReceived> = Vec::new();
        let mut i: usize = 0;
        while i < items.len()
            invariant
                i <= items@.len(),
                out@.len() == i,
                forall|k: int| 0 <= k < i ==> #[trigger] VictimDamageReceived::json_valid(items@[k]),
                forall|k: int| 0 <= k < i ==> (#[trigger] out@[k]).json_matches(items@[k]),
            decreases items@.len() - i,
        {
            let x = match VictimDamageReceived::from_json(&items[i]) {
                Ok(x) => x,
                Err(e) => {
                    assert(!VictimDamageReceived::list_valid(items@));
                    return Err(e);
                },
            };
            out.push(x);
            i = i + 1;
        }
        Ok(out)
    }
}

/// The ten participants' snapshots of one frame, under the keys "1" to "10".
#[derive(Debug, Clone, PartialEq, Default)]
pub struct ParticipantFrames {
    pub frame1: ParticipantFrame,
    pub frame2: ParticipantFrame,
    pub frame3: ParticipantFrame,
    pub frame4: ParticipantFrame,
    pub frame5: ParticipantFrame,
    pub frame6: ParticipantFrame,
    pub frame7: ParticipantFrame,
    pub frame8: ParticipantFrame,
    pub frame9: ParticipantFrame,
    pub frame10: ParticipantFrame,
}

impl ParticipantFrames {
    /// `j` holds this value under the API's keys.
    #[verifier::opaque]
    pub open spec fn json_matches(self, j: Json) -> bool {
        &&& member(j, "1"@) matches Some(v) && self.frame1.json_matches(v)
        &&& member(j, "2"@) matches Some(v) && self.frame2.json_matches(v)
        &&& member(j, "3"@) matches Some(v) && self.frame3.json_matches(v)
        &&& member(j, "4"@) matches Some(v) && self.frame4.json_matches(v)
        &&& member(j, "5"@) matches Some(v) && self.frame5.json_matches(v)
        &&& member(j, "6"@) matches Some(v) && self.frame6.json_matches(v)
        &&& member(j, "7"@) matches Some(v) && self.frame7.json_matches(v)
        &&& member(j, "8"@) matches Some(v) && self.frame8.json_matches(v)
        &&& member(j, "9"@) matches Some(v) && self.frame9.json_matches(v)
        &&& member(j, "10"@) matches Some(v) && self.frame10.json_matches(v)
    }

    /// `j` is an object that decodes as this type: every key that is not
    /// optional is there, and every value has the declared shape.
    #[verifier::opaque]
    pub open spec fn json_valid(j: Json) -> bool {
        &&& member(j, "1"@) matches Some(v) && ParticipantFrame::json_valid(v)
        &&& member(j, "2"@) matches Some(v) && ParticipantFrame::json_valid(v)
        &&& member(j, "3"@) matches Some(v) && ParticipantFrame::json_valid(v)
        &&& member(j, "4"@) matches Some(v) && ParticipantFrame::json_valid(v)
        &&& member(j, "5"@) matches Some(v) && ParticipantFrame::json_valid(v)
        &&& member(j, "6"@) matches Some(v) && ParticipantFrame::json_valid(v)
        &&& member(j, "7"@) matches Some(v) && ParticipantFrame::json_valid(v)
        &&& member(j, "8"@) matches Some(v) && ParticipantFrame::json_valid(v)
        &&& member(j, "9"@) matches Some(v) && ParticipantFrame::json_valid(v)
        &&& member(j, "10"@) matches Some(v) && ParticipantFrame::json_valid(v)
    }

    /// Decodes `j`; fails with a message error exactly where `j` is not a
    /// valid encoding.
    pub fn from_json(j: &Json) -> (r: Result<ParticipantFrames, Error>)
        ensures
            r is Ok <==> ParticipantFrames::json_valid(*j),
            r matches Ok(x) ==> x.json_matches(*j),
            r matches Err(e) ==> e is Message,
    {
        proof {
            reveal(ParticipantFrames::json_valid);
            reveal(ParticipantFrames::json_matches);
        }
        let frame1 = ParticipantFrame::from_json(get_required(j, "1")?)?;
        let frame2 = ParticipantFrame::from_json(get_required(j, "2")?)?;
        let frame3 = ParticipantFrame::from_json(get_required(j, "3")?)?;
        let frame4 = ParticipantFrame::from_json(get_required(j, "4")?)?;
        let frame5 = ParticipantFrame::from_json(get_required(j, "5")?)?;
        let frame6 = ParticipantFrame::from_json(get_required(j, "6")?)?;
        let frame7 = ParticipantFrame::from_json(get_required(j, "7")?)?;
        let frame8 = ParticipantFrame::from_json(get_required(j, "8")?)?;
        let frame9 = ParticipantFrame::from_json(get_required(j, "9")?)?;
        let frame10 = ParticipantFrame::from_json(get_required(j, "10")?)?;
        Ok(ParticipantFrames {
            frame1,
            frame2,
            frame3,
            frame4,
            frame5,
            frame6,
            frame7,
            frame8,
            frame9,
            frame10,
        })
    }
}

/// One participant's economy and combat state at a frame boundary.
#[derive(Debug, Clone, PartialEq, Default)]
pub struct ParticipantFrame {
    pub champion_stats: ChampionStats,
    pub current_gold: i64,
    pub damage_stats: DamageStats,
    pub gold_per_second: i64,
    pub jungle_minions_killed: i64,
    pub level: i64,
    pub minions_killed: i64,
    pub participant_id: i64,
    pub position: Position,
    pub time_enemy_spent_controlled: i64,
    pub total_gold: i64,
    pub xp: i64,
}

impl ParticipantFrame {
    /// `j` holds this value under the API's keys.
    #[verifier::opaque]
    pub open spec fn json_matches(self, j: Json) -> bool {
        &&& member(j, "championStats"@) matches Some(v) && self.champion_stats.json_matches(v)
        &&& i64_at(j, "currentGold"@) == Some(self.current_gold)
        &&& member(j, "damageStats"@) matches Some(v) && self.damage_stats.json_matches(v)
        &&& i64_at(j, "goldPerSecond"@) == Some(self.gold_per_second)
        &&& i64_at(j, "jungleMinionsKilled"@) == Some(self.jungle_minions_killed)
        &&& i64_at(j, "level"@) == Some(self.level)
        &&& i64_at(j, "minionsKilled"@) == Some(self.minions_killed)
        &&& i64_at(j, "participantId"@) == Some(self.participant_id)
        &&& member(j, "position"@) matches Some(v) && self.position.json_matches(v)
        &&& i64_at(j, "timeEnemySpentControlled"@) == Some(self.time_enemy_spent_controlled)
        &&& i64_at(j, "totalGold"@) == Some(self.total_gold)
        &&& i64_at(j, "xp"@) == Some(self.xp)
    }

    /// `j` is an object that decodes as this type: every key that is not
    /// optional is there, and every value has the declared shape.
    #[verifier::opaque]
    pub open spec fn json_valid(j: Json) -> bool {
        &&& member(j, "championStats"@) matches Some(v) && ChampionStats::json_valid(v)
        &&& i64_at(j, "currentGold"@) is Some
        &&& member(j, "damageStats"@) matches Some(v) && DamageStats::json_valid(v)
        &&& i64_at(j, "goldPerSecond"@) is Some
        &&& i64_at(j, "jungleMinionsKilled"@) is Some
        &&& i64_at(j, "level"@) is Some
        &&& i64_at(j, "minionsKilled"@) is Some
        &&& i64_at(j, "participantId"@) is Some
        &&& member(j, "position"@) matches Some(v) && Position::json_valid(v)
        &&& i64_at(j, "timeEnemySpentControlled"@) is Some
        &&& i64_at(j, "totalGold"@) is Some
        &&& i64_at(j, "xp"@) is Some
    }

    /// Decodes `j`; fails with a message error exactly where `j` is not a
    /// valid encoding.
    pub fn from_json(j: &Json) -> (r: Result<ParticipantFrame, Error>)
        ensures
            r is Ok <==> ParticipantFrame::json_valid(*j),
            r matches Ok(x) ==> x.json_matches(*j),
            r matches Err(e) ==> e is Message,
    {
        proof {
            reveal(ParticipantFrame::json_valid);
            reveal(ParticipantFrame::json_matches);
        }
        let champion_stats = ChampionStats::from_json(get_required(j, "championStats")?)?;
        let current_gold = get_i64(j, "currentGold")?;
        let damage_stats = DamageStats::from_json(get_required(j, "damageStats")?)?;
        let gold_per_second = get_i64(j, "goldPerSecond")?;
        let jungle_minions_killed = get_i64(j, "jungleMinionsKilled")?;
        let level = get_i64(j, "level")?;
        let minions_killed = get_i64(j, "minionsKilled")?;
        let participant_id = get_i64(j, "participantId")?;
        let position = Position::from_json(get_required(j, "position")?)?;
        let time_enemy_spent_controlled = get_i64(j, "timeEnemySpentControlled")?;
        let total_gold = get_i64(j, "totalGold")?;
        let xp = get_i64(j, "xp")?;
        Ok(ParticipantFrame {
            champion_stats,
            current_gold,
            damage_stats,
            gold_per_second,
            jungle_minions_killed,
            level,
            minions_killed,
            participant_id,
            position,
            time_enemy_spent_controlled,
            total_gold,
            xp,
        })
    }
}

/// A champion's attributes at a frame boundary.
#[derive(Debug, Clone, PartialEq, Default)]
pub struct ChampionStats {
    pub ability_haste: i64,
    pub ability_power: i64,
    pub armor: i64,
    pub armor_pen: i64,
    pub armor_pen_percent: i64,
    pub attack_damage: i64,
    pub attack_speed: i64,
    pub bonus_armor_pen_percent: i64,
    pub bonus_magic_pen_percent: i64,
    pub cc_reduction: i64,
    pub cooldown_reduction: i64,
    pub health: i64,
    pub health_max: i64,
    pub health_regen: i64,
    pub lifesteal: i64,
    pub magic_pen: i64,
    pub magic_pen_percent: i64,
    pub magic_resist: i64,
    pub movement_speed: i64,
    pub omnivamp: i64,
    pub physical_vamp: i64,
    pub power: i64,
    pub power_max: i64,
    pub power_regen: i64,
    pub spell_vamp: i64,
}

impl ChampionStats {
    /// `j` holds this value under the API's keys.
    #[verifier::opaque]
    pub open spec fn json_matches(self, j: Json) -> bool {
        &&& i64_at(j, "abilityHaste"@) == Some(self.ability_haste)
        &&& i64_at(j, "abilityPower"@) == Some(self.ability_power)
        &&& i64_at(j, "armor"@) == Some(self.armor)
        &&& i64_at(j, "armorPen"@) == Some(self.armor_pen)
        &&& i64_at(j, "armorPenPercent"@) == Some(self.armor_pen_percent)
        &&& i64_at(j, "attackDamage"@) == Some(self.attack_damage)
        &&& i64_at(j, "attackSpeed"@) == Some(self.attack_speed)
        &&& i64_at(j, "bonusArmorPenPercent"@) == Some(self.bonus_armor_pen_percent)
        &&& i64_at(j, "bonusMagicPenPercent"@) == Some(self.bonus_magic_pen_percent)
        &&& i64_at(j, "ccReduction"@) == Some(self.cc_reduction)
        &&& i64_at(j, "cooldownReduction"@) == Some(self.cooldown_reduction)
        &&& i64_at(j, "health"@) == Some(self.health)
        &&& i64_at(j, "healthMax"@) == Some(self.health_max)
        &&& i64_at(j, "healthRegen"@) == Some(self.health_regen)
        &&& i64_at(j, "lifesteal"@) == Some(self.lifesteal)
        &&& i64_at(j, "magicPen"@) == Some(self.magic_pen)
        &&& i64_at(j, "magicPenPercent"@) == Some(self.magic_pen_percent)
        &&& i64_at(j, "magicResist"@) == Some(self.magic_resist)
        &&& i64_at(j, "movementSpeed"@) == Some(self.movement_speed)
        &&& i64_at(j, "omnivamp"@) == Some(self.omnivamp)
        &&& i64_at(j, "physicalVamp"@) == Some(self.physical_vamp)
        &&& i64_at(j, "power"@) == Some(self.power)
        &&& i64_at(j, "powerMax"@) == Some(self.power_max)
        &&& i64_at(j, "powerRegen"@) == Some(self.power_regen)
        &&& i64_at(j, "spellVamp"@) == Some(self.spell_vamp)
    }

    /// `j` is an object that decodes as this type: every key that is not
    /// optional is there, and every value has the declared shape.
    #[verifier::opaque]
    pub open spec fn json_valid(j: Json) -> bool {
        &&& i64_at(j, "abilityHaste"@) is Some
        &&& i64_at(j, "abilityPower"@) is Some
        &&& i64_at(j, "armor"@) is Some
        &&& i64_at(j, "armorPen"@) is Some
        &&& i64_at(j, "armorPenPercent"@) is Some
        &&& i64_at(j, "attackDamage"@) is Some
        &&& i64_at(j, "attackSpeed"@) is Some
        &&& i64_at(j, "bonusArmorPenPercent"@) is Some
        &&& i64_at(j, "bonusMagicPenPercent"@) is Some
        &&& i64_at(j, "ccReduction"@) is Some
        &&& i64_at(j, "cooldownReduction"@) is Some
        &&& i64_at(j, "health"@) is Some
        &&& i64_at(j, "healthMax"@) is Some
        &&& i64_at(j, "healthRegen"@) is Some
        &&& i64_at(j, "lifesteal"@) is Some
        &&& i64_at(j, "magicPen"@) is Some
        &&& i64_at(j, "magicPenPercent"@) is Some
        &&& i64_at(j, "magicResist"@) is Some
        &&& i64_at(j, "movementSpeed"@) is Some
        &&& i64_at(j, "omnivamp"@) is Some
        &&& i64_at(j, "physicalVamp"@) is Some
        &&& i64_at(j, "power"@) is Some
        &&& i64_at(j, "powerMax"@) is Some
        &&& i64_at(j, "powerRegen"@) is Some
        &&& i64_at(j, "spellVamp"@) is Some
    }

    /// Decodes `j`; fails with a message error exactly where `j` is not a
    /// valid encoding.
    pub fn from_json(j: &Json) -> (r: Result<ChampionStats, Error>)
        ensures
            r is Ok <==> ChampionStats::json_valid(*j),
            r matches Ok(x) ==> x.json_matches(*j),
            r matches Err(e) ==> e is Message,
    {
        proof {
            reveal(ChampionStats::json_valid);
            reveal(ChampionStats::json_matches);
        }
        let ability_haste = get_i64(j, "abilityHaste")?;
        let ability_power = get_i64(j, "abilityPower")?;
        let armor = get_i64(j, "armor")?;
        let armor_pen = get_i64(j, "armorPen")?;
        let armor_pen_percent = get_i64(j, "armorPenPercent")?;
        let attack_damage = get_i64(j, "attackDamage")?;
        let attack_speed = get_i64(j, "attackSpeed")?;
        let bonus_armor_pen_percent = get_i64(j, "bonusArmorPenPercent")?;
        let bonus_magic_pen_percent = get_i64(j, "bonusMagicPenPercent")?;
        let cc_reduction = get_i64(j, "ccReduction")?;
        let cooldown_reduction = get_i64(j, "cooldownReduction")?;
        let health = get_i64(j, "health")?;
        let health_max = get_i64(j, "healthMax")?;
        let health_regen = get_i64(j, "healthRegen")?;
        let lifesteal = get_i64(j, "lifesteal")?;
        let magic_pen = get_i64(j, "magicPen")?;
        let magic_pen_percent = get_i64(j, "magicPenPercent")?;
        let magic_resist = get_i64(j, "magicResist")?;
        let movement_speed = get_i64(j, "movementSpeed")?;
        let omnivamp = get_i64(j, "omnivamp")?;
        let physical_vamp = get_i64(j, "physicalVamp")?;
        let power = get_i64(j, "power")?;
        let power_max = get_i64(j, "powerMax")?;
        let power_regen = get_i64(j, "powerRegen")?;
        let spell_vamp = get_i64(j, "spellVamp")?;
        Ok(ChampionStats {
            ability_haste,
            ability_power,
            armor,
            armor_pen,
            armor_pen_percent,
            attack_damage,
            attack_speed,
            bonus_armor_pen_percent,
            bonus_magic_pen_percent,
            cc_reduction,
            cooldown_reduction,
            health,
            health_max,
            health_regen,
            lifesteal,
            magic_pen,
            magic_pen_percent,
            magic_resist,
            movement_speed,
            omnivamp,
            physical_vamp,
            power,
            power_max,
            power_regen,
            spell_vamp,
        })
    }
}

/// A participant's damage totals at a frame boundary.
#[derive(Debug, Clone, PartialEq, Default)]
pub struct DamageStats {
    pub magic_damage_done: i64,
    pub magic_damage_done_to_champions: i64,
    pub magic_damage_taken: i64,
    pub physical_damage_done: i64,
    pub physical_damage_done_to_champions: i64,
    pub physical_damage_taken: i64,
    pub total_damage_done: i64,
    pub total_damage_done_to_champions: i64,
    pub total_damage_taken: i64,
    pub true_damage_done: i64,
    pub true_damage_done_to_champions: i64,
    pub true_damage_taken: i64,
}

impl DamageStats {
    /// `j` holds this value under the API's keys.
    #[verifier::opaque]
    pub open spec fn json_matches(self, j: Json) -> bool {
        &&& i64_at(j, "magicDamageDone"@) == Some(self.magic_damage_done)
        &&& i64_at(j, "magicDamageDoneToChampions"@) == Some(self.magic_damage_done_to_champions)
        &&& i64_at(j, "magicDamageTaken"@) == Some(self.magic_damage_taken)
        &&& i64_at(j, "physicalDamageDone"@) == Some(self.physical_damage_done)
        &&& i64_at(j, "physicalDamageDoneToChampions"@) == Some(self.physical_damage_done_to_champions)
        &&& i64_at(j, "physicalDamageTaken"@) == Some(self.physical_damage_taken)
        &&& i64_at(j, "totalDamageDone"@) == Some(self.total_damage_done)
        &&& i64_at(j, "totalDamageDoneToChampions"@) == Some(self.total_damage_done_to_champions)
        &&& i64_at(j, "totalDamageTaken"@) == Some(self.total_damage_taken)
        &&& i64_at(j, "trueDamageDone"@) == Some(self.true_damage_done)
        &&& i64_at(j, "trueDamageDoneToChampions"@) == Some(self.true_damage_done_to_champions)
        &&& i64_at(j, "trueDamageTaken"@) == Some(self.true_damage_taken)
    }

    /// `j` is an object that decodes as this type: every key that is not
    /// optional is there, and every value has the declared shape.
    #[verifier::opaque]
    pub open spec fn json_valid(j: Json) -> bool {
        &&& i64_at(j, "magicDamageDone"@) is Some
        &&& i64_at(j, "magicDamageDoneToChampions"@) is Some
        &&& i64_at(j, "magicDamageTaken"@) is Some
        &&& i64_at(j, "physicalDamageDone"@) is Some
        &&& i64_at(j, "physicalDamageDoneToChampions"@) is Some
        &&& i64_at(j, "physicalDamageTaken"@) is Some
        &&& i64_at(j, "totalDamageDone"@) is Some
        &&& i64_at(j, "totalDamageDoneToChampions"@) is Some
        &&& i64_at(j, "totalDamageTaken"@) is Some
        &&& i64_at(j, "trueDamageDone"@) is Some
        &&& i64_at(j, "trueDamageDoneToChampions"@) is Some
        &&& i64_at(j, "trueDamageTaken"@) is Some
    }

    /// Decodes `j`; fails with a message error exactly where `j` is not a
    /// valid encoding.
    pub fn from_json(j: &Json) -> (r: Result<DamageStats, Error>)
        ensures
            r is Ok <==> DamageStats::json_valid(*j),
            r matches Ok(x) ==> x.json_matches(*j),
            r matches Err(e) ==> e is Message,
    {
        proof {
            reveal(DamageStats::json_valid);
            reveal(DamageStats::json_matches);
        }
        let magic_damage_done = get_i64(j, "magicDamageDone")?;
        let magic_damage_done_to_champions = get_i64(j, "magicDamageDoneToChampions")?;
        let magic_damage_taken = get_i64(j, "magicDamageTaken")?;
        let physical_damage_done = get_i64(j, "physicalDamageDone")?;
        let physical_damage_done_to_champions = get_i64(j, "physicalDamageDoneToChampions")?;
        let physical_damage_taken = get_i64(j, "physicalDamageTaken")?;
        let total_damage_done = get_i64(j, "totalDamageDone")?;
        let total_damage_done_to_champions = get_i64(j, "totalDamageDoneToChampions")?;
        let total_damage_taken = get_i64(j, "totalDamageTaken")?;
        let true_damage_done = get_i64(j, "trueDamageDone")?;
        let true_damage_done_to_champions = get_i64(j, "trueDamageDoneToChampions")?;
        let true_damage_taken = get_i64(j, "trueDamageTaken")?;
        Ok(DamageStats {
            magic_damage_done,
            magic_damage_done_to_champions,
            magic_damage_taken,
            physical_damage_done,
            physical_damage_done_to_champions,
            physical_damage_taken,
            total_damage_done,
            total_damage_done_to_champions,
            total_damage_taken,
            true_damage_done,
            true_damage_done_to_champions,
            true_damage_taken,
        })
    }
}

/// The PUUID of a timeline participant id.
#[derive(Debug, Clone, PartialEq, Default)]
pub struct TimelineParticipant {
    pub participant_id: i64,
    pub puuid: String,
}

impl TimelineParticipant {
    /// `j` holds this value under the API's keys.
    #[verifier::opaque]
    pub open spec fn json_matches(self, j: Json) -> bool {
        &&& i64_at(j, "participantId"@) == Some(self.participant_id)
        &&& str_at(j, "puuid"@) == Some(self.puuid@)
    }

    /// `j` is an object that decodes as this type: every key that is not
    /// optional is there, and every value has the declared shape.
    #[verifier::opaque]
    pub open spec fn json_valid(j: Json) -> bool {
        &&& i64_at(j, "participantId"@) is Some
        &&& str_at(j, "puuid"@) is Some
    }

    /// Every element of `items` decodes as this type.
    pub open spec fn list_valid(items: Seq<Json>) -> bool {
        forall|k: int| 0 <= k < items.len() ==> #[trigger] TimelineParticipant::json_valid(items[k])
    }

    /// `v` is `items` decoded element by element.
    pub open spec fn list_matches(v: Seq<TimelineParticipant>, items: Seq<Json>) -> bool {
        &&& v.len() == items.len()
        &&& forall|k: int| 0 <= k < v.len() ==> #[trigger] v[k].json_matches(items[k])
    }

    /// Decodes `j`; fails with a message error exactly where `j` is not a
    /// valid encoding.
    pub fn from_json(j: &Json) -> (r: Result<TimelineParticipant, Error>)
        ensures
            r is Ok <==> TimelineParticipant::json_valid(*j),
            r matches Ok(x) ==> x.json_matches(*j),
            r matches Err(e) ==> e is Message,
    {
        proof {
            reveal(TimelineParticipant::json_valid);
            reveal(TimelineParticipant::json_matches);
        }
        let participant_id = get_i64(j, "participantId")?;
        let puuid = get_str(j, "puuid")?;
        Ok(TimelineParticipant {
            participant_id,
            puuid,
        })
    }

    /// Decodes each element of `items`, in order.
    pub fn list_from_json(items: &Vec<Json>) -> (r: Result<Vec<TimelineParticipant>, Error>)
        ensures
            r is Ok <==> TimelineParticipant::list_valid(items@),
            r matches Ok(v) ==> TimelineParticipant::list_matches(v@, items@),
            r matches Err(e) ==> e is Message,
    {
        let mut out: Vec<TimelineParticipant> = Vec::new();
        let mut i: usize = 0;
        while i < items.len()
            invariant
                i <= items@.len(),
                out@.len() == i,
                forall|k: int| 0 <= k < i ==> #[trigger] TimelineParticipant::json_valid(items@[k]),
                forall|k: int| 0 <= k < i ==> (#[trigger] out@[k]).json_matches(items@[k]),
            decreases items@.len() - i,
        {
            let x = match TimelineParticipant::from_json(&items[i]) {
                Ok(x) => x,
                Err(e) => {
                    assert(!TimelineParticipant::list_valid(items@));
                    return Err(e);
                },
            };
            out.push(x);
            i = i + 1;
        }
        Ok(out)
    }
}

} // verus!

verus! {

/// The optional filters of a match-id listing.
#[derive(Debug, Clone, PartialEq, Default)]
pub struct ByPUUIDOptions {
    pub start_time: Option<u64>,
    pub end_time: Option<u64>,
    pub queue: Option<u32>,
    pub match_type: Option<String>,
    pub start: Option<u32>,
    pub count: Option<u8>,
}

/// `key=value`.
pub open spec fn query_pair(key: Seq<char>, value: Seq<char>) -> Seq<char> {
    key + "="@ + value
}

/// The pair of `key` where the value is present, as a list of zero or one
/// pairs.
pub open spec fn pair_if(key: Seq<char>, value: Option<Seq<char>>) -> Seq<Seq<char>> {
    match value {
        Some(v) => seq![query_pair(key, v)],
        None => seq![],
    }
}

/// The decimal form of a present number.
pub open spec fn opt_decimal(n: Option<u64>) -> Option<Seq<char>> {
    match n {
        Some(n) => Some(decimal(n as nat)),
        None => None,
    }
}

/// A present `u32` as a `u64`.
pub open spec fn widen32(n: Option<u32>) -> Option<u64> {
    match n {
        Some(n) => Some(n as u64),
        None => None,
    }
}

/// A present `u8` as a `u64`.
pub open spec fn widen8(n: Option<u8>) -> Option<u64> {
    match n {
        Some(n) => Some(n as u64),
        None => None,
    }
}

/// `pairs` joined with `&`.
pub open spec fn join_pairs(pairs: Seq<Seq<char>>) -> Seq<char>
    decreases pairs.len(),
{
    if pairs.len() == 0 {
        seq![]
    } else if pairs.len() == 1 {
        pairs[0]
    } else {
        join_pairs(pairs.drop_last()) + "&"@ + pairs.last()
    }
}

impl ByPUUIDOptions {
    /// The present filters as `key=value` pairs, in the fixed order `start`,
    /// `count`, `queue`, `type`, `startTime`, `endTime`.
    pub open spec fn query_pairs(self) -> Seq<Seq<char>> {
        pair_if("start"@, opt_decimal(widen32(self.start)))
            + pair_if("count"@, opt_decimal(widen8(self.count)))
            + pair_if("queue"@, opt_decimal(widen32(self.queue)))
            + pair_if("type"@, opt_view(self.match_type))
            + pair_if("startTime"@, opt_decimal(self.start_time))
            + pair_if("endTime"@, opt_decimal(self.end_time))
    }

    /// No filter is present.
    pub open spec fn is_empty(self) -> bool {
        &&& self.start is None
        &&& self.count is None
        &&& self.queue is None
        &&& self.match_type is None
        &&& self.start_time is None
        &&& self.end_time is None
    }

    /// The query suffix: `?` and the pairs joined with `&`, or nothing where
    /// no filter is present.
    pub open spec fn query(self) -> Seq<char> {
        if self.query_pairs().len() == 0 {
            seq![]
        } else {
            "?"@ + join_pairs(self.query_pairs())
        }
    }
}

/// Appends `key=value` to the pairs written so far.
fn push_pair(s: &mut String, pairs: Ghost<Seq<Seq<char>>>, first: bool, key: &str, value: &str)
    requires
        old(s)@ == join_pairs(pairs@),
        first == (pairs@.len() == 0),
    ensures
        final(s)@ == join_pairs(pairs@.push(query_pair(key@, value@))),
{
    let ghost next = pairs@.push(query_pair(key@, value@));
    assert(next.drop_last() =~= pairs@);
    if !first {
        s.append("&");
    }
    s.append(key);
    s.append("=");
    s.append(value);
    proof {
        if pairs@.len() == 0 {
            assert(join_pairs(pairs@) =~= seq![]);
        }
    }
    assert(s@ =~= join_pairs(next));
}


impl MatchV5 {
    /// The query suffix of `options`: the present filters as `key=value`
    /// pairs in the fixed order `start`, `count`, `queue`, `type`,
    /// `startTime`, `endTime`, joined with `&` after a `?`; empty where no
    /// filter is present.
    pub fn stringify_options(options: ByPUUIDOptions) -> (r: String)
        ensures
            r@ == options.query(),
    {
        let mut s = String::new();
        let ghost mut pairs: Seq<Seq<char>> = seq![];
        let mut first = true;
        assert(s@ =~= join_pairs(pairs));
        match options.start {
            Some(v) => {
                let d = to_decimal(v as u64);
                push_pair(&mut s, Ghost(pairs), first, "start", d.as_str());
                proof {
                    pairs = pairs.push(query_pair("start"@, d@));
                }
                first = false;
            },
            None => {},
        }
        assert(pairs =~= pair_if("start"@, opt_decimal(widen32(options.start))));
        match options.count {
            Some(v) => {
                let d = to_decimal(v as u64);
                push_pair(&mut s, Ghost(pairs), first, "count", d.as_str());
                proof {
                    pairs = pairs.push(query_pair("count"@, d@));
                }
                first = false;
            },
            None => {},
        }
        assert(pairs =~= pair_if("start"@, opt_decimal(widen32(options.start)))
            + pair_if("count"@, opt_decimal(widen8(options.count))));
        match options.queue {
            Some(v) => {
                let d = to_decimal(v as u64);
                push_pair(&mut s, Ghost(pairs), first, "queue", d.as_str());
                proof {
                    pairs = pairs.push(query_pair("queue"@, d@));
                }
                first = false;
            },
            None => {},
        }
        assert(pairs =~= pair_if("start"@, opt_decimal(widen32(options.start)))
            + pair_if("count"@, opt_decimal(widen8(options.count)))
            + pair_if("queue"@, opt_decimal(widen32(options.queue))));
        match &options.match_type {
            Some(v) => {
                push_pair(&mut s, Ghost(pairs), first, "type", v.as_str());
                proof {
                    pairs = pairs.push(query_pair("type"@, v@));
                }
                first = false;
            },
            None => {},
        }
        assert(pairs =~= pair_if("start"@, opt_decimal(widen32(options.start)))
            + pair_if("count"@, opt_decimal(widen8(options.count)))
            + pair_if("queue"@, opt_decimal(widen32(options.queue)))
            + pair_if("type"@, opt_view(options.match_type)));
        match options.start_time {
            Some(v) => {
                let d = to_decimal(v);
                push_pair(&mut s, Ghost(pairs), first, "startTime", d.as_str());
                proof {
                    pairs = pairs.push(query_pair("startTime"@, d@));
                }
                first = false;
            },
            None => {},
        }
        assert(pairs =~= pair_if("start"@, opt_decimal(widen32(options.start)))
            + pair_if("count"@, opt_decimal(widen8(options.count)))
            + pair_if("queue"@, opt_decimal(widen32(options.queue)))
            + pair_if("type"@, opt_view(options.match_type))
            + pair_if("startTime"@, opt_decimal(options.start_time)));
        match options.end_time {
            Some(v) => {
                let d = to_decimal(v);
                push_pair(&mut s, Ghost(pairs), first, "endTime", d.as_str());
                proof {
                    pairs = pairs.push(query_pair("endTime"@, d@));
                }
                first = false;
            },
            None => {},
        }
        assert(pairs =~= pair_if("start"@, opt_decimal(widen32(options.start)))
            + pair_if("count"@, opt_decimal(widen8(options.count)))
            + pair_if("queue"@, opt_decimal(widen32(options.queue)))
            + pair_if("type"@, opt_view(options.match_type))
            + pair_if("startTime"@, opt_decimal(options.start_time))
            + pair_if("endTime"@, opt_decimal(options.end_time)));
        if first {
            String::new()
        } else {
            let q = String::from_str("?");
            q.concat(s.as_str())
        }
    }
}

} // verus!
verus! {

impl MatchInfo {
    /// Decodes the body of a reply with status 200: `body` is the parsed
    /// document, or the parser's description of why the text is no JSON.
    pub fn from_body(body: Result<Json, String>) -> (r: Result<MatchInfo, Error>)
        ensures
            match body {
                Err(desc) => r matches Err(Error::Message(m)) && m@ == undecodable_message(desc@),
                Ok(j) => {
                    &&& r is Ok <==> MatchInfo::json_valid(j)
                    &&& r matches Ok(x) ==> x.json_matches(j)
                    &&& r matches Err(e) ==> e is Message
                },
            },
    {
        match body {
            Err(desc) => Err(Error::undecodable(desc.as_str())),
            Ok(j) => MatchInfo::from_json(j),
        }
    }
}

impl MatchTimeline {
    /// Decodes the body of a reply with status 200: `body` is the parsed
    /// document, or the parser's description of why the text is no JSON.
    pub fn from_body(body: Result<Json, String>) -> (r: Result<MatchTimeline, Error>)
        ensures
            match body {
                Err(desc) => r matches Err(Error::Message(m)) && m@ == undecodable_message(desc@),
                Ok(j) => {
                    &&& r is Ok <==> MatchTimeline::json_valid(j)
                    &&& r matches Ok(x) ==> x.json_matches(j)
                    &&& r matches Err(e) ==> e is Message
                },
            },
    {
        match body {
            Err(desc) => Err(Error::undecodable(desc.as_str())),
            Ok(j) => MatchTimeline::from_json(&j),
        }
    }
}

/// The base URL of the Match-V5 endpoints of `region`.
pub open spec fn match_endpoint(region: Region) -> Seq<char> {
    "https://"@ + lower_ascii(region.spec_name()) + ".api.riotgames.com/lol/match/v5/matches"@
}

/// `j` is a list of match ids.
pub open spec fn match_ids_valid(j: Json) -> bool {
    j matches Json::Arr(items) && strs_valid(items@)
}

/// `ids` are the match ids of `j`, in order.
pub open spec fn match_ids_match(j: Json, ids: Seq<String>) -> bool {
    j matches Json::Arr(items) && strs_match(items@, ids)
}

/// A client of the region-scoped Match-V5 endpoints: the base URL of its
/// region and the key that authenticates its calls.
#[derive(Debug)]
pub struct MatchV5 {
    endpoint: String,
    key: String,
}

impl MatchV5 {
    /// The base URL that the calls go to.
    pub closed spec fn endpoint_view(&self) -> Seq<char> {
        self.endpoint@
    }

    /// The key that authenticates the calls.
    pub closed spec fn key_view(&self) -> Seq<char> {
        self.key@
    }

    /// A client of the endpoints of `region`, authenticated by `key`.
    pub fn new(key: &str, region: Region) -> (r: MatchV5)
        requires
            valid_api_key(key@),
        ensures
            r.endpoint_view() == match_endpoint(region),
            r.key_view() == key@,
    {
        let host = region.host_label();
        let base = String::from_str("https://");
        let base = base.concat(host.as_str());
        let base = base.concat(".api.riotgames.com/lol/match/v5/matches");
        MatchV5 { endpoint: base, key: String::from_str(key) }
    }

    /// The base URL that the calls go to.
    pub fn endpoint(&self) -> (r: String)
        ensures
            r@ == self.endpoint_view(),
    {
        self.endpoint.clone()
    }

    /// The key that authenticates the calls.
    pub fn key(&self) -> (r: String)
        ensures
            r@ == self.key_view(),
    {
        self.key.clone()
    }

    /// The URL that lists the match ids of `puuid` under `options`.
    pub fn by_puuid_url(&self, puuid: &str, options: ByPUUIDOptions) -> (r: String)
        ensures
            r@ == self.endpoint_view() + "/by-puuid/"@ + puuid@ + "/ids"@ + options.query(),
    {
        let query = MatchV5::stringify_options(options);
        let url = self.endpoint.clone();
        let url = url.concat("/by-puuid/");
        let url = url.concat(puuid);
        let url = url.concat("/ids");
        url.concat(query.as_str())
    }

    /// The URL of the match `match_id`.
    pub fn match_info_url(&self, match_id: &str) -> (r: String)
        ensures
            r@ == self.endpoint_view() + "/"@ + match_id@,
    {
        let url = self.endpoint.clone();
        let url = url.concat("/");
        url.concat(match_id)
    }

    /// The URL of the timeline of the match `match_id`.
    pub fn match_timeline_url(&self, match_id: &str) -> (r: String)
        ensures
            r@ == self.endpoint_view() + "/"@ + match_id@ + "/timeline"@,
    {
        let url = self.endpoint.clone();
        let url = url.concat("/");
        let url = url.concat(match_id);
        url.concat("/timeline")
    }

    /// Decodes a list of match ids, kept in the order received.
    pub fn match_ids_from_json(j: &Json) -> (r: Result<Vec<String>, Error>)
        ensures
            r is Ok <==> match_ids_valid(*j),
            r matches Ok(ids) ==> match_ids_match(*j, ids@),
            r matches Err(e) ==> e is Message,
    {
        match j {
            Json::Arr(items) => read_strs(items),
            _ => Err(Error::new_message("Couldn't Deserialize:\nexpected a list of match ids")),
        }
    }

    /// Decodes the body of a match-id listing with status 200 (see
    /// `MatchInfo::from_body`).
    pub fn match_ids_from_body(body: Result<Json, String>) -> (r: Result<Vec<String>, Error>)
        ensures
            match body {
                Err(desc) => r matches Err(Error::Message(m)) && m@ == undecodable_message(desc@),
                Ok(j) => {
                    &&& r is Ok <==> match_ids_valid(j)
                    &&& r matches Ok(ids) ==> match_ids_match(j, ids@)
                    &&& r matches Err(e) ==> e is Message
                },
            },
    {
        match body {
            Err(desc) => Err(Error::undecodable(desc.as_str())),
            Ok(j) => MatchV5::match_ids_from_json(&j),
        }
    }
}

} // verus!

verus! {

/// The query suffix is a function of the filters alone: two option sets with
/// the same filters encode to the same suffix.
pub proof fn query_is_deterministic(a: ByPUUIDOptions, b: ByPUUIDOptions)
    requires
        a.start == b.start,
        a.count == b.count,
        a.queue == b.queue,
        opt_view(a.match_type) == opt_view(b.match_type),
        a.start_time == b.start_time,
        a.end_time == b.end_time,
    ensures
        a.query() == b.query(),
{
}

/// The query suffix is empty exactly when no filter is present; otherwise it
/// starts with `?`.
pub proof fn query_empty_iff_no_filter(o: ByPUUIDOptions)
    ensures
        o.query().len() == 0 <==> o.is_empty(),
        !o.is_empty() ==> o.query()[0] == '?',
{
    reveal_strlit("?");
    if !o.is_empty() {
        assert(o.query_pairs().len() > 0);
        assert(o.query() == "?"@ + join_pairs(o.query_pairs()));
    } else {
        assert(o.query_pairs() =~= seq![]);
    }
}

/// Each present filter contributes exactly one pair, in the fixed order, and
/// an absent one none: the pairs are those of `start`, `count`, `queue`,
/// `type`, `startTime` and `endTime` that are present, in that order.
pub proof fn query_pairs_in_fixed_order(o: ByPUUIDOptions)
    ensures
        o.query_pairs().len() == (if o.start is Some { 1int } else { 0 }) + (if o.count is Some {
            1int
        } else {
            0
        }) + (if o.queue is Some { 1int } else { 0 }) + (if o.match_type is Some {
            1int
        } else {
            0
        }) + (if o.start_time is Some { 1int } else { 0 }) + (if o.end_time is Some {
            1int
        } else {
            0
        }),
        o.start matches Some(n) ==> o.query_pairs()[0] == query_pair("start"@, decimal(n as nat)),
        o.end_time matches Some(n) ==> o.query_pairs().last() == query_pair(
            "endTime"@,
            decimal(n as nat),
        ),
{
}

} // verus!

verus! {

impl ParticipantFrames {
    /// The snapshot of participant `id`, for `id` from 1 to 10.
    pub open spec fn spec_frame(self, id: int) -> Option<ParticipantFrame> {
        if id == 1 {
            Some(self.frame1)
        } else if id == 2 {
            Some(self.frame2)
        } else if id == 3 {
            Some(self.frame3)
        } else if id == 4 {
            Some(self.frame4)
        } else if id == 5 {
            Some(self.frame5)
        } else if id == 6 {
            Some(self.frame6)
        } else if id == 7 {
            Some(self.frame7)
        } else if id == 8 {
            Some(self.frame8)
        } else if id == 9 {
            Some(self.frame9)
        } else if id == 10 {
            Some(self.frame10)
        } else {
            None
        }
    }

    /// The snapshot of participant `id`; `None` outside 1 to 10.
    pub fn frame(&self, id: i64) -> (r: Option<&ParticipantFrame>)
        ensures
            match r {
                Some(f) => self.spec_frame(id as int) == Some(*f),
                None => self.spec_frame(id as int) is None,
            },
            r is Some <==> 1 <= id <= 10,
    {
        if id == 1 {
            Some(&self.frame1)
        } else if id == 2 {
            Some(&self.frame2)
        } else if id == 3 {
            Some(&self.frame3)
        } else if id == 4 {
            Some(&self.frame4)
        } else if id == 5 {
            Some(&self.frame5)
        } else if id == 6 {
            Some(&self.frame6)
        } else if id == 7 {
            Some(&self.frame7)
        } else if id == 8 {
            Some(&self.frame8)
        } else if id == 9 {
            Some(&self.frame9)
        } else if id == 10 {
            Some(&self.frame10)
        } else {
            None
        }
    }
}

} // verus!

verus! {


impl Metadata {
    /// This value as a JSON object under the API's keys; it decodes back
    /// to a value with the same fields.
    pub fn into_json(self) -> (r: Json)
        ensures
            r is Obj,
            Metadata::json_valid(r),
            self.json_matches(r),
    {
        proof {
            reveal(Metadata::json_valid);
            reveal(Metadata::json_matches);
        }
        let Metadata {
            data_version,
            match_id,
            participants,
        } = self;
        let mut members: Vec<(String, Json)> = Vec::new();
        push_member(&mut members, "dataVersion", Json::Str(data_version));
        proof {
            reveal_strlit("dataVersion");
            reveal_strlit("matchId");
            assert(key_lt_at("dataVersion"@, "matchId"@, 0));
        }
        push_member(&mut members, "matchId", Json::Str(match_id));
        proof {
            reveal_strlit("matchId");
            reveal_strlit("participants");
            assert(key_lt_at("matchId"@, "participants"@, 0));
        }
        push_member(&mut members, "participants", strs_into_json(participants));
        Json::Obj(members)
    }
}



impl Perks {
    /// This value as a JSON object under the API's keys; it decodes back
    /// to a value with the same fields.
    pub fn into_json(self) -> (r: Json)
        ensures
            r is Obj,
            Perks::json_valid(r),
            self.json_matches(r),
    {
        proof {
            reveal(Perks::json_valid);
            reveal(Perks::json_matches);
        }
        let Perks {
            stat_perks,
            styles,
        } = self;
        let mut members: Vec<(String, Json)> = Vec::new();
        push_member(&mut members, "statPerks", stat_perks.into_json());
        proof {
            reveal_strlit("statPerks");
            reveal_strlit("styles");
            assert(key_lt_at("statPerks"@, "styles"@, 2));
        }
        push_member(&mut members, "styles", Json::Arr(Style::list_into_json(styles)));
        Json::Obj(members)
    }
}

impl StatPerks {
    /// This value as a JSON object under the API's keys; it decodes back
    /// to a value with the same fields.
    pub fn into_json(self) -> (r: Json)
        ensures
            r is Obj,
            StatPerks::json_valid(r),
            self.json_matches(r),
    {
        proof {
            reveal(StatPerks::json_valid);
            reveal(StatPerks::json_matches);
        }
        let StatPerks {
            defense,
            flex,
            offense,
        } = self;
        let mut members: Vec<(String, Json)> = Vec::new();
        push_member(&mut members, "defense", Json::Int(defense as i128));
        proof {
            reveal_strlit("defense");
            reveal_strlit("flex");
            assert(key_lt_at("defense"@, "flex"@, 0));
        }
        push_member(&mut members, "flex", Json::Int(flex as i128));
        proof {
            reveal_strlit("flex");
            reveal_strlit("offense");
            assert(key_lt_at("flex"@, "offense"@, 0));
        }
        push_member(&mut members, "offense", Json::Int(offense as i128));
        Json::Obj(members)
    }
}

impl Style {
    /// This value as a JSON object under the API's keys; it decodes back
    /// to a value with the same fields.
    pub fn into_json(self) -> (r: Json)
        ensures
            r is Obj,
            Style::json_valid(r),
            self.json_matches(r),
    {
        proof {
            reveal(Style::json_valid);
            reveal(Style::json_matches);
        }
        let Style {
            description,
            selections,
            style,
        } = self;
        let mut members: Vec<(String, Json)> = Vec::new();
        push_member(&mut members, "description", Json::Str(description));
        proof {
            reveal_strlit("description");
            reveal_strlit("selections");
            assert(key_lt_at("description"@, "selections"@, 0));
        }
        push_member(&mut members, "selections", Json::Arr(Selection::list_into_json(selections)));
        proof {
            reveal_strlit("selections");
            reveal_strlit("style");
            assert(key_lt_at("selections"@, "style"@, 1));
        }
        push_member(&mut members, "style", Json::Int(style as i128));
        Json::Obj(members)
    }

    /// Each element of `v` as JSON, in order.
    pub fn list_into_json(v: Vec<Style>) -> (r: Vec<Json>)
        ensures
            Style::list_valid(r@),
            Style::list_matches(v@, r@),
    {
        let ghost whole = v@;
        let mut rest = v;
        let mut out: Vec<Json> = Vec::new();
        while rest.len() > 0
            invariant
                whole == v@,
                out@.len() <= whole.len(),
                rest@ == whole.subrange(out@.len() as int, whole.len() as int),
                forall|k: int| 0 <= k < out@.len() ==> #[trigger] Style::json_valid(out@[k]),
                forall|k: int| 0 <= k < out@.len() ==> (#[trigger] whole[k]).json_matches(out@[k]),
            decreases rest@.len(),
        {
            let ghost at = out@.len() as int;
            let x = rest.remove(0);
            assert(x == whole[at]);
            out.push(x.into_json());
            assert(rest@ =~= whole.subrange(out@.len() as int, whole.len() as int));
        }
        out
    }
}

impl Selection {
    /// This value as a JSON object under the API's keys; it decodes back
    /// to a value with the same fields.
    pub fn into_json(self) -> (r: Json)
        ensures
            r is Obj,
            Selection::json_valid(r),
            self.json_matches(r),
    {
        proof {
            reveal(Selection::json_valid);
            reveal(Selection::json_matches);
        }
        let Selection {
            perk,
            var1,
            var2,
            var3,
        } = self;
        let mut members: Vec<(String, Json)> = Vec::new();
        push_member(&mut members, "perk", Json::Int(perk as i128));
        proof {
            reveal_strlit("perk");
            reveal_strlit("var1");
            assert(key_lt_at("perk"@, "var1"@, 0));
        }
        push_member(&mut members, "var1", Json::Int(var1 as i128));
        proof {
            reveal_strlit("var1");
            reveal_strlit("var2");
            assert(key_lt_at("var1"@, "var2"@, 3));
        }
        push_member(&mut members, "var2", Json::Int(var2 as i128));
        proof {
            reveal_strlit("var2");
            reveal_strlit("var3");
            assert(key_lt_at("var2"@, "var3"@, 3));
        }
        push_member(&mut members, "var3", Json::Int(var3 as i128));
        Json::Obj(members)
    }

    /// Each element of `v` as JSON, in order.
    pub fn list_into_json(v: Vec<Selection>) -> (r: Vec<Json>)
        ensures
            Selection::list_valid(r@),
            Selection::list_matches(v@, r@),
    {
        let ghost whole = v@;
        let mut rest = v;
        let mut out: Vec<Json> = Vec::new();
        while rest.len() > 0
            invariant
                whole == v@,
                out@.len() <= whole.len(),
                rest@ == whole.subrange(out@.len() as int, whole.len() as int),
                forall|k: int| 0 <= k < out@.len() ==> #[trigger] Selection::json_valid(out@[k]),
                forall|k: int| 0 <= k < out@.len() ==> (#[trigger] whole[k]).json_matches(out@[k]),
            decreases rest@.len(),
        {
            let ghost at = out@.len() as int;
            let x = rest.remove(0);
            assert(x == whole[at]);
            out.push(x.into_json());
            assert(rest@ =~= whole.subrange(out@.len() as int, whole.len() as int));
        }
        out
    }
}

impl Team {
    /// This value as a JSON object under the API's keys; it decodes back
    /// to a value with the same fields.
    pub fn into_json(self) -> (r: Json)
        ensures
            r is Obj,
            Team::json_valid(r),
            self.json_matches(r),
    {
        proof {
            reveal(Team::json_valid);
            reveal(Team::json_matches);
        }
        let Team {
            bans,
            objectives,
            team_id,
            win,
        } = self;
        let mut members: Vec<(String, Json)> = Vec::new();
        push_member(&mut members, "bans", Json::Arr(bans));
        proof {
            reveal_strlit("bans");
            reveal_strlit("objectives");
            assert(key_lt_at("bans"@, "objectives"@, 0));
        }
        push_member(&mut members, "objectives", objectives.into_json());
        proof {
            reveal_strlit("objectives");
            reveal_strlit("teamId");
            assert(key_lt_at("objectives"@, "teamId"@, 0));
        }
        push_member(&mut members, "teamId", Json::Int(team_id as i128));
        proof {
            reveal_strlit("teamId");
            reveal_strlit("win");
            assert(key_lt_at("teamId"@, "win"@, 0));
        }
        push_member(&mut members, "win", Json::Bool(win));
        Json::Obj(members)
    }

    /// Each element of `v` as JSON, in order.
    pub fn list_into_json(v: Vec<Team>) -> (r: Vec<Json>)
        ensures
            Team::list_valid(r@),
            Team::list_matches(v@, r@),
    {
        let ghost whole = v@;
        let mut rest = v;
        let mut out: Vec<Json> = Vec::new();
        while rest.len() > 0
            invariant
                whole == v@,
                out@.len() <= whole.len(),
                rest@ == whole.subrange(out@.len() as int, whole.len() as int),
                forall|k: int| 0 <= k < out@.len() ==> #[trigger] Team::json_valid(out@[k]),
                forall|k: int| 0 <= k < out@.len() ==> (#[trigger] whole[k]).json_matches(out@[k]),
            decreases rest@.len(),
        {
            let ghost at = out@.len() as int;
            let x = rest.remove(0);
            assert(x == whole[at]);
            out.push(x.into_json());
            assert(rest@ =~= whole.subrange(out@.len() as int, whole.len() as int));
        }
        out
    }
}

impl Objectives {
    /// This value as a JSON object under the API's keys; it decodes back
    /// to a value with the same fields.
    pub fn into_json(self) -> (r: Json)
        ensures
            r is Obj,
            Objectives::json_valid(r),
            self.json_matches(r),
    {
        proof {
            reveal(Objectives::json_valid);
            reveal(Objectives::json_matches);
        }
        let Objectives {
            baron,
            champion,
            dragon,
            inhibitor,
            rift_herald,
            tower,
        } = self;
        let mut members: Vec<(String, Json)> = Vec::new();
        push_member(&mut members, "baron", baron.into_json());
        proof {
            reveal_strlit("baron");
            reveal_strlit("champion");
            assert(key_lt_at("baron"@, "champion"@, 0));
        }
        push_member(&mut members, "champion", champion.into_json());
        proof {
            reveal_strlit("champion");
            reveal_strlit("dragon");
            assert(key_lt_at("champion"@, "dragon"@, 0));
        }
        push_member(&mut members, "dragon", dragon.into_json());
        proof {
            reveal_strlit("dragon");
            reveal_strlit("inhibitor");
            assert(key_lt_at("dragon"@, "inhibitor"@, 0));
        }
        push_member(&mut members, "inhibitor", inhibitor.into_json());
        proof {
            reveal_strlit("inhibitor");
            reveal_strlit("riftHerald");
            assert(key_lt_at("inhibitor"@, "riftHerald"@, 0));
        }
        push_member(&mut members, "riftHerald", rift_herald.into_json());
        proof {
            reveal_strlit("riftHerald");
            reveal_strlit("tower");
            assert(key_lt_at("riftHerald"@, "tower"@, 0));
        }
        push_member(&mut members, "tower", tower.into_json());
        Json::Obj(members)
    }
}

impl Baron {
    /// This value as a JSON object under the API's keys; it decodes back
    /// to a value with the same fields.
    pub fn into_json(self) -> (r: Json)
        ensures
            r is Obj,
            Baron::json_valid(r),
            self.json_matches(r),
    {
        proof {
            reveal(Baron::json_valid);
            reveal(Baron::json_matches);
        }
        let Baron {
            first,
            kills,
        } = self;
        let mut members: Vec<(String, Json)> = Vec::new();
        push_member(&mut members, "first", Json::Bool(first));
        proof {
            reveal_strlit("first");
            reveal_strlit("kills");
            assert(key_lt_at("first"@, "kills"@, 0));
        }
        push_member(&mut members, "kills", Json::Int(kills as i128));
        Json::Obj(members)
    }
}

impl Champion {
    /// This value as a JSON object under the API's keys; it decodes back
    /// to a value with the same fields.
    pub fn into_json(self) -> (r: Json)
        ensures
            r is Obj,
            Champion::json_valid(r),
            self.json_matches(r),
    {
        proof {
            reveal(Champion::json_valid);
            reveal(Champion::json_matches);
        }
        let Champion {
            first,
            kills,
        } = self;
        let mut members: Vec<(String, Json)> = Vec::new();
        push_member(&mut members, "first", Json::Bool(first));
        proof {
            reveal_strlit("first");
            reveal_strlit("kills");
            assert(key_lt_at("first"@, "kills"@, 0));
        }
        push_member(&mut members, "kills", Json::Int(kills as i128));
        Json::Obj(members)
    }
}

impl Dragon {
    /// This value as a JSON object under the API's keys; it decodes back
    /// to a value with the same fields.
    pub fn into_json(self) -> (r: Json)
        ensures
            r is Obj,
            Dragon::json_valid(r),
            self.json_matches(r),
    {
        proof {
            reveal(Dragon::json_valid);
            reveal(Dragon::json_matches);
        }
        let Dragon {
            first,
            kills,
        } = self;
        let mut members: Vec<(String, Json)> = Vec::new();
        push_member(&mut members, "first", Json::Bool(first));
        proof {
            reveal_strlit("first");
            reveal_strlit("kills");
            assert(key_lt_at("first"@, "kills"@, 0));
        }
        push_member(&mut members, "kills", Json::Int(kills as i128));
        Json::Obj(members)
    }
}

impl Inhibitor {
    /// This value as a JSON object under the API's keys; it decodes back
    /// to a value with the same fields.
    pub fn into_json(self) -> (r: Json)
        ensures
            r is Obj,
            Inhibitor::json_valid(r),
            self.json_matches(r),
    {
        proof {
            reveal(Inhibitor::json_valid);
            reveal(Inhibitor::json_matches);
        }
        let Inhibitor {
            first,
            kills,
        } = self;
        let mut members: Vec<(String, Json)> = Vec::new();
        push_member(&mut members, "first", Json::Bool(first));
        proof {
            reveal_strlit("first");
            reveal_strlit("kills");
            assert(key_lt_at("first"@, "kills"@, 0));
        }
        push_member(&mut members, "kills", Json::Int(kills as i128));
        Json::Obj(members)
    }
}

impl RiftHerald {
    /// This value as a JSON object under the API's keys; it decodes back
    /// to a value with the same fields.
    pub fn into_json(self) -> (r: Json)
        ensures
            r is Obj,
            RiftHerald::json_valid(r),
            self.json_matches(r),
    {
        proof {
            reveal(RiftHerald::json_valid);
            reveal(RiftHerald::json_matches);
        }
        let RiftHerald {
            first,
            kills,
        } = self;
        let mut members: Vec<(String, Json)> = Vec::new();
        push_member(&mut members, "first", Json::Bool(first));
        proof {
            reveal_strlit("first");
            reveal_strlit("kills");
            assert(key_lt_at("first"@, "kills"@, 0));
        }
        push_member(&mut members, "kills", Json::Int(kills as i128));
        Json::Obj(members)
    }
}

impl Tower {
    /// This value as a JSON object under the API's keys; it decodes back
    /// to a value with the same fields.
    pub fn into_json(self) -> (r: Json)
        ensures
            r is Obj,
            Tower::json_valid(r),
            self.json_matches(r),
    {
        proof {
            reveal(Tower::json_valid);
            reveal(Tower::json_matches);
        }
        let Tower {
            first,
            kills,
        } = self;
        let mut members: Vec<(String, Json)> = Vec::new();
        push_member(&mut members, "first", Json::Bool(first));
        proof {
            reveal_strlit("first");
            reveal_strlit("kills");
            assert(key_lt_at("first"@, "kills"@, 0));
        }
        push_member(&mut members, "kills", Json::Int(kills as i128));
        Json::Obj(members)
    }
}





impl Position {
    /// This value as a JSON object under the API's keys; it decodes back
    /// to a value with the same fields.
    pub fn into_json(self) -> (r: Json)
        ensures
            r is Obj,
            Position::json_valid(r),
            self.json_matches(r),
    {
        proof {
            reveal(Position::json_valid);
            reveal(Position::json_matches);
        }
        let Position {
            x,
            y,
        } = self;
        let mut members: Vec<(String, Json)> = Vec::new();
        push_member(&mut members, "x", Json::Int(x as i128));
        proof {
            reveal_strlit("x");
            reveal_strlit("y");
            assert(key_lt_at("x"@, "y"@, 0));
        }
        push_member(&mut members, "y", Json::Int(y as i128));
        Json::Obj(members)
    }
}

impl VictimDamageDealt {
    /// This value as a JSON object under the API's keys; it decodes back
    /// to a value with the same fields.
    pub fn into_json(self) -> (r: Json)
        ensures
            r is Obj,
            VictimDamageDealt::json_valid(r),
            self.json_matches(r),
    {
        proof {
            reveal(VictimDamageDealt::json_valid);
            reveal(VictimDamageDealt::json_matches);
        }
        let VictimDamageDealt {
            basic,
            magic_damage,
            name,
            participant_id,
            physical_damage,
            spell_name,
            spell_slot,
            true_damage,
            type_field,
        } = self;
        let mut members: Vec<(String, Json)> = Vec::new();
        push_member(&mut members, "basic", Json::Bool(basic));
        proof {
            reveal_strlit("basic");
            reveal_strlit("magicDamage");
            assert(key_lt_at("basic"@, "magicDamage"@, 0));
        }
        push_member(&mut members, "magicDamage", Json::Int(magic_damage as i128));
        proof {
            reveal_strlit("magicDamage");
            reveal_strlit("name");
            assert(key_lt_at("magicDamage"@, "name"@, 0));
        }
        push_member(&mut members, "name", Json::Str(name));
        proof {
            reveal_strlit("name");
            reveal_strlit("participantId");
            assert(key_lt_at("name"@, "participantId"@, 0));
        }
        push_member(&mut members, "participantId", Json::Int(participant_id as i128));
        proof {
            reveal_strlit("participantId");
            reveal_strlit("physicalDamage");
            assert(key_lt_at("participantId"@, "physicalDamage"@, 1));
        }
        push_member(&mut members, "physicalDamage", Json::Int(physical_damage as i128));
        proof {
            reveal_strlit("physicalDamage");
            reveal_strlit("spellName");
            assert(key_lt_at("physicalDamage"@, "spellName"@, 0));
        }
        push_member(&mut members, "spellName", Json::Str(spell_name));
        proof {
            reveal_strlit("spellName");
            reveal_strlit("spellSlot");
            assert(key_lt_at("spellName"@, "spellSlot"@, 5));
        }
        push_member(&mut members, "spellSlot", Json::Int(spell_slot as i128));
        proof {
            reveal_strlit("spellSlot");
            reveal_strlit("trueDamage");
            assert(key_lt_at("spellSlot"@, "trueDamage"@, 0));
        }
        push_member(&mut members, "trueDamage", Json::Int(true_damage as i128));
        proof {
            reveal_strlit("trueDamage");
            reveal_strlit("type");
            assert(key_lt_at("trueDamage"@, "type"@, 1));
        }
        push_member(&mut members, "type", Json::Str(type_field));
        Json::Obj(members)
    }

    /// Each element of `v` as JSON, in order.
    pub fn list_into_json(v: Vec<VictimDamageDealt>) -> (r: Vec<Json>)
        ensures
            VictimDamageDealt::list_valid(r@),
            VictimDamageDealt::list_matches(v@, r@),
    {
        let ghost whole = v@;
        let mut rest = v;
        let mut out: Vec<Json> = Vec::new();
        while rest.len() > 0
            invariant
                whole == v@,
                out@.len() <= whole.len(),
                rest@ == whole.subrange(out@.len() as int, whole.len() as int),
                forall|k: int| 0 <= k < out@.len() ==> #[trigger] VictimDamageDealt::json_valid(out@[k]),
                forall|k: int| 0 <= k < out@.len() ==> (#[trigger] whole[k]).json_matches(out@[k]),
            decreases rest@.len(),
        {
            let ghost at = out@.len() as int;
            let x = rest.remove(0);
            assert(x == whole[at]);
            out.push(x.into_json());
            assert(rest@ =~= whole.subrange(out@.len() as int, whole.len() as int));
        }
        out
    }
}

impl VictimDamageReceived {
    /// This value as a JSON object under the API's keys; it decodes back
    /// to a value with the same fields.
    pub fn into_json(self) -> (r: Json)
        ensures
            r is Obj,
            VictimDamageReceived::json_valid(r),
            self.json_matches(r),
    {
        proof {
            reveal(VictimDamageReceived::json_valid);
            reveal(VictimDamageReceived::json_matches);
        }
        let VictimDamageReceived {
            basic,
            magic_damage,
            name,
            participant_id,
            physical_damage,
            spell_name,
            spell_slot,
            true_damage,
            type_field,
        } = self;
        let mut members: Vec<(String, Json)> = Vec::new();
        push_member(&mut members, "basic", Json::Bool(basic));
        proof {
            reveal_strlit("basic");
            reveal_strlit("magicDamage");
            assert(key_lt_at("basic"@, "magicDamage"@, 0));
        }
        push_member(&mut members, "magicDamage", Json::Int(magic_damage as i128));
        proof {
            reveal_strlit("magicDamage");
            reveal_strlit("name");
            assert(key_lt_at("magicDamage"@, "name"@, 0));
        }
        push_member(&mut members, "name", Json::Str(name));
        proof {
            reveal_strlit("name");
            reveal_strlit("participantId");
            assert(key_lt_at("name"@, "participantId"@, 0));
        }
        push_member(&mut members, "participantId", Json::Int(participant_id as i128));
        proof {
            reveal_strlit("participantId");
            reveal_strlit("physicalDamage");
            assert(key_lt_at("participantId"@, "physicalDamage"@, 1));
        }
        push_member(&mut members, "physicalDamage", Json::Int(physical_damage as i128));
        proof {
            reveal_strlit("physicalDamage");
            reveal_strlit("spellName");
            assert(key_lt_at("physicalDamage"@, "spellName"@, 0));
        }
        push_member(&mut members, "spellName", Json::Str(spell_name));
        proof {
            reveal_strlit("spellName");
            reveal_strlit("spellSlot");
            assert(key_lt_at("spellName"@, "spellSlot"@, 5));
        }
        push_member(&mut members, "spellSlot", Json::Int(spell_slot as i128));
        proof {
            reveal_strlit("spellSlot");
            reveal_strlit("trueDamage");
            assert(key_lt_at("spellSlot"@, "trueDamage"@, 0));
        }
        push_member(&mut members, "trueDamage", Json::Int(true_damage as i128));
        proof {
            reveal_strlit("trueDamage");
            reveal_strlit("type");
            assert(key_lt_at("trueDamage"@, "type"@, 1));
        }
        push_member(&mut members, "type", Json::Str(type_field));
        Json::Obj(members)
    }

    /// Each element of `v` as JSON, in order.
    pub fn list_into_json(v: Vec<VictimDamageReceived>) -> (r: Vec<Json>)
        ensures
            VictimDamageReceived::list_valid(r@),
            VictimDamageReceived::list_matches(v@, r@),
    {
        let ghost whole = v@;
        let mut rest = v;
        let mut out: Vec<Json> = Vec::new();
        while rest.len() > 0
            invariant
                whole == v@,
                out@.len() <= whole.len(),
                rest@ == whole.subrange(out@.len() as int, whole.len() as int),
                forall|k: int| 0 <= k < out@.len() ==> #[trigger] VictimDamageReceived::json_valid(out@[k]),
                forall|k: int| 0 <= k < out@.len() ==> (#[trigger] whole[k]).json_matches(out@[k]),
            decreases rest@.len(),
        {
            let ghost at = out@.len() as int;
            let x = rest.remove(0);
            assert(x == whole[at]);
            out.push(x.into_json());
            assert(rest@ =~= whole.subrange(out@.len() as int, whole.len() as int));
        }
        out
    }
}

impl ParticipantFrames {
    /// This value as a JSON object under the API's keys; it decodes back
    /// to a value with the same fields.
    pub fn into_json(self) -> (r: Json)
        ensures
            r is Obj,
            ParticipantFrames::json_valid(r),
            self.json_matches(r),
    {
        proof {
            reveal(ParticipantFrames::json_valid);
            reveal(ParticipantFrames::json_matches);
        }
        let ParticipantFrames {
            frame1,
            frame2,
            frame3,
            frame4,
            frame5,
            frame6,
            frame7,
            frame8,
            frame9,
            frame10,
        } = self;
        let mut members: Vec<(String, Json)> = Vec::new();
        push_member(&mut members, "1", frame1.into_json());
        proof {
            reveal_strlit("1");
            reveal_strlit("10");
            assert(key_lt_at("1"@, "10"@, 1));
        }
        push_member(&mut members, "10", frame10.into_json());
        proof {
            reveal_strlit("10");
            reveal_strlit("2");
            assert(key_lt_at("10"@, "2"@, 0));
        }
        push_member(&mut members, "2", frame2.into_json());
        proof {
            reveal_strlit("2");
            reveal_strlit("3");
            assert(key_lt_at("2"@, "3"@, 0));
        }
        push_member(&mut members, "3", frame3.into_json());
        proof {
            reveal_strlit("3");
            reveal_strlit("4");
            assert(key_lt_at("3"@, "4"@, 0));
        }
        push_member(&mut members, "4", frame4.into_json());
        proof {
            reveal_strlit("4");
            reveal_strlit("5");
            assert(key_lt_at("4"@, "5"@, 0));
        }
        push_member(&mut members, "5", frame5.into_json());
        proof {
            reveal_strlit("5");
            reveal_strlit("6");
            assert(key_lt_at("5"@, "6"@, 0));
        }
        push_member(&mut members, "6", frame6.into_json());
        proof {
            reveal_strlit("6");
            reveal_strlit("7");
            assert(key_lt_at("6"@, "7"@, 0));
        }
        push_member(&mut members, "7", frame7.into_json());
        proof {
            reveal_strlit("7");
            reveal_strlit("8");
            assert(key_lt_at("7"@, "8"@, 0));
        }
        push_member(&mut members, "8", frame8.into_json());
        proof {
            reveal_strlit("8");
            reveal_strlit("9");
            assert(key_lt_at("8"@, "9"@, 0));
        }
        push_member(&mut members, "9", frame9.into_json());
        Json::Obj(members)
    }
}

impl ParticipantFrame {
    /// This value as a JSON object under the API's keys; it decodes back
    /// to a value with the same fields.
    pub fn into_json(self) -> (r: Json)
        ensures
            r is Obj,
            ParticipantFrame::json_valid(r),
            self.json_matches(r),
    {
        proof {
            reveal(ParticipantFrame::json_valid);
            reveal(ParticipantFrame::json_matches);
        }
        let ParticipantFrame {
            champion_stats,
            current_gold,
            damage_stats,
            gold_per_second,
            jungle_minions_killed,
            level,
            minions_killed,
            participant_id,
            position,
            time_enemy_spent_controlled,
            total_gold,
            xp,
        } = self;
        let mut members: Vec<(String, Json)> = Vec::new();
        push_member(&mut members, "championStats", champion_stats.into_json());
        proof {
            reveal_strlit("championStats");
            reveal_strlit("currentGold");
            assert(key_lt_at("championStats"@, "currentGold"@, 1));
        }
        push_member(&mut members, "currentGold", Json::Int(current_gold as i128));
        proof {
            reveal_strlit("currentGold");
            reveal_strlit("damageStats");
            assert(key_lt_at("currentGold"@, "damageStats"@, 0));
        }
        push_member(&mut members, "damageStats", damage_stats.into_json());
        proof {
            reveal_strlit("damageStats");
            reveal_strlit("goldPerSecond");
            assert(key_lt_at("damageStats"@, "goldPerSecond"@, 0));
        }
        push_member(&mut members, "goldPerSecond", Json::Int(gold_per_second as i128));
        proof {
            reveal_strlit("goldPerSecond");
            reveal_strlit("jungleMinionsKilled");
            assert(key_lt_at("goldPerSecond"@, "jungleMinionsKilled"@, 0));
        }
        push_member(&mut members, "jungleMinionsKilled", Json::Int(jungle_minions_killed as i128));
        proof {
            reveal_strlit("jungleMinionsKilled");
            reveal_strlit("level");
            assert(key_lt_at("jungleMinionsKilled"@, "level"@, 0));
        }
        push_member(&mut members, "level", Json::Int(level as i128));
        proof {
            reveal_strlit("level");
            reveal_strlit("minionsKilled");
            assert(key_lt_at("level"@, "minionsKilled"@, 0));
        }
        push_member(&mut members, "minionsKilled", Json::Int(minions_killed as i128));
        proof {
            reveal_strlit("minionsKilled");
            reveal_strlit("participantId");
            assert(key_lt_at("minionsKilled"@, "participantId"@, 0));
        }
        push_member(&mut members, "participantId", Json::Int(participant_id as i128));
        proof {
            reveal_strlit("participantId");
            reveal_strlit("position");
            assert(key_lt_at("participantId"@, "position"@, 1));
        }
        push_member(&mut members, "position", position.into_json());
        proof {
            reveal_strlit("position");
            reveal_strlit("timeEnemySpentControlled");
            assert(key_lt_at("position"@, "timeEnemySpentControlled"@, 0));
        }
        push_member(&mut members, "timeEnemySpentControlled", Json::Int(time_enemy_spent_controlled as i128));
        proof {
            reveal_strlit("timeEnemySpentControlled");
            reveal_strlit("totalGold");
            assert(key_lt_at("timeEnemySpentControlled"@, "totalGold"@, 1));
        }
        push_member(&mut members, "totalGold", Json::Int(total_gold as i128));
        proof {
            reveal_strlit("totalGold");
            reveal_strlit("xp");
            assert(key_lt_at("totalGold"@, "xp"@, 0));
        }
        push_member(&mut members, "xp", Json::Int(xp as i128));
        Json::Obj(members)
    }
}

impl ChampionStats {
    /// This value as a JSON object under the API's keys; it decodes back
    /// to a value with the same fields.
    #[verifier::spinoff_prover]
    #[verifier::rlimit(100)]
    pub fn into_json(self) -> (r: Json)
        ensures
            r is Obj,
            ChampionStats::json_valid(r),
            self.json_matches(r),
    {
        proof {
            reveal(ChampionStats::json_valid);
            reveal(ChampionStats::json_matches);
        }
        let ChampionStats {
            ability_haste,
            ability_power,
            armor,
            armor_pen,
            armor_pen_percent,
            attack_damage,
            attack_speed,
            bonus_armor_pen_percent,
            bonus_magic_pen_percent,
            cc_reduction,
            cooldown_reduction,
            health,
            health_max,
            health_regen,
            lifesteal,
            magic_pen,
            magic_pen_percent,
            magic_resist,
            movement_speed,
            omnivamp,
            physical_vamp,
            power,
            power_max,
            power_regen,
            spell_vamp,
        } = self;
        let mut members: Vec<(String, Json)> = Vec::new();
        push_member(&mut members, "abilityHaste", Json::Int(ability_haste as i128));
        proof {
            reveal_strlit("abilityHaste");
            reveal_strlit("abilityPower");
            assert(key_lt_at("abilityHaste"@, "abilityPower"@, 7));
        }
        push_member(&mut members, "abilityPower", Json::Int(ability_power as i128));
        proof {
            reveal_strlit("abilityPower");
            reveal_strlit("armor");
            assert(key_lt_at("abilityPower"@, "armor"@, 1));
        }
        push_member(&mut members, "armor", Json::Int(armor as i128));
        proof {
            reveal_strlit("armor");
            reveal_strlit("armorPen");
            assert(key_lt_at("armor"@, "armorPen"@, 5));
        }
        push_member(&mut members, "armorPen", Json::Int(armor_pen as i128));
        proof {
            reveal_strlit("armorPen");
            reveal_strlit("armorPenPercent");
            assert(key_lt_at("armorPen"@, "armorPenPercent"@, 8));
        }
        push_member(&mut members, "armorPenPercent", Json::Int(armor_pen_percent as i128));
        proof {
            reveal_strlit("armorPenPercent");
            reveal_strlit("attackDamage");
            assert(key_lt_at("armorPenPercent"@, "attackDamage"@, 1));
        }
        push_member(&mut members, "attackDamage", Json::Int(attack_damage as i128));
        proof {
            reveal_strlit("attackDamage");
            reveal_strlit("attackSpeed");
            assert(key_lt_at("attackDamage"@, "attackSpeed"@, 6));
        }
        push_member(&mut members, "attackSpeed", Json::Int(attack_speed as i128));
        proof {
            reveal_strlit("attackSpeed");
            reveal_strlit("bonusArmorPenPercent");
            assert(key_lt_at("attackSpeed"@, "bonusArmorPenPercent"@, 0));
        }
        push_member(&mut members, "bonusArmorPenPercent", Json::Int(bonus_armor_pen_percent as i128));
        proof {
            reveal_strlit("bonusArmorPenPercent");
            reveal_strlit("bonusMagicPenPercent");
            assert(key_lt_at("bonusArmorPenPercent"@, "bonusMagicPenPercent"@, 5));
        }
        push_member(&mut members, "bonusMagicPenPercent", Json::Int(bonus_magic_pen_percent as i128));
        proof {
            reveal_strlit("bonusMagicPenPercent");
            reveal_strlit("ccReduction");
            assert(key_lt_at("bonusMagicPenPercent"@, "ccReduction"@, 0));
        }
        push_member(&mut members, "ccReduction", Json::Int(cc_reduction as i128));
        proof {
            reveal_strlit("ccReduction");
            reveal_strlit("cooldownReduction");
            assert(key_lt_at("ccReduction"@, "cooldownReduction"@, 1));
        }
        push_member(&mut members, "cooldownReduction", Json::Int(cooldown_reduction as i128));
        proof {
            reveal_strlit("cooldownReduction");
            reveal_strlit("health");
            assert(key_lt_at("cooldownReduction"@, "health"@, 0));
        }
        push_member(&mut members, "health", Json::Int(health as i128));
        proof {
            reveal_strlit("health");
            reveal_strlit("healthMax");
            assert(key_lt_at("health"@, "healthMax"@, 6));
        }
        push_member(&mut members, "healthMax", Json::Int(health_max as i128));
        proof {
            reveal_strlit("healthMax");
            reveal_strlit("healthRegen");
            assert(key_lt_at("healthMax"@, "healthRegen"@, 6));
        }
        push_member(&mut members, "healthRegen", Json::Int(health_regen as i128));
        proof {
            reveal_strlit("healthRegen");
            reveal_strlit("lifesteal");
            assert(key_lt_at("healthRegen"@, "lifesteal"@, 0));
        }
        push_member(&mut members, "lifesteal", Json::Int(lifesteal as i128));
        proof {
            reveal_strlit("lifesteal");
            reveal_strlit("magicPen");
            assert(key_lt_at("lifesteal"@, "magicPen"@, 0));
        }
        push_member(&mut members, "magicPen", Json::Int(magic_pen as i128));
        proof {
            reveal_strlit("magicPen");
            reveal_strlit("magicPenPercent");
            assert(key_lt_at("magicPen"@, "magicPenPercent"@, 8));
        }
        push_member(&mut members, "magicPenPercent", Json::Int(magic_pen_percent as i128));
        proof {
            reveal_strlit("magicPenPercent");
            reveal_strlit("magicResist");
            assert(key_lt_at("magicPenPercent"@, "magicResist"@, 5));
        }
        push_member(&mut members, "magicResist", Json::Int(magic_resist as i128));
        proof {
            reveal_strlit("magicResist");
            reveal_strlit("movementSpeed");
            assert(key_lt_at("magicResist"@, "movementSpeed"@, 1));
        }
        push_member(&mut members, "movementSpeed", Json::Int(movement_speed as i128));
        proof {
            reveal_strlit("movementSpeed");
            reveal_strlit("omnivamp");
            assert(key_lt_at("movementSpeed"@, "omnivamp"@, 0));
        }
        push_member(&mut members, "omnivamp", Json::Int(omnivamp as i128));
        proof {
            reveal_strlit("omnivamp");
            reveal_strlit("physicalVamp");
            assert(key_lt_at("omnivamp"@, "physicalVamp"@, 0));
        }
        push_member(&mut members, "physicalVamp", Json::Int(physical_vamp as i128));
        proof {
            reveal_strlit("physicalVamp");
            reveal_strlit("power");
            assert(key_lt_at("physicalVamp"@, "power"@, 1));
        }
        push_member(&mut members, "power", Json::Int(power as i128));
        proof {
            reveal_strlit("power");
            reveal_strlit("powerMax");
            assert(key_lt_at("power"@, "powerMax"@, 5));
        }
        push_member(&mut members, "powerMax", Json::Int(power_max as i128));
        proof {
            reveal_strlit("powerMax");
            reveal_strlit("powerRegen");
            assert(key_lt_at("powerMax"@, "powerRegen"@, 5));
        }
        push_member(&mut members, "powerRegen", Json::Int(power_regen as i128));
        proof {
            reveal_strlit("powerRegen");
            reveal_strlit("spellVamp");
            assert(key_lt_at("powerRegen"@, "spellVamp"@, 0));
        }
        push_member(&mut members, "spellVamp", Json::Int(spell_vamp as i128));
        Json::Obj(members)
    }
}

impl DamageStats {
    /// This value as a JSON object under the API's keys; it decodes back
    /// to a value with the same fields.
    pub fn into_json(self) -> (r: Json)
        ensures
            r is Obj,
            DamageStats::json_valid(r),
            self.json_matches(r),
    {
        proof {
            reveal(DamageStats::json_valid);
            reveal(DamageStats::json_matches);
        }
        let DamageStats {
            magic_damage_done,
            magic_damage_done_to_champions,
            magic_damage_taken,
            physical_damage_done,
            physical_damage_done_to_champions,
            physical_damage_taken,
            total_damage_done,
            total_damage_done_to_champions,
            total_damage_taken,
            true_damage_done,
            true_damage_done_to_champions,
            true_damage_taken,
        } = self;
        let mut members: Vec<(String, Json)> = Vec::new();
        push_member(&mut members, "magicDamageDone", Json::Int(magic_damage_done as i128));
        proof {
            reveal_strlit("magicDamageDone");
            reveal_strlit("magicDamageDoneToChampions");
            assert(key_lt_at("magicDamageDone"@, "magicDamageDoneToChampions"@, 15));
        }
        push_member(&mut members, "magicDamageDoneToChampions", Json::Int(magic_damage_done_to_champions as i128));
        proof {
            reveal_strlit("magicDamageDoneToChampions");
            reveal_strlit("magicDamageTaken");
            assert(key_lt_at("magicDamageDoneToChampions"@, "magicDamageTaken"@, 11));
        }
        push_member(&mut members, "magicDamageTaken", Json::Int(magic_damage_taken as i128));
        proof {
            reveal_strlit("magicDamageTaken");
            reveal_strlit("physicalDamageDone");
            assert(key_lt_at("magicDamageTaken"@, "physicalDamageDone"@, 0));
        }
        push_member(&mut members, "physicalDamageDone", Json::Int(physical_damage_done as i128));
        proof {
            reveal_strlit("physicalDamageDone");
            reveal_strlit("physicalDamageDoneToChampions");
            assert(key_lt_at("physicalDamageDone"@, "physicalDamageDoneToChampions"@, 18));
        }
        push_member(&mut members, "physicalDamageDoneToChampions", Json::Int(physical_damage_done_to_champions as i128));
        proof {
            reveal_strlit("physicalDamageDoneToChampions");
            reveal_strlit("physicalDamageTaken");
            assert(key_lt_at("physicalDamageDoneToChampions"@, "physicalDamageTaken"@, 14));
        }
        push_member(&mut members, "physicalDamageTaken", Json::Int(physical_damage_taken as i128));
        proof {
            reveal_strlit("physicalDamageTaken");
            reveal_strlit("totalDamageDone");
            assert(key_lt_at("physicalDamageTaken"@, "totalDamageDone"@, 0));
        }
        push_member(&mut members, "totalDamageDone", Json::Int(total_damage_done as i128));
        proof {
            reveal_strlit("totalDamageDone");
            reveal_strlit("totalDamageDoneToChampions");
            assert(key_lt_at("totalDamageDone"@, "totalDamageDoneToChampions"@, 15));
        }
        push_member(&mut members, "totalDamageDoneToChampions", Json::Int(total_damage_done_to_champions as i128));
        proof {
            reveal_strlit("totalDamageDoneToChampions");
            reveal_strlit("totalDamageTaken");
            assert(key_lt_at("totalDamageDoneToChampions"@, "totalDamageTaken"@, 11));
        }
        push_member(&mut members, "totalDamageTaken", Json::Int(total_damage_taken as i128));
        proof {
            reveal_strlit("totalDamageTaken");
            reveal_strlit("trueDamageDone");
            assert(key_lt_at("totalDamageTaken"@, "trueDamageDone"@, 1));
        }
        push_member(&mut members, "trueDamageDone", Json::Int(true_damage_done as i128));
        proof {
            reveal_strlit("trueDamageDone");
            reveal_strlit("trueDamageDoneToChampions");
            assert(key_lt_at("trueDamageDone"@, "trueDamageDoneToChampions"@, 14));
        }
        push_member(&mut members, "trueDamageDoneToChampions", Json::Int(true_damage_done_to_champions as i128));
        proof {
            reveal_strlit("trueDamageDoneToChampions");
            reveal_strlit("trueDamageTaken");
            assert(key_lt_at("trueDamageDoneToChampions"@, "trueDamageTaken"@, 10));
        }
        push_member(&mut members, "trueDamageTaken", Json::Int(true_damage_taken as i128));
        Json::Obj(members)
    }
}

impl TimelineParticipant {
    /// This value as a JSON object under the API's keys; it decodes back
    /// to a value with the same fields.
    pub fn into_json(self) -> (r: Json)
        ensures
            r is Obj,
            TimelineParticipant::json_valid(r),
            self.json_matches(r),
    {
        proof {
            reveal(TimelineParticipant::json_valid);
            reveal(TimelineParticipant::json_matches);
        }
        let TimelineParticipant {
            participant_id,
            puuid,
        } = self;
        let mut members: Vec<(String, Json)> = Vec::new();
        push_member(&mut members, "participantId", Json::Int(participant_id as i128));
        proof {
            reveal_strlit("participantId");
            reveal_strlit("puuid");
            assert(key_lt_at("participantId"@, "puuid"@, 1));
        }
        push_member(&mut members, "puuid", Json::Str(puuid));
        Json::Obj(members)
    }

    /// Each element of `v` as JSON, in order.
    pub fn list_into_json(v: Vec<TimelineParticipant>) -> (r: Vec<Json>)
        ensures
            TimelineParticipant::list_valid(r@),
            TimelineParticipant::list_matches(v@, r@),
    {
        let ghost whole = v@;
        let mut rest = v;
        let mut out: Vec<Json> = Vec::new();
        while rest.len() > 0
            invariant
                whole == v@,
                out@.len() <= whole.len(),
                rest@ == whole.subrange(out@.len() as int, whole.len() as int),
                forall|k: int| 0 <= k < out@.len() ==> #[trigger] TimelineParticipant::json_valid(out@[k]),
                forall|k: int| 0 <= k < out@.len() ==> (#[trigger] whole[k]).json_matches(out@[k]),
            decreases rest@.len(),
        {
            let ghost at = out@.len() as int;
            let x = rest.remove(0);
            assert(x == whole[at]);
            out.push(x.into_json());
            assert(rest@ =~= whole.subrange(out@.len() as int, whole.len() as int));
        }
        out
    }
}

} // verus!

verus! {

/// Appends the members `afterId` to `killStreakLength` of a event's
/// object, after members whose names come before `afterId`.
fn push_event_part1(
    members: &mut Vec<(String, Json)>,
    after_id: Option<i64>,
    assisting_participant_ids: Vec<i64>,
    before_id: Option<i64>,
    bounty: Option<i64>,
    building_type: Option<String>,
    creator_id: Option<i64>,
    game_id: Option<i64>,
    gold_gain: Option<i64>,
    item_id: Option<i64>,
    kill_streak_length: Option<i64>,
)
    requires
        old(members)@.len() > 0 ==> sorted_members(old(members)@) && key_lt(
            old(members)@.last().0@,
            "afterId"@,
        ),
    ensures
        final(members)@.len() > 0,
        sorted_members(final(members)@),
        final(members)@.last().0@ == "killStreakLength"@,
        forall|q: Seq<char>|
            find_member(old(members)@, q) is Some ==> #[trigger] find_member(final(members)@, q)
                == find_member(old(members)@, q),
        find_member(final(members)@, "afterId"@) matches Some(v) && as_opt_i64(v) == Some(after_id),
        find_member(final(members)@, "assistingParticipantIds"@) matches Some(v) && v matches Json::Arr(items) && i64s_valid(items@) && i64s_match(items@, assisting_participant_ids@),
        find_member(final(members)@, "beforeId"@) matches Some(v) && as_opt_i64(v) == Some(before_id),
        find_member(final(members)@, "bounty"@) matches Some(v) && as_opt_i64(v) == Some(bounty),
        find_member(final(members)@, "buildingType"@) matches Some(v) && as_opt_str(v) == Some(opt_view(building_type)),
        find_member(final(members)@, "creatorId"@) matches Some(v) && as_opt_i64(v) == Some(creator_id),
        find_member(final(members)@, "gameId"@) matches Some(v) && as_opt_i64(v) == Some(game_id),
        find_member(final(members)@, "goldGain"@) matches Some(v) && as_opt_i64(v) == Some(gold_gain),
        find_member(final(members)@, "itemId"@) matches Some(v) && as_opt_i64(v) == Some(item_id),
        find_member(final(members)@, "killStreakLength"@) matches Some(v) && as_opt_i64(v) == Some(kill_streak_length),
{
    push_member(members, "afterId", opt_i64_into_json(after_id));
    proof {
        reveal_strlit("afterId");
        reveal_strlit("assistingParticipantIds");
        assert(key_lt_at("afterId"@, "assistingParticipantIds"@, 1));
    }
    push_member(members, "assistingParticipantIds", i64s_into_json(assisting_participant_ids));
    proof {
        reveal_strlit("assistingParticipantIds");
        reveal_strlit("beforeId");
        assert(key_lt_at("assistingParticipantIds"@, "beforeId"@, 0));
    }
    push_member(members, "beforeId", opt_i64_into_json(before_id));
    proof {
        reveal_strlit("beforeId");
        reveal_strlit("bounty");
        assert(key_lt_at("beforeId"@, "bounty"@, 1));
    }
    push_member(members, "bounty", opt_i64_into_json(bounty));
    proof {
        reveal_strlit("bounty");
        reveal_strlit("buildingType");
        assert(key_lt_at("bounty"@, "buildingType"@, 1));
    }
    push_member(members, "buildingType", opt_str_into_json(building_type));
    proof {
        reveal_strlit("buildingType");
        reveal_strlit("creatorId");
        assert(key_lt_at("buildingType"@, "creatorId"@, 0));
    }
    push_member(members, "creatorId", opt_i64_into_json(creator_id));
    proof {
        reveal_strlit("creatorId");
        reveal_strlit("gameId");
        assert(key_lt_at("creatorId"@, "gameId"@, 0));
    }
    push_member(members, "gameId", opt_i64_into_json(game_id));
    proof {
        reveal_strlit("gameId");
        reveal_strlit("goldGain");
        assert(key_lt_at("gameId"@, "goldGain"@, 1));
    }
    push_member(members, "goldGain", opt_i64_into_json(gold_gain));
    proof {
        reveal_strlit("goldGain");
        reveal_strlit("itemId");
        assert(key_lt_at("goldGain"@, "itemId"@, 0));
    }
    push_member(members, "itemId", opt_i64_into_json(item_id));
    proof {
        reveal_strlit("itemId");
        reveal_strlit("killStreakLength");
        assert(key_lt_at("itemId"@, "killStreakLength"@, 0));
    }
    push_member(members, "killStreakLength", opt_i64_into_json(kill_streak_length));
}

/// Appends the members `killType` to `skillSlot` of a event's
/// object, after members whose names come before `killType`.
fn push_event_part2(
    members: &mut Vec<(String, Json)>,
    kill_type: Option<String>,
    killer_id: Option<i64>,
    lane_type: Option<String>,
    level: Option<i64>,
    level_up_type: Option<String>,
    multi_kill_length: Option<i64>,
    participant_id: Option<i64>,
    position: Option<Position>,
    real_timestamp: Option<i64>,
    skill_slot: Option<i64>,
)
    requires
        old(members)@.len() > 0 ==> sorted_members(old(members)@) && key_lt(
            old(members)@.last().0@,
            "killType"@,
        ),
    ensures
        final(members)@.len() > 0,
        sorted_members(final(members)@),
        final(members)@.last().0@ == "skillSlot"@,
        forall|q: Seq<char>|
            find_member(old(members)@, q) is Some ==> #[trigger] find_member(final(members)@, q)
                == find_member(old(members)@, q),
        find_member(final(members)@, "killType"@) matches Some(v) && as_opt_str(v) == Some(opt_view(kill_type)),
        find_member(final(members)@, "killerId"@) matches Some(v) && as_opt_i64(v) == Some(killer_id),
        find_member(final(members)@, "laneType"@) matches Some(v) && as_opt_str(v) == Some(opt_view(lane_type)),
        find_member(final(members)@, "level"@) matches Some(v) && as_opt_i64(v) == Some(level),
        find_member(final(members)@, "levelUpType"@) matches Some(v) && as_opt_str(v) == Some(opt_view(level_up_type)),
        find_member(final(members)@, "multiKillLength"@) matches Some(v) && as_opt_i64(v) == Some(multi_kill_length),
        find_member(final(members)@, "participantId"@) matches Some(v) && as_opt_i64(v) == Some(participant_id),
        find_member(final(members)@, "position"@) matches Some(v) && match position {
            None => v is Null,
            Some(x) => v is Obj && Position::json_valid(v) && x.json_matches(v),
        },
        find_member(final(members)@, "realTimestamp"@) matches Some(v) && as_opt_i64(v) == Some(real_timestamp),
        find_member(final(members)@, "skillSlot"@) matches Some(v) && as_opt_i64(v) == Some(skill_slot),
{
    push_member(members, "killType", opt_str_into_json(kill_type));
    proof {
        reveal_strlit("killType");
        reveal_strlit("killerId");
        assert(key_lt_at("killType"@, "killerId"@, 4));
    }
    push_member(members, "killerId", opt_i64_into_json(killer_id));
    proof {
        reveal_strlit("killerId");
        reveal_strlit("laneType");
        assert(key_lt_at("killerId"@, "laneType"@, 0));
    }
    push_member(members, "laneType", opt_str_into_json(lane_type));
    proof {
        reveal_strlit("laneType");
        reveal_strlit("level");
        assert(key_lt_at("laneType"@, "level"@, 1));
    }
    push_member(members, "level", opt_i64_into_json(level));
    proof {
        reveal_strlit("level");
        reveal_strlit("levelUpType");
        assert(key_lt_at("level"@, "levelUpType"@, 5));
    }
    push_member(members, "levelUpType", opt_str_into_json(level_up_type));
    proof {
        reveal_strlit("levelUpType");
        reveal_strlit("multiKillLength");
        assert(key_lt_at("levelUpType"@, "multiKillLength"@, 0));
    }
    push_member(members, "multiKillLength", opt_i64_into_json(multi_kill_length));
    proof {
        reveal_strlit("multiKillLength");
        reveal_strlit("participantId");
        assert(key_lt_at("multiKillLength"@, "participantId"@, 0));
    }
    push_member(members, "participantId", opt_i64_into_json(participant_id));
    proof {
        reveal_strlit("participantId");
        reveal_strlit("position");
        assert(key_lt_at("participantId"@, "position"@, 1));
    }
    push_member(members, "position", match position {
                Some(x) => x.into_json(),
                None => Json::Null,
            });
    proof {
        reveal_strlit("position");
        reveal_strlit("realTimestamp");
        assert(key_lt_at("position"@, "realTimestamp"@, 0));
    }
    push_member(members, "realTimestamp", opt_i64_into_json(real_timestamp));
    proof {
        reveal_strlit("realTimestamp");
        reveal_strlit("skillSlot");
        assert(key_lt_at("realTimestamp"@, "skillSlot"@, 0));
    }
    push_member(members, "skillSlot", opt_i64_into_json(skill_slot));
}

/// Appends the members `teamId` to `winningTeam` of a event's
/// object, after members whose names come before `teamId`.
fn push_event_part3(
    members: &mut Vec<(String, Json)>,
    team_id: Option<i64>,
    timestamp: i64,
    tower_type: Option<String>,
    type_field: String,
    victim_damage_dealt: Vec<VictimDamageDealt>,
    victim_damage_received: Vec<VictimDamageReceived>,
    victim_id: Option<i64>,
    ward_type: Option<String>,
    winning_team: Option<i64>,
)
    requires
        old(members)@.len() > 0 ==> sorted_members(old(members)@) && key_lt(
            old(members)@.last().0@,
            "teamId"@,
        ),
    ensures
        final(members)@.len() > 0,
        sorted_members(final(members)@),
        final(members)@.last().0@ == "winningTeam"@,
        forall|q: Seq<char>|
            find_member(old(members)@, q) is Some ==> #[trigger] find_member(final(members)@, q)
                == find_member(old(members)@, q),
        find_member(final(members)@, "teamId"@) matches Some(v) && as_opt_i64(v) == Some(team_id),
        find_member(final(members)@, "timestamp"@) == Some(Json::Int(timestamp as i128)),
        find_member(final(members)@, "towerType"@) matches Some(v) && as_opt_str(v) == Some(opt_view(tower_type)),
        find_member(final(members)@, "type"@) == Some(Json::Str(type_field)),
        find_member(final(members)@, "victimDamageDealt"@) matches Some(v) && v matches Json::Arr(items) && VictimDamageDealt::list_valid(items@) && VictimDamageDealt::list_matches(victim_damage_dealt@, items@),
        find_member(final(members)@, "victimDamageReceived"@) matches Some(v) && v matches Json::Arr(items) && VictimDamageReceived::list_valid(items@) && VictimDamageReceived::list_matches(victim_damage_received@, items@),
        find_member(final(members)@, "victimId"@) matches Some(v) && as_opt_i64(v) == Some(victim_id),
        find_member(final(members)@, "wardType"@) matches Some(v) && as_opt_str(v) == Some(opt_view(ward_type)),
        find_member(final(members)@, "winningTeam"@) matches Some(v) && as_opt_i64(v) == Some(winning_team),
{
    push_member(members, "teamId", opt_i64_into_json(team_id));
    proof {
        reveal_strlit("teamId");
        reveal_strlit("timestamp");
        assert(key_lt_at("teamId"@, "timestamp"@, 1));
    }
    push_member(members, "timestamp", Json::Int(timestamp as i128));
    proof {
        reveal_strlit("timestamp");
        reveal_strlit("towerType");
        assert(key_lt_at("timestamp"@, "towerType"@, 1));
    }
    push_member(members, "towerType", opt_str_into_json(tower_type));
    proof {
        reveal_strlit("towerType");
        reveal_strlit("type");
        assert(key_lt_at("towerType"@, "type"@, 1));
    }
    push_member(members, "type", Json::Str(type_field));
    proof {
        reveal_strlit("type");
        reveal_strlit("victimDamageDealt");
        assert(key_lt_at("type"@, "victimDamageDealt"@, 0));
    }
    push_member(members, "victimDamageDealt", Json::Arr(VictimDamageDealt::list_into_json(victim_damage_dealt)));
    proof {
        reveal_strlit("victimDamageDealt");
        reveal_strlit("victimDamageReceived");
        assert(key_lt_at("victimDamageDealt"@, "victimDamageReceived"@, 12));
    }
    push_member(members, "victimDamageReceived", Json::Arr(VictimDamageReceived::list_into_json(victim_damage_received)));
    proof {
        reveal_strlit("victimDamageReceived");
        reveal_strlit("victimId");
        assert(key_lt_at("victimDamageReceived"@, "victimId"@, 6));
    }
    push_member(members, "victimId", opt_i64_into_json(victim_id));
    proof {
        reveal_strlit("victimId");
        reveal_strlit("wardType");
        assert(key_lt_at("victimId"@, "wardType"@, 0));
    }
    push_member(members, "wardType", opt_str_into_json(ward_type));
    proof {
        reveal_strlit("wardType");
        reveal_strlit("winningTeam");
        assert(key_lt_at("wardType"@, "winningTeam"@, 1));
    }
    push_member(members, "winningTeam", opt_i64_into_json(winning_team));
}

impl Event {
    /// This value as a JSON object under the API's keys; it decodes back
    /// to a value with the same fields.
    pub fn into_json(self) -> (r: Json)
        ensures
            r is Obj,
            Event::json_valid(r),
            self.json_matches(r),
    {
        proof {
            reveal(Event::json_valid);
            reveal(Event::json_matches);
        }
        let Event {
            real_timestamp,
            timestamp,
            type_field,
            level,
            participant_id,
            item_id,
            level_up_type,
            skill_slot,
            assisting_participant_ids,
            bounty,
            kill_streak_length,
            killer_id,
            position,
            victim_damage_dealt,
            victim_damage_received,
            victim_id,
            kill_type,
            multi_kill_length,
            after_id,
            before_id,
            gold_gain,
            creator_id,
            ward_type,
            building_type,
            lane_type,
            team_id,
            tower_type,
            game_id,
            winning_team,
        } = self;
        let mut members: Vec<(String, Json)> = Vec::new();
        push_event_part1(
            &mut members,
            after_id,
            assisting_participant_ids,
            before_id,
            bounty,
            building_type,
            creator_id,
            game_id,
            gold_gain,
            item_id,
            kill_streak_length,
        );
        proof {
            reveal_strlit("killStreakLength");
            reveal_strlit("killType");
            assert(key_lt_at("killStreakLength"@, "killType"@, 4));
        }
        push_event_part2(
            &mut members,
            kill_type,
            killer_id,
            lane_type,
            level,
            level_up_type,
            multi_kill_length,
            participant_id,
            position,
            real_timestamp,
            skill_slot,
        );
        proof {
            reveal_strlit("skillSlot");
            reveal_strlit("teamId");
            assert(key_lt_at("skillSlot"@, "teamId"@, 0));
        }
        push_event_part3(
            &mut members,
            team_id,
            timestamp,
            tower_type,
            type_field,
            victim_damage_dealt,
            victim_damage_received,
            victim_id,
            ward_type,
            winning_team,
        );
        Json::Obj(members)
    }

    /// Each element of `v` as JSON, in order.
    pub fn list_into_json(v: Vec<Event>) -> (r: Vec<Json>)
        ensures
            Event::list_valid(r@),
            Event::list_matches(v@, r@),
    {
        let ghost whole = v@;
        let mut rest = v;
        let mut out: Vec<Json> = Vec::new();
        while rest.len() > 0
            invariant
                whole == v@,
                out@.len() <= whole.len(),
                rest@ == whole.subrange(out@.len() as int, whole.len() as int),
                forall|k: int| 0 <= k < out@.len() ==> #[trigger] Event::json_valid(out@[k]),
                forall|k: int| 0 <= k < out@.len() ==> (#[trigger] whole[k]).json_matches(out@[k]),
            decreases rest@.len(),
        {
            let ghost at = out@.len() as int;
            let x = rest.remove(0);
            assert(x == whole[at]);
            out.push(x.into_json());
            assert(rest@ =~= whole.subrange(out@.len() as int, whole.len() as int));
        }
        out
    }
}

impl Frame {
    /// This value as a JSON object under the API's keys; it decodes back
    /// to a value with the same fields.
    pub fn into_json(self) -> (r: Json)
        ensures
            r is Obj,
            Frame::json_valid(r),
            self.json_matches(r),
    {
        proof {
            reveal(Frame::json_valid);
            reveal(Frame::json_matches);
        }
        let Frame {
            events,
            participant_frames,
            timestamp,
        } = self;
        let mut members: Vec<(String, Json)> = Vec::new();
        push_member(&mut members, "events", Json::Arr(Event::list_into_json(events)));
        proof {
            reveal_strlit("events");
            reveal_strlit("participantFrames");
            assert(key_lt_at("events"@, "participantFrames"@, 0));
        }
        push_member(&mut members, "participantFrames", participant_frames.into_json());
        proof {
            reveal_strlit("participantFrames");
            reveal_strlit("timestamp");
            assert(key_lt_at("participantFrames"@, "timestamp"@, 0));
        }
        push_member(&mut members, "timestamp", Json::Int(timestamp as i128));
        Json::Obj(members)
    }

    /// Each element of `v` as JSON, in order.
    pub fn list_into_json(v: Vec<Frame>) -> (r: Vec<Json>)
        ensures
            Frame::list_valid(r@),
            Frame::list_matches(v@, r@),
    {
        let ghost whole = v@;
        let mut rest = v;
        let mut out: Vec<Json> = Vec::new();
        while rest.len() > 0
            invariant
                whole == v@,
                out@.len() <= whole.len(),
                rest@ == whole.subrange(out@.len() as int, whole.len() as int),
                forall|k: int| 0 <= k < out@.len() ==> #[trigger] Frame::json_valid(out@[k]),
                forall|k: int| 0 <= k < out@.len() ==> (#[trigger] whole[k]).json_matches(out@[k]),
            decreases rest@.len(),
        {
            let ghost at = out@.len() as int;
            let x = rest.remove(0);
            assert(x == whole[at]);
            out.push(x.into_json());
            assert(rest@ =~= whole.subrange(out@.len() as int, whole.len() as int));
        }
        out
    }
}

impl TimelineInfo {
    /// This value as a JSON object under the API's keys; it decodes back
    /// to a value with the same fields.
    pub fn into_json(self) -> (r: Json)
        ensures
            r is Obj,
            TimelineInfo::json_valid(r),
            self.json_matches(r),
    {
        proof {
            reveal(TimelineInfo::json_valid);
            reveal(TimelineInfo::json_matches);
        }
        let TimelineInfo {
            frame_interval,
            frames,
            game_id,
            participants,
        } = self;
        let mut members: Vec<(String, Json)> = Vec::new();
        push_member(&mut members, "frameInterval", Json::Int(frame_interval as i128));
        proof {
            reveal_strlit("frameInterval");
            reveal_strlit("frames");
            assert(key_lt_at("frameInterval"@, "frames"@, 5));
        }
        push_member(&mut members, "frames", Json::Arr(Frame::list_into_json(frames)));
        proof {
            reveal_strlit("frames");
            reveal_strlit("gameId");
            assert(key_lt_at("frames"@, "gameId"@, 0));
        }
        push_member(&mut members, "gameId", Json::Int(game_id as i128));
        proof {
            reveal_strlit("gameId");
            reveal_strlit("participants");
            assert(key_lt_at("gameId"@, "participants"@, 0));
        }
        push_member(&mut members, "participants", Json::Arr(TimelineParticipant::list_into_json(participants)));
        Json::Obj(members)
    }
}

impl MatchTimeline {
    /// This value as a JSON object under the API's keys; it decodes back
    /// to a value with the same fields.
    pub fn into_json(self) -> (r: Json)
        ensures
            r is Obj,
            MatchTimeline::json_valid(r),
            self.json_matches(r),
    {
        proof {
            reveal(MatchTimeline::json_valid);
            reveal(MatchTimeline::json_matches);
        }
        let MatchTimeline {
            metadata,
            info,
        } = self;
        let mut members: Vec<(String, Json)> = Vec::new();
        push_member(&mut members, "info", info.into_json());
        proof {
            reveal_strlit("info");
            reveal_strlit("metadata");
            assert(key_lt_at("info"@, "metadata"@, 0));
        }
        push_member(&mut members, "metadata", metadata.into_json());
        Json::Obj(members)
    }
}

} // verus!

verus! {

/// Appends the members `assists` to `damageDealtToBuildings` of a participant's
/// object, after members whose names come before `assists`.
fn push_participant_part1(
    members: &mut Vec<(String, Json)>,
    assists: i64,
    baron_kills: i64,
    bounty_level: i64,
    champ_experience: i64,
    champ_level: i64,
    champion_id: i64,
    champion_name: String,
    champion_transform: i64,
    consumables_purchased: i64,
    damage_dealt_to_buildings: i64,
)
    requires
        old(members)@.len() > 0 ==> sorted_members(old(members)@) && key_lt(
            old(members)@.last().0@,
            "assists"@,
        ),
    ensures
        final(members)@.len() > 0,
        sorted_members(final(members)@),
        final(members)@.last().0@ == "damageDealtToBuildings"@,
        forall|q: Seq<char>|
            find_member(old(members)@, q) is Some ==> #[trigger] find_member(final(members)@, q)
                == find_member(old(members)@, q),
        find_member(final(members)@, "assists"@) == Some(Json::Int(assists as i128)),
        find_member(final(members)@, "baronKills"@) == Some(Json::Int(baron_kills as i128)),
        find_member(final(members)@, "bountyLevel"@) == Some(Json::Int(bounty_level as i128)),
        find_member(final(members)@, "champExperience"@) == Some(Json::Int(champ_experience as i128)),
        find_member(final(members)@, "champLevel"@) == Some(Json::Int(champ_level as i128)),
        find_member(final(members)@, "championId"@) == Some(Json::Int(champion_id as i128)),
        find_member(final(members)@, "championName"@) == Some(Json::Str(champion_name)),
        find_member(final(members)@, "championTransform"@) == Some(Json::Int(champion_transform as i128)),
        find_member(final(members)@, "consumablesPurchased"@) == Some(Json::Int(consumables_purchased as i128)),
        find_member(final(members)@, "damageDealtToBuildings"@) == Some(Json::Int(damage_dealt_to_buildings as i128)),
{
    push_member(members, "assists", Json::Int(assists as i128));
    proof {
        reveal_strlit("assists");
        reveal_strlit("baronKills");
        assert(key_lt_at("assists"@, "baronKills"@, 0));
    }
    push_member(members, "baronKills", Json::Int(baron_kills as i128));
    proof {
        reveal_strlit("baronKills");
        reveal_strlit("bountyLevel");
        assert(key_lt_at("baronKills"@, "bountyLevel"@, 1));
    }
    push_member(members, "bountyLevel", Json::Int(bounty_level as i128));
    proof {
        reveal_strlit("bountyLevel");
        reveal_strlit("champExperience");
        assert(key_lt_at("bountyLevel"@, "champExperience"@, 0));
    }
    push_member(members, "champExperience", Json::Int(champ_experience as i128));
    proof {
        reveal_strlit("champExperience");
        reveal_strlit("champLevel");
        assert(key_lt_at("champExperience"@, "champLevel"@, 5));
    }
    push_member(members, "champLevel", Json::Int(champ_level as i128));
    proof {
        reveal_strlit("champLevel");
        reveal_strlit("championId");
        assert(key_lt_at("champLevel"@, "championId"@, 5));
    }
    push_member(members, "championId", Json::Int(champion_id as i128));
    proof {
        reveal_strlit("championId");
        reveal_strlit("championName");
        assert(key_lt_at("championId"@, "championName"@, 8));
    }
    push_member(members, "championName", Json::Str(champion_name));
    proof {
        reveal_strlit("championName");
        reveal_strlit("championTransform");
        assert(key_lt_at("championName"@, "championTransform"@, 8));
    }
    push_member(members, "championTransform", Json::Int(champion_transform as i128));
    proof {
        reveal_strlit("championTransform");
        reveal_strlit("consumablesPurchased");
        assert(key_lt_at("championTransform"@, "consumablesPurchased"@, 1));
    }
    push_member(members, "consumablesPurchased", Json::Int(consumables_purchased as i128));
    proof {
        reveal_strlit("consumablesPurchased");
        reveal_strlit("damageDealtToBuildings");
        assert(key_lt_at("consumablesPurchased"@, "damageDealtToBuildings"@, 0));
    }
    push_member(members, "damageDealtToBuildings", Json::Int(damage_dealt_to_buildings as i128));
}

/// Appends the members `damageDealtToObjectives` to `firstTowerAssist` of a participant's
/// object, after members whose names come before `damageDealtToObjectives`.
fn push_participant_part2(
    members: &mut Vec<(String, Json)>,
    damage_dealt_to_objectives: i64,
    damage_dealt_to_turrets: i64,
    damage_self_mitigated: i64,
    deaths: i64,
    detector_wards_placed: i64,
    double_kills: i64,
    dragon_kills: i64,
    first_blood_assist: bool,
    first_blood_kill: bool,
    first_tower_assist: bool,
)
    requires
        old(members)@.len() > 0 ==> sorted_members(old(members)@) && key_lt(
            old(members)@.last().0@,
            "damageDealtToObjectives"@,
        ),
    ensures
        final(members)@.len() > 0,
        sorted_members(final(members)@),
        final(members)@.last().0@ == "firstTowerAssist"@,
        forall|q: Seq<char>|
            find_member(old(members)@, q) is Some ==> #[trigger] find_member(final(members)@, q)
                == find_member(old(members)@, q),
        find_member(final(members)@, "damageDealtToObjectives"@) == Some(Json::Int(damage_dealt_to_objectives as i128)),
        find_member(final(members)@, "damageDealtToTurrets"@) == Some(Json::Int(damage_dealt_to_turrets as i128)),
        find_member(final(members)@, "damageSelfMitigated"@) == Some(Json::Int(damage_self_mitigated as i128)),
        find_member(final(members)@, "deaths"@) == Some(Json::Int(deaths as i128)),
        find_member(final(members)@, "detectorWardsPlaced"@) == Some(Json::Int(detector_wards_placed as i128)),
        find_member(final(members)@, "doubleKills"@) == Some(Json::Int(double_kills as i128)),
        find_member(final(members)@, "dragonKills"@) == Some(Json::Int(dragon_kills as i128)),
        find_member(final(members)@, "firstBloodAssist"@) == Some(Json::Bool(first_blood_assist)),
        find_member(final(members)@, "firstBloodKill"@) == Some(Json::Bool(first_blood_kill)),
        find_member(final(members)@, "firstTowerAssist"@) == Some(Json::Bool(first_tower_assist)),
{
    push_member(members, "damageDealtToObjectives", Json::Int(damage_dealt_to_objectives as i128));
    proof {
        reveal_strlit("damageDealtToObjectives");
        reveal_strlit("damageDealtToTurrets");
        assert(key_lt_at("damageDealtToObjectives"@, "damageDealtToTurrets"@, 13));
    }
    push_member(members, "damageDealtToTurrets", Json::Int(damage_dealt_to_turrets as i128));
    proof {
        reveal_strlit("damageDealtToTurrets");
        reveal_strlit("damageSelfMitigated");
        assert(key_lt_at("damageDealtToTurrets"@, "damageSelfMitigated"@, 6));
    }
    push_member(members, "damageSelfMitigated", Json::Int(damage_self_mitigated as i128));
    proof {
        reveal_strlit("damageSelfMitigated");
        reveal_strlit("deaths");
        assert(key_lt_at("damageSelfMitigated"@, "deaths"@, 1));
    }
    push_member(members, "deaths", Json::Int(deaths as i128));
    proof {
        reveal_strlit("deaths");
        reveal_strlit("detectorWardsPlaced");
        assert(key_lt_at("deaths"@, "detectorWardsPlaced"@, 2));
    }
    push_member(members, "detectorWardsPlaced", Json::Int(detector_wards_placed as i128));
    proof {
        reveal_strlit("detectorWardsPlaced");
        reveal_strlit("doubleKills");
        assert(key_lt_at("detectorWardsPlaced"@, "doubleKills"@, 1));
    }
    push_member(members, "doubleKills", Json::Int(double_kills as i128));
    proof {
        reveal_strlit("doubleKills");
        reveal_strlit("dragonKills");
        assert(key_lt_at("doubleKills"@, "dragonKills"@, 1));
    }
    push_member(members, "dragonKills", Json::Int(dragon_kills as i128));
    proof {
        reveal_strlit("dragonKills");
        reveal_strlit("firstBloodAssist");
        assert(key_lt_at("dragonKills"@, "firstBloodAssist"@, 0));
    }
    push_member(members, "firstBloodAssist", Json::Bool(first_blood_assist));
    proof {
        reveal_strlit("firstBloodAssist");
        reveal_strlit("firstBloodKill");
        assert(key_lt_at("firstBloodAssist"@, "firstBloodKill"@, 10));
    }
    push_member(members, "firstBloodKill", Json::Bool(first_blood_kill));
    proof {
        reveal_strlit("firstBloodKill");
        reveal_strlit("firstTowerAssist");
        assert(key_lt_at("firstBloodKill"@, "firstTowerAssist"@, 5));
    }
    push_member(members, "firstTowerAssist", Json::Bool(first_tower_assist));
}

/// Appends the members `firstTowerKill` to `item0` of a participant's
/// object, after members whose names come before `firstTowerKill`.
fn push_participant_part3(
    members: &mut Vec<(String, Json)>,
    first_tower_kill: bool,
    game_ended_in_early_surrender: bool,
    game_ended_in_surrender: bool,
    gold_earned: i64,
    gold_spent: i64,
    individual_position: String,
    inhibitor_kills: i64,
    inhibitor_takedowns: i64,
    inhibitors_lost: i64,
    item0: i64,
)
    requires
        old(members)@.len() > 0 ==> sorted_members(old(members)@) && key_lt(
            old(members)@.last().0@,
            "firstTowerKill"@,
        ),
    ensures
        final(members)@.len() > 0,
        sorted_members(final(members)@),
        final(members)@.last().0@ == "item0"@,
        forall|q: Seq<char>|
            find_member(old(members)@, q) is Some ==> #[trigger] find_member(final(members)@, q)
                == find_member(old(members)@, q),
        find_member(final(members)@, "firstTowerKill"@) == Some(Json::Bool(first_tower_kill)),
        find_member(final(members)@, "gameEndedInEarlySurrender"@) == Some(Json::Bool(game_ended_in_early_surrender)),
        find_member(final(members)@, "gameEndedInSurrender"@) == Some(Json::Bool(game_ended_in_surrender)),
        find_member(final(members)@, "goldEarned"@) == Some(Json::Int(gold_earned as i128)),
        find_member(final(members)@, "goldSpent"@) == Some(Json::Int(gold_spent as i128)),
        find_member(final(members)@, "individualPosition"@) == Some(Json::Str(individual_position)),
        find_member(final(members)@, "inhibitorKills"@) == Some(Json::Int(inhibitor_kills as i128)),
        find_member(final(members)@, "inhibitorTakedowns"@) == Some(Json::Int(inhibitor_takedowns as i128)),
        find_member(final(members)@, "inhibitorsLost"@) == Some(Json::Int(inhibitors_lost as i128)),
        find_member(final(members)@, "item0"@) == Some(Json::Int(item0 as i128)),
{
    push_member(members, "firstTowerKill", Json::Bool(first_tower_kill));
    proof {
        reveal_strlit("firstTowerKill");
        reveal_strlit("gameEndedInEarlySurrender");
        assert(key_lt_at("firstTowerKill"@, "gameEndedInEarlySurrender"@, 0));
    }
    push_member(members, "gameEndedInEarlySurrender", Json::Bool(game_ended_in_early_surrender));
    proof {
        reveal_strlit("gameEndedInEarlySurrender");
        reveal_strlit("gameEndedInSurrender");
        assert(key_lt_at("gameEndedInEarlySurrender"@, "gameEndedInSurrender"@, 11));
    }
    push_member(members, "gameEndedInSurrender", Json::Bool(game_ended_in_surrender));
    proof {
        reveal_strlit("gameEndedInSurrender");
        reveal_strlit("goldEarned");
        assert(key_lt_at("gameEndedInSurrender"@, "goldEarned"@, 1));
    }
    push_member(members, "goldEarned", Json::Int(gold_earned as i128));
    proof {
        reveal_strlit("goldEarned");
        reveal_strlit("goldSpent");
        assert(key_lt_at("goldEarned"@, "goldSpent"@, 4));
    }
    push_member(members, "goldSpent", Json::Int(gold_spent as i128));
    proof {
        reveal_strlit("goldSpent");
        reveal_strlit("individualPosition");
        assert(key_lt_at("goldSpent"@, "individualPosition"@, 0));
    }
    push_member(members, "individualPosition", Json::Str(individual_position));
    proof {
        reveal_strlit("individualPosition");
        reveal_strlit("inhibitorKills");
        assert(key_lt_at("individualPosition"@, "inhibitorKills"@, 2));
    }
    push_member(members, "inhibitorKills", Json::Int(inhibitor_kills as i128));
    proof {
        reveal_strlit("inhibitorKills");
        reveal_strlit("inhibitorTakedowns");
        assert(key_lt_at("inhibitorKills"@, "inhibitorTakedowns"@, 9));
    }
    push_member(members, "inhibitorTakedowns", Json::Int(inhibitor_takedowns as i128));
    proof {
        reveal_strlit("inhibitorTakedowns");
        reveal_strlit("inhibitorsLost");
        assert(key_lt_at("inhibitorTakedowns"@, "inhibitorsLost"@, 9));
    }
    push_member(members, "inhibitorsLost", Json::Int(inhibitors_lost as i128));
    proof {
        reveal_strlit("inhibitorsLost");
        reveal_strlit("item0");
        assert(key_lt_at("inhibitorsLost"@, "item0"@, 1));
    }
    push_member(members, "item0", Json::Int(item0 as i128));
}

/// Appends the members `item1` to `lane` of a participant's
/// object, after members whose names come before `item1`.
fn push_participant_part4(
    members: &mut Vec<(String, Json)>,
    item1: i64,
    item2: i64,
    item3: i64,
    item4: i64,
    item5: i64,
    item6: i64,
    items_purchased: i64,
    killing_sprees: i64,
    kills: i64,
    lane: String,
)
    requires
        old(members)@.len() > 0 ==> sorted_members(old(members)@) && key_lt(
            old(members)@.last().0@,
            "item1"@,
        ),
    ensures
        final(members)@.len() > 0,
        sorted_members(final(members)@),
        final(members)@.last().0@ == "lane"@,
        forall|q: Seq<char>|
            find_member(old(members)@, q) is Some ==> #[trigger] find_member(final(members)@, q)
                == find_member(old(members)@, q),
        find_member(final(members)@, "item1"@) == Some(Json::Int(item1 as i128)),
        find_member(final(members)@, "item2"@) == Some(Json::Int(item2 as i128)),
        find_member(final(members)@, "item3"@) == Some(Json::Int(item3 as i128)),
        find_member(final(members)@, "item4"@) == Some(Json::Int(item4 as i128)),
        find_member(final(members)@, "item5"@) == Some(Json::Int(item5 as i128)),
        find_member(final(members)@, "item6"@) == Some(Json::Int(item6 as i128)),
        find_member(final(members)@, "itemsPurchased"@) == Some(Json::Int(items_purchased as i128)),
        find_member(final(members)@, "killingSprees"@) == Some(Json::Int(killing_sprees as i128)),
        find_member(final(members)@, "kills"@) == Some(Json::Int(kills as i128)),
        find_member(final(members)@, "lane"@) == Some(Json::Str(lane)),
{
    push_member(members, "item1", Json::Int(item1 as i128));
    proof {
        reveal_strlit("item1");
        reveal_strlit("item2");
        assert(key_lt_at("item1"@, "item2"@, 4));
    }
    push_member(members, "item2", Json::Int(item2 as i128));
    proof {
        reveal_strlit("item2");
        reveal_strlit("item3");
        assert(key_lt_at("item2"@, "item3"@, 4));
    }
    push_member(members, "item3", Json::Int(item3 as i128));
    proof {
        reveal_strlit("item3");
        reveal_strlit("item4");
        assert(key_lt_at("item3"@, "item4"@, 4));
    }
    push_member(members, "item4", Json::Int(item4 as i128));
    proof {
        reveal_strlit("item4");
        reveal_strlit("item5");
        assert(key_lt_at("item4"@, "item5"@, 4));
    }
    push_member(members, "item5", Json::Int(item5 as i128));
    proof {
        reveal_strlit("item5");
        reveal_strlit("item6");
        assert(key_lt_at("item5"@, "item6"@, 4));
    }
    push_member(members, "item6", Json::Int(item6 as i128));
    proof {
        reveal_strlit("item6");
        reveal_strlit("itemsPurchased");
        assert(key_lt_at("item6"@, "itemsPurchased"@, 4));
    }
    push_member(members, "itemsPurchased", Json::Int(items_purchased as i128));
    proof {
        reveal_strlit("itemsPurchased");
        reveal_strlit("killingSprees");
        assert(key_lt_at("itemsPurchased"@, "killingSprees"@, 0));
    }
    push_member(members, "killingSprees", Json::Int(killing_sprees as i128));
    proof {
        reveal_strlit("killingSprees");
        reveal_strlit("kills");
        assert(key_lt_at("killingSprees"@, "kills"@, 4));
    }
    push_member(members, "kills", Json::Int(kills as i128));
    proof {
        reveal_strlit("kills");
        reveal_strlit("lane");
        assert(key_lt_at("kills"@, "lane"@, 0));
    }
    push_member(members, "lane", Json::Str(lane));
}

/// Appends the members `largestCriticalStrike` to `nexusLost` of a participant's
/// object, after members whose names come before `largestCriticalStrike`.
fn push_participant_part5(
    members: &mut Vec<(String, Json)>,
    largest_critical_strike: i64,
    largest_killing_spree: i64,
    largest_multi_kill: i64,
    longest_time_spent_living: i64,
    magic_damage_dealt: i64,
    magic_damage_dealt_to_champions: i64,
    magic_damage_taken: i64,
    neutral_minions_killed: i64,
    nexus_kills: i64,
    nexus_lost: i64,
)
    requires
        old(members)@.len() > 0 ==> sorted_members(old(members)@) && key_lt(
            old(members)@.last().0@,
            "largestCriticalStrike"@,
        ),
    ensures
        final(members)@.len() > 0,
        sorted_members(final(members)@),
        final(members)@.last().0@ == "nexusLost"@,
        forall|q: Seq<char>|
            find_member(old(members)@, q) is Some ==> #[trigger] find_member(final(members)@, q)
                == find_member(old(members)@, q),
        find_member(final(members)@, "largestCriticalStrike"@) == Some(Json::Int(largest_critical_strike as i128)),
        find_member(final(members)@, "largestKillingSpree"@) == Some(Json::Int(largest_killing_spree as i128)),
        find_member(final(members)@, "largestMultiKill"@) == Some(Json::Int(largest_multi_kill as i128)),
        find_member(final(members)@, "longestTimeSpentLiving"@) == Some(Json::Int(longest_time_spent_living as i128)),
        find_member(final(members)@, "magicDamageDealt"@) == Some(Json::Int(magic_damage_dealt as i128)),
        find_member(final(members)@, "magicDamageDealtToChampions"@) == Some(Json::Int(magic_damage_dealt_to_champions as i128)),
        find_member(final(members)@, "magicDamageTaken"@) == Some(Json::Int(magic_damage_taken as i128)),
        find_member(final(members)@, "neutralMinionsKilled"@) == Some(Json::Int(neutral_minions_killed as i128)),
        find_member(final(members)@, "nexusKills"@) == Some(Json::Int(nexus_kills as i128)),
        find_member(final(members)@, "nexusLost"@) == Some(Json::Int(nexus_lost as i128)),
{
    push_member(members, "largestCriticalStrike", Json::Int(largest_critical_strike as i128));
    proof {
        reveal_strlit("largestCriticalStrike");
        reveal_strlit("largestKillingSpree");
        assert(key_lt_at("largestCriticalStrike"@, "largestKillingSpree"@, 7));
    }
    push_member(members, "largestKillingSpree", Json::Int(largest_killing_spree as i128));
    proof {
        reveal_strlit("largestKillingSpree");
        reveal_strlit("largestMultiKill");
        assert(key_lt_at("largestKillingSpree"@, "largestMultiKill"@, 7));
    }
    push_member(members, "largestMultiKill", Json::Int(largest_multi_kill as i128));
    proof {
        reveal_strlit("largestMultiKill");
        reveal_strlit("longestTimeSpentLiving");
        assert(key_lt_at("largestMultiKill"@, "longestTimeSpentLiving"@, 1));
    }
    push_member(members, "longestTimeSpentLiving", Json::Int(longest_time_spent_living as i128));
    proof {
        reveal_strlit("longestTimeSpentLiving");
        reveal_strlit("magicDamageDealt");
        assert(key_lt_at("longestTimeSpentLiving"@, "magicDamageDealt"@, 0));
    }
    push_member(members, "magicDamageDealt", Json::Int(magic_damage_dealt as i128));
    proof {
        reveal_strlit("magicDamageDealt");
        reveal_strlit("magicDamageDealtToChampions");
        assert(key_lt_at("magicDamageDealt"@, "magicDamageDealtToChampions"@, 16));
    }
    push_member(members, "magicDamageDealtToChampions", Json::Int(magic_damage_dealt_to_champions as i128));
    proof {
        reveal_strlit("magicDamageDealtToChampions");
        reveal_strlit("magicDamageTaken");
        assert(key_lt_at("magicDamageDealtToChampions"@, "magicDamageTaken"@, 11));
    }
    push_member(members, "magicDamageTaken", Json::Int(magic_damage_taken as i128));
    proof {
        reveal_strlit("magicDamageTaken");
        reveal_strlit("neutralMinionsKilled");
        assert(key_lt_at("magicDamageTaken"@, "neutralMinionsKilled"@, 0));
    }
    push_member(members, "neutralMinionsKilled", Json::Int(neutral_minions_killed as i128));
    proof {
        reveal_strlit("neutralMinionsKilled");
        reveal_strlit("nexusKills");
        assert(key_lt_at("neutralMinionsKilled"@, "nexusKills"@, 2));
    }
    push_member(members, "nexusKills", Json::Int(nexus_kills as i128));
    proof {
        reveal_strlit("nexusKills");
        reveal_strlit("nexusLost");
        assert(key_lt_at("nexusKills"@, "nexusLost"@, 5));
    }
    push_member(members, "nexusLost", Json::Int(nexus_lost as i128));
}

/// Appends the members `nexusTakedowns` to `profileIcon` of a participant's
/// object, after members whose names come before `nexusTakedowns`.
fn push_participant_part6(
    members: &mut Vec<(String, Json)>,
    nexus_takedowns: i64,
    objectives_stolen: i64,
    objectives_stolen_assists: i64,
    participant_id: i64,
    penta_kills: i64,
    perks: Perks,
    physical_damage_dealt: i64,
    physical_damage_dealt_to_champions: i64,
    physical_damage_taken: i64,
    profile_icon: i64,
)
    requires
        old(members)@.len() > 0 ==> sorted_members(old(members)@) && key_lt(
            old(members)@.last().0@,
            "nexusTakedowns"@,
        ),
    ensures
        final(members)@.len() > 0,
        sorted_members(final(members)@),
        final(members)@.last().0@ == "profileIcon"@,
        forall|q: Seq<char>|
            find_member(old(members)@, q) is Some ==> #[trigger] find_member(final(members)@, q)
                == find_member(old(members)@, q),
        find_member(final(members)@, "nexusTakedowns"@) == Some(Json::Int(nexus_takedowns as i128)),
        find_member(final(members)@, "objectivesStolen"@) == Some(Json::Int(objectives_stolen as i128)),
        find_member(final(members)@, "objectivesStolenAssists"@) == Some(Json::Int(objectives_stolen_assists as i128)),
        find_member(final(members)@, "participantId"@) == Some(Json::Int(participant_id as i128)),
        find_member(final(members)@, "pentaKills"@) == Some(Json::Int(penta_kills as i128)),
        find_member(final(members)@, "perks"@) matches Some(v) && Perks::json_valid(v) && perks.json_matches(v),
        find_member(final(members)@, "physicalDamageDealt"@) == Some(Json::Int(physical_damage_dealt as i128)),
        find_member(final(members)@, "physicalDamageDealtToChampions"@) == Some(Json::Int(physical_damage_dealt_to_champions as i128)),
        find_member(final(members)@, "physicalDamageTaken"@) == Some(Json::Int(physical_damage_taken as i128)),
        find_member(final(members)@, "profileIcon"@) == Some(Json::Int(profile_icon as i128)),
{
    push_member(members, "nexusTakedowns", Json::Int(nexus_takedowns as i128));
    proof {
        reveal_strlit("nexusTakedowns");
        reveal_strlit("objectivesStolen");
        assert(key_lt_at("nexusTakedowns"@, "objectivesStolen"@, 0));
    }
    push_member(members, "objectivesStolen", Json::Int(objectives_stolen as i128));
    proof {
        reveal_strlit("objectivesStolen");
        reveal_strlit("objectivesStolenAssists");
        assert(key_lt_at("objectivesStolen"@, "objectivesStolenAssists"@, 16));
    }
    push_member(members, "objectivesStolenAssists", Json::Int(objectives_stolen_assists as i128));
    proof {
        reveal_strlit("objectivesStolenAssists");
        reveal_strlit("participantId");
        assert(key_lt_at("objectivesStolenAssists"@, "participantId"@, 0));
    }
    push_member(members, "participantId", Json::Int(participant_id as i128));
    proof {
        reveal_strlit("participantId");
        reveal_strlit("pentaKills");
        assert(key_lt_at("participantId"@, "pentaKills"@, 1));
    }
    push_member(members, "pentaKills", Json::Int(penta_kills as i128));
    proof {
        reveal_strlit("pentaKills");
        reveal_strlit("perks");
        assert(key_lt_at("pentaKills"@, "perks"@, 2));
    }
    push_member(members, "perks", perks.into_json());
    proof {
        reveal_strlit("perks");
        reveal_strlit("physicalDamageDealt");
        assert(key_lt_at("perks"@, "physicalDamageDealt"@, 1));
    }
    push_member(members, "physicalDamageDealt", Json::Int(physical_damage_dealt as i128));
    proof {
        reveal_strlit("physicalDamageDealt");
        reveal_strlit("physicalDamageDealtToChampions");
        assert(key_lt_at("physicalDamageDealt"@, "physicalDamageDealtToChampions"@, 19));
    }
    push_member(members, "physicalDamageDealtToChampions", Json::Int(physical_damage_dealt_to_champions as i128));
    proof {
        reveal_strlit("physicalDamageDealtToChampions");
        reveal_strlit("physicalDamageTaken");
        assert(key_lt_at("physicalDamageDealtToChampions"@, "physicalDamageTaken"@, 14));
    }
    push_member(members, "physicalDamageTaken", Json::Int(physical_damage_taken as i128));
    proof {
        reveal_strlit("physicalDamageTaken");
        reveal_strlit("profileIcon");
        assert(key_lt_at("physicalDamageTaken"@, "profileIcon"@, 1));
    }
    push_member(members, "profileIcon", Json::Int(profile_icon as i128));
}

/// Appends the members `puuid` to `spell4Casts` of a participant's
/// object, after members whose names come before `puuid`.
fn push_participant_part7(
    members: &mut Vec<(String, Json)>,
    puuid: String,
    quadra_kills: i64,
    riot_id_name: String,
    riot_id_tagline: String,
    role: String,
    sight_wards_bought_in_game: i64,
    spell1casts: i64,
    spell2casts: i64,
    spell3casts: i64,
    spell4casts: i64,
)
    requires
        old(members)@.len() > 0 ==> sorted_members(old(members)@) && key_lt(
            old(members)@.last().0@,
            "puuid"@,
        ),
    ensures
        final(members)@.len() > 0,
        sorted_members(final(members)@),
        final(members)@.last().0@ == "spell4Casts"@,
        forall|q: Seq<char>|
            find_member(old(members)@, q) is Some ==> #[trigger] find_member(final(members)@, q)
                == find_member(old(members)@, q),
        find_member(final(members)@, "puuid"@) == Some(Json::Str(puuid)),
        find_member(final(members)@, "quadraKills"@) == Some(Json::Int(quadra_kills as i128)),
        find_member(final(members)@, "riotIdName"@) == Some(Json::Str(riot_id_name)),
        find_member(final(members)@, "riotIdTagline"@) == Some(Json::Str(riot_id_tagline)),
        find_member(final(members)@, "role"@) == Some(Json::Str(role)),
        find_member(final(members)@, "sightWardsBoughtInGame"@) == Some(Json::Int(sight_wards_bought_in_game as i128)),
        find_member(final(members)@, "spell1Casts"@) == Some(Json::Int(spell1casts as i128)),
        find_member(final(members)@, "spell2Casts"@) == Some(Json::Int(spell2casts as i128)),
        find_member(final(members)@, "spell3Casts"@) == Some(Json::Int(spell3casts as i128)),
        find_member(final(members)@, "spell4Casts"@) == Some(Json::Int(spell4casts as i128)),
{
    push_member(members, "puuid", Json::Str(puuid));
    proof {
        reveal_strlit("puuid");
        reveal_strlit("quadraKills");
        assert(key_lt_at("puuid"@, "quadraKills"@, 0));
    }
    push_member(members, "quadraKills", Json::Int(quadra_kills as i128));
    proof {
        reveal_strlit("quadraKills");
        reveal_strlit("riotIdName");
        assert(key_lt_at("quadraKills"@, "riotIdName"@, 0));
    }
    push_member(members, "riotIdName", Json::Str(riot_id_name));
    proof {
        reveal_strlit("riotIdName");
        reveal_strlit("riotIdTagline");
        assert(key_lt_at("riotIdName"@, "riotIdTagline"@, 6));
    }
    push_member(members, "riotIdTagline", Json::Str(riot_id_tagline));
    proof {
        reveal_strlit("riotIdTagline");
        reveal_strlit("role");
        assert(key_lt_at("riotIdTagline"@, "role"@, 1));
    }
    push_member(members, "role", Json::Str(role));
    proof {
        reveal_strlit("role");
        reveal_strlit("sightWardsBoughtInGame");
        assert(key_lt_at("role"@, "sightWardsBoughtInGame"@, 0));
    }
    push_member(members, "sightWardsBoughtInGame", Json::Int(sight_wards_bought_in_game as i128));
    proof {
        reveal_strlit("sightWardsBoughtInGame");
        reveal_strlit("spell1Casts");
        assert(key_lt_at("sightWardsBoughtInGame"@, "spell1Casts"@, 1));
    }
    push_member(members, "spell1Casts", Json::Int(spell1casts as i128));
    proof {
        reveal_strlit("spell1Casts");
        reveal_strlit("spell2Casts");
        assert(key_lt_at("spell1Casts"@, "spell2Casts"@, 5));
    }
    push_member(members, "spell2Casts", Json::Int(spell2casts as i128));
    proof {
        reveal_strlit("spell2Casts");
        reveal_strlit("spell3Casts");
        assert(key_lt_at("spell2Casts"@, "spell3Casts"@, 5));
    }
    push_member(members, "spell3Casts", Json::Int(spell3casts as i128));
    proof {
        reveal_strlit("spell3Casts");
        reveal_strlit("spell4Casts");
        assert(key_lt_at("spell3Casts"@, "spell4Casts"@, 5));
    }
    push_member(members, "spell4Casts", Json::Int(spell4casts as i128));
}

/// Appends the members `summoner1Casts` to `teamPosition` of a participant's
/// object, after members whose names come before `summoner1Casts`.
fn push_participant_part8(
    members: &mut Vec<(String, Json)>,
    summoner1casts: i64,
    summoner1id: i64,
    summoner2casts: i64,
    summoner2id: i64,
    summoner_id: String,
    summoner_level: i64,
    summoner_name: String,
    team_early_surrendered: bool,
    team_id: i64,
    team_position: String,
)
    requires
        old(members)@.len() > 0 ==> sorted_members(old(members)@) && key_lt(
            old(members)@.last().0@,
            "summoner1Casts"@,
        ),
    ensures
        final(members)@.len() > 0,
        sorted_members(final(members)@),
        final(members)@.last().0@ == "teamPosition"@,
        forall|q: Seq<char>|
            find_member(old(members)@, q) is Some ==> #[trigger] find_member(final(members)@, q)
                == find_member(old(members)@, q),
        find_member(final(members)@, "summoner1Casts"@) == Some(Json::Int(summoner1casts as i128)),
        find_member(final(members)@, "summoner1Id"@) == Some(Json::Int(summoner1id as i128)),
        find_member(final(members)@, "summoner2Casts"@) == Some(Json::Int(summoner2casts as i128)),
        find_member(final(members)@, "summoner2Id"@) == Some(Json::Int(summoner2id as i128)),
        find_member(final(members)@, "summonerId"@) == Some(Json::Str(summoner_id)),
        find_member(final(members)@, "summonerLevel"@) == Some(Json::Int(summoner_level as i128)),
        find_member(final(members)@, "summonerName"@) == Some(Json::Str(summoner_name)),
        find_member(final(members)@, "teamEarlySurrendered"@) == Some(Json::Bool(team_early_surrendered)),
        find_member(final(members)@, "teamId"@) == Some(Json::Int(team_id as i128)),
        find_member(final(members)@, "teamPosition"@) == Some(Json::Str(team_position)),
{
    push_member(members, "summoner1Casts", Json::Int(summoner1casts as i128));
    proof {
        reveal_strlit("summoner1Casts");
        reveal_strlit("summoner1Id");
        assert(key_lt_at("summoner1Casts"@, "summoner1Id"@, 9));
    }
    push_member(members, "summoner1Id", Json::Int(summoner1id as i128));
    proof {
        reveal_strlit("summoner1Id");
        reveal_strlit("summoner2Casts");
        assert(key_lt_at("summoner1Id"@, "summoner2Casts"@, 8));
    }
    push_member(members, "summoner2Casts", Json::Int(summoner2casts as i128));
    proof {
        reveal_strlit("summoner2Casts");
        reveal_strlit("summoner2Id");
        assert(key_lt_at("summoner2Casts"@, "summoner2Id"@, 9));
    }
    push_member(members, "summoner2Id", Json::Int(summoner2id as i128));
    proof {
        reveal_strlit("summoner2Id");
        reveal_strlit("summonerId");
        assert(key_lt_at("summoner2Id"@, "summonerId"@, 8));
    }
    push_member(members, "summonerId", Json::Str(summoner_id));
    proof {
        reveal_strlit("summonerId");
        reveal_strlit("summonerLevel");
        assert(key_lt_at("summonerId"@, "summonerLevel"@, 8));
    }
    push_member(members, "summonerLevel", Json::Int(summoner_level as i128));
    proof {
        reveal_strlit("summonerLevel");
        reveal_strlit("summonerName");
        assert(key_lt_at("summonerLevel"@, "summonerName"@, 8));
    }
    push_member(members, "summonerName", Json::Str(summoner_name));
    proof {
        reveal_strlit("summonerName");
        reveal_strlit("teamEarlySurrendered");
        assert(key_lt_at("summonerName"@, "teamEarlySurrendered"@, 0));
    }
    push_member(members, "teamEarlySurrendered", Json::Bool(team_early_surrendered));
    proof {
        reveal_strlit("teamEarlySurrendered");
        reveal_strlit("teamId");
        assert(key_lt_at("teamEarlySurrendered"@, "teamId"@, 4));
    }
    push_member(members, "teamId", Json::Int(team_id as i128));
    proof {
        reveal_strlit("teamId");
        reveal_strlit("teamPosition");
        assert(key_lt_at("teamId"@, "teamPosition"@, 4));
    }
    push_member(members, "teamPosition", Json::Str(team_position));
}

/// Appends the members `timeCCingOthers` to `totalTimeCCDealt` of a participant's
/// object, after members whose names come before `timeCCingOthers`.
fn push_participant_part9(
    members: &mut Vec<(String, Json)>,
    time_ccing_others: i64,
    time_played: i64,
    total_damage_dealt: i64,
    total_damage_dealt_to_champions: i64,
    total_damage_shielded_on_teammates: i64,
    total_damage_taken: i64,
    total_heal: i64,
    total_heals_on_teammates: i64,
    total_minions_killed: i64,
    total_time_ccdealt: i64,
)
    requires
        old(members)@.len() > 0 ==> sorted_members(old(members)@) && key_lt(
            old(members)@.last().0@,
            "timeCCingOthers"@,
        ),
    ensures
        final(members)@.len() > 0,
        sorted_members(final(members)@),
        final(members)@.last().0@ == "totalTimeCCDealt"@,
        forall|q: Seq<char>|
            find_member(old(members)@, q) is Some ==> #[trigger] find_member(final(members)@, q)
                == find_member(old(members)@, q),
        find_member(final(members)@, "timeCCingOthers"@) == Some(Json::Int(time_ccing_others as i128)),
        find_member(final(members)@, "timePlayed"@) == Some(Json::Int(time_played as i128)),
        find_member(final(members)@, "totalDamageDealt"@) == Some(Json::Int(total_damage_dealt as i128)),
        find_member(final(members)@, "totalDamageDealtToChampions"@) == Some(Json::Int(total_damage_dealt_to_champions as i128)),
        find_member(final(members)@, "totalDamageShieldedOnTeammates"@) == Some(Json::Int(total_damage_shielded_on_teammates as i128)),
        find_member(final(members)@, "totalDamageTaken"@) == Some(Json::Int(total_damage_taken as i128)),
        find_member(final(members)@, "totalHeal"@) == Some(Json::Int(total_heal as i128)),
        find_member(final(members)@, "totalHealsOnTeammates"@) == Some(Json::Int(total_heals_on_teammates as i128)),
        find_member(final(members)@, "totalMinionsKilled"@) == Some(Json::Int(total_minions_killed as i128)),
        find_member(final(members)@, "totalTimeCCDealt"@) == Some(Json::Int(total_time_ccdealt as i128)),
{
    push_member(members, "timeCCingOthers", Json::Int(time_ccing_others as i128));
    proof {
        reveal_strlit("timeCCingOthers");
        reveal_strlit("timePlayed");
        assert(key_lt_at("timeCCingOthers"@, "timePlayed"@, 4));
    }
    push_member(members, "timePlayed", Json::Int(time_played as i128));
    proof {
        reveal_strlit("timePlayed");
        reveal_strlit("totalDamageDealt");
        assert(key_lt_at("timePlayed"@, "totalDamageDealt"@, 1));
    }
    push_member(members, "totalDamageDealt", Json::Int(total_damage_dealt as i128));
    proof {
        reveal_strlit("totalDamageDealt");
        reveal_strlit("totalDamageDealtToChampions");
        assert(key_lt_at("totalDamageDealt"@, "totalDamageDealtToChampions"@, 16));
    }
    push_member(members, "totalDamageDealtToChampions", Json::Int(total_damage_dealt_to_champions as i128));
    proof {
        reveal_strlit("totalDamageDealtToChampions");
        reveal_strlit("totalDamageShieldedOnTeammates");
        assert(key_lt_at("totalDamageDealtToChampions"@, "totalDamageShieldedOnTeammates"@, 11));
    }
    push_member(members, "totalDamageShieldedOnTeammates", Json::Int(total_damage_shielded_on_teammates as i128));
    proof {
        reveal_strlit("totalDamageShieldedOnTeammates");
        reveal_strlit("totalDamageTaken");
        assert(key_lt_at("totalDamageShieldedOnTeammates"@, "totalDamageTaken"@, 11));
    }
    push_member(members, "totalDamageTaken", Json::Int(total_damage_taken as i128));
    proof {
        reveal_strlit("totalDamageTaken");
        reveal_strlit("totalHeal");
        assert(key_lt_at("totalDamageTaken"@, "totalHeal"@, 5));
    }
    push_member(members, "totalHeal", Json::Int(total_heal as i128));
    proof {
        reveal_strlit("totalHeal");
        reveal_strlit("totalHealsOnTeammates");
        assert(key_lt_at("totalHeal"@, "totalHealsOnTeammates"@, 9));
    }
    push_member(members, "totalHealsOnTeammates", Json::Int(total_heals_on_teammates as i128));
    proof {
        reveal_strlit("totalHealsOnTeammates");
        reveal_strlit("totalMinionsKilled");
        assert(key_lt_at("totalHealsOnTeammates"@, "totalMinionsKilled"@, 5));
    }
    push_member(members, "totalMinionsKilled", Json::Int(total_minions_killed as i128));
    proof {
        reveal_strlit("totalMinionsKilled");
        reveal_strlit("totalTimeCCDealt");
        assert(key_lt_at("totalMinionsKilled"@, "totalTimeCCDealt"@, 5));
    }
    push_member(members, "totalTimeCCDealt", Json::Int(total_time_ccdealt as i128));
}

/// Appends the members `totalTimeSpentDead` to `unrealKills` of a participant's
/// object, after members whose names come before `totalTimeSpentDead`.
fn push_participant_part10(
    members: &mut Vec<(String, Json)>,
    total_time_spent_dead: i64,
    total_units_healed: i64,
    triple_kills: i64,
    true_damage_dealt: i64,
    true_damage_dealt_to_champions: i64,
    true_damage_taken: i64,
    turret_kills: i64,
    turret_takedowns: i64,
    turrets_lost: i64,
    unreal_kills: i64,
)
    requires
        old(members)@.len() > 0 ==> sorted_members(old(members)@) && key_lt(
            old(members)@.last().0@,
            "totalTimeSpentDead"@,
        ),
    ensures
        final(members)@.len() > 0,
        sorted_members(final(members)@),
        final(members)@.last().0@ == "unrealKills"@,
        forall|q: Seq<char>|
            find_member(old(members)@, q) is Some ==> #[trigger] find_member(final(members)@, q)
                == find_member(old(members)@, q),
        find_member(final(members)@, "totalTimeSpentDead"@) == Some(Json::Int(total_time_spent_dead as i128)),
        find_member(final(members)@, "totalUnitsHealed"@) == Some(Json::Int(total_units_healed as i128)),
        find_member(final(members)@, "tripleKills"@) == Some(Json::Int(triple_kills as i128)),
        find_member(final(members)@, "trueDamageDealt"@) == Some(Json::Int(true_damage_dealt as i128)),
        find_member(final(members)@, "trueDamageDealtToChampions"@) == Some(Json::Int(true_damage_dealt_to_champions as i128)),
        find_member(final(members)@, "trueDamageTaken"@) == Some(Json::Int(true_damage_taken as i128)),
        find_member(final(members)@, "turretKills"@) == Some(Json::Int(turret_kills as i128)),
        find_member(final(members)@, "turretTakedowns"@) == Some(Json::Int(turret_takedowns as i128)),
        find_member(final(members)@, "turretsLost"@) == Some(Json::Int(turrets_lost as i128)),
        find_member(final(members)@, "unrealKills"@) == Some(Json::Int(unreal_kills as i128)),
{
    push_member(members, "totalTimeSpentDead", Json::Int(total_time_spent_dead as i128));
    proof {
        reveal_strlit("totalTimeSpentDead");
        reveal_strlit("totalUnitsHealed");
        assert(key_lt_at("totalTimeSpentDead"@, "totalUnitsHealed"@, 5));
    }
    push_member(members, "totalUnitsHealed", Json::Int(total_units_healed as i128));
    proof {
        reveal_strlit("totalUnitsHealed");
        reveal_strlit("tripleKills");
        assert(key_lt_at("totalUnitsHealed"@, "tripleKills"@, 1));
    }
    push_member(members, "tripleKills", Json::Int(triple_kills as i128));
    proof {
        reveal_strlit("tripleKills");
        reveal_strlit("trueDamageDealt");
        assert(key_lt_at("tripleKills"@, "trueDamageDealt"@, 2));
    }
    push_member(members, "trueDamageDealt", Json::Int(true_damage_dealt as i128));
    proof {
        reveal_strlit("trueDamageDealt");
        reveal_strlit("trueDamageDealtToChampions");
        assert(key_lt_at("trueDamageDealt"@, "trueDamageDealtToChampions"@, 15));
    }
    push_member(members, "trueDamageDealtToChampions", Json::Int(true_damage_dealt_to_champions as i128));
    proof {
        reveal_strlit("trueDamageDealtToChampions");
        reveal_strlit("trueDamageTaken");
        assert(key_lt_at("trueDamageDealtToChampions"@, "trueDamageTaken"@, 10));
    }
    push_member(members, "trueDamageTaken", Json::Int(true_damage_taken as i128));
    proof {
        reveal_strlit("trueDamageTaken");
        reveal_strlit("turretKills");
        assert(key_lt_at("trueDamageTaken"@, "turretKills"@, 1));
    }
    push_member(members, "turretKills", Json::Int(turret_kills as i128));
    proof {
        reveal_strlit("turretKills");
        reveal_strlit("turretTakedowns");
        assert(key_lt_at("turretKills"@, "turretTakedowns"@, 6));
    }
    push_member(members, "turretTakedowns", Json::Int(turret_takedowns as i128));
    proof {
        reveal_strlit("turretTakedowns");
        reveal_strlit("turretsLost");
        assert(key_lt_at("turretTakedowns"@, "turretsLost"@, 6));
    }
    push_member(members, "turretsLost", Json::Int(turrets_lost as i128));
    proof {
        reveal_strlit("turretsLost");
        reveal_strlit("unrealKills");
        assert(key_lt_at("turretsLost"@, "unrealKills"@, 0));
    }
    push_member(members, "unrealKills", Json::Int(unreal_kills as i128));
}

/// Appends the members `visionScore` to `win` of a participant's
/// object, after members whose names come before `visionScore`.
fn push_participant_part11(
    members: &mut Vec<(String, Json)>,
    vision_score: i64,
    vision_wards_bought_in_game: i64,
    wards_killed: i64,
    wards_placed: i64,
    win: bool,
)
    requires
        old(members)@.len() > 0 ==> sorted_members(old(members)@) && key_lt(
            old(members)@.last().0@,
            "visionScore"@,
        ),
    ensures
        final(members)@.len() > 0,
        sorted_members(final(members)@),
        final(members)@.last().0@ == "win"@,
        forall|q: Seq<char>|
            find_member(old(members)@, q) is Some ==> #[trigger] find_member(final(members)@, q)
                == find_member(old(members)@, q),
        find_member(final(members)@, "visionScore"@) == Some(Json::Int(vision_score as i128)),
        find_member(final(members)@, "visionWardsBoughtInGame"@) == Some(Json::Int(vision_wards_bought_in_game as i128)),
        find_member(final(members)@, "wardsKilled"@) == Some(Json::Int(wards_killed as i128)),
        find_member(final(members)@, "wardsPlaced"@) == Some(Json::Int(wards_placed as i128)),
        find_member(final(members)@, "win"@) == Some(Json::Bool(win)),
{
    push_member(members, "visionScore", Json::Int(vision_score as i128));
    proof {
        reveal_strlit("visionScore");
        reveal_strlit("visionWardsBoughtInGame");
        assert(key_lt_at("visionScore"@, "visionWardsBoughtInGame"@, 6));
    }
    push_member(members, "visionWardsBoughtInGame", Json::Int(vision_wards_bought_in_game as i128));
    proof {
        reveal_strlit("visionWardsBoughtInGame");
        reveal_strlit("wardsKilled");
        assert(key_lt_at("visionWardsBoughtInGame"@, "wardsKilled"@, 0));
    }
    push_member(members, "wardsKilled", Json::Int(wards_killed as i128));
    proof {
        reveal_strlit("wardsKilled");
        reveal_strlit("wardsPlaced");
        assert(key_lt_at("wardsKilled"@, "wardsPlaced"@, 5));
    }
    push_member(members, "wardsPlaced", Json::Int(wards_placed as i128));
    proof {
        reveal_strlit("wardsPlaced");
        reveal_strlit("win");
        assert(key_lt_at("wardsPlaced"@, "win"@, 1));
    }
    push_member(members, "win", Json::Bool(win));
}

/// Appends the members `assists` to `lane` of a participant's
/// object, after members whose names come before `assists`.
fn push_participant_group1(
    members: &mut Vec<(String, Json)>,
    assists: i64,
    baron_kills: i64,
    bounty_level: i64,
    champ_experience: i64,
    champ_level: i64,
    champion_id: i64,
    champion_name: String,
    champion_transform: i64,
    consumables_purchased: i64,
    damage_dealt_to_buildings: i64,
    damage_dealt_to_objectives: i64,
    damage_dealt_to_turrets: i64,
    damage_self_mitigated: i64,
    deaths: i64,
    detector_wards_placed: i64,
    double_kills: i64,
    dragon_kills: i64,
    first_blood_assist: bool,
    first_blood_kill: bool,
    first_tower_assist: bool,
    first_tower_kill: bool,
    game_ended_in_early_surrender: bool,
    game_ended_in_surrender: bool,
    gold_earned: i64,
    gold_spent: i64,
    individual_position: String,
    inhibitor_kills: i64,
    inhibitor_takedowns: i64,
    inhibitors_lost: i64,
    item0: i64,
    item1: i64,
    item2: i64,
    item3: i64,
    item4: i64,
    item5: i64,
    item6: i64,
    items_purchased: i64,
    killing_sprees: i64,
    kills: i64,
    lane: String,
)
    requires
        old(members)@.len() > 0 ==> sorted_members(old(members)@) && key_lt(
            old(members)@.last().0@,
            "assists"@,
        ),
    ensures
        final(members)@.len() > 0,
        sorted_members(final(members)@),
        final(members)@.last().0@ == "lane"@,
        forall|q: Seq<char>|
            find_member(old(members)@, q) is Some ==> #[trigger] find_member(final(members)@, q)
                == find_member(old(members)@, q),
        find_member(final(members)@, "assists"@) == Some(Json::Int(assists as i128)),
        find_member(final(members)@, "baronKills"@) == Some(Json::Int(baron_kills as i128)),
        find_member(final(members)@, "bountyLevel"@) == Some(Json::Int(bounty_level as i128)),
        find_member(final(members)@, "champExperience"@) == Some(Json::Int(champ_experience as i128)),
        find_member(final(members)@, "champLevel"@) == Some(Json::Int(champ_level as i128)),
        find_member(final(members)@, "championId"@) == Some(Json::Int(champion_id as i128)),
        find_member(final(members)@, "championName"@) == Some(Json::Str(champion_name)),
        find_member(final(members)@, "championTransform"@) == Some(Json::Int(champion_transform as i128)),
        find_member(final(members)@, "consumablesPurchased"@) == Some(Json::Int(consumables_purchased as i128)),
        find_member(final(members)@, "damageDealtToBuildings"@) == Some(Json::Int(damage_dealt_to_buildings as i128)),
        find_member(final(members)@, "damageDealtToObjectives"@) == Some(Json::Int(damage_dealt_to_objectives as i128)),
        find_member(final(members)@, "damageDealtToTurrets"@) == Some(Json::Int(damage_dealt_to_turrets as i128)),
        find_member(final(members)@, "damageSelfMitigated"@) == Some(Json::Int(damage_self_mitigated as i128)),
        find_member(final(members)@, "deaths"@) == Some(Json::Int(deaths as i128)),
        find_member(final(members)@, "detectorWardsPlaced"@) == Some(Json::Int(detector_wards_placed as i128)),
        find_member(final(members)@, "doubleKills"@) == Some(Json::Int(double_kills as i128)),
        find_member(final(members)@, "dragonKills"@) == Some(Json::Int(dragon_kills as i128)),
        find_member(final(members)@, "firstBloodAssist"@) == Some(Json::Bool(first_blood_assist)),
        find_member(final(members)@, "firstBloodKill"@) == Some(Json::Bool(first_blood_kill)),
        find_member(final(members)@, "firstTowerAssist"@) == Some(Json::Bool(first_tower_assist)),
        find_member(final(members)@, "firstTowerKill"@) == Some(Json::Bool(first_tower_kill)),
        find_member(final(members)@, "gameEndedInEarlySurrender"@) == Some(Json::Bool(game_ended_in_early_surrender)),
        find_member(final(members)@, "gameEndedInSurrender"@) == Some(Json::Bool(game_ended_in_surrender)),
        find_member(final(members)@, "goldEarned"@) == Some(Json::Int(gold_earned as i128)),
        find_member(final(members)@, "goldSpent"@) == Some(Json::Int(gold_spent as i128)),
        find_member(final(members)@, "individualPosition"@) == Some(Json::Str(individual_position)),
        find_member(final(members)@, "inhibitorKills"@) == Some(Json::Int(inhibitor_kills as i128)),
        find_member(final(members)@, "inhibitorTakedowns"@) == Some(Json::Int(inhibitor_takedowns as i128)),
        find_member(final(members)@, "inhibitorsLost"@) == Some(Json::Int(inhibitors_lost as i128)),
        find_member(final(members)@, "item0"@) == Some(Json::Int(item0 as i128)),
        find_member(final(members)@, "item1"@) == Some(Json::Int(item1 as i128)),
        find_member(final(members)@, "item2"@) == Some(Json::Int(item2 as i128)),
        find_member(final(members)@, "item3"@) == Some(Json::Int(item3 as i128)),
        find_member(final(members)@, "item4"@) == Some(Json::Int(item4 as i128)),
        find_member(final(members)@, "item5"@) == Some(Json::Int(item5 as i128)),
        find_member(final(members)@, "item6"@) == Some(Json::Int(item6 as i128)),
        find_member(final(members)@, "itemsPurchased"@) == Some(Json::Int(items_purchased as i128)),
        find_member(final(members)@, "killingSprees"@) == Some(Json::Int(killing_sprees as i128)),
        find_member(final(members)@, "kills"@) == Some(Json::Int(kills as i128)),
        find_member(final(members)@, "lane"@) == Some(Json::Str(lane)),
{
    push_participant_part1(
        members,
        assists,
        baron_kills,
        bounty_level,
        champ_experience,
        champ_level,
        champion_id,
        champion_name,
        champion_transform,
        consumables_purchased,
        damage_dealt_to_buildings,
    );
    proof {
        reveal_strlit("damageDealtToBuildings");
        reveal_strlit("damageDealtToObjectives");
        assert(key_lt_at("damageDealtToBuildings"@, "damageDealtToObjectives"@, 13));
    }
    push_participant_part2(
        members,
        damage_dealt_to_objectives,
        damage_dealt_to_turrets,
        damage_self_mitigated,
        deaths,
        detector_wards_placed,
        double_kills,
        dragon_kills,
        first_blood_assist,
        first_blood_kill,
        first_tower_assist,
    );
    proof {
        reveal_strlit("firstTowerAssist");
        reveal_strlit("firstTowerKill");
        assert(key_lt_at("firstTowerAssist"@, "firstTowerKill"@, 10));
    }
    push_participant_part3(
        members,
        first_tower_kill,
        game_ended_in_early_surrender,
        game_ended_in_surrender,
        gold_earned,
        gold_spent,
        individual_position,
        inhibitor_kills,
        inhibitor_takedowns,
        inhibitors_lost,
        item0,
    );
    proof {
        reveal_strlit("item0");
        reveal_strlit("item1");
        assert(key_lt_at("item0"@, "item1"@, 4));
    }
    push_participant_part4(
        members,
        item1,
        item2,
        item3,
        item4,
        item5,
        item6,
        items_purchased,
        killing_sprees,
        kills,
        lane,
    );
}

/// Appends the members `largestCriticalStrike` to `teamPosition` of a participant's
/// object, after members whose names come before `largestCriticalStrike`.
fn push_participant_group2(
    members: &mut Vec<(String, Json)>,
    largest_critical_strike: i64,
    largest_killing_spree: i64,
    largest_multi_kill: i64,
    longest_time_spent_living: i64,
    magic_damage_dealt: i64,
    magic_damage_dealt_to_champions: i64,
    magic_damage_taken: i64,
    neutral_minions_killed: i64,
    nexus_kills: i64,
    nexus_lost: i64,
    nexus_takedowns: i64,
    objectives_stolen: i64,
    objectives_stolen_assists: i64,
    participant_id: i64,
    penta_kills: i64,
    perks: Perks,
    physical_damage_dealt: i64,
    physical_damage_dealt_to_champions: i64,
    physical_damage_taken: i64,
    profile_icon: i64,
    puuid: String,
    quadra_kills: i64,
    riot_id_name: String,
    riot_id_tagline: String,
    role: String,
    sight_wards_bought_in_game: i64,
    spell1casts: i64,
    spell2casts: i64,
    spell3casts: i64,
    spell4casts: i64,
    summoner1casts: i64,
    summoner1id: i64,
    summoner2casts: i64,
    summoner2id: i64,
    summoner_id: String,
    summoner_level: i64,
    summoner_name: String,
    team_early_surrendered: bool,
    team_id: i64,
    team_position: String,
)
    requires
        old(members)@.len() > 0 ==> sorted_members(old(members)@) && key_lt(
            old(members)@.last().0@,
            "largestCriticalStrike"@,
        ),
    ensures
        final(members)@.len() > 0,
        sorted_members(final(members)@),
        final(members)@.last().0@ == "teamPosition"@,
        forall|q: Seq<char>|
            find_member(old(members)@, q) is Some ==> #[trigger] find_member(final(members)@, q)
                == find_member(old(members)@, q),
        find_member(final(members)@, "largestCriticalStrike"@) == Some(Json::Int(largest_critical_strike as i128)),
        find_member(final(members)@, "largestKillingSpree"@) == Some(Json::Int(largest_killing_spree as i128)),
        find_member(final(members)@, "largestMultiKill"@) == Some(Json::Int(largest_multi_kill as i128)),
        find_member(final(members)@, "longestTimeSpentLiving"@) == Some(Json::Int(longest_time_spent_living as i128)),
        find_member(final(members)@, "magicDamageDealt"@) == Some(Json::Int(magic_damage_dealt as i128)),
        find_member(final(members)@, "magicDamageDealtToChampions"@) == Some(Json::Int(magic_damage_dealt_to_champions as i128)),
        find_member(final(members)@, "magicDamageTaken"@) == Some(Json::Int(magic_damage_taken as i128)),
        find_member(final(members)@, "neutralMinionsKilled"@) == Some(Json::Int(neutral_minions_killed as i128)),
        find_member(final(members)@, "nexusKills"@) == Some(Json::Int(nexus_kills as i128)),
        find_member(final(members)@, "nexusLost"@) == Some(Json::Int(nexus_lost as i128)),
        find_member(final(members)@, "nexusTakedowns"@) == Some(Json::Int(nexus_takedowns as i128)),
        find_member(final(members)@, "objectivesStolen"@) == Some(Json::Int(objectives_stolen as i128)),
        find_member(final(members)@, "objectivesStolenAssists"@) == Some(Json::Int(objectives_stolen_assists as i128)),
        find_member(final(members)@, "participantId"@) == Some(Json::Int(participant_id as i128)),
        find_member(final(members)@, "pentaKills"@) == Some(Json::Int(penta_kills as i128)),
        find_member(final(members)@, "perks"@) matches Some(v) && Perks::json_valid(v) && perks.json_matches(v),
        find_member(final(members)@, "physicalDamageDealt"@) == Some(Json::Int(physical_damage_dealt as i128)),
        find_member(final(members)@, "physicalDamageDealtToChampions"@) == Some(Json::Int(physical_damage_dealt_to_champions as i128)),
        find_member(final(members)@, "physicalDamageTaken"@) == Some(Json::Int(physical_damage_taken as i128)),
        find_member(final(members)@, "profileIcon"@) == Some(Json::Int(profile_icon as i128)),
        find_member(final(members)@, "puuid"@) == Some(Json::Str(puuid)),
        find_member(final(members)@, "quadraKills"@) == Some(Json::Int(quadra_kills as i128)),
        find_member(final(members)@, "riotIdName"@) == Some(Json::Str(riot_id_name)),
        find_member(final(members)@, "riotIdTagline"@) == Some(Json::Str(riot_id_tagline)),
        find_member(final(members)@, "role"@) == Some(Json::Str(role)),
        find_member(final(members)@, "sightWardsBoughtInGame"@) == Some(Json::Int(sight_wards_bought_in_game as i128)),
        find_member(final(members)@, "spell1Casts"@) == Some(Json::Int(spell1casts as i128)),
        find_member(final(members)@, "spell2Casts"@) == Some(Json::Int(spell2casts as i128)),
        find_member(final(members)@, "spell3Casts"@) == Some(Json::Int(spell3casts as i128)),
        find_member(final(members)@, "spell4Casts"@) == Some(Json::Int(spell4casts as i128)),
        find_member(final(members)@, "summoner1Casts"@) == Some(Json::Int(summoner1casts as i128)),
        find_member(final(members)@, "summoner1Id"@) == Some(Json::Int(summoner1id as i128)),
        find_member(final(members)@, "summoner2Casts"@) == Some(Json::Int(summoner2casts as i128)),
        find_member(final(members)@, "summoner2Id"@) == Some(Json::Int(summoner2id as i128)),
        find_member(final(members)@, "summonerId"@) == Some(Json::Str(summoner_id)),
        find_member(final(members)@, "summonerLevel"@) == Some(Json::Int(summoner_level as i128)),
        find_member(final(members)@, "summonerName"@) == Some(Json::Str(summoner_name)),
        find_member(final(members)@, "teamEarlySurrendered"@) == Some(Json::Bool(team_early_surrendered)),
        find_member(final(members)@, "teamId"@) == Some(Json::Int(team_id as i128)),
        find_member(final(members)@, "teamPosition"@) == Some(Json::Str(team_position)),
{
    push_participant_part5(
        members,
        largest_critical_strike,
        largest_killing_spree,
        largest_multi_kill,
        longest_time_spent_living,
        magic_damage_dealt,
        magic_damage_dealt_to_champions,
        magic_damage_taken,
        neutral_minions_killed,
        nexus_kills,
        nexus_lost,
    );
    proof {
        reveal_strlit("nexusLost");
        reveal_strlit("nexusTakedowns");
        assert(key_lt_at("nexusLost"@, "nexusTakedowns"@, 5));
    }
    push_participant_part6(
        members,
        nexus_takedowns,
        objectives_stolen,
        objectives_stolen_assists,
        participant_id,
        penta_kills,
        perks,
        physical_damage_dealt,
        physical_damage_dealt_to_champions,
        physical_damage_taken,
        profile_icon,
    );
    proof {
        reveal_strlit("profileIcon");
        reveal_strlit("puuid");
        assert(key_lt_at("profileIcon"@, "puuid"@, 1));
    }
    push_participant_part7(
        members,
        puuid,
        quadra_kills,
        riot_id_name,
        riot_id_tagline,
        role,
        sight_wards_bought_in_game,
        spell1casts,
        spell2casts,
        spell3casts,
        spell4casts,
    );
    proof {
        reveal_strlit("spell4Casts");
        reveal_strlit("summoner1Casts");
        assert(key_lt_at("spell4Casts"@, "summoner1Casts"@, 1));
    }
    push_participant_part8(
        members,
        summoner1casts,
        summoner1id,
        summoner2casts,
        summoner2id,
        summoner_id,
        summoner_level,
        summoner_name,
        team_early_surrendered,
        team_id,
        team_position,
    );
}

/// Appends the members `timeCCingOthers` to `win` of a participant's
/// object, after members whose names come before `timeCCingOthers`.
fn push_participant_group3(
    members: &mut Vec<(String, Json)>,
    time_ccing_others: i64,
    time_played: i64,
    total_damage_dealt: i64,
    total_damage_dealt_to_champions: i64,
    total_damage_shielded_on_teammates: i64,
    total_damage_taken: i64,
    total_heal: i64,
    total_heals_on_teammates: i64,
    total_minions_killed: i64,
    total_time_ccdealt: i64,
    total_time_spent_dead: i64,
    total_units_healed: i64,
    triple_kills: i64,
    true_damage_dealt: i64,
    true_damage_dealt_to_champions: i64,
    true_damage_taken: i64,
    turret_kills: i64,
    turret_takedowns: i64,
    turrets_lost: i64,
    unreal_kills: i64,
    vision_score: i64,
    vision_wards_bought_in_game: i64,
    wards_killed: i64,
    wards_placed: i64,
    win: bool,
)
    requires
        old(members)@.len() > 0 ==> sorted_members(old(members)@) && key_lt(
            old(members)@.last().0@,
            "timeCCingOthers"@,
        ),
    ensures
        final(members)@.len() > 0,
        sorted_members(final(members)@),
        final(members)@.last().0@ == "win"@,
        forall|q: Seq<char>|
            find_member(old(members)@, q) is Some ==> #[trigger] find_member(final(members)@, q)
                == find_member(old(members)@, q),
        find_member(final(members)@, "timeCCingOthers"@) == Some(Json::Int(time_ccing_others as i128)),
        find_member(final(members)@, "timePlayed"@) == Some(Json::Int(time_played as i128)),
        find_member(final(members)@, "totalDamageDealt"@) == Some(Json::Int(total_damage_dealt as i128)),
        find_member(final(members)@, "totalDamageDealtToChampions"@) == Some(Json::Int(total_damage_dealt_to_champions as i128)),
        find_member(final(members)@, "totalDamageShieldedOnTeammates"@) == Some(Json::Int(total_damage_shielded_on_teammates as i128)),
        find_member(final(members)@, "totalDamageTaken"@) == Some(Json::Int(total_damage_taken as i128)),
        find_member(final(members)@, "totalHeal"@) == Some(Json::Int(total_heal as i128)),
        find_member(final(members)@, "totalHealsOnTeammates"@) == Some(Json::Int(total_heals_on_teammates as i128)),
        find_member(final(members)@, "totalMinionsKilled"@) == Some(Json::Int(total_minions_killed as i128)),
        find_member(final(members)@, "totalTimeCCDealt"@) == Some(Json::Int(total_time_ccdealt as i128)),
        find_member(final(members)@, "totalTimeSpentDead"@) == Some(Json::Int(total_time_spent_dead as i128)),
        find_member(final(members)@, "totalUnitsHealed"@) == Some(Json::Int(total_units_healed as i128)),
        find_member(final(members)@, "tripleKills"@) == Some(Json::Int(triple_kills as i128)),
        find_member(final(members)@, "trueDamageDealt"@) == Some(Json::Int(true_damage_dealt as i128)),
        find_member(final(members)@, "trueDamageDealtToChampions"@) == Some(Json::Int(true_damage_dealt_to_champions as i128)),
        find_member(final(members)@, "trueDamageTaken"@) == Some(Json::Int(true_damage_taken as i128)),
        find_member(final(members)@, "turretKills"@) == Some(Json::Int(turret_kills as i128)),
        find_member(final(members)@, "turretTakedowns"@) == Some(Json::Int(turret_takedowns as i128)),
        find_member(final(members)@, "turretsLost"@) == Some(Json::Int(turrets_lost as i128)),
        find_member(final(members)@, "unrealKills"@) == Some(Json::Int(unreal_kills as i128)),
        find_member(final(members)@, "visionScore"@) == Some(Json::Int(vision_score as i128)),
        find_member(final(members)@, "visionWardsBoughtInGame"@) == Some(Json::Int(vision_wards_bought_in_game as i128)),
        find_member(final(members)@, "wardsKilled"@) == Some(Json::Int(wards_killed as i128)),
        find_member(final(members)@, "wardsPlaced"@) == Some(Json::Int(wards_placed as i128)),
        find_member(final(members)@, "win"@) == Some(Json::Bool(win)),
{
    push_participant_part9(
        members,
        time_ccing_others,
        time_played,
        total_damage_dealt,
        total_damage_dealt_to_champions,
        total_damage_shielded_on_teammates,
        total_damage_taken,
        total_heal,
        total_heals_on_teammates,
        total_minions_killed,
        total_time_ccdealt,
    );
    proof {
        reveal_strlit("totalTimeCCDealt");
        reveal_strlit("totalTimeSpentDead");
        assert(key_lt_at("totalTimeCCDealt"@, "totalTimeSpentDead"@, 9));
    }
    push_participant_part10(
        members,
        total_time_spent_dead,
        total_units_healed,
        triple_kills,
        true_damage_dealt,
        true_damage_dealt_to_champions,
        true_damage_taken,
        turret_kills,
        turret_takedowns,
        turrets_lost,
        unreal_kills,
    );
    proof {
        reveal_strlit("unrealKills");
        reveal_strlit("visionScore");
        assert(key_lt_at("unrealKills"@, "visionScore"@, 0));
    }
    push_participant_part11(
        members,
        vision_score,
        vision_wards_bought_in_game,
        wards_killed,
        wards_placed,
        win,
    );
}

impl Participant {
    /// This value as a JSON object under the API's keys; it decodes back
    /// to a value with the same fields.
    #[verifier::spinoff_prover]
    #[verifier::rlimit(100)]
    pub fn into_json(self) -> (r: Json)
        ensures
            r is Obj,
            Participant::json_valid(r),
            self.json_matches(r),
    {
        proof {
            reveal(Participant::json_valid);
            reveal(Participant::json_matches);
        }
        let Participant {
            assists,
            baron_kills,
            bounty_level,
            champ_experience,
            champ_level,
            champion_id,
            champion_name,
            champion_transform,
            consumables_purchased,
            damage_dealt_to_buildings,
            damage_dealt_to_objectives,
            damage_dealt_to_turrets,
            damage_self_mitigated,
            deaths,
            detector_wards_placed,
            double_kills,
            dragon_kills,
            first_blood_assist,
            first_blood_kill,
            first_tower_assist,
            first_tower_kill,
            game_ended_in_early_surrender,
            game_ended_in_surrender,
            gold_earned,
            gold_spent,
            individual_position,
            inhibitor_kills,
            inhibitor_takedowns,
            inhibitors_lost,
            item0,
            item1,
            item2,
            item3,
            item4,
            item5,
            item6,
            items_purchased,
            killing_sprees,
            kills,
            lane,
            largest_critical_strike,
            largest_killing_spree,
            largest_multi_kill,
            longest_time_spent_living,
            magic_damage_dealt,
            magic_damage_dealt_to_champions,
            magic_damage_taken,
            neutral_minions_killed,
            nexus_kills,
            nexus_lost,
            nexus_takedowns,
            objectives_stolen,
            objectives_stolen_assists,
            participant_id,
            penta_kills,
            perks,
            physical_damage_dealt,
            physical_damage_dealt_to_champions,
            physical_damage_taken,
            profile_icon,
            puuid,
            quadra_kills,
            riot_id_name,
            riot_id_tagline,
            role,
            sight_wards_bought_in_game,
            spell1casts,
            spell2casts,
            spell3casts,
            spell4casts,
            summoner1casts,
            summoner1id,
            summoner2casts,
            summoner2id,
            summoner_id,
            summoner_level,
            summoner_name,
            team_early_surrendered,
            team_id,
            team_position,
            time_ccing_others,
            time_played,
            total_damage_dealt,
            total_damage_dealt_to_champions,
            total_damage_shielded_on_teammates,
            total_damage_taken,
            total_heal,
            total_heals_on_teammates,
            total_minions_killed,
            total_time_ccdealt,
            total_time_spent_dead,
            total_units_healed,
            triple_kills,
            true_damage_dealt,
            true_damage_dealt_to_champions,
            true_damage_taken,
            turret_kills,
            turret_takedowns,
            turrets_lost,
            unreal_kills,
            vision_score,
            vision_wards_bought_in_game,
            wards_killed,
            wards_placed,
            win,
        } = self;
        let mut members: Vec<(String, Json)> = Vec::new();
        push_participant_group1(
            &mut members,
            assists,
            baron_kills,
            bounty_level,
            champ_experience,
            champ_level,
            champion_id,
            champion_name,
            champion_transform,
            consumables_purchased,
            damage_dealt_to_buildings,
            damage_dealt_to_objectives,
            damage_dealt_to_turrets,
            damage_self_mitigated,
            deaths,
            detector_wards_placed,
            double_kills,
            dragon_kills,
            first_blood_assist,
            first_blood_kill,
            first_tower_assist,
            first_tower_kill,
            game_ended_in_early_surrender,
            game_ended_in_surrender,
            gold_earned,
            gold_spent,
            individual_position,
            inhibitor_kills,
            inhibitor_takedowns,
            inhibitors_lost,
            item0,
            item1,
            item2,
            item3,
            item4,
            item5,
            item6,
            items_purchased,
            killing_sprees,
            kills,
            lane,
        );
        proof {
            reveal_strlit("lane");
            reveal_strlit("largestCriticalStrike");
            assert(key_lt_at("lane"@, "largestCriticalStrike"@, 2));
        }
        push_participant_group2(
            &mut members,
            largest_critical_strike,
            largest_killing_spree,
            largest_multi_kill,
            longest_time_spent_living,
            magic_damage_dealt,
            magic_damage_dealt_to_champions,
            magic_damage_taken,
            neutral_minions_killed,
            nexus_kills,
            nexus_lost,
            nexus_takedowns,
            objectives_stolen,
            objectives_stolen_assists,
            participant_id,
            penta_kills,
            perks,
            physical_damage_dealt,
            physical_damage_dealt_to_champions,
            physical_damage_taken,
            profile_icon,
            puuid,
            quadra_kills,
            riot_id_name,
            riot_id_tagline,
            role,
            sight_wards_bought_in_game,
            spell1casts,
            spell2casts,
            spell3casts,
            spell4casts,
            summoner1casts,
            summoner1id,
            summoner2casts,
            summoner2id,
            summoner_id,
            summoner_level,
            summoner_name,
            team_early_surrendered,
            team_id,
            team_position,
        );
        proof {
            reveal_strlit("teamPosition");
            reveal_strlit("timeCCingOthers");
            assert(key_lt_at("teamPosition"@, "timeCCingOthers"@, 1));
        }
        push_participant_group3(
            &mut members,
            time_ccing_others,
            time_played,
            total_damage_dealt,
            total_damage_dealt_to_champions,
            total_damage_shielded_on_teammates,
            total_damage_taken,
            total_heal,
            total_heals_on_teammates,
            total_minions_killed,
            total_time_ccdealt,
            total_time_spent_dead,
            total_units_healed,
            triple_kills,
            true_damage_dealt,
            true_damage_dealt_to_champions,
            true_damage_taken,
            turret_kills,
            turret_takedowns,
            turrets_lost,
            unreal_kills,
            vision_score,
            vision_wards_bought_in_game,
            wards_killed,
            wards_placed,
            win,
        );
        Json::Obj(members)
    }

    /// Each element of `v` as JSON, in order.
    pub fn list_into_json(v: Vec<Participant>) -> (r: Vec<Json>)
        ensures
            Participant::list_valid(r@),
            Participant::list_matches(v@, r@),
    {
        let ghost whole = v@;
        let mut rest = v;
        let mut out: Vec<Json> = Vec::new();
        while rest.len() > 0
            invariant
                whole == v@,
                out@.len() <= whole.len(),
                rest@ == whole.subrange(out@.len() as int, whole.len() as int),
                forall|k: int| 0 <= k < out@.len() ==> #[trigger] Participant::json_valid(out@[k]),
                forall|k: int| 0 <= k < out@.len() ==> (#[trigger] whole[k]).json_matches(out@[k]),
            decreases rest@.len(),
        {
            let ghost at = out@.len() as int;
            let x = rest.remove(0);
            assert(x == whole[at]);
            out.push(x.into_json());
            assert(rest@ =~= whole.subrange(out@.len() as int, whole.len() as int));
        }
        out
    }
}

impl Info {
    /// This value as a JSON object under the API's keys; it decodes back
    /// to a value with the same fields.
    pub fn into_json(self) -> (r: Json)
        ensures
            r is Obj,
            Info::json_valid(r),
            self.json_matches(r),
    {
        proof {
            reveal(Info::json_valid);
            reveal(Info::json_matches);
        }
        let Info {
            game_creation,
            game_duration,
            game_end_timestamp,
            game_id,
            game_mode,
            game_name,
            game_start_timestamp,
            game_type,
            game_version,
            map_id,
            participants,
            platform_id,
            queue_id,
            teams,
            tournament_code,
        } = self;
        let mut members: Vec<(String, Json)> = Vec::new();
        push_member(&mut members, "gameCreation", Json::Int(game_creation as i128));
        proof {
            reveal_strlit("gameCreation");
            reveal_strlit("gameDuration");
            assert(key_lt_at("gameCreation"@, "gameDuration"@, 4));
        }
        push_member(&mut members, "gameDuration", Json::Int(game_duration as i128));
        proof {
            reveal_strlit("gameDuration");
            reveal_strlit("gameEndTimestamp");
            assert(key_lt_at("gameDuration"@, "gameEndTimestamp"@, 4));
        }
        push_member(&mut members, "gameEndTimestamp", Json::Int(game_end_timestamp as i128));
        proof {
            reveal_strlit("gameEndTimestamp");
            reveal_strlit("gameId");
            assert(key_lt_at("gameEndTimestamp"@, "gameId"@, 4));
        }
        push_member(&mut members, "gameId", Json::Int(game_id as i128));
        proof {
            reveal_strlit("gameId");
            reveal_strlit("gameMode");
            assert(key_lt_at("gameId"@, "gameMode"@, 4));
        }
        push_member(&mut members, "gameMode", Json::Str(game_mode));
        proof {
            reveal_strlit("gameMode");
            reveal_strlit("gameName");
            assert(key_lt_at("gameMode"@, "gameName"@, 4));
        }
        push_member(&mut members, "gameName", Json::Str(game_name));
        proof {
            reveal_strlit("gameName");
            reveal_strlit("gameStartTimestamp");
            assert(key_lt_at("gameName"@, "gameStartTimestamp"@, 4));
        }
        push_member(&mut members, "gameStartTimestamp", Json::Int(game_start_timestamp as i128));
        proof {
            reveal_strlit("gameStartTimestamp");
            reveal_strlit("gameType");
            assert(key_lt_at("gameStartTimestamp"@, "gameType"@, 4));
        }
        push_member(&mut members, "gameType", Json::Str(game_type));
        proof {
            reveal_strlit("gameType");
            reveal_strlit("gameVersion");
            assert(key_lt_at("gameType"@, "gameVersion"@, 4));
        }
        push_member(&mut members, "gameVersion", Json::Str(game_version));
        proof {
            reveal_strlit("gameVersion");
            reveal_strlit("mapId");
            assert(key_lt_at("gameVersion"@, "mapId"@, 0));
        }
        push_member(&mut members, "mapId", Json::Int(map_id as i128));
        proof {
            reveal_strlit("mapId");
            reveal_strlit("participants");
            assert(key_lt_at("mapId"@, "participants"@, 0));
        }
        push_member(&mut members, "participants", Json::Arr(Participant::list_into_json(participants)));
        proof {
            reveal_strlit("participants");
            reveal_strlit("platformId");
            assert(key_lt_at("participants"@, "platformId"@, 1));
        }
        push_member(&mut members, "platformId", Json::Str(platform_id));
        proof {
            reveal_strlit("platformId");
            reveal_strlit("queueId");
            assert(key_lt_at("platformId"@, "queueId"@, 0));
        }
        push_member(&mut members, "queueId", Json::Int(queue_id as i128));
        proof {
            reveal_strlit("queueId");
            reveal_strlit("teams");
            assert(key_lt_at("queueId"@, "teams"@, 0));
        }
        push_member(&mut members, "teams", Json::Arr(Team::list_into_json(teams)));
        proof {
            reveal_strlit("teams");
            reveal_strlit("tournamentCode");
            assert(key_lt_at("teams"@, "tournamentCode"@, 1));
        }
        push_member(&mut members, "tournamentCode", Json::Str(tournament_code));
        Json::Obj(members)
    }
}

impl MatchInfo {
    /// This value as a JSON object under the API's keys; it decodes back
    /// to a value with the same fields.
    pub fn into_json(self) -> (r: Json)
        ensures
            r is Obj,
            MatchInfo::json_valid(r),
            self.json_matches(r),
    {
        proof {
            reveal(MatchInfo::json_valid);
            reveal(MatchInfo::json_matches);
        }
        let MatchInfo {
            metadata,
            info,
        } = self;
        let mut members: Vec<(String, Json)> = Vec::new();
        push_member(&mut members, "info", info.into_json());
        proof {
            reveal_strlit("info");
            reveal_strlit("metadata");
            assert(key_lt_at("info"@, "metadata"@, 0));
        }
        push_member(&mut members, "metadata", metadata.into_json());
        Json::Obj(members)
    }
}

} // verus!
