//! The two endpoint families: Match-V5 and Summoner-V4.
pub mod match_v5;
pub mod summoner_v4;
