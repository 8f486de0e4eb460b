//! The records that the Steam Web API answers with, as the library reads
//! them.
pub mod i_player_service;
pub mod i_steam_user_stats;
