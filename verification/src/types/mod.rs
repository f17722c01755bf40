pub mod game_type;
pub mod gamemode;
pub mod lobby_type;
pub mod server_type;
