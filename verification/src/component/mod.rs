pub mod media_player;
pub mod movie_player;
pub mod play_status;
