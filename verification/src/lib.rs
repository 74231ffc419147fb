pub mod audio;
pub mod chapters;
pub mod events;
pub mod laws;
pub mod models;
pub mod player;
pub mod queue;
pub mod setup;
pub mod sql;
pub mod state;
pub mod text;
pub mod theme;
pub mod thumbnail;
pub mod view;
pub mod ytdlp;
