//! Contains all functionalities around games

pub mod library;
pub mod news;
pub mod stats;

pub use library::{Game, Library, OwnedGames};
pub use news::{GameNews, News};
pub use stats::{Achievement, PlayerStats, Stat};
