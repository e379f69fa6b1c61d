//! What the two endpoints answer.

pub mod assets;
pub mod games;

pub use assets::{get_assets_by_id, FetchAssetsQuery};
pub use games::{search_games, SearchGamesQuery};
