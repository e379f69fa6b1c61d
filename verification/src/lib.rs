//! Game-art lookup backend: pagination of catalog search results and
//! best-effort, bounded fan-out enrichment of game records with image URLs.

pub mod enrichment;
pub mod global_state;
pub mod model;
pub mod pagination;
pub mod routes;
pub mod services;
pub mod text;

pub use global_state::GlobalState;
pub use model::steamgriddb_models;
pub use model::{Asset, AssetList, Game, GameList, Response};
pub use services::steamgriddb_service::SteamgriddbService;
