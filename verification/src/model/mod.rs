//! The data carried between the catalog, the enrichment engine and the
//! HTTP surface.

pub mod asset;
pub mod error;
pub mod game;
pub mod kind;
pub mod response;
pub mod steamgriddb_models;

pub use asset::{Asset, AssetList};
pub use error::{Rejection, UpstreamError};
pub use game::{Game, GameList, GameView, SearchHit};
pub use kind::Kind;
pub use response::Response;
