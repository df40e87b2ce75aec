//! Personal-best reconciliation for rhythm-game score submissions.

pub mod auth;
pub mod batch;
pub mod catalog;
pub mod clock;
pub mod compare;
pub mod encode;
pub mod error;
pub mod export;
pub mod normalize;
pub mod pointers;
pub mod reconcile;
pub mod select;
pub mod songs;
pub mod text;
pub mod vocab;

pub use error::{ApiError, ApiResult};
pub use vocab::{ClearKind, ClearRank, Difficulty};
