//! A daemon's models, decided on and ranked.
//!
//! - [`models`]: the model manager, which loads an embedder, a reranker and
//!   semantic index pairs when they are first needed, with [`laws`], what holds of
//!   it across its operations, and [`calls`], what goes into its calls and what
//!   comes out of them;
//! - [`semantic`], [`pair_cache`] and [`ann`]: the steps of a semantic search, the
//!   cache of opened index pairs, and the indices themselves;
//! - [`ranking`] and [`score`]: from raw hits to one result per message;
//! - [`daemon_embedder`]: an embedder whose work is done by a daemon;
//! - [`error`], [`path`] and [`text`]: what the others share.

pub mod ann;
pub mod calls;
pub mod daemon_embedder;
pub mod error;
pub mod laws;
pub mod models;
pub mod pair_cache;
pub mod path;
pub mod ranking;
pub mod score;
pub mod semantic;
pub mod text;
