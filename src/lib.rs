//! Image-search index over CLIP embeddings: an ordered embedding store, ranking of
//! scored entries, the indexer's decisions, model configurations, and the plain-value
//! option and enum types of the HEIF codec interface.
use vstd::prelude::*;

pub mod color_profile;
pub mod config;
pub mod decoding;
pub mod encoding;
pub mod heif;
pub mod heif_enums;
pub mod heif_error;
pub mod index;
pub mod keys;
pub mod query;
pub mod ranking;
pub mod reader;
pub mod store;

verus! {

} // verus!
