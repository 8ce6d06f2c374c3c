//! Persistent state layer of a perpetual-futures margin engine.
//!
//! Four components share one explicit store handle: the global
//! configuration record, the registry of authorized vamms, the
//! content-addressed position records keyed by a SHA3-256 digest of the
//! (vamm, trader) pair, and the single tentative-position slot used for
//! prepare/commit updates.  Every operation carries a contract over a
//! mathematical view of the store, and the laws the layer obeys are
//! stated and proved beside it.

mod addr;
mod config;
mod digest;
mod error;
mod laws;
mod position;
mod store;
mod vamm;

pub use addr::{addr_views, Addr};
pub use config::{Config, ConfigView};
pub use digest::{position_key, sha3_256_of, spec_position_key};
pub use error::StdError;
pub use laws::{
    lemma_clear_empty, lemma_clear_peek, lemma_config_round_trip, lemma_load_absent,
    lemma_position_round_trip, lemma_registered_iff, lemma_stage_peek,
    lemma_store_position_frame, lemma_vamm_round_trip,
};
pub use position::{default_position, Direction, Position, PositionView};
pub use store::{
    empty_store, read_config, read_position, read_tmp_position, read_vamm, remove_tmp_position,
    spec_clear, spec_load_position, spec_peek, spec_read_config, spec_read_vamms, spec_stage,
    spec_store_config, spec_store_position, spec_store_vamms, store_config, store_position,
    store_tmp_position, store_vamm, EngineStore, StoreView,
};
pub use vamm::{all_valid, map_validate, valid_addrs, VammList};
