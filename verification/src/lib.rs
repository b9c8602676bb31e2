//! Snowprints: 64-bit, time-sortable identifiers minted without coordination.
//!
//! An identifier packs three fields, most significant first: 41 bits of
//! milliseconds elapsed since an origin, 13 bits of logical volume (shard) and
//! 10 bits of sequence. [`codec`] packs and unpacks the fields; [`generator`]
//! owns the settings and the state of one generator and advances the state on
//! each request; [`clock`] reads the system clock for it; [`order`] proves
//! that the identifiers of one generator come sorted by time and never twice.

pub mod clock;
pub mod codec;
pub mod generator;
pub mod order;

pub use crate::clock::get_most_recent_duration_ms;
pub use crate::codec::{compose_snowprint, decompose_snowprint};
pub use crate::generator::{
    check_settings, compose_snowprint_from_settings_and_state, modify_state_time_changed,
    modify_state_time_did_not_change, Error, Settings, Snowprint, SnowprintState,
};
