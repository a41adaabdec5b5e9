//! Motion-sensor ingestion: decoding of platform sensor records, bounded
//! debounced and smoothed per-sensor histories, and the bookkeeping that drives
//! sensor enabling and dead-reckoning integration.
pub mod event;
pub mod decode;
pub mod series;
pub mod store;
pub mod state;
pub mod binding;
