//! Release resolution and self-update decisions for a desktop application.
//!
//! The library decides; the host performs the network, file and process work
//! and hands the outcomes back as plain values.
pub mod cache;
pub mod release;
pub mod resolver;
pub mod text;
pub mod update;
pub mod version;
