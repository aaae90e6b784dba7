//! Command-line option and configuration layer for the Kaleidoscope wallet
//! utility: the recognized options with their defaults, the resolution of
//! flag, environment and default values, and the runtime configuration
//! record derived from them.

pub mod config;
pub mod network;
