//! A verified core for a minimal model-client / app-server pipeline: the
//! prompt and wire types, the requests a model client sends, the decisions
//! of the two SSE pumps, the configuration's resolution, and the app
//! server's relay of a turn.

pub mod client;
pub mod config;
pub mod json;
pub mod laws;
pub mod laws_content;
pub mod protocol;
pub mod sse;
pub mod state;
pub mod text;
pub mod transport;
pub mod types;
