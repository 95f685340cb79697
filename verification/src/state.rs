//! The app server's shared state.

use std::sync::Arc;

use vstd::prelude::*;

use crate::client::ModelClient;
use crate::config::WireApi;

verus! {

/// What every request of the app server shares: the model client, the
/// system prompt of each turn, and the wire protocol to use.
#[derive(Clone)]
pub struct AppState {
    pub client: Arc<ModelClient>,
    pub system_prompt: String,
    pub wire_api: WireApi,
}

} // verus!
