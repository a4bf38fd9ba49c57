//! State core of a desktop application shell: a collapsible side panel whose
//! items open and close one at a time, and a broadcast channel that hands the
//! latest configuration snapshot to any number of readers.

pub mod config_channel;
pub mod sidebar;

use config_channel::{ConfigReader, ConfigWriter};
use std::sync::Arc;
use vstd::prelude::*;

verus! {

/// What the application shell hands to its parts: the one writer of the
/// settings channel, a reader of it (cloned with `subscribe` for each
/// consumer), and shared handles to the language registry, the theme registry,
/// the remote client and the file system. Each handle lives as long as its
/// longest holder.
#[verifier::reject_recursive_types(S)]
pub struct AppState<S, Languages, Themes, Rpc, Fs: ?Sized> {
    pub settings_tx: Arc<ConfigWriter<S>>,
    pub settings: ConfigReader<S>,
    pub languages: Arc<Languages>,
    pub themes: Arc<Themes>,
    pub rpc: Arc<Rpc>,
    pub fs: Arc<Fs>,
}

} // verus!
