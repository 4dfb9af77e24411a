//! Update coordination for the Intiface desktop application.
//!
//! The library decides; the host performs. The host reads files, talks to the release
//! sources and writes what was downloaded; it hands what it observed to the
//! [`UpdateManager`], which keeps the update status and says what is to be done next.
use vstd::prelude::*;

pub mod archive;
pub mod intiface_configuration;
pub mod release;
pub mod update_manager;
pub mod util;
pub mod version;

pub use intiface_configuration::IntifaceConfiguration;
pub use update_manager::{UpdateError, UpdateManager, UpdateStatus};

verus! {

/// The application's state: its configuration and its update manager.
pub struct AppCore {
    pub config: IntifaceConfiguration,
    pub update_manager: UpdateManager,
}

impl Default for AppCore {
    fn default() -> (core: Self)
        ensures
            core.config.is_default(),
            core.update_manager@ == UpdateStatus::initial(),
    {
        AppCore {
            config: IntifaceConfiguration::default(),
            update_manager: UpdateManager::default(),
        }
    }
}

} // verus!
