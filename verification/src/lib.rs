//! Host-side plugin loader: unpacks a packaged archive, validates and parses
//! its manifest, binds the contained dynamic module into the host process and
//! exposes a lifecycle-gated lookup surface for the module's exports.

pub mod error;
pub mod manifest;
pub mod paths;
pub mod plugin;

pub use error::VPluginError;
pub use manifest::PluginMetadata;
pub use plugin::Plugin;
