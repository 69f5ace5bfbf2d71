//! The two JSON documents that the engine keeps on disk, as this library reads them.

use std::collections::HashMap;
use vstd::prelude::*;

verus! {

/// `serde_json::Value`: any JSON value. Nothing is claimed of it; the settings
/// that this library does not read are carried in it untouched.
#[verifier::external_type_specification]
#[verifier::external_body]
pub struct ExValue(serde_json::Value);

/// The engine's own `config.json`.
#[derive(Clone, Debug)]
pub struct WallpaperEngineConfigJson {
    /// The member `?installdirectory`.
    pub install_directory: String,
    /// Every other member, by its name.
    pub extra: HashMap<String, serde_json::Value>,
}

/// The `project.json` that describes one workshop item.
#[derive(Clone, Debug)]
pub struct ProjectJson {
    pub description: Option<String>,
    pub file: String,
    pub title: String,
    /// The member `type`.
    pub _type: String,
    pub workshopid: Option<String>,
}

} // verus!
