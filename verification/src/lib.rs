//! Resource keys, key-value store schemas, content-addressed object keys and
//! prompt templating for the Talon control plane.

pub mod text;
pub mod urlcodec;
pub mod ns;
pub mod digest;
pub mod keys;
pub mod kv;
pub mod paging;
pub mod fields;
pub mod compress;
pub mod cas;
pub mod delegation;
pub mod templating;
pub mod config;
pub mod settings;
pub mod manifest_checks;
pub mod enum_names;
pub mod json;
pub mod status_json;
pub mod config_doc;
pub mod spec_json;
pub mod control_plane;
pub mod resource_json;
pub mod template_json;
pub mod config_model;
