//! A directory-backed library of game mods.
//!
//! Every mod is one directory below the library root. The base name of the
//! directory carries the display name and the activation state. A sidecar file
//! inside the directory stores an identifier and free-form metadata. One file
//! in the root stores the presets. There is no database and no lock: the rules
//! in this crate keep these pieces consistent across scans, renames, downloads
//! and preset applications, and every operation may be run again on a state
//! that it has already brought about.
//!
//! The crate decides and plans. It touches no file and no network. Its caller
//! looks at the disk, hands over what it saw as plain values, and performs the
//! steps that come back.
//!
//! - [`naming`] holds the folder-name convention.
//! - [`record`] holds the record, the sidecar and the category catalog.
//! - [`category`] and [`version`] hold the fallbacks for unset fields.
//! - [`resolver`] turns what a scan sees of a directory into a record.
//! - [`toggler`] enables, disables and edits one mod.
//! - [`archive`] tells what a payload is and how its entries are rooted.
//! - [`download`] and [`ingest`] bring a new mod into the library.
//! - [`preset`] and [`apply`] hold the preset store and bring the library to a preset.
//! - [`thumbnail`] decides where a picture comes from.
//! - [`error`] lists the ways in which an operation fails.
//! - [`ident`] and [`text`] hold generated identifiers and character-level helpers.

pub mod apply;
pub mod archive;
pub mod category;
pub mod download;
pub mod error;
pub mod ident;
pub mod ingest;
pub mod naming;
pub mod preset;
pub mod record;
pub mod resolver;
pub mod text;
pub mod thumbnail;
pub mod toggler;
pub mod version;

pub use crate::error::{ErrorKind, LibraryError};
pub use crate::record::{Category, Mod, ModSidecar};
