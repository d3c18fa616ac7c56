//! Checks and downloads updates of Minecraft mods through the Modrinth API.
//!
//! The library holds the logic of the updater: what the API is asked and how
//! its answers are judged, which local files are mods, how a run of updates is
//! tallied and reported, and the settings kept between runs. Network and file
//! access stay with the caller, which hands the library plain values.
pub mod text;
pub mod digest;
pub mod time;
pub mod path;
pub mod error;
pub mod api;
pub mod config;
pub mod scanner;
pub mod updater;
pub mod cli;
pub mod gui;

pub use config::AppConfig;
pub use error::{CoreError, CoreResult};
pub use digest::{hash_bytes_sha1, hash_bytes_sha512};
pub use scanner::{parse_mod_names, LocalMod};
pub use updater::{ModInfo, UpdateReport, UpdateResult};
