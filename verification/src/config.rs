//! The application's settings.
use vstd::prelude::*;
use vstd::string::*;
use std::path::PathBuf;
use crate::path::clone_opt_path;
use crate::text::clone_opt_string;

verus! {

/// The name of the application, which names its configuration and data directories.
pub const APP_NAME: &'static str = "modrinth-updater";

/// The name of the configuration file.
pub const CONFIG_FILE: &'static str = "config.toml";

/// The user agent sent when no identifier is configured.
pub const DEFAULT_USER_AGENT: &'static str = "unknown/modsupdater/0.1.0";

/// Settings remembered between runs.
#[derive(Debug)]
pub struct AppConfig {
    /// Last used mods directory.
    pub last_mods_dir: Option<PathBuf>,
    /// Default mod loader (fabric, forge, quilt, ...).
    pub last_loader: Option<String>,
    /// Default Minecraft version.
    pub last_game_version: Option<String>,
    /// Custom user-agent identifier (username/project).
    pub user_agent_identifier: Option<String>,
    /// The user agent computed by `finalize` (not stored in the file).
    user_agent_cache: Option<String>,
}

/// The settings as a user sees them: the stored fields, and the user agent that
/// `user_agent` returns.
pub struct AppConfigView {
    pub last_mods_dir: Option<PathBuf>,
    pub last_loader: Option<String>,
    pub last_game_version: Option<String>,
    pub user_agent_identifier: Option<String>,
    pub user_agent: Seq<char>,
}

impl View for AppConfig {
    type V = AppConfigView;

    closed spec fn view(&self) -> AppConfigView {
        AppConfigView {
            last_mods_dir: self.last_mods_dir,
            last_loader: self.last_loader,
            last_game_version: self.last_game_version,
            user_agent_identifier: self.user_agent_identifier,
            user_agent: match self.user_agent_cache {
                Some(s) => s@,
                None => DEFAULT_USER_AGENT@,
            },
        }
    }
}

impl Clone for AppConfig {
    fn clone(&self) -> (res: Self)
        ensures
            res@ == self@,
    {
        AppConfig {
            last_mods_dir: clone_opt_path(&self.last_mods_dir),
            last_loader: clone_opt_string(&self.last_loader),
            last_game_version: clone_opt_string(&self.last_game_version),
            user_agent_identifier: clone_opt_string(&self.user_agent_identifier),
            user_agent_cache: clone_opt_string(&self.user_agent_cache),
        }
    }
}

/// The user agent an identifier stands for: itself, or the default.
pub open spec fn identifier_user_agent(identifier: Option<String>) -> Seq<char> {
    match identifier {
        Some(s) => s@,
        None => DEFAULT_USER_AGENT@,
    }
}

impl AppConfig {
    /// Settings as read from the configuration file, before `finalize`.
    pub fn from_parts(
        last_mods_dir: Option<PathBuf>,
        last_loader: Option<String>,
        last_game_version: Option<String>,
        user_agent_identifier: Option<String>,
    ) -> (res: AppConfig)
        ensures
            res@.last_mods_dir == last_mods_dir,
            res@.last_loader == last_loader,
            res@.last_game_version == last_game_version,
            res@.user_agent_identifier == user_agent_identifier,
            res@.user_agent == DEFAULT_USER_AGENT@,
    {
        AppConfig {
            last_mods_dir,
            last_loader,
            last_game_version,
            user_agent_identifier,
            user_agent_cache: None,
        }
    }

    /// The user agent string: the configured identifier, or the default.
    pub fn user_agent(&self) -> (res: &str)
        ensures
            res@ == self@.user_agent,
    {
        match &self.user_agent_cache {
            Some(s) => s.as_str(),
            None => DEFAULT_USER_AGENT,
        }
    }

    /// Computes the user agent from the identifier.
    pub fn finalize(&mut self)
        ensures
            final(self)@.user_agent == identifier_user_agent(old(self)@.user_agent_identifier),
            final(self)@.last_mods_dir == old(self)@.last_mods_dir,
            final(self)@.last_loader == old(self)@.last_loader,
            final(self)@.last_game_version == old(self)@.last_game_version,
            final(self)@.user_agent_identifier == old(self)@.user_agent_identifier,
    {
        let ua = match &self.user_agent_identifier {
            Some(s) => s.clone(),
            None => String::from_str(DEFAULT_USER_AGENT),
        };
        self.user_agent_cache = Some(ua);
    }

    /// The directory to scan: the one given, else the one used last.
    pub fn mods_dir_or_last(&self, dir: Option<PathBuf>) -> (res: Option<PathBuf>)
        ensures
            res == match dir {
                Some(d) => Some(d),
                None => self@.last_mods_dir,
            },
    {
        match dir {
            Some(d) => Some(d),
            None => clone_opt_path(&self.last_mods_dir),
        }
    }

    /// Applies the settings given to `config`; whether any was given.
    pub fn apply_settings(
        &mut self,
        set_dir: Option<PathBuf>,
        set_loader: Option<String>,
        set_game_version: Option<String>,
    ) -> (changed: bool)
        ensures
            changed == (set_dir is Some || set_loader is Some || set_game_version is Some),
            final(self)@.last_mods_dir == if set_dir is Some { set_dir } else { old(self)@.last_mods_dir },
            final(self)@.last_loader == if set_loader is Some { set_loader } else { old(self)@.last_loader },
            final(self)@.last_game_version == if set_game_version is Some {
                set_game_version
            } else {
                old(self)@.last_game_version
            },
            final(self)@.user_agent_identifier == old(self)@.user_agent_identifier,
            final(self)@.user_agent == old(self)@.user_agent,
    {
        let mut changed = false;
        if set_dir.is_some() {
            self.last_mods_dir = set_dir;
            changed = true;
        }
        if set_loader.is_some() {
            self.last_loader = set_loader;
            changed = true;
        }
        if set_game_version.is_some() {
            self.last_game_version = set_game_version;
            changed = true;
        }
        changed
    }

    /// Remembers the loader, game version and (when given) directory of an update run.
    pub fn remember_run(&mut self, loader: String, game_version: String, dir: Option<PathBuf>)
        ensures
            final(self)@.last_loader == Some(loader),
            final(self)@.last_game_version == Some(game_version),
            final(self)@.last_mods_dir == if dir is Some { dir } else { old(self)@.last_mods_dir },
            final(self)@.user_agent_identifier == old(self)@.user_agent_identifier,
            final(self)@.user_agent == old(self)@.user_agent,
    {
        self.last_loader = Some(loader);
        self.last_game_version = Some(game_version);
        if dir.is_some() {
            self.last_mods_dir = dir;
        }
    }
}

impl Default for AppConfig {
    /// No remembered settings, and the default user agent.
    fn default() -> (res: AppConfig)
        ensures
            res@.last_mods_dir is None,
            res@.last_loader is None,
            res@.last_game_version is None,
            res@.user_agent_identifier is None,
            res@.user_agent == DEFAULT_USER_AGENT@,
    {
        let mut config = AppConfig {
            last_mods_dir: None,
            last_loader: None,
            last_game_version: None,
            user_agent_identifier: None,
            user_agent_cache: None,
        };
        config.finalize();
        config
    }
}

} // verus!
