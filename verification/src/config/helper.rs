//! Where the configuration lives on disk, and what is made of what was
//! read from it.

use crate::config::{AppletConfig, ConfigView};
use crate::manager::storage::{applet_file, applet_path};
use vstd::prelude::*;

verus! {

/// What an attempt to read the configuration file came to.
#[derive(Debug)]
pub enum ConfigLoadOutcome {
    /// The file was read and parsed.
    Loaded(AppletConfig),
    /// There is no configuration file.
    Missing,
    /// The file is there and could not be read.
    Unreadable,
    /// The file was read and is no configuration.
    Corrupt,
}

/// The configuration to run with, and whether it is to be written back.
#[derive(Debug)]
pub struct LoadedConfig {
    pub config: AppletConfig,
    /// Whether the file on disk differs from `config` or is missing.
    pub save: bool,
}

/// Where the configuration is kept on disk.
#[derive(Debug)]
pub struct ConfigHelper {
    config_path: String,
}

impl ConfigHelper {
    /// The helper for the configuration file below the user's
    /// configuration directory, or below the working directory where there
    /// is none.
    pub fn new(config_dir: Option<&str>) -> (h: ConfigHelper)
        ensures
            h.path_spec() == applet_file(
                match config_dir {
                    Some(dir) => dir@,
                    None => "."@,
                },
                "config.ron"@,
            ),
    {
        ConfigHelper { config_path: applet_path(config_dir, "config.ron") }
    }

    /// The helper for the configuration file at `path`.
    pub fn at(path: String) -> (h: ConfigHelper)
        ensures
            h.path_spec() == path@,
    {
        ConfigHelper { config_path: path }
    }

    /// The characters of the configuration path.
    pub closed spec fn path_spec(&self) -> Seq<char> {
        self.config_path@
    }

    /// Get config file path.
    pub fn path(&self) -> (p: &String)
        ensures
            p@ == self.path_spec(),
    {
        &self.config_path
    }

    /// The configuration to run with after an attempt to load it.
    ///
    /// A loaded configuration of an older version is migrated, and one
    /// that is not valid is sanitized; it is to be written back where
    /// either was done. Where the file is missing or corrupt the default
    /// configuration is used and written. Where it could not be read the
    /// default is used and nothing is written.
    pub fn load(outcome: ConfigLoadOutcome) -> (r: LoadedConfig)
        ensures
            match outcome {
                ConfigLoadOutcome::Loaded(loaded) => {
                    &&& r.config@ == loaded@.loaded()
                    &&& r.save == (loaded.version < crate::config::CONFIG_VERSION
                        || !loaded@.migrated(loaded.version).is_valid())
                },
                ConfigLoadOutcome::Missing => r.config@ == ConfigView::initial() && r.save,
                ConfigLoadOutcome::Corrupt => r.config@ == ConfigView::initial() && r.save,
                ConfigLoadOutcome::Unreadable => r.config@ == ConfigView::initial() && !r.save,
            },
    {
        match outcome {
            ConfigLoadOutcome::Loaded(loaded) => {
                let mut config = loaded;
                let mut save = false;
                if config.version < crate::config::CONFIG_VERSION {
                    let from_version = config.version;
                    config.migrate(from_version);
                    save = true;
                }
                if !config.validate() {
                    config.sanitize();
                    save = true;
                }
                LoadedConfig { config, save }
            },
            ConfigLoadOutcome::Missing => LoadedConfig { config: AppletConfig::default(), save: true },
            ConfigLoadOutcome::Corrupt => LoadedConfig { config: AppletConfig::default(), save: true },
            ConfigLoadOutcome::Unreadable => LoadedConfig {
                config: AppletConfig::default(),
                save: false,
            },
        }
    }
}

} // verus!
