//! The data directory model: where the persistent config record lives
//! and how its file contents are interpreted. Reading and writing the
//! file is the caller's I/O; these functions turn file contents into
//! records and records into the text to be written atomically.
use vstd::prelude::*;

use crate::NpcnixError;
use crate::config::{
    Config,
    ConfigV,
    spec_default_config,
    spec_expire_paused,
    spec_parse_config,
    spec_render_config,
};
use crate::remote::Locator;

verus! {

/// The view of an optional string slice.
pub open spec fn opt_str_view(o: Option<&str>) -> Option<Seq<char>> {
    match o {
        Some(s) => Some(s@),
        None => None,
    }
}

/// What loading makes of a config file: a missing file is the default
/// record, and a present file parses, with an expired pause cleared.
pub open spec fn spec_load_config(file: Option<Seq<char>>, now: i64) -> Option<ConfigV> {
    match file {
        None => Some(spec_default_config(now)),
        Some(t) => match spec_parse_config(t) {
            Some(c) => Some(spec_expire_paused(c, now)),
            None => None,
        },
    }
}

/// A machine's data directory, identified by its path.
#[derive(Debug)]
pub struct DataDir {
    path: String,
}

impl View for DataDir {
    type V = Seq<char>;

    closed spec fn view(&self) -> Seq<char> {
        self.path@
    }
}

impl DataDir {
    /// A data directory at `path`.
    pub fn new(path: &str) -> (r: DataDir)
        ensures
            r@ == path@,
    {
        DataDir { path: String::from_str(path) }
    }

    /// The directory's path.
    pub fn path(&self) -> (r: &str)
        ensures
            r@ == self@,
    {
        self.path.as_str()
    }

    /// The path of the config file inside the data directory.
    pub fn config_file_path(&self) -> (r: String)
        ensures
            r@ == self@ + "/config.json"@,
    {
        self.path.clone().concat("/config.json")
    }

    /// Interprets the config file's contents, read at instant `now`: a
    /// missing file yields the default record, never an error.
    pub fn load_config(&self, file: Option<&str>, now: i64) -> (r: Result<Config, NpcnixError>)
        ensures
            match r {
                Ok(c) => spec_load_config(opt_str_view(file), now) == Some(c@),
                Err(e) => spec_load_config(opt_str_view(file), now) is None && (e matches
                NpcnixError::MalformedConfig),
            },
    {
        match file {
            None => Ok(Config::default_at(now)),
            Some(text) => Config::from_json_str(text, now),
        }
    }

    /// The text to write (atomically) over the config file to store the
    /// record at instant `now`; the store step clears an expired pause.
    pub fn store_config(&self, config: Config, now: i64) -> (r: String)
        ensures
            r@ == spec_render_config(spec_expire_paused(config@, now)),
    {
        config.expire_paused(now).to_json_string()
    }

    /// The effective configuration name: an explicit override wins over
    /// the stored value; absence of both is an error.
    pub fn get_current_configuration_with_opt_override(
        &self,
        file: Option<&str>,
        configuration: Option<&str>,
        now: i64,
    ) -> (r: Result<String, NpcnixError>)
        ensures
            match r {
                Ok(s) => match configuration {
                    Some(o) => s@ == o@,
                    None => match spec_load_config(opt_str_view(file), now) {
                        Some(c) => c.configuration == Some(s@),
                        None => false,
                    },
                },
                Err(e) => configuration is None && (match spec_load_config(
                    opt_str_view(file),
                    now,
                ) {
                    Some(c) => c.configuration is None && (e matches
                    NpcnixError::ConfigurationNotSet),
                    None => e matches NpcnixError::MalformedConfig,
                }),
            },
    {
        match configuration {
            Some(o) => Ok(String::from_str(o)),
            None => {
                let config = self.load_config(file, now)?;
                match config.configuration() {
                    Ok(c) => Ok(String::from_str(c)),
                    Err(e) => Err(e),
                }
            },
        }
    }

    /// The effective remote locator: an explicit override wins over the
    /// stored value; absence of both is an error.
    pub fn get_current_remote_with_opt_override(
        &self,
        file: Option<&str>,
        remote: Option<&Locator>,
        now: i64,
    ) -> (r: Result<Locator, NpcnixError>)
        ensures
            match r {
                Ok(l) => match remote {
                    Some(o) => l@ == o@,
                    None => match spec_load_config(opt_str_view(file), now) {
                        Some(c) => c.remote == Some(l@),
                        None => false,
                    },
                },
                Err(e) => remote is None && (match spec_load_config(opt_str_view(file), now) {
                    Some(c) => c.remote is None && (e matches NpcnixError::RemoteNotSet),
                    None => e matches NpcnixError::MalformedConfig,
                }),
            },
    {
        match remote {
            Some(o) => Ok(o.duplicate()),
            None => {
                let config = self.load_config(file, now)?;
                match config.remote() {
                    Ok(l) => Ok(l.duplicate()),
                    Err(e) => Err(e),
                }
            },
        }
    }

    /// The new config file text after a successful activation: the loaded
    /// record with the activated configuration name, fingerprint and
    /// instant recorded.
    pub fn update_last_reconfiguration(
        &self,
        file: Option<&str>,
        configuration: &str,
        etag: &str,
        now: i64,
    ) -> (r: Result<String, NpcnixError>)
        ensures
            match r {
                Ok(text) => match spec_load_config(opt_str_view(file), now) {
                    Some(c) => text@ == spec_render_config(
                        spec_expire_paused(
                            ConfigV {
                                last_configuration: configuration@,
                                last_etag: etag@,
                                last_reconfiguration: now,
                                ..c
                            },
                            now,
                        ),
                    ),
                    None => false,
                },
                Err(e) => spec_load_config(opt_str_view(file), now) is None && (e matches
                NpcnixError::MalformedConfig),
            },
    {
        let config = self.load_config(file, now)?;
        Ok(self.store_config(config.with_updated_last_reconfiguration(configuration, etag, now), now))
    }
}

} // verus!
