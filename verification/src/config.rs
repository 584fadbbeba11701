//! The configuration of a scan.
use vstd::prelude::*;

verus! {

/// Where the probes live and where their output goes.
#[derive(Debug, Clone)]
pub struct PathsConfig {
    pub rexx_pds: String,
    pub output_dsn: String,
    pub local_output: String,
}

/// How to reach the mainframe.
#[derive(Debug, Clone)]
pub struct MainframeConfig {
    pub host: String,
    pub user: String,
    pub pass: String,
}

/// A representation of our configuration
#[derive(Debug, Clone)]
pub struct Config {
    pub mainframe: MainframeConfig,
    pub paths: PathsConfig,
}

impl Config {
    /// The configuration with the mainframe password replaced by `password`
    /// where one is given (the `MAINFRAME_PASSWORD` variable when it is set).
    pub fn override_password(self, password: Option<String>) -> (r: Config)
        ensures
            r.paths == self.paths,
            r.mainframe.host == self.mainframe.host,
            r.mainframe.user == self.mainframe.user,
            r.mainframe.pass == match password {
                Some(p) => p,
                None => self.mainframe.pass,
            },
    {
        let mut config = self;
        match password {
            Some(p) => {
                config.mainframe.pass = p;
            },
            None => {},
        }
        config
    }
}

} // verus!
