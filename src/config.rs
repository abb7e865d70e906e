use vstd::prelude::*;

verus! {

/// The settings of one mirror, fixed once at startup.
#[derive(Clone, Debug)]
pub struct Config {
    pub git_url: String,
    pub repo_path: String,
    pub update_interval: u64,
    pub bind_address: String,
    pub bind_port: u16,
}

/// Why a set of settings was refused.
#[derive(Clone, Copy, Debug, PartialEq, Eq, Structural)]
pub enum ConfigError {
    /// The update interval is zero seconds.
    ZeroInterval,
    /// The port to bind is zero.
    ZeroPort,
}

/// What startup does with the mirror directory.
#[derive(Clone, Copy, Debug, PartialEq, Eq, Structural)]
pub enum StartupStep {
    /// The directory is absent: clone the upstream into it.
    Initialize,
    /// The directory is present: use it as it stands.
    UseExisting,
}

impl Config {
    /// Settings that the rest of the system can run with.
    pub open spec fn wf(&self) -> bool {
        self.update_interval > 0 && self.bind_port > 0
    }

    /// Builds a configuration, refusing a zero interval or a zero port.
    pub fn new(
        git_url: String,
        repo_path: String,
        update_interval: u64,
        bind_address: String,
        bind_port: u16,
    ) -> (r: Result<Config, ConfigError>)
        ensures
            update_interval == 0 ==> r == Err::<Config, ConfigError>(ConfigError::ZeroInterval),
            update_interval > 0 && bind_port == 0 ==> r == Err::<Config, ConfigError>(
                ConfigError::ZeroPort,
            ),
            update_interval > 0 && bind_port > 0 ==> r is Ok,
            r matches Ok(c) ==> {
                &&& c.wf()
                &&& c.git_url == git_url
                &&& c.repo_path == repo_path
                &&& c.update_interval == update_interval
                &&& c.bind_address == bind_address
                &&& c.bind_port == bind_port
            },
    {
        if update_interval == 0 {
            Err(ConfigError::ZeroInterval)
        } else if bind_port == 0 {
            Err(ConfigError::ZeroPort)
        } else {
            Ok(Config { git_url, repo_path, update_interval, bind_address, bind_port })
        }
    }

    /// Decides whether startup clones the upstream: exactly when the mirror
    /// directory does not exist yet.
    pub fn startup_step(&self, mirror_exists: bool) -> (r: StartupStep)
        ensures
            r == StartupStep::Initialize <==> !mirror_exists,
            r == StartupStep::UseExisting <==> mirror_exists,
    {
        if mirror_exists {
            StartupStep::UseExisting
        } else {
            StartupStep::Initialize
        }
    }
}

} // verus!
