//! The launch configuration of the supervised process.

use vstd::prelude::*;
use crate::child::MAX_WAIT_MILLIS;

verus! {

/// Where the child's three standard streams are connected. A stream without
/// a path is connected to the null device.
#[derive(Clone, Debug, PartialEq, Eq)]
pub struct StreamRedirection {
    pub stdin: Option<String>,
    pub stdout: Option<String>,
    pub stderr: Option<String>,
}

/// One environment entry that the child receives in addition to, or in place
/// of, what it inherits.
#[derive(Clone, Debug, PartialEq, Eq)]
pub struct EnvironmentalVariable {
    pub name: String,
    pub value: String,
}

/// Everything needed to launch and supervise one child process.
#[derive(Clone, Debug, PartialEq, Eq)]
pub struct Config {
    /// Working directory of the child.
    pub cwd: String,
    /// Program and arguments.
    pub command: Vec<String>,
    /// Entries laid over the inherited environment.
    pub env: Vec<EnvironmentalVariable>,
    pub streams: StreamRedirection,
    /// Length of one bounded wait of the monitoring loop, in milliseconds.
    pub poll_interval_ms: u64,
    /// Time the child may run before it is shut down, in seconds.
    pub run_timeout_sec: u64,
    /// Time the child is given to exit after the cooperative signal, in seconds.
    pub grace_period_sec: u64,
}

/// What makes a launch configuration unusable.
#[derive(Clone, Copy, Debug, PartialEq, Eq, Structural)]
pub enum ConfigError {
    /// The command names no program.
    EmptyCommand,
    /// The poll interval is zero, so the monitoring loop would never wait.
    ZeroPollInterval,
    /// The poll interval is longer than any wait the supervisor can ask for.
    PollIntervalTooLong,
    /// The grace period is longer than any wait the supervisor can ask for.
    GracePeriodTooLong,
}

impl Config {
    /// A usable launch configuration: the command names a program, the poll
    /// interval is positive, and both the poll interval and the grace period
    /// are waits that the supervisor can ask for.
    pub open spec fn valid(&self) -> bool {
        &&& self.command@.len() > 0
        &&& 0 < self.poll_interval_ms <= MAX_WAIT_MILLIS
        &&& self.grace_period_sec * 1000 <= MAX_WAIT_MILLIS
    }

    /// The first defect of the configuration, in the order in which
    /// [`ConfigError`] lists them; `None` for a usable one.
    pub open spec fn defect(&self) -> Option<ConfigError> {
        if self.command@.len() == 0 {
            Some(ConfigError::EmptyCommand)
        } else if self.poll_interval_ms == 0 {
            Some(ConfigError::ZeroPollInterval)
        } else if self.poll_interval_ms > MAX_WAIT_MILLIS {
            Some(ConfigError::PollIntervalTooLong)
        } else if self.grace_period_sec * 1000 > MAX_WAIT_MILLIS {
            Some(ConfigError::GracePeriodTooLong)
        } else {
            None
        }
    }

    /// Checks that the configuration is usable and names its first defect
    /// if it is not.
    pub fn validate(&self) -> (checked: Result<(), ConfigError>)
        ensures
            checked is Ok <==> self.valid(),
            checked == match self.defect() {
                Some(error) => Err::<(), ConfigError>(error),
                None => Ok(()),
            },
    {
        if self.command.len() == 0 {
            Err(ConfigError::EmptyCommand)
        } else if self.poll_interval_ms == 0 {
            Err(ConfigError::ZeroPollInterval)
        } else if self.poll_interval_ms > MAX_WAIT_MILLIS {
            Err(ConfigError::PollIntervalTooLong)
        } else if self.grace_period_sec > MAX_WAIT_MILLIS / 1000 {
            Err(ConfigError::GracePeriodTooLong)
        } else {
            Ok(())
        }
    }

    /// The run timeout in milliseconds: the budget with which the
    /// monitoring loop starts.
    pub fn run_budget_ms(&self) -> (budget: u128)
        ensures
            budget == self.run_timeout_sec * 1000,
    {
        let seconds: u128 = self.run_timeout_sec as u128;
        seconds * 1000
    }

    /// The grace period in milliseconds.
    pub fn grace_period_ms(&self) -> (grace: u64)
        requires
            self.grace_period_sec * 1000 <= MAX_WAIT_MILLIS,
        ensures
            grace == self.grace_period_sec * 1000,
    {
        self.grace_period_sec * 1000
    }
}

} // verus!
