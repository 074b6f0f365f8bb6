use monitor::child::MAX_WAIT_MILLIS;
use monitor::config::{Config, ConfigError, EnvironmentalVariable, StreamRedirection};

fn sample() -> Config {
    Config {
        cwd: String::from("/tmp"),
        command: vec![String::from("sleep"), String::from("1")],
        env: vec![EnvironmentalVariable { name: String::from("A"), value: String::from("1") }],
        streams: StreamRedirection { stdin: None, stdout: None, stderr: None },
        poll_interval_ms: 100,
        run_timeout_sec: 2,
        grace_period_sec: 1,
    }
}

#[test]
fn sample_config_is_valid() {
    assert_eq!(sample().validate(), Ok(()));
}

#[test]
fn empty_command_is_rejected() {
    let mut config = sample();
    config.command.clear();
    assert_eq!(config.validate(), Err(ConfigError::EmptyCommand));
}

#[test]
fn zero_poll_interval_is_rejected() {
    let mut config = sample();
    config.poll_interval_ms = 0;
    assert_eq!(config.validate(), Err(ConfigError::ZeroPollInterval));
}

#[test]
fn poll_interval_beyond_the_longest_wait_is_rejected() {
    let mut config = sample();
    config.poll_interval_ms = MAX_WAIT_MILLIS;
    assert_eq!(config.validate(), Ok(()));
    config.poll_interval_ms = MAX_WAIT_MILLIS + 1;
    assert_eq!(config.validate(), Err(ConfigError::PollIntervalTooLong));
    config.poll_interval_ms = u64::MAX;
    assert_eq!(config.validate(), Err(ConfigError::PollIntervalTooLong));
}

#[test]
fn grace_period_beyond_the_longest_wait_is_rejected() {
    let mut config = sample();
    config.grace_period_sec = MAX_WAIT_MILLIS / 1000;
    assert_eq!(config.validate(), Ok(()));
    config.grace_period_sec = MAX_WAIT_MILLIS / 1000 + 1;
    assert_eq!(config.validate(), Err(ConfigError::GracePeriodTooLong));
    config.grace_period_sec = u64::MAX;
    assert_eq!(config.validate(), Err(ConfigError::GracePeriodTooLong));
}

#[test]
fn first_defect_is_reported() {
    let mut config = sample();
    config.command.clear();
    config.poll_interval_ms = 0;
    config.grace_period_sec = u64::MAX;
    assert_eq!(config.validate(), Err(ConfigError::EmptyCommand));
    config.command.push(String::from("true"));
    assert_eq!(config.validate(), Err(ConfigError::ZeroPollInterval));
    config.poll_interval_ms = 1;
    assert_eq!(config.validate(), Err(ConfigError::GracePeriodTooLong));
}

#[test]
fn zero_timeout_and_zero_grace_are_valid() {
    let mut config = sample();
    config.run_timeout_sec = 0;
    config.grace_period_sec = 0;
    assert_eq!(config.validate(), Ok(()));
    assert_eq!(config.run_budget_ms(), 0);
    assert_eq!(config.grace_period_ms(), 0);
}

#[test]
fn any_run_timeout_is_valid() {
    let mut config = sample();
    config.run_timeout_sec = u64::MAX;
    assert_eq!(config.validate(), Ok(()));
    assert_eq!(config.run_budget_ms(), u64::MAX as u128 * 1000);
}

#[test]
fn durations_in_milliseconds() {
    let config = sample();
    assert_eq!(config.run_budget_ms(), 2000);
    assert_eq!(config.grace_period_ms(), 1000);
    assert_eq!(MAX_WAIT_MILLIS, u32::MAX as u64 * 1000);
}
