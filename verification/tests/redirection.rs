use monitor::config::{Config, StreamRedirection};
use monitor::redirection::{
    file_read, file_write, same_target, stderr_redirection, stdin_redirection,
    stdout_redirection, stream_redirection, FileMode, StreamTarget,
};

fn config_with(stdin: Option<&str>, stdout: Option<&str>, stderr: Option<&str>) -> Config {
    Config {
        cwd: String::from("."),
        command: vec![String::from("true")],
        env: Vec::new(),
        streams: StreamRedirection {
            stdin: stdin.map(String::from),
            stdout: stdout.map(String::from),
            stderr: stderr.map(String::from),
        },
        poll_interval_ms: 100,
        run_timeout_sec: 1,
        grace_period_sec: 1,
    }
}

fn file(path: &str, mode: FileMode) -> StreamTarget {
    StreamTarget::File { path: String::from(path), mode }
}

#[test]
fn read_mode_only_reads() {
    assert_eq!(
        file_read(),
        FileMode { read: true, write: false, truncate: false, create: false }
    );
}

#[test]
fn write_mode_creates_and_truncates() {
    assert_eq!(
        file_write(),
        FileMode { read: false, write: true, truncate: true, create: true }
    );
}

#[test]
fn stream_without_a_path_goes_to_the_null_device() {
    assert_eq!(stream_redirection(&None, file_read()), file("/dev/null", file_read()));
    assert_eq!(stream_redirection(&None, file_write()), file("/dev/null", file_write()));
}

#[test]
fn stream_with_a_path_goes_to_that_file() {
    let path = Some(String::from("/tmp/out.log"));
    assert_eq!(stream_redirection(&path, file_write()), file("/tmp/out.log", file_write()));
}

#[test]
fn stdin_is_opened_for_reading() {
    assert_eq!(
        stdin_redirection(&config_with(Some("in.txt"), None, None)),
        file("in.txt", file_read())
    );
    assert_eq!(stdin_redirection(&config_with(None, None, None)), file("/dev/null", file_read()));
}

#[test]
fn stdout_is_opened_for_writing() {
    assert_eq!(
        stdout_redirection(&config_with(None, Some("out.txt"), None)),
        file("out.txt", file_write())
    );
    assert_eq!(
        stdout_redirection(&config_with(None, None, None)),
        file("/dev/null", file_write())
    );
}

#[test]
fn stderr_merges_when_both_outputs_are_unset() {
    assert_eq!(stderr_redirection(&config_with(None, None, None)), StreamTarget::Merge);
    assert_eq!(stderr_redirection(&config_with(Some("in"), None, None)), StreamTarget::Merge);
}

#[test]
fn stderr_merges_when_both_outputs_name_the_same_file() {
    assert_eq!(
        stderr_redirection(&config_with(None, Some("log.txt"), Some("log.txt"))),
        StreamTarget::Merge
    );
}

#[test]
fn stderr_gets_its_own_sink_when_the_outputs_differ() {
    assert_eq!(
        stderr_redirection(&config_with(None, Some("out.txt"), Some("err.txt"))),
        file("err.txt", file_write())
    );
    assert_eq!(
        stderr_redirection(&config_with(None, None, Some("err.txt"))),
        file("err.txt", file_write())
    );
    assert_eq!(
        stderr_redirection(&config_with(None, Some("out.txt"), None)),
        file("/dev/null", file_write())
    );
}

#[test]
fn explicit_null_device_differs_from_an_unset_target() {
    assert_eq!(
        stderr_redirection(&config_with(None, None, Some("/dev/null"))),
        file("/dev/null", file_write())
    );
}

#[test]
fn targets_are_compared_by_their_text() {
    assert!(same_target(&None, &None));
    assert!(same_target(&Some(String::from("a")), &Some(String::from("a"))));
    assert!(!same_target(&Some(String::from("a")), &Some(String::from("b"))));
    assert!(!same_target(&Some(String::from("a")), &Some(String::from("A"))));
    assert!(!same_target(&Some(String::from("a")), &None));
    assert!(!same_target(&None, &Some(String::from("a"))));
    assert!(!same_target(&Some(String::new()), &None));
}
