use monitor::config::{Config, EnvironmentalVariable, StreamRedirection};
use monitor::environment::{merge_environment, set_variable};
use monitor::launch::create_popen_config;
use monitor::redirection::{file_read, file_write, StreamTarget};

fn var(name: &str, value: &str) -> EnvironmentalVariable {
    EnvironmentalVariable { name: String::from(name), value: String::from(value) }
}

fn value_of<'a>(environment: &'a [EnvironmentalVariable], name: &str) -> Option<&'a str> {
    let found: Vec<&EnvironmentalVariable> =
        environment.iter().filter(|entry| entry.name == name).collect();
    assert!(found.len() <= 1, "the name {} occurs {} times", name, found.len());
    found.first().map(|entry| entry.value.as_str())
}

#[test]
fn override_wins_on_collision() {
    let inherited = vec![var("PATH", "/bin"), var("HOME", "/root")];
    let overrides = vec![var("PATH", "/opt/bin")];
    let merged = merge_environment(&inherited, &overrides);
    assert_eq!(merged.len(), 2);
    assert_eq!(value_of(&merged, "PATH"), Some("/opt/bin"));
    assert_eq!(value_of(&merged, "HOME"), Some("/root"));
}

#[test]
fn inherited_entries_pass_through() {
    let inherited = vec![var("A", "1"), var("B", "2"), var("C", "3")];
    let merged = merge_environment(&inherited, &Vec::new());
    assert_eq!(merged, inherited);
}

#[test]
fn new_names_are_added() {
    let inherited = vec![var("A", "1")];
    let overrides = vec![var("B", "2"), var("C", "3")];
    let merged = merge_environment(&inherited, &overrides);
    assert_eq!(merged, vec![var("A", "1"), var("B", "2"), var("C", "3")]);
}

#[test]
fn last_override_of_a_name_wins() {
    let overrides = vec![var("A", "1"), var("B", "x"), var("A", "2")];
    let merged = merge_environment(&Vec::new(), &overrides);
    assert_eq!(merged.len(), 2);
    assert_eq!(value_of(&merged, "A"), Some("2"));
    assert_eq!(value_of(&merged, "B"), Some("x"));
}

#[test]
fn repeated_inherited_name_keeps_its_last_value() {
    let inherited = vec![var("A", "old"), var("A", "new")];
    let merged = merge_environment(&inherited, &Vec::new());
    assert_eq!(merged, vec![var("A", "new")]);
}

#[test]
fn names_are_case_sensitive() {
    let merged = merge_environment(&vec![var("path", "a")], &vec![var("PATH", "b")]);
    assert_eq!(merged.len(), 2);
    assert_eq!(value_of(&merged, "path"), Some("a"));
    assert_eq!(value_of(&merged, "PATH"), Some("b"));
}

#[test]
fn empty_environments_merge_to_nothing() {
    assert_eq!(merge_environment(&Vec::new(), &Vec::new()), Vec::new());
}

#[test]
fn set_variable_replaces_in_place_or_appends() {
    let mut environment = vec![var("A", "1"), var("B", "2")];
    set_variable(&mut environment, &String::from("A"), &String::from("9"));
    assert_eq!(environment, vec![var("A", "9"), var("B", "2")]);
    set_variable(&mut environment, &String::from("C"), &String::from("3"));
    assert_eq!(environment, vec![var("A", "9"), var("B", "2"), var("C", "3")]);
}

#[test]
fn launch_plan_holds_streams_environment_and_directory() {
    let config = Config {
        cwd: String::from("/work"),
        command: vec![String::from("run")],
        env: vec![var("MODE", "fast"), var("HOME", "/elsewhere")],
        streams: StreamRedirection {
            stdin: Some(String::from("in.txt")),
            stdout: Some(String::from("out.txt")),
            stderr: Some(String::from("err.txt")),
        },
        poll_interval_ms: 100,
        run_timeout_sec: 1,
        grace_period_sec: 1,
    };
    let inherited = vec![var("HOME", "/root"), var("LANG", "C")];
    let plan = create_popen_config(&config, &inherited);
    assert_eq!(plan.stdin, StreamTarget::File { path: String::from("in.txt"), mode: file_read() });
    assert_eq!(
        plan.stdout,
        StreamTarget::File { path: String::from("out.txt"), mode: file_write() }
    );
    assert_eq!(
        plan.stderr,
        StreamTarget::File { path: String::from("err.txt"), mode: file_write() }
    );
    assert_eq!(plan.cwd, "/work");
    assert_eq!(plan.env.len(), 3);
    assert_eq!(value_of(&plan.env, "HOME"), Some("/elsewhere"));
    assert_eq!(value_of(&plan.env, "LANG"), Some("C"));
    assert_eq!(value_of(&plan.env, "MODE"), Some("fast"));
}

#[test]
fn launch_plan_opens_one_sink_for_merged_outputs() {
    let config = Config {
        cwd: String::from("."),
        command: vec![String::from("run")],
        env: Vec::new(),
        streams: StreamRedirection {
            stdin: None,
            stdout: Some(String::from("all.log")),
            stderr: Some(String::from("all.log")),
        },
        poll_interval_ms: 100,
        run_timeout_sec: 1,
        grace_period_sec: 1,
    };
    let plan = create_popen_config(&config, &Vec::new());
    assert_eq!(
        plan.stdout,
        StreamTarget::File { path: String::from("all.log"), mode: file_write() }
    );
    assert_eq!(plan.stderr, StreamTarget::Merge);
    let sinks = [&plan.stdout, &plan.stderr]
        .iter()
        .filter(|target| matches!(target, StreamTarget::File { .. }))
        .count();
    assert_eq!(sinks, 1);
}
