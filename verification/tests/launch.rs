use watchdog::config::{
    sink_setup, source_setup, LaunchRequest, Stream, StreamSetup, SupervisionConfig,
    DEFAULT_RESTART_DELAY_MS,
};

fn strings(items: &[&str]) -> Vec<String> {
    items.iter().map(|item| item.to_string()).collect()
}

#[test]
fn default_restart_delay_is_one_second() {
    assert_eq!(DEFAULT_RESTART_DELAY_MS, 1000);
    let config = SupervisionConfig::new("/bin/true".to_string(), Vec::new());
    assert_eq!(config.restart_delay_ms, 1000);
}

#[test]
fn new_configuration_inherits_all_streams() {
    let config = SupervisionConfig::new("/bin/echo".to_string(), strings(&["a", "b"]));
    assert_eq!(config.executable, "/bin/echo");
    assert_eq!(config.args, strings(&["a", "b"]));
    assert_eq!(config.stdin, None);
    assert_eq!(config.stdout, None);
    assert_eq!(config.stderr, None);
    assert!(!config.redirects(Stream::Stdin));
    assert!(!config.redirects(Stream::Stdout));
    assert!(!config.redirects(Stream::Stderr));
}

#[test]
fn absent_path_inherits_the_stream() {
    assert_eq!(source_setup(&None), StreamSetup::Inherit);
    assert_eq!(sink_setup(&None), StreamSetup::Inherit);
}

#[test]
fn input_path_is_read_and_output_path_is_created() {
    let path = Some("data.txt".to_string());
    assert_eq!(source_setup(&path), StreamSetup::ReadExisting("data.txt".to_string()));
    assert_eq!(sink_setup(&path), StreamSetup::CreateTruncate("data.txt".to_string()));
}

#[test]
fn redirects_tells_the_streams_apart() {
    let mut config = SupervisionConfig::new("prog".to_string(), Vec::new());
    config.stdout = Some("out.log".to_string());
    assert!(!config.redirects(Stream::Stdin));
    assert!(config.redirects(Stream::Stdout));
    assert!(!config.redirects(Stream::Stderr));
}

#[test]
fn launch_request_carries_program_arguments_and_streams() {
    let config = SupervisionConfig {
        executable: "/usr/bin/server".to_string(),
        args: strings(&["--port", "80", ""]),
        restart_delay_ms: 250,
        stdin: Some("in.txt".to_string()),
        stdout: Some("out.log".to_string()),
        stderr: Some("err.log".to_string()),
    };
    let expected = LaunchRequest {
        executable: "/usr/bin/server".to_string(),
        args: strings(&["--port", "80", ""]),
        stdin: StreamSetup::ReadExisting("in.txt".to_string()),
        stdout: StreamSetup::CreateTruncate("out.log".to_string()),
        stderr: StreamSetup::CreateTruncate("err.log".to_string()),
    };
    assert_eq!(config.launch_request(), expected);
}

#[test]
fn launch_request_without_redirection_inherits() {
    let config = SupervisionConfig::new("prog".to_string(), strings(&["x"]));
    let request = config.launch_request();
    assert_eq!(request.executable, "prog");
    assert_eq!(request.args, strings(&["x"]));
    assert_eq!(request.stdin, StreamSetup::Inherit);
    assert_eq!(request.stdout, StreamSetup::Inherit);
    assert_eq!(request.stderr, StreamSetup::Inherit);
}

#[test]
fn launch_request_keeps_the_order_of_many_arguments() {
    let args: Vec<String> = (0..100).map(|i| format!("arg{}", i)).collect();
    let config = SupervisionConfig::new("prog".to_string(), args.clone());
    assert_eq!(config.launch_request().args, args);
}
