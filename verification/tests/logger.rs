use redwood::cli::{Cli, Commands, LogFileLevel};
use redwood::logger::{default_log_path, LogOptions};

fn cli(
    path: Option<&str>,
    file: Option<LogFileLevel>,
    stdout: Option<LogFileLevel>,
) -> Cli {
    Cli {
        log_file_path: path.map(String::from),
        log_file_level: file,
        log_stdout_level: stdout,
        command: Commands::List {},
    }
}

#[test]
fn default_options() {
    let options = LogOptions::new("/home/u");
    assert_eq!(options.log_file_path(), "/home/u/.redwood.log");
    assert_eq!(options.log_file_level(), LogFileLevel::Off);
    assert_eq!(options.stdout_log_level(), LogFileLevel::Info);
    assert_eq!(default_log_path("/home/u/"), "/home/u/.redwood.log");
}

#[test]
fn command_line_overrides_what_it_gives() {
    let options = LogOptions::new("/home/u")
        .apply_cli(&cli(Some("/tmp/log"), Some(LogFileLevel::Debug), Some(LogFileLevel::Error)));
    assert_eq!(options.log_file_path(), "/tmp/log");
    assert_eq!(options.log_file_level(), LogFileLevel::Debug);
    assert_eq!(options.stdout_log_level(), LogFileLevel::Error);
}

#[test]
fn command_line_leaves_the_rest() {
    let options = LogOptions::new("/home/u").apply_cli(&cli(None, None, None));
    assert_eq!(options.log_file_path(), "/home/u/.redwood.log");
    assert_eq!(options.log_file_level(), LogFileLevel::Off);
    assert_eq!(options.stdout_log_level(), LogFileLevel::Info);
    let options = LogOptions::new("/home/u").apply_cli(&cli(None, Some(LogFileLevel::Trace), None));
    assert_eq!(options.log_file_path(), "/home/u/.redwood.log");
    assert_eq!(options.log_file_level(), LogFileLevel::Trace);
    assert_eq!(options.stdout_log_level(), LogFileLevel::Info);
}
