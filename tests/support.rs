use lod::command::{Command, Error};
use lod::config::{ConfigError, Settings};
use lod::decimal::to_decimal;
use lod::program::ProcessOutput;
use lod::waiting_child::WaitingChild;
use lod::{autohide_from_stdout, dock_autohide_query, DockError};

#[test]
fn decimal_text() {
    assert_eq!(to_decimal(0), "0");
    assert_eq!(to_decimal(7), "7");
    assert_eq!(to_decimal(10), "10");
    assert_eq!(to_decimal(4096), "4096");
    assert_eq!(to_decimal(u32::MAX), "4294967295");
}

#[test]
fn kill_command_names_the_process() {
    let child = WaitingChild::new(31337);
    assert_eq!(child.process_id(), 31337);
    let command = child.kill();
    assert_eq!(command.program(), "kill");
    assert_eq!(command.args(), &vec![String::from("-9"), String::from("31337")]);
}

#[test]
fn command_succeeds_on_zero() {
    let command = Command::new(String::from("echo"), vec![String::from("hi")]);
    assert_eq!(command.program(), "echo");
    let out = command
        .execute(Ok(ProcessOutput { status_code: Some(0), stdout: b"hi\n".to_vec(), stderr: vec![] }))
        .ok()
        .unwrap();
    assert_eq!(out.status_code(), 0);
    assert_eq!(out.stdout(), &b"hi\n".to_vec());
    assert!(out.stderr().is_empty());
}

#[test]
fn command_errors() {
    let command = || Command::new(String::from("false"), vec![]);
    let err = command()
        .execute(Ok(ProcessOutput { status_code: Some(1), stdout: vec![], stderr: vec![3] }))
        .err()
        .unwrap();
    assert_eq!(err.to_string(), "Non-zero status code: 1");
    match err {
        Error::NonZeroStatusCode(o) => assert_eq!(o.stderr(), &vec![3]),
        _ => panic!("expected a non-zero status code"),
    }
    let err = command()
        .execute(Ok(ProcessOutput { status_code: None, stdout: vec![], stderr: vec![] }))
        .err()
        .unwrap();
    assert!(matches!(err, Error::BadStatusCode));
    assert_eq!(err.to_string(), "Unable to get status code from `Command`");
    let err = command()
        .execute(Err(std::io::Error::from(std::io::ErrorKind::NotFound)))
        .err()
        .unwrap();
    assert!(matches!(err, Error::Io(_)));
    assert_eq!(err.to_string(), "entity not found");
}

const FULL: &str = "desktop_applescript = \"tell app \\\"Dock\\\" to quit\"\n\
laptop_applescript = \"beep\"\n\
caffeinate_app = \"caffeinate\"\n\
caffeinate_options = \"-d\"\n";

#[test]
fn settings_from_a_full_file() {
    let settings = Settings::parse(FULL).ok().unwrap();
    assert_eq!(settings.desktop_applescript, "tell app \"Dock\" to quit");
    assert_eq!(settings.laptop_applescript, "beep");
    assert_eq!(settings.caffeinate_app.as_deref(), Some("caffeinate"));
    assert_eq!(settings.caffeinate_options.as_deref(), Some("-d"));
}

#[test]
fn settings_optional_keys() {
    let text = "desktop_applescript = \"a\"\nlaptop_applescript = \"b\"\ncaffeinate_app = 3\n";
    let settings = Settings::parse(text).ok().unwrap();
    assert_eq!(settings.caffeinate_app, None);
    assert_eq!(settings.caffeinate_options, None);
}

#[test]
fn settings_missing_key() {
    let err = Settings::parse("laptop_applescript = \"b\"\n").err().unwrap();
    assert!(matches!(&err, ConfigError::Missing(k) if k == "desktop_applescript"));
    assert_eq!(
        err.to_string(),
        "`desktop_applescript` is missing from config.toml. Please add, or revert to defaults."
    );
    let err = Settings::parse("desktop_applescript = \"a\"\n").err().unwrap();
    assert!(matches!(&err, ConfigError::Missing(k) if k == "laptop_applescript"));
}

#[test]
fn settings_malformed_key() {
    let err = Settings::parse("desktop_applescript = \"a\"\nlaptop_applescript = [1]\n")
        .err()
        .unwrap();
    assert!(matches!(&err, ConfigError::Malformed(k) if k == "laptop_applescript"));
    assert_eq!(
        err.to_string(),
        "`laptop_applescript` is malformed in config.toml. Please ensure it is valid \
AppleScript as a TOML string (see https://quickref.me/toml)."
    );
}

#[test]
fn settings_not_toml() {
    let err = Settings::parse("desktop_applescript = \n").err().unwrap();
    assert!(matches!(err, ConfigError::Parse(ref m) if !m.is_empty()));
}

#[test]
fn dock_query_and_answer() {
    let query = dock_autohide_query();
    assert_eq!(query.program(), "defaults");
    assert_eq!(query.args().len(), 3);
    assert!(matches!(autohide_from_stdout(b"1\n"), Ok(true)));
    assert!(matches!(autohide_from_stdout(b"0\n"), Ok(false)));
    assert!(matches!(autohide_from_stdout(b"1"), Err(DockError::UnexpectedLength)));
    assert!(matches!(autohide_from_stdout(b"10\n"), Err(DockError::UnexpectedLength)));
    assert!(matches!(autohide_from_stdout(b"x\n"), Err(DockError::UnexpectedDigit(b'x'))));
}

#[test]
fn config_getters_and_script_cleanup() {
    let dir = tempfile::tempdir().unwrap();
    let where_scripts_are = dir.path().to_path_buf();
    let mut config = lod::Config::new(
        Some(dir),
        String::from("/d.scpt"),
        String::from("/l.scpt"),
        Some(String::from("caffeinate")),
        None,
    );
    assert_eq!(config.desktop_applescript_path(), "/d.scpt");
    assert_eq!(config.laptop_applescript_path(), "/l.scpt");
    assert_eq!(config.caffeinate_app(), Some("caffeinate"));
    assert_eq!(config.caffeinate_options(), None);
    assert!(where_scripts_are.exists());
    config.delete_apple_scripts();
    assert!(!where_scripts_are.exists());
    assert_eq!(config.desktop_applescript_path(), "/d.scpt");
}
