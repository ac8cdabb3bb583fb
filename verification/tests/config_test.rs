use hammer_sickle::config::{
  CliRaw, Config, ConfigError, ConfigFileChoice, ConfigFileRaw, DEFAULT_CONCURRENCY,
};
use hammer_sickle::level::{LogFormat, LogLevel};

fn cli() -> CliRaw {
  CliRaw {
    command: Some("uptime".to_string()),
    search: "os = Debian".to_string(),
    foreman_url: Some("https://foreman.example.com".to_string()),
    foreman_user: None,
    foreman_password: Some("secret".to_string()),
    log_level: None,
    log_format: None,
    concurrency: None,
    config: None,
    report_json: false,
    success_codes: None,
  }
}

fn refusal(r: Result<Config, ConfigError>) -> String {
  match r {
    Err(ConfigError::Validation(m)) => m,
    Err(_) => panic!("not a validation error"),
    Ok(_) => panic!("configuration accepted"),
  }
}

fn accepted(r: Result<Config, ConfigError>) -> Config {
  match r {
    Ok(c) => c,
    Err(ConfigError::Validation(m)) => panic!("refused: {}", m),
    Err(_) => panic!("refused"),
  }
}

#[test]
fn defaults_apply_when_nothing_is_set() {
  let c = accepted(Config::from_cli_and_file(
    cli(),
    ConfigFileRaw::default(),
    Some("alice".to_string()),
  ));
  assert_eq!(c.log_level, LogLevel::Info);
  assert_eq!(c.log_format, LogFormat::Text);
  assert_eq!(c.concurrency, DEFAULT_CONCURRENCY);
  assert_eq!(c.concurrency, 20);
  assert_eq!(c.foreman_user, "alice");
  assert_eq!(c.success_codes, vec![0]);
  assert_eq!(c.command.as_deref(), Some("uptime"));
  assert_eq!(c.search, "os = Debian");
  assert!(!c.report_json);
}

#[test]
fn command_line_wins_over_file_and_file_over_default() {
  let mut line = cli();
  line.log_level = Some("debug".to_string());
  line.foreman_user = Some("from-cli".to_string());
  let file = ConfigFileRaw {
    log_level: Some("warn".to_string()),
    log_format: Some("json".to_string()),
    foreman_url: Some("https://other.example.com".to_string()),
    foreman_user: Some("from-file".to_string()),
    foreman_password: Some("file-secret".to_string()),
    concurrency: Some(4),
  };
  let c = accepted(Config::from_cli_and_file(line, file, Some("login".to_string())));
  assert_eq!(c.log_level, LogLevel::Debug);
  assert_eq!(c.log_format, LogFormat::Json);
  assert_eq!(c.foreman_url, "https://foreman.example.com");
  assert_eq!(c.foreman_user, "from-cli");
  assert_eq!(c.foreman_password, "secret");
  assert_eq!(c.concurrency, 4);
}

#[test]
fn file_user_beats_login_name() {
  let file = ConfigFileRaw {
    foreman_user: Some("from-file".to_string()),
    ..ConfigFileRaw::default()
  };
  let c = accepted(Config::from_cli_and_file(cli(), file, Some("login".to_string())));
  assert_eq!(c.foreman_user, "from-file");
}

#[test]
fn zero_concurrency_is_kept() {
  let mut line = cli();
  line.concurrency = Some(0);
  let c = accepted(Config::from_cli_and_file(line, ConfigFileRaw::default(), Some("u".to_string())));
  assert_eq!(c.concurrency, 0);
}

#[test]
fn missing_url_is_refused() {
  let mut line = cli();
  line.foreman_url = None;
  let m = refusal(Config::from_cli_and_file(line, ConfigFileRaw::default(), Some("u".to_string())));
  assert_eq!(m, "Foreman URL is required (--foreman-url or FOREMAN_URL)");
}

#[test]
fn missing_user_is_refused() {
  let m = refusal(Config::from_cli_and_file(cli(), ConfigFileRaw::default(), None));
  assert_eq!(
    m,
    "Foreman user could not be determined (--foreman-user, FOREMAN_USER, or USER)"
  );
}

#[test]
fn missing_password_is_refused() {
  let mut line = cli();
  line.foreman_password = None;
  let m = refusal(Config::from_cli_and_file(line, ConfigFileRaw::default(), Some("u".to_string())));
  assert_eq!(m, "Foreman password is required (--foreman-password or FOREMAN_PASS)");
}

#[test]
fn bad_log_level_is_refused_before_missing_url() {
  let mut line = cli();
  line.log_level = Some("loud".to_string());
  line.foreman_url = None;
  let m = refusal(Config::from_cli_and_file(line, ConfigFileRaw::default(), None));
  assert_eq!(
    m,
    "invalid log level 'loud' (expected trace, debug, info, warn or error)"
  );
}

#[test]
fn bad_log_format_is_refused() {
  let file = ConfigFileRaw {
    log_format: Some("yaml".to_string()),
    ..ConfigFileRaw::default()
  };
  let m = refusal(Config::from_cli_and_file(cli(), file, Some("u".to_string())));
  assert_eq!(m, "invalid log format 'yaml' (expected text or json)");
}

#[test]
fn bad_success_code_is_refused() {
  let mut line = cli();
  line.success_codes = Some("0, 2".to_string());
  let m = refusal(Config::from_cli_and_file(line, ConfigFileRaw::default(), Some("u".to_string())));
  assert_eq!(m, "invalid success code ' 2' (expected comma-separated integers)");
}

#[test]
fn report_json_and_codes_are_taken_from_the_command_line() {
  let mut line = cli();
  line.report_json = true;
  line.success_codes = Some("0,-1,+7".to_string());
  let c = accepted(Config::from_cli_and_file(line, ConfigFileRaw::default(), Some("u".to_string())));
  assert!(c.report_json);
  assert_eq!(c.success_codes, vec![0, -1, 7]);
}

#[test]
fn config_file_choice_prefers_the_named_file() {
  let mut line = cli();
  line.config = Some("/etc/hammer.toml".to_string());
  match line.config_file_choice(true) {
    ConfigFileChoice::Named(p) => assert_eq!(p, "/etc/hammer.toml"),
    _ => panic!("expected the named file"),
  }
  let line = cli();
  match line.config_file_choice(true) {
    ConfigFileChoice::Default(p) => assert_eq!(p, "config.toml"),
    _ => panic!("expected the default file"),
  }
  assert!(matches!(line.config_file_choice(false), ConfigFileChoice::Absent));
}
