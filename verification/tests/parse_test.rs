use hammer_sickle::codes::{parse_code, parse_success_codes};
use hammer_sickle::foreman::hosts_url;
use hammer_sickle::level::{eq_ignore_case, parse_log_format, parse_log_level, LogFormat, LogLevel};

#[test]
fn codes_are_read_like_i32_from_str() {
  assert_eq!(parse_code("0"), Some(0));
  assert_eq!(parse_code("42"), Some(42));
  assert_eq!(parse_code("+5"), Some(5));
  assert_eq!(parse_code("-0"), Some(0));
  assert_eq!(parse_code("007"), Some(7));
  assert_eq!(parse_code("2147483647"), Some(i32::MAX));
  assert_eq!(parse_code("-2147483648"), Some(i32::MIN));
  assert_eq!(parse_code("2147483648"), None);
  assert_eq!(parse_code("-2147483649"), None);
  assert_eq!(parse_code("99999999999999999999"), None);
  assert_eq!(parse_code(""), None);
  assert_eq!(parse_code("-"), None);
  assert_eq!(parse_code("+"), None);
  assert_eq!(parse_code(" 1"), None);
  assert_eq!(parse_code("1a"), None);
  assert_eq!(parse_code("--1"), None);
  for text in ["0", "17", "-3", "+12", "2147483647", "-2147483648", "x", "", "1e3"] {
    assert_eq!(parse_code(text), text.parse::<i32>().ok(), "{}", text);
  }
}

#[test]
fn code_lists_split_on_commas() {
  assert_eq!(parse_success_codes("0,2"), Ok(vec![0, 2]));
  assert_eq!(parse_success_codes("0"), Ok(vec![0]));
  assert_eq!(parse_success_codes("1,-1,255"), Ok(vec![1, -1, 255]));
  assert_eq!(parse_success_codes(""), Err(String::new()));
  assert_eq!(parse_success_codes("0,,2"), Err(String::new()));
  assert_eq!(parse_success_codes("0,2,"), Err(String::new()));
  assert_eq!(parse_success_codes("0,x,y"), Err("x".to_string()));
  assert_eq!(parse_success_codes("a,1"), Err("a".to_string()));
}

#[test]
fn levels_are_read_without_regard_to_case() {
  assert_eq!(parse_log_level("trace"), Ok(LogLevel::Trace));
  assert_eq!(parse_log_level("DEBUG"), Ok(LogLevel::Debug));
  assert_eq!(parse_log_level("Info"), Ok(LogLevel::Info));
  assert_eq!(parse_log_level("wArN"), Ok(LogLevel::Warn));
  assert_eq!(parse_log_level("error"), Ok(LogLevel::Error));
  assert_eq!(
    parse_log_level("warning"),
    Err("invalid log level 'warning' (expected trace, debug, info, warn or error)".to_string())
  );
  assert_eq!(parse_log_format("JSON"), Ok(LogFormat::Json));
  assert_eq!(parse_log_format("text"), Ok(LogFormat::Text));
  assert_eq!(
    parse_log_format("xml"),
    Err("invalid log format 'xml' (expected text or json)".to_string())
  );
  assert!(eq_ignore_case("ÄbC", "Äbc"));
  assert!(!eq_ignore_case("ä", "Ä"));
  assert!(!eq_ignore_case("info", "inf"));
}

#[test]
fn level_names_read_back() {
  for level in [LogLevel::Trace, LogLevel::Debug, LogLevel::Info, LogLevel::Warn, LogLevel::Error] {
    assert_eq!(parse_log_level(level.as_str()), Ok(level));
  }
  for format in [LogFormat::Text, LogFormat::Json] {
    assert_eq!(parse_log_format(format.as_str()), Ok(format));
  }
}

#[test]
fn hosts_url_joins_base_and_search() {
  assert_eq!(
    hosts_url("https://foreman.example.com", "os = Debian"),
    "https://foreman.example.com/api/hosts?search=os = Debian"
  );
  assert_eq!(hosts_url("", ""), "/api/hosts?search=");
}
