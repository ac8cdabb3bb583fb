//! Settings in three stages: what the command line (and its environment
//! variables) gave, what the configuration file gave, and the merged,
//! checked configuration of a run. A command-line value wins over a file
//! value, which wins over the built-in default.
use vstd::prelude::*;

use crate::codes::{all_codes, codes_of, first_bad_item, parse_success_codes, split_commas};
use crate::level::{
    bad_format_message, bad_level_message, format_named, lemma_format_name_round_trip,
    lemma_level_name_round_trip, level_named, parse_log_format, parse_log_level, LogFormat,
    LogLevel,
};
use crate::text::concat3;

verus! {

/// The file that is read when none is named.
pub const DEFAULT_CONFIG_FILE: &'static str = "config.toml";

/// The number of hosts contacted at once when nothing else is set.
pub const DEFAULT_CONCURRENCY: usize = 20;

/// Why the configuration could not be built. `reason` is the text of the
/// underlying read or parse error.
pub enum ConfigError {
    ConfigFileRead { path: String, reason: String },
    ConfigFileParse { path: String, reason: String },
    Validation(String),
}

/// What the command line gave, each setting as typed (or as read from its
/// environment variable).
pub struct CliRaw {
    /// Shell command to run on matched hosts (none: list the hostnames).
    pub command: Option<String>,
    /// Foreman host search expression.
    pub search: String,
    pub foreman_url: Option<String>,
    pub foreman_user: Option<String>,
    pub foreman_password: Option<String>,
    pub log_level: Option<String>,
    pub log_format: Option<String>,
    /// Hosts contacted at once; 0 lets the thread pool pick.
    pub concurrency: Option<usize>,
    /// Path of the configuration file.
    pub config: Option<String>,
    /// Print a JSON report of the per-host results on standard output.
    pub report_json: bool,
    /// Comma-separated exit codes that count as success.
    pub success_codes: Option<String>,
}

/// What the configuration file gave.
pub struct ConfigFileRaw {
    pub log_level: Option<String>,
    pub log_format: Option<String>,
    pub foreman_url: Option<String>,
    pub foreman_user: Option<String>,
    pub foreman_password: Option<String>,
    pub concurrency: Option<usize>,
}

impl Default for ConfigFileRaw {
    /// A file that sets nothing.
    fn default() -> (file: Self)
        ensures
            file.log_level is None,
            file.log_format is None,
            file.foreman_url is None,
            file.foreman_user is None,
            file.foreman_password is None,
            file.concurrency is None,
    {
        ConfigFileRaw {
            log_level: None,
            log_format: None,
            foreman_url: None,
            foreman_user: None,
            foreman_password: None,
            concurrency: None,
        }
    }
}

/// The checked configuration of a run.
pub struct Config {
    pub log_level: LogLevel,
    pub log_format: LogFormat,
    pub command: Option<String>,
    pub search: String,
    pub foreman_url: String,
    pub foreman_user: String,
    pub foreman_password: String,
    /// 0 lets the thread pool pick (one thread per logical CPU).
    pub concurrency: usize,
    pub report_json: bool,
    pub success_codes: Vec<i32>,
}

/// Which configuration file is to be read.
pub enum ConfigFileChoice {
    /// The file named on the command line.
    Named(String),
    /// The default file, which exists.
    Default(String),
    /// No file: every file setting is absent.
    Absent,
}

/// The first of two optional values that is present.
pub open spec fn first_of<T>(a: Option<T>, b: Option<T>) -> Option<T> {
    match a {
        Some(x) => Some(x),
        None => b,
    }
}

/// The text of an optional value, or `default` when it is absent.
pub open spec fn text_or(o: Option<String>, default: Seq<char>) -> Seq<char> {
    match o {
        Some(s) => s@,
        None => default,
    }
}

pub open spec fn level_text(cli: CliRaw, file: ConfigFileRaw) -> Seq<char> {
    text_or(first_of(cli.log_level, file.log_level), "info"@)
}

pub open spec fn format_text(cli: CliRaw, file: ConfigFileRaw) -> Seq<char> {
    text_or(first_of(cli.log_format, file.log_format), "text"@)
}

pub open spec fn url_choice(cli: CliRaw, file: ConfigFileRaw) -> Option<String> {
    first_of(cli.foreman_url, file.foreman_url)
}

/// The user: the command line's, else the file's, else the login name.
pub open spec fn user_choice(cli: CliRaw, file: ConfigFileRaw, login: Option<String>) -> Option<
    String,
> {
    first_of(first_of(cli.foreman_user, file.foreman_user), login)
}

pub open spec fn password_choice(cli: CliRaw, file: ConfigFileRaw) -> Option<String> {
    first_of(cli.foreman_password, file.foreman_password)
}

pub open spec fn concurrency_choice(cli: CliRaw, file: ConfigFileRaw) -> usize {
    match first_of(cli.concurrency, file.concurrency) {
        Some(n) => n,
        None => DEFAULT_CONCURRENCY,
    }
}

/// Every item of the success-code list, when one is given, is an `i32`.
pub open spec fn codes_text_ok(codes: Option<String>) -> bool {
    match codes {
        Some(t) => all_codes(split_commas(t@)),
        None => true,
    }
}

/// The success codes: those listed on the command line, else just 0.
pub open spec fn codes_choice(codes: Option<String>) -> Seq<i32> {
    match codes {
        Some(t) => codes_of(split_commas(t@)),
        None => seq![0i32],
    }
}

pub open spec fn url_required_message() -> Seq<char> {
    "Foreman URL is required (--foreman-url or FOREMAN_URL)"@
}

pub open spec fn user_required_message() -> Seq<char> {
    "Foreman user could not be determined (--foreman-user, FOREMAN_USER, or USER)"@
}

pub open spec fn password_required_message() -> Seq<char> {
    "Foreman password is required (--foreman-password or FOREMAN_PASS)"@
}

pub open spec fn bad_code_message(item: Seq<char>) -> Seq<char> {
    "invalid success code '"@ + item + "' (expected comma-separated integers)"@
}

/// Whether `r` is a validation error whose text is `message`.
pub open spec fn refused_with(r: Result<Config, ConfigError>, message: Seq<char>) -> bool {
    r matches Err(ConfigError::Validation(m)) && m@ == message
}

/// Each merged setting is the command line's when it gives one, else the
/// file's, else the default; the user falls back last to the login name.
pub proof fn lemma_setting_precedence(cli: CliRaw, file: ConfigFileRaw, login: Option<String>)
    ensures
        cli.log_level matches Some(t) ==> level_text(cli, file) == t@,
        cli.log_level is None ==> (file.log_level matches Some(t) ==> level_text(cli, file) == t@),
        cli.log_level is None && file.log_level is None ==> level_text(cli, file) == "info"@,
        cli.log_format matches Some(t) ==> format_text(cli, file) == t@,
        cli.log_format is None ==> (file.log_format matches Some(t) ==> format_text(cli, file)
            == t@),
        cli.log_format is None && file.log_format is None ==> format_text(cli, file) == "text"@,
        cli.foreman_url matches Some(u) ==> url_choice(cli, file) == Some(u),
        cli.foreman_url is None ==> url_choice(cli, file) == file.foreman_url,
        cli.foreman_user matches Some(u) ==> user_choice(cli, file, login) == Some(u),
        cli.foreman_user is None ==> (file.foreman_user matches Some(u) ==> user_choice(
            cli,
            file,
            login,
        ) == Some(u)),
        cli.foreman_user is None && file.foreman_user is None ==> user_choice(cli, file, login)
            == login,
        cli.foreman_password matches Some(p) ==> password_choice(cli, file) == Some(p),
        cli.foreman_password is None ==> password_choice(cli, file) == file.foreman_password,
        cli.concurrency matches Some(n) ==> concurrency_choice(cli, file) == n,
        cli.concurrency is None ==> (file.concurrency matches Some(n) ==> concurrency_choice(
            cli,
            file,
        ) == n),
        cli.concurrency is None && file.concurrency is None ==> concurrency_choice(cli, file) == 20,
        cli.success_codes is None ==> codes_choice(cli.success_codes) == seq![0i32],
{
}

impl CliRaw {
    /// The file to read: the one named on the command line, else the
    /// default file when it exists, else none.
    pub fn config_file_choice(&self, default_file_exists: bool) -> (choice: ConfigFileChoice)
        ensures
            self.config matches Some(p) ==> choice == ConfigFileChoice::Named(p),
            self.config is None && default_file_exists ==> (choice matches ConfigFileChoice::Default(
                p,
            ) && p@ == DEFAULT_CONFIG_FILE@),
            self.config is None && !default_file_exists ==> choice is Absent,
    {
        match &self.config {
            Some(p) => ConfigFileChoice::Named(p.clone()),
            None => if default_file_exists {
                ConfigFileChoice::Default(String::from_str(DEFAULT_CONFIG_FILE))
            } else {
                ConfigFileChoice::Absent
            },
        }
    }
}

fn or_else<T>(a: Option<T>, b: Option<T>) -> (r: Option<T>)
    ensures
        r == first_of(a, b),
{
    match a {
        Some(x) => Some(x),
        None => b,
    }
}

impl Config {
    /// Merges the command line, the configuration file and the login name
    /// (`$USER`, if set) into the configuration of a run. The checks come
    /// in this order, and the first that fails refuses the configuration:
    /// log level, log format, URL, user, password, success codes.
    pub fn from_cli_and_file(cli: CliRaw, file: ConfigFileRaw, login_user: Option<String>) -> (r:
        Result<Config, ConfigError>)
        ensures
            level_named(level_text(cli, file)) is None ==> refused_with(
                r,
                bad_level_message(level_text(cli, file)),
            ),
            level_named(level_text(cli, file)) is Some && format_named(format_text(cli, file)) is None
                ==> refused_with(r, bad_format_message(format_text(cli, file))),
            level_named(level_text(cli, file)) is Some && format_named(format_text(cli, file)) is Some
                && url_choice(cli, file) is None ==> refused_with(r, url_required_message()),
            level_named(level_text(cli, file)) is Some && format_named(format_text(cli, file)) is Some
                && url_choice(cli, file) is Some && user_choice(cli, file, login_user) is None
                ==> refused_with(r, user_required_message()),
            level_named(level_text(cli, file)) is Some && format_named(format_text(cli, file)) is Some
                && url_choice(cli, file) is Some && user_choice(cli, file, login_user) is Some
                && password_choice(cli, file) is None ==> refused_with(
                r,
                password_required_message(),
            ),
            level_named(level_text(cli, file)) is Some && format_named(format_text(cli, file)) is Some
                && url_choice(cli, file) is Some && user_choice(cli, file, login_user) is Some
                && password_choice(cli, file) is Some && !codes_text_ok(cli.success_codes)
                ==> refused_with(
                r,
                bad_code_message(first_bad_item(split_commas(cli.success_codes->0@))),
            ),
            r is Ok <==> (level_named(level_text(cli, file)) is Some && format_named(
                format_text(cli, file),
            ) is Some && url_choice(cli, file) is Some && user_choice(cli, file, login_user) is Some
                && password_choice(cli, file) is Some && codes_text_ok(cli.success_codes)),
            r matches Ok(c) ==> {
                &&& Some(c.log_level) == level_named(level_text(cli, file))
                &&& Some(c.log_format) == format_named(format_text(cli, file))
                &&& c.command == cli.command
                &&& c.search == cli.search
                &&& Some(c.foreman_url) == url_choice(cli, file)
                &&& Some(c.foreman_user) == user_choice(cli, file, login_user)
                &&& Some(c.foreman_password) == password_choice(cli, file)
                &&& c.concurrency == concurrency_choice(cli, file)
                &&& c.report_json == cli.report_json
                &&& c.success_codes@ == codes_choice(cli.success_codes)
            },
            r matches Ok(c) ==> {
                &&& (cli.log_level matches Some(t) ==> Some(c.log_level) == level_named(t@))
                &&& (cli.log_level is None ==> (file.log_level matches Some(t) ==> Some(c.log_level)
                    == level_named(t@)))
                &&& (cli.log_level is None && file.log_level is None ==> c.log_level
                    == LogLevel::Info)
                &&& (cli.log_format matches Some(t) ==> Some(c.log_format) == format_named(t@))
                &&& (cli.log_format is None ==> (file.log_format matches Some(t) ==> Some(
                    c.log_format,
                ) == format_named(t@)))
                &&& (cli.log_format is None && file.log_format is None ==> c.log_format
                    == LogFormat::Text)
                &&& (cli.foreman_url matches Some(u) ==> c.foreman_url == u)
                &&& (cli.foreman_url is None ==> (file.foreman_url matches Some(u) ==> c.foreman_url
                    == u))
                &&& (cli.foreman_user matches Some(u) ==> c.foreman_user == u)
                &&& (cli.foreman_user is None ==> (file.foreman_user matches Some(u) ==> c.foreman_user
                    == u))
                &&& (cli.foreman_user is None && file.foreman_user is None ==> (login_user matches Some(
                    u,
                ) ==> c.foreman_user == u))
                &&& (cli.foreman_password matches Some(p) ==> c.foreman_password == p)
                &&& (cli.foreman_password is None ==> (file.foreman_password matches Some(p)
                    ==> c.foreman_password == p))
                &&& (cli.concurrency matches Some(n) ==> c.concurrency == n)
                &&& (cli.concurrency is None ==> (file.concurrency matches Some(n) ==> c.concurrency
                    == n))
                &&& (cli.concurrency is None && file.concurrency is None ==> c.concurrency == 20)
                &&& (cli.success_codes is None ==> c.success_codes@ == seq![0i32])
            },
    {
        proof {
            lemma_level_name_round_trip(LogLevel::Info);
            lemma_format_name_round_trip(LogFormat::Text);
        }
        let ghost cli0 = cli;
        let ghost file0 = file;
        let level_setting = or_else(cli.log_level, file.log_level);
        let log_level = match level_setting {
            Some(t) => parse_log_level(t.as_str()),
            None => parse_log_level("info"),
        };
        let log_level = match log_level {
            Ok(l) => l,
            Err(m) => {
                return Err(ConfigError::Validation(m));
            },
        };
        let format_setting = or_else(cli.log_format, file.log_format);
        let log_format = match format_setting {
            Some(t) => parse_log_format(t.as_str()),
            None => parse_log_format("text"),
        };
        let log_format = match log_format {
            Ok(f) => f,
            Err(m) => {
                return Err(ConfigError::Validation(m));
            },
        };
        let foreman_url = match or_else(cli.foreman_url, file.foreman_url) {
            Some(u) => u,
            None => {
                return Err(
                    ConfigError::Validation(
                        String::from_str("Foreman URL is required (--foreman-url or FOREMAN_URL)"),
                    ),
                );
            },
        };
        let foreman_user = match or_else(or_else(cli.foreman_user, file.foreman_user), login_user) {
            Some(u) => u,
            None => {
                return Err(
                    ConfigError::Validation(
                        String::from_str(
                            "Foreman user could not be determined (--foreman-user, FOREMAN_USER, or USER)",
                        ),
                    ),
                );
            },
        };
        let foreman_password = match or_else(cli.foreman_password, file.foreman_password) {
            Some(p) => p,
            None => {
                return Err(
                    ConfigError::Validation(
                        String::from_str(
                            "Foreman password is required (--foreman-password or FOREMAN_PASS)",
                        ),
                    ),
                );
            },
        };
        let success_codes = match &cli.success_codes {
            Some(t) => match parse_success_codes(t.as_str()) {
                Ok(codes) => codes,
                Err(item) => {
                    return Err(
                        ConfigError::Validation(
                            concat3(
                                "invalid success code '",
                                item.as_str(),
                                "' (expected comma-separated integers)",
                            ),
                        ),
                    );
                },
            },
            None => {
                let mut codes: Vec<i32> = Vec::new();
                codes.push(0);
                assert(codes@ =~= seq![0i32]);
                codes
            },
        };
        let concurrency = match or_else(cli.concurrency, file.concurrency) {
            Some(n) => n,
            None => DEFAULT_CONCURRENCY,
        };
        Ok(
            Config {
                log_level,
                log_format,
                command: cli.command,
                search: cli.search,
                foreman_url,
                foreman_user,
                foreman_password,
                concurrency,
                report_json: cli.report_json,
                success_codes,
            },
        )
    }
}

} // verus!
