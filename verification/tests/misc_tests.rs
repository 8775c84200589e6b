use sso_pr::aws_cli::AwsCli;
use sso_pr::aws_sso::SsoCacheFile;
use sso_pr::constants::SSO_START_URL;
use sso_pr::location::Location;
use sso_pr::logger::{LogLevel, Logger};
use sso_pr::text;
use sso_pr::zsh_command::ZshCommand;

#[test]
fn repo_name_is_last_path_segment() {
    let loc = Location::new();
    assert_eq!(loc.get_name_from_output("/home/dev/code/myrepo\n").unwrap(), "myrepo");
}

#[test]
fn repo_name_without_slash_is_whole_trimmed_output() {
    let loc = Location::new();
    assert_eq!(loc.get_name_from_output("  bare  ").unwrap(), "bare");
}

#[test]
fn successful_command_yields_stdout() {
    let zsh = ZshCommand::new();
    let out = zsh
        .interpret_output(String::from("hello"), String::from(""), true)
        .unwrap();
    assert_eq!(out, "hello");
}

#[test]
fn failed_command_preserves_stderr_in_the_error() {
    let zsh = ZshCommand::new();
    let e = zsh
        .interpret_output(String::from("partial"), String::from("boom: broken pipe"), false)
        .unwrap_err();
    assert_eq!(e.message(), "boom: broken pipe");
}

#[test]
fn logger_defaults_to_trace_and_filters_by_level() {
    let logger = Logger::new();
    assert!(logger.debug("d"));
    assert!(logger.info("i"));
    assert!(logger.warn("w"));
    assert!(logger.error("e"));
    let quiet = Logger { level: LogLevel::Warn };
    assert!(!quiet.debug("d"));
    assert!(!quiet.info("i"));
    assert!(quiet.warn("w"));
    assert!(quiet.error("e"));
}

#[test]
fn log_levels_name_themselves() {
    assert_eq!(LogLevel::Trace.as_str(), "trace");
    assert_eq!(LogLevel::Debug.as_str(), "debug");
    assert_eq!(LogLevel::Info.as_str(), "info");
    assert_eq!(LogLevel::Warn.as_str(), "warn");
    assert_eq!(LogLevel::Error.as_str(), "error");
}

#[test]
fn npm_and_pip_login_commands_are_exact() {
    let cli = AwsCli::new();
    assert_eq!(
        cli.login_npm(),
        "aws codeartifact login --tool npm --repository conform5-npm-common --domain conform --domain-owner 123456789012 --region us-east-1 --profile dev"
    );
    assert_eq!(
        cli.login_pip(),
        "aws codeartifact login --tool pip --repository conform5-python-common --domain conform5-python --domain-owner 123456789012 --region us-east-1 --profile dev"
    );
}

#[test]
fn cli_login_delegates_to_the_token_check() {
    let cli = AwsCli::new();
    let valid = format!(
        "{{\"startUrl\": \"{}\", \"expiresAt\": \"2999-01-01T00:00:00Z\"}}",
        SSO_START_URL
    );
    let files = vec![SsoCacheFile { modified_at: Some(1), content: Some(valid) }];
    assert!(cli.login(&files, 1_700_000_000).is_none());
    let none: Vec<SsoCacheFile> = vec![];
    assert_eq!(cli.login(&none, 1_700_000_000).unwrap(), "aws sso login --sso-session sso");
}

#[test]
fn trimming_matches_rust_semantics() {
    assert_eq!(text::trim_str("  a b \t\r\n"), "a b");
    assert_eq!(text::trim_str("\n\n"), "");
    assert_eq!(text::trim_str("x"), "x");
}

#[test]
fn line_splitting_matches_rust_semantics() {
    let cases = [
        "",
        "a",
        "a\n",
        "a\nb",
        "a\r\nb\r\n",
        "\n",
        "a\n\n",
        "tail\r",
    ];
    for s in cases {
        let got = text::split_lines(s);
        let want: Vec<String> = s.lines().map(String::from).collect();
        assert_eq!(got, want, "lines of {:?}", s);
    }
}

#[test]
fn substring_search_finds_inner_matches() {
    assert!(text::contains_sub("abcRepositoryDoesNotExistExceptionxyz", "RepositoryDoesNotExistException"));
    assert!(!text::contains_sub("abc", "abcd"));
    assert!(text::contains_sub("anything", ""));
}
