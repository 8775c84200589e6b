use sso_pr::aws_sso::{AwsSso, CredentialContext, SsoCacheFile};
use sso_pr::constants::SSO_START_URL;

const NOW: i64 = 1_700_000_000;
const URL: &str = "https://example.awsapps.com/start";

fn entry(start_url: &str, expires_at: &str, token: &str) -> String {
    format!(
        "{{\"startUrl\": \"{}\", \"expiresAt\": \"{}\", \"accessToken\": \"{}\"}}",
        start_url, expires_at, token
    )
}

fn file(mtime: Option<i64>, content: Option<String>) -> SsoCacheFile {
    SsoCacheFile { modified_at: mtime, content }
}

#[test]
fn valid_future_entry_is_valid() {
    let sso = AwsSso::new(String::from("dev"));
    let files = vec![file(Some(1), Some(entry(URL, "2999-01-01T00:00:00Z", "t")))];
    assert!(sso.sso_token_still_valid(&files, URL, NOW));
}

#[test]
fn expired_entry_is_not_valid() {
    let sso = AwsSso::new(String::from("dev"));
    let files = vec![file(Some(1), Some(entry(URL, "2000-01-01T00:00:00Z", "t")))];
    assert!(!sso.sso_token_still_valid(&files, URL, NOW));
}

#[test]
fn other_start_url_is_not_valid() {
    let sso = AwsSso::new(String::from("dev"));
    let files = vec![file(Some(1), Some(entry("https://other/start", "2999-01-01T00:00:00Z", "t")))];
    assert!(!sso.sso_token_still_valid(&files, URL, NOW));
}

#[test]
fn empty_cache_scan_returns_false_without_failing() {
    let sso = AwsSso::new(String::from("dev"));
    let files: Vec<SsoCacheFile> = vec![];
    assert!(!sso.sso_token_still_valid(&files, URL, NOW));
}

#[test]
fn empty_cache_latest_token_fails() {
    let sso = AwsSso::new(String::from("dev"));
    let files: Vec<SsoCacheFile> = vec![];
    let err = sso.get_latest_sso_token(&files).unwrap_err();
    assert_eq!(err.message(), "No SSO cache files found");
}

#[test]
fn corrupt_file_is_skipped_by_scan() {
    let sso = AwsSso::new(String::from("dev"));
    let files = vec![
        file(Some(1), Some(String::from("not json at all"))),
        file(None, None),
        file(Some(2), Some(entry(URL, "2999-01-01T00:00:00Z", "t"))),
    ];
    assert!(sso.sso_token_still_valid(&files, URL, NOW));
}

#[test]
fn corrupt_latest_file_is_fatal_for_token() {
    let sso = AwsSso::new(String::from("dev"));
    let files = vec![
        file(Some(1), Some(entry(URL, "2999-01-01T00:00:00Z", "good"))),
        file(Some(5), Some(String::from("not json at all"))),
    ];
    let err = sso.get_latest_sso_token(&files).unwrap_err();
    assert_eq!(err.message(), "Failed to parse SSO cache file");
}

#[test]
fn unreadable_latest_file_is_fatal_for_token() {
    let sso = AwsSso::new(String::from("dev"));
    let files = vec![
        file(Some(1), Some(entry(URL, "2999-01-01T00:00:00Z", "good"))),
        file(Some(5), None),
    ];
    let err = sso.get_latest_sso_token(&files).unwrap_err();
    assert_eq!(err.message(), "Failed to read SSO cache file");
}

#[test]
fn latest_token_picks_newest_mtime() {
    let sso = AwsSso::new(String::from("dev"));
    let files = vec![
        file(Some(9), Some(entry(URL, "2999-01-01T00:00:00Z", "newest"))),
        file(Some(3), Some(entry(URL, "2999-01-01T00:00:00Z", "old"))),
        file(None, Some(entry(URL, "2999-01-01T00:00:00Z", "no-mtime"))),
    ];
    assert_eq!(sso.get_latest_sso_token(&files).unwrap(), "newest");
}

#[test]
fn latest_token_tie_takes_later_listed_file() {
    let sso = AwsSso::new(String::from("dev"));
    let files = vec![
        file(Some(7), Some(entry(URL, "2999-01-01T00:00:00Z", "first"))),
        file(Some(7), Some(entry(URL, "2999-01-01T00:00:00Z", "second"))),
    ];
    assert_eq!(sso.get_latest_sso_token(&files).unwrap(), "second");
}

#[test]
fn snake_case_cache_fields_are_accepted() {
    let sso = AwsSso::new(String::from("dev"));
    let content = format!(
        "{{\"start_url\": \"{}\", \"expires_at\": \"2999-01-01T00:00:00Z\", \"access_token\": \"snake\"}}",
        URL
    );
    let files = vec![file(Some(1), Some(content))];
    assert!(sso.sso_token_still_valid(&files, URL, NOW));
    assert_eq!(sso.get_latest_sso_token(&files).unwrap(), "snake");
}

#[test]
fn round_trip_of_synthetic_cache_file() {
    let sso = AwsSso::new(String::from("dev"));
    let files = vec![file(Some(42), Some(entry(URL, "2999-12-31T23:59:59Z", "round-trip-token")))];
    assert_eq!(sso.get_latest_sso_token(&files).unwrap(), "round-trip-token");
    assert!(sso.sso_token_still_valid(&files, URL, NOW));
    assert!(!sso.sso_token_still_valid(&files, "https://elsewhere/start", NOW));
}

#[test]
fn login_skips_when_token_valid() {
    let sso = AwsSso::new(String::from("dev"));
    let files = vec![file(Some(1), Some(entry(SSO_START_URL, "2999-01-01T00:00:00Z", "t")))];
    assert!(sso.login(&files, NOW).is_none());
}

#[test]
fn login_runs_when_no_token_valid() {
    let sso = AwsSso::new(String::from("dev"));
    let files = vec![file(Some(1), Some(entry(SSO_START_URL, "2000-01-01T00:00:00Z", "t")))];
    assert_eq!(sso.login(&files, NOW).unwrap(), "aws sso login --sso-session sso");
}

fn config_two_profiles() -> String {
    [
        "[profile a]",
        "sso_account_id = 111111111111",
        "sso_role_name = role-a",
        "region = us-east-1",
        "",
        "[profile b]",
        "sso_account_id = 222222222222",
        "sso_role_name = role-b",
        "region = eu-west-1",
    ]
    .join("\n")
}

#[test]
fn resolve_reads_only_its_own_block() {
    let sso = AwsSso::new(String::from("dev"));
    let config = config_two_profiles();
    let a = sso.get_sso_profile_info(&config, "a").unwrap();
    assert_eq!(a.account_id, "111111111111");
    assert_eq!(a.role_name, "role-a");
    assert_eq!(a.region, "us-east-1");
    let b = sso.get_sso_profile_info(&config, "b").unwrap();
    assert_eq!(b.account_id, "222222222222");
    assert_eq!(b.role_name, "role-b");
    assert_eq!(b.region, "eu-west-1");
}

#[test]
fn missing_region_fails_with_no_partial_result() {
    let sso = AwsSso::new(String::from("dev"));
    let config = "[profile a]\nsso_account_id = 1\nsso_role_name = r\n";
    let err = sso.get_sso_profile_info(config, "a").unwrap_err();
    assert_eq!(err.message(), "Missing one or more required fields in profile block");
}

#[test]
fn unknown_profile_fails() {
    let sso = AwsSso::new(String::from("dev"));
    let err = sso.get_sso_profile_info("[profile a]\nregion = x\n", "missing").unwrap_err();
    assert_eq!(err.message(), "Profile 'missing' not found in AWS config");
}

#[test]
fn repeated_key_last_value_wins() {
    let sso = AwsSso::new(String::from("dev"));
    let block = "sso_account_id = 1\nsso_account_id = 2\nsso_role_name = r\nregion = x\n";
    let info = sso.parse_profile_values(block).unwrap();
    assert_eq!(info.account_id, "2");
}

#[test]
fn unrecognized_keys_are_ignored() {
    let sso = AwsSso::new(String::from("dev"));
    let block = "output = json\nsso_account_id=1\nsso_role_name=r\nregion=x\nextra = y\n";
    let info = sso.parse_profile_values(block).unwrap();
    assert_eq!(info.account_id, "1");
    assert_eq!(info.role_name, "r");
    assert_eq!(info.region, "x");
}

#[test]
fn header_matching_trims_whitespace() {
    let sso = AwsSso::new(String::from("dev"));
    let config = "  [profile a]  \nsso_account_id = 1\nsso_role_name = r\nregion = x\n";
    let info = sso.get_sso_profile_info(config, "a").unwrap();
    assert_eq!(info.account_id, "1");
}

#[test]
fn capture_stops_at_next_section_header() {
    let sso = AwsSso::new(String::from("dev"));
    let block = sso
        .get_profile_block(&config_two_profiles(), "a")
        .unwrap();
    assert!(!block.contains("222222222222"));
    assert!(block.contains("111111111111"));
}

#[test]
fn exchange_command_is_exact() {
    let sso = AwsSso::new(String::from("dev"));
    let info = sso
        .get_sso_profile_info(&config_two_profiles(), "a")
        .unwrap();
    let cmd = sso.exchange_command(&info, "TOKEN");
    assert_eq!(
        cmd,
        "aws sso get-role-credentials --account-id 111111111111 --role-name role-a --access-token TOKEN --region us-east-1"
    );
}

fn exchange_response() -> String {
    String::from(
        "{\"roleCredentials\": {\"accessKeyId\": \"AKID\", \"secretAccessKey\": \"SECRET-REDACTED\", \"sessionToken\": \"SESSION\"}}",
    )
}

#[test]
fn role_credentials_parse_exactly() {
    let sso = AwsSso::new(String::from("dev"));
    let creds = sso.parse_role_credentials(&exchange_response()).unwrap();
    assert_eq!(creds.access_key_id, "AKID");
    assert_eq!(creds.secret_access_key, "SECRET-REDACTED");
    assert_eq!(creds.session_token, "SESSION");
}

#[test]
fn role_credentials_missing_field_fails() {
    let sso = AwsSso::new(String::from("dev"));
    let err = sso
        .parse_role_credentials("{\"roleCredentials\": {\"accessKeyId\": \"AKID\"}}")
        .unwrap_err();
    assert_eq!(err.message(), "Failed to parse AWS CLI response");
}

#[test]
fn set_sso_credentials_fills_the_context() {
    let sso = AwsSso::new(String::from("dev"));
    let mut ctx = CredentialContext::new();
    sso.set_sso_credentials(&mut ctx, &exchange_response()).unwrap();
    assert_eq!(ctx.access_key_id.as_deref(), Some("AKID"));
    assert_eq!(ctx.secret_access_key.as_deref(), Some("SECRET-REDACTED"));
    assert_eq!(ctx.session_token.as_deref(), Some("SESSION"));
}

#[test]
fn set_sso_credentials_leaves_context_untouched_on_parse_failure() {
    let sso = AwsSso::new(String::from("dev"));
    let mut ctx = CredentialContext::new();
    sso.set_sso_credentials(&mut ctx, &exchange_response()).unwrap();
    let err = sso.set_sso_credentials(&mut ctx, "garbage").unwrap_err();
    assert_eq!(err.message(), "Failed to parse AWS CLI response");
    assert_eq!(ctx.access_key_id.as_deref(), Some("AKID"));
    assert_eq!(ctx.secret_access_key.as_deref(), Some("SECRET-REDACTED"));
    assert_eq!(ctx.session_token.as_deref(), Some("SESSION"));
}
