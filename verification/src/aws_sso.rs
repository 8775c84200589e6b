//! SSO credential resolution: the profile section of the configuration text,
//! the cached session tokens, and the exchange for role credentials.
//!
//! Reading `~/.aws/config` and the cache directory, and running the exchange
//! command, happen outside the library; their text comes in as plain values.

use vstd::prelude::*;
use vstd::string::*;
use crate::custom_error::{CustomError, CustomResult};
use crate::json::{json_str_at, json_str_at2, json_string_field, json_string_field2};
use crate::logger::Logger;
use crate::text::{
    lines_spec, trim_spec, trim_start_spec, starts_with_spec, find_char_spec, join_lines_nl,
    split_lines, trim_bounds, first_non_space, range_eq, range_starts_with, extract_range,
    find_char, str_eq, lemma_trim_start_skip, lemma_find_char_witness,
    lemma_find_char_none, lemma_join_lines_push,
};
use crate::timestamp::{rfc3339_epoch, parse_rfc3339_epoch};
use crate::zsh_command::ZshCommand;

verus! {

// ---------------------------------------------------------------------------
// Data
// ---------------------------------------------------------------------------

/// The caller-supplied profile the credentials are resolved for.
#[derive(Debug)]
pub struct SsoInput {
    pub profile: String,
}

/// A resolved AWS identity target. All three fields come from one profile
/// block, or the lookup fails as a whole.
#[derive(Debug)]
pub struct ProfileInfo {
    pub account_id: String,
    pub role_name: String,
    pub region: String,
}

/// Temporary role credentials, as returned by the exchange call.
#[derive(Debug)]
pub struct RoleCredentials {
    pub access_key_id: String,
    pub secret_access_key: String,
    pub session_token: String,
}

/// The process-wide credential state, held as an explicit value so that the
/// part of the program that spawns commands can export it, and tests can
/// inspect it, without touching the real environment.
#[derive(Debug)]
pub struct CredentialContext {
    pub access_key_id: Option<String>,
    pub secret_access_key: Option<String>,
    pub session_token: Option<String>,
}

impl CredentialContext {
    pub fn new() -> (r: Self)
        ensures
            r.access_key_id is None,
            r.secret_access_key is None,
            r.session_token is None,
    {
        CredentialContext { access_key_id: None, secret_access_key: None, session_token: None }
    }
}

/// One file of the SSO cache directory, as listed by the caller: its
/// modification time, if the filesystem gave one, and its text, if it could
/// be read.
#[derive(Debug)]
pub struct SsoCacheFile {
    pub modified_at: Option<i64>,
    pub content: Option<String>,
}

// ---------------------------------------------------------------------------
// The profile block of the configuration text
// ---------------------------------------------------------------------------

/// The section header that names `name`.
pub open spec fn profile_header_spec(name: Seq<char>) -> Seq<char> {
    "[profile "@ + name + "]"@
}

/// Whether a line opens some profile section.
pub open spec fn is_section_start(l: Seq<char>) -> bool {
    starts_with_spec(trim_start_spec(l), "[profile"@)
}

/// Index of the first line whose trimmed text is exactly the header for
/// `name`, if any.
pub open spec fn find_header_line(lines: Seq<Seq<char>>, name: Seq<char>) -> Option<int>
    decreases lines.len(),
{
    if lines.len() == 0 {
        None
    } else if trim_spec(lines.first()) == profile_header_spec(name) {
        Some(0int)
    } else {
        match find_header_line(lines.drop_first(), name) {
            Some(i) => Some(i + 1),
            None => None,
        }
    }
}

/// Index of the first section-start line at or after `j`, or the number of
/// lines when there is none.
pub open spec fn block_end_from(lines: Seq<Seq<char>>, j: int) -> int
    decreases lines.len() - j,
    when 0 <= j <= lines.len()
{
    if j >= lines.len() {
        lines.len() as int
    } else if is_section_start(lines[j]) {
        j
    } else {
        block_end_from(lines, j + 1)
    }
}

/// The captured block for `name`: every line after its header up to the next
/// section start, joined with one `'\n'` after each line; `None` when the
/// header does not occur.
pub open spec fn profile_block_spec(config: Seq<char>, name: Seq<char>) -> Option<Seq<char>> {
    let lines = lines_spec(config);
    match find_header_line(lines, name) {
        None => None,
        Some(i) => Some(join_lines_nl(lines.subrange(i + 1, block_end_from(lines, i + 1)))),
    }
}

/// The error text when the header for `name` never occurs.
pub open spec fn not_found_message(name: Seq<char>) -> Seq<char> {
    "Profile '"@ + name + "' not found in AWS config"@
}

// ---------------------------------------------------------------------------
// Key/value lines of a block
// ---------------------------------------------------------------------------

/// The trimmed text before the first `'='` of the line, if it has one.
pub open spec fn line_key(l: Seq<char>) -> Option<Seq<char>> {
    match find_char_spec(l, '=') {
        None => None,
        Some(i) => Some(trim_spec(l.subrange(0, i))),
    }
}

/// The trimmed text after the first `'='` of the line, if it has one.
pub open spec fn line_value(l: Seq<char>) -> Option<Seq<char>> {
    match find_char_spec(l, '=') {
        None => None,
        Some(i) => Some(trim_spec(l.subrange(i + 1, l.len() as int))),
    }
}

/// The value of the last line that sets `key`, if any line does.
pub open spec fn last_value(lines: Seq<Seq<char>>, key: Seq<char>) -> Option<Seq<char>>
    decreases lines.len(),
{
    if lines.len() == 0 {
        None
    } else if line_key(lines.last()) == Some(key) {
        line_value(lines.last())
    } else {
        last_value(lines.drop_last(), key)
    }
}

/// The three recognized values of a block, present only when all three are.
pub open spec fn profile_values_spec(block: Seq<char>) -> Option<
    (Seq<char>, Seq<char>, Seq<char>),
> {
    let lines = lines_spec(block);
    let acc = last_value(lines, "sso_account_id"@);
    let role = last_value(lines, "sso_role_name"@);
    let reg = last_value(lines, "region"@);
    if acc is Some && role is Some && reg is Some {
        Some((acc.unwrap(), role.unwrap(), reg.unwrap()))
    } else {
        None
    }
}

/// What resolving `name` against `config` yields, as one value.
pub open spec fn resolved_profile_spec(config: Seq<char>, name: Seq<char>) -> Option<
    (Seq<char>, Seq<char>, Seq<char>),
> {
    match profile_block_spec(config, name) {
        None => None,
        Some(b) => profile_values_spec(b),
    }
}

// ---------------------------------------------------------------------------
// Cache entries
// ---------------------------------------------------------------------------

/// A field that cache producers spell either in camel case or in snake case:
/// the camel-case spelling wins when both are present.
pub open spec fn cache_str_field(s: Seq<char>, camel: Seq<char>, snake: Seq<char>) -> Option<
    Seq<char>,
> {
    match json_str_at(s, camel) {
        Some(v) => Some(v),
        None => json_str_at(s, snake),
    }
}

pub open spec fn start_url_of(c: Seq<char>) -> Option<Seq<char>> {
    cache_str_field(c, "startUrl"@, "start_url"@)
}

/// The epoch second the entry expires at, when its expiry field is present
/// and is an RFC 3339 timestamp.
pub open spec fn expires_epoch_of(c: Seq<char>) -> Option<int> {
    match cache_str_field(c, "expiresAt"@, "expires_at"@) {
        None => None,
        Some(raw) => rfc3339_epoch(raw),
    }
}

pub open spec fn access_token_of(c: Seq<char>) -> Option<Seq<char>> {
    cache_str_field(c, "accessToken"@, "access_token"@)
}

/// An entry text is currently valid for `url` at time `now` iff its start
/// URL equals `url` and its expiry lies strictly in the future.
pub open spec fn content_valid_for(c: Seq<char>, url: Seq<char>, now: int) -> bool {
    &&& cache_str_field(c, "startUrl"@, "start_url"@) matches Some(u) && u == url
    &&& expires_epoch_of(c) matches Some(e) && e > now
}

/// A listed cache file is valid when it could be read and its text is.
pub open spec fn file_valid_for(f: SsoCacheFile, url: Seq<char>, now: int) -> bool {
    f.content matches Some(c) && content_valid_for(c@, url, now)
}

/// Ordering of modification times as the listing sort sees them: a missing
/// time sorts before every present one.
pub open spec fn mtime_le(a: Option<i64>, b: Option<i64>) -> bool {
    match a {
        None => true,
        Some(x) => match b {
            None => false,
            Some(y) => x <= y,
        },
    }
}

/// The index the listing sort would leave on top: the last index among those
/// with the greatest modification time.
pub open spec fn latest_index(files: Seq<SsoCacheFile>) -> int
    decreases files.len(),
{
    if files.len() <= 1 {
        0
    } else {
        let j = latest_index(files.drop_last());
        if mtime_le(files[j].modified_at, files.last().modified_at) {
            files.len() - 1
        } else {
            j
        }
    }
}

pub proof fn lemma_latest_index_bounds(files: Seq<SsoCacheFile>)
    requires
        files.len() > 0,
    ensures
        0 <= latest_index(files) < files.len(),
    decreases files.len(),
{
    if files.len() > 1 {
        lemma_latest_index_bounds(files.drop_last());
    }
}

// ---------------------------------------------------------------------------
// The component
// ---------------------------------------------------------------------------

pub struct AwsSso {
    pub input: SsoInput,
    pub logger: Logger,
    pub zsh_command: ZshCommand,
}

impl AwsSso {
    pub fn new(profile: String) -> (r: Self)
        ensures
            r.input.profile == profile,
    {
        AwsSso {
            input: SsoInput { profile },
            logger: Logger::new(),
            zsh_command: ZshCommand::new(),
        }
    }

    /// The block of `config_contents` that belongs to `profile_name`: the
    /// lines after its header up to the next section header, whichever
    /// profile that one names.
    pub fn get_profile_block(&self, config_contents: &str, profile_name: &str) -> (r: CustomResult<
        String,
    >)
        ensures
            match profile_block_spec(config_contents@, profile_name@) {
                Some(b) => r matches Ok(s) && s@ == b,
                None => r matches Err(e) && e.spec_message() == not_found_message(profile_name@),
            },
    {
        let lines = split_lines(config_contents);
        let ghost lns = lines_spec(config_contents@);
        let n = lines.len();

        let mut header = String::from_str("[profile ");
        header.append(profile_name);
        header.append("]");
        proof {
            assert(header@ == profile_header_spec(profile_name@));
        }

        let mut i: usize = 0;
        let mut found = false;
        while i < n && !found
            invariant
                i <= n,
                n == lns.len(),
                lines.deep_view() == lns,
                header@ == profile_header_spec(profile_name@),
                !found ==> forall|j: int|
                    0 <= j < i ==> trim_spec(#[trigger] lns[j]) != profile_header_spec(
                        profile_name@,
                    ),
                found ==> i < n && trim_spec(lns[i as int]) == profile_header_spec(profile_name@)
                    && forall|j: int|
                    0 <= j < i ==> trim_spec(#[trigger] lns[j]) != profile_header_spec(
                        profile_name@,
                    ),
            decreases n - i + (if found { 0int } else { 1int }),
        {
            let line = lines[i].as_str();
            proof {
                assert(lns[i as int] == lines@[i as int]@);
            }
            let llen = line.unicode_len();
            let (a, b) = trim_bounds(line, 0, llen);
            proof {
                assert(line@.subrange(0, llen as int) =~= line@);
            }
            if range_eq(line, a, b, header.as_str()) {
                found = true;
            } else {
                i += 1;
            }
        }

        if !found {
            proof {
                lemma_find_header_none(lns, profile_name@);
            }
            let mut msg = String::from_str("Profile '");
            msg.append(profile_name);
            msg.append("' not found in AWS config");
            return Err(CustomError::CommandExecution(msg));
        }
        proof {
            lemma_find_header_witness(lns, profile_name@, i as int);
        }

        let mut block = String::new();
        let mut k = i + 1;
        let mut stopped = false;
        proof {
            assert(lns.subrange(i + 1, k as int) =~= Seq::<Seq<char>>::empty());
        }
        while k < n && !stopped
            invariant
                i + 1 <= k <= n,
                n == lns.len(),
                lines.deep_view() == lns,
                block@ == join_lines_nl(lns.subrange(i + 1, k as int)),
                forall|j: int| i + 1 <= j < k ==> !is_section_start(#[trigger] lns[j]),
                stopped ==> k < n && is_section_start(lns[k as int]),
            decreases n - k + (if stopped { 0int } else { 1int }),
        {
            let line = lines[k].as_str();
            proof {
                assert(lns[k as int] == lines@[k as int]@);
            }
            let llen = line.unicode_len();
            let a = first_non_space(line, 0, llen);
            proof {
                lemma_trim_start_skip(line@, a as int);
            }
            if range_starts_with(line, a, llen, "[profile") {
                stopped = true;
            } else {
                let ghost prev = lns.subrange(i + 1, k as int);
                block.append(line);
                block.append("\n");
                proof {
                    reveal_strlit("\n");
                    assert("\n"@ =~= seq!['\n']);
                    lemma_join_lines_push(prev, lns[k as int]);
                    assert(lns.subrange(i + 1, k as int + 1) =~= prev.push(lns[k as int]));
                    assert(block@ == join_lines_nl(lns.subrange(i + 1, k as int + 1)));
                }
                k += 1;
            }
        }
        proof {
            lemma_block_end(lns, i + 1, k as int);
        }
        Ok(block)
    }

    /// The recognized values of a profile block: the last `sso_account_id`,
    /// `sso_role_name` and `region` its lines set. All three or nothing.
    pub fn parse_profile_values(&self, profile_block: &str) -> (r: CustomResult<ProfileInfo>)
        ensures
            match profile_values_spec(profile_block@) {
                Some(v) => r matches Ok(info) && info.account_id@ == v.0 && info.role_name@ == v.1
                    && info.region@ == v.2,
                None => r matches Err(e) && e.spec_message()
                    == "Missing one or more required fields in profile block"@,
            },
    {
        let lines = split_lines(profile_block);
        let ghost lns = lines_spec(profile_block@);
        let n = lines.len();
        let mut account_id: Option<String> = None;
        let mut role_name: Option<String> = None;
        let mut region_v: Option<String> = None;
        let mut i: usize = 0;
        proof {
            assert(lns.take(0) =~= Seq::<Seq<char>>::empty());
        }
        while i < n
            invariant
                i <= n,
                n == lns.len(),
                lines.deep_view() == lns,
                match account_id {
                    Some(v) => last_value(lns.take(i as int), "sso_account_id"@) == Some(v@),
                    None => last_value(lns.take(i as int), "sso_account_id"@) is None,
                },
                match role_name {
                    Some(v) => last_value(lns.take(i as int), "sso_role_name"@) == Some(v@),
                    None => last_value(lns.take(i as int), "sso_role_name"@) is None,
                },
                match region_v {
                    Some(v) => last_value(lns.take(i as int), "region"@) == Some(v@),
                    None => last_value(lns.take(i as int), "region"@) is None,
                },
            decreases n - i,
        {
            let line = lines[i].as_str();
            proof {
                assert(lns[i as int] == lines@[i as int]@);
                reveal_strlit("sso_account_id");
                reveal_strlit("sso_role_name");
                reveal_strlit("region");
                assert("sso_account_id"@.len() == 14);
                assert("sso_role_name"@.len() == 13);
                assert("region"@.len() == 6);
            }
            let llen = line.unicode_len();
            match find_char(line, 0, llen, '=') {
                Some(e) => {
                    proof {
                        lemma_find_char_witness(line@, '=', e as int);
                    }
                    let (ka, kb) = trim_bounds(line, 0, e);
                    let ghost key = trim_spec(line@.subrange(0, e as int));
                    if range_eq(line, ka, kb, "sso_account_id") {
                        let (va, vb) = trim_bounds(line, e + 1, llen);
                        account_id = Some(extract_range(line, va, vb));
                        proof {
                            assert(line_key(lns[i as int]) == Some("sso_account_id"@));
                            assert("sso_account_id"@ != "sso_role_name"@);
                            assert("sso_account_id"@ != "region"@);
                        }
                    } else if range_eq(line, ka, kb, "sso_role_name") {
                        let (va, vb) = trim_bounds(line, e + 1, llen);
                        role_name = Some(extract_range(line, va, vb));
                        proof {
                            assert(line_key(lns[i as int]) == Some("sso_role_name"@));
                            assert("sso_role_name"@ != "sso_account_id"@);
                            assert("sso_role_name"@ != "region"@);
                        }
                    } else if range_eq(line, ka, kb, "region") {
                        let (va, vb) = trim_bounds(line, e + 1, llen);
                        region_v = Some(extract_range(line, va, vb));
                        proof {
                            assert(line_key(lns[i as int]) == Some("region"@));
                            assert("region"@ != "sso_account_id"@);
                            assert("region"@ != "sso_role_name"@);
                        }
                    } else {
                        proof {
                            assert(line_key(lns[i as int]) == Some(key));
                        }
                    }
                },
                None => {
                    proof {
                        lemma_find_char_none(line@, '=');
                        assert(line_key(lns[i as int]) is None);
                    }
                },
            }
            proof {
                assert(lns.take(i as int + 1).drop_last() =~= lns.take(i as int));
                assert(lns.take(i as int + 1).last() == lns[i as int]);
            }
            i += 1;
        }
        proof {
            assert(lns.take(n as int) =~= lns);
        }
        match (account_id, role_name, region_v) {
            (Some(acc), Some(role), Some(reg)) => Ok(
                ProfileInfo { account_id: acc, role_name: role, region: reg },
            ),
            _ => Err(
                CustomError::CommandExecution(
                    String::from_str("Missing one or more required fields in profile block"),
                ),
            ),
        }
    }

    /// Resolves `profile_name` against the configuration text: its captured
    /// block, then the three recognized values of that block.
    pub fn get_sso_profile_info(&self, config_contents: &str, profile_name: &str) -> (r:
        CustomResult<ProfileInfo>)
        ensures
            match profile_block_spec(config_contents@, profile_name@) {
                None => r matches Err(e) && e.spec_message() == not_found_message(profile_name@),
                Some(b) => match profile_values_spec(b) {
                    None => r matches Err(e) && e.spec_message()
                        == "Missing one or more required fields in profile block"@,
                    Some(v) => r matches Ok(info) && info.account_id@ == v.0 && info.role_name@
                        == v.1 && info.region@ == v.2,
                },
            },
    {
        let block = match self.get_profile_block(config_contents, profile_name) {
            Ok(b) => b,
            Err(e) => return Err(e),
        };
        self.parse_profile_values(block.as_str())
    }

    /// Whether some cache file currently holds a valid token for
    /// `sso_start_url`. A file that could not be read or parsed is skipped,
    /// never fatal: this check only decides whether to prompt for login.
    pub fn sso_token_still_valid(&self, files: &Vec<SsoCacheFile>, sso_start_url: &str, now: i64)
        -> (r: bool)
        ensures
            r == exists|i: int|
                0 <= i < files@.len() && file_valid_for(
                    #[trigger] files@[i],
                    sso_start_url@,
                    now as int,
                ),
    {
        let n = files.len();
        let mut i: usize = 0;
        while i < n
            invariant
                i <= n,
                n == files@.len(),
                forall|j: int|
                    0 <= j < i ==> !file_valid_for(
                        #[trigger] files@[j],
                        sso_start_url@,
                        now as int,
                    ),
            decreases n - i,
        {
            let f = &files[i];
            match &f.content {
                Some(c) => {
                    if content_valid_check(c.as_str(), sso_start_url, now) {
                        assert(file_valid_for(files@[i as int], sso_start_url@, now as int));
                        return true;
                    }
                },
                None => {},
            }
            i += 1;
        }
        false
    }

    /// The token of the most recently modified cache file. Here nothing is
    /// skipped: an unreadable or unparsable chosen file is an error, since
    /// an exchange must not silently run on a corrupt token.
    pub fn get_latest_sso_token(&self, files: &Vec<SsoCacheFile>) -> (r: CustomResult<String>)
        ensures
            ({
                let fs = files@;
                if fs.len() == 0 {
                    r matches Err(e) && e.spec_message() == "No SSO cache files found"@
                } else {
                    match fs[latest_index(fs)].content {
                        None => r matches Err(e) && e.spec_message()
                            == "Failed to read SSO cache file"@,
                        Some(c) => match access_token_of(c@) {
                            None => r matches Err(e) && e.spec_message()
                                == "Failed to parse SSO cache file"@,
                            Some(t) => r matches Ok(tok) && tok@ == t,
                        },
                    }
                }
            }),
    {
        let n = files.len();
        if n == 0 {
            return Err(
                CustomError::CommandExecution(String::from_str("No SSO cache files found")),
            );
        }
        let mut best: usize = 0;
        let mut i: usize = 1;
        proof {
            assert(files@.take(1).len() == 1);
        }
        while i < n
            invariant
                1 <= i <= n,
                n == files@.len(),
                best < i,
                best as int == latest_index(files@.take(i as int)),
            decreases n - i,
        {
            proof {
                assert(files@.take(i as int + 1).drop_last() =~= files@.take(i as int));
                assert(files@.take(i as int + 1).last() == files@[i as int]);
            }
            if opt_mtime_le(&files[best].modified_at, &files[i].modified_at) {
                best = i;
            }
            i += 1;
        }
        proof {
            assert(files@.take(n as int) =~= files@);
        }
        let f = &files[best];
        match &f.content {
            Some(c) => {
                match cache_field(c.as_str(), "accessToken", "access_token") {
                    Some(t) => Ok(t),
                    None => Err(
                        CustomError::CommandExecution(
                            String::from_str("Failed to parse SSO cache file"),
                        ),
                    ),
                }
            },
            None => Err(
                CustomError::CommandExecution(String::from_str("Failed to read SSO cache file")),
            ),
        }
    }

    /// Decides the login step: nothing to run when a cached token is still
    /// valid for the session's start URL, else the interactive login command.
    pub fn login(&self, cache_files: &Vec<SsoCacheFile>, now: i64) -> (r: Option<String>)
        ensures
            (r is None) <==> exists|i: int|
                0 <= i < cache_files@.len() && file_valid_for(
                    #[trigger] cache_files@[i],
                    crate::constants::SSO_START_URL@,
                    now as int,
                ),
            r matches Some(c) ==> c@ == "aws sso login --sso-session sso"@,
    {
        if self.sso_token_still_valid(cache_files, crate::constants::SSO_START_URL, now) {
            None
        } else {
            Some(String::from_str("aws sso login --sso-session sso"))
        }
    }

    /// The command line that trades the token for role credentials.
    pub fn exchange_command(&self, info: &ProfileInfo, token: &str) -> (r: String)
        ensures
            r@ == exchange_command_spec(info.account_id@, info.role_name@, token@, info.region@),
    {
        let mut c = String::from_str("aws sso get-role-credentials --account-id ");
        c.append(info.account_id.as_str());
        c.append(" --role-name ");
        c.append(info.role_name.as_str());
        c.append(" --access-token ");
        c.append(token);
        c.append(" --region ");
        c.append(info.region.as_str());
        c
    }

    /// The credentials held in the exchange response, all three or nothing.
    pub fn parse_role_credentials(&self, response: &str) -> (r: CustomResult<RoleCredentials>)
        ensures
            match role_credentials_of(response@) {
                Some(v) => r matches Ok(c) && c.access_key_id@ == v.0 && c.secret_access_key@
                    == v.1 && c.session_token@ == v.2,
                None => r matches Err(e) && e.spec_message()
                    == "Failed to parse AWS CLI response"@,
            },
    {
        let a = json_string_field2(response, "roleCredentials", "accessKeyId");
        let k = json_string_field2(response, "roleCredentials", "secretAccessKey");
        let t = json_string_field2(response, "roleCredentials", "sessionToken");
        match (a, k, t) {
            (Some(a), Some(k), Some(t)) => Ok(
                RoleCredentials { access_key_id: a, secret_access_key: k, session_token: t },
            ),
            _ => Err(
                CustomError::CommandExecution(String::from_str("Failed to parse AWS CLI response")),
            ),
        }
    }

    /// Writes the credentials held in the exchange response into the
    /// credential context, overwriting prior values; on a parse failure the
    /// context is left untouched — no partial update.
    pub fn set_sso_credentials(&self, ctx: &mut CredentialContext, exchange_response: &str) -> (r:
        CustomResult<()>)
        ensures
            match role_credentials_of(exchange_response@) {
                Some(v) => r is Ok && (final(ctx).access_key_id matches Some(x) && x@ == v.0) && (
                final(ctx).secret_access_key matches Some(y) && y@ == v.1) && (
                final(ctx).session_token matches Some(z) && z@ == v.2),
                None => r matches Err(e) && e.spec_message() == "Failed to parse AWS CLI response"@
                    && *final(ctx) == *old(ctx),
            },
    {
        match self.parse_role_credentials(exchange_response) {
            Ok(c) => {
                ctx.access_key_id = Some(c.access_key_id);
                ctx.secret_access_key = Some(c.secret_access_key);
                ctx.session_token = Some(c.session_token);
                Ok(())
            },
            Err(e) => Err(e),
        }
    }
}

/// The exchange command over its four resolved pieces.
pub open spec fn exchange_command_spec(
    acc: Seq<char>,
    role: Seq<char>,
    token: Seq<char>,
    region: Seq<char>,
) -> Seq<char> {
    "aws sso get-role-credentials --account-id "@ + acc + " --role-name "@ + role
        + " --access-token "@ + token + " --region "@ + region
}

/// The credential triple held in an exchange response, present only when all
/// three fields are.
pub open spec fn role_credentials_of(s: Seq<char>) -> Option<(Seq<char>, Seq<char>, Seq<char>)> {
    let a = json_str_at2(s, "roleCredentials"@, "accessKeyId"@);
    let k = json_str_at2(s, "roleCredentials"@, "secretAccessKey"@);
    let t = json_str_at2(s, "roleCredentials"@, "sessionToken"@);
    if a is Some && k is Some && t is Some {
        Some((a.unwrap(), k.unwrap(), t.unwrap()))
    } else {
        None
    }
}

/// A cache field under either of its two spellings, camel case winning.
fn cache_field(c: &str, camel: &str, snake: &str) -> (r: Option<String>)
    ensures
        match r {
            Some(v) => cache_str_field(c@, camel@, snake@) == Some(v@),
            None => cache_str_field(c@, camel@, snake@) is None,
        },
{
    match json_string_field(c, camel) {
        Some(v) => Some(v),
        None => json_string_field(c, snake),
    }
}

/// Whether one cache entry text is currently valid for `url`.
fn content_valid_check(c: &str, url: &str, now: i64) -> (r: bool)
    ensures
        r == content_valid_for(c@, url@, now as int),
{
    match cache_field(c, "startUrl", "start_url") {
        Some(u) => {
            if !str_eq(u.as_str(), url) {
                return false;
            }
            match cache_field(c, "expiresAt", "expires_at") {
                Some(raw) => match parse_rfc3339_epoch(raw.as_str()) {
                    Some(e) => e > now,
                    None => false,
                },
                None => false,
            }
        },
        None => false,
    }
}

fn opt_mtime_le(a: &Option<i64>, b: &Option<i64>) -> (r: bool)
    ensures
        r == mtime_le(*a, *b),
{
    match a {
        None => true,
        Some(x) => match b {
            None => false,
            Some(y) => *x <= *y,
        },
    }
}

pub proof fn lemma_find_header_witness(lines: Seq<Seq<char>>, name: Seq<char>, i: int)
    requires
        0 <= i < lines.len(),
        trim_spec(lines[i]) == profile_header_spec(name),
        forall|j: int| 0 <= j < i ==> trim_spec(#[trigger] lines[j]) != profile_header_spec(name),
    ensures
        find_header_line(lines, name) == Some(i),
    decreases i,
{
    if i == 0 {
    } else {
        let t = lines.drop_first();
        assert(forall|j: int| 0 <= j < t.len() ==> #[trigger] t[j] == lines[j + 1]);
        lemma_find_header_witness(t, name, i - 1);
    }
}

pub proof fn lemma_find_header_none(lines: Seq<Seq<char>>, name: Seq<char>)
    requires
        forall|j: int|
            0 <= j < lines.len() ==> trim_spec(#[trigger] lines[j]) != profile_header_spec(name),
    ensures
        find_header_line(lines, name) is None,
    decreases lines.len(),
{
    if lines.len() > 0 {
        let t = lines.drop_first();
        assert(forall|j: int| 0 <= j < t.len() ==> #[trigger] t[j] == lines[j + 1]);
        lemma_find_header_none(t, name);
    }
}

pub proof fn lemma_block_end(lines: Seq<Seq<char>>, j: int, k: int)
    requires
        0 <= j <= k <= lines.len(),
        forall|m: int| j <= m < k ==> !is_section_start(#[trigger] lines[m]),
        k == lines.len() || is_section_start(lines[k]),
    ensures
        block_end_from(lines, j) == k,
    decreases k - j,
{
    if j < k {
        lemma_block_end(lines, j + 1, k);
    }
}

// ---------------------------------------------------------------------------
// Laws
// ---------------------------------------------------------------------------

/// Resolution reads only the captured block: two configuration texts whose
/// block for `name` is the same resolve `name` to the same values, whatever
/// other profile blocks they hold and whatever keys those repeat.
pub proof fn lemma_resolve_depends_only_on_block(c1: Seq<char>, c2: Seq<char>, name: Seq<char>)
    requires
        profile_block_spec(c1, name) == profile_block_spec(c2, name),
    ensures
        resolved_profile_spec(c1, name) == resolved_profile_spec(c2, name),
{
}

/// A block whose lines never set `region` resolves to nothing: there is no
/// partial result.
pub proof fn lemma_missing_region_rejected(block: Seq<char>)
    requires
        last_value(lines_spec(block), "region"@) is None,
    ensures
        profile_values_spec(block) is None,
{
}

/// A directory holding a single readable entry for start URL `u`: the scan's
/// verdict is exactly whether that entry's expiry lies strictly in the
/// future.
pub proof fn lemma_single_entry_validity(files: Seq<SsoCacheFile>, u: Seq<char>, e: int, now: int)
    requires
        files.len() == 1,
        files[0].content matches Some(c) && start_url_of(c@) == Some(u) && expires_epoch_of(c@)
            == Some(e),
    ensures
        (exists|i: int| 0 <= i < files.len() && file_valid_for(#[trigger] files[i], u, now)) <==> e
            > now,
{
    if e > now {
        assert(file_valid_for(files[0], u, now));
    }
}

/// With no cache files there is no valid entry: the validity scan owes
/// `false`, never an error, while the token lookup owes an error.
pub proof fn lemma_empty_cache_no_valid_entry(files: Seq<SsoCacheFile>, url: Seq<char>, now: int)
    requires
        files.len() == 0,
    ensures
        !(exists|i: int| 0 <= i < files.len() && file_valid_for(#[trigger] files[i], url, now)),
{
}

} // verus!
