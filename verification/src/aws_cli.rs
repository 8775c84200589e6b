//! The top-level component behind the subcommands: login decisions and the
//! fixed tool-login command lines.

use vstd::prelude::*;
use vstd::string::*;
use crate::aws_sso::{AwsSso, SsoCacheFile, file_valid_for};
use crate::constants::{DEV_ROLE, DOMAIN_OWNER, SSO_START_URL};
use crate::logger::{Logger, LogLevel};
use crate::zsh_command::ZshCommand;

verus! {

/// The fixed CodeArtifact login for the npm tool.
pub open spec fn npm_login_command_spec() -> Seq<char> {
    "aws codeartifact login --tool npm --repository conform5-npm-common --domain conform --domain-owner "@
        + DOMAIN_OWNER@ + " --region us-east-1 --profile "@ + DEV_ROLE@
}

/// The fixed CodeArtifact login for the pip tool.
pub open spec fn pip_login_command_spec() -> Seq<char> {
    "aws codeartifact login --tool pip --repository conform5-python-common --domain conform5-python --domain-owner "@
        + DOMAIN_OWNER@ + " --region us-east-1 --profile "@ + DEV_ROLE@
}

pub struct AwsCli {
    pub logger: Logger,
    pub zsh_command: ZshCommand,
}

impl AwsCli {
    pub fn new() -> (r: Self)
        ensures
            r.logger.level == LogLevel::Trace,
    {
        AwsCli { logger: Logger::new(), zsh_command: ZshCommand::new() }
    }

    /// Decides the login step against the listed cache files: nothing to run
    /// when a cached token is still valid for the session's start URL, else
    /// the interactive login command.
    pub fn login(&self, cache_files: &Vec<SsoCacheFile>, now: i64) -> (r: Option<String>)
        ensures
            (r is None) <==> exists|i: int|
                0 <= i < cache_files@.len() && file_valid_for(
                    #[trigger] cache_files@[i],
                    SSO_START_URL@,
                    now as int,
                ),
            r matches Some(c) ==> c@ == "aws sso login --sso-session sso"@,
    {
        AwsSso::new(String::from_str(DEV_ROLE)).login(cache_files, now)
    }

    /// The command line that logs the npm tool in, with this tool's fixed
    /// repository, domain, owner, region and profile.
    pub fn login_npm(&self) -> (r: String)
        ensures
            r@ == npm_login_command_spec(),
    {
        let mut c = String::from_str(
            "aws codeartifact login --tool npm --repository conform5-npm-common --domain conform --domain-owner ",
        );
        c.append(DOMAIN_OWNER);
        c.append(" --region us-east-1 --profile ");
        c.append(DEV_ROLE);
        c
    }

    /// The command line that logs the pip tool in, with this tool's fixed
    /// repository, domain, owner, region and profile.
    pub fn login_pip(&self) -> (r: String)
        ensures
            r@ == pip_login_command_spec(),
    {
        let mut c = String::from_str(
            "aws codeartifact login --tool pip --repository conform5-python-common --domain conform5-python --domain-owner ",
        );
        c.append(DOMAIN_OWNER);
        c.append(" --region us-east-1 --profile ");
        c.append(DEV_ROLE);
        c
    }
}

} // verus!
