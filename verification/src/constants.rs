use vstd::prelude::*;

verus! {

/// The profile used for day-to-day development work.
pub const DEV_ROLE: &'static str = "dev";

/// Account that owns the CodeArtifact domains used by the tool logins.
pub const DOMAIN_OWNER: &'static str = "123456789012";

/// Start URL of the SSO session whose cached tokens this tool accepts.
pub const SSO_START_URL: &'static str = "https://example.awsapps.com/start";

} // verus!
