use vstd::prelude::*;
use vstd::string::StringExecFns;

verus! {

/// Where the service runs; it picks the configuration file.
#[derive(Debug, Clone, Copy, PartialEq, Eq, Structural)]
pub enum Environment {
    Local,
    Production,
}

/// The name of an environment.
pub open spec fn environment_name(e: Environment) -> Seq<char> {
    match e {
        Environment::Local => "local"@,
        Environment::Production => "production"@,
    }
}

/// What `str::to_lowercase` gives for a string.
pub uninterp spec fn lowercase_of(s: Seq<char>) -> Seq<char>;

/// Relies on `str::to_lowercase`: the lower-case form of the text, which depends on
/// the text alone.
#[verifier::external_body]
fn to_lowercase(s: &str) -> (r: String)
    ensures
        r@ == lowercase_of(s@),
{
    s.to_lowercase()
}

/// The text that follows an unknown environment name in the error.
pub open spec fn unsupported_environment_suffix() -> Seq<char> {
    " is not a supported environment. Use either `local` or `production`."@
}

/// The environment named by an already lower-cased name, or the error text for it.
pub open spec fn environment_from_lowered_spec(lowered: Seq<char>) -> Result<Environment, Seq<char>> {
    if lowered == "local"@ {
        Ok(Environment::Local)
    } else if lowered == "production"@ {
        Ok(Environment::Production)
    } else {
        Err(lowered + unsupported_environment_suffix())
    }
}

impl Environment {
    /// The environment's name, which is also its configuration file's stem.
    pub fn as_str(&self) -> (r: &'static str)
        ensures
            r@ == environment_name(*self),
    {
        match self {
            Environment::Local => "local",
            Environment::Production => "production",
        }
    }

    /// Reads an environment name that is already in lower case.
    pub fn from_lowered(lowered: String) -> (r: Result<Environment, String>)
        ensures
            match environment_from_lowered_spec(lowered@) {
                Ok(e) => r == Ok::<Environment, String>(e),
                Err(t) => r is Err && r->Err_0@ == t,
            },
    {
        let local = String::from_str("local");
        let production = String::from_str("production");
        if lowered == local {
            Ok(Environment::Local)
        } else if lowered == production {
            Ok(Environment::Production)
        } else {
            let mut msg = lowered;
            msg.append(" is not a supported environment. Use either `local` or `production`.");
            Err(msg)
        }
    }

    /// Reads an environment name in any case: `local` or `production`.
    pub fn try_from(s: String) -> (r: Result<Environment, String>)
        ensures
            match environment_from_lowered_spec(lowercase_of(s@)) {
                Ok(e) => r == Ok::<Environment, String>(e),
                Err(t) => r is Err && r->Err_0@ == t,
            },
    {
        Environment::from_lowered(to_lowercase(s.as_str()))
    }
}

/// Limits on login attempts.
#[derive(Debug, Clone, Copy)]
pub struct LoginRateLimitSettings {
    pub max_requests: usize,
    pub window_secs: u64,
}

/// Limits on contact messages.
#[derive(Debug, Clone, Copy)]
pub struct MessageRateLimitSettings {
    pub max_messages: usize,
    pub window_minutes: usize,
}

/// All rate limits.
#[derive(Debug, Clone, Copy)]
pub struct RateLimitSettings {
    pub login: LoginRateLimitSettings,
    pub message: MessageRateLimitSettings,
}

/// Three login attempts per ten seconds.
pub fn default_login_rate_limit() -> (r: LoginRateLimitSettings)
    ensures
        r.max_requests == 3,
        r.window_secs == 10,
{
    LoginRateLimitSettings { max_requests: 3, window_secs: 10 }
}

/// Three messages per sixty minutes.
pub fn default_message_rate_limit() -> (r: MessageRateLimitSettings)
    ensures
        r.max_messages == 3,
        r.window_minutes == 60,
{
    MessageRateLimitSettings { max_messages: 3, window_minutes: 60 }
}

impl Default for RateLimitSettings {
    fn default() -> (r: RateLimitSettings)
        ensures
            r.login.max_requests == 3,
            r.login.window_secs == 10,
            r.message.max_messages == 3,
            r.message.window_minutes == 60,
    {
        RateLimitSettings { login: default_login_rate_limit(), message: default_message_rate_limit() }
    }
}

/// Which origins may call the service, and how long browsers may cache that answer.
#[derive(Debug)]
pub struct CorsSettings {
    pub allowed_origins: Vec<String>,
    pub max_age: usize,
}

/// Session lifetimes.
#[derive(Debug, Clone, Copy)]
pub struct TtlSettings {
    pub ttl_hours: i64,
    pub idle_timeout_minutes: u32,
}

/// The public address of the service.
#[derive(Debug)]
pub struct ApplicationBaseUrl(pub String);

} // verus!
