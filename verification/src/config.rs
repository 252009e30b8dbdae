//! The settings of the server, and how they are read from named values.
use vstd::prelude::*;
use crate::lex::str_eq;
use crate::numbers::numeral_value;
use crate::numbers::parse_u16;
use crate::text::each_trimmed;
use crate::text::owned;
use crate::text::split_on;
use crate::text::split_trimmed;
use crate::text::views;

verus! {

/// The settings of the server.
#[derive(Clone, Debug)]
pub struct Config {
    pub database_url: String,
    pub jwt_secret: String,
    pub lastfm_api_key: String,
    pub lastfm_api_secret: String,
    pub s3_endpoint: String,
    pub s3_bucket: String,
    pub s3_region: String,
    pub s3_access_key: String,
    pub s3_secret_key: String,
    pub redis_url: String,
    pub vapid_private_key: Option<String>,
    pub vapid_public_key: Option<String>,
    pub vapid_subject: Option<String>,
    pub host: String,
    pub port: u16,
    pub allowed_origins: Vec<String>,
}

/// Why the settings could not be read.
#[derive(Debug)]
pub enum ConfigError {
    /// A value that has no default is not there. The payload is its name.
    Missing(String),
    /// The port is not a number from 0 to 65535.
    InvalidPort,
}

/// The value under a name: that of the first pair that bears the name.
pub open spec fn lookup(vars: Seq<(String, String)>, name: Seq<char>) -> Option<Seq<char>>
    decreases vars.len(),
{
    if vars.len() == 0 {
        None
    } else if vars[0].0@ == name {
        Some(vars[0].1@)
    } else {
        lookup(vars.drop_first(), name)
    }
}

/// The value under a name, or the default.
pub open spec fn lookup_or(vars: Seq<(String, String)>, name: Seq<char>, default: Seq<char>) -> Seq<
    char,
> {
    match lookup(vars, name) {
        Some(v) => v,
        None => default,
    }
}

/// The value under a name, unless it is absent or empty.
pub open spec fn lookup_filled(vars: Seq<(String, String)>, name: Seq<char>) -> Option<Seq<char>> {
    match lookup(vars, name) {
        Some(v) => if v.len() == 0 {
            None
        } else {
            Some(v)
        },
        None => None,
    }
}

/// The view of an optional string.
pub open spec fn option_view(s: Option<String>) -> Option<Seq<char>> {
    match s {
        Some(s) => Some(s@),
        None => None,
    }
}

/// The first of the four values without a default that is absent.
pub open spec fn first_missing(vars: Seq<(String, String)>) -> Option<Seq<char>> {
    if lookup(vars, "DATABASE_URL"@) is None {
        Some("DATABASE_URL"@)
    } else if lookup(vars, "JWT_SECRET"@) is None {
        Some("JWT_SECRET"@)
    } else if lookup(vars, "LASTFM_API_KEY"@) is None {
        Some("LASTFM_API_KEY"@)
    } else if lookup(vars, "LASTFM_API_SECRET"@) is None {
        Some("LASTFM_API_SECRET"@)
    } else {
        None
    }
}

/// The port that the values name: `PORT`, or 8000 without it.
pub open spec fn port_of(vars: Seq<(String, String)>) -> Option<int> {
    match numeral_value(lookup_or(vars, "PORT"@, "8000"@), false) {
        Some(v) => if v <= u16::MAX {
            Some(v)
        } else {
            None
        },
        None => None,
    }
}

fn find_var<'a>(vars: &'a Vec<(String, String)>, name: &str) -> (r: Option<&'a String>)
    ensures
        option_view_ref(r) == lookup(vars@, name@),
{
    let mut i: usize = 0;
    assert(vars@.skip(0) =~= vars@);
    while i < vars.len()
        invariant
            i <= vars@.len(),
            lookup(vars@, name@) == lookup(vars@.skip(i as int), name@),
        decreases vars@.len() - i,
    {
        assert(vars@.skip(i as int).drop_first() =~= vars@.skip(i + 1));
        if str_eq(vars[i].0.as_str(), name) {
            return Some(&vars[i].1);
        }
        i += 1;
    }
    None
}

/// The view of an optional reference to a string.
pub open spec fn option_view_ref(s: Option<&String>) -> Option<Seq<char>> {
    match s {
        Some(s) => Some(s@),
        None => None,
    }
}

fn var_or(vars: &Vec<(String, String)>, name: &str, default: &str) -> (r: String)
    ensures
        r@ == lookup_or(vars@, name@, default@),
{
    match find_var(vars, name) {
        Some(v) => v.clone(),
        None => owned(default),
    }
}

fn var_filled(vars: &Vec<(String, String)>, name: &str) -> (r: Option<String>)
    ensures
        option_view(r) == lookup_filled(vars@, name@),
{
    match find_var(vars, name) {
        Some(v) => if v.as_str().is_empty() {
            None
        } else {
            Some(v.clone())
        },
        None => None,
    }
}

fn required(vars: &Vec<(String, String)>, name: &str) -> (r: Result<String, ConfigError>)
    ensures
        r is Ok <==> lookup(vars@, name@) is Some,
        r matches Ok(v) ==> lookup(vars@, name@) == Some(v@),
        r matches Err(e) ==> e matches ConfigError::Missing(n) && n@ == name@,
{
    match find_var(vars, name) {
        Some(v) => Ok(v.clone()),
        None => Err(ConfigError::Missing(owned(name))),
    }
}

impl Config {
    /// The values stand in the settings, field by field, with the defaults
    /// of the values that are absent.
    pub open spec fn reads(&self, vars: Seq<(String, String)>) -> bool {
        &&& lookup(vars, "DATABASE_URL"@) == Some(self.database_url@)
        &&& lookup(vars, "JWT_SECRET"@) == Some(self.jwt_secret@)
        &&& lookup(vars, "LASTFM_API_KEY"@) == Some(self.lastfm_api_key@)
        &&& lookup(vars, "LASTFM_API_SECRET"@) == Some(self.lastfm_api_secret@)
        &&& self.s3_endpoint@ == lookup_or(vars, "S3_ENDPOINT"@, "http://localhost:9000"@)
        &&& self.s3_bucket@ == lookup_or(vars, "S3_BUCKET"@, "lastfm-photos"@)
        &&& self.s3_region@ == lookup_or(vars, "S3_REGION"@, "us-east-1"@)
        &&& self.s3_access_key@ == lookup_or(vars, "S3_ACCESS_KEY"@, ""@)
        &&& self.s3_secret_key@ == lookup_or(vars, "S3_SECRET_KEY"@, ""@)
        &&& self.redis_url@ == lookup_or(vars, "REDIS_URL"@, "redis://localhost:6379"@)
        &&& option_view(self.vapid_private_key) == lookup_filled(vars, "VAPID_PRIVATE_KEY"@)
        &&& option_view(self.vapid_public_key) == lookup_filled(vars, "VAPID_PUBLIC_KEY"@)
        &&& option_view(self.vapid_subject) == lookup_filled(vars, "VAPID_SUBJECT"@)
        &&& self.host@ == lookup_or(vars, "HOST"@, "0.0.0.0"@)
        &&& port_of(vars) == Some(self.port as int)
        &&& views(self.allowed_origins@) == each_trimmed(
            split_on(lookup_or(vars, "ALLOWED_ORIGINS"@, "http://localhost:3000"@), ','),
        )
    }

    /// Reads the settings from named values, as they stand in the
    /// environment of the process.
    ///
    /// The database address, the token secret and the two keys of the
    /// listening-history service have no default: the first of them that is
    /// absent is reported. The port must be a number that a port can be. The
    /// allowed origins are the parts of one value between its commas.
    pub fn from_vars(vars: &Vec<(String, String)>) -> (r: Result<Config, ConfigError>)
        ensures
            r is Ok <==> (first_missing(vars@) is None && port_of(vars@) is Some),
            r matches Ok(config) ==> config.reads(vars@),
            r matches Err(e) ==> match first_missing(vars@) {
                Some(name) => e matches ConfigError::Missing(n) && n@ == name,
                None => e is InvalidPort,
            },
    {
        let origins = var_or(vars, "ALLOWED_ORIGINS", "http://localhost:3000");
        let allowed_origins = split_trimmed(origins.as_str(), ',');
        let database_url = match required(vars, "DATABASE_URL") {
            Ok(v) => v,
            Err(e) => { return Err(e); },
        };
        let jwt_secret = match required(vars, "JWT_SECRET") {
            Ok(v) => v,
            Err(e) => { return Err(e); },
        };
        let lastfm_api_key = match required(vars, "LASTFM_API_KEY") {
            Ok(v) => v,
            Err(e) => { return Err(e); },
        };
        let lastfm_api_secret = match required(vars, "LASTFM_API_SECRET") {
            Ok(v) => v,
            Err(e) => { return Err(e); },
        };
        let port_text = var_or(vars, "PORT", "8000");
        let port = match parse_u16(port_text.as_str()) {
            Some(p) => p,
            None => { return Err(ConfigError::InvalidPort); },
        };
        Ok(
            Config {
                database_url,
                jwt_secret,
                lastfm_api_key,
                lastfm_api_secret,
                s3_endpoint: var_or(vars, "S3_ENDPOINT", "http://localhost:9000"),
                s3_bucket: var_or(vars, "S3_BUCKET", "lastfm-photos"),
                s3_region: var_or(vars, "S3_REGION", "us-east-1"),
                s3_access_key: var_or(vars, "S3_ACCESS_KEY", ""),
                s3_secret_key: var_or(vars, "S3_SECRET_KEY", ""),
                redis_url: var_or(vars, "REDIS_URL", "redis://localhost:6379"),
                vapid_private_key: var_filled(vars, "VAPID_PRIVATE_KEY"),
                vapid_public_key: var_filled(vars, "VAPID_PUBLIC_KEY"),
                vapid_subject: var_filled(vars, "VAPID_SUBJECT"),
                host: var_or(vars, "HOST", "0.0.0.0"),
                port,
                allowed_origins,
            },
        )
    }
}

} // verus!
