//! Process configuration, assembled once at startup from the
//! environment's raw values and passed explicitly to the components that
//! need it. Each setting falls back to a fixed default when the
//! environment does not supply a usable value.

use vstd::prelude::*;
use vstd::string::StrSliceExecFns;

verus! {

/// What the human-readable duration grammar yields for a string: whole
/// seconds and subsecond nanoseconds, or nothing when the string is not a
/// valid duration. The grammar takes pages to state and the result
/// depends on the characters alone, so it only gets a name here.
pub uninterp spec fn parsed_duration(s: Seq<char>) -> Option<(u64, u32)>;

/// Relies on humantime::parse_duration: parses a duration such as `600s`
/// or `15min 2s`; the result is a pure function of the string. The call
/// returns normally only on short inputs: its one unchecked step is the
/// final carry into the seconds counter, which overflows only when the
/// string spells a seconds total of exactly 2^64 - 1 beside an exact
/// one-second nanosecond carry, and the shortest such spelling is longer
/// than twenty characters. Longer strings are excluded here, as nothing
/// is promised of them.
#[verifier::external_body]
fn parse_duration_text(s: &str) -> (r: Option<(u64, u32)>)
    requires
        s@.len() <= 20,
    ensures
        r == parsed_duration(s@),
{
    match humantime::parse_duration(s) {
        Ok(d) => Some((d.as_secs(), d.subsec_nanos())),
        Err(_) => None,
    }
}

/// The tick period that a `REFRESH_INTERVAL` value yields: the parsed
/// duration of a string short enough for the parser's arithmetic (twenty
/// characters covers every realistic interval), and the default of 600
/// seconds for an absent, over-long or unparseable value.
pub open spec fn spec_refresh_interval(var: Option<Seq<char>>) -> (u64, u32) {
    match var {
        Some(s) => if s.len() <= 20 {
            match parsed_duration(s) {
                Some(d) => d,
                None => (600u64, 0u32),
            }
        } else {
            (600u64, 0u32)
        },
        None => (600u64, 0u32),
    }
}

/// The refresher's tick period: the parsed `REFRESH_INTERVAL` value when
/// the variable is set, is no longer than twenty characters and parses
/// as a duration, and the default of 600 seconds otherwise.
pub fn refresh_interval(var: Option<&String>) -> (r: (u64, u32))
    ensures
        r == spec_refresh_interval(
            match var {
                Some(s) => Some(s@),
                None => None,
            },
        ),
{
    match var {
        Some(s) => {
            if s.as_str().unicode_len() <= 20 {
                match parse_duration_text(s.as_str()) {
                    Some(d) => d,
                    None => (600, 0),
                }
            } else {
                (600, 0)
            }
        },
        None => (600, 0),
    }
}

/// The settings the service runs with.
pub struct Config {
    /// TCP port to bind, kept as text for address formation.
    pub port: String,
    /// Filesystem path of the local snapshot.
    pub local_path: String,
    /// Upstream source of the remote snapshot.
    pub remote_url: String,
    /// Whole seconds of the refresher's tick period.
    pub refresh_secs: u64,
    /// Subsecond nanoseconds of the refresher's tick period.
    pub refresh_nanos: u32,
    /// Log filter directive.
    pub log_filter: String,
}

impl Config {
    /// Assembles the configuration from the environment's raw values:
    /// each setting is the supplied value when there is one (the refresh
    /// interval additionally has to be at most twenty characters and
    /// parse as a duration), and its fixed default otherwise.
    pub fn from_env(
        port: Option<String>,
        local_path: Option<String>,
        remote_url: Option<String>,
        refresh: Option<String>,
        log_filter: Option<String>,
    ) -> (c: Config)
        ensures
            c.port@ == match port {
                Some(p) => p@,
                None => "9090"@,
            },
            c.local_path@ == match local_path {
                Some(p) => p@,
                None => "assets/people.json"@,
            },
            c.remote_url@ == match remote_url {
                Some(u) => u@,
                None => "https://raw.githubusercontent.com/cncf/people/refs/heads/main/people.json"@,
            },
            (c.refresh_secs, c.refresh_nanos) == spec_refresh_interval(
                match refresh {
                    Some(s) => Some(s@),
                    None => None,
                },
            ),
            c.log_filter@ == match log_filter {
                Some(f) => f@,
                None => "info,tower_http=warn"@,
            },
    {
        let (refresh_secs, refresh_nanos) = refresh_interval(refresh.as_ref());
        Config {
            port: match port {
                Some(p) => p,
                None => "9090".to_owned(),
            },
            local_path: match local_path {
                Some(p) => p,
                None => "assets/people.json".to_owned(),
            },
            remote_url: match remote_url {
                Some(u) => u,
                None => "https://raw.githubusercontent.com/cncf/people/refs/heads/main/people.json".to_owned(),
            },
            refresh_secs,
            refresh_nanos,
            log_filter: match log_filter {
                Some(f) => f,
                None => "info,tower_http=warn".to_owned(),
            },
        }
    }
}

} // verus!
