//! How the settings of a client are chosen from its configuration and the
//! environment.
use vstd::prelude::*;
use std::time::Duration;
use crate::error::{SimpleLlmError, opt_text};
use crate::text::{chars_of, string_from};

verus! {

broadcast use vstd::string::group_string_axioms;

/// Configuration of a client. Every field left `None` falls back to the
/// environment or to a default.
#[derive(Debug)]
pub struct ClientConfig {
    pub api_key: Option<String>,
    pub base_url: Option<String>,
    pub timeout: Option<Duration>,
}

impl Default for ClientConfig {
    fn default() -> (r: ClientConfig)
        ensures
            r.api_key is None,
            r.base_url is None,
            r.timeout is None,
    {
        ClientConfig { api_key: None, base_url: None, timeout: None }
    }
}

/// The environment variables a client reads: `SIMPLELLM_API_KEY` and
/// `SIMPLELLM_BASE_URL`, `None` where a variable is unset or not Unicode.
pub struct Environment {
    pub api_key: Option<String>,
    pub base_url: Option<String>,
}

/// The settings of a client once every fallback is applied.
pub struct ClientSettings {
    pub api_key: String,
    pub base_url: String,
    pub timeout: Duration,
}

/// The base URL used when neither the configuration nor the environment sets one.
pub open spec fn default_base_url() -> Seq<char> {
    "https://api.simplellm.eu"@
}

/// The number of seconds of the default timeout.
pub const DEFAULT_TIMEOUT_SECS: u64 = 120;

/// The text of `o`, when it is a non-empty string.
pub open spec fn non_empty(o: Option<String>) -> Option<Seq<char>> {
    match o {
        Some(s) => if s@.len() > 0 {
            Some(s@)
        } else {
            None
        },
        None => None,
    }
}

/// The key a client uses: the configured one unless it is missing or empty,
/// else the one from the environment unless it is missing or empty.
pub open spec fn chosen_api_key(cfg: Option<String>, env: Option<String>) -> Option<Seq<char>> {
    match non_empty(cfg) {
        Some(k) => Some(k),
        None => non_empty(env),
    }
}

/// `s` without the `/` characters at its end (what `trim_end_matches('/')` gives).
pub open spec fn trim_trailing_slashes(s: Seq<char>) -> Seq<char>
    decreases s.len(),
{
    if s.len() > 0 && s.last() == '/' {
        trim_trailing_slashes(s.drop_last())
    } else {
        s
    }
}

/// The base URL a client uses: the configured one, else the one from the
/// environment, else the default; without trailing slashes.
pub open spec fn chosen_base_url(cfg: Option<String>, env: Option<String>) -> Seq<char> {
    trim_trailing_slashes(
        match cfg {
            Some(u) => u@,
            None => match env {
                Some(u) => u@,
                None => default_base_url(),
            },
        },
    )
}

/// The `Duration` that `Duration::from_secs(secs)` makes.
pub uninterp spec fn duration_from_secs(secs: u64) -> Duration;

/// `Duration::from_secs`. Its result is named `duration_from_secs`.
#[verifier::external_body]
fn secs_duration(secs: u64) -> (d: Duration)
    ensures
        d == duration_from_secs(secs),
{
    Duration::from_secs(secs)
}

/// The timeout a client uses: the configured one, else 120 seconds.
pub open spec fn chosen_timeout(cfg: Option<Duration>) -> Duration {
    match cfg {
        Some(t) => t,
        None => duration_from_secs(DEFAULT_TIMEOUT_SECS),
    }
}

/// Removes the trailing `/` characters of `s`.
pub fn trim_end_slashes(s: &str) -> (r: String)
    ensures
        r@ == trim_trailing_slashes(s@),
{
    let v = chars_of(s);
    let mut hi: usize = v.len();
    assert(v@.take(v@.len() as int) =~= v@);
    while hi > 0 && v[hi - 1] == '/'
        invariant
            hi <= v.len(),
            trim_trailing_slashes(v@) == trim_trailing_slashes(v@.take(hi as int)),
        decreases hi,
    {
        assert(v@.take(hi as int).drop_last() =~= v@.take(hi - 1));
        hi = hi - 1;
    }
    let mut out: Vec<char> = Vec::new();
    let mut i: usize = 0;
    while i < hi
        invariant
            i <= hi <= v.len(),
            out@ == v@.take(i as int),
        decreases hi - i,
    {
        out.push(v[i]);
        assert(v@.take(i + 1) =~= v@.take(i as int).push(v@[i as int]));
        i = i + 1;
    }
    string_from(&out)
}

/// The non-empty text of `o`, if there is one.
fn take_non_empty(o: Option<String>) -> (r: Option<String>)
    ensures
        opt_text(r) == non_empty(o),
{
    match o {
        Some(s) => if s.as_str().is_empty() {
            None
        } else {
            Some(s)
        },
        None => None,
    }
}

impl ClientConfig {
    /// The settings of a client made from this configuration in `env`: an
    /// error exactly when no non-empty key is configured or in the environment.
    pub fn resolve(self, env: Environment) -> (r: Result<ClientSettings, SimpleLlmError>)
        ensures
            match chosen_api_key(self.api_key, env.api_key) {
                None => r matches Err(SimpleLlmError::MissingApiKey),
                Some(k) => r matches Ok(s) && s.api_key@ == k && s.base_url@ == chosen_base_url(
                    self.base_url,
                    env.base_url,
                ) && s.timeout == chosen_timeout(self.timeout),
            },
    {
        let api_key = match take_non_empty(self.api_key) {
            Some(k) => k,
            None => match take_non_empty(env.api_key) {
                Some(k) => k,
                None => {
                    return Err(SimpleLlmError::MissingApiKey);
                },
            },
        };
        let url = match self.base_url {
            Some(u) => u,
            None => match env.base_url {
                Some(u) => u,
                None => "https://api.simplellm.eu".to_string(),
            },
        };
        let base_url = trim_end_slashes(url.as_str());
        let timeout = match self.timeout {
            Some(t) => t,
            None => secs_duration(DEFAULT_TIMEOUT_SECS),
        };
        Ok(ClientSettings { api_key, base_url, timeout })
    }
}

/// A base URL that was chosen has no `/` at its end, and trimming it again
/// changes nothing.
pub proof fn lemma_base_url_trimmed(cfg: Option<String>, env: Option<String>)
    ensures
        chosen_base_url(cfg, env).len() > 0 ==> chosen_base_url(cfg, env).last() != '/',
        trim_trailing_slashes(chosen_base_url(cfg, env)) == chosen_base_url(cfg, env),
{
    let s = match cfg {
        Some(u) => u@,
        None => match env {
            Some(u) => u@,
            None => default_base_url(),
        },
    };
    lemma_trim_trailing_slashes(s);
}

/// What `trim_trailing_slashes` leaves ends in no `/`, and is left alone by it.
pub proof fn lemma_trim_trailing_slashes(s: Seq<char>)
    ensures
        trim_trailing_slashes(s).len() > 0 ==> trim_trailing_slashes(s).last() != '/',
        trim_trailing_slashes(trim_trailing_slashes(s)) == trim_trailing_slashes(s),
    decreases s.len(),
{
    if s.len() > 0 && s.last() == '/' {
        lemma_trim_trailing_slashes(s.drop_last());
    }
}

/// A chosen key is never empty, and there is one exactly when the
/// configuration or the environment holds a non-empty key.
pub proof fn lemma_chosen_key_non_empty(cfg: Option<String>, env: Option<String>)
    ensures
        chosen_api_key(cfg, env) matches Some(k) ==> k.len() > 0,
        chosen_api_key(cfg, env) is Some <==> (non_empty(cfg) is Some || non_empty(env) is Some),
{
}

/// What the configuration sets wins over the environment: a non-empty
/// configured key, and any configured base URL (even an empty one).
pub proof fn lemma_configuration_wins(cfg_key: String, cfg_url: String, env: Environment)
    ensures
        cfg_key@.len() > 0 ==> chosen_api_key(Some(cfg_key), env.api_key) == Some(cfg_key@),
        chosen_base_url(Some(cfg_url), env.base_url) == trim_trailing_slashes(cfg_url@),
{
}

/// The environment is read only for what the configuration leaves unset
/// (or, for the key, sets to the empty string).
pub proof fn lemma_environment_fills_gaps(empty_key: String, env: Environment)
    requires
        empty_key@.len() == 0,
    ensures
        chosen_api_key(None, env.api_key) == non_empty(env.api_key),
        chosen_api_key(Some(empty_key), env.api_key) == non_empty(env.api_key),
        env.base_url matches Some(u) ==> chosen_base_url(None, env.base_url) == trim_trailing_slashes(u@),
        env.base_url is None ==> chosen_base_url(None, env.base_url) == trim_trailing_slashes(default_base_url()),
{
}

} // verus!
