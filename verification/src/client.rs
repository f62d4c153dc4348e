//! The client: its settings, the endpoints of the API, and how a request is
//! addressed and authorised.
use vstd::prelude::*;
use std::time::Duration;
use crate::config::{
    ClientConfig, ClientSettings, Environment, chosen_api_key, chosen_base_url,
    lemma_base_url_trimmed,
};
use crate::encoding::{is_segment_safe_ascii, url_encoded, urlencoding_encode};
use crate::error::SimpleLlmError;
use crate::text::join_str;

verus! {

broadcast use vstd::string::group_string_axioms;

/// `reqwest::Client`, the connection pool that requests are sent through.
#[verifier::external_type_specification]
#[verifier::external_body]
pub struct ExReqwestClient(reqwest::Client);

/// `reqwest::ClientBuilder`, the configuration of a `reqwest::Client` being built.
#[verifier::external_type_specification]
#[verifier::external_body]
pub struct ExReqwestClientBuilder(reqwest::ClientBuilder);

/// `reqwest::Client::clone`: another handle on the same connection pool.
/// Nothing is stated of the handle; the derived `Clone` of `SimpleLLM` needs
/// the call to be known to Verus.
pub assume_specification[ <reqwest::Client as Clone>::clone ](c: &reqwest::Client) -> reqwest::Client;

/// `reqwest::Client::builder`: a builder with reqwest's defaults. Nothing is
/// stated of it.
#[verifier::external_body]
fn http_builder() -> reqwest::ClientBuilder {
    reqwest::Client::builder()
}

/// `reqwest::ClientBuilder::use_rustls_tls`: the builder, set to use rustls
/// for TLS. Nothing is stated of it.
#[verifier::external_body]
fn http_use_rustls(b: reqwest::ClientBuilder) -> reqwest::ClientBuilder {
    b.use_rustls_tls()
}

/// `reqwest::ClientBuilder::timeout`: the builder, with `timeout` as the total
/// time a request may take. Nothing is stated of it.
#[verifier::external_body]
fn http_timeout(b: reqwest::ClientBuilder, timeout: Duration) -> reqwest::ClientBuilder {
    b.timeout(timeout)
}

/// `reqwest::ClientBuilder::build`. It fails where the TLS backend cannot be
/// set up, which depends on the machine; nothing is promised of its result.
#[verifier::external_body]
fn http_build(b: reqwest::ClientBuilder) -> Result<reqwest::Client, reqwest::Error> {
    b.build()
}

/// A client of the SimpleLLM API.
#[derive(Debug, Clone)]
pub struct SimpleLLM {
    api_key: String,
    base_url: String,
    http: reqwest::Client,
}

/// What a client is, for its contracts: its key and its base URL.
pub struct ClientView {
    pub api_key: Seq<char>,
    pub base_url: Seq<char>,
}

impl View for SimpleLLM {
    type V = ClientView;

    closed spec fn view(&self) -> ClientView {
        ClientView { api_key: self.api_key@, base_url: self.base_url@ }
    }
}

/// The prefix of the `Authorization` header.
pub open spec fn bearer_prefix() -> Seq<char> {
    "Bearer "@
}

impl SimpleLLM {
    /// A client with the key and base URL of `settings` that sends through
    /// `http`, or the error of building `http`.
    pub fn from_parts(settings: ClientSettings, http: Result<reqwest::Client, reqwest::Error>) -> (r:
        Result<SimpleLLM, SimpleLlmError>)
        ensures
            match http {
                Ok(h) => r matches Ok(c) && c@.api_key == settings.api_key@ && c@.base_url
                    == settings.base_url@ && c.http_client() == h,
                Err(e) => r matches Err(SimpleLlmError::Http(e2)) && e2 == e,
            },
    {
        match http {
            Ok(http) => Ok(SimpleLLM { api_key: settings.api_key, base_url: settings.base_url, http }),
            Err(e) => Err(SimpleLlmError::Http(e)),
        }
    }

    /// A client made from `cfg`, falling back to `env` and the defaults.
    ///
    /// It fails with `MissingApiKey` exactly when no non-empty key is
    /// configured or in the environment. Otherwise the HTTP client is built,
    /// with rustls and the chosen timeout; where that fails the error is
    /// `Http`, and where it succeeds the client has the chosen key and base URL.
    pub fn with_config(cfg: ClientConfig, env: Environment) -> (r: Result<SimpleLLM, SimpleLlmError>)
        ensures
            chosen_api_key(cfg.api_key, env.api_key) is None <==> r matches Err(
                SimpleLlmError::MissingApiKey,
            ),
            r matches Ok(c) ==> Some(c@.api_key) == chosen_api_key(cfg.api_key, env.api_key)
                && c@.base_url == chosen_base_url(cfg.base_url, env.base_url),
            r matches Err(e) ==> e is MissingApiKey || e is Http,
    {
        let settings = match cfg.resolve(env) {
            Ok(s) => s,
            Err(e) => {
                return Err(e);
            },
        };
        let builder = http_timeout(http_use_rustls(http_builder()), settings.timeout);
        let http = http_build(builder);
        Self::from_parts(settings, http)
    }

    /// A client with the key `api_key` (unless it is empty), the rest from
    /// `env` and the defaults.
    pub fn new(api_key: String, env: Environment) -> (r: Result<SimpleLLM, SimpleLlmError>)
        ensures
            chosen_api_key(Some(api_key), env.api_key) is None <==> r matches Err(
                SimpleLlmError::MissingApiKey,
            ),
            r matches Ok(c) ==> Some(c@.api_key) == chosen_api_key(Some(api_key), env.api_key)
                && c@.base_url == chosen_base_url(None, env.base_url),
            r matches Err(e) ==> e is MissingApiKey || e is Http,
    {
        Self::with_config(ClientConfig { api_key: Some(api_key), base_url: None, timeout: None }, env)
    }

    /// A client configured by `env` and the defaults alone.
    pub fn from_env(env: Environment) -> (r: Result<SimpleLLM, SimpleLlmError>)
        ensures
            chosen_api_key(None, env.api_key) is None <==> r matches Err(
                SimpleLlmError::MissingApiKey,
            ),
            r matches Ok(c) ==> Some(c@.api_key) == chosen_api_key(None, env.api_key)
                && c@.base_url == chosen_base_url(None, env.base_url),
            r matches Err(e) ==> e is MissingApiKey || e is Http,
    {
        Self::with_config(ClientConfig { api_key: None, base_url: None, timeout: None }, env)
    }

    /// The URL of `path` on this client's server.
    pub fn url(&self, path: &str) -> (r: String)
        ensures
            r@ == self@.base_url + path@,
    {
        join_str(self.base_url.as_str(), path)
    }

    /// The value of the `Authorization` header: `Bearer ` and the key.
    pub fn auth_header(&self) -> (r: String)
        ensures
            r@ == bearer_prefix() + self@.api_key,
    {
        join_str("Bearer ", self.api_key.as_str())
    }

    /// The HTTP client this client holds: the one it was made with.
    pub closed spec fn http_client(&self) -> reqwest::Client {
        self.http
    }

    /// The HTTP client requests are sent through.
    pub fn http(&self) -> (r: &reqwest::Client)
        ensures
            *r == self.http_client(),
    {
        &self.http
    }
}

/// The HTTP method of a request.
#[derive(Debug, PartialEq, Eq, Structural)]
pub enum HttpMethod {
    Get,
    Post,
}

/// The endpoints of the API.
#[derive(Debug)]
pub enum Endpoint {
    /// Chat completions, streamed or not.
    ChatCompletions,
    /// The models on offer.
    Models,
    /// Transcription of audio.
    AudioTranscriptions,
    /// Speech from text.
    AudioSpeech,
    /// Image generation.
    ImageGenerations,
    /// Balance and usage of the account.
    Usage,
    /// The keys of the account.
    Keys,
    /// The key in use.
    KeyCurrent,
    /// Usage of the key in use.
    KeyCurrentUsage,
    /// Daily usage of the key in use.
    KeyCurrentDailyUsage,
    /// Usage of the key with this id.
    KeyUsage(String),
    /// Daily usage of the key with this id.
    KeyDailyUsage(String),
}

impl Endpoint {
    /// The path of the endpoint; a key id is percent-encoded into its own segment.
    pub open spec fn path_of(&self) -> Seq<char> {
        match self {
            Endpoint::ChatCompletions => "/v1/chat/completions"@,
            Endpoint::Models => "/v1/models"@,
            Endpoint::AudioTranscriptions => "/v1/audio/transcriptions"@,
            Endpoint::AudioSpeech => "/v1/audio/speech"@,
            Endpoint::ImageGenerations => "/v1/images/generations"@,
            Endpoint::Usage => "/v1/usage"@,
            Endpoint::Keys => "/v1/keys"@,
            Endpoint::KeyCurrent => "/v1/keys/current"@,
            Endpoint::KeyCurrentUsage => "/v1/keys/current/usage"@,
            Endpoint::KeyCurrentDailyUsage => "/v1/keys/current/usage/daily"@,
            Endpoint::KeyUsage(id) => "/v1/keys/"@ + url_encoded(id@) + "/usage"@,
            Endpoint::KeyDailyUsage(id) => "/v1/keys/"@ + url_encoded(id@) + "/usage/daily"@,
        }
    }

    /// The method of the endpoint: the four that take a body are POSTed.
    pub open spec fn method_of(&self) -> HttpMethod {
        match self {
            Endpoint::ChatCompletions | Endpoint::AudioTranscriptions | Endpoint::AudioSpeech
            | Endpoint::ImageGenerations => HttpMethod::Post,
            _ => HttpMethod::Get,
        }
    }

    /// The path of the endpoint. A key id stays one segment: its encoding
    /// holds no `/`.
    pub fn path(&self) -> (r: String)
        ensures
            r@ == self.path_of(),
            self is ChatCompletions ==> r@ == "/v1/chat/completions"@,
            self is Models ==> r@ == "/v1/models"@,
            self is AudioTranscriptions ==> r@ == "/v1/audio/transcriptions"@,
            self is AudioSpeech ==> r@ == "/v1/audio/speech"@,
            self is ImageGenerations ==> r@ == "/v1/images/generations"@,
            self is Usage ==> r@ == "/v1/usage"@,
            self is Keys ==> r@ == "/v1/keys"@,
            self is KeyCurrent ==> r@ == "/v1/keys/current"@,
            self is KeyCurrentUsage ==> r@ == "/v1/keys/current/usage"@,
            self is KeyCurrentDailyUsage ==> r@ == "/v1/keys/current/usage/daily"@,
            self matches Endpoint::KeyUsage(id) ==> r@ == "/v1/keys/"@ + url_encoded(id@)
                + "/usage"@,
            self matches Endpoint::KeyDailyUsage(id) ==> r@ == "/v1/keys/"@ + url_encoded(id@)
                + "/usage/daily"@,
            self matches Endpoint::KeyUsage(id) ==> !url_encoded(id@).contains('/'),
            self matches Endpoint::KeyDailyUsage(id) ==> !url_encoded(id@).contains('/'),
    {
        match self {
            Endpoint::ChatCompletions => "/v1/chat/completions".to_string(),
            Endpoint::Models => "/v1/models".to_string(),
            Endpoint::AudioTranscriptions => "/v1/audio/transcriptions".to_string(),
            Endpoint::AudioSpeech => "/v1/audio/speech".to_string(),
            Endpoint::ImageGenerations => "/v1/images/generations".to_string(),
            Endpoint::Usage => "/v1/usage".to_string(),
            Endpoint::Keys => "/v1/keys".to_string(),
            Endpoint::KeyCurrent => "/v1/keys/current".to_string(),
            Endpoint::KeyCurrentUsage => "/v1/keys/current/usage".to_string(),
            Endpoint::KeyCurrentDailyUsage => "/v1/keys/current/usage/daily".to_string(),
            Endpoint::KeyUsage(id) => {
                let seg = urlencoding_encode(id.as_str());
                proof {
                    lemma_no_slash(seg@);
                }
                let head = join_str("/v1/keys/", seg.as_str());
                join_str(head.as_str(), "/usage")
            },
            Endpoint::KeyDailyUsage(id) => {
                let seg = urlencoding_encode(id.as_str());
                proof {
                    lemma_no_slash(seg@);
                }
                let head = join_str("/v1/keys/", seg.as_str());
                join_str(head.as_str(), "/usage/daily")
            },
        }
    }

    /// The method of the endpoint.
    pub fn method(&self) -> (r: HttpMethod)
        ensures
            r == self.method_of(),
            r == HttpMethod::Post <==> (self is ChatCompletions || self is AudioTranscriptions
                || self is AudioSpeech || self is ImageGenerations),
            r == HttpMethod::Get <==> !(self is ChatCompletions || self is AudioTranscriptions
                || self is AudioSpeech || self is ImageGenerations),
    {
        match self {
            Endpoint::ChatCompletions | Endpoint::AudioTranscriptions | Endpoint::AudioSpeech
            | Endpoint::ImageGenerations => HttpMethod::Post,
            _ => HttpMethod::Get,
        }
    }
}

/// Text whose ASCII characters are all safe in a segment holds no `/`.
proof fn lemma_no_slash(s: Seq<char>)
    requires
        forall|i: int| 0 <= i < s.len() && (s[i] as u32) < 0x80 ==> is_segment_safe_ascii(
            #[trigger] s[i],
        ),
    ensures
        !s.contains('/'),
{
    if s.contains('/') {
        let i = choose|i: int| 0 <= i < s.len() && s[i] == '/';
        assert(is_segment_safe_ascii(s[i]));
    }
}

/// The four endpoints that take a request body (chat completions,
/// transcriptions, speech, image generations) are POSTed; every other one,
/// which only reads, is fetched with GET.
pub proof fn lemma_endpoint_methods(e: Endpoint)
    ensures
        e is ChatCompletions ==> e.method_of() == HttpMethod::Post,
        e is AudioTranscriptions ==> e.method_of() == HttpMethod::Post,
        e is AudioSpeech ==> e.method_of() == HttpMethod::Post,
        e is ImageGenerations ==> e.method_of() == HttpMethod::Post,
        e is Models ==> e.method_of() == HttpMethod::Get,
        e is Usage ==> e.method_of() == HttpMethod::Get,
        e is Keys ==> e.method_of() == HttpMethod::Get,
        e is KeyCurrent ==> e.method_of() == HttpMethod::Get,
        e is KeyCurrentUsage ==> e.method_of() == HttpMethod::Get,
        e is KeyCurrentDailyUsage ==> e.method_of() == HttpMethod::Get,
        e is KeyUsage ==> e.method_of() == HttpMethod::Get,
        e is KeyDailyUsage ==> e.method_of() == HttpMethod::Get,
{
}

/// Each endpoint's path is its fixed URL path, and a key-specific path is the
/// keys collection, the encoded id, then `usage` (or `usage/daily`).
pub proof fn lemma_endpoint_paths(e: Endpoint)
    ensures
        e is ChatCompletions ==> e.path_of() == "/v1/chat/completions"@,
        e is Models ==> e.path_of() == "/v1/models"@,
        e is AudioTranscriptions ==> e.path_of() == "/v1/audio/transcriptions"@,
        e is AudioSpeech ==> e.path_of() == "/v1/audio/speech"@,
        e is ImageGenerations ==> e.path_of() == "/v1/images/generations"@,
        e is Usage ==> e.path_of() == "/v1/usage"@,
        e is Keys ==> e.path_of() == "/v1/keys"@,
        e is KeyCurrent ==> e.path_of() == "/v1/keys/current"@,
        e is KeyCurrentUsage ==> e.path_of() == "/v1/keys/current/usage"@,
        e is KeyCurrentDailyUsage ==> e.path_of() == "/v1/keys/current/usage/daily"@,
        e matches Endpoint::KeyUsage(id) ==> e.path_of() == "/v1/keys/"@ + url_encoded(id@)
            + "/usage"@,
        e matches Endpoint::KeyDailyUsage(id) ==> e.path_of() == "/v1/keys/"@ + url_encoded(id@)
            + "/usage/daily"@,
{
}

/// Whether `e` is one of the endpoints without a key id.
pub open spec fn is_fixed_endpoint(e: Endpoint) -> bool {
    !(e is KeyUsage || e is KeyDailyUsage)
}

/// Two different endpoints without a key id never share a path, so no
/// request reaches another endpoint than the one it names.
pub proof fn lemma_fixed_paths_distinct(e1: Endpoint, e2: Endpoint)
    requires
        is_fixed_endpoint(e1),
        is_fixed_endpoint(e2),
        e1.path_of() == e2.path_of(),
    ensures
        e1 == e2,
{
    reveal_strlit("/v1/chat/completions");
    reveal_strlit("/v1/models");
    reveal_strlit("/v1/audio/transcriptions");
    reveal_strlit("/v1/audio/speech");
    reveal_strlit("/v1/images/generations");
    reveal_strlit("/v1/usage");
    reveal_strlit("/v1/keys");
    reveal_strlit("/v1/keys/current");
    reveal_strlit("/v1/keys/current/usage");
    reveal_strlit("/v1/keys/current/usage/daily");
    let p = e1.path_of();
    assert(p.len() == e2.path_of().len());
    assert(p[4] == e2.path_of()[4]);
    assert(p[5] == e2.path_of()[5]);
}

/// Every endpoint lives under `/v1/`.
pub proof fn lemma_endpoint_under_v1(e: Endpoint)
    ensures
        "/v1/"@.is_prefix_of(e.path_of()),
{
    reveal_strlit("/v1/");
    match e {
        Endpoint::ChatCompletions => reveal_strlit("/v1/chat/completions"),
        Endpoint::Models => reveal_strlit("/v1/models"),
        Endpoint::AudioTranscriptions => reveal_strlit("/v1/audio/transcriptions"),
        Endpoint::AudioSpeech => reveal_strlit("/v1/audio/speech"),
        Endpoint::ImageGenerations => reveal_strlit("/v1/images/generations"),
        Endpoint::Usage => reveal_strlit("/v1/usage"),
        Endpoint::Keys => reveal_strlit("/v1/keys"),
        Endpoint::KeyCurrent => reveal_strlit("/v1/keys/current"),
        Endpoint::KeyCurrentUsage => reveal_strlit("/v1/keys/current/usage"),
        Endpoint::KeyCurrentDailyUsage => reveal_strlit("/v1/keys/current/usage/daily"),
        Endpoint::KeyUsage(id) => {
            reveal_strlit("/v1/keys/");
            assert("/v1/"@ =~= e.path_of().subrange(0, 4));
        },
        Endpoint::KeyDailyUsage(id) => {
            reveal_strlit("/v1/keys/");
            assert("/v1/"@ =~= e.path_of().subrange(0, 4));
        },
    }
}

/// The URL of an endpoint on a configured client joins the base URL and the
/// path with exactly one `/`: the base URL does not end in one and the path
/// starts with one.
pub proof fn lemma_endpoint_url_join(cfg: Option<String>, env: Option<String>, e: Endpoint)
    ensures
        ({
            let b = chosen_base_url(cfg, env);
            let u = b + e.path_of();
            &&& u[b.len() as int] == '/'
            &&& b.len() > 0 ==> u[b.len() - 1] != '/'
        }),
{
    lemma_base_url_trimmed(cfg, env);
    lemma_endpoint_under_v1(e);
    reveal_strlit("/v1/");
    let b = chosen_base_url(cfg, env);
    assert("/v1/"@[0] == '/');
    assert(e.path_of().subrange(0, 4)[0] == e.path_of()[0]);
    assert(e.path_of()[0] == '/');
    assert((b + e.path_of())[b.len() as int] == e.path_of()[0]);
}

} // verus!
