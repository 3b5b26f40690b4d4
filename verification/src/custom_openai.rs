//! Custom OpenAI-compatible transcription endpoints: where requests go, what they carry,
//! and how failed attempts are retried. The HTTP exchange itself is done by the caller.
use crate::config::{opt_view, CustomProviderConfig};
use crate::sources::{SourceError, opt_str_view};
use crate::text::{
    concat3, ends_with, eq_ignore_ascii_case, has_prefix, starts_with, str_eq,
    str_eq_ignore_ascii_case, strip_leading_slashes, trim, trim_leading_slashes, trim_str,
};
use std::time::Duration;
use crate::sources::{resolved_value, SourceErrorModel};
use vstd::arithmetic::power2::{lemma2_to64_rest, lemma_pow2_strictly_increases, pow2};
use vstd::bits::lemma_u64_shl_is_mul;
use vstd::prelude::*;

verus! {

/// The URL that `reqwest::Url::parse` makes of `input`, as its serialization; `None`
/// when `input` is not an absolute URL.
pub uninterp spec fn parsed_url(input: Seq<char>) -> Option<Seq<char>>;

/// The path (`reqwest::Url::path`) of the URL that `reqwest::Url::parse` makes of `url`.
pub uninterp spec fn url_path(url: Seq<char>) -> Option<Seq<char>>;

/// The URL `url` after `reqwest::Url::set_path(path)`, as its serialization.
pub uninterp spec fn url_with_path(url: Seq<char>, path: Seq<char>) -> Option<Seq<char>>;

/// The URL that `reqwest::Url::join(input)` resolves against `url`, as its
/// serialization; `None` when the join fails.
pub uninterp spec fn joined_url(url: Seq<char>, input: Seq<char>) -> Option<Seq<char>>;

/// Parses an absolute URL with `reqwest::Url::parse` and returns its serialization.
/// The contract names the result (`parsed_url`); what parsing does is not stated.
#[verifier::external_body]
fn parse_url(input: &str) -> (r: Option<String>)
    ensures
        opt_view(r) == parsed_url(input@),
{
    reqwest::Url::parse(input).ok().map(String::from)
}

/// The path of the URL whose serialization is `url`, read with `reqwest::Url::path`
/// after parsing it again. The contract names the result (`url_path`).
#[verifier::external_body]
fn path_of_url(url: &str) -> (r: Option<String>)
    ensures
        opt_view(r) == url_path(url@),
{
    reqwest::Url::parse(url).ok().map(|u| u.path().to_string())
}

/// The URL `url` with its path replaced by `reqwest::Url::set_path(path)`, as its
/// serialization. The contract names the result (`url_with_path`).
#[verifier::external_body]
fn set_url_path(url: &str, path: &str) -> (r: Option<String>)
    ensures
        opt_view(r) == url_with_path(url@, path@),
{
    let mut u = reqwest::Url::parse(url).ok()?;
    u.set_path(path);
    Some(String::from(u))
}

/// The URL `input` resolved against `url` by `reqwest::Url::join`, as its serialization.
/// The contract names the result (`joined_url`).
#[verifier::external_body]
fn join_url(url: &str, input: &str) -> (r: Option<String>)
    ensures
        opt_view(r) == joined_url(url@, input@),
{
    reqwest::Url::parse(url).ok()?.join(input).ok().map(String::from)
}

/// An endpoint given as a full `http://` or `https://` URL.
pub open spec fn is_absolute_url(endpoint: Seq<char>) -> bool {
    has_prefix(endpoint, "http://"@) || has_prefix(endpoint, "https://"@)
}

/// Whether the endpoint is a full `http://` or `https://` URL rather than a path.
pub fn is_absolute_endpoint(endpoint: &str) -> (r: bool)
    ensures
        r == is_absolute_url(endpoint@),
{
    starts_with(endpoint, "http://") || starts_with(endpoint, "https://")
}

/// Why an endpoint could not be resolved, or a custom provider set up.
#[derive(Debug, Clone, PartialEq, Eq)]
pub enum CustomProviderError {
    /// The base URL or the API key could not be resolved.
    Source(SourceError),
    /// A relative endpoint needs a base URL.
    BaseUrlRequired,
    /// The base URL is not a valid absolute URL.
    InvalidBaseUrl { base_url: String },
    /// The absolute endpoint is not a valid URL.
    InvalidEndpoint { endpoint: String },
    /// The relative endpoint cannot be resolved against the base URL.
    InvalidRelativeEndpoint { endpoint: String },
    /// The audio format is neither WAV nor FLAC.
    UnsupportedAudioFormat { value: String },
    /// No model is configured.
    MissingModel { name: String },
}

/// Mathematical model of the errors that endpoint resolution reports.
pub enum EndpointErrorModel {
    BaseUrlRequired,
    InvalidBaseUrl(Seq<char>),
    InvalidEndpoint(Seq<char>),
    InvalidRelativeEndpoint(Seq<char>),
}

/// The error model of an endpoint error, if it is one.
pub open spec fn endpoint_error_model(e: CustomProviderError) -> Option<EndpointErrorModel> {
    match e {
        CustomProviderError::BaseUrlRequired => Some(EndpointErrorModel::BaseUrlRequired),
        CustomProviderError::InvalidBaseUrl { base_url } => Some(
            EndpointErrorModel::InvalidBaseUrl(base_url@),
        ),
        CustomProviderError::InvalidEndpoint { endpoint } => Some(
            EndpointErrorModel::InvalidEndpoint(endpoint@),
        ),
        CustomProviderError::InvalidRelativeEndpoint { endpoint } => Some(
            EndpointErrorModel::InvalidRelativeEndpoint(endpoint@),
        ),
        _ => None,
    }
}

/// The base URL with a path that ends in `/`, so that relative endpoints resolve below it;
/// `None` when the URL cannot be read back.
pub open spec fn with_trailing_slash(url: Seq<char>) -> Option<Seq<char>> {
    match url_path(url) {
        Some(p) => if p.len() > 0 && p.last() == '/' {
            Some(url)
        } else {
            url_with_path(url, p + "/"@)
        },
        None => None,
    }
}

/// Where requests go. An absolute endpoint is parsed as it is. A relative endpoint needs a
/// base URL; the base URL's path gets a trailing `/` and the endpoint, without leading
/// `/`, is resolved against it.
pub open spec fn endpoint_resolution(base_url: Option<Seq<char>>, endpoint: Seq<char>) -> Result<
    Seq<char>,
    EndpointErrorModel,
> {
    if is_absolute_url(endpoint) {
        match parsed_url(endpoint) {
            Some(u) => Ok(u),
            None => Err(EndpointErrorModel::InvalidEndpoint(endpoint)),
        }
    } else {
        match base_url {
            None => Err(EndpointErrorModel::BaseUrlRequired),
            Some(b) => match parsed_url(b) {
                None => Err(EndpointErrorModel::InvalidBaseUrl(b)),
                Some(u) => match with_trailing_slash(u) {
                    None => Err(EndpointErrorModel::InvalidBaseUrl(b)),
                    Some(base) => match joined_url(base, trim_leading_slashes(endpoint)) {
                        Some(r) => Ok(r),
                        None => Err(EndpointErrorModel::InvalidRelativeEndpoint(endpoint)),
                    },
                },
            },
        }
    }
}

/// The path a base URL is given so that relative endpoints resolve below it: `None`
/// when `path` already ends in `/`, else `path` followed by `/`.
pub fn path_with_trailing_slash(path: &str) -> (r: Option<String>)
    ensures
        path@.len() > 0 && path@.last() == '/' ==> r is None,
        !(path@.len() > 0 && path@.last() == '/') ==> (r matches Some(p) && p@ == path@ + "/"@),
{
    if ends_with(path, "/") {
        proof {
            reveal_strlit("/");
            assert(path@.subrange(path@.len() - 1, path@.len() as int)[0] == path@.last());
        }
        None
    } else {
        proof {
            reveal_strlit("/");
            if path@.len() > 0 && path@.last() == '/' {
                assert(path@.subrange(path@.len() - 1, path@.len() as int) =~= "/"@);
            }
        }
        Some(String::from_str(path).concat("/"))
    }
}

/// Resolves the request URL from an optional base URL and the endpoint, as
/// `endpoint_resolution` describes.
/// Between the URL calls the URL is carried as its serialization and parsed again;
/// the url crate parses a URL's own serialization back to the same URL, so this is
/// the URL each step returned.
pub fn resolve_endpoint(base_url: Option<&str>, endpoint: &str) -> (r: Result<
    String,
    CustomProviderError,
>)
    ensures
        match endpoint_resolution(opt_str_view(base_url), endpoint@) {
            Ok(u) => r matches Ok(s) && s@ == u,
            Err(m) => r matches Err(e) && endpoint_error_model(e) == Some(m),
        },
{
    if is_absolute_endpoint(endpoint) {
        return match parse_url(endpoint) {
            Some(u) => Ok(u),
            None => Err(CustomProviderError::InvalidEndpoint { endpoint: String::from_str(endpoint) }),
        };
    }
    let base_url = match base_url {
        Some(b) => b,
        None => return Err(CustomProviderError::BaseUrlRequired),
    };
    let invalid_base = CustomProviderError::InvalidBaseUrl { base_url: String::from_str(base_url) };
    let base = match parse_url(base_url) {
        Some(u) => u,
        None => return Err(invalid_base),
    };
    let path = match path_of_url(base.as_str()) {
        Some(p) => p,
        None => return Err(invalid_base),
    };
    let base = match path_with_trailing_slash(path.as_str()) {
        None => base,
        Some(with_slash) => match set_url_path(base.as_str(), with_slash.as_str()) {
            Some(u) => u,
            None => return Err(invalid_base),
        },
    };
    match join_url(base.as_str(), strip_leading_slashes(endpoint)) {
        Some(u) => Ok(u),
        None => Err(
            CustomProviderError::InvalidRelativeEndpoint { endpoint: String::from_str(endpoint) },
        ),
    }
}


/// The container the audio is uploaded in.
#[derive(Debug, Clone, Copy, PartialEq, Eq, Structural)]
pub enum AudioFormat {
    Wav,
    Flac,
}

/// The audio format a configuration value names: blank or `wav` is WAV, `flac` is FLAC
/// (surrounding whitespace ignored); anything else names none.
pub open spec fn audio_format_of(value: Seq<char>) -> Option<AudioFormat> {
    let t = trim(value);
    if t.len() == 0 || t == "wav"@ {
        Some(AudioFormat::Wav)
    } else if t == "flac"@ {
        Some(AudioFormat::Flac)
    } else {
        None
    }
}

impl AudioFormat {
    /// Reads the configured audio format; the error carries the trimmed value.
    pub fn from_config(value: &str) -> (r: Result<Self, CustomProviderError>)
        ensures
            match audio_format_of(value@) {
                Some(f) => r == Ok::<AudioFormat, CustomProviderError>(f),
                None => r matches Err(CustomProviderError::UnsupportedAudioFormat { value: v }) && v@
                    == trim(value@),
            },
    {
        let t = trim_str(value);
        if t.unicode_len() == 0 || str_eq(t, "wav") {
            Ok(AudioFormat::Wav)
        } else if str_eq(t, "flac") {
            Ok(AudioFormat::Flac)
        } else {
            Err(CustomProviderError::UnsupportedAudioFormat { value: String::from_str(t) })
        }
    }

    /// The file name the upload is given.
    pub fn file_name(self) -> (r: &'static str)
        ensures
            r@ == match self {
                AudioFormat::Wav => "audio.wav"@,
                AudioFormat::Flac => "audio.flac"@,
            },
    {
        match self {
            AudioFormat::Wav => "audio.wav",
            AudioFormat::Flac => "audio.flac",
        }
    }
}

/// The views of a list of name/value pairs.
pub open spec fn pairs_view(v: Seq<(String, String)>) -> Seq<(Seq<char>, Seq<char>)> {
    v.map_values(|p: (String, String)| (p.0@, p.1@))
}

/// A copy of a list of name/value pairs.
pub fn clone_pairs(v: &Vec<(String, String)>) -> (r: Vec<(String, String)>)
    ensures
        pairs_view(r@) == pairs_view(v@),
{
    let mut r: Vec<(String, String)> = Vec::new();
    let mut i: usize = 0;
    while i < v.len()
        invariant
            i <= v@.len(),
            pairs_view(r@) == pairs_view(v@).take(i as int),
        decreases v@.len() - i,
    {
        let ghost before = r@;
        let k = v[i].0.clone();
        let x = v[i].1.clone();
        r.push((k, x));
        assert(pairs_view(r@) =~= pairs_view(before).push((v@[i as int].0@, v@[i as int].1@)));
        assert(pairs_view(v@).take(i + 1) =~= pairs_view(v@).take(i as int).push(
            (v@[i as int].0@, v@[i as int].1@),
        ));
        i += 1;
    }
    assert(pairs_view(v@).take(v@.len() as int) =~= pairs_view(v@));
    r
}

/// A transcriber for a custom OpenAI-compatible endpoint: everything a request needs
/// except the HTTP client.
#[derive(Debug)]
pub struct CustomOpenAiTranscriber {
    pub name: String,
    pub label: String,
    pub endpoint: String,
    pub api_key: Option<String>,
    pub model: String,
    pub audio_format: AudioFormat,
    pub headers: Vec<(String, String)>,
    pub body: Vec<(String, String)>,
    pub prompt: String,
    pub request_timeout: Duration,
    pub max_retries: u32,
}

/// Where a custom provider's requests go, given the value of its base URL's variable:
/// an absolute endpoint as it is; otherwise resolved against the base URL, which must
/// resolve. `Err(None)` when the base URL does not resolve.
pub open spec fn custom_endpoint(
    config: CustomProviderConfig,
    base_url_env: Option<Seq<char>>,
) -> Result<Seq<char>, Option<EndpointErrorModel>> {
    if is_absolute_url(config.endpoint@) {
        match endpoint_resolution(None, config.endpoint@) {
            Ok(u) => Ok(u),
            Err(m) => Err(Some(m)),
        }
    } else {
        match resolved_value(config.base_url, base_url_env) {
            None => Err(None),
            Some(b) => match endpoint_resolution(Some(b), config.endpoint@) {
                Ok(u) => Ok(u),
                Err(m) => Err(Some(m)),
            },
        }
    }
}

/// The label shown for a custom provider: the configured one, or `Custom (<name>)`.
pub open spec fn custom_label(label: Option<Seq<char>>, name: Seq<char>) -> Seq<char> {
    match label {
        Some(l) => l,
        None => "Custom ("@ + name + ")"@,
    }
}

impl CustomOpenAiTranscriber {
    /// Sets up the transcriber named `name` from its configuration. `base_url_env` is the
    /// value of the variable the base URL names; `api_key` is the API key as the key's
    /// source resolved. The endpoint is resolved first, then the key is taken, then the
    /// audio format read; the first failure is reported.
    pub fn new(
        name: &str,
        config: &CustomProviderConfig,
        request_timeout: Duration,
        max_retries: u32,
        prompt: String,
        base_url_env: Option<&str>,
        api_key: Result<Option<String>, SourceError>,
    ) -> (r: Result<Self, CustomProviderError>)
        ensures
            match custom_endpoint(*config, opt_str_view(base_url_env)) {
                Err(None) => r matches Err(CustomProviderError::Source(e)) && e@
                    == SourceErrorModel::Required("base_url"@),
                Err(Some(m)) => r matches Err(e) && endpoint_error_model(e) == Some(m),
                Ok(endpoint) => match api_key {
                    Err(k) => r == Err::<Self, CustomProviderError>(CustomProviderError::Source(k)),
                    Ok(key) => match audio_format_of(config.audio_format@) {
                        None => r matches Err(CustomProviderError::UnsupportedAudioFormat { value })
                            && value@ == trim(config.audio_format@),
                        Some(format) => r matches Ok(t) && {
                            &&& t.name@ == name@
                            &&& t.label@ == custom_label(opt_view(config.label), name@)
                            &&& t.endpoint@ == endpoint
                            &&& t.api_key == key
                            &&& t.model@ == config.model@
                            &&& t.audio_format == format
                            &&& pairs_view(t.headers@) == pairs_view(config.headers@)
                            &&& pairs_view(t.body@) == pairs_view(config.body@)
                            &&& t.prompt == prompt
                            &&& t.request_timeout == request_timeout
                            &&& t.max_retries == max_retries
                        },
                    },
                },
            },
    {
        proof {
            reveal_strlit("base_url");
        }
        let endpoint = if is_absolute_endpoint(config.endpoint.as_str()) {
            resolve_endpoint(None, config.endpoint.as_str())?
        } else {
            let base_url = match config.base_url.resolve("base_url", base_url_env) {
                Ok(b) => b,
                Err(e) => return Err(CustomProviderError::Source(e)),
            };
            resolve_endpoint(Some(base_url.as_str()), config.endpoint.as_str())?
        };
        let api_key = match api_key {
            Ok(k) => k,
            Err(e) => return Err(CustomProviderError::Source(e)),
        };
        let audio_format = AudioFormat::from_config(config.audio_format.as_str())?;
        let label = match &config.label {
            Some(l) => l.clone(),
            None => concat3("Custom (", name, ")"),
        };
        Ok(
            CustomOpenAiTranscriber {
                name: String::from_str(name),
                label,
                endpoint,
                api_key,
                model: config.model.clone(),
                audio_format,
                headers: clone_pairs(&config.headers),
                body: clone_pairs(&config.body),
                prompt,
                request_timeout,
                max_retries,
            },
        )
    }

    /// Checks that a model is configured (a blank model is missing).
    pub fn initialize(&self) -> (r: Result<(), CustomProviderError>)
        ensures
            trim(self.model@).len() == 0 ==> (r matches Err(
                CustomProviderError::MissingModel { name },
            ) && name@ == self.name@),
            trim(self.model@).len() > 0 ==> r is Ok,
    {
        if trim_str(self.model.as_str()).unicode_len() == 0 {
            return Err(CustomProviderError::MissingModel { name: self.name.clone() });
        }
        Ok(())
    }

    /// The label shown for this provider.
    pub fn provider_name(&self) -> (r: &str)
        ensures
            r@ == self.label@,
    {
        self.label.as_str()
    }
}


/// The message that describes a `CustomProviderError`.
pub open spec fn custom_error_message(e: CustomProviderError) -> Seq<char> {
    match e {
        CustomProviderError::Source(s) => crate::sources::source_error_message(s@),
        CustomProviderError::BaseUrlRequired => "base_url is required"@,
        CustomProviderError::InvalidBaseUrl { base_url } => "Invalid custom provider base_url: "@
            + base_url@,
        CustomProviderError::InvalidEndpoint { endpoint } => "Invalid custom endpoint: "@
            + endpoint@,
        CustomProviderError::InvalidRelativeEndpoint { endpoint } =>
            "Invalid custom provider endpoint: "@ + endpoint@,
        CustomProviderError::UnsupportedAudioFormat { value } =>
            "unsupported custom provider audio_format '"@ + value@ + "' (supported: wav, flac)"@,
        CustomProviderError::MissingModel { name } =>
            "model is required for custom transcription provider '"@ + name@ + "'"@,
    }
}

impl CustomProviderError {
    /// The message that describes this error.
    pub fn message(&self) -> (r: String)
        ensures
            r@ == custom_error_message(*self),
    {
        match self {
            CustomProviderError::Source(s) => s.message(),
            CustomProviderError::BaseUrlRequired => String::from_str("base_url is required"),
            CustomProviderError::InvalidBaseUrl { base_url } => crate::text::concat2(
                "Invalid custom provider base_url: ",
                base_url.as_str(),
            ),
            CustomProviderError::InvalidEndpoint { endpoint } => crate::text::concat2(
                "Invalid custom endpoint: ",
                endpoint.as_str(),
            ),
            CustomProviderError::InvalidRelativeEndpoint { endpoint } => crate::text::concat2(
                "Invalid custom provider endpoint: ",
                endpoint.as_str(),
            ),
            CustomProviderError::UnsupportedAudioFormat { value } => concat3(
                "unsupported custom provider audio_format '",
                value.as_str(),
                "' (supported: wav, flac)",
            ),
            CustomProviderError::MissingModel { name } => concat3(
                "model is required for custom transcription provider '",
                name.as_str(),
                "'",
            ),
        }
    }
}

/// Whether some pair of `v` has the name `key`.
pub open spec fn has_key(v: Seq<(Seq<char>, Seq<char>)>, key: Seq<char>) -> bool {
    exists|i: int| 0 <= i < v.len() && v[i].0 == key
}

/// Whether some pair of `v` has a name equal to `key` up to ASCII case.
pub open spec fn has_key_ignore_case(v: Seq<(Seq<char>, Seq<char>)>, key: Seq<char>) -> bool {
    exists|i: int| 0 <= i < v.len() && eq_ignore_ascii_case(v[i].0, key)
}

/// The text fields of an upload: the model, `response_format=json`, the configured body
/// fields in order, and the prompt unless it is blank or the body already sets one.
pub open spec fn form_text_fields(
    model: Seq<char>,
    body: Seq<(Seq<char>, Seq<char>)>,
    prompt: Seq<char>,
) -> Seq<(Seq<char>, Seq<char>)> {
    seq![("model"@, model), ("response_format"@, "json"@)] + body + if trim(prompt).len() > 0
        && !has_key(body, "prompt"@) {
        seq![("prompt"@, prompt)]
    } else {
        Seq::empty()
    }
}

/// Appends a name/value pair.
fn push_pair(out: &mut Vec<(String, String)>, k: &str, x: &str)
    ensures
        pairs_view(final(out)@) == pairs_view(old(out)@).push((k@, x@)),
{
    let ghost before = out@;
    out.push((String::from_str(k), String::from_str(x)));
    assert(pairs_view(out@) =~= pairs_view(before).push((k@, x@)));
}

impl CustomOpenAiTranscriber {
    /// The text fields of an upload, in order (see `form_text_fields`).
    pub fn form_fields(&self) -> (r: Vec<(String, String)>)
        ensures
            pairs_view(r@) == form_text_fields(self.model@, pairs_view(self.body@), self.prompt@),
    {
        let mut r: Vec<(String, String)> = Vec::new();
        push_pair(&mut r, "model", self.model.as_str());
        push_pair(&mut r, "response_format", "json");
        let ghost start = pairs_view(r@);
        let mut has_prompt = false;
        let mut i: usize = 0;
        while i < self.body.len()
            invariant
                i <= self.body@.len(),
                pairs_view(r@) == start + pairs_view(self.body@).take(i as int),
                has_prompt == has_key(pairs_view(self.body@).take(i as int), "prompt"@),
            decreases self.body@.len() - i,
        {
            let ghost taken = pairs_view(self.body@).take(i + 1);
            assert(taken =~= pairs_view(self.body@).take(i as int).push(
                (self.body@[i as int].0@, self.body@[i as int].1@),
            ));
            if str_eq(self.body[i].0.as_str(), "prompt") {
                has_prompt = true;
                assert(taken[i as int].0 == "prompt"@);
            } else {
                assert forall|j: int| 0 <= j < taken.len() && taken[j].0 == "prompt"@ implies j < i by {}
            }
            push_pair(&mut r, self.body[i].0.as_str(), self.body[i].1.as_str());
            i += 1;
        }
        assert(pairs_view(self.body@).take(self.body@.len() as int) =~= pairs_view(self.body@));
        if trim_str(self.prompt.as_str()).unicode_len() > 0 && !has_prompt {
            push_pair(&mut r, "prompt", self.prompt.as_str());
        }
        assert(pairs_view(r@) =~= form_text_fields(
            self.model@,
            pairs_view(self.body@),
            self.prompt@,
        ));
        r
    }

    /// Whether the API key is sent as a bearer token: there is a key and no configured
    /// header is named `authorization` (in any ASCII case).
    pub fn uses_bearer_auth(&self) -> (r: bool)
        ensures
            r == (self.api_key is Some && !has_key_ignore_case(
                pairs_view(self.headers@),
                "authorization"@,
            )),
    {
        let mut has_authorization = false;
        let mut i: usize = 0;
        while i < self.headers.len()
            invariant
                i <= self.headers@.len(),
                has_authorization == has_key_ignore_case(
                    pairs_view(self.headers@).take(i as int),
                    "authorization"@,
                ),
            decreases self.headers@.len() - i,
        {
            let ghost taken = pairs_view(self.headers@).take(i + 1);
            assert(taken =~= pairs_view(self.headers@).take(i as int).push(
                (self.headers@[i as int].0@, self.headers@[i as int].1@),
            ));
            if str_eq_ignore_ascii_case(self.headers[i].0.as_str(), "authorization") {
                has_authorization = true;
                assert(eq_ignore_ascii_case(taken[i as int].0, "authorization"@));
            } else {
                assert forall|j: int|
                    0 <= j < taken.len() && eq_ignore_ascii_case(
                        taken[j].0,
                        "authorization"@,
                    ) implies j < i by {}
            }
            i += 1;
        }
        assert(pairs_view(self.headers@).take(self.headers@.len() as int) =~= pairs_view(
            self.headers@,
        ));
        self.api_key.is_some() && !has_authorization
    }
}

/// The message of a failed request: the error message the server returned, or
/// `Custom transcription failed with status <status>`.
pub fn request_failure_message(status: &str, server_message: Option<&str>) -> (r: String)
    ensures
        r@ == match server_message {
            Some(m) => m@,
            None => "Custom transcription failed with status "@ + status@,
        },
{
    match server_message {
        Some(m) => String::from_str(m),
        None => crate::text::concat2("Custom transcription failed with status ", status),
    }
}

/// The context of a failed request: `Custom request failed (<status>)`.
pub fn request_failure_context(status: &str) -> (r: String)
    ensures
        r@ == "Custom request failed ("@ + status@ + ")"@,
{
    concat3("Custom request failed (", status, ")")
}

/// How many attempts a request gets: one more than the retries, saturating.
pub open spec fn attempts_for(max_retries: u32) -> u32 {
    if max_retries == u32::MAX {
        u32::MAX
    } else {
        (max_retries + 1) as u32
    }
}

/// How many attempts a request gets.
pub fn attempt_count(max_retries: u32) -> (r: u32)
    ensures
        r == attempts_for(max_retries),
        r >= 1,
{
    let attempts = max_retries.saturating_add(1);
    if attempts < 1 {
        1
    } else {
        attempts
    }
}

/// The delay before retrying after attempt `attempt` (counted from 0) failed:
/// 500 ms doubled for each earlier attempt.
pub open spec fn backoff_ms(attempt: nat) -> nat {
    500 * pow2(attempt)
}

/// What to do after attempt `attempt` (counted from 0) of `attempts` failed.
#[derive(Debug, Clone, Copy, PartialEq, Eq, Structural)]
pub enum RetryDecision {
    /// That was the last attempt: report its error.
    GiveUp,
    /// Wait this many milliseconds, then try again.
    RetryAfterMs(u64),
}

/// What to do after attempt `attempt` of `attempts` failed: give up after the last
/// attempt, else wait `backoff_ms(attempt)`. Waits are computed for the first 56
/// attempts; a later one does not fit in 64 bits.
pub fn after_failed_attempt(attempt: u32, attempts: u32) -> (r: RetryDecision)
    requires
        attempt < attempts,
        attempt + 1 == attempts || attempt <= 55,
    ensures
        attempt + 1 == attempts ==> r == RetryDecision::GiveUp,
        attempt + 1 < attempts ==> r == RetryDecision::RetryAfterMs(backoff_ms(attempt as nat) as u64),
{
    if attempt + 1 == attempts {
        return RetryDecision::GiveUp;
    }
    proof {
        lemma2_to64_rest();
        if attempt < 55 {
            lemma_pow2_strictly_increases(attempt as nat, 55);
        }
        assert(pow2(attempt as nat) <= 0x80000000000000);
        assert(1u64 * pow2((attempt as u64) as nat) <= u64::MAX);
        lemma_u64_shl_is_mul(1, attempt as u64);
        assert(500 * pow2(attempt as nat) <= 500 * 0x80000000000000);
    }
    let factor: u64 = 1u64 << (attempt as u64);
    RetryDecision::RetryAfterMs(500 * factor)
}


/// An absolute endpoint never needs a base URL: resolving it does not ask for one, and
/// setting up a provider with it does not resolve the base URL.
pub proof fn lemma_absolute_endpoint_needs_no_base_url(
    config: CustomProviderConfig,
    base_url_env: Option<Seq<char>>,
)
    requires
        is_absolute_url(config.endpoint@),
    ensures
        !(endpoint_resolution(None, config.endpoint@) matches Err(
            EndpointErrorModel::BaseUrlRequired,
        )),
        custom_endpoint(config, base_url_env) != Err::<Seq<char>, Option<EndpointErrorModel>>(None),
{
}

/// Without a configured label, a custom provider is labelled as its provider selection
/// is: `Custom (<name>)`.
pub proof fn lemma_custom_label_matches_provider_label(name: Seq<char>)
    ensures
        custom_label(None, name) == crate::provider::provider_label(
            crate::provider::ProviderModel::Custom(name),
        ),
{
}

/// The upload's file name carries the encoder's name for its format as extension.
pub proof fn lemma_file_name_matches_format(f: AudioFormat)
    ensures
        match f {
            AudioFormat::Wav => "audio.wav"@ == "audio."@ + crate::audio::format_name(f),
            AudioFormat::Flac => "audio.flac"@ == "audio."@ + crate::audio::format_name(f),
        },
{
    reveal_strlit("audio.wav");
    reveal_strlit("audio.flac");
    reveal_strlit("audio.");
    reveal_strlit("wav");
    reveal_strlit("flac");
    assert("audio.wav"@ =~= "audio."@ + "wav"@);
    assert("audio.flac"@ =~= "audio."@ + "flac"@);
}

/// Every request gets at least one attempt, and each wait doubles the previous one.
pub proof fn lemma_retry_schedule(max_retries: u32, attempt: nat)
    ensures
        attempts_for(max_retries) >= 1,
        attempts_for(max_retries) >= max_retries,
        backoff_ms(attempt + 1) == 2 * backoff_ms(attempt),
        backoff_ms(0) == 500,
{
    vstd::arithmetic::power2::lemma_pow2_unfold(attempt + 1);
    vstd::arithmetic::power2::lemma2_to64();
}

} // verus!
