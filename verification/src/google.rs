//! The adapter for Google's Gemini API, an HTTP backend: its descriptor, its
//! construction from configuration, the address it posts to, and the retry
//! policy of a post under throttling.
//!
//! The adapter sends nothing itself. A post is a conversation with the
//! caller: [`GoogleProvider::post`] gives the first [`PostStep`]; on
//! [`PostStep::Send`] the caller waits the delay, sends the request to the
//! attempt's address and reports what came of it to
//! [`PostAttempt::on_outcome`], which gives the next step. The policy itself
//! is the function [`next_step`], and [`post_run`] is the course that a post
//! takes under it.

use vstd::prelude::*;
use vstd::arithmetic::power2::pow2;
use vstd::arithmetic::power2::lemma2_to64;
use vstd::arithmetic::power2::lemma_pow2_strictly_increases;
use vstd::arithmetic::power2::lemma_pow2_unfold;
use rand::rngs::StdRng;
use serde_json::Value;
use crate::base::ConfigKey;
use crate::base::ConfigKeyView;
use crate::base::Provider;
use crate::base::ProviderMetadata;
use crate::base::ProviderMetadataView;
use crate::base::ProviderUsage;
use crate::base::ProviderUsageView;
use crate::base::Usage;
use crate::config::Config;
use crate::config::ConfigError;
use crate::config::ConfigErrorView;
use crate::config::ConfigView;
use crate::endpoint::join_url;
use crate::endpoint::parse_error_text;
use crate::endpoint::parse_url;
use crate::endpoint::url_error_text;
use crate::endpoint::url_joined;
use crate::endpoint::url_parsed;
use crate::errors::ProviderError;
use crate::errors::ProviderErrorView;
use crate::jitter::draw_below;
use crate::jitter::seeded_generator;
use crate::json::json_text_members;
use crate::json::text_member;
use crate::model::ModelConfig;
use crate::model::ModelConfigView;
use crate::text::owned_texts;
use crate::text::texts_of;

verus! {

/// The public host of the API.
pub const GOOGLE_API_HOST: &'static str = "https://generativelanguage.googleapis.com";

/// The model that an adapter is bound to where none is asked for.
pub const GOOGLE_DEFAULT_MODEL: &'static str = "gemini-2.0-flash";

/// The models of the API that the adapter knows by name.
pub const GOOGLE_KNOWN_MODELS: [&'static str; 8] = [
    "models/gemini-1.5-pro-latest",
    "models/gemini-1.5-pro",
    "models/gemini-1.5-flash-latest",
    "models/gemini-1.5-flash",
    "models/gemini-2.0-flash",
    "models/gemini-2.0-flash-lite-preview-02-05",
    "models/gemini-2.0-flash-thinking-exp-01-21",
    "models/gemini-2.0-pro-exp-02-05",
];

/// Where the models are documented.
pub const GOOGLE_DOC_URL: &'static str = "https://ai.google/get-started/our-models/";

/// Seconds after which one request to the API is abandoned.
pub const GOOGLE_REQUEST_TIMEOUT_SECS: u64 = 600;

/// How many times a throttled request is sent again before the post fails.
pub const GOOGLE_MAX_RETRIES: u32 = 5;

/// The HTTP status by which the API says that it throttles the caller.
pub const TOO_MANY_REQUESTS: u16 = 429;

/// Jitter is drawn from `0 .. JITTER_BOUND_MS` milliseconds.
pub const JITTER_BOUND_MS: u64 = 1000;

/// An adapter bound to one model of the Gemini API.
#[derive(Debug)]
pub struct GoogleProvider {
    host: String,
    api_key: String,
    model: ModelConfig,
}

/// Mathematical model of a [`GoogleProvider`].
pub struct GoogleProviderView {
    pub host: Seq<char>,
    pub api_key: Seq<char>,
    pub model: ModelConfigView,
}

impl View for GoogleProvider {
    type V = GoogleProviderView;

    closed spec fn view(&self) -> GoogleProviderView {
        GoogleProviderView { host: self.host@, api_key: self.api_key@, model: self.model@ }
    }
}

impl GoogleProviderView {
    /// The adapter for `model` that the store `config` gives: the API key is
    /// the secret `GOOGLE_API_KEY`, which must be there; the host is the
    /// value of `GOOGLE_HOST`, or the public one.
    pub open spec fn from_env(model: ModelConfigView, config: ConfigView) -> Result<
        GoogleProviderView,
        ConfigErrorView,
    > {
        match config.get_secret("GOOGLE_API_KEY"@) {
            Some(api_key) => Ok(
                GoogleProviderView {
                    host: match config.get("GOOGLE_HOST"@) {
                        Some(host) => host,
                        None => GOOGLE_API_HOST@,
                    },
                    api_key,
                    model,
                },
            ),
            None => Err(ConfigErrorView::NotFound("GOOGLE_API_KEY"@)),
        }
    }

    /// The path and query that a completion request goes to, relative to the
    /// host.
    pub open spec fn endpoint_path(self) -> Seq<char> {
        "v1beta/models/"@ + self.model.model_name + ":generateContent?key="@ + self.api_key
    }

    /// The address that a completion request goes to: the endpoint path
    /// resolved against the host. Where the host is no URL, or the path
    /// cannot be resolved against it, the request has failed, and the
    /// reason says which of the two and goes on in the words of the URL
    /// parser.
    pub open spec fn endpoint_url(self) -> Result<Seq<char>, ProviderErrorView> {
        match url_parsed(self.host) {
            Ok(base) => match url_joined(base, self.endpoint_path()) {
                Ok(url) => Ok(url),
                Err(error) => Err(
                    ProviderErrorView::RequestFailed(
                        "Failed to construct endpoint URL: "@ + url_error_text(error),
                    ),
                ),
            },
            Err(error) => Err(
                ProviderErrorView::RequestFailed("Invalid base URL: "@ + url_error_text(error)),
            ),
        }
    }
}

/// The descriptor of the adapter.
pub open spec fn google_metadata() -> ProviderMetadataView {
    ProviderMetadataView {
        name: "google"@,
        display_name: "Google Gemini"@,
        description: "Gemini models from Google AI"@,
        default_model: GOOGLE_DEFAULT_MODEL@,
        known_models: texts_of(GOOGLE_KNOWN_MODELS@),
        model_doc_link: GOOGLE_DOC_URL@,
        config_keys: seq![
            ConfigKeyView {
                name: "GOOGLE_API_KEY"@,
                required: true,
                secret: true,
                default: None,
            },
            ConfigKeyView {
                name: "GOOGLE_HOST"@,
                required: false,
                secret: false,
                default: Some(GOOGLE_API_HOST@),
            },
        ],
    }
}

/// Where the store names no host, the adapter goes to the host that its
/// descriptor declares as the default.
pub proof fn lemma_google_host_defaults_as_declared(model: ModelConfigView, config: ConfigView)
    requires
        config.get("GOOGLE_HOST"@) is None,
        GoogleProviderView::from_env(model, config) is Ok,
    ensures
        Some(GoogleProviderView::from_env(model, config)->Ok_0.host)
            == google_metadata().config_keys[1].default,
        google_metadata().config_keys[1].name == "GOOGLE_HOST"@,
{
}

/// The model that served a response: the one that the response reports under
/// `modelVersion` (none, where that member is no text), else the configured
/// one.
pub open spec fn served_model(
    configured: Seq<char>,
    members: Map<Seq<char>, Option<Seq<char>>>,
) -> Seq<char> {
    if members.contains_key("modelVersion"@) {
        match members["modelVersion"@] {
            Some(version) => version,
            None => Seq::empty(),
        }
    } else {
        configured
    }
}

/// Computes [`served_model`] from what was found under `modelVersion`.
pub fn model_served(reported: Option<Option<String>>, configured: &str) -> (model: String)
    ensures
        model@ == match reported {
            Some(Some(version)) => version@,
            Some(None) => Seq::empty(),
            None => configured@,
        },
{
    match reported {
        Some(Some(version)) => version,
        Some(None) => String::new(),
        None => String::from_str(configured),
    }
}

impl Provider for GoogleProvider {
    open spec fn bound_model(&self) -> ModelConfigView {
        self@.model
    }

    /// The descriptor of the adapter. It needs no instance and reads no
    /// configuration.
    fn metadata() -> (metadata: ProviderMetadata)
        ensures
            metadata@ == google_metadata(),
    {
        let known_models = owned_texts(&GOOGLE_KNOWN_MODELS);
        let mut config_keys: Vec<ConfigKey> = Vec::new();
        config_keys.push(ConfigKey::new("GOOGLE_API_KEY", true, true, None));
        config_keys.push(ConfigKey::new("GOOGLE_HOST", false, false, Some(GOOGLE_API_HOST)));
        assert(config_keys.deep_view() == google_metadata().config_keys);
        ProviderMetadata::new(
            "google",
            "Google Gemini",
            "Gemini models from Google AI",
            GOOGLE_DEFAULT_MODEL,
            known_models,
            GOOGLE_DOC_URL,
            config_keys,
        )
    }

    /// The model that the adapter is bound to.
    fn get_model_config(&self) -> (model: ModelConfig)
        ensures
            model@ == self@.model,
    {
        self.model.clone()
    }
}

impl GoogleProvider {
    /// Builds the adapter for `model` from the store: see
    /// [`GoogleProviderView::from_env`].
    pub fn from_env(model: ModelConfig, config: &Config) -> (built: Result<
        GoogleProvider,
        ConfigError,
    >)
        ensures
            match GoogleProviderView::from_env(model@, config@) {
                Ok(provider) => built matches Ok(adapter) && adapter@ == provider,
                Err(error) => built matches Err(reported) && reported@ == error,
            },
    {
        let api_key = match config.get_secret("GOOGLE_API_KEY") {
            Some(api_key) => api_key,
            None => {
                return Err(ConfigError::NotFound(String::from_str("GOOGLE_API_KEY")));
            },
        };
        let host = match config.get("GOOGLE_HOST") {
            Some(host) => host,
            None => String::from_str(GOOGLE_API_HOST),
        };
        Ok(GoogleProvider { host, api_key, model })
    }

    /// The host that requests go to.
    pub fn host(&self) -> (host: &str)
        ensures
            host@ == self@.host,
    {
        self.host.as_str()
    }

    /// The path and query that a completion request goes to.
    pub fn endpoint_path(&self) -> (path: String)
        ensures
            path@ == self@.endpoint_path(),
    {
        String::from_str("v1beta/models/").concat(self.model.model_name.as_str()).concat(
            ":generateContent?key=",
        ).concat(self.api_key.as_str())
    }

    /// The address that a completion request goes to: the endpoint path
    /// resolved against the host. Where the host is no URL, or the two make
    /// none, the request has failed before it was sent.
    pub fn endpoint_url(&self) -> (resolved: Result<String, ProviderError>)
        ensures
            match self@.endpoint_url() {
                Ok(url) => resolved matches Ok(text) && text@ == url,
                Err(error) => resolved matches Err(reported) && reported@ == error,
            },
    {
        let base = match parse_url(self.host.as_str()) {
            Ok(base) => base,
            Err(error) => {
                return Err(
                    ProviderError::request_failed(
                        "Invalid base URL: ",
                        parse_error_text(error).as_str(),
                    ),
                );
            },
        };
        let path = self.endpoint_path();
        match join_url(base.as_str(), path.as_str()) {
            Ok(url) => Ok(url),
            Err(error) => Err(
                ProviderError::request_failed(
                    "Failed to construct endpoint URL: ",
                    parse_error_text(error).as_str(),
                ),
            ),
        }
    }

    /// Begins a post: the first request goes out at once, unless the address
    /// cannot be made.
    pub fn post(&self) -> (step: PostStep)
        ensures
            step@ == match self@.endpoint_url() {
                Ok(url) => PostStepView::Send {
                    attempt: PostAttemptView { url, retries: 0 },
                    delay_ms: 0,
                },
                Err(error) => PostStepView::Fail(error),
            },
    {
        match self.endpoint_url() {
            Ok(url) => PostStep::Send {
                attempt: PostAttempt { url, retries: 0, generator: seeded_generator() },
                delay_ms: 0,
            },
            Err(error) => PostStep::Fail(error),
        }
    }

    /// What the caller of a completion is told when the post has failed with
    /// `error`: exhausted retries become a plain request to try again later,
    /// every other error stays as it is.
    pub fn post_failure(error: ProviderError) -> (reported: ProviderError)
        ensures
            match error {
                ProviderError::RateLimitExceeded(_) => reported@ == ProviderErrorView::Other(
                    "Gemini rate limit exceeded. Please try again later."@,
                ),
                _ => reported == error,
            },
    {
        match error {
            ProviderError::RateLimitExceeded(_) => ProviderError::Other(
                String::from_str("Gemini rate limit exceeded. Please try again later."),
            ),
            other => other,
        }
    }

    /// The model that served `response`: see [`served_model`].
    pub fn served_model(&self, response: &Value) -> (model: String)
        ensures
            model@ == served_model(self@.model.model_name, json_text_members(*response)),
    {
        model_served(text_member(response, "modelVersion"), self.model.model_name.as_str())
    }

    /// Ends a completion whose post brought `response`, from what the format
    /// translator made of it. A failure to translate the message comes first,
    /// then a failure to extract the usage; neither is mended here.
    pub fn completion<M>(
        &self,
        response: &Value,
        message: Result<M, ProviderError>,
        usage: Result<Usage, ProviderError>,
    ) -> (completed: Result<(M, ProviderUsage), ProviderError>)
        ensures
            match (message, usage) {
                (Err(error), _) => completed == Err::<(M, ProviderUsage), ProviderError>(error),
                (Ok(_), Err(error)) => completed == Err::<(M, ProviderUsage), ProviderError>(
                    error,
                ),
                (Ok(translated), Ok(counted)) => completed matches Ok((delivered, served))
                    && delivered == translated && served@ == (ProviderUsageView {
                    model: served_model(self@.model.model_name, json_text_members(*response)),
                    usage: counted,
                }),
            },
    {
        let message = match message {
            Ok(message) => message,
            Err(error) => {
                return Err(error);
            },
        };
        let usage = match usage {
            Ok(usage) => usage,
            Err(error) => {
                return Err(error);
            },
        };
        let model = self.served_model(response);
        Ok((message, ProviderUsage::new(model, usage)))
    }
}

/// The delay before a request is sent for the `retry`-th time again: two to
/// the power of `retry` seconds and the jitter, in milliseconds.
pub open spec fn backoff_millis(retry: nat, jitter_ms: nat) -> nat {
    pow2(retry) * 1000 + jitter_ms
}

/// Computes [`backoff_millis`], where it fits the machine's integers.
pub fn backoff_delay_ms(retry: u32, jitter_ms: u64) -> (delay_ms: u64)
    requires
        backoff_millis(retry as nat, jitter_ms as nat) <= u64::MAX,
    ensures
        delay_ms == backoff_millis(retry as nat, jitter_ms as nat),
{
    let mut seconds: u64 = 1;
    let mut doubled: u32 = 0;
    proof {
        lemma2_to64();
    }
    while doubled < retry
        invariant
            doubled <= retry,
            seconds == pow2(doubled as nat),
            pow2(retry as nat) * 1000 <= u64::MAX,
        decreases retry - doubled,
    {
        proof {
            lemma_pow2_unfold((doubled + 1) as nat);
            if doubled + 1 < retry {
                lemma_pow2_strictly_increases((doubled + 1) as nat, retry as nat);
            }
        }
        seconds = seconds * 2;
        doubled = doubled + 1;
    }
    seconds * 1000 + jitter_ms
}

/// What one attempt to send a request came to.
#[derive(Debug, PartialEq, Eq)]
pub enum SendOutcome {
    /// No response arrived; the text is the transport's account of why.
    Failed(String),
    /// A response arrived, with this HTTP status.
    Responded(u16),
}

/// Mathematical model of a [`SendOutcome`].
pub enum SendOutcomeView {
    Failed(Seq<char>),
    Responded(u16),
}

impl View for SendOutcome {
    type V = SendOutcomeView;

    open spec fn view(&self) -> SendOutcomeView {
        match self {
            SendOutcome::Failed(reason) => SendOutcomeView::Failed(reason@),
            SendOutcome::Responded(status) => SendOutcomeView::Responded(*status),
        }
    }
}

/// A post in progress: where the request goes and how often it has been sent
/// again after throttling.
#[derive(Debug)]
pub struct PostAttempt {
    url: String,
    retries: u32,
    generator: StdRng,
}

/// Mathematical model of a [`PostAttempt`]. The random generator is left out.
pub struct PostAttemptView {
    pub url: Seq<char>,
    pub retries: nat,
}

impl View for PostAttempt {
    type V = PostAttemptView;

    closed spec fn view(&self) -> PostAttemptView {
        PostAttemptView { url: self.url@, retries: self.retries as nat }
    }
}

/// What the caller of a post does next.
#[derive(Debug)]
pub enum PostStep {
    /// Wait `delay_ms` milliseconds, send the request to the attempt's
    /// address, and report the outcome to the attempt.
    Send { attempt: PostAttempt, delay_ms: u64 },
    /// The last response is the post's: hand it to the response decoder.
    Deliver,
    /// The post has failed.
    Fail(ProviderError),
}

/// Mathematical model of a [`PostStep`].
pub enum PostStepView {
    Send { attempt: PostAttemptView, delay_ms: nat },
    Deliver,
    Fail(ProviderErrorView),
}

impl View for PostStep {
    type V = PostStepView;

    open spec fn view(&self) -> PostStepView {
        match self {
            PostStep::Send { attempt, delay_ms } => PostStepView::Send {
                attempt: attempt@,
                delay_ms: *delay_ms as nat,
            },
            PostStep::Deliver => PostStepView::Deliver,
            PostStep::Fail(error) => PostStepView::Fail(error@),
        }
    }
}

/// The retry policy: what follows when the attempt `attempt` meets `outcome`,
/// if `jitter_ms` is the jitter drawn for the next delay.
///
/// A transport failure ends the post at once. A throttled response is
/// answered by another request after a backoff delay, until the budget of
/// retries is spent. Any other response is the post's.
pub open spec fn next_step(
    attempt: PostAttemptView,
    outcome: SendOutcomeView,
    jitter_ms: nat,
) -> PostStepView {
    match outcome {
        SendOutcomeView::Failed(reason) => PostStepView::Fail(
            ProviderErrorView::RequestFailed("Request failed: "@ + reason),
        ),
        SendOutcomeView::Responded(status) => if status != TOO_MANY_REQUESTS {
            PostStepView::Deliver
        } else if attempt.retries + 1 > GOOGLE_MAX_RETRIES {
            PostStepView::Fail(ProviderErrorView::RateLimitExceeded("Max retries exceeded"@))
        } else {
            PostStepView::Send {
                attempt: PostAttemptView { url: attempt.url, retries: attempt.retries + 1 },
                delay_ms: backoff_millis(attempt.retries + 1, jitter_ms),
            }
        },
    }
}

/// How far a post has come.
pub enum PostEnd {
    /// A response was handed to the response decoder.
    Delivered,
    /// The post has failed.
    Failed(ProviderErrorView),
    /// The post waits for the outcome of a request.
    Pending(PostAttemptView),
}

/// The course of a post: how many requests were sent, the delays that were
/// waited before the requests that followed the first, and how far the post
/// has come.
pub struct PostRun {
    pub requests: nat,
    pub delays: Seq<nat>,
    pub end: PostEnd,
}

/// The course that a post takes from `attempt` on, where the requests that
/// it sends meet `outcomes`, one after the other, and `jitters` are the
/// jitters drawn on the way: each outcome is answered by [`next_step`].
pub open spec fn post_run(
    attempt: PostAttemptView,
    outcomes: Seq<SendOutcomeView>,
    jitters: Seq<nat>,
) -> PostRun
    decreases outcomes.len(),
{
    if outcomes.len() == 0 {
        PostRun { requests: 0, delays: seq![], end: PostEnd::Pending(attempt) }
    } else {
        match next_step(attempt, outcomes[0], jitters[0]) {
            PostStepView::Send { attempt: next, delay_ms } => {
                let rest = post_run(next, outcomes.drop_first(), jitters.drop_first());
                PostRun {
                    requests: rest.requests + 1,
                    delays: seq![delay_ms] + rest.delays,
                    end: rest.end,
                }
            },
            PostStepView::Deliver => PostRun {
                requests: 1,
                delays: seq![],
                end: PostEnd::Delivered,
            },
            PostStepView::Fail(error) => PostRun {
                requests: 1,
                delays: seq![],
                end: PostEnd::Failed(error),
            },
        }
    }
}

/// `count` throttled responses in a row.
pub open spec fn throttled(count: nat) -> Seq<SendOutcomeView> {
    Seq::new(count, |i: int| SendOutcomeView::Responded(TOO_MANY_REQUESTS))
}

/// The delay before a retry is at least two to the power of the retry's
/// number seconds, and less than a second more.
pub proof fn lemma_backoff_bounds(attempt: PostAttemptView, outcome: SendOutcomeView, jitter_ms: nat)
    requires
        jitter_ms < JITTER_BOUND_MS,
    ensures
        (next_step(attempt, outcome, jitter_ms) matches PostStepView::Send {
            attempt: next,
            delay_ms,
        } ==> next.retries == attempt.retries + 1 && pow2(next.retries) * 1000 <= delay_ms < (pow2(
            next.retries,
        ) + 1) * 1000),
{
    assert((pow2(attempt.retries + 1) + 1) * 1000 == pow2(attempt.retries + 1) * 1000 + 1000)
        by (nonlinear_arith);
}

/// A post that is throttled `count` times within its budget and then
/// answered with any other status sends `count + 1` requests and delivers
/// the last response; before the retry of each number it waits at least two
/// to the power of that number seconds.
pub proof fn lemma_throttled_then_answered(
    attempt: PostAttemptView,
    count: nat,
    status: u16,
    jitters: Seq<nat>,
)
    requires
        attempt.retries + count <= GOOGLE_MAX_RETRIES,
        status != TOO_MANY_REQUESTS,
    ensures
        ({
            let run = post_run(
                attempt,
                throttled(count).push(SendOutcomeView::Responded(status)),
                jitters,
            );
            &&& run.requests == count + 1
            &&& run.end == PostEnd::Delivered
            &&& run.delays.len() == count
            &&& forall|i: int|
                0 <= i < count ==> #[trigger] run.delays[i] >= pow2(
                    (attempt.retries + 1 + i) as nat,
                ) * 1000
        }),
    decreases count,
{
    let outcomes = throttled(count).push(SendOutcomeView::Responded(status));
    if count > 0 {
        let next = PostAttemptView { url: attempt.url, retries: attempt.retries + 1 };
        assert(outcomes.drop_first() == throttled((count - 1) as nat).push(
            SendOutcomeView::Responded(status),
        ));
        lemma_throttled_then_answered(next, (count - 1) as nat, status, jitters.drop_first());
        let rest = post_run(next, outcomes.drop_first(), jitters.drop_first());
        let run = post_run(attempt, outcomes, jitters);
        assert(run.delays == seq![backoff_millis(next.retries, jitters[0])] + rest.delays);
        assert forall|i: int| 0 <= i < count implies #[trigger] run.delays[i] >= pow2(
            (attempt.retries + 1 + i) as nat,
        ) * 1000 by {
            if i > 0 {
                assert(run.delays[i] == rest.delays[i - 1]);
            }
        }
    }
}

/// A post that is throttled once more than its budget allows sends no
/// further request and fails with `RateLimitExceeded`: from a first request
/// on, after six requests, five of them retries.
pub proof fn lemma_throttled_beyond_budget(
    attempt: PostAttemptView,
    later: Seq<SendOutcomeView>,
    jitters: Seq<nat>,
)
    requires
        attempt.retries <= GOOGLE_MAX_RETRIES,
    ensures
        ({
            let count = (GOOGLE_MAX_RETRIES - attempt.retries + 1) as nat;
            let run = post_run(attempt, throttled(count) + later, jitters);
            &&& run.requests == count
            &&& run.end == PostEnd::Failed(
                ProviderErrorView::RateLimitExceeded("Max retries exceeded"@),
            )
            &&& run.delays.len() == count - 1
        }),
    decreases GOOGLE_MAX_RETRIES - attempt.retries,
{
    let count = (GOOGLE_MAX_RETRIES - attempt.retries + 1) as nat;
    let outcomes = throttled(count) + later;
    assert(outcomes[0] == SendOutcomeView::Responded(TOO_MANY_REQUESTS));
    if attempt.retries < GOOGLE_MAX_RETRIES {
        let next = PostAttemptView { url: attempt.url, retries: attempt.retries + 1 };
        assert(outcomes.drop_first() == throttled((count - 1) as nat) + later);
        lemma_throttled_beyond_budget(next, later, jitters.drop_first());
    }
}

/// A post never sends more than one request beyond its budget of retries,
/// whatever the outcomes.
pub proof fn lemma_requests_are_bounded(
    attempt: PostAttemptView,
    outcomes: Seq<SendOutcomeView>,
    jitters: Seq<nat>,
)
    requires
        attempt.retries <= GOOGLE_MAX_RETRIES,
    ensures
        post_run(attempt, outcomes, jitters).requests <= GOOGLE_MAX_RETRIES - attempt.retries + 1,
        post_run(attempt, outcomes, jitters).requests <= outcomes.len(),
    decreases outcomes.len(),
{
    if outcomes.len() > 0 {
        match next_step(attempt, outcomes[0], jitters[0]) {
            PostStepView::Send { attempt: next, delay_ms } => {
                lemma_requests_are_bounded(next, outcomes.drop_first(), jitters.drop_first());
            },
            _ => {},
        }
    }
}

impl PostAttempt {
    #[verifier::type_invariant]
    spec fn within_budget(&self) -> bool {
        self.retries <= GOOGLE_MAX_RETRIES
    }

    /// The address that the request goes to.
    pub fn url(&self) -> (url: &str)
        ensures
            url@ == self@.url,
    {
        self.url.as_str()
    }

    /// How often the request has been sent again so far.
    pub fn retries(&self) -> (retries: u32)
        ensures
            retries == self@.retries,
            retries <= GOOGLE_MAX_RETRIES,
    {
        proof {
            use_type_invariant(self);
        }
        self.retries
    }

    /// Decides what follows the outcome of the request just sent, where
    /// `jitter_ms` is the jitter for the next delay: the step that
    /// [`next_step`] gives.
    pub fn decide(self, outcome: SendOutcome, jitter_ms: u64) -> (step: PostStep)
        requires
            jitter_ms < JITTER_BOUND_MS,
        ensures
            step@ == next_step(self@, outcome@, jitter_ms as nat),
    {
        proof {
            use_type_invariant(&self);
            lemma2_to64();
        }
        match outcome {
            SendOutcome::Failed(reason) => PostStep::Fail(
                ProviderError::request_failed("Request failed: ", reason.as_str()),
            ),
            SendOutcome::Responded(status) => {
                if status != TOO_MANY_REQUESTS {
                    PostStep::Deliver
                } else if self.retries >= GOOGLE_MAX_RETRIES {
                    PostStep::Fail(
                        ProviderError::RateLimitExceeded(
                            String::from_str("Max retries exceeded"),
                        ),
                    )
                } else {
                    let PostAttempt { url, retries, generator } = self;
                    let retries = retries + 1;
                    let delay_ms = backoff_delay_ms(retries, jitter_ms);
                    PostStep::Send { attempt: PostAttempt { url, retries, generator }, delay_ms }
                }
            },
        }
    }

    /// Decides what follows the outcome of the request just sent: the step
    /// that [`next_step`] gives for a jitter drawn at random. The jitter is
    /// drawn only where another request follows.
    pub fn on_outcome(self, outcome: SendOutcome) -> (step: PostStep)
        ensures
            exists|jitter_ms: nat|
                jitter_ms < JITTER_BOUND_MS && step@ == #[trigger] next_step(
                    self@,
                    outcome@,
                    jitter_ms,
                ),
            (step matches PostStep::Send { attempt, delay_ms } ==> pow2(attempt@.retries) * 1000
                <= delay_ms < (pow2(attempt@.retries) + 1) * 1000),
    {
        proof {
            use_type_invariant(&self);
        }
        let retried = match outcome {
            SendOutcome::Responded(status) => status == TOO_MANY_REQUESTS && self.retries
                < GOOGLE_MAX_RETRIES,
            SendOutcome::Failed(_) => false,
        };
        let PostAttempt { url, retries, mut generator } = self;
        let jitter_ms = if retried {
            draw_below(&mut generator, JITTER_BOUND_MS)
        } else {
            0
        };
        let attempt = PostAttempt { url, retries, generator };
        assert(attempt@ == self@);
        proof {
            lemma_backoff_bounds(self@, outcome@, jitter_ms as nat);
        }
        attempt.decide(outcome, jitter_ms)
    }
}

} // verus!
