use crate::cache::{cache_model, cached_at, expiry};
use crate::config::{ttl_of, Config, ConfigBuilder, RateLimitStrategy};
use crate::endpoint::HypixelEndpoint;
use crate::key::Key;
use crate::params::Params;
use crate::util::decimal::{parse_i64, parsed_i64};
use crate::util::decode::Decode;
use crate::util::error::{fail_cause, stated_cause, Error, ErrorView};
use crate::util::generic_json::{parsed_json, Json, JsonView};
use crate::util::minecraft::ApiType;
use vstd::prelude::*;
use vstd::string::*;

verus! {

/// A request as it is to be sent: a GET to `url` with `query`, and with
/// `api_key` in the header `API-Key` where there is one.
#[derive(Debug, PartialEq, Eq)]
pub struct Request {
    pub url: String,
    pub query: Vec<(String, String)>,
    pub api_key: Option<String>,
}

pub struct RequestView {
    pub url: Seq<char>,
    pub query: Seq<(Seq<char>, Seq<char>)>,
    pub api_key: Option<Seq<char>>,
}

impl DeepView for Request {
    type V = RequestView;

    open spec fn deep_view(&self) -> RequestView {
        RequestView {
            url: self.url@,
            query: self.query.deep_view(),
            api_key: self.api_key.deep_view(),
        }
    }
}

/// What is to be done for a call before anything is sent.
#[derive(Debug, PartialEq, Eq)]
pub enum Step<T> {
    /// The value was found in the cache: the call is over.
    Cached(T),
    /// The call fails, and nothing is sent.
    Fail(Error),
    /// Wait for so many seconds, then send the request.
    Send(i64, Request),
}

pub enum StepView<V> {
    Cached(V),
    Fail(ErrorView),
    Send(i64, RequestView),
}

impl<T: DeepView> DeepView for Step<T> {
    type V = StepView<T::V>;

    open spec fn deep_view(&self) -> StepView<T::V> {
        match self {
            Step::Cached(value) => StepView::Cached(value.deep_view()),
            Step::Fail(error) => StepView::Fail(error@),
            Step::Send(seconds, request) => StepView::Send(*seconds, request.deep_view()),
        }
    }
}

/// What came back for a request that was sent.
pub struct Answer {
    pub status: u16,
    /// The header `RateLimit-Remaining`, where the answer has it.
    pub remaining: Option<String>,
    /// The header `RateLimit-Reset`, where the answer has it.
    pub reset: Option<String>,
    pub body: Vec<u8>,
}

/// How sending a request ended.
pub enum Outcome {
    /// No answer came: the transport's own words for why.
    Failed(String),
    Answered(Answer),
}

/// The request for an endpoint, with the key where the endpoint asks for it.
pub open spec fn request_for(
    endpoint: HypixelEndpoint,
    params: Seq<(Seq<char>, Seq<char>)>,
    secret: Seq<char>,
) -> RequestView {
    RequestView {
        url: "https://api.hypixel.net/"@ + endpoint.path(),
        query: params,
        api_key: if endpoint.requires_auth() {
            Some(secret)
        } else {
            None
        },
    }
}

/// The value that the cache gives for a call at `now`: that of a stored
/// document which has not expired and decodes to the type asked for.
pub open spec fn cache_hit<T: Decode>(
    cache: Option<Map<(HypixelEndpoint, Seq<(Seq<char>, Seq<char>)>), (int, JsonView)>>,
    endpoint: HypixelEndpoint,
    params: Seq<(Seq<char>, Seq<char>)>,
    now: int,
) -> Option<T::V> {
    match cache {
        Some(entries) => match cached_at(entries, endpoint, params, now) {
            Some(json) => match T::decoded(json) {
                Ok(value) => Some(value),
                Err(_) => None,
            },
            None => None,
        },
        None => None,
    }
}

/// The number that a header holds, if it is there and writes one.
pub open spec fn header_number(header: Option<Seq<char>>) -> Option<i64> {
    match header {
        Some(text) => parsed_i64(text),
        None => None,
    }
}

/// What an answer amounts to. With status 200 it is the value that the
/// body decodes to, or a `Parse` error with the path of the mismatch, or
/// with the words `not JSON`. With any other status it is a `Status` error
/// with the cause that the body states.
pub open spec fn settled<T: Decode>(status: u16, body: Option<JsonView>) -> Result<
    T::V,
    ErrorView,
> {
    if status == 200 {
        match body {
            Some(json) => match T::decoded(json) {
                Ok(value) => Ok(value),
                Err(path) => Err(ErrorView::Parse(path)),
            },
            None => Err(ErrorView::Parse("not JSON"@)),
        }
    } else {
        Err(ErrorView::Status(status, stated_cause(body, "cause"@)))
    }
}

/// What the cache holds after an answer: the body in addition, where the
/// answer gave a value and the endpoint has a time to live.
pub open spec fn cache_after<T: Decode>(
    cache: Option<Map<(HypixelEndpoint, Seq<(Seq<char>, Seq<char>)>), (int, JsonView)>>,
    ttls: Seq<(HypixelEndpoint, u64)>,
    endpoint: HypixelEndpoint,
    params: Seq<(Seq<char>, Seq<char>)>,
    status: u16,
    body: Option<JsonView>,
    now: int,
) -> Option<Map<(HypixelEndpoint, Seq<(Seq<char>, Seq<char>)>), (int, JsonView)>> {
    match cache {
        Some(entries) => if settled::<T>(status, body) is Ok && ttl_of(ttls, endpoint) is Some {
            Some(
                entries.insert(
                    (endpoint, params),
                    (expiry(now, ttl_of(ttls, endpoint)->Some_0 as int), body->Some_0),
                ),
            )
        } else {
            Some(entries)
        },
        None => None,
    }
}

/// Whether the outcome of a call is the one expected.
pub open spec fn outcome_is<T: DeepView>(outcome: Result<T, Error>, expected: Result<
    T::V,
    ErrorView,
>) -> bool {
    match outcome {
        Ok(value) => expected == Ok::<T::V, ErrorView>(value.deep_view()),
        Err(error) => expected == Err::<T::V, ErrorView>(error@),
    }
}

/// While the quota is known to be exhausted, a call that the cache does
/// not answer sends nothing under the `Error` strategy, and under the
/// `Delay` strategy sends only after the time until reset.
pub proof fn lemma_exhausted_quota_is_respected<T: Decode>(
    client: RsPixel,
    endpoint: HypixelEndpoint,
    params: Seq<(Seq<char>, Seq<char>)>,
    now: int,
)
    requires
        client.key.limited_at(now),
        cache_hit::<T>(cache_model(client.config.cache), endpoint, params, now).is_none(),
    ensures
        client.config.rate_limit_strategy == RateLimitStrategy::Error ==> client.planned::<T>(
            endpoint,
            params,
            now,
        ) == StepView::<T::V>::Fail(
            ErrorView::RateLimit(client.key.capped_seconds_until_reset_at(now) as i64),
        ),
        client.config.rate_limit_strategy == RateLimitStrategy::Delay ==> client.planned::<T>(
            endpoint,
            params,
            now,
        ) == StepView::<T::V>::Send(
            client.key.capped_seconds_until_reset_at(now) as i64,
            request_for(endpoint, params, client.key.secret()),
        ),
{
}

/// A value stored by an answer is what the cache gives for the same call
/// until the endpoint's time to live has passed, and not from then on.
pub proof fn lemma_stored_answer_is_cached<T: Decode>(
    cache: Map<(HypixelEndpoint, Seq<(Seq<char>, Seq<char>)>), (int, JsonView)>,
    ttls: Seq<(HypixelEndpoint, u64)>,
    endpoint: HypixelEndpoint,
    params: Seq<(Seq<char>, Seq<char>)>,
    body: JsonView,
    stored_at: int,
    now: int,
)
    requires
        ttl_of(ttls, endpoint) is Some,
        T::decoded(body) is Ok,
        stored_at + ttl_of(ttls, endpoint)->Some_0 <= i64::MAX,
    ensures
        cache_hit::<T>(
            cache_after::<T>(Some(cache), ttls, endpoint, params, 200, Some(body), stored_at),
            endpoint,
            params,
            now,
        ) == if now < stored_at + ttl_of(ttls, endpoint)->Some_0 {
            Some(T::decoded(body)->Ok_0)
        } else {
            None
        },
{
}

/// A client of the API: its settings, and its key with the quota state.
pub struct RsPixel {
    pub config: Config,
    pub key: Key,
}

impl RsPixel {
    /// A client with the default settings.
    pub fn new(key: String) -> (r: RsPixel)
        ensures
            r.key.secret() == key@,
            r.key.remaining() == 0,
            r.key.reset_seconds() == 0,
            r.key.observed_at() == 0,
            r.config.minecraft_api_type == ApiType::Mojang,
            r.config.rate_limit_strategy == RateLimitStrategy::Delay,
            r.config.minecraft_cache_ttl.is_none(),
            r.config.cache.is_none(),
            r.config.hypixel_cache_ttls@.len() == 0,
    {
        RsPixel::from_config(key, ConfigBuilder::default().build())
    }

    /// A client with the given settings.
    pub fn from_config(key: String, config: Config) -> (r: RsPixel)
        ensures
            r.config == config,
            r.key.secret() == key@,
            r.key.remaining() == 0,
            r.key.reset_seconds() == 0,
            r.key.observed_at() == 0,
    {
        RsPixel { config, key: Key::new(key) }
    }

    /// What is to be done for a call at `now`. A value in the cache ends
    /// the call. Otherwise the request is to be sent, unless the quota is
    /// exhausted: then the `Delay` strategy sends it after the time until
    /// reset, and the `Error` strategy fails with that time.
    pub open spec fn planned<T: Decode>(
        &self,
        endpoint: HypixelEndpoint,
        params: Seq<(Seq<char>, Seq<char>)>,
        now: int,
    ) -> StepView<T::V> {
        match cache_hit::<T>(cache_model(self.config.cache), endpoint, params, now) {
            Some(value) => StepView::Cached(value),
            None => {
                let request = request_for(endpoint, params, self.key.secret());
                if self.key.limited_at(now) {
                    match self.config.rate_limit_strategy {
                        RateLimitStrategy::Delay => StepView::Send(
                            self.key.capped_seconds_until_reset_at(now) as i64,
                            request,
                        ),
                        RateLimitStrategy::Error => StepView::Fail(
                            ErrorView::RateLimit(
                                self.key.capped_seconds_until_reset_at(now) as i64,
                            ),
                        ),
                    }
                } else {
                    StepView::Send(0, request)
                }
            },
        }
    }

    /// Whether a call at `now` would be answered from the cache, whatever
    /// type it asks for.
    pub fn is_cached(&self, endpoint: HypixelEndpoint, params: &Params, now: i64) -> (r: bool)
        ensures
            r == (cache_model(self.config.cache) matches Some(entries) && cached_at(
                entries,
                endpoint,
                params@,
                now as int,
            ).is_some()),
    {
        match &self.config.cache {
            Some(cache) => cache.contains(endpoint, params, now),
            None => false,
        }
    }

    /// Decides what is to be done for a call at `now`.
    pub fn begin<T: Decode>(&self, endpoint: HypixelEndpoint, params: &Params, now: i64) -> (r:
        Step<T>)
        ensures
            r.deep_view() == self.planned::<T>(endpoint, params@, now as int),
    {
        if let Some(cache) = &self.config.cache {
            if let Some(json) = cache.lookup(endpoint, params, now) {
                if let Ok(value) = T::decode(json) {
                    return Step::Cached(value);
                }
            }
        }
        let mut url = String::from_str("https://api.hypixel.net/");
        url.append(endpoint.path_str());
        let request = Request {
            url,
            query: params.to_vec(),
            api_key: if endpoint.needs_key() {
                Some(self.key.secret_text().clone())
            } else {
                None
            },
        };
        if self.key.is_rate_limited_at(now) {
            let seconds = self.key.get_time_till_reset_at(now);
            match self.config.rate_limit_strategy {
                RateLimitStrategy::Delay => Step::Send(seconds, request),
                RateLimitStrategy::Error => Step::Fail(Error::RateLimit(seconds)),
            }
        } else {
            Step::Send(0, request)
        }
    }

    /// Plans a call for one of the resource endpoints; for any other
    /// endpoint the call fails and nothing is sent.
    pub fn begin_resource(&self, resource: HypixelEndpoint, now: i64) -> (r: Step<Json>)
        ensures
            r.deep_view() == if resource.is_resource_endpoint() {
                self.planned::<Json>(resource, Seq::empty(), now as int)
            } else {
                StepView::Fail(ErrorView::UnknownResource)
            },
    {
        if !resource.is_resource() {
            Step::Fail(Error::UnknownResource)
        } else {
            let params = Params::new();
            self.begin::<Json>(resource, &params, now)
        }
    }

    fn record_headers(&mut self, remaining: &Option<String>, reset: &Option<String>, now: i64)
        ensures
            final(self).config == old(self).config,
            final(self).key.secret() == old(self).key.secret(),
            final(self).key.remaining() == match header_number(remaining.deep_view()) {
                Some(value) => value as int,
                None => old(self).key.remaining(),
            },
            final(self).key.reset_seconds() == match header_number(reset.deep_view()) {
                Some(value) => value as int,
                None => old(self).key.reset_seconds(),
            },
            final(self).key.observed_at() == if header_number(remaining.deep_view()) is Some
                || header_number(reset.deep_view()) is Some {
                now as int
            } else {
                old(self).key.observed_at()
            },
    {
        if let Some(text) = remaining {
            if let Some(value) = parse_i64(text.as_str()) {
                self.key.record_remaining_limit(value, now);
            }
        }
        if let Some(text) = reset {
            if let Some(value) = parse_i64(text.as_str()) {
                self.key.record_time_till_reset(value, now);
            }
        }
    }

    /// Takes in the answer to a request that was sent at about `now`, its
    /// body already read as JSON where it is JSON. The quota state follows
    /// the two headers whatever the status. A value is stored in the cache
    /// where the endpoint has a time to live.
    pub fn settle<T: Decode>(
        &mut self,
        endpoint: HypixelEndpoint,
        params: Params,
        status: u16,
        remaining: &Option<String>,
        reset: &Option<String>,
        body: Option<Json>,
        now: i64,
    ) -> (r: Result<T, Error>)
        ensures
            outcome_is(r, settled::<T>(status, body.deep_view())),
            final(self).key.secret() == old(self).key.secret(),
            final(self).key.remaining() == match header_number(remaining.deep_view()) {
                Some(value) => value as int,
                None => old(self).key.remaining(),
            },
            final(self).key.reset_seconds() == match header_number(reset.deep_view()) {
                Some(value) => value as int,
                None => old(self).key.reset_seconds(),
            },
            final(self).key.observed_at() == if header_number(remaining.deep_view()) is Some
                || header_number(reset.deep_view()) is Some {
                now as int
            } else {
                old(self).key.observed_at()
            },
            final(self).config.minecraft_api_type == old(self).config.minecraft_api_type,
            final(self).config.rate_limit_strategy == old(self).config.rate_limit_strategy,
            final(self).config.minecraft_cache_ttl == old(self).config.minecraft_cache_ttl,
            final(self).config.hypixel_cache_ttls == old(self).config.hypixel_cache_ttls,
            cache_model(final(self).config.cache) == cache_after::<T>(
                cache_model(old(self).config.cache),
                old(self).config.hypixel_cache_ttls@,
                endpoint,
                params@,
                status,
                body.deep_view(),
                now as int,
            ),
    {
        self.record_headers(remaining, reset, now);
        if status != 200 {
            return Err(Error::Status(status, fail_cause(body.as_ref(), "cause")));
        }
        let json = match body {
            Some(json) => json,
            None => {
                return Err(Error::Parse(String::from_str("not JSON")));
            },
        };
        match T::decode(&json) {
            Ok(value) => {
                let ttl = self.config.ttl_for(endpoint);
                if let Some(ttl) = ttl {
                    if let Some(cache) = &mut self.config.cache {
                        cache.insert(endpoint, params, ttl, json, now);
                    }
                }
                Ok(value)
            },
            Err(error) => Err(error),
        }
    }

    /// Takes in how a request that was sent at about `now` ended. Without
    /// an answer the call fails with a `Client` error and nothing changes;
    /// an answer is settled with its body read as JSON.
    pub fn complete<T: Decode>(
        &mut self,
        endpoint: HypixelEndpoint,
        params: Params,
        outcome: Outcome,
        now: i64,
    ) -> (r: Result<T, Error>)
        ensures
            match outcome {
                Outcome::Failed(words) => {
                    &&& r is Err
                    &&& r->Err_0@ == ErrorView::Client(words@)
                    &&& *final(self) == *old(self)
                },
                Outcome::Answered(answer) => {
                    &&& outcome_is(r, settled::<T>(answer.status, parsed_json(answer.body@)))
                    &&& final(self).key.secret() == old(self).key.secret()
                    &&& final(self).key.remaining() == match header_number(
                        answer.remaining.deep_view(),
                    ) {
                        Some(value) => value as int,
                        None => old(self).key.remaining(),
                    }
                    &&& final(self).key.reset_seconds() == match header_number(
                        answer.reset.deep_view(),
                    ) {
                        Some(value) => value as int,
                        None => old(self).key.reset_seconds(),
                    }
                    &&& final(self).key.observed_at() == if header_number(
                        answer.remaining.deep_view(),
                    ) is Some || header_number(answer.reset.deep_view()) is Some {
                        now as int
                    } else {
                        old(self).key.observed_at()
                    }
                    &&& final(self).config.minecraft_api_type == old(
                        self,
                    ).config.minecraft_api_type
                    &&& final(self).config.rate_limit_strategy == old(
                        self,
                    ).config.rate_limit_strategy
                    &&& final(self).config.minecraft_cache_ttl == old(
                        self,
                    ).config.minecraft_cache_ttl
                    &&& final(self).config.hypixel_cache_ttls == old(
                        self,
                    ).config.hypixel_cache_ttls
                    &&& cache_model(final(self).config.cache) == cache_after::<T>(
                        cache_model(old(self).config.cache),
                        old(self).config.hypixel_cache_ttls@,
                        endpoint,
                        params@,
                        answer.status,
                        parsed_json(answer.body@),
                        now as int,
                    )
                },
            },
    {
        match outcome {
            Outcome::Failed(words) => Err(Error::Client(words)),
            Outcome::Answered(answer) => {
                let body = Json::parse(answer.body.as_slice());
                self.settle::<T>(
                    endpoint,
                    params,
                    answer.status,
                    &answer.remaining,
                    &answer.reset,
                    body,
                    now,
                )
            },
        }
    }
}

} // verus!
