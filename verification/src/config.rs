use crate::cache::{cache_model, TtlCache};
use crate::endpoint::HypixelEndpoint;
use crate::util::generic_json::JsonView;
use crate::util::minecraft::ApiType;
use vstd::prelude::*;

verus! {

/// What to do with a request while the quota is known to be exhausted.
#[derive(Clone, Copy, Debug, PartialEq, Eq, Structural)]
pub enum RateLimitStrategy {
    /// Wait until the quota resets, then send the request.
    Delay,
    /// Fail at once, and send nothing.
    Error,
}

impl Default for RateLimitStrategy {
    fn default() -> (r: RateLimitStrategy)
        ensures
            r == RateLimitStrategy::Delay,
    {
        RateLimitStrategy::Delay
    }
}

/// The time to live, in milliseconds, that a table gives to an endpoint:
/// that of the first line for it.
pub open spec fn ttl_of(ttls: Seq<(HypixelEndpoint, u64)>, endpoint: HypixelEndpoint) -> Option<u64>
    decreases ttls.len(),
{
    if ttls.len() == 0 {
        None
    } else if ttls[0].0 == endpoint {
        Some(ttls[0].1)
    } else {
        ttl_of(ttls.skip(1), endpoint)
    }
}

/// A table with `endpoint` set to `ttl`: in the line that the endpoint has,
/// or in a new line at the end.
pub open spec fn with_ttl(ttls: Seq<(HypixelEndpoint, u64)>, endpoint: HypixelEndpoint, ttl: u64)
    -> Seq<(HypixelEndpoint, u64)>
    decreases ttls.len(),
{
    if ttls.len() == 0 {
        seq![(endpoint, ttl)]
    } else if ttls[0].0 == endpoint {
        seq![(endpoint, ttl)] + ttls.skip(1)
    } else {
        seq![ttls[0]] + with_ttl(ttls.skip(1), endpoint, ttl)
    }
}

/// A table answers with the time to live that was set last for an
/// endpoint, and for every other endpoint as before.
pub proof fn lemma_with_ttl(
    ttls: Seq<(HypixelEndpoint, u64)>,
    endpoint: HypixelEndpoint,
    ttl: u64,
    other: HypixelEndpoint,
)
    ensures
        ttl_of(with_ttl(ttls, endpoint, ttl), other) == if other == endpoint {
            Some(ttl)
        } else {
            ttl_of(ttls, other)
        },
    decreases ttls.len(),
{
    let after = with_ttl(ttls, endpoint, ttl);
    if ttls.len() == 0 {
        assert(after[0] == (endpoint, ttl));
        assert(after.skip(1) =~= Seq::<(HypixelEndpoint, u64)>::empty());
        assert(ttl_of(after.skip(1), other).is_none());
    } else if ttls[0].0 == endpoint {
        assert(after[0] == (endpoint, ttl));
        assert(after.skip(1) =~= ttls.skip(1));
    } else {
        lemma_with_ttl(ttls.skip(1), endpoint, ttl, other);
        assert(after[0] == ttls[0]);
        assert(after.skip(1) =~= with_ttl(ttls.skip(1), endpoint, ttl));
    }
}

/// The settings of a client.
pub struct Config {
    pub minecraft_api_type: ApiType,
    pub rate_limit_strategy: RateLimitStrategy,
    /// How long, in milliseconds, a resolved name or id may be kept.
    pub minecraft_cache_ttl: Option<u64>,
    /// The cache of documents; there is one exactly if some endpoint has a
    /// time to live.
    pub cache: Option<TtlCache>,
    /// The time to live, in milliseconds, of each endpoint whose documents
    /// are kept.
    pub hypixel_cache_ttls: Vec<(HypixelEndpoint, u64)>,
}

impl Config {
    /// The time to live of an endpoint's documents, if they are kept.
    pub fn ttl_for(&self, endpoint: HypixelEndpoint) -> (r: Option<u64>)
        ensures
            r == ttl_of(self.hypixel_cache_ttls@, endpoint),
    {
        let mut i: usize = 0;
        assert(self.hypixel_cache_ttls@.skip(0) =~= self.hypixel_cache_ttls@);
        while i < self.hypixel_cache_ttls.len()
            invariant
                i <= self.hypixel_cache_ttls.len(),
                ttl_of(self.hypixel_cache_ttls@, endpoint) == ttl_of(
                    self.hypixel_cache_ttls@.skip(i as int),
                    endpoint,
                ),
            decreases self.hypixel_cache_ttls.len() - i,
        {
            let ghost ttls = self.hypixel_cache_ttls@;
            assert(ttls.skip(i as int)[0] == ttls[i as int]);
            assert(ttls.skip(i as int).skip(1) =~= ttls.skip(i + 1));
            if self.hypixel_cache_ttls[i].0 == endpoint {
                return Some(self.hypixel_cache_ttls[i].1);
            }
            i += 1;
        }
        None
    }
}

/// Settings in the making. What is not set takes its default: the Mojang
/// service, the `Delay` strategy, and no caching.
pub struct ConfigBuilder {
    pub minecraft_api_type: Option<ApiType>,
    pub rate_limit_strategy: Option<RateLimitStrategy>,
    pub minecraft_cache_ttl: Option<u64>,
    pub hypixel_cache_ttls: Vec<(HypixelEndpoint, u64)>,
}

impl Default for ConfigBuilder {
    fn default() -> (r: ConfigBuilder)
        ensures
            r.minecraft_api_type.is_none(),
            r.rate_limit_strategy.is_none(),
            r.minecraft_cache_ttl.is_none(),
            r.hypixel_cache_ttls@ == Seq::<(HypixelEndpoint, u64)>::empty(),
    {
        ConfigBuilder {
            minecraft_api_type: None,
            rate_limit_strategy: None,
            minecraft_cache_ttl: None,
            hypixel_cache_ttls: Vec::new(),
        }
    }
}

impl ConfigBuilder {
    /// Sets the service for name and id lookups.
    pub fn minecraft_api_type(self, minecraft_api_type: ApiType) -> (r: ConfigBuilder)
        ensures
            r.minecraft_api_type == Some(minecraft_api_type),
            r.rate_limit_strategy == self.rate_limit_strategy,
            r.minecraft_cache_ttl == self.minecraft_cache_ttl,
            r.hypixel_cache_ttls == self.hypixel_cache_ttls,
    {
        let mut builder = self;
        builder.minecraft_api_type = Some(minecraft_api_type);
        builder
    }

    /// Sets how an exhausted quota is handled.
    pub fn rate_limit_strategy(self, rate_limit_strategy: RateLimitStrategy) -> (r: ConfigBuilder)
        ensures
            r.minecraft_api_type == self.minecraft_api_type,
            r.rate_limit_strategy == Some(rate_limit_strategy),
            r.minecraft_cache_ttl == self.minecraft_cache_ttl,
            r.hypixel_cache_ttls == self.hypixel_cache_ttls,
    {
        let mut builder = self;
        builder.rate_limit_strategy = Some(rate_limit_strategy);
        builder
    }

    /// Sets the time to live, in milliseconds, of resolved names and ids.
    pub fn minecraft_cache_ttl(self, minecraft_cache_ttl: u64) -> (r: ConfigBuilder)
        ensures
            r.minecraft_api_type == self.minecraft_api_type,
            r.rate_limit_strategy == self.rate_limit_strategy,
            r.minecraft_cache_ttl == Some(minecraft_cache_ttl),
            r.hypixel_cache_ttls == self.hypixel_cache_ttls,
    {
        let mut builder = self;
        builder.minecraft_cache_ttl = Some(minecraft_cache_ttl);
        builder
    }

    /// Sets the time to live, in milliseconds, of an endpoint's documents.
    /// Only endpoints with a time to live are cached.
    pub fn add_hypixel_cache_ttl(self, endpoint: HypixelEndpoint, ttl: u64) -> (r: ConfigBuilder)
        ensures
            r.minecraft_api_type == self.minecraft_api_type,
            r.rate_limit_strategy == self.rate_limit_strategy,
            r.minecraft_cache_ttl == self.minecraft_cache_ttl,
            r.hypixel_cache_ttls@ == with_ttl(self.hypixel_cache_ttls@, endpoint, ttl),
    {
        let mut builder = self;
        let ghost before = builder.hypixel_cache_ttls@;
        let mut i: usize = 0;
        assert(before.skip(0) =~= before);
        assert(before.take(0) + with_ttl(before.skip(0), endpoint, ttl) =~= with_ttl(
            before,
            endpoint,
            ttl,
        ));
        while i < builder.hypixel_cache_ttls.len()
            invariant
                i <= builder.hypixel_cache_ttls.len(),
                builder.hypixel_cache_ttls@ == before,
                before == self.hypixel_cache_ttls@,
                builder.minecraft_api_type == self.minecraft_api_type,
                builder.rate_limit_strategy == self.rate_limit_strategy,
                builder.minecraft_cache_ttl == self.minecraft_cache_ttl,
                with_ttl(before, endpoint, ttl) == before.take(i as int) + with_ttl(
                    before.skip(i as int),
                    endpoint,
                    ttl,
                ),
            decreases builder.hypixel_cache_ttls.len() - i,
        {
            assert(before.skip(i as int)[0] == before[i as int]);
            assert(before.skip(i as int).skip(1) =~= before.skip(i + 1));
            if builder.hypixel_cache_ttls[i].0 == endpoint {
                builder.hypixel_cache_ttls.set(i, (endpoint, ttl));
                assert(with_ttl(before.skip(i as int), endpoint, ttl) == seq![(endpoint, ttl)]
                    + before.skip(i + 1));
                assert(builder.hypixel_cache_ttls@ =~= before.take(i as int) + (seq![
                    (endpoint, ttl),
                ] + before.skip(i + 1)));
                return builder;
            }
            assert(before.take(i + 1) + with_ttl(before.skip(i + 1), endpoint, ttl) =~= before.take(
                i as int,
            ) + (seq![before[i as int]] + with_ttl(before.skip(i + 1), endpoint, ttl)));
            i += 1;
        }
        builder.hypixel_cache_ttls.push((endpoint, ttl));
        assert(builder.hypixel_cache_ttls@ =~= before.take(i as int) + seq![(endpoint, ttl)]);
        builder
    }

    /// The settings that the builder stands for.
    pub fn build(self) -> (r: Config)
        ensures
            r.minecraft_api_type == match self.minecraft_api_type {
                Some(api) => api,
                None => ApiType::Mojang,
            },
            r.rate_limit_strategy == match self.rate_limit_strategy {
                Some(strategy) => strategy,
                None => RateLimitStrategy::Delay,
            },
            r.minecraft_cache_ttl == self.minecraft_cache_ttl,
            r.hypixel_cache_ttls == self.hypixel_cache_ttls,
            cache_model(r.cache) == if self.hypixel_cache_ttls@.len() > 0 {
                Some(
                    Map::<(HypixelEndpoint, Seq<(Seq<char>, Seq<char>)>), (int, JsonView)>::empty(),
                )
            } else {
                None
            },
    {
        let cache = if self.hypixel_cache_ttls.len() > 0 {
            Some(TtlCache::new())
        } else {
            None
        };
        Config {
            minecraft_api_type: match self.minecraft_api_type {
                Some(api) => api,
                None => ApiType::Mojang,
            },
            rate_limit_strategy: match self.rate_limit_strategy {
                Some(strategy) => strategy,
                None => RateLimitStrategy::Delay,
            },
            minecraft_cache_ttl: self.minecraft_cache_ttl,
            cache,
            hypixel_cache_ttls: self.hypixel_cache_ttls,
        }
    }
}

} // verus!
