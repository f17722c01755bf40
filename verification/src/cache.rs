use crate::endpoint::HypixelEndpoint;
use crate::params::Params;
use crate::util::generic_json::{Json, JsonView};
use vstd::prelude::*;

verus! {

/// The moment at which an entry stored at `now` for `ttl` milliseconds
/// expires, kept within 64 signed bits.
pub open spec fn expiry(now: int, ttl: int) -> int {
    if now + ttl <= i64::MAX {
        now + ttl
    } else {
        i64::MAX as int
    }
}

/// What a cache that holds `entries` answers at `now` for a request: the
/// stored document, as long as its entry has not expired.
pub open spec fn cached_at(
    entries: Map<(HypixelEndpoint, Seq<(Seq<char>, Seq<char>)>), (int, JsonView)>,
    endpoint: HypixelEndpoint,
    params: Seq<(Seq<char>, Seq<char>)>,
    now: int,
) -> Option<JsonView> {
    if entries.contains_key((endpoint, params)) && entries[(endpoint, params)].0 > now {
        Some(entries[(endpoint, params)].1)
    } else {
        None
    }
}

/// A document stored at `stored_at` for `ttl` milliseconds is answered at
/// every moment before `stored_at + ttl`, and at none from then on.
pub proof fn lemma_cached_until_expiry(
    entries: Map<(HypixelEndpoint, Seq<(Seq<char>, Seq<char>)>), (int, JsonView)>,
    endpoint: HypixelEndpoint,
    params: Seq<(Seq<char>, Seq<char>)>,
    payload: JsonView,
    stored_at: int,
    ttl: int,
    now: int,
)
    requires
        stored_at + ttl <= i64::MAX,
    ensures
        cached_at(
            entries.insert((endpoint, params), (expiry(stored_at, ttl), payload)),
            endpoint,
            params,
            now,
        ) == if now < stored_at + ttl {
            Some(payload)
        } else {
            None
        },
{
}

/// Storing a document for one request changes the answer for no other.
pub proof fn lemma_cached_others_untouched(
    entries: Map<(HypixelEndpoint, Seq<(Seq<char>, Seq<char>)>), (int, JsonView)>,
    endpoint: HypixelEndpoint,
    params: Seq<(Seq<char>, Seq<char>)>,
    slot: (int, JsonView),
    other_endpoint: HypixelEndpoint,
    other_params: Seq<(Seq<char>, Seq<char>)>,
    now: int,
)
    requires
        other_endpoint != endpoint || other_params != params,
    ensures
        cached_at(entries.insert((endpoint, params), slot), other_endpoint, other_params, now)
            == cached_at(entries, other_endpoint, other_params, now),
{
}

struct CacheEntry {
    endpoint: HypixelEndpoint,
    params: Params,
    expires_at: i64,
    payload: Json,
}

impl CacheEntry {
    spec fn key(self) -> (HypixelEndpoint, Seq<(Seq<char>, Seq<char>)>) {
        (self.endpoint, self.params@)
    }

    spec fn slot(self) -> (int, JsonView) {
        (self.expires_at as int, self.payload@)
    }
}

spec fn distinct_keys(entries: Seq<CacheEntry>) -> bool {
    forall|i: int, j: int|
        0 <= i < j < entries.len() ==> (#[trigger] entries[i]).key() != (
        #[trigger] entries[j]).key()
}

spec fn model_of(entries: Seq<CacheEntry>) -> Map<
    (HypixelEndpoint, Seq<(Seq<char>, Seq<char>)>),
    (int, JsonView),
>
    decreases entries.len(),
{
    if entries.len() == 0 {
        Map::empty()
    } else {
        model_of(entries.drop_last()).insert(entries.last().key(), entries.last().slot())
    }
}

proof fn lemma_model_absent(
    entries: Seq<CacheEntry>,
    key: (HypixelEndpoint, Seq<(Seq<char>, Seq<char>)>),
)
    requires
        forall|i: int| 0 <= i < entries.len() ==> (#[trigger] entries[i]).key() != key,
    ensures
        !model_of(entries).contains_key(key),
    decreases entries.len(),
{
    if entries.len() > 0 {
        assert(entries.last() == entries[entries.len() - 1]);
        assert forall|i: int| 0 <= i < entries.drop_last().len() implies (
        #[trigger] entries.drop_last()[i]).key() != key by {
            assert(entries.drop_last()[i] == entries[i]);
        }
        lemma_model_absent(entries.drop_last(), key);
    }
}

proof fn lemma_model_present(entries: Seq<CacheEntry>, at: int)
    requires
        distinct_keys(entries),
        0 <= at < entries.len(),
    ensures
        model_of(entries).contains_key(entries[at].key()),
        model_of(entries)[entries[at].key()] == entries[at].slot(),
    decreases entries.len(),
{
    if at < entries.len() - 1 {
        assert(entries.last() == entries[entries.len() - 1]);
        assert(entries[at].key() != entries[entries.len() - 1].key());
        assert(entries.drop_last()[at] == entries[at]);
        assert forall|i: int, j: int| 0 <= i < j < entries.drop_last().len() implies (
        #[trigger] entries.drop_last()[i]).key() != (#[trigger] entries.drop_last()[j]).key() by {
            assert(entries.drop_last()[i] == entries[i]);
            assert(entries.drop_last()[j] == entries[j]);
        }
        lemma_model_present(entries.drop_last(), at);
    }
}

proof fn lemma_model_replaced(entries: Seq<CacheEntry>, at: int, entry: CacheEntry)
    requires
        distinct_keys(entries),
        0 <= at < entries.len(),
        entries[at].key() == entry.key(),
    ensures
        model_of(entries.update(at, entry)) =~= model_of(entries).insert(entry.key(), entry.slot()),
        distinct_keys(entries.update(at, entry)),
    decreases entries.len(),
{
    let after = entries.update(at, entry);
    assert forall|i: int, j: int| 0 <= i < j < after.len() implies (#[trigger] after[i]).key() != (
    #[trigger] after[j]).key() by {
        assert(entries[i].key() != entries[j].key());
    }
    if at == entries.len() - 1 {
        assert(after.drop_last() =~= entries.drop_last());
    } else {
        assert(entries.last() == entries[entries.len() - 1]);
        assert(entries[at].key() != entries[entries.len() - 1].key());
        assert(after.drop_last() =~= entries.drop_last().update(at, entry));
        assert forall|i: int, j: int| 0 <= i < j < entries.drop_last().len() implies (
        #[trigger] entries.drop_last()[i]).key() != (#[trigger] entries.drop_last()[j]).key() by {
            assert(entries.drop_last()[i] == entries[i]);
            assert(entries.drop_last()[j] == entries[j]);
        }
        lemma_model_replaced(entries.drop_last(), at, entry);
    }
}

/// Documents kept per request, each with its own moment of expiry. An
/// expired document is never handed out; it stays until the next document
/// for the same request takes its place.
pub struct TtlCache {
    entries: Vec<CacheEntry>,
}

impl View for TtlCache {
    type V = Map<(HypixelEndpoint, Seq<(Seq<char>, Seq<char>)>), (int, JsonView)>;

    /// For each request that has a document: the moment at which it
    /// expires, and the document.
    closed spec fn view(&self) -> Self::V {
        model_of(self.entries@)
    }
}

/// What a cache holds, if there is a cache.
pub open spec fn cache_model(cache: Option<TtlCache>) -> Option<
    Map<(HypixelEndpoint, Seq<(Seq<char>, Seq<char>)>), (int, JsonView)>,
> {
    match cache {
        Some(cache) => Some(cache@),
        None => None,
    }
}

impl TtlCache {
    #[verifier::type_invariant]
    spec fn well_formed(&self) -> bool {
        distinct_keys(self.entries@)
    }

    /// A cache without documents.
    pub fn new() -> (r: TtlCache)
        ensures
            r@ == Map::<(HypixelEndpoint, Seq<(Seq<char>, Seq<char>)>), (int, JsonView)>::empty(),
    {
        TtlCache { entries: Vec::new() }
    }

    fn position(&self, endpoint: HypixelEndpoint, params: &Params) -> (r: Option<usize>)
        ensures
            match r {
                Some(at) => at < self.entries.len() && self.entries[at as int].key() == (
                    endpoint,
                    params@,
                ),
                None => forall|i: int|
                    0 <= i < self.entries.len() ==> (#[trigger] self.entries[i]).key() != (
                        endpoint,
                        params@,
                    ),
            },
    {
        let mut i: usize = 0;
        while i < self.entries.len()
            invariant
                i <= self.entries.len(),
                forall|j: int|
                    0 <= j < i ==> (#[trigger] self.entries[j]).key() != (endpoint, params@),
            decreases self.entries.len() - i,
        {
            if self.entries[i].endpoint == endpoint && self.entries[i].params.same(params) {
                return Some(i);
            }
            i += 1;
        }
        None
    }

    /// The document stored for a request, unless it has expired by `now`.
    pub fn lookup(&self, endpoint: HypixelEndpoint, params: &Params, now: i64) -> (r: Option<&Json>)
        ensures
            match r {
                Some(json) => cached_at(self@, endpoint, params@, now as int) == Some(json@),
                None => cached_at(self@, endpoint, params@, now as int).is_none(),
            },
    {
        proof {
            use_type_invariant(self);
        }
        match self.position(endpoint, params) {
            Some(at) => {
                proof {
                    lemma_model_present(self.entries@, at as int);
                }
                if self.entries[at].expires_at > now {
                    Some(&self.entries[at].payload)
                } else {
                    None
                }
            },
            None => {
                proof {
                    lemma_model_absent(self.entries@, (endpoint, params@));
                }
                None
            },
        }
    }

    /// Whether a document that has not expired by `now` is stored for a request.
    pub fn contains(&self, endpoint: HypixelEndpoint, params: &Params, now: i64) -> (r: bool)
        ensures
            r == cached_at(self@, endpoint, params@, now as int).is_some(),
    {
        self.lookup(endpoint, params, now).is_some()
    }

    /// Stores a document for a request, to expire `ttl` milliseconds after
    /// `now`, in place of any document stored for that request before.
    pub fn insert(
        &mut self,
        endpoint: HypixelEndpoint,
        params: Params,
        ttl: u64,
        payload: Json,
        now: i64,
    )
        ensures
            final(self)@ == old(self)@.insert(
                (endpoint, params@),
                (expiry(now as int, ttl as int), payload@),
            ),
    {
        proof {
            use_type_invariant(&*self);
        }
        let expires_at: i64 = if (now as i128) + (ttl as i128) > (i64::MAX as i128) {
            i64::MAX
        } else {
            ((now as i128) + (ttl as i128)) as i64
        };
        let found = self.position(endpoint, &params);
        let entry = CacheEntry { endpoint, params, expires_at, payload };
        let ghost before = self.entries@;
        let mut entries = Vec::new();
        std::mem::swap(&mut entries, &mut self.entries);
        match found {
            Some(at) => {
                proof {
                    lemma_model_replaced(before, at as int, entry);
                }
                entries.set(at, entry);
            },
            None => {
                entries.push(entry);
                proof {
                    assert(entries@.drop_last() =~= before);
                    assert forall|i: int, j: int| 0 <= i < j < entries@.len() implies (
                    #[trigger] entries@[i]).key() != (#[trigger] entries@[j]).key() by {
                        if j < before.len() {
                            assert(before[i].key() != before[j].key());
                        } else {
                            assert(before[i].key() != entry.key());
                        }
                    }
                }
            },
        }
        self.entries = entries;
    }
}

} // verus!
