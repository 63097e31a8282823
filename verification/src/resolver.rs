//! The memoizing remote-identity resolver.
//!
//! A podcast-guid/episode-guid pair resolves to a podcast/episode title
//! pair through an outside directory; every outcome — found, not found, or
//! failed — is remembered in a bounded least-recently-used cache, so each
//! unique pair costs at most one outside fetch while its entry stays
//! cached.  The fetch itself is outside work: the caller looks the pair up,
//! fetches only on a miss, and hands the fetched text back to be parsed and
//! recorded.
use crate::jsonio::{json_field, json_field2, json_field_of, json_field2_of, JsonField,
    JsonFieldV};
use crate::decoder::string_eq_lit;
use lru::LruCache;
use vstd::prelude::*;
use vstd::string::StringExecFns;

verus! {

/// A resolved remote identity: the guids the directory confirmed and the
/// titles it reported.
#[derive(Clone, Debug)]
pub struct PodcastEpisodeGuid {
    pub podcast_guid: String,
    pub episode_guid: String,
    pub podcast: String,
    pub episode: String,
}

impl View for PodcastEpisodeGuid {
    type V = (Seq<char>, Seq<char>, Seq<char>, Seq<char>);

    open spec fn view(&self) -> (Seq<char>, Seq<char>, Seq<char>, Seq<char>) {
        (self.podcast_guid@, self.episode_guid@, self.podcast@, self.episode@)
    }
}

/// The mathematical value of a cached outcome: a resolved identity, or the
/// remembered fact that resolution failed.
pub open spec fn opt_guid_view(v: Option<PodcastEpisodeGuid>) -> Option<
    (Seq<char>, Seq<char>, Seq<char>, Seq<char>),
> {
    match v {
        Some(g) => Some(g@),
        None => None,
    }
}

#[verifier::external_type_specification]
#[verifier::external_body]
#[verifier::reject_recursive_types(K)]
#[verifier::reject_recursive_types(V)]
#[verifier::reject_recursive_types(S)]
pub struct ExLruCache<K, V, S>(LruCache<K, V, S>);

/// An empty memo.
pub open spec fn no_outcomes() -> Map<Seq<char>, Option<(Seq<char>, Seq<char>, Seq<char>, Seq<char>)>> {
    Map::empty()
}

/// What the cache holds: each cached key with its remembered outcome.
pub uninterp spec fn lru_contents(c: LruCache<String, Option<PodcastEpisodeGuid>>) -> Map<
    Seq<char>,
    Option<(Seq<char>, Seq<char>, Seq<char>, Seq<char>)>,
>;

/// The bound the cache was created with.
pub uninterp spec fn lru_cap(c: LruCache<String, Option<PodcastEpisodeGuid>>) -> nat;

/// Relies on lru::LruCache::new: an empty cache bounded at `cap` entries.
#[verifier::external_body]
fn lru_new(cap: usize) -> (c: LruCache<String, Option<PodcastEpisodeGuid>>)
    requires
        cap > 0,
    ensures
        lru_contents(c) =~= no_outcomes(),
        lru_cap(c) == cap,
{
    LruCache::new(std::num::NonZeroUsize::new(cap).unwrap())
}

/// Relies on lru::LruCache::get: hands back a copy of the cached outcome,
/// refreshing the entry's recency but leaving the contents and the bound as
/// they are.
#[verifier::external_body]
fn lru_get(c: &mut LruCache<String, Option<PodcastEpisodeGuid>>, key: &String) -> (r: Option<
    Option<PodcastEpisodeGuid>,
>)
    ensures
        lru_contents(*final(c)) == lru_contents(*old(c)),
        lru_cap(*final(c)) == lru_cap(*old(c)),
        match r {
            Some(v) => lru_contents(*old(c)).contains_key(key@) && opt_guid_view(v)
                == lru_contents(*old(c))[key@],
            None => !lru_contents(*old(c)).contains_key(key@),
        },
{
    c.get(key).cloned()
}

/// Relies on lru::LruCache::put: stores the outcome under the key.  When a
/// full cache takes a new key the least recently used entry leaves, so
/// afterwards the stored key is present with the stored outcome, no key
/// appears that was not present or stored, every other surviving key keeps
/// its outcome, and the cache stays within its bound.
#[verifier::external_body]
fn lru_put(
    c: &mut LruCache<String, Option<PodcastEpisodeGuid>>,
    key: String,
    value: Option<PodcastEpisodeGuid>,
)
    ensures
        lru_cap(*final(c)) == lru_cap(*old(c)),
        lru_contents(*final(c)).contains_key(key@),
        lru_contents(*final(c))[key@] == opt_guid_view(value),
        forall|k: Seq<char>| #[trigger]
            lru_contents(*final(c)).contains_key(k) ==> k == key@ || lru_contents(
                *old(c),
            ).contains_key(k),
        forall|k: Seq<char>| #[trigger]
            lru_contents(*final(c)).contains_key(k) && k != key@ ==> lru_contents(*final(c))[k]
                == lru_contents(*old(c))[k],
        lru_contents(*final(c)).dom().finite(),
        lru_contents(*final(c)).dom().len() <= lru_cap(*old(c)),
{
    c.put(key, value);
}

/// The cache key of a guid pair: the two guids joined with an underscore.
/// Two different pairs whose joined texts coincide share one entry by
/// design.
pub open spec fn cache_key(podcast_guid: Seq<char>, episode_guid: Seq<char>) -> Seq<char> {
    podcast_guid + "_"@ + episode_guid
}

/// The bounded memo of resolution outcomes.
pub struct RemoteCache {
    cache: LruCache<String, Option<PodcastEpisodeGuid>>,
}

/// What a lookup of `key` finds in contents `m`: nothing on a miss, the
/// remembered outcome on a hit.
pub open spec fn cache_decision(
    m: Map<Seq<char>, Option<(Seq<char>, Seq<char>, Seq<char>, Seq<char>)>>,
    key: Seq<char>,
) -> Option<Option<(Seq<char>, Seq<char>, Seq<char>, Seq<char>)>> {
    if m.contains_key(key) {
        Some(m[key])
    } else {
        None
    }
}

/// Contents `m1` are contents `m0` once outcome `v` was stored under `key`:
/// the key is present with that outcome, every other surviving key keeps
/// its outcome, and no key appears from nowhere.
pub open spec fn stored_outcome(
    m0: Map<Seq<char>, Option<(Seq<char>, Seq<char>, Seq<char>, Seq<char>)>>,
    m1: Map<Seq<char>, Option<(Seq<char>, Seq<char>, Seq<char>, Seq<char>)>>,
    key: Seq<char>,
    v: Option<(Seq<char>, Seq<char>, Seq<char>, Seq<char>)>,
) -> bool {
    &&& m1.contains_key(key)
    &&& m1[key] == v
    &&& forall|k: Seq<char>| #[trigger] m1.contains_key(k) ==> k == key || m0.contains_key(k)
    &&& forall|k: Seq<char>| #[trigger] m1.contains_key(k) && k != key ==> m1[k] == m0[k]
}

impl RemoteCache {
    /// The outcomes the cache remembers.
    pub closed spec fn contents(self) -> Map<
        Seq<char>,
        Option<(Seq<char>, Seq<char>, Seq<char>, Seq<char>)>,
    > {
        lru_contents(self.cache)
    }

    /// The bound the cache was created with.
    pub closed spec fn cap(self) -> nat {
        lru_cap(self.cache)
    }

    /// An empty cache bounded at `cap` entries.
    pub fn new(cap: usize) -> (r: RemoteCache)
        requires
            cap > 0,
        ensures
            r.contents() =~= no_outcomes(),
            r.cap() == cap,
    {
        RemoteCache { cache: lru_new(cap) }
    }

    /// Looks a guid pair up; the caller fetches only when this misses.
    pub fn resolve_cached(&mut self, podcast_guid: &String, episode_guid: &String) -> (r: Option<
        Option<PodcastEpisodeGuid>,
    >)
        ensures
            final(self).contents() == old(self).contents(),
            final(self).cap() == old(self).cap(),
            match r {
                Some(v) => Some(opt_guid_view(v)) == cache_decision(
                    old(self).contents(),
                    cache_key(podcast_guid@, episode_guid@),
                ),
                None => cache_decision(
                    old(self).contents(),
                    cache_key(podcast_guid@, episode_guid@),
                ) is None,
            },
    {
        let key = join_key(podcast_guid, episode_guid);
        lru_get(&mut self.cache, &key)
    }

    /// Parses the fetched directory reply — no reply text stands for a
    /// failed fetch — remembers the outcome under the pair's key, and hands
    /// the outcome back.
    pub fn record_resolution(
        &mut self,
        podcast_guid: &String,
        episode_guid: &String,
        fetched: Option<String>,
    ) -> (r: Option<PodcastEpisodeGuid>)
        ensures
            final(self).cap() == old(self).cap(),
            opt_guid_view(r) == fetch_outcome(opt_text_view(fetched)),
            stored_outcome(
                old(self).contents(),
                final(self).contents(),
                cache_key(podcast_guid@, episode_guid@),
                opt_guid_view(r),
            ),
            final(self).contents().dom().finite(),
            final(self).contents().dom().len() <= old(self).cap(),
    {
        let outcome = match fetched {
            Some(body) => parse_directory_reply(body.as_str()),
            None => None,
        };
        let key = join_key(podcast_guid, episode_guid);
        let stored = match &outcome {
            Some(g) => Some(
                PodcastEpisodeGuid {
                    podcast_guid: g.podcast_guid.clone(),
                    episode_guid: g.episode_guid.clone(),
                    podcast: g.podcast.clone(),
                    episode: g.episode.clone(),
                },
            ),
            None => None,
        };
        lru_put(&mut self.cache, key, stored);
        outcome
    }
}

/// The key under which a guid pair is remembered.
fn join_key(podcast_guid: &String, episode_guid: &String) -> (r: String)
    ensures
        r@ == cache_key(podcast_guid@, episode_guid@),
{
    let mut key = podcast_guid.clone();
    key.append("_");
    key.append(episode_guid.as_str());
    key
}

/// What a directory reply resolves to: the reply must say `status` is the
/// text `true` and carry the confirmed guids and the titles, all four as
/// strings inside the `query` and `value` objects; any missing or
/// non-string member among them fails the whole resolution.
pub open spec fn directory_reply(s: Seq<char>) -> Option<
    (Seq<char>, Seq<char>, Seq<char>, Seq<char>),
> {
    match (
        json_field_of(s, "status"@),
        json_field2_of(s, "query"@, "podcastguid"@),
        json_field2_of(s, "query"@, "episodeguid"@),
        json_field2_of(s, "value"@, "feedTitle"@),
        json_field2_of(s, "value"@, "title"@),
    ) {
        (
            JsonFieldV::Text(st),
            JsonFieldV::Text(pg),
            JsonFieldV::Text(eg),
            JsonFieldV::Text(ft),
            JsonFieldV::Text(ti),
        ) => if st == "true"@ {
            Some((pg, eg, ft, ti))
        } else {
            None
        },
        _ => None,
    }
}

/// What one resolution attempt concludes: nothing when the fetch itself
/// failed, else what the reply text resolves to.
pub open spec fn fetch_outcome(fetched: Option<Seq<char>>) -> Option<
    (Seq<char>, Seq<char>, Seq<char>, Seq<char>),
> {
    match fetched {
        Some(s) => directory_reply(s),
        None => None,
    }
}

/// The mathematical value of an optional reply text.
pub open spec fn opt_text_view(fetched: Option<String>) -> Option<Seq<char>> {
    match fetched {
        Some(s) => Some(s@),
        None => None,
    }
}

/// Reads a directory reply: accepts it exactly when its status is the text
/// `true` and the confirmed guids and titles are all present as strings,
/// and then builds the identity from them; anything else resolves to
/// nothing.
pub fn parse_directory_reply(body: &str) -> (r: Option<PodcastEpisodeGuid>)
    ensures
        opt_guid_view(r) == directory_reply(body@),
{
    let status_ok = match json_field(body, "status") {
        JsonField::Text(t) => string_eq_lit(&t, "true"),
        _ => false,
    };
    if !status_ok {
        return None;
    }
    let podcast_guid = match json_field2(body, "query", "podcastguid") {
        JsonField::Text(t) => t,
        _ => { return None; },
    };
    let episode_guid = match json_field2(body, "query", "episodeguid") {
        JsonField::Text(t) => t,
        _ => { return None; },
    };
    let podcast = match json_field2(body, "value", "feedTitle") {
        JsonField::Text(t) => t,
        _ => { return None; },
    };
    let episode = match json_field2(body, "value", "title") {
        JsonField::Text(t) => t,
        _ => { return None; },
    };
    Some(PodcastEpisodeGuid { podcast_guid, episode_guid, podcast, episode })
}

/// Resolving the same guid pair twice performs exactly one outside fetch:
/// once the first attempt's outcome is stored — a found identity or a
/// remembered failure alike — the pair's key is cached, so the second
/// attempt's lookup hits, returns that outcome, and asks for no fetch.
pub proof fn lemma_second_resolve_hits(
    m0: Map<Seq<char>, Option<(Seq<char>, Seq<char>, Seq<char>, Seq<char>)>>,
    m1: Map<Seq<char>, Option<(Seq<char>, Seq<char>, Seq<char>, Seq<char>)>>,
    key: Seq<char>,
    outcome: Option<(Seq<char>, Seq<char>, Seq<char>, Seq<char>)>,
)
    requires
        stored_outcome(m0, m1, key, outcome),
    ensures
        cache_decision(m1, key) == Some(outcome),
{
}

} // verus!
