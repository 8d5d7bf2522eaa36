//! The read-through fetch path: consult the store; on a usable hit return the
//! cached body decoded; otherwise the caller performs the network GET and
//! hands the transport's outcome to `complete_fetch`, which persists the body
//! best-effort and decodes it.
//!
//! Policy on a corrupt hit: a cached body that does not decode is treated as
//! a miss and falls back to the network; it is never surfaced as an error
//! from the hit path.
//!
//! The spec functions `spec_hits`, `miss_outcome`, `fetch_outcome`,
//! `store_after` and `network_used` together model one whole fetch over the
//! table's contents; the executable functions are proved against them, and
//! the laws in `crate::laws` are proved about them.

use vstd::prelude::*;

use crate::json::{parse_json, parses_as_json};
use crate::store::{store_map, CacheStore, StoreError};

verus! {

/// Why a fetch failed. Store trouble is never in here: on the read path it is
/// a soft miss, on the write path it is ignored.
#[derive(Debug, PartialEq, Eq)]
pub enum FetchError {
    /// Transport-level failure: connection error, non-success status, or a
    /// failure while reading the body. Carries the transport's message.
    Network(String),
    /// The body is not a well-formed JSON document.
    Decode,
}

/// A successfully fetched document: the raw body exactly as stored or
/// received, and the JSON value it decodes to.
#[derive(Debug)]
pub struct Fetched {
    pub body: String,
    pub value: serde_json::Value,
}

/// What consulting the cache decided: a usable hit, or a miss that obliges
/// the caller to perform the network GET.
#[derive(Debug)]
pub enum CacheOutcome {
    Hit(Fetched),
    Miss,
}

/// A fetch result reduced to what the contracts speak of: the body returned,
/// the transport's error message, or a decode failure.
pub enum Outcome {
    Value(Seq<char>),
    Network(Seq<char>),
    Decode,
}

/// A usable hit: the table holds the URL and the held body decodes.
pub open spec fn spec_hits(m: Map<Seq<char>, Seq<char>>, url: Seq<char>) -> bool {
    m.contains_key(url) && parses_as_json(m[url])
}

/// The transport's outcome, as the contracts see it: the body text received,
/// or the transport's error message.
pub open spec fn response_view(response: Result<String, String>) -> Result<Seq<char>, Seq<char>> {
    match response {
        Ok(b) => Ok(b@),
        Err(e) => Err(e@),
    }
}

/// What a fetch returns once it has gone to the network: the received body
/// when it decodes, a decode failure when it does not, and the transport's
/// error when nothing was received.
pub open spec fn miss_outcome(net: Result<Seq<char>, Seq<char>>) -> Outcome {
    match net {
        Ok(b) => if parses_as_json(b) {
            Outcome::Value(b)
        } else {
            Outcome::Decode
        },
        Err(e) => Outcome::Network(e),
    }
}

/// One whole fetch over table contents `m`: a usable hit (with a read that
/// succeeded, `read_ok`) returns the cached body and consumes no transport
/// outcome; anything else resolves the transport's outcome `net`.
pub open spec fn fetch_outcome(
    m: Map<Seq<char>, Seq<char>>,
    url: Seq<char>,
    read_ok: bool,
    net: Result<Seq<char>, Seq<char>>,
) -> Outcome {
    if read_ok && spec_hits(m, url) {
        Outcome::Value(m[url])
    } else {
        miss_outcome(net)
    }
}

/// The table contents after one whole fetch: unchanged on a hit or a
/// transport failure; on a received body, updated when the best-effort write
/// committed (`write_ok`) and unchanged when it did not.
pub open spec fn store_after(
    m: Map<Seq<char>, Seq<char>>,
    url: Seq<char>,
    read_ok: bool,
    net: Result<Seq<char>, Seq<char>>,
    write_ok: bool,
) -> Map<Seq<char>, Seq<char>> {
    if read_ok && spec_hits(m, url) {
        m
    } else {
        match net {
            Ok(b) => if write_ok {
                m.insert(url, b)
            } else {
                m
            },
            Err(_) => m,
        }
    }
}

/// Whether one whole fetch touches the network: exactly when there is no
/// usable hit.
pub open spec fn network_used(m: Map<Seq<char>, Seq<char>>, url: Seq<char>, read_ok: bool) -> bool {
    !(read_ok && spec_hits(m, url))
}

/// A fetch result reduced to the model's terms.
pub open spec fn outcome_of(r: Result<Fetched, FetchError>) -> Outcome {
    match r {
        Ok(f) => Outcome::Value(f.body@),
        Err(FetchError::Network(e)) => Outcome::Network(e@),
        Err(FetchError::Decode) => Outcome::Decode,
    }
}

/// Resolves what the store's read handed back: a present body that decodes is
/// a hit; an absent key, a store failure, and a present body that does not
/// decode are all misses.
pub fn resolve_cached(cached: Result<Option<String>, StoreError>) -> (r: CacheOutcome)
    ensures
        (match cached {
            Ok(Some(b)) => if parses_as_json(b@) {
                r matches CacheOutcome::Hit(f) && f.body@ == b@
            } else {
                r is Miss
            },
            _ => r is Miss,
        }),
{
    match cached {
        Ok(Some(body)) => match parse_json(body.as_str()) {
            Some(value) => CacheOutcome::Hit(Fetched { body, value }),
            None => CacheOutcome::Miss,
        },
        _ => CacheOutcome::Miss,
    }
}

/// The read side of a fetch: looks the URL up and resolves the result. A hit
/// returns the cached body, decoded, and must oblige no network call; a miss
/// is owed whenever the table holds no usable body, however the read went.
pub fn consult_cache(store: &CacheStore, url: &str) -> (r: CacheOutcome)
    ensures
        (r matches CacheOutcome::Hit(f) ==> spec_hits(store_map(*store), url@)
            && f.body@ == store_map(*store)[url@]),
        !spec_hits(store_map(*store), url@) ==> r is Miss,
{
    let cached = store.read(url);
    resolve_cached(cached)
}

/// The network side of a fetch, after the caller performed the GET: a
/// received body is persisted best-effort — the write's failure is ignored
/// here, on purpose — and then decoded; a transport failure is surfaced
/// unchanged and writes nothing. The result is exactly `miss_outcome` of the
/// transport's outcome, whatever the write did.
pub fn complete_fetch(store: &mut CacheStore, url: &str, response: Result<String, String>) -> (r:
    Result<Fetched, FetchError>)
    ensures
        outcome_of(r) == miss_outcome(response_view(response)),
        (response matches Ok(b) ==> store_map(*final(store)) == store_map(*old(store)).insert(
            url@,
            b@,
        ) || store_map(*final(store)) == store_map(*old(store))),
        response is Err ==> store_map(*final(store)) == store_map(*old(store)),
{
    match response {
        Ok(body) => {
            // Best-effort persistence: the result below does not depend on it.
            let _ = store.write(url, body.as_str());
            match parse_json(body.as_str()) {
                Some(value) => Ok(Fetched { body, value }),
                None => Err(FetchError::Decode),
            }
        },
        Err(message) => Err(FetchError::Network(message)),
    }
}

} // verus!
