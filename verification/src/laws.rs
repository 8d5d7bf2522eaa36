//! What holds of the read-through fetch as a whole, proved over the model in
//! `crate::fetch`: `fetch_outcome`, `store_after` and `network_used` describe
//! one whole fetch over the table's contents `m`, with `read_ok` for whether
//! the store's read succeeded and `write_ok` for whether the best-effort
//! write committed.

use vstd::prelude::*;

use crate::fetch::{fetch_outcome, miss_outcome, network_used, spec_hits, store_after, Outcome};
use crate::json::parses_as_json;

verus! {

/// Idempotence: when a fetch returns a value and its best-effort write
/// committed, an immediately following fetch for the same URL, against a
/// store whose read succeeds, returns the same value and never touches the
/// network — whatever the second transport outcome would have been.
pub proof fn lemma_fetch_idempotent(
    m: Map<Seq<char>, Seq<char>>,
    url: Seq<char>,
    read_ok: bool,
    net: Result<Seq<char>, Seq<char>>,
    net2: Result<Seq<char>, Seq<char>>,
)
    ensures
        fetch_outcome(m, url, read_ok, net) is Value ==> ({
            let m1 = store_after(m, url, read_ok, net, true);
            &&& fetch_outcome(m1, url, true, net2) == fetch_outcome(m, url, read_ok, net)
            &&& !network_used(m1, url, true)
        }),
{
}

/// Cache population: after a cold fetch (the URL absent from the table) that
/// received body `b` over the network and whose write committed, the table
/// maps the URL to exactly the body text that was received.
pub proof fn lemma_cache_population(
    m: Map<Seq<char>, Seq<char>>,
    url: Seq<char>,
    b: Seq<char>,
    read_ok: bool,
)
    requires
        !m.contains_key(url),
    ensures
        store_after(m, url, read_ok, Ok(b), true).contains_key(url),
        store_after(m, url, read_ok, Ok(b), true)[url] == b,
{
}

/// Decode failure on a hit: a cached body that does not decode is treated as
/// a miss — the fetch goes to the network and resolves the transport's
/// outcome, never surfacing a decode error for the cached body itself.
pub proof fn lemma_corrupt_hit_falls_back(
    m: Map<Seq<char>, Seq<char>>,
    url: Seq<char>,
    read_ok: bool,
    net: Result<Seq<char>, Seq<char>>,
)
    requires
        m.contains_key(url),
    ensures
        !parses_as_json(m[url]) ==> network_used(m, url, read_ok),
        !parses_as_json(m[url]) ==> fetch_outcome(m, url, read_ok, net) == miss_outcome(net),
{
}

/// A transport failure surfaces: a fetch that reaches the network and gets a
/// connection error returns exactly that network error, and the table is left
/// as it was — nothing is written for a failed fetch.
pub proof fn lemma_network_failure_surfaces(
    m: Map<Seq<char>, Seq<char>>,
    url: Seq<char>,
    read_ok: bool,
    e: Seq<char>,
    write_ok: bool,
)
    ensures
        network_used(m, url, read_ok) ==> fetch_outcome(m, url, read_ok, Err(e)) == Outcome::Network(e),
        store_after(m, url, read_ok, Err(e), write_ok) == m,
{
}

/// Write-failure resilience: on a miss, a received body that decodes is
/// returned whether or not the best-effort write committed; a failed write
/// leaves the table unchanged and the result untouched.
pub proof fn lemma_write_failure_resilient(
    m: Map<Seq<char>, Seq<char>>,
    url: Seq<char>,
    read_ok: bool,
    b: Seq<char>,
)
    ensures
        network_used(m, url, read_ok) && parses_as_json(b) ==> fetch_outcome(m, url, read_ok, Ok(b))
            == Outcome::Value(b),
        network_used(m, url, read_ok) ==> store_after(m, url, read_ok, Ok(b), false) == m,
{
}

} // verus!
