//! The cache of published keys.

use crate::clock::{duration_nanos, span_nanos, NANOS_PER_SEC};
use crate::error::{ClerkError, FetchError};
use crate::json::{json_document, Json};
use crate::jwks::{
    document_keys, ids_distinct, knows, law_document_files_keys_by_their_kids,
    law_documents_with_keys, law_known_ids_are_those_that_are_there, publishes, read_jwks,
    selected, under_own_ids, KeySet,
};
use crate::text::str_chars;
use std::sync::Arc;
use std::time::{Duration, Instant};
use vstd::prelude::*;

verus! {

/// How long keys are kept by default, in seconds: one hour.
pub const DEFAULT_TTL_SECS: u64 = 3600;

/// The keys that a cache may serve, if it may serve any: those that it holds, unless they lack
/// the key `kid` that a token asks for, or are as old as they may get. `ttl` and `age` are in
/// nanoseconds.
pub open spec fn servable(
    held: Option<Seq<(Seq<char>, Json)>>,
    ttl: nat,
    kid: Option<Seq<char>>,
    age: nat,
) -> Option<Seq<(Seq<char>, Json)>> {
    match held {
        Some(keys) => if (kid is Some ==> knows(keys, kid->Some_0)) && age < ttl {
            Some(keys)
        } else {
            None
        },
        None => None,
    }
}

/// What keys that may be absent hold.
pub open spec fn set_keys(set: Option<Arc<KeySet>>) -> Option<Seq<(Seq<char>, Json)>> {
    match set {
        Some(set) => Some(set@),
        None => None,
    }
}

/// Keys and when they were fetched.
#[derive(Debug)]
struct FetchedKeys {
    at: Instant,
    keys: Arc<KeySet>,
}

/// In-process JWKS cache.
///
/// Keys are fetched lazily, and again when a key is missing or after the TTL expires.
#[derive(Debug)]
pub struct ClerkJwksCache {
    fetched: Option<FetchedKeys>,
    ttl: Duration,
}

impl Default for ClerkJwksCache {
    fn default() -> (r: Self)
        ensures
            r.keys() is None,
            r.fetched_at() is None,
            r.ttl_nanos() == DEFAULT_TTL_SECS * NANOS_PER_SEC,
            r.ttl_nanos() == 3_600_000_000_000,
    {
        ClerkJwksCache::new(Duration::from_secs(DEFAULT_TTL_SECS))
    }
}

/// The IDs of `keys` are distinct, and each key stands under its own.
pub open spec fn well_filed(keys: Seq<(Seq<char>, Json)>) -> bool {
    ids_distinct(keys) && under_own_ids(keys)
}

impl ClerkJwksCache {
    /// The keys that are held are well filed.
    #[verifier::type_invariant]
    spec fn well_formed(self) -> bool {
        self.keys() is Some ==> well_filed(self.keys()->Some_0)
    }

    /// The keys that the cache holds, if it holds any.
    pub closed spec fn keys(self) -> Option<Seq<(Seq<char>, Json)>> {
        match self.fetched {
            Some(fetched) => Some(fetched.keys@),
            None => None,
        }
    }

    /// When the keys that the cache holds were fetched, if it holds any.
    pub closed spec fn fetched_at(self) -> Option<Instant> {
        match self.fetched {
            Some(fetched) => Some(fetched.at),
            None => None,
        }
    }

    /// How long keys are kept, in nanoseconds.
    pub closed spec fn ttl_nanos(self) -> nat {
        duration_nanos(self.ttl)
    }

    /// How old the keys that the cache holds are at `now`, in nanoseconds; 0 if it holds none.
    pub open spec fn age_at(self, now: Instant) -> nat {
        match self.fetched_at() {
            Some(at) => span_nanos(at, now),
            None => 0,
        }
    }

    /// The keys that the cache serves at `now` to a token that asks for the key `kid`, if it
    /// serves any.
    pub open spec fn serves(self, kid: Option<Seq<char>>, now: Instant) -> Option<
        Seq<(Seq<char>, Json)>,
    > {
        servable(self.keys(), self.ttl_nanos(), kid, self.age_at(now))
    }

    /// A cache without keys, which will keep keys for `ttl`.
    pub fn new(ttl: Duration) -> (r: Self)
        ensures
            r.keys() is None,
            r.fetched_at() is None,
            r.ttl_nanos() == duration_nanos(ttl),
    {
        ClerkJwksCache { fetched: None, ttl }
    }

    /// The keys for a token whose header names the key `kid`, at `now`.
    ///
    /// `None` asks for a refresh.
    pub fn lookup_at(&self, kid: Option<&str>, now: Instant) -> (r: Option<Arc<KeySet>>)
        ensures
            set_keys(r) == self.serves(str_chars(kid), now),
            r matches Some(set) ==> well_filed(set@),
            r is Some ==> self.fetched_at() is Some,
    {
        proof {
            use_type_invariant(self);
        }
        match &self.fetched {
            Some(fetched) => {
                let known: bool = match kid {
                    Some(kid) => fetched.keys.contains(kid),
                    None => true,
                };
                let age: Duration = now.saturating_duration_since(fetched.at);
                if known && age.as_nanos() < self.ttl.as_nanos() {
                    Some(fetched.keys.clone())
                } else {
                    None
                }
            },
            None => None,
        }
    }

    /// The keys for a token whose header names the key `kid`, at what `clock` reads.
    ///
    /// `None` asks for a refresh. The clock is asked once, in this call: of a clock that nothing
    /// else is known of, no reading can be had in any other way.
    pub fn lookup_by<C: FnOnce() -> Instant>(&self, kid: Option<&str>, clock: C) -> (r: Option<
        Arc<KeySet>,
    >)
        requires
            call_requires(clock, ()),
        ensures
            exists|now: Instant| #[trigger]
                call_ensures(clock, (), now) && set_keys(r) == self.serves(str_chars(kid), now),
            r matches Some(set) ==> well_filed(set@),
            r is Some ==> self.fetched_at() is Some,
    {
        let now: Instant = clock();
        self.lookup_at(kid, now)
    }

    /// The keys for a token whose header names the key `kid`.
    ///
    /// `None` asks for a refresh. This is [`ClerkJwksCache::lookup_by`] with the monotonic clock:
    /// the result is the right one for a reading that `Instant::now` gave.
    pub fn lookup(&self, kid: Option<&str>) -> (r: Option<Arc<KeySet>>)
        ensures
            call_ensures(ClerkJwksCache::lookup_by, (self, kid, Instant::now), r),
            exists|now: Instant|
                call_ensures(Instant::now, (), now) && set_keys(r) == servable(
                    self.keys(),
                    self.ttl_nanos(),
                    str_chars(kid),
                    #[trigger] self.age_at(now),
                ),
            r matches Some(set) ==> well_filed(set@),
            r is Some ==> self.fetched_at() is Some,
    {
        let r: Option<Arc<KeySet>> = self.lookup_by(kid, Instant::now);
        let ghost now = choose|now: Instant| #[trigger]
            call_ensures(Instant::now, (), now) && set_keys(r) == self.serves(str_chars(kid), now);
        assert(set_keys(r) == servable(
            self.keys(),
            self.ttl_nanos(),
            str_chars(kid),
            self.age_at(now),
        ));
        r
    }

    /// Takes in what came of requesting the JWKS endpoint, at `now`: the body of the response,
    /// or why there is none.
    ///
    /// Returns the keys of the document, which the cache now holds in place of any that it held,
    /// as fetched at `now`. On failure the cache is left as it was.
    pub fn refresh_at(
        &mut self,
        response: Result<Vec<u8>, reqwest::Error>,
        now: Instant,
    ) -> (r: Result<Arc<KeySet>, ClerkError>)
        ensures
            refreshes_to(r, response),
            refreshed_at(*old(self), *final(self), r, now),
    {
        let body: Vec<u8> = match response {
            Ok(body) => body,
            Err(e) => return Err(ClerkError::from(e)),
        };
        let set: KeySet = match read_jwks(body.as_slice()) {
            Ok(set) => set,
            Err(e) => return Err(e),
        };
        proof {
            law_document_keys_are_well_filed(json_document(body@)->Some_0);
        }
        let keys: Arc<KeySet> = Arc::new(set);
        self.fetched = Some(FetchedKeys { at: now, keys: keys.clone() });
        Ok(keys)
    }

    /// Takes in what came of requesting the JWKS endpoint: the body of the response, or why
    /// there is none.
    ///
    /// This is [`ClerkJwksCache::refresh_at`] for a reading that `Instant::now` gave.
    pub fn refresh(&mut self, response: Result<Vec<u8>, reqwest::Error>) -> (r: Result<
        Arc<KeySet>,
        ClerkError,
    >)
        ensures
            refreshes_to(r, response),
            exists|now: Instant|
                call_ensures(Instant::now, (), now) && #[trigger] refreshed_at(
                    *old(self),
                    *final(self),
                    r,
                    now,
                ),
    {
        self.refresh_at(response, Instant::now())
    }
}

/// `r` is what comes of a refresh with `response`: the keys of the document that the response
/// holds, or why there are none.
pub open spec fn refreshes_to(
    r: Result<Arc<KeySet>, ClerkError>,
    response: Result<Vec<u8>, reqwest::Error>,
) -> bool {
    match response {
        Err(e) => r == Err::<Arc<KeySet>, ClerkError>(
            ClerkError::JwksFetch(FetchError::Request(e)),
        ),
        Ok(body) => match json_document(body@) {
            None => r matches Err(ClerkError::JwksFetch(FetchError::Body(_))),
            Some(doc) => match document_keys(doc) {
                Ok(keys) => r matches Ok(set) && set@ == keys,
                Err(lack) => r matches Err(ClerkError::JwksParse(text)) && text@ == lack,
            },
        },
    }
}

/// A refresh at `now` that gives `r` turns the cache `before` into `after`: the keys that it
/// gives take the place of those before, as fetched at `now`, and the TTL stays; one that gives
/// none changes nothing.
pub open spec fn refreshed_at(
    before: ClerkJwksCache,
    after: ClerkJwksCache,
    r: Result<Arc<KeySet>, ClerkError>,
    now: Instant,
) -> bool {
    match r {
        Ok(set) => {
            &&& after.keys() == Some(set@)
            &&& well_filed(set@)
            &&& after.fetched_at() == Some(now)
            &&& after.ttl_nanos() == before.ttl_nanos()
        },
        Err(_) => after == before,
    }
}

/// A cache holds keys exactly when it holds the time of their fetch.
pub proof fn law_held_keys_have_a_fetch_time(cache: ClerkJwksCache)
    ensures
        cache.keys() is Some <==> cache.fetched_at() is Some,
{
}

/// The keys of any JWKS document have distinct IDs, and each stands under its own.
pub proof fn law_document_keys_are_well_filed(doc: Json)
    ensures
        document_keys(doc) matches Ok(keys) ==> well_filed(keys),
{
    if document_keys(doc) is Ok {
        let items = doc.member("keys"@)->Some_0->Array_0;
        crate::jwks::law_ids_of_a_document(items, seq![]);
        crate::jwks::law_keys_stand_under_their_own_ids(items);
    }
}

/// Keys are kept for the TTL, counted from their fetch: once they were fetched at `t0`, they are
/// served at `t1` if and only if less than the TTL has passed in between, to a token that asks
/// for one of them and to one that asks for none in particular. Nothing else enters, where they
/// came from as little as what could be fetched now.
pub proof fn law_keys_are_kept_for_the_ttl(
    cache: ClerkJwksCache,
    keys: Seq<(Seq<char>, Json)>,
    kid: Option<Seq<char>>,
    t0: Instant,
    t1: Instant,
)
    requires
        cache.keys() == Some(keys),
        cache.fetched_at() == Some(t0),
        kid is Some ==> knows(keys, kid->Some_0),
    ensures
        cache.serves(kid, t1) == Some(keys) <==> span_nanos(t0, t1) < cache.ttl_nanos(),
        cache.serves(kid, t1) is None <==> span_nanos(t0, t1) >= cache.ttl_nanos(),
{
}

/// A refresh starts the TTL anew: the keys that it took in at `t0` are served at `t1` if and only
/// if less than the TTL has passed in between, whatever the cache held before.
pub proof fn law_refresh_starts_the_ttl(
    before: ClerkJwksCache,
    after: ClerkJwksCache,
    set: Arc<KeySet>,
    kid: Option<Seq<char>>,
    t0: Instant,
    t1: Instant,
)
    requires
        refreshed_at(before, after, Ok(set), t0),
        kid is Some ==> knows(set@, kid->Some_0),
    ensures
        after.serves(kid, t1) == Some(set@) <==> span_nanos(t0, t1) < before.ttl_nanos(),
        after.serves(kid, t1) is None <==> span_nanos(t0, t1) >= before.ttl_nanos(),
{
    law_keys_are_kept_for_the_ttl(after, set@, kid, t0, t1);
}

/// A call for the keys of a token that asks for the key `kid` has given `keys`: either the cache
/// served them, and is as it was, or it served none and they were fetched, at `fetched`.
pub open spec fn gives_keys(
    before: ClerkJwksCache,
    after: ClerkJwksCache,
    kid: Option<Seq<char>>,
    looked: Instant,
    fetched: Instant,
    keys: Seq<(Seq<char>, Json)>,
) -> bool {
    match before.serves(kid, looked) {
        Some(served) => {
            &&& served == keys
            &&& after == before
            &&& after.fetched_at() is Some
        },
        None => {
            &&& after.keys() == Some(keys)
            &&& well_filed(keys)
            &&& after.fetched_at() == Some(fetched)
            &&& after.ttl_nanos() == before.ttl_nanos()
        },
    }
}

/// A lookup that serves keys gives them, and where it serves none, a refresh that succeeds gives
/// those that it fetched.
pub proof fn law_lookup_or_refresh_gives_keys(
    before: ClerkJwksCache,
    after: ClerkJwksCache,
    kid: Option<Seq<char>>,
    looked: Instant,
    set: Arc<KeySet>,
    fetched: Instant,
)
    ensures
        before.serves(kid, looked) matches Some(keys) ==> gives_keys(
            before,
            before,
            kid,
            looked,
            fetched,
            keys,
        ),
        before.serves(kid, looked) is None && refreshed_at(before, after, Ok(set), fetched)
            ==> gives_keys(before, after, kid, looked, fetched, set@),
{
}

/// Whatever keys a call gives, by the cache or by a fetch, the cache holds them afterwards, with
/// the time of their fetch, and each of them under its own ID. That time is the one of this call
/// or the one that it was before.
pub proof fn law_given_keys_are_held(
    before: ClerkJwksCache,
    after: ClerkJwksCache,
    kid: Option<Seq<char>>,
    looked: Instant,
    fetched: Instant,
    keys: Seq<(Seq<char>, Json)>,
)
    requires
        before.keys() is Some ==> well_filed(before.keys()->Some_0),
        gives_keys(before, after, kid, looked, fetched, keys),
    ensures
        after.keys() == Some(keys),
        well_filed(keys),
        after.fetched_at() is Some,
        after.fetched_at() == Some(fetched) || after.fetched_at() == before.fetched_at(),
{
}

/// Whatever keys a call gives, by the cache or by a fetch, the cache holds them afterwards. A
/// second call for the same key ID is served the same keys without a fetch, as long as less than
/// the TTL has passed since they were fetched, unless they lack that key ID.
pub proof fn law_second_call_is_served_from_the_cache(
    before: ClerkJwksCache,
    after: ClerkJwksCache,
    kid: Option<Seq<char>>,
    looked: Instant,
    fetched: Instant,
    keys: Seq<(Seq<char>, Json)>,
    again: Instant,
)
    requires
        gives_keys(before, after, kid, looked, fetched, keys),
    ensures
        after.keys() == Some(keys),
        after.ttl_nanos() == before.ttl_nanos(),
        (kid is Some ==> knows(keys, kid->Some_0)) && after.age_at(again) < after.ttl_nanos()
            ==> after.serves(kid, again) == Some(keys),
{
}

/// A cache that holds no keys asks for a refresh: keys are fetched lazily.
pub proof fn law_empty_cache_serves_nothing(ttl: nat, kid: Option<Seq<char>>, age: nat)
    ensures
        servable(None, ttl, kid, age) is None,
{
}

/// Keys that have reached the TTL are not served.
pub proof fn law_expired_keys_are_not_served(
    keys: Seq<(Seq<char>, Json)>,
    ttl: nat,
    kid: Option<Seq<char>>,
    age: nat,
)
    requires
        age >= ttl,
    ensures
        servable(Some(keys), ttl, kid, age) is None,
{
}

/// Keys are not served to a token that asks for a key which is not among them.
pub proof fn law_unknown_key_is_not_served(
    keys: Seq<(Seq<char>, Json)>,
    ttl: nat,
    kid: Seq<char>,
    age: nat,
)
    requires
        !knows(keys, kid),
    ensures
        servable(Some(keys), ttl, Some(kid), age) is None,
{
}

/// Keys within the TTL are served as they were fetched, to a token that asks for one of them
/// and to one that asks for none in particular.
pub proof fn law_fresh_keys_are_served(
    keys: Seq<(Seq<char>, Json)>,
    ttl: nat,
    kid: Option<Seq<char>>,
    age: nat,
)
    requires
        kid is Some ==> knows(keys, kid->Some_0),
        age < ttl,
    ensures
        servable(Some(keys), ttl, kid, age) == Some(keys),
{
}

/// A token that names a key and is served from the cache is checked with the key it names.
pub proof fn law_served_keys_hold_the_named_key(
    keys: Seq<(Seq<char>, Json)>,
    ttl: nat,
    kid: Seq<char>,
    age: nat,
)
    requires
        servable(Some(keys), ttl, Some(kid), age) is Some,
    ensures
        exists|i: int|
            0 <= i < keys.len() && #[trigger] keys[i] == (
                kid,
                selected(keys, Some(kid))->Some_0,
            ),
{
    crate::jwks::law_selected_key_is_published(keys, Some(kid));
}

/// A new cache holds no keys and keeps keys for as long as it was told; by default that is an
/// hour.
pub proof fn law_new_cache_keeps_keys_as_told(
    ttl: Duration,
    told: ClerkJwksCache,
    default: ClerkJwksCache,
)
    requires
        call_ensures(ClerkJwksCache::new, (ttl,), told),
        call_ensures(<ClerkJwksCache as Default>::default, (), default),
    ensures
        told.keys() is None,
        told.ttl_nanos() == duration_nanos(ttl),
        default.keys() is None,
        default.ttl_nanos() == 3_600_000_000_000,
{
}

/// A cache serves the keys that it holds, all of them and as they are, at the times at which less
/// than the TTL has passed since their fetch, to a token that names one of them or names none;
/// at any other time, and to any other token, it serves nothing.
pub proof fn law_lookup_serves_fresh_keys_to_those_who_know_them(
    cache: &ClerkJwksCache,
    kid: Option<&str>,
    now: Instant,
    r: Option<Arc<KeySet>>,
)
    requires
        call_ensures(ClerkJwksCache::lookup_at, (cache, kid, now), r),
    ensures
        r is Some <==> {
            &&& cache.keys() matches Some(keys)
            &&& kid matches Some(name) ==> exists|i: int|
                0 <= i < keys.len() && (#[trigger] keys[i]).0 == name@
            &&& span_nanos(cache.fetched_at()->Some_0, now) < cache.ttl_nanos()
        },
        r matches Some(set) ==> cache.keys() == Some(set@),
{
    law_held_keys_have_a_fetch_time(*cache);
    if cache.keys() is Some && kid is Some {
        law_known_ids_are_those_that_are_there(cache.keys()->Some_0, kid->Some_0@);
    }
}

/// Keys that are past their TTL by the clock are not served, and those that are not are: where
/// every reading that the clock gives is at least the TTL after the fetch, a lookup gives nothing,
/// and where every one is before that, it gives the keys to a token that names one of them or
/// names none. Whatever is served was within its TTL at a reading of the clock.
pub proof fn law_lookup_goes_by_the_clock<C: FnOnce() -> Instant>(
    cache: &ClerkJwksCache,
    kid: Option<&str>,
    clock: C,
    r: Option<Arc<KeySet>>,
)
    requires
        call_ensures(ClerkJwksCache::lookup_by, (cache, kid, clock), r),
    ensures
        r matches Some(set) ==> cache.keys() == Some(set@),
        r is Some ==> exists|now: Instant| #[trigger]
            call_ensures(clock, (), now) && span_nanos(cache.fetched_at()->Some_0, now)
                < cache.ttl_nanos(),
        (forall|now: Instant| #[trigger]
            call_ensures(clock, (), now) ==> span_nanos(cache.fetched_at()->Some_0, now)
                >= cache.ttl_nanos()) ==> r is None,
        cache.keys() matches Some(keys) ==> ((kid matches Some(name) ==> exists|i: int|
            0 <= i < keys.len() && (#[trigger] keys[i]).0 == name@) && (forall|now: Instant|
            #[trigger] call_ensures(clock, (), now) ==> span_nanos(
                cache.fetched_at()->Some_0,
                now,
            ) < cache.ttl_nanos()) ==> r is Some),
        cache.keys() is None ==> r is None,
{
    law_held_keys_have_a_fetch_time(*cache);
    let now = choose|now: Instant| #[trigger]
        call_ensures(clock, (), now) && set_keys(r) == cache.serves(str_chars(kid), now);
    assert(call_ensures(clock, (), now));
    if cache.keys() is Some && kid is Some {
        law_known_ids_are_those_that_are_there(cache.keys()->Some_0, kid->Some_0@);
    }
}

/// The lookup by the monotonic clock goes by the readings that `Instant::now` gives: expired keys
/// are not served, and fresh ones are.
pub proof fn law_expired_keys_are_fetched_again(
    cache: &ClerkJwksCache,
    kid: Option<&str>,
    r: Option<Arc<KeySet>>,
)
    requires
        call_ensures(ClerkJwksCache::lookup, (cache, kid), r),
    ensures
        call_ensures(ClerkJwksCache::lookup_by, (cache, kid, Instant::now), r),
        r matches Some(set) ==> cache.keys() == Some(set@),
        (forall|now: Instant| #[trigger]
            call_ensures(Instant::now, (), now) ==> span_nanos(cache.fetched_at()->Some_0, now)
                >= cache.ttl_nanos()) ==> r is None,
        cache.keys() matches Some(keys) ==> ((kid matches Some(name) ==> exists|i: int|
            0 <= i < keys.len() && (#[trigger] keys[i]).0 == name@) && (forall|now: Instant|
            #[trigger] call_ensures(Instant::now, (), now) ==> span_nanos(
                cache.fetched_at()->Some_0,
                now,
            ) < cache.ttl_nanos()) ==> r is Some),
{
    law_lookup_goes_by_the_clock(cache, kid, Instant::now, r);
}

/// A refresh takes in what a response publishes: every item can be looked up by the whole string
/// that is its `kid`, unless a later item has the same, until the TTL has passed since the
/// refresh.
pub proof fn law_refreshed_keys_are_looked_up_by_their_kids(
    before: ClerkJwksCache,
    after: &ClerkJwksCache,
    body: Vec<u8>,
    r: Result<Arc<KeySet>, ClerkError>,
    t0: Instant,
    items: Seq<Json>,
    at: int,
    name: &str,
    t1: Instant,
    served: Option<Arc<KeySet>>,
)
    requires
        refreshes_to(r, Ok(body)),
        refreshed_at(before, *after, r, t0),
        json_document(body@) is Some,
        publishes(json_document(body@)->Some_0, items),
        0 <= at < items.len(),
        items[at]->Object_0["kid"@] == Json::Str(name@),
        forall|i: int|
            at < i < items.len() ==> (#[trigger] items[i])->Object_0["kid"@] != Json::Str(name@),
        call_ensures(ClerkJwksCache::lookup_at, (after, Some(name), t1), served),
    ensures
        r is Ok,
        exists|i: int| 0 <= i < r->Ok_0@.len() && #[trigger] r->Ok_0@[i] == (name@, items[at]),
        served is Some <==> span_nanos(t0, t1) < before.ttl_nanos(),
        served is Some ==> served->Some_0@ == r->Ok_0@,
{
    law_document_files_keys_by_their_kids(json_document(body@)->Some_0, items, at, name@);
    let keys = r->Ok_0@;
    let i = choose|i: int| 0 <= i < keys.len() && #[trigger] keys[i] == (name@, items[at]);
    assert(keys[i].0 == name@);
    law_lookup_serves_fresh_keys_to_those_who_know_them(after, Some(name), t1, served);
}

/// A refresh fails exactly where there is nothing to take in: no response, a body that is no JSON,
/// or a document that publishes no keys. The cache is then what it was before.
pub proof fn law_failed_refresh_changes_nothing(
    before: ClerkJwksCache,
    after: ClerkJwksCache,
    response: Result<Vec<u8>, reqwest::Error>,
    r: Result<Arc<KeySet>, ClerkError>,
    now: Instant,
)
    requires
        refreshes_to(r, response),
        refreshed_at(before, after, r, now),
    ensures
        r is Err ==> after == before,
        response matches Err(e) ==> r == Err::<Arc<KeySet>, ClerkError>(
            ClerkError::JwksFetch(FetchError::Request(e)),
        ),
        response matches Ok(body) ==> (json_document(body@) is None ==> r is Err && r->Err_0
            is JwksFetch && r->Err_0->JwksFetch_0 is Body),
        response matches Ok(body) ==> (r is Ok <==> json_document(body@) is Some && exists|
            items: Seq<Json>,
        | #[trigger] publishes(json_document(body@)->Some_0, items)),
{
    if response is Ok && json_document(response->Ok_0@) is Some {
        law_documents_with_keys(json_document(response->Ok_0@)->Some_0);
    }
}

} // verus!
