//! The signing keys that a JWKS document publishes.

use crate::error::{ClerkError, FetchError};
use crate::json::{as_array, as_str, copy, get, json, json_document, parse, Json};
use crate::text::{same, str_chars, string_chars};
use serde_json::Value;
use vstd::prelude::*;

verus! {

/// Where the key `kid` stands among `keys`; their number, if it is not among them.
pub open spec fn position(keys: Seq<(Seq<char>, Json)>, kid: Seq<char>) -> int
    decreases keys.len(),
{
    if keys.len() == 0 || keys[0].0 == kid {
        0
    } else {
        1 + position(keys.drop_first(), kid)
    }
}

/// Whether the key `kid` is among `keys`.
pub open spec fn knows(keys: Seq<(Seq<char>, Json)>, kid: Seq<char>) -> bool {
    position(keys, kid) < keys.len()
}

/// `keys` with `jwk` for the key `kid`: in place of the key that had the ID, else at the end.
pub open spec fn put(keys: Seq<(Seq<char>, Json)>, kid: Seq<char>, jwk: Json) -> Seq<
    (Seq<char>, Json),
> {
    if knows(keys, kid) {
        keys.update(position(keys, kid), (kid, jwk))
    } else {
        keys.push((kid, jwk))
    }
}

/// The ID of a key, where it has one.
pub open spec fn key_id(jwk: Json) -> Option<Seq<char>> {
    match jwk.member("kid"@) {
        Some(kid) => kid.chars(),
        None => None,
    }
}

/// The items of a key array by their IDs, in the order in which the IDs first occur; of items
/// with the same ID, the last.
pub open spec fn indexed(items: Seq<Json>) -> Seq<(Seq<char>, Json)>
    decreases items.len(),
{
    if items.len() == 0 {
        seq![]
    } else {
        put(indexed(items.drop_last()), key_id(items.last())->Some_0, items.last())
    }
}

/// The keys of a JWKS document, or what it lacks.
pub open spec fn document_keys(doc: Json) -> Result<Seq<(Seq<char>, Json)>, Seq<char>> {
    match doc.member("keys"@) {
        Some(Json::Array(items)) => if forall|i: int|
            0 <= i < items.len() ==> key_id(#[trigger] items[i]) is Some {
            Ok(indexed(items))
        } else {
            Err("key missing 'kid'"@)
        },
        _ => Err("missing 'keys' array"@),
    }
}

/// The key for a token whose header names the key `kid`: the key of that ID, else the first
/// key there is. A header without a key ID counts as one with an empty ID.
pub open spec fn selected(keys: Seq<(Seq<char>, Json)>, kid: Option<Seq<char>>) -> Option<Json> {
    let wanted = match kid {
        Some(kid) => kid,
        None => seq![],
    };
    if knows(keys, wanted) {
        Some(keys[position(keys, wanted)].1)
    } else if keys.len() > 0 {
        Some(keys[0].1)
    } else {
        None
    }
}

/// A published key.
#[derive(Debug)]
struct KeyEntry {
    kid: String,
    jwk: Value,
}

impl KeyEntry {
    /// The ID of this key and its document.
    spec fn pair(self) -> (Seq<char>, Json) {
        (self.kid@, json(self.jwk))
    }
}

/// The keys of a JWKS document by their IDs. No two of them have the same ID, and each stands
/// under its own.
#[derive(Debug)]
pub struct KeySet {
    entries: Vec<KeyEntry>,
}

impl View for KeySet {
    type V = Seq<(Seq<char>, Json)>;

    closed spec fn view(&self) -> Seq<(Seq<char>, Json)> {
        pairs(self.entries@)
    }
}

/// The IDs of `entries` and their documents.
closed spec fn pairs(entries: Seq<KeyEntry>) -> Seq<(Seq<char>, Json)> {
    entries.map_values(|e: KeyEntry| e.pair())
}

/// No two of `keys` have the same ID.
pub open spec fn ids_distinct(keys: Seq<(Seq<char>, Json)>) -> bool {
    forall|i: int, j: int|
        0 <= i < j < keys.len() ==> (#[trigger] keys[i]).0 != (#[trigger] keys[j]).0
}

/// Every one of `keys` stands under the ID that it has itself.
pub open spec fn under_own_ids(keys: Seq<(Seq<char>, Json)>) -> bool {
    forall|i: int| 0 <= i < keys.len() ==> key_id((#[trigger] keys[i]).1) == Some(keys[i].0)
}

/// What [`position`] says.
proof fn lemma_position(keys: Seq<(Seq<char>, Json)>, kid: Seq<char>)
    ensures
        0 <= position(keys, kid) <= keys.len(),
        knows(keys, kid) ==> keys[position(keys, kid)].0 == kid,
        forall|i: int| 0 <= i < position(keys, kid) ==> (#[trigger] keys[i]).0 != kid,
    decreases keys.len(),
{
    if keys.len() > 0 && keys[0].0 != kid {
        lemma_position(keys.drop_first(), kid);
        assert forall|i: int| 0 <= i < position(keys, kid) implies (#[trigger] keys[i]).0
            != kid by {
            if i > 0 {
                assert(keys[i] == keys.drop_first()[i - 1]);
            }
        }
    }
}

/// The first position that has the ID is the one that [`position`] gives.
proof fn lemma_position_is(keys: Seq<(Seq<char>, Json)>, kid: Seq<char>, at: int)
    requires
        0 <= at <= keys.len(),
        at < keys.len() ==> keys[at].0 == kid,
        forall|i: int| 0 <= i < at ==> (#[trigger] keys[i]).0 != kid,
    ensures
        position(keys, kid) == at,
{
    lemma_position(keys, kid);
    let p = position(keys, kid);
    if p < at {
        assert(keys[p].0 != kid);
    } else if at < p {
        assert(keys[at].0 != kid);
    }
}

/// [`put`] keeps the IDs distinct, makes `jwk` the key of `kid`, and leaves every other key.
proof fn lemma_put(keys: Seq<(Seq<char>, Json)>, kid: Seq<char>, jwk: Json)
    requires
        ids_distinct(keys),
    ensures
        ids_distinct(put(keys, kid, jwk)),
        knows(put(keys, kid, jwk), kid),
        put(keys, kid, jwk)[position(put(keys, kid, jwk), kid)].1 == jwk,
        forall|other: Seq<char>|
            other != kid ==> (#[trigger] knows(put(keys, kid, jwk), other) <==> knows(
                keys,
                other,
            )),
        forall|other: Seq<char>|
            other != kid && knows(keys, other) ==> put(keys, kid, jwk)[#[trigger] position(
                put(keys, kid, jwk),
                other,
            )] == keys[position(keys, other)],
{
    let after = put(keys, kid, jwk);
    lemma_position(keys, kid);
    let p = position(keys, kid);
    lemma_position_is(after, kid, p);
    assert forall|i: int, j: int| 0 <= i < j < after.len() implies (#[trigger] after[i]).0 != (
    #[trigger] after[j]).0 by {
        if j == p && i < keys.len() {
            assert(keys[i].0 != kid);
        } else if i == p && p < keys.len() {
            assert(keys[i].0 != keys[j].0);
        } else if i < keys.len() && j < keys.len() {
            assert(keys[i].0 != keys[j].0);
        }
    }
    assert forall|other: Seq<char>| other != kid implies (#[trigger] knows(after, other) <==> knows(
        keys,
        other,
    )) && (knows(keys, other) ==> after[position(after, other)] == keys[position(keys, other)]) by {
        lemma_position(keys, other);
        let q = position(keys, other);
        if q < keys.len() {
            assert forall|i: int| 0 <= i < q implies (#[trigger] after[i]).0 != other by {
                assert(keys[i].0 != other);
            }
            lemma_position_is(after, other, q);
        } else {
            assert forall|i: int| 0 <= i < after.len() implies (#[trigger] after[i]).0
                != other by {
                if i < keys.len() {
                    assert(keys[i].0 != other);
                }
            }
            lemma_position_is(after, other, after.len() as int);
        }
    }
    assert forall|other: Seq<char>|
        other != kid && knows(keys, other) implies after[#[trigger] position(after, other)]
        == keys[position(keys, other)] by {
        assert(knows(after, other) <==> knows(keys, other));
    }
}

/// Where the key `kid` stands among `entries`; their number, if it is not among them.
fn find(entries: &Vec<KeyEntry>, kid: &str) -> (r: usize)
    ensures
        r == position(pairs(entries@), kid@),
        r <= entries@.len(),
{
    let ghost keys = pairs(entries@);
    let mut i: usize = 0;
    while i < entries.len()
        invariant
            keys == pairs(entries@),
            i <= entries@.len(),
            forall|k: int| 0 <= k < i ==> (#[trigger] keys[k]).0 != kid@,
        decreases entries@.len() - i,
    {
        assert(keys[i as int] == entries@[i as int].pair());
        if same(entries[i].kid.as_str(), kid) {
            proof {
                lemma_position_is(keys, kid@, i as int);
            }
            return i;
        }
        i += 1;
    }
    proof {
        lemma_position_is(keys, kid@, i as int);
    }
    i
}

/// Reads the ID of a key.
fn read_key_id(jwk: &Value) -> (r: Option<&str>)
    ensures
        match r {
            Some(kid) => key_id(json(*jwk)) == Some(kid@),
            None => key_id(json(*jwk)) is None,
        },
{
    match get(jwk, "kid") {
        Some(kid) => as_str(kid),
        None => None,
    }
}

impl KeySet {
    /// No two keys have the same ID, and every key stands under the ID that it has itself.
    #[verifier::type_invariant]
    spec fn well_formed(self) -> bool {
        ids_distinct(pairs(self.entries@)) && under_own_ids(pairs(self.entries@))
    }

    /// Indexes the keys of a JWKS document.
    ///
    /// Fails when the document has no `keys` array, and when a key of it has no `kid` that is a
    /// string.
    pub fn from_document(doc: &Value) -> (r: Result<KeySet, ClerkError>)
        ensures
            match document_keys(json(*doc)) {
                Ok(keys) => r matches Ok(set) && set@ == keys,
                Err(lack) => r matches Err(ClerkError::JwksParse(text)) && text@ == lack,
            },
    {
        let items: &Vec<Value> = match get(doc, "keys") {
            Some(keys) => match as_array(keys) {
                Some(items) => items,
                None => {
                    return Err(ClerkError::JwksParse("missing 'keys' array".to_owned()));
                },
            },
            None => {
                return Err(ClerkError::JwksParse("missing 'keys' array".to_owned()));
            },
        };
        let ghost all = items@.map_values(|item: Value| json(item));
        assert(json(*doc).member("keys"@) == Some(Json::Array(all)));
        let mut entries: Vec<KeyEntry> = Vec::new();
        let mut i: usize = 0;
        assert(all.take(0) =~= Seq::<Json>::empty());
        assert(pairs(entries@) =~= indexed(all.take(0)));
        while i < items.len()
            invariant
                all == items@.map_values(|item: Value| json(item)),
                json(*doc).member("keys"@) == Some(Json::Array(all)),
                i <= items@.len(),
                forall|k: int| 0 <= k < i ==> key_id(#[trigger] all[k]) is Some,
                pairs(entries@) == indexed(all.take(i as int)),
                ids_distinct(pairs(entries@)),
                under_own_ids(pairs(entries@)),
            decreases items@.len() - i,
        {
            let item: &Value = &items[i];
            assert(all[i as int] == json(*item));
            let kid: &str = match read_key_id(item) {
                Some(kid) => kid,
                None => {
                    return Err(ClerkError::JwksParse("key missing 'kid'".to_owned()));
                },
            };
            let at: usize = find(&entries, kid);
            let entry: KeyEntry = KeyEntry { kid: kid.to_owned(), jwk: copy(item) };
            let ghost before = entries@;
            let ghost added = entry;
            proof {
                lemma_put(pairs(before), kid@, json(*item));
                assert(all.take(i + 1).drop_last() =~= all.take(i as int));
            }
            if at < entries.len() {
                entries.set(at, entry);
                assert(pairs(entries@) =~= pairs(before).update(at as int, added.pair()));
            } else {
                entries.push(entry);
                assert(pairs(entries@) =~= pairs(before).push(added.pair()));
            }
            i += 1;
        }
        assert(all.take(i as int) =~= all);
        Ok(KeySet { entries })
    }

    /// Whether a key of the ID `kid` is there.
    pub fn contains(&self, kid: &str) -> (r: bool)
        ensures
            r == knows(self@, kid@),
            r <==> exists|i: int| 0 <= i < self@.len() && (#[trigger] self@[i]).0 == kid@,
    {
        proof {
            law_known_ids_are_those_that_are_there(self@, kid@);
        }
        find(&self.entries, kid) < self.entries.len()
    }

    /// The key for a token whose header names the key `kid`.
    ///
    /// Fails exactly when there is no key at all.
    pub fn select(&self, kid: Option<&str>) -> (r: Result<&Value, ClerkError>)
        ensures
            match selected(self@, str_chars(kid)) {
                Some(jwk) => r matches Ok(v) && json(*v) == jwk,
                None => r matches Err(ClerkError::KeyNotFound(id)) && string_chars(id)
                    == str_chars(kid),
            },
    {
        let wanted: &str = match kid {
            Some(kid) => kid,
            None => "",
        };
        proof {
            reveal_strlit("");
            assert(""@ =~= Seq::<char>::empty());
        }
        let at: usize = find(&self.entries, wanted);
        if at < self.entries.len() {
            assert(self@[at as int] == self.entries@[at as int].pair());
            Ok(&self.entries[at].jwk)
        } else if self.entries.len() > 0 {
            assert(self@[0] == self.entries@[0].pair());
            Ok(&self.entries[0].jwk)
        } else {
            Err(ClerkError::KeyNotFound(match kid {
                Some(kid) => Some(kid.to_owned()),
                None => None,
            }))
        }
    }
}

/// Reads the keys out of the body of a JWKS response.
///
/// Fails when the body is no JSON document, and where [`KeySet::from_document`] does.
pub fn read_jwks(body: &[u8]) -> (r: Result<KeySet, ClerkError>)
    ensures
        match json_document(body@) {
            None => r matches Err(ClerkError::JwksFetch(FetchError::Body(_))),
            Some(doc) => match document_keys(doc) {
                Ok(keys) => r matches Ok(set) && set@ == keys,
                Err(lack) => r matches Err(ClerkError::JwksParse(text)) && text@ == lack,
            },
        },
{
    match parse(body) {
        Ok(doc) => KeySet::from_document(&doc),
        Err(e) => Err(ClerkError::JwksFetch(FetchError::Body(e))),
    }
}

/// The keys of any document have distinct IDs, and a key is known by an ID exactly when an item
/// of the document has that ID.
pub proof fn law_ids_of_a_document(items: Seq<Json>, kid: Seq<char>)
    requires
        forall|i: int| 0 <= i < items.len() ==> key_id(#[trigger] items[i]) is Some,
    ensures
        ids_distinct(indexed(items)),
        knows(indexed(items), kid) <==> exists|i: int|
            0 <= i < items.len() && key_id(#[trigger] items[i]) == Some(kid),
    decreases items.len(),
{
    if items.len() > 0 {
        let front = items.drop_last();
        let last = items.last();
        assert forall|i: int| 0 <= i < front.len() implies key_id(#[trigger] front[i]) is Some by {
            assert(front[i] == items[i]);
        }
        law_ids_of_a_document(front, kid);
        lemma_put(indexed(front), key_id(last)->Some_0, last);
        assert(key_id(items[items.len() - 1]) is Some);
        if knows(indexed(front), kid) {
            let i = choose|i: int| 0 <= i < front.len() && key_id(#[trigger] front[i]) == Some(kid);
            assert(items[i] == front[i]);
        }
        if exists|i: int| 0 <= i < items.len() && key_id(#[trigger] items[i]) == Some(kid) {
            let i = choose|i: int| 0 <= i < items.len() && key_id(#[trigger] items[i]) == Some(kid);
            if i < front.len() {
                assert(front[i] == items[i]);
            }
        }
    }
}

/// The keys of any document stand under the IDs that they have themselves.
pub proof fn law_keys_stand_under_their_own_ids(items: Seq<Json>)
    requires
        forall|i: int| 0 <= i < items.len() ==> key_id(#[trigger] items[i]) is Some,
    ensures
        under_own_ids(indexed(items)),
    decreases items.len(),
{
    if items.len() > 0 {
        let front = items.drop_last();
        assert forall|i: int| 0 <= i < front.len() implies key_id(#[trigger] front[i]) is Some by {
            assert(front[i] == items[i]);
        }
        law_keys_stand_under_their_own_ids(front);
        let last = items.last();
        assert(key_id(items[items.len() - 1]) is Some);
        lemma_position(indexed(front), key_id(last)->Some_0);
    }
}

/// The key of an ID is the last item of the document that has the ID.
pub proof fn law_last_key_of_an_id_wins(items: Seq<Json>, at: int)
    requires
        forall|i: int| 0 <= i < items.len() ==> key_id(#[trigger] items[i]) is Some,
        0 <= at < items.len(),
        forall|i: int|
            at < i < items.len() ==> key_id(#[trigger] items[i]) != key_id(items[at]),
    ensures
        selected(indexed(items), key_id(items[at])) == Some(items[at]),
        knows(indexed(items), key_id(items[at])->Some_0),
    decreases items.len(),
{
    let kid = key_id(items[at])->Some_0;
    let front = items.drop_last();
    let last = items.last();
    assert forall|i: int| 0 <= i < front.len() implies key_id(#[trigger] front[i]) is Some by {
        assert(front[i] == items[i]);
    }
    law_ids_of_a_document(front, kid);
    lemma_put(indexed(front), key_id(last)->Some_0, last);
    assert(key_id(items[items.len() - 1]) is Some);
    if at < front.len() {
        assert(front[at] == items[at]);
        assert forall|i: int| at < i < front.len() implies key_id(#[trigger] front[i]) != key_id(
            front[at],
        ) by {
            assert(front[i] == items[i]);
        }
        law_last_key_of_an_id_wins(front, at);
        assert(key_id(items[items.len() - 1]) != key_id(items[at]));
        assert(knows(indexed(items), kid));
        lemma_position(indexed(front), kid);
    }
}

/// A selected key is one of the keys that are there, and it is the one of the wanted ID where
/// that ID is known. There is a key to select unless there is none at all.
pub proof fn law_selected_key_is_published(keys: Seq<(Seq<char>, Json)>, kid: Option<Seq<char>>)
    ensures
        selected(keys, kid) is None <==> keys.len() == 0,
        selected(keys, kid) matches Some(jwk) ==> exists|i: int|
            0 <= i < keys.len() && (#[trigger] keys[i]).1 == jwk,
        kid is Some && knows(keys, kid->Some_0) ==> exists|i: int|
            0 <= i < keys.len() && #[trigger] keys[i] == (
                kid->Some_0,
                selected(keys, kid)->Some_0,
            ),
{
    let wanted = match kid {
        Some(id) => id,
        None => seq![],
    };
    lemma_position(keys, wanted);
    if knows(keys, wanted) {
        let p = position(keys, wanted);
        assert(keys[p] == (wanted, selected(keys, kid)->Some_0));
    }
}

/// An ID is known exactly when one of the keys stands under it, and it is found where the first
/// such key stands.
pub proof fn law_known_ids_are_those_that_are_there(keys: Seq<(Seq<char>, Json)>, kid: Seq<char>)
    ensures
        knows(keys, kid) <==> exists|i: int| 0 <= i < keys.len() && (#[trigger] keys[i]).0 == kid,
        knows(keys, kid) ==> 0 <= position(keys, kid) < keys.len() && keys[position(keys, kid)].0
            == kid,
        forall|i: int| 0 <= i < position(keys, kid) ==> (#[trigger] keys[i]).0 != kid,
{
    lemma_position(keys, kid);
    if knows(keys, kid) {
        assert(keys[position(keys, kid)].0 == kid);
    } else {
        assert forall|i: int| 0 <= i < keys.len() implies (#[trigger] keys[i]).0 != kid by {}
    }
}

/// The ID of a key is the whole string that its member `kid` is. What is no object, has no such
/// member, or has one that is no string, has no ID.
pub proof fn law_key_id_is_the_whole_kid(
    jwk: Json,
    members: Map<Seq<char>, Json>,
    id: Seq<char>,
)
    ensures
        members.dom().contains("kid"@) && members["kid"@] == Json::Str(id) ==> key_id(
            Json::Object(members),
        ) == Some(id),
        key_id(jwk) matches Some(found) ==> {
            &&& jwk matches Json::Object(own)
            &&& own.dom().contains("kid"@)
            &&& own["kid"@] == Json::Str(found)
        },
{
}

/// `items` are the items of the member `keys` of `doc`, each of which has a string as its member
/// `kid`.
pub open spec fn publishes(doc: Json, items: Seq<Json>) -> bool {
    &&& doc matches Json::Object(members)
    &&& members.dom().contains("keys"@)
    &&& members["keys"@] == Json::Array(items)
    &&& forall|i: int| 0 <= i < items.len() ==> has_kid(#[trigger] items[i])
}

/// `item` is an object whose member `kid` is a string.
pub open spec fn has_kid(item: Json) -> bool {
    &&& item matches Json::Object(members)
    &&& members.dom().contains("kid"@)
    &&& members["kid"@] is Str
}

/// The string that the member `kid` of `item` is.
pub open spec fn kid_of(item: Json) -> Seq<char> {
    item->Object_0["kid"@]->Str_0
}

/// A document files every item that it publishes under the whole string that is the `kid` of the
/// item, unless a later item has the same.
pub proof fn law_document_files_keys_by_their_kids(
    doc: Json,
    items: Seq<Json>,
    at: int,
    id: Seq<char>,
)
    requires
        publishes(doc, items),
        0 <= at < items.len(),
        items[at]->Object_0["kid"@] == Json::Str(id),
        forall|i: int|
            at < i < items.len() ==> (#[trigger] items[i])->Object_0["kid"@] != Json::Str(id),
    ensures
        document_keys(doc) is Ok,
        selected(document_keys(doc)->Ok_0, Some(id)) == Some(items[at]),
        exists|i: int|
            0 <= i < document_keys(doc)->Ok_0.len() && #[trigger] document_keys(doc)->Ok_0[i] == (
                id,
                items[at],
            ),
{
    lemma_document_items(doc, items);
    assert(has_kid(items[at]));
    assert forall|i: int| at < i < items.len() implies key_id(#[trigger] items[i]) != key_id(
        items[at],
    ) by {
        assert(has_kid(items[i]));
        assert(items[i]->Object_0["kid"@] != Json::Str(id));
    }
    law_last_key_of_an_id_wins(items, at);
    let keys = indexed(items);
    law_selected_key_is_published(keys, Some(id));
    let i = choose|i: int|
        0 <= i < keys.len() && #[trigger] keys[i] == (id, selected(keys, Some(id))->Some_0);
    assert(keys[i] == (id, items[at]));
}

/// A key that a document publishes is found under the whole string that is its `kid`, unless a
/// later item has the same: it is filed under that ID, the ID is known, and selecting it gives
/// that key.
pub proof fn law_published_key_is_found_by_its_kid(
    body: &[u8],
    r: Result<KeySet, ClerkError>,
    items: Seq<Json>,
    at: int,
    name: &str,
    known: bool,
    found: Result<&Value, ClerkError>,
)
    requires
        call_ensures(read_jwks, (body,), r),
        json_document(body@) is Some,
        publishes(json_document(body@)->Some_0, items),
        0 <= at < items.len(),
        items[at]->Object_0["kid"@] == Json::Str(name@),
        forall|i: int|
            at < i < items.len() ==> (#[trigger] items[i])->Object_0["kid"@] != Json::Str(name@),
        r is Ok ==> call_ensures(KeySet::contains, (&r->Ok_0, name), known),
        r is Ok ==> call_ensures(KeySet::select, (&r->Ok_0, Some(name)), found),
    ensures
        r is Ok,
        known,
        found is Ok && json(*found->Ok_0) == items[at],
        exists|i: int| 0 <= i < r->Ok_0@.len() && #[trigger] r->Ok_0@[i] == (name@, items[at]),
{
    law_document_files_keys_by_their_kids(json_document(body@)->Some_0, items, at, name@);
    let keys = r->Ok_0@;
    let i = choose|i: int| 0 <= i < keys.len() && #[trigger] keys[i] == (name@, items[at]);
    law_known_ids_are_those_that_are_there(keys, name@);
}

/// The members `kid` of the items are their IDs, and the document has keys.
proof fn lemma_document_items(doc: Json, items: Seq<Json>)
    requires
        publishes(doc, items),
    ensures
        document_keys(doc) == Ok::<Seq<(Seq<char>, Json)>, Seq<char>>(indexed(items)),
        forall|i: int| 0 <= i < items.len() ==> key_id(#[trigger] items[i]) == Some(kid_of(items[i])),
{
    assert forall|i: int| 0 <= i < items.len() implies key_id(#[trigger] items[i]) == Some(
        kid_of(items[i]),
    ) by {
        assert(has_kid(items[i]));
        law_key_id_is_the_whole_kid(items[i], items[i]->Object_0, kid_of(items[i]));
    }
}

/// Nothing is found that a document does not publish: every key that is there is one of its items
/// and stands under the string that is its `kid`, no two stand under the same, and an ID is known
/// only if it is the `kid` of an item.
pub proof fn law_nothing_else_is_published(
    body: &[u8],
    r: Result<KeySet, ClerkError>,
    items: Seq<Json>,
    name: &str,
    known: bool,
)
    requires
        call_ensures(read_jwks, (body,), r),
        json_document(body@) is Some,
        publishes(json_document(body@)->Some_0, items),
        r is Ok ==> call_ensures(KeySet::contains, (&r->Ok_0, name), known),
    ensures
        r is Ok,
        known ==> exists|i: int|
            0 <= i < items.len() && (#[trigger] items[i])->Object_0["kid"@] == Json::Str(name@),
        forall|k: int| 0 <= k < r->Ok_0@.len() ==> exists|i: int|
            0 <= i < items.len() && (#[trigger] r->Ok_0@[k]).1 == #[trigger] items[i]
                && items[i]->Object_0["kid"@] == Json::Str(r->Ok_0@[k].0),
        forall|k: int, l: int|
            0 <= k < l < r->Ok_0@.len() ==> (#[trigger] r->Ok_0@[k]).0 != (#[trigger] r->Ok_0@[l]).0,
        items.len() > 0 ==> r->Ok_0@.len() > 0 && Json::Str(r->Ok_0@[0].0)
            == items[0]->Object_0["kid"@],
{
    lemma_document_items(json_document(body@)->Some_0, items);
    let keys = r->Ok_0@;
    law_ids_of_a_document(items, name@);
    if known {
        let i = choose|i: int| 0 <= i < items.len() && key_id(#[trigger] items[i]) == Some(name@);
        assert(has_kid(items[i]));
        assert(items[i]->Object_0["kid"@] == Json::Str(name@));
    }
    assert forall|k: int| 0 <= k < keys.len() implies exists|i: int|
        0 <= i < items.len() && (#[trigger] keys[k]).1 == #[trigger] items[i]
            && items[i]->Object_0["kid"@] == Json::Str(keys[k].0) by {
        lemma_keys_are_items(items, k);
        let i = choose|i: int|
            0 <= i < items.len() && indexed(items)[k].1 == #[trigger] items[i] && key_id(items[i])
                == Some(indexed(items)[k].0);
        assert(has_kid(items[i]));
        assert(keys[k].1 == items[i]);
    }
    if items.len() > 0 {
        assert(has_kid(items[0]));
        lemma_first_key(items);
    }
}

/// Every key is an item of the document, under its ID.
proof fn lemma_keys_are_items(items: Seq<Json>, k: int)
    requires
        forall|i: int| 0 <= i < items.len() ==> key_id(#[trigger] items[i]) is Some,
        0 <= k < indexed(items).len(),
    ensures
        exists|i: int|
            0 <= i < items.len() && indexed(items)[k].1 == #[trigger] items[i] && key_id(items[i])
                == Some(indexed(items)[k].0),
    decreases items.len(),
{
    let front = items.drop_last();
    let last = items.last();
    assert forall|i: int| 0 <= i < front.len() implies key_id(#[trigger] front[i]) is Some by {
        assert(front[i] == items[i]);
    }
    let kid = key_id(last)->Some_0;
    assert(key_id(items[items.len() - 1]) is Some);
    lemma_position(indexed(front), kid);
    if indexed(items)[k] == (kid, last) {
        assert(items[items.len() - 1] == last);
    } else {
        assert(indexed(items)[k] == indexed(front)[k]);
        lemma_keys_are_items(front, k);
        let i = choose|i: int|
            0 <= i < front.len() && indexed(front)[k].1 == #[trigger] front[i] && key_id(front[i])
                == Some(indexed(front)[k].0);
        assert(items[i] == front[i]);
    }
}

/// The first key stands under the ID of the first item.
proof fn lemma_first_key(items: Seq<Json>)
    requires
        forall|i: int| 0 <= i < items.len() ==> key_id(#[trigger] items[i]) is Some,
        items.len() > 0,
    ensures
        indexed(items).len() > 0,
        Some(indexed(items)[0].0) == key_id(items[0]),
    decreases items.len(),
{
    let front = items.drop_last();
    assert forall|i: int| 0 <= i < front.len() implies key_id(#[trigger] front[i]) is Some by {
        assert(front[i] == items[i]);
    }
    let kid = key_id(items.last())->Some_0;
    assert(key_id(items[items.len() - 1]) is Some);
    lemma_position(indexed(front), kid);
    if front.len() > 0 {
        lemma_first_key(front);
        assert(front[0] == items[0]);
    } else {
        assert(indexed(front).len() == 0);
    }
}

/// A document has keys exactly when it publishes some items, or none: its member `keys` is an
/// array, and every item of it has a string as its `kid`.
pub proof fn law_documents_with_keys(doc: Json)
    ensures
        document_keys(doc) is Ok <==> exists|items: Seq<Json>| #[trigger] publishes(doc, items),
{
    if document_keys(doc) is Ok {
        let items = doc->Object_0["keys"@]->Array_0;
        assert forall|i: int| 0 <= i < items.len() implies has_kid(#[trigger] items[i]) by {
            assert(key_id(items[i]) is Some);
        }
        assert(publishes(doc, items));
    }
    if exists|items: Seq<Json>| #[trigger] publishes(doc, items) {
        let items = choose|items: Seq<Json>| #[trigger] publishes(doc, items);
        lemma_document_items(doc, items);
    }
}

/// A response is refused for what it lacks: a body that is no JSON, a document that has no array
/// as its member `keys`, and one with an item whose `kid` is no string.
pub proof fn law_unusable_jwks_is_refused(body: &[u8], r: Result<KeySet, ClerkError>, at: int)
    requires
        call_ensures(read_jwks, (body,), r),
    ensures
        json_document(body@) is None <==> r matches Err(ClerkError::JwksFetch(FetchError::Body(_))),
        json_document(body@) matches Some(doc) ==> (!(doc is Object && doc->Object_0.dom().contains(
            "keys"@,
        ) && doc->Object_0["keys"@] is Array) ==> r is Err && r->Err_0 is JwksParse
            && r->Err_0->JwksParse_0@ == "missing 'keys' array"@),
        json_document(body@) matches Some(Json::Object(members)) ==> (members.dom().contains(
            "keys"@,
        ) ==> (members["keys"@] matches Json::Array(items) ==> (0 <= at < items.len() && !has_kid(
            items[at],
        ) ==> r is Err && r->Err_0 is JwksParse && r->Err_0->JwksParse_0@ == "key missing 'kid'"@))),
        r is Ok <==> json_document(body@) is Some && exists|items: Seq<Json>| #[trigger]
            publishes(json_document(body@)->Some_0, items),
{
    if json_document(body@) is Some {
        let doc = json_document(body@)->Some_0;
        if doc is Object && doc->Object_0.dom().contains("keys"@) && doc->Object_0["keys"@] is Array {
            let items = doc->Object_0["keys"@]->Array_0;
            assert(doc.member("keys"@) == Some(Json::Array(items)));
            assert forall|i: int| 0 <= i < items.len() implies (has_kid(items[i]) <==> key_id(
                #[trigger] items[i],
            ) is Some) by {
                law_key_id_is_the_whole_kid(
                    items[i],
                    items[i]->Object_0,
                    kid_of(items[i]),
                );
            }
            if r is Ok {
                assert forall|i: int| 0 <= i < items.len() implies has_kid(#[trigger] items[i]) by {
                    assert(key_id(items[i]) is Some);
                }
                assert(publishes(doc, items));
            }
            if exists|all: Seq<Json>| #[trigger] publishes(doc, all) {
                let all = choose|all: Seq<Json>| #[trigger] publishes(doc, all);
                lemma_document_items(doc, all);
            }
        }
    }
}

/// A token whose key ID is not known is checked with the first key, one without a key ID with the
/// key of the empty ID, and there is no key exactly where there are none.
pub proof fn law_selection_falls_back_on_the_first_key(
    set: &KeySet,
    kid: Option<&str>,
    r: Result<&Value, ClerkError>,
)
    requires
        call_ensures(KeySet::select, (set, kid), r),
    ensures
        set@.len() == 0 ==> r is Err && r->Err_0 is KeyNotFound && (match kid {
            Some(name) => r->Err_0->KeyNotFound_0 is Some && r->Err_0->KeyNotFound_0->Some_0@
                == name@,
            None => r->Err_0->KeyNotFound_0 is None,
        }),
        set@.len() > 0 ==> r is Ok,
        set@.len() > 0 && (forall|i: int|
            0 <= i < set@.len() ==> (#[trigger] set@[i]).0 != (match kid {
                Some(name) => name@,
                None => Seq::<char>::empty(),
            })) ==> json(*r->Ok_0) == set@[0].1,
        forall|i: int|
            0 <= i < set@.len() && (#[trigger] set@[i]).0 == (match kid {
                Some(name) => name@,
                None => Seq::<char>::empty(),
            }) && (forall|k: int| 0 <= k < i ==> (#[trigger] set@[k]).0 != set@[i].0) ==> r is Ok
                && json(*r->Ok_0) == set@[i].1,
{
    let wanted = match kid {
        Some(name) => name@,
        None => Seq::<char>::empty(),
    };
    law_known_ids_are_those_that_are_there(set@, wanted);
    assert forall|i: int|
        0 <= i < set@.len() && (#[trigger] set@[i]).0 == wanted && (forall|k: int|
            0 <= k < i ==> (#[trigger] set@[k]).0 != set@[i].0) implies r is Ok && json(*r->Ok_0)
        == set@[i].1 by {
        lemma_position_is(set@, wanted, i);
    }
}

} // verus!
