//! JSON values as plain data.
use vstd::prelude::*;

use crate::text::same_text;

verus! {

/// A JSON number as it is stored: a non-negative integer, a negative integer, or the bit
/// pattern of a double.
#[derive(Clone, Copy, Debug, PartialEq, Eq, Structural)]
pub enum JsonNumber {
    PosInt(u64),
    NegInt(i64),
    Float { bits: u64 },
}

/// A JSON value.
#[derive(Debug, PartialEq, Eq)]
pub enum Json {
    Null,
    Bool(bool),
    Number(JsonNumber),
    Str(String),
    Array(Vec<Json>),
    Object(JsonMap),
}

/// The members of a JSON object, in the order in which they are walked.
#[derive(Debug, PartialEq, Eq)]
pub struct JsonMap {
    pub entries: Vec<(String, Json)>,
}

/// What a JSON value says.
pub enum JsonView {
    Null,
    Bool(bool),
    Number(JsonNumber),
    Str(Seq<char>),
    Array(Seq<JsonView>),
    Object(Seq<(Seq<char>, JsonView)>),
}

/// The members of an object, in order.
pub type Members = Seq<(Seq<char>, JsonView)>;

impl Json {
    pub open spec fn model(self) -> JsonView
        decreases self,
    {
        match self {
            Json::Null => JsonView::Null,
            Json::Bool(b) => JsonView::Bool(b),
            Json::Number(n) => JsonView::Number(n),
            Json::Str(s) => JsonView::Str(s@),
            Json::Array(items) => JsonView::Array(
                Seq::new(
                    items@.len(),
                    |i: int|
                        if 0 <= i < items@.len() {
                            items@[i].model()
                        } else {
                            JsonView::Null
                        },
                ),
            ),
            Json::Object(map) => JsonView::Object(map.model()),
        }
    }
}

impl JsonMap {
    pub open spec fn model(self) -> Members
        decreases self,
    {
        Seq::new(
            self.entries@.len(),
            |i: int|
                if 0 <= i < self.entries@.len() {
                    (self.entries@[i].0@, self.entries@[i].1.model())
                } else {
                    (seq![], JsonView::Null)
                },
        )
    }
}

/// The value of the first member called `key`.
pub open spec fn lookup(members: Members, key: Seq<char>) -> Option<JsonView>
    decreases members.len(),
{
    if members.len() == 0 {
        None
    } else if members[0].0 == key {
        Some(members[0].1)
    } else {
        lookup(members.skip(1), key)
    }
}

/// No two members have the same key.
pub open spec fn unique_keys(members: Members) -> bool {
    forall|i: int, j: int| 0 <= i < j < members.len() ==> members[i].0 != members[j].0
}

/// The map that results from storing the members one after the other, so that of two members
/// with the same key the later one stays.
pub open spec fn as_map(members: Members) -> Map<Seq<char>, JsonView>
    decreases members.len(),
{
    if members.len() == 0 {
        Map::empty()
    } else {
        as_map(members.drop_last()).insert(members.last().0, members.last().1)
    }
}

impl View for Json {
    type V = JsonView;

    open spec fn view(&self) -> JsonView {
        self.model()
    }
}

impl View for JsonMap {
    type V = Members;

    open spec fn view(&self) -> Members {
        self.model()
    }
}

/// A copy of a list of values.
pub fn clone_items(items: &Vec<Json>) -> (r: Vec<Json>)
    ensures
        r@.len() == items@.len(),
        forall|j: int| 0 <= j < r@.len() ==> (#[trigger] r@[j])@ == items@[j]@,
    decreases items,
{
    let mut copy: Vec<Json> = Vec::new();
    for i in 0..items.len()
        invariant
            copy@.len() == i,
            forall|j: int| 0 <= j < i ==> (#[trigger] copy@[j])@ == items@[j]@,
    {
        copy.push(items[i].clone());
    }
    copy
}

impl Clone for Json {
    fn clone(&self) -> (r: Json)
        ensures
            r@ == self@,
        decreases self,
    {
        match self {
            Json::Null => Json::Null,
            Json::Bool(b) => Json::Bool(*b),
            Json::Number(n) => Json::Number(*n),
            Json::Str(s) => Json::Str(s.clone()),
            Json::Array(items) => {
                let copy: Vec<Json> = clone_items(items);
                let r = Json::Array(copy);
                assert(r@->Array_0 =~= self@->Array_0);
                r
            },
            Json::Object(map) => Json::Object(map.clone()),
        }
    }
}

impl Clone for JsonMap {
    fn clone(&self) -> (r: JsonMap)
        ensures
            r@ == self@,
        decreases self,
    {
        let mut entries: Vec<(String, Json)> = Vec::new();
        for i in 0..self.entries.len()
            invariant
                entries@.len() == i,
                forall|j: int|
                    0 <= j < i ==> (#[trigger] entries@[j]).0@ == self.entries@[j].0@
                        && entries@[j].1@ == self.entries@[j].1@,
        {
            entries.push((self.entries[i].0.clone(), self.entries[i].1.clone()));
        }
        let r = JsonMap { entries };
        assert(r@ =~= self@);
        r
    }
}

proof fn lemma_lookup_skips(members: Members, key: Seq<char>, n: int)
    requires
        0 <= n <= members.len(),
        forall|j: int| 0 <= j < n ==> (#[trigger] members[j]).0 != key,
    ensures
        lookup(members, key) == lookup(members.skip(n), key),
    decreases n,
{
    if n == 0 {
        assert(members.skip(0) =~= members);
    } else {
        let rest = members.skip(1);
        assert forall|j: int| 0 <= j < n - 1 implies (#[trigger] rest[j]).0 != key by {
            assert(rest[j] == members[j + 1]);
        }
        lemma_lookup_skips(rest, key, n - 1);
        assert(rest.skip(n - 1) =~= members.skip(n));
    }
}

/// Replacing the value of a member updates the map under that member's key.
proof fn lemma_as_map_update(members: Members, at: int, value: JsonView)
    requires
        unique_keys(members),
        0 <= at < members.len(),
    ensures
        unique_keys(members.update(at, (members[at].0, value))),
        as_map(members.update(at, (members[at].0, value))) == as_map(members).insert(
            members[at].0,
            value,
        ),
    decreases members.len(),
{
    let key = members[at].0;
    let updated = members.update(at, (key, value));
    assert forall|i: int, j: int| 0 <= i < j < updated.len() implies updated[i].0 != updated[j].0 by {
        assert(members[i].0 != members[j].0);
    }
    let front = members.drop_last();
    if at == members.len() - 1 {
        assert(updated.drop_last() =~= front);
        assert(as_map(updated) =~= as_map(members).insert(key, value));
    } else {
        assert forall|i: int, j: int| 0 <= i < j < front.len() implies front[i].0 != front[j].0 by {
            assert(members[i].0 != members[j].0);
        }
        lemma_as_map_update(front, at, value);
        assert(updated.drop_last() =~= front.update(at, (key, value)));
        assert(members[at].0 != members[members.len() - 1].0);
        assert(as_map(updated) =~= as_map(members).insert(key, value));
    }
}

impl JsonMap {
    /// An object without members.
    pub fn new() -> (r: JsonMap)
        ensures
            r@ == Seq::<(Seq<char>, JsonView)>::empty(),
    {
        let r = JsonMap { entries: Vec::new() };
        assert(r@ =~= seq![]);
        r
    }

    /// Adds a member behind the others.
    pub fn push(&mut self, key: String, value: Json)
        ensures
            final(self)@ == old(self)@.push((key@, value@)),
    {
        let ghost before = self@;
        self.entries.push((key, value));
        assert(self@ =~= before.push((key@, value@)));
    }

    /// The value of the first member called `key`.
    pub fn get(&self, key: &str) -> (r: Option<&Json>)
        ensures
            match r {
                Some(value) => lookup(self@, key@) == Some(value@),
                None => lookup(self@, key@) is None,
            },
    {
        for i in 0..self.entries.len()
            invariant
                forall|j: int| 0 <= j < i ==> (#[trigger] self@[j]).0 != key@,
        {
            assert(self@[i as int] == (self.entries@[i as int].0@, self.entries@[i as int].1@));
            proof {
                lemma_lookup_skips(self@, key@, i as int);
                assert(self@.skip(i as int)[0] == self@[i as int]);
            }
            if same_text(self.entries[i].0.as_str(), key) {
                return Some(&self.entries[i].1);
            }
        }
        proof {
            lemma_lookup_skips(self@, key@, self@.len() as int);
        }
        None
    }

    /// Stores `value` under `key`, in place of the value that was there.
    pub fn insert(&mut self, key: String, value: Json)
        requires
            unique_keys(old(self)@),
        ensures
            unique_keys(final(self)@),
            as_map(final(self)@) == as_map(old(self)@).insert(key@, value@),
    {
        let ghost before = self@;
        let count: usize = self.entries.len();
        for i in 0..count
            invariant
                count == self.entries@.len(),
                self@ == before,
                old(self)@ == before,
                unique_keys(before),
                forall|j: int| 0 <= j < i ==> (#[trigger] before[j]).0 != key@,
        {
            assert(before[i as int] == (self.entries@[i as int].0@, self.entries@[i as int].1@));
            if same_text(self.entries[i].0.as_str(), key.as_str()) {
                self.entries[i] = (key, value);
                proof {
                    lemma_as_map_update(before, i as int, value@);
                    assert(self@ =~= before.update(i as int, (key@, value@)));
                }
                return ;
            }
        }
        self.push(key, value);
        assert(self@.drop_last() =~= before);
    }
}

proof fn lemma_lookup_misses(members: Members, key: Seq<char>, i: int)
    requires
        lookup(members, key) is None,
        0 <= i < members.len(),
    ensures
        members[i].0 != key,
    decreases members.len(),
{
    if i > 0 {
        lemma_lookup_misses(members.skip(1), key, i - 1);
        assert(members.skip(1)[i - 1] == members[i]);
    }
}

/// A lookup finds a member exactly when one has the key.
pub proof fn law_lookup_finds_keys(members: Members, key: Seq<char>)
    ensures
        lookup(members, key) is Some <==> exists|i: int|
            0 <= i < members.len() && (#[trigger] members[i]).0 == key,
{
    if lookup(members, key) is None {
        assert forall|i: int| 0 <= i < members.len() implies (#[trigger] members[i]).0 != key by {
            lemma_lookup_misses(members, key, i);
        }
    } else if forall|i: int| 0 <= i < members.len() ==> (#[trigger] members[i]).0 != key {
        lemma_lookup_skips(members, key, members.len() as int);
    }
}

/// A lookup finds the first member that has the key.
pub proof fn law_lookup_finds_first(members: Members, key: Seq<char>, i: int)
    requires
        0 <= i < members.len(),
        members[i].0 == key,
        forall|j: int| 0 <= j < i ==> (#[trigger] members[j]).0 != key,
    ensures
        lookup(members, key) == Some(members[i].1),
{
    lemma_lookup_skips(members, key, i);
    assert(members.skip(i)[0] == members[i]);
}

/// A map of members has exactly the keys of the members, and under each the value of the last
/// member that has it.
pub proof fn law_map_keeps_last(members: Members, key: Seq<char>)
    ensures
        as_map(members).dom().contains(key) <==> exists|i: int|
            0 <= i < members.len() && (#[trigger] members[i]).0 == key,
        forall|i: int|
            0 <= i < members.len() && (#[trigger] members[i]).0 == key && (forall|j: int|
                i < j < members.len() ==> (#[trigger] members[j]).0 != key) ==> as_map(members)[key]
                == members[i].1,
    decreases members.len(),
{
    if members.len() > 0 {
        let front = members.drop_last();
        let last = members.len() - 1;
        law_map_keeps_last(front, key);
        if members[last].0 != key {
            if as_map(members).dom().contains(key) {
                let i = choose|i: int| 0 <= i < front.len() && (#[trigger] front[i]).0 == key;
                assert(members[i] == front[i]);
            }
            if exists|i: int| 0 <= i < members.len() && (#[trigger] members[i]).0 == key {
                let i = choose|i: int| 0 <= i < members.len() && (#[trigger] members[i]).0 == key;
                assert(front[i] == members[i]);
            }
            assert forall|i: int|
                0 <= i < members.len() && (#[trigger] members[i]).0 == key && (forall|j: int|
                    i < j < members.len() ==> (#[trigger] members[j]).0 != key) implies as_map(
                members,
            )[key] == members[i].1 by {
                assert(front[i] == members[i]);
                assert forall|j: int| i < j < front.len() implies (#[trigger] front[j]).0 != key by {
                    assert(members[j] == front[j]);
                }
            }
        }
    }
}

/// The view of a list keeps its items, in order.
pub proof fn law_view_keeps_items(items: Vec<Json>, i: int)
    requires
        0 <= i < items@.len(),
    ensures
        Json::Array(items)@ is Array,
        Json::Array(items)@->Array_0.len() == items@.len(),
        Json::Array(items)@->Array_0[i] == items@[i]@,
{
}

/// The view of an object keeps its members, in order.
pub proof fn law_view_keeps_members(map: JsonMap, i: int)
    requires
        0 <= i < map.entries@.len(),
    ensures
        Json::Object(map)@ == JsonView::Object(map@),
        map@.len() == map.entries@.len(),
        map@[i] == (map.entries@[i].0@, map.entries@[i].1@),
{
}

/// The view of a value that is no list and no object keeps the value.
pub proof fn law_view_keeps_scalars(truth: bool, number: JsonNumber, text: String)
    ensures
        Json::Null@ == JsonView::Null,
        Json::Bool(truth)@ == JsonView::Bool(truth),
        Json::Number(number)@ == JsonView::Number(number),
        Json::Str(text)@ == JsonView::Str(text@),
{
}

} // verus!
