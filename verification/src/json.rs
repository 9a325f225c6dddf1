//! A JSON document model held as plain values, and a string-keyed map of
//! JSON values used for metadata.

use vstd::prelude::*;
use crate::text::{str_eq, owned};

verus! {

/// A JSON number as the JSON reader classifies it: a non-negative integer,
/// a negative integer, or any other number kept in its textual form.
#[derive(Debug)]
pub enum JsonNumber {
    PosInt(u64),
    NegInt(i64),
    Float(String),
}

/// A JSON value. Object members keep the order in which they were read.
#[derive(Debug)]
pub enum JsonValue {
    Null,
    Bool(bool),
    Number(JsonNumber),
    String(String),
    Array(Vec<JsonValue>),
    Object(Vec<(String, JsonValue)>),
}

/// The mathematical content of a JSON number.
pub enum NumberData {
    PosInt(u64),
    NegInt(i64),
    Float(Seq<char>),
}

/// The mathematical content of a JSON value.
pub enum JsonData {
    Null,
    Bool(bool),
    Number(NumberData),
    Str(Seq<char>),
    Array(Seq<JsonData>),
    Object(Seq<(Seq<char>, JsonData)>),
}

impl DeepView for JsonNumber {
    type V = NumberData;

    open spec fn deep_view(&self) -> NumberData {
        match self {
            JsonNumber::PosInt(u) => NumberData::PosInt(*u),
            JsonNumber::NegInt(i) => NumberData::NegInt(*i),
            JsonNumber::Float(s) => NumberData::Float(s@),
        }
    }
}

/// The content of a JSON value.
pub open spec fn json_data(v: JsonValue) -> JsonData
    decreases v, 1int,
{
    match v {
        JsonValue::Null => JsonData::Null,
        JsonValue::Bool(b) => JsonData::Bool(b),
        JsonValue::Number(n) => JsonData::Number(n.deep_view()),
        JsonValue::String(s) => JsonData::Str(s@),
        JsonValue::Array(items) => JsonData::Array(json_seq_data(items@)),
        JsonValue::Object(members) => JsonData::Object(member_seq_data(members@)),
    }
}

/// The contents of a sequence of JSON values.
pub open spec fn json_seq_data(s: Seq<JsonValue>) -> Seq<JsonData>
    decreases s, 0int,
{
    if s.len() == 0 {
        Seq::empty()
    } else {
        json_seq_data(s.drop_last()).push(json_data(s.last()))
    }
}

/// The contents of a sequence of object members.
pub open spec fn member_seq_data(s: Seq<(String, JsonValue)>) -> Seq<(Seq<char>, JsonData)>
    decreases s, 0int,
{
    if s.len() == 0 {
        Seq::empty()
    } else {
        member_seq_data(s.drop_last()).push((s.last().0@, json_data(s.last().1)))
    }
}

impl DeepView for JsonValue {
    type V = JsonData;

    open spec fn deep_view(&self) -> JsonData {
        json_data(*self)
    }
}

/// The first member of `members` named `key`, if any.
pub open spec fn member_lookup(members: Seq<(Seq<char>, JsonData)>, key: Seq<char>) -> Option<JsonData>
    decreases members.len(),
{
    if members.len() == 0 {
        None
    } else if members[0].0 == key {
        Some(members[0].1)
    } else {
        member_lookup(members.drop_first(), key)
    }
}

proof fn lemma_json_seq_data_props(s: Seq<JsonValue>)
    ensures
        json_seq_data(s).len() == s.len(),
        forall|i: int| 0 <= i < s.len() ==> #[trigger] json_seq_data(s)[i] == json_data(s[i]),
    decreases s.len(),
{
    if s.len() > 0 {
        lemma_json_seq_data_props(s.drop_last());
    }
}

pub(crate) proof fn lemma_member_seq_data_props(s: Seq<(String, JsonValue)>)
    ensures
        member_seq_data(s).len() == s.len(),
        forall|i: int| 0 <= i < s.len() ==> #[trigger] member_seq_data(s)[i] == (s[i].0@, json_data(s[i].1)),
    decreases s.len(),
{
    if s.len() > 0 {
        lemma_member_seq_data_props(s.drop_last());
    }
}

proof fn lemma_json_seq_data_ext(a: Seq<JsonValue>, b: Seq<JsonValue>)
    requires
        a.len() == b.len(),
        forall|i: int| 0 <= i < a.len() ==> json_data(#[trigger] a[i]) == json_data(b[i]),
    ensures
        json_seq_data(a) == json_seq_data(b),
{
    lemma_json_seq_data_props(a);
    lemma_json_seq_data_props(b);
    assert(json_seq_data(a) =~= json_seq_data(b));
}

proof fn lemma_member_seq_data_ext(a: Seq<(String, JsonValue)>, b: Seq<(String, JsonValue)>)
    requires
        a.len() == b.len(),
        forall|i: int| 0 <= i < a.len() ==> (#[trigger] a[i]).0@ == b[i].0@ && json_data(a[i].1) == json_data(b[i].1),
    ensures
        member_seq_data(a) == member_seq_data(b),
{
    lemma_member_seq_data_props(a);
    lemma_member_seq_data_props(b);
    assert(member_seq_data(a) =~= member_seq_data(b));
}

proof fn lemma_member_lookup_skip(m: Seq<(String, JsonValue)>, i: int, key: Seq<char>)
    requires
        0 <= i < m.len(),
    ensures
        member_lookup(member_seq_data(m.skip(i)), key) == if m[i].0@ == key {
            Some(json_data(m[i].1))
        } else {
            member_lookup(member_seq_data(m.skip(i + 1)), key)
        },
{
    lemma_member_seq_data_props(m.skip(i));
    lemma_member_seq_data_props(m.skip(i + 1));
    assert(member_seq_data(m.skip(i)).drop_first() =~= member_seq_data(m.skip(i + 1)));
}

impl Clone for JsonNumber {
    fn clone(&self) -> (r: Self)
        ensures
            r.deep_view() == self.deep_view(),
    {
        match self {
            JsonNumber::PosInt(u) => JsonNumber::PosInt(*u),
            JsonNumber::NegInt(i) => JsonNumber::NegInt(*i),
            JsonNumber::Float(s) => JsonNumber::Float(s.clone()),
        }
    }
}

impl Clone for JsonValue {
    fn clone(&self) -> (r: Self)
        ensures
            r.deep_view() == self.deep_view(),
        decreases self,
    {
        match self {
            JsonValue::Null => JsonValue::Null,
            JsonValue::Bool(b) => JsonValue::Bool(*b),
            JsonValue::Number(n) => JsonValue::Number(n.clone()),
            JsonValue::String(s) => JsonValue::String(s.clone()),
            JsonValue::Array(items) => {
                let mut out: Vec<JsonValue> = Vec::new();
                let mut i: usize = 0;
                while i < items.len()
                    invariant
                        i <= items.len(),
                        out@.len() == i,
                        *self == JsonValue::Array(*items),
                        forall|j: int| 0 <= j < i ==> json_data(#[trigger] out@[j]) == json_data(items@[j]),
                    decreases items.len() - i,
                {
                    proof {
                        broadcast use vstd::std_specs::vec::axiom_vec_index_decreases;
                        assert(*self == JsonValue::Array(*items));
                        assert(decreases_to!(*self => self->Array_0));
                        assert(decreases_to!(*items => items[i as int]));
                    }
                    out.push(items[i].clone());
                    i = i + 1;
                }
                proof {
                    lemma_json_seq_data_ext(out@, items@);
                }
                JsonValue::Array(out)
            },
            JsonValue::Object(members) => {
                let mut out: Vec<(String, JsonValue)> = Vec::new();
                let mut i: usize = 0;
                while i < members.len()
                    invariant
                        i <= members.len(),
                        out@.len() == i,
                        *self == JsonValue::Object(*members),
                        forall|j: int| 0 <= j < i ==> (#[trigger] out@[j]).0@ == members@[j].0@
                            && json_data(out@[j].1) == json_data(members@[j].1),
                    decreases members.len() - i,
                {
                    proof {
                        broadcast use vstd::std_specs::vec::axiom_vec_index_decreases;
                        assert(*self == JsonValue::Object(*members));
                        assert(decreases_to!(*self => self->Object_0));
                        assert(decreases_to!(*members => members[i as int]));
                        assert(decreases_to!(members[i as int] => members[i as int].1));
                    }
                    let k = members[i].0.clone();
                    let v = members[i].1.clone();
                    out.push((k, v));
                    i = i + 1;
                }
                proof {
                    lemma_member_seq_data_ext(out@, members@);
                }
                JsonValue::Object(out)
            },
        }
    }
}

impl JsonData {
    /// The member of an object named `key`; `None` for absent members and
    /// for values that are not objects.
    pub open spec fn get(self, key: Seq<char>) -> Option<JsonData> {
        match self {
            JsonData::Object(members) => member_lookup(members, key),
            _ => None,
        }
    }

    /// The text of a JSON string.
    pub open spec fn as_str(self) -> Option<Seq<char>> {
        match self {
            JsonData::Str(s) => Some(s),
            _ => None,
        }
    }

    /// The value of a JSON integer that fits in an `i64`.
    pub open spec fn as_i64(self) -> Option<i64> {
        match self {
            JsonData::Number(NumberData::PosInt(u)) => if u <= i64::MAX as u64 {
                Some(u as i64)
            } else {
                None
            },
            JsonData::Number(NumberData::NegInt(i)) => Some(i),
            _ => None,
        }
    }
}

impl JsonValue {
    /// Looks up a member of an object by name.
    pub fn get(&self, key: &str) -> (r: Option<&JsonValue>)
        ensures
            r is Some == self.deep_view().get(key@) is Some,
            r is Some ==> r->0.deep_view() == self.deep_view().get(key@)->0,
    {
        match self {
            JsonValue::Object(members) => {
                let mut i: usize = 0;
                proof {
                    assert(members@.skip(0) =~= members@);
                }
                while i < members.len()
                    invariant
                        i <= members.len(),
                        self.deep_view().get(key@) == member_lookup(member_seq_data(members@.skip(i as int)), key@),
                        *self == JsonValue::Object(*members),
                    decreases members.len() - i,
                {
                    proof {
                        lemma_member_lookup_skip(members@, i as int, key@);
                    }
                    if str_eq(members[i].0.as_str(), key) {
                        return Some(&members[i].1);
                    }
                    i = i + 1;
                }
                proof {
                    assert(members@.skip(i as int).len() == 0);
                }
                None
            },
            _ => None,
        }
    }

    /// The text of a JSON string; `None` for other values.
    pub fn as_str(&self) -> (r: Option<&str>)
        ensures
            r is Some == self.deep_view().as_str() is Some,
            r is Some ==> r->0@ == self.deep_view().as_str()->0,
    {
        match self {
            JsonValue::String(s) => Some(s.as_str()),
            _ => None,
        }
    }

    /// The value of a JSON integer that fits in an `i64`; `None` otherwise.
    pub fn as_i64(&self) -> (r: Option<i64>)
        ensures
            r == self.deep_view().as_i64(),
    {
        match self {
            JsonValue::Number(JsonNumber::PosInt(u)) => if *u <= i64::MAX as u64 {
                Some(*u as i64)
            } else {
                None
            },
            JsonValue::Number(JsonNumber::NegInt(i)) => Some(*i),
            _ => None,
        }
    }

    /// A JSON string holding a copy of `s`.
    pub fn string(s: &str) -> (r: JsonValue)
        ensures
            r.deep_view() == JsonData::Str(s@),
    {
        JsonValue::String(owned(s))
    }

    /// A JSON integer.
    pub fn from_i64(n: i64) -> (r: JsonValue)
        ensures
            r.deep_view().as_i64() == Some(n),
            r.deep_view() == (if n >= 0 {
                JsonData::Number(NumberData::PosInt(n as u64))
            } else {
                JsonData::Number(NumberData::NegInt(n))
            }),
    {
        if n >= 0 {
            JsonValue::Number(JsonNumber::PosInt(n as u64))
        } else {
            JsonValue::Number(JsonNumber::NegInt(n))
        }
    }
}

/// A map from string keys to JSON values with at most one entry per key,
/// such as the metadata attached to messages, tasks and events.
#[derive(Debug)]
pub struct Metadata {
    entries: Vec<(String, JsonValue)>,
}

/// No key occurs twice in an entry list.
pub open spec fn keys_distinct(entries: Seq<(String, JsonValue)>) -> bool {
    forall|i: int, j: int| 0 <= i < j < entries.len() ==> entries[i].0@ != entries[j].0@
}

/// The elements of the first `n` positions of a sequence.
pub open spec fn seq_prefix_set<A>(s: Seq<A>, n: int) -> Set<A> {
    Set::new(|x: A| exists|j: int| 0 <= j < n && s[j] == x)
}

/// The map that an entry list denotes.
pub open spec fn entries_map(entries: Seq<(String, JsonValue)>) -> Map<Seq<char>, JsonData>
    decreases entries.len(),
{
    if entries.len() == 0 {
        Map::empty()
    } else {
        entries_map(entries.drop_last()).insert(entries.last().0@, json_data(entries.last().1))
    }
}

proof fn lemma_entries_map_dom(entries: Seq<(String, JsonValue)>, k: Seq<char>)
    ensures
        entries_map(entries).contains_key(k) <==> exists|i: int| 0 <= i < entries.len() && entries[i].0@ == k,
    decreases entries.len(),
{
    if entries.len() > 0 {
        lemma_entries_map_dom(entries.drop_last(), k);
        if entries_map(entries).contains_key(k) && entries.last().0@ != k {
            let i = choose|i: int| 0 <= i < entries.len() - 1 && entries.drop_last()[i].0@ == k;
            assert(entries[i].0@ == k);
        }
        if exists|i: int| 0 <= i < entries.len() && entries[i].0@ == k {
            let i = choose|i: int| 0 <= i < entries.len() && entries[i].0@ == k;
            if i < entries.len() - 1 {
                assert(entries.drop_last()[i].0@ == k);
            }
        }
    }
}

proof fn lemma_entries_map_update(entries: Seq<(String, JsonValue)>, i: int, e: (String, JsonValue))
    requires
        keys_distinct(entries),
        0 <= i < entries.len(),
        e.0@ == entries[i].0@,
    ensures
        entries_map(entries.update(i, e)) == entries_map(entries).insert(e.0@, json_data(e.1)),
    decreases entries.len(),
{
    let e2 = entries.update(i, e);
    if i == entries.len() - 1 {
        assert(e2.drop_last() =~= entries.drop_last());
        lemma_entries_map_dom(entries.drop_last(), entries[i].0@);
        assert(entries_map(e2) =~= entries_map(entries).insert(e.0@, json_data(e.1)));
    } else {
        lemma_entries_map_update(entries.drop_last(), i, e);
        assert(e2.drop_last() =~= entries.drop_last().update(i, e));
        assert(entries_map(e2) =~= entries_map(entries).insert(e.0@, json_data(e.1)));
    }
}

proof fn lemma_entries_map_ext(a: Seq<(String, JsonValue)>, b: Seq<(String, JsonValue)>)
    requires
        a.len() == b.len(),
        forall|i: int| 0 <= i < a.len() ==> (#[trigger] a[i]).0@ == b[i].0@ && json_data(a[i].1) == json_data(b[i].1),
    ensures
        entries_map(a) == entries_map(b),
        keys_distinct(a) ==> keys_distinct(b),
    decreases a.len(),
{
    if a.len() > 0 {
        lemma_entries_map_ext(a.drop_last(), b.drop_last());
    }
    if keys_distinct(a) {
        assert forall|i: int, j: int| 0 <= i < j < b.len() implies b[i].0@ != b[j].0@ by {
            assert(a[i].0@ != a[j].0@);
        }
    }
}

impl Metadata {
    /// Well-formedness: no key occurs twice.
    #[verifier::type_invariant]
    closed spec fn inv(&self) -> bool {
        keys_distinct(self.entries@)
    }

    /// The metadata as a mathematical map.
    pub closed spec fn view(&self) -> Map<Seq<char>, JsonData> {
        entries_map(self.entries@)
    }

    /// The keys in the order in which they were first inserted.
    pub closed spec fn key_seq(&self) -> Seq<Seq<char>> {
        self.entries@.map_values(|e: (String, JsonValue)| e.0@)
    }

    /// An empty map.
    pub fn new() -> (r: Self)
        ensures
            r.view() == Map::<Seq<char>, JsonData>::empty(),
            r.key_seq().len() == 0,
    {
        let r = Metadata { entries: Vec::new() };
        assert(r.view() =~= Map::<Seq<char>, JsonData>::empty());
        r
    }

    /// The number of entries.
    pub fn len(&self) -> (r: usize)
        ensures
            r == self.key_seq().len(),
    {
        self.entries.len()
    }

    /// The key and value at position `i`, in insertion order.
    pub fn entry(&self, i: usize) -> (r: (&String, &JsonValue))
        requires
            i < self.key_seq().len(),
        ensures
            r.0@ == self.key_seq()[i as int],
            self.view().contains_key(r.0@),
            self.view()[r.0@] == r.1.deep_view(),
    {
        proof {
            use_type_invariant(self);
            self.lemma_value_at(i as int);
        }
        (&self.entries[i].0, &self.entries[i].1)
    }

    proof fn lemma_keys(&self)
        requires
            keys_distinct(self.entries@),
        ensures
            forall|k: Seq<char>| self.view().contains_key(k) <==> self.key_seq().contains(k),
    {
        assert forall|k: Seq<char>| self.view().contains_key(k) <==> self.key_seq().contains(k) by {
            lemma_entries_map_dom(self.entries@, k);
            if self.key_seq().contains(k) {
                let i = choose|i: int| 0 <= i < self.key_seq().len() && self.key_seq()[i] == k;
                assert(self.entries@[i].0@ == k);
            }
            if self.view().contains_key(k) {
                let i = choose|i: int| 0 <= i < self.entries@.len() && self.entries@[i].0@ == k;
                assert(self.key_seq()[i] == k);
            }
        }
    }

    /// Copies every entry of `other` into this map, replacing the values of
    /// keys that both maps hold.
    pub fn merge_from(&mut self, other: &Metadata)
        ensures
            final(self).view() == old(self).view().union_prefer_right(other.view()),
    {
        proof {
            use_type_invariant(other);
            other.lemma_keys();
        }
        let n = other.len();
        let mut i: usize = 0;
        while i < n
            invariant
                n == other.key_seq().len(),
                i <= n,
                forall|k: Seq<char>| other.view().contains_key(k) <==> other.key_seq().contains(k),
                self.view() == old(self).view().union_prefer_right(
                    other.view().restrict(seq_prefix_set(other.key_seq(), i as int)),
                ),
            decreases n - i,
        {
            let (k, v) = other.entry(i);
            let ghost before = self.view();
            let kc = k.clone();
            let vc = v.clone();
            self.insert(kc, vc);
            proof {
                let s = other.key_seq();
                assert(seq_prefix_set(s, i + 1) =~= seq_prefix_set(s, i as int).insert(k@)) by {
                    assert forall|x: Seq<char>| seq_prefix_set(s, i as int).insert(k@).contains(x) implies
                        seq_prefix_set(s, i + 1).contains(x) by {
                        if x == k@ {
                            assert(s[i as int] == x);
                        } else {
                            let j = choose|j: int| 0 <= j < i && s[j] == x;
                            assert(0 <= j < i + 1 && s[j] == x);
                        }
                    }
                }
                assert(self.view() =~= old(self).view().union_prefer_right(
                    other.view().restrict(seq_prefix_set(s, i + 1)),
                ));
            }
            i = i + 1;
        }
        proof {
            let s = other.key_seq();
            assert forall|x: Seq<char>| other.view().contains_key(x) implies seq_prefix_set(s, n as int).contains(x) by {
                assert(s.contains(x));
                let j = choose|j: int| 0 <= j < s.len() && s[j] == x;
                assert(0 <= j < n && s[j] == x);
            }
            assert(other.view().restrict(seq_prefix_set(s, n as int)) =~= other.view());
        }
    }

    /// The value stored under `key`.
    pub fn get(&self, key: &str) -> (r: Option<&JsonValue>)
        ensures
            r is Some == self.view().contains_key(key@),
            r is Some ==> r->0.deep_view() == self.view()[key@],
    {
        proof {
            use_type_invariant(self);
        }
        let mut i: usize = 0;
        while i < self.entries.len()
            invariant
                keys_distinct(self.entries@),
                i <= self.entries.len(),
                forall|j: int| 0 <= j < i ==> self.entries@[j].0@ != key@,
            decreases self.entries.len() - i,
        {
            if str_eq(self.entries[i].0.as_str(), key) {
                proof {
                    self.lemma_value_at(i as int);
                }
                return Some(&self.entries[i].1);
            }
            i = i + 1;
        }
        proof {
            lemma_entries_map_dom(self.entries@, key@);
        }
        None
    }

    proof fn lemma_value_at(&self, i: int)
        requires
            keys_distinct(self.entries@),
            0 <= i < self.entries@.len(),
        ensures
            self.view().contains_key(self.entries@[i].0@),
            self.view()[self.entries@[i].0@] == json_data(self.entries@[i].1),
    {
        let e = self.entries@;
        lemma_entries_map_update(e, i, e[i]);
        assert(e.update(i, e[i]) =~= e);
    }

    /// Inserts or replaces the value stored under `key`; a new key goes
    /// after the existing ones.
    pub fn insert(&mut self, key: String, value: JsonValue)
        ensures
            final(self).view() == old(self).view().insert(key@, value.deep_view()),
    {
        proof {
            use_type_invariant(&*self);
        }
        let mut entries: Vec<(String, JsonValue)> = Vec::new();
        std::mem::swap(&mut entries, &mut self.entries);
        let ghost before = entries@;
        let ghost kv = key@;
        let ghost vd = value.deep_view();
        let mut i: usize = 0;
        let mut found = false;
        while i < entries.len() && !found
            invariant
                entries@ == before,
                keys_distinct(before),
                kv == key@,
                i <= entries.len(),
                found ==> i < entries.len() && before[i as int].0@ == kv,
                forall|j: int| 0 <= j < i ==> before[j].0@ != kv,
            decreases entries.len() - i + (if found { 0int } else { 1int }),
        {
            if str_eq(entries[i].0.as_str(), key.as_str()) {
                found = true;
            } else {
                i = i + 1;
            }
        }
        if found {
            entries.set(i, (key, value));
            proof {
                lemma_entries_map_update(before, i as int, entries@[i as int]);
                assert(entries@ =~= before.update(i as int, entries@[i as int]));
                assert forall|a: int, b: int| 0 <= a < b < entries@.len() implies
                    entries@[a].0@ != entries@[b].0@ by {
                    assert(entries@[a].0@ == before[a].0@);
                    assert(entries@[b].0@ == before[b].0@);
                }
            }
        } else {
            entries.push((key, value));
            proof {
                assert(entries@.drop_last() =~= before);
                lemma_entries_map_dom(before, kv);
            }
        }
        self.entries = entries;
    }
}

impl Clone for Metadata {
    fn clone(&self) -> (r: Self)
        ensures
            r.view() == self.view(),
            r.key_seq() == self.key_seq(),
    {
        proof {
            use_type_invariant(self);
        }
        let mut out: Vec<(String, JsonValue)> = Vec::new();
        let mut i: usize = 0;
        while i < self.entries.len()
            invariant
                i <= self.entries.len(),
                out@.len() == i,
                forall|j: int| 0 <= j < i ==> (#[trigger] out@[j]).0@ == self.entries@[j].0@
                    && json_data(out@[j].1) == json_data(self.entries@[j].1),
            decreases self.entries.len() - i,
        {
            let k = self.entries[i].0.clone();
            let v = self.entries[i].1.clone();
            out.push((k, v));
            i = i + 1;
        }
        proof {
            lemma_entries_map_ext(self.entries@, out@);
        }
        let r = Metadata { entries: out };
        assert(r.key_seq() =~= self.key_seq());
        r
    }
}

impl DeepView for Metadata {
    type V = Map<Seq<char>, JsonData>;

    open spec fn deep_view(&self) -> Map<Seq<char>, JsonData> {
        self.view()
    }
}

} // verus!
