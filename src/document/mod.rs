//! ActivityPub documents: the JSON node tree that views read.
use vstd::prelude::*;

pub mod consts;
pub mod view;
pub mod vocabulary;

verus! {

/// A JSON number.
#[derive(Debug, Clone, PartialEq, Eq)]
pub enum JsonNumber {
    /// A non-negative integer.
    PosInt(u64),
    /// A negative integer.
    NegInt(i64),
    /// Any other number, in its decimal text form.
    Decimal(String),
}

impl JsonNumber {
    /// The number as a `u64`, where it is a whole number in that range.
    pub open spec fn spec_as_u64(self) -> Option<u64> {
        match self {
            JsonNumber::PosInt(n) => Some(n),
            JsonNumber::NegInt(n) => if n >= 0 {
                Some(n as u64)
            } else {
                None
            },
            JsonNumber::Decimal(_) => None,
        }
    }

    /// Returns the number as a `u64`, where it is a whole number in that range.
    pub fn as_u64(&self) -> (r: Option<u64>)
        ensures
            r == self.spec_as_u64(),
    {
        match self {
            JsonNumber::PosInt(n) => Some(*n),
            JsonNumber::NegInt(n) => if *n >= 0 {
                Some(*n as u64)
            } else {
                None
            },
            JsonNumber::Decimal(_) => None,
        }
    }
}

/// A node of a document: null, a boolean, a number, a string, an array or a map.
#[derive(Debug, PartialEq, Eq)]
pub enum JsonValue {
    /// `null`.
    Null,
    /// `true` or `false`.
    Bool(bool),
    /// A number.
    Number(JsonNumber),
    /// A string.
    String(String),
    /// An array of nodes.
    Array(Vec<JsonValue>),
    /// A map from string keys to nodes.
    Object(JsonObject),
}

/// A JSON map: string keys, each at most once, in insertion order.
#[derive(Debug, PartialEq, Eq)]
pub struct JsonObject {
    entries: Vec<(String, JsonValue)>,
}

/// Holds when entry `i` is the first one whose key is `key`.
pub open spec fn is_first_key(entries: Seq<(String, JsonValue)>, key: Seq<char>, i: int) -> bool {
    &&& 0 <= i < entries.len()
    &&& entries[i].0@ == key
    &&& forall|j: int| 0 <= j < i ==> entries[j].0@ != key
}

/// Holds when some entry has the key `key`.
pub open spec fn has_key(entries: Seq<(String, JsonValue)>, key: Seq<char>) -> bool {
    exists|i: int| 0 <= i < entries.len() && #[trigger] entries[i].0@ == key
}

/// The position of the entry under `key`.
pub open spec fn key_position(entries: Seq<(String, JsonValue)>, key: Seq<char>) -> int {
    choose|i: int| is_first_key(entries, key, i)
}

/// The node stored under `key`, if any.
pub open spec fn lookup(entries: Seq<(String, JsonValue)>, key: Seq<char>) -> Option<JsonValue> {
    if has_key(entries, key) {
        Some(entries[key_position(entries, key)].1)
    } else {
        None
    }
}

/// Reads a borrowed optional node as a node value.
pub open spec fn deref_opt(o: Option<&JsonValue>) -> Option<JsonValue> {
    match o {
        Some(v) => Some(*v),
        None => None,
    }
}

/// When entry `i` is the first one under `key`, a lookup of `key` finds that
/// entry's node.
pub proof fn lemma_first_key(entries: Seq<(String, JsonValue)>, key: Seq<char>, i: int)
    requires
        is_first_key(entries, key, i),
    ensures
        has_key(entries, key),
        key_position(entries, key) == i,
        lookup(entries, key) == Some(entries[i].1),
{
    assert(entries[i].0@ == key);
    let k = key_position(entries, key);
    assert(is_first_key(entries, key, k));
    if k < i {
        assert(entries[k].0@ != key);
    } else if i < k {
        assert(entries[i].0@ != key);
    }
}

/// When no entry has the key `key`, a lookup of `key` finds nothing.
pub proof fn lemma_no_key(entries: Seq<(String, JsonValue)>, key: Seq<char>)
    requires
        forall|j: int| 0 <= j < entries.len() ==> entries[j].0@ != key,
    ensures
        !has_key(entries, key),
        lookup(entries, key) is None,
{
}

impl JsonObject {
    /// The entries, in insertion order.
    pub closed spec fn entries(self) -> Seq<(String, JsonValue)> {
        self.entries@
    }

    /// The node stored under `key`, if any.
    pub open spec fn spec_get(self, key: Seq<char>) -> Option<JsonValue> {
        lookup(self.entries(), key)
    }

    /// No key occurs twice.
    #[verifier::type_invariant]
    closed spec fn keys_unique(self) -> bool {
        forall|i: int, j: int|
            0 <= i < j < self.entries@.len() ==> #[trigger] self.entries@[i].0@
                != #[trigger] self.entries@[j].0@
    }

    /// Creates an empty map.
    pub fn new() -> (r: Self)
        ensures
            r.entries() == Seq::<(String, JsonValue)>::empty(),
    {
        JsonObject { entries: Vec::new() }
    }

    /// Returns the number of entries.
    pub fn len(&self) -> (r: usize)
        ensures
            r == self.entries().len(),
    {
        self.entries.len()
    }

    /// Returns the entry at position `i`.
    pub fn entry(&self, i: usize) -> (r: (&str, &JsonValue))
        requires
            i < self.entries().len(),
        ensures
            r.0@ == self.entries()[i as int].0@,
            *r.1 == self.entries()[i as int].1,
    {
        let e = &self.entries[i];
        (e.0.as_str(), &e.1)
    }

    /// Finds the position of the entry under `key`.
    fn position(&self, key: &str) -> (r: Option<usize>)
        ensures
            r matches Some(i) ==> is_first_key(self.entries(), key@, i as int),
            r is None ==> forall|j: int|
                0 <= j < self.entries().len() ==> self.entries()[j].0@ != key@,
    {
        let mut i: usize = 0;
        while i < self.entries.len()
            invariant
                i <= self.entries@.len(),
                forall|j: int| 0 <= j < i ==> self.entries@[j].0@ != key@,
            decreases self.entries@.len() - i,
        {
            if str_eq(self.entries[i].0.as_str(), key) {
                return Some(i);
            }
            i = i + 1;
        }
        None
    }

    /// Returns the node stored under `key`, if any.
    pub fn get(&self, key: &str) -> (r: Option<&JsonValue>)
        ensures
            deref_opt(r) == self.spec_get(key@),
    {
        match self.position(key) {
            Some(i) => {
                proof {
                    lemma_first_key(self.entries(), key@, i as int);
                }
                Some(&self.entries[i].1)
            },
            None => {
                proof {
                    lemma_no_key(self.entries(), key@);
                }
                None
            },
        }
    }

    /// Stores `value` under `key`. An entry already under `key` keeps its
    /// position and gets the new value; otherwise the entry goes last.
    /// Returns the value that was replaced.
    pub fn insert(&mut self, key: String, value: JsonValue) -> (r: Option<JsonValue>)
        ensures
            has_key(old(self).entries(), key@) ==> {
                let i = key_position(old(self).entries(), key@);
                &&& final(self).entries() == old(self).entries().update(i, (key, value))
                &&& r == Some(old(self).entries()[i].1)
            },
            !has_key(old(self).entries(), key@) ==> {
                &&& final(self).entries() == old(self).entries().push((key, value))
                &&& r is None
            },
    {
        proof {
            use_type_invariant(&*self);
        }
        let pos = self.position(key.as_str());
        let ghost orig = self.entries();
        let mut taken = JsonObject::new();
        std::mem::swap(self, &mut taken);
        let JsonObject { mut entries } = taken;
        let ghost before = entries@;
        assert(before == orig);
        match pos {
            Some(i) => {
                proof {
                    lemma_first_key(before, key@, i as int);
                }
                let mut old_entry = (key, value);
                std::mem::swap(&mut entries[i], &mut old_entry);
                assert(entries@ =~= before.update(i as int, entries@[i as int]));
                *self = JsonObject { entries };
                Some(old_entry.1)
            },
            None => {
                proof {
                    lemma_no_key(before, key@);
                }
                entries.push((key, value));
                *self = JsonObject { entries };
                None
            },
        }
    }
}

impl JsonValue {
    /// The node stored under `key` when this node is a map; otherwise none.
    pub open spec fn spec_get(self, key: Seq<char>) -> Option<JsonValue> {
        match self {
            JsonValue::Object(m) => m.spec_get(key),
            _ => None,
        }
    }

    /// Returns the node stored under `key` when this node is a map.
    pub fn get(&self, key: &str) -> (r: Option<&JsonValue>)
        ensures
            deref_opt(r) == self.spec_get(key@),
    {
        match self {
            JsonValue::Object(m) => m.get(key),
            _ => None,
        }
    }
}

/// Compares two strings.
pub fn str_eq(a: &str, b: &str) -> (r: bool)
    ensures
        r == (a@ == b@),
{
    let x = a.as_bytes();
    let y = b.as_bytes();
    proof {
        vstd::utf8::encode_utf8_decode_utf8(a@);
        vstd::utf8::encode_utf8_decode_utf8(b@);
    }
    assert(a@ == b@ ==> x@ == y@);
    if x.len() != y.len() {
        return false;
    }
    let mut i: usize = 0;
    while i < x.len()
        invariant
            x@.len() == y@.len(),
            a@ == b@ ==> x@ == y@,
            i <= x@.len(),
            forall|j: int| 0 <= j < i ==> x@[j] == y@[j],
        decreases x@.len() - i,
    {
        if x[i] != y[i] {
            return false;
        }
        i = i + 1;
    }
    assert(x@ =~= y@);
    true
}

} // verus!
