//! The settings of a native object: named values, in the order in which they
//! were first set.

use crate::utils::obs_string::ObsString;
use vstd::prelude::*;
use vstd::string::*;

verus! {

/// One value of a settings record.
#[derive(Clone, Debug)]
pub enum ObsDataValue {
    /// A whole number.
    Int(i64),
    /// A switch.
    Bool(bool),
    /// A piece of text.
    Text(String),
}

/// A value as the contracts see it.
pub enum ObsValueView {
    Int(i64),
    Bool(bool),
    Text(Seq<char>),
}

impl View for ObsDataValue {
    type V = ObsValueView;

    open spec fn view(&self) -> ObsValueView {
        match self {
            ObsDataValue::Int(v) => ObsValueView::Int(*v),
            ObsDataValue::Bool(v) => ObsValueView::Bool(*v),
            ObsDataValue::Text(v) => ObsValueView::Text(v@),
        }
    }
}

/// A settings record as the contracts see it: names with their values.
pub type Entries = Seq<(Seq<char>, ObsValueView)>;

/// Whether `entries` holds a value under the name `key`.
pub open spec fn has_key(entries: Entries, key: Seq<char>) -> bool {
    exists|i: int| 0 <= i < entries.len() && (#[trigger] entries[i]).0 == key
}

/// `at` is the first place at which `entries` holds the name `key`.
pub open spec fn is_first_index(entries: Entries, key: Seq<char>, at: int) -> bool {
    &&& 0 <= at < entries.len()
    &&& entries[at].0 == key
    &&& forall|j: int| 0 <= j < at ==> (#[trigger] entries[j]).0 != key
}

/// The first place at which `entries` holds the name `key`.
pub open spec fn index_of_key(entries: Entries, key: Seq<char>) -> int {
    choose|at: int| is_first_index(entries, key, at)
}

/// No name stands twice in `entries`.
pub open spec fn distinct_keys(entries: Entries) -> bool {
    forall|i: int, j: int|
        0 <= i < j < entries.len() ==> (#[trigger] entries[i]).0 != (#[trigger] entries[j]).0
}

/// The value that `entries` holds under the name `key`.
pub open spec fn lookup(entries: Entries, key: Seq<char>) -> Option<ObsValueView> {
    if has_key(entries, key) {
        Some(entries[index_of_key(entries, key)].1)
    } else {
        None
    }
}

/// `entries` with `value` under the name `key`: in the place of the value
/// that stood under that name, or behind all others where none did.
pub open spec fn with_entry(entries: Entries, key: Seq<char>, value: ObsValueView) -> Entries {
    if has_key(entries, key) {
        entries.update(index_of_key(entries, key), (key, value))
    } else {
        entries.push((key, value))
    }
}

#[derive(Debug)]
struct ObsEntry {
    key: String,
    value: ObsDataValue,
}

impl View for ObsEntry {
    type V = (Seq<char>, ObsValueView);

    closed spec fn view(&self) -> (Seq<char>, ObsValueView) {
        (self.key@, self.value@)
    }
}

/// The settings of a native object.
#[derive(Debug)]
pub struct ObsData {
    entries: Vec<ObsEntry>,
}

impl View for ObsData {
    type V = Entries;

    closed spec fn view(&self) -> Entries {
        Seq::new(self.entries@.len(), |i: int| self.entries@[i]@)
    }
}

fn value_copy(value: &ObsDataValue) -> (copy: ObsDataValue)
    ensures
        copy@ == value@,
{
    match value {
        ObsDataValue::Int(v) => ObsDataValue::Int(*v),
        ObsDataValue::Bool(v) => ObsDataValue::Bool(*v),
        ObsDataValue::Text(v) => ObsDataValue::Text(v.clone()),
    }
}

fn value_eq(a: &ObsDataValue, b: &ObsDataValue) -> (same: bool)
    ensures
        same == (a@ == b@),
{
    match a {
        ObsDataValue::Int(x) => match b {
            ObsDataValue::Int(y) => *x == *y,
            _ => false,
        },
        ObsDataValue::Bool(x) => match b {
            ObsDataValue::Bool(y) => *x == *y,
            _ => false,
        },
        ObsDataValue::Text(x) => match b {
            ObsDataValue::Text(y) => *x == *y,
            _ => false,
        },
    }
}

impl ObsData {
    /// A record without settings.
    pub fn new() -> (data: ObsData)
        ensures
            data@ == Seq::<(Seq<char>, ObsValueView)>::empty(),
    {
        let data = ObsData { entries: Vec::new() };
        assert(data@ =~= Seq::<(Seq<char>, ObsValueView)>::empty());
        data
    }

    /// How many settings the record holds.
    pub fn len(&self) -> (n: usize)
        ensures
            n == self@.len(),
    {
        self.entries.len()
    }

    fn position(&self, key: &String) -> (at: Option<usize>)
        ensures
            match at {
                Some(i) => has_key(self@, key@) && i == index_of_key(self@, key@) && i
                    < self@.len(),
                None => !has_key(self@, key@),
            },
    {
        let mut i: usize = 0;
        while i < self.entries.len()
            invariant
                i <= self.entries.len(),
                forall|k: int| 0 <= k < i ==> (#[trigger] self@[k]).0 != key@,
            decreases self.entries.len() - i,
        {
            if self.entries[i].key == *key {
                proof {
                    assert(self@[i as int].0 == key@);
                    lemma_first_index(self@, key@, i as int);
                }
                return Some(i);
            }
            i += 1;
        }
        None
    }

    /// Puts `value` under the name `key`.
    pub fn set(&mut self, key: &str, value: ObsDataValue)
        ensures
            final(self)@ == with_entry(old(self)@, key@, value@),
    {
        let owned = key.to_string();
        let ghost before = self@;
        match self.position(&owned) {
            Some(i) => {
                let _ = self.entries.remove(i);
                self.entries.insert(i, ObsEntry { key: owned, value });
                assert(self@ =~= before.update(i as int, (key@, value@)));
            },
            None => {
                self.entries.push(ObsEntry { key: owned, value });
                assert(self@ =~= before.push((key@, value@)));
            },
        }
    }

    /// Puts the number `value` under the name `key`.
    pub fn set_int(&mut self, key: &str, value: i64)
        ensures
            final(self)@ == with_entry(old(self)@, key@, ObsValueView::Int(value)),
    {
        self.set(key, ObsDataValue::Int(value))
    }

    /// Puts the switch `value` under the name `key`.
    pub fn set_bool(&mut self, key: &str, value: bool)
        ensures
            final(self)@ == with_entry(old(self)@, key@, ObsValueView::Bool(value)),
    {
        self.set(key, ObsDataValue::Bool(value))
    }

    /// Puts the text `value` under the name `key`.
    pub fn set_string(&mut self, key: &str, value: &str)
        ensures
            final(self)@ == with_entry(old(self)@, key@, ObsValueView::Text(value@)),
    {
        self.set(key, ObsDataValue::Text(value.to_string()))
    }

    /// The value under the name `key`.
    pub fn get(&self, key: &str) -> (value: Option<ObsDataValue>)
        ensures
            match value {
                Some(v) => lookup(self@, key@) == Some(v@),
                None => lookup(self@, key@).is_none(),
            },
    {
        let owned = key.to_string();
        match self.position(&owned) {
            Some(i) => {
                assert(self@[i as int] == self.entries@[i as int]@);
                Some(value_copy(&self.entries[i].value))
            },
            None => None,
        }
    }

    /// The number under the name `key`; `None` where the name is not set or
    /// holds something else.
    pub fn get_int(&self, key: &str) -> (value: Option<i64>)
        ensures
            value == match lookup(self@, key@) {
                Some(ObsValueView::Int(v)) => Some(v),
                _ => None::<i64>,
            },
    {
        match self.get(key) {
            Some(ObsDataValue::Int(v)) => Some(v),
            _ => None,
        }
    }

    /// The switch under the name `key`; `None` where the name is not set or
    /// holds something else.
    pub fn get_bool(&self, key: &str) -> (value: Option<bool>)
        ensures
            value == match lookup(self@, key@) {
                Some(ObsValueView::Bool(v)) => Some(v),
                _ => None::<bool>,
            },
    {
        match self.get(key) {
            Some(ObsDataValue::Bool(v)) => Some(v),
            _ => None,
        }
    }

    /// The text under the name `key`; `None` where the name is not set or
    /// holds something else.
    pub fn get_string(&self, key: &str) -> (value: Option<String>)
        ensures
            match value {
                Some(text) => lookup(self@, key@) == Some(ObsValueView::Text(text@)),
                None => !(lookup(self@, key@) matches Some(ObsValueView::Text(_))),
            },
    {
        match self.get(key) {
            Some(ObsDataValue::Text(v)) => Some(v),
            _ => None,
        }
    }

    /// A copy of the record.
    pub fn duplicate(&self) -> (copy: ObsData)
        ensures
            copy@ == self@,
    {
        let mut entries: Vec<ObsEntry> = Vec::new();
        let mut i: usize = 0;
        while i < self.entries.len()
            invariant
                i <= self.entries.len(),
                entries@.len() == i,
                forall|k: int| 0 <= k < i ==> (#[trigger] entries@[k])@ == self.entries@[k]@,
            decreases self.entries.len() - i,
        {
            entries.push(
                ObsEntry {
                    key: self.entries[i].key.clone(),
                    value: value_copy(&self.entries[i].value),
                },
            );
            i += 1;
        }
        let copy = ObsData { entries };
        assert(copy@ =~= self@);
        copy
    }

    /// Whether both records hold the same settings in the same order.
    pub fn same_settings(&self, other: &ObsData) -> (same: bool)
        ensures
            same == (self@ == other@),
    {
        if self.entries.len() != other.entries.len() {
            assert(self@.len() != other@.len());
            return false;
        }
        let mut i: usize = 0;
        while i < self.entries.len()
            invariant
                i <= self.entries.len(),
                self.entries.len() == other.entries.len(),
                forall|k: int| 0 <= k < i ==> self@[k] == other@[k],
            decreases self.entries.len() - i,
        {
            let same_key = self.entries[i].key == other.entries[i].key;
            let same_value = value_eq(&self.entries[i].value, &other.entries[i].value);
            if !same_key || !same_value {
                assert(self@[i as int] != other@[i as int]);
                return false;
            }
            i += 1;
        }
        assert(self@ =~= other@);
        true
    }
}

/// What is handed to the engine to have a native object made.
#[derive(Debug)]
pub struct ObjectInfo {
    /// The kind of object.
    pub id: ObsString,
    /// The name of the object.
    pub name: ObsString,
    /// The settings of the object.
    pub settings: ObsData,
}

/// A name that stands in `entries` has a first place there, and only one.
pub proof fn lemma_first_index(entries: Entries, key: Seq<char>, at: int)
    requires
        is_first_index(entries, key, at),
    ensures
        has_key(entries, key),
        index_of_key(entries, key) == at,
{
    let chosen = index_of_key(entries, key);
    if chosen < at {
        assert(entries[chosen].0 != key);
    } else if chosen > at {
        assert(entries[at].0 != key);
    }
}

/// A name that stands in `entries` has a first place there.
pub proof fn lemma_has_first_index(entries: Entries, key: Seq<char>)
    requires
        has_key(entries, key),
    ensures
        is_first_index(entries, key, index_of_key(entries, key)),
{
    let any = choose|i: int| 0 <= i < entries.len() && (#[trigger] entries[i]).0 == key;
    lemma_first_below(entries, key, any);
}

proof fn lemma_first_below(entries: Entries, key: Seq<char>, at: int)
    requires
        0 <= at < entries.len(),
        entries[at].0 == key,
    ensures
        exists|first: int| is_first_index(entries, key, first),
    decreases at,
{
    if exists|j: int| 0 <= j < at && (#[trigger] entries[j]).0 == key {
        let j = choose|j: int| 0 <= j < at && (#[trigger] entries[j]).0 == key;
        lemma_first_below(entries, key, j);
    } else {
        assert(is_first_index(entries, key, at));
    }
}

/// A value that was set is the value that is found: after `value` was put
/// under `key`, `key` holds `value`, and every other name holds what it held.
pub proof fn lemma_lookup_after_set(
    entries: Entries,
    key: Seq<char>,
    value: ObsValueView,
    other: Seq<char>,
)
    ensures
        lookup(with_entry(entries, key, value), key) == Some(value),
        other != key ==> lookup(with_entry(entries, key, value), other) == lookup(entries, other),
{
    let after = with_entry(entries, key, value);
    if has_key(entries, key) {
        lemma_has_first_index(entries, key);
        let at = index_of_key(entries, key);
        assert(after[at] == (key, value));
        assert forall|j: int| 0 <= j < at implies (#[trigger] after[j]).0 != key by {
            assert(after[j] == entries[j]);
        }
        lemma_first_index(after, key, at);
    } else {
        let at = entries.len() as int;
        assert(after[at] == (key, value));
        assert forall|j: int| 0 <= j < at implies (#[trigger] after[j]).0 != key by {
            assert(after[j] == entries[j]);
        }
        lemma_first_index(after, key, at);
    }
    if other != key {
        assert forall|j: int| 0 <= j < entries.len() implies ((#[trigger] after[j]).0 == other
            <==> entries[j].0 == other) by {}
        if has_key(entries, other) {
            lemma_has_first_index(entries, other);
            let o = index_of_key(entries, other);
            assert(after[o] == entries[o]);
            assert forall|j: int| 0 <= j < o implies (#[trigger] after[j]).0 != other by {
                assert(entries[j].0 != other);
            }
            lemma_first_index(after, other, o);
        } else {
            if has_key(after, other) {
                let o = choose|i: int| 0 <= i < after.len() && (#[trigger] after[i]).0 == other;
                if o < entries.len() {
                    assert(entries[o].0 == other);
                }
            }
        }
    }
}

/// Setting a value never makes a name stand twice.
pub proof fn lemma_set_keeps_keys_distinct(entries: Entries, key: Seq<char>, value: ObsValueView)
    requires
        distinct_keys(entries),
    ensures
        distinct_keys(with_entry(entries, key, value)),
{
    let after = with_entry(entries, key, value);
    if has_key(entries, key) {
        lemma_has_first_index(entries, key);
        assert forall|a: int, b: int| 0 <= a < b < after.len() implies (#[trigger] after[a]).0 != (
        #[trigger] after[b]).0 by {
            assert(after[a].0 == entries[a].0);
            assert(after[b].0 == entries[b].0);
        }
    } else {
        assert forall|a: int, b: int| 0 <= a < b < after.len() implies (#[trigger] after[a]).0 != (
        #[trigger] after[b]).0 by {
            if b < entries.len() {
                assert(after[a] == entries[a]);
                assert(after[b] == entries[b]);
            } else {
                assert(after[a] == entries[a]);
            }
        }
    }
}

} // verus!
