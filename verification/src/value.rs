//! The documents that schemas are written in and matched against.
//!
//! A [`Value`] is a string, a number, a boolean, a date and time, an array of
//! values, or a [`Table`] from keys to values. A table keeps its pairs in the
//! order of their keys, each key once, so that two tables hold the same pairs
//! exactly when their sequences of pairs are equal.

use crate::text::{
    key_lt, lemma_key_lt_irreflexive, lemma_key_lt_total, lemma_key_lt_transitive, str_eq, str_lt,
};
use vstd::prelude::*;

verus! {

/// A calendar date.
#[derive(Clone, Copy, Debug, PartialEq, Eq, Structural)]
pub struct Date {
    pub year: u16,
    pub month: u8,
    pub day: u8,
}

/// A time of day.
#[derive(Clone, Copy, Debug, PartialEq, Eq, Structural)]
pub struct Time {
    pub hour: u8,
    pub minute: u8,
    pub second: u8,
    pub nanosecond: u32,
}

/// The distance of a local time from universal time.
#[derive(Clone, Copy, Debug, PartialEq, Eq, Structural)]
pub enum Offset {
    /// Universal time itself.
    Z,
    /// A number of minutes east of universal time.
    Custom { minutes: i16 },
}

/// A date, a time, or both, with or without an offset.
#[derive(Clone, Copy, Debug, PartialEq, Eq, Structural)]
pub struct Datetime {
    pub date: Option<Date>,
    pub time: Option<Time>,
    pub offset: Option<Offset>,
}

/// What a [`Value`] is, as mathematics: strings are sequences of characters,
/// arrays are sequences, and a table is the sequence of its pairs.
pub enum ValueModel {
    String(Seq<char>),
    Integer(i64),
    /// The 64-bit pattern of a binary64 number.
    Float(u64),
    Boolean(bool),
    Datetime(Datetime),
    Array(Seq<ValueModel>),
    Table(Seq<(Seq<char>, ValueModel)>),
}

/// A dynamically typed value.
#[derive(Debug)]
pub enum Value {
    String(String),
    Integer(i64),
    /// The 64-bit pattern of a binary64 number.
    Float(u64),
    Boolean(bool),
    Datetime(Datetime),
    Array(Vec<Value>),
    Table(Table),
}

/// A mapping from keys to values, held in the order of the keys.
#[derive(Debug)]
pub struct Table {
    pub(crate) pairs: Vec<(String, Value)>,
}

/// The pairs of a table, in the order of their keys.
pub type Pairs = Seq<(Seq<char>, ValueModel)>;

/// Whether the keys of `pairs` strictly ascend.
pub open spec fn keys_ascend(pairs: Pairs) -> bool {
    forall|i: int, j: int|
        0 <= i < j < pairs.len() ==> key_lt(#[trigger] pairs[i].0, #[trigger] pairs[j].0)
}

/// The index of the first pair at or after `from` that has the key `key`.
pub open spec fn key_index_from(pairs: Pairs, key: Seq<char>, from: int) -> Option<int>
    decreases pairs.len() - from,
{
    if from < 0 || from >= pairs.len() {
        None
    } else if pairs[from].0 == key {
        Some(from)
    } else {
        key_index_from(pairs, key, from + 1)
    }
}

/// The index of the first pair that has the key `key`.
pub open spec fn key_index(pairs: Pairs, key: Seq<char>) -> Option<int> {
    key_index_from(pairs, key, 0)
}

/// The value that `pairs` holds under `key`.
pub open spec fn lookup(pairs: Pairs, key: Seq<char>) -> Option<ValueModel> {
    match key_index(pairs, key) {
        Some(i) => if 0 <= i < pairs.len() {
            Some(pairs[i].1)
        } else {
            None
        },
        None => None,
    }
}

/// The index of the first pair at or after `from` whose key is not below
/// `key`, or the number of pairs where every key from there on is below it.
pub open spec fn key_rank_from(pairs: Pairs, key: Seq<char>, from: int) -> int
    decreases pairs.len() - from,
{
    if from < 0 || from >= pairs.len() {
        pairs.len() as int
    } else if key_lt(pairs[from].0, key) {
        key_rank_from(pairs, key, from + 1)
    } else {
        from
    }
}

/// `pairs` with `value` under `key`: in place of the value that stood there,
/// or as a new pair before the first pair whose key is above `key`.
pub open spec fn insert_pair(pairs: Pairs, key: Seq<char>, value: ValueModel) -> Pairs {
    let at = key_rank_from(pairs, key, 0);
    if at < pairs.len() && pairs[at].0 == key {
        pairs.update(at, (key, value))
    } else {
        pairs.insert(at, (key, value))
    }
}

impl Value {
    /// The model of this value.
    pub open spec fn model(&self) -> ValueModel
        decreases self,
    {
        match self {
            Value::String(s) => ValueModel::String(s@),
            Value::Integer(i) => ValueModel::Integer(*i),
            Value::Float(bits) => ValueModel::Float(*bits),
            Value::Boolean(b) => ValueModel::Boolean(*b),
            Value::Datetime(d) => ValueModel::Datetime(*d),
            Value::Array(items) => ValueModel::Array(
                Seq::new(
                    items.len() as nat,
                    |i: int|
                        if 0 <= i < items.len() {
                            items[i].model()
                        } else {
                            ValueModel::Boolean(false)
                        },
                ),
            ),
            Value::Table(t) => ValueModel::Table(t.view()),
        }
    }
}

impl View for Value {
    type V = ValueModel;

    open spec fn view(&self) -> ValueModel {
        self.model()
    }
}

impl View for Table {
    type V = Pairs;

    closed spec fn view(&self) -> Pairs
        decreases self,
    {
        Seq::new(
            self.pairs.len() as nat,
            |i: int|
                if 0 <= i < self.pairs.len() {
                    (self.pairs[i].0@, self.pairs[i].1.model())
                } else {
                    (Seq::empty(), ValueModel::Boolean(false))
                },
        )
    }
}

impl Table {
    /// What holds of every table: its keys strictly ascend.
    #[verifier::type_invariant]
    pub closed spec fn ordered(&self) -> bool {
        forall|i: int, j: int|
            0 <= i < j < self.pairs.len() ==> key_lt(
                (#[trigger] self.pairs[i]).0@,
                (#[trigger] self.pairs[j]).0@,
            )
    }

    /// A table without pairs.
    pub fn new() -> (r: Table)
        ensures
            r@ == Pairs::empty(),
    {
        let r = Table { pairs: Vec::new() };
        assert(r@ =~= Pairs::empty());
        r
    }

    /// The number of pairs. The keys of a table ascend, as those of every
    /// table do.
    pub fn len(&self) -> (r: usize)
        ensures
            r == self@.len(),
            keys_ascend(self@),
    {
        proof {
            use_type_invariant(self);
        }
        self.pairs.len()
    }

    /// The key of the pair at `index`.
    pub fn key_at(&self, index: usize) -> (r: &String)
        requires
            index < self@.len(),
        ensures
            r@ == self@[index as int].0,
    {
        &self.pairs[index].0
    }

    /// The value of the pair at `index`.
    pub fn value_at(&self, index: usize) -> (r: &Value)
        requires
            index < self@.len(),
        ensures
            r@ == self@[index as int].1,
    {
        &self.pairs[index].1
    }

    /// The place of `key` among the pairs, if the table has it.
    pub fn index_of(&self, key: &str) -> (r: Option<usize>)
        ensures
            match r {
                Some(i) => key_index(self@, key@) == Some(i as int) && i < self@.len(),
                None => key_index(self@, key@) is None,
            },
    {
        let mut i: usize = 0;
        while i < self.pairs.len()
            invariant
                i <= self.pairs.len(),
                key_index(self@, key@) == key_index_from(self@, key@, i as int),
            decreases self.pairs.len() - i,
        {
            if str_eq(self.pairs[i].0.as_str(), key) {
                return Some(i);
            }
            i += 1;
        }
        None
    }

    /// The value under `key`, if the table has it.
    pub fn get(&self, key: &str) -> (r: Option<&Value>)
        ensures
            match r {
                Some(v) => lookup(self@, key@) == Some(v@),
                None => lookup(self@, key@) is None,
            },
    {
        match self.index_of(key) {
            Some(i) => Some(&self.pairs[i].1),
            None => None,
        }
    }

    /// Whether the table has `key`.
    pub fn contains_key(&self, key: &str) -> (r: bool)
        ensures
            r == lookup(self@, key@).is_some(),
    {
        self.index_of(key).is_some()
    }

    /// Puts `value` under `key`, and returns the value that stood there.
    pub fn insert(&mut self, key: String, value: Value) -> (previous: Option<Value>)
        ensures
            final(self)@ == insert_pair(old(self)@, key@, value@),
            match previous {
                Some(v) => lookup(old(self)@, key@) == Some(v@),
                None => lookup(old(self)@, key@) is None,
            },
    {
        proof {
            use_type_invariant(&*self);
        }
        let ghost before = self@;
        let ghost held = self.pairs@;
        let mut at: usize = 0;
        while at < self.pairs.len() && str_lt(self.pairs[at].0.as_str(), key.as_str())
            invariant
                at <= self.pairs.len(),
                self@ == before,
                key_rank_from(before, key@, 0) == key_rank_from(before, key@, at as int),
                forall|j: int| 0 <= j < at ==> key_lt(#[trigger] before[j].0, key@),
            decreases self.pairs.len() - at,
        {
            at += 1;
        }
        proof {
            lemma_rank_splits(before, key@);
        }
        let found = at < self.pairs.len() && str_eq(self.pairs[at].0.as_str(), key.as_str());
        let mut taken = Table::new();
        std::mem::swap(self, &mut taken);
        let Table { pairs: mut pairs } = taken;
        let previous = if found {
            let mut pair = (key, value);
            std::mem::swap(&mut pairs[at], &mut pair);
            Some(pair.1)
        } else {
            pairs.insert(at, (key, value));
            None
        };
        proof {
            assert forall|i: int, j: int| 0 <= i < j < pairs.len() implies key_lt(
                (#[trigger] pairs[i]).0@,
                (#[trigger] pairs[j]).0@,
            ) by {
                let from_i = if found || i < at { i } else { i - 1 };
                let from_j = if found || j < at { j } else { j - 1 };
                if i != at && j != at {
                    assert(pairs[i] == held[from_i]);
                    assert(pairs[j] == held[from_j]);
                    assert(key_lt(held[from_i].0@, held[from_j].0@));
                } else if i == at {
                    assert(pairs[j] == held[from_j]);
                    assert(before[from_j].0 == held[from_j].0@);
                } else {
                    assert(pairs[i] == held[from_i]);
                    assert(before[from_i].0 == held[from_i].0@);
                }
            }
        }
        *self = Table { pairs };
        assert(self@ =~= insert_pair(before, key@, value@));
        previous
    }
}

impl Clone for Table {
    fn clone(&self) -> (r: Table)
        ensures
            r@ == self@,
        decreases self,
    {
        proof {
            use_type_invariant(self);
        }
        let mut pairs: Vec<(String, Value)> = Vec::new();
        let mut i: usize = 0;
        while i < self.pairs.len()
            invariant
                i <= self.pairs.len(),
                pairs.len() == i,
                forall|j: int|
                    0 <= j < i ==> (#[trigger] pairs[j]).0@ == self.pairs[j].0@ && pairs[j].1@
                        == self.pairs[j].1@,
            decreases self.pairs.len() - i,
        {
            let key = self.pairs[i].0.clone();
            let value = self.pairs[i].1.clone();
            pairs.push((key, value));
            i += 1;
        }
        let r = Table { pairs };
        assert(r@ =~= self@);
        r
    }
}

impl Clone for Value {
    #[verifier::loop_isolation(false)]
    fn clone(&self) -> (r: Value)
        ensures
            r@ == self@,
        decreases self,
    {
        match self {
            Value::String(s) => Value::String(s.clone()),
            Value::Integer(i) => Value::Integer(*i),
            Value::Float(bits) => Value::Float(*bits),
            Value::Boolean(b) => Value::Boolean(*b),
            Value::Datetime(d) => Value::Datetime(*d),
            Value::Array(items) => {
                let mut copies: Vec<Value> = Vec::new();
                let mut i: usize = 0;
                while i < items.len()
                    invariant
                        i <= items.len(),
                        copies.len() == i,
                        forall|j: int| 0 <= j < i ==> (#[trigger] copies[j])@ == items[j]@,
                    decreases items.len() - i,
                {
                    let copy = items[i].clone();
                    copies.push(copy);
                    i += 1;
                }
                let r = Value::Array(copies);
                assert(r@->Array_0 =~= self@->Array_0);
                r
            },
            Value::Table(t) => Value::Table(t.clone()),
        }
    }
}

impl Table {
    /// Whether both tables hold the same pairs.
    pub fn same(&self, other: &Table) -> (r: bool)
        ensures
            r == (self@ == other@),
        decreases self,
    {
        if self.pairs.len() != other.pairs.len() {
            assert(self@.len() != other@.len());
            return false;
        }
        let mut i: usize = 0;
        while i < self.pairs.len()
            invariant
                i <= self.pairs.len(),
                self.pairs.len() == other.pairs.len(),
                forall|j: int| 0 <= j < i ==> self@[j] == other@[j],
            decreases self.pairs.len() - i,
        {
            if !str_eq(self.pairs[i].0.as_str(), other.pairs[i].0.as_str()) {
                assert(self@[i as int] != other@[i as int]);
                return false;
            }
            if !self.pairs[i].1.same(&other.pairs[i].1) {
                assert(self@[i as int] != other@[i as int]);
                return false;
            }
            i += 1;
        }
        assert(self@ =~= other@);
        true
    }
}

impl Value {
    /// Whether both values are structurally equal.
    #[verifier::loop_isolation(false)]
    pub fn same(&self, other: &Value) -> (r: bool)
        ensures
            r == (self@ == other@),
        decreases self,
    {
        match (self, other) {
            (Value::String(a), Value::String(b)) => str_eq(a.as_str(), b.as_str()),
            (Value::Integer(a), Value::Integer(b)) => *a == *b,
            (Value::Float(a), Value::Float(b)) => *a == *b,
            (Value::Boolean(a), Value::Boolean(b)) => *a == *b,
            (Value::Datetime(a), Value::Datetime(b)) => *a == *b,
            (Value::Array(a), Value::Array(b)) => {
                if a.len() != b.len() {
                    assert(self@->Array_0.len() != other@->Array_0.len());
                    return false;
                }
                let mut i: usize = 0;
                while i < a.len()
                    invariant
                        i <= a.len(),
                        a.len() == b.len(),
                        forall|j: int| 0 <= j < i ==> a[j]@ == b[j]@,
                    decreases a.len() - i,
                {
                    if !a[i].same(&b[i]) {
                        assert(self@->Array_0[i as int] != other@->Array_0[i as int]);
                        return false;
                    }
                    i += 1;
                }
                assert(self@->Array_0 =~= other@->Array_0);
                true
            },
            (Value::Table(a), Value::Table(b)) => a.same(b),
            _ => false,
        }
    }
}

impl PartialEq for Table {
    fn eq(&self, other: &Table) -> (r: bool) {
        self.same(other)
    }
}

impl vstd::std_specs::cmp::PartialEqSpecImpl for Table {
    open spec fn obeys_eq_spec() -> bool {
        true
    }

    open spec fn eq_spec(&self, other: &Table) -> bool {
        self@ == other@
    }
}

impl PartialEq for Value {
    fn eq(&self, other: &Value) -> (r: bool) {
        self.same(other)
    }
}

impl vstd::std_specs::cmp::PartialEqSpecImpl for Value {
    open spec fn obeys_eq_spec() -> bool {
        true
    }

    open spec fn eq_spec(&self, other: &Value) -> bool {
        self@ == other@
    }
}

/// A value found under a key is a part of the pairs.
pub proof fn lemma_lookup_decreases(pairs: Pairs, key: Seq<char>)
    ensures
        match lookup(pairs, key) {
            Some(v) => decreases_to!(pairs => v),
            None => true,
        },
{
    match key_index(pairs, key) {
        Some(i) => {
            if 0 <= i < pairs.len() {
                assert(decreases_to!(pairs => pairs[i]));
                assert(decreases_to!(pairs[i] => pairs[i].1));
            }
        },
        None => {},
    }
}

/// Where the keys ascend, the rank of `key` parts the pairs below it from
/// those not below it, and `key` stands at its rank or nowhere.
pub proof fn lemma_rank_splits(pairs: Pairs, key: Seq<char>)
    requires
        keys_ascend(pairs),
    ensures
        ({
            let at = key_rank_from(pairs, key, 0);
            &&& 0 <= at <= pairs.len()
            &&& forall|j: int| 0 <= j < at ==> key_lt(#[trigger] pairs[j].0, key)
            &&& forall|j: int| at <= j < pairs.len() ==> !key_lt(#[trigger] pairs[j].0, key)
            &&& forall|j: int| at < j < pairs.len() ==> key_lt(key, #[trigger] pairs[j].0)
            &&& at < pairs.len() && pairs[at].0 != key ==> key_lt(key, pairs[at].0)
            &&& key_index(pairs, key) == if at < pairs.len() && pairs[at].0 == key {
                Some(at)
            } else {
                None
            }
        }),
{
    let at = key_rank_from(pairs, key, 0);
    lemma_rank_from(pairs, key, 0);
    assert forall|j: int| at <= j < pairs.len() implies !key_lt(#[trigger] pairs[j].0, key) by {
        if j > at && key_lt(pairs[j].0, key) {
            lemma_key_lt_transitive(pairs[at].0, pairs[j].0, key);
        }
    }
    if at < pairs.len() {
        lemma_key_lt_total(pairs[at].0, key);
    }
    assert forall|j: int| at < j < pairs.len() implies key_lt(key, #[trigger] pairs[j].0) by {
        lemma_key_lt_total(pairs[j].0, key);
        if pairs[j].0 == key {
            if pairs[at].0 == key {
                lemma_key_lt_irreflexive(key);
            } else {
                lemma_key_lt_transitive(key, pairs[at].0, pairs[j].0);
                lemma_key_lt_irreflexive(key);
            }
        }
    }
    lemma_index_from(pairs, key, 0);
    match key_index(pairs, key) {
        Some(i) => {
            lemma_key_lt_irreflexive(key);
            if i < at {
            } else if i > at {
            }
        },
        None => {},
    }
}

/// What `key_rank_from` finds: every pair from `from` up to the rank is below
/// `key`, and the pair at the rank is not.
pub proof fn lemma_rank_from(pairs: Pairs, key: Seq<char>, from: int)
    requires
        0 <= from <= pairs.len(),
    ensures
        from <= key_rank_from(pairs, key, from) <= pairs.len(),
        forall|j: int|
            from <= j < key_rank_from(pairs, key, from) ==> key_lt(#[trigger] pairs[j].0, key),
        key_rank_from(pairs, key, from) < pairs.len() ==> !key_lt(
            pairs[key_rank_from(pairs, key, from)].0,
            key,
        ),
    decreases pairs.len() - from,
{
    if from < pairs.len() && key_lt(pairs[from].0, key) {
        lemma_rank_from(pairs, key, from + 1);
    }
}

/// What `key_index_from` finds: the first pair from `from` on with the key.
pub proof fn lemma_index_from(pairs: Pairs, key: Seq<char>, from: int)
    requires
        0 <= from <= pairs.len(),
    ensures
        match key_index_from(pairs, key, from) {
            Some(i) => from <= i < pairs.len() && pairs[i].0 == key && forall|j: int|
                from <= j < i ==> (#[trigger] pairs[j]).0 != key,
            None => forall|j: int| from <= j < pairs.len() ==> (#[trigger] pairs[j]).0 != key,
        },
    decreases pairs.len() - from,
{
    if from < pairs.len() && pairs[from].0 != key {
        lemma_index_from(pairs, key, from + 1);
    }
}

} // verus!
