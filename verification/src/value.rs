//! The embedder's value type.

use crate::float::Float64;
use crate::text::text_eq;
use vstd::prelude::*;

verus! {

/// What a value is, whichever side of the boundary holds it. A dictionary is
/// the sequence of its entries, in which no key occurs twice.
#[verifier::ext_equal]
pub enum ValueView {
    Null,
    Bool(bool),
    Int(i32),
    Double(Float64),
    Text(Seq<char>),
    List(Seq<ValueView>),
    Dict(Seq<(Seq<char>, ValueView)>),
    Binary(Seq<u8>),
}

/// No key occurs twice.
pub open spec fn keys_distinct(e: Seq<(Seq<char>, ValueView)>) -> bool {
    forall|i: int, j: int| 0 <= i < j < e.len() ==> (#[trigger] e[i]).0 != (#[trigger] e[j]).0
}

/// Some entry has the key.
pub open spec fn has_key(e: Seq<(Seq<char>, ValueView)>, key: Seq<char>) -> bool {
    exists|i: int| 0 <= i < e.len() && (#[trigger] e[i]).0 == key
}

/// The value stored under a key.
pub open spec fn lookup(e: Seq<(Seq<char>, ValueView)>, key: Seq<char>) -> Option<ValueView>
    decreases e.len(),
{
    if e.len() == 0 {
        None
    } else if e.last().0 == key {
        Some(e.last().1)
    } else {
        lookup(e.drop_last(), key)
    }
}

/// The entries once `key` is set to `v`: an entry with that key keeps its place
/// and gets the new value, and a new key goes to the end.
pub open spec fn with_entry(
    e: Seq<(Seq<char>, ValueView)>,
    key: Seq<char>,
    v: ValueView,
) -> Seq<(Seq<char>, ValueView)> {
    if has_key(e, key) {
        Seq::new(
            e.len(),
            |i: int|
                if e[i].0 == key {
                    (key, v)
                } else {
                    e[i]
                },
        )
    } else {
        e.push((key, v))
    }
}

/// A lookup finds the entry at a known place.
pub proof fn lookup_finds(e: Seq<(Seq<char>, ValueView)>, i: int)
    requires
        keys_distinct(e),
        0 <= i < e.len(),
    ensures
        lookup(e, e[i].0) == Some(e[i].1),
    decreases e.len(),
{
    if e.last().0 != e[i].0 {
        assert(e.drop_last()[i] == e[i]);
        assert(keys_distinct(e.drop_last())) by {
            assert forall|a: int, b: int| 0 <= a < b < e.drop_last().len() implies (
            #[trigger] e.drop_last()[a]).0 != (#[trigger] e.drop_last()[b]).0 by {
                assert(e[a].0 != e[b].0);
            }
        }
        lookup_finds(e.drop_last(), i);
    } else if i != e.len() - 1 {
        assert(e[i].0 != e[e.len() - 1].0);
    }
}

/// A lookup of a key that no entry has finds nothing.
pub proof fn lookup_misses(e: Seq<(Seq<char>, ValueView)>, key: Seq<char>)
    requires
        !has_key(e, key),
    ensures
        lookup(e, key) is None,
    decreases e.len(),
{
    if e.len() > 0 {
        assert(e[e.len() - 1].0 != key);
        assert(!has_key(e.drop_last(), key)) by {
            if has_key(e.drop_last(), key) {
                let i = choose|i: int|
                    0 <= i < e.drop_last().len() && (#[trigger] e.drop_last()[i]).0 == key;
                assert(e[i].0 == key);
            }
        }
        lookup_misses(e.drop_last(), key);
    }
}

/// Setting a key keeps the keys distinct, makes the key read back the new
/// value, and leaves every other key as it was.
pub proof fn set_then_get(
    e: Seq<(Seq<char>, ValueView)>,
    key: Seq<char>,
    v: ValueView,
    other: Seq<char>,
)
    requires
        keys_distinct(e),
    ensures
        keys_distinct(with_entry(e, key, v)),
        lookup(with_entry(e, key, v), key) == Some(v),
        other != key ==> lookup(with_entry(e, key, v), other) == lookup(e, other),
{
    let w = with_entry(e, key, v);
    assert(keys_distinct(w)) by {
        assert forall|a: int, b: int| 0 <= a < b < w.len() implies (#[trigger] w[a]).0 != (
        #[trigger] w[b]).0 by {
            if b < e.len() {
                assert(e[a].0 != e[b].0);
            } else {
                assert(e[a].0 != key);
            }
        }
    }
    assert(has_key(w, key)) by {
        if has_key(e, key) {
            let i = choose|i: int| 0 <= i < e.len() && (#[trigger] e[i]).0 == key;
            assert(w[i].0 == key);
        } else {
            assert(w[e.len() as int].0 == key);
        }
    }
    let k = choose|k: int| 0 <= k < w.len() && (#[trigger] w[k]).0 == key;
    lookup_finds(w, k);
    if other != key {
        if has_key(e, other) {
            let i = choose|i: int| 0 <= i < e.len() && (#[trigger] e[i]).0 == other;
            lookup_finds(e, i);
            assert(w[i] == e[i]);
            lookup_finds(w, i);
        } else {
            lookup_misses(e, other);
            assert(!has_key(w, other)) by {
                if has_key(w, other) {
                    let i = choose|i: int| 0 <= i < w.len() && (#[trigger] w[i]).0 == other;
                    assert(e[i].0 == other);
                }
            }
            lookup_misses(w, other);
        }
    }
}

/// A value handed to or received from the backend.
pub enum Value {
    Null,
    Bool(bool),
    Int(i32),
    Double(Float64),
    String(String),
    List(Vec<Value>),
    Dict(Dict),
    Binary(Vec<u8>),
}

/// Values under distinct text keys, in the order of first insertion.
pub struct Dict {
    entries: Vec<(String, Value)>,
}

impl Value {
    pub open spec fn view(&self) -> ValueView
        decreases self,
    {
        match self {
            Value::Null => ValueView::Null,
            Value::Bool(b) => ValueView::Bool(*b),
            Value::Int(i) => ValueView::Int(*i),
            Value::Double(d) => ValueView::Double(*d),
            Value::String(s) => ValueView::Text(s@),
            Value::List(l) => ValueView::List(values_view(l@)),
            Value::Dict(d) => ValueView::Dict(d.view()),
            Value::Binary(b) => ValueView::Binary(b@),
        }
    }
}

/// The values of a list, each by its view.
pub open spec fn values_view(s: Seq<Value>) -> Seq<ValueView>
    decreases s,
{
    if s.len() == 0 {
        Seq::empty()
    } else {
        values_view(s.drop_last()).push(s.last().view())
    }
}

spec fn entries_view(s: Seq<(String, Value)>) -> Seq<(Seq<char>, ValueView)>
    decreases s,
{
    if s.len() == 0 {
        Seq::empty()
    } else {
        entries_view(s.drop_last()).push((s.last().0@, s.last().1.view()))
    }
}

/// The view of a list has one element for each of its values.
pub proof fn values_view_elements(s: Seq<Value>)
    ensures
        values_view(s).len() == s.len(),
        forall|i: int| 0 <= i < s.len() ==> #[trigger] values_view(s)[i] == s[i].view(),
    decreases s.len(),
{
    if s.len() > 0 {
        values_view_elements(s.drop_last());
    }
}

proof fn entries_view_elements(s: Seq<(String, Value)>)
    ensures
        entries_view(s).len() == s.len(),
        forall|i: int|
            0 <= i < s.len() ==> #[trigger] entries_view(s)[i] == (s[i].0@, s[i].1.view()),
    decreases s.len(),
{
    if s.len() > 0 {
        entries_view_elements(s.drop_last());
    }
}

impl Dict {
    pub closed spec fn view(&self) -> Seq<(Seq<char>, ValueView)>
        decreases self,
    {
        entries_view(self.entries@)
    }

    #[verifier::type_invariant]
    spec fn inv(&self) -> bool {
        keys_distinct(self.view())
    }

    pub fn new() -> (r: Dict)
        ensures
            r@ == Seq::<(Seq<char>, ValueView)>::empty(),
    {
        Dict { entries: Vec::new() }
    }

    /// The keys of any dictionary are distinct.
    pub fn len(&self) -> (r: usize)
        ensures
            r == self@.len(),
            keys_distinct(self@),
    {
        proof {
            use_type_invariant(self);
            entries_view_elements(self.entries@);
        }
        self.entries.len()
    }

    fn find(&self, key: &str) -> (r: Option<usize>)
        ensures
            r matches Some(i) ==> i < self.entries@.len() && self.entries@[i as int].0@ == key@,
            r is None ==> forall|j: int|
                0 <= j < self.entries@.len() ==> (#[trigger] self.entries@[j]).0@ != key@,
    {
        let mut i: usize = 0;
        while i < self.entries.len()
            invariant
                i <= self.entries.len(),
                forall|j: int| 0 <= j < i ==> (#[trigger] self.entries@[j]).0@ != key@,
            decreases self.entries.len() - i,
        {
            if text_eq(self.entries[i].0.as_str(), key) {
                return Some(i);
            }
            i = i + 1;
        }
        None
    }

    pub fn contains_key(&self, key: &str) -> (r: bool)
        ensures
            r == has_key(self@, key@),
    {
        proof {
            entries_view_elements(self.entries@);
        }
        match self.find(key) {
            Some(i) => {
                assert(self@[i as int].0 == key@);
                true
            },
            None => false,
        }
    }

    pub fn get(&self, key: &str) -> (r: Option<&Value>)
        ensures
            match r {
                Some(v) => lookup(self@, key@) == Some(v@),
                None => lookup(self@, key@) is None,
            },
    {
        proof {
            use_type_invariant(self);
            entries_view_elements(self.entries@);
        }
        match self.find(key) {
            Some(i) => {
                proof {
                    lookup_finds(self@, i as int);
                }
                Some(&self.entries[i].1)
            },
            None => {
                proof {
                    lookup_misses(self@, key@);
                }
                None
            },
        }
    }

    /// The entry at a position, in order of first insertion.
    pub fn entry_at(&self, i: usize) -> (r: (&String, &Value))
        requires
            i < self@.len(),
        ensures
            self@[i as int] == (r.0@, r.1@),
    {
        proof {
            entries_view_elements(self.entries@);
        }
        (&self.entries[i].0, &self.entries[i].1)
    }

    /// Stores a value under a key, in place of the one that was there.
    pub fn insert(&mut self, key: String, value: Value)
        ensures
            final(self)@ == with_entry(old(self)@, key@, value@),
    {
        let ghost before = self@;
        proof {
            use_type_invariant(&*self);
            entries_view_elements(self.entries@);
        }
        let at = self.find(key.as_str());
        let mut entries: Vec<(String, Value)> = Vec::new();
        std::mem::swap(&mut entries, &mut self.entries);
        let ghost old_entries = entries@;
        let ghost (k, v) = (key@, value@);
        match at {
            Some(i) => {
                entries.set(i, (key, value));
                proof {
                    entries_view_elements(entries@);
                    assert(before[i as int].0 == k);
                    assert forall|j: int| 0 <= j < before.len() implies entries_view(
                        entries@,
                    )[j] == with_entry(before, k, v)[j] by {
                        if j != i {
                            assert(before[j].0 != before[i as int].0);
                        }
                    }
                    assert(entries_view(entries@) =~= with_entry(before, k, v));
                }
            },
            None => {
                entries.push((key, value));
                proof {
                    entries_view_elements(entries@);
                    assert(!has_key(before, k));
                    assert(entries@.drop_last() =~= old_entries);
                    assert(entries_view(entries@) =~= with_entry(before, k, v));
                }
            },
        }
        proof {
            set_then_get(before, k, v, k);
        }
        self.entries = entries;
    }
}

impl Value {
    pub fn as_string(&self) -> (r: Option<&str>)
        ensures
            match r {
                Some(s) => self@ == ValueView::Text(s@),
                None => !(self@ is Text),
            },
    {
        match self {
            Value::String(s) => Some(s.as_str()),
            _ => None,
        }
    }

    pub fn as_int(&self) -> (r: Option<i32>)
        ensures
            match r {
                Some(i) => self@ == ValueView::Int(i),
                None => !(self@ is Int),
            },
    {
        match self {
            Value::Int(i) => Some(*i),
            _ => None,
        }
    }

    pub fn as_bool(&self) -> (r: Option<bool>)
        ensures
            match r {
                Some(b) => self@ == ValueView::Bool(b),
                None => !(self@ is Bool),
            },
    {
        match self {
            Value::Bool(b) => Some(*b),
            _ => None,
        }
    }

    pub fn as_list(&self) -> (r: Option<&Vec<Value>>)
        ensures
            match r {
                Some(l) => self@ == ValueView::List(values_view(l@)),
                None => !(self@ is List),
            },
    {
        match self {
            Value::List(l) => Some(l),
            _ => None,
        }
    }

    pub fn as_dict(&self) -> (r: Option<&Dict>)
        ensures
            match r {
                Some(d) => self@ == ValueView::Dict(d@),
                None => !(self@ is Dict),
            },
    {
        match self {
            Value::Dict(d) => Some(d),
            _ => None,
        }
    }
}

impl Clone for Value {
    fn clone(&self) -> (r: Value)
        ensures
            r@ == self@,
        decreases self,
    {
        match self {
            Value::Null => Value::Null,
            Value::Bool(b) => Value::Bool(*b),
            Value::Int(i) => Value::Int(*i),
            Value::Double(d) => Value::Double(*d),
            Value::String(s) => Value::String(s.clone()),
            Value::List(l) => Value::List(copy_values(l)),
            Value::Dict(d) => Value::Dict(copy_dict(d)),
            Value::Binary(b) => Value::Binary(b.clone()),
        }
    }
}

fn copy_values(l: &Vec<Value>) -> (r: Vec<Value>)
    ensures
        values_view(r@) == values_view(l@),
    decreases l,
{
    let mut out: Vec<Value> = Vec::new();
    let mut i: usize = 0;
    while i < l.len()
        invariant
            i <= l@.len(),
            values_view(out@) == values_view(l@.take(i as int)),
        decreases l@.len() - i,
    {
        let ghost before = out@;
        assert(decreases_to!(l => l@));
        assert(decreases_to!(l@ => l@[i as int]));
        let v = l[i].clone();
        out.push(v);
        proof {
            assert(out@.drop_last() =~= before);
            assert(l@.take(i as int + 1).drop_last() =~= l@.take(i as int));
        }
        i = i + 1;
    }
    assert(l@.take(l@.len() as int) =~= l@);
    out
}

fn copy_dict(d: &Dict) -> (r: Dict)
    ensures
        r@ == d@,
    decreases d,
{
    let mut entries: Vec<(String, Value)> = Vec::new();
    let mut i: usize = 0;
    while i < d.entries.len()
        invariant
            i <= d.entries@.len(),
            entries_view(entries@) == entries_view(d.entries@.take(i as int)),
        decreases d.entries@.len() - i,
    {
        let ghost before = entries@;
        assert(decreases_to!(d => d.entries));
        assert(decreases_to!(d.entries => d.entries@));
        assert(decreases_to!(d.entries@ => d.entries@[i as int]));
        assert(decreases_to!(d.entries@[i as int] => d.entries@[i as int].1));
        let v = d.entries[i].1.clone();
        entries.push((d.entries[i].0.clone(), v));
        proof {
            assert(entries@.drop_last() =~= before);
            assert(d.entries@.take(i as int + 1).drop_last() =~= d.entries@.take(i as int));
        }
        i = i + 1;
    }
    proof {
        assert(d.entries@.take(d.entries@.len() as int) =~= d.entries@);
        use_type_invariant(d);
    }
    Dict { entries }
}

} // verus!
