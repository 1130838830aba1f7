//! Values crossing the boundary between runtime and backend, each step through
//! the table entry that does it.

use crate::api::LaufeyBackendApi;
use crate::float::Float64;
use crate::raw_value;
use crate::raw_value::LaufeyValue;
use crate::text;
use crate::value;
use crate::value::{Dict, Value, ValueView};
use vstd::prelude::*;

verus! {

/// What the runtime reads of the backend value `v` through the table `t`. A kind
/// that the table cannot test for reads as null, and contents that it cannot
/// fetch read as false, zero or empty.
pub open spec fn decoded(t: LaufeyBackendApi, v: ValueView) -> ValueView
    decreases v,
{
    match v {
        ValueView::Null => ValueView::Null,
        ValueView::Bool(b) => if t.value_is_bool {
            ValueView::Bool(t.value_get_bool && b)
        } else {
            ValueView::Null
        },
        ValueView::Int(i) => if t.value_is_int {
            ValueView::Int(
                if t.value_get_int {
                    i
                } else {
                    0
                },
            )
        } else {
            ValueView::Null
        },
        ValueView::Double(d) => if t.value_is_double {
            ValueView::Double(
                if t.value_get_double {
                    d
                } else {
                    Float64 { bits: 0 }
                },
            )
        } else {
            ValueView::Null
        },
        ValueView::Text(s) => if t.value_is_string {
            ValueView::Text(
                if t.value_get_string {
                    s
                } else {
                    Seq::empty()
                },
            )
        } else {
            ValueView::Null
        },
        ValueView::List(l) => if t.value_is_list {
            ValueView::List(
                if t.value_list_size && t.value_list_get {
                    decoded_list(t, l)
                } else {
                    Seq::empty()
                },
            )
        } else {
            ValueView::Null
        },
        ValueView::Dict(e) => if t.value_is_dict {
            ValueView::Dict(
                if t.value_dict_keys && t.value_dict_get {
                    decoded_entries(t, e)
                } else {
                    Seq::empty()
                },
            )
        } else {
            ValueView::Null
        },
        ValueView::Binary(b) => if t.value_is_binary {
            ValueView::Binary(
                if t.value_get_binary {
                    b
                } else {
                    Seq::empty()
                },
            )
        } else {
            ValueView::Null
        },
    }
}

/// The elements of a list, each as the runtime reads it.
pub open spec fn decoded_list(t: LaufeyBackendApi, l: Seq<ValueView>) -> Seq<ValueView>
    decreases l,
{
    if l.len() == 0 {
        Seq::empty()
    } else {
        decoded_list(t, l.drop_last()).push(decoded(t, l.last()))
    }
}

/// The entries of a dictionary, each value as the runtime reads it.
pub open spec fn decoded_entries(
    t: LaufeyBackendApi,
    e: Seq<(Seq<char>, ValueView)>,
) -> Seq<(Seq<char>, ValueView)>
    decreases e,
{
    if e.len() == 0 {
        Seq::empty()
    } else {
        decoded_entries(t, e.drop_last()).push((e.last().0, decoded(t, e.last().1)))
    }
}

/// The backend value that the runtime builds from `v` through the table `t`.
/// There is none where the table cannot make a value of that kind; children
/// that cannot be made, or cannot be added, are left out.
pub open spec fn encoded(t: LaufeyBackendApi, v: ValueView) -> Option<ValueView>
    decreases v,
{
    match v {
        ValueView::Null => if t.value_null {
            Some(v)
        } else {
            None
        },
        ValueView::Bool(_) => if t.value_bool {
            Some(v)
        } else {
            None
        },
        ValueView::Int(_) => if t.value_int {
            Some(v)
        } else {
            None
        },
        ValueView::Double(_) => if t.value_double {
            Some(v)
        } else {
            None
        },
        ValueView::Text(_) => if t.value_string {
            Some(v)
        } else {
            None
        },
        ValueView::List(l) => if t.value_list {
            Some(
                ValueView::List(
                    if t.value_list_append {
                        encoded_list(t, l)
                    } else {
                        Seq::empty()
                    },
                ),
            )
        } else {
            None
        },
        ValueView::Dict(e) => if t.value_dict {
            Some(
                ValueView::Dict(
                    if t.value_dict_set {
                        encoded_entries(t, e)
                    } else {
                        Seq::empty()
                    },
                ),
            )
        } else {
            None
        },
        ValueView::Binary(_) => if t.value_binary {
            Some(v)
        } else {
            None
        },
    }
}

/// The elements of a list that can be made, in order.
pub open spec fn encoded_list(t: LaufeyBackendApi, l: Seq<ValueView>) -> Seq<ValueView>
    decreases l,
{
    if l.len() == 0 {
        Seq::empty()
    } else {
        match encoded(t, l.last()) {
            Some(x) => encoded_list(t, l.drop_last()).push(x),
            None => encoded_list(t, l.drop_last()),
        }
    }
}

/// The entries of a dictionary whose values can be made, in order.
pub open spec fn encoded_entries(
    t: LaufeyBackendApi,
    e: Seq<(Seq<char>, ValueView)>,
) -> Seq<(Seq<char>, ValueView)>
    decreases e,
{
    if e.len() == 0 {
        Seq::empty()
    } else {
        match encoded(t, e.last().1) {
            Some(x) => encoded_entries(t, e.drop_last()).push((e.last().0, x)),
            None => encoded_entries(t, e.drop_last()),
        }
    }
}

/// Every text and key that building `v` hands over is free of NUL characters.
pub open spec fn sendable(t: LaufeyBackendApi, v: ValueView) -> bool
    decreases v,
{
    match v {
        ValueView::Text(s) => text::nul_free(s),
        ValueView::List(l) => t.value_list && t.value_list_append ==> sendable_list(t, l),
        ValueView::Dict(e) => t.value_dict && t.value_dict_set ==> sendable_entries(t, e),
        _ => true,
    }
}

pub open spec fn sendable_list(t: LaufeyBackendApi, l: Seq<ValueView>) -> bool
    decreases l,
{
    l.len() > 0 ==> sendable_list(t, l.drop_last()) && sendable(t, l.last())
}

pub open spec fn sendable_entries(t: LaufeyBackendApi, e: Seq<(Seq<char>, ValueView)>) -> bool
    decreases e,
{
    e.len() > 0 ==> {
        &&& sendable_entries(t, e.drop_last())
        &&& text::nul_free(e.last().0)
        &&& sendable(t, e.last().1)
    }
}

proof fn sendable_list_prefix(t: LaufeyBackendApi, l: Seq<ValueView>, n: int)
    requires
        sendable_list(t, l),
        0 <= n <= l.len(),
    ensures
        sendable_list(t, l.take(n)),
    decreases l.len(),
{
    if n < l.len() {
        assert(l.drop_last().take(n) =~= l.take(n));
        sendable_list_prefix(t, l.drop_last(), n);
    } else {
        assert(l.take(n) =~= l);
    }
}

proof fn sendable_entries_prefix(t: LaufeyBackendApi, e: Seq<(Seq<char>, ValueView)>, n: int)
    requires
        sendable_entries(t, e),
        0 <= n <= e.len(),
    ensures
        sendable_entries(t, e.take(n)),
    decreases e.len(),
{
    if n < e.len() {
        assert(e.drop_last().take(n) =~= e.take(n));
        sendable_entries_prefix(t, e.drop_last(), n);
    } else {
        assert(e.take(n) =~= e);
    }
}

/// The keys that building a dictionary uses are keys of that dictionary.
proof fn encoded_entries_keys(t: LaufeyBackendApi, e: Seq<(Seq<char>, ValueView)>, key: Seq<char>)
    requires
        value::has_key(encoded_entries(t, e), key),
    ensures
        value::has_key(e, key),
    decreases e.len(),
{
    if e.len() > 0 {
        let out = encoded_entries(t, e);
        let rest = encoded_entries(t, e.drop_last());
        let i = choose|i: int| 0 <= i < out.len() && (#[trigger] out[i]).0 == key;
        if i < rest.len() {
            assert(rest[i].0 == key);
            encoded_entries_keys(t, e.drop_last(), key);
            let j = choose|j: int|
                0 <= j < e.drop_last().len() && (#[trigger] e.drop_last()[j]).0 == key;
            assert(e[j].0 == key);
        } else {
            assert(e[e.len() - 1].0 == key);
        }
    }
}

proof fn decoded_entries_keys(t: LaufeyBackendApi, e: Seq<(Seq<char>, ValueView)>)
    ensures
        decoded_entries(t, e).len() == e.len(),
        forall|i: int| 0 <= i < e.len() ==> (#[trigger] decoded_entries(t, e)[i]).0 == e[i].0,
    decreases e.len(),
{
    if e.len() > 0 {
        decoded_entries_keys(t, e.drop_last());
    }
}

impl Value {
    /// Reads a backend value; there is nothing to read behind a null pointer.
    pub fn from_raw(api: &LaufeyBackendApi, ptr: Option<&LaufeyValue>) -> (r: Option<Value>)
        ensures
            match ptr {
                Some(p) => r matches Some(v) && v@ == decoded(*api, p@),
                None => r is None,
            },
    {
        match ptr {
            None => None,
            Some(p) => Some(read_value(api, p)),
        }
    }

    /// Builds the backend value, where the table can make one.
    pub fn to_raw(&self, api: &LaufeyBackendApi) -> (r: Option<Box<LaufeyValue>>)
        requires
            sendable(*api, self@),
        ensures
            match encoded(*api, self@) {
                Some(v) => r matches Some(p) && p@ == v,
                None => r is None,
            },
        decreases self@,
    {
        match self {
            Value::Null => if api.value_null {
                Some(Box::new(raw_value::value_null()))
            } else {
                None
            },
            Value::Bool(v) => if api.value_bool {
                Some(Box::new(raw_value::value_bool(*v)))
            } else {
                None
            },
            Value::Int(v) => if api.value_int {
                Some(Box::new(raw_value::value_int(*v)))
            } else {
                None
            },
            Value::Double(v) => if api.value_double {
                Some(Box::new(raw_value::value_double(*v)))
            } else {
                None
            },
            Value::String(s) => if api.value_string {
                Some(Box::new(raw_value::value_string(Some(s.clone()))))
            } else {
                None
            },
            Value::List(items) => if api.value_list {
                assert(decreases_to!(self@ => self@->List_0));
                Some(Box::new(build_list(api, items)))
            } else {
                None
            },
            Value::Dict(map) => if api.value_dict {
                assert(decreases_to!(self@ => self@->Dict_0));
                Some(Box::new(build_dict(api, map)))
            } else {
                None
            },
            Value::Binary(data) => if api.value_binary {
                Some(Box::new(raw_value::value_binary(Some(data.clone()))))
            } else {
                None
            },
        }
    }
}

impl Value {
    /// Whether every text and key that building the value hands over is free of
    /// NUL characters.
    pub fn is_sendable(&self, api: &LaufeyBackendApi) -> (r: bool)
        ensures
            r == sendable(*api, self@),
        decreases self@,
    {
        match self {
            Value::String(s) => text::is_nul_free(s.as_str()),
            Value::List(items) => {
                assert(decreases_to!(self@ => self@->List_0));
                !(api.value_list && api.value_list_append) || is_sendable_list(api, items)
            },
            Value::Dict(map) => {
                assert(decreases_to!(self@ => self@->Dict_0));
                !(api.value_dict && api.value_dict_set) || is_sendable_dict(api, map)
            },
            _ => true,
        }
    }
}

fn is_sendable_list(api: &LaufeyBackendApi, items: &Vec<Value>) -> (r: bool)
    ensures
        r == sendable_list(*api, value::values_view(items@)),
    decreases value::values_view(items@),
{
    let ghost l = value::values_view(items@);
    proof {
        value::values_view_elements(items@);
    }
    let mut i: usize = 0;
    while i < items.len()
        invariant
            l == value::values_view(items@),
            l.len() == items@.len(),
            forall|j: int| 0 <= j < l.len() ==> #[trigger] l[j] == items@[j]@,
            i <= items.len(),
            sendable_list(*api, l.take(i as int)),
        decreases items.len() - i,
    {
        proof {
            assert(l.take(i as int + 1).drop_last() =~= l.take(i as int));
            assert(l[i as int] == items@[i as int]@);
            assert(decreases_to!(l => l[i as int]));
        }
        if !items[i].is_sendable(api) {
            proof {
                if sendable_list(*api, l) {
                    sendable_list_prefix(*api, l, i as int + 1);
                }
            }
            return false;
        }
        i = i + 1;
    }
    assert(l.take(l.len() as int) =~= l);
    true
}

fn is_sendable_dict(api: &LaufeyBackendApi, map: &Dict) -> (r: bool)
    ensures
        r == sendable_entries(*api, map@),
    decreases map@,
{
    let n: usize = map.len();
    let ghost e = map@;
    let mut i: usize = 0;
    while i < n
        invariant
            e == map@,
            n == e.len(),
            i <= n,
            sendable_entries(*api, e.take(i as int)),
        decreases n - i,
    {
        let entry = map.entry_at(i);
        proof {
            assert(e.take(i as int + 1).drop_last() =~= e.take(i as int));
            assert(decreases_to!(e => e[i as int]));
            assert(decreases_to!(e[i as int] => e[i as int].1));
        }
        if !text::is_nul_free(entry.0.as_str()) || !entry.1.is_sendable(api) {
            proof {
                if sendable_entries(*api, e) {
                    sendable_entries_prefix(*api, e, i as int + 1);
                }
            }
            return false;
        }
        i = i + 1;
    }
    assert(e.take(e.len() as int) =~= e);
    true
}

fn read_value(api: &LaufeyBackendApi, p: &LaufeyValue) -> (r: Value)
    ensures
        r@ == decoded(*api, p@),
    decreases p@, 1nat,
{
    let ptr = Some(p);
    if api.value_is_null && raw_value::value_is_null(ptr) {
        return Value::Null;
    }
    if api.value_is_bool && raw_value::value_is_bool(ptr) {
        return Value::Bool(api.value_get_bool && raw_value::value_get_bool(ptr));
    }
    if api.value_is_int && raw_value::value_is_int(ptr) {
        return Value::Int(
            if api.value_get_int {
                raw_value::value_get_int(ptr)
            } else {
                0
            },
        );
    }
    if api.value_is_double && raw_value::value_is_double(ptr) {
        return Value::Double(
            if api.value_get_double {
                raw_value::value_get_double(ptr)
            } else {
                Float64::zero()
            },
        );
    }
    if api.value_is_string && raw_value::value_is_string(ptr) {
        if api.value_get_string {
            if let Some(s) = raw_value::value_get_string(ptr) {
                return Value::String(s.clone());
            }
        }
        return Value::String(String::new());
    }
    if api.value_is_list && raw_value::value_is_list(ptr) {
        return Value::List(read_list(api, p));
    }
    if api.value_is_dict && raw_value::value_is_dict(ptr) {
        return Value::Dict(read_dict(api, p));
    }
    if api.value_is_binary && raw_value::value_is_binary(ptr) {
        if api.value_get_binary {
            if let Some(data) = raw_value::value_get_binary(ptr) {
                return Value::Binary(data.clone());
            }
        }
        return Value::Binary(Vec::new());
    }
    Value::Null
}

fn read_list(api: &LaufeyBackendApi, p: &LaufeyValue) -> (r: Vec<Value>)
    requires
        p@ is List,
    ensures
        value::values_view(r@) == (if api.value_list_size && api.value_list_get {
            decoded_list(*api, p@->List_0)
        } else {
            Seq::empty()
        }),
    decreases p@, 0nat,
{
    let ghost l = p@->List_0;
    let size: usize = if api.value_list_size {
        raw_value::value_list_size(Some(p))
    } else {
        0
    };
    let mut list: Vec<Value> = Vec::new();
    if api.value_list_get {
        let mut i: usize = 0;
        while i < size
            invariant
                p@ == ValueView::List(l),
                size == (if api.value_list_size {
                    l.len()
                } else {
                    0
                }),
                i <= size,
                value::values_view(list@) == decoded_list(*api, l.take(i as int)),
            decreases size - i,
        {
            let ghost before = list@;
            if let Some(item) = raw_value::value_list_get(Some(p), i) {
                assert(decreases_to!(p@ => l));
                assert(decreases_to!(l => l[i as int]));
                let v = read_value(api, item);
                list.push(v);
            }
            proof {
                assert(list@.drop_last() =~= before);
                assert(l.take(i as int + 1).drop_last() =~= l.take(i as int));
            }
            i = i + 1;
        }
        proof {
            if api.value_list_size {
                assert(l.take(size as int) =~= l);
            }
        }
    }
    list
}

fn read_dict(api: &LaufeyBackendApi, p: &LaufeyValue) -> (r: Dict)
    requires
        p@ is Dict,
    ensures
        r@ == (if api.value_dict_keys && api.value_dict_get {
            decoded_entries(*api, p@->Dict_0)
        } else {
            Seq::empty()
        }),
    decreases p@, 0nat,
{
    let ghost e = p@->Dict_0;
    let mut dict = Dict::new();
    if api.value_dict_keys {
        if let Some(keys) = raw_value::value_dict_keys(Some(p)) {
            let mut i: usize = 0;
            while i < keys.len()
                invariant
                    p@ == ValueView::Dict(e),
                    keys@.len() == e.len(),
                    forall|j: int| 0 <= j < e.len() ==> (#[trigger] keys@[j])@ == e[j].0,
                    value::keys_distinct(e),
                    i <= keys.len(),
                    dict@ == (if api.value_dict_get {
                        decoded_entries(*api, e.take(i as int))
                    } else {
                        Seq::empty()
                    }),
                decreases keys.len() - i,
            {
                let ghost before = dict@;
                if api.value_dict_get {
                    proof {
                        value::lookup_finds(e, i as int);
                        assert(keys@[i as int]@ == e[i as int].0);
                    }
                    if let Some(val) = raw_value::value_dict_get(Some(p), Some(keys[i].as_str())) {
                        proof {
                            assert(decreases_to!(p@ => e));
                            assert(decreases_to!(e => e[i as int]));
                            assert(decreases_to!(e[i as int] => e[i as int].1));
                        }
                        let v = read_value(api, val);
                        dict.insert(keys[i].clone(), v);
                        proof {
                            decoded_entries_keys(*api, e.take(i as int));
                            assert(!value::has_key(before, e[i as int].0)) by {
                                if value::has_key(before, e[i as int].0) {
                                    let j = choose|j: int|
                                        0 <= j < before.len() && (#[trigger] before[j]).0
                                            == e[i as int].0;
                                    assert(before[j].0 == e.take(i as int)[j].0);
                                    assert(e[j].0 == e[i as int].0);
                                }
                            }
                        }
                    }
                }
                proof {
                    assert(e.take(i as int + 1).drop_last() =~= e.take(i as int));
                }
                i = i + 1;
            }
            proof {
                assert(e.take(e.len() as int) =~= e);
            }
        }
    }
    dict
}

fn build_list(api: &LaufeyBackendApi, items: &Vec<Value>) -> (r: LaufeyValue)
    requires
        api.value_list && api.value_list_append ==> sendable_list(*api, value::values_view(items@)),
        api.value_list,
    ensures
        r@ == ValueView::List(
            if api.value_list_append {
                encoded_list(*api, value::values_view(items@))
            } else {
                Seq::empty()
            },
        ),
    decreases value::values_view(items@),
{
    let mut list = raw_value::value_list();
    if api.value_list_append {
        let ghost l = value::values_view(items@);
        proof {
            value::values_view_elements(items@);
        }
        let mut i: usize = 0;
        while i < items.len()
            invariant
                l == value::values_view(items@),
                l.len() == items@.len(),
                forall|j: int| 0 <= j < l.len() ==> #[trigger] l[j] == items@[j]@,
                sendable_list(*api, l),
                i <= items.len(),
                list@ == ValueView::List(encoded_list(*api, l.take(i as int))),
            decreases items.len() - i,
        {
            proof {
                sendable_list_prefix(*api, l, i as int + 1);
                assert(l.take(i as int + 1).drop_last() =~= l.take(i as int));
                assert(l[i as int] == items@[i as int]@);
                assert(decreases_to!(l => l[i as int]));
            }
            let mut raw = items[i].to_raw(api);
            raw_value::value_list_append(&mut list, &mut raw);
            i = i + 1;
        }
        proof {
            assert(l.take(l.len() as int) =~= l);
        }
    }
    list
}

fn build_dict(api: &LaufeyBackendApi, map: &Dict) -> (r: LaufeyValue)
    requires
        api.value_dict && api.value_dict_set ==> sendable_entries(*api, map@),
        api.value_dict,
    ensures
        r@ == ValueView::Dict(
            if api.value_dict_set {
                encoded_entries(*api, map@)
            } else {
                Seq::empty()
            },
        ),
    decreases map@,
{
    let mut dict = raw_value::value_dict();
    if api.value_dict_set {
        let n: usize = map.len();
        let ghost e = map@;
        let mut i: usize = 0;
        while i < n
            invariant
                e == map@,
                n == e.len(),
                value::keys_distinct(e),
                sendable_entries(*api, e),
                i <= n,
                dict@ == ValueView::Dict(encoded_entries(*api, e.take(i as int))),
            decreases n - i,
        {
            let entry = map.entry_at(i);
            proof {
                sendable_entries_prefix(*api, e, i as int + 1);
                assert(e.take(i as int + 1).drop_last() =~= e.take(i as int));
                assert(decreases_to!(e => e[i as int]));
                assert(decreases_to!(e[i as int] => e[i as int].1));
            }
            let ghost before = encoded_entries(*api, e.take(i as int));
            let mut raw = entry.1.to_raw(api);
            raw_value::value_dict_set(&mut dict, Some(entry.0.clone()), &mut raw);
            proof {
                assert(!value::has_key(before, e[i as int].0)) by {
                    if value::has_key(before, e[i as int].0) {
                        encoded_entries_keys(*api, e.take(i as int), e[i as int].0);
                        let j = choose|j: int|
                            0 <= j < e.take(i as int).len() && (#[trigger] e.take(i as int)[j]).0
                                == e[i as int].0;
                        assert(e[j].0 == e[i as int].0);
                    }
                }
            }
            i = i + 1;
        }
        proof {
            assert(e.take(e.len() as int) =~= e);
        }
    }
    dict
}

/// Through a table that has every reading operation, a backend value reads as
/// exactly what it is.
pub proof fn reading_is_exact(t: LaufeyBackendApi, v: ValueView)
    requires
        t.reads_values(),
    ensures
        decoded(t, v) == v,
    decreases v,
{
    match v {
        ValueView::List(l) => reading_list_is_exact(t, l),
        ValueView::Dict(e) => reading_entries_is_exact(t, e),
        _ => {},
    }
}

proof fn reading_list_is_exact(t: LaufeyBackendApi, l: Seq<ValueView>)
    requires
        t.reads_values(),
    ensures
        decoded_list(t, l) == l,
    decreases l,
{
    if l.len() > 0 {
        reading_list_is_exact(t, l.drop_last());
        reading_is_exact(t, l.last());
        assert(l.drop_last().push(l.last()) =~= l);
    }
}

proof fn reading_entries_is_exact(t: LaufeyBackendApi, e: Seq<(Seq<char>, ValueView)>)
    requires
        t.reads_values(),
    ensures
        decoded_entries(t, e) == e,
    decreases e,
{
    if e.len() > 0 {
        reading_entries_is_exact(t, e.drop_last());
        assert(decreases_to!(e => e.last()));
        reading_is_exact(t, e.last().1);
        assert(e.drop_last().push(e.last()) =~= e);
    }
}

/// Through a table that has every building operation, a value is built as
/// exactly what it is.
pub proof fn building_is_exact(t: LaufeyBackendApi, v: ValueView)
    requires
        t.builds_values(),
    ensures
        encoded(t, v) == Some(v),
    decreases v,
{
    match v {
        ValueView::List(l) => building_list_is_exact(t, l),
        ValueView::Dict(e) => building_entries_is_exact(t, e),
        _ => {},
    }
}

proof fn building_list_is_exact(t: LaufeyBackendApi, l: Seq<ValueView>)
    requires
        t.builds_values(),
    ensures
        encoded_list(t, l) == l,
    decreases l,
{
    if l.len() > 0 {
        building_list_is_exact(t, l.drop_last());
        building_is_exact(t, l.last());
        assert(l.drop_last().push(l.last()) =~= l);
    }
}

proof fn building_entries_is_exact(t: LaufeyBackendApi, e: Seq<(Seq<char>, ValueView)>)
    requires
        t.builds_values(),
    ensures
        encoded_entries(t, e) == e,
    decreases e,
{
    if e.len() > 0 {
        building_entries_is_exact(t, e.drop_last());
        assert(decreases_to!(e => e.last()));
        building_is_exact(t, e.last().1);
        assert(e.drop_last().push(e.last()) =~= e);
    }
}

/// A value sent to the backend and read back is the value that was sent.
pub proof fn value_round_trip(t: LaufeyBackendApi, v: ValueView)
    requires
        t.reads_values(),
        t.builds_values(),
    ensures
        encoded(t, v) matches Some(raw) && decoded(t, raw) == v,
{
    building_is_exact(t, v);
    reading_is_exact(t, v);
}

} // verus!
