//! Backend-side values and the operations of the value section of the API
//! table. A null pointer is `None`.

use crate::float::Float64;
use crate::text;
use crate::text::text_eq;
use crate::value;
use crate::value::ValueView;
use vstd::prelude::*;

verus! {

/// A value owned by the backend. Children are boxed, so a borrowed child stays
/// where it is while its list or dictionary grows.
pub struct LaufeyValue {
    inner: SimpleValue,
}

enum SimpleValue {
    Null,
    Bool(bool),
    Int(i32),
    Double(Float64),
    String(String),
    List(Vec<Box<LaufeyValue>>),
    Dict(Vec<(String, Box<LaufeyValue>)>),
    Binary(Vec<u8>),
}

spec fn items_view(s: Seq<Box<LaufeyValue>>) -> Seq<ValueView>
    decreases s,
{
    if s.len() == 0 {
        Seq::empty()
    } else {
        items_view(s.drop_last()).push(s.last().view())
    }
}

spec fn entries_view(s: Seq<(String, Box<LaufeyValue>)>) -> Seq<(Seq<char>, ValueView)>
    decreases s,
{
    if s.len() == 0 {
        Seq::empty()
    } else {
        entries_view(s.drop_last()).push((s.last().0@, s.last().1.view()))
    }
}

proof fn items_view_elements(s: Seq<Box<LaufeyValue>>)
    ensures
        items_view(s).len() == s.len(),
        forall|i: int| 0 <= i < s.len() ==> #[trigger] items_view(s)[i] == s[i].view(),
    decreases s.len(),
{
    if s.len() > 0 {
        items_view_elements(s.drop_last());
    }
}

proof fn entries_view_elements(s: Seq<(String, Box<LaufeyValue>)>)
    ensures
        entries_view(s).len() == s.len(),
        forall|i: int|
            0 <= i < s.len() ==> #[trigger] entries_view(s)[i] == (s[i].0@, s[i].1.view()),
    decreases s.len(),
{
    if s.len() > 0 {
        entries_view_elements(s.drop_last());
    }
}

/// Every key is free of NUL characters.
pub open spec fn keys_nul_free(e: Seq<(Seq<char>, ValueView)>) -> bool {
    forall|i: int| 0 <= i < e.len() ==> text::nul_free((#[trigger] e[i]).0)
}

/// What holds of the outermost layer of any backend value: text and keys have
/// come in as C strings, and no key occurs twice.
pub open spec fn c_clean(v: ValueView) -> bool {
    match v {
        ValueView::Text(s) => text::nul_free(s),
        ValueView::Dict(e) => value::keys_distinct(e) && keys_nul_free(e),
        _ => true,
    }
}

impl LaufeyValue {
    pub closed spec fn view(&self) -> ValueView
        decreases self,
    {
        match self.inner {
            SimpleValue::Null => ValueView::Null,
            SimpleValue::Bool(b) => ValueView::Bool(b),
            SimpleValue::Int(i) => ValueView::Int(i),
            SimpleValue::Double(d) => ValueView::Double(d),
            SimpleValue::String(s) => ValueView::Text(s@),
            SimpleValue::List(l) => ValueView::List(items_view(l@)),
            SimpleValue::Dict(e) => ValueView::Dict(entries_view(e@)),
            SimpleValue::Binary(b) => ValueView::Binary(b@),
        }
    }

    #[verifier::type_invariant]
    spec fn inv(&self) -> bool {
        c_clean(self.view())
    }
}

/// The view of a possibly absent value.
pub open spec fn opt_view(v: Option<&LaufeyValue>) -> Option<ValueView> {
    match v {
        Some(x) => Some(x@),
        None => None,
    }
}

pub fn value_is_null(val: Option<&LaufeyValue>) -> (r: bool)
    ensures
        r == (val is None || opt_view(val) == Some(ValueView::Null)),
{
    match val {
        None => true,
        Some(v) => matches!(v.inner, SimpleValue::Null),
    }
}

pub fn value_is_bool(val: Option<&LaufeyValue>) -> (r: bool)
    ensures
        r == (opt_view(val) matches Some(ValueView::Bool(_))),
{
    match val {
        None => false,
        Some(v) => matches!(v.inner, SimpleValue::Bool(_)),
    }
}

pub fn value_is_int(val: Option<&LaufeyValue>) -> (r: bool)
    ensures
        r == (opt_view(val) matches Some(ValueView::Int(_))),
{
    match val {
        None => false,
        Some(v) => matches!(v.inner, SimpleValue::Int(_)),
    }
}

pub fn value_is_double(val: Option<&LaufeyValue>) -> (r: bool)
    ensures
        r == (opt_view(val) matches Some(ValueView::Double(_))),
{
    match val {
        None => false,
        Some(v) => matches!(v.inner, SimpleValue::Double(_)),
    }
}

pub fn value_is_string(val: Option<&LaufeyValue>) -> (r: bool)
    ensures
        r == (opt_view(val) matches Some(ValueView::Text(_))),
{
    match val {
        None => false,
        Some(v) => matches!(v.inner, SimpleValue::String(_)),
    }
}

pub fn value_is_list(val: Option<&LaufeyValue>) -> (r: bool)
    ensures
        r == (opt_view(val) matches Some(ValueView::List(_))),
{
    match val {
        None => false,
        Some(v) => matches!(v.inner, SimpleValue::List(_)),
    }
}

pub fn value_is_dict(val: Option<&LaufeyValue>) -> (r: bool)
    ensures
        r == (opt_view(val) matches Some(ValueView::Dict(_))),
{
    match val {
        None => false,
        Some(v) => matches!(v.inner, SimpleValue::Dict(_)),
    }
}

pub fn value_is_binary(val: Option<&LaufeyValue>) -> (r: bool)
    ensures
        r == (opt_view(val) matches Some(ValueView::Binary(_))),
{
    match val {
        None => false,
        Some(v) => matches!(v.inner, SimpleValue::Binary(_)),
    }
}

/// This backend has no callback values.
pub fn value_is_callback(_val: Option<&LaufeyValue>) -> (r: bool)
    ensures
        !r,
{
    false
}

pub fn value_get_bool(val: Option<&LaufeyValue>) -> (r: bool)
    ensures
        r == (match opt_view(val) {
            Some(ValueView::Bool(b)) => b,
            _ => false,
        }),
{
    match val {
        None => false,
        Some(v) => match v.inner {
            SimpleValue::Bool(b) => b,
            _ => false,
        },
    }
}

pub fn value_get_int(val: Option<&LaufeyValue>) -> (r: i32)
    ensures
        r == (match opt_view(val) {
            Some(ValueView::Int(i)) => i,
            _ => 0,
        }),
{
    match val {
        None => 0,
        Some(v) => match v.inner {
            SimpleValue::Int(i) => i,
            _ => 0,
        },
    }
}

pub fn value_get_double(val: Option<&LaufeyValue>) -> (r: Float64)
    ensures
        r == (match opt_view(val) {
            Some(ValueView::Double(d)) => d,
            _ => Float64 { bits: 0 },
        }),
{
    match val {
        None => Float64::zero(),
        Some(v) => match v.inner {
            SimpleValue::Double(d) => d,
            _ => Float64::zero(),
        },
    }
}

/// The text, which has no NUL inside and so can be copied out as a C string.
pub fn value_get_string(val: Option<&LaufeyValue>) -> (r: Option<&String>)
    ensures
        match opt_view(val) {
            Some(ValueView::Text(s)) => r matches Some(t) && t@ == s && text::nul_free(s),
            _ => r is None,
        },
{
    match val {
        None => None,
        Some(v) => {
            proof {
                use_type_invariant(v);
            }
            match &v.inner {
                SimpleValue::String(s) => Some(s),
                _ => None,
            }
        },
    }
}

pub fn value_list_size(val: Option<&LaufeyValue>) -> (r: usize)
    ensures
        r as nat == (match opt_view(val) {
            Some(ValueView::List(l)) => l.len(),
            _ => 0,
        }),
{
    match val {
        None => 0,
        Some(v) => match &v.inner {
            SimpleValue::List(items) => {
                proof {
                    items_view_elements(items@);
                }
                items.len()
            },
            _ => 0,
        },
    }
}

pub fn value_list_get(val: Option<&LaufeyValue>, idx: usize) -> (r: Option<&LaufeyValue>)
    ensures
        opt_view(r) == (match opt_view(val) {
            Some(ValueView::List(l)) if idx < l.len() => Some(l[idx as int]),
            _ => None,
        }),
{
    match val {
        None => None,
        Some(v) => match &v.inner {
            SimpleValue::List(items) => {
                proof {
                    items_view_elements(items@);
                }
                if idx < items.len() {
                    Some(&*items[idx])
                } else {
                    None
                }
            },
            _ => None,
        },
    }
}

/// The place of a key among the entries of a dictionary.
fn find_entry(entries: &Vec<(String, Box<LaufeyValue>)>, key: &str) -> (r: Option<usize>)
    ensures
        r matches Some(i) ==> i < entries@.len() && entries@[i as int].0@ == key@,
        r is None ==> forall|j: int| 0 <= j < entries@.len() ==> (#[trigger] entries@[j]).0@ != key@,
{
    let mut i: usize = 0;
    while i < entries.len()
        invariant
            i <= entries.len(),
            forall|j: int| 0 <= j < i ==> (#[trigger] entries@[j]).0@ != key@,
        decreases entries.len() - i,
    {
        if text_eq(entries[i].0.as_str(), key) {
            return Some(i);
        }
        i = i + 1;
    }
    None
}

pub fn value_dict_get<'a>(val: Option<&'a LaufeyValue>, key: Option<&str>) -> (r: Option<
    &'a LaufeyValue,
>)
    ensures
        opt_view(r) == (match (opt_view(val), key) {
            (Some(ValueView::Dict(e)), Some(k)) => value::lookup(e, k@),
            _ => None,
        }),
{
    match (val, key) {
        (Some(v), Some(k)) => {
            proof {
                use_type_invariant(v);
            }
            match &v.inner {
                SimpleValue::Dict(entries) => {
                    proof {
                        entries_view_elements(entries@);
                    }
                    let ghost e = entries_view(entries@);
                    match find_entry(entries, k) {
                        Some(i) => {
                            proof {
                                value::lookup_finds(e, i as int);
                            }
                            Some(&*entries[i].1)
                        },
                        None => {
                            proof {
                                value::lookup_misses(e, k@);
                            }
                            None
                        },
                    }
                },
                _ => None,
            }
        },
        _ => None,
    }
}

pub fn value_dict_has(val: Option<&LaufeyValue>, key: Option<&str>) -> (r: bool)
    ensures
        r == (match (opt_view(val), key) {
            (Some(ValueView::Dict(e)), Some(k)) => value::has_key(e, k@),
            _ => false,
        }),
{
    match (val, key) {
        (Some(v), Some(k)) => match &v.inner {
            SimpleValue::Dict(entries) => {
                proof {
                    entries_view_elements(entries@);
                }
                let ghost e = entries_view(entries@);
                match find_entry(entries, k) {
                    Some(i) => {
                        assert(e[i as int].0 == k@);
                        true
                    },
                    None => false,
                }
            },
            _ => false,
        },
        _ => false,
    }
}

pub fn value_dict_size(val: Option<&LaufeyValue>) -> (r: usize)
    ensures
        r as nat == (match opt_view(val) {
            Some(ValueView::Dict(e)) => e.len(),
            _ => 0,
        }),
{
    match val {
        None => 0,
        Some(v) => match &v.inner {
            SimpleValue::Dict(entries) => {
                proof {
                    entries_view_elements(entries@);
                }
                entries.len()
            },
            _ => 0,
        },
    }
}

/// The keys of a dictionary in the order of its entries, each a text that can
/// be copied out as a C string. An empty dictionary gives no key array at all.
pub fn value_dict_keys(val: Option<&LaufeyValue>) -> (r: Option<Vec<String>>)
    ensures
        match opt_view(val) {
            Some(ValueView::Dict(e)) if e.len() > 0 => {
                &&& r matches Some(keys)
                &&& keys@.len() == e.len()
                &&& forall|i: int| 0 <= i < e.len() ==> (#[trigger] keys@[i])@ == e[i].0
                &&& keys_nul_free(e)
                &&& value::keys_distinct(e)
            },
            _ => r is None,
        },
{
    match val {
        None => None,
        Some(v) => {
            proof {
                use_type_invariant(v);
            }
            match &v.inner {
                SimpleValue::Dict(entries) => {
                    proof {
                        entries_view_elements(entries@);
                    }
                    let n: usize = entries.len();
                    if n == 0 {
                        return None;
                    }
                    let mut keys: Vec<String> = Vec::new();
                    let mut i: usize = 0;
                    while i < n
                        invariant
                            n == entries@.len(),
                            i <= n,
                            keys@.len() == i,
                            forall|j: int| 0 <= j < i ==> (#[trigger] keys@[j])@ == entries@[j].0@,
                        decreases n - i,
                    {
                        keys.push(entries[i].0.clone());
                        i = i + 1;
                    }
                    Some(keys)
                },
                _ => None,
            }
        },
    }
}

pub fn value_get_binary(val: Option<&LaufeyValue>) -> (r: Option<&Vec<u8>>)
    ensures
        match opt_view(val) {
            Some(ValueView::Binary(b)) => r matches Some(data) && data@ == b,
            _ => r is None,
        },
{
    match val {
        None => None,
        Some(v) => match &v.inner {
            SimpleValue::Binary(data) => Some(data),
            _ => None,
        },
    }
}

/// No value carries a callback here, so the id is always 0.
pub fn value_get_callback_id(_val: Option<&LaufeyValue>) -> (r: u64)
    ensures
        r == 0,
{
    0
}

pub fn value_null() -> (r: LaufeyValue)
    ensures
        r@ == ValueView::Null,
{
    LaufeyValue { inner: SimpleValue::Null }
}

pub fn value_bool(v: bool) -> (r: LaufeyValue)
    ensures
        r@ == ValueView::Bool(v),
{
    LaufeyValue { inner: SimpleValue::Bool(v) }
}

pub fn value_int(v: i32) -> (r: LaufeyValue)
    ensures
        r@ == ValueView::Int(v),
{
    LaufeyValue { inner: SimpleValue::Int(v) }
}

pub fn value_double(v: Float64) -> (r: LaufeyValue)
    ensures
        r@ == ValueView::Double(v),
{
    LaufeyValue { inner: SimpleValue::Double(v) }
}

/// A text value from a C string; a null string gives the empty text.
pub fn value_string(v: Option<String>) -> (r: LaufeyValue)
    requires
        v matches Some(s) ==> text::nul_free(s@),
    ensures
        r@ == ValueView::Text(
            match v {
                Some(s) => s@,
                None => Seq::empty(),
            },
        ),
{
    match v {
        None => LaufeyValue { inner: SimpleValue::String(String::new()) },
        Some(s) => LaufeyValue { inner: SimpleValue::String(s) },
    }
}

pub fn value_list() -> (r: LaufeyValue)
    ensures
        r@ == ValueView::List(Seq::empty()),
{
    LaufeyValue { inner: SimpleValue::List(Vec::new()) }
}

pub fn value_dict() -> (r: LaufeyValue)
    ensures
        r@ == ValueView::Dict(Seq::empty()),
{
    LaufeyValue { inner: SimpleValue::Dict(Vec::new()) }
}

/// A binary value from a buffer; a null buffer gives no bytes.
pub fn value_binary(data: Option<Vec<u8>>) -> (r: LaufeyValue)
    ensures
        r@ == ValueView::Binary(
            match data {
                Some(d) => d@,
                None => Seq::empty(),
            },
        ),
{
    match data {
        None => LaufeyValue { inner: SimpleValue::Binary(Vec::new()) },
        Some(d) => LaufeyValue { inner: SimpleValue::Binary(d) },
    }
}

/// Appends to a list and takes the value over. Anything but a list, or an
/// absent value, is refused and changes nothing.
pub fn value_list_append(list: &mut LaufeyValue, val: &mut Option<Box<LaufeyValue>>) -> (r: bool)
    ensures
        match (old(list)@, *old(val)) {
            (ValueView::List(l), Some(v)) => {
                &&& r
                &&& final(list)@ == ValueView::List(l.push(v@))
                &&& *final(val) is None
            },
            _ => !r && *final(list) == *old(list) && *final(val) == *old(val),
        },
{
    if val.is_none() {
        return false;
    }
    if !matches!(list.inner, SimpleValue::List(_)) {
        return false;
    }
    let mut inner = SimpleValue::Null;
    std::mem::swap(&mut inner, &mut list.inner);
    match (inner, val.take()) {
        (SimpleValue::List(mut items), Some(v)) => {
            let ghost before = items@;
            items.push(v);
            proof {
                assert(items@.drop_last() =~= before);
            }
            list.inner = SimpleValue::List(items);
            true
        },
        _ => false,
    }
}

/// Replaces the element at a position of a list. Anything but a list, a
/// position past its end, or an absent value is refused and changes nothing.
pub fn value_list_set(
    list: &mut LaufeyValue,
    idx: usize,
    val: &mut Option<Box<LaufeyValue>>,
) -> (r: bool)
    ensures
        match (old(list)@, *old(val)) {
            (ValueView::List(l), Some(v)) if idx < l.len() => {
                &&& r
                &&& final(list)@ == ValueView::List(l.update(idx as int, v@))
                &&& *final(val) is None
            },
            _ => !r && *final(list) == *old(list) && *final(val) == *old(val),
        },
{
    if val.is_none() {
        return false;
    }
    match &list.inner {
        SimpleValue::List(items) => {
            proof {
                items_view_elements(items@);
            }
            if idx >= items.len() {
                return false;
            }
        },
        _ => {
            return false;
        },
    }
    let mut inner = SimpleValue::Null;
    std::mem::swap(&mut inner, &mut list.inner);
    match (inner, val.take()) {
        (SimpleValue::List(mut items), Some(v)) => {
            let ghost before = items@;
            items.set(idx, v);
            proof {
                items_view_elements(items@);
                assert(items_view(items@) =~= items_view(before).update(idx as int, v@));
            }
            list.inner = SimpleValue::List(items);
            true
        },
        _ => false,
    }
}

/// Sets a key of a dictionary, replacing what was there. Anything but a
/// dictionary, or an absent key or value, is refused and changes nothing.
pub fn value_dict_set(
    dict: &mut LaufeyValue,
    key: Option<String>,
    val: &mut Option<Box<LaufeyValue>>,
) -> (r: bool)
    requires
        key matches Some(k) ==> text::nul_free(k@),
    ensures
        match (old(dict)@, key, *old(val)) {
            (ValueView::Dict(e), Some(k), Some(v)) => {
                &&& r
                &&& final(dict)@ == ValueView::Dict(value::with_entry(e, k@, v@))
                &&& *final(val) is None
            },
            _ => !r && *final(dict) == *old(dict) && *final(val) == *old(val),
        },
{
    if val.is_none() || key.is_none() {
        return false;
    }
    if !matches!(dict.inner, SimpleValue::Dict(_)) {
        return false;
    }
    proof {
        use_type_invariant(&*dict);
    }
    let mut inner = SimpleValue::Null;
    std::mem::swap(&mut inner, &mut dict.inner);
    match (inner, key, val.take()) {
        (SimpleValue::Dict(mut entries), Some(k), Some(v)) => {
            let ghost before = entries@;
            let ghost e = entries_view(entries@);
            let ghost (kv, vv) = (k@, v@);
            proof {
                entries_view_elements(entries@);
            }
            match find_entry(&entries, k.as_str()) {
                Some(i) => {
                    entries.set(i, (k, v));
                    proof {
                        entries_view_elements(entries@);
                        assert(e[i as int].0 == kv);
                        assert forall|j: int| 0 <= j < e.len() implies entries_view(entries@)[j]
                            == value::with_entry(e, kv, vv)[j] by {
                            if j != i {
                                assert(e[j].0 != e[i as int].0);
                            }
                        }
                    }
                },
                None => {
                    entries.push((k, v));
                    proof {
                        entries_view_elements(entries@);
                        assert(!value::has_key(e, kv));
                        assert(entries@.drop_last() =~= before);
                    }
                },
            }
            proof {
                assert(entries_view(entries@) =~= value::with_entry(e, kv, vv));
                value::set_then_get(e, kv, vv, kv);
                assert(keys_nul_free(value::with_entry(e, kv, vv)));
            }
            dict.inner = SimpleValue::Dict(entries);
            true
        },
        _ => false,
    }
}

} // verus!
