//! Menu templates: what an embedder writes, how it crosses as a value, and what
//! the backend reads back.

use crate::api::LaufeyBackendApi;
use crate::convert;
use crate::raw_value;
use crate::raw_value::LaufeyValue;
use crate::text::text_eq;
use crate::value;
use crate::value::{Dict, Value, ValueView};
use vstd::prelude::*;

verus! {

/// A menu item in an application menu template.
pub enum MenuItem {
    /// A regular menu item with label and optional properties.
    Item {
        label: String,
        id: Option<String>,
        accelerator: Option<String>,
        enabled: bool,
        /// Checkmark next to the item.
        checked: bool,
        /// Item icon: PNG-encoded image bytes.
        icon: Option<Vec<u8>>,
        /// Tooltip shown on hover.
        tooltip: Option<String>,
    },
    /// A submenu containing child items.
    Submenu { label: String, items: Vec<MenuItem> },
    /// A separator line.
    Separator,
    /// A standard role-based item (quit, copy, paste, etc.)
    Role { role: String },
}

/// The entries with `key` set, where there is a value for it.
pub open spec fn with_optional(
    e: Seq<(Seq<char>, ValueView)>,
    key: Seq<char>,
    v: Option<ValueView>,
) -> Seq<(Seq<char>, ValueView)> {
    match v {
        Some(x) => value::with_entry(e, key, x),
        None => e,
    }
}

/// The text value of an optional text.
pub open spec fn text_value(s: Option<String>) -> Option<ValueView> {
    match s {
        Some(t) => Some(ValueView::Text(t@)),
        None => None,
    }
}

/// The binary value of optional bytes.
pub open spec fn bytes_value(b: Option<Vec<u8>>) -> Option<ValueView> {
    match b {
        Some(d) => Some(ValueView::Binary(d@)),
        None => None,
    }
}

/// The value `v` if the condition holds.
pub open spec fn value_if(cond: bool, v: ValueView) -> Option<ValueView> {
    if cond {
        Some(v)
    } else {
        None
    }
}

/// The entries that a regular item becomes. An option that has its default is
/// left out: no id, no accelerator, enabled, not checked, no icon, no tooltip.
pub open spec fn item_entries(
    label: String,
    id: Option<String>,
    accelerator: Option<String>,
    enabled: bool,
    checked: bool,
    icon: Option<Vec<u8>>,
    tooltip: Option<String>,
) -> Seq<(Seq<char>, ValueView)> {
    let e0 = value::with_entry(Seq::empty(), "label"@, ValueView::Text(label@));
    let e1 = with_optional(e0, "id"@, text_value(id));
    let e2 = with_optional(e1, "accelerator"@, text_value(accelerator));
    let e3 = with_optional(e2, "enabled"@, value_if(!enabled, ValueView::Bool(false)));
    let e4 = with_optional(e3, "checked"@, value_if(checked, ValueView::Bool(true)));
    let e5 = with_optional(e4, "icon"@, bytes_value(icon));
    with_optional(e5, "tooltip"@, text_value(tooltip))
}

/// The value that a template item becomes.
pub open spec fn menu_value(item: MenuItem) -> ValueView
    decreases item,
{
    match item {
        MenuItem::Item { label, id, accelerator, enabled, checked, icon, tooltip } => {
            ValueView::Dict(
                item_entries(label, id, accelerator, enabled, checked, icon, tooltip),
            )
        },
        MenuItem::Submenu { label, items } => ValueView::Dict(
            value::with_entry(
                value::with_entry(Seq::empty(), "label"@, ValueView::Text(label@)),
                "submenu"@,
                ValueView::List(menu_values(items@)),
            ),
        ),
        MenuItem::Separator => ValueView::Dict(
            value::with_entry(Seq::empty(), "type"@, ValueView::Text("separator"@)),
        ),
        MenuItem::Role { role } => ValueView::Dict(
            value::with_entry(Seq::empty(), "role"@, ValueView::Text(role@)),
        ),
    }
}

/// The values that the items of a template become.
pub open spec fn menu_values(items: Seq<MenuItem>) -> Seq<ValueView>
    decreases items,
{
    if items.len() == 0 {
        Seq::empty()
    } else {
        menu_values(items.drop_last()).push(menu_value(items.last()))
    }
}

impl MenuItem {
    /// The value form of an item, as the backend expects it.
    pub fn to_value(&self) -> (r: Value)
        ensures
            r@ == menu_value(*self),
        decreases self,
    {
        match self {
            MenuItem::Item { label, id, accelerator, enabled, checked, icon, tooltip } => {
                let mut dict = Dict::new();
                dict.insert("label".to_string(), Value::String(label.clone()));
                if let Some(id) = id {
                    dict.insert("id".to_string(), Value::String(id.clone()));
                }
                if let Some(accel) = accelerator {
                    dict.insert("accelerator".to_string(), Value::String(accel.clone()));
                }
                if !*enabled {
                    dict.insert("enabled".to_string(), Value::Bool(false));
                }
                if *checked {
                    dict.insert("checked".to_string(), Value::Bool(true));
                }
                if let Some(icon) = icon {
                    dict.insert("icon".to_string(), Value::Binary(icon.clone()));
                }
                if let Some(tooltip) = tooltip {
                    dict.insert("tooltip".to_string(), Value::String(tooltip.clone()));
                }
                Value::Dict(dict)
            },
            MenuItem::Submenu { label, items } => {
                let mut dict = Dict::new();
                dict.insert("label".to_string(), Value::String(label.clone()));
                let children = template_values(items.as_slice());
                dict.insert("submenu".to_string(), Value::List(children));
                Value::Dict(dict)
            },
            MenuItem::Separator => {
                let mut dict = Dict::new();
                dict.insert("type".to_string(), Value::String("separator".to_string()));
                Value::Dict(dict)
            },
            MenuItem::Role { role } => {
                let mut dict = Dict::new();
                dict.insert("role".to_string(), Value::String(role.clone()));
                Value::Dict(dict)
            },
        }
    }
}

/// The value forms of the items of a template, in order.
pub fn template_values(items: &[MenuItem]) -> (r: Vec<Value>)
    ensures
        value::values_view(r@) == menu_values(items@),
    decreases items@,
{
    let mut out: Vec<Value> = Vec::new();
    let mut i: usize = 0;
    while i < items.len()
        invariant
            i <= items@.len(),
            value::values_view(out@) == menu_values(items@.take(i as int)),
        decreases items@.len() - i,
    {
        let ghost before = out@;
        let v = items[i].to_value();
        out.push(v);
        proof {
            assert(out@.drop_last() =~= before);
            assert(items@.take(i as int + 1).drop_last() =~= items@.take(i as int));
        }
        i = i + 1;
    }
    proof {
        assert(items@.take(items@.len() as int) =~= items@);
    }
    out
}

/// A menu template as one value.
pub open spec fn template_value(items: Seq<MenuItem>) -> ValueView {
    ValueView::List(menu_values(items))
}

/// A menu entry as the backend holds it.
pub enum ParsedMenuItem {
    Item { id: String, label: String, accelerator: Option<String>, enabled: bool },
    Submenu { label: String, items: Vec<ParsedMenuItem> },
    Separator,
    Role { role: String },
}

/// A menu entry by its contents.
#[verifier::ext_equal]
pub enum ParsedView {
    Item {
        id: Seq<char>,
        label: Seq<char>,
        accelerator: Option<Seq<char>>,
        enabled: bool,
    },
    Submenu { label: Seq<char>, items: Seq<ParsedView> },
    Separator,
    Role { role: Seq<char> },
}

/// The contents of an optional text.
pub open spec fn opt_text(s: Option<String>) -> Option<Seq<char>> {
    match s {
        Some(t) => Some(t@),
        None => None,
    }
}

impl ParsedMenuItem {
    pub open spec fn view(&self) -> ParsedView
        decreases self,
    {
        match *self {
            ParsedMenuItem::Item { id, label, accelerator, enabled } => ParsedView::Item {
                id: id@,
                label: label@,
                accelerator: opt_text(accelerator),
                enabled,
            },
            ParsedMenuItem::Submenu { label, items } => ParsedView::Submenu {
                label: label@,
                items: parsed_view(items@),
            },
            ParsedMenuItem::Separator => ParsedView::Separator,
            ParsedMenuItem::Role { role } => ParsedView::Role { role: role@ },
        }
    }
}

/// The entries of a menu, each by its contents.
pub open spec fn parsed_view(items: Seq<ParsedMenuItem>) -> Seq<ParsedView>
    decreases items,
{
    if items.len() == 0 {
        Seq::empty()
    } else {
        parsed_view(items.drop_last()).push(items.last().view())
    }
}

/// The text stored under a key, if there is one.
pub open spec fn entry_text(e: Seq<(Seq<char>, ValueView)>, key: Seq<char>) -> Option<Seq<char>> {
    match value::lookup(e, key) {
        Some(ValueView::Text(s)) => Some(s),
        _ => None,
    }
}

/// `s`, or `default` where there is none.
pub open spec fn text_or(s: Option<Seq<char>>, default: Seq<char>) -> Seq<char> {
    match s {
        Some(t) => t,
        None => default,
    }
}

/// A value found in a dictionary lies strictly inside it.
pub proof fn lookup_decreases(e: Seq<(Seq<char>, ValueView)>, key: Seq<char>)
    ensures
        value::lookup(e, key) matches Some(v) ==> decreases_to!(e => v),
    decreases e.len(),
{
    if e.len() > 0 {
        assert(decreases_to!(e => e.last()));
        assert(decreases_to!(e.last() => e.last().1));
        assert(decreases_to!(e => e.drop_last()));
        lookup_decreases(e.drop_last(), key);
    }
}

/// What one element of a template reads as. Only dictionaries count. A
/// separator type wins over a role, a role over a list of children, and
/// anything else is a regular item: its id defaults to its label, its label to
/// nothing, and it is enabled unless a boolean says otherwise.
pub open spec fn parsed_entry(v: ValueView) -> Option<ParsedView>
    decreases v,
{
    match v {
        ValueView::Dict(e) => {
            let label = text_or(entry_text(e, "label"@), Seq::empty());
            if entry_text(e, "type"@) == Some("separator"@) {
                Some(ParsedView::Separator)
            } else {
                match (entry_text(e, "role"@), value::lookup(e, "submenu"@)) {
                    (Some(role), _) => Some(ParsedView::Role { role }),
                    (None, Some(ValueView::List(l))) => {
                        proof {
                            lookup_decreases(e, "submenu"@);
                        }
                        Some(ParsedView::Submenu { label, items: parsed_list(l) })
                    },
                    (None, _) => Some(
                        ParsedView::Item {
                            id: text_or(entry_text(e, "id"@), label),
                            label,
                            accelerator: entry_text(e, "accelerator"@),
                            enabled: value::lookup(e, "enabled"@) != Some(ValueView::Bool(false)),
                        },
                    ),
                }
            }
        },
        _ => None,
    }
}

/// What the elements of a template read as; those that are no dictionaries are
/// passed over.
pub open spec fn parsed_list(l: Seq<ValueView>) -> Seq<ParsedView>
    decreases l,
{
    if l.len() == 0 {
        Seq::empty()
    } else {
        match parsed_entry(l.last()) {
            Some(p) => parsed_list(l.drop_last()).push(p),
            None => parsed_list(l.drop_last()),
        }
    }
}

/// What a template reads as: nothing unless it is a list.
pub open spec fn parsed_template(t: Option<ValueView>) -> Seq<ParsedView> {
    match t {
        Some(ValueView::List(l)) => parsed_list(l),
        _ => Seq::empty(),
    }
}

/// Reads a text out of a dictionary.
pub fn laufey_dict_string(dict: Option<&LaufeyValue>, key: &str) -> (r: Option<String>)
    ensures
        opt_text(r) == (match raw_value::opt_view(dict) {
            Some(ValueView::Dict(e)) => entry_text(e, key@),
            _ => None,
        }),
{
    let val = raw_value::value_dict_get(dict, Some(key));
    if !raw_value::value_is_string(val) {
        return None;
    }
    match raw_value::value_get_string(val) {
        Some(s) => Some(s.clone()),
        None => None,
    }
}

/// Reads a menu template.
pub fn parse_menu_template(template: Option<&LaufeyValue>) -> (r: Vec<ParsedMenuItem>)
    ensures
        parsed_view(r@) == parsed_template(raw_value::opt_view(template)),
{
    match template {
        Some(t) => if raw_value::value_is_list(template) {
            parse_items(t)
        } else {
            Vec::new()
        },
        None => Vec::new(),
    }
}

fn parse_items(template: &LaufeyValue) -> (r: Vec<ParsedMenuItem>)
    requires
        template@ is List,
    ensures
        parsed_view(r@) == parsed_list(template@->List_0),
    decreases template@,
{
    let ghost l = template@->List_0;
    let mut items: Vec<ParsedMenuItem> = Vec::new();
    let count: usize = raw_value::value_list_size(Some(template));
    let mut i: usize = 0;
    while i < count
        invariant
            template@ == ValueView::List(l),
            count == l.len(),
            i <= count,
            parsed_view(items@) == parsed_list(l.take(i as int)),
        decreases count - i,
    {
        let ghost before = items@;
        if let Some(entry) = raw_value::value_list_get(Some(template), i) {
            proof {
                assert(decreases_to!(template@ => l));
                assert(decreases_to!(l => l[i as int]));
            }
            if let Some(item) = parse_entry(entry) {
                items.push(item);
                assert(items@.drop_last() =~= before);
            }
        }
        proof {
            assert(l.take(i as int + 1).drop_last() =~= l.take(i as int));
        }
        i = i + 1;
    }
    proof {
        assert(l.take(count as int) =~= l);
    }
    items
}

fn parse_entry(entry: &LaufeyValue) -> (r: Option<ParsedMenuItem>)
    ensures
        match parsed_entry(entry@) {
            Some(p) => r matches Some(item) && item@ == p,
            None => r is None,
        },
    decreases entry@,
{
    let dict = Some(entry);
    if !raw_value::value_is_dict(dict) {
        return None;
    }
    let ghost e = entry@->Dict_0;
    if let Some(ty) = laufey_dict_string(dict, "type") {
        if text_eq(ty.as_str(), "separator") {
            return Some(ParsedMenuItem::Separator);
        }
    }
    if let Some(role) = laufey_dict_string(dict, "role") {
        return Some(ParsedMenuItem::Role { role });
    }
    let submenu_val = raw_value::value_dict_get(dict, Some("submenu"));
    if raw_value::value_is_list(submenu_val) {
        if let Some(submenu) = submenu_val {
            let label = match laufey_dict_string(dict, "label") {
                Some(l) => l,
                None => String::new(),
            };
            proof {
                lookup_decreases(e, "submenu"@);
                assert(decreases_to!(entry@ => e));
            }
            let children = parse_items(submenu);
            return Some(ParsedMenuItem::Submenu { label, items: children });
        }
    }
    let label = match laufey_dict_string(dict, "label") {
        Some(l) => l,
        None => String::new(),
    };
    let id = match laufey_dict_string(dict, "id") {
        Some(id) => id,
        None => label.clone(),
    };
    let accelerator = laufey_dict_string(dict, "accelerator");
    let enabled_val = raw_value::value_dict_get(dict, Some("enabled"));
    let enabled = if !raw_value::value_is_bool(enabled_val) {
        true
    } else {
        raw_value::value_get_bool(enabled_val)
    };
    Some(ParsedMenuItem::Item { id, label, accelerator, enabled })
}

/// The entry that the backend should end up with for a template item: the same
/// label, role or children, the id where one was given and the label otherwise.
pub open spec fn expected_entry(item: MenuItem) -> ParsedView
    decreases item,
{
    match item {
        MenuItem::Item { label, id, accelerator, enabled, checked, icon, tooltip } => {
            ParsedView::Item {
                id: text_or(opt_text(id), label@),
                label: label@,
                accelerator: opt_text(accelerator),
                enabled,
            }
        },
        MenuItem::Submenu { label, items } => ParsedView::Submenu {
            label: label@,
            items: expected_menu(items@),
        },
        MenuItem::Separator => ParsedView::Separator,
        MenuItem::Role { role } => ParsedView::Role { role: role@ },
    }
}

/// The menu that the backend should end up with for a template.
pub open spec fn expected_menu(items: Seq<MenuItem>) -> Seq<ParsedView>
    decreases items,
{
    if items.len() == 0 {
        Seq::empty()
    } else {
        expected_menu(items.drop_last()).push(expected_entry(items.last()))
    }
}

pub(crate) proof fn optional_lookup(
    e: Seq<(Seq<char>, ValueView)>,
    key: Seq<char>,
    v: Option<ValueView>,
    other: Seq<char>,
)
    requires
        value::keys_distinct(e),
    ensures
        value::keys_distinct(with_optional(e, key, v)),
        value::lookup(with_optional(e, key, v), key) == (if v is Some {
            v
        } else {
            value::lookup(e, key)
        }),
        other != key ==> value::lookup(with_optional(e, key, v), other) == value::lookup(e, other),
{
    match v {
        Some(x) => {
            value::set_then_get(e, key, x, other);
        },
        None => {},
    }
}

/// The key is none of those under which an item's options are stored.
spec fn names_no_option(k: Seq<char>) -> bool {
    k != "id"@ && k != "accelerator"@ && k != "enabled"@ && k != "checked"@ && k != "icon"@ && k
        != "tooltip"@
}

/// The key names that menu entries use are all different.
proof fn entry_keys_differ()
    ensures
        "label"@ != "id"@,
        "label"@ != "accelerator"@,
        "label"@ != "enabled"@,
        "label"@ != "checked"@,
        "label"@ != "icon"@,
        "label"@ != "tooltip"@,
        "label"@ != "type"@,
        "label"@ != "role"@,
        "label"@ != "submenu"@,
        names_no_option("type"@),
        names_no_option("role"@),
        names_no_option("submenu"@),
        "type"@ != "role"@,
        "type"@ != "submenu"@,
        "role"@ != "submenu"@,
        "id"@ != "accelerator"@,
        "id"@ != "enabled"@,
        "id"@ != "checked"@,
        "id"@ != "icon"@,
        "id"@ != "tooltip"@,
        "accelerator"@ != "enabled"@,
        "accelerator"@ != "checked"@,
        "accelerator"@ != "icon"@,
        "accelerator"@ != "tooltip"@,
        "enabled"@ != "checked"@,
        "enabled"@ != "icon"@,
        "enabled"@ != "tooltip"@,
{
    reveal_strlit("label");
    reveal_strlit("id");
    reveal_strlit("accelerator");
    reveal_strlit("enabled");
    reveal_strlit("checked");
    reveal_strlit("icon");
    reveal_strlit("tooltip");
    reveal_strlit("type");
    reveal_strlit("role");
    reveal_strlit("submenu");
    assert("label"@.len() == 5 && "id"@.len() == 2 && "accelerator"@.len() == 11);
    assert("enabled"@.len() == 7 && "checked"@.len() == 7 && "tooltip"@.len() == 7);
    assert("submenu"@.len() == 7 && "icon"@.len() == 4 && "type"@.len() == 4 && "role"@.len() == 4);
    assert("enabled"@[0] == 'e' && "checked"@[0] == 'c' && "tooltip"@[0] == 't' && "submenu"@[0]
        == 's');
    assert("icon"@[0] == 'i' && "type"@[0] == 't' && "role"@[0] == 'r');
}

proof fn item_lookup(item: MenuItem, key: Seq<char>)
    requires
        item is Item,
    ensures
        menu_value(item) matches ValueView::Dict(e) && value::keys_distinct(e) && {
            &&& key == "label"@ ==> value::lookup(e, key) == Some(
                ValueView::Text(item->Item_label@),
            )
            &&& key == "id"@ ==> value::lookup(e, key) == text_value(item->Item_id)
            &&& key == "accelerator"@ ==> value::lookup(e, key) == text_value(
                item->Item_accelerator,
            )
            &&& key == "enabled"@ ==> value::lookup(e, key) == value_if(
                !item->Item_enabled,
                ValueView::Bool(false),
            )
            &&& key == "type"@ || key == "role"@ || key == "submenu"@ ==> value::lookup(e, key)
                is None
        },
{
    entry_keys_differ();
    match item {
        MenuItem::Item { label, id, accelerator, enabled, checked, icon, tooltip } => {
            let nothing = Seq::<(Seq<char>, ValueView)>::empty();
            value::lookup_misses(nothing, key);
            value::set_then_get(nothing, "label"@, ValueView::Text(label@), key);
            let e0 = value::with_entry(nothing, "label"@, ValueView::Text(label@));
            value::set_then_get(nothing, "label"@, ValueView::Text(label@), "id"@);
            value::set_then_get(nothing, "label"@, ValueView::Text(label@), "accelerator"@);
            value::set_then_get(nothing, "label"@, ValueView::Text(label@), "enabled"@);
            value::lookup_misses(nothing, "id"@);
            value::lookup_misses(nothing, "accelerator"@);
            value::lookup_misses(nothing, "enabled"@);
            optional_lookup(e0, "id"@, text_value(id), key);
            let e1 = with_optional(e0, "id"@, text_value(id));
            optional_lookup(e0, "id"@, text_value(id), "accelerator"@);
            optional_lookup(e0, "id"@, text_value(id), "enabled"@);
            optional_lookup(e1, "accelerator"@, text_value(accelerator), key);
            let e2 = with_optional(e1, "accelerator"@, text_value(accelerator));
            optional_lookup(e1, "accelerator"@, text_value(accelerator), "enabled"@);
            let en = value_if(!enabled, ValueView::Bool(false));
            optional_lookup(e2, "enabled"@, en, key);
            let e3 = with_optional(e2, "enabled"@, en);
            let ch = value_if(checked, ValueView::Bool(true));
            optional_lookup(e3, "checked"@, ch, key);
            let e4 = with_optional(e3, "checked"@, ch);
            optional_lookup(e4, "icon"@, bytes_value(icon), key);
            let e5 = with_optional(e4, "icon"@, bytes_value(icon));
            optional_lookup(e5, "tooltip"@, text_value(tooltip), key);
        },
        _ => {},
    }
}

/// A template item that crosses to the backend is read there as the entry that
/// was meant.
pub proof fn menu_item_round_trip(item: MenuItem)
    ensures
        parsed_entry(menu_value(item)) == Some(expected_entry(item)),
    decreases item,
{
    entry_keys_differ();
    let nothing = Seq::<(Seq<char>, ValueView)>::empty();
    match item {
        MenuItem::Item { label, id, accelerator, enabled, checked, icon, tooltip } => {
            item_lookup(item, "label"@);
            item_lookup(item, "id"@);
            item_lookup(item, "accelerator"@);
            item_lookup(item, "enabled"@);
            item_lookup(item, "type"@);
            item_lookup(item, "role"@);
            item_lookup(item, "submenu"@);
        },
        MenuItem::Submenu { label, items } => {
            assert(decreases_to!(item => items));
            menu_round_trip(items@);
            let e0 = value::with_entry(nothing, "label"@, ValueView::Text(label@));
            let list = ValueView::List(menu_values(items@));
            value::set_then_get(nothing, "label"@, ValueView::Text(label@), "type"@);
            value::set_then_get(nothing, "label"@, ValueView::Text(label@), "role"@);
            value::lookup_misses(nothing, "type"@);
            value::lookup_misses(nothing, "role"@);
            value::set_then_get(e0, "submenu"@, list, "label"@);
            value::set_then_get(e0, "submenu"@, list, "type"@);
            value::set_then_get(e0, "submenu"@, list, "role"@);
        },
        MenuItem::Separator => {
            value::set_then_get(nothing, "type"@, ValueView::Text("separator"@), "type"@);
        },
        MenuItem::Role { role } => {
            value::set_then_get(nothing, "role"@, ValueView::Text(role@), "type"@);
            value::lookup_misses(nothing, "type"@);
        },
    }
}

/// A template that crosses to the backend is read there as the menu that was
/// meant, entry for entry.
pub proof fn menu_round_trip(items: Seq<MenuItem>)
    ensures
        parsed_list(menu_values(items)) == expected_menu(items),
    decreases items,
{
    if items.len() > 0 {
        menu_round_trip(items.drop_last());
        menu_item_round_trip(items.last());
        assert(menu_values(items).drop_last() =~= menu_values(items.drop_last()));
    }
}

/// The whole path of a template: built through a table that can build values,
/// it is parsed as the menu that was meant.
pub proof fn template_reaches_the_backend(t: LaufeyBackendApi, items: Seq<MenuItem>)
    requires
        t.builds_values(),
    ensures
        parsed_template(convert::encoded(t, template_value(items))) == expected_menu(items),
{
    convert::building_is_exact(t, template_value(items));
    menu_round_trip(items);
}

} // verus!
