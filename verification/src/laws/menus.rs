//! Menus: from a template to the native menu, and from a click to its callback.

use crate::api::LaufeyBackendApi;
use crate::backend::{Backend, CommonEvent};
use crate::convert;
use crate::event_loop::{App, LoopAction};
use crate::handles::WindowHandles;
use crate::menu;
use crate::menu::{parse_menu_template, template_values, MenuItem, ParsedMenuItem};
use crate::menu_build;
use crate::menu_build::{
    append_muda_item, build_muda_context_menu, build_muda_menu, predefined_for_lowercase,
    predefined_menu_item, MenuCallbackInfo, MenuNode, PredefinedItem,
};
use crate::platform::Platform;
use crate::raw_value::LaufeyValue;
use crate::text;
use crate::value;
use crate::value::{Value, ValueView};
use crate::window_ops::{handle_common_event, WindowOp};
use vstd::prelude::*;

verus! {

proof fn role_names_differ()
    ensures
        "quit"@.len() == 4 && "quit"@[0] == 'q',
        "copy"@.len() == 4 && "copy"@[0] == 'c',
        "undo"@.len() == 4 && "undo"@[0] == 'u',
        "redo"@.len() == 4 && "redo"@[0] == 'r',
        "hide"@.len() == 4 && "hide"@[0] == 'h',
        "cut"@.len() == 3,
        "paste"@.len() == 5 && "paste"@[0] == 'p',
        "close"@.len() == 5 && "close"@[0] == 'c',
        "about"@.len() == 5 && "about"@[0] == 'a',
        "selectall"@.len() == 9 && "selectall"@[2] == 'l',
        "separator"@.len() == 9 && "separator"@[2] == 'p',
        "minimize"@.len() == 8,
        "hideothers"@.len() == 10,
        "unhide"@.len() == 6,
        "showall"@.len() == 7,
        "togglefullscreen"@.len() == 16,
{
    reveal_strlit("quit");
    reveal_strlit("copy");
    reveal_strlit("undo");
    reveal_strlit("redo");
    reveal_strlit("hide");
    reveal_strlit("cut");
    reveal_strlit("paste");
    reveal_strlit("close");
    reveal_strlit("about");
    reveal_strlit("selectall");
    reveal_strlit("separator");
    reveal_strlit("minimize");
    reveal_strlit("hideothers");
    reveal_strlit("unhide");
    reveal_strlit("showall");
    reveal_strlit("togglefullscreen");
}

/// Each role gives the standard item of its name, on every platform; those for
/// hiding, showing all and the about box are given on macOS alone. A name that is
/// none of these gives nothing.
pub proof fn roles_give_their_items(role: &str, platform: Platform, r: Option<PredefinedItem>)
    requires
        call_ensures(predefined_for_lowercase, (role, platform), r),
    ensures
        role@ == "quit"@ ==> r == Some(PredefinedItem::Quit),
        role@ == "copy"@ ==> r == Some(PredefinedItem::Copy),
        role@ == "cut"@ ==> r == Some(PredefinedItem::Cut),
        role@ == "paste"@ ==> r == Some(PredefinedItem::Paste),
        role@ == "selectall"@ ==> r == Some(PredefinedItem::SelectAll),
        role@ == "undo"@ ==> r == Some(PredefinedItem::Undo),
        role@ == "redo"@ ==> r == Some(PredefinedItem::Redo),
        role@ == "minimize"@ ==> r == Some(PredefinedItem::Minimize),
        role@ == "close"@ ==> r == Some(PredefinedItem::CloseWindow),
        role@ == "togglefullscreen"@ ==> r == Some(PredefinedItem::Fullscreen),
        role@ == "separator"@ ==> r == Some(PredefinedItem::Separator),
        role@ == "hide"@ && platform is MacOs ==> r == Some(PredefinedItem::Hide),
        role@ == "hideothers"@ && platform is MacOs ==> r == Some(PredefinedItem::HideOthers),
        role@ == "unhide"@ && platform is MacOs ==> r == Some(PredefinedItem::ShowAll),
        role@ == "showall"@ && platform is MacOs ==> r == Some(PredefinedItem::ShowAll),
        role@ == "about"@ && platform is MacOs ==> r == Some(PredefinedItem::About),
        !(platform is MacOs) && (role@ == "hide"@ || role@ == "hideothers"@ || role@ == "unhide"@
            || role@ == "showall"@ || role@ == "about"@) ==> r is None,
        r is Some ==> role@ == "quit"@ || role@ == "copy"@ || role@ == "cut"@ || role@ == "paste"@
            || role@ == "selectall"@ || role@ == "undo"@ || role@ == "redo"@ || role@ == "minimize"@
            || role@ == "close"@ || role@ == "togglefullscreen"@ || role@ == "separator"@ || role@
            == "hide"@ || role@ == "hideothers"@ || role@ == "unhide"@ || role@ == "showall"@
            || role@ == "about"@,
{
    role_names_differ();
}

/// A role that is written with capital letters gives what it gives in small ones.
pub proof fn roles_are_read_in_any_case(
    role: &str,
    small: &str,
    platform: Platform,
    r: Option<PredefinedItem>,
    plain: Option<PredefinedItem>,
)
    requires
        call_ensures(predefined_menu_item, (role, platform), r),
        call_ensures(predefined_for_lowercase, (small, platform), plain),
        role@.len() == small@.len(),
        forall|i: int| 0 <= i < role@.len() ==> (#[trigger] role@[i]) as u32 <= 127,
        forall|i: int|
            0 <= i < role@.len() ==> #[trigger] small@[i] == (if 'A' <= role@[i] <= 'Z' {
                ((role@[i] as u32) + 32) as char
            } else {
                role@[i]
            }),
    ensures
        r == plain,
{
    assert(menu_build::ascii(role@));
    assert(menu_build::ascii_lowered(role@) =~= small@);
}

/// The node is what a parsed entry becomes: an item keeps its id, label and
/// whether it is enabled, and its accelerator if that is a shortcut; a
/// submenu keeps its label and has a node for each of its entries.
pub open spec fn is_node_of(entry: ParsedMenuItem, node: MenuNode) -> bool
    decreases entry,
{
    match entry {
        ParsedMenuItem::Item { id, label, accelerator, enabled } => {
            &&& node matches MenuNode::Item { id: i, label: l, accelerator: a, enabled: e }
            &&& i@ == id@ && l@ == label@ && e == enabled
            &&& (a is Some) == (accelerator is Some && menu_build::accelerator_accepted(
                accelerator->0@,
            ))
            &&& a matches Some(shortcut) ==> shortcut@ == accelerator->0@
        },
        ParsedMenuItem::Submenu { label, items } => {
            &&& node matches MenuNode::Submenu { label: l, children }
            &&& l@ == label@ && children@.len() == items@.len()
            &&& forall|k: int|
                0 <= k < items@.len() ==> is_node_of(items@[k], #[trigger] children@[k])
        },
        ParsedMenuItem::Separator => node == MenuNode::Predefined(PredefinedItem::Separator),
        ParsedMenuItem::Role { .. } => node is Predefined,
    }
}

/// The menu has no entry that is a role, at any depth.
pub open spec fn without_roles(items: Seq<ParsedMenuItem>) -> bool
    decreases items,
{
    forall|i: int|
        0 <= i < items.len() ==> match #[trigger] items[i] {
            ParsedMenuItem::Role { .. } => false,
            ParsedMenuItem::Submenu { items: inner, .. } => without_roles(inner@),
            _ => true,
        }
}

proof fn nodes_stand_for_entries(
    items: Seq<ParsedMenuItem>,
    nodes: Seq<MenuNode>,
    platform: Platform,
)
    requires
        without_roles(items),
        menu_build::nodes_view(nodes) == menu_build::built_menu(menu::parsed_view(items), platform),
    ensures
        nodes.len() == items.len(),
        forall|i: int| 0 <= i < items.len() ==> is_node_of(items[i], #[trigger] nodes[i]),
    decreases items,
{
    let view = menu::parsed_view(items);
    if items.len() == 0 {
        assert(menu_build::nodes_view(nodes).len() == 0);
    } else {
        let (rest, last) = (items.drop_last(), items.last());
        assert(without_roles(rest)) by {
            assert forall|i: int| 0 <= i < rest.len() implies match #[trigger] rest[i] {
                ParsedMenuItem::Role { .. } => false,
                ParsedMenuItem::Submenu { items: inner, .. } => without_roles(inner@),
                _ => true,
            } by {
                assert(items[i] == rest[i]);
            }
        }
        assert(items[items.len() - 1] == last);
        assert(view.drop_last() =~= menu::parsed_view(rest));
        assert(view.last() == last@);
        let built = menu_build::built_entry(last@, platform);
        assert(built is Some);
        assert(nodes.len() > 0);
        let before = menu_build::nodes_view(nodes.drop_last());
        assert(menu_build::nodes_view(nodes) == before.push(nodes.last()@));
        assert(menu_build::nodes_view(nodes).drop_last() =~= before);
        let expected = menu_build::built_menu(view.drop_last(), platform);
        assert(menu_build::built_menu(view, platform) == expected.push(built->0));
        assert(menu_build::built_menu(view, platform).drop_last() =~= expected);
        assert(nodes.last()@ == built->0) by {
            assert(menu_build::nodes_view(nodes).last() == nodes.last()@);
            assert(menu_build::built_menu(view, platform).last() == built->0);
        }
        nodes_stand_for_entries(rest, nodes.drop_last(), platform);
        match last {
            ParsedMenuItem::Submenu { label, items: inner } => {
                assert(decreases_to!(items => last));
                assert(decreases_to!(last => inner));
                assert(decreases_to!(inner => inner@));
                match nodes.last() {
                    MenuNode::Submenu { label: l, children } => {
                        nodes_stand_for_entries(inner@, children@, platform);
                    },
                    _ => {},
                }
            },
            _ => {},
        }
        assert forall|i: int| 0 <= i < items.len() implies is_node_of(
            items[i],
            #[trigger] nodes[i],
        ) by {
            if i < rest.len() {
                assert(nodes.drop_last()[i] == nodes[i]);
                assert(rest[i] == items[i]);
            } else {
                assert(nodes[i] == nodes.last());
            }
        }
    }
}

/// A native menu bar has a node for each parsed entry, in the order in which the
/// entries are written; so has a context menu.
pub proof fn native_menus_are_the_parsed_ones(
    items: &[ParsedMenuItem],
    platform: Platform,
    r: Vec<MenuNode>,
)
    requires
        without_roles(items@),
        call_ensures(build_muda_menu, (items, platform), r) || call_ensures(
            build_muda_context_menu,
            (items, platform),
            r,
        ),
    ensures
        r@.len() == items@.len(),
        forall|i: int| 0 <= i < items@.len() ==> is_node_of(items@[i], #[trigger] r@[i]),
{
    nodes_stand_for_entries(items@, r@, platform);
}

proof fn node_views(nodes: Seq<MenuNode>)
    ensures
        menu_build::nodes_view(nodes).len() == nodes.len(),
        forall|i: int|
            0 <= i < nodes.len() ==> #[trigger] menu_build::nodes_view(nodes)[i] == nodes[i]@,
    decreases nodes,
{
    if nodes.len() > 0 {
        node_views(nodes.drop_last());
    }
}

/// What is appended for an entry comes after what was there, which stays. A role
/// is appended as the standard item that it gives, and not at all if it gives
/// none; every other entry is appended as one node.
pub proof fn entries_are_appended(
    nodes: &mut Vec<MenuNode>,
    name: &str,
    item: ParsedMenuItem,
    platform: Platform,
    given: Option<PredefinedItem>,
)
    requires
        call_ensures(append_muda_item, (nodes, &item, platform), ()),
        call_ensures(predefined_menu_item, (name, platform), given),
        item matches ParsedMenuItem::Role { role } ==> role@ == name@,
    ensures
        forall|i: int|
            0 <= i < old(nodes)@.len() ==> (#[trigger] final(nodes)@[i])@ == old(nodes)@[i]@,
        item is Role && given is Some ==> final(nodes)@.len() == old(nodes)@.len() + 1 && final(nodes)@.last() == MenuNode::Predefined(given->0),
        item is Role && given is None ==> final(nodes)@.len() == old(nodes)@.len(),
        !(item is Role) ==> final(nodes)@.len() == old(nodes)@.len() + 1,
        item is Separator ==> final(nodes)@.last() == MenuNode::Predefined(
            PredefinedItem::Separator,
        ),
{
    node_views(old(nodes)@);
    node_views(final(nodes)@);
    let (a, b) = (menu_build::nodes_view(old(nodes)@), menu_build::nodes_view(final(nodes)@));
    assert forall|i: int| 0 <= i < old(nodes)@.len() implies (#[trigger] final(nodes)@[i])@ == old(
        nodes,
    )@[i]@ by {
        assert(b[i] == a[i]);
    }
    if b.len() > a.len() {
        assert(b.last() == final(nodes)@.last()@);
    }
}

/// The entry that a template item is read as: with the same label, accelerator,
/// and whether it is enabled, and with its id, or its label where it has none; a
/// submenu has an entry for each of its items, and a role is the same role.
pub open spec fn is_entry_of(item: MenuItem, entry: ParsedMenuItem) -> bool
    decreases item,
{
    match item {
        MenuItem::Item { label, id, accelerator, enabled, .. } => {
            &&& entry matches ParsedMenuItem::Item { id: i, label: l, accelerator: a, enabled: e }
            &&& l@ == label@ && e == enabled
            &&& id matches Some(own) ==> i@ == own@
            &&& id is None ==> i@ == label@
            &&& a is Some == accelerator is Some
            &&& accelerator matches Some(given) ==> (a->0)@ == given@
        },
        MenuItem::Submenu { label, items } => {
            &&& entry matches ParsedMenuItem::Submenu { label: l, items: inner }
            &&& l@ == label@ && inner@.len() == items@.len()
            &&& forall|k: int|
                0 <= k < items@.len() ==> is_entry_of(items@[k], #[trigger] inner@[k])
        },
        MenuItem::Separator => entry is Separator,
        MenuItem::Role { role } => entry matches ParsedMenuItem::Role { role: r } && r@ == role@,
    }
}

proof fn parsed_views(items: Seq<ParsedMenuItem>)
    ensures
        menu::parsed_view(items).len() == items.len(),
        forall|i: int|
            0 <= i < items.len() ==> #[trigger] menu::parsed_view(items)[i] == items[i]@,
    decreases items,
{
    if items.len() > 0 {
        parsed_views(items.drop_last());
    }
}

proof fn expected_entries(items: Seq<MenuItem>)
    ensures
        menu::expected_menu(items).len() == items.len(),
        forall|i: int|
            0 <= i < items.len() ==> #[trigger] menu::expected_menu(items)[i]
                == menu::expected_entry(items[i]),
    decreases items,
{
    if items.len() > 0 {
        expected_entries(items.drop_last());
    }
}

pub(crate) proof fn entries_are_read(items: Seq<MenuItem>, parsed: Seq<ParsedMenuItem>)
    requires
        menu::parsed_view(parsed) == menu::expected_menu(items),
    ensures
        parsed.len() == items.len(),
        forall|i: int| 0 <= i < items.len() ==> is_entry_of(items[i], #[trigger] parsed[i]),
    decreases items,
{
    parsed_views(parsed);
    expected_entries(items);
    assert forall|i: int| 0 <= i < items.len() implies is_entry_of(
        items[i],
        #[trigger] parsed[i],
    ) by {
        assert(menu::parsed_view(parsed)[i] == menu::expected_menu(items)[i]);
        assert(parsed[i]@ == menu::expected_entry(items[i]));
        match (items[i], parsed[i]) {
            (
                MenuItem::Submenu { label, items: a },
                ParsedMenuItem::Submenu { label: l, items: b },
            ) => {
                assert(decreases_to!(items => items[i]));
                assert(decreases_to!(items[i] => a));
                assert(decreases_to!(a => a@));
                entries_are_read(a@, b@);
            },
            _ => {},
        }
    }
}

/// A template crosses to the backend through any table that builds values, and is
/// read there entry for entry.
pub proof fn templates_arrive_entry_for_entry(
    api: LaufeyBackendApi,
    items: &[MenuItem],
    values: Vec<Value>,
    raw: Option<Box<LaufeyValue>>,
    parsed: Vec<ParsedMenuItem>,
)
    requires
        api.builds_values(),
        call_ensures(template_values, (items,), values),
        call_ensures(Value::to_raw, (&Value::List(values), &api), raw),
        call_ensures(
            parse_menu_template,
            (
                match raw {
                    Some(p) => Some(&*p),
                    None => None,
                },
            ),
            parsed,
        ),
    ensures
        raw is Some,
        parsed@.len() == items@.len(),
        forall|i: int| 0 <= i < items@.len() ==> is_entry_of(items@[i], #[trigger] parsed@[i]),
{
    menu::template_reaches_the_backend(api, items@);
    convert::building_is_exact(api, menu::template_value(items@));
    entries_are_read(items@, parsed@);
}

proof fn item_keys_differ()
    ensures
        "label"@.len() == 5 && "id"@.len() == 2 && "accelerator"@.len() == 11,
        "enabled"@.len() == 7 && "checked"@.len() == 7 && "tooltip"@.len() == 7,
        "icon"@.len() == 4,
        "enabled"@[0] == 'e' && "checked"@[0] == 'c' && "tooltip"@[0] == 't',
{
    reveal_strlit("label");
    reveal_strlit("id");
    reveal_strlit("accelerator");
    reveal_strlit("enabled");
    reveal_strlit("checked");
    reveal_strlit("tooltip");
    reveal_strlit("icon");
}

/// An item of a template crosses as a dictionary with its label, and with its id,
/// accelerator, icon and tooltip under their names where it has them. It says that
/// it is disabled, or checked, only where it is.
pub proof fn items_cross_with_their_parts(
    label: String,
    id: Option<String>,
    accelerator: Option<String>,
    enabled: bool,
    checked: bool,
    icon: Option<Vec<u8>>,
    tooltip: Option<String>,
    r: Value,
)
    requires
        call_ensures(
            MenuItem::to_value,
            (
                &MenuItem::Item { label, id, accelerator, enabled, checked, icon, tooltip },
            ),
            r,
        ),
    ensures
        r matches Value::Dict(d) && {
            &&& value::lookup(d@, "label"@) == Some(ValueView::Text(label@))
            &&& id matches Some(t) ==> value::lookup(d@, "id"@) == Some(ValueView::Text(t@))
            &&& id is None ==> value::lookup(d@, "id"@) is None
            &&& accelerator matches Some(t) ==> value::lookup(d@, "accelerator"@) == Some(
                ValueView::Text(t@),
            )
            &&& accelerator is None ==> value::lookup(d@, "accelerator"@) is None
            &&& tooltip matches Some(t) ==> value::lookup(d@, "tooltip"@) == Some(
                ValueView::Text(t@),
            )
            &&& tooltip is None ==> value::lookup(d@, "tooltip"@) is None
            &&& icon matches Some(b) ==> value::lookup(d@, "icon"@) == Some(ValueView::Binary(b@))
            &&& icon is None ==> value::lookup(d@, "icon"@) is None
            &&& !enabled ==> value::lookup(d@, "enabled"@) == Some(ValueView::Bool(false))
            &&& enabled ==> value::lookup(d@, "enabled"@) is None
            &&& checked ==> value::lookup(d@, "checked"@) == Some(ValueView::Bool(true))
            &&& !checked ==> value::lookup(d@, "checked"@) is None
        },
{
    item_part(label, id, accelerator, enabled, checked, icon, tooltip, "label"@);
    item_part(label, id, accelerator, enabled, checked, icon, tooltip, "id"@);
    item_part(label, id, accelerator, enabled, checked, icon, tooltip, "accelerator"@);
    item_part(label, id, accelerator, enabled, checked, icon, tooltip, "enabled"@);
    item_part(label, id, accelerator, enabled, checked, icon, tooltip, "checked"@);
    item_part(label, id, accelerator, enabled, checked, icon, tooltip, "icon"@);
    item_part(label, id, accelerator, enabled, checked, icon, tooltip, "tooltip"@);
    item_keys_differ();
}

proof fn item_part(
    label: String,
    id: Option<String>,
    accelerator: Option<String>,
    enabled: bool,
    checked: bool,
    icon: Option<Vec<u8>>,
    tooltip: Option<String>,
    key: Seq<char>,
)
    ensures
        ({
            let e = menu::item_entries(label, id, accelerator, enabled, checked, icon, tooltip);
            &&& key == "label"@ ==> value::lookup(e, key) == Some(ValueView::Text(label@))
            &&& key == "id"@ ==> value::lookup(e, key) == menu::text_value(id)
            &&& key == "accelerator"@ ==> value::lookup(e, key) == menu::text_value(accelerator)
            &&& key == "enabled"@ ==> value::lookup(e, key) == menu::value_if(
                !enabled,
                ValueView::Bool(false),
            )
            &&& key == "checked"@ ==> value::lookup(e, key) == menu::value_if(
                checked,
                ValueView::Bool(true),
            )
            &&& key == "icon"@ ==> value::lookup(e, key) == menu::bytes_value(icon)
            &&& key == "tooltip"@ ==> value::lookup(e, key) == menu::text_value(tooltip)
        }),
{
    item_keys_differ();
    let nothing = Seq::<(Seq<char>, ValueView)>::empty();
    let text = ValueView::Text(label@);
    value::lookup_misses(nothing, key);
    value::set_then_get(nothing, "label"@, text, key);
    let e0 = value::with_entry(nothing, "label"@, text);
    menu::optional_lookup(e0, "id"@, menu::text_value(id), key);
    let e1 = menu::with_optional(e0, "id"@, menu::text_value(id));
    menu::optional_lookup(e1, "accelerator"@, menu::text_value(accelerator), key);
    let e2 = menu::with_optional(e1, "accelerator"@, menu::text_value(accelerator));
    let off = menu::value_if(!enabled, ValueView::Bool(false));
    menu::optional_lookup(e2, "enabled"@, off, key);
    let e3 = menu::with_optional(e2, "enabled"@, off);
    let on = menu::value_if(checked, ValueView::Bool(true));
    menu::optional_lookup(e3, "checked"@, on, key);
    let e4 = menu::with_optional(e3, "checked"@, on);
    menu::optional_lookup(e4, "icon"@, menu::bytes_value(icon), key);
    let e5 = menu::with_optional(e4, "icon"@, menu::bytes_value(icon));
    menu::optional_lookup(e5, "tooltip"@, menu::text_value(tooltip), key);
}

proof fn ids_at_an_index(items: Seq<ParsedMenuItem>, i: int)
    requires
        0 <= i < items.len(),
    ensures
        items[i] matches ParsedMenuItem::Item { id, .. } ==> menu_build::menu_has_id(
            menu::parsed_view(items),
            id@,
        ),
        items[i] matches ParsedMenuItem::Submenu { items: inner, .. } ==> forall|j: int|
            0 <= j < inner@.len() && #[trigger] inner@[j] is Item ==> menu_build::menu_has_id(
                menu::parsed_view(items),
                (inner@[j]->Item_id)@,
            ),
    decreases items.len(),
{
    reveal_with_fuel(menu_build::menu_has_id, 3);
    reveal_with_fuel(menu_build::entry_has_id, 3);
    let view = menu::parsed_view(items);
    let rest = items.drop_last();
    assert(view.drop_last() =~= menu::parsed_view(rest));
    assert(view.last() == items.last()@);
    if i < rest.len() {
        assert(rest[i] == items[i]);
        ids_at_an_index(rest, i);
    } else {
        match items[i] {
            ParsedMenuItem::Submenu { items: inner, .. } => {
                assert forall|j: int| 0 <= j < inner@.len() && #[trigger] inner@[j] is Item implies
                    menu_build::menu_has_id(view, (inner@[j]->Item_id)@) by {
                    ids_of_items(inner@, j);
                }
            },
            _ => {},
        }
    }
}

proof fn ids_of_items(items: Seq<ParsedMenuItem>, i: int)
    requires
        0 <= i < items.len(),
        items[i] is Item,
    ensures
        menu_build::menu_has_id(menu::parsed_view(items), (items[i]->Item_id)@),
    decreases items.len(),
{
    reveal_with_fuel(menu_build::menu_has_id, 3);
    reveal_with_fuel(menu_build::entry_has_id, 3);
    let view = menu::parsed_view(items);
    let rest = items.drop_last();
    assert(view.drop_last() =~= menu::parsed_view(rest));
    assert(view.last() == items.last()@);
    if i < rest.len() {
        assert(rest[i] == items[i]);
        ids_of_items(rest, i);
    }
}

proof fn no_other_ids(items: Seq<ParsedMenuItem>, id: Seq<char>)
    requires
        forall|i: int|
            0 <= i < items.len() ==> !(#[trigger] items[i] is Submenu) && !(items[i] matches
                ParsedMenuItem::Item { id: own, .. } && own@ == id),
    ensures
        !menu_build::menu_has_id(menu::parsed_view(items), id),
    decreases items.len(),
{
    reveal_with_fuel(menu_build::menu_has_id, 3);
    reveal_with_fuel(menu_build::entry_has_id, 3);
    if items.len() > 0 {
        let view = menu::parsed_view(items);
        let rest = items.drop_last();
        assert(view.drop_last() =~= menu::parsed_view(rest));
        assert(view.last() == items.last()@);
        assert(items[items.len() - 1] == items.last());
        assert forall|i: int| 0 <= i < rest.len() implies !(#[trigger] rest[i] is Submenu) && !(
        rest[i] matches ParsedMenuItem::Item { id: own, .. } && own@ == id) by {
            assert(items[i] == rest[i]);
        }
        no_other_ids(rest, id);
    }
}

/// The menu has a regular item with the id, at the top or in a submenu there.
pub open spec fn shows_id(items: Seq<ParsedMenuItem>, id: Seq<char>) -> bool {
    ||| exists|i: int|
        0 <= i < items.len() && (#[trigger] items[i] matches ParsedMenuItem::Item { id: own, .. }
            && own@ == id)
    ||| exists|i: int, j: int|
        0 <= i < items.len() && #[trigger] is_item_of_submenu(items[i], j, id)
}

/// The entry is a submenu whose entry `j` is a regular item with the id.
pub open spec fn is_item_of_submenu(entry: ParsedMenuItem, j: int, id: Seq<char>) -> bool {
    entry matches ParsedMenuItem::Submenu { items, .. } && 0 <= j < items@.len() && (items@[j]
        matches ParsedMenuItem::Item { id: own, .. } && own@ == id)
}

/// The menu has entries at the top only, and none of them has the id.
pub open spec fn is_flat_without_id(items: Seq<ParsedMenuItem>, id: Seq<char>) -> bool {
    forall|i: int|
        0 <= i < items.len() ==> !(#[trigger] items[i] is Submenu) && !(items[i] matches
            ParsedMenuItem::Item { id: own, .. } && own@ == id)
}

proof fn shown_ids_are_there(items: Seq<ParsedMenuItem>, id: Seq<char>)
    ensures
        shows_id(items, id) ==> menu_build::menu_has_id(menu::parsed_view(items), id),
        is_flat_without_id(items, id) ==> !menu_build::menu_has_id(menu::parsed_view(items), id),
{
    if exists|i: int|
        0 <= i < items.len() && (#[trigger] items[i] matches ParsedMenuItem::Item { id: own, .. }
            && own@ == id) {
        let i = choose|i: int|
            0 <= i < items.len() && (#[trigger] items[i] matches ParsedMenuItem::Item {
                id: own,
                ..
            } && own@ == id);
        ids_at_an_index(items, i);
    } else if shows_id(items, id) {
        let (i, j) = choose|i: int, j: int|
            0 <= i < items.len() && #[trigger] is_item_of_submenu(items[i], j, id);
        ids_at_an_index(items, i);
        assert(items[i] is Submenu);
        assert((items[i]->Submenu_items)@[j] is Item);
    }
    if is_flat_without_id(items, id) {
        no_other_ids(items, id);
    }
}

/// A menu bar and a context menu that were made from a template are handed to the
/// native window as they were parsed, a context menu at the place that was asked
/// for. From then on a click on one of their items goes to the callback that came
/// with the menu, with its data and the window; other ids are answered as before.
pub proof fn window_menus_answer_clicks(
    setting: &mut Backend,
    handling: &mut Backend,
    window_id: u32,
    x: i32,
    y: i32,
    template: Option<&LaufeyValue>,
    callback: usize,
    callback_data: usize,
    parsed: Vec<ParsedMenuItem>,
    platform: Platform,
    event: CommonEvent,
    handled: (bool, Option<WindowOp>),
    id: &str,
    before: Option<MenuCallbackInfo>,
    clicked: Option<MenuCallbackInfo>,
)
    requires
        old(setting).common.windows@.contains_key(window_id),
        call_ensures(
            Backend::backend_set_application_menu,
            (setting, window_id, template, Some(callback), callback_data),
            (),
        ) && event == (CommonEvent::SetApplicationMenu { window_id }) || call_ensures(
            Backend::backend_show_context_menu,
            (setting, window_id, x, y, template, Some(callback), callback_data),
            (),
        ) && event == (CommonEvent::ShowContextMenu { window_id }),
        call_ensures(parse_menu_template, (template,), parsed),
        without_roles(parsed@),
        *old(handling) == *final(setting),
        call_ensures(handle_common_event, (handling, &event, window_id, platform), handled),
        text::nul_free(id@),
        call_ensures(
            Backend::backend_test_click_menu_item,
            (&*old(handling), Some(id)),
            before,
        ),
        call_ensures(
            Backend::backend_test_click_menu_item,
            (&*final(handling), Some(id)),
            clicked,
        ),
    ensures
        final(setting).queue@.last() == event,
        handled.0,
        event is SetApplicationMenu ==> {
            &&& handled.1 matches Some(WindowOp::InstallMenu { nodes })
            &&& nodes@.len() == parsed@.len()
            &&& forall|i: int| 0 <= i < parsed@.len() ==> is_node_of(parsed@[i], #[trigger] nodes@[i])
        },
        event is ShowContextMenu ==> {
            &&& handled.1 matches Some(WindowOp::PopupMenu { x: px, y: py, nodes })
            &&& px == x && py == y && nodes@.len() == parsed@.len()
            &&& forall|i: int| 0 <= i < parsed@.len() ==> is_node_of(parsed@[i], #[trigger] nodes@[i])
        },
        shows_id(parsed@, id@) ==> clicked == Some(
            MenuCallbackInfo { callback, callback_data, window_id },
        ),
        is_flat_without_id(parsed@, id@) ==> clicked == before,
{
    shown_ids_are_there(parsed@, id@);
    let ws = old(handling).common.windows@[window_id];
    match handled.1 {
        Some(WindowOp::InstallMenu { nodes }) => {
            assert(menu_build::nodes_view(nodes@) == menu_build::built_menu(
                menu::parsed_view(parsed@),
                platform,
            ));
            nodes_stand_for_entries(parsed@, nodes@, platform);
        },
        Some(WindowOp::PopupMenu { x: px, y: py, nodes }) => {
            assert(menu_build::nodes_view(nodes@) == menu_build::built_menu(
                menu::parsed_view(parsed@),
                platform,
            ));
            nodes_stand_for_entries(parsed@, nodes@, platform);
        },
        _ => {},
    }
}

/// A click on an item of a tray icon's menu goes to the callback that came with
/// the menu, with its data and the icon's id; other ids are answered as before.
pub proof fn tray_menus_answer_clicks(
    setting: &mut Backend,
    tray_id: u32,
    template: &LaufeyValue,
    callback: usize,
    callback_data: usize,
    parsed: Vec<ParsedMenuItem>,
    id: &str,
    before: Option<MenuCallbackInfo>,
    clicked: Option<MenuCallbackInfo>,
)
    requires
        call_ensures(
            Backend::backend_set_tray_menu,
            (setting, tray_id, Some(template), Some(callback), callback_data),
            (),
        ),
        call_ensures(parse_menu_template, (Some(template),), parsed),
        text::nul_free(id@),
        call_ensures(Backend::backend_test_click_menu_item, (&*old(setting), Some(id)), before),
        call_ensures(Backend::backend_test_click_menu_item, (&*final(setting), Some(id)), clicked),
    ensures
        shows_id(parsed@, id@) ==> clicked == Some(
            MenuCallbackInfo { callback, callback_data, window_id: tray_id },
        ),
        is_flat_without_id(parsed@, id@) ==> clicked == before,
{
    shown_ids_are_there(parsed@, id@);
}

/// The event loop carries out what was asked of a window's menus: it is told to
/// install the menu bar, or to pop the context menu up, on that window.
pub proof fn menus_are_carried_out(
    setting: &mut Backend,
    looping: &mut Backend,
    app: &mut App,
    handles: &mut WindowHandles,
    window_id: u32,
    x: i32,
    y: i32,
    template: Option<&LaufeyValue>,
    callback: usize,
    callback_data: usize,
    parsed: Vec<ParsedMenuItem>,
    platform: Platform,
    action: LoopAction,
    id: &str,
    clicked: Option<MenuCallbackInfo>,
)
    requires
        old(setting).common.windows@.contains_key(window_id),
        old(app).windows@.contains_key(window_id),
        call_ensures(parse_menu_template, (template,), parsed),
        *old(looping) == *final(setting),
        call_ensures(
            App::user_event,
            (app, looping, handles, final(setting).queue@.last(), platform),
            action,
        ),
        call_ensures(
            Backend::backend_test_click_menu_item,
            (&*final(looping), Some(id)),
            clicked,
        ),
        text::nul_free(id@),
    ensures
        call_ensures(
            Backend::backend_set_application_menu,
            (setting, window_id, template, Some(callback), callback_data),
            (),
        ) ==> {
            &&& action matches LoopAction::Operate {
                window_id: w,
                op: Some(WindowOp::InstallMenu { .. }),
            } && w == window_id
            &&& shows_id(parsed@, id@) ==> clicked == Some(
                MenuCallbackInfo { callback, callback_data, window_id },
            )
        },
        call_ensures(
            Backend::backend_show_context_menu,
            (setting, window_id, x, y, template, Some(callback), callback_data),
            (),
        ) ==> {
            &&& action matches LoopAction::Operate {
                window_id: w,
                op: Some(WindowOp::PopupMenu { x: a, y: b, .. }),
            } && w == window_id && a == x && b == y
            &&& shows_id(parsed@, id@) ==> clicked == Some(
                MenuCallbackInfo { callback, callback_data, window_id },
            )
        },
{
    shown_ids_are_there(parsed@, id@);
}

} // verus!
