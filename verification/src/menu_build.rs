//! From parsed menu entries to the native menu that is to be built, and from
//! clicks on it back to the callbacks that were registered for them.

use crate::api::LaufeyBackendApi;
use crate::convert;
use crate::menu;
use crate::menu::{MenuItem, ParsedMenuItem, ParsedView};
use crate::platform::Platform;
use crate::text;
use crate::text::{is_nul_free, text_eq};
use crate::text_map::TextMap;
use vstd::prelude::*;

verus! {

/// A standard menu item that the platform provides.
#[derive(Clone, Copy, Debug, PartialEq, Eq, Structural)]
pub enum PredefinedItem {
    Quit,
    Copy,
    Cut,
    Paste,
    SelectAll,
    Undo,
    Redo,
    Minimize,
    CloseWindow,
    Hide,
    HideOthers,
    ShowAll,
    About,
    Fullscreen,
    Separator,
}

/// A node of a native menu.
pub enum MenuNode {
    Item { id: String, label: String, accelerator: Option<String>, enabled: bool },
    Submenu { label: String, children: Vec<MenuNode> },
    Predefined(PredefinedItem),
}

/// A node of a native menu by its contents.
#[verifier::ext_equal]
pub enum NodeView {
    Item {
        id: Seq<char>,
        label: Seq<char>,
        accelerator: Option<Seq<char>>,
        enabled: bool,
    },
    Submenu { label: Seq<char>, children: Seq<NodeView> },
    Predefined(PredefinedItem),
}

impl MenuNode {
    pub open spec fn view(&self) -> NodeView
        decreases self,
    {
        match *self {
            MenuNode::Item { id, label, accelerator, enabled } => NodeView::Item {
                id: id@,
                label: label@,
                accelerator: menu::opt_text(accelerator),
                enabled,
            },
            MenuNode::Submenu { label, children } => NodeView::Submenu {
                label: label@,
                children: nodes_view(children@),
            },
            MenuNode::Predefined(p) => NodeView::Predefined(p),
        }
    }
}

/// The nodes of a menu, each by its contents.
pub open spec fn nodes_view(nodes: Seq<MenuNode>) -> Seq<NodeView>
    decreases nodes,
{
    if nodes.len() == 0 {
        Seq::empty()
    } else {
        nodes_view(nodes.drop_last()).push(nodes.last().view())
    }
}

/// The lowercase form of a text, by the Unicode rules that `str::to_lowercase`
/// follows.
pub uninterp spec fn lowercase_of(s: Seq<char>) -> Seq<char>;

/// Whether a text is a keyboard shortcut that muda's `Accelerator` can be
/// parsed from.
pub uninterp spec fn accelerator_accepted(s: Seq<char>) -> bool;

/// The text has ASCII characters only.
pub open spec fn ascii(s: Seq<char>) -> bool {
    forall|i: int| 0 <= i < s.len() ==> (#[trigger] s[i]) as u32 <= 127
}

/// The text with the letters A to Z replaced by a to z.
pub open spec fn ascii_lowered(s: Seq<char>) -> Seq<char> {
    s.map_values(
        |c: char|
            if 'A' <= c <= 'Z' {
                ((c as u32) + 32) as char
            } else {
                c
            },
    )
}

/// `str::to_lowercase`: the result is a function of the text. On text that is
/// ASCII only, the letters A to Z become a to z and the rest stays.
#[verifier::external_body]
fn to_lowercase(s: &str) -> (r: String)
    ensures
        r@ == lowercase_of(s@),
        ascii(s@) ==> r@ == ascii_lowered(s@),
{
    s.to_lowercase()
}

/// `<muda::accelerator::Accelerator as FromStr>::from_str`: whether the parse
/// succeeds is a function of the text, on every platform the same. Which keys
/// `CmdOrCtrl` stands for differs between platforms; that is not claimed here.
#[verifier::external_body]
fn accelerator_parses(s: &str) -> (r: bool)
    ensures
        r == accelerator_accepted(s@),
{
    s.parse::<muda::accelerator::Accelerator>().is_ok()
}

/// The standard item for a role whose name is already in lower case. Hiding,
/// showing all and the about box are standard on macOS only.
pub open spec fn predefined_for(role: Seq<char>, platform: Platform) -> Option<PredefinedItem> {
    let macos = platform == Platform::MacOs;
    if role == "quit"@ {
        Some(PredefinedItem::Quit)
    } else if role == "copy"@ {
        Some(PredefinedItem::Copy)
    } else if role == "cut"@ {
        Some(PredefinedItem::Cut)
    } else if role == "paste"@ {
        Some(PredefinedItem::Paste)
    } else if role == "selectall"@ {
        Some(PredefinedItem::SelectAll)
    } else if role == "undo"@ {
        Some(PredefinedItem::Undo)
    } else if role == "redo"@ {
        Some(PredefinedItem::Redo)
    } else if role == "minimize"@ {
        Some(PredefinedItem::Minimize)
    } else if role == "close"@ {
        Some(PredefinedItem::CloseWindow)
    } else if macos && role == "hide"@ {
        Some(PredefinedItem::Hide)
    } else if macos && role == "hideothers"@ {
        Some(PredefinedItem::HideOthers)
    } else if macos && (role == "unhide"@ || role == "showall"@) {
        Some(PredefinedItem::ShowAll)
    } else if macos && role == "about"@ {
        Some(PredefinedItem::About)
    } else if role == "togglefullscreen"@ {
        Some(PredefinedItem::Fullscreen)
    } else if role == "separator"@ {
        Some(PredefinedItem::Separator)
    } else {
        None
    }
}

/// The standard item for a role name in lower case.
pub fn predefined_for_lowercase(role: &str, platform: Platform) -> (r: Option<PredefinedItem>)
    ensures
        r == predefined_for(role@, platform),
{
    let macos = platform == Platform::MacOs;
    if text_eq(role, "quit") {
        Some(PredefinedItem::Quit)
    } else if text_eq(role, "copy") {
        Some(PredefinedItem::Copy)
    } else if text_eq(role, "cut") {
        Some(PredefinedItem::Cut)
    } else if text_eq(role, "paste") {
        Some(PredefinedItem::Paste)
    } else if text_eq(role, "selectall") {
        Some(PredefinedItem::SelectAll)
    } else if text_eq(role, "undo") {
        Some(PredefinedItem::Undo)
    } else if text_eq(role, "redo") {
        Some(PredefinedItem::Redo)
    } else if text_eq(role, "minimize") {
        Some(PredefinedItem::Minimize)
    } else if text_eq(role, "close") {
        Some(PredefinedItem::CloseWindow)
    } else if macos && text_eq(role, "hide") {
        Some(PredefinedItem::Hide)
    } else if macos && text_eq(role, "hideothers") {
        Some(PredefinedItem::HideOthers)
    } else if macos && (text_eq(role, "unhide") || text_eq(role, "showall")) {
        Some(PredefinedItem::ShowAll)
    } else if macos && text_eq(role, "about") {
        Some(PredefinedItem::About)
    } else if text_eq(role, "togglefullscreen") {
        Some(PredefinedItem::Fullscreen)
    } else if text_eq(role, "separator") {
        Some(PredefinedItem::Separator)
    } else {
        None
    }
}

/// The lower case form of a role's name: letter by letter where it is ASCII.
pub open spec fn lowered(role: Seq<char>) -> Seq<char> {
    if ascii(role) {
        ascii_lowered(role)
    } else {
        lowercase_of(role)
    }
}

/// The standard item for a role, whatever the case it is written in.
pub fn predefined_menu_item(role: &str, platform: Platform) -> (r: Option<PredefinedItem>)
    ensures
        r == predefined_for(lowered(role@), platform),
{
    let lowered = to_lowercase(role);
    predefined_for_lowercase(lowered.as_str(), platform)
}

/// The accelerator that an item keeps: the one it was given, if it is valid.
pub open spec fn kept_accelerator(text: Option<Seq<char>>, accepted: bool) -> Option<Seq<char>> {
    if accepted {
        text
    } else {
        None
    }
}

/// The node of a regular item whose accelerator has been checked.
pub fn item_node(
    id: &String,
    label: &String,
    accelerator: &Option<String>,
    accepted: bool,
    enabled: bool,
) -> (r: MenuNode)
    ensures
        r@ == (NodeView::Item {
            id: id@,
            label: label@,
            accelerator: kept_accelerator(menu::opt_text(*accelerator), accepted),
            enabled,
        }),
{
    let kept = match accelerator {
        Some(a) => if accepted {
            Some(a.clone())
        } else {
            None
        },
        None => None,
    };
    MenuNode::Item { id: id.clone(), label: label.clone(), accelerator: kept, enabled }
}

/// The node that a parsed entry becomes. An unknown role becomes nothing, and
/// an accelerator that is no shortcut is dropped.
pub open spec fn built_entry(p: ParsedView, platform: Platform) -> Option<NodeView>
    decreases p,
{
    match p {
        ParsedView::Item { id, label, accelerator, enabled } => Some(
            NodeView::Item {
                id,
                label,
                accelerator: kept_accelerator(
                    accelerator,
                    accelerator matches Some(a) && accelerator_accepted(a),
                ),
                enabled,
            },
        ),
        ParsedView::Submenu { label, items } => Some(
            NodeView::Submenu { label, children: built_menu(items, platform) },
        ),
        ParsedView::Separator => Some(NodeView::Predefined(PredefinedItem::Separator)),
        ParsedView::Role { role } => match predefined_for(lowered(role), platform) {
            Some(item) => Some(NodeView::Predefined(item)),
            None => None,
        },
    }
}

/// The nodes that the entries of a menu become, in order.
pub open spec fn built_menu(items: Seq<ParsedView>, platform: Platform) -> Seq<NodeView>
    decreases items,
{
    if items.len() == 0 {
        Seq::empty()
    } else {
        match built_entry(items.last(), platform) {
            Some(n) => built_menu(items.drop_last(), platform).push(n),
            None => built_menu(items.drop_last(), platform),
        }
    }
}

/// The native menu bar for parsed entries.
pub fn build_muda_menu(items: &[ParsedMenuItem], platform: Platform) -> (r: Vec<MenuNode>)
    ensures
        nodes_view(r@) == built_menu(menu::parsed_view(items@), platform),
    decreases items@,
{
    let mut nodes: Vec<MenuNode> = Vec::new();
    let mut i: usize = 0;
    while i < items.len()
        invariant
            i <= items@.len(),
            nodes_view(nodes@) == built_menu(menu::parsed_view(items@.take(i as int)), platform),
        decreases items@.len() - i,
    {
        proof {
            assert(items@.take(i as int + 1).drop_last() =~= items@.take(i as int));
            let seen = menu::parsed_view(items@.take(i as int));
            assert(seen.push(items@[i as int]@).drop_last() =~= seen);
        }
        append_muda_item(&mut nodes, &items[i], platform);
        i = i + 1;
    }
    proof {
        assert(items@.take(items@.len() as int) =~= items@);
    }
    nodes
}

/// Appends what one parsed entry becomes to a menu or a submenu.
pub fn append_muda_item(nodes: &mut Vec<MenuNode>, item: &ParsedMenuItem, platform: Platform)
    ensures
        nodes_view(final(nodes)@) == (match built_entry(item@, platform) {
            Some(n) => nodes_view(old(nodes)@).push(n),
            None => nodes_view(old(nodes)@),
        }),
    decreases item,
{
    let ghost before = nodes@;
    match item {
        ParsedMenuItem::Submenu { label, items } => {
            let children = build_muda_menu(items.as_slice(), platform);
            let node = MenuNode::Submenu { label: label.clone(), children };
            proof {
                let inner = menu::parsed_view(items@);
                assert(item@ == ParsedView::Submenu { label: label@, items: inner });
                assert(node@ == NodeView::Submenu {
                    label: label@,
                    children: built_menu(inner, platform),
                });
                assert(built_entry(item@, platform) == Some(node@));
            }
            let ghost added = node@;
            nodes.push(node);
            assert(nodes@.drop_last() =~= before);
            assert(nodes@.last()@ == added);
        },
        ParsedMenuItem::Item { id, label, accelerator, enabled } => {
            let accepted = match accelerator {
                Some(a) => accelerator_parses(a.as_str()),
                None => false,
            };
            nodes.push(item_node(id, label, accelerator, accepted, *enabled));
            assert(nodes@.drop_last() =~= before);
        },
        ParsedMenuItem::Separator => {
            nodes.push(MenuNode::Predefined(PredefinedItem::Separator));
            assert(nodes@.drop_last() =~= before);
        },
        ParsedMenuItem::Role { role } => {
            if let Some(p) = predefined_menu_item(role.as_str(), platform) {
                nodes.push(MenuNode::Predefined(p));
                assert(nodes@.drop_last() =~= before);
            }
        },
    }
}

/// The native context menu for parsed entries.
pub fn build_muda_context_menu(items: &[ParsedMenuItem], platform: Platform) -> (r: Vec<MenuNode>)
    ensures
        nodes_view(r@) == built_menu(menu::parsed_view(items@), platform),
{
    build_muda_menu(items, platform)
}

/// Who is told about a click on a menu item: a callback with its data word, and
/// the window the menu belongs to.
#[derive(Clone, Copy, Debug, PartialEq, Eq, Structural)]
pub struct MenuCallbackInfo {
    pub callback: usize,
    pub callback_data: usize,
    pub window_id: u32,
}

/// A regular item with the id occurs in the menu, at any depth.
pub open spec fn menu_has_id(items: Seq<ParsedView>, id: Seq<char>) -> bool
    decreases items,
{
    items.len() > 0 && (entry_has_id(items.last(), id) || menu_has_id(items.drop_last(), id))
}

/// The entry is a regular item with the id, or a submenu that holds one.
pub open spec fn entry_has_id(item: ParsedView, id: Seq<char>) -> bool
    decreases item,
{
    match item {
        ParsedView::Item { id: own, .. } => own == id,
        ParsedView::Submenu { items, .. } => menu_has_id(items, id),
        _ => false,
    }
}

/// The store once every id of a menu answers to `info`.
pub open spec fn with_menu_ids(
    store: Map<Seq<char>, MenuCallbackInfo>,
    items: Seq<ParsedView>,
    info: MenuCallbackInfo,
) -> Map<Seq<char>, MenuCallbackInfo> {
    store.union_prefer_right(
        Map::new(|id: Seq<char>| menu_has_id(items, id), |id: Seq<char>| info),
    )
}

fn insert_menu_ids(
    items: &[ParsedMenuItem],
    info: MenuCallbackInfo,
    store: &mut TextMap<MenuCallbackInfo>,
)
    ensures
        final(store)@ == with_menu_ids(old(store)@, menu::parsed_view(items@), info),
    decreases items@,
{
    let ghost before = store@;
    let mut i: usize = 0;
    proof {
        assert(menu::parsed_view(items@.take(0)) =~= Seq::<ParsedView>::empty());
        assert(before =~= with_menu_ids(before, menu::parsed_view(items@.take(0)), info));
    }
    while i < items.len()
        invariant
            i <= items@.len(),
            store@ == with_menu_ids(before, menu::parsed_view(items@.take(i as int)), info),
        decreases items@.len() - i,
    {
        let ghost seen = menu::parsed_view(items@.take(i as int));
        let ghost now = menu::parsed_view(items@.take(i as int + 1));
        proof {
            assert(items@.take(i as int + 1).drop_last() =~= items@.take(i as int));
            assert(now.drop_last() =~= seen);
        }
        match &items[i] {
            ParsedMenuItem::Item { id, .. } => {
                store.insert(id.clone(), info);
            },
            ParsedMenuItem::Submenu { items: children, .. } => {
                proof {
                    assert(decreases_to!(items@ => items@[i as int]));
                    assert(decreases_to!(items@[i as int] => children));
                    assert(decreases_to!(children => children@));
                }
                insert_menu_ids(children.as_slice(), info, store);
            },
            _ => {},
        }
        proof {
            assert forall|id: Seq<char>| #[trigger] menu_has_id(now, id) == (entry_has_id(
                items@[i as int]@,
                id,
            ) || menu_has_id(seen, id)) by {
                assert(now.last() == items@[i as int]@);
            }
            assert forall|id: Seq<char>| #[trigger] entry_has_id(items@[i as int]@, id) == (
            match items@[i as int] {
                ParsedMenuItem::Item { id: own, .. } => own@ == id,
                ParsedMenuItem::Submenu { items: c, .. } => menu_has_id(
                    menu::parsed_view(c@),
                    id,
                ),
                _ => false,
            }) by {}
            assert(store@ =~= with_menu_ids(before, now, info));
        }
        i = i + 1;
    }
    proof {
        assert(items@.take(items@.len() as int) =~= items@);
    }
}

/// Makes every regular item of a menu answer to a callback. Without a callback
/// nothing is registered.
pub fn register_menu_callbacks(
    store: &mut TextMap<MenuCallbackInfo>,
    items: &[ParsedMenuItem],
    callback: Option<usize>,
    callback_data: usize,
    window_id: u32,
)
    ensures
        final(store)@ == (match callback {
            Some(cb) => with_menu_ids(
                old(store)@,
                menu::parsed_view(items@),
                MenuCallbackInfo { callback: cb, callback_data, window_id },
            ),
            None => old(store)@,
        }),
{
    match callback {
        Some(cb) => {
            let info = MenuCallbackInfo { callback: cb, callback_data, window_id };
            insert_menu_ids(items, info, store);
        },
        None => {},
    }
}

/// The callback that a click on an item goes to, if the id was registered and
/// can be handed over as a C string.
pub fn dispatch_menu_click_by_id(store: &TextMap<MenuCallbackInfo>, item_id: &str) -> (r: Option<
    MenuCallbackInfo,
>)
    ensures
        r == (if store@.contains_key(item_id@) && text::nul_free(item_id@) {
            Some(store@[item_id@])
        } else {
            None
        }),
{
    match store.get(item_id) {
        Some(info) => if is_nul_free(item_id) {
            Some(*info)
        } else {
            None
        },
        None => None,
    }
}

/// Once a menu is registered, a click goes to its callback exactly for the ids
/// in it, nested ones too; other ids are answered as before.
pub proof fn registered_ids_answer(
    store: Map<Seq<char>, MenuCallbackInfo>,
    items: Seq<ParsedView>,
    info: MenuCallbackInfo,
    id: Seq<char>,
)
    ensures
        menu_has_id(items, id) ==> with_menu_ids(store, items, info).contains_key(id)
            && with_menu_ids(store, items, info)[id] == info,
        !menu_has_id(items, id) ==> with_menu_ids(store, items, info).contains_key(id)
            == store.contains_key(id),
        !menu_has_id(items, id) && store.contains_key(id) ==> with_menu_ids(store, items, info)[id]
            == store[id],
{
}

/// The template has a regular item with the id, at any depth. An item without an
/// id goes by its label.
pub open spec fn template_has_id(items: Seq<MenuItem>, id: Seq<char>) -> bool
    decreases items,
{
    items.len() > 0 && (item_has_id(items.last(), id) || template_has_id(items.drop_last(), id))
}

/// The template item is a regular one with the id, or a submenu that holds one.
pub open spec fn item_has_id(item: MenuItem, id: Seq<char>) -> bool
    decreases item,
{
    match item {
        MenuItem::Item { label, id: own, .. } => menu::text_or(menu::opt_text(own), label@) == id,
        MenuItem::Submenu { items, .. } => template_has_id(items@, id),
        _ => false,
    }
}

proof fn template_ids_are_kept(items: Seq<MenuItem>, id: Seq<char>)
    ensures
        menu_has_id(menu::expected_menu(items), id) == template_has_id(items, id),
    decreases items,
{
    if items.len() > 0 {
        template_ids_are_kept(items.drop_last(), id);
        item_id_is_kept(items.last(), id);
        let menu = menu::expected_menu(items);
        assert(menu.drop_last() =~= menu::expected_menu(items.drop_last()));
    }
}

proof fn item_id_is_kept(item: MenuItem, id: Seq<char>)
    ensures
        entry_has_id(menu::expected_entry(item), id) == item_has_id(item, id),
    decreases item,
{
    match item {
        MenuItem::Submenu { label, items } => {
            assert(decreases_to!(item => items));
            template_ids_are_kept(items@, id);
        },
        _ => {},
    }
}

/// The round trip of a click: a template that crosses to the backend and is
/// registered there answers to its callback for the ids of its items, nested
/// ones too, and for no others.
pub proof fn template_clicks_come_back(
    t: LaufeyBackendApi,
    items: Seq<MenuItem>,
    store: Map<Seq<char>, MenuCallbackInfo>,
    info: MenuCallbackInfo,
    id: Seq<char>,
)
    requires
        t.builds_values(),
    ensures
        ({
            let arrived = menu::parsed_template(convert::encoded(t, menu::template_value(items)));
            let registered = with_menu_ids(store, arrived, info);
            if template_has_id(items, id) {
                registered.contains_key(id) && registered[id] == info
            } else {
                &&& registered.contains_key(id) == store.contains_key(id)
                &&& store.contains_key(id) ==> registered[id] == store[id]
            }
        }),
{
    menu::template_reaches_the_backend(t, items);
    template_ids_are_kept(items, id);
    registered_ids_answer(store, menu::expected_menu(items), info, id);
}

} // verus!
