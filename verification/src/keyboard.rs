//! Keys and modifiers in the terms of W3C UI Events.

use vstd::prelude::*;

verus! {

pub const LAUFEY_MOD_SHIFT: u32 = 1;

pub const LAUFEY_MOD_CONTROL: u32 = 2;

pub const LAUFEY_MOD_ALT: u32 = 4;

pub const LAUFEY_MOD_META: u32 = 8;

pub const LAUFEY_KEY_PRESSED: i32 = 0;

pub const LAUFEY_KEY_RELEASED: i32 = 1;

/// The bits of winit's `ModifiersState`.
pub const WINIT_SHIFT: u32 = 0x4;

pub const WINIT_CONTROL: u32 = 0x20;

pub const WINIT_ALT: u32 = 0x100;

pub const WINIT_SUPER: u32 = 0x800;

/// Which modifiers are active, as winit's bit set.
#[derive(Clone, Copy, Debug, PartialEq, Eq, Structural)]
pub struct ModifiersState {
    pub bits: u32,
}

/// `winit::keyboard::ModifiersState::shift_key`: whether the shift bit is set.
#[verifier::external_body]
fn winit_shift_key(bits: u32) -> (r: bool)
    ensures
        r == (bits & WINIT_SHIFT != 0),
{
    winit::keyboard::ModifiersState::from_bits_retain(bits).shift_key()
}

/// `winit::keyboard::ModifiersState::control_key`: whether the control bit is
/// set.
#[verifier::external_body]
fn winit_control_key(bits: u32) -> (r: bool)
    ensures
        r == (bits & WINIT_CONTROL != 0),
{
    winit::keyboard::ModifiersState::from_bits_retain(bits).control_key()
}

/// `winit::keyboard::ModifiersState::alt_key`: whether the alt bit is set.
#[verifier::external_body]
fn winit_alt_key(bits: u32) -> (r: bool)
    ensures
        r == (bits & WINIT_ALT != 0),
{
    winit::keyboard::ModifiersState::from_bits_retain(bits).alt_key()
}

/// `winit::keyboard::ModifiersState::super_key`: whether the super bit is set.
#[verifier::external_body]
fn winit_super_key(bits: u32) -> (r: bool)
    ensures
        r == (bits & WINIT_SUPER != 0),
{
    winit::keyboard::ModifiersState::from_bits_retain(bits).super_key()
}

impl ModifiersState {
    pub open spec fn shift(self) -> bool {
        self.bits & WINIT_SHIFT != 0
    }

    pub open spec fn control(self) -> bool {
        self.bits & WINIT_CONTROL != 0
    }

    pub open spec fn alt(self) -> bool {
        self.bits & WINIT_ALT != 0
    }

    pub open spec fn meta(self) -> bool {
        self.bits & WINIT_SUPER != 0
    }

    /// No modifier is active.
    pub fn empty() -> (r: ModifiersState)
        ensures
            r.bits == 0,
    {
        ModifiersState { bits: 0 }
    }

    pub fn shift_key(self) -> (r: bool)
        ensures
            r == self.shift(),
    {
        winit_shift_key(self.bits)
    }

    pub fn control_key(self) -> (r: bool)
        ensures
            r == self.control(),
    {
        winit_control_key(self.bits)
    }

    pub fn alt_key(self) -> (r: bool)
        ensures
            r == self.alt(),
    {
        winit_alt_key(self.bits)
    }

    pub fn super_key(self) -> (r: bool)
        ensures
            r == self.meta(),
    {
        winit_super_key(self.bits)
    }
}

/// A bit of the modifier mask if the modifier is active.
pub open spec fn mask_bit(active: bool, bit: u32) -> u32 {
    if active {
        bit
    } else {
        0
    }
}

/// The modifier mask with the given modifiers active.
pub open spec fn modifier_mask(shift: bool, control: bool, alt: bool, meta: bool) -> u32 {
    mask_bit(shift, LAUFEY_MOD_SHIFT) | mask_bit(control, LAUFEY_MOD_CONTROL) | mask_bit(
        alt,
        LAUFEY_MOD_ALT,
    ) | mask_bit(meta, LAUFEY_MOD_META)
}

impl ModifiersState {
    /// The modifier mask of a state.
    pub open spec fn mask(self) -> u32 {
        modifier_mask(self.shift(), self.control(), self.alt(), self.meta())
    }
}

/// The modifier mask that events carry.
pub fn modifiers_to_laufey(mods: ModifiersState) -> (r: u32)
    ensures
        r == mods.mask(),
{
    let shift: u32 = if mods.shift_key() {
        LAUFEY_MOD_SHIFT
    } else {
        0
    };
    let control: u32 = if mods.control_key() {
        LAUFEY_MOD_CONTROL
    } else {
        0
    };
    let alt: u32 = if mods.alt_key() {
        LAUFEY_MOD_ALT
    } else {
        0
    };
    let meta: u32 = if mods.super_key() {
        LAUFEY_MOD_META
    } else {
        0
    };
    shift | control | alt | meta
}

/// The modifiers that an event reports as active.
#[derive(Clone, Copy, Debug, PartialEq, Eq, Structural)]
pub struct KeyModifiers {
    pub shift: bool,
    pub control: bool,
    pub alt: bool,
    pub meta: bool,
}

impl Default for KeyModifiers {
    fn default() -> (r: KeyModifiers)
        ensures
            r == (KeyModifiers { shift: false, control: false, alt: false, meta: false }),
    {
        KeyModifiers { shift: false, control: false, alt: false, meta: false }
    }
}

impl KeyModifiers {
    /// What a modifier mask says. Bits beyond the four known ones mean nothing.
    pub open spec fn of_mask(flags: u32) -> KeyModifiers {
        KeyModifiers {
            shift: flags & LAUFEY_MOD_SHIFT != 0,
            control: flags & LAUFEY_MOD_CONTROL != 0,
            alt: flags & LAUFEY_MOD_ALT != 0,
            meta: flags & LAUFEY_MOD_META != 0,
        }
    }

    pub fn from_raw(flags: u32) -> (r: KeyModifiers)
        ensures
            r == KeyModifiers::of_mask(flags),
    {
        KeyModifiers {
            shift: flags & LAUFEY_MOD_SHIFT != 0,
            control: flags & LAUFEY_MOD_CONTROL != 0,
            alt: flags & LAUFEY_MOD_ALT != 0,
            meta: flags & LAUFEY_MOD_META != 0,
        }
    }
}

/// A modifier mask says exactly which modifiers were active when it was made,
/// also where bits beyond the known ones are set.
pub proof fn mask_tells_the_modifiers(
    shift: bool,
    control: bool,
    alt: bool,
    meta: bool,
    other: u32,
)
    requires
        other & 0xf == 0,
    ensures
        KeyModifiers::of_mask(modifier_mask(shift, control, alt, meta) | other) == (KeyModifiers {
            shift,
            control,
            alt,
            meta,
        }),
{
    let (s, c, a, m) = (
        mask_bit(shift, LAUFEY_MOD_SHIFT),
        mask_bit(control, LAUFEY_MOD_CONTROL),
        mask_bit(alt, LAUFEY_MOD_ALT),
        mask_bit(meta, LAUFEY_MOD_META),
    );
    assert(((s | c | a | m | other) & 1 != 0) == (s == 1) && ((s | c | a | m | other) & 2 != 0) == (
    c == 2) && ((s | c | a | m | other) & 4 != 0) == (a == 4) && ((s | c | a | m | other) & 8 != 0)
        == (m == 8)) by (bit_vector)
        requires
            s == 0 || s == 1,
            c == 0 || c == 2,
            a == 0 || a == 4,
            m == 0 || m == 8,
            other & 0xf == 0,
    ;
}

/// The state that winit tracks for one side of a modifier pair.
#[derive(Clone, Copy, Debug, PartialEq, Eq, Structural)]
pub enum ModifiersKeyState {
    Pressed,
    Unknown,
}

/// The modifiers of a window: which are active, and which side is known to be
/// held.
#[derive(Clone, Copy, Debug, PartialEq, Eq, Structural)]
pub struct Modifiers {
    pub state: ModifiersState,
    pub lshift: ModifiersKeyState,
    pub rshift: ModifiersKeyState,
    pub lcontrol: ModifiersKeyState,
    pub rcontrol: ModifiersKeyState,
    pub lalt: ModifiersKeyState,
    pub ralt: ModifiersKeyState,
    pub lsuper: ModifiersKeyState,
    pub rsuper: ModifiersKeyState,
}

impl Modifiers {
    /// Modifiers of which no side is known.
    pub open spec fn sides_unknown(state: ModifiersState) -> Modifiers {
        Modifiers {
            state,
            lshift: ModifiersKeyState::Unknown,
            rshift: ModifiersKeyState::Unknown,
            lcontrol: ModifiersKeyState::Unknown,
            rcontrol: ModifiersKeyState::Unknown,
            lalt: ModifiersKeyState::Unknown,
            ralt: ModifiersKeyState::Unknown,
            lsuper: ModifiersKeyState::Unknown,
            rsuper: ModifiersKeyState::Unknown,
        }
    }

    /// Modifiers of which no side is known.
    pub fn from_state(state: ModifiersState) -> (r: Modifiers)
        ensures
            r == Modifiers::sides_unknown(state),
    {
        Modifiers {
            state,
            lshift: ModifiersKeyState::Unknown,
            rshift: ModifiersKeyState::Unknown,
            lcontrol: ModifiersKeyState::Unknown,
            rcontrol: ModifiersKeyState::Unknown,
            lalt: ModifiersKeyState::Unknown,
            ralt: ModifiersKeyState::Unknown,
            lsuper: ModifiersKeyState::Unknown,
            rsuper: ModifiersKeyState::Unknown,
        }
    }
}

impl Default for Modifiers {
    fn default() -> (r: Modifiers)
        ensures
            r == Modifiers::sides_unknown(ModifiersState { bits: 0 }),
    {
        Modifiers::from_state(ModifiersState::empty())
    }
}

/// A key that has a name rather than a character. Names that no rule here
/// speaks of are carried as text.
pub enum NamedKey {
    Super,
    Meta,
    Space,
    Shift,
    Control,
    Alt,
    AltGraph,
    Hyper,
    Other(String),
}

/// A key by what it means.
pub enum Key {
    Character(String),
    Named(NamedKey),
    Unidentified,
    Dead(Option<char>),
}

/// A key by its position. Positions that no rule here speaks of are carried by
/// their name.
pub enum KeyCode {
    SuperLeft,
    SuperRight,
    ShiftLeft,
    ShiftRight,
    ControlLeft,
    ControlRight,
    AltLeft,
    AltRight,
    Other(String),
}

pub enum PhysicalKey {
    Code(KeyCode),
    Unidentified,
}

/// The W3C `key` value of a named key. The super key and the meta key are both
/// `Meta`, and the space key is the space character.
pub open spec fn named_key_text(key: NamedKey) -> Seq<char> {
    match key {
        NamedKey::Super => "Meta"@,
        NamedKey::Meta => "Meta"@,
        NamedKey::Space => " "@,
        NamedKey::Shift => "Shift"@,
        NamedKey::Control => "Control"@,
        NamedKey::Alt => "Alt"@,
        NamedKey::AltGraph => "AltGraph"@,
        NamedKey::Hyper => "Hyper"@,
        NamedKey::Other(name) => name@,
    }
}

/// The W3C `key` value of a key. A dead key is `Dead`, whichever character it
/// would combine with.
pub open spec fn key_text(key: Key) -> Seq<char> {
    match key {
        Key::Character(c) => c@,
        Key::Named(named) => named_key_text(named),
        Key::Unidentified => "Unidentified"@,
        Key::Dead(_) => "Dead"@,
    }
}

/// The W3C `code` value of a key.
pub open spec fn code_text(physical: PhysicalKey) -> Seq<char> {
    match physical {
        PhysicalKey::Code(KeyCode::SuperLeft) => "MetaLeft"@,
        PhysicalKey::Code(KeyCode::SuperRight) => "MetaRight"@,
        PhysicalKey::Code(KeyCode::ShiftLeft) => "ShiftLeft"@,
        PhysicalKey::Code(KeyCode::ShiftRight) => "ShiftRight"@,
        PhysicalKey::Code(KeyCode::ControlLeft) => "ControlLeft"@,
        PhysicalKey::Code(KeyCode::ControlRight) => "ControlRight"@,
        PhysicalKey::Code(KeyCode::AltLeft) => "AltLeft"@,
        PhysicalKey::Code(KeyCode::AltRight) => "AltRight"@,
        PhysicalKey::Code(KeyCode::Other(name)) => name@,
        PhysicalKey::Unidentified => "Unidentified"@,
    }
}

/// The W3C UI Events `key` string of a key.
pub fn winit_key_to_string(key: &Key) -> (r: String)
    ensures
        r@ == key_text(*key),
{
    match key {
        Key::Character(c) => c.clone(),
        Key::Named(named) => match named {
            NamedKey::Super => "Meta".to_string(),
            NamedKey::Meta => "Meta".to_string(),
            NamedKey::Space => " ".to_string(),
            NamedKey::Shift => "Shift".to_string(),
            NamedKey::Control => "Control".to_string(),
            NamedKey::Alt => "Alt".to_string(),
            NamedKey::AltGraph => "AltGraph".to_string(),
            NamedKey::Hyper => "Hyper".to_string(),
            NamedKey::Other(name) => name.clone(),
        },
        Key::Unidentified => "Unidentified".to_string(),
        Key::Dead(_) => "Dead".to_string(),
    }
}

/// The W3C UI Events `code` string of a key.
pub fn winit_code_to_string(physical: &PhysicalKey) -> (r: String)
    ensures
        r@ == code_text(*physical),
{
    match physical {
        PhysicalKey::Code(code) => match code {
            KeyCode::SuperLeft => "MetaLeft".to_string(),
            KeyCode::SuperRight => "MetaRight".to_string(),
            KeyCode::ShiftLeft => "ShiftLeft".to_string(),
            KeyCode::ShiftRight => "ShiftRight".to_string(),
            KeyCode::ControlLeft => "ControlLeft".to_string(),
            KeyCode::ControlRight => "ControlRight".to_string(),
            KeyCode::AltLeft => "AltLeft".to_string(),
            KeyCode::AltRight => "AltRight".to_string(),
            KeyCode::Other(name) => name.clone(),
        },
        PhysicalKey::Unidentified => "Unidentified".to_string(),
    }
}

/// The key is one of the modifier keys.
pub open spec fn modifier_named(key: Key) -> bool {
    key matches Key::Named(named) && (named is Shift || named is Control || named is Alt
        || named is AltGraph || named is Super || named is Meta || named is Hyper)
}

/// Whether a key is one of the modifier keys.
pub fn is_modifier_named_key(key: &Key) -> (r: bool)
    ensures
        r == modifier_named(*key),
{
    match key {
        Key::Named(named) => match named {
            NamedKey::Shift => true,
            NamedKey::Control => true,
            NamedKey::Alt => true,
            NamedKey::AltGraph => true,
            NamedKey::Super => true,
            NamedKey::Meta => true,
            NamedKey::Hyper => true,
            _ => false,
        },
        _ => false,
    }
}

/// A modifier key going down (true) or up, with its `key` and `code` strings.
pub type Edge = (bool, &'static str, &'static str);

/// An edge by its contents.
pub type EdgeView = (bool, Seq<char>, Seq<char>);

pub open spec fn edge_view(e: Edge) -> EdgeView {
    (e.0, e.1@, e.2@)
}

pub open spec fn edges_view(s: Seq<Edge>) -> Seq<EdgeView> {
    s.map_values(|e: Edge| edge_view(e))
}

/// The right key is known to be held and the left one is not.
pub open spec fn right_only(left: ModifiersKeyState, right: ModifiersKeyState) -> bool {
    right == ModifiersKeyState::Pressed && left != ModifiersKeyState::Pressed
}

/// The edge of one modifier, if it changed: named after the right key if that
/// is the side that is held after going down, or was held before going up, and
/// after the left key otherwise.
pub open spec fn edge_of(
    was: bool,
    now: bool,
    held_before: (ModifiersKeyState, ModifiersKeyState),
    held_after: (ModifiersKeyState, ModifiersKeyState),
    key: Seq<char>,
    left: Seq<char>,
    right: Seq<char>,
) -> Seq<EdgeView> {
    let held = if now {
        held_after
    } else {
        held_before
    };
    if was == now {
        Seq::empty()
    } else {
        seq![
            (
                now,
                key,
                if right_only(held.0, held.1) {
                    right
                } else {
                    left
                },
            ),
        ]
    }
}

/// The edges between two states of the modifiers.
pub open spec fn edges_between(prev: Modifiers, next: Modifiers) -> Seq<EdgeView> {
    edge_of(
        prev.state.shift(),
        next.state.shift(),
        (prev.lshift, prev.rshift),
        (next.lshift, next.rshift),
        "Shift"@,
        "ShiftLeft"@,
        "ShiftRight"@,
    ) + edge_of(
        prev.state.control(),
        next.state.control(),
        (prev.lcontrol, prev.rcontrol),
        (next.lcontrol, next.rcontrol),
        "Control"@,
        "ControlLeft"@,
        "ControlRight"@,
    ) + edge_of(
        prev.state.alt(),
        next.state.alt(),
        (prev.lalt, prev.ralt),
        (next.lalt, next.ralt),
        "Alt"@,
        "AltLeft"@,
        "AltRight"@,
    ) + edge_of(
        prev.state.meta(),
        next.state.meta(),
        (prev.lsuper, prev.rsuper),
        (next.lsuper, next.rsuper),
        "Meta"@,
        "MetaLeft"@,
        "MetaRight"@,
    )
}

fn push_edge(
    out: &mut Vec<Edge>,
    was: bool,
    now: bool,
    held_before: (ModifiersKeyState, ModifiersKeyState),
    held_after: (ModifiersKeyState, ModifiersKeyState),
    key: &'static str,
    left: &'static str,
    right: &'static str,
)
    ensures
        edges_view(final(out)@) == edges_view(old(out)@) + edge_of(
            was,
            now,
            held_before,
            held_after,
            key@,
            left@,
            right@,
        ),
{
    let ghost before = out@;
    if was == now {
        assert(edges_view(before) =~= edges_view(before) + Seq::<EdgeView>::empty());
        return;
    }
    let held = if now {
        held_after
    } else {
        held_before
    };
    let code = if held.1 == ModifiersKeyState::Pressed && held.0 != ModifiersKeyState::Pressed {
        right
    } else {
        left
    };
    out.push((now, key, code));
    assert(edges_view(out@) =~= edges_view(before) + edge_of(
        was,
        now,
        held_before,
        held_after,
        key@,
        left@,
        right@,
    ));
}

/// The modifier keys that went down or up between two reports of the
/// modifiers, which some platforms deliver without a key event.
pub fn modifier_key_edges(prev: &Modifiers, next: &Modifiers) -> (r: Vec<Edge>)
    ensures
        edges_view(r@) == edges_between(*prev, *next),
{
    let mut out: Vec<Edge> = Vec::new();
    assert(edges_view(out@) =~= Seq::<EdgeView>::empty());
    push_edge(
        &mut out,
        prev.state.shift_key(),
        next.state.shift_key(),
        (prev.lshift, prev.rshift),
        (next.lshift, next.rshift),
        "Shift",
        "ShiftLeft",
        "ShiftRight",
    );
    push_edge(
        &mut out,
        prev.state.control_key(),
        next.state.control_key(),
        (prev.lcontrol, prev.rcontrol),
        (next.lcontrol, next.rcontrol),
        "Control",
        "ControlLeft",
        "ControlRight",
    );
    push_edge(
        &mut out,
        prev.state.alt_key(),
        next.state.alt_key(),
        (prev.lalt, prev.ralt),
        (next.lalt, next.ralt),
        "Alt",
        "AltLeft",
        "AltRight",
    );
    push_edge(
        &mut out,
        prev.state.super_key(),
        next.state.super_key(),
        (prev.lsuper, prev.rsuper),
        (next.lsuper, next.rsuper),
        "Meta",
        "MetaLeft",
        "MetaRight",
    );
    assert(edges_view(out@) =~= edges_between(*prev, *next));
    out
}

/// There is an edge that names the key and goes in the direction.
pub open spec fn has_edge(edges: Seq<EdgeView>, down: bool, key: Seq<char>) -> bool {
    exists|i: int|
        0 <= i < edges.len() && (#[trigger] edges[i]).0 == down && edges[i].1 == key
}

pub(crate) proof fn edge_in_either(a: Seq<EdgeView>, b: Seq<EdgeView>, down: bool, key: Seq<char>)
    ensures
        has_edge(a + b, down, key) == (has_edge(a, down, key) || has_edge(b, down, key)),
{
    let s = a + b;
    if has_edge(a, down, key) {
        let i = choose|i: int| 0 <= i < a.len() && (#[trigger] a[i]).0 == down && a[i].1 == key;
        assert(s[i] == a[i]);
    }
    if has_edge(b, down, key) {
        let i = choose|i: int| 0 <= i < b.len() && (#[trigger] b[i]).0 == down && b[i].1 == key;
        assert(s[a.len() + i] == b[i]);
    }
    if has_edge(s, down, key) {
        let i = choose|i: int| 0 <= i < s.len() && (#[trigger] s[i]).0 == down && s[i].1 == key;
        if i < a.len() {
            assert(a[i] == s[i]);
        } else {
            assert(b[i - a.len()] == s[i]);
        }
    }
}

/// One modifier contributes an edge for its own key only, and only in the
/// direction in which it changed.
proof fn single_edge(
    was: bool,
    now: bool,
    held_before: (ModifiersKeyState, ModifiersKeyState),
    held_after: (ModifiersKeyState, ModifiersKeyState),
    own: Seq<char>,
    left: Seq<char>,
    right: Seq<char>,
    down: bool,
    key: Seq<char>,
)
    ensures
        has_edge(edge_of(was, now, held_before, held_after, own, left, right), down, key) == (was
            != now && now == down && own == key),
{
    let s = edge_of(was, now, held_before, held_after, own, left, right);
    if was != now {
        assert(s[0].0 == now && s[0].1 == own);
    }
}

pub(crate) proof fn edges_for(prev: Modifiers, next: Modifiers, down: bool, key: Seq<char>)
    ensures
        has_edge(edges_between(prev, next), down, key) == {
            ||| prev.state.shift() != next.state.shift() && next.state.shift() == down && key
                == "Shift"@
            ||| prev.state.control() != next.state.control() && next.state.control() == down && key
                == "Control"@
            ||| prev.state.alt() != next.state.alt() && next.state.alt() == down && key == "Alt"@
            ||| prev.state.meta() != next.state.meta() && next.state.meta() == down && key
                == "Meta"@
        },
{
    let (p, n) = (prev, next);
    let a = edge_of(p.state.shift(), n.state.shift(), (p.lshift, p.rshift), (n.lshift, n.rshift),
        "Shift"@, "ShiftLeft"@, "ShiftRight"@);
    let b = edge_of(p.state.control(), n.state.control(), (p.lcontrol, p.rcontrol),
        (n.lcontrol, n.rcontrol), "Control"@, "ControlLeft"@, "ControlRight"@);
    let c = edge_of(p.state.alt(), n.state.alt(), (p.lalt, p.ralt), (n.lalt, n.ralt), "Alt"@,
        "AltLeft"@, "AltRight"@);
    let d = edge_of(p.state.meta(), n.state.meta(), (p.lsuper, p.rsuper), (n.lsuper, n.rsuper),
        "Meta"@, "MetaLeft"@, "MetaRight"@);
    edge_in_either(a + b + c, d, down, key);
    edge_in_either(a + b, c, down, key);
    edge_in_either(a, b, down, key);
    single_edge(p.state.shift(), n.state.shift(), (p.lshift, p.rshift), (n.lshift, n.rshift),
        "Shift"@, "ShiftLeft"@, "ShiftRight"@, down, key);
    single_edge(p.state.control(), n.state.control(), (p.lcontrol, p.rcontrol),
        (n.lcontrol, n.rcontrol), "Control"@, "ControlLeft"@, "ControlRight"@, down, key);
    single_edge(p.state.alt(), n.state.alt(), (p.lalt, p.ralt), (n.lalt, n.ralt), "Alt"@,
        "AltLeft"@, "AltRight"@, down, key);
    single_edge(p.state.meta(), n.state.meta(), (p.lsuper, p.rsuper), (n.lsuper, n.rsuper),
        "Meta"@, "MetaLeft"@, "MetaRight"@, down, key);
}

pub(crate) proof fn modifier_names_differ()
    ensures
        "Shift"@ != "Control"@,
        "Shift"@ != "Alt"@,
        "Shift"@ != "Meta"@,
        "Control"@ != "Alt"@,
        "Control"@ != "Meta"@,
        "Alt"@ != "Meta"@,
{
    reveal_strlit("Shift");
    reveal_strlit("Control");
    reveal_strlit("Alt");
    reveal_strlit("Meta");
    assert("Shift"@.len() == 5 && "Control"@.len() == 7 && "Alt"@.len() == 3 && "Meta"@.len() == 4);
}

/// The edges tell exactly what changed: a modifier has a down edge if and only
/// if it became active, and an up edge if and only if it ceased to be.
pub proof fn edges_tell_the_change(prev: Modifiers, next: Modifiers, down: bool)
    ensures
        has_edge(edges_between(prev, next), down, "Shift"@) <==> prev.state.shift() != down
            && next.state.shift() == down,
        has_edge(edges_between(prev, next), down, "Control"@) <==> prev.state.control() != down
            && next.state.control() == down,
        has_edge(edges_between(prev, next), down, "Alt"@) <==> prev.state.alt() != down
            && next.state.alt() == down,
        has_edge(edges_between(prev, next), down, "Meta"@) <==> prev.state.meta() != down
            && next.state.meta() == down,
{
    modifier_names_differ();
    edges_for(prev, next, down, "Shift"@);
    edges_for(prev, next, down, "Control"@);
    edges_for(prev, next, down, "Alt"@);
    edges_for(prev, next, down, "Meta"@);
}

/// The same modifiers are active in both.
spec fn same_modifiers(p: ModifiersState, n: ModifiersState) -> bool {
    &&& p.shift() == n.shift()
    &&& p.control() == n.control()
    &&& p.alt() == n.alt()
    &&& p.meta() == n.meta()
}

proof fn masks_compare(p: ModifiersState, n: ModifiersState)
    ensures
        p.mask() == n.mask() <==> same_modifiers(p, n),
{
    let (m1, m2) = (p.mask(), n.mask());
    assert(0u32 & 0xf == 0) by (bit_vector);
    assert(m1 | 0 == m1 && m2 | 0 == m2) by (bit_vector);
    mask_tells_the_modifiers(p.shift(), p.control(), p.alt(), p.meta(), 0);
    mask_tells_the_modifiers(n.shift(), n.control(), n.alt(), n.meta(), 0);
}

/// There is no edge if and only if the modifier mask stays the same.
pub proof fn no_edge_without_change(prev: Modifiers, next: Modifiers)
    ensures
        edges_between(prev, next).len() == 0 <==> prev.state.mask() == next.state.mask(),
{
    masks_compare(prev.state, next.state);
    let e = edges_between(prev, next);
    if same_modifiers(prev.state, next.state) {
        assert(e =~= Seq::empty());
    } else {
        edges_tell_the_change(prev, next, true);
        edges_tell_the_change(prev, next, false);
        assert(e.len() > 0);
    }
}

} // verus!
