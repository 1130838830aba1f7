//! Keys, modifiers, buttons and scrolling: what they are called.

use crate::float::Float64;
use crate::ime::ImeState;
use crate::keyboard;
use crate::keyboard::{
    is_modifier_named_key, modifier_key_edges, modifiers_to_laufey, winit_code_to_string,
    winit_key_to_string, Edge, Key, KeyCode, KeyModifiers, Modifiers, ModifiersKeyState,
    ModifiersState, NamedKey, PhysicalKey,
};
use crate::mouse::{
    next_click_count, winit_button_to_laufey, winit_scroll_to_dom, MouseButton, ScrollDelta,
};
use vstd::prelude::*;

verus! {

/// Each known position of the keyboard has the code that the W3C gives it; any
/// other goes by its own name, and one that is not identified is called that.
pub proof fn codes_are_those_of_the_w3c(name: String, physical: PhysicalKey, r: String)
    requires
        call_ensures(winit_code_to_string, (&physical,), r),
    ensures
        physical == PhysicalKey::Code(KeyCode::ShiftLeft) ==> r@ == "ShiftLeft"@,
        physical == PhysicalKey::Code(KeyCode::ShiftRight) ==> r@ == "ShiftRight"@,
        physical == PhysicalKey::Code(KeyCode::ControlLeft) ==> r@ == "ControlLeft"@,
        physical == PhysicalKey::Code(KeyCode::ControlRight) ==> r@ == "ControlRight"@,
        physical == PhysicalKey::Code(KeyCode::AltLeft) ==> r@ == "AltLeft"@,
        physical == PhysicalKey::Code(KeyCode::AltRight) ==> r@ == "AltRight"@,
        physical == PhysicalKey::Code(KeyCode::SuperLeft) ==> r@ == "MetaLeft"@,
        physical == PhysicalKey::Code(KeyCode::SuperRight) ==> r@ == "MetaRight"@,
        physical == PhysicalKey::Code(KeyCode::Other(name)) ==> r@ == name@,
        physical is Unidentified ==> r@ == "Unidentified"@,
{
}

/// Two positions that have no name of their own have different codes unless they
/// are the same.
pub proof fn different_positions_have_different_codes(
    a: PhysicalKey,
    b: PhysicalKey,
    ra: String,
    rb: String,
)
    requires
        call_ensures(winit_code_to_string, (&a,), ra),
        call_ensures(winit_code_to_string, (&b,), rb),
        !(a matches PhysicalKey::Code(KeyCode::Other(_))),
        !(b matches PhysicalKey::Code(KeyCode::Other(_))),
        ra@ == rb@,
    ensures
        a == b,
{
    reveal_strlit("ShiftLeft");
    reveal_strlit("ShiftRight");
    reveal_strlit("ControlLeft");
    reveal_strlit("ControlRight");
    reveal_strlit("AltLeft");
    reveal_strlit("AltRight");
    reveal_strlit("MetaLeft");
    reveal_strlit("MetaRight");
    reveal_strlit("Unidentified");
    assert("ShiftLeft"@.len() == 9 && "ShiftLeft"@[0] == 'S');
    assert("ShiftRight"@.len() == 10 && "ShiftRight"@[0] == 'S');
    assert("ControlLeft"@.len() == 11 && "ControlLeft"@[0] == 'C');
    assert("ControlRight"@.len() == 12 && "ControlRight"@[0] == 'C');
    assert("AltLeft"@.len() == 7 && "AltLeft"@[0] == 'A');
    assert("AltRight"@.len() == 8 && "AltRight"@[0] == 'A');
    assert("MetaLeft"@.len() == 8 && "MetaLeft"@[0] == 'M');
    assert("MetaRight"@.len() == 9 && "MetaRight"@[0] == 'M');
    assert("Unidentified"@.len() == 12 && "Unidentified"@[0] == 'U');
}

/// Each key that has a meaning here has the name that the W3C gives it. A key
/// that gives a character goes by that, and any other by its own name. A dead key
/// is one whatever it would combine with.
pub proof fn keys_are_those_of_the_w3c(
    text: String,
    combines: Option<char>,
    key: Key,
    r: String,
)
    requires
        call_ensures(winit_key_to_string, (&key,), r),
    ensures
        key == Key::Character(text) ==> r@ == text@,
        key == Key::Named(NamedKey::Other(text)) ==> r@ == text@,
        key == Key::Named(NamedKey::Shift) ==> r@ == "Shift"@,
        key == Key::Named(NamedKey::Control) ==> r@ == "Control"@,
        key == Key::Named(NamedKey::Alt) ==> r@ == "Alt"@,
        key == Key::Named(NamedKey::AltGraph) ==> r@ == "AltGraph"@,
        key == Key::Named(NamedKey::Super) ==> r@ == "Meta"@,
        key == Key::Named(NamedKey::Meta) ==> r@ == "Meta"@,
        key == Key::Named(NamedKey::Hyper) ==> r@ == "Hyper"@,
        key == Key::Named(NamedKey::Space) ==> r@ == " "@,
        key == Key::Dead(combines) ==> r@ == "Dead"@,
        key is Unidentified ==> r@ == "Unidentified"@,
{
}

/// The modifier keys are shift, control, alt, alt graph, super, meta and hyper.
pub proof fn modifier_keys_are_these(text: String, combines: Option<char>, key: Key, r: bool)
    requires
        call_ensures(is_modifier_named_key, (&key,), r),
    ensures
        key == Key::Named(NamedKey::Shift) || key == Key::Named(NamedKey::Control) || key
            == Key::Named(NamedKey::Alt) || key == Key::Named(NamedKey::AltGraph) || key
            == Key::Named(NamedKey::Super) || key == Key::Named(NamedKey::Meta) || key
            == Key::Named(NamedKey::Hyper) ==> r,
        key == Key::Named(NamedKey::Space) || key == Key::Named(NamedKey::Other(text)) || key
            == Key::Character(text) || key == Key::Dead(combines) || key is Unidentified ==> !r,
{
}

/// Each modifier that is active has its bit in the mask, and there is no other
/// bit; an embedder that reads the mask sees the same modifiers.
pub proof fn modifiers_reach_the_embedder(bits: u32, mask: u32, read: KeyModifiers)
    requires
        call_ensures(modifiers_to_laufey, (ModifiersState { bits },), mask),
        call_ensures(KeyModifiers::from_raw, (mask,), read),
    ensures
        (mask & 1 != 0) == (bits & 0x4 != 0),
        (mask & 2 != 0) == (bits & 0x20 != 0),
        (mask & 4 != 0) == (bits & 0x100 != 0),
        (mask & 8 != 0) == (bits & 0x800 != 0),
        mask < 16,
        read.shift == (bits & 0x4 != 0),
        read.control == (bits & 0x20 != 0),
        read.alt == (bits & 0x100 != 0),
        read.meta == (bits & 0x800 != 0),
{
    let s: u32 = if bits & 0x4 != 0 { 1 } else { 0 };
    let c: u32 = if bits & 0x20 != 0 { 2 } else { 0 };
    let a: u32 = if bits & 0x100 != 0 { 4 } else { 0 };
    let m: u32 = if bits & 0x800 != 0 { 8 } else { 0 };
    assert(mask == s | c | a | m);
    assert(((s | c | a | m) & 1 != 0) == (s == 1) && ((s | c | a | m) & 2 != 0) == (c == 2)
        && ((s | c | a | m) & 4 != 0) == (a == 4) && ((s | c | a | m) & 8 != 0) == (m == 8) && (s
        | c | a | m) < 16) by (bit_vector)
        requires
            s == 0 || s == 1,
            c == 0 || c == 2,
            a == 0 || a == 4,
            m == 0 || m == 8,
    ;
}

/// A mask means the same to an embedder whatever other bits it has.
pub proof fn masks_are_read_bit_by_bit(flags: u32, r: KeyModifiers)
    requires
        call_ensures(KeyModifiers::from_raw, (flags,), r),
    ensures
        r.shift == (flags & 1 != 0),
        r.control == (flags & 2 != 0),
        r.alt == (flags & 4 != 0),
        r.meta == (flags & 8 != 0),
{
}

/// The number of changes, as an index.
pub open spec fn one_if(changed: bool) -> int {
    if changed {
        1
    } else {
        0
    }
}

/// The edge of a modifier that changed: down if it is active now, and named after
/// the right key if that one alone was held, else after the left.
pub open spec fn names_the_change(
    e: Edge,
    active: bool,
    before: (ModifiersKeyState, ModifiersKeyState),
    after: (ModifiersKeyState, ModifiersKeyState),
    key: Seq<char>,
    left: Seq<char>,
    right: Seq<char>,
) -> bool {
    let held = if active {
        after
    } else {
        before
    };
    &&& e.0 == active
    &&& e.1@ == key
    &&& e.2@ == (if held.0 == ModifiersKeyState::Unknown && held.1 == ModifiersKeyState::Pressed {
        right
    } else {
        left
    })
}

proof fn parts_in_order(
    a: Seq<keyboard::EdgeView>,
    b: Seq<keyboard::EdgeView>,
    c: Seq<keyboard::EdgeView>,
    d: Seq<keyboard::EdgeView>,
)
    ensures
        (a + b + c + d).len() == a.len() + b.len() + c.len() + d.len(),
        a.len() > 0 ==> (a + b + c + d)[0] == a[0],
        b.len() > 0 ==> (a + b + c + d)[a.len() as int] == b[0],
        c.len() > 0 ==> (a + b + c + d)[(a.len() + b.len()) as int] == c[0],
        d.len() > 0 ==> (a + b + c + d)[(a.len() + b.len() + c.len()) as int] == d[0],
{
}

/// The edge that one modifier has, if it changed.
spec fn edge_for(prev: Modifiers, next: Modifiers, which: int) -> Seq<keyboard::EdgeView> {
    if which == 0 {
        keyboard::edge_of(
            prev.state.shift(),
            next.state.shift(),
            (prev.lshift, prev.rshift),
            (next.lshift, next.rshift),
            "Shift"@,
            "ShiftLeft"@,
            "ShiftRight"@,
        )
    } else if which == 1 {
        keyboard::edge_of(
            prev.state.control(),
            next.state.control(),
            (prev.lcontrol, prev.rcontrol),
            (next.lcontrol, next.rcontrol),
            "Control"@,
            "ControlLeft"@,
            "ControlRight"@,
        )
    } else if which == 2 {
        keyboard::edge_of(
            prev.state.alt(),
            next.state.alt(),
            (prev.lalt, prev.ralt),
            (next.lalt, next.ralt),
            "Alt"@,
            "AltLeft"@,
            "AltRight"@,
        )
    } else {
        keyboard::edge_of(
            prev.state.meta(),
            next.state.meta(),
            (prev.lsuper, prev.rsuper),
            (next.lsuper, next.rsuper),
            "Meta"@,
            "MetaLeft"@,
            "MetaRight"@,
        )
    }
}

spec fn in_order(prev: Modifiers, next: Modifiers, r: Seq<Edge>) -> bool {
    let a = edge_for(prev, next, 0);
    let b = edge_for(prev, next, 1);
    let c = edge_for(prev, next, 2);
    let d = edge_for(prev, next, 3);
    &&& r.len() == a.len() + b.len() + c.len() + d.len()
    &&& a.len() > 0 ==> keyboard::edge_view(r[0]) == a[0]
    &&& b.len() > 0 ==> keyboard::edge_view(r[a.len() as int]) == b[0]
    &&& c.len() > 0 ==> keyboard::edge_view(r[(a.len() + b.len()) as int]) == c[0]
    &&& d.len() > 0 ==> keyboard::edge_view(r[(a.len() + b.len() + c.len()) as int]) == d[0]
}

proof fn edges_are_in_order(prev: Modifiers, next: Modifiers, r: Vec<Edge>)
    requires
        call_ensures(modifier_key_edges, (&prev, &next), r),
    ensures
        in_order(prev, next, r@),
{
    let a = edge_for(prev, next, 0);
    let b = edge_for(prev, next, 1);
    let c = edge_for(prev, next, 2);
    let d = edge_for(prev, next, 3);
    let view = keyboard::edges_view(r@);
    assert(view == a + b + c + d);
    parts_in_order(a, b, c, d);
    assert(forall|i: int| 0 <= i < view.len() ==> view[i] == keyboard::edge_view(#[trigger] r@[i]));
}

/// The edges are one for each modifier that changed, in the order shift, control,
/// alt, meta: under the W3C key and code of the key.
pub open spec fn name_all_changes(prev: Modifiers, next: Modifiers, r: Seq<Edge>) -> bool {
    let (p, n) = (prev.state.bits, next.state.bits);
    let s = (p & 0x4 != 0) != (n & 0x4 != 0);
    let c = (p & 0x20 != 0) != (n & 0x20 != 0);
    let a = (p & 0x100 != 0) != (n & 0x100 != 0);
    let m = (p & 0x800 != 0) != (n & 0x800 != 0);
    &&& r.len() == one_if(s) + one_if(c) + one_if(a) + one_if(m)
    &&& s ==> names_the_change(
        r[0],
        n & 0x4 != 0,
        (prev.lshift, prev.rshift),
        (next.lshift, next.rshift),
        "Shift"@,
        "ShiftLeft"@,
        "ShiftRight"@,
    )
    &&& c ==> names_the_change(
        r[one_if(s)],
        n & 0x20 != 0,
        (prev.lcontrol, prev.rcontrol),
        (next.lcontrol, next.rcontrol),
        "Control"@,
        "ControlLeft"@,
        "ControlRight"@,
    )
    &&& a ==> names_the_change(
        r[one_if(s) + one_if(c)],
        n & 0x100 != 0,
        (prev.lalt, prev.ralt),
        (next.lalt, next.ralt),
        "Alt"@,
        "AltLeft"@,
        "AltRight"@,
    )
    &&& m ==> names_the_change(
        r[one_if(s) + one_if(c) + one_if(a)],
        n & 0x800 != 0,
        (prev.lsuper, prev.rsuper),
        (next.lsuper, next.rsuper),
        "Meta"@,
        "MetaLeft"@,
        "MetaRight"@,
    )
}

proof fn one_edge(
    e: Edge,
    was: bool,
    now: bool,
    before: (ModifiersKeyState, ModifiersKeyState),
    after: (ModifiersKeyState, ModifiersKeyState),
    key: Seq<char>,
    left: Seq<char>,
    right: Seq<char>,
)
    requires
        was != now,
        keyboard::edge_view(e) == keyboard::edge_of(was, now, before, after, key, left, right)[0],
    ensures
        names_the_change(e, now, before, after, key, left, right),
{
}

proof fn edge_lengths(prev: Modifiers, next: Modifiers)
    ensures
        ({
            let (p, n) = (prev.state.bits, next.state.bits);
            &&& edge_for(prev, next, 0).len() == one_if((p & 0x4 != 0) != (n & 0x4 != 0))
            &&& edge_for(prev, next, 1).len() == one_if((p & 0x20 != 0) != (n & 0x20 != 0))
            &&& edge_for(prev, next, 2).len() == one_if((p & 0x100 != 0) != (n & 0x100 != 0))
            &&& edge_for(prev, next, 3).len() == one_if((p & 0x800 != 0) != (n & 0x800 != 0))
        }),
{
}

#[verifier::spinoff_prover]
#[verifier::rlimit(50)]
proof fn in_order_names_all(prev: Modifiers, next: Modifiers, r: Seq<Edge>)
    requires
        in_order(prev, next, r),
    ensures
        name_all_changes(prev, next, r),
{
    let (p, n) = (prev.state.bits, next.state.bits);
    let s = one_if((p & 0x4 != 0) != (n & 0x4 != 0));
    let c = one_if((p & 0x20 != 0) != (n & 0x20 != 0));
    let a = one_if((p & 0x100 != 0) != (n & 0x100 != 0));
    edge_lengths(prev, next);
    if (p & 0x4 != 0) != (n & 0x4 != 0) {
        one_edge(
            r[0],
            prev.state.shift(),
            next.state.shift(),
            (prev.lshift, prev.rshift),
            (next.lshift, next.rshift),
            "Shift"@,
            "ShiftLeft"@,
            "ShiftRight"@,
        );
    }
    if (p & 0x20 != 0) != (n & 0x20 != 0) {
        one_edge(
            r[s],
            prev.state.control(),
            next.state.control(),
            (prev.lcontrol, prev.rcontrol),
            (next.lcontrol, next.rcontrol),
            "Control"@,
            "ControlLeft"@,
            "ControlRight"@,
        );
    }
    if (p & 0x100 != 0) != (n & 0x100 != 0) {
        one_edge(
            r[s + c],
            prev.state.alt(),
            next.state.alt(),
            (prev.lalt, prev.ralt),
            (next.lalt, next.ralt),
            "Alt"@,
            "AltLeft"@,
            "AltRight"@,
        );
    }
    if (p & 0x800 != 0) != (n & 0x800 != 0) {
        one_edge(
            r[s + c + a],
            prev.state.meta(),
            next.state.meta(),
            (prev.lsuper, prev.rsuper),
            (next.lsuper, next.rsuper),
            "Meta"@,
            "MetaLeft"@,
            "MetaRight"@,
        );
    }
}

/// A report of the modifiers has one edge for each modifier that changed, in the
/// order shift, control, alt, meta: under the W3C key and code of the key.
pub proof fn edges_name_the_keys_that_changed(prev: Modifiers, next: Modifiers, r: Vec<Edge>)
    requires
        call_ensures(modifier_key_edges, (&prev, &next), r),
    ensures
        name_all_changes(prev, next, r@),
{
    edges_are_in_order(prev, next, r);
    in_order_names_all(prev, next, r@);
}

/// The five known buttons are numbered left, right, middle, back, forward from
/// zero; others have no number.
pub proof fn buttons_are_numbered(button: MouseButton, other: u16, r: i32)
    requires
        call_ensures(winit_button_to_laufey, (button,), r),
    ensures
        button == MouseButton::Left <==> r == 0,
        button == MouseButton::Right <==> r == 1,
        button == MouseButton::Middle <==> r == 2,
        button == MouseButton::Back <==> r == 3,
        button == MouseButton::Forward <==> r == 4,
        button == MouseButton::Other(other) ==> r < 0,
{
}

/// A press counts on where the same button was pressed nearby less than half a
/// second ago, and else starts a new run.
pub proof fn presses_count_on_in_a_run(
    prev_button: Option<MouseButton>,
    nearby: bool,
    prev_time: Option<u64>,
    prev_count: i32,
    button: MouseButton,
    now: u64,
    r: i32,
)
    requires
        call_ensures(
            next_click_count,
            (prev_button, nearby, prev_time, prev_count, button, now),
            r,
        ),
        prev_count < i32::MAX,
    ensures
        prev_button is None || prev_time is None || !nearby ==> r == 1,
        prev_button matches Some(b) && b != button ==> r == 1,
        prev_time matches Some(t) && now >= t + 500_000_000 ==> r == 1,
        prev_button == Some(button) && nearby && (prev_time matches Some(t) && now < t
            + 500_000_000) ==> r == prev_count + 1,
{
}

/// Scrolling keeps the distance across and turns the distance down the other way
/// round: the sign is flipped and nothing else. Lines are told from pixels.
pub proof fn scrolling_down_is_positive(
    delta: ScrollDelta,
    dx: Float64,
    dy: Float64,
    r: (Float64, Float64, i32),
)
    requires
        call_ensures(winit_scroll_to_dom, (delta,), r),
        delta == ScrollDelta::Line(dx, dy) || delta == ScrollDelta::Pixel(dx, dy),
    ensures
        r.0 == dx,
        r.1.bits as int == dy.bits + 0x8000_0000_0000_0000int || r.1.bits as int == dy.bits
            - 0x8000_0000_0000_0000int,
        delta is Line ==> r.2 == 1,
        delta is Pixel ==> r.2 == 0,
{
}

/// A number is limited to the range from zero to one: what lies in it stays, and
/// what lies outside becomes the end that is nearer.
pub proof fn numbers_are_clamped(x: Float64, r: Float64)
    requires
        call_ensures(Float64::clamp_to_unit, (x,), r),
    ensures
        x.bits <= 0x3ff0_0000_0000_0000 ==> r == x,
        0x3ff0_0000_0000_0000 < x.bits <= 0x7ff0_0000_0000_0000 ==> r.bits == 0x3ff0_0000_0000_0000,
        0x8000_0000_0000_0000 < x.bits <= 0xfff0_0000_0000_0000 ==> r.bits == 0,
        0x7ff0_0000_0000_0000 < x.bits <= 0x8000_0000_0000_0000 || x.bits > 0xfff0_0000_0000_0000
            ==> r == x,
{
}

/// The steps of a composition are numbered start, update, end from zero, and what
/// has no number is an end.
pub proof fn composition_steps_are_numbered(raw: i32, r: ImeState)
    requires
        call_ensures(ImeState::from_raw, (raw,), r),
    ensures
        r == ImeState::Start <==> raw == 0,
        r == ImeState::Update <==> raw == 1,
        r == ImeState::End <==> raw != 0 && raw != 1,
{
}

} // verus!
