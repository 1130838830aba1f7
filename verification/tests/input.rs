//! Keyboard and mouse input.

use laufey::composition::{ime_step, Composition, ImeInput};
use laufey::float::Float64;
use laufey::ime::{
    ime_event_trampoline, on_ime_event, ImeEvent, ImeState, LAUFEY_IME_END, LAUFEY_IME_START,
    LAUFEY_IME_UPDATE,
};
use laufey::api::create_backend_api;
use laufey::keyboard::{
    is_modifier_named_key, modifier_key_edges, modifiers_to_laufey, winit_code_to_string,
    winit_key_to_string, Key, KeyCode, KeyModifiers, Modifiers, ModifiersKeyState, ModifiersState,
    NamedKey, PhysicalKey, LAUFEY_MOD_ALT, LAUFEY_MOD_CONTROL, LAUFEY_MOD_META, LAUFEY_MOD_SHIFT,
    WINIT_ALT, WINIT_CONTROL, WINIT_SHIFT, WINIT_SUPER,
};
use laufey::modifier_keys::{Told, ToldModifiers};
use laufey::mouse::{
    next_click_count, winit_button_to_laufey, winit_scroll_to_dom, MouseButton, ScrollDelta,
    LAUFEY_MOUSE_BUTTON_BACK, LAUFEY_MOUSE_BUTTON_FORWARD, LAUFEY_MOUSE_BUTTON_LEFT,
    LAUFEY_MOUSE_BUTTON_MIDDLE, LAUFEY_MOUSE_BUTTON_RIGHT, LAUFEY_WHEEL_DELTA_LINE,
    LAUFEY_WHEEL_DELTA_PIXEL,
};
use laufey::runtime::{init_api, HandlerId, Runtime};

fn f(x: f64) -> Float64 {
    Float64::from_bits(x.to_bits())
}

fn num(x: Float64) -> f64 {
    f64::from_bits(x.to_bits())
}

/// The count of a press at (x, y), `dt_ms` after one at `prev_pos`.
fn count(
    prev_button: Option<MouseButton>,
    prev_pos: Option<(f64, f64)>,
    prev_count: i32,
    button: MouseButton,
    x: f64,
    y: f64,
    dt_ms: u64,
) -> i32 {
    let now: u64 = 1_000_000_000_000;
    let prev_time = if dt_ms == u64::MAX { None } else { Some(now - dt_ms * 1_000_000) };
    let nearby = match prev_pos {
        Some((px, py)) => (x - px) * (x - px) + (y - py) * (y - py) <= 4.0 * 4.0,
        None => false,
    };
    next_click_count(prev_button, nearby, prev_time, prev_count, button, now)
}

#[test]
fn first_press_is_click_count_1() {
    assert_eq!(count(None, None, 0, MouseButton::Left, 10.0, 10.0, u64::MAX), 1);
}

#[test]
fn second_press_nearby_is_2() {
    assert_eq!(
        count(
            Some(MouseButton::Left),
            Some((10.0, 10.0)),
            1,
            MouseButton::Left,
            11.0,
            10.0,
            100,
        ),
        2
    );
}

#[test]
fn third_press_nearby_is_3() {
    assert_eq!(
        count(
            Some(MouseButton::Left),
            Some((10.0, 10.0)),
            2,
            MouseButton::Left,
            10.0,
            12.0,
            100,
        ),
        3
    );
}

#[test]
fn far_press_restarts_at_1() {
    assert_eq!(
        count(
            Some(MouseButton::Left),
            Some((10.0, 10.0)),
            1,
            MouseButton::Left,
            40.0,
            10.0,
            100,
        ),
        1
    );
}

#[test]
fn late_press_restarts_at_1() {
    assert_eq!(
        count(
            Some(MouseButton::Left),
            Some((10.0, 10.0)),
            1,
            MouseButton::Left,
            10.0,
            10.0,
            600,
        ),
        1
    );
}

#[test]
fn other_button_restarts_at_1() {
    assert_eq!(
        count(
            Some(MouseButton::Left),
            Some((10.0, 10.0)),
            1,
            MouseButton::Right,
            10.0,
            10.0,
            100,
        ),
        1
    );
}

#[test]
fn the_interval_itself_is_too_late() {
    let press = |t: u64| {
        next_click_count(Some(MouseButton::Left), true, Some(0), 1, MouseButton::Left, t)
    };
    assert_eq!(press(499_999_999), 2);
    assert_eq!(press(500_000_000), 1);
    // A clock that went back counts as no time.
    assert_eq!(
        next_click_count(Some(MouseButton::Left), true, Some(10), 4, MouseButton::Left, 5),
        5
    );
}

#[test]
fn quick_presses_count_one_by_one() {
    let mut n = next_click_count(None, false, None, 0, MouseButton::Middle, 0);
    let mut t: u64 = 0;
    for expected in 1..6 {
        assert_eq!(n, expected);
        n = next_click_count(
            Some(MouseButton::Middle),
            true,
            Some(t),
            n,
            MouseButton::Middle,
            t + 400_000_000,
        );
        t += 400_000_000;
    }
}

#[test]
fn buttons_have_their_numbers() {
    assert_eq!(winit_button_to_laufey(MouseButton::Left), LAUFEY_MOUSE_BUTTON_LEFT);
    assert_eq!(winit_button_to_laufey(MouseButton::Right), LAUFEY_MOUSE_BUTTON_RIGHT);
    assert_eq!(winit_button_to_laufey(MouseButton::Middle), LAUFEY_MOUSE_BUTTON_MIDDLE);
    assert_eq!(winit_button_to_laufey(MouseButton::Back), LAUFEY_MOUSE_BUTTON_BACK);
    assert_eq!(winit_button_to_laufey(MouseButton::Forward), LAUFEY_MOUSE_BUTTON_FORWARD);
    assert_eq!(winit_button_to_laufey(MouseButton::Other(9)), -1);
}

#[test]
fn line_scroll_maps_winit_up_to_dom_negative() {
    let (dx, dy, mode) = winit_scroll_to_dom(ScrollDelta::Line(f(0.0), f(3.0)));
    assert_eq!(num(dx), 0.0);
    assert_eq!(num(dy), -3.0);
    assert_eq!(mode, LAUFEY_WHEEL_DELTA_LINE);
    let (_, down, _) = winit_scroll_to_dom(ScrollDelta::Line(f(0.0), f(-3.0)));
    assert_eq!(num(down), 3.0);
}

#[test]
fn pixel_scroll_flips_y_only() {
    let (dx, dy, mode) = winit_scroll_to_dom(ScrollDelta::Pixel(f(4.0), f(8.0)));
    assert_eq!((num(dx), num(dy)), (4.0, -8.0));
    assert_eq!(mode, LAUFEY_WHEEL_DELTA_PIXEL);
}

#[test]
fn floats_clamp_and_negate() {
    assert_eq!(num(f(0.25).clamp_to_unit()), 0.25);
    assert_eq!(num(f(1.5).clamp_to_unit()), 1.0);
    assert_eq!(num(f(-0.5).clamp_to_unit()), 0.0);
    assert_eq!(num(f(f64::INFINITY).clamp_to_unit()), 1.0);
    assert_eq!(num(f(f64::NEG_INFINITY).clamp_to_unit()), 0.0);
    assert!(num(f(f64::NAN).clamp_to_unit()).is_nan());
    assert_eq!(f(2.5).negate().negate(), f(2.5));
    assert!(f(f64::MIN_POSITIVE).is_positive());
    assert!(!f(0.0).is_positive());
    assert!(!f(-1.0).is_positive());
    assert!(!f(f64::NAN).is_positive());
    assert_eq!(num(Float64::one()), 1.0);
    assert_eq!(num(Float64::zero()), 0.0);
}

#[test]
fn named_keys_use_w3c_key_values() {
    assert_eq!(winit_key_to_string(&Key::Named(NamedKey::Super)), "Meta");
    assert_eq!(winit_key_to_string(&Key::Named(NamedKey::Space)), " ");
    assert_eq!(winit_key_to_string(&Key::Named(NamedKey::Shift)), "Shift");
}

#[test]
fn super_codes_use_w3c_meta() {
    assert_eq!(winit_code_to_string(&PhysicalKey::Code(KeyCode::SuperLeft)), "MetaLeft");
    assert_eq!(winit_code_to_string(&PhysicalKey::Code(KeyCode::ShiftLeft)), "ShiftLeft");
}

#[test]
fn other_keys_keep_their_names() {
    assert_eq!(winit_key_to_string(&Key::Character("é".to_string())), "é");
    assert_eq!(winit_key_to_string(&Key::Named(NamedKey::Other("ArrowUp".to_string()))), "ArrowUp");
    assert_eq!(winit_key_to_string(&Key::Unidentified), "Unidentified");
    assert_eq!(winit_key_to_string(&Key::Dead(None)), "Dead");
    assert_eq!(winit_key_to_string(&Key::Dead(Some('^'))), "Dead");
    assert_eq!(winit_code_to_string(&PhysicalKey::Code(KeyCode::SuperRight)), "MetaRight");
    assert_eq!(
        winit_code_to_string(&PhysicalKey::Code(KeyCode::Other("KeyA".to_string()))),
        "KeyA"
    );
    assert_eq!(winit_code_to_string(&PhysicalKey::Unidentified), "Unidentified");
    assert!(is_modifier_named_key(&Key::Named(NamedKey::Control)));
    assert!(!is_modifier_named_key(&Key::Named(NamedKey::Space)));
    assert!(!is_modifier_named_key(&Key::Character("a".to_string())));
}

#[test]
fn modifier_edges_emit_shift_down_and_up() {
    let prev = Modifiers::default();
    let next = Modifiers::from_state(ModifiersState { bits: WINIT_SHIFT });
    assert_eq!(modifier_key_edges(&prev, &next), vec![(true, "Shift", "ShiftLeft")]);
    assert_eq!(modifier_key_edges(&next, &prev), vec![(false, "Shift", "ShiftLeft")]);
    assert_eq!(modifier_key_edges(&next, &next), vec![]);
}

#[test]
fn modifier_edges_tell_the_sides_apart() {
    let prev = Modifiers::default();
    let mut next = Modifiers::from_state(ModifiersState { bits: WINIT_ALT | WINIT_SUPER });
    next.ralt = ModifiersKeyState::Pressed;
    next.lsuper = ModifiersKeyState::Pressed;
    assert_eq!(
        modifier_key_edges(&prev, &next),
        vec![(true, "Alt", "AltRight"), (true, "Meta", "MetaLeft")]
    );
}

#[test]
fn the_winit_masks_are_those_of_winit() {
    assert_eq!(winit::keyboard::ModifiersState::SHIFT.bits(), WINIT_SHIFT);
    assert_eq!(winit::keyboard::ModifiersState::CONTROL.bits(), WINIT_CONTROL);
    assert_eq!(winit::keyboard::ModifiersState::ALT.bits(), WINIT_ALT);
    assert_eq!(winit::keyboard::ModifiersState::SUPER.bits(), WINIT_SUPER);
}

#[test]
fn modifiers_become_the_mask() {
    let state = |bits: u32| ModifiersState { bits };
    assert_eq!(modifiers_to_laufey(state(0)), 0);
    assert_eq!(modifiers_to_laufey(state(WINIT_SHIFT)), LAUFEY_MOD_SHIFT);
    assert_eq!(modifiers_to_laufey(state(WINIT_CONTROL)), LAUFEY_MOD_CONTROL);
    assert_eq!(modifiers_to_laufey(state(WINIT_ALT)), LAUFEY_MOD_ALT);
    assert_eq!(modifiers_to_laufey(state(WINIT_SUPER)), LAUFEY_MOD_META);
    assert_eq!(
        modifiers_to_laufey(state(WINIT_SHIFT | WINIT_CONTROL | WINIT_ALT | WINIT_SUPER)),
        15
    );
    let back = KeyModifiers::from_raw(modifiers_to_laufey(state(WINIT_CONTROL | WINIT_SUPER)));
    assert!(!back.shift && back.control && !back.alt && back.meta);
}

#[test]
fn key_modifiers_empty() {
    let m = KeyModifiers::from_raw(0);
    assert!(!m.shift && !m.control && !m.alt && !m.meta);
}

#[test]
fn key_modifiers_single_flags() {
    assert!(KeyModifiers::from_raw(LAUFEY_MOD_SHIFT).shift);
    assert!(KeyModifiers::from_raw(LAUFEY_MOD_CONTROL).control);
    assert!(KeyModifiers::from_raw(LAUFEY_MOD_ALT).alt);
    assert!(KeyModifiers::from_raw(LAUFEY_MOD_META).meta);
}

#[test]
fn key_modifiers_combinations() {
    let all = KeyModifiers::from_raw(
        LAUFEY_MOD_SHIFT | LAUFEY_MOD_CONTROL | LAUFEY_MOD_ALT | LAUFEY_MOD_META,
    );
    assert!(all.shift && all.control && all.alt && all.meta);

    // Unknown high bits are ignored, known low bits still decode.
    let mixed = KeyModifiers::from_raw(LAUFEY_MOD_SHIFT | 0xF000_0000);
    assert!(mixed.shift && !mixed.control && !mixed.alt && !mixed.meta);
}

#[test]
fn key_modifiers_every_combination() {
    for bits in 0..16u32 {
        let raw = (if bits & 1 != 0 { LAUFEY_MOD_SHIFT } else { 0 })
            | (if bits & 2 != 0 { LAUFEY_MOD_CONTROL } else { 0 })
            | (if bits & 4 != 0 { LAUFEY_MOD_ALT } else { 0 })
            | (if bits & 8 != 0 { LAUFEY_MOD_META } else { 0 });
        let m = KeyModifiers::from_raw(raw);
        assert_eq!(m.shift, bits & 1 != 0, "shift bit @ {bits:04b}");
        assert_eq!(m.control, bits & 2 != 0, "control bit @ {bits:04b}");
        assert_eq!(m.alt, bits & 4 != 0, "alt bit @ {bits:04b}");
        assert_eq!(m.meta, bits & 8 != 0, "meta bit @ {bits:04b}");
    }
}

#[test]
fn ime_state_from_raw_known_values() {
    assert_eq!(ImeState::from_raw(LAUFEY_IME_START), ImeState::Start);
    assert_eq!(ImeState::from_raw(LAUFEY_IME_UPDATE), ImeState::Update);
    assert_eq!(ImeState::from_raw(LAUFEY_IME_END), ImeState::End);
}

#[test]
fn ime_state_unknown_defaults_to_end() {
    assert_eq!(ImeState::from_raw(42), ImeState::End);
    assert_eq!(ImeState::from_raw(-1), ImeState::End);
}

#[test]
fn ime_event_field_passthrough() {
    let ev = ImeEvent { window_id: 7, state: ImeState::Update, data: "あ".to_string() };
    assert_eq!(ev.window_id, 7);
    assert_eq!(ev.state, ImeState::Update);
    assert_eq!(ev.data, "あ");
}

#[test]
fn ime_events_reach_the_window_they_are_for() {
    let mut rt = Runtime::new();
    assert_eq!(init_api(&mut rt, Some(create_backend_api())), 0);
    on_ime_event(&mut rt, 3, HandlerId { token: 11 });
    let (to, ev) = ime_event_trampoline(&rt, 3, LAUFEY_IME_UPDATE, Some("かな".to_string())).unwrap();
    assert_eq!(to, HandlerId { token: 11 });
    assert_eq!((ev.window_id, ev.state, ev.data.as_str()), (3, ImeState::Update, "かな"));
    assert!(ime_event_trampoline(&rt, 4, LAUFEY_IME_START, None).is_none());
}

/// The steps that reports of an input method bring, from a fresh start.
fn composed(inputs: Vec<ImeInput>) -> Vec<(ImeState, String)> {
    let mut composition = Composition::Idle;
    let mut steps = Vec::new();
    for input in inputs {
        steps.extend(ime_step(&mut composition, input));
    }
    steps
}

fn preedit(text: &str) -> ImeInput {
    ImeInput::Preedit(text.to_string())
}

fn step(state: ImeState, text: &str) -> (ImeState, String) {
    (state, text.to_string())
}

#[test]
fn a_committed_composition_starts_updates_and_ends() {
    let steps = composed(vec![
        ImeInput::Enabled,
        preedit("a"),
        preedit("a b"),
        preedit(""),
        ImeInput::Commit("啊不".to_string()),
        ImeInput::Settled,
    ]);
    assert_eq!(
        steps,
        vec![
            step(ImeState::Start, ""),
            step(ImeState::Update, "a"),
            step(ImeState::Update, "a b"),
            step(ImeState::End, "啊不"),
        ]
    );
}

#[test]
fn a_cancelled_composition_ends_without_text() {
    let cleared = composed(vec![preedit("a"), preedit(""), ImeInput::Settled, ImeInput::Settled]);
    let ended = vec![
        step(ImeState::Start, ""),
        step(ImeState::Update, "a"),
        step(ImeState::End, ""),
    ];
    assert_eq!(cleared, ended);
    assert_eq!(composed(vec![preedit("a"), ImeInput::Settled, ImeInput::Disabled]), ended);
    assert!(composed(vec![preedit(""), ImeInput::Disabled, ImeInput::Commit(String::new())]).is_empty());
}

#[test]
fn text_committed_out_of_nothing_is_a_composition() {
    assert_eq!(
        composed(vec![ImeInput::Commit("é".to_string())]),
        vec![
            step(ImeState::Start, ""),
            step(ImeState::Update, "é"),
            step(ImeState::End, "é"),
        ]
    );
}

#[test]
fn a_modifier_change_is_news_once() {
    let none = Modifiers::default();
    let shift = Modifiers {
        lshift: ModifiersKeyState::Pressed,
        ..Modifiers::from_state(ModifiersState { bits: WINIT_SHIFT })
    };
    let told = ToldModifiers::new();
    // The report comes first.
    assert!(told.edge_is_told(&none, &shift, "Shift", true));
    let reported = told.note_report(&none, &shift);
    assert_eq!(reported.shift, Told::ByReport { down: true, right: false });
    assert!(!reported.key_event_is_told("Shift", "ShiftLeft", true, false));
    assert!(reported.key_event_is_told("Shift", "ShiftRight", true, false));
    assert!(reported.key_event_is_told("Shift", "ShiftLeft", false, false));
    assert!(reported.key_event_is_told("Shift", "ShiftLeft", true, true));
    assert_eq!(
        reported.note_key(shift.state, "Shift", "ShiftLeft", true, false),
        ToldModifiers::new()
    );
    // The key event comes first.
    assert!(told.key_event_is_told("Shift", "ShiftLeft", true, false));
    let keyed = told.note_key(none.state, "Shift", "ShiftLeft", true, false);
    assert_eq!(keyed.shift, Told::ByKey { down: true });
    assert!(!keyed.edge_is_told(&none, &shift, "Shift", true));
    assert_eq!(keyed.note_report(&none, &shift), ToldModifiers::new());
    // A report that does not know the side tells nothing.
    let unsided = Modifiers::from_state(ModifiersState { bits: WINIT_SHIFT });
    assert!(!told.edge_is_told(&none, &unsided, "Shift", true));
    assert_eq!(told.note_report(&none, &unsided), ToldModifiers::new());
    // Other keys are not held back.
    assert!(keyed.key_event_is_told("a", "KeyA", true, false));
    assert_eq!(keyed.note_key(none.state, "AltGraph", "AltRight", true, false), keyed);
}
