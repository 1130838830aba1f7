//! Modifier keys that are heard of twice: through a key event, and through a
//! report of the modifiers. Platforms deliver either or both, in either order,
//! and the keyboard handler hears of each press and each release once, under the
//! code of the key that it was. A report that does not know which side it was
//! leaves that to the key event.

use crate::keyboard;
use crate::keyboard::{EdgeView, Modifiers, ModifiersKeyState, ModifiersState};
use crate::text::text_eq;
use vstd::prelude::*;

verus! {

/// How the last press or release of a modifier key was told.
#[derive(Clone, Copy, Debug, PartialEq, Eq, Structural)]
pub enum Told {
    /// Nothing more is to come of it.
    Settled,
    /// By a key event, and the report of the modifiers is still to come.
    ByKey { down: bool },
    /// By a report of the modifiers, as the right or the left key, and the key
    /// event is still to come.
    ByReport { down: bool, right: bool },
}

/// The side of a modifier that is known to be held: the right one if it alone is,
/// else the left one.
pub open spec fn held_side(held: (ModifiersKeyState, ModifiersKeyState)) -> Option<bool> {
    if keyboard::right_only(held.0, held.1) {
        Some(true)
    } else if held.0 == ModifiersKeyState::Pressed {
        Some(false)
    } else {
        None
    }
}

/// The side of a modifier that went down, or was held before it went up.
pub open spec fn changed_side(
    now: bool,
    held_before: (ModifiersKeyState, ModifiersKeyState),
    held_after: (ModifiersKeyState, ModifiersKeyState),
) -> Option<bool> {
    held_side(if now {
        held_after
    } else {
        held_before
    })
}

fn side_that_changed(
    now: bool,
    held_before: (ModifiersKeyState, ModifiersKeyState),
    held_after: (ModifiersKeyState, ModifiersKeyState),
) -> (r: Option<bool>)
    ensures
        r == changed_side(now, held_before, held_after),
{
    let held = if now {
        held_after
    } else {
        held_before
    };
    if held.0 == ModifiersKeyState::Pressed {
        Some(false)
    } else if held.1 == ModifiersKeyState::Pressed {
        Some(true)
    } else {
        None
    }
}

impl Told {
    /// A change that a report brings is told: its side is known, and no key event
    /// has told it.
    pub open spec fn report_is_told(self, down: bool, side: Option<bool>) -> bool {
        side is Some && self != Told::ByKey { down }
    }

    /// After a report in which the modifier went from `was` to `now`.
    pub open spec fn after_report(self, was: bool, now: bool, side: Option<bool>) -> Told {
        if was == now {
            self
        } else if self.report_is_told(now, side) {
            Told::ByReport { down: now, right: side->0 }
        } else {
            Told::Settled
        }
    }

    /// After a key event, where the modifier was last reported as `active` and
    /// `held_back` says that a report has told the event. A report follows only
    /// where it would bring a change.
    pub open spec fn after_key(self, active: bool, down: bool, held_back: bool) -> Told {
        if held_back {
            Told::Settled
        } else if active != down {
            Told::ByKey { down }
        } else if self is ByReport {
            self
        } else {
            Told::Settled
        }
    }

    fn reported(self, was: bool, now: bool, side: Option<bool>) -> (r: Told)
        ensures
            r == self.after_report(was, now, side),
    {
        if was == now {
            return self;
        }
        match side {
            Some(right) => if self == (Told::ByKey { down: now }) {
                Told::Settled
            } else {
                Told::ByReport { down: now, right }
            },
            None => Told::Settled,
        }
    }

    fn keyed(self, active: bool, down: bool, held_back: bool) -> (r: Told)
        ensures
            r == self.after_key(active, down, held_back),
    {
        if held_back {
            Told::Settled
        } else if active != down {
            Told::ByKey { down }
        } else {
            match self {
                Told::ByReport { .. } => self,
                _ => Told::Settled,
            }
        }
    }
}

/// Whether the modifier with a `key` string is active.
pub open spec fn active(state: ModifiersState, key: Seq<char>) -> bool {
    if key == "Shift"@ {
        state.shift()
    } else if key == "Control"@ {
        state.control()
    } else if key == "Alt"@ {
        state.alt()
    } else if key == "Meta"@ {
        state.meta()
    } else {
        false
    }
}

/// The side on which the modifier with a `key` string changed between two
/// reports, if it is known.
pub open spec fn side_of(prev: Modifiers, next: Modifiers, down: bool, key: Seq<char>) -> Option<
    bool,
> {
    if key == "Shift"@ {
        changed_side(down, (prev.lshift, prev.rshift), (next.lshift, next.rshift))
    } else if key == "Control"@ {
        changed_side(down, (prev.lcontrol, prev.rcontrol), (next.lcontrol, next.rcontrol))
    } else if key == "Alt"@ {
        changed_side(down, (prev.lalt, prev.ralt), (next.lalt, next.ralt))
    } else if key == "Meta"@ {
        changed_side(down, (prev.lsuper, prev.rsuper), (next.lsuper, next.rsuper))
    } else {
        None
    }
}

/// The code of one side of the modifier with a `key` string.
pub open spec fn side_code(key: Seq<char>, right: bool) -> Seq<char> {
    if key == "Shift"@ {
        if right {
            "ShiftRight"@
        } else {
            "ShiftLeft"@
        }
    } else if key == "Control"@ {
        if right {
            "ControlRight"@
        } else {
            "ControlLeft"@
        }
    } else if key == "Alt"@ {
        if right {
            "AltRight"@
        } else {
            "AltLeft"@
        }
    } else if right {
        "MetaRight"@
    } else {
        "MetaLeft"@
    }
}

fn is_side_code(key: &str, right: bool, code: &str) -> (r: bool)
    ensures
        r == (code@ == side_code(key@, right)),
{
    let side = if text_eq(key, "Shift") {
        if right {
            "ShiftRight"
        } else {
            "ShiftLeft"
        }
    } else if text_eq(key, "Control") {
        if right {
            "ControlRight"
        } else {
            "ControlLeft"
        }
    } else if text_eq(key, "Alt") {
        if right {
            "AltRight"
        } else {
            "AltLeft"
        }
    } else if right {
        "MetaRight"
    } else {
        "MetaLeft"
    };
    text_eq(code, side)
}

/// How far the modifier keys of a window have been told.
#[derive(Clone, Copy, Debug, PartialEq, Eq, Structural)]
pub struct ToldModifiers {
    pub shift: Told,
    pub control: Told,
    pub alt: Told,
    pub meta: Told,
}

impl ToldModifiers {
    /// Nothing has been told.
    pub open spec fn none() -> ToldModifiers {
        ToldModifiers {
            shift: Told::Settled,
            control: Told::Settled,
            alt: Told::Settled,
            meta: Told::Settled,
        }
    }

    pub fn new() -> (r: ToldModifiers)
        ensures
            r == ToldModifiers::none(),
    {
        ToldModifiers {
            shift: Told::Settled,
            control: Told::Settled,
            alt: Told::Settled,
            meta: Told::Settled,
        }
    }

    /// How far the key with a `key` string has been told. Of keys that no report
    /// speaks of there is nothing to come.
    pub open spec fn of(self, key: Seq<char>) -> Told {
        if key == "Shift"@ {
            self.shift
        } else if key == "Control"@ {
            self.control
        } else if key == "Alt"@ {
            self.alt
        } else if key == "Meta"@ {
            self.meta
        } else {
            Told::Settled
        }
    }

    /// A key event is told, unless a report has told it already: the same key on
    /// the same side, in the same direction. The repeats of a key that is held
    /// are always told: no report speaks of those.
    pub open spec fn tells_key(
        self,
        key: Seq<char>,
        code: Seq<char>,
        down: bool,
        repeat: bool,
    ) -> bool {
        repeat || !(self.of(key) matches Told::ByReport { down: d, right } && d == down && code
            == side_code(key, right))
    }

    /// An edge between two reports is told.
    pub open spec fn tells_edge(self, prev: Modifiers, next: Modifiers, edge: EdgeView) -> bool {
        self.of(edge.1).report_is_told(edge.0, side_of(prev, next, edge.0, edge.1))
    }

    /// Those of the edges between two reports that are told.
    pub open spec fn told_edges(
        self,
        prev: Modifiers,
        next: Modifiers,
        edges: Seq<EdgeView>,
    ) -> Seq<EdgeView>
        decreases edges.len(),
    {
        if edges.len() == 0 {
            Seq::empty()
        } else {
            let before = self.told_edges(prev, next, edges.drop_last());
            if self.tells_edge(prev, next, edges.last()) {
                before.push(edges.last())
            } else {
                before
            }
        }
    }

    /// The edges that a report which takes the modifiers from `prev` to `next`
    /// tells.
    pub open spec fn told_between(self, prev: Modifiers, next: Modifiers) -> Seq<EdgeView> {
        self.told_edges(prev, next, keyboard::edges_between(prev, next))
    }

    /// After a report that takes the modifiers from `prev` to `next`.
    pub open spec fn after_report(self, prev: Modifiers, next: Modifiers) -> ToldModifiers {
        let (p, n) = (prev.state, next.state);
        ToldModifiers {
            shift: self.shift.after_report(
                p.shift(),
                n.shift(),
                side_of(prev, next, n.shift(), "Shift"@),
            ),
            control: self.control.after_report(
                p.control(),
                n.control(),
                side_of(prev, next, n.control(), "Control"@),
            ),
            alt: self.alt.after_report(p.alt(), n.alt(), side_of(prev, next, n.alt(), "Alt"@)),
            meta: self.meta.after_report(
                p.meta(),
                n.meta(),
                side_of(prev, next, n.meta(), "Meta"@),
            ),
        }
    }

    /// After a key event, with the modifiers as last reported.
    pub open spec fn after_key(
        self,
        state: ModifiersState,
        key: Seq<char>,
        code: Seq<char>,
        down: bool,
        repeat: bool,
    ) -> ToldModifiers {
        let told = self.of(key).after_key(
            active(state, key),
            down,
            !self.tells_key(key, code, down, repeat),
        );
        if repeat {
            self
        } else if key == "Shift"@ {
            ToldModifiers { shift: told, ..self }
        } else if key == "Control"@ {
            ToldModifiers { control: told, ..self }
        } else if key == "Alt"@ {
            ToldModifiers { alt: told, ..self }
        } else if key == "Meta"@ {
            ToldModifiers { meta: told, ..self }
        } else {
            self
        }
    }

    fn told_of(&self, key: &str) -> (r: Told)
        ensures
            r == self.of(key@),
    {
        if text_eq(key, "Shift") {
            self.shift
        } else if text_eq(key, "Control") {
            self.control
        } else if text_eq(key, "Alt") {
            self.alt
        } else if text_eq(key, "Meta") {
            self.meta
        } else {
            Told::Settled
        }
    }

    /// Whether the keyboard handler is told of a key event.
    pub fn key_event_is_told(&self, key: &str, code: &str, down: bool, repeat: bool) -> (r: bool)
        ensures
            r == self.tells_key(key@, code@, down, repeat),
    {
        if repeat {
            return true;
        }
        match self.told_of(key) {
            Told::ByReport { down: d, right } => !(d == down && is_side_code(key, right, code)),
            _ => true,
        }
    }

    /// Whether the keyboard handler is told of an edge between two reports, given
    /// by its `key` string and direction.
    pub fn edge_is_told(&self, prev: &Modifiers, next: &Modifiers, key: &str, down: bool) -> (r:
        bool)
        ensures
            forall|code: Seq<char>| r == #[trigger] self.tells_edge(*prev, *next, (down, key@, code)),
    {
        let side = if text_eq(key, "Shift") {
            side_that_changed(down, (prev.lshift, prev.rshift), (next.lshift, next.rshift))
        } else if text_eq(key, "Control") {
            side_that_changed(down, (prev.lcontrol, prev.rcontrol), (next.lcontrol, next.rcontrol))
        } else if text_eq(key, "Alt") {
            side_that_changed(down, (prev.lalt, prev.ralt), (next.lalt, next.ralt))
        } else if text_eq(key, "Meta") {
            side_that_changed(down, (prev.lsuper, prev.rsuper), (next.lsuper, next.rsuper))
        } else {
            None
        };
        side.is_some() && self.told_of(key) != (Told::ByKey { down })
    }

    /// Takes in a key event.
    pub fn note_key(
        &self,
        state: ModifiersState,
        key: &str,
        code: &str,
        down: bool,
        repeat: bool,
    ) -> (r: ToldModifiers)
        ensures
            r == self.after_key(state, key@, code@, down, repeat),
    {
        let mut r = *self;
        if repeat {
            return r;
        }
        let held_back = !self.key_event_is_told(key, code, down, repeat);
        if text_eq(key, "Shift") {
            r.shift = self.shift.keyed(state.shift_key(), down, held_back);
        } else if text_eq(key, "Control") {
            r.control = self.control.keyed(state.control_key(), down, held_back);
        } else if text_eq(key, "Alt") {
            r.alt = self.alt.keyed(state.alt_key(), down, held_back);
        } else if text_eq(key, "Meta") {
            r.meta = self.meta.keyed(state.super_key(), down, held_back);
        }
        r
    }

    /// Takes in a report of the modifiers.
    pub fn note_report(&self, prev: &Modifiers, next: &Modifiers) -> (r: ToldModifiers)
        ensures
            r == self.after_report(*prev, *next),
    {
        proof {
            keyboard::modifier_names_differ();
        }
        let (p, n) = (prev.state, next.state);
        ToldModifiers {
            shift: self.shift.reported(
                p.shift_key(),
                n.shift_key(),
                side_that_changed(
                    n.shift_key(),
                    (prev.lshift, prev.rshift),
                    (next.lshift, next.rshift),
                ),
            ),
            control: self.control.reported(
                p.control_key(),
                n.control_key(),
                side_that_changed(
                    n.control_key(),
                    (prev.lcontrol, prev.rcontrol),
                    (next.lcontrol, next.rcontrol),
                ),
            ),
            alt: self.alt.reported(
                p.alt_key(),
                n.alt_key(),
                side_that_changed(n.alt_key(), (prev.lalt, prev.ralt), (next.lalt, next.ralt)),
            ),
            meta: self.meta.reported(
                p.super_key(),
                n.super_key(),
                side_that_changed(
                    n.super_key(),
                    (prev.lsuper, prev.rsuper),
                    (next.lsuper, next.rsuper),
                ),
            ),
        }
    }
}

proof fn told_edges_are_the_news(
    told: ToldModifiers,
    prev: Modifiers,
    next: Modifiers,
    edges: Seq<EdgeView>,
    down: bool,
    key: Seq<char>,
)
    ensures
        keyboard::has_edge(told.told_edges(prev, next, edges), down, key) == (keyboard::has_edge(
            edges,
            down,
            key,
        ) && told.of(key).report_is_told(down, side_of(prev, next, down, key))),
    decreases edges.len(),
{
    if edges.len() > 0 {
        let (rest, last) = (edges.drop_last(), edges.last());
        told_edges_are_the_news(told, prev, next, rest, down, key);
        assert(edges =~= rest + seq![last]);
        keyboard::edge_in_either(rest, seq![last], down, key);
        assert(seq![last][0] == last);
        let before = told.told_edges(prev, next, rest);
        assert(before.push(last) =~= before + seq![last]);
        keyboard::edge_in_either(before, seq![last], down, key);
    }
}

/// A press or release of a modifier key that comes both as a key event and in a
/// report of the modifiers is told once. Where the key event comes first, it is
/// told, and the report is not. Where the report comes first, it is told if it
/// knows the side, and the key event otherwise. What is still to come of an
/// earlier change in the other direction does not matter, and once both have come
/// nothing is to come.
pub proof fn modifier_change_is_told_once(
    told: ToldModifiers,
    prev: Modifiers,
    next: Modifiers,
    down: bool,
    key: Seq<char>,
    code: Seq<char>,
)
    requires
        keyboard::has_edge(keyboard::edges_between(prev, next), down, key),
        side_of(prev, next, down, key) matches Some(right) ==> code == side_code(key, right),
        told.of(key) != (Told::ByKey { down }),
        told.of(key) != (Told::ByReport { down, right: true }),
        told.of(key) != (Told::ByReport { down, right: false }),
    ensures
        ({
            let reported = told.after_report(prev, next);
            let sided = side_of(prev, next, down, key) is Some;
            &&& keyboard::has_edge(told.told_between(prev, next), down, key) == sided
            &&& reported.tells_key(key, code, down, false) == !sided
            &&& reported.after_key(next.state, key, code, down, false).of(key) == Told::Settled
        }),
        ({
            let keyed = told.after_key(prev.state, key, code, down, false);
            &&& told.tells_key(key, code, down, false)
            &&& !keyboard::has_edge(keyed.told_between(prev, next), down, key)
            &&& keyed.after_report(prev, next).of(key) == Told::Settled
        }),
{
    let edges = keyboard::edges_between(prev, next);
    let keyed = told.after_key(prev.state, key, code, down, false);
    keyboard::edges_for(prev, next, down, key);
    keyboard::modifier_names_differ();
    told_edges_are_the_news(told, prev, next, edges, down, key);
    told_edges_are_the_news(keyed, prev, next, edges, down, key);
}

proof fn told_edge_is_kept(
    told: ToldModifiers,
    prev: Modifiers,
    next: Modifiers,
    edges: Seq<EdgeView>,
    edge: EdgeView,
)
    requires
        edges.contains(edge),
        told.tells_edge(prev, next, edge),
    ensures
        told.told_edges(prev, next, edges).contains(edge),
    decreases edges.len(),
{
    let (rest, last) = (edges.drop_last(), edges.last());
    let before = told.told_edges(prev, next, rest);
    let i = choose|i: int| 0 <= i < edges.len() && edges[i] == edge;
    if i < rest.len() {
        assert(rest[i] == edge);
        told_edge_is_kept(told, prev, next, rest, edge);
        let j = choose|j: int| 0 <= j < before.len() && before[j] == edge;
        assert(before.push(last)[j] == edge);
    } else {
        assert(before.push(last).last() == edge);
    }
}

/// A key event is held back only where a report has told the very same: while
/// the report of a change on one side is the last that was told, and only for
/// the code of that side.
#[verifier::spinoff_prover]
#[verifier::rlimit(60)]
pub proof fn held_back_key_was_told(
    told: ToldModifiers,
    prev: Modifiers,
    next: Modifiers,
    down: bool,
    key: Seq<char>,
    code: Seq<char>,
    repeat: bool,
)
    requires
        told.tells_key(key, code, down, false),
        !told.after_report(prev, next).tells_key(key, code, down, repeat),
    ensures
        !repeat,
        told.told_between(prev, next).contains((down, key, code)),
{
    keyboard::modifier_names_differ();
    let edges = keyboard::edges_between(prev, next);
    let (p, n) = (prev, next);
    let a = keyboard::edge_of(p.state.shift(), n.state.shift(), (p.lshift, p.rshift),
        (n.lshift, n.rshift), "Shift"@, "ShiftLeft"@, "ShiftRight"@);
    let b = keyboard::edge_of(p.state.control(), n.state.control(), (p.lcontrol, p.rcontrol),
        (n.lcontrol, n.rcontrol), "Control"@, "ControlLeft"@, "ControlRight"@);
    let c = keyboard::edge_of(p.state.alt(), n.state.alt(), (p.lalt, p.ralt), (n.lalt, n.ralt),
        "Alt"@, "AltLeft"@, "AltRight"@);
    let d = keyboard::edge_of(p.state.meta(), n.state.meta(), (p.lsuper, p.rsuper),
        (n.lsuper, n.rsuper), "Meta"@, "MetaLeft"@, "MetaRight"@);
    assert(edges == a + b + c + d);
    let edge = (down, key, code);
    if key == "Shift"@ {
        assert(a[0] == edge);
        assert(edges[0] == a[0]);
    } else if key == "Control"@ {
        assert(b[0] == edge);
        assert(edges[a.len() as int] == b[0]);
    } else if key == "Alt"@ {
        assert(c[0] == edge);
        assert(edges[(a.len() + b.len()) as int] == c[0]);
    } else {
        assert(d[0] == edge);
        assert(edges[(a.len() + b.len() + c.len()) as int] == d[0]);
    }
    assert(edges.contains(edge));
    told_edge_is_kept(told, prev, next, edges, edge);
}

/// A press or release that comes in one of the two ways only is told too: each
/// key event that no report has told, and each edge that no key event has told
/// and whose side is known.
pub proof fn lone_modifier_change_is_told(
    told: ToldModifiers,
    prev: Modifiers,
    next: Modifiers,
    down: bool,
    key: Seq<char>,
    code: Seq<char>,
    repeat: bool,
)
    ensures
        !(told.of(key) is ByReport) ==> told.tells_key(key, code, down, repeat),
        told.of(key) != (Told::ByKey { down }) && side_of(prev, next, down, key) is Some ==> (
        keyboard::has_edge(told.told_between(prev, next), down, key) == keyboard::has_edge(
            keyboard::edges_between(prev, next),
            down,
            key,
        )),
{
    told_edges_are_the_news(told, prev, next, keyboard::edges_between(prev, next), down, key);
}

} // verus!
