//! Composition of text in a native window: from what the input method reports to
//! the steps that the composition handler is told, which are always a start, one
//! or more updates, and an end.

use crate::dispatch::HandlerCall;
use crate::ime::{ImeState, LAUFEY_IME_END, LAUFEY_IME_START, LAUFEY_IME_UPDATE};
use crate::text;
use crate::text::to_c_string;
use crate::window_state::{EventHandlers, WindowState};
use vstd::prelude::*;

verus! {

/// How far the composition in a window is.
#[derive(Clone, Copy, Debug, PartialEq, Eq, Structural)]
pub enum Composition {
    Idle,
    Composing,
    /// The text under composition has been cleared. Either its committed form
    /// follows at once, or the composition was cancelled.
    Cleared,
}

/// What an input method reports. It clears the text under composition right
/// before it commits.
pub enum ImeInput {
    Enabled,
    /// The text under composition; empty once it is cleared.
    Preedit(String),
    Commit(String),
    Disabled,
    /// Nothing more is reported for now: the event loop has gone idle.
    Settled,
}

/// A step of a composition by its contents.
pub type StepView = (ImeState, Seq<char>);

pub open spec fn step_view(s: (ImeState, String)) -> StepView {
    (s.0, s.1@)
}

pub open spec fn steps_view(s: Seq<(ImeState, String)>) -> Seq<StepView> {
    s.map_values(|x: (ImeState, String)| step_view(x))
}

impl Composition {
    /// How far the composition is after a report.
    pub open spec fn after(self, input: ImeInput) -> Composition {
        match input {
            ImeInput::Preedit(t) => if t@.len() > 0 {
                Composition::Composing
            } else if self is Idle {
                Composition::Idle
            } else {
                Composition::Cleared
            },
            ImeInput::Settled => if self is Composing {
                Composition::Composing
            } else {
                Composition::Idle
            },
            _ => Composition::Idle,
        }
    }

    /// The steps that a report brings. Text starts a composition or updates the
    /// one there is. A commit ends it with the text that was committed; text that
    /// is committed out of nothing is a composition of its own. Whatever else
    /// puts an end to it has cancelled it.
    pub open spec fn steps(self, input: ImeInput) -> Seq<StepView> {
        let nothing = Seq::<char>::empty();
        match input {
            ImeInput::Preedit(t) => if t@.len() == 0 {
                Seq::empty()
            } else if self is Idle {
                seq![(ImeState::Start, nothing), (ImeState::Update, t@)]
            } else {
                seq![(ImeState::Update, t@)]
            },
            ImeInput::Commit(t) => if !(self is Idle) {
                seq![(ImeState::End, t@)]
            } else if t@.len() > 0 {
                seq![(ImeState::Start, nothing), (ImeState::Update, t@), (ImeState::End, t@)]
            } else {
                Seq::empty()
            },
            ImeInput::Enabled | ImeInput::Disabled => if self is Idle {
                Seq::empty()
            } else {
                seq![(ImeState::End, nothing)]
            },
            ImeInput::Settled => if self is Cleared {
                seq![(ImeState::End, nothing)]
            } else {
                Seq::empty()
            },
        }
    }
}

/// Takes in a report of the input method and says which steps it brings.
pub fn ime_step(composition: &mut Composition, input: ImeInput) -> (r: Vec<(ImeState, String)>)
    ensures
        steps_view(r@) == old(composition).steps(input),
        *final(composition) == old(composition).after(input),
{
    let ghost before = *composition;
    let idle = *composition == Composition::Idle;
    let mut steps: Vec<(ImeState, String)> = Vec::new();
    let ghost given = input;
    match input {
        ImeInput::Preedit(t) => {
            if t.as_str().is_empty() {
                assert(t@.len() == 0);
                if !idle {
                    *composition = Composition::Cleared;
                }
            } else {
                if idle {
                    steps.push((ImeState::Start, String::new()));
                }
                steps.push((ImeState::Update, t));
                *composition = Composition::Composing;
            }
        },
        ImeInput::Commit(t) => {
            if !idle {
                steps.push((ImeState::End, t));
            } else if !t.as_str().is_empty() {
                steps.push((ImeState::Start, String::new()));
                steps.push((ImeState::Update, t.clone()));
                steps.push((ImeState::End, t));
            }
            *composition = Composition::Idle;
        },
        ImeInput::Settled => {
            if *composition == Composition::Cleared {
                steps.push((ImeState::End, String::new()));
                *composition = Composition::Idle;
            }
        },
        _ => {
            if !idle {
                steps.push((ImeState::End, String::new()));
            }
            *composition = Composition::Idle;
        },
    }
    assert(steps_view(steps@) =~= before.steps(given));
    steps
}

/// The number that stands for a step.
pub open spec fn step_number(state: ImeState) -> i32 {
    match state {
        ImeState::Start => LAUFEY_IME_START,
        ImeState::Update => LAUFEY_IME_UPDATE,
        ImeState::End => LAUFEY_IME_END,
    }
}

/// The call tells the composition handler of a step. Text that cannot cross as a
/// C string crosses empty.
pub open spec fn ime_call(
    handlers: EventHandlers,
    window_id: u32,
    step: StepView,
    call: HandlerCall,
) -> bool {
    &&& call matches HandlerCall::Ime { to, window_id: id, state, data }
    &&& handlers.ime_handler == Some(to)
    &&& id == window_id
    &&& state == step_number(step.0)
    &&& data@ == text::c_string(step.1)
}

/// The calls tell the composition handler of the steps, in order, if there is a
/// handler.
pub open spec fn ime_calls(
    handlers: EventHandlers,
    window_id: u32,
    steps: Seq<StepView>,
    calls: Seq<HandlerCall>,
) -> bool {
    match handlers.ime_handler {
        Some(_) => {
            &&& calls.len() == steps.len()
            &&& forall|i: int|
                0 <= i < steps.len() ==> ime_call(
                    handlers,
                    window_id,
                    steps[i],
                    #[trigger] calls[i],
                )
        },
        None => calls.len() == 0,
    }
}

/// Takes in a report of the input method about a window, and tells the
/// composition handler what it comes to.
pub fn dispatch_ime_event(
    handlers: &EventHandlers,
    ws: &mut WindowState,
    window_id: u32,
    input: ImeInput,
) -> (r: Vec<HandlerCall>)
    ensures
        *final(ws) == (WindowState { composition: old(ws).composition.after(input), ..*old(ws) }),
        ime_calls(*handlers, window_id, old(ws).composition.steps(input), r@),
{
    let steps = ime_step(&mut ws.composition, input);
    let mut calls: Vec<HandlerCall> = Vec::new();
    match handlers.ime_handler {
        Some(to) => {
            let mut i: usize = 0;
            while i < steps.len()
                invariant
                    i <= steps@.len(),
                    handlers.ime_handler == Some(to),
                    calls@.len() == i,
                    forall|j: int|
                        0 <= j < i ==> ime_call(
                            *handlers,
                            window_id,
                            steps_view(steps@)[j],
                            #[trigger] calls@[j],
                        ),
                decreases steps@.len() - i,
            {
                let state: i32 = match steps[i].0 {
                    ImeState::Start => LAUFEY_IME_START,
                    ImeState::Update => LAUFEY_IME_UPDATE,
                    ImeState::End => LAUFEY_IME_END,
                };
                let data = to_c_string(steps[i].1.as_str());
                calls.push(HandlerCall::Ime { to, window_id, state, data });
                i = i + 1;
            }
        },
        None => {},
    }
    calls
}

/// Where a listener is in the sequence of start, updates and end.
pub enum Heard {
    /// Outside of a composition.
    Nothing,
    /// A start, and no update yet.
    Start,
    /// A start and at least one update.
    Text,
}

/// Where the listener is after a step; `None` if the step is out of sequence.
pub open spec fn heard_after(heard: Heard, step: StepView) -> Option<Heard> {
    match (heard, step.0) {
        (Heard::Nothing, ImeState::Start) => if step.1.len() == 0 {
            Some(Heard::Start)
        } else {
            None
        },
        (Heard::Start, ImeState::Update) => Some(Heard::Text),
        (Heard::Text, ImeState::Update) => Some(Heard::Text),
        (Heard::Text, ImeState::End) => Some(Heard::Nothing),
        _ => None,
    }
}

/// Where the listener is after several steps; `None` if one is out of sequence.
pub open spec fn heard_all(heard: Heard, steps: Seq<StepView>) -> Option<Heard>
    decreases steps.len(),
{
    if steps.len() == 0 {
        Some(heard)
    } else {
        match heard_all(heard, steps.drop_last()) {
            Some(h) => heard_after(h, steps.last()),
            None => None,
        }
    }
}

/// Where the listener is while the composition is this far.
pub open spec fn heard_of(c: Composition) -> Heard {
    match c {
        Composition::Idle => Heard::Nothing,
        _ => Heard::Text,
    }
}

/// How far the composition is after several reports.
pub open spec fn after_all(c: Composition, inputs: Seq<ImeInput>) -> Composition
    decreases inputs.len(),
{
    if inputs.len() == 0 {
        c
    } else {
        after_all(c, inputs.drop_last()).after(inputs.last())
    }
}

/// The steps that several reports bring.
pub open spec fn steps_of_all(c: Composition, inputs: Seq<ImeInput>) -> Seq<StepView>
    decreases inputs.len(),
{
    if inputs.len() == 0 {
        Seq::empty()
    } else {
        steps_of_all(c, inputs.drop_last()) + after_all(c, inputs.drop_last()).steps(inputs.last())
    }
}

proof fn heard_in_turn(heard: Heard, a: Seq<StepView>, b: Seq<StepView>)
    ensures
        heard_all(heard, a + b) == (match heard_all(heard, a) {
            Some(h) => heard_all(h, b),
            None => None,
        }),
    decreases b.len(),
{
    if b.len() == 0 {
        assert(a + b =~= a);
    } else {
        heard_in_turn(heard, a, b.drop_last());
        assert((a + b).drop_last() =~= a + b.drop_last());
    }
}

proof fn report_in_sequence(c: Composition, input: ImeInput)
    ensures
        heard_all(heard_of(c), c.steps(input)) == Some(heard_of(c.after(input))),
{
    reveal_with_fuel(heard_all, 4);
    let steps = c.steps(input);
    if steps.len() == 2 {
        assert(steps.drop_last() =~= seq![steps[0]]);
        assert(seq![steps[0]].drop_last() =~= Seq::empty());
    }
    if steps.len() == 3 {
        assert(steps.drop_last() =~= seq![steps[0], steps[1]]);
        assert(steps.drop_last().drop_last() =~= seq![steps[0]]);
        assert(steps.drop_last().drop_last().drop_last() =~= Seq::empty());
    }
}

/// Whatever an input method reports, and in whatever order, a listener hears
/// compositions that each are a start without text, one or more updates, and an
/// end; and outside of a composition the last one has ended.
pub proof fn compositions_are_in_sequence(inputs: Seq<ImeInput>)
    ensures
        heard_all(Heard::Nothing, steps_of_all(Composition::Idle, inputs)) == Some(
            heard_of(after_all(Composition::Idle, inputs)),
        ),
    decreases inputs.len(),
{
    if inputs.len() > 0 {
        let before = inputs.drop_last();
        let c = after_all(Composition::Idle, before);
        compositions_are_in_sequence(before);
        report_in_sequence(c, inputs.last());
        heard_in_turn(Heard::Nothing, steps_of_all(Composition::Idle, before), c.steps(inputs.last()));
    }
}

/// The clearing that comes before a commit is not told as a step: the one step
/// is an end with the committed text. A clearing that nothing follows is a
/// cancelled composition, and its end has no text.
pub proof fn clearing_commits_or_cancels(c: Composition, cleared: String, committed: String)
    requires
        !(c is Idle),
        cleared@.len() == 0,
    ensures
        steps_of_all(c, seq![ImeInput::Preedit(cleared), ImeInput::Commit(committed)]) == seq![
            (ImeState::End, committed@),
        ],
        steps_of_all(c, seq![ImeInput::Preedit(cleared), ImeInput::Settled]) == seq![
            (ImeState::End, Seq::<char>::empty()),
        ],
{
    reveal_with_fuel(steps_of_all, 3);
    reveal_with_fuel(after_all, 3);
    let a = seq![ImeInput::Preedit(cleared), ImeInput::Commit(committed)];
    let b = seq![ImeInput::Preedit(cleared), ImeInput::Settled];
    let first = seq![ImeInput::Preedit(cleared)];
    assert(a.drop_last() =~= first);
    assert(b.drop_last() =~= first);
    assert(first.drop_last() =~= Seq::empty());
    assert(steps_of_all(c, a) =~= seq![(ImeState::End, committed@)]);
    assert(steps_of_all(c, b) =~= seq![(ImeState::End, Seq::<char>::empty())]);
}

} // verus!
