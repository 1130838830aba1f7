//! Functions that page scripts call: bindings per window, and how a call finds
//! one or is rejected.

use crate::api::LaufeyBackendApi;
use crate::convert;
use crate::raw_value::LaufeyValue;
use crate::runtime;
use crate::runtime::{should_shutdown, BackendCall, BindingHandler, Runtime};
use crate::text;
use crate::text_map::TextMap;
use crate::value;
use crate::value::{Value, ValueView};
use vstd::prelude::*;
use vstd::string::*;

verus! {

broadcast use vstd::std_specs::hash::group_hash_axioms;

/// The view of a backend value that is handed over, if there is one.
pub open spec fn handed_view(v: Option<Box<LaufeyValue>>) -> Option<ValueView> {
    match v {
        Some(x) => Some(x@),
        None => None,
    }
}

/// The calls that tell the backend where script calls go and how to wake the
/// runtime for them, as far as it can be told.
pub open spec fn js_registration(t: LaufeyBackendApi) -> Seq<BackendCall> {
    (if t.set_js_call_handler {
        seq![BackendCall::SetJsCallHandler]
    } else {
        Seq::empty()
    }) + (if t.set_js_call_notify {
        seq![BackendCall::SetJsCallNotify]
    } else {
        Seq::empty()
    })
}

fn register_js_handler(rt: &mut Runtime)
    requires
        old(rt).ready(),
    ensures
        final(rt).called(
            *old(rt),
            if old(rt).table().set_js_call_handler {
                Some(BackendCall::SetJsCallHandler)
            } else {
                None
            },
        ),
{
    let present = rt.api().set_js_call_handler;
    rt.call_if(present, BackendCall::SetJsCallHandler);
}

fn register_js_notify(rt: &mut Runtime)
    requires
        old(rt).ready(),
    ensures
        final(rt).called(
            *old(rt),
            if old(rt).table().set_js_call_notify {
                Some(BackendCall::SetJsCallNotify)
            } else {
                None
            },
        ),
{
    let present = rt.api().set_js_call_notify;
    rt.call_if(present, BackendCall::SetJsCallNotify);
}

/// The calls once script calls have been arranged for, which happens once.
pub open spec fn calls_after_js_setup(rt: Runtime) -> Seq<BackendCall> {
    if rt.js_handler_registered {
        rt.calls@
    } else {
        rt.calls@ + js_registration(rt.table())
    }
}

/// Arranges for script calls, the first time.
pub fn ensure_js_handler(rt: &mut Runtime)
    requires
        old(rt).ready() || old(rt).js_handler_registered,
    ensures
        *final(rt) == (Runtime {
            js_handler_registered: true,
            calls: final(rt).calls,
            ..*old(rt)
        }),
        final(rt).calls@ == calls_after_js_setup(*old(rt)),
{
    if !rt.js_handler_registered {
        rt.js_handler_registered = true;
        register_js_handler(rt);
        register_js_notify(rt);
        assert(rt.calls@ =~= calls_after_js_setup(*old(rt)));
    }
}

/// Lets the backend deliver the script calls that wait.
pub fn poll_js_calls(rt: &mut Runtime)
    requires
        old(rt).ready(),
    ensures
        final(rt).called(
            *old(rt),
            if old(rt).table().poll_js_calls {
                Some(BackendCall::PollJsCalls)
            } else {
                None
            },
        ),
{
    let present = rt.api().poll_js_calls;
    rt.call_if(present, BackendCall::PollJsCalls);
}

/// Prepares the run loop: arranges for script calls and for being woken.
pub fn run(rt: &mut Runtime)
    requires
        old(rt).ready() || old(rt).js_handler_registered,
    ensures
        *final(rt) == (Runtime {
            js_handler_registered: true,
            js_notify_created: true,
            calls: final(rt).calls,
            ..*old(rt)
        }),
        final(rt).calls@ == calls_after_js_setup(*old(rt)),
{
    ensure_js_handler(rt);
    rt.js_notify_created = true;
}

/// One step of the run loop took `before` to `after`: the step polls if the loop
/// was woken, and the loop waits on unless it has been asked to end.
pub open spec fn stepped(before: Runtime, after: Runtime, woken: bool, waits_on: bool) -> bool {
    &&& after.called(
        before,
        if woken && before.table().poll_js_calls {
            Some(BackendCall::PollJsCalls)
        } else {
            None
        },
    )
    &&& waits_on == !before.shutdown_requested
}

/// A step of the run loop, taken once before the first wait and then each time
/// the loop is woken. Returns whether the loop is to wait again.
pub fn run_step(rt: &mut Runtime, woken: bool) -> (r: bool)
    requires
        woken ==> old(rt).ready(),
    ensures
        stepped(*old(rt), *final(rt), woken, r),
{
    if woken {
        poll_js_calls(rt);
    }
    !should_shutdown(rt)
}

/// A run loop that waits is woken by `shutdown`, polls once more, and is over.
/// The loop of a runtime that was shut down before it first waits never waits.
pub proof fn shutdown_ends_the_run(
    waiting: Runtime,
    asked: Runtime,
    wakes: bool,
    done: Runtime,
    woken: bool,
    waits_on: bool,
)
    requires
        runtime::shut_down(waiting, asked, wakes),
        stepped(asked, done, woken, waits_on),
    ensures
        wakes == waiting.js_notify_created,
        woken ==> done.called(
            asked,
            if waiting.table().poll_js_calls {
                Some(BackendCall::PollJsCalls)
            } else {
                None
            },
        ),
        !woken ==> done.calls@ == waiting.calls@,
        !waits_on,
        done.shutdown_requested,
{
}

/// A loop that nobody asked to end waits on after each step.
pub proof fn run_goes_on_until_shutdown(
    before: Runtime,
    after: Runtime,
    woken: bool,
    waits_on: bool,
)
    requires
        stepped(before, after, woken, waits_on),
        !before.shutdown_requested,
    ensures
        waits_on,
        !after.shutdown_requested,
{
}

/// A call of a bound function by a page script.
pub struct JsCall {
    pub window_id: u32,
    pub call_id: u64,
    pub method: String,
    pub args: Vec<Value>,
}

/// The call answers a script call, with a result or an error.
pub open spec fn is_response(
    c: BackendCall,
    call_id: u64,
    result: Option<ValueView>,
    error: Option<ValueView>,
) -> bool {
    &&& c matches BackendCall::JsCallRespond { call_id: id, result: r, error: e }
    &&& id == call_id
    &&& handed_view(r) == result
    &&& handed_view(e) == error
}

impl JsCall {
    /// Answers the call with a result.
    pub fn resolve(self, rt: &mut Runtime, value: Value)
        requires
            old(rt).ready(),
            old(rt).table().js_call_respond ==> convert::sendable(old(rt).table(), value@),
        ensures
            if old(rt).table().js_call_respond {
                final(rt).called_with(
                    *old(rt),
                    |c: BackendCall|
                        is_response(
                            c,
                            self.call_id,
                            convert::encoded(old(rt).table(), value@),
                            None,
                        ),
                )
            } else {
                *final(rt) == *old(rt)
            },
    {
        let api = rt.api();
        if api.js_call_respond {
            let raw = value.to_raw(&api);
            rt.call(
                BackendCall::JsCallRespond { call_id: self.call_id, result: raw, error: None },
            );
            assert(rt.calls@.drop_last() =~= old(rt).calls@);
        }
    }

    /// Answers the call with an error.
    pub fn reject(self, rt: &mut Runtime, error: Value)
        requires
            old(rt).ready(),
            old(rt).table().js_call_respond ==> convert::sendable(old(rt).table(), error@),
        ensures
            if old(rt).table().js_call_respond {
                final(rt).called_with(
                    *old(rt),
                    |c: BackendCall|
                        is_response(
                            c,
                            self.call_id,
                            None,
                            convert::encoded(old(rt).table(), error@),
                        ),
                )
            } else {
                *final(rt) == *old(rt)
            },
    {
        let api = rt.api();
        if api.js_call_respond {
            let raw = error.to_raw(&api);
            rt.call(
                BackendCall::JsCallRespond { call_id: self.call_id, result: None, error: raw },
            );
            assert(rt.calls@.drop_last() =~= old(rt).calls@);
        }
    }
}

/// What a window's functions are bound to.
pub open spec fn bound_in(rt: Runtime, window_id: u32) -> Map<Seq<char>, BindingHandler> {
    if rt.bindings@.contains_key(window_id) {
        rt.bindings@[window_id]@
    } else {
        Map::empty()
    }
}

/// Binds a function of a window to a handler, in place of an earlier one.
pub fn add_binding(rt: &mut Runtime, window_id: u32, name: &str, handler: BindingHandler)
    requires
        old(rt).ready() || old(rt).js_handler_registered,
    ensures
        *final(rt) == (Runtime {
            js_handler_registered: true,
            calls: final(rt).calls,
            bindings: final(rt).bindings,
            ..*old(rt)
        }),
        final(rt).calls@ == calls_after_js_setup(*old(rt)),
        bound_in(*final(rt), window_id) == bound_in(*old(rt), window_id).insert(name@, handler),
        forall|id: u32|
            id != window_id ==> #[trigger] bound_in(*final(rt), id) == bound_in(*old(rt), id),
{
    ensure_js_handler(rt);
    let mut functions = match rt.bindings.remove(&window_id) {
        Some(m) => m,
        None => TextMap::new(),
    };
    functions.insert(name.to_string(), handler);
    rt.bindings.insert(window_id, functions);
}

/// Unbinds a function of a window.
pub fn remove_binding(rt: &mut Runtime, window_id: u32, name: &str)
    ensures
        *final(rt) == (Runtime { bindings: final(rt).bindings, ..*old(rt) }),
        bound_in(*final(rt), window_id) == bound_in(*old(rt), window_id).remove(name@),
        forall|id: u32|
            id != window_id ==> #[trigger] bound_in(*final(rt), id) == bound_in(*old(rt), id),
{
    match rt.bindings.remove(&window_id) {
        Some(mut functions) => {
            functions.remove(name);
            rt.bindings.insert(window_id, functions);
        },
        None => {
            assert(bound_in(*rt, window_id) =~= bound_in(*old(rt), window_id).remove(name@));
        },
    }
}

/// Unbinding undoes a binding: the function is bound to nothing, and the others
/// are as they were.
pub proof fn unbinding_undoes_binding(
    bound: Map<Seq<char>, BindingHandler>,
    name: Seq<char>,
    handler: BindingHandler,
)
    ensures
        bound.insert(name, handler).remove(name) == bound.remove(name),
        !bound.contains_key(name) ==> bound.insert(name, handler).remove(name) == bound,
{
    assert(bound.insert(name, handler).remove(name) =~= bound.remove(name));
    if !bound.contains_key(name) {
        assert(bound.remove(name) =~= bound);
    }
}

/// The name of the function that a script calls; without one, the empty name.
pub open spec fn method_name(path: Option<String>) -> Seq<char> {
    match path {
        Some(p) => p@,
        None => Seq::empty(),
    }
}

/// The arguments of a script call: the elements of a list, and none for
/// anything else.
pub open spec fn call_args(t: LaufeyBackendApi, args: Option<&LaufeyValue>) -> Seq<ValueView> {
    match args {
        Some(a) => match convert::decoded(t, a@) {
            ValueView::List(l) => l,
            _ => Seq::empty(),
        },
        None => Seq::empty(),
    }
}

/// What a script is told of a function that nothing is bound to.
pub open spec fn no_binding_message(method: Seq<char>) -> Seq<char> {
    "No binding for '"@ + method + "'"@
}

/// Takes in a script call. A bound function is to be run with the call; a call
/// of anything else is rejected.
pub fn js_call_handler(
    rt: &mut Runtime,
    window_id: u32,
    call_id: u64,
    method_path: Option<String>,
    args: Option<&LaufeyValue>,
) -> (r: Option<(BindingHandler, JsCall)>)
    requires
        old(rt).ready(),
        method_path matches Some(p) ==> text::nul_free(p@),
    ensures
        ({
            let method = method_name(method_path);
            let bound = bound_in(*old(rt), window_id);
            if bound.contains_key(method) {
                &&& r matches Some((handler, call))
                &&& handler == bound[method]
                &&& call.window_id == window_id
                &&& call.call_id == call_id
                &&& call.method@ == method
                &&& value::values_view(call.args@) == call_args(old(rt).table(), args)
                &&& *final(rt) == *old(rt)
            } else {
                &&& r is None
                &&& if old(rt).table().js_call_respond {
                    final(rt).called_with(
                        *old(rt),
                        |c: BackendCall|
                            is_response(
                                c,
                                call_id,
                                None,
                                convert::encoded(
                                    old(rt).table(),
                                    ValueView::Text(no_binding_message(method)),
                                ),
                            ),
                    )
                } else {
                    *final(rt) == *old(rt)
                }
            }
        }),
{
    let api = rt.api();
    let method = match method_path {
        Some(p) => p,
        None => String::new(),
    };
    let args_vec = match Value::from_raw(&api, args) {
        Some(v) => match v {
            Value::List(l) => l,
            _ => Vec::new(),
        },
        None => Vec::new(),
    };
    let found = match rt.bindings.get(&window_id) {
        Some(functions) => match functions.get(method.as_str()) {
            Some(handler) => Some(*handler),
            None => None,
        },
        None => None,
    };
    let mut message = "No binding for '".to_string();
    message.append(method.as_str());
    message.append("'");
    let call = JsCall { window_id, call_id, method, args: args_vec };
    match found {
        Some(handler) => Some((handler, call)),
        None => {
            proof {
                reveal_strlit("No binding for '");
                reveal_strlit("'");
                assert(text::nul_free(message@));
            }
            call.reject(rt, Value::String(message));
            None
        },
    }
}

/// The result of a script that was executed: an error if there is one, else the
/// value, else null.
pub open spec fn script_result(
    t: LaufeyBackendApi,
    result: Option<&LaufeyValue>,
    error: Option<&LaufeyValue>,
) -> Result<ValueView, ValueView> {
    match (error, result) {
        (Some(e), _) => Err(convert::decoded(t, e@)),
        (None, Some(v)) => Ok(convert::decoded(t, v@)),
        (None, None) => Ok(ValueView::Null),
    }
}

/// Reads the result of a script that was executed.
pub fn execute_js_result(
    api: &LaufeyBackendApi,
    result: Option<&LaufeyValue>,
    error: Option<&LaufeyValue>,
) -> (r: Result<Value, Value>)
    ensures
        match script_result(*api, result, error) {
            Ok(v) => r matches Ok(x) && x@ == v,
            Err(v) => r matches Err(x) && x@ == v,
        },
{
    if let Some(e) = Value::from_raw(api, error) {
        return Err(e);
    }
    match Value::from_raw(api, result) {
        Some(v) => Ok(v),
        None => Ok(Value::Null),
    }
}

} // verus!
