//! Page scripts: what they call, with which arguments, and what they are told.

use crate::api::{create_backend_api, LaufeyBackendApi};
use crate::convert;
use crate::js;
use crate::js::{
    add_binding, ensure_js_handler, execute_js_result, js_call_handler, poll_js_calls,
    remove_binding, run, run_step, JsCall,
};
use crate::raw_value::{value_get_string, value_list_get, value_list_size, LaufeyValue};
use crate::runtime::{shutdown, should_shutdown, BackendCall, BindingHandler, HandlerId, Runtime};
use crate::text;
use crate::value;
use crate::value::Value;
use crate::window::Window;
use vstd::prelude::*;

verus! {

/// A function that is bound for a window is run when a page of that window calls
/// it: with the handler it was bound to, the window, the call's number, its own
/// name, and as many arguments as the script gave, in the order in which it gave
/// them. Anything but a list of arguments is none.
pub proof fn bound_functions_are_called(
    binding: &mut Runtime,
    calling: &mut Runtime,
    window_id: u32,
    name: &str,
    handler: BindingHandler,
    call_id: u64,
    path: String,
    args: Option<&LaufeyValue>,
    size: usize,
    i: usize,
    argument: Option<&LaufeyValue>,
    read: Option<Value>,
    r: Option<(BindingHandler, JsCall)>,
)
    requires
        old(binding).api matches Some(t) && t.reads_values(),
        call_ensures(add_binding, (binding, window_id, name, handler), ()),
        *old(calling) == *final(binding),
        path@ == name@,
        call_ensures(js_call_handler, (calling, window_id, call_id, Some(path), args), r),
        call_ensures(value_list_size, (args,), size),
        call_ensures(value_list_get, (args, i), argument),
        call_ensures(Value::from_raw, (&old(binding).api->0, argument), read),
    ensures
        r matches Some((h, call)) && {
            &&& h == handler
            &&& call.window_id == window_id && call.call_id == call_id && call.method@ == name@
            &&& call.args@.len() == size
            &&& i < size ==> read is Some && call.args@[i as int]@ == read->0@
        },
        *final(calling) == *old(calling),
{
    let t = old(binding).api->0;
    match args {
        Some(a) => {
            convert::reading_is_exact(t, a@);
        },
        None => {},
    }
    match argument {
        Some(a) => {
            convert::reading_is_exact(t, a@);
        },
        None => {},
    }
    value::values_view_elements((r->0).1.args@);
}

/// The same, of values: what a backend hands over for a list of values is what
/// the bound function gets, value for value.
pub proof fn arguments_arrive_in_order(
    rt: &mut Runtime,
    window_id: u32,
    call_id: u64,
    path: Option<String>,
    given: Vec<Value>,
    raw: Option<Box<LaufeyValue>>,
    r: Option<(BindingHandler, JsCall)>,
)
    requires
        old(rt).api matches Some(t) && t.reads_values() && t.builds_values(),
        call_ensures(Value::to_raw, (&Value::List(given), &old(rt).api->0), raw),
        call_ensures(
            js_call_handler,
            (
                rt,
                window_id,
                call_id,
                path,
                match raw {
                    Some(p) => Some(&*p),
                    None => None,
                },
            ),
            r,
        ),
    ensures
        r matches Some((_, call)) ==> call.args@.len() == given@.len() && forall|i: int|
            0 <= i < given@.len() ==> (#[trigger] call.args@[i])@ == given@[i]@,
{
    let t = old(rt).api->0;
    convert::building_is_exact(t, Value::List(given)@);
    convert::reading_is_exact(t, Value::List(given)@);
    value::values_view_elements(given@);
    match r {
        Some((_, call)) => {
            value::values_view_elements(call.args@);
            assert(value::values_view(call.args@) == value::values_view(given@));
            assert forall|i: int| 0 <= i < given@.len() implies (#[trigger] call.args@[i])@
                == given@[i]@ by {
                assert(value::values_view(call.args@)[i] == call.args@[i]@);
                assert(value::values_view(given@)[i] == given@[i]@);
            }
        },
        None => {},
    }
}

/// A binding is of one window and one name, replaces the earlier one, and is gone
/// once it is removed; other names and other windows keep theirs.
pub proof fn bindings_are_of_one_window_and_name(
    binding: &mut Runtime,
    removing: &mut Runtime,
    before: &mut Runtime,
    bound: &mut Runtime,
    removed: &mut Runtime,
    window_id: u32,
    name: &str,
    handler: BindingHandler,
    any_window: u32,
    call_id: u64,
    path: String,
    was: Option<(BindingHandler, JsCall)>,
    is: Option<(BindingHandler, JsCall)>,
    then_is: Option<(BindingHandler, JsCall)>,
)
    requires
        call_ensures(add_binding, (binding, window_id, name, handler), ()),
        *old(removing) == *final(binding),
        call_ensures(remove_binding, (removing, window_id, name), ()),
        *old(before) == *old(binding),
        *old(bound) == *final(binding),
        *old(removed) == *final(removing),
        call_ensures(js_call_handler, (before, any_window, call_id, Some(path), None), was),
        call_ensures(js_call_handler, (bound, any_window, call_id, Some(path), None), is),
        call_ensures(js_call_handler, (removed, any_window, call_id, Some(path), None), then_is),
    ensures
        any_window == window_id && path@ == name@ ==> is is Some && (is->0).0 == handler
            && then_is is None,
        any_window != window_id || path@ != name@ ==> (is is Some) == (was is Some) && (then_is
            is Some) == (was is Some),
        (any_window != window_id || path@ != name@) && was is Some ==> (is->0).0 == (was->0).0
            && (then_is->0).0 == (was->0).0,
{
    assert(js::bound_in(*final(binding), any_window).contains_key(path@) || !js::bound_in(
        *final(binding),
        any_window,
    ).contains_key(path@));
}

/// An embedder's window binds for itself, to be run at once or as a task.
pub proof fn windows_bind_for_themselves(
    rt: &mut Runtime,
    calling: &mut Runtime,
    w: Window,
    r: Window,
    name: &str,
    handler: HandlerId,
    call_id: u64,
    path: String,
    called: Option<(BindingHandler, JsCall)>,
)
    requires
        path@ == name@,
        *old(calling) == *final(rt),
        call_ensures(js_call_handler, (calling, w.id, call_id, Some(path), None), called),
    ensures
        call_ensures(Window::add_binding, (&w, rt, name, handler), ()) || call_ensures(
            Window::bind,
            (w, rt, name, handler),
            r,
        ) ==> called is Some && (called->0).0 == BindingHandler::Sync(handler),
        call_ensures(Window::add_binding_async, (&w, rt, name, handler), ()) || call_ensures(
            Window::bind_async,
            (w, rt, name, handler),
            r,
        ) ==> called is Some && (called->0).0 == BindingHandler::Async(handler),
        call_ensures(Window::unbind, (&w, rt, name), ()) ==> called is None,
{
}

/// A call of a function that is not bound is rejected: the script is told so, in
/// words that name the function, and nothing is run.
pub proof fn unbound_functions_are_rejected(
    rt: &mut Runtime,
    window_id: u32,
    call_id: u64,
    path: String,
    args: Option<&LaufeyValue>,
    r: Option<(BindingHandler, JsCall)>,
    told: Option<&String>,
    error: Box<LaufeyValue>,
)
    requires
        old(rt).api matches Some(t) && t.builds_values() && t.js_call_respond,
        call_ensures(js_call_handler, (rt, window_id, call_id, Some(path), args), r),
        r is None,
        final(rt).calls@.last() matches BackendCall::JsCallRespond { error: Some(e), .. } ==> e
            == error,
        call_ensures(value_get_string, (Some(&*error),), told),
    ensures
        final(rt).calls@.len() == old(rt).calls@.len() + 1,
        final(rt).calls@.drop_last() =~= old(rt).calls@,
        final(rt).calls@.last() matches BackendCall::JsCallRespond {
            call_id: id,
            result: None,
            error: Some(_),
        } && id == call_id,
        told is Some && told->0@ == "No binding for '"@ + path@ + "'"@,
{
    let message = js::no_binding_message(path@);
    convert::building_is_exact(old(rt).api->0, value::ValueView::Text(message));
}

/// A call is answered under its own number: with the value as the result and no
/// error, or with the value as the error and no result.
pub proof fn calls_are_answered(
    rt: &mut Runtime,
    call: JsCall,
    v: Value,
    raw: Option<Box<LaufeyValue>>,
    resolved: bool,
)
    requires
        old(rt).api matches Some(t) && t.js_call_respond,
        call_ensures(Value::to_raw, (&v, &old(rt).api->0), raw),
        resolved ==> call_ensures(JsCall::resolve, (call, rt, v), ()),
        !resolved ==> call_ensures(JsCall::reject, (call, rt, v), ()),
    ensures
        final(rt).calls@.len() == old(rt).calls@.len() + 1,
        final(rt).calls@.drop_last() =~= old(rt).calls@,
        final(rt).calls@.last() matches BackendCall::JsCallRespond { call_id, result, error } && {
            &&& call_id == call.call_id
            &&& resolved ==> error is None && (result is Some) == (raw is Some) && (raw is Some
                ==> result->0@ == raw->0@)
            &&& !resolved ==> result is None && (error is Some) == (raw is Some) && (raw is Some
                ==> error->0@ == raw->0@)
        },
{
}

/// The result of a script is an error if there is one, else the value that it
/// gave, else null.
pub proof fn scripts_give_their_results(
    api: LaufeyBackendApi,
    result: Option<&LaufeyValue>,
    error: Option<&LaufeyValue>,
    read_result: Option<Value>,
    read_error: Option<Value>,
    r: Result<Value, Value>,
)
    requires
        call_ensures(execute_js_result, (&api, result, error), r),
        call_ensures(Value::from_raw, (&api, result), read_result),
        call_ensures(Value::from_raw, (&api, error), read_error),
    ensures
        error is Some ==> r is Err && r->Err_0@ == read_error->0@,
        error is None && result is Some ==> r is Ok && r->Ok_0@ == read_result->0@,
        error is None && result is None ==> r is Ok && r->Ok_0 is Null,
{
}

/// The backend is told where calls of scripts go, and how to wake the runtime for
/// them, in this order, before the first binding and before the run loop; and it
/// is told once.
pub proof fn script_calls_are_arranged_for_once(
    first: &mut Runtime,
    second: &mut Runtime,
    window_id: u32,
    name: &str,
    handler: BindingHandler,
)
    requires
        old(first).api is Some && !old(first).js_handler_registered,
        call_ensures(ensure_js_handler, (first,), ()) || call_ensures(run, (first,), ())
            || call_ensures(add_binding, (first, window_id, name, handler), ()),
        *old(second) == *final(first),
        call_ensures(ensure_js_handler, (second,), ()) || call_ensures(run, (second,), ())
            || call_ensures(add_binding, (second, window_id, name, handler), ()),
    ensures
        ({
            let t = old(first).api->0;
            let before = old(first).calls@;
            &&& t.set_js_call_handler && t.set_js_call_notify ==> final(first).calls@
                =~= before.push(BackendCall::SetJsCallHandler).push(BackendCall::SetJsCallNotify)
            &&& t.set_js_call_handler && !t.set_js_call_notify ==> final(first).calls@
                =~= before.push(BackendCall::SetJsCallHandler)
            &&& !t.set_js_call_handler && t.set_js_call_notify ==> final(first).calls@
                =~= before.push(BackendCall::SetJsCallNotify)
            &&& !t.set_js_call_handler && !t.set_js_call_notify ==> final(first).calls@ =~= before
        }),
        final(second).calls@ == final(first).calls@,
{
}

/// The run loop polls each time it is woken and not before, and waits on until it
/// is asked to end; asking wakes a loop that waits, and is final.
pub proof fn the_run_loop_polls_until_it_is_shut_down(
    running: &mut Runtime,
    step: &mut Runtime,
    ending: &mut Runtime,
    last: &mut Runtime,
    woken: bool,
    waits_on: bool,
    wakes: bool,
    waits_at_last: bool,
    ends: bool,
)
    requires
        old(running).api is Some && !old(running).shutdown_requested,
        call_ensures(run, (running,), ()),
        *old(step) == *final(running),
        call_ensures(run_step, (step, woken), waits_on),
        *old(ending) == *final(step),
        call_ensures(shutdown, (ending,), wakes),
        call_ensures(should_shutdown, (&*final(ending),), ends),
        *old(last) == *final(ending),
        call_ensures(run_step, (last, true), waits_at_last),
    ensures
        waits_on,
        woken && (old(running).api->0).poll_js_calls ==> final(step).calls@ =~= old(
            step,
        ).calls@.push(BackendCall::PollJsCalls),
        !woken || !(old(running).api->0).poll_js_calls ==> final(step).calls@ =~= old(step).calls@,
        wakes && ends,
        !waits_at_last,
        (old(running).api->0).poll_js_calls ==> final(last).calls@ =~= old(last).calls@.push(
            BackendCall::PollJsCalls,
        ),
{
}

} // verus!
