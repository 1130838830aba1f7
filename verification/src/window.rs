//! Windows as the embedder sees them.

use crate::backend;
use crate::convert;
use crate::dialog;
use crate::events;
use crate::float::Float64;
use crate::handles::LAUFEY_WINDOW_HANDLE_UNKNOWN;
use crate::ime;
use crate::js;
use crate::menu;
use crate::menu::{template_values, MenuItem};
use crate::native_dialog::{LAUFEY_DIALOG_ALERT, LAUFEY_DIALOG_CONFIRM, LAUFEY_DIALOG_PROMPT};
use crate::pdf;
use crate::pdf::{PdfSlot, PRINT_TO_PDF_TIMEOUT_MILLIS};
use crate::runtime;
use crate::runtime::{BackendCall, BindingHandler, EventKind, HandlerId, Query, Runtime};
use crate::text;
use crate::value::Value;
use crate::window_state::{
    LAUFEY_WINDOW_FLAG_FRAMELESS, LAUFEY_WINDOW_FLAG_HIDDEN, LAUFEY_WINDOW_FLAG_NO_ACTIVATE,
    LAUFEY_WINDOW_FLAG_TRANSPARENT, LAUFEY_WINDOW_FLAG_TRANSPARENT_TITLEBAR,
};
use vstd::prelude::*;

verus! {

broadcast use vstd::std_specs::hash::group_hash_axioms;

/// Creation-time window style options. Properties that must be decided when
/// the OS window is constructed (frameless chrome, non-activating panel
/// behavior). Post-creation properties (size, position, resizable,
/// always-on-top) are set through their respective `Window` setters.
#[derive(Clone, Copy, Debug, PartialEq, Eq, Structural)]
pub struct WindowOptions {
    /// Remove the title bar and standard window chrome.
    pub frameless: bool,
    /// Float above normal windows and do not take the focus when shown.
    pub no_activate: bool,
    /// Keep the frame, but let the content extend under a transparent title
    /// bar. macOS only.
    pub transparent_titlebar: bool,
    /// Create the window without showing it.
    pub hidden: bool,
    /// Give the window a transparent background.
    pub transparent: bool,
}

impl Default for WindowOptions {
    fn default() -> (r: WindowOptions)
        ensures
            r == (WindowOptions {
                frameless: false,
                no_activate: false,
                transparent_titlebar: false,
                hidden: false,
                transparent: false,
            }),
    {
        WindowOptions {
            frameless: false,
            no_activate: false,
            transparent_titlebar: false,
            hidden: false,
            transparent: false,
        }
    }
}

/// A flag if the condition holds.
pub open spec fn flag_if(cond: bool, flag: u32) -> u32 {
    if cond {
        flag
    } else {
        0
    }
}

impl WindowOptions {
    /// The style flags that the options stand for.
    pub open spec fn flags(self) -> u32 {
        flag_if(self.frameless, LAUFEY_WINDOW_FLAG_FRAMELESS) | flag_if(
            self.no_activate,
            LAUFEY_WINDOW_FLAG_NO_ACTIVATE,
        ) | flag_if(self.transparent_titlebar, LAUFEY_WINDOW_FLAG_TRANSPARENT_TITLEBAR) | flag_if(
            self.hidden,
            LAUFEY_WINDOW_FLAG_HIDDEN,
        ) | flag_if(self.transparent, LAUFEY_WINDOW_FLAG_TRANSPARENT)
    }

    pub fn to_flags(self) -> (r: u32)
        ensures
            r == self.flags(),
    {
        let frameless: u32 = if self.frameless {
            LAUFEY_WINDOW_FLAG_FRAMELESS
        } else {
            0
        };
        let no_activate: u32 = if self.no_activate {
            LAUFEY_WINDOW_FLAG_NO_ACTIVATE
        } else {
            0
        };
        let titlebar: u32 = if self.transparent_titlebar {
            LAUFEY_WINDOW_FLAG_TRANSPARENT_TITLEBAR
        } else {
            0
        };
        let hidden: u32 = if self.hidden {
            LAUFEY_WINDOW_FLAG_HIDDEN
        } else {
            0
        };
        let transparent: u32 = if self.transparent {
            LAUFEY_WINDOW_FLAG_TRANSPARENT
        } else {
            0
        };
        frameless | no_activate | titlebar | hidden | transparent
    }
}

/// Each option is told by a flag of its own, and no option means no flag.
pub proof fn flags_tell_the_options(o: WindowOptions)
    ensures
        backend::has_flag(o.flags(), LAUFEY_WINDOW_FLAG_FRAMELESS) == o.frameless,
        backend::has_flag(o.flags(), LAUFEY_WINDOW_FLAG_NO_ACTIVATE) == o.no_activate,
        backend::has_flag(o.flags(), LAUFEY_WINDOW_FLAG_TRANSPARENT_TITLEBAR)
            == o.transparent_titlebar,
        backend::has_flag(o.flags(), LAUFEY_WINDOW_FLAG_HIDDEN) == o.hidden,
        backend::has_flag(o.flags(), LAUFEY_WINDOW_FLAG_TRANSPARENT) == o.transparent,
        o.flags() == 0 <==> !o.frameless && !o.no_activate && !o.transparent_titlebar && !o.hidden
            && !o.transparent,
{
    let a = flag_if(o.frameless, LAUFEY_WINDOW_FLAG_FRAMELESS);
    let b = flag_if(o.no_activate, LAUFEY_WINDOW_FLAG_NO_ACTIVATE);
    let c = flag_if(o.transparent_titlebar, LAUFEY_WINDOW_FLAG_TRANSPARENT_TITLEBAR);
    let d = flag_if(o.hidden, LAUFEY_WINDOW_FLAG_HIDDEN);
    let e = flag_if(o.transparent, LAUFEY_WINDOW_FLAG_TRANSPARENT);
    assert(((a | b | c | d | e) & 1 != 0) == (a == 1) && ((a | b | c | d | e) & 2 != 0) == (b == 2)
        && ((a | b | c | d | e) & 4 != 0) == (c == 4) && ((a | b | c | d | e) & 8 != 0) == (d == 8)
        && ((a | b | c | d | e) & 16 != 0) == (e == 16) && ((a | b | c | d | e) == 0) == (a == 0 && b
        == 0 && c == 0 && d == 0 && e == 0)) by (bit_vector)
        requires
            a == 0 || a == 1,
            b == 0 || b == 2,
            c == 0 || c == 4,
            d == 0 || d == 8,
            e == 0 || e == 16,
    ;
}

/// A window, by its id.
pub struct Window {
    pub id: u32,
}

/// The call that creates a window: with style flags if there are any and the
/// backend takes them, else a plain one. Where there is neither, the window has
/// id 0.
pub open spec fn creation_query(rt: Runtime, options: WindowOptions) -> Query<u32> {
    if rt.table().create_window_ex && options.flags() != 0 {
        Query::Ask(BackendCall::CreateWindowEx { flags: options.flags() })
    } else if rt.table().create_window {
        Query::Ask(BackendCall::CreateWindow)
    } else {
        Query::Known(0)
    }
}

impl Window {
    /// How a window with creation-time style options comes to be: the call that
    /// creates it, after which [`Window::new`] takes it over. A backend that does
    /// not take options gives a plain window.
    pub fn new_with_options(rt: &Runtime, options: WindowOptions) -> (r: Query<u32>)
        requires
            rt.ready(),
        ensures
            r == creation_query(*rt, options),
    {
        let api = rt.api();
        let flags: u32 = options.to_flags();
        if api.create_window_ex && flags != 0 {
            Query::Ask(BackendCall::CreateWindowEx { flags })
        } else if api.create_window {
            Query::Ask(BackendCall::CreateWindow)
        } else {
            Query::Known(0)
        }
    }

    /// Relative to `before`: the window has been given a size, if the backend
    /// takes one.
    pub open spec fn sized(self, before: Runtime, after: Runtime, width: i32, height: i32) -> bool {
        after.called(
            before,
            if before.table().set_window_size {
                Some(BackendCall::SetWindowSize { window_id: self.id, width, height })
            } else {
                None
            },
        )
    }

    /// Takes over a window that was just created with an id (see
    /// [`Window::new_with_options`]), at a size.
    pub fn new(rt: &mut Runtime, id: u32, width: i32, height: i32) -> (r: Window)
        requires
            old(rt).ready(),
        ensures
            r.id == id,
            r.sized(*old(rt), *final(rt), width, height),
    {
        let win = Window { id };
        win.set_size(rt, width, height);
        win
    }

    /// Wrap an existing window by its id (does not create a new OS window).
    pub fn from_id(id: u32) -> (r: Window)
        ensures
            r.id == id,
    {
        Window { id }
    }

    pub fn id(&self) -> (r: u32)
        ensures
            r == self.id,
    {
        self.id
    }

    /// Relative to `before`: the title has been set, if the backend takes one.
    pub open spec fn titled(self, before: Runtime, after: Runtime, title: Seq<char>) -> bool {
        if before.table().set_title {
            after.called_with(
                before,
                |c: BackendCall|
                    c matches BackendCall::SetTitle { window_id, title: t } && window_id == self.id
                        && t@ == title,
            )
        } else {
            after == before
        }
    }

    pub fn title(self, rt: &mut Runtime, title: &str) -> (r: Window)
        requires
            old(rt).ready(),
            old(rt).table().set_title ==> text::nul_free(title@),
        ensures
            r == self,
            self.titled(*old(rt), *final(rt), title@),
    {
        self.set_title(rt, title);
        self
    }

    pub fn set_title(&self, rt: &mut Runtime, title: &str)
        requires
            old(rt).ready(),
            old(rt).table().set_title ==> text::nul_free(title@),
        ensures
            self.titled(*old(rt), *final(rt), title@),
    {
        if rt.api().set_title {
            rt.call(BackendCall::SetTitle { window_id: self.id, title: title.to_string() });
            assert(rt.calls@.drop_last() =~= old(rt).calls@);
        }
    }

    /// Relative to `before`: the window has been sent to a URL, if the backend
    /// can navigate.
    pub open spec fn navigated(self, before: Runtime, after: Runtime, url: Seq<char>) -> bool {
        if before.table().navigate {
            after.called_with(
                before,
                |c: BackendCall|
                    c matches BackendCall::Navigate { window_id, url: u } && window_id == self.id
                        && u@ == url,
            )
        } else {
            after == before
        }
    }

    pub fn load(self, rt: &mut Runtime, path: &str) -> (r: Window)
        requires
            old(rt).ready(),
            old(rt).table().navigate ==> text::nul_free(path@),
        ensures
            r == self,
            self.navigated(*old(rt), *final(rt), path@),
    {
        self.navigate(rt, path);
        self
    }

    pub fn navigate(&self, rt: &mut Runtime, url: &str)
        requires
            old(rt).ready(),
            old(rt).table().navigate ==> text::nul_free(url@),
        ensures
            self.navigated(*old(rt), *final(rt), url@),
    {
        if rt.api().navigate {
            rt.call(BackendCall::Navigate { window_id: self.id, url: url.to_string() });
            assert(rt.calls@.drop_last() =~= old(rt).calls@);
        }
    }

    pub fn size(self, rt: &mut Runtime, width: i32, height: i32) -> (r: Window)
        requires
            old(rt).ready(),
        ensures
            r == self,
            self.sized(*old(rt), *final(rt), width, height),
    {
        self.set_size(rt, width, height);
        self
    }

    pub fn set_size(&self, rt: &mut Runtime, width: i32, height: i32)
        requires
            old(rt).ready(),
        ensures
            self.sized(*old(rt), *final(rt), width, height),
    {
        let present = rt.api().set_window_size;
        rt.call_if(
            present,
            BackendCall::SetWindowSize { window_id: self.id, width, height },
        );
    }
}

/// The two numbers that a backend reported; it may leave them at zero.
pub fn reported_pair(reply: Option<(i32, i32)>) -> (r: (i32, i32))
    ensures
        r == (match reply {
            Some(p) => p,
            None => (0i32, 0i32),
        }),
{
    match reply {
        Some(p) => p,
        None => (0, 0),
    }
}

impl Window {
    /// The size of the window, which the backend knows (see [`reported_pair`]).
    pub fn get_size(&self, rt: &Runtime) -> (r: Query<(i32, i32)>)
        requires
            rt.ready(),
        ensures
            r == (if rt.table().get_window_size {
                Query::Ask(BackendCall::GetWindowSize { window_id: self.id })
            } else {
                Query::Known((0i32, 0i32))
            }),
    {
        if rt.api().get_window_size {
            Query::Ask(BackendCall::GetWindowSize { window_id: self.id })
        } else {
            Query::Known((0, 0))
        }
    }

    /// Relative to `before`: the position has been handed over, if the backend
    /// takes it.
    pub open spec fn positioned(self, before: Runtime, after: Runtime, x: i32, y: i32) -> bool {
        after.called(
            before,
            if before.table().set_window_position {
                Some(BackendCall::SetWindowPosition { window_id: self.id, x, y })
            } else {
                None
            },
        )
    }

    /// Builder form of [`Window::set_position`].
    pub fn position(self, rt: &mut Runtime, x: i32, y: i32) -> (r: Window)
        requires
            old(rt).ready(),
        ensures
            r == self,
            self.positioned(*old(rt), *final(rt), x, y),
    {
        self.set_position(rt, x, y);
        self
    }

    pub fn set_position(&self, rt: &mut Runtime, x: i32, y: i32)
        requires
            old(rt).ready(),
        ensures
            self.positioned(*old(rt), *final(rt), x, y),
    {
        let present = rt.api().set_window_position;
        rt.call_if(present, BackendCall::SetWindowPosition { window_id: self.id, x, y });
    }

    /// The position of the window, which the backend knows (see
    /// [`reported_pair`]).
    pub fn get_position(&self, rt: &Runtime) -> (r: Query<(i32, i32)>)
        requires
            rt.ready(),
        ensures
            r == (if rt.table().get_window_position {
                Query::Ask(BackendCall::GetWindowPosition { window_id: self.id })
            } else {
                Query::Known((0i32, 0i32))
            }),
    {
        if rt.api().get_window_position {
            Query::Ask(BackendCall::GetWindowPosition { window_id: self.id })
        } else {
            Query::Known((0, 0))
        }
    }

    /// The ratio of physical to logical pixels.
    pub fn get_scale_factor(&self, rt: &Runtime) -> (r: Query<Float64>)
        requires
            rt.ready(),
        ensures
            r == (if rt.table().get_window_scale_factor {
                Query::Ask(BackendCall::GetWindowScaleFactor { window_id: self.id })
            } else {
                Query::Known((Float64 { bits: crate::float::ONE_BITS }))
            }),
    {
        if rt.api().get_window_scale_factor {
            Query::Ask(BackendCall::GetWindowScaleFactor { window_id: self.id })
        } else {
            Query::Known(Float64::one())
        }
    }

    /// Relative to `before`: the setting has been handed over, if the backend
    /// takes it.
    pub open spec fn resizable_set(self, before: Runtime, after: Runtime, resizable: bool) -> bool {
        after.called(
            before,
            if before.table().set_resizable {
                Some(BackendCall::SetResizable { window_id: self.id, resizable })
            } else {
                None
            },
        )
    }

    /// Builder form of [`Window::set_resizable`].
    pub fn resizable(self, rt: &mut Runtime, resizable: bool) -> (r: Window)
        requires
            old(rt).ready(),
        ensures
            r == self,
            self.resizable_set(*old(rt), *final(rt), resizable),
    {
        self.set_resizable(rt, resizable);
        self
    }

    pub fn set_resizable(&self, rt: &mut Runtime, resizable: bool)
        requires
            old(rt).ready(),
        ensures
            self.resizable_set(*old(rt), *final(rt), resizable),
    {
        let present = rt.api().set_resizable;
        rt.call_if(present, BackendCall::SetResizable { window_id: self.id, resizable });
    }

    pub fn get_resizable(&self, rt: &Runtime) -> (r: Query<bool>)
        requires
            rt.ready(),
        ensures
            r == (if rt.table().is_resizable {
                Query::Ask(BackendCall::IsResizable { window_id: self.id })
            } else {
                Query::Known(true)
            }),
    {
        if rt.api().is_resizable {
            Query::Ask(BackendCall::IsResizable { window_id: self.id })
        } else {
            Query::Known(true)
        }
    }

    /// Relative to `before`: the setting has been handed over, if the backend
    /// takes it.
    pub open spec fn always_on_top_set(self, before: Runtime, after: Runtime, always_on_top: bool) -> bool {
        after.called(
            before,
            if before.table().set_always_on_top {
                Some(BackendCall::SetAlwaysOnTop { window_id: self.id, always_on_top })
            } else {
                None
            },
        )
    }

    /// Builder form of [`Window::set_always_on_top`].
    pub fn always_on_top(self, rt: &mut Runtime, always_on_top: bool) -> (r: Window)
        requires
            old(rt).ready(),
        ensures
            r == self,
            self.always_on_top_set(*old(rt), *final(rt), always_on_top),
    {
        self.set_always_on_top(rt, always_on_top);
        self
    }

    pub fn set_always_on_top(&self, rt: &mut Runtime, always_on_top: bool)
        requires
            old(rt).ready(),
        ensures
            self.always_on_top_set(*old(rt), *final(rt), always_on_top),
    {
        let present = rt.api().set_always_on_top;
        rt.call_if(present, BackendCall::SetAlwaysOnTop { window_id: self.id, always_on_top });
    }

    pub fn get_always_on_top(&self, rt: &Runtime) -> (r: Query<bool>)
        requires
            rt.ready(),
        ensures
            r == (if rt.table().is_always_on_top {
                Query::Ask(BackendCall::IsAlwaysOnTop { window_id: self.id })
            } else {
                Query::Known(false)
            }),
    {
        if rt.api().is_always_on_top {
            Query::Ask(BackendCall::IsAlwaysOnTop { window_id: self.id })
        } else {
            Query::Known(false)
        }
    }

    /// Relative to `before`: the opacity, limited to the range from 0 to 1, has
    /// been handed over, if the backend takes it.
    pub open spec fn opacity_set(self, before: Runtime, after: Runtime, opacity: Float64) -> bool {
        after.called(
            before,
            if before.table().set_window_opacity {
                Some(
                    BackendCall::SetWindowOpacity {
                        window_id: self.id,
                        opacity: opacity.clamped_to_unit(),
                    },
                )
            } else {
                None
            },
        )
    }

    /// Builder form of [`Window::set_opacity`].
    pub fn opacity(self, rt: &mut Runtime, opacity: Float64) -> (r: Window)
        requires
            old(rt).ready(),
        ensures
            r == self,
            self.opacity_set(*old(rt), *final(rt), opacity),
    {
        self.set_opacity(rt, opacity);
        self
    }

    /// Set the window's overall opacity, from 0 (invisible) to 1 (opaque).
    /// Out-of-range values are clamped.
    pub fn set_opacity(&self, rt: &mut Runtime, opacity: Float64)
        requires
            old(rt).ready(),
        ensures
            self.opacity_set(*old(rt), *final(rt), opacity),
    {
        let present = rt.api().set_window_opacity;
        rt.call_if(
            present,
            BackendCall::SetWindowOpacity { window_id: self.id, opacity: opacity.clamp_to_unit() },
        );
    }

    /// The window's opacity: 1 when the backend does not report it.
    pub fn get_opacity(&self, rt: &Runtime) -> (r: Query<Float64>)
        requires
            rt.ready(),
        ensures
            r == (if rt.table().get_window_opacity {
                Query::Ask(BackendCall::GetWindowOpacity { window_id: self.id })
            } else {
                Query::Known((Float64 { bits: crate::float::ONE_BITS }))
            }),
    {
        if rt.api().get_window_opacity {
            Query::Ask(BackendCall::GetWindowOpacity { window_id: self.id })
        } else {
            Query::Known(Float64::one())
        }
    }

    /// Relative to `before`: the setting has been handed over, if the backend
    /// takes it.
    pub open spec fn click_passthrough_set(self, before: Runtime, after: Runtime, passthrough: bool) -> bool {
        after.called(
            before,
            if before.table().set_click_passthrough {
                Some(BackendCall::SetClickPassthrough { window_id: self.id, passthrough })
            } else {
                None
            },
        )
    }

    /// Builder form of [`Window::set_click_passthrough`].
    pub fn click_passthrough(self, rt: &mut Runtime, passthrough: bool) -> (r: Window)
        requires
            old(rt).ready(),
        ensures
            r == self,
            self.click_passthrough_set(*old(rt), *final(rt), passthrough),
    {
        self.set_click_passthrough(rt, passthrough);
        self
    }

    /// Enable or disable click passthrough: while enabled, mouse input falls
    /// through to whatever is beneath the window.
    pub fn set_click_passthrough(&self, rt: &mut Runtime, passthrough: bool)
        requires
            old(rt).ready(),
        ensures
            self.click_passthrough_set(*old(rt), *final(rt), passthrough),
    {
        let present = rt.api().set_click_passthrough;
        rt.call_if(present, BackendCall::SetClickPassthrough { window_id: self.id, passthrough });
    }

    pub fn get_click_passthrough(&self, rt: &Runtime) -> (r: Query<bool>)
        requires
            rt.ready(),
        ensures
            r == (if rt.table().is_click_passthrough {
                Query::Ask(BackendCall::IsClickPassthrough { window_id: self.id })
            } else {
                Query::Known(false)
            }),
    {
        if rt.api().is_click_passthrough {
            Query::Ask(BackendCall::IsClickPassthrough { window_id: self.id })
        } else {
            Query::Known(false)
        }
    }

    /// Relative to `before`: the setting has been handed over, if the backend
    /// takes it.
    pub open spec fn click_passthrough_forward_set(self, before: Runtime, after: Runtime, forward: bool) -> bool {
        after.called(
            before,
            if before.table().set_click_passthrough_forward {
                Some(BackendCall::SetClickPassthroughForward { window_id: self.id, forward })
            } else {
                None
            },
        )
    }

    /// Builder form of [`Window::set_click_passthrough_forward`].
    pub fn click_passthrough_forward(self, rt: &mut Runtime, forward: bool) -> (r: Window)
        requires
            old(rt).ready(),
        ensures
            r == self,
            self.click_passthrough_forward_set(*old(rt), *final(rt), forward),
    {
        self.set_click_passthrough_forward(rt, forward);
        self
    }

    /// While click passthrough is enabled, keep telling this window's mouse
    /// handlers.
    pub fn set_click_passthrough_forward(&self, rt: &mut Runtime, forward: bool)
        requires
            old(rt).ready(),
        ensures
            self.click_passthrough_forward_set(*old(rt), *final(rt), forward),
    {
        let present = rt.api().set_click_passthrough_forward;
        rt.call_if(present, BackendCall::SetClickPassthroughForward { window_id: self.id, forward });
    }

    pub fn get_click_passthrough_forward(&self, rt: &Runtime) -> (r: Query<bool>)
        requires
            rt.ready(),
        ensures
            r == (if rt.table().is_click_passthrough_forward {
                Query::Ask(BackendCall::IsClickPassthroughForward { window_id: self.id })
            } else {
                Query::Known(false)
            }),
    {
        if rt.api().is_click_passthrough_forward {
            Query::Ask(BackendCall::IsClickPassthroughForward { window_id: self.id })
        } else {
            Query::Known(false)
        }
    }

    pub fn get_visible(&self, rt: &Runtime) -> (r: Query<bool>)
        requires
            rt.ready(),
        ensures
            r == (if rt.table().is_visible {
                Query::Ask(BackendCall::IsVisible { window_id: self.id })
            } else {
                Query::Known(true)
            }),
    {
        if rt.api().is_visible {
            Query::Ask(BackendCall::IsVisible { window_id: self.id })
        } else {
            Query::Known(true)
        }
    }

    pub fn show(&self, rt: &mut Runtime)
        requires
            old(rt).ready(),
        ensures
            final(rt).called(
                *old(rt),
                if old(rt).table().show {
                    Some(BackendCall::Show { window_id: self.id })
                } else {
                    None
                },
            ),
    {
        let present = rt.api().show;
        rt.call_if(present, BackendCall::Show { window_id: self.id });
    }

    pub fn hide_window(&self, rt: &mut Runtime)
        requires
            old(rt).ready(),
        ensures
            final(rt).called(
                *old(rt),
                if old(rt).table().hide {
                    Some(BackendCall::Hide { window_id: self.id })
                } else {
                    None
                },
            ),
    {
        let present = rt.api().hide;
        rt.call_if(present, BackendCall::Hide { window_id: self.id });
    }

    pub fn focus(&self, rt: &mut Runtime)
        requires
            old(rt).ready(),
        ensures
            final(rt).called(
                *old(rt),
                if old(rt).table().focus {
                    Some(BackendCall::Focus { window_id: self.id })
                } else {
                    None
                },
            ),
    {
        let present = rt.api().focus;
        rt.call_if(present, BackendCall::Focus { window_id: self.id });
    }

    pub fn close(&self, rt: &mut Runtime)
        requires
            old(rt).ready(),
        ensures
            final(rt).called(
                *old(rt),
                if old(rt).table().close_window {
                    Some(BackendCall::CloseWindow { window_id: self.id })
                } else {
                    None
                },
            ),
    {
        let present = rt.api().close_window;
        rt.call_if(present, BackendCall::CloseWindow { window_id: self.id });
    }

    pub fn get_window_handle(&self, rt: &Runtime) -> (r: Query<usize>)
        requires
            rt.ready(),
        ensures
            r == (if rt.table().get_window_handle {
                Query::Ask(BackendCall::GetWindowHandle { window_id: self.id })
            } else {
                Query::Known(0usize)
            }),
    {
        if rt.api().get_window_handle {
            Query::Ask(BackendCall::GetWindowHandle { window_id: self.id })
        } else {
            Query::Known(0)
        }
    }

    pub fn get_display_handle(&self, rt: &Runtime) -> (r: Query<usize>)
        requires
            rt.ready(),
        ensures
            r == (if rt.table().get_display_handle {
                Query::Ask(BackendCall::GetDisplayHandle { window_id: self.id })
            } else {
                Query::Known(0usize)
            }),
    {
        if rt.api().get_display_handle {
            Query::Ask(BackendCall::GetDisplayHandle { window_id: self.id })
        } else {
            Query::Known(0)
        }
    }

    pub fn get_window_handle_type(&self, rt: &Runtime) -> (r: Query<i32>)
        requires
            rt.ready(),
        ensures
            r == (if rt.table().get_window_handle_type {
                Query::Ask(BackendCall::GetWindowHandleType { window_id: self.id })
            } else {
                Query::Known(LAUFEY_WINDOW_HANDLE_UNKNOWN)
            }),
    {
        if rt.api().get_window_handle_type {
            Query::Ask(BackendCall::GetWindowHandleType { window_id: self.id })
        } else {
            Query::Known(LAUFEY_WINDOW_HANDLE_UNKNOWN)
        }
    }

    /// Relative to `before`: the setting has been handed over, if the backend
    /// takes it.
    pub open spec fn ime_allowed_set(self, before: Runtime, after: Runtime, allowed: bool) -> bool {
        after.called(
            before,
            if before.table().set_ime_allowed {
                Some(BackendCall::SetImeAllowed { window_id: self.id, allowed })
            } else {
                None
            },
        )
    }

    /// Allow or deny input methods on this window.
    pub fn set_ime_allowed(&self, rt: &mut Runtime, allowed: bool)
        requires
            old(rt).ready(),
        ensures
            self.ime_allowed_set(*old(rt), *final(rt), allowed),
    {
        let present = rt.api().set_ime_allowed;
        rt.call_if(present, BackendCall::SetImeAllowed { window_id: self.id, allowed });
    }

    /// Set the input method's candidate rectangle in logical, top-left client
    /// pixels.
    pub fn set_ime_cursor_area(
        &self,
        rt: &mut Runtime,
        x: Float64,
        y: Float64,
        width: Float64,
        height: Float64,
    )
        requires
            old(rt).ready(),
        ensures
            final(rt).called(
                *old(rt),
                if old(rt).table().set_ime_cursor_area {
                    Some(
                        BackendCall::SetImeCursorArea { window_id: self.id, x, y, width, height },
                    )
                } else {
                    None
                },
            ),
    {
        let present = rt.api().set_ime_cursor_area;
        rt.call_if(
            present,
            BackendCall::SetImeCursorArea { window_id: self.id, x, y, width, height },
        );
    }

    /// Open the DevTools inspector for this window.
    pub fn open_devtools(&self, rt: &mut Runtime)
        requires
            old(rt).ready(),
        ensures
            final(rt).called(
                *old(rt),
                if old(rt).table().open_devtools {
                    Some(BackendCall::OpenDevtools { window_id: self.id })
                } else {
                    None
                },
            ),
    {
        let present = rt.api().open_devtools;
        rt.call_if(present, BackendCall::OpenDevtools { window_id: self.id });
    }
}

impl Window {
    pub fn on_keyboard_event(self, rt: &mut Runtime, handler: HandlerId) -> (r: Window)
        requires
            old(rt).ready() || old(rt).keyboard.registered,
        ensures
            r == self,
            *final(rt) == (Runtime { keyboard: final(rt).keyboard, calls: final(rt).calls, ..*old(rt) }),
            events::handler_added(old(rt).keyboard, final(rt).keyboard, self.id, handler),
            final(rt).calls@ == events::calls_after_registering(
                *old(rt),
                old(rt).keyboard,
                EventKind::Keyboard,
            ),
    {
        events::on_keyboard_event(rt, self.id, handler);
        self
    }

    pub fn on_ime_event(self, rt: &mut Runtime, handler: HandlerId) -> (r: Window)
        requires
            old(rt).ready() || old(rt).ime.registered,
        ensures
            r == self,
            *final(rt) == (Runtime { ime: final(rt).ime, calls: final(rt).calls, ..*old(rt) }),
            events::handler_added(old(rt).ime, final(rt).ime, self.id, handler),
            final(rt).calls@ == events::calls_after_registering(
                *old(rt),
                old(rt).ime,
                EventKind::Ime,
            ),
    {
        ime::on_ime_event(rt, self.id, handler);
        self
    }

    pub fn on_mouse_click(self, rt: &mut Runtime, handler: HandlerId) -> (r: Window)
        requires
            old(rt).ready() || old(rt).mouse_click.registered,
        ensures
            r == self,
            *final(rt) == (Runtime { mouse_click: final(rt).mouse_click, calls: final(rt).calls, ..*old(rt) }),
            events::handler_added(old(rt).mouse_click, final(rt).mouse_click, self.id, handler),
            final(rt).calls@ == events::calls_after_registering(
                *old(rt),
                old(rt).mouse_click,
                EventKind::MouseClick,
            ),
    {
        events::on_mouse_click(rt, self.id, handler);
        self
    }

    pub fn on_mouse_move(self, rt: &mut Runtime, handler: HandlerId) -> (r: Window)
        requires
            old(rt).ready() || old(rt).mouse_move.registered,
        ensures
            r == self,
            *final(rt) == (Runtime { mouse_move: final(rt).mouse_move, calls: final(rt).calls, ..*old(rt) }),
            events::handler_added(old(rt).mouse_move, final(rt).mouse_move, self.id, handler),
            final(rt).calls@ == events::calls_after_registering(
                *old(rt),
                old(rt).mouse_move,
                EventKind::MouseMove,
            ),
    {
        events::on_mouse_move(rt, self.id, handler);
        self
    }

    pub fn on_wheel(self, rt: &mut Runtime, handler: HandlerId) -> (r: Window)
        requires
            old(rt).ready() || old(rt).wheel.registered,
        ensures
            r == self,
            *final(rt) == (Runtime { wheel: final(rt).wheel, calls: final(rt).calls, ..*old(rt) }),
            events::handler_added(old(rt).wheel, final(rt).wheel, self.id, handler),
            final(rt).calls@ == events::calls_after_registering(
                *old(rt),
                old(rt).wheel,
                EventKind::Wheel,
            ),
    {
        events::on_wheel(rt, self.id, handler);
        self
    }

    pub fn on_cursor_enter_leave(self, rt: &mut Runtime, handler: HandlerId) -> (r: Window)
        requires
            old(rt).ready() || old(rt).cursor_enter_leave.registered,
        ensures
            r == self,
            *final(rt) == (Runtime { cursor_enter_leave: final(rt).cursor_enter_leave, calls: final(rt).calls, ..*old(rt) }),
            events::handler_added(old(rt).cursor_enter_leave, final(rt).cursor_enter_leave, self.id, handler),
            final(rt).calls@ == events::calls_after_registering(
                *old(rt),
                old(rt).cursor_enter_leave,
                EventKind::CursorEnterLeave,
            ),
    {
        events::on_cursor_enter_leave(rt, self.id, handler);
        self
    }

    pub fn on_focused(self, rt: &mut Runtime, handler: HandlerId) -> (r: Window)
        requires
            old(rt).ready() || old(rt).focused.registered,
        ensures
            r == self,
            *final(rt) == (Runtime { focused: final(rt).focused, calls: final(rt).calls, ..*old(rt) }),
            events::handler_added(old(rt).focused, final(rt).focused, self.id, handler),
            final(rt).calls@ == events::calls_after_registering(
                *old(rt),
                old(rt).focused,
                EventKind::Focused,
            ),
    {
        events::on_focused(rt, self.id, handler);
        self
    }

    pub fn on_resize(self, rt: &mut Runtime, handler: HandlerId) -> (r: Window)
        requires
            old(rt).ready() || old(rt).resize.registered,
        ensures
            r == self,
            *final(rt) == (Runtime { resize: final(rt).resize, calls: final(rt).calls, ..*old(rt) }),
            events::handler_added(old(rt).resize, final(rt).resize, self.id, handler),
            final(rt).calls@ == events::calls_after_registering(
                *old(rt),
                old(rt).resize,
                EventKind::Resize,
            ),
    {
        events::on_resize(rt, self.id, handler);
        self
    }

    pub fn on_move(self, rt: &mut Runtime, handler: HandlerId) -> (r: Window)
        requires
            old(rt).ready() || old(rt).moved.registered,
        ensures
            r == self,
            *final(rt) == (Runtime { moved: final(rt).moved, calls: final(rt).calls, ..*old(rt) }),
            events::handler_added(old(rt).moved, final(rt).moved, self.id, handler),
            final(rt).calls@ == events::calls_after_registering(
                *old(rt),
                old(rt).moved,
                EventKind::Move,
            ),
    {
        events::on_move(rt, self.id, handler);
        self
    }

    /// Registering this holds the window open: it won't close on its own once
    /// this fires. Only this window is held open; the others keep closing, which
    /// the runtime completes for them.
    pub fn on_close_requested(self, rt: &mut Runtime, handler: HandlerId) -> (r: Window)
        requires
            old(rt).ready() || old(rt).close_requested.registered,
        ensures
            r == self,
            *final(rt) == (Runtime { close_requested: final(rt).close_requested, calls: final(rt).calls, ..*old(rt) }),
            events::handler_added(old(rt).close_requested, final(rt).close_requested, self.id, handler),
            final(rt).calls@ == events::calls_after_registering(
                *old(rt),
                old(rt).close_requested,
                EventKind::CloseRequested,
            ),
    {
        events::on_close_requested(rt, self.id, handler);
        self
    }

    pub fn on_page_load(self, rt: &mut Runtime, handler: HandlerId) -> (r: Window)
        requires
            old(rt).ready() || old(rt).page_load.registered,
        ensures
            r == self,
            *final(rt) == (Runtime { page_load: final(rt).page_load, calls: final(rt).calls, ..*old(rt) }),
            events::handler_added(old(rt).page_load, final(rt).page_load, self.id, handler),
            final(rt).calls@ == events::calls_after_registering(
                *old(rt),
                old(rt).page_load,
                EventKind::PageLoad,
            ),
    {
        events::on_page_load(rt, self.id, handler);
        self
    }

    /// Relative to `before`: a function of the window has been bound, and script
    /// calls have been arranged for.
    pub open spec fn bound(
        self,
        before: Runtime,
        after: Runtime,
        name: Seq<char>,
        handler: BindingHandler,
    ) -> bool {
        &&& after == (Runtime {
            js_handler_registered: true,
            calls: after.calls,
            bindings: after.bindings,
            ..before
        })
        &&& after.calls@ == js::calls_after_js_setup(before)
        &&& js::bound_in(after, self.id) == js::bound_in(before, self.id).insert(name, handler)
        &&& forall|id: u32|
            id != self.id ==> #[trigger] js::bound_in(after, id) == js::bound_in(before, id)
    }

    pub fn add_binding(&self, rt: &mut Runtime, name: &str, handler: HandlerId)
        requires
            old(rt).ready() || old(rt).js_handler_registered,
        ensures
            self.bound(*old(rt), *final(rt), name@, BindingHandler::Sync(handler)),
    {
        js::add_binding(rt, self.id, name, BindingHandler::Sync(handler));
    }

    pub fn add_binding_async(&self, rt: &mut Runtime, name: &str, handler: HandlerId)
        requires
            old(rt).ready() || old(rt).js_handler_registered,
        ensures
            self.bound(*old(rt), *final(rt), name@, BindingHandler::Async(handler)),
    {
        js::add_binding(rt, self.id, name, BindingHandler::Async(handler));
    }

    pub fn bind(self, rt: &mut Runtime, name: &str, handler: HandlerId) -> (r: Window)
        requires
            old(rt).ready() || old(rt).js_handler_registered,
        ensures
            r == self,
            self.bound(*old(rt), *final(rt), name@, BindingHandler::Sync(handler)),
    {
        self.add_binding(rt, name, handler);
        self
    }

    pub fn bind_async(self, rt: &mut Runtime, name: &str, handler: HandlerId) -> (r: Window)
        requires
            old(rt).ready() || old(rt).js_handler_registered,
        ensures
            r == self,
            self.bound(*old(rt), *final(rt), name@, BindingHandler::Async(handler)),
    {
        self.add_binding_async(rt, name, handler);
        self
    }

    pub fn unbind(&self, rt: &mut Runtime, name: &str)
        ensures
            *final(rt) == (Runtime { bindings: final(rt).bindings, ..*old(rt) }),
            js::bound_in(*final(rt), self.id) == js::bound_in(*old(rt), self.id).remove(name@),
            forall|id: u32|
                id != self.id ==> #[trigger] js::bound_in(*final(rt), id) == js::bound_in(
                    *old(rt),
                    id,
                ),
    {
        js::remove_binding(rt, self.id, name);
    }

    /// Runs a script in the window. `callback` is told the result, which
    /// [`js::execute_js_result`] reads.
    pub fn execute_js(&self, rt: &mut Runtime, script: &str, callback: Option<HandlerId>)
        requires
            old(rt).ready(),
            old(rt).table().execute_js ==> text::nul_free(script@),
        ensures
            if old(rt).table().execute_js {
                final(rt).called_with(
                    *old(rt),
                    |c: BackendCall|
                        c matches BackendCall::ExecuteJs { window_id, script: s, callback: cb }
                            && window_id == self.id && s@ == script@ && cb == callback,
                )
            } else {
                *final(rt) == *old(rt)
            },
    {
        if rt.api().execute_js {
            rt.call(
                BackendCall::ExecuteJs {
                    window_id: self.id,
                    script: script.to_string(),
                    callback,
                },
            );
            assert(rt.calls@.drop_last() =~= old(rt).calls@);
        }
    }

    /// Relative to `before`: the page is being printed for a request, or the
    /// request has been told that the backend cannot print.
    pub open spec fn printing(
        self,
        before: Runtime,
        after: Runtime,
        path: Option<&str>,
        timeout_millis: u64,
        request: Result<PdfSlot, String>,
    ) -> bool {
        if before.table().print_to_pdf {
            &&& after.called(before, Some(BackendCall::PrintToPdf { window_id: self.id }))
            &&& request matches Ok(slot)
            &&& slot.pending
            &&& slot.timeout_millis == timeout_millis
            &&& match path {
                Some(p) => slot.path matches Some(q) && q@ == p@,
                None => slot.path is None,
            }
        } else {
            &&& after == before
            &&& request matches Err(message)
            &&& message@ == pdf::unsupported_message()
        }
    }

    /// Renders the window's page to a PDF document, and to a file if a path is
    /// given. The request is resolved exactly once: right away with an error if
    /// the backend cannot print, else by the backend, and at the latest by the
    /// watchdog after 60 seconds.
    pub fn print_to_pdf(&self, rt: &mut Runtime, path: Option<&str>) -> (r: Result<
        PdfSlot,
        String,
    >)
        requires
            old(rt).ready(),
        ensures
            self.printing(*old(rt), *final(rt), path, PRINT_TO_PDF_TIMEOUT_MILLIS, r),
    {
        self.print_to_pdf_with_timeout(rt, path, PRINT_TO_PDF_TIMEOUT_MILLIS)
    }

    /// [`Window::print_to_pdf`] with a time limit of its own.
    pub fn print_to_pdf_with_timeout(
        &self,
        rt: &mut Runtime,
        path: Option<&str>,
        timeout_millis: u64,
    ) -> (r: Result<PdfSlot, String>)
        requires
            old(rt).ready(),
        ensures
            self.printing(*old(rt), *final(rt), path, timeout_millis, r),
    {
        if !rt.api().print_to_pdf {
            return Err("print_to_pdf is not supported by this backend".to_string());
        }
        rt.call(BackendCall::PrintToPdf { window_id: self.id });
        Ok(PdfSlot::new(path, timeout_millis))
    }

    /// Set the application menu for this window. `on_click` is told the id of an
    /// item that is clicked.
    pub fn set_menu(&self, rt: &mut Runtime, template: &[MenuItem], on_click: HandlerId)
        requires
            old(rt).ready(),
            old(rt).table().set_application_menu ==> convert::sendable(
                old(rt).table(),
                menu::template_value(template@),
            ),
        ensures
            *final(rt) == (Runtime {
                menu_click: final(rt).menu_click,
                calls: final(rt).calls,
                ..*old(rt)
            }),
            final(rt).menu_click@ == old(rt).menu_click@.insert(self.id, on_click),
            if old(rt).table().set_application_menu {
                runtime::made_call(
                    old(rt).calls@,
                    final(rt).calls@,
                    |c: BackendCall|
                        c matches BackendCall::SetApplicationMenu { window_id, template: t }
                            && window_id == self.id && js::handed_view(t) == convert::encoded(
                            old(rt).table(),
                            menu::template_value(template@),
                        ),
                )
            } else {
                final(rt).calls@ == old(rt).calls@
            },
    {
        let value = Value::List(template_values(template));
        rt.menu_click.insert(self.id, on_click);
        let api = rt.api();
        if api.set_application_menu {
            let raw = value.to_raw(&api);
            rt.call(BackendCall::SetApplicationMenu { window_id: self.id, template: raw });
            assert(rt.calls@.drop_last() =~= old(rt).calls@);
        }
    }

    /// Show a context menu at the given position (in window coordinates).
    /// `on_click` is told the id of an item that is clicked.
    pub fn show_context_menu(
        &self,
        rt: &mut Runtime,
        x: i32,
        y: i32,
        template: &[MenuItem],
        on_click: HandlerId,
    )
        requires
            old(rt).ready(),
            old(rt).table().show_context_menu ==> convert::sendable(
                old(rt).table(),
                menu::template_value(template@),
            ),
        ensures
            *final(rt) == (Runtime {
                context_menu: final(rt).context_menu,
                calls: final(rt).calls,
                ..*old(rt)
            }),
            final(rt).context_menu@ == old(rt).context_menu@.insert(self.id, on_click),
            if old(rt).table().show_context_menu {
                runtime::made_call(
                    old(rt).calls@,
                    final(rt).calls@,
                    |c: BackendCall|
                        c matches BackendCall::ShowContextMenu { window_id, x: a, y: b, template: t }
                            && window_id == self.id && a == x && b == y && js::handed_view(t)
                            == convert::encoded(
                            old(rt).table(),
                            menu::template_value(template@),
                        ),
                )
            } else {
                final(rt).calls@ == old(rt).calls@
            },
    {
        let value = Value::List(template_values(template));
        rt.context_menu.insert(self.id, on_click);
        let api = rt.api();
        if api.show_context_menu {
            let raw = value.to_raw(&api);
            rt.call(BackendCall::ShowContextMenu { window_id: self.id, x, y, template: raw });
            assert(rt.calls@.drop_last() =~= old(rt).calls@);
        }
    }

    /// Show an alert dialog.
    pub fn alert(&self, rt: &mut Runtime, title: &str, message: &str)
        requires
            old(rt).ready(),
            old(rt).table().show_dialog ==> text::nul_free(title@) && text::nul_free(message@),
        ensures
            if old(rt).table().show_dialog {
                final(rt).called_with(
                    *old(rt),
                    |c: BackendCall|
                        dialog::is_dialog(
                            c,
                            self.id,
                            LAUFEY_DIALOG_ALERT,
                            title@,
                            message@,
                            Seq::empty(),
                        ),
                )
            } else {
                *final(rt) == *old(rt)
            },
    {
        dialog::alert_for(rt, self.id, title, message);
    }

    /// How a confirm dialog is shown. See [`dialog::confirm_reply`].
    pub fn confirm(&self, rt: &Runtime, title: &str, message: &str) -> (r: Query<bool>)
        requires
            rt.ready(),
            rt.table().show_dialog ==> text::nul_free(title@) && text::nul_free(message@),
        ensures
            if rt.table().show_dialog {
                r matches Query::Ask(c) && dialog::is_dialog(
                    c,
                    self.id,
                    LAUFEY_DIALOG_CONFIRM,
                    title@,
                    message@,
                    Seq::empty(),
                )
            } else {
                r == Query::Known(false)
            },
    {
        dialog::confirm_for(rt, self.id, title, message)
    }

    /// How a prompt dialog is shown. See [`dialog::prompt_reply`].
    pub fn prompt(&self, rt: &Runtime, title: &str, message: &str, default_value: &str) -> (r: Query<
        Option<String>,
    >)
        requires
            rt.ready(),
            rt.table().show_dialog ==> text::nul_free(title@) && text::nul_free(message@)
                && text::nul_free(default_value@),
        ensures
            if rt.table().show_dialog {
                r matches Query::Ask(c) && dialog::is_dialog(
                    c,
                    self.id,
                    LAUFEY_DIALOG_PROMPT,
                    title@,
                    message@,
                    default_value@,
                )
            } else {
                r == Query::Known(None::<String>)
            },
    {
        dialog::prompt_for(rt, self.id, title, message, default_value)
    }
}

/// The handler that a click on an item of a window's menu bar goes to, with the
/// item's id.
pub fn menu_click_callback(rt: &Runtime, window_id: u32, item_id: Option<String>) -> (r: Option<(
    HandlerId,
    String,
)>)
    ensures
        r == (match item_id {
            Some(id) if rt.menu_click@.contains_key(window_id) => Some(
                (rt.menu_click@[window_id], id),
            ),
            _ => None,
        }),
{
    match (item_id, rt.menu_click.get(&window_id)) {
        (Some(id), Some(handler)) => Some((*handler, id)),
        _ => None,
    }
}

/// The handler that a click on an item of a window's context menu goes to, with
/// the item's id.
pub fn context_menu_click_callback(rt: &Runtime, window_id: u32, item_id: Option<String>) -> (r:
    Option<(HandlerId, String)>)
    ensures
        r == (match item_id {
            Some(id) if rt.context_menu@.contains_key(window_id) => Some(
                (rt.context_menu@[window_id], id),
            ),
            _ => None,
        }),
{
    match (item_id, rt.context_menu.get(&window_id)) {
        (Some(id), Some(handler)) => Some((*handler, id)),
        _ => None,
    }
}

} // verus!
