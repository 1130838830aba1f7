//! Permissions as the embedder asks for them.

use crate::runtime::{BackendCall, HandlerId, Runtime};
use vstd::prelude::*;

verus! {

pub const LAUFEY_PERMISSION_INVALID: i32 = 0;

pub const LAUFEY_PERMISSION_NOTIFICATIONS: i32 = 1;

pub const LAUFEY_PERMISSION_STATUS_GRANTED: i32 = 0;

pub const LAUFEY_PERMISSION_STATUS_DENIED: i32 = 1;

pub const LAUFEY_PERMISSION_STATUS_PROMPT: i32 = 2;

pub const LAUFEY_PERMISSION_STATUS_UNSUPPORTED: i32 = 3;

/// Capability for which authorization can be requested.
#[derive(Debug, Clone, Copy, PartialEq, Eq, Structural)]
pub enum PermissionKind {
    Notifications,
}

impl PermissionKind {
    /// The number of a capability.
    pub open spec fn number(self) -> i32 {
        match self {
            PermissionKind::Notifications => LAUFEY_PERMISSION_NOTIFICATIONS,
        }
    }

    pub fn to_raw(self) -> (r: i32)
        ensures
            r == self.number(),
    {
        match self {
            PermissionKind::Notifications => LAUFEY_PERMISSION_NOTIFICATIONS,
        }
    }
}

/// Result of [`request_permission`] / [`query_permission`].
#[derive(Debug, Clone, Copy, PartialEq, Eq, Structural)]
pub enum PermissionStatus {
    Granted,
    Denied,
    Prompt,
    /// The capability cannot be authorized at all.
    Unsupported,
}

impl PermissionStatus {
    /// What a status number stands for; any other than the three known ones
    /// grants nothing.
    pub open spec fn of_raw(v: i32) -> PermissionStatus {
        if v == LAUFEY_PERMISSION_STATUS_GRANTED {
            PermissionStatus::Granted
        } else if v == LAUFEY_PERMISSION_STATUS_DENIED {
            PermissionStatus::Denied
        } else if v == LAUFEY_PERMISSION_STATUS_PROMPT {
            PermissionStatus::Prompt
        } else {
            PermissionStatus::Unsupported
        }
    }

    pub fn from_raw(v: i32) -> (r: PermissionStatus)
        ensures
            r == PermissionStatus::of_raw(v),
    {
        if v == LAUFEY_PERMISSION_STATUS_GRANTED {
            PermissionStatus::Granted
        } else if v == LAUFEY_PERMISSION_STATUS_DENIED {
            PermissionStatus::Denied
        } else if v == LAUFEY_PERMISSION_STATUS_PROMPT {
            PermissionStatus::Prompt
        } else {
            PermissionStatus::Unsupported
        }
    }
}

/// Only the number for granted grants anything.
pub proof fn nothing_else_grants(v: i32)
    ensures
        PermissionStatus::of_raw(v) == PermissionStatus::Granted <==> v
            == LAUFEY_PERMISSION_STATUS_GRANTED,
{
}

/// The status that is told at once, where the backend cannot be asked.
pub open spec fn told_at_once(present: bool) -> Option<PermissionStatus> {
    if present {
        None
    } else {
        Some(PermissionStatus::Unsupported)
    }
}

/// Asks the backend, where it can be asked. The callback that goes with the call
/// is told the status later; a status that is returned is told at once.
fn dispatch_permission(rt: &mut Runtime, present: bool, call: BackendCall) -> (r: Option<
    PermissionStatus,
>)
    ensures
        r == told_at_once(present),
        final(rt).called(
            *old(rt),
            if present {
                Some(call)
            } else {
                None
            },
        ),
{
    rt.call_if(present, call);
    if present {
        None
    } else {
        Some(PermissionStatus::Unsupported)
    }
}

/// Query the current authorization status without prompting the user. The
/// callback is told the status later; a status that is returned is told at once,
/// for the backend cannot be asked.
pub fn query_permission(rt: &mut Runtime, kind: PermissionKind, callback: HandlerId) -> (r: Option<
    PermissionStatus,
>)
    requires
        old(rt).ready(),
    ensures
        r == told_at_once(old(rt).table().query_permission),
        final(rt).called(
            *old(rt),
            if old(rt).table().query_permission {
                Some(BackendCall::QueryPermission { kind: kind.number(), callback })
            } else {
                None
            },
        ),
{
    let present = rt.api().query_permission;
    dispatch_permission(
        rt,
        present,
        BackendCall::QueryPermission { kind: kind.to_raw(), callback },
    )
}

/// Request authorization, with a system prompt if the user has not decided yet.
/// The callback is told the status as with [`query_permission`].
pub fn request_permission(rt: &mut Runtime, kind: PermissionKind, callback: HandlerId) -> (r:
    Option<PermissionStatus>)
    requires
        old(rt).ready(),
    ensures
        r == told_at_once(old(rt).table().request_permission),
        final(rt).called(
            *old(rt),
            if old(rt).table().request_permission {
                Some(BackendCall::RequestPermission { kind: kind.number(), callback })
            } else {
                None
            },
        ),
{
    let present = rt.api().request_permission;
    dispatch_permission(
        rt,
        present,
        BackendCall::RequestPermission { kind: kind.to_raw(), callback },
    )
}

} // verus!
