//! The macOS Accessibility permission as the window commands and the tray
//! see it, and how errors of a multi-step frame update are kept.

use vstd::prelude::*;

use crate::platform::{PlatformError, PlatformResult};

verus! {

/// What the user is told to do while Accessibility permission is missing.
pub const PERMISSION_GUIDANCE: &'static str = "Grant Accessibility permission to Panes in System Settings > Privacy & Security > Accessibility";

/// The error of a window operation without Accessibility permission.
pub fn permission_denied() -> (error: PlatformError)
    ensures
        error == PlatformError::PermissionDenied(PERMISSION_GUIDANCE),
{
    PlatformError::PermissionDenied(PERMISSION_GUIDANCE)
}

/// Window operations may go ahead only when the process is trusted for
/// Accessibility; `trusted` is the current, non-prompting trust check.
pub fn ensure_accessibility_permission(trusted: bool) -> (allowed: PlatformResult<()>)
    ensures
        trusted ==> allowed == Ok::<(), PlatformError>(()),
        !trusted ==> allowed == Err::<(), PlatformError>(PlatformError::PermissionDenied(PERMISSION_GUIDANCE)),
{
    if trusted {
        Ok(())
    } else {
        Err(permission_denied())
    }
}

/// Keeps the first error of a sequence of steps: `first_error` takes the
/// error of `result` only while no earlier step has failed.
pub fn remember_first_error(first_error: &mut Option<PlatformError>, result: PlatformResult<()>)
    ensures
        (*old(first_error)) is Some ==> *final(first_error) == *old(first_error),
        (*old(first_error)) is None ==> *final(first_error) == match result {
            Ok(_) => None,
            Err(error) => Some(error),
        },
{
    if first_error.is_none() {
        if let Err(error) = result {
            *first_error = Some(error);
        }
    }
}

/// A reading of the process's Accessibility trust, and how it was taken.
#[derive(Debug, Clone, Copy, PartialEq, Eq, Structural)]
pub enum PermissionEvent {
    /// The app started; `trusted` is the non-prompting check.
    Started { trusted: bool },
    /// The system prompt was shown, at start or because the tray item was
    /// chosen (`from_menu`), and the trust afterwards is `trusted`.
    Prompted { trusted: bool, from_menu: bool },
    /// The poll timer fired; `trusted` is the non-prompting check.
    Polled { trusted: bool },
}

/// What the tray app does after a trust reading.
#[derive(Debug, Clone, Copy, PartialEq, Eq, Structural)]
pub struct PermissionAction {
    /// The trust that the Accessibility item is to show, if it changes.
    pub show_trusted: Option<bool>,
    /// Whether to show the system prompt next, and report `Prompted`.
    pub prompt: bool,
    /// Whether to open System Settings at the Accessibility pane.
    pub open_settings: bool,
    /// Whether to check the trust again after the poll interval; otherwise
    /// nothing is scheduled.
    pub poll_again: bool,
}

/// What the tray app does after `event`.
///
/// The item always shows a fresh reading of the trust (an untrusted poll
/// changes nothing it shows). An untrusted start asks with the system
/// prompt; while the process is still untrusted afterwards the trust is
/// polled, so permission granted in System Settings is noticed without a
/// restart. Choosing the item when the prompt does not grant access opens
/// System Settings. Once trusted, nothing more is scheduled.
pub open spec fn permission_response(event: PermissionEvent) -> PermissionAction {
    match event {
        PermissionEvent::Started { trusted } => PermissionAction {
            show_trusted: Some(trusted),
            prompt: !trusted,
            open_settings: false,
            poll_again: false,
        },
        PermissionEvent::Prompted { trusted, from_menu } => PermissionAction {
            show_trusted: Some(trusted),
            prompt: false,
            open_settings: !trusted && from_menu,
            poll_again: !trusted,
        },
        PermissionEvent::Polled { trusted } => PermissionAction {
            show_trusted: if trusted {
                Some(true)
            } else {
                None
            },
            prompt: false,
            open_settings: false,
            poll_again: !trusted,
        },
    }
}

/// Returns what the tray app does after `event`.
pub fn permission_step(event: PermissionEvent) -> (action: PermissionAction)
    ensures
        action == permission_response(event),
{
    match event {
        PermissionEvent::Started { trusted } => PermissionAction {
            show_trusted: Some(trusted),
            prompt: !trusted,
            open_settings: false,
            poll_again: false,
        },
        PermissionEvent::Prompted { trusted, from_menu } => PermissionAction {
            show_trusted: Some(trusted),
            prompt: false,
            open_settings: !trusted && from_menu,
            poll_again: !trusted,
        },
        PermissionEvent::Polled { trusted } => PermissionAction {
            show_trusted: if trusted {
                Some(true)
            } else {
                None
            },
            prompt: false,
            open_settings: false,
            poll_again: !trusted,
        },
    }
}

/// The wait for permission ends exactly when a reading shows the process
/// trusted, and a trusted reading is always shown on the tray item.
pub proof fn lemma_polling_stops_once_trusted(event: PermissionEvent)
    ensures
        (permission_response(event).poll_again || permission_response(event).prompt) <==> !event_trust(event),
        event_trust(event) ==> permission_response(event).show_trusted == Some(true),
{
}

/// The trust that `event` reads.
pub open spec fn event_trust(event: PermissionEvent) -> bool {
    match event {
        PermissionEvent::Started { trusted } => trusted,
        PermissionEvent::Prompted { trusted, .. } => trusted,
        PermissionEvent::Polled { trusted } => trusted,
    }
}

} // verus!
