//! Why a window command failed, how loudly to report it, and the text of
//! each failure.

use vstd::prelude::*;

use crate::history::WindowId;
use crate::platform::{PlatformError, ScreenId};
use crate::text::{debug_quoted, decimal, push_debug_quoted, push_decimal, push_text};

verus! {

/// Why a window cannot be moved.
#[derive(Debug, Clone, Copy, PartialEq, Eq, Structural)]
pub enum UnsupportedWindowReason {
    Hidden,
    Minimized,
    Fullscreen,
    InvalidGeometry,
    NotResizable,
}

/// Why a window in these states cannot be moved, if it cannot: a hidden
/// window first, then a minimized one, a fullscreen one, and last one whose
/// rectangle is not a usable rectangle.
pub fn unsupported_window_reason(
    is_hidden: bool,
    is_minimized: bool,
    is_fullscreen: bool,
    has_valid_geometry: bool,
) -> (reason: Option<UnsupportedWindowReason>)
    ensures
        reason == if is_hidden {
            Some(UnsupportedWindowReason::Hidden)
        } else if is_minimized {
            Some(UnsupportedWindowReason::Minimized)
        } else if is_fullscreen {
            Some(UnsupportedWindowReason::Fullscreen)
        } else if !has_valid_geometry {
            Some(UnsupportedWindowReason::InvalidGeometry)
        } else {
            None
        },
{
    if is_hidden {
        Some(UnsupportedWindowReason::Hidden)
    } else if is_minimized {
        Some(UnsupportedWindowReason::Minimized)
    } else if is_fullscreen {
        Some(UnsupportedWindowReason::Fullscreen)
    } else if !has_valid_geometry {
        Some(UnsupportedWindowReason::InvalidGeometry)
    } else {
        None
    }
}

/// Why a command could not be executed.
#[derive(Debug, Clone, PartialEq)]
pub enum CommandExecutionError {
    Platform(PlatformError),
    NoFocusedWindow,
    NoScreens,
    InvalidScreenGeometry { screen_id: ScreenId },
    NoTargetScreen { window_id: WindowId },
    NoRestoreRect { window_id: WindowId },
    StaleWindowHistory { window_id: WindowId },
    UnsupportedWindow { window_id: WindowId, reason: UnsupportedWindowReason },
}

/// How loudly a command failure is reported.
#[derive(Debug, Clone, Copy, PartialEq, Eq, Structural)]
pub enum CommandFailureLevel {
    /// Expected transient desktop state; trace it in development builds only.
    Debug,
    /// An actionable platform or display failure; keep it in release logs too.
    Error,
}

impl CommandExecutionError {
    /// Permission, native and display-geometry failures are errors; missing
    /// windows, missing restore state and unsupported windows are transient.
    pub open spec fn spec_failure_level(&self) -> CommandFailureLevel {
        match self {
            CommandExecutionError::Platform(PlatformError::PermissionDenied(_))
            | CommandExecutionError::Platform(PlatformError::Native(_))
            | CommandExecutionError::NoScreens
            | CommandExecutionError::InvalidScreenGeometry { .. }
            | CommandExecutionError::NoTargetScreen { .. } => CommandFailureLevel::Error,
            CommandExecutionError::Platform(PlatformError::Unsupported(_))
            | CommandExecutionError::Platform(PlatformError::NotFound(_))
            | CommandExecutionError::NoFocusedWindow
            | CommandExecutionError::NoRestoreRect { .. }
            | CommandExecutionError::StaleWindowHistory { .. }
            | CommandExecutionError::UnsupportedWindow { .. } => CommandFailureLevel::Debug,
        }
    }

    /// Returns how loudly this failure is to be reported.
    pub fn failure_level(&self) -> (level: CommandFailureLevel)
        ensures
            level == self.spec_failure_level(),
    {
        match self {
            Self::Platform(PlatformError::PermissionDenied(_))
            | Self::Platform(PlatformError::Native(_))
            | Self::NoScreens
            | Self::InvalidScreenGeometry { .. }
            | Self::NoTargetScreen { .. } => CommandFailureLevel::Error,
            Self::Platform(PlatformError::Unsupported(_))
            | Self::Platform(PlatformError::NotFound(_))
            | Self::NoFocusedWindow
            | Self::NoRestoreRect { .. }
            | Self::StaleWindowHistory { .. }
            | Self::UnsupportedWindow { .. } => CommandFailureLevel::Debug,
        }
    }

    /// The text of the failure, as shown in logs.
    pub open spec fn spec_message(&self) -> Seq<char> {
        match self {
            CommandExecutionError::Platform(error) => "platform error: "@ + platform_error_debug(*error),
            CommandExecutionError::NoFocusedWindow => "no focused window"@,
            CommandExecutionError::NoScreens => "no screens available"@,
            CommandExecutionError::InvalidScreenGeometry { screen_id } => "invalid geometry for screen "@
                + screen_id_debug(*screen_id),
            CommandExecutionError::NoTargetScreen { window_id } => "no target screen for window "@
                + window_id_debug(*window_id),
            CommandExecutionError::NoRestoreRect { window_id } => "no restore rect for window "@
                + window_id_debug(*window_id),
            CommandExecutionError::StaleWindowHistory { window_id } => "stale history for window "@
                + window_id_debug(*window_id),
            CommandExecutionError::UnsupportedWindow { window_id, reason } => "unsupported window "@
                + window_id_debug(*window_id) + ": "@ + reason_debug(*reason),
        }
    }

    /// Returns the text of the failure, such as `no focused window`.
    pub fn message(&self) -> (message: String)
        ensures
            message@ == self.spec_message(),
    {
        let mut out = String::new();
        match self {
            Self::Platform(error) => {
                push_text(&mut out, "platform error: ");
                push_platform_error_debug(&mut out, error);
            },
            Self::NoFocusedWindow => push_text(&mut out, "no focused window"),
            Self::NoScreens => push_text(&mut out, "no screens available"),
            Self::InvalidScreenGeometry { screen_id } => {
                push_text(&mut out, "invalid geometry for screen ");
                push_screen_id_debug(&mut out, *screen_id);
            },
            Self::NoTargetScreen { window_id } => {
                push_text(&mut out, "no target screen for window ");
                push_window_id_debug(&mut out, *window_id);
            },
            Self::NoRestoreRect { window_id } => {
                push_text(&mut out, "no restore rect for window ");
                push_window_id_debug(&mut out, *window_id);
            },
            Self::StaleWindowHistory { window_id } => {
                push_text(&mut out, "stale history for window ");
                push_window_id_debug(&mut out, *window_id);
            },
            Self::UnsupportedWindow { window_id, reason } => {
                push_text(&mut out, "unsupported window ");
                push_window_id_debug(&mut out, *window_id);
                push_text(&mut out, ": ");
                push_text(&mut out, reason_name(*reason));
            },
        }
        proof {
            assert(out@ =~= self.spec_message());
        }
        out
    }
}

/// Whether a failure at `level` is reported: development builds report
/// every failure, release builds only the actionable ones.
pub fn is_reported(level: CommandFailureLevel, development_build: bool) -> (reported: bool)
    ensures
        reported == (development_build || level == CommandFailureLevel::Error),
{
    development_build || level == CommandFailureLevel::Error
}

/// In release builds exactly the permission, native and display failures
/// are reported; missing windows, missing or stale restore state and
/// unsupported windows stay quiet.
pub proof fn lemma_release_builds_report_only_actionable_failures(error: CommandExecutionError)
    ensures
        (error.spec_failure_level() == CommandFailureLevel::Error) <==> match error {
            CommandExecutionError::Platform(PlatformError::PermissionDenied(_))
            | CommandExecutionError::Platform(PlatformError::Native(_))
            | CommandExecutionError::NoScreens
            | CommandExecutionError::InvalidScreenGeometry { .. }
            | CommandExecutionError::NoTargetScreen { .. } => true,
            _ => false,
        },
{
}

/// `{:?}` of a window id, such as `WindowId(7)`.
pub open spec fn window_id_debug(id: WindowId) -> Seq<char> {
    "WindowId("@ + decimal(id.0 as nat) + ")"@
}

/// `{:?}` of a screen id, such as `ScreenId(2)`.
pub open spec fn screen_id_debug(id: ScreenId) -> Seq<char> {
    "ScreenId("@ + decimal(id.0 as nat) + ")"@
}

/// `{:?}` of a platform error, such as `NotFound("window")`.
pub open spec fn platform_error_debug(error: PlatformError) -> Seq<char> {
    match error {
        PlatformError::Unsupported(text) => "Unsupported("@ + debug_quoted(text@) + ")"@,
        PlatformError::NotFound(text) => "NotFound("@ + debug_quoted(text@) + ")"@,
        PlatformError::PermissionDenied(text) => "PermissionDenied("@ + debug_quoted(text@) + ")"@,
        PlatformError::Native(text) => "Native("@ + debug_quoted(text@) + ")"@,
    }
}

/// `{:?}` of an unsupported-window reason: its variant name.
pub open spec fn reason_debug(reason: UnsupportedWindowReason) -> Seq<char> {
    match reason {
        UnsupportedWindowReason::Hidden => "Hidden"@,
        UnsupportedWindowReason::Minimized => "Minimized"@,
        UnsupportedWindowReason::Fullscreen => "Fullscreen"@,
        UnsupportedWindowReason::InvalidGeometry => "InvalidGeometry"@,
        UnsupportedWindowReason::NotResizable => "NotResizable"@,
    }
}

fn reason_name(reason: UnsupportedWindowReason) -> (name: &'static str)
    ensures
        name@ == reason_debug(reason),
{
    match reason {
        UnsupportedWindowReason::Hidden => "Hidden",
        UnsupportedWindowReason::Minimized => "Minimized",
        UnsupportedWindowReason::Fullscreen => "Fullscreen",
        UnsupportedWindowReason::InvalidGeometry => "InvalidGeometry",
        UnsupportedWindowReason::NotResizable => "NotResizable",
    }
}

/// Appends `{:?}` of a window id.
pub fn push_window_id_debug(out: &mut String, id: WindowId)
    ensures
        final(out)@ == old(out)@ + window_id_debug(id),
{
    push_text(out, "WindowId(");
    push_decimal(out, id.0);
    push_text(out, ")");
    proof {
        assert(final(out)@ =~= old(out)@ + window_id_debug(id));
    }
}

/// Appends `{:?}` of a screen id.
pub fn push_screen_id_debug(out: &mut String, id: ScreenId)
    ensures
        final(out)@ == old(out)@ + screen_id_debug(id),
{
    push_text(out, "ScreenId(");
    push_decimal(out, id.0);
    push_text(out, ")");
    proof {
        assert(final(out)@ =~= old(out)@ + screen_id_debug(id));
    }
}

/// Appends `{:?}` of a platform error.
pub fn push_platform_error_debug(out: &mut String, error: &PlatformError)
    ensures
        final(out)@ == old(out)@ + platform_error_debug(*error),
{
    match error {
        PlatformError::Unsupported(text) => {
            push_text(out, "Unsupported(");
            push_debug_quoted(out, text);
        },
        PlatformError::NotFound(text) => {
            push_text(out, "NotFound(");
            push_debug_quoted(out, text);
        },
        PlatformError::PermissionDenied(text) => {
            push_text(out, "PermissionDenied(");
            push_debug_quoted(out, text);
        },
        PlatformError::Native(text) => {
            push_text(out, "Native(");
            push_debug_quoted(out, text.as_str());
        },
    }
    push_text(out, ")");
    proof {
        assert(final(out)@ =~= old(out)@ + platform_error_debug(*error));
    }
}

} // verus!
