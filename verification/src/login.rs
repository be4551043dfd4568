//! Launch-at-login decisions: when to register or unregister, what a toggle
//! must reach, how its failures read, and the Windows `Run` registry entry.

use vstd::prelude::*;

use crate::failure::{platform_error_debug, push_platform_error_debug};
use crate::platform::{LaunchAtLoginStatus, PlatformError, PlatformResult};
use crate::text::{is_white_space, is_white_space_char, push_text};

verus! {

/// A change to the login registration.
#[derive(Debug, Clone, Copy, PartialEq, Eq, Structural)]
pub enum LaunchAtLoginChange {
    Unchanged,
    Register,
    Unregister,
}

/// What setting launch at login to `enabled` does from `status` on macOS:
/// nothing when the state already matches, and an error when the app
/// bundle cannot be registered at all.
pub fn set_enabled(status: LaunchAtLoginStatus, enabled: bool) -> (change: PlatformResult<LaunchAtLoginChange>)
    ensures
        !status.spec_is_available() ==> change == Err::<LaunchAtLoginChange, PlatformError>(
            PlatformError::Unsupported("macOS launch at login requires a signed Panes.app bundle"),
        ),
        status.spec_is_available() && (enabled && status.spec_is_configured() || !enabled
            && !status.spec_has_registration()) ==> change == Ok::<LaunchAtLoginChange, PlatformError>(
            LaunchAtLoginChange::Unchanged,
        ),
        status.spec_is_available() && enabled && !status.spec_is_configured() ==> change == Ok::<
            LaunchAtLoginChange,
            PlatformError,
        >(LaunchAtLoginChange::Register),
        status.spec_is_available() && !enabled && status.spec_has_registration() ==> change == Ok::<
            LaunchAtLoginChange,
            PlatformError,
        >(LaunchAtLoginChange::Unregister),
{
    if !status.is_available() {
        return Err(PlatformError::Unsupported("macOS launch at login requires a signed Panes.app bundle"));
    }
    if enabled && status.is_configured() || !enabled && !status.has_registration() {
        return Ok(LaunchAtLoginChange::Unchanged);
    }
    if enabled {
        Ok(LaunchAtLoginChange::Register)
    } else {
        Ok(LaunchAtLoginChange::Unregister)
    }
}

/// The raw `SMAppServiceStatus` of a main-app service that is not registered.
pub const SERVICE_NOT_REGISTERED: isize = 0;
/// The raw `SMAppServiceStatus` of a registered, enabled service.
pub const SERVICE_ENABLED: isize = 1;
/// The raw `SMAppServiceStatus` of a service that waits for the user's approval.
pub const SERVICE_REQUIRES_APPROVAL: isize = 2;
/// The raw `SMAppServiceStatus` of a service that cannot be found, as for an
/// app outside a signed bundle.
pub const SERVICE_NOT_FOUND: isize = 3;

/// The login status that a raw macOS `SMAppServiceStatus` shows; values
/// that the documentation does not list mean launch at login is unavailable.
pub fn status_from_native(status: isize) -> (login: LaunchAtLoginStatus)
    ensures
        login == if status == SERVICE_NOT_REGISTERED {
            LaunchAtLoginStatus::Disabled
        } else if status == SERVICE_ENABLED {
            LaunchAtLoginStatus::Enabled
        } else if status == SERVICE_REQUIRES_APPROVAL {
            LaunchAtLoginStatus::RequiresApproval
        } else {
            LaunchAtLoginStatus::Unavailable
        },
{
    if status == SERVICE_NOT_REGISTERED {
        LaunchAtLoginStatus::Disabled
    } else if status == SERVICE_ENABLED {
        LaunchAtLoginStatus::Enabled
    } else if status == SERVICE_REQUIRES_APPROVAL {
        LaunchAtLoginStatus::RequiresApproval
    } else {
        LaunchAtLoginStatus::Unavailable
    }
}

/// Whether reconciling `status` with the wanted setting must update the
/// platform: an available platform is updated when a wanted registration is
/// missing, or when an unwanted one (even a stale one) exists.
pub fn reconcile_needs_update(status: LaunchAtLoginStatus, desired: bool) -> (needs_update: bool)
    ensures
        needs_update == (status.spec_is_available() && if desired {
            !status.spec_is_configured()
        } else {
            status.spec_has_registration()
        }),
{
    if !status.is_available() {
        return false;
    }
    if desired {
        !status.is_configured()
    } else {
        status.has_registration()
    }
}

/// The setting a toggle asks for from `before`: the opposite of the current
/// configuration, or nothing where launch at login is unavailable.
pub fn toggle_target(before: LaunchAtLoginStatus) -> (desired: Option<bool>)
    ensures
        desired == if before.spec_is_available() {
            Some(!before.spec_is_configured())
        } else {
            None
        },
{
    if before.is_available() {
        Some(!before.is_configured())
    } else {
        None
    }
}

/// Why toggling launch at login failed.
#[derive(Debug, Clone, PartialEq, Eq)]
pub enum LaunchAtLoginUpdateError {
    Platform(PlatformError),
    StateMismatch { desired: bool, actual: LaunchAtLoginStatus },
    Persist { message: String, rollback_error: Option<PlatformError> },
}

/// Whether `after` is the state that setting launch at login to `desired`
/// must reach: configured when enabling, without any registration when
/// disabling.
pub open spec fn reaches(desired: bool, after: LaunchAtLoginStatus) -> bool {
    if desired {
        after.spec_is_configured()
    } else {
        !after.spec_has_registration()
    }
}

/// Checks the state that the platform reports after a toggle.
pub fn check_toggled_state(desired: bool, after: LaunchAtLoginStatus) -> (checked: Result<LaunchAtLoginStatus, LaunchAtLoginUpdateError>)
    ensures
        reaches(desired, after) ==> checked == Ok::<LaunchAtLoginStatus, LaunchAtLoginUpdateError>(after),
        !reaches(desired, after) ==> checked == Err::<LaunchAtLoginStatus, LaunchAtLoginUpdateError>(
            LaunchAtLoginUpdateError::StateMismatch { desired, actual: after },
        ),
{
    let reached = if desired {
        after.is_configured()
    } else {
        !after.has_registration()
    };
    if reached {
        Ok(after)
    } else {
        Err(LaunchAtLoginUpdateError::StateMismatch { desired, actual: after })
    }
}

/// The setting that undoes a toggle from `before`.
pub fn rollback_setting(before: LaunchAtLoginStatus) -> (enabled: bool)
    ensures
        enabled == before.spec_is_configured(),
{
    before.is_configured()
}

/// The error of a toggle whose preference could not be saved, with the
/// outcome of rolling the platform back.
pub fn persist_failure(message: String, rollback: PlatformResult<()>) -> (error: LaunchAtLoginUpdateError)
    ensures
        error == (LaunchAtLoginUpdateError::Persist {
            message,
            rollback_error: match rollback {
                Ok(_) => None,
                Err(e) => Some(e),
            },
        }),
{
    let rollback_error = match rollback {
        Ok(()) => None,
        Err(error) => Some(error),
    };
    LaunchAtLoginUpdateError::Persist { message, rollback_error }
}

/// `{:?}` of a launch-at-login status: its variant name.
pub open spec fn status_debug(status: LaunchAtLoginStatus) -> Seq<char> {
    match status {
        LaunchAtLoginStatus::Disabled => "Disabled"@,
        LaunchAtLoginStatus::Enabled => "Enabled"@,
        LaunchAtLoginStatus::RequiresApproval => "RequiresApproval"@,
        LaunchAtLoginStatus::Stale => "Stale"@,
        LaunchAtLoginStatus::Unavailable => "Unavailable"@,
    }
}

fn status_name(status: LaunchAtLoginStatus) -> (name: &'static str)
    ensures
        name@ == status_debug(status),
{
    match status {
        LaunchAtLoginStatus::Disabled => "Disabled",
        LaunchAtLoginStatus::Enabled => "Enabled",
        LaunchAtLoginStatus::RequiresApproval => "RequiresApproval",
        LaunchAtLoginStatus::Stale => "Stale",
        LaunchAtLoginStatus::Unavailable => "Unavailable",
    }
}

impl LaunchAtLoginUpdateError {
    /// The text of the failure, as shown to the user.
    pub open spec fn spec_message(&self) -> Seq<char> {
        match self {
            LaunchAtLoginUpdateError::Platform(error) => "platform update failed: "@ + platform_error_debug(*error),
            LaunchAtLoginUpdateError::StateMismatch { desired, actual } => "platform reported "@ + status_debug(
                *actual,
            ) + " after launch at login was set to "@ + if *desired {
                "true"@
            } else {
                "false"@
            },
            LaunchAtLoginUpdateError::Persist { message, rollback_error } => match rollback_error {
                None => "could not save the preference; the platform update was rolled back: "@ + message@,
                Some(rollback) => "could not save the preference ("@ + message@
                    + ") or roll back the platform update: "@ + platform_error_debug(*rollback),
            },
        }
    }

    /// Returns the text of the failure.
    pub fn message(&self) -> (message: String)
        ensures
            message@ == self.spec_message(),
    {
        let mut out = String::new();
        match self {
            Self::Platform(error) => {
                push_text(&mut out, "platform update failed: ");
                push_platform_error_debug(&mut out, error);
            },
            Self::StateMismatch { desired, actual } => {
                push_text(&mut out, "platform reported ");
                push_text(&mut out, status_name(*actual));
                push_text(&mut out, " after launch at login was set to ");
                push_text(&mut out, if *desired { "true" } else { "false" });
            },
            Self::Persist { message, rollback_error: None } => {
                push_text(&mut out, "could not save the preference; the platform update was rolled back: ");
                push_text(&mut out, message.as_str());
            },
            Self::Persist { message, rollback_error: Some(rollback) } => {
                push_text(&mut out, "could not save the preference (");
                push_text(&mut out, message.as_str());
                push_text(&mut out, ") or roll back the platform update: ");
                push_platform_error_debug(&mut out, rollback);
            },
        }
        proof {
            assert(out@ =~= self.spec_message());
        }
        out
    }
}

/// The longest `Run` command, in UTF-16 code units, that Windows accepts.
pub const MAX_RUN_COMMAND_UNITS: usize = 260;

/// `path` in double quotes, as a `Run` command line.
pub open spec fn spec_quoted_path(path: Seq<char>) -> Seq<char> {
    "\""@ + path + "\""@
}

/// Quotes an executable path for the Windows `Run` registry entry.
pub fn quoted_path(path: &str) -> (quoted: String)
    ensures
        quoted@ == spec_quoted_path(path@),
{
    let mut quoted = String::new();
    push_text(&mut quoted, "\"");
    push_text(&mut quoted, path);
    push_text(&mut quoted, "\"");
    quoted
}

/// The number of UTF-16 code units that encode `text`.
pub open spec fn utf16_units(text: Seq<char>) -> nat
    decreases text.len(),
{
    if text.len() == 0 {
        0
    } else {
        utf16_units(text.drop_last()) + if text.last() as u32 >= 0x10000 {
            2nat
        } else {
            1nat
        }
    }
}

fn utf16_len(text: &str) -> (units: usize)
    requires
        text@.len() <= usize::MAX / 2,
    ensures
        units as nat == utf16_units(text@),
{
    let n = text.unicode_len();
    let mut units: usize = 0;
    let mut i: usize = 0;
    while i < n
        invariant
            n == text@.len(),
            n <= usize::MAX / 2,
            i <= n,
            units as nat == utf16_units(text@.subrange(0, i as int)),
            units <= 2 * i,
        decreases n - i,
    {
        proof {
            assert(text@.subrange(0, i as int + 1).drop_last() =~= text@.subrange(0, i as int));
        }
        if text.get_char(i) as u32 >= 0x10000 {
            units = units + 2;
        } else {
            units = units + 1;
        }
        i = i + 1;
    }
    proof {
        assert(text@.subrange(0, n as int) =~= text@);
    }
    units
}

/// The `Run` command that starts the executable at `executable`: its quoted
/// path, refused when it is longer than the registry allows.
pub fn launch_command(executable: &str) -> (command: PlatformResult<String>)
    requires
        executable@.len() + 2 <= usize::MAX / 2,
    ensures
        utf16_units(spec_quoted_path(executable@)) > MAX_RUN_COMMAND_UNITS ==> command == Err::<String, PlatformError>(
            PlatformError::Unsupported("Windows launch-at-login command exceeds the registry Run limit"),
        ),
        utf16_units(spec_quoted_path(executable@)) <= MAX_RUN_COMMAND_UNITS ==> (command matches Ok(c)
            && c@ == spec_quoted_path(executable@)),
{
    let command = quoted_path(executable);
    proof {
        reveal_strlit("\"");
    }
    if utf16_len(command.as_str()) > MAX_RUN_COMMAND_UNITS {
        return Err(PlatformError::Unsupported("Windows launch-at-login command exceeds the registry Run limit"));
    }
    Ok(command)
}

/// `text` without leading and trailing white space, as `str::trim` gives it.
pub open spec fn trimmed(text: Seq<char>) -> Seq<char>
    decreases text.len(),
{
    if text.len() > 0 && is_white_space(text[0]) {
        trimmed(text.drop_first())
    } else if text.len() > 0 && is_white_space(text.last()) {
        trimmed(text.drop_last())
    } else {
        text
    }
}

proof fn lemma_trimmed(text: Seq<char>, start: int, end: int)
    requires
        0 <= start <= end <= text.len(),
        forall|i: int| 0 <= i < start ==> is_white_space(#[trigger] text[i]),
        forall|i: int| end <= i < text.len() ==> is_white_space(#[trigger] text[i]),
        start < end ==> !is_white_space(text[start]) && !is_white_space(text[end - 1]),
        start == end ==> forall|i: int| 0 <= i < text.len() ==> is_white_space(#[trigger] text[i]),
    ensures
        trimmed(text) == text.subrange(start, end),
    decreases text.len(),
{
    if text.len() > 0 && is_white_space(text[0]) {
        let rest = text.drop_first();
        if start == end {
            assert forall|i: int| 0 <= i < rest.len() implies is_white_space(#[trigger] rest[i]) by {
                assert(rest[i] == text[i + 1]);
            }
            lemma_trimmed(rest, 0, 0);
            assert(text.subrange(start, end) =~= rest.subrange(0, 0));
        } else {
            assert(start > 0);
            assert forall|i: int| 0 <= i < start - 1 implies is_white_space(#[trigger] rest[i]) by {
                assert(rest[i] == text[i + 1]);
            }
            assert forall|i: int| end - 1 <= i < rest.len() implies is_white_space(#[trigger] rest[i]) by {
                assert(rest[i] == text[i + 1]);
            }
            assert(rest[start - 1] == text[start]);
            assert(rest[end - 2] == text[end - 1]);
            lemma_trimmed(rest, start - 1, end - 1);
            assert(rest.subrange(start - 1, end - 1) =~= text.subrange(start, end));
        }
    } else if text.len() > 0 && is_white_space(text.last()) {
        let rest = text.drop_last();
        if start == end {
            assert(false);
        } else {
            assert(end < text.len());
            assert forall|i: int| 0 <= i < start implies is_white_space(#[trigger] rest[i]) by {
                assert(rest[i] == text[i]);
            }
            assert forall|i: int| end <= i < rest.len() implies is_white_space(#[trigger] rest[i]) by {
                assert(rest[i] == text[i]);
            }
            assert(rest[start] == text[start]);
            assert(rest[end - 1] == text[end - 1]);
            lemma_trimmed(rest, start, end);
            assert(rest.subrange(start, end) =~= text.subrange(start, end));
        }
    } else {
        if text.len() == 0 {
            assert(text.subrange(start, end) =~= text);
        } else {
            if start == end {
                assert(is_white_space(text[0]));
            }
            assert(start == 0) by {
                if start > 0 {
                    assert(is_white_space(text[0]));
                }
            }
            assert(end == text.len()) by {
                if end < text.len() {
                    assert(is_white_space(text[text.len() - 1]));
                }
            }
            assert(text.subrange(start, end) =~= text);
        }
    }
}

/// `text` without leading and trailing white space.
pub fn trim(text: &str) -> (inner: &str)
    ensures
        inner@ == trimmed(text@),
{
    let n = text.unicode_len();
    let mut start: usize = 0;
    while start < n && is_white_space_char(text.get_char(start))
        invariant
            n == text@.len(),
            start <= n,
            forall|i: int| 0 <= i < start ==> is_white_space(#[trigger] text@[i]),
        decreases n - start,
    {
        start = start + 1;
    }
    let mut end: usize = n;
    while end > start && is_white_space_char(text.get_char(end - 1))
        invariant
            n == text@.len(),
            start <= end <= n,
            forall|i: int| end <= i < n ==> is_white_space(#[trigger] text@[i]),
            start < n ==> !is_white_space(text@[start as int]),
        decreases end,
    {
        end = end - 1;
    }
    proof {
        if start == end {
            assert forall|i: int| 0 <= i < text@.len() implies is_white_space(#[trigger] text@[i]) by {
                if i >= start && i < end {
                    assert(false);
                }
            }
        }
        lemma_trimmed(text@, start as int, end as int);
    }
    text.substring_char(start, end)
}

/// `c` with an ASCII capital letter lowered, as a code point.
pub open spec fn ascii_lowered(c: char) -> u32 {
    if 'A' <= c <= 'Z' {
        (c as u32 + 32) as u32
    } else {
        c as u32
    }
}

/// Whether two texts are equal once ASCII letters are lowered, as
/// `str::eq_ignore_ascii_case` compares them.
pub open spec fn equal_ignoring_ascii_case(a: Seq<char>, b: Seq<char>) -> bool {
    &&& a.len() == b.len()
    &&& forall|i: int| 0 <= i < a.len() ==> ascii_lowered(#[trigger] a[i]) == ascii_lowered(b[i])
}

fn lowered(c: char) -> (code: u32)
    ensures
        code == ascii_lowered(c),
{
    if 'A' <= c && c <= 'Z' {
        c as u32 + 32
    } else {
        c as u32
    }
}

/// Whether a `Run` command names the expected command: outer white space and
/// the case of ASCII letters do not matter, as Windows paths ignore case.
pub fn commands_match(actual: &str, expected: &str) -> (matches: bool)
    ensures
        matches == equal_ignoring_ascii_case(trimmed(actual@), expected@),
{
    let inner = trim(actual);
    let n = inner.unicode_len();
    let m = expected.unicode_len();
    if n != m {
        return false;
    }
    let mut i: usize = 0;
    while i < n
        invariant
            n == inner@.len(),
            m == expected@.len(),
            n == m,
            inner@ == trimmed(actual@),
            i <= n,
            forall|k: int| 0 <= k < i ==> ascii_lowered(#[trigger] inner@[k]) == ascii_lowered(expected@[k]),
        decreases n - i,
    {
        let a = inner.get_char(i);
        let b = expected.get_char(i);
        if lowered(a) != lowered(b) {
            proof {
                assert(ascii_lowered(inner@[i as int]) != ascii_lowered(expected@[i as int]));
            }
            return false;
        }
        i = i + 1;
    }
    true
}

/// A `Run` entry holding the launch command reads back as enabled: the
/// quoted command has no outer white space and matches itself.
pub proof fn lemma_written_registration_reads_back_enabled(executable: Seq<char>)
    ensures
        equal_ignoring_ascii_case(trimmed(spec_quoted_path(executable)), spec_quoted_path(executable)),
{
    reveal_strlit("\"");
    let command = spec_quoted_path(executable);
    assert(command[0] == '"');
    assert(command.last() == '"');
    assert(trimmed(command) == command);
}

/// The login status that the Windows `Run` entry shows: no entry means
/// disabled, an entry that is not text or names another command is stale,
/// and an entry naming `expected` is enabled.
pub fn status_from_run_entry(entry: Option<Option<String>>, expected: &str) -> (status: LaunchAtLoginStatus)
    ensures
        entry is None ==> status == LaunchAtLoginStatus::Disabled,
        entry matches Some(None) ==> status == LaunchAtLoginStatus::Stale,
        entry matches Some(Some(command)) ==> status == if equal_ignoring_ascii_case(
            trimmed(command@),
            expected@,
        ) {
            LaunchAtLoginStatus::Enabled
        } else {
            LaunchAtLoginStatus::Stale
        },
{
    match entry {
        None => LaunchAtLoginStatus::Disabled,
        Some(None) => LaunchAtLoginStatus::Stale,
        Some(Some(command)) => {
            if commands_match(command.as_str(), expected) {
                LaunchAtLoginStatus::Enabled
            } else {
                LaunchAtLoginStatus::Stale
            }
        },
    }
}

/// The platform work that a launch-at-login update asks for next.
#[derive(Debug, PartialEq, Eq)]
pub enum LaunchAtLoginAction {
    /// Read the platform's launch-at-login status.
    ReadStatus,
    /// Set launch at login on the platform.
    SetEnabled(bool),
    /// Save the launch-at-login preference.
    Persist(bool),
    /// The update is over, with this outcome.
    Finish(Result<LaunchAtLoginStatus, LaunchAtLoginUpdateError>),
}

/// What the platform work of the last action gave.
#[derive(Debug, PartialEq, Eq)]
pub enum LaunchAtLoginEvent {
    StatusRead(PlatformResult<LaunchAtLoginStatus>),
    SetDone(PlatformResult<()>),
    Persisted(Result<(), String>),
}

/// Where a toggle of launch at login stands.
#[derive(Debug, Clone, PartialEq, Eq)]
pub enum ToggleState {
    /// Waiting for the status before the toggle.
    ReadingBefore,
    /// Waiting for the platform to take `desired`.
    Setting { before: LaunchAtLoginStatus, desired: bool },
    /// Waiting for the status after setting `desired`.
    ReadingAfter { before: LaunchAtLoginStatus, desired: bool },
    /// Waiting for `desired` to be saved; `after` reached it.
    Persisting { before: LaunchAtLoginStatus, desired: bool, after: LaunchAtLoginStatus },
    /// Saving failed with `message`; waiting for the platform to be set back.
    RollingBack { message: String },
    /// The toggle is over.
    Finished,
}

/// Whether `event` answers the action that `state` waits on.
pub open spec fn toggle_event_fits(state: ToggleState, event: LaunchAtLoginEvent) -> bool {
    match state {
        ToggleState::ReadingBefore | ToggleState::ReadingAfter { .. } => event is StatusRead,
        ToggleState::Setting { .. } | ToggleState::RollingBack { .. } => event is SetDone,
        ToggleState::Persisting { .. } => event is Persisted,
        ToggleState::Finished => false,
    }
}

/// What each waiting state knows: a toggle only goes on from an available
/// status, always asks for the opposite of the status it started from, and
/// saves the preference only once the platform reached it.
pub open spec fn toggle_state_holds(state: ToggleState) -> bool {
    match state {
        ToggleState::Setting { before, desired } | ToggleState::ReadingAfter { before, desired } => {
            &&& before.spec_is_available()
            &&& desired == !before.spec_is_configured()
        },
        ToggleState::Persisting { before, desired, after } => {
            &&& before.spec_is_available()
            &&& desired == !before.spec_is_configured()
            &&& reaches(desired, after)
        },
        _ => true,
    }
}

/// Starts toggling launch at login: the status is read first.
pub fn start_toggle() -> (start: (ToggleState, LaunchAtLoginAction))
    ensures
        start.0 == ToggleState::ReadingBefore,
        start.1 == LaunchAtLoginAction::ReadStatus,
{
    (ToggleState::ReadingBefore, LaunchAtLoginAction::ReadStatus)
}

/// Advances a toggle of launch at login by the outcome of the last action.
///
/// The status before decides the setting (the opposite of its
/// configuration; nothing happens where launch at login is unavailable).
/// After setting it, the status is read again and must show the setting;
/// only then is the preference saved. When saving fails the platform is set
/// back to the status before, and the failure reports both outcomes. Every
/// platform error ends the toggle with that error.
pub fn toggle_step(state: ToggleState, event: LaunchAtLoginEvent) -> (next: (ToggleState, LaunchAtLoginAction))
    requires
        toggle_event_fits(state, event),
    ensures
        toggle_state_holds(state) ==> toggle_state_holds(next.0),
        toggle_state_holds(state) ==> match (state, next.1) {
            (ToggleState::Persisting { before, .. }, LaunchAtLoginAction::Finish(Ok(status))) => reaches(
                !before.spec_is_configured(),
                status,
            ),
            _ => true,
        },
        next.0 is Finished <==> next.1 is Finish,
        match (state, event) {
            (ToggleState::ReadingBefore, LaunchAtLoginEvent::StatusRead(Err(error))) => next.1
                == LaunchAtLoginAction::Finish(Err(LaunchAtLoginUpdateError::Platform(error))),
            (ToggleState::ReadingBefore, LaunchAtLoginEvent::StatusRead(Ok(before))) => if before.spec_is_available() {
                &&& next.0 == (ToggleState::Setting { before, desired: !before.spec_is_configured() })
                &&& next.1 == LaunchAtLoginAction::SetEnabled(!before.spec_is_configured())
            } else {
                next.1 == LaunchAtLoginAction::Finish(Ok(before))
            },
            (ToggleState::Setting { .. }, LaunchAtLoginEvent::SetDone(Err(error))) => next.1
                == LaunchAtLoginAction::Finish(Err(LaunchAtLoginUpdateError::Platform(error))),
            (ToggleState::Setting { before, desired }, LaunchAtLoginEvent::SetDone(Ok(_))) => {
                &&& next.0 == (ToggleState::ReadingAfter { before, desired })
                &&& next.1 == LaunchAtLoginAction::ReadStatus
            },
            (ToggleState::ReadingAfter { .. }, LaunchAtLoginEvent::StatusRead(Err(error))) => next.1
                == LaunchAtLoginAction::Finish(Err(LaunchAtLoginUpdateError::Platform(error))),
            (ToggleState::ReadingAfter { before, desired }, LaunchAtLoginEvent::StatusRead(Ok(after))) => if reaches(
                desired,
                after,
            ) {
                &&& next.0 == (ToggleState::Persisting { before, desired, after })
                &&& next.1 == LaunchAtLoginAction::Persist(desired)
            } else {
                next.1 == LaunchAtLoginAction::Finish(
                    Err(LaunchAtLoginUpdateError::StateMismatch { desired, actual: after }),
                )
            },
            (ToggleState::Persisting { after, .. }, LaunchAtLoginEvent::Persisted(Ok(_))) => next.1
                == LaunchAtLoginAction::Finish(Ok(after)),
            (ToggleState::Persisting { before, .. }, LaunchAtLoginEvent::Persisted(Err(message))) => {
                &&& next.0 == (ToggleState::RollingBack { message })
                &&& next.1 == LaunchAtLoginAction::SetEnabled(before.spec_is_configured())
            },
            (ToggleState::RollingBack { message }, LaunchAtLoginEvent::SetDone(rollback)) => next.1
                == LaunchAtLoginAction::Finish(
                Err(
                    LaunchAtLoginUpdateError::Persist {
                        message,
                        rollback_error: match rollback {
                            Ok(_) => None,
                            Err(error) => Some(error),
                        },
                    },
                ),
            ),
            _ => false,
        },
{
    match (state, event) {
        (ToggleState::ReadingBefore, LaunchAtLoginEvent::StatusRead(Err(error))) => (
            ToggleState::Finished,
            LaunchAtLoginAction::Finish(Err(LaunchAtLoginUpdateError::Platform(error))),
        ),
        (ToggleState::ReadingBefore, LaunchAtLoginEvent::StatusRead(Ok(before))) => match toggle_target(before) {
            None => (ToggleState::Finished, LaunchAtLoginAction::Finish(Ok(before))),
            Some(desired) => (ToggleState::Setting { before, desired }, LaunchAtLoginAction::SetEnabled(desired)),
        },
        (ToggleState::Setting { .. }, LaunchAtLoginEvent::SetDone(Err(error))) => (
            ToggleState::Finished,
            LaunchAtLoginAction::Finish(Err(LaunchAtLoginUpdateError::Platform(error))),
        ),
        (ToggleState::Setting { before, desired }, LaunchAtLoginEvent::SetDone(Ok(()))) => (
            ToggleState::ReadingAfter { before, desired },
            LaunchAtLoginAction::ReadStatus,
        ),
        (ToggleState::ReadingAfter { .. }, LaunchAtLoginEvent::StatusRead(Err(error))) => (
            ToggleState::Finished,
            LaunchAtLoginAction::Finish(Err(LaunchAtLoginUpdateError::Platform(error))),
        ),
        (ToggleState::ReadingAfter { before, desired }, LaunchAtLoginEvent::StatusRead(Ok(after))) => {
            match check_toggled_state(desired, after) {
                Ok(after) => (
                    ToggleState::Persisting { before, desired, after },
                    LaunchAtLoginAction::Persist(desired),
                ),
                Err(error) => (ToggleState::Finished, LaunchAtLoginAction::Finish(Err(error))),
            }
        },
        (ToggleState::Persisting { after, .. }, LaunchAtLoginEvent::Persisted(Ok(()))) => (
            ToggleState::Finished,
            LaunchAtLoginAction::Finish(Ok(after)),
        ),
        (ToggleState::Persisting { before, .. }, LaunchAtLoginEvent::Persisted(Err(message))) => (
            ToggleState::RollingBack { message },
            LaunchAtLoginAction::SetEnabled(rollback_setting(before)),
        ),
        (ToggleState::RollingBack { message }, LaunchAtLoginEvent::SetDone(rollback)) => (
            ToggleState::Finished,
            LaunchAtLoginAction::Finish(Err(persist_failure(message, rollback))),
        ),
        _ => {
            proof {
                assert(false);
            }
            (ToggleState::Finished, LaunchAtLoginAction::ReadStatus)
        },
    }
}

/// Where reconciling launch at login with the saved preference stands.
#[derive(Debug, Clone, Copy, PartialEq, Eq, Structural)]
pub enum ReconcileState {
    /// Waiting for the current status.
    Reading { desired: bool },
    /// Waiting for the platform to take `desired`.
    Setting { desired: bool },
    /// Waiting for the status after the update.
    Rereading,
    /// Reconciling is over.
    Finished,
}

/// Whether `event` answers the action that `state` waits on.
pub open spec fn reconcile_event_fits(state: ReconcileState, event: LaunchAtLoginEvent) -> bool {
    match state {
        ReconcileState::Reading { .. } | ReconcileState::Rereading => event is StatusRead,
        ReconcileState::Setting { .. } => event is SetDone,
        ReconcileState::Finished => false,
    }
}

/// Starts reconciling launch at login with the preference `desired`.
pub fn start_reconcile(desired: bool) -> (start: (ReconcileState, LaunchAtLoginAction))
    ensures
        start.0 == (ReconcileState::Reading { desired }),
        start.1 == LaunchAtLoginAction::ReadStatus,
{
    (ReconcileState::Reading { desired }, LaunchAtLoginAction::ReadStatus)
}

/// Advances reconciling launch at login by the outcome of the last action.
///
/// The platform is updated only when a wanted registration is missing or an
/// unwanted one exists; after an update the status is read again and
/// reported. Platform errors end the reconciliation with that error.
pub fn reconcile_step(state: ReconcileState, event: LaunchAtLoginEvent) -> (next: (ReconcileState, LaunchAtLoginAction))
    requires
        reconcile_event_fits(state, event),
    ensures
        next.0 is Finished <==> next.1 is Finish,
        match (state, event) {
            (ReconcileState::Reading { .. }, LaunchAtLoginEvent::StatusRead(Err(error))) => next.1
                == LaunchAtLoginAction::Finish(Err(LaunchAtLoginUpdateError::Platform(error))),
            (ReconcileState::Reading { desired }, LaunchAtLoginEvent::StatusRead(Ok(status))) => if status.spec_is_available()
                && if desired {
                !status.spec_is_configured()
            } else {
                status.spec_has_registration()
            } {
                &&& next.0 == (ReconcileState::Setting { desired })
                &&& next.1 == LaunchAtLoginAction::SetEnabled(desired)
            } else {
                next.1 == LaunchAtLoginAction::Finish(Ok(status))
            },
            (ReconcileState::Setting { .. }, LaunchAtLoginEvent::SetDone(Err(error))) => next.1
                == LaunchAtLoginAction::Finish(Err(LaunchAtLoginUpdateError::Platform(error))),
            (ReconcileState::Setting { .. }, LaunchAtLoginEvent::SetDone(Ok(_))) => {
                &&& next.0 == ReconcileState::Rereading
                &&& next.1 == LaunchAtLoginAction::ReadStatus
            },
            (ReconcileState::Rereading, LaunchAtLoginEvent::StatusRead(Err(error))) => next.1
                == LaunchAtLoginAction::Finish(Err(LaunchAtLoginUpdateError::Platform(error))),
            (ReconcileState::Rereading, LaunchAtLoginEvent::StatusRead(Ok(status))) => next.1
                == LaunchAtLoginAction::Finish(Ok(status)),
            _ => false,
        },
{
    match (state, event) {
        (ReconcileState::Reading { desired }, LaunchAtLoginEvent::StatusRead(Ok(status))) => {
            if reconcile_needs_update(status, desired) {
                (ReconcileState::Setting { desired }, LaunchAtLoginAction::SetEnabled(desired))
            } else {
                (ReconcileState::Finished, LaunchAtLoginAction::Finish(Ok(status)))
            }
        },
        (ReconcileState::Setting { .. }, LaunchAtLoginEvent::SetDone(Ok(()))) => (
            ReconcileState::Rereading,
            LaunchAtLoginAction::ReadStatus,
        ),
        (ReconcileState::Rereading, LaunchAtLoginEvent::StatusRead(Ok(status))) => (
            ReconcileState::Finished,
            LaunchAtLoginAction::Finish(Ok(status)),
        ),
        (ReconcileState::Reading { .. }, LaunchAtLoginEvent::StatusRead(Err(error)))
        | (ReconcileState::Setting { .. }, LaunchAtLoginEvent::SetDone(Err(error)))
        | (ReconcileState::Rereading, LaunchAtLoginEvent::StatusRead(Err(error))) => (
            ReconcileState::Finished,
            LaunchAtLoginAction::Finish(Err(LaunchAtLoginUpdateError::Platform(error))),
        ),
        _ => {
            proof {
                assert(false);
            }
            (ReconcileState::Finished, LaunchAtLoginAction::ReadStatus)
        },
    }
}

} // verus!
