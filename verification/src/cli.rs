//! Command-line modes of the panes program and the one-line records it prints
//! for failed commands.

use vstd::prelude::*;

use crate::command::{COMMAND_COUNT, Command, lemma_command_named, lemma_id_is_not_a_flag};
use crate::failure::{CommandExecutionError, CommandFailureLevel};
use crate::platform::{CommandInvocation, CommandSource};
use crate::text::{debug_quoted, decimal, digit_char, push_debug_quoted, push_text, str_equal};

verus! {

/// How the program was asked to run.
#[derive(Debug, Clone, Copy, PartialEq, Eq, Structural)]
pub enum AppMode {
    Resident,
    RuntimeSummary,
    ListCommands,
    Exec { command: Command, delay_ms: u64 },
    Help,
}

/// The usage text.
pub const USAGE: &'static str = "Usage:\n  panes\n  panes --runtime-summary\n  panes exec --list\n  panes exec [--delay <milliseconds>] <command-id>";

/// The value of a string of decimal digits.
pub open spec fn digits_value(digits: Seq<char>) -> nat
    decreases digits.len(),
{
    if digits.len() == 0 {
        0
    } else {
        digits_value(digits.drop_last()) * 10 + (digits.last() as nat - '0' as nat) as nat
    }
}

/// Whether every character is an ASCII decimal digit.
pub open spec fn all_digits(text: Seq<char>) -> bool {
    forall|i: int| 0 <= i < text.len() ==> '0' <= #[trigger] text[i] <= '9'
}

/// The number that `str::parse::<u64>` reads from `text`: an optional `+`
/// followed by at least one decimal digit, with a value that fits in a `u64`.
pub open spec fn parsed_u64(text: Seq<char>) -> Option<u64> {
    let digits = if text.len() > 0 && text[0] == '+' { text.drop_first() } else { text };
    if digits.len() > 0 && all_digits(digits) && digits_value(digits) <= u64::MAX {
        Some(digits_value(digits) as u64)
    } else {
        None
    }
}

proof fn lemma_digits_value_grows(digits: Seq<char>, k: int)
    requires
        0 <= k <= digits.len(),
        all_digits(digits),
    ensures
        digits_value(digits.subrange(0, k)) <= digits_value(digits),
    decreases digits.len() - k,
{
    if k < digits.len() {
        lemma_digits_value_grows(digits, k + 1);
        let longer = digits.subrange(0, k + 1);
        assert(longer.drop_last() =~= digits.subrange(0, k));
        assert('0' <= longer.last() <= '9');
    } else {
        assert(digits.subrange(0, k) =~= digits);
    }
}

/// Reads a non-negative number of milliseconds as `str::parse::<u64>` does.
pub fn parse_u64(text: &str) -> (value: Option<u64>)
    ensures
        value == parsed_u64(text@),
{
    let n = text.unicode_len();
    let start: usize = if n > 0 && text.get_char(0) == '+' { 1 } else { 0 };
    let ghost digits = if text@.len() > 0 && text@[0] == '+' { text@.drop_first() } else { text@ };
    proof {
        assert(digits =~= text@.subrange(start as int, n as int));
    }
    if start == n {
        return None;
    }
    let mut value: u64 = 0;
    let mut i: usize = start;
    while i < n
        invariant
            n == text@.len(),
            start <= i <= n,
            digits == text@.subrange(start as int, n as int),
            digits == (if text@.len() > 0 && text@[0] == '+' { text@.drop_first() } else { text@ }),
            all_digits(digits.subrange(0, i - start)),
            value as nat == digits_value(digits.subrange(0, i - start)),
        decreases n - i,
    {
        let c = text.get_char(i);
        let ghost before = digits.subrange(0, i - start);
        let ghost after = digits.subrange(0, i - start + 1);
        proof {
            assert(after.drop_last() =~= before);
            assert(after.last() == c);
        }
        if c < '0' || c > '9' {
            proof {
                assert(digits[i - start] == c);
                assert(!all_digits(digits));
            }
            return None;
        }
        let digit = (c as u32 - '0' as u32) as u64;
        let scaled = value.checked_mul(10);
        match scaled {
            None => {
                proof {
                    assert(value * 10 > u64::MAX);
                    assert(all_digits(after));
                    assert(digits_value(after) == digits_value(before) * 10 + (c as nat - '0' as nat) as nat);
                    assert(digits_value(after) >= value * 10);
                    if all_digits(digits) {
                        lemma_digits_value_grows(digits, i - start + 1);
                        assert(digits_value(digits) > u64::MAX);
                    }
                }
                return None;
            },
            Some(scaled) => {
                match scaled.checked_add(digit) {
                    None => {
                        proof {
                            assert(all_digits(after));
                            if all_digits(digits) {
                                lemma_digits_value_grows(digits, i - start + 1);
                            }
                        }
                        return None;
                    },
                    Some(next) => {
                        value = next;
                    },
                }
            },
        }
        i = i + 1;
    }
    proof {
        assert(digits.subrange(0, n - start) =~= digits);
    }
    Some(value)
}

/// The texts joined with `separator` between neighbours.
pub open spec fn joined(texts: Seq<Seq<char>>, separator: Seq<char>) -> Seq<char>
    decreases texts.len(),
{
    if texts.len() == 0 {
        Seq::empty()
    } else if texts.len() == 1 {
        texts[0]
    } else {
        joined(texts.drop_last(), separator) + separator + texts.last()
    }
}

/// The texts of a list of strings.
pub open spec fn texts(strings: Seq<String>) -> Seq<Seq<char>> {
    strings.map_values(|s: String| s@)
}

/// Appends the arguments joined by single spaces.
fn push_joined(out: &mut String, arguments: &[String])
    ensures
        final(out)@ == old(out)@ + joined(texts(arguments@), " "@),
{
    let mut i: usize = 0;
    while i < arguments.len()
        invariant
            i <= arguments@.len(),
            out@ == old(out)@ + joined(texts(arguments@.subrange(0, i as int)), " "@),
        decreases arguments.len() - i,
    {
        let ghost before = texts(arguments@.subrange(0, i as int));
        let ghost after = texts(arguments@.subrange(0, i as int + 1));
        proof {
            assert(after.drop_last() =~= before);
        }
        if i > 0 {
            push_text(out, " ");
        }
        push_text(out, arguments[i].as_str());
        proof {
            if i == 0 {
                assert(out@ =~= old(out)@ + joined(after, " "@));
            } else {
                assert(out@ =~= old(out)@ + joined(after, " "@));
            }
        }
        i = i + 1;
    }
    proof {
        assert(arguments@.subrange(0, arguments@.len() as int) =~= arguments@);
    }
}

/// An outcome of argument parsing with its error as text.
pub open spec fn outcome_view(outcome: Result<AppMode, String>) -> Result<AppMode, Seq<char>> {
    match outcome {
        Ok(mode) => Ok(mode),
        Err(message) => Err(message@),
    }
}

/// The mode that `panes exec <command-id>` (with a delay) asks for.
pub open spec fn spec_command_mode(command_id: Seq<char>, delay_ms: u64) -> Result<AppMode, Seq<char>> {
    if exists|c: Command| c.spec_id() == command_id {
        Ok(AppMode::Exec { command: crate::command::command_named(command_id), delay_ms })
    } else {
        Err("unknown command id '"@ + command_id + "'; run `panes exec --list` to list commands"@)
    }
}

/// The mode that the arguments after `exec` ask for.
pub open spec fn spec_parse_exec_arguments(arguments: Seq<Seq<char>>) -> Result<AppMode, Seq<char>> {
    if arguments.len() == 1 && arguments[0] == "--list"@ {
        Ok(AppMode::ListCommands)
    } else if arguments.len() == 1 && (arguments[0] == "--help"@ || arguments[0] == "-h"@) {
        Ok(AppMode::Help)
    } else if arguments.len() == 1 {
        spec_command_mode(arguments[0], 0)
    } else if arguments.len() == 3 && arguments[0] == "--delay"@ {
        match parsed_u64(arguments[1]) {
            Some(delay_ms) => spec_command_mode(arguments[2], delay_ms),
            None => Err("invalid delay '"@ + arguments[1] + "'; expected non-negative milliseconds"@),
        }
    } else if arguments.len() == 0 {
        Err("missing command id; run `panes exec --list` to list commands"@)
    } else {
        Err("invalid exec arguments: "@ + joined(arguments, " "@) + "; run `panes exec --help` for usage"@)
    }
}

/// The mode that the program arguments (without the program name) ask for.
pub open spec fn spec_parse_arguments(arguments: Seq<Seq<char>>) -> Result<AppMode, Seq<char>> {
    if arguments.len() == 0 {
        Ok(AppMode::Resident)
    } else if arguments.len() == 1 && arguments[0] == "--runtime-summary"@ {
        Ok(AppMode::RuntimeSummary)
    } else if arguments.len() == 1 && (arguments[0] == "--help"@ || arguments[0] == "-h"@) {
        Ok(AppMode::Help)
    } else if arguments[0] == "exec"@ {
        spec_parse_exec_arguments(arguments.drop_first())
    } else {
        Err("unrecognized arguments: "@ + joined(arguments, " "@))
    }
}

/// The mode for running one command by id, after an optional delay.
pub fn command_mode(command_id: &str, delay_ms: u64) -> (mode: Result<AppMode, String>)
    ensures
        outcome_view(mode) == spec_command_mode(command_id@, delay_ms),
{
    match Command::from_id(command_id) {
        Some(command) => {
            proof {
                crate::command::lemma_command_named(command, command_id@);
            }
            Ok(AppMode::Exec { command, delay_ms })
        },
        None => {
            let mut message = String::new();
            push_text(&mut message, "unknown command id '");
            push_text(&mut message, command_id);
            push_text(&mut message, "'; run `panes exec --list` to list commands");
            proof {
                assert(message@ =~= "unknown command id '"@ + command_id@
                    + "'; run `panes exec --list` to list commands"@);
            }
            Err(message)
        },
    }
}

/// The mode that the arguments after `exec` ask for.
pub fn parse_exec_arguments(arguments: &[String]) -> (mode: Result<AppMode, String>)
    ensures
        outcome_view(mode) == spec_parse_exec_arguments(texts(arguments@)),
{
    let ghost args = texts(arguments@);
    let n = arguments.len();
    if n == 1 && str_equal(arguments[0].as_str(), "--list") {
        return Ok(AppMode::ListCommands);
    }
    if n == 1 && (str_equal(arguments[0].as_str(), "--help") || str_equal(arguments[0].as_str(), "-h")) {
        return Ok(AppMode::Help);
    }
    if n == 1 {
        return command_mode(arguments[0].as_str(), 0);
    }
    if n == 3 && str_equal(arguments[0].as_str(), "--delay") {
        return match parse_u64(arguments[1].as_str()) {
            Some(delay_ms) => command_mode(arguments[2].as_str(), delay_ms),
            None => {
                let mut message = String::new();
                push_text(&mut message, "invalid delay '");
                push_text(&mut message, arguments[1].as_str());
                push_text(&mut message, "'; expected non-negative milliseconds");
                proof {
                    assert(message@ =~= "invalid delay '"@ + args[1] + "'; expected non-negative milliseconds"@);
                }
                Err(message)
            },
        };
    }
    if n == 0 {
        let mut message = String::new();
        push_text(&mut message, "missing command id; run `panes exec --list` to list commands");
        return Err(message);
    }
    let mut message = String::new();
    push_text(&mut message, "invalid exec arguments: ");
    push_joined(&mut message, arguments);
    push_text(&mut message, "; run `panes exec --help` for usage");
    proof {
        assert(message@ =~= "invalid exec arguments: "@ + joined(args, " "@) + "; run `panes exec --help` for usage"@);
    }
    Err(message)
}

/// The mode that the program arguments (without the program name) ask for.
pub fn parse_arguments(arguments: &[String]) -> (mode: Result<AppMode, String>)
    ensures
        outcome_view(mode) == spec_parse_arguments(texts(arguments@)),
{
    let ghost args = texts(arguments@);
    let n = arguments.len();
    if n == 0 {
        return Ok(AppMode::Resident);
    }
    if n == 1 && str_equal(arguments[0].as_str(), "--runtime-summary") {
        return Ok(AppMode::RuntimeSummary);
    }
    if n == 1 && (str_equal(arguments[0].as_str(), "--help") || str_equal(arguments[0].as_str(), "-h")) {
        return Ok(AppMode::Help);
    }
    if str_equal(arguments[0].as_str(), "exec") {
        proof {
            assert(texts(arguments@.subrange(1, n as int)) =~= args.drop_first());
        }
        return parse_exec_arguments(&arguments[1..n]);
    }
    let mut message = String::new();
    push_text(&mut message, "unrecognized arguments: ");
    push_joined(&mut message, arguments);
    proof {
        assert(message@ =~= "unrecognized arguments: "@ + joined(args, " "@));
    }
    Err(message)
}

/// The decimal text of a number reads back as that number.
proof fn lemma_decimal_parses(n: nat)
    requires
        n <= u64::MAX,
    ensures
        parsed_u64(decimal(n)) == Some(n as u64),
{
    lemma_decimal_digits(n);
}

proof fn lemma_decimal_digits(n: nat)
    ensures
        decimal(n).len() > 0,
        all_digits(decimal(n)),
        digits_value(decimal(n)) == n,
        decimal(n)[0] != '+',
    decreases n,
{
    let d = decimal(n);
    if n < 10 {
        assert(d.drop_last() =~= Seq::<char>::empty());
        assert(digit_char(n) as nat - '0' as nat == n);
        assert(d.last() == digit_char(n));
        assert(digits_value(d) == digits_value(d.drop_last()) * 10 + (n as int));
    } else {
        lemma_decimal_digits(n / 10);
        let high = decimal(n / 10);
        assert(d.drop_last() =~= high);
        assert(d[0] == high[0]);
        assert(digit_char(n % 10) as nat - '0' as nat == n % 10);
        assert(d.last() == digit_char(n % 10));
        assert(digits_value(d) == digits_value(high) * 10 + (n % 10));
        assert forall|i: int| 0 <= i < d.len() implies '0' <= #[trigger] d[i] <= '9' by {
            if i < high.len() {
                assert(d[i] == high[i]);
            }
        }
        assert((n / 10) * 10 + n % 10 == n);
    }
}

/// Every command id that `panes exec --list` prints runs that command when
/// it is given back to `panes exec`, at once or after any delay.
pub proof fn lemma_listed_ids_run_their_command(c: Command, delay_ms: u64)
    ensures
        spec_parse_arguments(seq!["exec"@, c.spec_id()]) == Ok::<AppMode, Seq<char>>(
            AppMode::Exec { command: c, delay_ms: 0 },
        ),
        spec_parse_exec_arguments(seq!["--delay"@, decimal(delay_ms as nat), c.spec_id()]) == Ok::<
            AppMode,
            Seq<char>,
        >(AppMode::Exec { command: c, delay_ms }),
{
    reveal_strlit("exec");
    reveal_strlit("--list");
    reveal_strlit("--help");
    reveal_strlit("-h");
    reveal_strlit("--runtime-summary");
    reveal_strlit("--delay");
    lemma_id_is_not_a_flag(c);
    lemma_command_named(c, c.spec_id());
    let id = c.spec_id();
    assert(id != "--list"@ && id != "--help"@ && id != "-h"@) by {
        assert("--list"@[0] == '-' && "--help"@[0] == '-' && "-h"@[0] == '-');
    }
    assert("exec"@ != "--runtime-summary"@ && "exec"@ != "--help"@ && "exec"@ != "-h"@) by {
        assert("--runtime-summary"@[0] == '-' && "exec"@[0] == 'e');
    }
    assert(seq!["exec"@, id].drop_first() =~= seq![id]);
    lemma_decimal_parses(delay_ms as nat);
}

/// Every command id followed by a line break, in menu order.
pub open spec fn id_listing(commands: Seq<Command>) -> Seq<char>
    decreases commands.len(),
{
    if commands.len() == 0 {
        Seq::empty()
    } else {
        id_listing(commands.drop_last()) + commands.last().spec_id() + "\n"@
    }
}

/// The listing printed by `panes exec --list`: one command id per line.
pub fn command_id_listing() -> (listing: String)
    ensures
        listing@ == id_listing(Command::ALL@),
{
    let mut listing = String::new();
    let mut i: usize = 0;
    while i < COMMAND_COUNT
        invariant
            i <= COMMAND_COUNT,
            listing@ == id_listing(Command::ALL@.subrange(0, i as int)),
        decreases COMMAND_COUNT - i,
    {
        proof {
            assert(Command::ALL@.subrange(0, i as int + 1).drop_last() =~= Command::ALL@.subrange(0, i as int));
        }
        push_text(&mut listing, Command::ALL[i].id());
        push_text(&mut listing, "\n");
        i = i + 1;
    }
    proof {
        assert(Command::ALL@.subrange(0, COMMAND_COUNT as int) =~= Command::ALL@);
    }
    listing
}

/// `{:?}` of a command source: its variant name.
pub open spec fn source_debug(source: CommandSource) -> Seq<char> {
    match source {
        CommandSource::Keyboard => "Keyboard"@,
        CommandSource::Menu => "Menu"@,
        CommandSource::Cli => "Cli"@,
    }
}

/// The level as written in failure records.
pub open spec fn level_text(level: CommandFailureLevel) -> Seq<char> {
    match level {
        CommandFailureLevel::Debug => "debug"@,
        CommandFailureLevel::Error => "error"@,
    }
}

/// The one-line `key=value` record of a failed command.
pub open spec fn failure_record(
    invocation: CommandInvocation,
    error: CommandExecutionError,
    level: CommandFailureLevel,
) -> Seq<char> {
    "event=command_failure level="@ + level_text(level) + " command="@ + invocation.command.spec_id()
        + " source="@ + source_debug(invocation.source) + " error="@ + debug_quoted(error.spec_message())
}

/// Formats a failed command as one parseable `key=value` record.
pub fn format_command_failure(
    invocation: CommandInvocation,
    error: &CommandExecutionError,
    level: CommandFailureLevel,
) -> (record: String)
    ensures
        record@ == failure_record(invocation, *error, level),
{
    let mut record = String::new();
    push_text(&mut record, "event=command_failure level=");
    match level {
        CommandFailureLevel::Debug => push_text(&mut record, "debug"),
        CommandFailureLevel::Error => push_text(&mut record, "error"),
    }
    push_text(&mut record, " command=");
    push_text(&mut record, invocation.command.id());
    push_text(&mut record, " source=");
    match invocation.source {
        CommandSource::Keyboard => push_text(&mut record, "Keyboard"),
        CommandSource::Menu => push_text(&mut record, "Menu"),
        CommandSource::Cli => push_text(&mut record, "Cli"),
    }
    push_text(&mut record, " error=");
    let message = error.message();
    push_debug_quoted(&mut record, message.as_str());
    proof {
        assert(record@ =~= failure_record(invocation, *error, level));
    }
    record
}

} // verus!
