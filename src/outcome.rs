//! How the outcome of running one command becomes a `CommandResult`.

use vstd::prelude::*;
use crate::model::CommandResult;
use crate::text::string_of;

verus! {

/// What the command-execution capability reports for a process that ran.
#[derive(Debug, Clone, PartialEq, Eq)]
pub struct ExecOutput {
    /// `None` when the process ended without an exit code (killed by a signal).
    pub exit_code: Option<i32>,
    pub stdout: String,
    pub stderr: String,
}

/// What the command-execution capability reports for one command.
#[derive(Debug, Clone, PartialEq, Eq)]
pub enum ExecOutcome {
    /// The process ran to its end.
    Exited(ExecOutput),
    /// The process could not be started; the text says why.
    LaunchFailed(String),
}

/// The decimal digit `d`, for `d < 10`.
pub open spec fn digit_char(d: nat) -> char {
    seq!['0', '1', '2', '3', '4', '5', '6', '7', '8', '9'][d as int]
}

/// The decimal digits of `n`, without leading zeros.
pub open spec fn digits_of(n: nat) -> Seq<char>
    decreases n,
{
    if n < 10 {
        seq![digit_char(n)]
    } else {
        digits_of(n / 10).push(digit_char(n % 10))
    }
}

/// `n` in decimal, with a leading `-` when negative.
pub open spec fn decimal_of(n: int) -> Seq<char> {
    if n < 0 {
        seq!['-'] + digits_of((-n) as nat)
    } else {
        digits_of(n as nat)
    }
}

/// The decimal digit `d`.
fn digit(d: u32) -> (c: char)
    requires
        d < 10,
    ensures
        c == digit_char(d as nat),
{
    match d {
        0 => '0',
        1 => '1',
        2 => '2',
        3 => '3',
        4 => '4',
        5 => '5',
        6 => '6',
        7 => '7',
        8 => '8',
        _ => '9',
    }
}

/// `n` in decimal.
fn decimal_text(n: i32) -> (r: String)
    ensures
        r@ == decimal_of(n as int),
{
    let negative = n < 0;
    let mut m: u32 = if negative {
        (0i64 - n as i64) as u32
    } else {
        n as u32
    };
    let ghost magnitude: nat = if negative {
        (-n) as nat
    } else {
        n as nat
    };
    let mut acc: Vec<char> = Vec::new();
    while m >= 10
        invariant
            digits_of(magnitude) == digits_of(m as nat) + acc@,
        decreases m,
    {
        let d = digit(m % 10);
        assert(digits_of(m as nat) == digits_of((m / 10) as nat).push(d));
        assert(digits_of((m / 10) as nat).push(d) + acc@ =~= digits_of((m / 10) as nat) + acc@.insert(0, d));
        acc.insert(0, d);
        m = m / 10;
    }
    let d = digit(m);
    assert(digits_of(m as nat) + acc@ =~= acc@.insert(0, d));
    acc.insert(0, d);
    if negative {
        assert(seq!['-'] + acc@ =~= acc@.insert(0, '-'));
        acc.insert(0, '-');
    }
    string_of(acc)
}

/// The message that stands for a failure that left nothing on stderr.
pub open spec fn exit_message(code: Option<i32>) -> Seq<char> {
    match code {
        Some(c) => "Command failed with exit code: "@ + decimal_of(c as int),
        None => "Command failed without an exit code"@,
    }
}

/// Success flag, output and error of a command's outcome.
pub open spec fn outcome_view(outcome: ExecOutcome) -> (bool, Seq<char>, Option<Seq<char>>) {
    match outcome {
        ExecOutcome::LaunchFailed(m) => (false, Seq::empty(), Some(m@)),
        ExecOutcome::Exited(o) => if o.exit_code == Some(0i32) {
            (true, o.stdout@, None)
        } else if o.stderr@.len() > 0 {
            (false, o.stdout@, Some(o.stderr@))
        } else {
            (false, o.stdout@, Some(exit_message(o.exit_code)))
        },
    }
}

/// The failure message for an exit without stderr text.
pub fn exit_message_text(code: Option<i32>) -> (r: String)
    ensures
        r@ == exit_message(code),
{
    match code {
        Some(c) => {
            let mut s = String::from_str("Command failed with exit code: ");
            let digits = decimal_text(c);
            s.append(digits.as_str());
            s
        },
        None => String::from_str("Command failed without an exit code"),
    }
}

/// Maps a command's outcome to its result: exit code 0 is success with the
/// captured stdout; any other exit keeps stdout and reports stderr, or a
/// message with the exit code when stderr is empty; a launch failure reports
/// its message.
pub fn outcome_result(outcome: &ExecOutcome) -> (r: CommandResult)
    ensures
        r@ == outcome_view(*outcome),
{
    match outcome {
        ExecOutcome::LaunchFailed(m) => CommandResult {
            success: false,
            output: String::new(),
            error: Some(m.clone()),
        },
        ExecOutcome::Exited(o) => {
            if o.exit_code == Some(0i32) {
                CommandResult { success: true, output: o.stdout.clone(), error: None }
            } else if !o.stderr.as_str().is_empty() {
                CommandResult {
                    success: false,
                    output: o.stdout.clone(),
                    error: Some(o.stderr.clone()),
                }
            } else {
                CommandResult {
                    success: false,
                    output: o.stdout.clone(),
                    error: Some(exit_message_text(o.exit_code)),
                }
            }
        },
    }
}

/// The command that removes every package, installed or provisioned for new
/// users, whose name contains `pattern`. Its outcome maps to a result like
/// that of any other command, through `outcome_result`.
pub open spec fn removal_command_text(pattern: Seq<char>) -> Seq<char> {
    "Get-AppxPackage *"@ + pattern + "* | Remove-AppxPackage -AllUsers; Get-AppxProvisionedPackage -Online | Where-Object { $_.PackageName -like '*"@
        + pattern + "*' } | Remove-AppxProvisionedPackage -Online -AllUsers"@
}

/// Builds the removal command for an application's package pattern.
pub fn removal_command(pattern: &str) -> (r: String)
    ensures
        r@ == removal_command_text(pattern@),
{
    let mut s = String::from_str("Get-AppxPackage *");
    s.append(pattern);
    s.append(
        "* | Remove-AppxPackage -AllUsers; Get-AppxProvisionedPackage -Online | Where-Object { $_.PackageName -like '*",
    );
    s.append(pattern);
    s.append("*' } | Remove-AppxProvisionedPackage -Online -AllUsers");
    s
}

} // verus!
