//! Choosing a command from the argument list.
//!
//! The flags are mutually exclusive and the first match wins, in the
//! order: run until a time, run for a duration, run indefinitely, help,
//! version. A run flag takes its argument from the position right after
//! its first occurrence; a run flag that ends the argument list is
//! missing its argument. Anything else is invalid. Printing usage,
//! version and error text is the unverified shell's work.

use vstd::prelude::*;
use vstd::string::StringExecFns;

verus! {

/// What the argument list asks for.
pub enum Command {
    /// Run until the time of day written in `arg`.
    RunUntilTime { arg: String },
    /// Run for the duration written in `arg`.
    RunForDuration { arg: String },
    /// Run until cancelled.
    RunIndefinitely,
    /// Print usage and exit cleanly.
    ShowHelp,
    /// Print the version and exit cleanly.
    ShowVersion,
    /// The time flag came last, with no argument after it.
    MissingTimeArg,
    /// The duration flag came last, with no argument after it.
    MissingDurationArg,
    /// No flag matched.
    Invalid,
}

/// Whether some argument equals `f`.
pub open spec fn seq_has(args: Seq<String>, f: Seq<char>) -> bool {
    exists|i: int| 0 <= i < args.len() && args[i]@ == f
}

/// The position of the first argument that equals `f`.
pub open spec fn first_pos(args: Seq<String>, f: Seq<char>) -> int
    decreases args.len(),
{
    if args.len() == 0 {
        0
    } else if args[0]@ == f {
        0
    } else {
        1 + first_pos(args.skip(1), f)
    }
}

/// Where some argument equals `f`, the first position holds it and
/// nothing before it does.
pub proof fn lemma_first_pos(args: Seq<String>, f: Seq<char>)
    requires
        seq_has(args, f),
    ensures
        0 <= first_pos(args, f) < args.len(),
        args[first_pos(args, f)]@ == f,
        forall|j: int| 0 <= j < first_pos(args, f) ==> args[j]@ != f,
    decreases args.len(),
{
    if args.len() > 0 && args[0]@ != f {
        let rest = args.skip(1);
        assert(seq_has(rest, f)) by {
            let i = choose|i: int| 0 <= i < args.len() && args[i]@ == f;
            assert(rest[i - 1]@ == f);
        }
        lemma_first_pos(rest, f);
        assert(forall|j: int| 0 <= j < first_pos(rest, f) ==> rest[j]@ != f);
        assert forall|j: int| 0 <= j < first_pos(args, f) implies args[j]@ != f by {
            if j > 0 {
                assert(rest[j - 1]@ == args[j]@);
            }
        }
    }
}

/// The first position of `f` among the arguments, if any equals it.
fn find_flag(args: &Vec<String>, f: &str) -> (r: Option<usize>)
    ensures
        (r is Some) == seq_has(args@.map_values(|a: String| a), f@),
        r matches Some(i) ==> i < args@.len() && args@[i as int]@ == f@ && i == first_pos(
            args@.map_values(|a: String| a),
            f@,
        ),
{
    let flag = String::from_str(f);
    let ghost view = args@.map_values(|a: String| a);
    let mut i: usize = 0;
    while i < args.len()
        invariant
            i <= args@.len(),
            flag@ == f@,
            view == args@.map_values(|a: String| a),
            forall|j: int| 0 <= j < i ==> args@[j]@ != f@,
        decreases args@.len() - i,
    {
        if args[i].eq(&flag) {
            proof {
                assert(view[i as int]@ == f@);
                lemma_first_pos(view, f@);
            }
            return Some(i);
        }
        i = i + 1;
    }
    proof {
        assert(forall|j: int| 0 <= j < view.len() ==> view[j]@ != f@);
    }
    None
}

/// Picks the command the arguments ask for: first match wins, in the
/// order time, duration, indefinite, help, version; a run flag's
/// argument is the element after its first occurrence.
pub fn select_command(args: &Vec<String>) -> (r: Command)
    ensures
        ({
            let a = args@.map_values(|x: String| x);
            &&& seq_has(a, "-t"@) ==> (if first_pos(a, "-t"@) + 1 < a.len() {
                r matches Command::RunUntilTime { arg } && arg@ == a[first_pos(a, "-t"@) + 1]@
            } else {
                r is MissingTimeArg
            })
            &&& !seq_has(a, "-t"@) && seq_has(a, "-d"@) ==> (if first_pos(a, "-d"@) + 1 < a.len() {
                r matches Command::RunForDuration { arg } && arg@ == a[first_pos(a, "-d"@) + 1]@
            } else {
                r is MissingDurationArg
            })
            &&& !seq_has(a, "-t"@) && !seq_has(a, "-d"@) && seq_has(a, "-i"@) ==> r
                is RunIndefinitely
            &&& !seq_has(a, "-t"@) && !seq_has(a, "-d"@) && !seq_has(a, "-i"@) && seq_has(a, "-h"@)
                ==> r is ShowHelp
            &&& !seq_has(a, "-t"@) && !seq_has(a, "-d"@) && !seq_has(a, "-i"@) && !seq_has(a, "-h"@)
                && seq_has(a, "-v"@) ==> r is ShowVersion
            &&& !seq_has(a, "-t"@) && !seq_has(a, "-d"@) && !seq_has(a, "-i"@) && !seq_has(a, "-h"@)
                && !seq_has(a, "-v"@) ==> r is Invalid
        }),
{
    let n = args.len();
    if let Some(i) = find_flag(args, "-t") {
        if n - i > 1 {
            Command::RunUntilTime { arg: args[i + 1].clone() }
        } else {
            Command::MissingTimeArg
        }
    } else if let Some(i) = find_flag(args, "-d") {
        if n - i > 1 {
            Command::RunForDuration { arg: args[i + 1].clone() }
        } else {
            Command::MissingDurationArg
        }
    } else if let Some(_i) = find_flag(args, "-i") {
        Command::RunIndefinitely
    } else if let Some(_i) = find_flag(args, "-h") {
        Command::ShowHelp
    } else if let Some(_i) = find_flag(args, "-v") {
        Command::ShowVersion
    } else {
        Command::Invalid
    }
}

/// The exit code owed once a command is handled and any run it starts
/// completes normally: zero for the run modes, help and version;
/// nonzero for a run flag missing its argument or for an argument no
/// flag matches.
pub open spec fn spec_exit_code(cmd: &Command) -> int {
    match *cmd {
        Command::RunUntilTime { .. } => 0,
        Command::RunForDuration { .. } => 0,
        Command::RunIndefinitely => 0,
        Command::ShowHelp => 0,
        Command::ShowVersion => 0,
        Command::MissingTimeArg => 1,
        Command::MissingDurationArg => 1,
        Command::Invalid => 1,
    }
}

pub fn command_exit_code(cmd: &Command) -> (r: i32)
    ensures
        r == spec_exit_code(cmd),
{
    match cmd {
        Command::RunUntilTime { .. } => 0,
        Command::RunForDuration { .. } => 0,
        Command::RunIndefinitely => 0,
        Command::ShowHelp => 0,
        Command::ShowVersion => 0,
        Command::MissingTimeArg => 1,
        Command::MissingDurationArg => 1,
        Command::Invalid => 1,
    }
}

/// The line shown when the time argument does not parse.
pub fn time_input_error_message() -> (r: String)
    ensures
        r@ == "Could not parse time input. Example: 10:00:am"@,
{
    String::from_str("Could not parse time input. Example: 10:00:am")
}

/// The line shown when the duration argument does not parse.
pub fn duration_input_error_message() -> (r: String)
    ensures
        r@ == "Could not parse duration input. Example: 1:15:30"@,
{
    String::from_str("Could not parse duration input. Example: 1:15:30")
}

} // verus!
