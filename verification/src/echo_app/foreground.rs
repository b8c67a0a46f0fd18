//! What the foreground does with its arguments, and how it exits.

use vstd::prelude::*;

use crate::echo_app::args::{ArgError, Args, Mode};

verus! {

/// What the foreground writes where it spawns nothing.
pub fn foreground_record() -> (text: String)
    ensures
        text@ == "foreground-ran"@,
{
    "foreground-ran".to_string()
}

/// What the foreground does with its arguments.
#[derive(Debug)]
pub enum ForegroundPlan {
    /// Do this, and record it in the outfile.
    Run { mode: Mode, outfile: String },
    /// The arguments name no outfile, without which there is nothing to do.
    NoOutfile,
    /// Report `message` and exit with `code`.
    Refuse { code: u8, message: String },
}

/// Decide what to do with the arguments.
pub fn run_foreground(parsed: Result<Args, ArgError>) -> (plan: ForegroundPlan)
    ensures
        match parsed {
            Ok(args) => plan == match args.outfile {
                Some(outfile) => ForegroundPlan::Run { mode: args.mode, outfile },
                None => ForegroundPlan::NoOutfile,
            },
            Err(err) => plan matches ForegroundPlan::Refuse { code, message } && code == 2
                && message@ == err.text(),
        },
{
    match parsed {
        Ok(args) => match args.outfile {
            Some(outfile) => ForegroundPlan::Run { mode: args.mode, outfile },
            None => ForegroundPlan::NoOutfile,
        },
        Err(err) => ForegroundPlan::Refuse { code: 2, message: err.message() },
    }
}

/// The exit code for how the work went: 0 for success and 1 for failure.
pub fn foreground_exit_code(result: &Result<(), String>) -> (code: u8)
    ensures
        code == (if result is Ok {
            0u8
        } else {
            1u8
        }),
{
    match result {
        Ok(()) => 0,
        Err(_) => 1,
    }
}

/// The foreground does what its arguments say wherever they are accepted and name
/// an outfile, and refuses with the error's own words and a code of its own
/// wherever they are not accepted.
pub proof fn law_foreground_follows_its_arguments(
    parsed: Result<Args, ArgError>,
    plan: ForegroundPlan,
    result: &Result<(), String>,
    code: u8,
)
    requires
        call_ensures(run_foreground, (parsed,), plan),
        call_ensures(foreground_exit_code, (result,), code),
    ensures
        parsed matches Ok(args) ==> (args.outfile matches Some(path) ==> (plan matches
            ForegroundPlan::Run { mode, outfile } && mode == args.mode && outfile == path)),
        parsed matches Ok(args) ==> (args.outfile is None ==> plan is NoOutfile),
        parsed matches Err(err) ==> (plan matches ForegroundPlan::Refuse { code: c, message } && c == 2
            && message@ == err.text()),
        code == 0 <==> *result is Ok,
        code <= 1,
{
}

} // verus!
