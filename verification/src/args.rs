//! Command-line options of the application: the one recognised form asks for
//! a quiet start (no main window).

use vstd::prelude::*;

verus! {

/// Options recognised on the command line.
pub struct CliOptions {
    pub quiet_mode: bool,
}

/// Quiet mode is requested by exactly the invocation `<exe> -s quiet`.
pub open spec fn quiet_requested(args: Seq<Seq<char>>) -> bool {
    args.len() == 3 && args[1] == "-s"@ && args[2] == "quiet"@
}

/// Parse the command-line arguments (the first is the executable itself).
pub fn parse_args(args: &Vec<String>) -> (r: CliOptions)
    ensures
        r.quiet_mode == quiet_requested(args.deep_view()),
{
    let quiet = args.len() == 3 && crate::strutil::str_eq(args[1].as_str(), "-s")
        && crate::strutil::str_eq(args[2].as_str(), "quiet");
    proof {
        if args@.len() == 3 {
            assert(args.deep_view()[1] == args@[1]@);
            assert(args.deep_view()[2] == args@[2]@);
        }
    }
    CliOptions { quiet_mode: quiet }
}

/// Whether a quiet start was requested.
pub fn is_quiet_mode(opts: &CliOptions) -> (r: bool)
    ensures
        r == opts.quiet_mode,
{
    opts.quiet_mode
}

} // verus!
