use vstd::prelude::*;

use crate::cli::CleanArgs;

verus! {

/// What a `clean` run does.
#[derive(Debug, Clone, Copy)]
pub struct CleanOptions {
    pub verbose: bool,
    /// Remove the whole build directory.
    pub clean_build_dir: bool,
    /// Reset and clean every source checkout.
    pub clean_repos: bool,
}

impl CleanOptions {
    /// The options of `clean` with the given flags: `--build` alone touches
    /// only the build directory, `--repo` alone only the checkouts, and
    /// neither flag means both.
    pub fn new(verbose: bool, args: &CleanArgs) -> (r: CleanOptions)
        ensures
            r.verbose == verbose,
            r.clean_build_dir == (args.build || !args.repo),
            r.clean_repos == (args.repo || !args.build),
    {
        let (clean_build_dir, clean_repos) = args.normalized();
        CleanOptions { verbose, clean_build_dir, clean_repos }
    }
}

} // verus!
