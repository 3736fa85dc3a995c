use vstd::prelude::*;

verus! {

/// Command line of the tool.
pub struct Cli {
    /// Stream subprocess output instead of capturing it.
    pub verbose: bool,
    pub command: Option<Commands>,
}

/// The subcommands.
pub enum Commands {
    Build(BuildArgs),
    Clean(CleanArgs),
}

/// Arguments of `build`.
#[derive(Debug, Clone, Copy)]
pub struct BuildArgs {
    /// Rebuild every cell, ignoring cached libraries.
    pub force: bool,
}

/// Arguments of `clean`.
#[derive(Debug, Clone, Copy)]
pub struct CleanArgs {
    /// Remove the build directory.
    pub build: bool,
    /// Reset the source checkouts.
    pub repo: bool,
}

impl CleanArgs {
    /// `(clean build directory, clean checkouts)`: with neither flag given,
    /// both.
    pub fn normalized(&self) -> (r: (bool, bool))
        ensures
            r == if !self.build && !self.repo {
                (true, true)
            } else {
                (self.build, self.repo)
            },
    {
        if !self.build && !self.repo {
            (true, true)
        } else {
            (self.build, self.repo)
        }
    }
}

} // verus!
