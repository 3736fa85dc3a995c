use vstd::prelude::*;

use crate::error::BuildError;
use crate::paths::{decimal, decimal_string, join_strings, join_words};
use crate::toolchain::{copy_pairs, copy_strings, str_pairs, strs};

verus! {

/// A subprocess to run: program, arguments, extra environment and working
/// directory.
pub struct CommandLine {
    pub program: String,
    pub args: Vec<String>,
    pub env: Vec<(String, String)>,
    pub dir: String,
}

pub struct CommandView {
    pub program: Seq<char>,
    pub args: Seq<Seq<char>>,
    pub env: Seq<(Seq<char>, Seq<char>)>,
    pub dir: Seq<char>,
}

impl View for CommandLine {
    type V = CommandView;

    open spec fn view(&self) -> CommandView {
        CommandView {
            program: self.program@,
            args: strs(self.args@),
            env: str_pairs(self.env@),
            dir: self.dir@,
        }
    }
}

impl CommandLine {
    /// The program and its arguments, separated by spaces, for messages.
    pub fn describe(&self) -> (r: String)
        ensures
            r@ == self.program@ + " "@ + join_words(strs(self.args@), " "@),
    {
        let args = join_strings(&self.args, " ");
        proof {
            assert(self.args@.map_values(|w: String| w@) =~= strs(self.args@));
        }
        self.program.clone().concat(" ").concat(args.as_str())
    }
}

/// The stages of the autotools protocol for one build cell, in order.
#[derive(Debug, Clone, Copy, PartialEq, Eq, Structural)]
pub enum Stage {
    AutogenIfPresent,
    CleanBefore,
    Configure,
    Make,
    MakeInstall,
    CleanAfter,
}

/// Where a cell's autotools run stands.
#[derive(Debug, Clone, Copy, PartialEq, Eq, Structural)]
pub enum DriverState {
    Idle,
    Running(Stage),
    Done,
    Failed(Stage),
}

/// The stage after `s`, if any.
pub open spec fn spec_next_stage(s: Stage) -> Option<Stage> {
    match s {
        Stage::AutogenIfPresent => Some(Stage::CleanBefore),
        Stage::CleanBefore => Some(Stage::Configure),
        Stage::Configure => Some(Stage::Make),
        Stage::Make => Some(Stage::MakeInstall),
        Stage::MakeInstall => Some(Stage::CleanAfter),
        Stage::CleanAfter => None,
    }
}

/// Cleaning is a convenience: its failure does not stop the cell.
pub open spec fn spec_best_effort(s: Stage) -> bool {
    s is CleanBefore || s is CleanAfter
}

/// One transition: `succeeded` reports how the current stage's command
/// ended (a skipped stage counts as succeeded).
pub open spec fn spec_advance(state: DriverState, succeeded: bool) -> DriverState {
    match state {
        DriverState::Idle => DriverState::Running(Stage::AutogenIfPresent),
        DriverState::Running(s) => if !succeeded && !spec_best_effort(s) {
            DriverState::Failed(s)
        } else {
            match spec_next_stage(s) {
                Some(n) => DriverState::Running(n),
                None => DriverState::Done,
            }
        },
        DriverState::Done => DriverState::Done,
        DriverState::Failed(s) => DriverState::Failed(s),
    }
}

/// The error a failed stage reports.
pub open spec fn spec_stage_error(s: Stage) -> BuildError {
    match s {
        Stage::Make => BuildError::BuildFailed,
        Stage::MakeInstall => BuildError::InstallFailed,
        _ => BuildError::ConfigureFailed,
    }
}

pub fn advance(state: DriverState, succeeded: bool) -> (r: DriverState)
    ensures
        r == spec_advance(state, succeeded),
{
    match state {
        DriverState::Idle => DriverState::Running(Stage::AutogenIfPresent),
        DriverState::Running(s) => {
            let best_effort = matches!(s, Stage::CleanBefore | Stage::CleanAfter);
            if !succeeded && !best_effort {
                DriverState::Failed(s)
            } else {
                match s {
                    Stage::AutogenIfPresent => DriverState::Running(Stage::CleanBefore),
                    Stage::CleanBefore => DriverState::Running(Stage::Configure),
                    Stage::Configure => DriverState::Running(Stage::Make),
                    Stage::Make => DriverState::Running(Stage::MakeInstall),
                    Stage::MakeInstall => DriverState::Running(Stage::CleanAfter),
                    Stage::CleanAfter => DriverState::Done,
                }
            }
        },
        DriverState::Done => DriverState::Done,
        DriverState::Failed(s) => DriverState::Failed(s),
    }
}

/// The error of a failed run; `None` for every other state.
pub fn failure(state: DriverState) -> (r: Option<BuildError>)
    ensures
        r == match state {
            DriverState::Failed(s) => Some(spec_stage_error(s)),
            _ => None::<BuildError>,
        },
{
    match state {
        DriverState::Failed(Stage::Make) => Some(BuildError::BuildFailed),
        DriverState::Failed(Stage::MakeInstall) => Some(BuildError::InstallFailed),
        DriverState::Failed(_) => Some(BuildError::ConfigureFailed),
        _ => None,
    }
}

/// The state after feeding `outcomes` to a fresh driver.
pub open spec fn spec_run(outcomes: Seq<bool>) -> DriverState
    decreases outcomes.len(),
{
    if outcomes.len() == 0 {
        DriverState::Idle
    } else {
        spec_advance(spec_run(outcomes.drop_last()), outcomes.last())
    }
}

/// A failed stage ends the cell: no later outcome starts another stage.
pub proof fn lemma_failure_is_final(outcomes: Seq<bool>, k: int)
    requires
        0 <= k <= outcomes.len(),
        spec_run(outcomes.subrange(0, k)) is Failed,
    ensures
        spec_run(outcomes) == spec_run(outcomes.subrange(0, k)),
    decreases outcomes.len() - k,
{
    if k < outcomes.len() {
        assert(outcomes.subrange(0, k + 1).drop_last() =~= outcomes.subrange(0, k));
        lemma_failure_is_final(outcomes, k + 1);
    } else {
        assert(outcomes.subrange(0, k) =~= outcomes);
    }
}

/// Everything needed to run the autotools protocol for one cell.
pub struct CellPlan {
    /// The source tree, where every command runs.
    pub source_dir: String,
    /// The absolute install prefix.
    pub prefix: String,
    /// Whether the source tree has a bootstrap script.
    pub autogen_present: bool,
    /// Environment of autogen, configure, make and make install.
    pub env: Vec<(String, String)>,
    pub configure_args: Vec<String>,
    /// Parallel jobs of `make`.
    pub jobs: u32,
}

pub struct CellPlanView {
    pub source_dir: Seq<char>,
    pub prefix: Seq<char>,
    pub autogen_present: bool,
    pub env: Seq<(Seq<char>, Seq<char>)>,
    pub configure_args: Seq<Seq<char>>,
    pub jobs: u32,
}

impl View for CellPlan {
    type V = CellPlanView;

    open spec fn view(&self) -> CellPlanView {
        CellPlanView {
            source_dir: self.source_dir@,
            prefix: self.prefix@,
            autogen_present: self.autogen_present,
            env: str_pairs(self.env@),
            configure_args: strs(self.configure_args@),
            jobs: self.jobs,
        }
    }
}

/// The command of a stage; `None` when the stage has nothing to run (no
/// bootstrap script).
pub open spec fn spec_command(p: CellPlanView, s: Stage) -> Option<CommandView> {
    match s {
        Stage::AutogenIfPresent => if p.autogen_present {
            Some(
                CommandView {
                    program: "sh"@,
                    args: seq!["./autogen.sh"@],
                    env: p.env,
                    dir: p.source_dir,
                },
            )
        } else {
            None
        },
        Stage::CleanBefore | Stage::CleanAfter => Some(
            CommandView {
                program: "make"@,
                args: seq!["clean"@],
                env: Seq::empty(),
                dir: p.source_dir,
            },
        ),
        Stage::Configure => Some(
            CommandView {
                program: "./configure"@,
                args: p.configure_args,
                env: p.env,
                dir: p.source_dir,
            },
        ),
        Stage::Make => Some(
            CommandView {
                program: "make"@,
                args: seq!["-j"@ + decimal(p.jobs as nat)],
                env: p.env,
                dir: p.source_dir,
            },
        ),
        Stage::MakeInstall => Some(
            CommandView {
                program: "make"@,
                args: seq!["install"@],
                env: p.env,
                dir: p.source_dir,
            },
        ),
    }
}

pub open spec fn command_option_view(c: Option<CommandLine>) -> Option<CommandView> {
    match c {
        Some(c) => Some(c@),
        None => None,
    }
}

fn single(arg: String) -> (r: Vec<String>)
    ensures
        strs(r@) == seq![arg@],
{
    let mut v: Vec<String> = Vec::new();
    v.push(arg);
    proof {
        assert(strs(v@) =~= seq![arg@]);
    }
    v
}

impl CellPlan {
    /// The command that a stage runs.
    pub fn command_for(&self, stage: Stage) -> (r: Option<CommandLine>)
        ensures
            command_option_view(r) == spec_command(self@, stage),
    {
        let dir = self.source_dir.clone();
        match stage {
            Stage::AutogenIfPresent => {
                if self.autogen_present {
                    Some(
                        CommandLine {
                            program: "sh".to_owned(),
                            args: single("./autogen.sh".to_owned()),
                            env: copy_pairs(&self.env),
                            dir,
                        },
                    )
                } else {
                    None
                }
            },
            Stage::CleanBefore | Stage::CleanAfter => {
                let r = CommandLine {
                    program: "make".to_owned(),
                    args: single("clean".to_owned()),
                    env: Vec::new(),
                    dir,
                };
                proof {
                    assert(r@.env =~= Seq::<(Seq<char>, Seq<char>)>::empty());
                }
                Some(r)
            },
            Stage::Configure => Some(
                CommandLine {
                    program: "./configure".to_owned(),
                    args: copy_strings(&self.configure_args),
                    env: copy_pairs(&self.env),
                    dir,
                },
            ),
            Stage::Make => Some(
                CommandLine {
                    program: "make".to_owned(),
                    args: single("-j".to_owned().concat(decimal_string(self.jobs).as_str())),
                    env: copy_pairs(&self.env),
                    dir,
                },
            ),
            Stage::MakeInstall => Some(
                CommandLine {
                    program: "make".to_owned(),
                    args: single("install".to_owned()),
                    env: copy_pairs(&self.env),
                    dir,
                },
            ),
        }
    }
}

} // verus!
