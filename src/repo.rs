use vstd::prelude::*;

use crate::config::{Config, Library, version_spec};
use crate::driver::{CommandLine, CommandView};
use crate::error::BuildError;
use crate::paths::{join, path_join};
use crate::toolchain::{append_strings, copy_strings, strs};

verus! {

/// A library's source repository: where it comes from, where it is checked
/// out, and the tag to build.
pub struct Repo {
    pub name: String,
    pub url: String,
    pub local_path: String,
    pub version: String,
}

/// Clone URL of a repository: `<prefix><name>.git`.
pub open spec fn spec_repo_url(prefix: Seq<char>, name: Seq<char>) -> Seq<char> {
    prefix + name + ".git"@
}

/// The checkout of `name`: under the first search path where it exists,
/// else under `repos`.
pub open spec fn spec_locate(search: Seq<String>, name: Seq<char>, present: Seq<bool>, n: nat) -> Seq<
    char,
>
    decreases n,
{
    if n == 0 {
        path_join("repos"@, name)
    } else {
        let i = (search.len() - n) as int;
        if 0 <= i < present.len() && present[i] {
            path_join(search[i]@, name)
        } else {
            spec_locate(search, name, present, (n - 1) as nat)
        }
    }
}

/// Where repositories are searched: the configured paths, then the given
/// directories (the current directory and its ancestors).
pub fn search_paths(config: &Config, cwd_chain: &Vec<String>) -> (r: Vec<String>)
    ensures
        strs(r@) == strs(config.paths.repo_path@) + strs(cwd_chain@),
{
    let mut v = copy_strings(&config.paths.repo_path);
    append_strings(&mut v, cwd_chain);
    v
}

/// The candidate checkouts of `name`, one per search path.
pub fn repo_candidates(search: &Vec<String>, name: &str) -> (r: Vec<String>)
    ensures
        r@.len() == search@.len(),
        forall|i: int| 0 <= i < search@.len() ==> #[trigger] r@[i]@ == path_join(search@[i]@, name@),
{
    let mut out: Vec<String> = Vec::new();
    let mut i: usize = 0;
    while i < search.len()
        invariant
            i <= search@.len(),
            out@.len() == i,
            forall|j: int| 0 <= j < i ==> #[trigger] out@[j]@ == path_join(search@[j]@, name@),
        decreases search.len() - i,
    {
        out.push(join(search[i].as_str(), name));
        i = i + 1;
    }
    out
}

/// Picks the checkout of `name`; `present[i]` tells whether the i-th
/// candidate of `repo_candidates` exists.
pub fn locate_repo(search: &Vec<String>, name: &str, present: &Vec<bool>) -> (r: String)
    ensures
        r@ == spec_locate(search@, name@, present@, search@.len()),
{
    let mut i: usize = 0;
    while i < search.len()
        invariant
            i <= search@.len(),
            spec_locate(search@, name@, present@, search@.len()) == spec_locate(
                search@,
                name@,
                present@,
                (search@.len() - i) as nat,
            ),
        decreases search.len() - i,
    {
        if i < present.len() && present[i] {
            return join(search[i].as_str(), name);
        }
        i = i + 1;
    }
    join("repos", name)
}

/// The repository of a library, or why it has none.
pub open spec fn spec_repo(
    c: &Config,
    l: Library,
    search: Seq<String>,
    present: Seq<bool>,
) -> Result<(Seq<char>, Seq<char>, Seq<char>, Seq<char>), BuildError> {
    match version_spec(c, l) {
        Err(e) => Err(e),
        Ok(v) => Ok(
            (
                l.spec_repo_name(),
                spec_repo_url(c.general.repo_prefix@, l.spec_repo_name()),
                spec_locate(search, l.spec_repo_name(), present, search.len()),
                v,
            ),
        ),
    }
}

impl Repo {
    pub open spec fn spec_fields(&self) -> (Seq<char>, Seq<char>, Seq<char>, Seq<char>) {
        (self.name@, self.url@, self.local_path@, self.version@)
    }

    /// The repository of `library`; `present` as for `locate_repo`.
    pub fn for_library(
        config: &Config,
        library: Library,
        search: &Vec<String>,
        present: &Vec<bool>,
    ) -> (r: Result<Repo, BuildError>)
        ensures
            match r {
                Ok(repo) => spec_repo(config, library, search@, present@) == Ok::<
                    (Seq<char>, Seq<char>, Seq<char>, Seq<char>),
                    BuildError,
                >(repo.spec_fields()),
                Err(e) => spec_repo(config, library, search@, present@) == Err::<
                    (Seq<char>, Seq<char>, Seq<char>, Seq<char>),
                    BuildError,
                >(e),
            },
    {
        let version = config.get_library_version(&library)?;
        let name = library.repo_name();
        Ok(
            Repo {
                name: name.to_owned(),
                url: config.general.repo_prefix.clone().concat(name).concat(".git"),
                local_path: locate_repo(search, name, present),
                version: version.to_owned(),
            },
        )
    }

    /// The commands that make the checkout exist at the configured tag:
    /// a clone when `present` is false, then a checkout of the tag.
    pub fn ensure_commands(&self, present: bool) -> (r: Vec<CommandLine>)
        ensures
            r@.map_values(|c: CommandLine| c@) == (if present {
                Seq::<CommandView>::empty()
            } else {
                seq![
                    CommandView {
                        program: "git"@,
                        args: seq!["clone"@, self.url@, self.local_path@],
                        env: Seq::empty(),
                        dir: Seq::empty(),
                    },
                ]
            }) + seq![
                CommandView {
                    program: "git"@,
                    args: seq!["checkout"@, self.version@],
                    env: Seq::empty(),
                    dir: self.local_path@,
                },
            ],
    {
        let mut out: Vec<CommandLine> = Vec::new();
        if !present {
            let mut args: Vec<String> = Vec::new();
            args.push("clone".to_owned());
            args.push(self.url.clone());
            args.push(self.local_path.clone());
            let c = CommandLine {
                program: "git".to_owned(),
                args,
                env: Vec::new(),
                dir: String::new(),
            };
            proof {
                assert(c@.args =~= seq!["clone"@, self.url@, self.local_path@]);
                assert(c@.env =~= Seq::<(Seq<char>, Seq<char>)>::empty());
            }
            out.push(c);
        }
        let mut args: Vec<String> = Vec::new();
        args.push("checkout".to_owned());
        args.push(self.version.clone());
        let c = CommandLine {
            program: "git".to_owned(),
            args,
            env: Vec::new(),
            dir: self.local_path.clone(),
        };
        proof {
            assert(c@.args =~= seq!["checkout"@, self.version@]);
            assert(c@.env =~= Seq::<(Seq<char>, Seq<char>)>::empty());
        }
        let ghost before = out@;
        out.push(c);
        proof {
            assert(out@.map_values(|c: CommandLine| c@) =~= before.map_values(
                |c: CommandLine| c@,
            ).push(c@));
        }
        out
    }

    /// The commands that return the checkout to a pristine state.
    pub fn clean_commands(&self) -> (r: Vec<CommandLine>)
        ensures
            r@.map_values(|c: CommandLine| c@) == seq![
                CommandView {
                    program: "git"@,
                    args: seq!["reset"@, "--hard"@],
                    env: Seq::empty(),
                    dir: self.local_path@,
                },
                CommandView {
                    program: "git"@,
                    args: seq!["clean"@, "-fdx"@],
                    env: Seq::empty(),
                    dir: self.local_path@,
                },
            ],
    {
        let mut reset_args: Vec<String> = Vec::new();
        reset_args.push("reset".to_owned());
        reset_args.push("--hard".to_owned());
        let reset = CommandLine {
            program: "git".to_owned(),
            args: reset_args,
            env: Vec::new(),
            dir: self.local_path.clone(),
        };
        let mut clean_args: Vec<String> = Vec::new();
        clean_args.push("clean".to_owned());
        clean_args.push("-fdx".to_owned());
        let clean = CommandLine {
            program: "git".to_owned(),
            args: clean_args,
            env: Vec::new(),
            dir: self.local_path.clone(),
        };
        proof {
            assert(reset@.args =~= seq!["reset"@, "--hard"@]);
            assert(clean@.args =~= seq!["clean"@, "-fdx"@]);
            assert(reset@.env =~= Seq::<(Seq<char>, Seq<char>)>::empty());
            assert(clean@.env =~= Seq::<(Seq<char>, Seq<char>)>::empty());
        }
        let mut out: Vec<CommandLine> = Vec::new();
        out.push(reset);
        out.push(clean);
        proof {
            assert(out@.map_values(|c: CommandLine| c@) =~= seq![reset@, clean@]);
        }
        out
    }

    /// Whether cleaning must set aside and restore the downloaded model
    /// file, which only the opus repository holds.
    pub fn keeps_model_file(&self) -> (r: bool)
        ensures
            r == (self.name@ == "opus"@),
    {
        self.name == "opus".to_owned()
    }
}

/// The repositories of the configured libraries, in order; `present[k][i]`
/// tells whether the i-th candidate of the k-th library exists.
pub fn get_repos(
    config: &Config,
    search: &Vec<String>,
    present: &Vec<Vec<bool>>,
) -> (r: Result<Vec<Repo>, BuildError>)
    ensures
        r is Ok ==> r->Ok_0@.len() == config.general.libraries@.len() && forall|k: int|
            0 <= k < r->Ok_0@.len() ==> spec_repo(
                config,
                config.general.libraries@[k],
                search@,
                if k < present@.len() {
                    present@[k]@
                } else {
                    Seq::<bool>::empty()
                },
            ) == Ok::<(Seq<char>, Seq<char>, Seq<char>, Seq<char>), BuildError>(
                (#[trigger] r->Ok_0@[k]).spec_fields(),
            ),
        r is Err ==> exists|k: int|
            0 <= k < config.general.libraries@.len() && version_spec(
                config,
                #[trigger] config.general.libraries@[k],
            ) == Err::<Seq<char>, BuildError>(r->Err_0),
{
    let libs = &config.general.libraries;
    let empty: Vec<bool> = Vec::new();
    let mut out: Vec<Repo> = Vec::new();
    let mut k: usize = 0;
    while k < libs.len()
        invariant
            k <= libs@.len(),
            libs@ == config.general.libraries@,
            empty@.len() == 0,
            out@.len() == k,
            forall|j: int|
                0 <= j < k ==> spec_repo(
                    config,
                    libs@[j],
                    search@,
                    if j < present@.len() {
                        present@[j]@
                    } else {
                        Seq::<bool>::empty()
                    },
                ) == Ok::<(Seq<char>, Seq<char>, Seq<char>, Seq<char>), BuildError>(
                    (#[trigger] out@[j]).spec_fields(),
                ),
        decreases libs.len() - k,
    {
        let flags = if k < present.len() {
            &present[k]
        } else {
            &empty
        };
        proof {
            assert(empty@ =~= Seq::<bool>::empty());
        }
        match Repo::for_library(config, libs[k], search, flags) {
            Ok(repo) => {
                out.push(repo);
            },
            Err(e) => {
                proof {
                    assert(version_spec(config, libs@[k as int]) == Err::<Seq<char>, BuildError>(
                        e,
                    ));
                }
                return Err(e);
            },
        }
        k = k + 1;
    }
    Ok(out)
}

} // verus!
