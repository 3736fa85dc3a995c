use vstd::prelude::*;

use crate::config::{Library, library_rank};
use crate::error::BuildError;
use crate::locator::{install_prefix, spec_install_prefix};
use crate::paths::{join, join_strings, join_words, path_join};
use crate::toolchain::strs;

verus! {

/// The fixed dependency table: the libraries whose headers and libraries a
/// library needs, in the order their flags are passed.
pub open spec fn spec_deps(l: Library) -> Seq<Library> {
    match l {
        Library::Libopusenc => seq![Library::Libopus],
        Library::Libopusfile => seq![Library::Libopus, Library::Libogg],
        _ => Seq::empty(),
    }
}

/// Every dependency comes earlier in build order than its dependent.
pub proof fn lemma_dependencies_precede(l: Library, i: int)
    requires
        0 <= i < spec_deps(l).len(),
    ensures
        library_rank(spec_deps(l)[i]) < library_rank(l),
{
}

pub fn dependencies_of(library: Library) -> (r: Vec<Library>)
    ensures
        r@ == spec_deps(library),
{
    let mut v: Vec<Library> = Vec::new();
    match library {
        Library::Libopusenc => {
            v.push(Library::Libopus);
        },
        Library::Libopusfile => {
            v.push(Library::Libopus);
            v.push(Library::Libogg);
        },
        _ => {},
    }
    proof {
        assert(v@ =~= spec_deps(library));
    }
    v
}

/// `lib` directory of each dependency's install prefix, in table order.
pub open spec fn spec_dep_lib_dirs(
    root: Seq<char>,
    platform_dir: Seq<char>,
    arch_dir: Seq<char>,
    deps: Seq<Library>,
) -> Seq<Seq<char>>
    decreases deps.len(),
{
    if deps.len() == 0 {
        Seq::empty()
    } else {
        spec_dep_lib_dirs(root, platform_dir, arch_dir, deps.drop_last()).push(
            path_join(spec_install_prefix(root, platform_dir, arch_dir, deps.last()), "lib"@),
        )
    }
}

/// The directories that must be resolved (made absolute, links followed)
/// before a library's flags can be computed.
pub fn dependency_lib_dirs(
    build_dir: &str,
    platform_dir: &str,
    arch_dir: &str,
    library: Library,
) -> (r: Vec<String>)
    ensures
        strs(r@) == spec_dep_lib_dirs(build_dir@, platform_dir@, arch_dir@, spec_deps(library)),
{
    let deps = dependencies_of(library);
    let mut out: Vec<String> = Vec::new();
    let mut i: usize = 0;
    while i < deps.len()
        invariant
            i <= deps@.len(),
            deps@ == spec_deps(library),
            out@.len() == i,
            strs(out@) == spec_dep_lib_dirs(
                build_dir@,
                platform_dir@,
                arch_dir@,
                deps@.subrange(0, i as int),
            ),
        decreases deps.len() - i,
    {
        let ghost old_out = out@;
        let prefix = install_prefix(build_dir, platform_dir, arch_dir, deps[i]);
        out.push(join(prefix.as_str(), "lib"));
        proof {
            assert(deps@.subrange(0, i as int + 1).drop_last() =~= deps@.subrange(0, i as int));
            assert(strs(out@) =~= strs(old_out).push(out@[i as int]@));
        }
        i = i + 1;
    }
    proof {
        assert(deps@.subrange(0, deps@.len() as int) =~= deps@);
    }
    out
}

/// The resolved directory handed over for position `i`; a missing position
/// counts as unresolved.
pub open spec fn resolved_at(resolved: Seq<Option<String>>, i: int) -> Option<Seq<char>> {
    if 0 <= i < resolved.len() {
        match resolved[i] {
            Some(s) => Some(s@),
            None => None,
        }
    } else {
        None
    }
}

/// First position below `n` whose directory is unresolved.
pub open spec fn first_missing(resolved: Seq<Option<String>>, n: nat) -> Option<nat>
    decreases n,
{
    if n == 0 {
        None
    } else {
        match first_missing(resolved, (n - 1) as nat) {
            Some(i) => Some(i),
            None => if resolved_at(resolved, n - 1).is_none() {
                Some((n - 1) as nat)
            } else {
                None
            },
        }
    }
}

proof fn lemma_first_missing_stable(resolved: Seq<Option<String>>, i: nat, n: nat)
    requires
        i <= n,
        first_missing(resolved, i).is_some(),
    ensures
        first_missing(resolved, n) == first_missing(resolved, i),
    decreases n - i,
{
    if i < n {
        lemma_first_missing_stable(resolved, i, (n - 1) as nat);
    }
}

/// `-I<prefix>/include` for each dependency, each after a space.
pub open spec fn include_flags(
    root: Seq<char>,
    platform_dir: Seq<char>,
    arch_dir: Seq<char>,
    deps: Seq<Library>,
) -> Seq<char>
    decreases deps.len(),
{
    if deps.len() == 0 {
        Seq::empty()
    } else {
        include_flags(root, platform_dir, arch_dir, deps.drop_last()) + " -I"@ + path_join(
            spec_install_prefix(root, platform_dir, arch_dir, deps.last()),
            "include"@,
        )
    }
}

/// `-L<dir>` for each directory, each after a space.
pub open spec fn link_flags(dirs: Seq<Seq<char>>) -> Seq<char>
    decreases dirs.len(),
{
    if dirs.len() == 0 {
        Seq::empty()
    } else {
        link_flags(dirs.drop_last()) + " -L"@ + dirs.last()
    }
}

/// The resolved directories of the first `n` dependencies.
pub open spec fn resolved_dirs(resolved: Seq<Option<String>>, n: nat) -> Seq<Seq<char>> {
    Seq::new(n, |i: int| resolved_at(resolved, i).unwrap())
}

/// The search-path flags of a library's dependencies.
pub struct DependencyFlags {
    /// Include flags, for `CPPFLAGS`.
    pub cppflags: String,
    /// Library search flags, appended to `LDFLAGS`.
    pub ldflags: String,
    /// The dependencies' resolved `lib` directories.
    pub search_paths: Vec<String>,
    /// `<dir>/pkgconfig` of each search path, separated by `:`.
    pub pkg_config_path: String,
}

pub struct DependencyFlagsView {
    pub cppflags: Seq<char>,
    pub ldflags: Seq<char>,
    pub search_paths: Seq<Seq<char>>,
    pub pkg_config_path: Seq<char>,
}

impl View for DependencyFlags {
    type V = DependencyFlagsView;

    open spec fn view(&self) -> DependencyFlagsView {
        DependencyFlagsView {
            cppflags: self.cppflags@,
            ldflags: self.ldflags@,
            search_paths: strs(self.search_paths@),
            pkg_config_path: self.pkg_config_path@,
        }
    }
}

pub open spec fn pkg_config_dirs(dirs: Seq<Seq<char>>) -> Seq<Seq<char>>
    decreases dirs.len(),
{
    if dirs.len() == 0 {
        Seq::empty()
    } else {
        pkg_config_dirs(dirs.drop_last()).push(path_join(dirs.last(), "pkgconfig"@))
    }
}

/// A library's dependency flags, given the resolved `lib` directory of each
/// dependency (`None` where it does not exist): the first unresolved
/// dependency is reported as not built.
pub open spec fn spec_build_flags(
    root: Seq<char>,
    platform_dir: Seq<char>,
    arch_dir: Seq<char>,
    l: Library,
    resolved: Seq<Option<String>>,
) -> Result<DependencyFlagsView, BuildError> {
    let deps = spec_deps(l);
    match first_missing(resolved, deps.len()) {
        Some(i) => Err(BuildError::DependencyNotBuilt(deps[i as int])),
        None => {
            let dirs = resolved_dirs(resolved, deps.len());
            Ok(
                DependencyFlagsView {
                    cppflags: include_flags(root, platform_dir, arch_dir, deps),
                    ldflags: link_flags(dirs),
                    search_paths: dirs,
                    pkg_config_path: join_words(pkg_config_dirs(dirs), ":"@),
                },
            )
        },
    }
}

pub open spec fn flags_result(r: Result<DependencyFlags, BuildError>) -> Result<
    DependencyFlagsView,
    BuildError,
> {
    match r {
        Ok(f) => Ok(f@),
        Err(e) => Err(e),
    }
}

/// Computes the include and library search flags of `library` for one
/// (platform, architecture) directory pair; `resolved[i]` is the absolute,
/// link-free `lib` directory of the i-th dependency, or `None` when that
/// directory does not exist.
pub fn build_flags(
    build_dir: &str,
    platform_dir: &str,
    arch_dir: &str,
    library: Library,
    resolved: &Vec<Option<String>>,
) -> (r: Result<DependencyFlags, BuildError>)
    ensures
        flags_result(r) == spec_build_flags(
            build_dir@,
            platform_dir@,
            arch_dir@,
            library,
            resolved@,
        ),
{
    let deps = dependencies_of(library);
    let mut cppflags = String::new();
    let mut ldflags = String::new();
    let mut search_paths: Vec<String> = Vec::new();
    let mut pkg_dirs: Vec<String> = Vec::new();
    let mut i: usize = 0;
    while i < deps.len()
        invariant
            i <= deps@.len(),
            deps@ == spec_deps(library),
            first_missing(resolved@, i as nat).is_none(),
            cppflags@ == include_flags(
                build_dir@,
                platform_dir@,
                arch_dir@,
                deps@.subrange(0, i as int),
            ),
            strs(search_paths@) =~= resolved_dirs(resolved@, i as nat),
            ldflags@ == link_flags(resolved_dirs(resolved@, i as nat)),
            pkg_dirs@.len() == i,
            strs(pkg_dirs@) == pkg_config_dirs(resolved_dirs(resolved@, i as nat)),
        decreases deps.len() - i,
    {
        let found: Option<&String> = if i < resolved.len() {
            match &resolved[i] {
                Some(d) => Some(d),
                None => None,
            }
        } else {
            None
        };
        match found {
            None => {
                proof {
                    assert(first_missing(resolved@, (i + 1) as nat) == Some(i as nat));
                    lemma_first_missing_stable(resolved@, (i + 1) as nat, deps@.len());
                }
                return Err(BuildError::DependencyNotBuilt(deps[i]));
            },
            Some(dir) => {
                let ghost prev_deps = deps@.subrange(0, i as int);
                let ghost next_deps = deps@.subrange(0, i as int + 1);
                let ghost next_dirs = resolved_dirs(resolved@, (i + 1) as nat);
                proof {
                    assert(next_deps.drop_last() =~= prev_deps);
                    assert(next_dirs.drop_last() =~= resolved_dirs(resolved@, i as nat));
                    assert(resolved_at(resolved@, i as int) == Some(dir@));
                }
                let prefix = install_prefix(build_dir, platform_dir, arch_dir, deps[i]);
                cppflags = cppflags.concat(" -I").concat(join(prefix.as_str(), "include").as_str());
                ldflags = ldflags.concat(" -L").concat(dir.as_str());
                let ghost old_pkg = pkg_dirs@;
                let ghost old_paths = search_paths@;
                search_paths.push(dir.clone());
                pkg_dirs.push(join(dir.as_str(), "pkgconfig"));
                proof {
                    assert(strs(pkg_dirs@) =~= strs(old_pkg).push(pkg_dirs@[i as int]@));
                    assert forall|j: int| 0 <= j < i implies strs(search_paths@)[j]
                        == next_dirs[j] by {
                        assert(strs(old_paths)[j] == resolved_dirs(resolved@, i as nat)[j]);
                    }
                }
                i = i + 1;
            },
        }
    }
    proof {
        assert(deps@.subrange(0, deps@.len() as int) =~= deps@);
    }
    let pkg_config_path = join_strings(&pkg_dirs, ":");
    proof {
        assert(pkg_dirs@.map_values(|w: String| w@) =~= strs(pkg_dirs@));
    }
    Ok(DependencyFlags { cppflags, ldflags, search_paths, pkg_config_path })
}

} // verus!
