use vstd::prelude::*;

use crate::config::{Arch, Config, LibType, Library, LibraryBuildOptions, Platform};
use crate::deps::{
    DependencyFlags, DependencyFlagsView, build_flags, dependency_lib_dirs, first_missing,
    resolved_at, spec_build_flags, spec_dep_lib_dirs, spec_deps,
};
use crate::driver::{CellPlan, CellPlanView};
use crate::error::BuildError;
use crate::locator::{
    arch_dir_name, install_prefix, spec_arch_dir, spec_expected_path, spec_install_prefix,
    spec_lib_file,
};
use crate::paths::{join, path_join};
use crate::platforms::android::AndroidBuilder;
use crate::platforms::{android, darwin, harmony};
use crate::platforms::darwin::{DarwinTools, tools_view};
use crate::repo::Repo;
use crate::toolchain::{
    AutotoolsToolchain, HostOs, ToolchainView, append_pairs, append_strings, copy_strings,
    env_pair, opt_str, str_pairs, strs, toolchain_result,
};

verus! {

/// Whether a platform builds an architecture at all.
pub open spec fn spec_cell_legal(p: Platform, a: Arch) -> bool {
    match p {
        Platform::Android => android::spec_abi(a).is_some(),
        Platform::Harmony => harmony::spec_arch_dir(a).is_some(),
        _ => darwin::spec_legal(p, a),
    }
}

/// What the environment reported about one cell before it is planned.
pub struct CellFacts {
    /// The operating system running the build.
    pub host_os: HostOs,
    /// What the Apple SDK locator reported (Darwin cells), `None` if it failed.
    pub darwin_tools: Option<DarwinTools>,
    /// Whether the Harmony SDK's `bin` directory exists.
    pub harmony_bin_present: bool,
    /// Whether the Harmony SDK's `sysroot` directory exists.
    pub harmony_sysroot_present: bool,
    /// Each dependency's `lib` directory made absolute with links followed,
    /// `None` where it does not exist.
    pub dependency_dirs: Vec<Option<String>>,
    /// The install prefix, created and made absolute.
    pub prefix: String,
    /// Whether the source tree has a bootstrap script.
    pub autogen_present: bool,
}

/// What must be looked up or prepared on disk before a cell can be planned.
pub struct ProbeRequest {
    /// Darwin: the SDK to ask the host SDK locator about.
    pub sdk_name: Option<String>,
    /// Harmony: the SDK's `bin` and `sysroot` directories, to test.
    pub toolchain_dirs: Option<(String, String)>,
    /// Install prefix, to create and make absolute.
    pub prefix: String,
    /// Dependencies' `lib` directories, to make absolute.
    pub dependency_lib_dirs: Vec<String>,
    /// The bootstrap script, to test for.
    pub autogen_script: String,
}

/// The toolchain of a cell, from the platform's family resolver.
pub open spec fn spec_toolchain_for(
    p: Platform,
    a: Arch,
    c: &Config,
    facts: &CellFacts,
) -> Result<ToolchainView, BuildError> {
    match p {
        Platform::Android => android::spec_toolchain(a, c, facts.host_os),
        Platform::Harmony => harmony::spec_toolchain(
            a,
            c,
            facts.harmony_bin_present,
            facts.harmony_sysroot_present,
        ),
        _ => darwin::spec_toolchain(p, a, c, tools_view(facts.darwin_tools)),
    }
}

/// ` <s>` for a present option, nothing otherwise.
pub open spec fn spec_extra(o: Option<String>) -> Seq<char> {
    match o {
        Some(s) => " "@ + s@,
        None => Seq::empty(),
    }
}

pub open spec fn spec_lib_cflags(o: Option<LibraryBuildOptions>) -> Seq<char> {
    match o {
        Some(opts) => spec_extra(opts.cflags),
        None => Seq::empty(),
    }
}

pub open spec fn spec_lib_ldflags(o: Option<LibraryBuildOptions>) -> Seq<char> {
    match o {
        Some(opts) => spec_extra(opts.ldflags),
        None => Seq::empty(),
    }
}

pub open spec fn spec_lib_configure_flags(o: Option<LibraryBuildOptions>) -> Seq<Seq<char>> {
    match o {
        Some(opts) => match opts.configure_flags {
            Some(v) => strs(v@),
            None => Seq::empty(),
        },
        None => Seq::empty(),
    }
}

/// configure flags selecting the library kind.
pub open spec fn spec_kind_flags(t: LibType) -> Seq<Seq<char>> {
    match t {
        LibType::Static => seq!["--enable-static"@, "--disable-shared"@],
        LibType::Shared => seq!["--disable-static"@, "--enable-shared"@],
    }
}

/// The environment of a cell's autotools commands.
pub open spec fn spec_cell_env(
    tc: ToolchainView,
    f: DependencyFlagsView,
    o: Option<LibraryBuildOptions>,
) -> Seq<(Seq<char>, Seq<char>)> {
    let cflags = tc.base_cflags + spec_lib_cflags(o);
    let ldflags = tc.base_ldflags + spec_lib_ldflags(o) + f.ldflags;
    let cxx = match tc.cxx {
        Some(cxx) => seq![("CXX"@, cxx), ("CXXFLAGS"@, cflags)],
        None => Seq::empty(),
    };
    let pkg = if f.search_paths.len() > 0 {
        seq![("PKG_CONFIG_PATH"@, f.pkg_config_path)]
    } else {
        Seq::empty()
    };
    seq![
        ("CC"@, tc.cc),
        ("CFLAGS"@, cflags),
        ("LDFLAGS"@, ldflags),
        ("CPPFLAGS"@, f.cppflags),
    ] + cxx + tc.extra_env + pkg
}

/// The configure arguments of a cell.
pub open spec fn spec_configure_args(
    tc: ToolchainView,
    prefix: Seq<char>,
    t: LibType,
    c: &Config,
    o: Option<LibraryBuildOptions>,
) -> Seq<Seq<char>> {
    seq!["--host="@ + tc.host, "--prefix="@ + prefix] + spec_kind_flags(t) + strs(
        c.build.configure_flags@,
    ) + spec_lib_configure_flags(o)
}

/// The plan of a cell once its toolchain and dependency flags are known.
pub open spec fn spec_cell_plan(
    tc: ToolchainView,
    f: DependencyFlagsView,
    c: &Config,
    l: Library,
    t: LibType,
    prefix: Seq<char>,
    source_dir: Seq<char>,
    autogen_present: bool,
) -> CellPlanView {
    let o = c.libraries.spec_get(l);
    CellPlanView {
        source_dir: source_dir,
        prefix: prefix,
        autogen_present: autogen_present,
        env: spec_cell_env(tc, f, o),
        configure_args: spec_configure_args(tc, prefix, t, c, o),
        jobs: c.build.make_concurrent_jobs,
    }
}

/// The plan of a cell: its toolchain first, then its dependency flags.
pub open spec fn spec_plan(
    p: Platform,
    a: Arch,
    l: Library,
    c: &Config,
    source_dir: Seq<char>,
    facts: &CellFacts,
) -> Result<CellPlanView, BuildError> {
    match spec_toolchain_for(p, a, c, facts) {
        Err(e) => Err(e),
        Ok(tc) => match spec_build_flags(
            c.paths.build_dir@,
            tc.platform_dir,
            tc.arch_dir,
            l,
            facts.dependency_dirs@,
        ) {
            Err(e) => Err(e),
            Ok(f) => Ok(
                spec_cell_plan(
                    tc,
                    f,
                    c,
                    l,
                    c.platforms.spec_lib_type(p),
                    facts.prefix@,
                    source_dir,
                    facts.autogen_present,
                ),
            ),
        },
    }
}

pub open spec fn plan_result(r: Result<CellPlan, BuildError>) -> Result<CellPlanView, BuildError> {
    match r {
        Ok(p) => Ok(p@),
        Err(e) => Err(e),
    }
}

/// `base` followed by ` <extra>` when `extra` is present.
fn with_extra(base: String, extra: &Option<String>) -> (r: String)
    ensures
        r@ == base@ + spec_extra(*extra),
{
    match extra {
        Some(e) => base.concat(" ").concat(e.as_str()),
        None => {
            proof {
                assert(base@ + spec_extra(*extra) =~= base@);
            }
            base
        },
    }
}

/// Assembles the environment and configure arguments of a cell.
pub fn cell_plan(
    tc: &AutotoolsToolchain,
    f: &DependencyFlags,
    config: &Config,
    library: Library,
    lib_type: LibType,
    prefix: &str,
    source_dir: &str,
    autogen_present: bool,
) -> (r: CellPlan)
    ensures
        r@ == spec_cell_plan(
            tc@,
            f@,
            config,
            library,
            lib_type,
            prefix@,
            source_dir@,
            autogen_present,
        ),
{
    let ghost o = config.libraries.spec_get(library);
    let pos = config.libraries.position(library);
    let mut cflags = tc.base_cflags.clone();
    let mut ldflags = tc.base_ldflags.clone();
    let mut lib_configure_flags: Vec<String> = Vec::new();
    match pos {
        Some(i) => {
            let opts = &config.libraries.entries[i].1;
            cflags = with_extra(cflags, &opts.cflags);
            ldflags = with_extra(ldflags, &opts.ldflags);
            match &opts.configure_flags {
                Some(v) => {
                    lib_configure_flags = copy_strings(v);
                },
                None => {},
            }
        },
        None => {
            proof {
                assert(cflags@ =~= tc@.base_cflags + spec_lib_cflags(o));
                assert(ldflags@ =~= tc@.base_ldflags + spec_lib_ldflags(o));
            }
        },
    }
    proof {
        assert(strs(lib_configure_flags@) =~= spec_lib_configure_flags(o));
    }
    ldflags = ldflags.concat(f.ldflags.as_str());

    let mut env: Vec<(String, String)> = Vec::new();
    env.push(env_pair("CC", tc.cc.as_str()));
    env.push(env_pair("CFLAGS", cflags.as_str()));
    env.push(env_pair("LDFLAGS", ldflags.as_str()));
    env.push(env_pair("CPPFLAGS", f.cppflags.as_str()));
    let ghost head = str_pairs(env@);
    match &tc.cxx {
        Some(cxx) => {
            env.push(env_pair("CXX", cxx.as_str()));
            env.push(env_pair("CXXFLAGS", cflags.as_str()));
        },
        None => {},
    }
    let ghost with_cxx = str_pairs(env@);
    append_pairs(&mut env, &tc.extra_env);
    let ghost with_extra_env = str_pairs(env@);
    if f.search_paths.len() > 0 {
        env.push(env_pair("PKG_CONFIG_PATH", f.pkg_config_path.as_str()));
    }
    proof {
        let cxx_part = match tc@.cxx {
            Some(cxx) => seq![("CXX"@, cxx), ("CXXFLAGS"@, cflags@)],
            None => Seq::<(Seq<char>, Seq<char>)>::empty(),
        };
        let pkg_part = if f@.search_paths.len() > 0 {
            seq![("PKG_CONFIG_PATH"@, f@.pkg_config_path)]
        } else {
            Seq::<(Seq<char>, Seq<char>)>::empty()
        };
        assert(head =~= seq![
            ("CC"@, tc@.cc),
            ("CFLAGS"@, cflags@),
            ("LDFLAGS"@, ldflags@),
            ("CPPFLAGS"@, f@.cppflags),
        ]);
        assert(with_cxx =~= head + cxx_part);
        assert(str_pairs(env@) =~= with_extra_env + pkg_part);
        assert(str_pairs(env@) =~= spec_cell_env(tc@, f@, o));
    }

    let mut args: Vec<String> = Vec::new();
    args.push("--host=".to_owned().concat(tc.host.as_str()));
    args.push("--prefix=".to_owned().concat(prefix));
    match lib_type {
        LibType::Static => {
            args.push("--enable-static".to_owned());
            args.push("--disable-shared".to_owned());
        },
        LibType::Shared => {
            args.push("--disable-static".to_owned());
            args.push("--enable-shared".to_owned());
        },
    }
    let ghost args_head = strs(args@);
    append_strings(&mut args, &config.build.configure_flags);
    append_strings(&mut args, &lib_configure_flags);
    proof {
        assert(args_head =~= seq!["--host="@ + tc@.host, "--prefix="@ + prefix@] + spec_kind_flags(
            lib_type,
        ));
        assert(strs(args@) =~= spec_configure_args(tc@, prefix@, lib_type, config, o));
    }
    CellPlan {
        source_dir: source_dir.to_owned(),
        prefix: prefix.to_owned(),
        autogen_present,
        env,
        configure_args: args,
        jobs: config.build.make_concurrent_jobs,
    }
}

/// One build cell: a library for one (platform, architecture) pair.
pub struct Builder<'a> {
    pub platform: Platform,
    pub arch: Arch,
    pub library: Library,
    pub repo: &'a Repo,
    pub config: &'a Config,
}

impl<'a> Builder<'a> {
    pub fn new(
        platform: Platform,
        arch: Arch,
        library: Library,
        repo: &'a Repo,
        config: &'a Config,
    ) -> (r: Builder<'a>)
        ensures
            r.platform == platform,
            r.arch == arch,
            r.library == library,
            r.repo == repo,
            r.config == config,
    {
        Builder { platform, arch, library, repo, config }
    }

    /// Resolves the toolchain of the cell through its platform's family.
    pub fn toolchain(&self, facts: &CellFacts) -> (r: Result<AutotoolsToolchain, BuildError>)
        ensures
            toolchain_result(r) == spec_toolchain_for(self.platform, self.arch, self.config, facts),
    {
        match self.platform {
            Platform::Android => AndroidBuilder::prepare_toolchain(
                self.arch,
                self.config,
                facts.host_os,
            ),
            Platform::Harmony => harmony::prepare_toolchain(
                self.arch,
                self.config,
                facts.harmony_bin_present,
                facts.harmony_sysroot_present,
            ),
            Platform::Macos | Platform::Ios | Platform::IosSim => darwin::prepare_toolchain(
                self.platform,
                self.arch,
                self.config,
                &facts.darwin_tools,
            ),
        }
    }

    /// Plans the cell: resolves its toolchain, then its dependency flags,
    /// and assembles the autotools environment and arguments.
    pub fn plan(&self, facts: &CellFacts) -> (r: Result<CellPlan, BuildError>)
        ensures
            plan_result(r) == spec_plan(
                self.platform,
                self.arch,
                self.library,
                self.config,
                self.repo.local_path@,
                facts,
            ),
    {
        let tc = self.toolchain(facts)?;
        let flags = build_flags(
            self.config.paths.build_dir.as_str(),
            tc.platform_dir.as_str(),
            tc.arch_dir.as_str(),
            self.library,
            &facts.dependency_dirs,
        )?;
        let lib_type = self.config.platforms.get_lib_type_for_platform(&self.platform);
        Ok(
            cell_plan(
                &tc,
                &flags,
                self.config,
                self.library,
                lib_type,
                facts.prefix.as_str(),
                self.repo.local_path.as_str(),
                facts.autogen_present,
            ),
        )
    }

    /// What must be looked up before planning the cell. An architecture
    /// that the platform does not build is refused here, before anything is
    /// looked up or created.
    pub fn probe_request(&self) -> (r: Result<ProbeRequest, BuildError>)
        ensures
            !spec_cell_legal(self.platform, self.arch) ==> r == Err::<ProbeRequest, BuildError>(
                BuildError::UnsupportedArchitecture,
            ),
            spec_cell_legal(self.platform, self.arch) ==> r is Ok,
            r is Ok ==> ({
                let q = r->Ok_0;
                let root = self.config.paths.build_dir@;
                let pdir = self.platform.spec_dir_name();
                let adir = spec_arch_dir(self.platform, self.arch).unwrap();
                &&& q.prefix@ == spec_install_prefix(root, pdir, adir, self.library)
                &&& strs(q.dependency_lib_dirs@) == spec_dep_lib_dirs(
                    root,
                    pdir,
                    adir,
                    spec_deps(self.library),
                )
                &&& q.autogen_script@ == path_join(self.repo.local_path@, "autogen.sh"@)
                &&& opt_str(q.sdk_name) == darwin::spec_sdk_name(self.platform)
                &&& (self.platform is Harmony) == q.toolchain_dirs is Some
                &&& q.toolchain_dirs is Some ==> {
                    &&& q.toolchain_dirs->Some_0.0@ == harmony::spec_toolchain_bin(
                        self.config.platforms.harmony.ndk_path@,
                    )
                    &&& q.toolchain_dirs->Some_0.1@ == harmony::spec_sysroot(
                        self.config.platforms.harmony.ndk_path@,
                    )
                }
            }),
    {
        let legal = match (self.platform, self.arch) {
            (Platform::Macos, Arch::X86_64) | (Platform::Macos, Arch::Arm64) => true,
            (Platform::Ios, Arch::Arm64) => true,
            (Platform::IosSim, Arch::X86_64) | (Platform::IosSim, Arch::Arm64) => true,
            (Platform::Macos, _) | (Platform::Ios, _) | (Platform::IosSim, _) => false,
            (Platform::Android, _) => AndroidBuilder::get_android_abi(&self.arch).is_ok(),
            (Platform::Harmony, _) => harmony::arch_dir_name(self.arch).is_ok(),
        };
        if !legal {
            return Err(BuildError::UnsupportedArchitecture);
        }
        let adir = arch_dir_name(self.platform, self.arch)?;
        let root = self.config.paths.build_dir.as_str();
        let pdir = self.platform.dir_name();
        let sdk_name = match darwin::sdk_name(self.platform) {
            Ok(n) => Some(n.to_owned()),
            Err(_) => None,
        };
        let toolchain_dirs = match self.platform {
            Platform::Harmony => {
                let ndk = self.config.platforms.harmony.ndk_path.as_str();
                Some((harmony::toolchain_bin(ndk), harmony::sysroot(ndk)))
            },
            _ => None,
        };
        Ok(
            ProbeRequest {
                sdk_name,
                toolchain_dirs,
                prefix: install_prefix(root, pdir, adir, self.library),
                dependency_lib_dirs: dependency_lib_dirs(root, pdir, adir, self.library),
                autogen_script: join(self.repo.local_path.as_str(), "autogen.sh"),
            },
        )
    }
}

/// A pair that the platform does not build is refused with
/// `UnsupportedArchitecture`, whatever the environment would report: the
/// refusal comes before any lookup.
pub proof fn lemma_illegal_pair_refused(
    p: Platform,
    a: Arch,
    l: Library,
    c: &Config,
    source_dir: Seq<char>,
    facts: &CellFacts,
)
    requires
        !spec_cell_legal(p, a),
    ensures
        spec_toolchain_for(p, a, c, facts) == Err::<ToolchainView, BuildError>(
            BuildError::UnsupportedArchitecture,
        ),
        spec_plan(p, a, l, c, source_dir, facts) == Err::<CellPlanView, BuildError>(
            BuildError::UnsupportedArchitecture,
        ),
{
}

proof fn lemma_first_missing_below(resolved: Seq<Option<String>>, n: nat)
    ensures
        first_missing(resolved, n) is Some ==> first_missing(resolved, n)->Some_0 < n,
    decreases n,
{
    if n > 0 {
        lemma_first_missing_below(resolved, (n - 1) as nat);
    }
}

proof fn lemma_first_missing_at_most(resolved: Seq<Option<String>>, j: nat, n: nat)
    requires
        j < n,
        resolved_at(resolved, j as int).is_none(),
    ensures
        first_missing(resolved, n) is Some,
        first_missing(resolved, n)->Some_0 <= j,
    decreases n,
{
    lemma_first_missing_below(resolved, (n - 1) as nat);
    if n - 1 > j {
        lemma_first_missing_at_most(resolved, j, (n - 1) as nat);
    }
}

/// A cell whose dependency has not been built yet is refused with
/// `DependencyNotBuilt`, naming a dependency of the library, and yields no
/// plan: configure is never reached for it.
pub proof fn lemma_missing_dependency_refused(
    p: Platform,
    a: Arch,
    l: Library,
    c: &Config,
    source_dir: Seq<char>,
    facts: &CellFacts,
    j: int,
)
    requires
        spec_toolchain_for(p, a, c, facts) is Ok,
        0 <= j < spec_deps(l).len(),
        resolved_at(facts.dependency_dirs@, j).is_none(),
    ensures
        spec_plan(p, a, l, c, source_dir, facts) is Err,
        exists|k: int|
            0 <= k <= j && spec_plan(p, a, l, c, source_dir, facts)->Err_0
                == BuildError::DependencyNotBuilt(#[trigger] spec_deps(l)[k]),
{
    lemma_first_missing_at_most(facts.dependency_dirs@, j as nat, spec_deps(l).len());
    let k = first_missing(facts.dependency_dirs@, spec_deps(l).len())->Some_0 as int;
    assert(spec_plan(p, a, l, c, source_dir, facts)->Err_0 == BuildError::DependencyNotBuilt(
        spec_deps(l)[k],
    ));
}

/// The build installs a cell's library exactly where the cache check and
/// the packaging step look for it.
pub proof fn lemma_install_matches_expected_path(
    p: Platform,
    a: Arch,
    l: Library,
    c: &Config,
    facts: &CellFacts,
)
    requires
        spec_toolchain_for(p, a, c, facts) is Ok,
    ensures
        ({
            let tc = spec_toolchain_for(p, a, c, facts)->Ok_0;
            spec_expected_path(c.paths.build_dir@, p, a, l, c.platforms.spec_lib_type(p)) == Some(
                path_join(
                    path_join(
                        spec_install_prefix(c.paths.build_dir@, tc.platform_dir, tc.arch_dir, l),
                        "lib"@,
                    ),
                    spec_lib_file(l, p, c.platforms.spec_lib_type(p)),
                ),
            )
        }),
{
}

} // verus!
