use vstd::prelude::*;

use crate::config::{Arch, LibType, Library, Platform};
use crate::driver::{CommandLine, CommandView};
use crate::error::BuildError;
use crate::locator::{
    expected_library_path, install_prefix, lib_file_name, spec_arch_dir, spec_expected_path,
    spec_install_prefix, spec_lib_file,
};
use crate::paths::{join, path_join, trim_leading_v, trim_version};
use crate::platforms::darwin;
use crate::toolchain::strs;

verus! {

/// Whether position `i` was reported present.
pub open spec fn present_at(present: Seq<bool>, i: int) -> bool {
    0 <= i < present.len() && present[i]
}

/// Whether every architecture of `archs` has a Darwin directory.
pub open spec fn all_darwin(archs: Seq<Arch>) -> bool {
    forall|i: int| 0 <= i < archs.len() ==> (#[trigger] darwin::spec_arch_dir(archs[i])) is Some
}

/// The per-architecture library of `a`, as the cache check computes it.
pub open spec fn arch_library(
    root: Seq<char>,
    p: Platform,
    l: Library,
    t: LibType,
    a: Arch,
) -> Seq<char> {
    spec_expected_path(root, p, a, l, t).unwrap()
}

/// The libraries of the present architectures among the first `n`, in
/// the order of `archs`.
pub open spec fn universal_inputs(
    root: Seq<char>,
    p: Platform,
    l: Library,
    t: LibType,
    archs: Seq<Arch>,
    present: Seq<bool>,
    n: nat,
) -> Seq<Seq<char>>
    decreases n,
{
    if n == 0 {
        Seq::empty()
    } else {
        let prev = universal_inputs(root, p, l, t, archs, present, (n - 1) as nat);
        if present_at(present, n - 1) {
            prev.push(arch_library(root, p, l, t, archs[n - 1]))
        } else {
            prev
        }
    }
}

/// The architectures reported present.
pub open spec fn present_archs(archs: Seq<Arch>, present: Seq<bool>) -> Set<Arch> {
    Set::new(|a: Arch| exists|i: int| 0 <= i < archs.len() && present_at(present, i) && archs[i] == a)
}

/// Directory of a platform's merged outputs: `<root>/<platform>/universal/<repo>`.
pub open spec fn spec_universal_dir(root: Seq<char>, p: Platform, l: Library) -> Seq<char> {
    path_join(path_join(path_join(root, p.spec_dir_name()), "universal"@), l.spec_repo_name())
}

/// Merging the per-architecture libraries of one (platform, library) pair.
pub struct UniversalPlan {
    /// The present per-architecture libraries, in architecture order.
    pub inputs: Vec<String>,
    /// Directory of the merged library, to create.
    pub output_dir: String,
    /// The merged library.
    pub output: String,
    /// Headers of the first present architecture's install tree.
    pub header_source: String,
    /// Where the headers go.
    pub header_dest: String,
}

pub fn universal_dir(build_dir: &str, platform: Platform, library: Library) -> (r: String)
    ensures
        r@ == spec_universal_dir(build_dir@, platform, library),
{
    join(
        join(join(build_dir, platform.dir_name()).as_str(), "universal").as_str(),
        library.repo_name(),
    )
}

/// The per-architecture libraries whose presence decides the merge, one per
/// entry of `archs`.
pub fn universal_candidates(
    build_dir: &str,
    platform: Platform,
    library: Library,
    lib_type: LibType,
    archs: &Vec<Arch>,
) -> (r: Result<Vec<String>, BuildError>)
    ensures
        !platform.spec_is_darwin() ==> r == Err::<Vec<String>, BuildError>(
            BuildError::UnsupportedPlatform,
        ),
        platform.spec_is_darwin() && !all_darwin(archs@) ==> r == Err::<Vec<String>, BuildError>(
            BuildError::UnsupportedArchitecture,
        ),
        platform.spec_is_darwin() && all_darwin(archs@) ==> r is Ok && r->Ok_0@.len()
            == archs@.len(),
        r is Ok ==> forall|j: int|
            0 <= j < archs@.len() ==> #[trigger] r->Ok_0@[j]@ == arch_library(
                build_dir@,
                platform,
                library,
                lib_type,
                archs@[j],
            ),
{
    if !platform.is_darwin() {
        return Err(BuildError::UnsupportedPlatform);
    }
    let mut out: Vec<String> = Vec::new();
    let mut i: usize = 0;
    while i < archs.len()
        invariant
            platform.spec_is_darwin(),
            i <= archs@.len(),
            out@.len() == i,
            forall|j: int| 0 <= j < i ==> (#[trigger] darwin::spec_arch_dir(archs@[j])) is Some,
            forall|j: int|
                0 <= j < i ==> #[trigger] out@[j]@ == arch_library(
                    build_dir@,
                    platform,
                    library,
                    lib_type,
                    archs@[j],
                ),
        decreases archs.len() - i,
    {
        match expected_library_path(build_dir, platform, archs[i], library, lib_type) {
            Ok(p) => {
                out.push(p);
            },
            Err(e) => {
                proof {
                    assert(darwin::spec_arch_dir(archs@[i as int]) is None);
                }
                return Err(e);
            },
        }
        i = i + 1;
    }
    Ok(out)
}

/// First position below `n` reported present.
pub open spec fn first_present(present: Seq<bool>, n: nat) -> Option<nat>
    decreases n,
{
    if n == 0 {
        None
    } else {
        match first_present(present, (n - 1) as nat) {
            Some(i) => Some(i),
            None => if present_at(present, n - 1) {
                Some((n - 1) as nat)
            } else {
                None
            },
        }
    }
}

proof fn lemma_first_present_below(present: Seq<bool>, n: nat)
    ensures
        first_present(present, n) is Some ==> first_present(present, n)->Some_0 < n,
    decreases n,
{
    if n > 0 {
        lemma_first_present_below(present, (n - 1) as nat);
    }
}

proof fn lemma_inputs_empty_iff_none_present(
    root: Seq<char>,
    p: Platform,
    l: Library,
    t: LibType,
    archs: Seq<Arch>,
    present: Seq<bool>,
    n: nat,
)
    ensures
        (universal_inputs(root, p, l, t, archs, present, n).len() == 0) == first_present(
            present,
            n,
        ) is None,
    decreases n,
{
    if n > 0 {
        lemma_inputs_empty_iff_none_present(root, p, l, t, archs, present, (n - 1) as nat);
    }
}

/// The merge of a platform's per-architecture libraries: the libraries of
/// the present architectures in `archs` order (`present[i]` tells whether
/// the i-th candidate exists), with the headers of the first present one.
/// `Ok(None)` when none is present: the merge is skipped, not failed.
pub open spec fn spec_universal_plan(
    root: Seq<char>,
    p: Platform,
    l: Library,
    t: LibType,
    archs: Seq<Arch>,
    present: Seq<bool>,
) -> Result<Option<UniversalPlanView>, BuildError> {
    if !p.spec_is_darwin() {
        Err(BuildError::UnsupportedPlatform)
    } else if !all_darwin(archs) {
        Err(BuildError::UnsupportedArchitecture)
    } else {
        match first_present(present, archs.len()) {
            None => Ok(None),
            Some(i) => {
                let dir = spec_universal_dir(root, p, l);
                Ok(
                    Some(
                        UniversalPlanView {
                            inputs: universal_inputs(root, p, l, t, archs, present, archs.len()),
                            output_dir: path_join(dir, "lib"@),
                            output: path_join(path_join(dir, "lib"@), spec_lib_file(l, p, t)),
                            header_source: path_join(
                                spec_install_prefix(
                                    root,
                                    p.spec_dir_name(),
                                    darwin::spec_arch_dir(archs[i as int]).unwrap(),
                                    l,
                                ),
                                "include"@,
                            ),
                            header_dest: path_join(dir, "include"@),
                        },
                    ),
                )
            },
        }
    }
}

pub struct UniversalPlanView {
    pub inputs: Seq<Seq<char>>,
    pub output_dir: Seq<char>,
    pub output: Seq<char>,
    pub header_source: Seq<char>,
    pub header_dest: Seq<char>,
}

impl View for UniversalPlan {
    type V = UniversalPlanView;

    open spec fn view(&self) -> UniversalPlanView {
        UniversalPlanView {
            inputs: strs(self.inputs@),
            output_dir: self.output_dir@,
            output: self.output@,
            header_source: self.header_source@,
            header_dest: self.header_dest@,
        }
    }
}

pub open spec fn universal_result(r: Result<Option<UniversalPlan>, BuildError>) -> Result<
    Option<UniversalPlanView>,
    BuildError,
> {
    match r {
        Ok(Some(u)) => Ok(Some(u@)),
        Ok(None) => Ok(None),
        Err(e) => Err(e),
    }
}

/// Plans the merge of a platform's per-architecture libraries; `present[i]`
/// tells whether the i-th entry of `universal_candidates` exists.
pub fn universal_plan(
    build_dir: &str,
    platform: Platform,
    library: Library,
    lib_type: LibType,
    archs: &Vec<Arch>,
    present: &Vec<bool>,
) -> (r: Result<Option<UniversalPlan>, BuildError>)
    ensures
        universal_result(r) == spec_universal_plan(
            build_dir@,
            platform,
            library,
            lib_type,
            archs@,
            present@,
        ),
{
    let candidates = universal_candidates(build_dir, platform, library, lib_type, archs)?;
    let mut inputs: Vec<String> = Vec::new();
    let mut first: Option<usize> = None;
    let mut i: usize = 0;
    while i < archs.len()
        invariant
            platform.spec_is_darwin(),
            all_darwin(archs@),
            i <= archs@.len(),
            candidates@.len() == archs@.len(),
            forall|j: int|
                0 <= j < archs@.len() ==> #[trigger] candidates@[j]@ == arch_library(
                    build_dir@,
                    platform,
                    library,
                    lib_type,
                    archs@[j],
                ),
            inputs@.len() == universal_inputs(
                build_dir@,
                platform,
                library,
                lib_type,
                archs@,
                present@,
                i as nat,
            ).len(),
            strs(inputs@) == universal_inputs(
                build_dir@,
                platform,
                library,
                lib_type,
                archs@,
                present@,
                i as nat,
            ),
            match first {
                Some(f) => first_present(present@, i as nat) == Some(f as nat),
                None => first_present(present@, i as nat) is None,
            },
        decreases archs.len() - i,
    {
        let here = i < present.len() && present[i];
        if here {
            let ghost before = inputs@;
            inputs.push(candidates[i].clone());
            proof {
                assert(candidates@[i as int]@ == arch_library(
                    build_dir@,
                    platform,
                    library,
                    lib_type,
                    archs@[i as int],
                ));
                assert(strs(inputs@) =~= strs(before).push(candidates@[i as int]@));
            }
            if first.is_none() {
                first = Some(i);
            }
        }
        i = i + 1;
    }
    proof {
        lemma_first_present_below(present@, archs@.len());
    }
    let dir = universal_dir(build_dir, platform, library);
    let output_dir = join(dir.as_str(), "lib");
    match first {
        None => Ok(None),
        Some(f) => {
            proof {
                assert(darwin::spec_arch_dir(archs@[f as int]) is Some);
            }
            let adir = darwin::arch_dir_name(archs[f])?;
            let file = lib_file_name(library, platform, lib_type);
            let header_source = join(
                install_prefix(build_dir, platform.dir_name(), adir, library).as_str(),
                "include",
            );
            Ok(
                Some(
                    UniversalPlan {
                        inputs,
                        output: join(output_dir.as_str(), file.as_str()),
                        output_dir,
                        header_source,
                        header_dest: join(dir.as_str(), "include"),
                    },
                ),
            )
        },
    }
}

proof fn lemma_inputs_contain(
    root: Seq<char>,
    p: Platform,
    l: Library,
    t: LibType,
    archs: Seq<Arch>,
    present: Seq<bool>,
    n: nat,
    x: Seq<char>,
)
    requires
        n <= archs.len(),
    ensures
        universal_inputs(root, p, l, t, archs, present, n).contains(x) <==> exists|i: int|
            0 <= i < n && present_at(present, i) && x == arch_library(root, p, l, t, archs[i]),
    decreases n,
{
    if n > 0 {
        lemma_inputs_contain(root, p, l, t, archs, present, (n - 1) as nat, x);
        let prev = universal_inputs(root, p, l, t, archs, present, (n - 1) as nat);
        if present_at(present, n - 1) {
            let last = arch_library(root, p, l, t, archs[n - 1]);
            assert(prev.push(last).contains(x) <==> prev.contains(x) || x == last) by {
                if prev.push(last).contains(x) {
                    let k = choose|k: int| 0 <= k < prev.push(last).len() && prev.push(last)[k] == x;
                    if k < prev.len() {
                        assert(prev[k] == x);
                    }
                }
                if prev.contains(x) {
                    let k = choose|k: int| 0 <= k < prev.len() && prev[k] == x;
                    assert(prev.push(last)[k] == x);
                }
                if x == last {
                    assert(prev.push(last)[prev.len() as int] == x);
                }
            }
        }
    }
}

/// Merging is independent of the order of the architectures: two requests
/// with the same present architectures merge the same set of libraries.
pub proof fn lemma_universal_order_independent(
    root: Seq<char>,
    p: Platform,
    l: Library,
    t: LibType,
    archs1: Seq<Arch>,
    present1: Seq<bool>,
    archs2: Seq<Arch>,
    present2: Seq<bool>,
)
    requires
        present_archs(archs1, present1) == present_archs(archs2, present2),
    ensures
        universal_inputs(root, p, l, t, archs1, present1, archs1.len()).to_set()
            == universal_inputs(root, p, l, t, archs2, present2, archs2.len()).to_set(),
{
    let s1 = universal_inputs(root, p, l, t, archs1, present1, archs1.len());
    let s2 = universal_inputs(root, p, l, t, archs2, present2, archs2.len());
    assert forall|x: Seq<char>| s1.to_set().contains(x) <==> s2.to_set().contains(x) by {
        lemma_inputs_contain(root, p, l, t, archs1, present1, archs1.len(), x);
        lemma_inputs_contain(root, p, l, t, archs2, present2, archs2.len(), x);
        if s1.contains(x) {
            let i = choose|i: int|
                0 <= i < archs1.len() && present_at(present1, i) && x == arch_library(
                    root,
                    p,
                    l,
                    t,
                    archs1[i],
                );
            assert(present_archs(archs1, present1).contains(archs1[i]));
            assert(present_archs(archs2, present2).contains(archs1[i]));
        }
        if s2.contains(x) {
            let i = choose|i: int|
                0 <= i < archs2.len() && present_at(present2, i) && x == arch_library(
                    root,
                    p,
                    l,
                    t,
                    archs2[i],
                );
            assert(present_archs(archs2, present2).contains(archs2[i]));
            assert(present_archs(archs1, present1).contains(archs2[i]));
        }
    }
    assert(s1.to_set() =~= s2.to_set());
}

/// With no architecture present the merge is skipped, and with at least one
/// it goes ahead with exactly the present ones.
pub proof fn lemma_universal_tolerates_missing(
    root: Seq<char>,
    p: Platform,
    l: Library,
    t: LibType,
    archs: Seq<Arch>,
    present: Seq<bool>,
)
    requires
        p.spec_is_darwin(),
        all_darwin(archs),
    ensures
        (spec_universal_plan(root, p, l, t, archs, present) == Ok::<
            Option<UniversalPlanView>,
            BuildError,
        >(None)) == (universal_inputs(root, p, l, t, archs, present, archs.len()).len() == 0),
        spec_universal_plan(root, p, l, t, archs, present) is Ok,
{
    lemma_inputs_empty_iff_none_present(root, p, l, t, archs, present, archs.len());
}

/// The bundle of a library: `<root>/lib/darwin/lib<name>-<version>.xcframework`.
pub open spec fn spec_bundle_path(root: Seq<char>, l: Library, version: Seq<char>) -> Seq<char> {
    path_join(
        path_join(path_join(root, "lib"@), "darwin"@),
        l.spec_name_with_lib_prefix() + "-"@ + trim_leading_v(version) + ".xcframework"@,
    )
}

/// The arguments that add one platform's merged library and headers.
pub open spec fn bundle_part(
    root: Seq<char>,
    p: Platform,
    l: Library,
    t: LibType,
    present: bool,
) -> Seq<Seq<char>> {
    if present {
        let dir = spec_universal_dir(root, p, l);
        seq![
            "-library"@,
            path_join(path_join(dir, "lib"@), spec_lib_file(l, p, t)),
            "-headers"@,
            path_join(dir, "include"@),
        ]
    } else {
        Seq::empty()
    }
}

/// Assembling the multi-platform bundle of one library.
pub struct BundlePlan {
    /// Directory of the bundle, to create.
    pub output_dir: String,
    /// The bundle; an older one is removed first.
    pub output: String,
    /// The bundling command.
    pub command: CommandLine,
}

/// The bundle of a library from the merged outputs of macOS, iOS and the
/// iOS simulator, each taken only where its merged directory exists;
/// `None` when none does.
pub open spec fn spec_bundle_command(
    root: Seq<char>,
    l: Library,
    version: Seq<char>,
    t: LibType,
    macos: bool,
    ios: bool,
    ios_sim: bool,
) -> Option<CommandView> {
    if !macos && !ios && !ios_sim {
        None
    } else {
        Some(
            CommandView {
                program: "xcodebuild"@,
                args: seq!["-create-xcframework"@] + bundle_part(root, Platform::Macos, l, t, macos)
                    + bundle_part(root, Platform::Ios, l, t, ios) + bundle_part(
                    root,
                    Platform::IosSim,
                    l,
                    t,
                    ios_sim,
                ) + seq!["-output"@, spec_bundle_path(root, l, version)],
                env: Seq::empty(),
                dir: Seq::empty(),
            },
        )
    }
}

fn push_bundle_part(
    args: &mut Vec<String>,
    build_dir: &str,
    platform: Platform,
    library: Library,
    lib_type: LibType,
    present: bool,
)
    ensures
        strs(final(args)@) == strs(old(args)@) + bundle_part(
            build_dir@,
            platform,
            library,
            lib_type,
            present,
        ),
{
    let ghost before = strs(args@);
    if present {
        let dir = universal_dir(build_dir, platform, library);
        let file = lib_file_name(library, platform, lib_type);
        args.push("-library".to_owned());
        args.push(join(join(dir.as_str(), "lib").as_str(), file.as_str()));
        args.push("-headers".to_owned());
        args.push(join(dir.as_str(), "include"));
    }
    proof {
        assert(strs(args@) =~= before + bundle_part(
            build_dir@,
            platform,
            library,
            lib_type,
            present,
        ));
    }
}

/// Plans the bundle of a library; each flag tells whether that platform's
/// merged directory (`universal_dir`) exists. The command runs in the
/// current directory (an empty `dir`).
pub fn bundle_plan(
    build_dir: &str,
    library: Library,
    version: &str,
    lib_type: LibType,
    macos: bool,
    ios: bool,
    ios_sim: bool,
) -> (r: Option<BundlePlan>)
    ensures
        r is None <==> spec_bundle_command(
            build_dir@,
            library,
            version@,
            lib_type,
            macos,
            ios,
            ios_sim,
        ) is None,
        r is Some ==> {
            &&& Some(r->Some_0.command@) == spec_bundle_command(
                build_dir@,
                library,
                version@,
                lib_type,
                macos,
                ios,
                ios_sim,
            )
            &&& r->Some_0.output@ == spec_bundle_path(build_dir@, library, version@)
            &&& r->Some_0.output_dir@ == path_join(path_join(build_dir@, "lib"@), "darwin"@)
        },
{
    if !macos && !ios && !ios_sim {
        return None;
    }
    let output_dir = join(join(build_dir, "lib").as_str(), "darwin");
    let name = library.name_with_lib_prefix().concat("-").concat(trim_version(version).as_str()).concat(
        ".xcframework",
    );
    let output = join(output_dir.as_str(), name.as_str());
    let mut args: Vec<String> = Vec::new();
    args.push("-create-xcframework".to_owned());
    push_bundle_part(&mut args, build_dir, Platform::Macos, library, lib_type, macos);
    push_bundle_part(&mut args, build_dir, Platform::Ios, library, lib_type, ios);
    push_bundle_part(&mut args, build_dir, Platform::IosSim, library, lib_type, ios_sim);
    let ghost before = strs(args@);
    args.push("-output".to_owned());
    args.push(output.clone());
    proof {
        assert(strs(args@) =~= before + seq!["-output"@, output@]);
        assert(strs(args@) =~= spec_bundle_command(
            build_dir@,
            library,
            version@,
            lib_type,
            macos,
            ios,
            ios_sim,
        ).unwrap().args);
    }
    let command = CommandLine {
        program: "xcodebuild".to_owned(),
        args,
        env: Vec::new(),
        dir: String::new(),
    };
    proof {
        assert(command@.env =~= Seq::<(Seq<char>, Seq<char>)>::empty());
    }
    Some(BundlePlan { output_dir, output, command })
}

} // verus!
