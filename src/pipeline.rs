use vstd::prelude::*;

use crate::config::{Arch, Config, Library, Platform, library_rank};
use crate::deps::{lemma_dependencies_precede, spec_deps};
use crate::paths::join;
use crate::toolchain::strs;

verus! {

/// Options of a `build` run.
#[derive(Debug, Clone, Copy)]
pub struct BuildOptions {
    pub verbose: bool,
    /// Rebuild every cell, even where its library file already exists.
    pub force: bool,
}

/// One step of a build run, in the order the run takes them.
#[derive(Debug, Clone, Copy, PartialEq, Eq, Structural)]
pub enum Step {
    /// Build (or reuse) and package one cell.
    Cell { platform: Platform, library: Library, arch: Arch },
    /// Merge a Darwin platform's architectures of one library.
    Universal { platform: Platform, library: Library },
    /// Assemble the multi-platform bundles, if a Darwin platform was built.
    Bundles,
    /// Copy the public headers into the shared include directory.
    Headers,
    /// Remove the per-architecture working trees, unless they are kept.
    Cleanup,
}

/// Whether a cell is built or its existing library reused.
#[derive(Debug, Clone, Copy, PartialEq, Eq, Structural)]
pub enum CellAction {
    Reuse,
    Build,
}

/// A cell is reused exactly when its library file exists and no rebuild
/// was forced.
pub open spec fn spec_decide(force: bool, artifact_ready: bool) -> CellAction {
    if !force && artifact_ready {
        CellAction::Reuse
    } else {
        CellAction::Build
    }
}

pub fn decide_cell(force: bool, artifact_ready: bool) -> (r: CellAction)
    ensures
        r == spec_decide(force, artifact_ready),
{
    if !force && artifact_ready {
        CellAction::Reuse
    } else {
        CellAction::Build
    }
}

/// The cells of one (platform, library) pair, one per architecture.
pub open spec fn cell_steps(p: Platform, l: Library, archs: Seq<Arch>) -> Seq<Step> {
    archs.map_values(|a: Arch| Step::Cell { platform: p, library: l, arch: a })
}

/// The steps of one platform: per library its cells, then the merge on
/// Darwin platforms.
pub open spec fn library_steps(p: Platform, libs: Seq<Library>, archs: Seq<Arch>) -> Seq<Step>
    decreases libs.len(),
{
    if libs.len() == 0 {
        Seq::empty()
    } else {
        library_steps(p, libs.drop_last(), archs) + cell_steps(p, libs.last(), archs) + if p.spec_is_darwin() {
            seq![Step::Universal { platform: p, library: libs.last() }]
        } else {
            Seq::empty()
        }
    }
}

pub open spec fn platform_steps(c: &Config, platforms: Seq<Platform>) -> Seq<Step>
    decreases platforms.len(),
{
    if platforms.len() == 0 {
        Seq::empty()
    } else {
        platform_steps(c, platforms.drop_last()) + library_steps(
            platforms.last(),
            c.general.libraries@,
            c.platforms.spec_archs(platforms.last()),
        )
    }
}

/// The whole run: every platform in order, then bundles, headers, cleanup.
pub open spec fn spec_schedule(c: &Config) -> Seq<Step> {
    platform_steps(c, c.general.platforms@) + seq![Step::Bundles, Step::Headers, Step::Cleanup]
}

fn push_cells(steps: &mut Vec<Step>, platform: Platform, library: Library, archs: &Vec<Arch>)
    ensures
        final(steps)@ == old(steps)@ + cell_steps(platform, library, archs@),
{
    let ghost start = steps@;
    let mut i: usize = 0;
    while i < archs.len()
        invariant
            i <= archs@.len(),
            steps@ == start + cell_steps(platform, library, archs@.subrange(0, i as int)),
        decreases archs.len() - i,
    {
        steps.push(Step::Cell { platform, library, arch: archs[i] });
        proof {
            assert(cell_steps(platform, library, archs@.subrange(0, i as int + 1)) =~= cell_steps(
                platform,
                library,
                archs@.subrange(0, i as int),
            ).push(Step::Cell { platform, library, arch: archs@[i as int] }));
        }
        i = i + 1;
    }
    proof {
        assert(archs@.subrange(0, archs@.len() as int) =~= archs@);
    }
}

/// The steps of a run, in order.
pub fn schedule(config: &Config) -> (r: Vec<Step>)
    ensures
        r@ == spec_schedule(config),
{
    let mut steps: Vec<Step> = Vec::new();
    let platforms = &config.general.platforms;
    let libraries = &config.general.libraries;
    let mut i: usize = 0;
    while i < platforms.len()
        invariant
            i <= platforms@.len(),
            platforms@ == config.general.platforms@,
            libraries@ == config.general.libraries@,
            steps@ == platform_steps(config, platforms@.subrange(0, i as int)),
        decreases platforms.len() - i,
    {
        let platform = platforms[i];
        let archs = config.platforms.get_archs_for_platform(&platform);
        let ghost before = steps@;
        let mut j: usize = 0;
        while j < libraries.len()
            invariant
                j <= libraries@.len(),
                libraries@ == config.general.libraries@,
                archs@ == config.platforms.spec_archs(platform),
                steps@ == before + library_steps(platform, libraries@.subrange(0, j as int), archs@),
            decreases libraries.len() - j,
        {
            let library = libraries[j];
            push_cells(&mut steps, platform, library, archs);
            if platform.is_darwin() {
                steps.push(Step::Universal { platform, library });
            }
            proof {
                let sub = libraries@.subrange(0, j as int + 1);
                assert(sub.drop_last() =~= libraries@.subrange(0, j as int));
                assert(steps@ =~= before + library_steps(platform, sub, archs@));
            }
            j = j + 1;
        }
        proof {
            assert(libraries@.subrange(0, libraries@.len() as int) =~= libraries@);
            let sub = platforms@.subrange(0, i as int + 1);
            assert(sub.drop_last() =~= platforms@.subrange(0, i as int));
        }
        i = i + 1;
    }
    proof {
        assert(platforms@.subrange(0, platforms@.len() as int) =~= platforms@);
    }
    steps.push(Step::Bundles);
    steps.push(Step::Headers);
    steps.push(Step::Cleanup);
    proof {
        assert(steps@ =~= spec_schedule(config));
    }
    steps
}

/// Running again without `--force` after a complete run builds nothing:
/// when every cell's library file exists, every cell of the schedule is
/// reused.
pub proof fn lemma_rerun_reuses_every_cell(c: &Config, ready: spec_fn(Step) -> bool)
    requires
        forall|i: int|
            0 <= i < spec_schedule(c).len() && spec_schedule(c)[i] is Cell ==> #[trigger] ready(
                spec_schedule(c)[i],
            ),
    ensures
        forall|i: int|
            0 <= i < spec_schedule(c).len() && (#[trigger] spec_schedule(c)[i]) is Cell
                ==> spec_decide(false, ready(spec_schedule(c)[i])) == CellAction::Reuse,
{
}

/// With `--force`, every cell of the schedule is built, whether or not its
/// library file exists.
pub proof fn lemma_force_builds_every_cell(c: &Config, ready: spec_fn(Step) -> bool)
    ensures
        forall|i: int|
            0 <= i < spec_schedule(c).len() && (#[trigger] spec_schedule(c)[i]) is Cell
                ==> spec_decide(true, ready(spec_schedule(c)[i])) == CellAction::Build,
{
}

/// Number of occurrences of `l` in `s`.
pub open spec fn count(s: Seq<Library>, l: Library) -> nat
    decreases s.len(),
{
    if s.len() == 0 {
        0
    } else {
        count(s.drop_last(), l) + if s.last() == l {
            1nat
        } else {
            0nat
        }
    }
}

/// Libraries in build order: each rank never decreases along the sequence.
pub open spec fn in_build_order(s: Seq<Library>) -> bool {
    forall|i: int, j: int| 0 <= i < j < s.len() ==> library_rank(s[i]) <= library_rank(s[j])
}

proof fn lemma_count_push(s: Seq<Library>, x: Library, l: Library)
    ensures
        count(s.push(x), l) == count(s, l) + if x == l {
            1nat
        } else {
            0nat
        },
{
    assert(s.push(x).drop_last() =~= s);
}

/// Sorts the libraries into build order, keeping every occurrence.
pub fn normalize_libraries(libs: &mut Vec<Library>)
    ensures
        in_build_order(final(libs)@),
        forall|l: Library| #[trigger] count(final(libs)@, l) == count(old(libs)@, l),
{
    let ghost orig = libs@;
    let mut out: Vec<Library> = Vec::new();
    let order: [Library; 4] = [
        Library::Libogg,
        Library::Libopus,
        Library::Libopusenc,
        Library::Libopusfile,
    ];
    let mut k: usize = 0;
    while k < 4
        invariant
            k <= 4,
            libs@ == orig,
            order@ == seq![
                Library::Libogg,
                Library::Libopus,
                Library::Libopusenc,
                Library::Libopusfile,
            ],
            in_build_order(out@),
            forall|i: int| 0 <= i < out@.len() ==> library_rank(#[trigger] out@[i]) < k,
            forall|l: Library|
                #[trigger] count(out@, l) == if library_rank(l) < k {
                    count(orig, l)
                } else {
                    0
                },
        decreases 4 - k,
    {
        let target = order[k];
        assert(library_rank(target) == k);
        let mut i: usize = 0;
        while i < libs.len()
            invariant
                k < 4,
                library_rank(target) == k,
                i <= libs@.len(),
                libs@ == orig,
                in_build_order(out@),
                forall|j: int| 0 <= j < out@.len() ==> library_rank(#[trigger] out@[j]) <= k,
                forall|l: Library|
                    #[trigger] count(out@, l) == if library_rank(l) < k {
                        count(orig, l)
                    } else if l == target {
                        count(orig.subrange(0, i as int), l)
                    } else {
                        0
                    },
            decreases libs.len() - i,
        {
            let ghost before = out@;
            proof {
                assert(orig.subrange(0, i as int + 1) =~= orig.subrange(0, i as int).push(
                    orig[i as int],
                ));
                assert forall|l: Library| #[trigger]
                    count(orig.subrange(0, i as int + 1), l) == count(
                        orig.subrange(0, i as int),
                        l,
                    ) + if orig[i as int] == l {
                        1nat
                    } else {
                        0nat
                    } by {
                    lemma_count_push(orig.subrange(0, i as int), orig[i as int], l);
                }
            }
            if libs[i] == target {
                out.push(target);
                proof {
                    assert forall|l: Library| #[trigger]
                        count(out@, l) == count(before, l) + if target == l {
                            1nat
                        } else {
                            0nat
                        } by {
                        lemma_count_push(before, target, l);
                    }
                }
            }
            i = i + 1;
        }
        proof {
            assert(orig.subrange(0, libs@.len() as int) =~= orig);
        }
        k = k + 1;
    }
    proof {
        assert forall|l: Library| #[trigger] count(out@, l) == count(orig, l) by {
            assert(library_rank(l) < 4);
        }
    }
    *libs = out;
}

/// After normalizing, every dependency listed before its dependent.
pub proof fn lemma_dependencies_built_first(s: Seq<Library>, i: int, j: int, d: int)
    requires
        in_build_order(s),
        0 <= i < s.len(),
        0 <= j < s.len(),
        0 <= d < spec_deps(s[j]).len(),
        s[i] == spec_deps(s[j])[d],
    ensures
        i < j,
{
    lemma_dependencies_precede(s[j], d);
    if i >= j {
        if i > j {
            assert(library_rank(s[j]) <= library_rank(s[i]));
        }
    }
}

/// The per-platform working trees that a run removes at its end; none when
/// intermediates are kept.
pub fn intermediate_dirs(config: &Config) -> (r: Vec<String>)
    ensures
        config.general.keep_intermediate ==> r@.len() == 0,
        !config.general.keep_intermediate ==> strs(r@) == config.general.platforms@.map_values(
            |p: Platform| crate::paths::path_join(config.paths.build_dir@, p.spec_dir_name()),
        ),
{
    let mut out: Vec<String> = Vec::new();
    if config.general.keep_intermediate {
        return out;
    }
    let platforms = &config.general.platforms;
    let mut i: usize = 0;
    while i < platforms.len()
        invariant
            i <= platforms@.len(),
            platforms@ == config.general.platforms@,
            out@.len() == i,
            forall|j: int|
                0 <= j < i ==> #[trigger] out@[j]@ == crate::paths::path_join(
                    config.paths.build_dir@,
                    platforms@[j].spec_dir_name(),
                ),
        decreases platforms.len() - i,
    {
        out.push(join(config.paths.build_dir.as_str(), platforms[i].dir_name()));
        i = i + 1;
    }
    proof {
        assert(strs(out@) =~= config.general.platforms@.map_values(
            |p: Platform| crate::paths::path_join(config.paths.build_dir@, p.spec_dir_name()),
        ));
    }
    out
}

} // verus!
