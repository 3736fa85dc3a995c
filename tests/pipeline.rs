use opus_builder::clean::CleanOptions;
use opus_builder::cli::CleanArgs;
use opus_builder::compose::{bundle_plan, universal_candidates, universal_dir, universal_plan};
use opus_builder::config::{Arch, Config, LibType, Library, LibraryTable, Platform};
use opus_builder::deps::dependencies_of;
use opus_builder::driver::{advance, failure, CellPlan, DriverState, Stage};
use opus_builder::error::BuildError;
use opus_builder::locator::{expected_library_path, lib_file_name, package_plan};
use opus_builder::paths::{decimal_string, join, join_strings, trim_version};
use opus_builder::pipeline::{
    decide_cell, intermediate_dirs, normalize_libraries, schedule, CellAction, Step,
};
use opus_builder::post_build::{
    bundle_jobs, has_apple_platform, header_candidates, header_dest, is_header_file,
    select_headers,
};
use opus_builder::repo::{get_repos, locate_repo, repo_candidates, search_paths, Repo};

#[test]
fn scenario_a_android_package_path() {
    let mut config = Config::default();
    config.general.platforms = vec![Platform::Android];
    config.general.libraries = vec![Library::Libogg];
    config.platforms.android.archs = vec![Arch::Arm64V8a];
    let lib_type = config.platforms.get_lib_type_for_platform(&Platform::Android);
    assert_eq!(lib_type, LibType::Shared);
    let version = config.get_library_version(&Library::Libogg).unwrap();
    let plan = package_plan("build", Platform::Android, Library::Libogg, version, Arch::Arm64V8a, lib_type)
        .unwrap()
        .unwrap();
    assert_eq!(plan.dest, "build/lib/android/arm64-v8a/libogg-1.3.5/libogg.so");
    assert_eq!(plan.dest_dir, "build/lib/android/arm64-v8a/libogg-1.3.5");
    assert_eq!(plan.source, "build/android/arm64-v8a/ogg/lib/libogg.so");
}

#[test]
fn cache_check_and_packaging_share_one_path() {
    for (platform, arch) in [
        (Platform::Android, Arch::X86),
        (Platform::Harmony, Arch::X86_64),
        (Platform::Macos, Arch::Arm64),
    ] {
        for library in [Library::Libogg, Library::Libopusfile] {
            for kind in [LibType::Static, LibType::Shared] {
                let a = expected_library_path("out/", platform, arch, library, kind).unwrap();
                let b = expected_library_path("out/", platform, arch, library, kind).unwrap();
                assert_eq!(a, b);
                if let Some(p) = package_plan("out/", platform, library, "v2", arch, kind).unwrap() {
                    assert_eq!(p.source, a);
                }
            }
        }
    }
    assert_eq!(
        expected_library_path("build", Platform::IosSim, Arch::X86_64, Library::Libopusenc, LibType::Shared)
            .unwrap(),
        "build/ios-sim/x86_64/libopusenc/lib/libopusenc.dylib"
    );
    assert_eq!(
        expected_library_path("build", Platform::Harmony, Arch::X86, Library::Libogg, LibType::Static)
            .err(),
        Some(BuildError::UnsupportedArchitecture)
    );
    assert!(package_plan("b", Platform::Ios, Library::Libogg, "v1", Arch::Arm64, LibType::Static)
        .unwrap()
        .is_none());
}

#[test]
fn harmony_package_path() {
    let plan = package_plan("build", Platform::Harmony, Library::Libopus, "vv1.5.2", Arch::ArmeabiV7a, LibType::Static)
        .unwrap()
        .unwrap();
    assert_eq!(plan.dest, "build/lib/harmony/armeabi-v7a/libopus-1.5.2/libopus.a");
}

#[test]
fn rerun_without_force_reuses_and_force_rebuilds() {
    assert_eq!(decide_cell(false, true), CellAction::Reuse);
    assert_eq!(decide_cell(false, false), CellAction::Build);
    assert_eq!(decide_cell(true, true), CellAction::Build);
    assert_eq!(decide_cell(true, false), CellAction::Build);
    let config = Config::default();
    let steps = schedule(&config);
    let cells = steps.iter().filter(|s| matches!(s, Step::Cell { .. })).count();
    assert!(cells > 0);
    assert!(steps
        .iter()
        .filter(|s| matches!(s, Step::Cell { .. }))
        .all(|_| decide_cell(false, true) == CellAction::Reuse));
}

#[test]
fn schedule_orders_platform_library_arch() {
    let mut config = Config::default();
    config.general.platforms = vec![Platform::Macos, Platform::Android];
    config.general.libraries = vec![Library::Libopusenc, Library::Libopus];
    normalize_libraries(&mut config.general.libraries);
    assert_eq!(config.general.libraries, vec![Library::Libopus, Library::Libopusenc]);
    config.platforms.android.archs = vec![Arch::X86];
    let steps = schedule(&config);
    let expected = vec![
        Step::Cell { platform: Platform::Macos, library: Library::Libopus, arch: Arch::Arm64 },
        Step::Cell { platform: Platform::Macos, library: Library::Libopus, arch: Arch::X86_64 },
        Step::Universal { platform: Platform::Macos, library: Library::Libopus },
        Step::Cell { platform: Platform::Macos, library: Library::Libopusenc, arch: Arch::Arm64 },
        Step::Cell { platform: Platform::Macos, library: Library::Libopusenc, arch: Arch::X86_64 },
        Step::Universal { platform: Platform::Macos, library: Library::Libopusenc },
        Step::Cell { platform: Platform::Android, library: Library::Libopus, arch: Arch::X86 },
        Step::Cell { platform: Platform::Android, library: Library::Libopusenc, arch: Arch::X86 },
        Step::Bundles,
        Step::Headers,
        Step::Cleanup,
    ];
    assert_eq!(steps, expected);
}

#[test]
fn normalize_sorts_into_dependency_order() {
    let mut libs = vec![
        Library::Libopusfile,
        Library::Libogg,
        Library::Libopusenc,
        Library::Libopus,
        Library::Libogg,
    ];
    normalize_libraries(&mut libs);
    assert_eq!(
        libs,
        vec![
            Library::Libogg,
            Library::Libogg,
            Library::Libopus,
            Library::Libopusenc,
            Library::Libopusfile,
        ]
    );
    let mut empty: Vec<Library> = vec![];
    normalize_libraries(&mut empty);
    assert!(empty.is_empty());
    assert_eq!(dependencies_of(Library::Libopusfile), vec![Library::Libopus, Library::Libogg]);
    assert!(dependencies_of(Library::Libopus).is_empty());
}

#[test]
fn universal_with_one_present_arch() {
    let archs = vec![Arch::X86_64, Arch::Arm64];
    let plan = universal_plan("build", Platform::Macos, Library::Libopus, LibType::Static, &archs, &vec![false, true])
        .unwrap()
        .unwrap();
    assert_eq!(plan.inputs, vec!["build/macos/arm64/opus/lib/libopus.a".to_string()]);
    assert_eq!(plan.output, "build/macos/universal/opus/lib/libopus.a");
    assert_eq!(plan.output_dir, "build/macos/universal/opus/lib");
    assert_eq!(plan.header_source, "build/macos/arm64/opus/include");
    assert_eq!(plan.header_dest, "build/macos/universal/opus/include");
}

#[test]
fn universal_skipped_when_nothing_present() {
    let archs = vec![Arch::Arm64, Arch::X86_64];
    let plan = universal_plan("build", Platform::Ios, Library::Libogg, LibType::Static, &archs, &vec![false, false])
        .unwrap();
    assert!(plan.is_none());
    assert_eq!(
        universal_plan("build", Platform::Android, Library::Libogg, LibType::Static, &archs, &vec![true])
            .err(),
        Some(BuildError::UnsupportedPlatform)
    );
    assert_eq!(
        universal_candidates("build", Platform::Macos, Library::Libogg, LibType::Static, &vec![Arch::X86])
            .err(),
        Some(BuildError::UnsupportedArchitecture)
    );
}

#[test]
fn universal_inputs_do_not_depend_on_arch_order() {
    let a = universal_plan("b", Platform::IosSim, Library::Libogg, LibType::Shared, &vec![Arch::Arm64, Arch::X86_64], &vec![true, true])
        .unwrap()
        .unwrap();
    let b = universal_plan("b", Platform::IosSim, Library::Libogg, LibType::Shared, &vec![Arch::X86_64, Arch::Arm64], &vec![true, true])
        .unwrap()
        .unwrap();
    let mut x = a.inputs.clone();
    let mut y = b.inputs.clone();
    x.sort();
    y.sort();
    assert_eq!(x, y);
    assert_eq!(a.output, b.output);
    assert_eq!(universal_dir("b", Platform::IosSim, Library::Libogg), "b/ios-sim/universal/ogg");
}

#[test]
fn bundle_omits_absent_platforms() {
    let plan = bundle_plan("build", Library::Libopus, "v1.5.2", LibType::Static, true, false, true).unwrap();
    assert_eq!(plan.output, "build/lib/darwin/libopus-1.5.2.xcframework");
    assert_eq!(plan.output_dir, "build/lib/darwin");
    assert_eq!(plan.command.program, "xcodebuild");
    assert_eq!(
        plan.command.args,
        vec![
            "-create-xcframework",
            "-library",
            "build/macos/universal/opus/lib/libopus.a",
            "-headers",
            "build/macos/universal/opus/include",
            "-library",
            "build/ios-sim/universal/opus/lib/libopus.a",
            "-headers",
            "build/ios-sim/universal/opus/include",
            "-output",
            "build/lib/darwin/libopus-1.5.2.xcframework",
        ]
        .into_iter()
        .map(String::from)
        .collect::<Vec<_>>()
    );
    assert!(bundle_plan("build", Library::Libopus, "v1", LibType::Static, false, false, false).is_none());
}

#[test]
fn scenario_c_clean_flags() {
    let only_build = CleanOptions::new(false, &CleanArgs { build: true, repo: false });
    assert!(only_build.clean_build_dir && !only_build.clean_repos);
    let only_repo = CleanOptions::new(true, &CleanArgs { build: false, repo: true });
    assert!(!only_repo.clean_build_dir && only_repo.clean_repos && only_repo.verbose);
    let neither = CleanOptions::new(false, &CleanArgs { build: false, repo: false });
    assert!(neither.clean_build_dir && neither.clean_repos);
    assert_eq!(CleanArgs { build: true, repo: true }.normalized(), (true, true));
    assert_eq!(CleanArgs { build: false, repo: false }.normalized(), (true, true));
}

#[test]
fn driver_runs_stages_in_order() {
    let mut s = DriverState::Idle;
    let mut seen = vec![];
    loop {
        s = advance(s, true);
        match s {
            DriverState::Running(stage) => seen.push(stage),
            _ => break,
        }
    }
    assert_eq!(s, DriverState::Done);
    assert_eq!(
        seen,
        vec![
            Stage::AutogenIfPresent,
            Stage::CleanBefore,
            Stage::Configure,
            Stage::Make,
            Stage::MakeInstall,
            Stage::CleanAfter,
        ]
    );
}

#[test]
fn driver_failures() {
    assert_eq!(advance(DriverState::Running(Stage::CleanBefore), false), DriverState::Running(Stage::Configure));
    assert_eq!(advance(DriverState::Running(Stage::CleanAfter), false), DriverState::Done);
    let f = advance(DriverState::Running(Stage::Configure), false);
    assert_eq!(f, DriverState::Failed(Stage::Configure));
    assert_eq!(advance(f, true), f);
    assert_eq!(failure(f), Some(BuildError::ConfigureFailed));
    assert_eq!(failure(DriverState::Failed(Stage::Make)), Some(BuildError::BuildFailed));
    assert_eq!(failure(DriverState::Failed(Stage::MakeInstall)), Some(BuildError::InstallFailed));
    assert_eq!(failure(DriverState::Done), None);
}

#[test]
fn stage_commands() {
    let plan = CellPlan {
        source_dir: "repos/ogg".to_string(),
        prefix: "/p".to_string(),
        autogen_present: false,
        env: vec![("CC".to_string(), "cc".to_string())],
        configure_args: vec!["--host=h".to_string()],
        jobs: 12,
    };
    assert!(plan.command_for(Stage::AutogenIfPresent).is_none());
    let make = plan.command_for(Stage::Make).unwrap();
    assert_eq!(make.program, "make");
    assert_eq!(make.args, vec!["-j12".to_string()]);
    assert_eq!(make.dir, "repos/ogg");
    assert_eq!(make.env, plan.env);
    let clean = plan.command_for(Stage::CleanBefore).unwrap();
    assert_eq!(clean.args, vec!["clean".to_string()]);
    assert!(clean.env.is_empty());
    let conf = plan.command_for(Stage::Configure).unwrap();
    assert_eq!(conf.program, "./configure");
    assert_eq!(conf.describe(), "./configure --host=h");
    assert_eq!(plan.command_for(Stage::MakeInstall).unwrap().args, vec!["install".to_string()]);
}

#[test]
fn header_selection() {
    assert!(is_header_file("ogg.h"));
    assert!(!is_header_file(".h"));
    assert!(!is_header_file("h"));
    assert!(!is_header_file("config.hpp"));
    let names = vec!["a.h".to_string(), "sub.h".to_string(), "b.c".to_string(), "c.h".to_string()];
    assert_eq!(
        select_headers(&names, &vec![true, false, true, true]),
        vec!["a.h".to_string(), "c.h".to_string()]
    );
    let mut config = Config::default();
    config.general.platforms = vec![Platform::Macos, Platform::Android];
    assert_eq!(
        header_candidates(&config, Library::Libopusfile),
        vec![
            "build/macos/arm64/opusfile/include/opus".to_string(),
            "build/android/arm64-v8a/opusfile/include/opus".to_string(),
        ]
    );
    assert_eq!(header_dest(&config, Library::Libogg), "build/include/libogg");
}

#[test]
fn bundle_jobs_need_versions() {
    let mut config = Config::default();
    let jobs = bundle_jobs(&config).unwrap();
    assert_eq!(jobs.len(), 4);
    assert_eq!(jobs[1], (Library::Libopus, "v1.5.2".to_string()));
    config.libraries = LibraryTable::new();
    assert_eq!(bundle_jobs(&config).err(), Some(BuildError::LibraryConfigMissing));
    config.general.platforms = vec![Platform::Android];
    assert!(bundle_jobs(&config).unwrap().is_empty());
    assert!(!has_apple_platform(&config.general.platforms));
}

#[test]
fn versions_and_cleanup() {
    let mut config = Config::default();
    assert_eq!(config.get_library_version(&Library::Libopusfile), Ok("v0.12"));
    let mut opts = opus_builder::config::LibraryBuildOptions::default();
    opts.cflags = Some("-g".to_string());
    config.libraries.insert(Library::Libogg, opts);
    assert_eq!(config.get_library_version(&Library::Libogg), Err(BuildError::VersionNotSpecified));
    assert_eq!(
        intermediate_dirs(&config),
        vec!["build/ios-sim", "build/ios", "build/macos", "build/android"]
            .into_iter()
            .map(String::from)
            .collect::<Vec<_>>()
    );
    config.general.keep_intermediate = true;
    assert!(intermediate_dirs(&config).is_empty());
}

#[test]
fn repositories() {
    let mut config = Config::default();
    config.general.libraries = vec![Library::Libogg, Library::Libopusenc];
    let search = search_paths(&config, &vec!["/home/u".to_string(), "/home".to_string()]);
    assert_eq!(search, vec!["repos".to_string(), "/home/u".to_string(), "/home".to_string()]);
    assert_eq!(
        repo_candidates(&search, "ogg"),
        vec!["repos/ogg".to_string(), "/home/u/ogg".to_string(), "/home/ogg".to_string()]
    );
    assert_eq!(locate_repo(&search, "ogg", &vec![false, true, true]), "/home/u/ogg");
    assert_eq!(locate_repo(&search, "ogg", &vec![]), "repos/ogg");
    let repos = get_repos(&config, &search, &vec![vec![false, false, true]]).unwrap();
    assert_eq!(repos.len(), 2);
    assert_eq!(repos[0].local_path, "/home/ogg");
    assert_eq!(repos[0].url, "https://gitlab.xiph.org/xiph/ogg.git");
    assert_eq!(repos[1].name, "libopusenc");
    assert_eq!(repos[1].local_path, "repos/libopusenc");
    assert_eq!(repos[1].version, "v0.2.1");
}

#[test]
fn repository_commands() {
    let r = Repo {
        name: "opus".to_string(),
        url: "u".to_string(),
        local_path: "repos/opus".to_string(),
        version: "v1.5.2".to_string(),
    };
    assert!(r.keeps_model_file());
    let cmds = r.ensure_commands(false);
    assert_eq!(cmds.len(), 2);
    assert_eq!(cmds[0].args, vec!["clone", "u", "repos/opus"].into_iter().map(String::from).collect::<Vec<_>>());
    assert_eq!(cmds[1].args, vec!["checkout".to_string(), "v1.5.2".to_string()]);
    assert_eq!(cmds[1].dir, "repos/opus");
    assert_eq!(r.ensure_commands(true).len(), 1);
    let clean = r.clean_commands();
    assert_eq!(clean[0].describe(), "git reset --hard");
    assert_eq!(clean[1].describe(), "git clean -fdx");
}

#[test]
fn path_and_text_helpers() {
    assert_eq!(join("", "a"), "a");
    assert_eq!(join("a/", "b"), "a/b");
    assert_eq!(join("a", "b"), "a/b");
    assert_eq!(trim_version("v1.3.5"), "1.3.5");
    assert_eq!(trim_version("vvx"), "x");
    assert_eq!(trim_version("1.0"), "1.0");
    assert_eq!(trim_version(""), "");
    assert_eq!(decimal_string(0), "0");
    assert_eq!(decimal_string(21), "21");
    assert_eq!(decimal_string(u32::MAX), "4294967295");
    assert_eq!(join_strings(&vec!["a".to_string(), "b".to_string()], ":"), "a:b");
    assert_eq!(join_strings(&vec![], ":"), "");
    assert_eq!(lib_file_name(Library::Libopusfile, Platform::Macos, LibType::Shared), "libopusfile.dylib");
    assert_eq!(lib_file_name(Library::Libopusfile, Platform::Android, LibType::Shared), "libopusfile.so");
}

#[test]
fn library_names_and_defaults() {
    assert_eq!(Library::Libopusenc.repo_name(), "libopusenc");
    assert_eq!(Library::Libopusenc.name_wo_lib_prefix(), "opusenc");
    assert_eq!(Library::Libogg.name_with_lib_prefix(), "libogg");
    assert_eq!(Library::Libogg.include_dir(), "include/ogg");
    assert_eq!(Library::Libopusfile.include_dir(), "include/opus");
    assert!(Platform::IosSim.is_darwin());
    assert!(!Platform::Harmony.is_darwin());
    assert_eq!(Platform::IosSim.dir_name(), "ios-sim");
    assert_eq!(LibType::Shared.linux_ext(), "so");
    assert_eq!(LibType::Shared.darwin_ext(), "dylib");
    assert_eq!(LibType::Static.darwin_ext(), "a");
    let c = Config::default();
    assert_eq!(c.platforms.get_archs_for_platform(&Platform::Harmony), &vec![Arch::ArmeabiV7a, Arch::Arm64V8a, Arch::X86_64]);
    assert_eq!(c.platforms.get_lib_type_for_platform(&Platform::Ios), LibType::Static);
    assert_eq!(c.build.cflags, "-O3 -g -DNDEBUG -ffast-math");
    assert_eq!(c.paths.build_dir, "build");
    assert_eq!(c.general.repo_prefix, "https://gitlab.xiph.org/xiph/");
    assert_eq!(c.platforms.macos.min_version, "10.13");
}
