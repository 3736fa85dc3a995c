use opus_builder::builder::{cell_plan, Builder, CellFacts};
use opus_builder::config::{Arch, Config, LibType, Library, Platform};
use opus_builder::deps::build_flags;
use opus_builder::error::BuildError;
use opus_builder::platforms::android::AndroidBuilder;
use opus_builder::platforms::darwin::{self, DarwinTools};
use opus_builder::platforms::harmony;
use opus_builder::repo::Repo;
use opus_builder::toolchain::HostOs;

fn repo(name: &str) -> Repo {
    Repo {
        name: name.to_string(),
        url: format!("https://example.org/{name}.git"),
        local_path: format!("repos/{name}"),
        version: "v1".to_string(),
    }
}

fn facts() -> CellFacts {
    CellFacts {
        host_os: HostOs::Linux,
        darwin_tools: Some(DarwinTools {
            cc: "/usr/bin/clang".to_string(),
            sdk_root: "/sdk".to_string(),
        }),
        harmony_bin_present: true,
        harmony_sysroot_present: true,
        dependency_dirs: vec![],
        prefix: "/abs/build/prefix".to_string(),
        autogen_present: true,
    }
}

fn env_value<'a>(env: &'a [(String, String)], name: &str) -> Option<&'a str> {
    env.iter().find(|(k, _)| k == name).map(|(_, v)| v.as_str())
}

#[test]
fn android_toolchain_uses_ndk_llvm() {
    let mut config = Config::default();
    config.platforms.android.ndk_path = "/ndk".to_string();
    config.build.cflags = "-O2".to_string();
    config.build.ldflags = "-s".to_string();
    let tc = AndroidBuilder::prepare_toolchain(Arch::Arm64V8a, &config, HostOs::Linux).unwrap();
    assert_eq!(tc.platform_dir, "android");
    assert_eq!(tc.arch_dir, "arm64-v8a");
    assert_eq!(tc.host, "aarch64-linux-android");
    assert_eq!(
        tc.cc,
        "/ndk/toolchains/llvm/prebuilt/linux-x86_64/bin/clang --target=aarch64-linux-android21"
    );
    assert_eq!(
        tc.cxx.as_deref(),
        Some("/ndk/toolchains/llvm/prebuilt/linux-x86_64/bin/clang++ --target=aarch64-linux-android21")
    );
    assert_eq!(tc.base_cflags, "-Oz -O2");
    assert_eq!(tc.base_ldflags, "-s");
    let names: Vec<&str> = tc.extra_env.iter().map(|(k, _)| k.as_str()).collect();
    assert_eq!(names, vec!["AR", "AS", "LD", "NM", "RANLIB", "STRIP"]);
    assert_eq!(
        env_value(&tc.extra_env, "AR"),
        Some("/ndk/toolchains/llvm/prebuilt/linux-x86_64/bin/llvm-ar")
    );
    assert_eq!(env_value(&tc.extra_env, "AS"), Some(tc.cc.as_str()));
}

#[test]
fn android_toolchain_on_macos_host() {
    let mut config = Config::default();
    config.platforms.android.ndk_path = "/ndk/".to_string();
    config.platforms.android.native_api_level = 24;
    let tc = AndroidBuilder::prepare_toolchain(Arch::ArmeabiV7a, &config, HostOs::Macos).unwrap();
    assert_eq!(
        tc.cc,
        "/ndk/toolchains/llvm/prebuilt/darwin-x86_64/bin/clang --target=arm-linux-androideabi24"
    );
}

#[test]
fn android_refuses_unknown_host_and_arch() {
    let config = Config::default();
    assert_eq!(
        AndroidBuilder::prepare_toolchain(Arch::X86, &config, HostOs::Other).err(),
        Some(BuildError::HostPlatformUnsupported)
    );
    assert_eq!(
        AndroidBuilder::prepare_toolchain(Arch::Arm64, &config, HostOs::Other).err(),
        Some(BuildError::UnsupportedArchitecture)
    );
    assert_eq!(AndroidBuilder::get_android_abi(&Arch::X86), Ok("x86"));
    assert_eq!(AndroidBuilder::get_android_host(&Arch::X86_64), Ok("x86_64-linux-android"));
    assert_eq!(AndroidBuilder::get_host_platform(HostOs::Macos), Ok("darwin-x86_64"));
}

#[test]
fn harmony_toolchain_for_armv7_has_softfp_flags() {
    let mut config = Config::default();
    config.platforms.harmony.ndk_path = "/ohos".to_string();
    config.build.cflags = "-O3".to_string();
    config.build.ldflags = "-flto".to_string();
    let tc = harmony::prepare_toolchain(Arch::ArmeabiV7a, &config, true, true).unwrap();
    assert_eq!(tc.platform_dir, "harmony");
    assert_eq!(tc.arch_dir, "armeabi-v7a");
    assert_eq!(tc.host, "arm-linux");
    assert_eq!(tc.cc, "/ohos/native/llvm/bin/clang --target=arm-linux-ohos");
    assert_eq!(
        tc.base_cflags,
        "-O3 --sysroot=/ohos/native/sysroot -D__MUSL__ -march=armv7-a -mfloat-abi=softfp -mtune=generic-armv7-a -mthumb"
    );
    assert_eq!(tc.base_ldflags, "-flto --sysroot=/ohos/native/sysroot");
    assert_eq!(env_value(&tc.extra_env, "LD"), Some("/ohos/native/llvm/bin/ld.lld"));
    let tc64 = harmony::prepare_toolchain(Arch::Arm64V8a, &config, true, true).unwrap();
    assert!(tc64.base_cflags.ends_with("/ohos/native/sysroot -D__MUSL__"));
}

#[test]
fn harmony_missing_sdk_dirs() {
    let config = Config::default();
    assert_eq!(
        harmony::prepare_toolchain(Arch::X86_64, &config, false, true).err(),
        Some(BuildError::ToolchainNotFound)
    );
    assert_eq!(
        harmony::prepare_toolchain(Arch::X86_64, &config, true, false).err(),
        Some(BuildError::ToolchainNotFound)
    );
    assert_eq!(harmony::toolchain_bin("/ohos"), "/ohos/native/llvm/bin");
    assert_eq!(harmony::sysroot("/ohos/"), "/ohos/native/sysroot");
}

#[test]
fn darwin_toolchain_for_ios_uses_darwin_host() {
    let mut config = Config::default();
    config.build.cflags = "-O3".to_string();
    config.build.ldflags = "-flto".to_string();
    let tools = Some(DarwinTools { cc: "/xc/clang".to_string(), sdk_root: "/sdk/ios".to_string() });
    let tc = darwin::prepare_toolchain(Platform::Ios, Arch::Arm64, &config, &tools).unwrap();
    assert_eq!(tc.platform_dir, "ios");
    assert_eq!(tc.arch_dir, "arm64");
    assert_eq!(tc.host, "arm64-apple-darwin");
    assert_eq!(tc.cc, "/xc/clang --target=arm64-apple-ios11.0");
    assert_eq!(tc.base_cflags, "-arch arm64 -isysroot /sdk/ios -miphoneos-version-min=11.0 -O3");
    assert_eq!(tc.base_ldflags, "-arch arm64 -isysroot /sdk/ios -miphoneos-version-min=11.0 -flto");
    assert!(tc.cxx.is_none());
    assert!(tc.extra_env.is_empty());
    let sim = darwin::prepare_toolchain(Platform::IosSim, Arch::X86_64, &config, &tools).unwrap();
    assert_eq!(sim.cc, "/xc/clang --target=x86_64-apple-ios11.0-simulator");
    assert_eq!(sim.host, "x86_64-apple-darwin");
}

#[test]
fn darwin_errors() {
    let config = Config::default();
    assert_eq!(
        darwin::prepare_toolchain(Platform::Macos, Arch::Arm64, &config, &None).err(),
        Some(BuildError::ToolLookupError)
    );
    assert_eq!(
        darwin::prepare_toolchain(Platform::Android, Arch::Arm64, &config, &None).err(),
        Some(BuildError::UnsupportedPlatform)
    );
    assert_eq!(darwin::sdk_name(Platform::IosSim), Ok("iphonesimulator"));
    assert_eq!(darwin::sdk_name(Platform::Harmony), Err(BuildError::UnsupportedPlatform));
    assert_eq!(
        darwin::min_version_flag(Platform::Macos, &config).unwrap(),
        "-mmacosx-version-min=10.13"
    );
    assert_eq!(
        darwin::clang_target(Platform::Macos, Arch::X86_64, "10.13").unwrap(),
        "x86_64-apple-macos10.13"
    );
}

#[test]
fn illegal_pairs_are_refused_before_probing() {
    let config = Config::default();
    let r = repo("ogg");
    let pairs = [
        (Platform::Harmony, Arch::Arm64),
        (Platform::Harmony, Arch::X86),
        (Platform::Macos, Arch::ArmeabiV7a),
        (Platform::Ios, Arch::X86_64),
        (Platform::IosSim, Arch::Arm64V8a),
        (Platform::Android, Arch::Arm64),
    ];
    for (platform, arch) in pairs {
        let b = Builder::new(platform, arch, Library::Libogg, &r, &config);
        assert_eq!(b.probe_request().err(), Some(BuildError::UnsupportedArchitecture));
        assert_eq!(b.plan(&facts()).err(), Some(BuildError::UnsupportedArchitecture));
    }
}

#[test]
fn missing_dependency_stops_the_cell() {
    let config = Config::default();
    let r = repo("opusfile");
    let b = Builder::new(Platform::Android, Arch::Arm64V8a, Library::Libopusfile, &r, &config);
    let mut f = facts();
    f.dependency_dirs = vec![Some("/abs/opus/lib".to_string()), None];
    assert_eq!(b.plan(&f).err(), Some(BuildError::DependencyNotBuilt(Library::Libogg)));
    f.dependency_dirs = vec![];
    assert_eq!(b.plan(&f).err(), Some(BuildError::DependencyNotBuilt(Library::Libopus)));
}

#[test]
fn dependency_flags_point_at_install_prefixes() {
    let resolved = vec![Some("/abs/opus/lib".to_string()), Some("/abs/ogg/lib".to_string())];
    let f = build_flags("build", "macos", "arm64", Library::Libopusfile, &resolved).unwrap();
    assert_eq!(f.cppflags, " -Ibuild/macos/arm64/opus/include -Ibuild/macos/arm64/ogg/include");
    assert_eq!(f.ldflags, " -L/abs/opus/lib -L/abs/ogg/lib");
    assert_eq!(f.search_paths, resolved.iter().map(|d| d.clone().unwrap()).collect::<Vec<_>>());
    assert_eq!(f.pkg_config_path, "/abs/opus/lib/pkgconfig:/abs/ogg/lib/pkgconfig");
    let none = build_flags("build", "macos", "arm64", Library::Libogg, &vec![]).unwrap();
    assert_eq!(none.cppflags, "");
    assert!(none.search_paths.is_empty());
}

#[test]
fn scenario_b_macos_opusenc_after_opus() {
    let config = Config::default();
    let r = repo("libopusenc");
    let b = Builder::new(Platform::Macos, Arch::Arm64, Library::Libopusenc, &r, &config);
    let probe = b.probe_request().unwrap();
    assert_eq!(probe.dependency_lib_dirs, vec!["build/macos/arm64/opus/lib".to_string()]);
    assert_eq!(probe.prefix, "build/macos/arm64/libopusenc");
    assert_eq!(probe.sdk_name.as_deref(), Some("macosx"));
    assert_eq!(probe.autogen_script, "repos/libopusenc/autogen.sh");
    let mut f = facts();
    f.dependency_dirs = vec![Some("/work/build/macos/arm64/opus/lib".to_string())];
    let plan = b.plan(&f).unwrap();
    let cppflags = env_value(&plan.env, "CPPFLAGS").unwrap();
    let ldflags = env_value(&plan.env, "LDFLAGS").unwrap();
    assert!(cppflags.contains("-Ibuild/macos/arm64/opus/include"));
    assert!(ldflags.contains("-L/work/build/macos/arm64/opus/lib"));
    assert_eq!(
        env_value(&plan.env, "PKG_CONFIG_PATH"),
        Some("/work/build/macos/arm64/opus/lib/pkgconfig")
    );
    assert_eq!(
        plan.configure_args,
        vec![
            "--host=arm64-apple-darwin".to_string(),
            "--prefix=/abs/build/prefix".to_string(),
            "--enable-static".to_string(),
            "--disable-shared".to_string(),
            "--with-pic".to_string(),
        ]
    );
}

#[test]
fn cell_plan_appends_library_options() {
    let mut config = Config::default();
    let mut opts = opus_builder::config::LibraryBuildOptions::default();
    opts.version = Some("v9".to_string());
    opts.cflags = Some("-DX".to_string());
    opts.ldflags = Some("-lm".to_string());
    opts.configure_flags = Some(vec!["--foo".to_string()]);
    config.libraries.insert(Library::Libogg, opts);
    config.build.configure_flags = vec![];
    let tc = AndroidBuilder::prepare_toolchain(Arch::X86, &config, HostOs::Linux).unwrap();
    let flags = build_flags("build", "android", "x86", Library::Libogg, &vec![]).unwrap();
    let plan = cell_plan(&tc, &flags, &config, Library::Libogg, LibType::Shared, "/p", "src/ogg", false);
    assert_eq!(env_value(&plan.env, "CFLAGS"), Some(format!("{} -DX", tc.base_cflags).as_str()));
    assert_eq!(env_value(&plan.env, "CXXFLAGS"), Some(format!("{} -DX", tc.base_cflags).as_str()));
    assert_eq!(env_value(&plan.env, "LDFLAGS"), Some(format!("{} -lm", tc.base_ldflags).as_str()));
    assert_eq!(env_value(&plan.env, "PKG_CONFIG_PATH"), None);
    assert_eq!(
        plan.configure_args,
        vec![
            "--host=i686-linux-android".to_string(),
            "--prefix=/p".to_string(),
            "--disable-static".to_string(),
            "--enable-shared".to_string(),
            "--foo".to_string(),
        ]
    );
    assert_eq!(plan.jobs, 8);
    assert_eq!(plan.source_dir, "src/ogg");
}
