use vstd::prelude::*;

use crate::config::{Arch, Config, Platform};
use crate::error::BuildError;
use crate::toolchain::{AutotoolsToolchain, ToolchainView, toolchain_result};

verus! {

/// Apple toolchain builder for macOS, iOS and the iOS simulator.
pub struct DarwinBuilder;

impl DarwinBuilder {
    pub fn new() -> (r: DarwinBuilder) {
        DarwinBuilder
    }
}

/// What the host SDK locator reported: the compiler and the SDK root.
pub struct DarwinTools {
    pub cc: String,
    pub sdk_root: String,
}

/// SDK name of a Darwin platform.
pub open spec fn spec_sdk_name(p: Platform) -> Option<Seq<char>> {
    match p {
        Platform::Macos => Some("macosx"@),
        Platform::Ios => Some("iphoneos"@),
        Platform::IosSim => Some("iphonesimulator"@),
        _ => None,
    }
}

/// Directory token of an architecture on Darwin platforms.
pub open spec fn spec_arch_dir(a: Arch) -> Option<Seq<char>> {
    match a {
        Arch::X86_64 => Some("x86_64"@),
        Arch::Arm64 => Some("arm64"@),
        _ => None,
    }
}

/// The (platform, architecture) pairs that the Apple toolchain builds.
pub open spec fn spec_legal(p: Platform, a: Arch) -> bool {
    match (p, a) {
        (Platform::Macos, Arch::X86_64) => true,
        (Platform::Macos, Arch::Arm64) => true,
        (Platform::Ios, Arch::Arm64) => true,
        (Platform::IosSim, Arch::X86_64) => true,
        (Platform::IosSim, Arch::Arm64) => true,
        _ => false,
    }
}

/// The minimum OS version flag of a Darwin platform, from its settings.
pub open spec fn spec_min_version_flag(p: Platform, c: &Config) -> Seq<char> {
    match p {
        Platform::Macos => "-mmacosx-version-min="@ + c.platforms.macos.min_version@,
        Platform::Ios => "-miphoneos-version-min="@ + c.platforms.ios.min_version@,
        _ => "-mios-simulator-version-min="@ + c.platforms.ios_sim.min_version@,
    }
}

/// The configured minimum OS version of a Darwin platform.
pub open spec fn spec_min_version(p: Platform, c: &Config) -> Seq<char> {
    match p {
        Platform::Macos => c.platforms.macos.min_version@,
        Platform::Ios => c.platforms.ios.min_version@,
        _ => c.platforms.ios_sim.min_version@,
    }
}

/// Clang target triple of a legal pair, with the minimum version `v`.
pub open spec fn spec_clang_target(p: Platform, a: Arch, v: Seq<char>) -> Seq<char> {
    let arch = spec_arch_dir(a).unwrap();
    match p {
        Platform::Macos => arch + "-apple-macos"@ + v,
        Platform::Ios => arch + "-apple-ios"@ + v,
        _ => arch + "-apple-ios"@ + v + "-simulator"@,
    }
}

/// configure's `--host`: a `*-apple-darwin` triple for every Darwin platform,
/// iOS included, because the autotools scripts in use do not detect shared
/// library support from iOS host triples.
pub open spec fn spec_configure_host(a: Arch) -> Seq<char> {
    spec_arch_dir(a).unwrap() + "-apple-darwin"@
}

/// Flags shared by compiling and linking for a legal pair.
pub open spec fn spec_target_flags(
    p: Platform,
    a: Arch,
    c: &Config,
    sdk_root: Seq<char>,
) -> Seq<char> {
    "-arch "@ + spec_arch_dir(a).unwrap() + " -isysroot "@ + sdk_root + " "@
        + spec_min_version_flag(p, c)
}

/// The Apple toolchain for a pair, given what the SDK locator reported
/// (`None` when the lookup failed).
pub open spec fn spec_toolchain(
    p: Platform,
    a: Arch,
    c: &Config,
    tools: Option<(Seq<char>, Seq<char>)>,
) -> Result<ToolchainView, BuildError> {
    if !p.spec_is_darwin() {
        Err(BuildError::UnsupportedPlatform)
    } else if !spec_legal(p, a) {
        Err(BuildError::UnsupportedArchitecture)
    } else {
        match tools {
            None => Err(BuildError::ToolLookupError),
            Some((cc, sdk_root)) => Ok(
                ToolchainView {
                    platform_dir: p.spec_dir_name(),
                    arch_dir: spec_arch_dir(a).unwrap(),
                    host: spec_configure_host(a),
                    cc: cc + " --target="@ + spec_clang_target(p, a, spec_min_version(p, c)),
                    cxx: None,
                    extra_env: Seq::empty(),
                    base_cflags: spec_target_flags(p, a, c, sdk_root) + " "@ + c.build.cflags@,
                    base_ldflags: spec_target_flags(p, a, c, sdk_root) + " "@
                        + c.build.ldflags@,
                },
            ),
        }
    }
}

pub open spec fn tools_view(t: Option<DarwinTools>) -> Option<(Seq<char>, Seq<char>)> {
    match t {
        Some(t) => Some((t.cc@, t.sdk_root@)),
        None => None,
    }
}

pub fn sdk_name(platform: Platform) -> (r: Result<&'static str, BuildError>)
    ensures
        match r {
            Ok(s) => spec_sdk_name(platform) == Some(s@),
            Err(e) => spec_sdk_name(platform).is_none() && e == BuildError::UnsupportedPlatform,
        },
{
    match platform {
        Platform::Macos => Ok("macosx"),
        Platform::Ios => Ok("iphoneos"),
        Platform::IosSim => Ok("iphonesimulator"),
        _ => Err(BuildError::UnsupportedPlatform),
    }
}

pub fn arch_dir_name(arch: Arch) -> (r: Result<&'static str, BuildError>)
    ensures
        match r {
            Ok(s) => spec_arch_dir(arch) == Some(s@),
            Err(e) => spec_arch_dir(arch).is_none() && e == BuildError::UnsupportedArchitecture,
        },
{
    match arch {
        Arch::X86_64 => Ok("x86_64"),
        Arch::Arm64 => Ok("arm64"),
        _ => Err(BuildError::UnsupportedArchitecture),
    }
}

/// The configured minimum version of a Darwin platform.
fn min_version(platform: Platform, config: &Config) -> (r: &str)
    requires
        platform.spec_is_darwin(),
    ensures
        r@ == spec_min_version(platform, config),
{
    match platform {
        Platform::Macos => config.platforms.macos.min_version.as_str(),
        Platform::Ios => config.platforms.ios.min_version.as_str(),
        _ => config.platforms.ios_sim.min_version.as_str(),
    }
}

pub fn min_version_flag(platform: Platform, config: &Config) -> (r: Result<String, BuildError>)
    ensures
        match r {
            Ok(s) => platform.spec_is_darwin() && s@ == spec_min_version_flag(platform, config),
            Err(e) => !platform.spec_is_darwin() && e == BuildError::UnsupportedPlatform,
        },
{
    match platform {
        Platform::Macos => Ok(
            "-mmacosx-version-min=".to_owned().concat(config.platforms.macos.min_version.as_str()),
        ),
        Platform::Ios => Ok(
            "-miphoneos-version-min=".to_owned().concat(config.platforms.ios.min_version.as_str()),
        ),
        Platform::IosSim => Ok(
            "-mios-simulator-version-min=".to_owned().concat(
                config.platforms.ios_sim.min_version.as_str(),
            ),
        ),
        _ => Err(BuildError::UnsupportedPlatform),
    }
}

pub fn clang_target(platform: Platform, arch: Arch, min_version: &str) -> (r: Result<
    String,
    BuildError,
>)
    ensures
        match r {
            Ok(s) => spec_legal(platform, arch) && s@ == spec_clang_target(
                platform,
                arch,
                min_version@,
            ),
            Err(e) => !spec_legal(platform, arch) && e == BuildError::UnsupportedArchitecture,
        },
{
    match (platform, arch) {
        (Platform::Macos, Arch::X86_64) | (Platform::Macos, Arch::Arm64) => {
            let dir = arch_dir_name(arch)?;
            Ok(dir.to_owned().concat("-apple-macos").concat(min_version))
        },
        (Platform::Ios, Arch::Arm64) => {
            let dir = arch_dir_name(arch)?;
            Ok(dir.to_owned().concat("-apple-ios").concat(min_version))
        },
        (Platform::IosSim, Arch::X86_64) | (Platform::IosSim, Arch::Arm64) => {
            let dir = arch_dir_name(arch)?;
            Ok(dir.to_owned().concat("-apple-ios").concat(min_version).concat("-simulator"))
        },
        _ => Err(BuildError::UnsupportedArchitecture),
    }
}

pub fn configure_host(arch: Arch) -> (r: Result<String, BuildError>)
    ensures
        match r {
            Ok(s) => spec_arch_dir(arch).is_some() && s@ == spec_configure_host(arch),
            Err(e) => spec_arch_dir(arch).is_none() && e == BuildError::UnsupportedArchitecture,
        },
{
    let dir = arch_dir_name(arch)?;
    Ok(dir.to_owned().concat("-apple-darwin"))
}

/// Resolves the Apple toolchain of a pair from what the SDK locator
/// reported for the platform's SDK.
pub fn prepare_toolchain(
    platform: Platform,
    arch: Arch,
    config: &Config,
    tools: &Option<DarwinTools>,
) -> (r: Result<AutotoolsToolchain, BuildError>)
    ensures
        toolchain_result(r) == spec_toolchain(platform, arch, config, tools_view(*tools)),
{
    if !platform.is_darwin() {
        return Err(BuildError::UnsupportedPlatform);
    }
    let min_ver = min_version(platform, config);
    let target = clang_target(platform, arch, min_ver)?;
    let arch_dir = arch_dir_name(arch)?;
    let host = configure_host(arch)?;
    let min_flag = min_version_flag(platform, config)?;
    match tools {
        None => Err(BuildError::ToolLookupError),
        Some(t) => {
            let target_flags = "-arch ".to_owned().concat(arch_dir).concat(" -isysroot ").concat(
                t.sdk_root.as_str(),
            ).concat(" ").concat(min_flag.as_str());
            let cflags = target_flags.clone().concat(" ").concat(config.build.cflags.as_str());
            let ldflags = target_flags.concat(" ").concat(config.build.ldflags.as_str());
            let cc = t.cc.clone().concat(" --target=").concat(target.as_str());
            let r = AutotoolsToolchain {
                platform_dir: platform.dir_name().to_owned(),
                arch_dir: arch_dir.to_owned(),
                host,
                cc,
                cxx: None,
                extra_env: Vec::new(),
                base_cflags: cflags,
                base_ldflags: ldflags,
            };
            proof {
                assert(r@.extra_env =~= Seq::<(Seq<char>, Seq<char>)>::empty());
            }
            Ok(r)
        },
    }
}

} // verus!
