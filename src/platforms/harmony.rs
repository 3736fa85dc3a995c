use vstd::prelude::*;

use crate::config::{Arch, Config};
use crate::error::BuildError;
use crate::paths::{join, path_join};
use crate::toolchain::{AutotoolsToolchain, ToolchainView, env_pair, toolchain_result};

verus! {

/// Directory token of a Harmony architecture.
pub open spec fn spec_arch_dir(a: Arch) -> Option<Seq<char>> {
    match a {
        Arch::ArmeabiV7a => Some("armeabi-v7a"@),
        Arch::Arm64V8a => Some("arm64-v8a"@),
        Arch::X86_64 => Some("x86_64"@),
        _ => None,
    }
}

pub open spec fn spec_clang_target(a: Arch) -> Seq<char> {
    match a {
        Arch::ArmeabiV7a => "arm-linux-ohos"@,
        Arch::Arm64V8a => "aarch64-linux-ohos"@,
        _ => "x86_64-linux-ohos"@,
    }
}

pub open spec fn spec_configure_host(a: Arch) -> Seq<char> {
    match a {
        Arch::ArmeabiV7a => "arm-linux"@,
        Arch::Arm64V8a => "aarch64-linux"@,
        _ => "x86_64-linux"@,
    }
}

/// musl flags; the 32-bit ARM target also gets the soft-float ABI flags.
pub open spec fn spec_arch_cflags(a: Arch) -> Seq<char> {
    match a {
        Arch::ArmeabiV7a => "-D__MUSL__ -march=armv7-a -mfloat-abi=softfp -mtune=generic-armv7-a -mthumb"@,
        _ => "-D__MUSL__"@,
    }
}

pub open spec fn spec_toolchain_bin(ndk: Seq<char>) -> Seq<char> {
    path_join(ndk, "native/llvm/bin"@)
}

pub open spec fn spec_sysroot(ndk: Seq<char>) -> Seq<char> {
    path_join(ndk, "native/sysroot"@)
}

/// The OHOS toolchain of an architecture, given whether the SDK's `bin`
/// and `sysroot` directories exist.
pub open spec fn spec_toolchain(
    a: Arch,
    c: &Config,
    bin_present: bool,
    sysroot_present: bool,
) -> Result<ToolchainView, BuildError> {
    if spec_arch_dir(a).is_none() {
        Err(BuildError::UnsupportedArchitecture)
    } else if !bin_present || !sysroot_present {
        Err(BuildError::ToolchainNotFound)
    } else {
        let bin = spec_toolchain_bin(c.platforms.harmony.ndk_path@);
        let sysroot = spec_sysroot(c.platforms.harmony.ndk_path@);
        Ok(
            ToolchainView {
                platform_dir: "harmony"@,
                arch_dir: spec_arch_dir(a).unwrap(),
                host: spec_configure_host(a),
                cc: path_join(bin, "clang"@) + " --target="@ + spec_clang_target(a),
                cxx: Some(path_join(bin, "clang++"@) + " --target="@ + spec_clang_target(a)),
                extra_env: seq![
                    ("AR"@, path_join(bin, "llvm-ar"@)),
                    ("LD"@, path_join(bin, "ld.lld"@)),
                    ("NM"@, path_join(bin, "llvm-nm"@)),
                    ("RANLIB"@, path_join(bin, "llvm-ranlib"@)),
                    ("STRIP"@, path_join(bin, "llvm-strip"@)),
                ],
                base_cflags: c.build.cflags@ + " --sysroot="@ + sysroot + " "@ + spec_arch_cflags(
                    a,
                ),
                base_ldflags: c.build.ldflags@ + " --sysroot="@ + sysroot,
            },
        )
    }
}

pub fn arch_dir_name(arch: Arch) -> (r: Result<&'static str, BuildError>)
    ensures
        match r {
            Ok(s) => spec_arch_dir(arch) == Some(s@),
            Err(e) => spec_arch_dir(arch).is_none() && e == BuildError::UnsupportedArchitecture,
        },
{
    match arch {
        Arch::ArmeabiV7a => Ok("armeabi-v7a"),
        Arch::Arm64V8a => Ok("arm64-v8a"),
        Arch::X86_64 => Ok("x86_64"),
        _ => Err(BuildError::UnsupportedArchitecture),
    }
}

pub fn clang_target(arch: Arch) -> (r: Result<&'static str, BuildError>)
    ensures
        match r {
            Ok(s) => spec_arch_dir(arch).is_some() && s@ == spec_clang_target(arch),
            Err(e) => spec_arch_dir(arch).is_none() && e == BuildError::UnsupportedArchitecture,
        },
{
    match arch {
        Arch::ArmeabiV7a => Ok("arm-linux-ohos"),
        Arch::Arm64V8a => Ok("aarch64-linux-ohos"),
        Arch::X86_64 => Ok("x86_64-linux-ohos"),
        _ => Err(BuildError::UnsupportedArchitecture),
    }
}

pub fn configure_host(arch: Arch) -> (r: Result<&'static str, BuildError>)
    ensures
        match r {
            Ok(s) => spec_arch_dir(arch).is_some() && s@ == spec_configure_host(arch),
            Err(e) => spec_arch_dir(arch).is_none() && e == BuildError::UnsupportedArchitecture,
        },
{
    match arch {
        Arch::ArmeabiV7a => Ok("arm-linux"),
        Arch::Arm64V8a => Ok("aarch64-linux"),
        Arch::X86_64 => Ok("x86_64-linux"),
        _ => Err(BuildError::UnsupportedArchitecture),
    }
}

pub fn arch_cflags(arch: Arch) -> (r: Result<&'static str, BuildError>)
    ensures
        match r {
            Ok(s) => spec_arch_dir(arch).is_some() && s@ == spec_arch_cflags(arch),
            Err(e) => spec_arch_dir(arch).is_none() && e == BuildError::UnsupportedArchitecture,
        },
{
    match arch {
        Arch::ArmeabiV7a => Ok(
            "-D__MUSL__ -march=armv7-a -mfloat-abi=softfp -mtune=generic-armv7-a -mthumb",
        ),
        Arch::Arm64V8a | Arch::X86_64 => Ok("-D__MUSL__"),
        _ => Err(BuildError::UnsupportedArchitecture),
    }
}

/// Where the SDK keeps its LLVM binaries.
pub fn toolchain_bin(ndk_path: &str) -> (r: String)
    ensures
        r@ == spec_toolchain_bin(ndk_path@),
{
    join(ndk_path, "native/llvm/bin")
}

/// Where the SDK keeps its system root.
pub fn sysroot(ndk_path: &str) -> (r: String)
    ensures
        r@ == spec_sysroot(ndk_path@),
{
    join(ndk_path, "native/sysroot")
}

/// Resolves the OHOS toolchain of an architecture; `bin_present` and
/// `sysroot_present` tell whether `toolchain_bin` and `sysroot` of the
/// configured SDK exist.
pub fn prepare_toolchain(
    arch: Arch,
    config: &Config,
    bin_present: bool,
    sysroot_present: bool,
) -> (r: Result<AutotoolsToolchain, BuildError>)
    ensures
        toolchain_result(r) == spec_toolchain(arch, config, bin_present, sysroot_present),
{
    let arch_dir = arch_dir_name(arch)?;
    let host = configure_host(arch)?;
    let target = clang_target(arch)?;
    let arch_flags = arch_cflags(arch)?;
    if !bin_present || !sysroot_present {
        return Err(BuildError::ToolchainNotFound);
    }
    let ndk = config.platforms.harmony.ndk_path.as_str();
    let bin = toolchain_bin(ndk);
    let root = sysroot(ndk);
    let cc = join(bin.as_str(), "clang").concat(" --target=").concat(target);
    let cxx = join(bin.as_str(), "clang++").concat(" --target=").concat(target);
    let mut extra_env: Vec<(String, String)> = Vec::new();
    extra_env.push(env_pair("AR", join(bin.as_str(), "llvm-ar").as_str()));
    extra_env.push(env_pair("LD", join(bin.as_str(), "ld.lld").as_str()));
    extra_env.push(env_pair("NM", join(bin.as_str(), "llvm-nm").as_str()));
    extra_env.push(env_pair("RANLIB", join(bin.as_str(), "llvm-ranlib").as_str()));
    extra_env.push(env_pair("STRIP", join(bin.as_str(), "llvm-strip").as_str()));
    let base_cflags = config.build.cflags.clone().concat(" --sysroot=").concat(root.as_str()).concat(
        " ",
    ).concat(arch_flags);
    let base_ldflags = config.build.ldflags.clone().concat(" --sysroot=").concat(root.as_str());
    let r = AutotoolsToolchain {
        platform_dir: "harmony".to_owned(),
        arch_dir: arch_dir.to_owned(),
        host: host.to_owned(),
        cc,
        cxx: Some(cxx),
        extra_env,
        base_cflags,
        base_ldflags,
    };
    proof {
        let v = spec_toolchain(arch, config, bin_present, sysroot_present).unwrap();
        assert(r@.extra_env =~= v.extra_env);
    }
    Ok(r)
}

} // verus!
