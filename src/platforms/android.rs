use vstd::prelude::*;

use crate::config::{Arch, Config};
use crate::error::BuildError;
use crate::paths::{decimal, decimal_string, join, path_join};
use crate::toolchain::{
    AutotoolsToolchain, HostOs, ToolchainView, env_pair, toolchain_result,
};

verus! {

/// Android NDK toolchain builder.
pub struct AndroidBuilder;

/// ABI directory of an Android architecture.
pub open spec fn spec_abi(a: Arch) -> Option<Seq<char>> {
    match a {
        Arch::ArmeabiV7a => Some("armeabi-v7a"@),
        Arch::Arm64V8a => Some("arm64-v8a"@),
        Arch::X86 => Some("x86"@),
        Arch::X86_64 => Some("x86_64"@),
        _ => None,
    }
}

/// NDK target triple of an Android architecture.
pub open spec fn spec_host(a: Arch) -> Seq<char> {
    match a {
        Arch::ArmeabiV7a => "arm-linux-androideabi"@,
        Arch::Arm64V8a => "aarch64-linux-android"@,
        Arch::X86 => "i686-linux-android"@,
        _ => "x86_64-linux-android"@,
    }
}

/// Directory of the NDK's prebuilt toolchain for the machine running the build.
pub open spec fn spec_host_platform(h: HostOs) -> Option<Seq<char>> {
    match h {
        HostOs::Macos => Some("darwin-x86_64"@),
        HostOs::Linux => Some("linux-x86_64"@),
        HostOs::Other => None,
    }
}

/// `bin` directory of the NDK's LLVM toolchain.
pub open spec fn spec_toolchain_bin(ndk: Seq<char>, host_platform: Seq<char>) -> Seq<char> {
    path_join(path_join(path_join(ndk, "toolchains/llvm/prebuilt"@), host_platform), "bin"@)
}

/// The NDK toolchain of an architecture.
pub open spec fn spec_toolchain(a: Arch, c: &Config, h: HostOs) -> Result<
    ToolchainView,
    BuildError,
> {
    if spec_abi(a).is_none() {
        Err(BuildError::UnsupportedArchitecture)
    } else if spec_host_platform(h).is_none() {
        Err(BuildError::HostPlatformUnsupported)
    } else {
        let bin = spec_toolchain_bin(c.platforms.android.ndk_path@, spec_host_platform(h).unwrap());
        let target = spec_host(a) + decimal(c.platforms.android.native_api_level as nat);
        let cc = path_join(bin, "clang"@) + " --target="@ + target;
        Ok(
            ToolchainView {
                platform_dir: "android"@,
                arch_dir: spec_abi(a).unwrap(),
                host: spec_host(a),
                cc: cc,
                cxx: Some(path_join(bin, "clang++"@) + " --target="@ + target),
                extra_env: seq![
                    ("AR"@, path_join(bin, "llvm-ar"@)),
                    ("AS"@, cc),
                    ("LD"@, path_join(bin, "ld"@)),
                    ("NM"@, path_join(bin, "llvm-nm"@)),
                    ("RANLIB"@, path_join(bin, "llvm-ranlib"@)),
                    ("STRIP"@, path_join(bin, "llvm-strip"@)),
                ],
                base_cflags: "-Oz "@ + c.build.cflags@,
                base_ldflags: c.build.ldflags@,
            },
        )
    }
}

impl AndroidBuilder {
    pub fn new() -> (r: AndroidBuilder) {
        AndroidBuilder
    }

    pub fn get_android_abi(arch: &Arch) -> (r: Result<&'static str, BuildError>)
        ensures
            match r {
                Ok(s) => spec_abi(*arch) == Some(s@),
                Err(e) => spec_abi(*arch).is_none() && e == BuildError::UnsupportedArchitecture,
            },
    {
        match arch {
            Arch::ArmeabiV7a => Ok("armeabi-v7a"),
            Arch::Arm64V8a => Ok("arm64-v8a"),
            Arch::X86 => Ok("x86"),
            Arch::X86_64 => Ok("x86_64"),
            _ => Err(BuildError::UnsupportedArchitecture),
        }
    }

    pub fn get_android_host(arch: &Arch) -> (r: Result<&'static str, BuildError>)
        ensures
            match r {
                Ok(s) => spec_abi(*arch).is_some() && s@ == spec_host(*arch),
                Err(e) => spec_abi(*arch).is_none() && e == BuildError::UnsupportedArchitecture,
            },
    {
        match arch {
            Arch::ArmeabiV7a => Ok("arm-linux-androideabi"),
            Arch::Arm64V8a => Ok("aarch64-linux-android"),
            Arch::X86 => Ok("i686-linux-android"),
            Arch::X86_64 => Ok("x86_64-linux-android"),
            _ => Err(BuildError::UnsupportedArchitecture),
        }
    }

    /// The NDK ships prebuilt toolchains for macOS and Linux hosts only.
    pub fn get_host_platform(host: HostOs) -> (r: Result<&'static str, BuildError>)
        ensures
            match r {
                Ok(s) => spec_host_platform(host) == Some(s@),
                Err(e) => spec_host_platform(host).is_none() && e
                    == BuildError::HostPlatformUnsupported,
            },
    {
        match host {
            HostOs::Macos => Ok("darwin-x86_64"),
            HostOs::Linux => Ok("linux-x86_64"),
            HostOs::Other => Err(BuildError::HostPlatformUnsupported),
        }
    }

    /// Resolves the NDK toolchain of an architecture on the given host.
    pub fn prepare_toolchain(arch: Arch, config: &Config, host: HostOs) -> (r: Result<
        AutotoolsToolchain,
        BuildError,
    >)
        ensures
            toolchain_result(r) == spec_toolchain(arch, config, host),
    {
        let abi = Self::get_android_abi(&arch)?;
        let triple = Self::get_android_host(&arch)?;
        let host_platform = Self::get_host_platform(host)?;
        let ndk = &config.platforms.android.ndk_path;
        let bin = join(
            join(join(ndk.as_str(), "toolchains/llvm/prebuilt").as_str(), host_platform).as_str(),
            "bin",
        );
        let api = decimal_string(config.platforms.android.native_api_level);
        let target = triple.to_owned().concat(api.as_str());
        let cc = join(bin.as_str(), "clang").concat(" --target=").concat(target.as_str());
        let cxx = join(bin.as_str(), "clang++").concat(" --target=").concat(target.as_str());
        let mut extra_env: Vec<(String, String)> = Vec::new();
        extra_env.push(env_pair("AR", join(bin.as_str(), "llvm-ar").as_str()));
        extra_env.push(env_pair("AS", cc.as_str()));
        extra_env.push(env_pair("LD", join(bin.as_str(), "ld").as_str()));
        extra_env.push(env_pair("NM", join(bin.as_str(), "llvm-nm").as_str()));
        extra_env.push(env_pair("RANLIB", join(bin.as_str(), "llvm-ranlib").as_str()));
        extra_env.push(env_pair("STRIP", join(bin.as_str(), "llvm-strip").as_str()));
        let r = AutotoolsToolchain {
            platform_dir: "android".to_owned(),
            arch_dir: abi.to_owned(),
            host: triple.to_owned(),
            cc,
            cxx: Some(cxx),
            extra_env,
            base_cflags: "-Oz ".to_owned().concat(config.build.cflags.as_str()),
            base_ldflags: config.build.ldflags.clone(),
        };
        proof {
            let v = spec_toolchain(arch, config, host).unwrap();
            assert(r@.extra_env =~= v.extra_env);
        }
        Ok(r)
    }
}

} // verus!
