use vstd::prelude::*;

use crate::config::{Arch, LibType, Library, Platform};
use crate::error::BuildError;
use crate::paths::{join, path_join, trim_leading_v, trim_version};
use crate::platforms::{android, darwin, harmony};
use crate::platforms::android::AndroidBuilder;

verus! {

/// Directory token of an architecture on a platform; `None` where the
/// platform does not take the architecture.
pub open spec fn spec_arch_dir(p: Platform, a: Arch) -> Option<Seq<char>> {
    match p {
        Platform::Android => android::spec_abi(a),
        Platform::Harmony => harmony::spec_arch_dir(a),
        _ => darwin::spec_arch_dir(a),
    }
}

/// File extension of a library kind on a platform.
pub open spec fn spec_lib_ext(p: Platform, t: LibType) -> Seq<char> {
    if p.spec_is_darwin() {
        t.spec_darwin_ext()
    } else {
        t.spec_linux_ext()
    }
}

/// File name of a built library: `lib<name>.<ext>`.
pub open spec fn spec_lib_file(l: Library, p: Platform, t: LibType) -> Seq<char> {
    l.spec_name_with_lib_prefix() + "."@ + spec_lib_ext(p, t)
}

/// Install prefix of a cell: `<root>/<platform>/<arch>/<repo>`.
pub open spec fn spec_install_prefix(
    root: Seq<char>,
    platform_dir: Seq<char>,
    arch_dir: Seq<char>,
    l: Library,
) -> Seq<char> {
    path_join(path_join(path_join(root, platform_dir), arch_dir), l.spec_repo_name())
}

/// Where the library file of a cell lands:
/// `<root>/<platform>/<arch>/<repo>/lib/lib<name>.<ext>`.
pub open spec fn spec_expected_path(
    root: Seq<char>,
    p: Platform,
    a: Arch,
    l: Library,
    t: LibType,
) -> Option<Seq<char>> {
    match spec_arch_dir(p, a) {
        None => None,
        Some(dir) => Some(
            path_join(
                path_join(spec_install_prefix(root, p.spec_dir_name(), dir, l), "lib"@),
                spec_lib_file(l, p, t),
            ),
        ),
    }
}

/// Directory of the packaged library of a cell:
/// `<root>/lib/<platform>/<arch>/lib<name>-<version without leading v>`.
pub open spec fn spec_package_dir(
    root: Seq<char>,
    p: Platform,
    arch_dir: Seq<char>,
    l: Library,
    version: Seq<char>,
) -> Seq<char> {
    path_join(
        path_join(path_join(path_join(root, "lib"@), p.spec_dir_name()), arch_dir),
        l.spec_name_with_lib_prefix() + "-"@ + trim_leading_v(version),
    )
}

pub fn arch_dir_name(platform: Platform, arch: Arch) -> (r: Result<&'static str, BuildError>)
    ensures
        match r {
            Ok(s) => spec_arch_dir(platform, arch) == Some(s@),
            Err(e) => spec_arch_dir(platform, arch).is_none() && e
                == BuildError::UnsupportedArchitecture,
        },
{
    match platform {
        Platform::Android => AndroidBuilder::get_android_abi(&arch),
        Platform::Harmony => harmony::arch_dir_name(arch),
        Platform::Macos | Platform::Ios | Platform::IosSim => darwin::arch_dir_name(arch),
    }
}

pub fn lib_file_name(library: Library, platform: Platform, lib_type: LibType) -> (r: String)
    ensures
        r@ == spec_lib_file(library, platform, lib_type),
{
    let ext = if platform.is_darwin() {
        lib_type.darwin_ext()
    } else {
        lib_type.linux_ext()
    };
    library.name_with_lib_prefix().concat(".").concat(ext)
}

pub fn install_prefix(root: &str, platform_dir: &str, arch_dir: &str, library: Library) -> (r:
    String)
    ensures
        r@ == spec_install_prefix(root@, platform_dir@, arch_dir@, library),
{
    join(
        join(join(root, platform_dir).as_str(), arch_dir).as_str(),
        library.repo_name(),
    )
}

/// The library file that a cell produces. The cache check and every later
/// lookup of a cell's output go through this one function.
pub fn expected_library_path(
    build_dir: &str,
    platform: Platform,
    arch: Arch,
    library: Library,
    lib_type: LibType,
) -> (r: Result<String, BuildError>)
    ensures
        match r {
            Ok(s) => spec_expected_path(build_dir@, platform, arch, library, lib_type) == Some(
                s@,
            ),
            Err(e) => spec_expected_path(build_dir@, platform, arch, library, lib_type).is_none()
                && e == BuildError::UnsupportedArchitecture,
        },
{
    let dir = arch_dir_name(platform, arch)?;
    let prefix = install_prefix(build_dir, platform.dir_name(), dir, library);
    let file = lib_file_name(library, platform, lib_type);
    Ok(join(join(prefix.as_str(), "lib").as_str(), file.as_str()))
}

/// Copying a freshly built or cached library into the packaged layout.
pub struct PackagePlan {
    /// The cell's library file, as `expected_library_path` gives it.
    pub source: String,
    /// Directory to create.
    pub dest_dir: String,
    /// Where the file goes.
    pub dest: String,
}

/// Packaging of a cell: Android and Harmony libraries are copied into a
/// `lib<name>-<version>` directory per ABI; Darwin cells are packaged later,
/// by architecture composition (`Ok(None)`).
pub fn package_plan(
    build_dir: &str,
    platform: Platform,
    library: Library,
    version: &str,
    arch: Arch,
    lib_type: LibType,
) -> (r: Result<Option<PackagePlan>, BuildError>)
    ensures
        spec_arch_dir(platform, arch).is_none() ==> r == Err::<Option<PackagePlan>, BuildError>(
            BuildError::UnsupportedArchitecture,
        ),
        spec_arch_dir(platform, arch).is_some() && platform.spec_is_darwin() ==> r is Ok
            && r->Ok_0 is None,
        spec_arch_dir(platform, arch).is_some() && !platform.spec_is_darwin() ==> r is Ok
            && r->Ok_0 is Some,
        r is Ok && r->Ok_0 is Some ==> ({
            let plan = r->Ok_0->Some_0;
            let dir = spec_package_dir(
                build_dir@,
                platform,
                spec_arch_dir(platform, arch).unwrap(),
                library,
                version@,
            );
            &&& Some(plan.source@) == spec_expected_path(
                build_dir@,
                platform,
                arch,
                library,
                lib_type,
            )
            &&& plan.dest_dir@ == dir
            &&& plan.dest@ == path_join(dir, spec_lib_file(library, platform, lib_type))
        }),
{
    let dir = arch_dir_name(platform, arch)?;
    if platform.is_darwin() {
        return Ok(None);
    }
    let source = expected_library_path(build_dir, platform, arch, library, lib_type)?;
    let package_name = library.name_with_lib_prefix().concat("-").concat(
        trim_version(version).as_str(),
    );
    let dest_dir = join(
        join(join(join(build_dir, "lib").as_str(), platform.dir_name()).as_str(), dir).as_str(),
        package_name.as_str(),
    );
    let file = lib_file_name(library, platform, lib_type);
    let dest = join(dest_dir.as_str(), file.as_str());
    Ok(Some(PackagePlan { source, dest_dir, dest }))
}

} // verus!
