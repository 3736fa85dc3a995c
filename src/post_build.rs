use vstd::prelude::*;

use crate::config::{Config, Library, Platform, version_spec};
use crate::error::BuildError;
use crate::locator::{arch_dir_name, install_prefix, spec_arch_dir, spec_install_prefix};
use crate::paths::{join, path_join};
use crate::toolchain::strs;

verus! {

/// Whether a file name has the extension `h`: it ends in `.h` and has
/// something before that dot.
pub open spec fn spec_is_header(name: Seq<char>) -> bool {
    name.len() >= 3 && name[name.len() - 2] == '.' && name[name.len() - 1] == 'h'
}

pub fn is_header_file(name: &str) -> (r: bool)
    ensures
        r == spec_is_header(name@),
{
    let n = name.unicode_len();
    n >= 3 && name.get_char(n - 2) == '.' && name.get_char(n - 1) == 'h'
}

/// The names among `names` that are regular files (`is_file`) with a header
/// extension, in order.
pub open spec fn spec_headers(names: Seq<String>, is_file: Seq<bool>, n: nat) -> Seq<Seq<char>>
    decreases n,
{
    if n == 0 {
        Seq::empty()
    } else {
        let prev = spec_headers(names, is_file, (n - 1) as nat);
        let i = n - 1;
        if i < names.len() && i < is_file.len() && is_file[i] && spec_is_header(names[i]@) {
            prev.push(names[i]@)
        } else {
            prev
        }
    }
}

/// The entries of a directory listing to copy: the top-level header files.
pub fn select_headers(names: &Vec<String>, is_file: &Vec<bool>) -> (r: Vec<String>)
    ensures
        strs(r@) == spec_headers(names@, is_file@, names@.len()),
{
    let mut out: Vec<String> = Vec::new();
    let mut i: usize = 0;
    while i < names.len()
        invariant
            i <= names@.len(),
            strs(out@) == spec_headers(names@, is_file@, i as nat),
        decreases names.len() - i,
    {
        let ghost before = out@;
        if i < is_file.len() && is_file[i] && is_header_file(names[i].as_str()) {
            out.push(names[i].clone());
            proof {
                assert(strs(out@) =~= strs(before).push(names@[i as int]@));
            }
        }
        i = i + 1;
    }
    out
}

/// The header directory of a library in the first architecture's install
/// tree of each platform, in platform order; platforms without a usable
/// first architecture contribute nothing.
pub open spec fn spec_header_candidates(c: &Config, l: Library, platforms: Seq<Platform>) -> Seq<
    Seq<char>,
>
    decreases platforms.len(),
{
    if platforms.len() == 0 {
        Seq::empty()
    } else {
        let prev = spec_header_candidates(c, l, platforms.drop_last());
        let p = platforms.last();
        let archs = c.platforms.spec_archs(p);
        if archs.len() > 0 && spec_arch_dir(p, archs[0]) is Some {
            prev.push(
                path_join(
                    spec_install_prefix(
                        c.paths.build_dir@,
                        p.spec_dir_name(),
                        spec_arch_dir(p, archs[0]).unwrap(),
                        l,
                    ),
                    l.spec_include_dir(),
                ),
            )
        } else {
            prev
        }
    }
}

/// Where a library's headers may be taken from, best first: the app copies
/// from the first that exists.
pub fn header_candidates(config: &Config, library: Library) -> (r: Vec<String>)
    ensures
        strs(r@) == spec_header_candidates(config, library, config.general.platforms@),
{
    let platforms = &config.general.platforms;
    let mut out: Vec<String> = Vec::new();
    let mut i: usize = 0;
    while i < platforms.len()
        invariant
            i <= platforms@.len(),
            platforms@ == config.general.platforms@,
            strs(out@) == spec_header_candidates(config, library, platforms@.subrange(0, i as int)),
        decreases platforms.len() - i,
    {
        let platform = platforms[i];
        let archs = config.platforms.get_archs_for_platform(&platform);
        let ghost before = out@;
        proof {
            let sub = platforms@.subrange(0, i as int + 1);
            assert(sub.drop_last() =~= platforms@.subrange(0, i as int));
        }
        if archs.len() > 0 {
            match arch_dir_name(platform, archs[0]) {
                Ok(adir) => {
                    let prefix = install_prefix(
                        config.paths.build_dir.as_str(),
                        platform.dir_name(),
                        adir,
                        library,
                    );
                    out.push(join(prefix.as_str(), library.include_dir().as_str()));
                    proof {
                        assert(strs(out@) =~= strs(before).push(out@[before.len() as int]@));
                    }
                },
                Err(_) => {},
            }
        }
        i = i + 1;
    }
    proof {
        assert(platforms@.subrange(0, platforms@.len() as int) =~= platforms@);
    }
    out
}

/// The shared include directory of a library: `<root>/include/lib<name>`.
pub fn header_dest(config: &Config, library: Library) -> (r: String)
    ensures
        r@ == path_join(
            path_join(config.paths.build_dir@, "include"@),
            library.spec_name_with_lib_prefix(),
        ),
{
    join(
        join(config.paths.build_dir.as_str(), "include").as_str(),
        library.name_with_lib_prefix().as_str(),
    )
}

/// Whether any platform of the list is a Darwin platform.
pub open spec fn spec_has_apple(platforms: Seq<Platform>) -> bool {
    exists|i: int| 0 <= i < platforms.len() && (#[trigger] platforms[i]).spec_is_darwin()
}

pub fn has_apple_platform(platforms: &Vec<Platform>) -> (r: bool)
    ensures
        r == spec_has_apple(platforms@),
{
    let mut i: usize = 0;
    while i < platforms.len()
        invariant
            i <= platforms@.len(),
            forall|j: int| 0 <= j < i ==> !(#[trigger] platforms@[j]).spec_is_darwin(),
        decreases platforms.len() - i,
    {
        if platforms[i].is_darwin() {
            return true;
        }
        i = i + 1;
    }
    false
}

/// The first library of `libs` (below `n`) without a usable version.
pub open spec fn first_unversioned(c: &Config, libs: Seq<Library>, n: nat) -> Option<nat>
    decreases n,
{
    if n == 0 {
        None
    } else {
        match first_unversioned(c, libs, (n - 1) as nat) {
            Some(i) => Some(i),
            None => if (n - 1) < libs.len() && version_spec(c, libs[n - 1]) is Err {
                Some((n - 1) as nat)
            } else {
                None
            },
        }
    }
}

proof fn lemma_first_unversioned_stable(c: &Config, libs: Seq<Library>, i: nat, n: nat)
    requires
        i <= n,
        first_unversioned(c, libs, i) is Some,
    ensures
        first_unversioned(c, libs, n) == first_unversioned(c, libs, i),
    decreases n - i,
{
    if i < n {
        lemma_first_unversioned_stable(c, libs, i, (n - 1) as nat);
    }
}

/// The libraries to bundle with their versions: none without a Darwin
/// platform; otherwise every configured library, and the first one without
/// a version fails the step.
pub fn bundle_jobs(config: &Config) -> (r: Result<Vec<(Library, String)>, BuildError>)
    ensures
        !spec_has_apple(config.general.platforms@) ==> r is Ok && r->Ok_0@.len() == 0,
        spec_has_apple(config.general.platforms@) ==> match first_unversioned(
            config,
            config.general.libraries@,
            config.general.libraries@.len(),
        ) {
            Some(i) => r is Err && version_spec(config, config.general.libraries@[i as int])
                == Err::<Seq<char>, BuildError>(r->Err_0),
            None => r is Ok && r->Ok_0@.len() == config.general.libraries@.len() && forall|j: int|
                0 <= j < r->Ok_0@.len() ==> (#[trigger] r->Ok_0@[j]).0
                    == config.general.libraries@[j] && version_spec(
                    config,
                    config.general.libraries@[j],
                ) == Ok::<Seq<char>, BuildError>(r->Ok_0@[j].1@),
        },
{
    let mut out: Vec<(Library, String)> = Vec::new();
    if !has_apple_platform(&config.general.platforms) {
        return Ok(out);
    }
    let libs = &config.general.libraries;
    let mut i: usize = 0;
    while i < libs.len()
        invariant
            i <= libs@.len(),
            libs@ == config.general.libraries@,
            spec_has_apple(config.general.platforms@),
            first_unversioned(config, libs@, i as nat) is None,
            out@.len() == i,
            forall|j: int|
                0 <= j < i ==> (#[trigger] out@[j]).0 == libs@[j] && version_spec(config, libs@[j])
                    == Ok::<Seq<char>, BuildError>(out@[j].1@),
        decreases libs.len() - i,
    {
        match config.get_library_version(&libs[i]) {
            Ok(v) => {
                out.push((libs[i], v.to_owned()));
            },
            Err(e) => {
                proof {
                    assert(first_unversioned(config, libs@, (i + 1) as nat) == Some(i as nat));
                    lemma_first_unversioned_stable(config, libs@, (i + 1) as nat, libs@.len());
                }
                return Err(e);
            },
        }
        i = i + 1;
    }
    Ok(out)
}

} // verus!
