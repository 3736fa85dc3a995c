use vstd::prelude::*;

verus! {

/// The operating system this tool runs on, as far as cross toolchains care.
#[derive(Debug, Clone, Copy, PartialEq, Eq, Structural)]
pub enum HostOs {
    Macos,
    Linux,
    Other,
}

/// The strings of `v`.
pub open spec fn strs(v: Seq<String>) -> Seq<Seq<char>> {
    v.map_values(|s: String| s@)
}

/// The pairs of strings of `v`.
pub open spec fn str_pairs(v: Seq<(String, String)>) -> Seq<(Seq<char>, Seq<char>)> {
    v.map_values(|p: (String, String)| (p.0@, p.1@))
}

pub open spec fn opt_str(o: Option<String>) -> Option<Seq<char>> {
    match o {
        Some(s) => Some(s@),
        None => None,
    }
}

/// Everything the autotools protocol needs to know about the compiler for
/// one (platform, architecture) pair.
pub struct AutotoolsToolchain {
    /// Directory of the platform under the build root.
    pub platform_dir: String,
    /// Directory of the architecture under the platform directory.
    pub arch_dir: String,
    /// Value of configure's `--host`.
    pub host: String,
    /// C compiler invocation.
    pub cc: String,
    /// C++ compiler invocation, where the family has one.
    pub cxx: Option<String>,
    /// Further environment bindings (archiver, linker, ...).
    pub extra_env: Vec<(String, String)>,
    pub base_cflags: String,
    pub base_ldflags: String,
}

/// The value of a toolchain descriptor.
pub struct ToolchainView {
    pub platform_dir: Seq<char>,
    pub arch_dir: Seq<char>,
    pub host: Seq<char>,
    pub cc: Seq<char>,
    pub cxx: Option<Seq<char>>,
    pub extra_env: Seq<(Seq<char>, Seq<char>)>,
    pub base_cflags: Seq<char>,
    pub base_ldflags: Seq<char>,
}

impl View for AutotoolsToolchain {
    type V = ToolchainView;

    open spec fn view(&self) -> ToolchainView {
        ToolchainView {
            platform_dir: self.platform_dir@,
            arch_dir: self.arch_dir@,
            host: self.host@,
            cc: self.cc@,
            cxx: opt_str(self.cxx),
            extra_env: str_pairs(self.extra_env@),
            base_cflags: self.base_cflags@,
            base_ldflags: self.base_ldflags@,
        }
    }
}

/// A resolved toolchain, or the error, as values.
pub open spec fn toolchain_result(
    r: Result<AutotoolsToolchain, crate::error::BuildError>,
) -> Result<ToolchainView, crate::error::BuildError> {
    match r {
        Ok(t) => Ok(t@),
        Err(e) => Err(e),
    }
}

/// A `NAME` / value binding for a subprocess environment.
pub fn env_pair(name: &str, value: &str) -> (r: (String, String))
    ensures
        r.0@ == name@,
        r.1@ == value@,
{
    (name.to_owned(), value.to_owned())
}


/// Appends copies of `src` to `dst`.
pub fn append_strings(dst: &mut Vec<String>, src: &Vec<String>)
    ensures
        strs(final(dst)@) == strs(old(dst)@) + strs(src@),
{
    let ghost start = strs(dst@);
    let mut i: usize = 0;
    while i < src.len()
        invariant
            i <= src@.len(),
            strs(dst@) == start + strs(src@.subrange(0, i as int)),
        decreases src.len() - i,
    {
        let ghost before = dst@;
        dst.push(src[i].clone());
        proof {
            assert(strs(dst@) =~= strs(before).push(src@[i as int]@));
            assert(strs(src@.subrange(0, i as int + 1)) =~= strs(src@.subrange(0, i as int)).push(
                src@[i as int]@,
            ));
        }
        i = i + 1;
    }
    proof {
        assert(src@.subrange(0, src@.len() as int) =~= src@);
    }
}

/// Appends copies of `src` to `dst`.
pub fn append_pairs(dst: &mut Vec<(String, String)>, src: &Vec<(String, String)>)
    ensures
        str_pairs(final(dst)@) == str_pairs(old(dst)@) + str_pairs(src@),
{
    let ghost start = str_pairs(dst@);
    let mut i: usize = 0;
    while i < src.len()
        invariant
            i <= src@.len(),
            str_pairs(dst@) == start + str_pairs(src@.subrange(0, i as int)),
        decreases src.len() - i,
    {
        let ghost before = dst@;
        dst.push((src[i].0.clone(), src[i].1.clone()));
        proof {
            assert(str_pairs(dst@) =~= str_pairs(before).push((src@[i as int].0@, src@[i as int].1@)));
            assert(str_pairs(src@.subrange(0, i as int + 1)) =~= str_pairs(
                src@.subrange(0, i as int),
            ).push((src@[i as int].0@, src@[i as int].1@)));
        }
        i = i + 1;
    }
    proof {
        assert(src@.subrange(0, src@.len() as int) =~= src@);
    }
}

/// A copy of a list of strings.
pub fn copy_strings(v: &Vec<String>) -> (r: Vec<String>)
    ensures
        strs(r@) == strs(v@),
        r@.len() == v@.len(),
{
    let mut out: Vec<String> = Vec::new();
    let mut i: usize = 0;
    while i < v.len()
        invariant
            i <= v@.len(),
            out@.len() == i,
            forall|j: int| 0 <= j < i ==> out@[j]@ == v@[j]@,
        decreases v.len() - i,
    {
        out.push(v[i].clone());
        i = i + 1;
    }
    proof {
        assert(strs(out@) =~= strs(v@));
    }
    out
}

/// A copy of a list of environment bindings.
pub fn copy_pairs(v: &Vec<(String, String)>) -> (r: Vec<(String, String)>)
    ensures
        str_pairs(r@) == str_pairs(v@),
        r@.len() == v@.len(),
{
    let mut out: Vec<(String, String)> = Vec::new();
    let mut i: usize = 0;
    while i < v.len()
        invariant
            i <= v@.len(),
            out@.len() == i,
            forall|j: int| 0 <= j < i ==> out@[j].0@ == v@[j].0@ && out@[j].1@ == v@[j].1@,
        decreases v.len() - i,
    {
        out.push((v[i].0.clone(), v[i].1.clone()));
        i = i + 1;
    }
    proof {
        assert(str_pairs(out@) =~= str_pairs(v@));
    }
    out
}

} // verus!
