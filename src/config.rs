use vstd::prelude::*;

use crate::error::BuildError;
use crate::paths::{join, path_join};
use crate::toolchain::strs;

verus! {

/// The codec libraries this tool knows how to build, in build order: a
/// library comes after every library it depends on.
#[derive(Debug, Clone, Copy, PartialEq, Eq, Structural, Hash, PartialOrd, Ord)]
pub enum Library {
    Libogg,
    Libopus,
    Libopusenc,
    Libopusfile,
}

/// Position of a library in build order.
pub open spec fn library_rank(l: Library) -> nat {
    match l {
        Library::Libogg => 0,
        Library::Libopus => 1,
        Library::Libopusenc => 2,
        Library::Libopusfile => 3,
    }
}

impl Library {
    /// Name of the source repository (and of the install prefix directory).
    pub open spec fn spec_repo_name(self) -> Seq<char> {
        match self {
            Library::Libopus => "opus"@,
            Library::Libopusenc => "libopusenc"@,
            Library::Libogg => "ogg"@,
            Library::Libopusfile => "opusfile"@,
        }
    }

    /// Name of the library without its `lib` prefix.
    pub open spec fn spec_name_wo_lib_prefix(self) -> Seq<char> {
        match self {
            Library::Libopus => "opus"@,
            Library::Libopusenc => "opusenc"@,
            Library::Libogg => "ogg"@,
            Library::Libopusfile => "opusfile"@,
        }
    }

    pub open spec fn spec_name_with_lib_prefix(self) -> Seq<char> {
        "lib"@ + self.spec_name_wo_lib_prefix()
    }

    /// Relative directory of the public headers inside an install prefix.
    pub open spec fn spec_include_dir(self) -> Seq<char> {
        match self {
            Library::Libogg => path_join("include"@, "ogg"@),
            _ => path_join("include"@, "opus"@),
        }
    }

    pub fn repo_name(&self) -> (r: &'static str)
        ensures
            r@ == self.spec_repo_name(),
    {
        match self {
            Library::Libopus => "opus",
            Library::Libopusenc => "libopusenc",
            Library::Libogg => "ogg",
            Library::Libopusfile => "opusfile",
        }
    }

    /// name without lib prefix
    pub fn name_wo_lib_prefix(&self) -> (r: &'static str)
        ensures
            r@ == self.spec_name_wo_lib_prefix(),
    {
        match self {
            Library::Libopus => "opus",
            Library::Libopusenc => "opusenc",
            Library::Libogg => "ogg",
            Library::Libopusfile => "opusfile",
        }
    }

    pub fn name_with_lib_prefix(&self) -> (r: String)
        ensures
            r@ == self.spec_name_with_lib_prefix(),
    {
        "lib".to_owned().concat(self.name_wo_lib_prefix())
    }

    pub fn include_dir(&self) -> (r: String)
        ensures
            r@ == self.spec_include_dir(),
    {
        match self {
            Library::Libogg => join("include", "ogg"),
            Library::Libopus | Library::Libopusenc | Library::Libopusfile => join(
                "include",
                "opus",
            ),
        }
    }
}

/// The target platforms.
#[derive(Debug, Clone, Copy, PartialEq, Eq, Structural, Hash, PartialOrd, Ord)]
pub enum Platform {
    Ios,
    IosSim,
    Android,
    Harmony,
    Macos,
}

impl Platform {
    pub open spec fn spec_is_darwin(self) -> bool {
        self is Macos || self is Ios || self is IosSim
    }

    /// Directory of the platform under the build root.
    pub open spec fn spec_dir_name(self) -> Seq<char> {
        match self {
            Platform::Ios => "ios"@,
            Platform::IosSim => "ios-sim"@,
            Platform::Android => "android"@,
            Platform::Harmony => "harmony"@,
            Platform::Macos => "macos"@,
        }
    }

    pub fn is_darwin(&self) -> (r: bool)
        ensures
            r == self.spec_is_darwin(),
    {
        matches!(self, Platform::Macos | Platform::Ios | Platform::IosSim)
    }

    pub fn dir_name(&self) -> (r: &'static str)
        ensures
            r@ == self.spec_dir_name(),
    {
        match self {
            Platform::Ios => "ios",
            Platform::IosSim => "ios-sim",
            Platform::Android => "android",
            Platform::Harmony => "harmony",
            Platform::Macos => "macos",
        }
    }
}

/// CPU architectures; which ones a platform accepts depends on the platform.
#[derive(Debug, Clone, Copy, PartialEq, Eq, Structural, Hash, PartialOrd, Ord)]
pub enum Arch {
    X86_64,
    Arm64,
    ArmeabiV7a,
    Arm64V8a,
    X86,
}

/// Whether a library is built as a static archive or a shared object.
#[derive(Debug, Clone, Copy, PartialEq, Eq, Structural, Hash, PartialOrd, Ord)]
pub enum LibType {
    Static,
    Shared,
}

impl LibType {
    pub open spec fn spec_linux_ext(self) -> Seq<char> {
        match self {
            LibType::Static => "a"@,
            LibType::Shared => "so"@,
        }
    }

    pub open spec fn spec_darwin_ext(self) -> Seq<char> {
        match self {
            LibType::Static => "a"@,
            LibType::Shared => "dylib"@,
        }
    }

    pub fn linux_ext(&self) -> (r: &'static str)
        ensures
            r@ == self.spec_linux_ext(),
    {
        match self {
            LibType::Static => "a",
            LibType::Shared => "so",
        }
    }

    pub fn darwin_ext(&self) -> (r: &'static str)
        ensures
            r@ == self.spec_darwin_ext(),
    {
        match self {
            LibType::Static => "a",
            LibType::Shared => "dylib",
        }
    }
}

/// Settings of one Apple platform.
pub struct DarwinConfig {
    pub min_version: String,
    pub archs: Vec<Arch>,
    pub lib_type: LibType,
}

/// Settings of the Android platform.
pub struct AndroidConfig {
    pub native_api_level: u32,
    pub ndk_path: String,
    pub archs: Vec<Arch>,
    pub lib_type: LibType,
}

/// Settings of the Harmony (OpenHarmony) platform.
pub struct HarmonyConfig {
    pub ndk_path: String,
    pub archs: Vec<Arch>,
    pub lib_type: LibType,
}

/// Per-platform settings.
pub struct PlatformConfig {
    pub macos: DarwinConfig,
    pub ios: DarwinConfig,
    pub ios_sim: DarwinConfig,
    pub android: AndroidConfig,
    pub harmony: HarmonyConfig,
}

impl PlatformConfig {
    pub open spec fn spec_archs(&self, platform: Platform) -> Seq<Arch> {
        match platform {
            Platform::Macos => self.macos.archs@,
            Platform::Ios => self.ios.archs@,
            Platform::IosSim => self.ios_sim.archs@,
            Platform::Android => self.android.archs@,
            Platform::Harmony => self.harmony.archs@,
        }
    }

    pub open spec fn spec_lib_type(&self, platform: Platform) -> LibType {
        match platform {
            Platform::Macos => self.macos.lib_type,
            Platform::Ios => self.ios.lib_type,
            Platform::IosSim => self.ios_sim.lib_type,
            Platform::Android => self.android.lib_type,
            Platform::Harmony => self.harmony.lib_type,
        }
    }

    pub fn get_archs_for_platform(&self, platform: &Platform) -> (r: &Vec<Arch>)
        ensures
            r@ == self.spec_archs(*platform),
    {
        match platform {
            Platform::Macos => &self.macos.archs,
            Platform::Ios => &self.ios.archs,
            Platform::IosSim => &self.ios_sim.archs,
            Platform::Android => &self.android.archs,
            Platform::Harmony => &self.harmony.archs,
        }
    }

    pub fn get_lib_type_for_platform(&self, platform: &Platform) -> (r: LibType)
        ensures
            r == self.spec_lib_type(*platform),
    {
        match platform {
            Platform::Macos => self.macos.lib_type,
            Platform::Ios => self.ios.lib_type,
            Platform::IosSim => self.ios_sim.lib_type,
            Platform::Android => self.android.lib_type,
            Platform::Harmony => self.harmony.lib_type,
        }
    }
}

/// What to build and how the run behaves.
pub struct GeneralConfig {
    pub platforms: Vec<Platform>,
    pub libraries: Vec<Library>,
    pub keep_intermediate: bool,
    pub repo_prefix: String,
}

/// Where sources are searched and where outputs go.
pub struct PathConfig {
    pub repo_path: Vec<String>,
    pub build_dir: String,
}

/// Settings shared by every build cell.
pub struct Build {
    pub make_concurrent_jobs: u32,
    pub cflags: String,
    pub ldflags: String,
    pub configure_flags: Vec<String>,
}

/// Options of one library; each one is optional.
pub struct LibraryBuildOptions {
    pub version: Option<String>,
    pub cflags: Option<String>,
    pub ldflags: Option<String>,
    pub configure_flags: Option<Vec<String>>,
}

/// The options recorded for `l` in `entries`: those of its first entry.
pub open spec fn options_of(
    entries: Seq<(Library, LibraryBuildOptions)>,
    l: Library,
) -> Option<LibraryBuildOptions>
    decreases entries.len(),
{
    if entries.len() == 0 {
        None
    } else if entries[0].0 == l {
        Some(entries[0].1)
    } else {
        options_of(entries.drop_first(), l)
    }
}

/// Options per library: a map from library to its options.
pub struct LibraryTable {
    pub entries: Vec<(Library, LibraryBuildOptions)>,
}

impl LibraryTable {
    pub open spec fn spec_get(&self, l: Library) -> Option<LibraryBuildOptions> {
        options_of(self.entries@, l)
    }

    pub fn new() -> (r: LibraryTable)
        ensures
            forall|l: Library| r.spec_get(l).is_none(),
    {
        LibraryTable { entries: Vec::new() }
    }

    /// Position of the entry of `l`, if there is one.
    pub fn position(&self, l: Library) -> (r: Option<usize>)
        ensures
            match r {
                Some(i) => i < self.entries@.len() && self.entries@[i as int].0 == l
                    && self.spec_get(l) == Some(self.entries@[i as int].1)
                    && forall|j: int| 0 <= j < i ==> self.entries@[j].0 != l,
                None => self.spec_get(l).is_none(),
            },
    {
        let mut i: usize = 0;
        assert(self.entries@.subrange(0, self.entries@.len() as int) =~= self.entries@);
        while i < self.entries.len()
            invariant
                i <= self.entries@.len(),
                forall|j: int| 0 <= j < i ==> self.entries@[j].0 != l,
                options_of(self.entries@, l) == options_of(
                    self.entries@.subrange(i as int, self.entries@.len() as int),
                    l,
                ),
            decreases self.entries.len() - i,
        {
            let ghost rest = self.entries@.subrange(i as int, self.entries@.len() as int);
            if self.entries[i].0 == l {
                return Some(i);
            }
            proof {
                assert(rest.drop_first() =~= self.entries@.subrange(
                    i as int + 1,
                    self.entries@.len() as int,
                ));
            }
            i = i + 1;
        }
        None
    }

    /// Records `opts` for `l`, replacing what was there.
    pub fn insert(&mut self, l: Library, opts: LibraryBuildOptions)
        ensures
            forall|k: Library|
                #![auto]
                final(self).spec_get(k) == if k == l {
                    Some(opts)
                } else {
                    old(self).spec_get(k)
                },
    {
        let ghost old_entries = self.entries@;
        match self.position(l) {
            Some(i) => {
                proof {
                    lemma_options_of_update(old_entries, i as int, (l, opts));
                }
                self.entries.set(i, (l, opts));
            },
            None => {
                proof {
                    lemma_options_of_push(old_entries, (l, opts));
                }
                self.entries.push((l, opts));
            },
        }
    }
}

proof fn lemma_options_of_push(
    entries: Seq<(Library, LibraryBuildOptions)>,
    e: (Library, LibraryBuildOptions),
)
    requires
        options_of(entries, e.0).is_none(),
    ensures
        forall|k: Library|
            #![auto]
            options_of(entries.push(e), k) == if k == e.0 {
                Some(e.1)
            } else {
                options_of(entries, k)
            },
    decreases entries.len(),
{
    if entries.len() > 0 {
        lemma_options_of_push(entries.drop_first(), e);
        assert(entries.push(e).drop_first() =~= entries.drop_first().push(e));
        assert forall|k: Library|
            options_of(entries.push(e), k) == if k == e.0 {
                Some(e.1)
            } else {
                options_of(entries, k)
            } by {
            assert(entries.push(e)[0] == entries[0]);
            assert(options_of(entries.push(e).drop_first(), k) == options_of(entries.drop_first().push(e), k));
        }
    } else {
        assert(entries.push(e).drop_first() =~= Seq::<(Library, LibraryBuildOptions)>::empty());
        assert forall|k: Library|
            options_of(entries.push(e), k) == if k == e.0 {
                Some(e.1)
            } else {
                options_of(entries, k)
            } by {
            assert(entries.push(e)[0] == e);
            assert(options_of(entries, k) == None::<LibraryBuildOptions>);
            assert(options_of(entries.push(e).drop_first(), k) == None::<LibraryBuildOptions>);
        }
    }
}

proof fn lemma_options_of_update(
    entries: Seq<(Library, LibraryBuildOptions)>,
    i: int,
    e: (Library, LibraryBuildOptions),
)
    requires
        0 <= i < entries.len(),
        entries[i].0 == e.0,
        forall|j: int| 0 <= j < i ==> entries[j].0 != e.0,
    ensures
        forall|k: Library|
            #![auto]
            options_of(entries.update(i, e), k) == if k == e.0 {
                Some(e.1)
            } else {
                options_of(entries, k)
            },
    decreases entries.len(),
{
    if i > 0 {
        assert(entries[0].0 != e.0);
        lemma_options_of_update(entries.drop_first(), i - 1, e);
        assert(entries.update(i, e).drop_first() =~= entries.drop_first().update(i - 1, e));
        assert forall|k: Library|
            options_of(entries.update(i, e), k) == if k == e.0 {
                Some(e.1)
            } else {
                options_of(entries, k)
            } by {
            assert(entries.update(i, e)[0] == entries[0]);
            assert(options_of(entries.update(i, e).drop_first(), k) == options_of(entries.drop_first().update(i - 1, e), k));
        }
    } else {
        assert(entries.update(i, e).drop_first() =~= entries.drop_first());
        assert forall|k: Library|
            options_of(entries.update(i, e), k) == if k == e.0 {
                Some(e.1)
            } else {
                options_of(entries, k)
            } by {
            assert(entries.update(i, e)[0] == e);
            assert(options_of(entries.update(i, e).drop_first(), k) == options_of(entries.drop_first(), k));
        }
    }
}

/// The whole configuration of a run.
pub struct Config {
    pub general: GeneralConfig,
    pub paths: PathConfig,
    pub build: Build,
    pub platforms: PlatformConfig,
    pub libraries: LibraryTable,
}

/// The version tag configured for `l`, or why there is none.
pub open spec fn version_spec(c: &Config, l: Library) -> Result<Seq<char>, BuildError> {
    match c.libraries.spec_get(l) {
        None => Err(BuildError::LibraryConfigMissing),
        Some(o) => match o.version {
            None => Err(BuildError::VersionNotSpecified),
            Some(v) => Ok(v@),
        },
    }
}

impl Config {
    pub fn get_library_version(&self, library: &Library) -> (r: Result<&str, BuildError>)
        ensures
            match r {
                Ok(v) => version_spec(self, *library) == Ok::<Seq<char>, BuildError>(v@),
                Err(e) => version_spec(self, *library) == Err::<Seq<char>, BuildError>(e),
            },
    {
        match self.libraries.position(*library) {
            None => Err(BuildError::LibraryConfigMissing),
            Some(i) => match &self.libraries.entries[i].1.version {
                None => Err(BuildError::VersionNotSpecified),
                Some(v) => Ok(v.as_str()),
            },
        }
    }
}

impl Default for LibraryBuildOptions {
    fn default() -> (r: LibraryBuildOptions)
        ensures
            r.version is None,
            r.cflags is None,
            r.ldflags is None,
            r.configure_flags is None,
    {
        LibraryBuildOptions { version: None, cflags: None, ldflags: None, configure_flags: None }
    }
}

impl Default for Build {
    fn default() -> (r: Build)
        ensures
            r.make_concurrent_jobs == 8,
            r.cflags@ == "-O3 -g -DNDEBUG -ffast-math"@,
            r.ldflags@ == "-flto -fPIE"@,
            strs(r.configure_flags@) == seq!["--with-pic"@],
    {
        let mut configure_flags: Vec<String> = Vec::new();
        configure_flags.push("--with-pic".to_owned());
        proof {
            assert(strs(configure_flags@) =~= seq!["--with-pic"@]);
        }
        Build {
            make_concurrent_jobs: 8,
            cflags: "-O3 -g -DNDEBUG -ffast-math".to_owned(),
            ldflags: "-flto -fPIE".to_owned(),
            configure_flags,
        }
    }
}

impl Default for PathConfig {
    fn default() -> (r: PathConfig)
        ensures
            strs(r.repo_path@) == seq!["repos"@],
            r.build_dir@ == "build"@,
    {
        let mut repo_path: Vec<String> = Vec::new();
        repo_path.push("repos".to_owned());
        proof {
            assert(strs(repo_path@) =~= seq!["repos"@]);
        }
        PathConfig { repo_path, build_dir: "build".to_owned() }
    }
}

impl Default for GeneralConfig {
    fn default() -> (r: GeneralConfig)
        ensures
            r.platforms@ == seq![Platform::IosSim, Platform::Ios, Platform::Macos, Platform::Android],
            r.libraries@ == seq![
                Library::Libogg,
                Library::Libopus,
                Library::Libopusenc,
                Library::Libopusfile,
            ],
            !r.keep_intermediate,
            r.repo_prefix@ == "https://gitlab.xiph.org/xiph/"@,
    {
        let mut platforms: Vec<Platform> = Vec::new();
        platforms.push(Platform::IosSim);
        platforms.push(Platform::Ios);
        platforms.push(Platform::Macos);
        platforms.push(Platform::Android);
        let mut libraries: Vec<Library> = Vec::new();
        libraries.push(Library::Libogg);
        libraries.push(Library::Libopus);
        libraries.push(Library::Libopusenc);
        libraries.push(Library::Libopusfile);
        proof {
            assert(platforms@ =~= seq![
                Platform::IosSim,
                Platform::Ios,
                Platform::Macos,
                Platform::Android,
            ]);
            assert(libraries@ =~= seq![
                Library::Libogg,
                Library::Libopus,
                Library::Libopusenc,
                Library::Libopusfile,
            ]);
        }
        GeneralConfig {
            platforms,
            libraries,
            keep_intermediate: false,
            repo_prefix: "https://gitlab.xiph.org/xiph/".to_owned(),
        }
    }
}

impl Default for AndroidConfig {
    fn default() -> (r: AndroidConfig)
        ensures
            r.native_api_level == 21,
            r.ndk_path@ == "/usr/local/NDK-r28c"@,
            r.archs@ == seq![Arch::Arm64V8a, Arch::ArmeabiV7a, Arch::X86_64, Arch::X86],
            r.lib_type == LibType::Shared,
    {
        let mut archs: Vec<Arch> = Vec::new();
        archs.push(Arch::Arm64V8a);
        archs.push(Arch::ArmeabiV7a);
        archs.push(Arch::X86_64);
        archs.push(Arch::X86);
        proof {
            assert(archs@ =~= seq![Arch::Arm64V8a, Arch::ArmeabiV7a, Arch::X86_64, Arch::X86]);
        }
        AndroidConfig {
            native_api_level: 21,
            ndk_path: "/usr/local/NDK-r28c".to_owned(),
            archs,
            lib_type: LibType::Shared,
        }
    }
}

impl Default for HarmonyConfig {
    fn default() -> (r: HarmonyConfig)
        ensures
            r.ndk_path@ == "/usr/local/command-line-tools/sdk/HarmonyOS-NEXT-DB3/openharmony"@,
            r.archs@ == seq![Arch::ArmeabiV7a, Arch::Arm64V8a, Arch::X86_64],
            r.lib_type == LibType::Shared,
    {
        let mut archs: Vec<Arch> = Vec::new();
        archs.push(Arch::ArmeabiV7a);
        archs.push(Arch::Arm64V8a);
        archs.push(Arch::X86_64);
        proof {
            assert(archs@ =~= seq![Arch::ArmeabiV7a, Arch::Arm64V8a, Arch::X86_64]);
        }
        HarmonyConfig {
            ndk_path: "/usr/local/command-line-tools/sdk/HarmonyOS-NEXT-DB3/openharmony".to_owned(),
            archs,
            lib_type: LibType::Shared,
        }
    }
}

impl DarwinConfig {
    /// Settings of an Apple platform with the given minimum version and
    /// architectures, building static libraries.
    pub fn new_static(min_version: &str, archs: &Vec<Arch>) -> (r: DarwinConfig)
        ensures
            r.min_version@ == min_version@,
            r.archs@ == archs@,
            r.lib_type == LibType::Static,
    {
        let mut copy: Vec<Arch> = Vec::new();
        let mut i: usize = 0;
        while i < archs.len()
            invariant
                i <= archs@.len(),
                copy@ == archs@.subrange(0, i as int),
            decreases archs.len() - i,
        {
            copy.push(archs[i]);
            proof {
                assert(copy@ =~= archs@.subrange(0, i as int + 1));
            }
            i = i + 1;
        }
        proof {
            assert(copy@ =~= archs@);
        }
        DarwinConfig { min_version: min_version.to_owned(), archs: copy, lib_type: LibType::Static }
    }
}

/// Options of a library pinned to `version`, with the given extra configure
/// flags.
fn pinned(version: &str, configure_flags: Option<Vec<String>>) -> (r: LibraryBuildOptions)
    ensures
        opt_view(r.version) == Some(version@),
        r.cflags is None,
        r.ldflags is None,
        r.configure_flags == configure_flags,
{
    LibraryBuildOptions {
        version: Some(version.to_owned()),
        cflags: None,
        ldflags: None,
        configure_flags,
    }
}

pub open spec fn opt_view(o: Option<String>) -> Option<Seq<char>> {
    match o {
        Some(s) => Some(s@),
        None => None,
    }
}

fn three(a: &str, b: &str, c: &str) -> (r: Vec<String>)
    ensures
        strs(r@) == seq![a@, b@, c@],
{
    let mut v: Vec<String> = Vec::new();
    v.push(a.to_owned());
    v.push(b.to_owned());
    v.push(c.to_owned());
    proof {
        assert(strs(v@) =~= seq![a@, b@, c@]);
    }
    v
}

/// The pinned version of each library in the default configuration.
pub open spec fn default_version(l: Library) -> Seq<char> {
    match l {
        Library::Libogg => "v1.3.5"@,
        Library::Libopus => "v1.5.2"@,
        Library::Libopusenc => "v0.2.1"@,
        Library::Libopusfile => "v0.12"@,
    }
}

impl Default for Config {
    fn default() -> (r: Config)
        ensures
            r.platforms.macos.min_version@ == "10.13"@,
            r.platforms.macos.archs@ == seq![Arch::Arm64, Arch::X86_64],
            r.platforms.macos.lib_type == LibType::Static,
            r.platforms.ios.min_version@ == "11.0"@,
            r.platforms.ios.archs@ == seq![Arch::Arm64],
            r.platforms.ios.lib_type == LibType::Static,
            r.platforms.ios_sim.min_version@ == "11.0"@,
            r.platforms.ios_sim.archs@ == seq![Arch::Arm64, Arch::X86_64],
            r.platforms.ios_sim.lib_type == LibType::Static,
            r.platforms.android.native_api_level == 21,
            r.platforms.android.archs@ == seq![
                Arch::Arm64V8a,
                Arch::ArmeabiV7a,
                Arch::X86_64,
                Arch::X86,
            ],
            r.platforms.android.lib_type == LibType::Shared,
            r.platforms.harmony.archs@ == seq![Arch::ArmeabiV7a, Arch::Arm64V8a, Arch::X86_64],
            r.platforms.harmony.lib_type == LibType::Shared,
            r.general.platforms@ == seq![
                Platform::IosSim,
                Platform::Ios,
                Platform::Macos,
                Platform::Android,
            ],
            r.general.libraries@ == seq![
                Library::Libogg,
                Library::Libopus,
                Library::Libopusenc,
                Library::Libopusfile,
            ],
            !r.general.keep_intermediate,
            r.paths.build_dir@ == "build"@,
            r.build.make_concurrent_jobs == 8,
            forall|l: Library| #[trigger] version_spec(&r, l) == Ok::<Seq<char>, BuildError>(
                default_version(l),
            ),
            forall|l: Library|
                (#[trigger] r.libraries.spec_get(l)) is Some && r.libraries.spec_get(
                    l,
                )->Some_0.cflags is None && r.libraries.spec_get(l)->Some_0.ldflags is None,
            strs(r.libraries.spec_get(Library::Libopus)->Some_0.configure_flags->Some_0@) == seq![
                "--enable-float-approx"@,
                "--disable-extra-programs"@,
                "--disable-doc"@,
            ],
            strs(r.libraries.spec_get(Library::Libopusfile)->Some_0.configure_flags->Some_0@)
                == seq!["--disable-http"@, "--disable-examples"@, "--disable-doc"@],
            r.libraries.spec_get(Library::Libogg)->Some_0.configure_flags is None,
            r.libraries.spec_get(Library::Libopusenc)->Some_0.configure_flags is None,
    {
        let mut macos_archs: Vec<Arch> = Vec::new();
        macos_archs.push(Arch::Arm64);
        macos_archs.push(Arch::X86_64);
        let mut ios_archs: Vec<Arch> = Vec::new();
        ios_archs.push(Arch::Arm64);
        proof {
            assert(macos_archs@ =~= seq![Arch::Arm64, Arch::X86_64]);
            assert(ios_archs@ =~= seq![Arch::Arm64]);
        }
        let platforms = PlatformConfig {
            macos: DarwinConfig::new_static("10.13", &macos_archs),
            ios: DarwinConfig::new_static("11.0", &ios_archs),
            ios_sim: DarwinConfig::new_static("11.0", &macos_archs),
            android: AndroidConfig::default(),
            harmony: HarmonyConfig::default(),
        };
        let mut libraries = LibraryTable::new();
        libraries.insert(Library::Libogg, pinned("v1.3.5", None));
        libraries.insert(
            Library::Libopus,
            pinned(
                "v1.5.2",
                Some(three("--enable-float-approx", "--disable-extra-programs", "--disable-doc")),
            ),
        );
        libraries.insert(Library::Libopusenc, pinned("v0.2.1", None));
        libraries.insert(
            Library::Libopusfile,
            pinned("v0.12", Some(three("--disable-http", "--disable-examples", "--disable-doc"))),
        );
        Config {
            general: GeneralConfig::default(),
            paths: PathConfig::default(),
            build: Build::default(),
            platforms,
            libraries,
        }
    }
}

} // verus!
