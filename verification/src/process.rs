//! The build steps of each target: which libraries are built, by which
//! commands, and which files go where. The steps themselves (running
//! commands, copying files) are the caller's; every path here is a list of
//! segments below one of the process's directories.

use vstd::prelude::*;

use crate::ast::handler::AstResult;
use crate::config::android::{default_phone_archs as android_default_archs, Android, NAMESPACE, SO_NAME};
use crate::config::arch::{arch_name, Arch};
use crate::config::ios::{default_phone_archs, default_simulator_archs, Ios};
use crate::config::jar::{Jar, DYLIB_NAME};
use crate::config::{list_or, or_default};
use crate::gen::swift::{cat2, cat3};
use crate::text::{join, join_strings, occurs_at, push_char, replace_char, replace_chars, split, split_chars, strings_view};

verus! {

/// `release` or `debug`: the cargo output directory of a build.
pub open spec fn profile_dir(release: bool) -> Seq<char> {
    if release {
        "release"@
    } else {
        "debug"@
    }
}

/// The cargo output directory of a build.
pub fn profile_dir_of(release: bool) -> (r: String)
    ensures
        r@ == profile_dir(release),
{
    if release {
        "release".to_owned()
    } else {
        "debug".to_owned()
    }
}

/// A path of several segments.
pub fn segments(parts: &[&str]) -> (r: Vec<String>)
    ensures
        r@.len() == parts@.len(),
        forall|i: int| 0 <= i < parts@.len() ==> #[trigger] r@[i]@ == parts@[i]@,
{
    let mut r: Vec<String> = Vec::new();
    let n = parts.len();
    let mut i: usize = 0;
    while i < n
        invariant
            n == parts@.len(),
            i <= n,
            r@.len() == i,
            forall|k: int| 0 <= k < i ==> #[trigger] r@[k]@ == parts@[k]@,
        decreases n - i,
    {
        r.push(parts[i].to_owned());
        i = i + 1;
    }
    r
}

/// The name of the static library that the iOS bridge crate of host crate
/// `host` builds.
pub open spec fn ios_lib_name(host: Seq<char>) -> Seq<char> {
    "lib"@ + replace_char(host, '-', '_') + "_ios_bridge_prj.a"@
}

/// Whether `c` holds the iOS settings used when none are configured.
pub open spec fn ios_default(c: Ios) -> bool {
    &&& c.rustc_param is None
    &&& c.arch_phone is Some
    &&& list_or(c.arch_phone, Seq::empty()) == default_phone_archs()
    &&& c.arch_simu is Some
    &&& list_or(c.arch_simu, Seq::empty()) == default_simulator_archs()
    &&& c.release == Some(true)
    &&& c.features_def is None
}

/// The target triples an iOS build covers: the device ones, then the
/// simulator ones.
pub open spec fn ios_archs(c: Ios) -> Seq<Seq<char>> {
    list_or(c.arch_phone, default_phone_archs()) + list_or(c.arch_simu, default_simulator_archs())
}

/// `true`, then a `cargo rustc` per target, joined by `&&`.
pub open spec fn ios_cargo_steps(archs: Seq<Seq<char>>, release: Seq<char>, rustc: Seq<char>) -> Seq<
    char,
>
    decreases archs.len(),
{
    if archs.len() == 0 {
        "true"@
    } else {
        ios_cargo_steps(archs.drop_last(), release, rustc) + " && cargo rustc --target "@
            + archs.last() + "  --lib "@ + release + " --target-dir target "@ + rustc
    }
}

/// The per-target libraries that `lipo` merges.
pub open spec fn lipo_inputs(archs: Seq<Seq<char>>, dir: Seq<char>, lib: Seq<char>) -> Seq<char>
    decreases archs.len(),
{
    if archs.len() == 0 {
        Seq::empty()
    } else {
        lipo_inputs(archs.drop_last(), dir, lib) + " target/"@ + archs.last() + "/"@ + dir + "/"@
            + lib
    }
}

/// The shell command that builds the iOS bridge crate for every target and
/// merges the libraries into one universal library.
pub open spec fn ios_bridge_cmd(c: Ios, host: Seq<char>) -> Seq<char> {
    let dir = profile_dir(c.is_release_spec());
    let lib = ios_lib_name(host);
    ios_cargo_steps(
        ios_archs(c),
        if c.is_release_spec() {
            "--release"@
        } else {
            Seq::empty()
        },
        or_default(c.rustc_param, Seq::empty()),
    ) + " && "@ + "lipo -create -output target/universal/"@ + dir + "/"@ + lib + lipo_inputs(
        ios_archs(c),
        dir,
        lib,
    )
}

/// The shell command that builds the Xcode project of the iOS artifact for
/// the simulator and for devices and merges both frameworks, given the
/// project file and the three output directories as absolute paths.
pub open spec fn ios_artifact_cmd(
    prj: Seq<char>,
    simu: Seq<char>,
    iphone: Seq<char>,
    universal: Seq<char>,
) -> Seq<char> {
    "xcodebuild -scheme rustlib -project "@ + prj + " -sdk iphonesimulator  -configuration Release CONFIGURATION_BUILD_DIR="@
        + simu + " clean build"@ + " && "@ + "xcodebuild -scheme rustlib -project "@ + prj
        + " -sdk iphoneos -configuration Release CONFIGURATION_BUILD_DIR="@ + iphone
        + " clean build"@ + " && "@ + "cp -R "@ + simu + "/rustlib.framework "@ + universal + " && "@
        + "lipo -create \""@ + simu + "/rustlib.framework/rustlib\" \""@ + iphone
        + "/rustlib.framework/rustlib\" -output \""@ + universal + "/rustlib.framework/rustlib\""@
}

/// The build of the iOS artifact of a host crate.
pub struct IosProcess<'a> {
    pub origin_prj_path: &'a str,
    pub artifact_prj_path: &'a str,
    pub bridge_prj_path: &'a str,
    pub header_path: &'a str,
    pub host_crate_name: &'a str,
    pub ast_result: &'a AstResult,
    pub config: Ios,
}

impl<'a> IosProcess<'a> {
    /// A build with the given directories and settings; the default iOS
    /// settings when none are given.
    pub fn new(
        origin_prj_path: &'a str,
        dest_prj_path: &'a str,
        bridge_prj_path: &'a str,
        header_path: &'a str,
        host_crate_name: &'a str,
        ast_result: &'a AstResult,
        config: Option<Ios>,
    ) -> (r: Self)
        ensures
            r.origin_prj_path == origin_prj_path,
            r.artifact_prj_path == dest_prj_path,
            r.bridge_prj_path == bridge_prj_path,
            r.header_path == header_path,
            r.host_crate_name == host_crate_name,
            r.ast_result == ast_result,
            config matches Some(c) ==> r.config == c,
            config is None ==> ios_default(r.config),
    {
        let config = match config {
            Some(c) => c,
            None => Ios::default(),
        };
        IosProcess {
            origin_prj_path,
            artifact_prj_path: dest_prj_path,
            bridge_prj_path,
            header_path,
            host_crate_name,
            ast_result,
            config,
        }
    }

    /// The name of the static library the bridge crate builds.
    pub fn lib_name(&self) -> (r: String)
        ensures
            r@ == ios_lib_name(self.host_crate_name@),
    {
        let k = replace_chars(self.host_crate_name, '-', '_');
        cat3("lib", k.as_str(), "_ios_bridge_prj.a")
    }

    /// The settings of this build.
    pub fn config(&self) -> (r: &Ios)
        ensures
            r == &self.config,
    {
        &self.config
    }

    /// The shell command that builds the bridge crate,
    /// run in the bridge project.
    pub fn bridge_build_cmd(&self) -> (r: String)
        ensures
            r@ == ios_bridge_cmd(self.config, self.host_crate_name@),
    {
        let c = &self.config;
        let dir = profile_dir_of(c.is_release());
        let lib = self.lib_name();
        let release = c.release_str();
        let rustc = c.rustc_param();
        let mut archs = c.iphoneos_archs();
        let mut simu = c.simulator_archs();
        let ghost phone_v = strings_view(archs@);
        let ghost simu_v = strings_view(simu@);
        archs.append(&mut simu);
        assert(strings_view(archs@) =~= phone_v + simu_v);
        let mut steps = "true".to_owned();
        let mut lipo = cat3("lipo -create -output target/universal/", dir.as_str(), "/");
        lipo.append(lib.as_str());
        let ghost lipo_head = lipo@;
        let n = archs.len();
        let mut i: usize = 0;
        while i < n
            invariant
                n == archs@.len(),
                i <= n,
                strings_view(archs@) == ios_archs(*c),
                steps@ == ios_cargo_steps(strings_view(archs@).take(i as int), release@, rustc@),
                lipo@ == lipo_head + lipo_inputs(strings_view(archs@).take(i as int), dir@, lib@),
            decreases n - i,
        {
            proof {
                assert(strings_view(archs@).take(i + 1).drop_last() =~= strings_view(archs@).take(
                    i as int,
                ));
                assert(strings_view(archs@).take(i + 1).last() == archs@[i as int]@);
            }
            let a = archs[i].as_str();
            steps.append(" && cargo rustc --target ");
            steps.append(a);
            steps.append("  --lib ");
            steps.append(release.as_str());
            steps.append(" --target-dir target ");
            steps.append(rustc.as_str());
            lipo.append(" target/");
            lipo.append(a);
            lipo.append("/");
            lipo.append(dir.as_str());
            lipo.append("/");
            lipo.append(lib.as_str());
            i = i + 1;
            assert(steps@ =~= ios_cargo_steps(strings_view(archs@).take(i as int), release@, rustc@));
            assert(lipo@ =~= lipo_head + lipo_inputs(
                strings_view(archs@).take(i as int),
                dir@,
                lib@,
            ));
        }
        assert(strings_view(archs@).take(n as int) =~= strings_view(archs@));
        steps.append(" && ");
        steps.append(lipo.as_str());
        steps
    }

    /// The directory below the bridge project that the universal library
    /// goes to, and that `strip` is run on.
    pub fn universal_lib(&self) -> (r: Vec<String>)
        ensures
            strings_view(r@) == seq![
                "target"@,
                "universal"@,
                profile_dir(self.config.is_release_spec()),
                ios_lib_name(self.host_crate_name@),
            ],
    {
        let mut r = segments(&["target", "universal"]);
        r.push(profile_dir_of(self.config.is_release()));
        r.push(self.lib_name());
        assert(strings_view(r@) =~= seq![
            "target"@,
            "universal"@,
            profile_dir(self.config.is_release_spec()),
            ios_lib_name(self.host_crate_name@),
        ]);
        r
    }

    /// The name the universal library is given in the artifact project's
    /// `rustlib/Libraries`.
    pub fn artifact_lib_name(&self) -> (r: String)
        ensures
            r@ == "libFfi.a"@,
    {
        "libFfi.a".to_owned()
    }

    /// The shell command that builds the artifact project
    ///, given the absolute paths of the Xcode project
    /// and of the simulator, device and universal output directories.
    pub fn artifact_build_cmd(&self, prj: &str, simu: &str, iphone: &str, universal: &str) -> (r:
        String)
        ensures
            r@ == ios_artifact_cmd(prj@, simu@, iphone@, universal@),
    {
        let mut c1 = cat3("xcodebuild -scheme rustlib -project ", prj, " -sdk iphonesimulator  -configuration Release CONFIGURATION_BUILD_DIR=");
        c1.append(simu);
        c1.append(" clean build");
        let mut c2 = cat3("xcodebuild -scheme rustlib -project ", prj, " -sdk iphoneos -configuration Release CONFIGURATION_BUILD_DIR=");
        c2.append(iphone);
        c2.append(" clean build");
        let mut cp = cat3("cp -R ", simu, "/rustlib.framework ");
        cp.append(universal);
        let mut c3 = cat3("lipo -create \"", simu, "/rustlib.framework/rustlib\" \"");
        c3.append(iphone);
        c3.append("/rustlib.framework/rustlib\" -output \"");
        c3.append(universal);
        c3.append("/rustlib.framework/rustlib\"");
        let mut r = c1;
        r.append(" && ");
        r.append(c2.as_str());
        r.append(" && ");
        r.append(cp.as_str());
        r.append(" && ");
        r.append(c3.as_str());
        r
    }
}

/// The placeholder in the Android artifact template that the Java package
/// replaces.
pub open spec fn namespace_placeholder() -> Seq<char> {
    "$(*521%-namespace)"@
}

/// `s` with every occurrence of the non-empty text `from`, found left to
/// right without overlap, replaced by `to`.
pub open spec fn replace_all(s: Seq<char>, from: Seq<char>, to: Seq<char>) -> Seq<char>
    decreases s.len(),
{
    if from.len() == 0 || s.len() < from.len() {
        s
    } else if s.take(from.len() as int) == from {
        to + replace_all(s.skip(from.len() as int), from, to)
    } else {
        seq![s[0]] + replace_all(s.skip(1), from, to)
    }
}

/// `s` with every occurrence of the non-empty text `from` replaced by
/// `to`, as `str::replace` does.
fn replace_text(s: &str, from: &str, to: &str) -> (r: String)
    requires
        from@.len() > 0,
    ensures
        r@ == replace_all(s@, from@, to@),
{
    let n = s.unicode_len();
    let m = from.unicode_len();
    let mut r = String::new();
    let mut i: usize = 0;
    assert(s@.skip(0) =~= s@);
    while i < n
        invariant
            n == s@.len(),
            m == from@.len(),
            m > 0,
            i <= n,
            r@ + replace_all(s@.skip(i as int), from@, to@) == replace_all(s@, from@, to@),
        decreases n - i,
    {
        let ghost rest = s@.skip(i as int);
        if n - i >= m && occurs_at(s, i, from, m) {
            assert(rest.take(m as int) =~= s@.subrange(i as int, i + m));
            assert(rest.skip(m as int) =~= s@.skip(i + m));
            let ghost before = r@;
            r.append(to);
            assert(r@ + replace_all(s@.skip(i + m), from@, to@) =~= before + replace_all(
                rest,
                from@,
                to@,
            ));
            i = i + m;
        } else {
            let c = s.get_char(i);
            let ghost before = r@;
            push_char(&mut r, c);
            if n - i >= m {
                assert(rest.take(m as int) =~= s@.subrange(i as int, i + m));
                assert(rest.skip(1) =~= s@.skip(i + 1));
                assert(r@ + replace_all(s@.skip(i + 1), from@, to@) =~= before + replace_all(
                    rest,
                    from@,
                    to@,
                ));
            } else {
                assert(replace_all(rest, from@, to@) == rest);
                assert(s@.skip(i + 1).len() < m);
                assert(replace_all(s@.skip(i + 1), from@, to@) == s@.skip(i + 1));
                assert(r@ + s@.skip(i + 1) =~= before + rest);
            }
            i = i + 1;
        }
    }
    assert(replace_all(s@.skip(n as int), from@, to@) =~= Seq::<char>::empty());
    assert(r@ + Seq::<char>::empty() =~= r@);
    r
}

/// The name of the shared library that the Android bridge crate of host
/// crate `host` builds.
pub open spec fn android_lib_name(host: Seq<char>) -> Seq<char> {
    "lib"@ + replace_char(host, '-', '_') + "_android_bridge_prj.so"@
}

/// Whether `c` holds the Android settings used when none are configured.
pub open spec fn android_default(c: Android) -> bool {
    &&& c.ndk_stand_alone is None
    &&& c.rustc_param is None
    &&& c.arch is Some
    &&& list_or(c.arch, Seq::empty()) == android_default_archs()
    &&& c.release == Some(true)
    &&& c.namespace matches Some(n) && n@ == NAMESPACE@
    &&& c.so_name matches Some(n) && n@ == SO_NAME@
    &&& c.ext_lib is None
    &&& c.features_def is None
}

/// The Android target triples and the `jniLibs` directory each one's
/// library goes to.
pub open spec fn abi_dirs() -> Seq<(Seq<char>, Seq<char>)> {
    seq![
        ("arm-linux-androideabi"@, "armeabi"@),
        ("armv7-linux-androideabi"@, "armeabi-v7a"@),
        ("aarch64-linux-android"@, "arm64-v8a"@),
        ("i686-linux-android"@, "x86"@),
        ("x86_64-linux-android"@, "x86_64"@),
    ]
}

/// The directory below a project in which the Java sources of package
/// `namespace` go: `rustlib/src/main/java`, then a directory per part of
/// the package name.
pub open spec fn java_src_dir(namespace: Seq<char>) -> Seq<Seq<char>> {
    seq!["rustlib"@, "src"@, "main"@, "java"@] + split(namespace, '.')
}

/// The directory of the Java sources of a package.
fn java_src_dir_of(namespace: &str) -> (r: Vec<String>)
    ensures
        strings_view(r@) == java_src_dir(namespace@),
{
    let mut r = segments(&["rustlib", "src", "main", "java"]);
    let ghost head = strings_view(r@);
    assert(head =~= seq!["rustlib"@, "src"@, "main"@, "java"@]);
    let mut parts = split_chars(namespace, '.');
    let ghost pv = strings_view(parts@);
    r.append(&mut parts);
    assert(strings_view(r@) =~= head + pv);
    r
}

/// A build configuration for the Android bridge crate (what the NDK build
/// takes): the library to build, the target triples, the profile, cargo's
/// target directory, the project directory and the Android API level.
pub struct BuildConfig {
    pub lib_name: String,
    pub arch_list: Vec<String>,
    pub is_release: bool,
    pub target_dir: String,
    pub project_dir: String,
    pub sdk_version: u32,
}

/// The build of the Android artifact of a host crate.
pub struct AndroidProcess<'a> {
    pub origin_prj_path: &'a str,
    pub artifact_prj_path: &'a str,
    pub bridge_prj_path: &'a str,
    pub host_crate_name: &'a str,
    pub ast_result: &'a AstResult,
    pub config: Android,
}

impl<'a> AndroidProcess<'a> {
    /// A build with the given directories and settings; the default Android
    /// settings when none are given.
    pub fn new(
        origin_prj_path: &'a str,
        artifact_prj_path: &'a str,
        bridge_prj_path: &'a str,
        host_crate_name: &'a str,
        ast_result: &'a AstResult,
        config: Option<Android>,
    ) -> (r: Self)
        ensures
            r.origin_prj_path == origin_prj_path,
            r.artifact_prj_path == artifact_prj_path,
            r.bridge_prj_path == bridge_prj_path,
            r.host_crate_name == host_crate_name,
            r.ast_result == ast_result,
            config matches Some(c) ==> r.config == c,
            config is None ==> android_default(r.config),
    {
        let config = match config {
            Some(c) => c,
            None => Android::default(),
        };
        AndroidProcess {
            origin_prj_path,
            artifact_prj_path,
            bridge_prj_path,
            host_crate_name,
            ast_result,
            config,
        }
    }

    /// The name of the shared library the bridge crate builds.
    pub fn lib_name(&self) -> (r: String)
        ensures
            r@ == android_lib_name(self.host_crate_name@),
    {
        let k = replace_chars(self.host_crate_name, '-', '_');
        cat3("lib", k.as_str(), "_android_bridge_prj.so")
    }

    /// The settings of this build.
    pub fn config(&self) -> (r: &Android)
        ensures
            r == &self.config,
    {
        &self.config
    }

    /// The NDK build of the bridge crate.
    pub fn build_config(&self) -> (r: BuildConfig)
        ensures
            r.lib_name@ == android_lib_name(self.host_crate_name@),
            strings_view(r.arch_list@) == list_or(self.config.arch, android_default_archs()),
            r.is_release == (match self.config.release {
                Some(b) => b,
                None => true,
            }),
            r.target_dir@ == "target"@,
            r.project_dir@ == self.bridge_prj_path@,
            r.sdk_version == 21,
    {
        BuildConfig {
            lib_name: self.lib_name(),
            arch_list: self.config.archs(),
            is_release: self.config.is_release(),
            target_dir: "target".to_owned(),
            project_dir: self.bridge_prj_path.to_owned(),
            sdk_version: 21,
        }
    }

    /// The target triples whose libraries are copied into the artifact
    /// project, each with its `jniLibs` directory.
    pub fn abi_dirs(&self) -> (r: Vec<(String, String)>)
        ensures
            r@.map_values(|p: (String, String)| (p.0@, p.1@)) == abi_dirs(),
    {
        let mut r: Vec<(String, String)> = Vec::new();
        r.push(("arm-linux-androideabi".to_owned(), "armeabi".to_owned()));
        r.push(("armv7-linux-androideabi".to_owned(), "armeabi-v7a".to_owned()));
        r.push(("aarch64-linux-android".to_owned(), "arm64-v8a".to_owned()));
        r.push(("i686-linux-android".to_owned(), "x86".to_owned()));
        r.push(("x86_64-linux-android".to_owned(), "x86_64".to_owned()));
        assert(r@.map_values(|p: (String, String)| (p.0@, p.1@)) =~= abi_dirs());
        r
    }

    /// The library built for `triple`, below the bridge project.
    pub fn built_lib(&self, triple: &str) -> (r: Vec<String>)
        ensures
            strings_view(r@) == seq![
                "target"@,
                triple@,
                profile_dir(match self.config.release {
                    Some(b) => b,
                    None => true,
                }),
                android_lib_name(self.host_crate_name@),
            ],
    {
        let mut r: Vec<String> = Vec::new();
        r.push("target".to_owned());
        r.push(triple.to_owned());
        r.push(profile_dir_of(self.config.is_release()));
        r.push(self.lib_name());
        assert(strings_view(r@) =~= seq![
            "target"@,
            triple@,
            profile_dir(match self.config.release {
                Some(b) => b,
                None => true,
            }),
            android_lib_name(self.host_crate_name@),
        ]);
        r
    }

    /// The `jniLibs` directory of `abi`, below the artifact project.
    pub fn jni_libs_dir(&self, abi: &str) -> (r: Vec<String>)
        ensures
            strings_view(r@) == seq!["rustlib"@, "src"@, "main"@, "jniLibs"@, abi@],
    {
        let mut r = segments(&["rustlib", "src", "main", "jniLibs"]);
        r.push(abi.to_owned());
        assert(strings_view(r@) =~= seq!["rustlib"@, "src"@, "main"@, "jniLibs"@, abi@]);
        r
    }

    /// The name the copied library is given: `lib<so_name>.so`.
    pub fn renamed_lib(&self) -> (r: String)
        ensures
            r@ == "lib"@ + or_default(self.config.so_name, SO_NAME@) + ".so"@,
    {
        let so = self.config.so_name();
        cat3("lib", so.as_str(), ".so")
    }

    /// The manifest of the artifact project with its placeholder replaced by
    /// the Java package.
    pub fn fill_manifest(&self, manifest: &str) -> (r: String)
        ensures
            r@ == replace_all(
                manifest@,
                namespace_placeholder(),
                or_default(self.config.namespace, NAMESPACE@),
            ),
    {
        let ns = self.config.namespace();
        proof {
            reveal_strlit("$(*521%-namespace)");
        }
        replace_text(manifest, "$(*521%-namespace)", ns.as_str())
    }

    /// The directory of the generated Java sources, below the artifact
    /// project.
    pub fn java_src_dir(&self) -> (r: Vec<String>)
        ensures
            strings_view(r@) == java_src_dir(or_default(self.config.namespace, NAMESPACE@)),
    {
        let ns = self.config.namespace();
        java_src_dir_of(ns.as_str())
    }

    /// The shell command that builds the artifact project.
    pub fn artifact_build_cmd(&self) -> (r: String)
        ensures
            r@ == "chmod a+x ./gradlew && ./gradlew aR"@,
    {
        "chmod a+x ./gradlew && ./gradlew aR".to_owned()
    }

    /// The built archive, below the artifact project.
    pub fn artifact_output(&self) -> (r: Vec<String>)
        ensures
            strings_view(r@) == seq!["rustlib"@, "build"@, "outputs"@, "aar"@, "rustlib-release.aar"@],
    {
        let r = segments(&["rustlib", "build", "outputs", "aar", "rustlib-release.aar"]);
        assert(strings_view(r@) =~= seq![
            "rustlib"@,
            "build"@,
            "outputs"@,
            "aar"@,
            "rustlib-release.aar"@,
        ]);
        r
    }

    /// Where the archive goes, below the host project.
    pub fn artifact_dest(&self) -> (r: Vec<String>)
        ensures
            strings_view(r@) == seq!["target"@, "android"@],
    {
        let r = segments(&["target", "android"]);
        assert(strings_view(r@) =~= seq!["target"@, "android"@]);
        r
    }
}

/// The arguments of the `cargo ndk` build of `triple`: `rustc` for the
/// library into the configured target directory, `--release` in release
/// mode, and, for NDKs after build 7272597, which ship no `libgcc`, the
/// link directory of the stand-in library.
pub open spec fn ndk_cargo_args(c: BuildConfig, triple: Seq<char>, ndk_build_tag: u64) -> Seq<
    Seq<char>,
> {
    seq!["rustc"@, "--target"@, triple, "--lib"@, "--target-dir"@, c.target_dir@] + (if c.is_release {
        seq!["--release"@]
    } else {
        Seq::empty()
    }) + (if ndk_build_tag > 7272597 {
        seq!["--"@, "-L"@, "target/cargo-apk-temp-extra-link-libraries"@]
    } else {
        Seq::empty()
    })
}

impl BuildConfig {
    /// The arguments of the `cargo ndk` build of `triple`, with
    /// `ndk_build_tag` the build tag of the NDK found.
    pub fn cargo_args(&self, triple: &str, ndk_build_tag: u64) -> (r: Vec<String>)
        ensures
            strings_view(r@) == ndk_cargo_args(*self, triple@, ndk_build_tag),
    {
        let mut r: Vec<String> = Vec::new();
        r.push("rustc".to_owned());
        r.push("--target".to_owned());
        r.push(triple.to_owned());
        r.push("--lib".to_owned());
        r.push("--target-dir".to_owned());
        r.push(self.target_dir.clone());
        let ghost base = strings_view(r@);
        if self.is_release {
            r.push("--release".to_owned());
        }
        let ghost with_release = strings_view(r@);
        assert(with_release =~= base + (if self.is_release {
            seq!["--release"@]
        } else {
            Seq::<Seq<char>>::empty()
        }));
        if ndk_build_tag > 7272597 {
            r.push("--".to_owned());
            r.push("-L".to_owned());
            r.push("target/cargo-apk-temp-extra-link-libraries".to_owned());
        }
        assert(strings_view(r@) =~= ndk_cargo_args(*self, triple@, ndk_build_tag));
        r
    }

    /// The library that `strip` is run on after the build of `triple`,
    /// below the project directory.
    pub fn strip_target(&self, triple: &str) -> (r: String)
        ensures
            r@ == self.target_dir@ + "/"@ + triple@ + "/"@ + profile_dir(self.is_release) + "/"@
                + self.lib_name@,
    {
        let mut r = cat3(self.target_dir.as_str(), "/", triple);
        r.append("/");
        let d = profile_dir_of(self.is_release);
        r.append(d.as_str());
        r.append("/");
        r.append(self.lib_name.as_str());
        r
    }
}

/// The file extension of a dynamic library on target OS `os` (as
/// `std::env::consts::OS` names it).
pub open spec fn lib_extension(os: Seq<char>) -> Seq<char> {
    if os == "windows"@ {
        "dll"@
    } else if os == "macos"@ {
        "dylib"@
    } else {
        "so"@
    }
}

/// The name of the dynamic library that the JAR bridge crate of host crate
/// `host` builds on target OS `os`.
pub open spec fn jar_lib_name(host: Seq<char>, os: Seq<char>) -> Seq<char> {
    "lib"@ + replace_char(host, '-', '_') + "_jar_bridge_prj."@ + lib_extension(os)
}

/// Whether `c` holds the JAR settings used when none are configured.
pub open spec fn jar_default(c: Jar) -> bool {
    &&& c.ndk_stand_alone is None
    &&& c.rustc_param is None
    &&& c.release == Some(true)
    &&& c.namespace matches Some(n) && n@ == crate::config::jar::NAMESPACE@
    &&& c.dylib_name matches Some(n) && n@ == DYLIB_NAME@
    &&& c.ext_lib is None
    &&& c.features_def is None
}

/// The shell command that builds the JAR bridge crate: a `cargo build` of
/// the library, the features when there are any, and the configured rustc
/// parameters once more when there are some.
pub open spec fn jar_bridge_cmd(c: Jar) -> Seq<char> {
    let rustc = or_default(c.rustc_param, Seq::empty());
    let features = list_or(c.features_def, Seq::empty());
    "cargo build --lib "@ + (if c.is_release_spec() {
        "--release"@
    } else {
        Seq::empty()
    }) + " --target-dir "@ + "target"@ + " "@ + rustc + (if features.len() > 0 {
        " --features "@ + join(features, ","@)
    } else {
        Seq::empty()
    }) + (match c.rustc_param {
        Some(p) => " "@ + p@,
        None => Seq::empty(),
    })
}

/// The build of the JAR artifact of a host crate.
pub struct JarProcess<'a> {
    pub origin_prj_path: &'a str,
    pub artifact_prj_path: &'a str,
    pub bridge_prj_path: &'a str,
    pub host_crate_name: &'a str,
    pub ast_result: &'a AstResult,
    pub config: Jar,
}

impl<'a> JarProcess<'a> {
    /// A build with the given directories and settings; the default JAR
    /// settings when none are given.
    pub fn new(
        origin_prj_path: &'a str,
        artifact_prj_path: &'a str,
        bridge_prj_path: &'a str,
        host_crate_name: &'a str,
        ast_result: &'a AstResult,
        config: Option<Jar>,
    ) -> (r: Self)
        ensures
            r.origin_prj_path == origin_prj_path,
            r.artifact_prj_path == artifact_prj_path,
            r.bridge_prj_path == bridge_prj_path,
            r.host_crate_name == host_crate_name,
            r.ast_result == ast_result,
            config matches Some(c) ==> r.config == c,
            config is None ==> jar_default(r.config),
    {
        let config = match config {
            Some(c) => c,
            None => Jar::default(),
        };
        JarProcess {
            origin_prj_path,
            artifact_prj_path,
            bridge_prj_path,
            host_crate_name,
            ast_result,
            config,
        }
    }

    /// The file extension of a dynamic library on target OS `os`.
    pub fn lib_extension_name(&self, os: &str) -> (r: String)
        ensures
            r@ == lib_extension(os@),
    {
        proof {
            reveal_strlit("windows");
            reveal_strlit("macos");
        }
        if crate::text::str_eq(os, "windows") {
            "dll".to_owned()
        } else if crate::text::str_eq(os, "macos") {
            "dylib".to_owned()
        } else {
            "so".to_owned()
        }
    }

    /// The name of the dynamic library the bridge crate builds on `os`.
    pub fn lib_name(&self, os: &str) -> (r: String)
        ensures
            r@ == jar_lib_name(self.host_crate_name@, os@),
    {
        let k = replace_chars(self.host_crate_name, '-', '_');
        let mut r = cat3("lib", k.as_str(), "_jar_bridge_prj.");
        let e = self.lib_extension_name(os);
        r.append(e.as_str());
        r
    }

    /// The settings of this build.
    pub fn config(&self) -> (r: &Jar)
        ensures
            r == &self.config,
    {
        &self.config
    }

    /// The shell command that builds the bridge crate.
    pub fn bridge_build_cmd(&self) -> (r: String)
        ensures
            r@ == jar_bridge_cmd(self.config),
    {
        let c = &self.config;
        let release = c.release_str();
        let rustc = c.rustc_param();
        let mut cmd = cat3("cargo build --lib ", release.as_str(), " --target-dir ");
        cmd.append("target");
        cmd.append(" ");
        cmd.append(rustc.as_str());
        let features = c.features();
        if features.len() > 0 {
            let feat = join_strings(&features, ",");
            cmd.append(" --features ");
            cmd.append(feat.as_str());
        }
        match &c.rustc_param {
            Some(p) => {
                cmd.append(" ");
                cmd.append(p.as_str());
            },
            None => {},
        }
        cmd
    }

    /// The library the bridge crate built, below the bridge project.
    pub fn built_lib(&self, os: &str) -> (r: Vec<String>)
        ensures
            strings_view(r@) == seq![
                "target"@,
                profile_dir(self.config.is_release_spec()),
                jar_lib_name(self.host_crate_name@, os@),
            ],
    {
        let mut r: Vec<String> = Vec::new();
        r.push("target".to_owned());
        r.push(profile_dir_of(self.config.is_release()));
        r.push(self.lib_name(os));
        assert(strings_view(r@) =~= seq![
            "target"@,
            profile_dir(self.config.is_release_spec()),
            jar_lib_name(self.host_crate_name@, os@),
        ]);
        r
    }

    /// The directory of the native library for platform `arch`, below the
    /// artifact project.
    pub fn natives_dir(&self, arch: &Arch) -> (r: Vec<String>)
        ensures
            strings_view(r@) == seq![
                "rustlib"@,
                "src"@,
                "main"@,
                "resources"@,
                "natives"@,
                arch_name(*arch),
            ],
    {
        let mut r = segments(&["rustlib", "src", "main", "resources", "natives"]);
        r.push(arch.as_string());
        assert(strings_view(r@) =~= seq![
            "rustlib"@,
            "src"@,
            "main"@,
            "resources"@,
            "natives"@,
            arch_name(*arch),
        ]);
        r
    }

    /// The name the copied library is given: `lib<dylib_name>.<ext>`.
    pub fn renamed_lib(&self, os: &str) -> (r: String)
        ensures
            r@ == "lib"@ + or_default(self.config.dylib_name, DYLIB_NAME@) + "."@ + lib_extension(
                os@,
            ),
    {
        let d = self.config.dylib_name();
        let mut r = cat3("lib", d.as_str(), ".");
        let e = self.lib_extension_name(os);
        r.append(e.as_str());
        r
    }

    /// The directory of the generated Java sources, below the artifact
    /// project.
    pub fn java_src_dir(&self) -> (r: Vec<String>)
        ensures
            strings_view(r@) == java_src_dir(
                or_default(self.config.namespace, crate::config::jar::NAMESPACE@),
            ),
    {
        let ns = self.config.namespace();
        java_src_dir_of(ns.as_str())
    }

    /// The shell command that builds the artifact project.
    pub fn artifact_build_cmd(&self) -> (r: String)
        ensures
            r@ == "chmod a+x ./gradlew && ./gradlew assemble"@,
    {
        "chmod a+x ./gradlew && ./gradlew assemble".to_owned()
    }

    /// The built archive, below the artifact project.
    pub fn artifact_output(&self) -> (r: Vec<String>)
        ensures
            strings_view(r@) == seq!["rustlib"@, "build"@, "libs"@, "rustlib.jar"@],
    {
        let r = segments(&["rustlib", "build", "libs", "rustlib.jar"]);
        assert(strings_view(r@) =~= seq!["rustlib"@, "build"@, "libs"@, "rustlib.jar"@]);
        r
    }

    /// Where the archive goes, below the host project.
    pub fn artifact_dest(&self) -> (r: Vec<String>)
        ensures
            strings_view(r@) == seq!["target"@, "jar"@],
    {
        let r = segments(&["target", "jar"]);
        assert(strings_view(r@) =~= seq!["target"@, "jar"@]);
        r
    }
}

} // verus!
