use vstd::prelude::*;

verus! {

/// A snapshot of the relative paths that exist under the working directory.
pub struct Directory {
    pub entries: Vec<String>,
}

impl Directory {
    /// Whether `path` is one of the paths recorded in the snapshot.
    pub open spec fn has(&self, path: Seq<char>) -> bool {
        exists|i: int| 0 <= i < self.entries@.len() && (#[trigger] self.entries@[i])@ == path
    }

    pub fn new(entries: Vec<String>) -> (dir: Directory)
        ensures
            dir.entries == entries,
    {
        Directory { entries }
    }

    /// Looks `path` up in the snapshot.
    pub fn contains(&self, path: &str) -> (found: bool)
        ensures
            found == self.has(path@),
    {
        let wanted = path.to_owned();
        let mut i: usize = 0;
        while i < self.entries.len()
            invariant
                i <= self.entries@.len(),
                wanted@ == path@,
                forall|j: int| 0 <= j < i ==> (#[trigger] self.entries@[j])@ != path@,
            decreases self.entries@.len() - i,
        {
            if self.entries[i] == wanted {
                return true;
            }
            i += 1;
        }
        false
    }
}


/// The binding of one build ecosystem: the marker that signals it, the
/// executable to run and the argument payload of each verb.
#[derive(Clone, Copy, Debug)]
pub struct Language {
    pub detect_file: &'static str,
    pub main_command: &'static str,
    pub build_command: &'static str,
    pub clean_command: &'static str,
    pub run_command: &'static str,
    pub test_command: &'static str,
    pub install_command: Option<&'static str>,
    pub heading: &'static str,
    pub lookup_full_path: bool,
}

/// What a `Language` holds, as sequences of characters.
pub struct LanguageView {
    pub detect_file: Seq<char>,
    pub main_command: Seq<char>,
    pub build_command: Seq<char>,
    pub clean_command: Seq<char>,
    pub run_command: Seq<char>,
    pub test_command: Seq<char>,
    pub install_command: Option<Seq<char>>,
    pub heading: Seq<char>,
    pub lookup_full_path: bool,
}

impl View for Language {
    type V = LanguageView;

    open spec fn view(&self) -> LanguageView {
        LanguageView {
            detect_file: self.detect_file@,
            main_command: self.main_command@,
            build_command: self.build_command@,
            clean_command: self.clean_command@,
            run_command: self.run_command@,
            test_command: self.test_command@,
            install_command: match self.install_command {
                Some(c) => Some(c@),
                None => None,
            },
            heading: self.heading@,
            lookup_full_path: self.lookup_full_path,
        }
    }
}

/// Decides whether a profile governs a directory.
pub trait LanguageDetector {
    /// The profile's marker exists in `dir`.
    spec fn applies(&self, dir: &Directory) -> bool;

    fn current_language(&self, dir: &Directory) -> (current: bool)
        ensures
            current == self.applies(dir),
    ;
}

impl LanguageDetector for Language {
    open spec fn applies(&self, dir: &Directory) -> bool {
        dir.has(self.detect_file@)
    }

    fn current_language(&self, dir: &Directory) -> (current: bool) {
        dir.contains(self.detect_file)
    }
}

/// Custom build scripts run by `just`.
pub open spec fn justfile_profile() -> LanguageView {
    LanguageView {
        detect_file: ".justfile"@,
        main_command: "just"@,
        build_command: "build"@,
        clean_command: "clean"@,
        run_command: "run"@,
        test_command: "test"@,
        install_command: Some("install"@),
        heading: "🤖 Justfile"@,
        lookup_full_path: true,
    }
}

/// Build scripts run by `make`.
pub open spec fn makefile_profile() -> LanguageView {
    LanguageView {
        detect_file: "Makefile"@,
        main_command: "make"@,
        build_command: "build"@,
        clean_command: "clean"@,
        run_command: "run"@,
        test_command: "test"@,
        install_command: Some("install"@),
        heading: "🍥 Makefile"@,
        lookup_full_path: true,
    }
}

/// Rust packages built by `cargo`.
pub open spec fn rust_profile() -> LanguageView {
    LanguageView {
        detect_file: "Cargo.toml"@,
        main_command: "cargo"@,
        build_command: "build"@,
        clean_command: "clean"@,
        run_command: "run"@,
        test_command: "test"@,
        install_command: Some("install --path ."@),
        heading: "🦀 Rust"@,
        lookup_full_path: true,
    }
}

/// Node packages driven through `yarn`.
pub open spec fn yarn_profile() -> LanguageView {
    LanguageView {
        detect_file: "package.json"@,
        main_command: "yarn"@,
        build_command: "build"@,
        clean_command: "clean"@,
        run_command: "start"@,
        test_command: "test"@,
        install_command: Some("install"@),
        heading: "🧶 Yarn"@,
        lookup_full_path: true,
    }
}

/// Node packages driven through `npm`.
pub open spec fn npm_profile() -> LanguageView {
    LanguageView {
        detect_file: "package.json"@,
        main_command: "npm"@,
        build_command: "run build"@,
        clean_command: "run clean"@,
        run_command: "run start"@,
        test_command: "run test"@,
        install_command: Some("install"@),
        heading: "📦 NPM"@,
        lookup_full_path: true,
    }
}

/// Gradle projects that ship their own wrapper script.
pub open spec fn gradle_wrapper_profile() -> LanguageView {
    LanguageView {
        detect_file: "gradlew"@,
        main_command: "./gradlew"@,
        build_command: "build"@,
        clean_command: "clean"@,
        run_command: "run"@,
        test_command: "test"@,
        install_command: None,
        heading: "🎁 Gradle Wrapper"@,
        lookup_full_path: false,
    }
}

/// Gradle projects built by the `gradle` on the search path.
pub open spec fn gradle_profile() -> LanguageView {
    LanguageView {
        detect_file: "build.gradle.kts"@,
        main_command: "gradle"@,
        build_command: "build"@,
        clean_command: "clean"@,
        run_command: "run"@,
        test_command: "test"@,
        install_command: None,
        heading: "🔩 Gradle"@,
        lookup_full_path: true,
    }
}

/// The front-end registered for `package.json`.
pub open spec fn node_profile(use_yarn: bool) -> LanguageView {
    if use_yarn {
        yarn_profile()
    } else {
        npm_profile()
    }
}

/// The registry in priority order: build scripts first, then language
/// manifests, then the generic build tool.
pub open spec fn registry(use_yarn: bool) -> Seq<LanguageView> {
    seq![
        justfile_profile(),
        makefile_profile(),
        rust_profile(),
        node_profile(use_yarn),
        gradle_wrapper_profile(),
        gradle_profile(),
    ]
}

/// The views of a list of profiles, in the same order.
pub open spec fn views(languages: Seq<Language>) -> Seq<LanguageView> {
    languages.map_values(|l: Language| l@)
}

/// Builds the registry. With `use_yarn` the `package.json` marker is bound to
/// yarn, otherwise to npm; never to both.
pub fn add_languages(use_yarn: bool) -> (languages: Vec<Language>)
    ensures
        languages@.len() == registry(use_yarn).len(),
        forall|i: int|
            0 <= i < languages@.len() ==> (#[trigger] languages@[i])@ == registry(use_yarn)[i],
        views(languages@) == registry(use_yarn),
{
    let mut languages: Vec<Language> = Vec::new();

    languages.push(
        Language {
            detect_file: ".justfile",
            main_command: "just",
            build_command: "build",
            clean_command: "clean",
            run_command: "run",
            test_command: "test",
            install_command: Some("install"),
            heading: "🤖 Justfile",
            lookup_full_path: true,
        },
    );

    languages.push(
        Language {
            detect_file: "Makefile",
            main_command: "make",
            build_command: "build",
            clean_command: "clean",
            run_command: "run",
            test_command: "test",
            install_command: Some("install"),
            heading: "🍥 Makefile",
            lookup_full_path: true,
        },
    );

    languages.push(
        Language {
            detect_file: "Cargo.toml",
            main_command: "cargo",
            build_command: "build",
            clean_command: "clean",
            run_command: "run",
            test_command: "test",
            install_command: Some("install --path ."),
            heading: "🦀 Rust",
            lookup_full_path: true,
        },
    );

    if use_yarn {
        languages.push(
            Language {
                detect_file: "package.json",
                main_command: "yarn",
                build_command: "build",
                clean_command: "clean",
                run_command: "start",
                test_command: "test",
                install_command: Some("install"),
                heading: "🧶 Yarn",
                lookup_full_path: true,
            },
        );
    } else {
        languages.push(
            Language {
                detect_file: "package.json",
                main_command: "npm",
                build_command: "run build",
                clean_command: "run clean",
                run_command: "run start",
                test_command: "run test",
                install_command: Some("install"),
                heading: "📦 NPM",
                lookup_full_path: true,
            },
        );
    }

    languages.push(
        Language {
            detect_file: "gradlew",
            main_command: "./gradlew",
            build_command: "build",
            clean_command: "clean",
            run_command: "run",
            test_command: "test",
            install_command: None,
            heading: "🎁 Gradle Wrapper",
            lookup_full_path: false,
        },
    );

    languages.push(
        Language {
            detect_file: "build.gradle.kts",
            main_command: "gradle",
            build_command: "build",
            clean_command: "clean",
            run_command: "run",
            test_command: "test",
            install_command: None,
            heading: "🔩 Gradle",
            lookup_full_path: true,
        },
    );

    assert(views(languages@) =~= registry(use_yarn));
    languages
}


/// The lengths of the six markers.
proof fn lemma_marker_lengths()
    ensures
        ".justfile"@.len() == 9,
        "Makefile"@.len() == 8,
        "Cargo.toml"@.len() == 10,
        "package.json"@.len() == 12,
        "gradlew"@.len() == 7,
        "build.gradle.kts"@.len() == 16,
{
    reveal_strlit(".justfile");
    reveal_strlit("Makefile");
    reveal_strlit("Cargo.toml");
    reveal_strlit("package.json");
    reveal_strlit("gradlew");
    reveal_strlit("build.gradle.kts");
}

/// No marker is registered twice: two different places of the registry
/// hold two different markers.
pub proof fn lemma_registry_markers_distinct(use_yarn: bool, i: int, j: int)
    requires
        0 <= i < j < registry(use_yarn).len(),
    ensures
        registry(use_yarn)[i].detect_file != registry(use_yarn)[j].detect_file,
{
    lemma_marker_lengths();
}

/// Of the two front-ends for `package.json` exactly one is registered: the
/// selected one stands once, at the marker's only place, and the other one
/// stands nowhere.
pub proof fn lemma_registry_selects_one_front_end(use_yarn: bool, i: int)
    requires
        0 <= i < registry(use_yarn).len(),
    ensures
        registry(use_yarn)[i].detect_file == "package.json"@ <==> i == 3,
        registry(use_yarn)[i] == node_profile(use_yarn) <==> i == 3,
        registry(use_yarn)[i] != node_profile(!use_yarn),
{
    lemma_marker_lengths();
    reveal_strlit("yarn");
    reveal_strlit("npm");
    assert("yarn"@.len() != "npm"@.len());
}

} // verus!
