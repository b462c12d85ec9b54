use bob::languages::{add_languages, Directory, Language, LanguageDetector};

fn markers(languages: &Vec<Language>) -> Vec<&'static str> {
    languages.iter().map(|l| l.detect_file).collect()
}

#[test]
fn registry_lists_markers_in_priority_order() {
    let expected = vec![
        ".justfile",
        "Makefile",
        "Cargo.toml",
        "package.json",
        "gradlew",
        "build.gradle.kts",
    ];
    assert_eq!(markers(&add_languages(false)), expected);
    assert_eq!(markers(&add_languages(true)), expected);
}

#[test]
fn registry_lists_commands_in_priority_order() {
    let plain: Vec<&str> = add_languages(false).iter().map(|l| l.main_command).collect();
    assert_eq!(plain, vec!["just", "make", "cargo", "npm", "./gradlew", "gradle"]);
    let yarn: Vec<&str> = add_languages(true).iter().map(|l| l.main_command).collect();
    assert_eq!(yarn, vec!["just", "make", "cargo", "yarn", "./gradlew", "gradle"]);
}

#[test]
fn registry_holds_each_marker_once() {
    for use_yarn in [false, true] {
        let names = markers(&add_languages(use_yarn));
        for (i, a) in names.iter().enumerate() {
            for (j, b) in names.iter().enumerate() {
                if i != j {
                    assert_ne!(a, b);
                }
            }
        }
    }
}

#[test]
fn registry_without_signal_binds_npm() {
    let languages = add_languages(false);
    let node: Vec<&Language> =
        languages.iter().filter(|l| l.detect_file == "package.json").collect();
    assert_eq!(node.len(), 1);
    let npm = node[0];
    assert_eq!(npm.main_command, "npm");
    assert_eq!(npm.build_command, "run build");
    assert_eq!(npm.clean_command, "run clean");
    assert_eq!(npm.run_command, "run start");
    assert_eq!(npm.test_command, "run test");
    assert_eq!(npm.install_command, Some("install"));
    assert_eq!(npm.heading, "📦 NPM");
    assert!(npm.lookup_full_path);
    assert!(languages.iter().all(|l| l.main_command != "yarn"));
}

#[test]
fn registry_with_signal_binds_yarn() {
    let languages = add_languages(true);
    let node: Vec<&Language> =
        languages.iter().filter(|l| l.detect_file == "package.json").collect();
    assert_eq!(node.len(), 1);
    let yarn = node[0];
    assert_eq!(yarn.main_command, "yarn");
    assert_eq!(yarn.build_command, "build");
    assert_eq!(yarn.clean_command, "clean");
    assert_eq!(yarn.run_command, "start");
    assert_eq!(yarn.test_command, "test");
    assert_eq!(yarn.install_command, Some("install"));
    assert_eq!(yarn.heading, "🧶 Yarn");
    assert!(yarn.lookup_full_path);
    assert!(languages.iter().all(|l| l.main_command != "npm"));
}

#[test]
fn registry_describes_build_scripts_and_rust() {
    let languages = add_languages(false);
    assert_eq!(languages[0].heading, "🤖 Justfile");
    assert_eq!(languages[0].install_command, Some("install"));
    assert_eq!(languages[1].heading, "🍥 Makefile");
    assert_eq!(languages[1].build_command, "build");
    assert_eq!(languages[2].heading, "🦀 Rust");
    assert_eq!(languages[2].build_command, "build");
    assert_eq!(languages[2].clean_command, "clean");
    assert_eq!(languages[2].run_command, "run");
    assert_eq!(languages[2].test_command, "test");
    assert_eq!(languages[2].install_command, Some("install --path ."));
}

#[test]
fn registry_gradle_profiles_have_no_install() {
    let languages = add_languages(false);
    assert_eq!(languages[4].heading, "🎁 Gradle Wrapper");
    assert_eq!(languages[4].install_command, None);
    assert!(!languages[4].lookup_full_path);
    assert_eq!(languages[5].heading, "🔩 Gradle");
    assert_eq!(languages[5].install_command, None);
    assert!(languages[5].lookup_full_path);
}

#[test]
fn directory_contains_only_its_entries() {
    let dir = Directory::new(vec!["Cargo.toml".to_string(), "gradlew".to_string()]);
    assert!(dir.contains("Cargo.toml"));
    assert!(dir.contains("gradlew"));
    assert!(!dir.contains("cargo.toml"));
    assert!(!dir.contains("Cargo.tom"));
    assert!(!dir.contains(""));
    assert!(!Directory::new(Vec::new()).contains("Cargo.toml"));
}

#[test]
fn profile_is_current_where_its_marker_exists() {
    let languages = add_languages(false);
    let dir = Directory::new(vec!["Cargo.toml".to_string()]);
    let current: Vec<bool> = languages.iter().map(|l| l.current_language(&dir)).collect();
    assert_eq!(current, vec![false, false, true, false, false, false]);
}
