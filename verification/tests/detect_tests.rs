use launchgen::detect::{detect_project_types, FileEntry};

fn fe(name: &str, content: Option<&str>) -> FileEntry {
    FileEntry { name: name.to_string(), content: content.map(|s| s.to_string()) }
}

fn tags_of(files: Vec<FileEntry>, deep: Vec<FileEntry>) -> Vec<String> {
    detect_project_types(&files, &deep)
}

#[test]
fn python_only_tree_yields_python() {
    let tags = tags_of(vec![fe("a.py", None), fe("b.py", None)], vec![]);
    assert_eq!(tags, vec!["python".to_string()]);
}

#[test]
fn javascript_only_tree_yields_javascript() {
    let tags = tags_of(vec![fe("index.js", None)], vec![]);
    assert_eq!(tags, vec!["javascript".to_string()]);
}

#[test]
fn typescript_only_tree_yields_typescript() {
    let tags = tags_of(vec![fe("main.ts", None)], vec![]);
    assert_eq!(tags, vec!["typescript".to_string()]);
}

#[test]
fn rust_only_tree_yields_rust() {
    // any Rust source is also file evidence for the all-in-one provider
    let tags = tags_of(vec![fe("main.rs", Some("fn main() {}"))], vec![]);
    assert_eq!(tags, vec!["rust".to_string(), "rust-all".to_string()]);
}

#[test]
fn cpp_only_tree_yields_cpp_tags() {
    let tags = tags_of(vec![fe("a.cpp", None)], vec![]);
    assert_eq!(tags, vec!["cpp-gdb".to_string(), "cpp-lldb".to_string()]);
}

#[test]
fn tags_are_sorted_and_unique() {
    let files = vec![
        fe("a.py", None),
        fe("b.js", None),
        fe("package.json", Some("{}")),
        fe("main.rs", Some("fn main() {}")),
        fe("Makefile", Some("all:")),
        fe("c.py", None),
    ];
    let tags = tags_of(files, vec![]);
    for w in tags.windows(2) {
        assert!(w[0] < w[1]);
    }
}

#[test]
fn package_manifest_with_react_dependency() {
    let pkg = "{\"name\":\"x\",\"dependencies\":{\"react\":\"^18.0.0\"}}";
    let tags = tags_of(vec![fe("package.json", Some(pkg))], vec![]);
    assert!(tags.contains(&"node".to_string()));
    assert!(tags.contains(&"react".to_string()));
    assert!(!tags.contains(&"vue".to_string()));
    assert!(!tags.contains(&"express".to_string()));
}

#[test]
fn package_manifest_without_react_dependency() {
    let pkg = "{\"name\":\"x\",\"dependencies\":{\"left-pad\":\"1.0.0\"}}";
    let tags = tags_of(vec![fe("package.json", Some(pkg))], vec![]);
    assert!(tags.contains(&"node".to_string()));
    assert!(!tags.contains(&"react".to_string()));
}

#[test]
fn malformed_package_manifest_still_yields_node() {
    let tags = tags_of(vec![fe("package.json", Some("{ not json at all"))], vec![]);
    assert!(tags.contains(&"node".to_string()));
    assert!(!tags.contains(&"react".to_string()));
    assert!(!tags.contains(&"vue".to_string()));
    assert!(!tags.contains(&"express".to_string()));
}

#[test]
fn unreadable_package_manifest_still_yields_node() {
    let tags = tags_of(vec![fe("package.json", None)], vec![]);
    assert!(tags.contains(&"node".to_string()));
    assert!(!tags.contains(&"react".to_string()));
}

#[test]
fn rust_project_with_tests_and_library_manifest() {
    let manifest = "[package]\nname = \"demo\"\n\n[lib]\n";
    let source = "pub fn f() {}\n\n#[test]\nfn t() { f(); }\n";
    let files = vec![
        fe("Cargo.toml", Some(manifest)),
        fe("lib.rs", Some("pub fn f() {}")),
    ];
    let deep = vec![fe("tests.rs", Some(source))];
    let tags = tags_of(files, deep);
    assert!(tags.contains(&"rust".to_string()));
    assert!(tags.contains(&"rust-lib".to_string()));
    assert!(tags.contains(&"rust-test".to_string()));
    assert!(tags.contains(&"rust-all".to_string()));
}

#[test]
fn manifest_without_binary_section_counts_as_library() {
    let files = vec![
        fe("main.rs", Some("fn main() {}")),
        fe("Cargo.toml", Some("[package]\nname = \"demo\"\n")),
    ];
    let tags = tags_of(files, vec![]);
    assert!(tags.contains(&"rust-lib".to_string()));
}

#[test]
fn manifest_with_binary_section_is_no_library() {
    let files = vec![
        fe("main.rs", Some("fn main() {}")),
        fe("Cargo.toml", Some("[package]\nname = \"demo\"\n[[bin]]\nname = \"demo\"\n")),
    ];
    let tags = tags_of(files, vec![]);
    assert!(!tags.contains(&"rust-lib".to_string()));
    // rust and rust-all still appear: the manifest and the source are evidence
    assert!(tags.contains(&"rust".to_string()));
    assert!(tags.contains(&"rust-all".to_string()));
}

#[test]
fn requirements_text_yields_framework_tags() {
    let req = "flask==2.0\npytest\n";
    let tags = tags_of(vec![fe("requirements.txt", Some(req))], vec![]);
    assert!(tags.contains(&"flask".to_string()));
    assert!(tags.contains(&"python-module:pytest".to_string()));
    // the content pass also adds the provider's own bare tag
    assert!(tags.contains(&"python-module".to_string()));
    assert!(!tags.contains(&"fastapi".to_string()));
    assert!(!tags.contains(&"python-module:django".to_string()));
}

#[test]
fn fastapi_requirement_detected() {
    let tags = tags_of(vec![fe("requirements.txt", Some("fastapi\nuvicorn\n"))], vec![]);
    assert!(tags.contains(&"fastapi".to_string()));
    assert!(!tags.contains(&"flask".to_string()));
}

#[test]
fn empty_tree_detects_nothing() {
    let tags = tags_of(vec![], vec![]);
    assert!(tags.is_empty());
}

#[test]
fn last_manifest_of_a_name_wins() {
    // two package manifests: the later one carries the dependency
    let files = vec![
        fe("package.json", Some("{\"dependencies\":{\"vue\":\"3\"}}")),
        fe("package.json", Some("{\"dependencies\":{\"express\":\"4\"}}")),
    ];
    let tags = tags_of(files, vec![]);
    assert!(tags.contains(&"express".to_string()));
    assert!(!tags.contains(&"vue".to_string()));
}
