use launchgen::doc::Json;
use launchgen::providers::{
    detect_cpp_file, lookup_provider, provider_names, template_for, CppGdbConfigProvider,
    FlaskConfigProvider, NodeConfigProvider, ProviderKind, PythonConfigProvider,
    PythonModuleConfigProvider, RustAllConfigProvider, RustLibConfigProvider,
    RustTestConfigProvider, TypeScriptConfigProvider,
};

fn jeq(a: &Json, b: &Json) -> bool {
    match (a, b) {
        (Json::Bool(x), Json::Bool(y)) => x == y,
        (Json::Str(x), Json::Str(y)) => x == y,
        (Json::Arr(x), Json::Arr(y)) => {
            x.len() == y.len() && x.iter().zip(y.iter()).all(|(p, q)| jeq(p, q))
        }
        (Json::Obj(x), Json::Obj(y)) => {
            x.len() == y.len()
                && x.iter().zip(y.iter()).all(|(p, q)| p.0 == q.0 && jeq(&p.1, &q.1))
        }
        _ => false,
    }
}

fn field<'a>(j: &'a Json, key: &str) -> Option<&'a Json> {
    if let Json::Obj(fields) = j {
        for (k, v) in fields {
            if k == key {
                return Some(v);
            }
        }
    }
    None
}

fn str_field(j: &Json, key: &str) -> String {
    match field(j, key) {
        Some(Json::Str(s)) => s.clone(),
        _ => panic!("missing string field {}", key),
    }
}

#[test]
fn python_template_fields() {
    let cfg = PythonConfigProvider.get_config(None);
    assert_eq!(str_field(&cfg, "name"), "Python: Current File");
    assert_eq!(str_field(&cfg, "type"), "debugpy");
    assert_eq!(str_field(&cfg, "request"), "launch");
    assert_eq!(str_field(&cfg, "program"), "${file}");
    match field(&cfg, "justMyCode") {
        Some(Json::Bool(true)) => {}
        _ => panic!("justMyCode must be true"),
    }
}

#[test]
fn python_module_defaults_to_app() {
    let cfg = PythonModuleConfigProvider.get_config(None);
    assert_eq!(str_field(&cfg, "module"), "app");
    assert_eq!(str_field(&cfg, "name"), "Python: Module app");
}

#[test]
fn python_module_reflects_parameter() {
    let cfg = PythonModuleConfigProvider.get_config(Some("mypkg"));
    assert_eq!(str_field(&cfg, "module"), "mypkg");
    assert_eq!(str_field(&cfg, "name"), "Python: Module mypkg");
}

#[test]
fn flask_template_environment() {
    let cfg = FlaskConfigProvider.get_config(None);
    let env = field(&cfg, "env").expect("env object");
    assert_eq!(str_field(env, "FLASK_APP"), "app.py");
    assert_eq!(str_field(env, "FLASK_DEBUG"), "1");
    match field(&cfg, "args") {
        Some(Json::Arr(items)) => assert_eq!(items.len(), 3),
        _ => panic!("args must be an array"),
    }
}

#[test]
fn rust_all_holds_the_three_rust_templates() {
    let cfg = RustAllConfigProvider.get_config(None);
    // the all-in-one entry is itself a well-formed template document
    assert_eq!(str_field(&cfg, "name"), "Rust: All Configurations");
    assert_eq!(str_field(&cfg, "type"), "lldb");
    assert_eq!(str_field(&cfg, "request"), "launch");
    match field(&cfg, "configurations") {
        Some(Json::Arr(items)) => {
            assert_eq!(items.len(), 3);
            assert_eq!(str_field(&items[0], "name"), "Rust: Debug Binary");
            assert_eq!(str_field(&items[1], "name"), "Rust: Debug Library");
            assert_eq!(str_field(&items[2], "name"), "Rust: Debug Tests");
        }
        _ => panic!("configurations must be an array"),
    }
}

#[test]
fn cpp_gdb_template_setup_commands() {
    let cfg = CppGdbConfigProvider.get_config(None);
    assert_eq!(str_field(&cfg, "MIMode"), "gdb");
    match field(&cfg, "setupCommands") {
        Some(Json::Arr(items)) => {
            assert_eq!(items.len(), 1);
            assert_eq!(str_field(&items[0], "text"), "-enable-pretty-printing");
        }
        _ => panic!("setupCommands must be an array"),
    }
}

#[test]
fn template_dispatch_matches_providers() {
    let a = template_for(ProviderKind::Node, None);
    let b = NodeConfigProvider.get_config(None);
    assert!(jeq(&a, &b));
}

#[test]
fn provider_file_evidence() {
    assert!(PythonConfigProvider.can_detect_from_file("x.py"));
    assert!(!PythonConfigProvider.can_detect_from_file("x.pyc"));
    assert!(NodeConfigProvider.can_detect_from_file("package.json"));
    assert!(TypeScriptConfigProvider.can_detect_from_file("tsconfig.json"));
    assert!(TypeScriptConfigProvider.can_detect_from_file("a.ts"));
    assert!(RustLibConfigProvider.can_detect_from_file("lib.rs", None));
    assert!(RustLibConfigProvider.can_detect_from_file("Cargo.toml", Some("[lib]")));
    assert!(!RustLibConfigProvider.can_detect_from_file("Cargo.toml", None));
    assert!(RustTestConfigProvider.can_detect_from_file("a.rs", Some("#[test]\nfn t() {}")));
    assert!(!RustTestConfigProvider.can_detect_from_file("a.rs", Some("fn t() {}")));
}

#[test]
fn provider_content_evidence() {
    assert!(PythonModuleConfigProvider.can_detect_from_content("requirements.txt", "django"));
    assert!(!PythonModuleConfigProvider.can_detect_from_content("other.txt", "django"));
    assert!(FlaskConfigProvider.can_detect_from_content("requirements.txt", "flask==2"));
    assert!(RustLibConfigProvider.can_detect_from_content("Cargo.toml", "[lib]\n[[bin]]"));
    assert!(!RustLibConfigProvider.can_detect_from_content("Cargo.toml", "[[bin]]"));
    assert!(RustTestConfigProvider.can_detect_from_content("foo.rs", "mod test {}"));
    assert!(!RustTestConfigProvider.can_detect_from_content("foo.txt", "mod test {}"));
}

#[test]
fn cpp_file_detection() {
    assert!(detect_cpp_file("a.cpp"));
    assert!(detect_cpp_file("a.cc"));
    assert!(detect_cpp_file("a.cxx"));
    assert!(detect_cpp_file("a.h"));
    assert!(detect_cpp_file("a.hpp"));
    assert!(detect_cpp_file("CMakeLists.txt"));
    assert!(detect_cpp_file("Makefile"));
    assert!(!detect_cpp_file("a.c"));
    assert!(!detect_cpp_file("makefile"));
}

#[test]
fn lookup_knows_every_registered_name() {
    let names = provider_names();
    assert_eq!(names.len(), 13);
    for n in &names {
        assert!(lookup_provider(n.as_str()).is_some());
    }
    assert!(lookup_provider("cobol").is_none());
    assert!(lookup_provider("").is_none());
}

#[test]
fn file_name_extension_edge_cases() {
    // a leading dot marks a hidden file, not an extension
    assert!(!PythonConfigProvider.can_detect_from_file(".py"));
    assert!(PythonConfigProvider.can_detect_from_file("a.b.py"));
    assert!(!PythonConfigProvider.can_detect_from_file("py"));
}
