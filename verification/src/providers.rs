//! The provider registry: one provider per supported ecosystem. Each provider
//! produces its launch-configuration template and tests whether a file path or
//! a manifest's content is evidence of its ecosystem. The fixed set of
//! providers is dispatched through the `ProviderKind` tagged union.

use vstd::prelude::*;
use vstd::string::StringExecFns;

use crate::doc::{
    arr_empty, arr_push, json_bool, json_str, obj_empty, obj_push, view_fields, view_items, Json,
    JsonV,
};
use crate::strutil::{contains_seq, contains_str, ends_with_str, ext_is, has_ext, has_suffix,
    str_eq};

verus! {

/// The closed set of providers, in registry order.
#[derive(Clone, Copy)]
pub enum ProviderKind {
    Python,
    PythonModule,
    Flask,
    FastApi,
    JavaScript,
    Node,
    TypeScript,
    Rust,
    RustLib,
    RustTest,
    RustAll,
    CppGdb,
    CppLldb,
}

pub open spec fn provider_name_spec(k: ProviderKind) -> Seq<char> {
    match k {
        ProviderKind::Python => "python"@,
        ProviderKind::PythonModule => "python-module"@,
        ProviderKind::Flask => "flask"@,
        ProviderKind::FastApi => "fastapi"@,
        ProviderKind::JavaScript => "javascript"@,
        ProviderKind::Node => "node"@,
        ProviderKind::TypeScript => "typescript"@,
        ProviderKind::Rust => "rust"@,
        ProviderKind::RustLib => "rust-lib"@,
        ProviderKind::RustTest => "rust-test"@,
        ProviderKind::RustAll => "rust-all"@,
        ProviderKind::CppGdb => "cpp-gdb"@,
        ProviderKind::CppLldb => "cpp-lldb"@,
    }
}

/// The registry order: the order in which providers are consulted.
pub open spec fn kind_list() -> Seq<ProviderKind> {
    seq![
        ProviderKind::Python,
        ProviderKind::PythonModule,
        ProviderKind::Flask,
        ProviderKind::FastApi,
        ProviderKind::JavaScript,
        ProviderKind::Node,
        ProviderKind::TypeScript,
        ProviderKind::Rust,
        ProviderKind::RustLib,
        ProviderKind::RustTest,
        ProviderKind::RustAll,
        ProviderKind::CppGdb,
        ProviderKind::CppLldb,
    ]
}

/// All providers, in registry order.
pub fn all_kinds() -> (r: Vec<ProviderKind>)
    ensures
        r@ =~= kind_list(),
{
    let mut v: Vec<ProviderKind> = Vec::new();
    v.push(ProviderKind::Python);
    v.push(ProviderKind::PythonModule);
    v.push(ProviderKind::Flask);
    v.push(ProviderKind::FastApi);
    v.push(ProviderKind::JavaScript);
    v.push(ProviderKind::Node);
    v.push(ProviderKind::TypeScript);
    v.push(ProviderKind::Rust);
    v.push(ProviderKind::RustLib);
    v.push(ProviderKind::RustTest);
    v.push(ProviderKind::RustAll);
    v.push(ProviderKind::CppGdb);
    v.push(ProviderKind::CppLldb);
    v
}

/// Resolves a requested kind name to its provider.
pub open spec fn lookup_spec(name: Seq<char>) -> Option<ProviderKind> {
    if name == "python"@ {
        Some(ProviderKind::Python)
    } else if name == "python-module"@ {
        Some(ProviderKind::PythonModule)
    } else if name == "flask"@ {
        Some(ProviderKind::Flask)
    } else if name == "fastapi"@ {
        Some(ProviderKind::FastApi)
    } else if name == "javascript"@ {
        Some(ProviderKind::JavaScript)
    } else if name == "node"@ {
        Some(ProviderKind::Node)
    } else if name == "typescript"@ {
        Some(ProviderKind::TypeScript)
    } else if name == "rust"@ {
        Some(ProviderKind::Rust)
    } else if name == "rust-lib"@ {
        Some(ProviderKind::RustLib)
    } else if name == "rust-test"@ {
        Some(ProviderKind::RustTest)
    } else if name == "rust-all"@ {
        Some(ProviderKind::RustAll)
    } else if name == "cpp-gdb"@ {
        Some(ProviderKind::CppGdb)
    } else if name == "cpp-lldb"@ {
        Some(ProviderKind::CppLldb)
    } else {
        None
    }
}

/// Looks a provider up by name.
pub fn lookup_provider(name: &str) -> (r: Option<ProviderKind>)
    ensures
        r == lookup_spec(name@),
{
    if str_eq(name, "python") {
        Some(ProviderKind::Python)
    } else if str_eq(name, "python-module") {
        Some(ProviderKind::PythonModule)
    } else if str_eq(name, "flask") {
        Some(ProviderKind::Flask)
    } else if str_eq(name, "fastapi") {
        Some(ProviderKind::FastApi)
    } else if str_eq(name, "javascript") {
        Some(ProviderKind::JavaScript)
    } else if str_eq(name, "node") {
        Some(ProviderKind::Node)
    } else if str_eq(name, "typescript") {
        Some(ProviderKind::TypeScript)
    } else if str_eq(name, "rust") {
        Some(ProviderKind::Rust)
    } else if str_eq(name, "rust-lib") {
        Some(ProviderKind::RustLib)
    } else if str_eq(name, "rust-test") {
        Some(ProviderKind::RustTest)
    } else if str_eq(name, "rust-all") {
        Some(ProviderKind::RustAll)
    } else if str_eq(name, "cpp-gdb") {
        Some(ProviderKind::CppGdb)
    } else if str_eq(name, "cpp-lldb") {
        Some(ProviderKind::CppLldb)
    } else {
        None
    }
}

/// The manifest declares a library, or does not declare a binary.
pub open spec fn lib_manifest_marker(c: Seq<char>) -> bool {
    contains_seq(c, "[lib]"@) || !contains_seq(c, "[[bin]]"@)
}

/// The source text carries a test attribute or a test module.
pub open spec fn test_marker(c: Seq<char>) -> bool {
    contains_seq(c, "#[test]"@) || contains_seq(c, "mod test"@)
}

/// A C/C++ source, header or build-manifest file name.
pub open spec fn cpp_file_evidence(name: Seq<char>) -> bool {
    ||| has_ext(name, "cpp"@)
    ||| has_ext(name, "cc"@)
    ||| has_ext(name, "cxx"@)
    ||| has_ext(name, "h"@)
    ||| has_ext(name, "hpp"@)
    ||| name == "CMakeLists.txt"@
    ||| name == "Makefile"@
}

/// Whether a file (name, plus its text where it could be read) is evidence
/// for the given provider.
pub open spec fn file_evidence(k: ProviderKind, name: Seq<char>, content: Option<Seq<char>>) -> bool {
    match k {
        ProviderKind::Python => has_ext(name, "py"@),
        ProviderKind::PythonModule => false,
        ProviderKind::Flask => false,
        ProviderKind::FastApi => false,
        ProviderKind::JavaScript => has_ext(name, "js"@),
        ProviderKind::Node => name == "package.json"@,
        ProviderKind::TypeScript => has_ext(name, "ts"@) || name == "tsconfig.json"@,
        ProviderKind::Rust => has_ext(name, "rs"@) || name == "Cargo.toml"@,
        ProviderKind::RustLib => if name == "Cargo.toml"@ {
            content is Some && lib_manifest_marker(content->0)
        } else {
            name == "lib.rs"@
        },
        ProviderKind::RustTest => has_ext(name, "rs"@) && content is Some && test_marker(
            content->0,
        ),
        ProviderKind::RustAll => has_ext(name, "rs"@) || name == "Cargo.toml"@,
        ProviderKind::CppGdb => cpp_file_evidence(name),
        ProviderKind::CppLldb => cpp_file_evidence(name),
    }
}

/// Whether a remembered manifest's text is evidence for the given provider.
pub open spec fn content_evidence(k: ProviderKind, filename: Seq<char>, content: Seq<char>) -> bool {
    match k {
        ProviderKind::PythonModule => filename == "requirements.txt"@ && (contains_seq(
            content,
            "django"@,
        ) || contains_seq(content, "pytest"@)),
        ProviderKind::Flask => filename == "requirements.txt"@ && contains_seq(content, "flask"@),
        ProviderKind::FastApi => filename == "requirements.txt"@ && contains_seq(
            content,
            "fastapi"@,
        ),
        ProviderKind::RustLib => filename == "Cargo.toml"@ && lib_manifest_marker(content),
        ProviderKind::RustTest => has_suffix(filename, ".rs"@) && test_marker(content),
        _ => false,
    }
}

/// A C/C++ source, header or build-manifest file name.
pub fn detect_cpp_file(path: &str) -> (r: bool)
    ensures
        r == cpp_file_evidence(path@),
{
    if ext_is(path, "cpp") || ext_is(path, "cc") || ext_is(path, "cxx") || ext_is(path, "h")
        || ext_is(path, "hpp") {
        return true;
    }
    str_eq(path, "CMakeLists.txt") || str_eq(path, "Makefile")
}

pub open spec fn python_template() -> JsonV {
    JsonV::Obj(
        seq![
            ("name"@, JsonV::Str("Python: Current File"@)),
            ("type"@, JsonV::Str("debugpy"@)),
            ("request"@, JsonV::Str("launch"@)),
            ("program"@, JsonV::Str("${file}"@)),
            ("console"@, JsonV::Str("integratedTerminal"@)),
            ("justMyCode"@, JsonV::Bool(true)),
            ("args"@, JsonV::Arr(Seq::empty())),
        ],
    )
}

pub struct PythonConfigProvider;

impl PythonConfigProvider {
    pub fn name(&self) -> (r: &'static str)
        ensures
            r@ == provider_name_spec(ProviderKind::Python),
    {
        "python"
    }

    pub fn get_config(&self, _params: Option<&str>) -> (r: Json)
        ensures
            r@ == python_template(),
    {
        let mut f = obj_empty();
        obj_push(&mut f, "name", json_str("Python: Current File"));
        obj_push(&mut f, "type", json_str("debugpy"));
        obj_push(&mut f, "request", json_str("launch"));
        obj_push(&mut f, "program", json_str("${file}"));
        obj_push(&mut f, "console", json_str("integratedTerminal"));
        obj_push(&mut f, "justMyCode", json_bool(true));
        obj_push(&mut f, "args", Json::Arr(arr_empty()));
        proof {
            assert(view_fields(f@) =~= crate::doc::obj_fields(python_template()));
        }
        Json::Obj(f)
    }

    pub fn can_detect_from_file(&self, path: &str) -> (r: bool)
        ensures
            r == file_evidence(ProviderKind::Python, path@, None),
    {
        ext_is(path, "py")
    }

    pub fn can_detect_from_content(&self, filename: &str, content: &str) -> (r: bool)
        ensures
            r == content_evidence(ProviderKind::Python, filename@, content@),
    {
        false
    }
}

/// The module a parameterized template runs: the parameter, or `"app"`.
pub open spec fn module_of(param: Option<Seq<char>>) -> Seq<char> {
    match param {
        Some(p) => p,
        None => "app"@,
    }
}

pub open spec fn python_module_template(param: Option<Seq<char>>) -> JsonV {
    JsonV::Obj(
        seq![
            ("name"@, JsonV::Str("Python: Module "@ + module_of(param))),
            ("type"@, JsonV::Str("debugpy"@)),
            ("request"@, JsonV::Str("launch"@)),
            ("module"@, JsonV::Str(module_of(param))),
            ("console"@, JsonV::Str("integratedTerminal"@)),
            ("justMyCode"@, JsonV::Bool(true)),
            ("args"@, JsonV::Arr(Seq::empty())),
        ],
    )
}

pub struct PythonModuleConfigProvider;

impl PythonModuleConfigProvider {
    pub fn name(&self) -> (r: &'static str)
        ensures
            r@ == provider_name_spec(ProviderKind::PythonModule),
    {
        "python-module"
    }

    pub fn get_config(&self, params: Option<&str>) -> (r: Json)
        ensures
            r@ == python_module_template(match params {
                Some(p) => Some(p@),
                None => None,
            }),
    {
        let module: &str = match params {
            Some(p) => p,
            None => "app",
        };
        let mut f = obj_empty();
        obj_push(&mut f, "name", Json::Str(String::from_str("Python: Module ").concat(module)));
        obj_push(&mut f, "type", json_str("debugpy"));
        obj_push(&mut f, "request", json_str("launch"));
        obj_push(&mut f, "module", json_str(module));
        obj_push(&mut f, "console", json_str("integratedTerminal"));
        obj_push(&mut f, "justMyCode", json_bool(true));
        obj_push(&mut f, "args", Json::Arr(arr_empty()));
        proof {
            let ghost p = match params {
                Some(q) => Some(q@),
                None => None,
            };
            assert(module@ == module_of(p));
            assert(view_fields(f@) =~= crate::doc::obj_fields(python_module_template(p)));
        }
        Json::Obj(f)
    }

    pub fn can_detect_from_file(&self, _path: &str) -> (r: bool)
        ensures
            r == false,
    {
        false
    }

    pub fn can_detect_from_content(&self, filename: &str, content: &str) -> (r: bool)
        ensures
            r == content_evidence(ProviderKind::PythonModule, filename@, content@),
    {
        if str_eq(filename, "requirements.txt") {
            if contains_str(content, "django") {
                return true;
            }
            if contains_str(content, "pytest") {
                return true;
            }
        }
        false
    }
}

pub open spec fn flask_template() -> JsonV {
    JsonV::Obj(
        seq![
            ("name"@, JsonV::Str("Python: Flask"@)),
            ("type"@, JsonV::Str("python"@)),
            ("request"@, JsonV::Str("launch"@)),
            ("module"@, JsonV::Str("flask"@)),
            (
                "env"@,
                JsonV::Obj(
                    seq![
                        ("FLASK_APP"@, JsonV::Str("app.py"@)),
                        ("FLASK_DEBUG"@, JsonV::Str("1"@)),
                    ],
                ),
            ),
            (
                "args"@,
                JsonV::Arr(
                    seq![
                        JsonV::Str("run"@),
                        JsonV::Str("--no-debugger"@),
                        JsonV::Str("--no-reload"@),
                    ],
                ),
            ),
            ("jinja"@, JsonV::Bool(true)),
            ("justMyCode"@, JsonV::Bool(true)),
        ],
    )
}

pub struct FlaskConfigProvider;

impl FlaskConfigProvider {
    pub fn name(&self) -> (r: &'static str)
        ensures
            r@ == provider_name_spec(ProviderKind::Flask),
    {
        "flask"
    }

    pub fn get_config(&self, _params: Option<&str>) -> (r: Json)
        ensures
            r@ == flask_template(),
    {
        let mut env = obj_empty();
        obj_push(&mut env, "FLASK_APP", json_str("app.py"));
        obj_push(&mut env, "FLASK_DEBUG", json_str("1"));
        let mut args = arr_empty();
        arr_push(&mut args, json_str("run"));
        arr_push(&mut args, json_str("--no-debugger"));
        arr_push(&mut args, json_str("--no-reload"));
        let mut f = obj_empty();
        obj_push(&mut f, "name", json_str("Python: Flask"));
        obj_push(&mut f, "type", json_str("python"));
        obj_push(&mut f, "request", json_str("launch"));
        obj_push(&mut f, "module", json_str("flask"));
        obj_push(&mut f, "env", Json::Obj(env));
        obj_push(&mut f, "args", Json::Arr(args));
        obj_push(&mut f, "jinja", json_bool(true));
        obj_push(&mut f, "justMyCode", json_bool(true));
        proof {
            assert(view_fields(env@) =~= seq![
                ("FLASK_APP"@, JsonV::Str("app.py"@)),
                ("FLASK_DEBUG"@, JsonV::Str("1"@)),
            ]);
            assert(view_items(args@) =~= seq![
                JsonV::Str("run"@),
                JsonV::Str("--no-debugger"@),
                JsonV::Str("--no-reload"@),
            ]);
            assert(view_fields(f@) =~~= crate::doc::obj_fields(flask_template()));
        }
        Json::Obj(f)
    }

    pub fn can_detect_from_file(&self, _path: &str) -> (r: bool)
        ensures
            r == false,
    {
        false
    }

    pub fn can_detect_from_content(&self, filename: &str, content: &str) -> (r: bool)
        ensures
            r == content_evidence(ProviderKind::Flask, filename@, content@),
    {
        str_eq(filename, "requirements.txt") && contains_str(content, "flask")
    }
}

pub open spec fn fastapi_template() -> JsonV {
    JsonV::Obj(
        seq![
            ("name"@, JsonV::Str("Python: FastAPI"@)),
            ("type"@, JsonV::Str("python"@)),
            ("request"@, JsonV::Str("launch"@)),
            ("module"@, JsonV::Str("uvicorn"@)),
            ("args"@, JsonV::Arr(seq![JsonV::Str("app.main:app"@), JsonV::Str("--reload"@)])),
            ("justMyCode"@, JsonV::Bool(true)),
        ],
    )
}

pub struct FastApiConfigProvider;

impl FastApiConfigProvider {
    pub fn name(&self) -> (r: &'static str)
        ensures
            r@ == provider_name_spec(ProviderKind::FastApi),
    {
        "fastapi"
    }

    pub fn get_config(&self, _params: Option<&str>) -> (r: Json)
        ensures
            r@ == fastapi_template(),
    {
        let mut args = arr_empty();
        arr_push(&mut args, json_str("app.main:app"));
        arr_push(&mut args, json_str("--reload"));
        let mut f = obj_empty();
        obj_push(&mut f, "name", json_str("Python: FastAPI"));
        obj_push(&mut f, "type", json_str("python"));
        obj_push(&mut f, "request", json_str("launch"));
        obj_push(&mut f, "module", json_str("uvicorn"));
        obj_push(&mut f, "args", Json::Arr(args));
        obj_push(&mut f, "justMyCode", json_bool(true));
        proof {
            assert(view_items(args@) =~= seq![
                JsonV::Str("app.main:app"@),
                JsonV::Str("--reload"@),
            ]);
            assert(view_fields(f@) =~~= crate::doc::obj_fields(fastapi_template()));
        }
        Json::Obj(f)
    }

    pub fn can_detect_from_file(&self, _path: &str) -> (r: bool)
        ensures
            r == false,
    {
        false
    }

    pub fn can_detect_from_content(&self, filename: &str, content: &str) -> (r: bool)
        ensures
            r == content_evidence(ProviderKind::FastApi, filename@, content@),
    {
        str_eq(filename, "requirements.txt") && contains_str(content, "fastapi")
    }
}

pub open spec fn javascript_template() -> JsonV {
    JsonV::Obj(
        seq![
            ("name"@, JsonV::Str("JavaScript: Launch Chrome"@)),
            ("type"@, JsonV::Str("chrome"@)),
            ("request"@, JsonV::Str("launch"@)),
            ("url"@, JsonV::Str("http://localhost:3000"@)),
            ("webRoot"@, JsonV::Str("${workspaceFolder}"@)),
        ],
    )
}

pub struct JavaScriptConfigProvider;

impl JavaScriptConfigProvider {
    pub fn name(&self) -> (r: &'static str)
        ensures
            r@ == provider_name_spec(ProviderKind::JavaScript),
    {
        "javascript"
    }

    pub fn get_config(&self, _params: Option<&str>) -> (r: Json)
        ensures
            r@ == javascript_template(),
    {
        let mut f = obj_empty();
        obj_push(&mut f, "name", json_str("JavaScript: Launch Chrome"));
        obj_push(&mut f, "type", json_str("chrome"));
        obj_push(&mut f, "request", json_str("launch"));
        obj_push(&mut f, "url", json_str("http://localhost:3000"));
        obj_push(&mut f, "webRoot", json_str("${workspaceFolder}"));
        proof {
            assert(view_fields(f@) =~= crate::doc::obj_fields(javascript_template()));
        }
        Json::Obj(f)
    }

    pub fn can_detect_from_file(&self, path: &str) -> (r: bool)
        ensures
            r == file_evidence(ProviderKind::JavaScript, path@, None),
    {
        ext_is(path, "js")
    }

    pub fn can_detect_from_content(&self, filename: &str, content: &str) -> (r: bool)
        ensures
            r == content_evidence(ProviderKind::JavaScript, filename@, content@),
    {
        false
    }
}

pub open spec fn node_template() -> JsonV {
    JsonV::Obj(
        seq![
            ("name"@, JsonV::Str("Node.js: Current File"@)),
            ("type"@, JsonV::Str("node"@)),
            ("request"@, JsonV::Str("launch"@)),
            ("program"@, JsonV::Str("${file}"@)),
            ("console"@, JsonV::Str("integratedTerminal"@)),
        ],
    )
}

pub struct NodeConfigProvider;

impl NodeConfigProvider {
    pub fn name(&self) -> (r: &'static str)
        ensures
            r@ == provider_name_spec(ProviderKind::Node),
    {
        "node"
    }

    pub fn get_config(&self, _params: Option<&str>) -> (r: Json)
        ensures
            r@ == node_template(),
    {
        let mut f = obj_empty();
        obj_push(&mut f, "name", json_str("Node.js: Current File"));
        obj_push(&mut f, "type", json_str("node"));
        obj_push(&mut f, "request", json_str("launch"));
        obj_push(&mut f, "program", json_str("${file}"));
        obj_push(&mut f, "console", json_str("integratedTerminal"));
        proof {
            assert(view_fields(f@) =~= crate::doc::obj_fields(node_template()));
        }
        Json::Obj(f)
    }

    pub fn can_detect_from_file(&self, path: &str) -> (r: bool)
        ensures
            r == file_evidence(ProviderKind::Node, path@, None),
    {
        str_eq(path, "package.json")
    }

    pub fn can_detect_from_content(&self, filename: &str, content: &str) -> (r: bool)
        ensures
            r == content_evidence(ProviderKind::Node, filename@, content@),
    {
        false
    }
}

pub open spec fn typescript_template() -> JsonV {
    JsonV::Obj(
        seq![
            ("name"@, JsonV::Str("TypeScript: Current File"@)),
            ("type"@, JsonV::Str("node"@)),
            ("request"@, JsonV::Str("launch"@)),
            ("program"@, JsonV::Str("${file}"@)),
            ("preLaunchTask"@, JsonV::Str("tsc: build - tsconfig.json"@)),
            ("outFiles"@, JsonV::Arr(seq![JsonV::Str("${workspaceFolder}/dist/**/*.js"@)])),
        ],
    )
}

pub struct TypeScriptConfigProvider;

impl TypeScriptConfigProvider {
    pub fn name(&self) -> (r: &'static str)
        ensures
            r@ == provider_name_spec(ProviderKind::TypeScript),
    {
        "typescript"
    }

    pub fn get_config(&self, _params: Option<&str>) -> (r: Json)
        ensures
            r@ == typescript_template(),
    {
        let mut out_files = arr_empty();
        arr_push(&mut out_files, json_str("${workspaceFolder}/dist/**/*.js"));
        let mut f = obj_empty();
        obj_push(&mut f, "name", json_str("TypeScript: Current File"));
        obj_push(&mut f, "type", json_str("node"));
        obj_push(&mut f, "request", json_str("launch"));
        obj_push(&mut f, "program", json_str("${file}"));
        obj_push(&mut f, "preLaunchTask", json_str("tsc: build - tsconfig.json"));
        obj_push(&mut f, "outFiles", Json::Arr(out_files));
        proof {
            assert(view_fields(f@) =~~= crate::doc::obj_fields(typescript_template()));
        }
        Json::Obj(f)
    }

    pub fn can_detect_from_file(&self, path: &str) -> (r: bool)
        ensures
            r == file_evidence(ProviderKind::TypeScript, path@, None),
    {
        if ext_is(path, "ts") {
            return true;
        }
        str_eq(path, "tsconfig.json")
    }

    pub fn can_detect_from_content(&self, filename: &str, content: &str) -> (r: bool)
        ensures
            r == content_evidence(ProviderKind::TypeScript, filename@, content@),
    {
        false
    }
}

pub open spec fn rust_template() -> JsonV {
    JsonV::Obj(
        seq![
            ("name"@, JsonV::Str("Rust: Debug Binary"@)),
            ("type"@, JsonV::Str("lldb"@)),
            ("request"@, JsonV::Str("launch"@)),
            (
                "program"@,
                JsonV::Str("${workspaceFolder}/target/debug/${workspaceFolderBasename}"@),
            ),
            ("args"@, JsonV::Arr(Seq::empty())),
            ("cwd"@, JsonV::Str("${workspaceFolder}"@)),
            ("preLaunchTask"@, JsonV::Str("cargo build"@)),
        ],
    )
}

pub struct RustConfigProvider;

impl RustConfigProvider {
    pub fn name(&self) -> (r: &'static str)
        ensures
            r@ == provider_name_spec(ProviderKind::Rust),
    {
        "rust"
    }

    pub fn get_config(&self, _params: Option<&str>) -> (r: Json)
        ensures
            r@ == rust_template(),
    {
        let mut f = obj_empty();
        obj_push(&mut f, "name", json_str("Rust: Debug Binary"));
        obj_push(&mut f, "type", json_str("lldb"));
        obj_push(&mut f, "request", json_str("launch"));
        obj_push(
            &mut f,
            "program",
            json_str("${workspaceFolder}/target/debug/${workspaceFolderBasename}"),
        );
        obj_push(&mut f, "args", Json::Arr(arr_empty()));
        obj_push(&mut f, "cwd", json_str("${workspaceFolder}"));
        obj_push(&mut f, "preLaunchTask", json_str("cargo build"));
        proof {
            assert(view_fields(f@) =~= crate::doc::obj_fields(rust_template()));
        }
        Json::Obj(f)
    }

    pub fn can_detect_from_file(&self, path: &str) -> (r: bool)
        ensures
            r == file_evidence(ProviderKind::Rust, path@, None),
    {
        if ext_is(path, "rs") {
            return true;
        }
        str_eq(path, "Cargo.toml")
    }

    pub fn can_detect_from_content(&self, filename: &str, content: &str) -> (r: bool)
        ensures
            r == content_evidence(ProviderKind::Rust, filename@, content@),
    {
        false
    }
}

pub open spec fn rust_lib_template() -> JsonV {
    JsonV::Obj(
        seq![
            ("name"@, JsonV::Str("Rust: Debug Library"@)),
            ("type"@, JsonV::Str("lldb"@)),
            ("request"@, JsonV::Str("launch"@)),
            (
                "cargo"@,
                JsonV::Obj(
                    seq![
                        ("args"@, JsonV::Arr(seq![JsonV::Str("build"@), JsonV::Str("--lib"@)])),
                    ],
                ),
            ),
            ("args"@, JsonV::Arr(Seq::empty())),
            ("cwd"@, JsonV::Str("${workspaceFolder}"@)),
        ],
    )
}

pub struct RustLibConfigProvider;

impl RustLibConfigProvider {
    pub fn name(&self) -> (r: &'static str)
        ensures
            r@ == provider_name_spec(ProviderKind::RustLib),
    {
        "rust-lib"
    }

    pub fn get_config(&self, _params: Option<&str>) -> (r: Json)
        ensures
            r@ == rust_lib_template(),
    {
        let mut cargo_args = arr_empty();
        arr_push(&mut cargo_args, json_str("build"));
        arr_push(&mut cargo_args, json_str("--lib"));
        let mut cargo = obj_empty();
        obj_push(&mut cargo, "args", Json::Arr(cargo_args));
        let mut f = obj_empty();
        obj_push(&mut f, "name", json_str("Rust: Debug Library"));
        obj_push(&mut f, "type", json_str("lldb"));
        obj_push(&mut f, "request", json_str("launch"));
        obj_push(&mut f, "cargo", Json::Obj(cargo));
        obj_push(&mut f, "args", Json::Arr(arr_empty()));
        obj_push(&mut f, "cwd", json_str("${workspaceFolder}"));
        proof {
            assert(view_items(cargo_args@) =~= seq![JsonV::Str("build"@), JsonV::Str("--lib"@)]);
            assert(view_fields(cargo@) =~= seq![
                ("args"@, JsonV::Arr(view_items(cargo_args@))),
            ]);
            assert(view_fields(f@) =~~= crate::doc::obj_fields(rust_lib_template()));
        }
        Json::Obj(f)
    }

    /// A manifest whose readable text declares a library (or no binary), or a
    /// file named `lib.rs`. An unreadable manifest is no evidence.
    pub fn can_detect_from_file(&self, path: &str, content: Option<&str>) -> (r: bool)
        ensures
            r == file_evidence(ProviderKind::RustLib, path@, match content {
                Some(c) => Some(c@),
                None => None,
            }),
    {
        if str_eq(path, "Cargo.toml") {
            match content {
                Some(c) => contains_str(c, "[lib]") || !contains_str(c, "[[bin]]"),
                None => false,
            }
        } else {
            str_eq(path, "lib.rs")
        }
    }

    pub fn can_detect_from_content(&self, filename: &str, content: &str) -> (r: bool)
        ensures
            r == content_evidence(ProviderKind::RustLib, filename@, content@),
    {
        str_eq(filename, "Cargo.toml") && (contains_str(content, "[lib]") || !contains_str(
            content,
            "[[bin]]",
        ))
    }
}

pub open spec fn rust_test_template() -> JsonV {
    JsonV::Obj(
        seq![
            ("name"@, JsonV::Str("Rust: Debug Tests"@)),
            ("type"@, JsonV::Str("lldb"@)),
            ("request"@, JsonV::Str("launch"@)),
            (
                "cargo"@,
                JsonV::Obj(
                    seq![
                        ("args"@, JsonV::Arr(seq![JsonV::Str("test"@), JsonV::Str("--no-run"@)])),
                    ],
                ),
            ),
            ("args"@, JsonV::Arr(Seq::empty())),
            ("cwd"@, JsonV::Str("${workspaceFolder}"@)),
        ],
    )
}

pub struct RustTestConfigProvider;

impl RustTestConfigProvider {
    pub fn name(&self) -> (r: &'static str)
        ensures
            r@ == provider_name_spec(ProviderKind::RustTest),
    {
        "rust-test"
    }

    pub fn get_config(&self, _params: Option<&str>) -> (r: Json)
        ensures
            r@ == rust_test_template(),
    {
        let mut cargo_args = arr_empty();
        arr_push(&mut cargo_args, json_str("test"));
        arr_push(&mut cargo_args, json_str("--no-run"));
        let mut cargo = obj_empty();
        obj_push(&mut cargo, "args", Json::Arr(cargo_args));
        let mut f = obj_empty();
        obj_push(&mut f, "name", json_str("Rust: Debug Tests"));
        obj_push(&mut f, "type", json_str("lldb"));
        obj_push(&mut f, "request", json_str("launch"));
        obj_push(&mut f, "cargo", Json::Obj(cargo));
        obj_push(&mut f, "args", Json::Arr(arr_empty()));
        obj_push(&mut f, "cwd", json_str("${workspaceFolder}"));
        proof {
            assert(view_items(cargo_args@) =~= seq![JsonV::Str("test"@), JsonV::Str("--no-run"@)]);
            assert(view_fields(cargo@) =~= seq![
                ("args"@, JsonV::Arr(view_items(cargo_args@))),
            ]);
            assert(view_fields(f@) =~~= crate::doc::obj_fields(rust_test_template()));
        }
        Json::Obj(f)
    }

    /// A Rust source file whose readable text carries a test marker.
    pub fn can_detect_from_file(&self, path: &str, content: Option<&str>) -> (r: bool)
        ensures
            r == file_evidence(ProviderKind::RustTest, path@, match content {
                Some(c) => Some(c@),
                None => None,
            }),
    {
        if ext_is(path, "rs") {
            match content {
                Some(c) => contains_str(c, "#[test]") || contains_str(c, "mod test"),
                None => false,
            }
        } else {
            false
        }
    }

    pub fn can_detect_from_content(&self, filename: &str, content: &str) -> (r: bool)
        ensures
            r == content_evidence(ProviderKind::RustTest, filename@, content@),
    {
        ends_with_str(filename, ".rs") && (contains_str(content, "#[test]") || contains_str(
            content,
            "mod test",
        ))
    }
}

/// The all-in-one entry: like every template document it carries a `name`
/// and the `request`/`type` discriminator, and bundles the three Rust
/// configurations under it.
pub open spec fn rust_all_template() -> JsonV {
    JsonV::Obj(
        seq![
            ("name"@, JsonV::Str("Rust: All Configurations"@)),
            ("type"@, JsonV::Str("lldb"@)),
            ("request"@, JsonV::Str("launch"@)),
            (
                "configurations"@,
                JsonV::Arr(seq![rust_template(), rust_lib_template(), rust_test_template()]),
            ),
        ],
    )
}

pub struct RustAllConfigProvider;

impl RustAllConfigProvider {
    pub fn name(&self) -> (r: &'static str)
        ensures
            r@ == provider_name_spec(ProviderKind::RustAll),
    {
        "rust-all"
    }

    pub fn get_config(&self, _params: Option<&str>) -> (r: Json)
        ensures
            r@ == rust_all_template(),
    {
        let mut configs = arr_empty();
        arr_push(&mut configs, RustConfigProvider.get_config(None));
        arr_push(&mut configs, RustLibConfigProvider.get_config(None));
        arr_push(&mut configs, RustTestConfigProvider.get_config(None));
        let mut f = obj_empty();
        obj_push(&mut f, "name", json_str("Rust: All Configurations"));
        obj_push(&mut f, "type", json_str("lldb"));
        obj_push(&mut f, "request", json_str("launch"));
        obj_push(&mut f, "configurations", Json::Arr(configs));
        proof {
            assert(view_items(configs@) =~= seq![
                rust_template(),
                rust_lib_template(),
                rust_test_template(),
            ]);
            assert(view_fields(f@) =~~= crate::doc::obj_fields(rust_all_template()));
        }
        Json::Obj(f)
    }

    pub fn can_detect_from_file(&self, path: &str) -> (r: bool)
        ensures
            r == file_evidence(ProviderKind::RustAll, path@, None),
    {
        if ext_is(path, "rs") {
            return true;
        }
        str_eq(path, "Cargo.toml")
    }

    pub fn can_detect_from_content(&self, filename: &str, content: &str) -> (r: bool)
        ensures
            r == content_evidence(ProviderKind::RustAll, filename@, content@),
    {
        false
    }
}

pub open spec fn cpp_gdb_template() -> JsonV {
    JsonV::Obj(
        seq![
            ("name"@, JsonV::Str("C++: GDB"@)),
            ("type"@, JsonV::Str("cppdbg"@)),
            ("request"@, JsonV::Str("launch"@)),
            ("program"@, JsonV::Str("${workspaceFolder}/build/${fileBasenameNoExtension}"@)),
            ("args"@, JsonV::Arr(Seq::empty())),
            ("stopAtEntry"@, JsonV::Bool(false)),
            ("cwd"@, JsonV::Str("${workspaceFolder}"@)),
            ("environment"@, JsonV::Arr(Seq::empty())),
            ("externalConsole"@, JsonV::Bool(false)),
            ("MIMode"@, JsonV::Str("gdb"@)),
            (
                "setupCommands"@,
                JsonV::Arr(
                    seq![
                        JsonV::Obj(
                            seq![
                                ("description"@, JsonV::Str("Enable pretty-printing for gdb"@)),
                                ("text"@, JsonV::Str("-enable-pretty-printing"@)),
                                ("ignoreFailures"@, JsonV::Bool(true)),
                            ],
                        ),
                    ],
                ),
            ),
            ("preLaunchTask"@, JsonV::Str("C/C++: Build active file"@)),
        ],
    )
}

pub struct CppGdbConfigProvider;

impl CppGdbConfigProvider {
    pub fn name(&self) -> (r: &'static str)
        ensures
            r@ == provider_name_spec(ProviderKind::CppGdb),
    {
        "cpp-gdb"
    }

    pub fn get_config(&self, _params: Option<&str>) -> (r: Json)
        ensures
            r@ == cpp_gdb_template(),
    {
        let mut cmd = obj_empty();
        obj_push(&mut cmd, "description", json_str("Enable pretty-printing for gdb"));
        obj_push(&mut cmd, "text", json_str("-enable-pretty-printing"));
        obj_push(&mut cmd, "ignoreFailures", json_bool(true));
        let mut cmds = arr_empty();
        arr_push(&mut cmds, Json::Obj(cmd));
        let mut f = obj_empty();
        obj_push(&mut f, "name", json_str("C++: GDB"));
        obj_push(&mut f, "type", json_str("cppdbg"));
        obj_push(&mut f, "request", json_str("launch"));
        obj_push(&mut f, "program", json_str("${workspaceFolder}/build/${fileBasenameNoExtension}"));
        obj_push(&mut f, "args", Json::Arr(arr_empty()));
        obj_push(&mut f, "stopAtEntry", json_bool(false));
        obj_push(&mut f, "cwd", json_str("${workspaceFolder}"));
        obj_push(&mut f, "environment", Json::Arr(arr_empty()));
        obj_push(&mut f, "externalConsole", json_bool(false));
        obj_push(&mut f, "MIMode", json_str("gdb"));
        obj_push(&mut f, "setupCommands", Json::Arr(cmds));
        obj_push(&mut f, "preLaunchTask", json_str("C/C++: Build active file"));
        proof {
            assert(view_fields(cmd@) =~= seq![
                ("description"@, JsonV::Str("Enable pretty-printing for gdb"@)),
                ("text"@, JsonV::Str("-enable-pretty-printing"@)),
                ("ignoreFailures"@, JsonV::Bool(true)),
            ]);
            assert(view_items(cmds@) =~= seq![JsonV::Obj(view_fields(cmd@))]);
            assert(view_fields(f@) =~~= crate::doc::obj_fields(cpp_gdb_template()));
        }
        Json::Obj(f)
    }

    pub fn can_detect_from_file(&self, path: &str) -> (r: bool)
        ensures
            r == file_evidence(ProviderKind::CppGdb, path@, None),
    {
        detect_cpp_file(path)
    }

    pub fn can_detect_from_content(&self, filename: &str, content: &str) -> (r: bool)
        ensures
            r == content_evidence(ProviderKind::CppGdb, filename@, content@),
    {
        false
    }
}

pub open spec fn cpp_lldb_template() -> JsonV {
    JsonV::Obj(
        seq![
            ("name"@, JsonV::Str("C++: LLDB"@)),
            ("type"@, JsonV::Str("lldb"@)),
            ("request"@, JsonV::Str("launch"@)),
            ("program"@, JsonV::Str("${workspaceFolder}/build/${fileBasenameNoExtension}"@)),
            ("args"@, JsonV::Arr(Seq::empty())),
            ("stopAtEntry"@, JsonV::Bool(false)),
            ("cwd"@, JsonV::Str("${workspaceFolder}"@)),
            ("environment"@, JsonV::Arr(Seq::empty())),
            ("externalConsole"@, JsonV::Bool(false)),
            ("preLaunchTask"@, JsonV::Str("C/C++: Build active file"@)),
        ],
    )
}

pub struct CppLldbConfigProvider;

impl CppLldbConfigProvider {
    pub fn name(&self) -> (r: &'static str)
        ensures
            r@ == provider_name_spec(ProviderKind::CppLldb),
    {
        "cpp-lldb"
    }

    pub fn get_config(&self, _params: Option<&str>) -> (r: Json)
        ensures
            r@ == cpp_lldb_template(),
    {
        let mut f = obj_empty();
        obj_push(&mut f, "name", json_str("C++: LLDB"));
        obj_push(&mut f, "type", json_str("lldb"));
        obj_push(&mut f, "request", json_str("launch"));
        obj_push(&mut f, "program", json_str("${workspaceFolder}/build/${fileBasenameNoExtension}"));
        obj_push(&mut f, "args", Json::Arr(arr_empty()));
        obj_push(&mut f, "stopAtEntry", json_bool(false));
        obj_push(&mut f, "cwd", json_str("${workspaceFolder}"));
        obj_push(&mut f, "environment", Json::Arr(arr_empty()));
        obj_push(&mut f, "externalConsole", json_bool(false));
        obj_push(&mut f, "preLaunchTask", json_str("C/C++: Build active file"));
        proof {
            assert(view_fields(f@) =~~= crate::doc::obj_fields(cpp_lldb_template()));
        }
        Json::Obj(f)
    }

    pub fn can_detect_from_file(&self, path: &str) -> (r: bool)
        ensures
            r == file_evidence(ProviderKind::CppLldb, path@, None),
    {
        detect_cpp_file(path)
    }

    pub fn can_detect_from_content(&self, filename: &str, content: &str) -> (r: bool)
        ensures
            r == content_evidence(ProviderKind::CppLldb, filename@, content@),
    {
        false
    }
}

/// The template a provider produces for an optional parameter.
pub open spec fn template_of(k: ProviderKind, param: Option<Seq<char>>) -> JsonV {
    match k {
        ProviderKind::Python => python_template(),
        ProviderKind::PythonModule => python_module_template(param),
        ProviderKind::Flask => flask_template(),
        ProviderKind::FastApi => fastapi_template(),
        ProviderKind::JavaScript => javascript_template(),
        ProviderKind::Node => node_template(),
        ProviderKind::TypeScript => typescript_template(),
        ProviderKind::Rust => rust_template(),
        ProviderKind::RustLib => rust_lib_template(),
        ProviderKind::RustTest => rust_test_template(),
        ProviderKind::RustAll => rust_all_template(),
        ProviderKind::CppGdb => cpp_gdb_template(),
        ProviderKind::CppLldb => cpp_lldb_template(),
    }
}

/// The view of an optional borrowed string.
pub open spec fn opt_view(c: Option<&str>) -> Option<Seq<char>> {
    match c {
        Some(s) => Some(s@),
        None => None,
    }
}

/// Produces the template of the given provider.
pub fn template_for(k: ProviderKind, param: Option<&str>) -> (r: Json)
    ensures
        r@ == template_of(k, opt_view(param)),
{
    match k {
        ProviderKind::Python => PythonConfigProvider.get_config(param),
        ProviderKind::PythonModule => PythonModuleConfigProvider.get_config(param),
        ProviderKind::Flask => FlaskConfigProvider.get_config(param),
        ProviderKind::FastApi => FastApiConfigProvider.get_config(param),
        ProviderKind::JavaScript => JavaScriptConfigProvider.get_config(param),
        ProviderKind::Node => NodeConfigProvider.get_config(param),
        ProviderKind::TypeScript => TypeScriptConfigProvider.get_config(param),
        ProviderKind::Rust => RustConfigProvider.get_config(param),
        ProviderKind::RustLib => RustLibConfigProvider.get_config(param),
        ProviderKind::RustTest => RustTestConfigProvider.get_config(param),
        ProviderKind::RustAll => RustAllConfigProvider.get_config(param),
        ProviderKind::CppGdb => CppGdbConfigProvider.get_config(param),
        ProviderKind::CppLldb => CppLldbConfigProvider.get_config(param),
    }
}

/// The name of the given provider.
pub fn provider_name(k: ProviderKind) -> (r: &'static str)
    ensures
        r@ == provider_name_spec(k),
{
    match k {
        ProviderKind::Python => PythonConfigProvider.name(),
        ProviderKind::PythonModule => PythonModuleConfigProvider.name(),
        ProviderKind::Flask => FlaskConfigProvider.name(),
        ProviderKind::FastApi => FastApiConfigProvider.name(),
        ProviderKind::JavaScript => JavaScriptConfigProvider.name(),
        ProviderKind::Node => NodeConfigProvider.name(),
        ProviderKind::TypeScript => TypeScriptConfigProvider.name(),
        ProviderKind::Rust => RustConfigProvider.name(),
        ProviderKind::RustLib => RustLibConfigProvider.name(),
        ProviderKind::RustTest => RustTestConfigProvider.name(),
        ProviderKind::RustAll => RustAllConfigProvider.name(),
        ProviderKind::CppGdb => CppGdbConfigProvider.name(),
        ProviderKind::CppLldb => CppLldbConfigProvider.name(),
    }
}

/// Whether a file is evidence for the given provider.
pub fn file_evidence_for(k: ProviderKind, name: &str, content: Option<&str>) -> (r: bool)
    ensures
        r == file_evidence(k, name@, opt_view(content)),
{
    match k {
        ProviderKind::Python => PythonConfigProvider.can_detect_from_file(name),
        ProviderKind::PythonModule => PythonModuleConfigProvider.can_detect_from_file(name),
        ProviderKind::Flask => FlaskConfigProvider.can_detect_from_file(name),
        ProviderKind::FastApi => FastApiConfigProvider.can_detect_from_file(name),
        ProviderKind::JavaScript => JavaScriptConfigProvider.can_detect_from_file(name),
        ProviderKind::Node => NodeConfigProvider.can_detect_from_file(name),
        ProviderKind::TypeScript => TypeScriptConfigProvider.can_detect_from_file(name),
        ProviderKind::Rust => RustConfigProvider.can_detect_from_file(name),
        ProviderKind::RustLib => RustLibConfigProvider.can_detect_from_file(name, content),
        ProviderKind::RustTest => RustTestConfigProvider.can_detect_from_file(name, content),
        ProviderKind::RustAll => RustAllConfigProvider.can_detect_from_file(name),
        ProviderKind::CppGdb => CppGdbConfigProvider.can_detect_from_file(name),
        ProviderKind::CppLldb => CppLldbConfigProvider.can_detect_from_file(name),
    }
}

/// Whether a remembered manifest's text is evidence for the given provider.
pub fn content_evidence_for(k: ProviderKind, filename: &str, content: &str) -> (r: bool)
    ensures
        r == content_evidence(k, filename@, content@),
{
    match k {
        ProviderKind::Python => PythonConfigProvider.can_detect_from_content(filename, content),
        ProviderKind::PythonModule => PythonModuleConfigProvider.can_detect_from_content(
            filename,
            content,
        ),
        ProviderKind::Flask => FlaskConfigProvider.can_detect_from_content(filename, content),
        ProviderKind::FastApi => FastApiConfigProvider.can_detect_from_content(filename, content),
        ProviderKind::JavaScript => JavaScriptConfigProvider.can_detect_from_content(
            filename,
            content,
        ),
        ProviderKind::Node => NodeConfigProvider.can_detect_from_content(filename, content),
        ProviderKind::TypeScript => TypeScriptConfigProvider.can_detect_from_content(
            filename,
            content,
        ),
        ProviderKind::Rust => RustConfigProvider.can_detect_from_content(filename, content),
        ProviderKind::RustLib => RustLibConfigProvider.can_detect_from_content(filename, content),
        ProviderKind::RustTest => RustTestConfigProvider.can_detect_from_content(filename, content),
        ProviderKind::RustAll => RustAllConfigProvider.can_detect_from_content(filename, content),
        ProviderKind::CppGdb => CppGdbConfigProvider.can_detect_from_content(filename, content),
        ProviderKind::CppLldb => CppLldbConfigProvider.can_detect_from_content(filename, content),
    }
}

/// The names of all providers, in registry order.
pub fn provider_names() -> (r: Vec<String>)
    ensures
        r@.len() == kind_list().len(),
        forall|i: int| 0 <= i < r@.len() ==> r@[i]@ == provider_name_spec(kind_list()[i]),
{
    let kinds = all_kinds();
    let mut names: Vec<String> = Vec::new();
    let mut i: usize = 0;
    while i < kinds.len()
        invariant
            kinds@ =~= kind_list(),
            i <= kinds@.len(),
            names@.len() == i,
            forall|j: int| 0 <= j < i ==> names@[j]@ == provider_name_spec(kind_list()[j]),
        decreases kinds@.len() - i,
    {
        names.push(String::from_str(provider_name(kinds[i])));
        i += 1;
    }
    names
}

}

