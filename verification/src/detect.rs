//! The detector: infers which ecosystems are present from the files met
//! during a bounded walk of the project tree. The walk itself is I/O and
//! stays outside the library; the detector is a pure function of what the
//! walk found, and its contract pins the returned tag set exactly.

use vstd::prelude::*;

use crate::providers::{
    content_evidence, file_evidence, lib_manifest_marker, provider_name_spec, test_marker,
    ProviderKind,
};
use crate::providers::{content_evidence_for, file_evidence_for, provider_name};
use crate::strutil::{contains_seq, contains_str, ext_is, has_ext, lemma_tag_in_push, sort_dedup,
    sorted_strict, str_eq, tag_in};

verus! {

/// One regular file met during the walk: its final name component, and its
/// text where it could be read. An unreadable file carries no text and is
/// never evidence of anything that needs the text.
pub struct FileEntry {
    pub name: String,
    pub content: Option<String>,
}

/// The mathematical shape of a `FileEntry`.
pub ghost struct FileEntryV {
    pub name: Seq<char>,
    pub content: Option<Seq<char>>,
}

impl View for FileEntry {
    type V = FileEntryV;

    open spec fn view(&self) -> FileEntryV {
        FileEntryV {
            name: self.name@,
            content: match self.content {
                Some(c) => Some(c@),
                None => None,
            },
        }
    }
}

pub open spec fn entries_view(s: Seq<FileEntry>) -> Seq<FileEntryV> {
    s.map_values(|f: FileEntry| f@)
}

/// Some file in the walk is evidence for provider `k`.
pub open spec fn any_file_evidence(k: ProviderKind, files: Seq<FileEntryV>) -> bool {
    exists|i: int|
        0 <= i < files.len() && #[trigger] file_evidence(k, files[i].name, files[i].content)
}

/// Some file in the walk has extension `e`.
pub open spec fn any_ext(files: Seq<FileEntryV>, e: Seq<char>) -> bool {
    exists|i: int| 0 <= i < files.len() && #[trigger] has_ext(files[i].name, e)
}

/// Some file in the walk has one of the C/C++ source or header extensions.
pub open spec fn any_cpp_ext(files: Seq<FileEntryV>) -> bool {
    ||| any_ext(files, "cpp"@)
    ||| any_ext(files, "cc"@)
    ||| any_ext(files, "cxx"@)
    ||| any_ext(files, "h"@)
    ||| any_ext(files, "hpp"@)
}

/// The manifest remembered for `name`: the last file of that name met during
/// the walk, if any.
pub open spec fn remembered(files: Seq<FileEntryV>, name: Seq<char>) -> Option<FileEntryV>
    decreases files.len(),
{
    if files.len() == 0 {
        None
    } else if files.last().name == name {
        Some(files.last())
    } else {
        remembered(files.drop_last(), name)
    }
}

/// The readable text of the remembered manifest named `name`, if any.
pub open spec fn manifest_content(files: Seq<FileEntryV>, name: Seq<char>) -> Option<Seq<char>> {
    match remembered(files, name) {
        Some(f) => f.content,
        None => None,
    }
}

/// Whether `text` parses as JSON whose top-level `section` member is itself
/// an object with a member named `key`.
pub uninterp spec fn json_member(text: Seq<char>, section: Seq<char>, key: Seq<char>) -> bool;

/// Relies on serde_json::from_str and serde_json::Value::get: parses `text`
/// and looks `key` up under the top-level `section` member. Text that does
/// not parse, or has no such members, gives false.
#[verifier::external_body]
fn json_has_member(text: &str, section: &str, key: &str) -> (r: bool)
    ensures
        r == json_member(text@, section@, key@),
{
    match serde_json::from_str::<serde_json::Value>(text) {
        Ok(v) => match v.get(section) {
            Some(s) => s.get(key).is_some(),
            None => false,
        },
        Err(_) => false,
    }
}

/// The remembered package manifest declares a dependency named `key`.
pub open spec fn package_dep(files: Seq<FileEntryV>, key: Seq<char>) -> bool {
    manifest_content(files, "package.json"@) matches Some(c) && json_member(
        c,
        "dependencies"@,
        key,
    )
}

/// The remembered dependency-list file contains `needle`.
pub open spec fn requirements_has(files: Seq<FileEntryV>, needle: Seq<char>) -> bool {
    manifest_content(files, "requirements.txt"@) matches Some(c) && contains_seq(c, needle)
}

/// The remembered Rust manifest declares a library (or no binary).
pub open spec fn cargo_lib(files: Seq<FileEntryV>) -> bool {
    manifest_content(files, "Cargo.toml"@) matches Some(c) && lib_manifest_marker(c)
}

/// Some Rust source in the deeper walk carries a test marker.
pub open spec fn deep_test_hit(deep: Seq<FileEntryV>) -> bool {
    exists|i: int|
        0 <= i < deep.len() && #[trigger] has_ext(deep[i].name, "rs"@) && (deep[i].content matches Some(
            c,
        ) && test_marker(c))
}

/// The walk shows a library project: by file evidence or by manifest text.
pub open spec fn rust_lib_detected(files: Seq<FileEntryV>) -> bool {
    any_file_evidence(ProviderKind::RustLib, files) || cargo_lib(files)
}

/// The walk shows tests: by file evidence or by the deeper source scan.
pub open spec fn rust_test_detected(files: Seq<FileEntryV>, deep: Seq<FileEntryV>) -> bool {
    any_file_evidence(ProviderKind::RustTest, files) || deep_test_hit(deep)
}

/// A remembered manifest's text is evidence for provider `k`.
pub open spec fn content_pass_evidence(k: ProviderKind, files: Seq<FileEntryV>) -> bool {
    ||| (manifest_content(files, "requirements.txt"@) matches Some(c) && content_evidence(
        k,
        "requirements.txt"@,
        c,
    ))
    ||| (manifest_content(files, "package.json"@) matches Some(c) && content_evidence(
        k,
        "package.json"@,
        c,
    ))
    ||| (manifest_content(files, "Cargo.toml"@) matches Some(c) && content_evidence(
        k,
        "Cargo.toml"@,
        c,
    ))
    ||| (manifest_content(files, "CMakeLists.txt"@) matches Some(c) && content_evidence(
        k,
        "CMakeLists.txt"@,
        c,
    ))
    ||| (manifest_content(files, "Makefile"@) matches Some(c) && content_evidence(
        k,
        "Makefile"@,
        c,
    ))
}

/// The whole detection rule: every way the walk can put `tag` into the
/// detected set.
pub open spec fn detected(files: Seq<FileEntryV>, deep: Seq<FileEntryV>, tag: Seq<char>) -> bool {
    ||| (exists|k: ProviderKind|
        any_file_evidence(k, files) && #[trigger] provider_name_spec(k) == tag)
    ||| (tag == "python"@ && any_ext(files, "py"@))
    ||| (tag == "javascript"@ && any_ext(files, "js"@))
    ||| (tag == "typescript"@ && any_ext(files, "ts"@))
    ||| (tag == "cpp-gdb"@ && any_cpp_ext(files))
    ||| (tag == "node"@ && remembered(files, "package.json"@) is Some)
    ||| (tag == "react"@ && package_dep(files, "react"@))
    ||| (tag == "vue"@ && package_dep(files, "vue"@))
    ||| (tag == "express"@ && package_dep(files, "express"@))
    ||| (tag == "flask"@ && requirements_has(files, "flask"@))
    ||| (tag == "fastapi"@ && requirements_has(files, "fastapi"@))
    ||| (tag == "python-module:django"@ && requirements_has(files, "django"@))
    ||| (tag == "python-module:pytest"@ && requirements_has(files, "pytest"@))
    ||| (tag == "rust"@ && any_ext(files, "rs"@))
    ||| (tag == "rust-lib"@ && any_ext(files, "rs"@) && cargo_lib(files))
    ||| (tag == "rust-test"@ && any_ext(files, "rs"@) && deep_test_hit(deep))
    ||| (tag == "rust-all"@ && any_ext(files, "rs"@) && (rust_lib_detected(files)
        || rust_test_detected(files, deep)))
    ||| (exists|k: ProviderKind|
        content_pass_evidence(k, files) && #[trigger] provider_name_spec(k) == tag)
}

/// Pushes `tag` when `cond` holds; the tag set grows by exactly that.
fn push_if(tags: &mut Vec<String>, cond: bool, tag: &str)
    ensures
        forall|t: Seq<char>|
            tag_in(final(tags)@, t) == (tag_in(old(tags)@, t) || (cond && tag@ == t)),
{
    let ghost before = tags@;
    if cond {
        let s = String::from_str(tag);
        let ghost sv = s;
        tags.push(s);
        proof {
            lemma_tag_in_push(before, sv);
        }
    }
}

/// The borrowed text of an entry, where it could be read.
fn entry_content(f: &FileEntry) -> (r: Option<&str>)
    ensures
        crate::providers::opt_view(r) == f@.content,
{
    match &f.content {
        Some(c) => Some(c.as_str()),
        None => None,
    }
}

/// Whether any file of the walk is evidence for provider `k`.
fn any_file_evidence_exec(k: ProviderKind, files: &Vec<FileEntry>) -> (r: bool)
    ensures
        r == any_file_evidence(k, entries_view(files@)),
{
    let ghost fv = entries_view(files@);
    let mut i: usize = 0;
    while i < files.len()
        invariant
            fv == entries_view(files@),
            i <= files@.len(),
            forall|j: int| 0 <= j < i ==> !#[trigger] file_evidence(k, fv[j].name, fv[j].content),
        decreases files@.len() - i,
    {
        let f = &files[i];
        if file_evidence_for(k, f.name.as_str(), entry_content(f)) {
            proof {
                assert(fv[i as int] == files@[i as int]@);
                assert(file_evidence(k, fv[i as int].name, fv[i as int].content));
            }
            return true;
        }
        i += 1;
    }
    false
}

/// Whether any file of the walk has extension `e`.
fn any_ext_exec(files: &Vec<FileEntry>, e: &str) -> (r: bool)
    ensures
        r == any_ext(entries_view(files@), e@),
{
    let ghost fv = entries_view(files@);
    let mut i: usize = 0;
    while i < files.len()
        invariant
            fv == entries_view(files@),
            i <= files@.len(),
            forall|j: int| 0 <= j < i ==> !#[trigger] has_ext(fv[j].name, e@),
        decreases files@.len() - i,
    {
        if ext_is(files[i].name.as_str(), e) {
            proof {
                assert(fv[i as int] == files@[i as int]@);
                assert(has_ext(fv[i as int].name, e@));
            }
            return true;
        }
        i += 1;
    }
    false
}

proof fn lemma_remembered_none_after(s: Seq<FileEntryV>, name: Seq<char>, i: int)
    requires
        0 <= i <= s.len(),
        forall|j: int| i <= j < s.len() ==> s[j].name != name,
    ensures
        remembered(s, name) == remembered(s.take(i), name),
    decreases s.len() - i,
{
    if i == s.len() {
        assert(s.take(i) =~= s);
    } else {
        lemma_remembered_none_after(s, name, i + 1);
        assert(s.take(i + 1).last() == s[i]);
        assert(s.take(i + 1).drop_last() =~= s.take(i));
    }
}

/// The index of the remembered manifest named `name`, if any: the last
/// entry of that name.
fn remembered_index(files: &Vec<FileEntry>, name: &str) -> (r: Option<usize>)
    ensures
        match r {
            Some(i) => i < files@.len() && remembered(entries_view(files@), name@) == Some(
                entries_view(files@)[i as int],
            ),
            None => remembered(entries_view(files@), name@) is None,
        },
{
    let ghost fv = entries_view(files@);
    let mut i: usize = files.len();
    while i > 0
        invariant
            fv == entries_view(files@),
            i <= files@.len(),
            forall|j: int| i <= j < fv.len() ==> fv[j].name != name@,
        decreases i,
    {
        i = i - 1;
        if str_eq(files[i].name.as_str(), name) {
            proof {
                lemma_remembered_none_after(fv, name@, i + 1);
                assert(fv.take(i + 1).last() == fv[i as int]);
            }
            return Some(i);
        }
    }
    proof {
        lemma_remembered_none_after(fv, name@, 0);
        assert(fv.take(0) =~= Seq::<FileEntryV>::empty());
    }
    None
}

/// Whether the deeper walk holds a Rust source with a test marker.
fn deep_test_hit_exec(deep: &Vec<FileEntry>) -> (r: bool)
    ensures
        r == deep_test_hit(entries_view(deep@)),
{
    let ghost dv = entries_view(deep@);
    let mut i: usize = 0;
    while i < deep.len()
        invariant
            dv == entries_view(deep@),
            i <= deep@.len(),
            forall|j: int|
                0 <= j < i ==> !(#[trigger] has_ext(dv[j].name, "rs"@) && (dv[j].content matches Some(
                    c,
                ) && test_marker(c))),
        decreases deep@.len() - i,
    {
        let f = &deep[i];
        if ext_is(f.name.as_str(), "rs") {
            match &f.content {
                Some(c) => {
                    if contains_str(c.as_str(), "#[test]") || contains_str(c.as_str(), "mod test") {
                        proof {
                            assert(dv[i as int] == deep@[i as int]@);
                            assert(has_ext(dv[i as int].name, "rs"@) && (dv[i as int].content
                                matches Some(cc) && test_marker(cc)));
                        }
                        return true;
                    }
                },
                None => {},
            }
        }
        i += 1;
    }
    false
}

/// Pushes the tag of every provider for which some file of the walk is
/// evidence, as the per-file registry query does.
fn push_file_tags(tags: &mut Vec<String>, files: &Vec<FileEntry>)
    ensures
        forall|t: Seq<char>|
            tag_in(final(tags)@, t) == (tag_in(old(tags)@, t) || exists|k: ProviderKind|
                any_file_evidence(k, entries_view(files@)) && #[trigger] provider_name_spec(k)
                    == t),
{
    let ghost fv = entries_view(files@);
    let e0 = any_file_evidence_exec(ProviderKind::Python, files);
    let e1 = any_file_evidence_exec(ProviderKind::PythonModule, files);
    let e2 = any_file_evidence_exec(ProviderKind::Flask, files);
    let e3 = any_file_evidence_exec(ProviderKind::FastApi, files);
    let e4 = any_file_evidence_exec(ProviderKind::JavaScript, files);
    let e5 = any_file_evidence_exec(ProviderKind::Node, files);
    let e6 = any_file_evidence_exec(ProviderKind::TypeScript, files);
    let e7 = any_file_evidence_exec(ProviderKind::Rust, files);
    let e8 = any_file_evidence_exec(ProviderKind::RustLib, files);
    let e9 = any_file_evidence_exec(ProviderKind::RustTest, files);
    let e10 = any_file_evidence_exec(ProviderKind::RustAll, files);
    let e11 = any_file_evidence_exec(ProviderKind::CppGdb, files);
    let e12 = any_file_evidence_exec(ProviderKind::CppLldb, files);
    push_if(tags, e0, "python");
    push_if(tags, e1, "python-module");
    push_if(tags, e2, "flask");
    push_if(tags, e3, "fastapi");
    push_if(tags, e4, "javascript");
    push_if(tags, e5, "node");
    push_if(tags, e6, "typescript");
    push_if(tags, e7, "rust");
    push_if(tags, e8, "rust-lib");
    push_if(tags, e9, "rust-test");
    push_if(tags, e10, "rust-all");
    push_if(tags, e11, "cpp-gdb");
    push_if(tags, e12, "cpp-lldb");
    proof {
        assert forall|t: Seq<char>|
            tag_in(tags@, t) == (tag_in(old(tags)@, t) || exists|k: ProviderKind|
                any_file_evidence(k, fv) && #[trigger] provider_name_spec(k) == t) by {
            if tag_in(tags@, t) && !tag_in(old(tags)@, t) {
                if e0 && "python"@ == t {
                    assert(any_file_evidence(ProviderKind::Python, fv) && provider_name_spec(
                        ProviderKind::Python,
                    ) == t);
                } else if e1 && "python-module"@ == t {
                    assert(any_file_evidence(ProviderKind::PythonModule, fv) && provider_name_spec(
                        ProviderKind::PythonModule,
                    ) == t);
                } else if e2 && "flask"@ == t {
                    assert(any_file_evidence(ProviderKind::Flask, fv) && provider_name_spec(
                        ProviderKind::Flask,
                    ) == t);
                } else if e3 && "fastapi"@ == t {
                    assert(any_file_evidence(ProviderKind::FastApi, fv) && provider_name_spec(
                        ProviderKind::FastApi,
                    ) == t);
                } else if e4 && "javascript"@ == t {
                    assert(any_file_evidence(ProviderKind::JavaScript, fv) && provider_name_spec(
                        ProviderKind::JavaScript,
                    ) == t);
                } else if e5 && "node"@ == t {
                    assert(any_file_evidence(ProviderKind::Node, fv) && provider_name_spec(
                        ProviderKind::Node,
                    ) == t);
                } else if e6 && "typescript"@ == t {
                    assert(any_file_evidence(ProviderKind::TypeScript, fv) && provider_name_spec(
                        ProviderKind::TypeScript,
                    ) == t);
                } else if e7 && "rust"@ == t {
                    assert(any_file_evidence(ProviderKind::Rust, fv) && provider_name_spec(
                        ProviderKind::Rust,
                    ) == t);
                } else if e8 && "rust-lib"@ == t {
                    assert(any_file_evidence(ProviderKind::RustLib, fv) && provider_name_spec(
                        ProviderKind::RustLib,
                    ) == t);
                } else if e9 && "rust-test"@ == t {
                    assert(any_file_evidence(ProviderKind::RustTest, fv) && provider_name_spec(
                        ProviderKind::RustTest,
                    ) == t);
                } else if e10 && "rust-all"@ == t {
                    assert(any_file_evidence(ProviderKind::RustAll, fv) && provider_name_spec(
                        ProviderKind::RustAll,
                    ) == t);
                } else if e11 && "cpp-gdb"@ == t {
                    assert(any_file_evidence(ProviderKind::CppGdb, fv) && provider_name_spec(
                        ProviderKind::CppGdb,
                    ) == t);
                } else if e12 && "cpp-lldb"@ == t {
                    assert(any_file_evidence(ProviderKind::CppLldb, fv) && provider_name_spec(
                        ProviderKind::CppLldb,
                    ) == t);
                }
            }
            if exists|k: ProviderKind|
                any_file_evidence(k, fv) && #[trigger] provider_name_spec(k) == t {
                let k0 = choose|k: ProviderKind|
                    any_file_evidence(k, fv) && #[trigger] provider_name_spec(k) == t;
                match k0 {
                    ProviderKind::Python => assert(e0 && "python"@ == t),
                    ProviderKind::PythonModule => assert(e1 && "python-module"@ == t),
                    ProviderKind::Flask => assert(e2 && "flask"@ == t),
                    ProviderKind::FastApi => assert(e3 && "fastapi"@ == t),
                    ProviderKind::JavaScript => assert(e4 && "javascript"@ == t),
                    ProviderKind::Node => assert(e5 && "node"@ == t),
                    ProviderKind::TypeScript => assert(e6 && "typescript"@ == t),
                    ProviderKind::Rust => assert(e7 && "rust"@ == t),
                    ProviderKind::RustLib => assert(e8 && "rust-lib"@ == t),
                    ProviderKind::RustTest => assert(e9 && "rust-test"@ == t),
                    ProviderKind::RustAll => assert(e10 && "rust-all"@ == t),
                    ProviderKind::CppGdb => assert(e11 && "cpp-gdb"@ == t),
                    ProviderKind::CppLldb => assert(e12 && "cpp-lldb"@ == t),
                }
                assert(tag_in(tags@, t));
            }
        }
    }
}

/// Pushes the tag of every provider whose content predicate accepts this
/// manifest's text.
fn push_content_tags(tags: &mut Vec<String>, filename: &str, content: &str)
    ensures
        forall|t: Seq<char>|
            tag_in(final(tags)@, t) == (tag_in(old(tags)@, t) || exists|k: ProviderKind|
                content_evidence(k, filename@, content@) && #[trigger] provider_name_spec(k) == t),
{
    let b0 = content_evidence_for(ProviderKind::Python, filename, content);
    let b1 = content_evidence_for(ProviderKind::PythonModule, filename, content);
    let b2 = content_evidence_for(ProviderKind::Flask, filename, content);
    let b3 = content_evidence_for(ProviderKind::FastApi, filename, content);
    let b4 = content_evidence_for(ProviderKind::JavaScript, filename, content);
    let b5 = content_evidence_for(ProviderKind::Node, filename, content);
    let b6 = content_evidence_for(ProviderKind::TypeScript, filename, content);
    let b7 = content_evidence_for(ProviderKind::Rust, filename, content);
    let b8 = content_evidence_for(ProviderKind::RustLib, filename, content);
    let b9 = content_evidence_for(ProviderKind::RustTest, filename, content);
    let b10 = content_evidence_for(ProviderKind::RustAll, filename, content);
    let b11 = content_evidence_for(ProviderKind::CppGdb, filename, content);
    let b12 = content_evidence_for(ProviderKind::CppLldb, filename, content);
    push_if(tags, b0, "python");
    push_if(tags, b1, "python-module");
    push_if(tags, b2, "flask");
    push_if(tags, b3, "fastapi");
    push_if(tags, b4, "javascript");
    push_if(tags, b5, "node");
    push_if(tags, b6, "typescript");
    push_if(tags, b7, "rust");
    push_if(tags, b8, "rust-lib");
    push_if(tags, b9, "rust-test");
    push_if(tags, b10, "rust-all");
    push_if(tags, b11, "cpp-gdb");
    push_if(tags, b12, "cpp-lldb");
    proof {
        assert forall|t: Seq<char>|
            tag_in(tags@, t) == (tag_in(old(tags)@, t) || exists|k: ProviderKind|
                content_evidence(k, filename@, content@) && #[trigger] provider_name_spec(k)
                    == t) by {
            if tag_in(tags@, t) && !tag_in(old(tags)@, t) {
                if b1 && "python-module"@ == t {
                    assert(provider_name_spec(ProviderKind::PythonModule) == t);
                } else if b2 && "flask"@ == t {
                    assert(provider_name_spec(ProviderKind::Flask) == t);
                } else if b3 && "fastapi"@ == t {
                    assert(provider_name_spec(ProviderKind::FastApi) == t);
                } else if b8 && "rust-lib"@ == t {
                    assert(provider_name_spec(ProviderKind::RustLib) == t);
                } else if b9 && "rust-test"@ == t {
                    assert(provider_name_spec(ProviderKind::RustTest) == t);
                }
            }
        }
    }
}

/// Runs the content pass for one remembered manifest name.
fn content_pass_for(tags: &mut Vec<String>, files: &Vec<FileEntry>, name: &str)
    ensures
        forall|t: Seq<char>|
            tag_in(final(tags)@, t) == (tag_in(old(tags)@, t) || exists|k: ProviderKind|
                (manifest_content(entries_view(files@), name@) matches Some(c) && content_evidence(
                    k,
                    name@,
                    c,
                )) && #[trigger] provider_name_spec(k) == t),
{
    let ghost fv = entries_view(files@);
    match remembered_index(files, name) {
        Some(i) => {
            proof {
                assert(fv[i as int] == files@[i as int]@);
            }
            match entry_content(&files[i]) {
                Some(c) => {
                    proof {
                        assert(manifest_content(fv, name@) == Some(c@));
                    }
                    push_content_tags(tags, name, c);
                },
                None => {
                    proof {
                        assert(manifest_content(fv, name@) is None);
                    }
                },
            }
        },
        None => {
            proof {
                assert(manifest_content(fv, name@) is None);
            }
        },
    }
}

/// Runs the content pass over every remembered manifest.
fn content_pass_all(tags: &mut Vec<String>, files: &Vec<FileEntry>)
    ensures
        forall|t: Seq<char>|
            tag_in(final(tags)@, t) == (tag_in(old(tags)@, t) || exists|k: ProviderKind|
                content_pass_evidence(k, entries_view(files@)) && #[trigger] provider_name_spec(k)
                    == t),
{
    let ghost fv = entries_view(files@);
    content_pass_for(tags, files, "requirements.txt");
    content_pass_for(tags, files, "package.json");
    content_pass_for(tags, files, "Cargo.toml");
    content_pass_for(tags, files, "CMakeLists.txt");
    content_pass_for(tags, files, "Makefile");
    proof {
        assert forall|t: Seq<char>|
            tag_in(tags@, t) == (tag_in(old(tags)@, t) || exists|k: ProviderKind|
                content_pass_evidence(k, fv) && #[trigger] provider_name_spec(k) == t) by {
            if tag_in(tags@, t) && !tag_in(old(tags)@, t) {
                if exists|k: ProviderKind|
                    (manifest_content(fv, "requirements.txt"@) matches Some(c) && content_evidence(
                        k,
                        "requirements.txt"@,
                        c,
                    )) && #[trigger] provider_name_spec(k) == t {
                    let k0 = choose|k: ProviderKind|
                        (manifest_content(fv, "requirements.txt"@) matches Some(c)
                            && content_evidence(k, "requirements.txt"@, c))
                            && #[trigger] provider_name_spec(k) == t;
                    assert(content_pass_evidence(k0, fv) && provider_name_spec(k0) == t);
                } else if exists|k: ProviderKind|
                    (manifest_content(fv, "package.json"@) matches Some(c) && content_evidence(
                        k,
                        "package.json"@,
                        c,
                    )) && #[trigger] provider_name_spec(k) == t {
                    let k0 = choose|k: ProviderKind|
                        (manifest_content(fv, "package.json"@) matches Some(c) && content_evidence(
                            k,
                            "package.json"@,
                            c,
                        )) && #[trigger] provider_name_spec(k) == t;
                    assert(content_pass_evidence(k0, fv) && provider_name_spec(k0) == t);
                } else if exists|k: ProviderKind|
                    (manifest_content(fv, "Cargo.toml"@) matches Some(c) && content_evidence(
                        k,
                        "Cargo.toml"@,
                        c,
                    )) && #[trigger] provider_name_spec(k) == t {
                    let k0 = choose|k: ProviderKind|
                        (manifest_content(fv, "Cargo.toml"@) matches Some(c) && content_evidence(
                            k,
                            "Cargo.toml"@,
                            c,
                        )) && #[trigger] provider_name_spec(k) == t;
                    assert(content_pass_evidence(k0, fv) && provider_name_spec(k0) == t);
                } else if exists|k: ProviderKind|
                    (manifest_content(fv, "CMakeLists.txt"@) matches Some(c) && content_evidence(
                        k,
                        "CMakeLists.txt"@,
                        c,
                    )) && #[trigger] provider_name_spec(k) == t {
                    let k0 = choose|k: ProviderKind|
                        (manifest_content(fv, "CMakeLists.txt"@) matches Some(c)
                            && content_evidence(k, "CMakeLists.txt"@, c))
                            && #[trigger] provider_name_spec(k) == t;
                    assert(content_pass_evidence(k0, fv) && provider_name_spec(k0) == t);
                } else {
                    let k0 = choose|k: ProviderKind|
                        (manifest_content(fv, "Makefile"@) matches Some(c) && content_evidence(
                            k,
                            "Makefile"@,
                            c,
                        )) && #[trigger] provider_name_spec(k) == t;
                    assert(content_pass_evidence(k0, fv) && provider_name_spec(k0) == t);
                }
            }
            if exists|k: ProviderKind|
                content_pass_evidence(k, fv) && #[trigger] provider_name_spec(k) == t {
                let k0 = choose|k: ProviderKind|
                    content_pass_evidence(k, fv) && #[trigger] provider_name_spec(k) == t;
                if manifest_content(fv, "requirements.txt"@) matches Some(c) && content_evidence(
                    k0,
                    "requirements.txt"@,
                    c,
                ) {
                    assert((manifest_content(fv, "requirements.txt"@) matches Some(c)
                        && content_evidence(k0, "requirements.txt"@, c)) && provider_name_spec(k0)
                        == t);
                } else if manifest_content(fv, "package.json"@) matches Some(c) && content_evidence(
                    k0,
                    "package.json"@,
                    c,
                ) {
                    assert((manifest_content(fv, "package.json"@) matches Some(c)
                        && content_evidence(k0, "package.json"@, c)) && provider_name_spec(k0)
                        == t);
                } else if manifest_content(fv, "Cargo.toml"@) matches Some(c) && content_evidence(
                    k0,
                    "Cargo.toml"@,
                    c,
                ) {
                    assert((manifest_content(fv, "Cargo.toml"@) matches Some(c) && content_evidence(
                        k0,
                        "Cargo.toml"@,
                        c,
                    )) && provider_name_spec(k0) == t);
                } else if manifest_content(fv, "CMakeLists.txt"@) matches Some(c)
                    && content_evidence(k0, "CMakeLists.txt"@, c) {
                    assert((manifest_content(fv, "CMakeLists.txt"@) matches Some(c)
                        && content_evidence(k0, "CMakeLists.txt"@, c)) && provider_name_spec(k0)
                        == t);
                } else {
                    assert((manifest_content(fv, "Makefile"@) matches Some(c) && content_evidence(
                        k0,
                        "Makefile"@,
                        c,
                    )) && provider_name_spec(k0) == t);
                }
                assert(tag_in(tags@, t));
            }
        }
    }
}

/// Runs detection over the files of the bounded walk (`files`) and the
/// deeper source scan (`deep`). Returns the detected tags, sorted ascending
/// and free of duplicates; a tag is returned exactly when `detected` holds
/// of it.
pub fn detect_project_types(files: &Vec<FileEntry>, deep: &Vec<FileEntry>) -> (tags: Vec<String>)
    ensures
        sorted_strict(tags@),
        forall|t: Seq<char>|
            tag_in(tags@, t) == detected(entries_view(files@), entries_view(deep@), t),
{
    let ghost fv = entries_view(files@);
    let ghost dv = entries_view(deep@);
    let mut tags: Vec<String> = Vec::new();

    // file-based provider evidence, as the per-file registry query finds it
    push_file_tags(&mut tags, files);

    // language tags from the extension scan
    let has_py = any_ext_exec(files, "py");
    let has_js = any_ext_exec(files, "js");
    let has_ts = any_ext_exec(files, "ts");
    let has_rs = any_ext_exec(files, "rs");
    let has_cpp = any_ext_exec(files, "cpp") || any_ext_exec(files, "cc") || any_ext_exec(
        files,
        "cxx",
    ) || any_ext_exec(files, "h") || any_ext_exec(files, "hpp");
    push_if(&mut tags, has_py, "python");
    push_if(&mut tags, has_js, "javascript");
    push_if(&mut tags, has_ts, "typescript");
    push_if(&mut tags, has_cpp, "cpp-gdb");

    // the package manifest: node, and the frameworks its dependencies name
    let pkg = remembered_index(files, "package.json");
    push_if(&mut tags, pkg.is_some(), "node");
    let mut react = false;
    let mut vue = false;
    let mut express = false;
    if let Some(pi) = pkg {
        proof {
            assert(fv[pi as int] == files@[pi as int]@);
        }
        if let Some(c) = entry_content(&files[pi]) {
            proof {
                assert(manifest_content(fv, "package.json"@) == Some(c@));
            }
            react = json_has_member(c, "dependencies", "react");
            vue = json_has_member(c, "dependencies", "vue");
            express = json_has_member(c, "dependencies", "express");
        }
    }
    proof {
        assert(react == package_dep(fv, "react"@));
        assert(vue == package_dep(fv, "vue"@));
        assert(express == package_dep(fv, "express"@));
    }
    push_if(&mut tags, react, "react");
    push_if(&mut tags, vue, "vue");
    push_if(&mut tags, express, "express");

    // the dependency-list file: Python frameworks
    let req = remembered_index(files, "requirements.txt");
    let mut flask = false;
    let mut fastapi = false;
    let mut django = false;
    let mut pytest = false;
    if let Some(ri) = req {
        proof {
            assert(fv[ri as int] == files@[ri as int]@);
        }
        if let Some(c) = entry_content(&files[ri]) {
            proof {
                assert(manifest_content(fv, "requirements.txt"@) == Some(c@));
            }
            flask = contains_str(c, "flask");
            fastapi = contains_str(c, "fastapi");
            django = contains_str(c, "django");
            pytest = contains_str(c, "pytest");
        }
    }
    proof {
        assert(flask == requirements_has(fv, "flask"@));
        assert(fastapi == requirements_has(fv, "fastapi"@));
        assert(django == requirements_has(fv, "django"@));
        assert(pytest == requirements_has(fv, "pytest"@));
    }
    push_if(&mut tags, flask, "flask");
    push_if(&mut tags, fastapi, "fastapi");
    push_if(&mut tags, django, "python-module:django");
    push_if(&mut tags, pytest, "python-module:pytest");

    // Rust: the base tag, the library manifest check, the deeper test scan,
    // and the all-in-one suggestion when at least two of the three are there
    let cargo = remembered_index(files, "Cargo.toml");
    let mut cargo_is_lib = false;
    if let Some(ci) = cargo {
        proof {
            assert(fv[ci as int] == files@[ci as int]@);
        }
        if let Some(c) = entry_content(&files[ci]) {
            proof {
                assert(manifest_content(fv, "Cargo.toml"@) == Some(c@));
            }
            cargo_is_lib = contains_str(c, "[lib]") || !contains_str(c, "[[bin]]");
        }
    }
    proof {
        assert(cargo_is_lib == cargo_lib(fv));
    }
    let deep_hit = deep_test_hit_exec(deep);
    let lib_evidence = any_file_evidence_exec(ProviderKind::RustLib, files);
    let test_evidence = any_file_evidence_exec(ProviderKind::RustTest, files);
    push_if(&mut tags, has_rs, "rust");
    push_if(&mut tags, has_rs && cargo_is_lib, "rust-lib");
    push_if(&mut tags, has_rs && deep_hit, "rust-test");
    let lib_now = lib_evidence || cargo_is_lib;
    let test_now = test_evidence || deep_hit;
    push_if(&mut tags, has_rs && (lib_now || test_now), "rust-all");

    // content-based evidence over every remembered manifest
    content_pass_all(&mut tags, files);

    proof {
        assert forall|t: Seq<char>| tag_in(tags@, t) == detected(fv, dv, t) by {
            if tag_in(tags@, t) {
                assert(detected(fv, dv, t));
            }
            if detected(fv, dv, t) {
                assert(tag_in(tags@, t));
            }
        }
    }
    sort_dedup(tags)
}

}
