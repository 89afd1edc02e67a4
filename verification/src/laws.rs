//! Laws of the library, stated and proved over the same spec functions the
//! public contracts use.

use vstd::prelude::*;

use crate::detect::{
    any_cpp_ext, any_ext, deep_test_hit, detected, json_member, manifest_content, FileEntryV,
};
use crate::doc::{obj_fields, obj_has_field, JsonV};
use crate::providers::{
    lookup_spec, provider_name_spec, python_module_template, template_of, ProviderKind,
};
use crate::assemble::{request_configs, split_kind, split_param, unknown_kinds};
use crate::strutil::{contains_seq, lex_lt, sorted_strict};

verus! {

/// A tree holding a file of a language's extension always yields at least
/// that language's base tag.
pub proof fn lemma_extension_tags(files: Seq<FileEntryV>, deep: Seq<FileEntryV>)
    ensures
        any_ext(files, "py"@) ==> detected(files, deep, "python"@),
        any_ext(files, "js"@) ==> detected(files, deep, "javascript"@),
        any_ext(files, "ts"@) ==> detected(files, deep, "typescript"@),
        any_ext(files, "rs"@) ==> detected(files, deep, "rust"@),
        any_cpp_ext(files) ==> detected(files, deep, "cpp-gdb"@),
{
}

/// A strictly sorted tag list carries no duplicate entries.
pub proof fn lemma_sorted_strict_distinct(s: Seq<String>)
    requires
        sorted_strict(s),
    ensures
        forall|i: int, j: int| 0 <= i < j < s.len() ==> s[i]@ != s[j]@,
{
    assert forall|i: int, j: int| 0 <= i < j < s.len() implies s[i]@ != s[j]@ by {
        assert(lex_lt(s[i]@, s[j]@));
    }
}

/// The parameterized module template runs the module it was asked for, and
/// `"app"` when it was asked for none.
pub proof fn lemma_python_module_defaults()
    ensures
        obj_has_field(python_module_template(None), "module"@, JsonV::Str("app"@)),
        forall|p: Seq<char>|
            obj_has_field(#[trigger] python_module_template(Some(p)), "module"@, JsonV::Str(p)),
{
    assert(obj_fields(python_module_template(None))[3] == ("module"@, JsonV::Str("app"@)));
    assert forall|p: Seq<char>|
        obj_has_field(#[trigger] python_module_template(Some(p)), "module"@, JsonV::Str(p)) by {
        assert(obj_fields(python_module_template(Some(p)))[3] == ("module"@, JsonV::Str(p)));
    }
}

/// No provider is named `react`: the tag can only come from the dependency
/// sniff of the package manifest.
proof fn lemma_react_is_no_provider_name(k: ProviderKind)
    ensures
        provider_name_spec(k) != "react"@,
{
    reveal_strlit("react");
    reveal_strlit("python");
    reveal_strlit("python-module");
    reveal_strlit("flask");
    reveal_strlit("fastapi");
    reveal_strlit("javascript");
    reveal_strlit("node");
    reveal_strlit("typescript");
    reveal_strlit("rust");
    reveal_strlit("rust-lib");
    reveal_strlit("rust-test");
    reveal_strlit("rust-all");
    reveal_strlit("cpp-gdb");
    reveal_strlit("cpp-lldb");
    assert("react"@.len() == 5);
    assert("python"@.len() == 6);
    assert("python-module"@.len() == 13);
    assert("flask"@.len() == 5);
    assert("fastapi"@.len() == 7);
    assert("javascript"@.len() == 10);
    assert("node"@.len() == 4);
    assert("typescript"@.len() == 10);
    assert("rust"@.len() == 4);
    assert("rust-lib"@.len() == 8);
    assert("rust-test"@.len() == 9);
    assert("rust-all"@.len() == 8);
    assert("cpp-gdb"@.len() == 7);
    assert("cpp-lldb"@.len() == 8);
    assert("flask"@[0] == 'f');
    assert("react"@[0] == 'r');
}

/// A remembered package manifest always yields `node`, and yields `react`
/// exactly when its text declares a dependency named `react`.
pub proof fn lemma_package_manifest_tags(
    files: Seq<FileEntryV>,
    deep: Seq<FileEntryV>,
    c: Seq<char>,
)
    requires
        manifest_content(files, "package.json"@) == Some(c),
    ensures
        detected(files, deep, "node"@),
        detected(files, deep, "react"@) <==> json_member(c, "dependencies"@, "react"@),
{
    reveal_strlit("react");
    reveal_strlit("python");
    reveal_strlit("javascript");
    reveal_strlit("typescript");
    reveal_strlit("cpp-gdb");
    reveal_strlit("node");
    reveal_strlit("vue");
    reveal_strlit("express");
    reveal_strlit("flask");
    reveal_strlit("fastapi");
    reveal_strlit("python-module:django");
    reveal_strlit("python-module:pytest");
    reveal_strlit("rust");
    reveal_strlit("rust-lib");
    reveal_strlit("rust-test");
    reveal_strlit("rust-all");
    assert("react"@.len() == 5);
    assert("python"@.len() == 6);
    assert("javascript"@.len() == 10);
    assert("typescript"@.len() == 10);
    assert("cpp-gdb"@.len() == 7);
    assert("node"@.len() == 4);
    assert("vue"@.len() == 3);
    assert("express"@.len() == 7);
    assert("flask"@.len() == 5);
    assert("fastapi"@.len() == 7);
    assert("python-module:django"@.len() == 20);
    assert("python-module:pytest"@.len() == 20);
    assert("rust"@.len() == 4);
    assert("rust-lib"@.len() == 8);
    assert("rust-test"@.len() == 9);
    assert("rust-all"@.len() == 8);
    assert("flask"@[0] == 'f');
    assert("react"@[0] == 'r');
    assert forall|k: ProviderKind| provider_name_spec(k) != "react"@ by {
        lemma_react_is_no_provider_name(k);
    }
    if detected(files, deep, "react"@) {
        assert(json_member(c, "dependencies"@, "react"@));
    }
}

/// A Rust tree with a manifest that declares no binary and a source file
/// with a test marker yields all four Rust tags.
pub proof fn lemma_rust_project_tags(files: Seq<FileEntryV>, deep: Seq<FileEntryV>, c: Seq<char>)
    requires
        any_ext(files, "rs"@),
        manifest_content(files, "Cargo.toml"@) == Some(c),
        !contains_seq(c, "[[bin]]"@),
        deep_test_hit(deep),
    ensures
        detected(files, deep, "rust"@),
        detected(files, deep, "rust-lib"@),
        detected(files, deep, "rust-test"@),
        detected(files, deep, "rust-all"@),
{
}

/// A request whose kind is unknown is reported among the unknown kinds; it
/// aborts nothing.
pub proof fn lemma_unknown_request_reported(reqs: Seq<Seq<char>>, i: int)
    requires
        0 <= i < reqs.len(),
        lookup_spec(split_kind(reqs[i])) is None,
    ensures
        unknown_kinds(reqs).contains(split_kind(reqs[i])),
    decreases reqs.len(),
{
    if i == reqs.len() - 1 {
        assert(unknown_kinds(reqs).last() == split_kind(reqs[i]));
    } else {
        assert(reqs.drop_last()[i] == reqs[i]);
        lemma_unknown_request_reported(reqs.drop_last(), i);
        let u = unknown_kinds(reqs.drop_last());
        let j = choose|j: int| 0 <= j < u.len() && u[j] == split_kind(reqs[i]);
        assert(unknown_kinds(reqs)[j] == split_kind(reqs[i]));
    }
}

/// A request whose kind is known contributes its provider's template to the
/// output, whatever else was requested around it.
pub proof fn lemma_valid_request_served(reqs: Seq<Seq<char>>, i: int, k: ProviderKind)
    requires
        0 <= i < reqs.len(),
        lookup_spec(split_kind(reqs[i])) == Some(k),
    ensures
        request_configs(reqs).contains(template_of(k, split_param(reqs[i]))),
    decreases reqs.len(),
{
    if i == reqs.len() - 1 {
        assert(request_configs(reqs).last() == template_of(k, split_param(reqs[i])));
    } else {
        assert(reqs.drop_last()[i] == reqs[i]);
        lemma_valid_request_served(reqs.drop_last(), i, k);
        let cs = request_configs(reqs.drop_last());
        let j = choose|j: int| 0 <= j < cs.len() && cs[j] == template_of(k, split_param(reqs[i]));
        assert(request_configs(reqs)[j] == template_of(k, split_param(reqs[i])));
    }
}

}
