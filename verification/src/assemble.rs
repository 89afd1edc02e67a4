//! The assembler: resolves explicit requests and detected tags to providers,
//! collects their templates in order, and wraps them in the fixed output
//! envelope. Deciding whether anything is written at all (dry runs, empty
//! runs) is part of the plan, so the no-write cases are part of the contract.

use vstd::prelude::*;
use vstd::string::StrSliceExecFns;
use vstd::string::StringExecFns;

use crate::doc::{json_str, obj_empty, obj_fields, obj_push, view_fields, view_items,
    lemma_view_items_elementwise, Json, JsonV};
use crate::providers::{lookup_provider, lookup_spec, template_for, template_of};
use crate::strutil::str_eq;

verus! {

/// The views of a list of strings.
pub open spec fn str_views(s: Seq<String>) -> Seq<Seq<char>> {
    s.map_values(|x: String| x@)
}

/// The kind part of a request: everything before the first `:`.
pub open spec fn split_kind(s: Seq<char>) -> Seq<char>
    decreases s.len(),
{
    if s.len() == 0 {
        s
    } else if s[0] == ':' {
        Seq::empty()
    } else {
        seq![s[0]] + split_kind(s.drop_first())
    }
}

/// The parameter part of a request: everything after the first `:`, if any.
pub open spec fn split_param(s: Seq<char>) -> Option<Seq<char>>
    decreases s.len(),
{
    if s.len() == 0 {
        None
    } else if s[0] == ':' {
        Some(s.drop_first())
    } else {
        split_param(s.drop_first())
    }
}

proof fn lemma_split_at(s: Seq<char>, i: int)
    requires
        0 <= i <= s.len(),
        forall|j: int| 0 <= j < i ==> s[j] != ':',
        i < s.len() ==> s[i] == ':',
    ensures
        split_kind(s) == s.take(i),
        split_param(s) == if i < s.len() {
            Some(s.skip(i + 1))
        } else {
            None::<Seq<char>>
        },
    decreases i,
{
    if s.len() == 0 {
        assert(s.take(0) =~= s);
    } else if i == 0 {
        if s[0] == ':' {
            assert(split_kind(s) == Seq::<char>::empty());
            assert(s.take(0) =~= Seq::<char>::empty());
            assert(s.drop_first() =~= s.skip(1));
        } else {
            assert(i < s.len() ==> s[i] == ':');
            assert(false);
        }
    } else {
        assert(s[0] != ':');
        lemma_split_at(s.drop_first(), i - 1);
        assert(seq![s[0]] + s.drop_first().take(i - 1) =~= s.take(i));
        if i < s.len() {
            assert(s.drop_first().skip(i) =~= s.skip(i + 1));
        }
    }
}

/// Splits a request into its kind and its optional parameter.
pub fn split_request(s: &str) -> (r: (String, Option<String>))
    ensures
        r.0@ == split_kind(s@),
        match r.1 {
            Some(p) => split_param(s@) == Some(p@),
            None => split_param(s@) is None,
        },
{
    let len = s.unicode_len();
    let mut i: usize = 0;
    while i < len
        invariant
            i <= len,
            len == s@.len(),
            forall|j: int| 0 <= j < i ==> s@[j] != ':',
        decreases len - i,
    {
        if s.get_char(i) == ':' {
            let kind = s.substring_char(0, i);
            let param = s.substring_char(i + 1, len);
            proof {
                lemma_split_at(s@, i as int);
            }
            return (String::from_str(kind), Some(String::from_str(param)));
        }
        i += 1;
    }
    proof {
        lemma_split_at(s@, len as int);
        assert(s@.take(len as int) =~= s@);
    }
    (String::from_str(s), None)
}

/// The templates the explicit requests resolve to, in request order; a
/// request whose kind is unknown contributes nothing.
pub open spec fn request_configs(reqs: Seq<Seq<char>>) -> Seq<JsonV>
    decreases reqs.len(),
{
    if reqs.len() == 0 {
        Seq::empty()
    } else {
        request_configs(reqs.drop_last()) + (match lookup_spec(split_kind(reqs.last())) {
            Some(k) => seq![template_of(k, split_param(reqs.last()))],
            None => Seq::<JsonV>::empty(),
        })
    }
}

/// The kinds of the requests that resolve to no provider, in request order.
pub open spec fn unknown_kinds(reqs: Seq<Seq<char>>) -> Seq<Seq<char>>
    decreases reqs.len(),
{
    if reqs.len() == 0 {
        Seq::empty()
    } else {
        unknown_kinds(reqs.drop_last()) + (if lookup_spec(split_kind(reqs.last())) is None {
            seq![split_kind(reqs.last())]
        } else {
            Seq::<Seq<char>>::empty()
        })
    }
}

/// An explicit request already covers this detected tag: it names the same
/// kind. (A request for one kind does not suppress a detected tag of another
/// kind that merely shares a prefix.)
pub open spec fn covered(reqs: Seq<Seq<char>>, tag: Seq<char>) -> bool {
    exists|i: int| 0 <= i < reqs.len() && split_kind(#[trigger] reqs[i]) == split_kind(tag)
}

/// The templates the detected tags add, in detection order: a tag covered by
/// an explicit request, or resolving to no provider, contributes nothing.
pub open spec fn detected_configs(dets: Seq<Seq<char>>, reqs: Seq<Seq<char>>) -> Seq<JsonV>
    decreases dets.len(),
{
    if dets.len() == 0 {
        Seq::empty()
    } else {
        detected_configs(dets.drop_last(), reqs) + (if covered(reqs, dets.last()) {
            Seq::<JsonV>::empty()
        } else {
            match lookup_spec(split_kind(dets.last())) {
                Some(k) => seq![template_of(k, split_param(dets.last()))],
                None => Seq::<JsonV>::empty(),
            }
        })
    }
}

/// Whether an explicit request names the same kind as `tag`.
fn covered_exec(requests: &Vec<String>, tag: &str) -> (r: bool)
    ensures
        r == covered(str_views(requests@), tag@),
{
    let ghost rv = str_views(requests@);
    let (tag_kind, _) = split_request(tag);
    let mut i: usize = 0;
    while i < requests.len()
        invariant
            rv == str_views(requests@),
            tag_kind@ == split_kind(tag@),
            i <= requests@.len(),
            forall|j: int| 0 <= j < i ==> split_kind(#[trigger] rv[j]) != split_kind(tag@),
        decreases requests@.len() - i,
    {
        let (kind, _) = split_request(requests[i].as_str());
        if str_eq(kind.as_str(), tag_kind.as_str()) {
            proof {
                assert(split_kind(rv[i as int]) == split_kind(tag@));
            }
            return true;
        }
        i += 1;
    }
    false
}

/// What assembling produced: the configurations in order, and the kinds that
/// resolved to no provider, in order.
pub struct AssembleOutcome {
    pub configs: Vec<Json>,
    pub unknown: Vec<String>,
}

/// The configurations a run produces: the explicit requests' templates, then,
/// where detection ran, the detected additions.
pub open spec fn all_configs(reqs: Seq<Seq<char>>, detected: Option<Seq<Seq<char>>>) -> Seq<JsonV> {
    request_configs(reqs) + (match detected {
        Some(d) => detected_configs(d, reqs),
        None => Seq::<JsonV>::empty(),
    })
}

/// The views of an optional detected-tag list.
pub open spec fn opt_tag_views(d: Option<&Vec<String>>) -> Option<Seq<Seq<char>>> {
    match d {
        Some(v) => Some(str_views(v@)),
        None => None,
    }
}

/// Resolves the explicit requests and the detected tags to templates.
pub fn assemble_configs(requests: &Vec<String>, detected: Option<&Vec<String>>) -> (r:
    AssembleOutcome)
    ensures
        view_items(r.configs@) == all_configs(str_views(requests@), opt_tag_views(detected)),
        str_views(r.unknown@) == unknown_kinds(str_views(requests@)),
{
    let ghost rv = str_views(requests@);
    let mut configs: Vec<Json> = Vec::new();
    let mut unknown: Vec<String> = Vec::new();
    let mut i: usize = 0;
    while i < requests.len()
        invariant
            rv == str_views(requests@),
            i <= requests@.len(),
            view_items(configs@) == request_configs(rv.take(i as int)),
            str_views(unknown@) == unknown_kinds(rv.take(i as int)),
        decreases requests@.len() - i,
    {
        let ghost configs_before = configs@;
        let ghost unknown_before = unknown@;
        let (kind, param) = split_request(requests[i].as_str());
        proof {
            assert(rv[i as int] == requests@[i as int]@);
            assert(rv.take(i + 1).drop_last() =~= rv.take(i as int));
            assert(rv.take(i + 1).last() == rv[i as int]);
        }
        match lookup_provider(kind.as_str()) {
            Some(k) => {
                let param_ref: Option<&str> = match &param {
                    Some(p) => Some(p.as_str()),
                    None => None,
                };
                let cfg = template_for(k, param_ref);
                let ghost cfg_v = cfg@;
                configs.push(cfg);
                proof {
                    crate::doc::lemma_view_items_push(configs_before, configs@.last());
                    assert(view_items(configs@) =~= request_configs(rv.take(i + 1)));
                    assert(str_views(unknown@) =~= unknown_kinds(rv.take(i + 1)));
                }
            },
            None => {
                let ghost kind_v = kind@;
                unknown.push(kind);
                proof {
                    assert(str_views(unknown@) =~= str_views(unknown_before).push(kind_v));
                    assert(str_views(unknown@) =~= unknown_kinds(rv.take(i + 1)));
                    assert(view_items(configs@) =~= request_configs(rv.take(i + 1)));
                }
            },
        }
        i += 1;
    }
    proof {
        assert(rv.take(requests@.len() as int) =~= rv);
    }
    match detected {
        Some(dets) => {
            let ghost dv = str_views(dets@);
            let mut j: usize = 0;
            while j < dets.len()
                invariant
                    rv == str_views(requests@),
                    dv == str_views(dets@),
                    j <= dets@.len(),
                    view_items(configs@) == request_configs(rv) + detected_configs(
                        dv.take(j as int),
                        rv,
                    ),
                    str_views(unknown@) == unknown_kinds(rv),
                decreases dets@.len() - j,
            {
                let ghost configs_before = configs@;
                proof {
                    assert(dv[j as int] == dets@[j as int]@);
                    assert(dv.take(j + 1).drop_last() =~= dv.take(j as int));
                    assert(dv.take(j + 1).last() == dv[j as int]);
                }
                if !covered_exec(requests, dets[j].as_str()) {
                    let (kind, param) = split_request(dets[j].as_str());
                    match lookup_provider(kind.as_str()) {
                        Some(k) => {
                            let param_ref: Option<&str> = match &param {
                                Some(p) => Some(p.as_str()),
                                None => None,
                            };
                            let cfg = template_for(k, param_ref);
                            configs.push(cfg);
                            proof {
                                crate::doc::lemma_view_items_push(configs_before, configs@.last());
                                assert(view_items(configs@) =~= request_configs(rv)
                                    + detected_configs(dv.take(j + 1), rv));
                            }
                        },
                        None => {
                            proof {
                                assert(view_items(configs@) =~= request_configs(rv)
                                    + detected_configs(dv.take(j + 1), rv));
                            }
                        },
                    }
                } else {
                    proof {
                        assert(view_items(configs@) =~= request_configs(rv) + detected_configs(
                            dv.take(j + 1),
                            rv,
                        ));
                    }
                }
                j += 1;
            }
            proof {
                assert(dv.take(dets@.len() as int) =~= dv);
            }
        },
        None => {},
    }
    proof {
        assert(view_items(configs@) =~= all_configs(rv, opt_tag_views(detected)));
    }
    AssembleOutcome { configs, unknown }
}

/// The fixed output envelope around an ordered configurations list.
pub open spec fn launch_document_v(configs: Seq<JsonV>) -> JsonV {
    JsonV::Obj(
        seq![
            ("version"@, JsonV::Str("0.2.0"@)),
            ("configurations"@, JsonV::Arr(configs)),
        ],
    )
}

/// Wraps the configurations in the fixed envelope.
pub fn launch_document(configs: Vec<Json>) -> (r: Json)
    ensures
        r@ == launch_document_v(view_items(configs@)),
{
    let ghost cv = view_items(configs@);
    let mut f = obj_empty();
    obj_push(&mut f, "version", json_str("0.2.0"));
    obj_push(&mut f, "configurations", Json::Arr(configs));
    proof {
        assert(view_fields(f@) =~= obj_fields(launch_document_v(cv)));
    }
    Json::Obj(f)
}

/// What a run does after detection was reported: stop (dry run), report that
/// nothing was selected, or write the assembled document.
pub enum RunPlan {
    DryRun,
    NoConfigs { unknown: Vec<String> },
    Write { unknown: Vec<String>, document: Json },
}

/// Plans the run. A dry run stops after the detection report: for every
/// input, its plan is `DryRun`, which carries no document, so there is
/// nothing a caller could write. A run that selects nothing produces no
/// document either; otherwise the document holds exactly the assembled
/// configurations in the fixed envelope.
pub fn plan_run(requests: &Vec<String>, detected: Option<&Vec<String>>, dry_run: bool) -> (r:
    RunPlan)
    ensures
        dry_run <==> r is DryRun,
        !dry_run ==> (r is NoConfigs <==> all_configs(
            str_views(requests@),
            opt_tag_views(detected),
        ).len() == 0),
        (r matches RunPlan::NoConfigs { unknown } ==> str_views(unknown@) == unknown_kinds(
            str_views(requests@),
        )),
        (r matches RunPlan::Write { unknown, document } ==> str_views(unknown@) == unknown_kinds(
            str_views(requests@),
        ) && document@ == launch_document_v(
            all_configs(str_views(requests@), opt_tag_views(detected)),
        )),
{
    if dry_run {
        return RunPlan::DryRun;
    }
    let out = assemble_configs(requests, detected);
    proof {
        lemma_view_items_elementwise(out.configs@);
    }
    if out.configs.len() == 0 {
        RunPlan::NoConfigs { unknown: out.unknown }
    } else {
        RunPlan::Write { unknown: out.unknown, document: launch_document(out.configs) }
    }
}

}
