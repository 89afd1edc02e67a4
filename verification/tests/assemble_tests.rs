use launchgen::assemble::{launch_document, plan_run, RunPlan};
use launchgen::doc::Json;
use launchgen::providers::{NodeConfigProvider, PythonConfigProvider, PythonModuleConfigProvider};

fn jeq(a: &Json, b: &Json) -> bool {
    match (a, b) {
        (Json::Bool(x), Json::Bool(y)) => x == y,
        (Json::Str(x), Json::Str(y)) => x == y,
        (Json::Arr(x), Json::Arr(y)) => {
            x.len() == y.len() && x.iter().zip(y.iter()).all(|(p, q)| jeq(p, q))
        }
        (Json::Obj(x), Json::Obj(y)) => {
            x.len() == y.len()
                && x.iter().zip(y.iter()).all(|(p, q)| p.0 == q.0 && jeq(&p.1, &q.1))
        }
        _ => false,
    }
}

fn field<'a>(j: &'a Json, key: &str) -> Option<&'a Json> {
    if let Json::Obj(fields) = j {
        for (k, v) in fields {
            if k == key {
                return Some(v);
            }
        }
    }
    None
}

fn reqs(names: &[&str]) -> Vec<String> {
    names.iter().map(|s| s.to_string()).collect()
}

#[test]
fn two_requests_round_trip_verbatim() {
    let requests = reqs(&["python", "node"]);
    let plan = plan_run(&requests, None, false);
    match plan {
        RunPlan::Write { unknown, document } => {
            assert!(unknown.is_empty());
            let expected = launch_document(vec![
                PythonConfigProvider.get_config(None),
                NodeConfigProvider.get_config(None),
            ]);
            assert!(jeq(&document, &expected));
        }
        _ => panic!("two valid requests must produce a document"),
    }
}

#[test]
fn envelope_is_fixed() {
    let doc = launch_document(vec![]);
    match field(&doc, "version") {
        Some(Json::Str(v)) => assert_eq!(v, "0.2.0"),
        _ => panic!("version must be a string"),
    }
    match field(&doc, "configurations") {
        Some(Json::Arr(items)) => assert!(items.is_empty()),
        _ => panic!("configurations must be an array"),
    }
}

#[test]
fn unknown_request_warns_but_does_not_abort() {
    let requests = reqs(&["cobol", "python"]);
    let plan = plan_run(&requests, None, false);
    match plan {
        RunPlan::Write { unknown, document } => {
            assert_eq!(unknown, vec!["cobol".to_string()]);
            match field(&document, "configurations") {
                Some(Json::Arr(items)) => {
                    assert_eq!(items.len(), 1);
                    assert!(jeq(&items[0], &PythonConfigProvider.get_config(None)));
                }
                _ => panic!("configurations must be an array"),
            }
        }
        _ => panic!("a run with one valid request must produce a document"),
    }
}

#[test]
fn dry_run_produces_no_document() {
    let requests = reqs(&["python", "node"]);
    let detected = vec!["rust".to_string()];
    let plan = plan_run(&requests, Some(&detected), true);
    assert!(matches!(plan, RunPlan::DryRun));
}

#[test]
fn no_selection_writes_nothing() {
    let requests = reqs(&[]);
    let plan = plan_run(&requests, None, false);
    match plan {
        RunPlan::NoConfigs { unknown } => assert!(unknown.is_empty()),
        _ => panic!("an empty run must not produce a document"),
    }
}

#[test]
fn only_unknown_requests_write_nothing() {
    let requests = reqs(&["cobol"]);
    let plan = plan_run(&requests, None, false);
    match plan {
        RunPlan::NoConfigs { unknown } => assert_eq!(unknown, vec!["cobol".to_string()]),
        _ => panic!("a run of only unknown requests must not produce a document"),
    }
}

#[test]
fn parameterized_request_reaches_the_template() {
    let requests = reqs(&["python-module:mypkg"]);
    let plan = plan_run(&requests, None, false);
    match plan {
        RunPlan::Write { unknown, document } => {
            assert!(unknown.is_empty());
            match field(&document, "configurations") {
                Some(Json::Arr(items)) => {
                    assert_eq!(items.len(), 1);
                    assert!(jeq(&items[0], &PythonModuleConfigProvider.get_config(Some("mypkg"))));
                }
                _ => panic!("configurations must be an array"),
            }
        }
        _ => panic!("a parameterized request must produce a document"),
    }
}

#[test]
fn detected_tags_add_templates_after_requests() {
    let requests = reqs(&["python"]);
    let detected = vec!["node".to_string(), "python-module:django".to_string()];
    let plan = plan_run(&requests, Some(&detected), false);
    match plan {
        RunPlan::Write { unknown, document } => {
            assert!(unknown.is_empty());
            match field(&document, "configurations") {
                Some(Json::Arr(items)) => {
                    assert_eq!(items.len(), 3);
                    assert!(jeq(&items[0], &PythonConfigProvider.get_config(None)));
                    assert!(jeq(&items[1], &NodeConfigProvider.get_config(None)));
                    assert!(jeq(
                        &items[2],
                        &PythonModuleConfigProvider.get_config(Some("django"))
                    ));
                }
                _ => panic!("configurations must be an array"),
            }
        }
        _ => panic!("detection must add templates"),
    }
}

#[test]
fn explicit_request_suppresses_detected_tag_of_same_kind() {
    let requests = reqs(&["python-module:mypkg"]);
    let detected = vec!["python-module:django".to_string(), "rust".to_string()];
    let plan = plan_run(&requests, Some(&detected), false);
    match plan {
        RunPlan::Write { document, .. } => {
            match field(&document, "configurations") {
                Some(Json::Arr(items)) => {
                    // the explicit module entry, then rust: django is covered
                    assert_eq!(items.len(), 2);
                    assert!(jeq(&items[0], &PythonModuleConfigProvider.get_config(Some("mypkg"))));
                }
                _ => panic!("configurations must be an array"),
            }
        }
        _ => panic!("the run must produce a document"),
    }
}

#[test]
fn detected_tag_without_provider_is_skipped() {
    let requests = reqs(&[]);
    let detected = vec!["react".to_string(), "node".to_string()];
    let plan = plan_run(&requests, Some(&detected), false);
    match plan {
        RunPlan::Write { document, .. } => match field(&document, "configurations") {
            Some(Json::Arr(items)) => {
                assert_eq!(items.len(), 1);
                assert!(jeq(&items[0], &NodeConfigProvider.get_config(None)));
            }
            _ => panic!("configurations must be an array"),
        },
        _ => panic!("the run must produce a document"),
    }
}
