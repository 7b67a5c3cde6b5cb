use playwright_worker::error::PlaywrightError;
use playwright_worker::paths::{
    browsers_dir, bundle_candidates, find_bundle_dir, find_node, find_script_and_workdir, first_present, join,
    node_candidates, parent_dir, plan_launch, script_candidates, ScriptLocation,
};

#[test]
fn join_adds_one_separator() {
    assert_eq!(join("/a/b", "c"), "/a/b/c");
    assert_eq!(join("/a/b/", "c"), "/a/b/c");
    assert_eq!(join("", "c"), "/c");
}

#[test]
fn parent_directories() {
    assert_eq!(parent_dir("/opt/w/playwright-worker.js"), "/opt/w");
    assert_eq!(parent_dir("/worker.js"), "/");
    assert_eq!(parent_dir("worker.js"), ".");
    assert_eq!(parent_dir("/a/b/"), "/a/b");
}

#[test]
fn first_present_picks_lowest() {
    assert_eq!(first_present(&vec![false, true, true]), Some(1));
    assert_eq!(first_present(&vec![true]), Some(0));
    assert_eq!(first_present(&vec![false, false]), None);
    assert_eq!(first_present(&vec![]), None);
}

#[test]
fn bundle_search_order() {
    let c = bundle_candidates("/app/MacOS", Some("/home/u/proj"));
    assert_eq!(c, vec!["/app/MacOS/../Resources/bundle", "/home/u/proj/scripts/bundle", "/home/u/proj/../scripts/bundle"]);
    assert_eq!(bundle_candidates("/app/MacOS", None), vec!["/app/MacOS/../Resources/bundle"]);
    assert_eq!(find_bundle_dir(&c, &vec![false, true, true]), Some("/home/u/proj/scripts/bundle".to_string()));
    assert_eq!(find_bundle_dir(&c, &vec![false, false, false]), None);
    assert_eq!(browsers_dir("/b"), "/b/browsers");
}

#[test]
fn node_search_order() {
    let c = node_candidates(Some("/b"));
    assert_eq!(c, vec!["/b/node/bin/node", "/opt/homebrew/bin/node", "/usr/local/bin/node", "/usr/bin/node", "/opt/local/bin/node"]);
    assert_eq!(find_node(&c, &vec![true, true, false, false, false]), Some("/b/node/bin/node".to_string()));
    let c = node_candidates(None);
    assert_eq!(c.len(), 4);
    assert_eq!(find_node(&c, &vec![false, false, true, true]), Some("/usr/bin/node".to_string()));
    assert_eq!(find_node(&c, &vec![false; 4]), None);
}

fn pairs(v: &[ScriptLocation]) -> Vec<(String, String)> {
    v.iter().map(|l| (l.script.clone(), l.workdir.clone())).collect()
}

#[test]
fn script_search_order() {
    let c = script_candidates(Some("/b"), Some("/x/w.js"), Some("/cwd"), Some("/exe"), Some("/home/u"));
    let expect: Vec<(String, String)> = [
        ("/b/playwright-worker.js", "/b"),
        ("/x/w.js", "/x"),
        ("/cwd/scripts/playwright-worker.js", "/cwd/scripts"),
        ("/cwd/../scripts/playwright-worker.js", "/cwd/../scripts"),
        ("/exe/../Resources/scripts/playwright-worker.js", "/exe/../Resources/scripts"),
        ("/home/u/.hiworks/scripts/playwright-worker.js", "/home/u/.hiworks/scripts"),
    ]
    .iter()
    .map(|(a, b)| (a.to_string(), b.to_string()))
    .collect();
    assert_eq!(pairs(&c), expect);
    let found = find_script_and_workdir(&c, &vec![false, false, false, true, true, true]).unwrap();
    assert_eq!(found.script, "/cwd/../scripts/playwright-worker.js");
    assert_eq!(found.workdir, "/cwd/../scripts");
    assert!(find_script_and_workdir(&c, &vec![false; 6]).is_none());
    assert!(script_candidates(None, None, None, None, None).is_empty());
}

#[test]
fn launch_plan_failures() {
    let loc = ScriptLocation { script: "/s/w.js".to_string(), workdir: "/s".to_string() };
    assert!(matches!(plan_launch(None, Some("/n".to_string()), None), Err(PlaywrightError::ScriptNotFound)));
    assert!(matches!(plan_launch(None, None, None), Err(PlaywrightError::ScriptNotFound)));
    assert!(matches!(plan_launch(Some(loc.duplicate()), None, None), Err(PlaywrightError::NodeNotFound)));
    let plan = plan_launch(Some(loc), Some("/n".to_string()), Some("/b/browsers".to_string())).unwrap();
    assert_eq!(plan.program, "/n");
    assert_eq!(plan.script, "/s/w.js");
    assert_eq!(plan.workdir, "/s");
    assert_eq!(plan.browsers, Some("/b/browsers".to_string()));
}
