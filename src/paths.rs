//! Where the runtime and the worker script are looked for.
//!
//! Each search is an ordered list of candidate locations, built here from the
//! directories the host knows. The host reports which candidates exist on
//! disk, and the first one that does wins.
use vstd::prelude::*;

use crate::error::PlaywrightError;

verus! {

/// Name of the worker script inside every script directory.
pub const SCRIPT_FILE: &'static str = "playwright-worker.js";

/// Environment variable that may name the worker script by an absolute path.
pub const SCRIPT_ENV: &'static str = "PLAYWRIGHT_WORKER_SCRIPT";

/// Environment variable through which the worker learns where bundled browsers are.
pub const BROWSERS_ENV: &'static str = "PLAYWRIGHT_BROWSERS_PATH";

/// `rel` inside directory `base`.
pub open spec fn join_spec(base: Seq<char>, rel: Seq<char>) -> Seq<char> {
    if base.len() > 0 && base.last() == '/' {
        base + rel
    } else {
        base + "/"@ + rel
    }
}

pub fn join(base: &str, rel: &str) -> (r: String)
    ensures
        r@ == join_spec(base@, rel@),
{
    let n = base.unicode_len();
    if n > 0 && base.get_char(n - 1) == '/' {
        String::from_str(base).concat(rel)
    } else {
        String::from_str(base).concat("/").concat(rel)
    }
}

/// Index of the last `/` of `s`, or -1 where it has none.
pub open spec fn last_slash(s: Seq<char>) -> int
    decreases s.len(),
{
    if s.len() == 0 {
        -1
    } else if s.last() == '/' {
        s.len() - 1
    } else {
        last_slash(s.drop_last())
    }
}

/// The directory that holds `path`.
pub open spec fn parent_spec(path: Seq<char>) -> Seq<char> {
    let k = last_slash(path);
    if k < 0 {
        "."@
    } else if k == 0 {
        "/"@
    } else {
        path.subrange(0, k)
    }
}

pub fn parent_dir(path: &str) -> (r: String)
    ensures
        r@ == parent_spec(path@),
{
    let n = path.unicode_len();
    let mut i: usize = n;
    assert(path@.subrange(0, n as int) =~= path@);
    while i > 0 && path.get_char(i - 1) != '/'
        invariant
            i <= n,
            n == path@.len(),
            last_slash(path@) == last_slash(path@.subrange(0, i as int)),
        decreases i,
    {
        assert(path@.subrange(0, i as int).drop_last() =~= path@.subrange(0, i - 1));
        i = i - 1;
    }
    proof {
        if i > 0 {
            assert(path@.subrange(0, i as int).last() == '/');
        } else {
            assert(path@.subrange(0, 0) =~= Seq::<char>::empty());
        }
    }
    if i == 0 {
        String::from_str(".")
    } else if i == 1 {
        String::from_str("/")
    } else {
        String::from_str(path.substring_char(0, i - 1))
    }
}

/// `i` is the first index at which `present` holds.
pub open spec fn is_first(present: Seq<bool>, i: int) -> bool {
    &&& 0 <= i < present.len()
    &&& present[i]
    &&& forall|j: int| 0 <= j < i ==> !present[j]
}

/// The first index at which `present` holds, if any.
pub fn first_present(present: &Vec<bool>) -> (r: Option<usize>)
    ensures
        r is Some ==> is_first(present@, r->Some_0 as int),
        r is None ==> forall|j: int| 0 <= j < present@.len() ==> !present@[j],
{
    let mut i: usize = 0;
    while i < present.len()
        invariant
            i <= present@.len(),
            forall|j: int| 0 <= j < i ==> !present@[j],
        decreases present@.len() - i,
    {
        if present[i] {
            return Some(i);
        }
        i = i + 1;
    }
    None
}

/// The first of `candidates` that is present, `present` being aligned with it.
pub open spec fn first_found(candidates: Seq<Seq<char>>, present: Seq<bool>, r: Option<Seq<char>>) -> bool {
    match r {
        Some(c) => exists|i: int| is_first(present, i) && c == candidates[i],
        None => forall|j: int| 0 <= j < present.len() ==> !present[j],
    }
}

pub open spec fn views(v: Seq<String>) -> Seq<Seq<char>> {
    v.map_values(|s: String| s@)
}

fn pick_first(candidates: &Vec<String>, present: &Vec<bool>) -> (r: Option<String>)
    requires
        candidates@.len() == present@.len(),
    ensures
        first_found(views(candidates@), present@, match r { Some(s) => Some(s@), None => None }),
{
    match first_present(present) {
        Some(i) => Some(candidates[i].clone()),
        None => None,
    }
}

/// Where a bundled distribution may lie: beside the application's executable,
/// then, where the working directory is known, under it and its parent.
pub fn bundle_candidates(exe_dir: &str, cwd: Option<&str>) -> (r: Vec<String>)
    ensures
        cwd is None ==> views(r@) == seq![join_spec(exe_dir@, "../Resources/bundle"@)],
        cwd is Some ==> views(r@) == seq![
            join_spec(exe_dir@, "../Resources/bundle"@),
            join_spec(cwd->Some_0@, "scripts/bundle"@),
            join_spec(cwd->Some_0@, "../scripts/bundle"@),
        ],
{
    let mut r: Vec<String> = Vec::new();
    r.push(join(exe_dir, "../Resources/bundle"));
    if let Some(c) = cwd {
        r.push(join(c, "scripts/bundle"));
        r.push(join(c, "../scripts/bundle"));
    }
    assert(views(r@) =~= (if cwd is None { seq![join_spec(exe_dir@, "../Resources/bundle"@)] } else { seq![
        join_spec(exe_dir@, "../Resources/bundle"@),
        join_spec(cwd->Some_0@, "scripts/bundle"@),
        join_spec(cwd->Some_0@, "../scripts/bundle"@),
    ] }));
    r
}

/// The bundle directory: the first of its candidates that exists.
pub fn find_bundle_dir(candidates: &Vec<String>, present: &Vec<bool>) -> (r: Option<String>)
    requires
        candidates@.len() == present@.len(),
    ensures
        first_found(views(candidates@), present@, match r { Some(s) => Some(s@), None => None }),
{
    pick_first(candidates, present)
}

/// Where the runtime may lie: inside the bundle, where there is one, then the
/// well-known install locations.
pub open spec fn node_candidates_spec(bundle_dir: Option<Seq<char>>) -> Seq<Seq<char>> {
    let system = seq![
        "/opt/homebrew/bin/node"@,
        "/usr/local/bin/node"@,
        "/usr/bin/node"@,
        "/opt/local/bin/node"@,
    ];
    match bundle_dir {
        Some(b) => seq![join_spec(b, "node/bin/node"@)] + system,
        None => system,
    }
}

pub fn node_candidates(bundle_dir: Option<&str>) -> (r: Vec<String>)
    ensures
        views(r@) == node_candidates_spec(match bundle_dir { Some(b) => Some(b@), None => None }),
{
    let mut r: Vec<String> = Vec::new();
    if let Some(b) = bundle_dir {
        r.push(join(b, "node/bin/node"));
    }
    r.push(String::from_str("/opt/homebrew/bin/node"));
    r.push(String::from_str("/usr/local/bin/node"));
    r.push(String::from_str("/usr/bin/node"));
    r.push(String::from_str("/opt/local/bin/node"));
    assert(views(r@) =~= node_candidates_spec(match bundle_dir { Some(b) => Some(b@), None => None }));
    r
}

/// The runtime: the first of its candidates that exists.
pub fn find_node(candidates: &Vec<String>, present: &Vec<bool>) -> (r: Option<String>)
    requires
        candidates@.len() == present@.len(),
    ensures
        first_found(views(candidates@), present@, match r { Some(s) => Some(s@), None => None }),
{
    pick_first(candidates, present)
}

/// The directory where the bundled browsers are looked for.
pub fn browsers_dir(bundle_dir: &str) -> (r: String)
    ensures
        r@ == join_spec(bundle_dir@, "browsers"@),
{
    join(bundle_dir, "browsers")
}

/// The worker script and the directory it runs in.
#[derive(Debug)]
pub struct ScriptLocation {
    pub script: String,
    pub workdir: String,
}

impl View for ScriptLocation {
    type V = (Seq<char>, Seq<char>);

    open spec fn view(&self) -> (Seq<char>, Seq<char>) {
        (self.script@, self.workdir@)
    }
}

impl ScriptLocation {
    pub fn duplicate(&self) -> (r: ScriptLocation)
        ensures
            r@ == self@,
    {
        ScriptLocation { script: self.script.clone(), workdir: self.workdir.clone() }
    }
}

/// The script inside directory `dir`, run from `dir`.
pub open spec fn located(dir: Seq<char>) -> (Seq<char>, Seq<char>) {
    (join_spec(dir, SCRIPT_FILE@), dir)
}

fn location_in(dir: String) -> (r: ScriptLocation)
    ensures
        r@ == located(dir@),
{
    ScriptLocation { script: join(dir.as_str(), SCRIPT_FILE), workdir: dir }
}

pub open spec fn opt_view(o: Option<&str>) -> Option<Seq<char>> {
    match o {
        Some(s) => Some(s@),
        None => None,
    }
}

/// Where the worker script may lie, in the order tried: inside the bundle; the
/// script named by `SCRIPT_ENV`, run from its own directory; the development
/// layouts under the working directory and beside the executable; last, the
/// per-user directory under the home directory.
pub open spec fn script_candidates_spec(
    bundle_dir: Option<Seq<char>>,
    override_script: Option<Seq<char>>,
    cwd: Option<Seq<char>>,
    exe_dir: Option<Seq<char>>,
    home: Option<Seq<char>>,
) -> Seq<(Seq<char>, Seq<char>)> {
    (match bundle_dir {
        Some(b) => seq![located(b)],
        None => seq![],
    }) + (match override_script {
        Some(o) => seq![(o, parent_spec(o))],
        None => seq![],
    }) + (match cwd {
        Some(c) => seq![located(join_spec(c, "scripts"@)), located(join_spec(c, "../scripts"@))],
        None => seq![],
    }) + (match exe_dir {
        Some(e) => seq![located(join_spec(e, "../Resources/scripts"@))],
        None => seq![],
    }) + (match home {
        Some(h) => seq![located(join_spec(h, ".hiworks/scripts"@))],
        None => seq![],
    })
}

pub open spec fn location_views(v: Seq<ScriptLocation>) -> Seq<(Seq<char>, Seq<char>)> {
    v.map_values(|l: ScriptLocation| l@)
}

pub fn script_candidates(
    bundle_dir: Option<&str>,
    override_script: Option<&str>,
    cwd: Option<&str>,
    exe_dir: Option<&str>,
    home: Option<&str>,
) -> (r: Vec<ScriptLocation>)
    ensures
        location_views(r@) == script_candidates_spec(
            opt_view(bundle_dir),
            opt_view(override_script),
            opt_view(cwd),
            opt_view(exe_dir),
            opt_view(home),
        ),
{
    let mut r: Vec<ScriptLocation> = Vec::new();
    if let Some(b) = bundle_dir {
        r.push(location_in(String::from_str(b)));
    }
    if let Some(o) = override_script {
        r.push(ScriptLocation { script: String::from_str(o), workdir: parent_dir(o) });
    }
    if let Some(c) = cwd {
        r.push(location_in(join(c, "scripts")));
        r.push(location_in(join(c, "../scripts")));
    }
    if let Some(e) = exe_dir {
        r.push(location_in(join(e, "../Resources/scripts")));
    }
    if let Some(h) = home {
        r.push(location_in(join(h, ".hiworks/scripts")));
    }
    assert(location_views(r@) =~= script_candidates_spec(
        opt_view(bundle_dir),
        opt_view(override_script),
        opt_view(cwd),
        opt_view(exe_dir),
        opt_view(home),
    ));
    r
}

/// The script and its working directory: the first candidate whose script exists.
pub fn find_script_and_workdir(candidates: &Vec<ScriptLocation>, present: &Vec<bool>) -> (r: Option<ScriptLocation>)
    requires
        candidates@.len() == present@.len(),
    ensures
        r is Some ==> exists|i: int| is_first(present@, i) && r->Some_0@ == candidates@[i]@,
        r is None ==> forall|j: int| 0 <= j < present@.len() ==> !present@[j],
{
    match first_present(present) {
        Some(i) => Some(candidates[i].duplicate()),
        None => None,
    }
}

/// How the worker is to be launched.
#[derive(Debug)]
pub struct LaunchPlan {
    /// The runtime executable.
    pub program: String,
    /// The worker script, its only argument.
    pub script: String,
    /// The directory it runs in.
    pub workdir: String,
    /// The value of `BROWSERS_ENV` for the worker, where bundled browsers exist.
    pub browsers: Option<String>,
}

/// Puts together what the searches found. The script is looked for first, so
/// a missing script is reported even where the runtime is missing too.
pub fn plan_launch(script: Option<ScriptLocation>, node: Option<String>, browsers: Option<String>) -> (r: Result<LaunchPlan, PlaywrightError>)
    ensures
        script is None ==> r is Err && r->Err_0 is ScriptNotFound,
        script is Some && node is None ==> r is Err && r->Err_0 is NodeNotFound,
        script is Some && node is Some ==> r is Ok && r->Ok_0.program == node->Some_0
            && r->Ok_0.script == script->Some_0.script && r->Ok_0.workdir == script->Some_0.workdir
            && r->Ok_0.browsers == browsers,
{
    match script {
        None => Err(PlaywrightError::ScriptNotFound),
        Some(loc) => match node {
            None => Err(PlaywrightError::NodeNotFound),
            Some(program) => Ok(LaunchPlan { program, script: loc.script, workdir: loc.workdir, browsers }),
        },
    }
}

} // verus!
