//! Where the interpreter and the server payload live: the candidate roots,
//! in order, and the first of them that holds both files.

use vstd::prelude::*;
use vstd::string::*;
use crate::text::str_eq;
use crate::config::opt_str_view;
use crate::error::LauncherError;

verus! {

/// The operating-system family the launcher runs on; it decides the path
/// separator, the interpreter's file name and the bundle directories.
#[derive(Debug, Clone, Copy, PartialEq, Eq, Structural)]
pub enum Platform {
    Unix,
    MacOs,
    Windows,
}

/// Name of the subdirectory that may hold the bundled resources.
pub const RESOURCES_DIR: &'static str = "resources";

/// Name of the bundle directory that holds the resources on macOS.
pub const BUNDLE_RESOURCES_DIR: &'static str = "Resources";

/// File name of the server payload.
pub const PAYLOAD_NAME: &'static str = "Suwayomi-Server.jar";

pub open spec fn is_separator(c: char, platform: Platform) -> bool {
    c == '/' || (platform == Platform::Windows && c == '\\')
}

pub open spec fn separator(platform: Platform) -> char {
    if platform == Platform::Windows {
        '\\'
    } else {
        '/'
    }
}

/// `base` with the relative component `name` appended.
pub open spec fn join_spec(base: Seq<char>, name: Seq<char>, platform: Platform) -> Seq<char> {
    if base.len() == 0 || is_separator(base.last(), platform) {
        base + name
    } else {
        base + seq![separator(platform)] + name
    }
}

pub open spec fn paths_view(v: Seq<String>) -> Seq<Seq<char>> {
    v.map_values(|s: String| s@)
}

/// `acc` with `x` appended unless it already holds it.
pub open spec fn append_unique(acc: Seq<Seq<char>>, x: Seq<char>) -> Seq<Seq<char>> {
    if acc.contains(x) {
        acc
    } else {
        acc.push(x)
    }
}

/// `s` with every repeated entry after its first occurrence left out.
pub open spec fn dedup(s: Seq<Seq<char>>) -> Seq<Seq<char>>
    decreases s.len(),
{
    if s.len() == 0 {
        Seq::empty()
    } else {
        append_unique(dedup(s.drop_last()), s.last())
    }
}

/// Every candidate root in order of preference, repeats included.
pub open spec fn root_candidates(resource_dir: Option<Seq<char>>, app_dir: Seq<char>, platform: Platform) -> Seq<Seq<char>> {
    let from_resources = match resource_dir {
        Some(r) => seq![r, join_spec(r, RESOURCES_DIR@, platform)],
        None => Seq::empty(),
    };
    let bundle = join_spec(app_dir, BUNDLE_RESOURCES_DIR@, platform);
    let from_bundle = if platform == Platform::MacOs {
        seq![bundle, join_spec(bundle, RESOURCES_DIR@, platform)]
    } else {
        Seq::empty()
    };
    from_resources + seq![app_dir, join_spec(app_dir, RESOURCES_DIR@, platform)] + from_bundle
}

/// Appends the component `name` to `base`.
pub fn join_path(base: &str, name: &str, platform: Platform) -> (r: String)
    ensures
        r@ == join_spec(base@, name@, platform),
{
    let n = base.unicode_len();
    let mut joined = String::from_str(base);
    if n > 0 {
        let last = base.get_char(n - 1);
        let is_sep = last == '/' || (platform == Platform::Windows && last == '\\');
        if !is_sep {
            proof {
                reveal_strlit("/");
                reveal_strlit("\\");
            }
            if platform == Platform::Windows {
                joined.append("\\");
                assert("\\"@ =~= seq![separator(platform)]);
            } else {
                joined.append("/");
                assert("/"@ =~= seq![separator(platform)]);
            }
        }
    }
    joined.append(name);
    joined
}

/// Appends `path` unless `paths` already holds an equal path.
pub fn push_unique_path(paths: &mut Vec<String>, path: String)
    ensures
        paths_view(final(paths)@) == append_unique(paths_view(old(paths)@), path@),
{
    let ghost before = paths_view(paths@);
    let mut i: usize = 0;
    while i < paths.len()
        invariant
            i <= paths@.len(),
            paths_view(paths@) == before,
            forall|j: int| 0 <= j < i ==> before[j] != path@,
        decreases paths@.len() - i,
    {
        if str_eq(paths[i].as_str(), path.as_str()) {
            assert(before[i as int] == path@);
            assert(before.contains(path@));
            return;
        }
        i = i + 1;
    }
    assert(!before.contains(path@));
    paths.push(path);
    assert(paths_view(paths@) =~= before.push(path@));
}

proof fn lemma_dedup_push(s: Seq<Seq<char>>, x: Seq<char>)
    ensures
        dedup(s.push(x)) == append_unique(dedup(s), x),
{
    assert(s.push(x).drop_last() =~= s);
}

/// The candidate installation roots, in order of preference and without
/// repeats: the resource directory and its `resources` subdirectory, when a
/// resource directory is given; then the application directory and its
/// `resources` subdirectory; then, on macOS, the bundle's `Resources`
/// directory and its `resources` subdirectory.
pub fn runtime_roots(resource_dir: Option<&str>, app_dir: &str, platform: Platform) -> (r: Vec<String>)
    ensures
        paths_view(r@) == dedup(root_candidates(opt_str_view(resource_dir), app_dir@, platform)),
{
    let mut roots: Vec<String> = Vec::new();
    let ghost cands: Seq<Seq<char>> = Seq::empty();
    assert(paths_view(roots@) =~= dedup(cands));
    if let Some(dir) = resource_dir {
        let first = String::from_str(dir);
        proof { lemma_dedup_push(cands, first@); }
        push_unique_path(&mut roots, first);
        proof { cands = cands.push(dir@); }
        let nested = join_path(dir, RESOURCES_DIR, platform);
        proof { lemma_dedup_push(cands, nested@); }
        push_unique_path(&mut roots, nested);
        proof { cands = cands.push(join_spec(dir@, RESOURCES_DIR@, platform)); }
    }
    let app = String::from_str(app_dir);
    proof { lemma_dedup_push(cands, app@); }
    push_unique_path(&mut roots, app);
    proof { cands = cands.push(app_dir@); }
    let nested = join_path(app_dir, RESOURCES_DIR, platform);
    proof { lemma_dedup_push(cands, nested@); }
    push_unique_path(&mut roots, nested);
    proof { cands = cands.push(join_spec(app_dir@, RESOURCES_DIR@, platform)); }
    if platform == Platform::MacOs {
        let bundle = join_path(app_dir, BUNDLE_RESOURCES_DIR, platform);
        let bundle_nested = join_path(bundle.as_str(), RESOURCES_DIR, platform);
        proof { lemma_dedup_push(cands, bundle@); }
        push_unique_path(&mut roots, bundle);
        proof { cands = cands.push(join_spec(app_dir@, BUNDLE_RESOURCES_DIR@, platform)); }
        proof { lemma_dedup_push(cands, bundle_nested@); }
        push_unique_path(&mut roots, bundle_nested);
        proof { cands = cands.push(bundle_nested@); }
    }
    assert(cands =~= root_candidates(opt_str_view(resource_dir), app_dir@, platform));
    roots
}

/// Whether no entry of `s` stands twice.
pub open spec fn no_repeats(s: Seq<Seq<char>>) -> bool {
    forall|i: int, j: int| 0 <= i < j < s.len() ==> s[i] != s[j]
}

proof fn lemma_dedup_no_repeats(s: Seq<Seq<char>>)
    ensures
        no_repeats(dedup(s)),
    decreases s.len(),
{
    if s.len() > 0 {
        lemma_dedup_no_repeats(s.drop_last());
        let d = dedup(s.drop_last());
        if !d.contains(s.last()) {
            assert forall|i: int, j: int| 0 <= i < j < d.len() + 1 implies d.push(s.last())[i] != d.push(
                s.last(),
            )[j] by {
                if j == d.len() {
                    assert(d[i] == d.push(s.last())[i]);
                }
            }
        }
    }
}

proof fn lemma_dedup_prefix(s: Seq<Seq<char>>, k: int)
    requires
        0 <= k <= s.len(),
    ensures
        dedup(s.subrange(0, k)).len() <= dedup(s).len(),
        forall|i: int| 0 <= i < dedup(s.subrange(0, k)).len() ==> dedup(s.subrange(0, k))[i] == dedup(s)[i],
    decreases s.len(),
{
    if k == s.len() {
        assert(s.subrange(0, k) =~= s);
    } else {
        lemma_dedup_prefix(s.drop_last(), k);
        assert(s.drop_last().subrange(0, k) =~= s.subrange(0, k));
    }
}

/// With a resource directory given, the candidate roots begin with that
/// directory and then its `resources` subdirectory, and hold no path twice.
pub proof fn resource_dir_leads_roots(resource_dir: Seq<char>, app_dir: Seq<char>, platform: Platform)
    ensures
        dedup(root_candidates(Some(resource_dir), app_dir, platform)).len() >= 2,
        dedup(root_candidates(Some(resource_dir), app_dir, platform))[0] == resource_dir,
        dedup(root_candidates(Some(resource_dir), app_dir, platform))[1] == join_spec(
            resource_dir,
            RESOURCES_DIR@,
            platform,
        ),
        no_repeats(dedup(root_candidates(Some(resource_dir), app_dir, platform))),
{
    let c = root_candidates(Some(resource_dir), app_dir, platform);
    let nested = join_spec(resource_dir, RESOURCES_DIR@, platform);
    reveal_strlit("resources");
    assert(nested.len() > resource_dir.len());
    let head = c.subrange(0, 2);
    assert(head =~= seq![resource_dir, nested]);
    assert(head.drop_last() =~= seq![resource_dir]);
    assert(seq![resource_dir].drop_last() =~= Seq::<Seq<char>>::empty());
    let empty = Seq::<Seq<char>>::empty();
    assert(dedup(empty) =~= empty);
    assert(!empty.contains(resource_dir));
    assert(empty.push(resource_dir) =~= seq![resource_dir]);
    assert(dedup(seq![resource_dir]) =~= seq![resource_dir]);
    assert(!seq![resource_dir].contains(nested)) by {
        if seq![resource_dir].contains(nested) {
            assert(seq![resource_dir][0] == nested);
        }
    }
    assert(dedup(head) =~= seq![resource_dir, nested]);
    lemma_dedup_prefix(c, 2);
    lemma_dedup_no_repeats(c);
}

/// What was found on disk under one candidate root.
#[derive(Debug, Clone, Copy, PartialEq, Eq, Structural)]
pub struct FileProbe {
    /// Whether the interpreter exists under the root.
    pub interpreter: bool,
    /// Whether the payload exists under the root.
    pub payload: bool,
}

pub open spec fn interpreter_name(platform: Platform) -> Seq<char> {
    if platform == Platform::Windows {
        "java.exe"@
    } else {
        "java"@
    }
}

/// `{root}/jre/bin/java`, with `.exe` on Windows.
pub open spec fn java_path_spec(root: Seq<char>, platform: Platform) -> Seq<char> {
    join_spec(
        join_spec(join_spec(root, "jre"@, platform), "bin"@, platform),
        interpreter_name(platform),
        platform,
    )
}

/// `{root}/bin/Suwayomi-Server.jar`.
pub open spec fn payload_path_spec(root: Seq<char>, platform: Platform) -> Seq<char> {
    join_spec(join_spec(root, "bin"@, platform), PAYLOAD_NAME@, platform)
}

/// The interpreter's path under the candidate root `app_dir`.
pub fn java_binary_path(app_dir: &str, platform: Platform) -> (r: String)
    ensures
        r@ == java_path_spec(app_dir@, platform),
{
    let jre = join_path(app_dir, "jre", platform);
    let bin = join_path(jre.as_str(), "bin", platform);
    if platform == Platform::Windows {
        join_path(bin.as_str(), "java.exe", platform)
    } else {
        join_path(bin.as_str(), "java", platform)
    }
}

/// The payload's path under the candidate root `root`.
pub fn payload_path(root: &str, platform: Platform) -> (r: String)
    ensures
        r@ == payload_path_spec(root@, platform),
{
    let bin = join_path(root, "bin", platform);
    join_path(bin.as_str(), PAYLOAD_NAME, platform)
}

pub open spec fn ready(p: FileProbe) -> bool {
    p.interpreter && p.payload
}

/// `i` is the first index whose root holds both files.
pub open spec fn first_ready(probes: Seq<FileProbe>, i: int) -> bool {
    0 <= i < probes.len() && ready(probes[i]) && forall|j: int| 0 <= j < i ==> !ready(#[trigger] probes[j])
}

/// `i` is the first index whose root lacks the interpreter.
pub open spec fn first_without_interpreter(probes: Seq<FileProbe>, i: int) -> bool {
    0 <= i < probes.len() && !probes[i].interpreter && forall|j: int|
        0 <= j < i ==> (#[trigger] probes[j]).interpreter
}

/// `i` is the first index whose root has the interpreter but lacks the
/// payload.
pub open spec fn first_without_payload(probes: Seq<FileProbe>, i: int) -> bool {
    0 <= i < probes.len() && probes[i].interpreter && !probes[i].payload && forall|j: int|
        0 <= j < i ==> ((#[trigger] probes[j]).interpreter ==> probes[j].payload)
}

/// The error of a search in which no root holds both files: the first
/// missing interpreter if any root lacks one, else the first missing payload,
/// else (no roots at all) a missing executable.
pub open spec fn search_error(roots: Seq<Seq<char>>, probes: Seq<FileProbe>, platform: Platform, e: LauncherError) -> bool {
    if exists|i: int| first_without_interpreter(probes, i) {
        exists|i: int|
            first_without_interpreter(probes, i) && (e matches LauncherError::MissingFile(f) && f@
                == java_path_spec(roots[i], platform))
    } else if exists|i: int| first_without_payload(probes, i) {
        exists|i: int|
            first_without_payload(probes, i) && (e matches LauncherError::MissingFile(f) && f@
                == payload_path_spec(roots[i], platform))
    } else {
        e matches LauncherError::MissingExecutable
    }
}

/// The first root, in order, whose probe found both the interpreter and the
/// payload, with the interpreter's and the payload's paths. `probes[i]` says
/// what exists under `roots[i]`.
pub fn find_runtime_paths(roots: Vec<String>, probes: &Vec<FileProbe>, platform: Platform) -> (r: Result<(String, String, String), LauncherError>)
    requires
        probes@.len() == roots@.len(),
    ensures
        r is Ok <==> exists|i: int| 0 <= i < probes@.len() && ready(probes@[i]),
        r matches Ok(t) ==> exists|i: int|
            first_ready(probes@, i) && t.0@ == roots@[i]@ && t.1@ == java_path_spec(roots@[i]@, platform)
                && t.2@ == payload_path_spec(roots@[i]@, platform),
        r matches Err(e) ==> search_error(paths_view(roots@), probes@, platform, e),
{
    let ghost pv = paths_view(roots@);
    let mut first_missing_java: Option<String> = None;
    let mut first_missing_jar: Option<String> = None;
    let ghost mut java_at: int = 0;
    let ghost mut jar_at: int = 0;
    let n = roots.len();
    let mut i: usize = 0;
    while i < n
        invariant
            n == roots@.len(),
            n == probes@.len(),
            pv == paths_view(roots@),
            i <= n,
            forall|j: int| 0 <= j < i ==> !ready(#[trigger] probes@[j]),
            match first_missing_java {
                Some(f) => first_without_interpreter(probes@, java_at) && java_at < i && f@
                    == java_path_spec(pv[java_at], platform),
                None => forall|j: int| 0 <= j < i ==> (#[trigger] probes@[j]).interpreter,
            },
            match first_missing_jar {
                Some(f) => first_without_payload(probes@, jar_at) && jar_at < i && f@
                    == payload_path_spec(pv[jar_at], platform),
                None => forall|j: int| 0 <= j < i ==> ((#[trigger] probes@[j]).interpreter ==> probes@[j].payload),
            },
        decreases n - i,
    {
        let probe = probes[i];
        let root = roots[i].as_str();
        assert(root@ == pv[i as int]);
        if !probe.interpreter {
            if first_missing_java.is_none() {
                first_missing_java = Some(java_binary_path(root, platform));
                proof { java_at = i as int; }
            }
            i = i + 1;
            continue;
        }
        if !probe.payload {
            if first_missing_jar.is_none() {
                first_missing_jar = Some(payload_path(root, platform));
                proof { jar_at = i as int; }
            }
            i = i + 1;
            continue;
        }
        let java_bin = java_binary_path(root, platform);
        let jar_file = payload_path(root, platform);
        let found = String::from_str(root);
        assert(first_ready(probes@, i as int));
        return Ok((found, java_bin, jar_file));
    }
    if let Some(java_path) = first_missing_java {
        assert(first_without_interpreter(probes@, java_at));
        return Err(LauncherError::MissingFile(java_path));
    }
    if let Some(jar_path) = first_missing_jar {
        assert(!exists|k: int| first_without_interpreter(probes@, k));
        assert(first_without_payload(probes@, jar_at));
        return Err(LauncherError::MissingFile(jar_path));
    }
    assert(!exists|k: int| first_without_interpreter(probes@, k));
    assert(!exists|k: int| first_without_payload(probes@, k));
    Err(LauncherError::MissingExecutable)
}

/// When no root has the interpreter, the search reports the interpreter
/// missing under the first root.
pub proof fn missing_interpreters_report_first_root(
    roots: Seq<Seq<char>>,
    probes: Seq<FileProbe>,
    platform: Platform,
    e: LauncherError,
)
    requires
        probes.len() == roots.len(),
        probes.len() > 0,
        forall|i: int| 0 <= i < probes.len() ==> !(#[trigger] probes[i]).interpreter,
        search_error(roots, probes, platform, e),
    ensures
        e matches LauncherError::MissingFile(f) && f@ == java_path_spec(roots[0], platform),
{
    assert(first_without_interpreter(probes, 0));
    let i = choose|i: int|
        first_without_interpreter(probes, i) && (e matches LauncherError::MissingFile(f) && f@
            == java_path_spec(roots[i], platform));
    if i > 0 {
        assert(probes[0].interpreter);
    }
}

/// When every root has the interpreter and none has the payload, the search
/// reports the payload missing under the first root.
pub proof fn missing_payloads_report_first_root(
    roots: Seq<Seq<char>>,
    probes: Seq<FileProbe>,
    platform: Platform,
    e: LauncherError,
)
    requires
        probes.len() == roots.len(),
        probes.len() > 0,
        forall|i: int| 0 <= i < probes.len() ==> (#[trigger] probes[i]).interpreter && !probes[i].payload,
        search_error(roots, probes, platform, e),
    ensures
        e matches LauncherError::MissingFile(f) && f@ == payload_path_spec(roots[0], platform),
{
    assert(first_without_payload(probes, 0));
    assert(!exists|k: int| first_without_interpreter(probes, k));
    let i = choose|i: int|
        first_without_payload(probes, i) && (e matches LauncherError::MissingFile(f) && f@
            == payload_path_spec(roots[i], platform));
    if i > 0 {
        assert(probes[0].payload);
    }
}

/// When exactly one root holds both files, that root is the one the search
/// picks.
pub proof fn single_ready_root_is_chosen(probes: Seq<FileProbe>, k: int)
    requires
        0 <= k < probes.len(),
        ready(probes[k]),
        forall|j: int| 0 <= j < probes.len() && j != k ==> !ready(#[trigger] probes[j]),
    ensures
        first_ready(probes, k),
        forall|i: int| #[trigger] first_ready(probes, i) ==> i == k,
{
}

} // verus!
