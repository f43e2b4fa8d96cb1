use redo::cache::{lookup, targets_of, upsert, CacheDocument};
use redo::dependency::Dependency;
use redo::fingerprint::fingerprint;
use redo::outcome::{BuildError, ExitOutcome};
use redo::target::{base_name, BuildPlan, Redo, Target};

const HELLO_SCRIPT: &[u8] = b"printf hello > \"$3\"\n";
const HELLO_DIGEST: &str = "5fbee1d85947c4f062a2ed813329cb5d";
const WORLD_SCRIPT: &[u8] = b"printf world > \"$3\"\n";
const WORLD_DIGEST: &str = "646bad2cdcef02185b7556eb6fd88e3a";

fn dep(name: &str, hash: &str) -> Dependency {
    Dependency { name: name.to_string(), hash: hash.to_string() }
}

fn expect_build(r: Result<Redo, BuildError>) -> BuildPlan {
    match r {
        Ok(Redo::Build(plan)) => plan,
        Ok(Redo::UpToDate) => panic!("expected a build, found up to date"),
        Err(e) => panic!("expected a build, found {:?}", e),
    }
}

fn first_build(cache: &mut Vec<Target>) -> BuildPlan {
    let t = Target::load(cache, "out.txt");
    expect_build(t.redo(cache, true, &vec![Some(HELLO_SCRIPT.to_vec())]))
}

#[test]
fn first_build_records_script_fingerprint() {
    let mut cache: Vec<Target> = Vec::new();
    let plan = first_build(&mut cache);
    assert_eq!(plan.script, "out.txt.do");
    assert_eq!(plan.base_name, "out.txt");
    let expected = Target { path: "out.txt".to_string(), dependencies: vec![dep("out.txt.do", HELLO_DIGEST)] };
    assert_eq!(plan.target, expected);
    assert_eq!(cache, vec![expected]);
}

#[test]
fn second_build_is_up_to_date() {
    let mut cache: Vec<Target> = Vec::new();
    first_build(&mut cache);
    let before = cache.clone();
    let t = Target::load(&cache, "out.txt");
    let r = t.redo(&mut cache, true, &vec![Some(HELLO_SCRIPT.to_vec())]);
    assert!(matches!(r, Ok(Redo::UpToDate)));
    assert_eq!(cache, before);
}

#[test]
fn changed_script_rebuilds() {
    let mut cache: Vec<Target> = Vec::new();
    first_build(&mut cache);
    let t = Target::load(&cache, "out.txt");
    let plan = expect_build(t.redo(&mut cache, true, &vec![Some(WORLD_SCRIPT.to_vec())]));
    assert_eq!(plan.target.dependencies, vec![dep("out.txt.do", WORLD_DIGEST)]);
    assert_eq!(cache.len(), 1);
    assert_eq!(cache[0].dependencies, vec![dep("out.txt.do", WORLD_DIGEST)]);
}

#[test]
fn failing_script_is_an_error() {
    let outcome = ExitOutcome::from_code(Some(1));
    assert_eq!(outcome, ExitOutcome::Failure(1));
    assert_eq!(outcome.into_result(), Err(BuildError::BuildScriptFailed(1)));
}

#[test]
fn successful_script_is_published() {
    let outcome = ExitOutcome::from_code(Some(0));
    assert_eq!(outcome, ExitOutcome::Success);
    assert_eq!(outcome.into_result(), Ok(()));
}

#[test]
fn script_without_exit_code_fails_with_one() {
    assert_eq!(ExitOutcome::from_code(None), ExitOutcome::Failure(1));
    assert_eq!(ExitOutcome::from_code(Some(-3)).into_result(), Err(BuildError::BuildScriptFailed(-3)));
}

#[test]
fn missing_script_is_reported() {
    let mut cache: Vec<Target> = Vec::new();
    let t = Target::load(&cache, "out.txt");
    let r = t.redo(&mut cache, false, &vec![None]);
    assert!(matches!(r, Err(BuildError::MissingScript(ref s)) if s == "out.txt.do"));
    assert!(cache.is_empty());
}

#[test]
fn unrecorded_target_gets_script_dependency() {
    let cache = vec![Target { path: "other".to_string(), dependencies: vec![dep("other.do", "x")] }];
    let t = Target::load(&cache, "out.txt");
    assert_eq!(t.path, "out.txt");
    assert_eq!(t.dependencies, vec![dep("out.txt.do", "")]);
}

#[test]
fn recorded_target_keeps_its_dependencies() {
    let recorded = Target {
        path: "out.txt".to_string(),
        dependencies: vec![dep("in.txt", "abc"), dep("out.txt.do", "def")],
    };
    let cache = vec![recorded.clone()];
    assert_eq!(Target::load(&cache, "out.txt"), recorded);
}

#[test]
fn recorded_target_without_script_gets_it_appended() {
    let cache = vec![Target { path: "out.txt".to_string(), dependencies: vec![dep("in.txt", "abc")] }];
    let t = Target::load(&cache, "out.txt");
    assert_eq!(t.dependencies, vec![dep("in.txt", "abc"), dep("out.txt.do", "")]);
}

#[test]
fn any_changed_dependency_refreshes_all() {
    let mut cache = vec![Target {
        path: "out.txt".to_string(),
        dependencies: vec![dep("in.txt", "stale"), dep("out.txt.do", HELLO_DIGEST)],
    }];
    let t = Target::load(&cache, "out.txt");
    let plan = expect_build(t.redo(&mut cache, true, &vec![Some(Vec::new()), Some(HELLO_SCRIPT.to_vec())]));
    let refreshed = vec![dep("in.txt", "d41d8cd98f00b204e9800998ecf8427e"), dep("out.txt.do", HELLO_DIGEST)];
    assert_eq!(plan.target.dependencies, refreshed);
    assert_eq!(cache[0].dependencies, refreshed);
}

#[test]
fn unreadable_script_with_empty_record_is_up_to_date() {
    let mut cache: Vec<Target> = Vec::new();
    let t = Target::load(&cache, "out.txt");
    assert!(matches!(t.redo(&mut cache, true, &vec![None]), Ok(Redo::UpToDate)));
}

#[test]
fn fingerprint_is_hex_md5_or_empty() {
    assert_eq!(fingerprint(&Some(Vec::new())), "d41d8cd98f00b204e9800998ecf8427e");
    assert_eq!(fingerprint(&Some(HELLO_SCRIPT.to_vec())), HELLO_DIGEST);
    assert_eq!(fingerprint(&None), "");
}

#[test]
fn dependency_update_and_check() {
    let mut d = Dependency::new("in.txt".to_string());
    assert_eq!(d.hash, "");
    let content = Some(b"abc".to_vec());
    assert!(d.needs_update(&content));
    assert_eq!(d.compute_hash(&content), "900150983cd24fb0d6963f7d28e17f72");
    d.update_hash(&content);
    assert_eq!(d.hash, "900150983cd24fb0d6963f7d28e17f72");
    assert!(!d.needs_update(&content));
    assert!(d.needs_update(&None));
}

#[test]
fn target_without_dependencies_needs_update() {
    let t = Target::new("out.txt".to_string());
    assert!(t.needs_update(&Vec::new()));
}

#[test]
fn target_needs_update_when_one_dependency_changed() {
    let t = Target {
        path: "out.txt".to_string(),
        dependencies: vec![dep("out.txt.do", HELLO_DIGEST), dep("in.txt", "")],
    };
    assert!(!t.needs_update(&vec![Some(HELLO_SCRIPT.to_vec()), None]));
    assert!(t.needs_update(&vec![Some(HELLO_SCRIPT.to_vec()), Some(Vec::new())]));
}

#[test]
fn base_name_strips_directories() {
    assert_eq!(base_name(&"dir/sub/out.txt".to_string()), "out.txt");
    assert_eq!(base_name(&"out.txt".to_string()), "out.txt");
    assert_eq!(base_name(&"dir/".to_string()), "");
    assert_eq!(base_name(&String::new()), "");
}

#[test]
fn do_file_path_appends_suffix() {
    let t = Target::new("dir/out.txt".to_string());
    assert_eq!(t.do_file_path(), "dir/out.txt.do");
}

#[test]
fn upsert_replaces_or_appends() {
    let a = Target { path: "a".to_string(), dependencies: vec![dep("a.do", "1")] };
    let b = Target { path: "b".to_string(), dependencies: vec![dep("b.do", "2")] };
    let a2 = Target { path: "a".to_string(), dependencies: vec![dep("a.do", "3")] };
    let mut cache = vec![a, b.clone()];
    upsert(&mut cache, a2.clone());
    assert_eq!(cache, vec![a2.clone(), b.clone()]);
    let c = Target::new("c".to_string());
    upsert(&mut cache, c.clone());
    assert_eq!(cache, vec![a2, b, c]);
}

#[test]
fn recorded_target_round_trips() {
    let t = Target { path: "out.txt".to_string(), dependencies: vec![dep("x", "1"), dep("out.txt.do", "2")] };
    let mut cache: Vec<Target> = vec![Target::new("y".to_string())];
    upsert(&mut cache, t.clone());
    assert_eq!(lookup(&cache, &"out.txt".to_string()), Some(t));
    assert_eq!(lookup(&cache, &"z".to_string()), None);
}

#[test]
fn cache_document_states() {
    assert_eq!(targets_of(CacheDocument::Absent), Ok(Vec::new()));
    assert_eq!(targets_of(CacheDocument::Malformed), Err(BuildError::CorruptCache));
    let v = vec![Target::new("a".to_string())];
    assert_eq!(targets_of(CacheDocument::Parsed(v.clone())), Ok(v));
}
