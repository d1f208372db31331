use heavy::package::{
    candidate_paths, module_file_path, module_not_found_message, ModuleCache, ModuleSearch,
    SearchStep, HV_DEFAULT_PATH,
};

#[test]
fn default_path_candidates() {
    let paths = candidate_paths(HV_DEFAULT_PATH, "foo.bar");
    assert_eq!(
        paths,
        vec![
            "/foo/bar.lua".to_string(),
            "/foo/bar/init.lua".to_string(),
            "/scripts/foo/bar.lua".to_string(),
            "/scripts/foo/bar/init.lua".to_string(),
        ]
    );
}

#[test]
fn candidates_keep_empty_patterns() {
    assert_eq!(candidate_paths("", "m"), vec!["".to_string()]);
    assert_eq!(
        candidate_paths("a::?", "x.y"),
        vec!["a".to_string(), "".to_string(), "x/y".to_string()]
    );
    assert_eq!(
        candidate_paths("??/?", "é.z"),
        vec!["é/zé/z/é/z".to_string()]
    );
}

#[test]
fn module_file_turns_dots_into_slashes() {
    assert_eq!(module_file_path("a.b.c"), "a/b/c");
    assert_eq!(module_file_path("plain"), "plain");
    assert_eq!(module_file_path(""), "");
}

#[test]
fn not_found_message_lists_tries() {
    let tried = vec!["no /a.lua".to_string(), "no /b.lua".to_string()];
    assert_eq!(
        module_not_found_message("a", &tried),
        "module a not found: no /a.lua\nno /b.lua\n"
    );
    assert_eq!(module_not_found_message("a", &Vec::new()), "module a not found: \n");
}

#[test]
fn module_cache_keeps_first_value() {
    let mut cache: ModuleCache<i32> = ModuleCache::new();
    assert_eq!(cache.get("a.b"), None);
    cache.record("a.b".to_string(), 1);
    assert_eq!(cache.get("a.b"), Some(&1));
    assert_eq!(cache.get("a"), None);
    // requiring it again does not replace the value
    cache.record("a.b".to_string(), 2);
    assert_eq!(cache.get("a.b"), Some(&1));
    cache.record("c".to_string(), 3);
    assert_eq!(cache.get("c"), Some(&3));
    assert_eq!(cache.get("a.b"), Some(&1));
    assert_eq!(cache.modules.len(), 2);
}

fn step_path(search: &ModuleSearch) -> Option<String> {
    match search.next_step() {
        SearchStep::Read(path) => Some(path),
        SearchStep::NotFound(_) => None,
    }
}

#[test]
fn module_search_reads_first_readable_place() {
    let mut search = ModuleSearch::new("/?.lua:/scripts/?.lua:/lib/?.lua", "a.b");
    assert_eq!(step_path(&search), Some("/a/b.lua".to_string()));
    search.read_failed("no /a/b.lua".to_string());
    assert_eq!(step_path(&search), Some("/scripts/a/b.lua".to_string()));
    let found = search.read_succeeded("return 1".to_string());
    assert_eq!(found.path, "/scripts/a/b.lua");
    assert_eq!(found.source, "return 1");
}

#[test]
fn module_search_lists_every_failure() {
    let mut search = ModuleSearch::new("/?.lua:/?/init.lua", "m");
    search.read_failed("first".to_string());
    search.read_failed("second".to_string());
    match search.next_step() {
        SearchStep::NotFound(message) => {
            assert_eq!(message, "module m not found: first\nsecond\n")
        }
        SearchStep::Read(path) => panic!("unexpected read of {}", path),
    }
}

#[test]
fn module_cache_require_runs_a_module_once() {
    let mut cache: ModuleCache<i32> = ModuleCache::new();
    let mut runs = 0;
    let first = cache
        .require("m".to_string(), |name: String| {
            runs += 1;
            assert_eq!(name, "m");
            Ok::<i32, String>(7)
        })
        .map(|v| *v);
    assert_eq!(first, Ok(7));
    let second = cache
        .require("m".to_string(), |_name: String| {
            runs += 1;
            Ok::<i32, String>(8)
        })
        .map(|v| *v);
    assert_eq!(second, Ok(7));
    assert_eq!(runs, 1);
    let failed = cache.require("bad".to_string(), |_name: String| Err::<i32, String>("boom".to_string()));
    assert_eq!(failed, Err("boom".to_string()));
    assert_eq!(cache.get("bad"), None);
}
