use gpt_pipe::cache::Resolution;
use gpt_pipe::cache::ScriptStore;
use gpt_pipe::cache::sanitize_filename;
use gpt_pipe::cache::script_path_for;

#[test]
fn sanitize_keeps_plain_names() {
    assert_eq!(sanitize_filename("uppercase"), "uppercase");
    assert_eq!(sanitize_filename(""), "");
    assert_eq!(sanitize_filename("sum of col 2"), "sum of col 2");
}

#[test]
fn sanitize_replaces_every_reserved_character() {
    assert_eq!(sanitize_filename("a/b\\c:d*e?f\"g<h>i|j"), "a_b_c_d_e_f_g_h_i_j");
    assert_eq!(sanitize_filename("/\\:*?\"<>|"), "_________");
    assert_eq!(sanitize_filename("nul\0byte"), "nul_byte");
}

#[test]
fn sanitize_collides_on_reserved_differences() {
    assert_eq!(sanitize_filename("a/b"), sanitize_filename("a:b"));
}

#[test]
fn path_is_derived_from_sanitized_prompt() {
    assert_eq!(script_path_for("uppercase"), "./scripts/uppercase.js");
    assert_eq!(script_path_for("a/b"), "./scripts/a_b.js");
}

#[test]
fn resolve_misses_then_hits_without_second_generation() {
    let mut store = ScriptStore::new();
    let first = store.resolve("uppercase");
    let path = match first {
        Resolution::Absent(p) => {
            assert_eq!(p, "./scripts/uppercase.js");
            p
        }
        Resolution::Cached(_) => panic!("an empty store reported a cached script"),
    };
    store.record_path(path.clone());
    match store.resolve("uppercase") {
        Resolution::Cached(p) => assert_eq!(p, path),
        Resolution::Absent(_) => panic!("a recorded script was not found"),
    }
    match store.resolve("uppercase") {
        Resolution::Cached(p) => assert_eq!(p, path),
        Resolution::Absent(_) => panic!("a cache hit was not stable"),
    }
}

#[test]
fn resolve_distinguishes_prompts_with_distinct_keys() {
    let mut store = ScriptStore::new();
    store.record_path(script_path_for("uppercase"));
    match store.resolve("lowercase") {
        Resolution::Absent(p) => assert_eq!(p, "./scripts/lowercase.js"),
        Resolution::Cached(_) => panic!("an absent script was reported cached"),
    }
}

#[test]
fn contains_path_sees_only_recorded_paths() {
    let mut store = ScriptStore::new();
    let path = "./scripts/x.js".to_string();
    assert!(!store.contains_path(&path));
    store.record_path(path.clone());
    assert!(store.contains_path(&path));
    assert!(!store.contains_path(&"./scripts/y.js".to_string()));
}
