//! Script cache keys and cache resolution.
//!
//! A prompt is turned into a filesystem-safe key by replacing every
//! reserved character with an underscore; the script for a prompt lives at
//! a fixed path derived from that key. Resolution first looks the path up
//! in the set of already persisted scripts and only asks for a freshly
//! generated script when the path is absent.

use vstd::prelude::*;
use vstd::string::StrSliceExecFns;
use vstd::string::StringExecFns;

verus! {

/// Characters that may not appear in a cache file name.
pub open spec fn is_reserved_char(c: char) -> bool {
    ||| c == '/'
    ||| c == '\\'
    ||| c == ':'
    ||| c == '*'
    ||| c == '?'
    ||| c == '"'
    ||| c == '<'
    ||| c == '>'
    ||| c == '|'
    ||| c == '\0'
}

/// The sanitized form of a name: reserved characters become underscores,
/// every other character stays in place.
pub open spec fn sanitize_spec(name: Seq<char>) -> Seq<char> {
    name.map_values(|c: char| if is_reserved_char(c) { '_' } else { c })
}

/// Decides whether `c` is reserved in a file name.
pub fn is_reserved(c: char) -> (r: bool)
    ensures
        r == is_reserved_char(c),
{
    c == '/' || c == '\\' || c == ':' || c == '*' || c == '?' || c == '"' || c == '<' || c == '>'
        || c == '|' || c == '\0'
}

/// Replaces every reserved character of `filename` with an underscore.
pub fn sanitize_filename(filename: &str) -> (safe: String)
    ensures
        safe@ == sanitize_spec(filename@),
{
    let n: usize = filename.unicode_len();
    let mut safe = String::new();
    let mut i: usize = 0;
    while i < n
        invariant
            i <= n,
            n == filename@.len(),
            safe@ == sanitize_spec(filename@.take(i as int)),
        decreases n - i,
    {
        let c = filename.get_char(i);
        if is_reserved(c) {
            safe.append("_");
            proof {
                reveal_strlit("_");
            }
        } else {
            let piece = filename.substring_char(i, i + 1);
            safe.append(piece);
        }
        i = i + 1;
        proof {
            assert(safe@ =~= sanitize_spec(filename@.take(i as int)));
        }
    }
    proof {
        assert(filename@.take(n as int) =~= filename@);
    }
    safe
}

/// The cache path that belongs to a prompt: a fixed directory, the
/// sanitized prompt as the file name, and a fixed extension.
pub open spec fn script_path_spec(prompt: Seq<char>) -> Seq<char> {
    "./scripts/"@ + sanitize_spec(prompt) + ".js"@
}

/// Builds the cache path for `prompt`.
pub fn script_path_for(prompt: &str) -> (path: String)
    ensures
        path@ == script_path_spec(prompt@),
{
    let mut path = String::from_str("./scripts/");
    let safe = sanitize_filename(prompt);
    path.append(safe.as_str());
    path.append(".js");
    path
}

/// Outcome of one cache lookup: the script is already persisted at the
/// returned path, or it is absent and must be generated before anything
/// can be written there.
pub enum Resolution {
    Cached(String),
    Absent(String),
}

/// What one resolution does to the set of persisted paths: the resulting
/// set, the path handed back, and how many collaborator calls it costs.
pub open spec fn resolve_spec(paths: Set<Seq<char>>, prompt: Seq<char>) -> (Set<Seq<char>>, Seq<
    char,
>, nat) {
    let path = script_path_spec(prompt);
    if paths.contains(path) {
        (paths, path, 0)
    } else {
        (paths.insert(path), path, 1)
    }
}

/// Once a prompt's script is persisted, resolving the same prompt again
/// costs no collaborator call, returns the same path, and leaves the set
/// of persisted scripts unchanged.
pub proof fn lemma_second_resolve_costs_nothing(paths: Set<Seq<char>>, prompt: Seq<char>)
    ensures
        ({
            let (paths1, path1, _calls1) = resolve_spec(paths, prompt);
            let (paths2, path2, calls2) = resolve_spec(paths1, prompt);
            &&& calls2 == 0
            &&& path2 == path1
            &&& paths2 == paths1
        }),
{
    let path = script_path_spec(prompt);
    assert(resolve_spec(paths, prompt).0.contains(path));
}

/// The set of script paths already persisted in the cache directory.
pub struct ScriptStore {
    pub paths: Vec<String>,
}

impl ScriptStore {
    /// The paths present in the store.
    pub open spec fn key_set(self) -> Set<Seq<char>> {
        self.paths.deep_view().to_set()
    }

    /// An empty store: no script has been persisted yet.
    pub fn new() -> (store: ScriptStore)
        ensures
            store.key_set() == Set::<Seq<char>>::empty(),
    {
        let store = ScriptStore { paths: Vec::new() };
        proof {
            assert(store.key_set() =~= Set::<Seq<char>>::empty());
        }
        store
    }

    /// Decides whether a script is already persisted at `path`.
    pub fn contains_path(&self, path: &String) -> (present: bool)
        ensures
            present == self.key_set().contains(path@),
    {
        let n: usize = self.paths.len();
        let mut j: usize = 0;
        while j < n
            invariant
                j <= n,
                n == self.paths@.len(),
                forall|k: int| 0 <= k < j ==> self.paths.deep_view()[k] != path@,
            decreases n - j,
        {
            if self.paths[j].eq(path) {
                proof {
                    assert(self.paths.deep_view()[j as int] == path@);
                }
                return true;
            }
            j = j + 1;
        }
        proof {
            assert(!self.paths.deep_view().contains(path@));
        }
        false
    }

    /// Records that a script now sits at `path`.
    pub fn record_path(&mut self, path: String)
        ensures
            final(self).key_set() == old(self).key_set().insert(path@),
    {
        let ghost before = self.paths.deep_view();
        self.paths.push(path);
        proof {
            assert(self.paths.deep_view() =~= before.push(path@));
            before.lemma_push_to_set_commute(path@);
            assert(self.key_set() =~= old(self).key_set().insert(path@));
        }
    }

    /// Resolves `prompt` against the store: hands back the prompt's cache
    /// path, marked as already persisted or as absent. Exactly the absent
    /// case costs a collaborator call.
    pub fn resolve(&self, prompt: &str) -> (r: Resolution)
        ensures
            ({
                let (paths_after, path, calls) = resolve_spec(self.key_set(), prompt@);
                match r {
                    Resolution::Cached(p) => p@ == path && calls == 0 && paths_after
                        == self.key_set(),
                    Resolution::Absent(p) => p@ == path && calls == 1 && paths_after
                        == self.key_set().insert(path),
                }
            }),
    {
        let path = script_path_for(prompt);
        if self.contains_path(&path) {
            Resolution::Cached(path)
        } else {
            Resolution::Absent(path)
        }
    }
}

} // verus!
