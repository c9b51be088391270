//! Path construction: where the persisted documents live, where a mod's
//! canonical copy is stored, and where its mirrored copy goes while it is
//! active. Paths are plain strings joined with the `/` separator.

use vstd::prelude::*;
use vstd::string::{StrSliceExecFns, StringExecFns};

verus! {

/// `base` and `name` joined with the `/` separator.
pub fn join_path(base: &str, name: &str) -> (r: String)
    ensures
        r@ == base@ + "/"@ + name@,
{
    let mut s = String::from_str(base);
    s.append("/");
    s.append(name);
    s
}

/// The application's private directory under the platform's configuration
/// base.
pub fn app_dir_under(base: &str) -> (r: String)
    ensures
        r@ == base@ + "/"@ + "aether-manager"@,
{
    join_path(base, "aether-manager")
}

/// The directory under the configuration root that holds the mod storage
/// and both collection documents.
pub fn mods_dir(config_root: &str) -> (r: String)
    ensures
        r@ == config_root@ + "/"@ + "mods"@,
{
    join_path(config_root, "mods")
}

/// The mod collection's document, directly under the mods directory.
pub fn mods_db_file(mods_dir: &str) -> (r: String)
    ensures
        r@ == mods_dir@ + "/"@ + "mods.json"@,
{
    join_path(mods_dir, "mods.json")
}

/// The preset collection's document, directly under the mods directory.
pub fn presets_db_file(mods_dir: &str) -> (r: String)
    ensures
        r@ == mods_dir@ + "/"@ + "presets.json"@,
{
    join_path(mods_dir, "presets.json")
}

/// The settings document, directly under the configuration root.
pub fn settings_file(config_root: &str) -> (r: String)
    ensures
        r@ == config_root@ + "/"@ + "settings.json"@,
{
    join_path(config_root, "settings.json")
}

/// Where a mod's canonical copy belongs: a per-character directory for a
/// tagged mod, the shared directory for an untagged one.
pub open spec fn spec_storage_dir(root: Seq<char>, character: Option<Seq<char>>) -> Seq<char> {
    match character {
        Some(c) => root + "/characters/"@ + c,
        None => root + "/othermods"@,
    }
}

/// The storage directory for a mod with the given grouping tag.
pub fn storage_dir(root: &str, character: &Option<String>) -> (r: String)
    ensures
        r@ == spec_storage_dir(root@, character.deep_view()),
{
    match character {
        Some(c) => {
            let mut s = String::from_str(root);
            s.append("/characters/");
            s.append(c.as_str());
            s
        }
        None => {
            let mut s = String::from_str(root);
            s.append("/othermods");
            s
        }
    }
}

/// `i` is the position of the last `/` in `s`.
pub open spec fn is_last_separator(s: Seq<char>, i: int) -> bool {
    &&& 0 <= i < s.len()
    &&& s[i] == '/'
    &&& forall|j: int| i < j < s.len() ==> s[j] != '/'
}

/// The part of `s` after its last `/`; the whole of `s` when it holds
/// none.
pub open spec fn spec_basename(s: Seq<char>) -> Seq<char> {
    if exists|i: int| is_last_separator(s, i) {
        let i = choose|i: int| is_last_separator(s, i);
        s.subrange(i + 1, s.len() as int)
    } else {
        s
    }
}

/// Two positions of the last separator are the same position.
proof fn lemma_last_separator_unique(s: Seq<char>, a: int, b: int)
    requires
        is_last_separator(s, a),
        is_last_separator(s, b),
    ensures
        a == b,
{
    if a < b {
        assert(s[b] != '/');
    }
    if b < a {
        assert(s[a] != '/');
    }
}

/// The base name of a path: the characters after the last `/` separator.
pub fn basename_of(path: &str) -> (r: String)
    ensures
        r@ == spec_basename(path@),
{
    let n = path.unicode_len();
    let mut i: usize = n;
    while i > 0
        invariant
            i <= n,
            n == path@.len(),
            forall|j: int| i <= j < n ==> path@[j] != '/',
        decreases i,
    {
        if path.get_char(i - 1) == '/' {
            let r = path.substring_char(i, n);
            proof {
                assert(is_last_separator(path@, i - 1));
                let w = choose|w: int| is_last_separator(path@, w);
                lemma_last_separator_unique(path@, w, i - 1);
            }
            return String::from_str(r);
        }
        i -= 1;
    }
    proof {
        assert(forall|j: int| 0 <= j < n ==> path@[j] != '/');
        assert(!(exists|w: int| is_last_separator(path@, w)));
    }
    String::from_str(path)
}

/// The name under which an installed source is stored and mirrored: its
/// base name, or `unknown` for a source whose path yields an empty one
/// (an empty path, or one that ends in the separator).
pub open spec fn spec_original_name(s: Seq<char>) -> Seq<char> {
    if spec_basename(s).len() == 0 {
        "unknown"@
    } else {
        spec_basename(s)
    }
}

/// The stored and mirrored name for a source path.
pub fn original_name_of(path: &str) -> (r: String)
    ensures
        r@ == spec_original_name(path@),
{
    let b = basename_of(path);
    if b.as_str().unicode_len() == 0 {
        String::from_str("unknown")
    } else {
        b
    }
}

} // verus!
