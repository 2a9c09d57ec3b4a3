//! Finding a runtime executable: override variables first, then the bare
//! command, then the platform's well-known locations and, on macOS, the
//! versions installed by the user's version manager, newest first.

use vstd::prelude::*;
use vstd::string::*;

use crate::error::SetupError;
use crate::text::{join, joined, trim, trimmed};

verus! {

broadcast use vstd::seq_lib::to_multiset_insert, vstd::seq_lib::to_multiset_build;

/// Override variable consulted first.
pub const NODE_BINARY_VAR: &'static str = "PETFLOW_NODE_BINARY";

/// Override variable consulted second.
pub const NODE_VAR: &'static str = "PETFLOW_NODE";

/// Operating-system family, which decides the well-known install locations.
#[derive(Clone, Copy, Debug, PartialEq, Eq, Structural)]
pub enum Platform {
    MacOs,
    Windows,
    Other,
}

/// Whether override value `i` is set to something other than whitespace.
pub open spec fn override_set(values: Seq<Option<String>>, i: int) -> bool {
    values[i] matches Some(v) && trimmed(v@).len() > 0
}

/// What the override variables decide.
#[derive(Debug)]
pub enum OverrideChoice {
    /// Override `index` is the first one set; `path` is its trimmed value.
    Use { index: usize, path: String },
    /// No override is set: the search goes on.
    Search,
}

/// Whether `c` is what the override values `values` (in priority order) decide.
pub open spec fn is_override_choice(values: Seq<Option<String>>, c: OverrideChoice) -> bool {
    match c {
        OverrideChoice::Use { index, path } => {
            &&& 0 <= index < values.len()
            &&& override_set(values, index as int)
            &&& (forall|j: int| 0 <= j < index ==> !override_set(values, j))
            &&& path@ == trimmed(values[index as int]->Some_0@)
        },
        OverrideChoice::Search => forall|j: int| 0 <= j < values.len() ==> !override_set(values, j),
    }
}

/// The first override value (in priority order) that is set and not blank.
pub fn choose_override(values: &Vec<Option<String>>) -> (r: OverrideChoice)
    ensures
        is_override_choice(values@, r),
{
    let mut i: usize = 0;
    while i < values.len()
        invariant
            i <= values@.len(),
            forall|j: int| 0 <= j < i ==> !override_set(values@, j),
        decreases values@.len() - i,
    {
        match &values[i] {
            Some(v) => {
                let t = trim(v.as_str());
                if t.unicode_len() > 0 {
                    return OverrideChoice::Use { index: i, path: t };
                }
            },
            None => {},
        }
        i = i + 1;
    }
    OverrideChoice::Search
}

/// What a chosen override leads to, given whether its path exists.
pub open spec fn override_result(key: Seq<char>, path: Seq<char>, exists: bool, r: Result<String, SetupError>) -> bool {
    if exists {
        r matches Ok(p) && p@ == path
    } else {
        r matches Err(SetupError::OverrideMissing { key: k, path: p }) && k@ == key && p@ == path
    }
}

/// An override pins the runtime: its path if it exists, an error otherwise,
/// never a fallback to the search.
pub fn settle_override(key: &str, path: String, exists: bool) -> (r: Result<String, SetupError>)
    ensures
        override_result(key@, path@, exists, r),
{
    if exists {
        Ok(path)
    } else {
        Err(SetupError::OverrideMissing { key: String::from_str(key), path })
    }
}

/// When some override is set, the choice is that override, and a path that
/// does not exist ends the resolution in an error: no search takes place.
pub proof fn lemma_missing_override_fails(
    values: Seq<Option<String>>,
    i: int,
    c: OverrideChoice,
    key: Seq<char>,
    r: Result<String, SetupError>,
)
    requires
        0 <= i < values.len(),
        override_set(values, i),
        is_override_choice(values, c),
        c matches OverrideChoice::Use { path, .. } && override_result(key, path@, false, r),
    ensures
        c !is Search,
        r is Err,
{
}

/// Lexicographic order of character sequences, by code point.
pub open spec fn lex_le(a: Seq<char>, b: Seq<char>) -> bool
    decreases a.len(),
{
    if a.len() == 0 {
        true
    } else if b.len() == 0 {
        false
    } else if (a[0] as u32) != (b[0] as u32) {
        (a[0] as u32) < (b[0] as u32)
    } else {
        lex_le(a.drop_first(), b.drop_first())
    }
}

pub proof fn lemma_lex_total(a: Seq<char>, b: Seq<char>)
    ensures
        lex_le(a, b) || lex_le(b, a),
    decreases a.len(),
{
    if a.len() > 0 && b.len() > 0 && (a[0] as u32) == (b[0] as u32) {
        lemma_lex_total(a.drop_first(), b.drop_first());
    }
}

pub proof fn lemma_lex_trans(a: Seq<char>, b: Seq<char>, c: Seq<char>)
    requires
        lex_le(a, b),
        lex_le(b, c),
    ensures
        lex_le(a, c),
    decreases a.len(),
{
    if a.len() > 0 && b.len() > 0 && c.len() > 0 && (a[0] as u32) == (b[0] as u32) && (b[0] as u32) == (c[0] as u32) {
        lemma_lex_trans(a.drop_first(), b.drop_first(), c.drop_first());
    }
}

/// Whether `a` comes no later than `b` in lexicographic order.
pub fn lex_less_eq(a: &str, b: &str) -> (r: bool)
    ensures
        r == lex_le(a@, b@),
{
    let n = a.unicode_len();
    let m = b.unicode_len();
    let mut i: usize = 0;
    assert(a@.subrange(0, n as int) =~= a@);
    assert(b@.subrange(0, m as int) =~= b@);
    while i < n && i < m && (a.get_char(i) as u32) == (b.get_char(i) as u32)
        invariant
            n == a@.len(),
            m == b@.len(),
            i <= n,
            i <= m,
            lex_le(a@, b@) == lex_le(a@.subrange(i as int, n as int), b@.subrange(i as int, m as int)),
        decreases n - i,
    {
        assert(a@.subrange(i as int + 1, n as int) =~= a@.subrange(i as int, n as int).drop_first());
        assert(b@.subrange(i as int + 1, m as int) =~= b@.subrange(i as int, m as int).drop_first());
        i = i + 1;
    }
    if i == n {
        true
    } else if i == m {
        false
    } else {
        (a.get_char(i) as u32) < (b.get_char(i) as u32)
    }
}

/// The character sequences of `s`.
pub open spec fn views(s: Seq<String>) -> Seq<Seq<char>> {
    s.map_values(|x: String| x@)
}

/// Whether `s` is ordered from the greatest to the least.
pub open spec fn is_descending(s: Seq<String>) -> bool {
    forall|k: int, l: int| 0 <= k < l < s.len() ==> lex_le(s[l]@, s[k]@)
}

/// The same paths ordered from the greatest to the least, so that the
/// newest installed version comes first.
pub fn newest_first(paths: Vec<String>) -> (r: Vec<String>)
    ensures
        is_descending(r@),
        r@.len() == paths@.len(),
        views(r@).to_multiset() == views(paths@).to_multiset(),
{
    let mut out: Vec<String> = Vec::new();
    let mut i: usize = 0;
    assert(paths@.subrange(0, 0) =~= out@);
    while i < paths.len()
        invariant
            i <= paths@.len(),
            is_descending(out@),
            out@.len() == i,
            views(out@).to_multiset() == views(paths@.subrange(0, i as int)).to_multiset(),
        decreases paths@.len() - i,
    {
        let x = paths[i].clone();
        let mut j: usize = 0;
        while j < out.len() && !lex_less_eq(out[j].as_str(), x.as_str())
            invariant
                j <= out@.len(),
                forall|k: int| 0 <= k < j ==> lex_le(x@, #[trigger] out@[k]@),
            decreases out@.len() - j,
        {
            proof {
                lemma_lex_total(out@[j as int]@, x@);
            }
            j = j + 1;
        }
        proof {
            if j < out@.len() {
                assert forall|k: int| j <= k < out@.len() implies lex_le(#[trigger] out@[k]@, x@) by {
                    if k > j {
                        lemma_lex_trans(out@[k]@, out@[j as int]@, x@);
                    }
                }
            }
        }
        let ghost before = out@;
        out.insert(j, x);
        proof {
            assert(views(paths@.subrange(0, i as int + 1)) =~= views(paths@.subrange(0, i as int)).push(x@));
            assert(views(out@) =~= views(before).insert(j as int, x@));
            assert forall|k: int, l: int| 0 <= k < l < out@.len() implies lex_le(out@[l]@, out@[k]@) by {
                if k < j && l > j {
                    assert(out@[k] == before[k]);
                    assert(out@[l] == before[l - 1]);
                    lemma_lex_trans(before[l - 1]@, x@, before[k]@);
                }
            }
        }
        i = i + 1;
    }
    assert(paths@.subrange(0, paths@.len() as int) =~= paths@);
    out
}

/// A place to look for the runtime.
#[derive(Clone, Debug)]
pub struct Candidate {
    pub path: String,
    /// Whether the path must exist on disk before it is tried; false for a
    /// bare command name, which the system looks up itself.
    pub must_exist: bool,
}

/// The bare command name of the runtime.
pub open spec fn bare_command() -> Seq<char> {
    ("node")@
}

/// The well-known install locations of `p`, in the order they are tried.
pub open spec fn well_known(p: Platform) -> Seq<Seq<char>> {
    match p {
        Platform::MacOs => seq![
            ("/opt/homebrew/bin/node")@,
            ("/usr/local/bin/node")@,
            ("/usr/bin/node")@,
        ],
        Platform::Windows => seq![
            ("C:\\Program Files\\nodejs\\node.exe")@,
            ("C:\\Program Files (x86)\\nodejs\\node.exe")@,
            ("C:\\ProgramData\\chocolatey\\bin\\node.exe")@,
        ],
        Platform::Other => seq![("/usr/local/bin/node")@, ("/usr/bin/node")@],
    }
}

/// The well-known install locations of `platform`.
pub fn well_known_paths(platform: Platform) -> (r: Vec<String>)
    ensures
        r@.len() == well_known(platform).len(),
        forall|k: int| 0 <= k < r@.len() ==> #[trigger] r@[k]@ == well_known(platform)[k],
{
    let mut v: Vec<String> = Vec::new();
    match platform {
        Platform::MacOs => {
            v.push(String::from_str("/opt/homebrew/bin/node"));
            v.push(String::from_str("/usr/local/bin/node"));
            v.push(String::from_str("/usr/bin/node"));
        },
        Platform::Windows => {
            v.push(String::from_str("C:\\Program Files\\nodejs\\node.exe"));
            v.push(String::from_str("C:\\Program Files (x86)\\nodejs\\node.exe"));
            v.push(String::from_str("C:\\ProgramData\\chocolatey\\bin\\node.exe"));
        },
        Platform::Other => {
            v.push(String::from_str("/usr/local/bin/node"));
            v.push(String::from_str("/usr/bin/node"));
        },
    }
    v
}

/// Directory holding one subdirectory per version installed by the
/// version manager, under the home directory `home`.
pub open spec fn nvm_root(home: Seq<char>) -> Seq<char> {
    joined(joined(joined(home, (".nvm")@), ("versions")@), ("node")@)
}

pub fn nvm_versions_dir(home: &str) -> (r: String)
    ensures
        r@ == nvm_root(home@),
{
    let a = join(home, ".nvm");
    let b = join(a.as_str(), "versions");
    join(b.as_str(), "node")
}

/// The runtime inside the installed version directory `dir`.
pub open spec fn nvm_binary(dir: Seq<char>) -> Seq<char> {
    joined(joined(dir, ("bin")@), ("node")@)
}

/// Whether `bins` are the runtimes inside the version directories `dirs`,
/// taken from the greatest directory path to the least, so that the newest
/// version name comes first.
pub open spec fn newest_binaries(dirs: Seq<String>, bins: Seq<Seq<char>>) -> bool {
    exists|sorted: Seq<String>|
        #[trigger] is_descending(sorted) && views(sorted).to_multiset() == views(dirs).to_multiset()
            && bins == views(sorted).map_values(|d: Seq<char>| nvm_binary(d))
}

/// Runtime paths of the installed version directories `dirs`: the
/// directories are ordered greatest first, then each gets `bin/node`.
pub fn nvm_binaries(dirs: &Vec<String>) -> (r: Vec<String>)
    ensures
        r@.len() == dirs@.len(),
        newest_binaries(dirs@, views(r@)),
{
    let mut copy: Vec<String> = Vec::new();
    let mut i: usize = 0;
    while i < dirs.len()
        invariant
            i <= dirs@.len(),
            copy@ == dirs@.subrange(0, i as int),
        decreases dirs@.len() - i,
    {
        copy.push(dirs[i].clone());
        i = i + 1;
        assert(copy@ =~= dirs@.subrange(0, i as int));
    }
    assert(copy@ =~= dirs@);
    let sorted = newest_first(copy);
    let mut bins: Vec<String> = Vec::new();
    let mut j: usize = 0;
    while j < sorted.len()
        invariant
            j <= sorted@.len(),
            bins@.len() == j,
            forall|k: int| 0 <= k < j ==> #[trigger] bins@[k]@ == nvm_binary(sorted@[k]@),
        decreases sorted@.len() - j,
    {
        let a = join(sorted[j].as_str(), "bin");
        bins.push(join(a.as_str(), "node"));
        j = j + 1;
    }
    assert(views(bins@) =~= views(sorted@).map_values(|d: Seq<char>| nvm_binary(d)));
    assert(is_descending(sorted@));
    bins
}

/// The places to look for the runtime on `platform`, in order: the bare
/// command, the well-known locations, then (on macOS only) the runtimes of
/// the version manager's directories `nvm_dirs`, greatest directory first.
pub fn candidate_list(platform: Platform, nvm_dirs: &Vec<String>) -> (r: Vec<Candidate>)
    ensures
        r@.len() >= 1 + well_known(platform).len(),
        r@[0].path@ == bare_command(),
        !r@[0].must_exist,
        forall|k: int| 1 <= k < r@.len() ==> #[trigger] r@[k].must_exist,
        forall|k: int| 0 <= k < well_known(platform).len() ==> #[trigger] r@[k + 1].path@ == well_known(platform)[k],
        platform != Platform::MacOs ==> r@.len() == 1 + well_known(platform).len(),
        platform == Platform::MacOs ==> r@.len() == 1 + well_known(platform).len() + nvm_dirs@.len(),
        platform == Platform::MacOs ==> newest_binaries(
            nvm_dirs@,
            views(r@.subrange(1 + well_known(platform).len() as int, r@.len() as int).map_values(|c: Candidate| c.path)),
        ),
{
    let mut r: Vec<Candidate> = Vec::new();
    r.push(Candidate { path: String::from_str("node"), must_exist: false });
    let table = well_known_paths(platform);
    let mut i: usize = 0;
    while i < table.len()
        invariant
            i <= table@.len(),
            table@.len() == well_known(platform).len(),
            forall|k: int| 0 <= k < table@.len() ==> #[trigger] table@[k]@ == well_known(platform)[k],
            r@.len() == 1 + i,
            r@[0].path@ == bare_command(),
            !r@[0].must_exist,
            forall|k: int| 1 <= k < r@.len() ==> #[trigger] r@[k].must_exist,
            forall|k: int| 0 <= k < i ==> #[trigger] r@[k + 1].path@ == well_known(platform)[k],
        decreases table@.len() - i,
    {
        r.push(Candidate { path: table[i].clone(), must_exist: true });
        i = i + 1;
    }
    if platform == Platform::MacOs {
        let bins = nvm_binaries(nvm_dirs);
        let ghost base = r@;
        let mut j: usize = 0;
        while j < bins.len()
            invariant
                j <= bins@.len(),
                r@.len() == base.len() + j,
                base.len() == 1 + well_known(platform).len(),
                forall|k: int| 0 <= k < base.len() ==> #[trigger] r@[k] == base[k],
                forall|k: int| 0 <= k < j ==> #[trigger] r@[base.len() + k].path@ == bins@[k]@,
                forall|k: int| 1 <= k < r@.len() ==> #[trigger] r@[k].must_exist,
            decreases bins@.len() - j,
        {
            r.push(Candidate { path: bins[j].clone(), must_exist: true });
            j = j + 1;
        }
        let ghost tail = r@.subrange(base.len() as int, r@.len() as int).map_values(|c: Candidate| c.path);
        assert forall|k: int| 0 <= k < tail.len() implies #[trigger] tail[k]@ == bins@[k]@ by {
            assert(r@[base.len() + k].path@ == bins@[k]@);
        }
        assert(views(tail) =~= views(bins@));
    }
    r
}

/// The first candidate whose probe succeeded, when `usable[k]` tells
/// whether candidate `k` exists where needed and answers a version query.
pub open spec fn first_usable(usable: Seq<bool>, i: int) -> bool {
    0 <= i < usable.len() && usable[i] && forall|j: int| 0 <= j < i ==> !usable[j]
}

/// Picks the first usable candidate, or fails with `RuntimeNotFound` if
/// none of those probed is usable. `usable` may stop at the first success.
pub fn pick_runtime(candidates: &Vec<Candidate>, usable: &Vec<bool>) -> (r: Result<String, SetupError>)
    requires
        usable@.len() <= candidates@.len(),
    ensures
        (forall|j: int| 0 <= j < usable@.len() ==> !usable@[j]) <==> r is Err,
        r matches Err(e) ==> e is RuntimeNotFound,
        r matches Ok(p) ==> exists|i: int| first_usable(usable@, i) && p@ == candidates@[i].path@,
{
    let mut i: usize = 0;
    while i < usable.len()
        invariant
            i <= usable@.len(),
            usable@.len() <= candidates@.len(),
            forall|j: int| 0 <= j < i ==> !usable@[j],
        decreases usable@.len() - i,
    {
        if usable[i] {
            let p = candidates[i].path.clone();
            assert(first_usable(usable@, i as int));
            return Ok(p);
        }
        i = i + 1;
    }
    Err(SetupError::RuntimeNotFound)
}

} // verus!
