//! Path resolution: locating the project root by walking up from the
//! current directory towards the file-system root looking for a
//! version-control marker, and composing the global stash locations
//! under the user's home directory.
//!
//! A directory is modelled as its sequence of path components (the
//! file-system root is the empty sequence). The walk's observations are
//! a vector of booleans, one per directory from the starting directory
//! (index 0) up to and including the file-system root: entry `k` says
//! whether the directory reached after `k` steps upward contains a
//! `.git` entry or a `.gitignore` file.

use vstd::prelude::*;
use vstd::string::*;

verus! {

/// The failures that path resolution can report. I/O failures are the
/// caller's to handle; they never reach this logic.
#[derive(Clone, Copy, Debug, PartialEq, Eq, Structural)]
pub enum AgStashError {
    /// No version-control marker was found up to the file-system root,
    /// or the root found has no nameable component.
    ProjectRootNotFound,
    /// The home directory could not be determined.
    HomeDirNotFound,
    /// Content was too large to validate safely.
    ContentTooLarge,
}

impl AgStashError {
    /// The human-readable description of the failure.
    pub fn message(&self) -> (r: String)
        ensures
            *self is ProjectRootNotFound ==> r@ == "Could not find project root (no .git or .gitignore found)"@,
            *self is HomeDirNotFound ==> r@ == "Could not find home directory"@,
            *self is ContentTooLarge ==> r@ == "Content too large to process safely"@,
    {
        match self {
            AgStashError::ProjectRootNotFound => String::from_str(
                "Could not find project root (no .git or .gitignore found)",
            ),
            AgStashError::HomeDirNotFound => String::from_str("Could not find home directory"),
            AgStashError::ContentTooLarge => String::from_str("Content too large to process safely"),
        }
    }
}

/// Index of the first marker observation that is set; the length of
/// `markers` if none is.
pub open spec fn first_marker(markers: Seq<bool>) -> int
    decreases markers.len(),
{
    if markers.len() == 0 {
        0
    } else if markers[0] {
        0
    } else {
        1 + first_marker(markers.drop_first())
    }
}

/// `first_marker` points at a set observation, and none before it is set.
pub proof fn lemma_first_marker(markers: Seq<bool>)
    ensures
        0 <= first_marker(markers) <= markers.len(),
        forall|j: int| 0 <= j < first_marker(markers) ==> !markers[j],
        first_marker(markers) < markers.len() ==> markers[first_marker(markers)],
    decreases markers.len(),
{
    if markers.len() == 0 {
    } else if markers[0] {
    } else {
        lemma_first_marker(markers.drop_first());
        assert forall|j: int| 0 <= j < first_marker(markers) implies !markers[j] by {
            if j > 0 {
                assert(markers.drop_first()[j - 1] == markers[j]);
            }
        }
    }
}

/// Any index with no set observation before it, and a set observation at
/// it (or the end), is `first_marker`.
pub proof fn lemma_first_marker_unique(markers: Seq<bool>, k: int)
    requires
        0 <= k <= markers.len(),
        forall|j: int| 0 <= j < k ==> !markers[j],
        k < markers.len() ==> markers[k],
    ensures
        k == first_marker(markers),
    decreases markers.len(),
{
    if markers.len() == 0 {
    } else if markers[0] {
        assert(k == 0);
    } else {
        assert(k != 0);
        assert forall|j: int| 0 <= j < k - 1 implies !markers.drop_first()[j] by {
            assert(markers.drop_first()[j] == markers[j + 1]);
        }
        lemma_first_marker_unique(markers.drop_first(), k - 1);
    }
}

/// The components of the project root determined by the observations:
/// the starting directory with `first_marker(markers)` components
/// removed.
pub open spec fn root_components(cwd: Seq<String>, markers: Seq<bool>) -> Seq<String> {
    cwd.take(cwd.len() - first_marker(markers))
}

/// A usable project root was found: some directory on the way up carries
/// a marker, and that directory still has a nameable final component.
pub open spec fn usable_root(cwd: Seq<String>, markers: Seq<bool>) -> bool {
    first_marker(markers) < cwd.len()
}

/// The base name of the project root, used as the stash key.
pub open spec fn root_name(cwd: Seq<String>, markers: Seq<bool>) -> Seq<char> {
    root_components(cwd, markers).last()@
}

/// Locate the project root: the first directory from `cwd` upward whose
/// observation is set. `markers` covers `cwd` itself and every ancestor
/// up to and including the file-system root, deepest first.
pub fn get_project_root(cwd: &Vec<String>, markers: &Vec<bool>) -> (r: Result<
    Vec<String>,
    AgStashError,
>)
    requires
        markers@.len() == cwd@.len() + 1,
    ensures
        first_marker(markers@) == markers@.len() ==> r == Err::<Vec<String>, AgStashError>(
            AgStashError::ProjectRootNotFound,
        ),
        first_marker(markers@) < markers@.len() ==> (r matches Ok(root) && root@ == cwd@.take(
            cwd@.len() - first_marker(markers@),
        )),
{
    let n: usize = cwd.len();
    let mut k: usize = 0;
    loop
        invariant
            markers@.len() == n + 1,
            n == cwd@.len(),
            k <= n + 1,
            forall|j: int| 0 <= j < k ==> !markers@[j],
        ensures
            n == cwd@.len(),
            k <= n + 1,
            forall|j: int| 0 <= j < k ==> !markers@[j],
            k < n + 1 ==> markers@[k as int],
        decreases n + 1 - k,
    {
        if k >= markers.len() {
            break;
        }
        if markers[k] {
            break;
        }
        k = k + 1;
    }
    proof {
        lemma_first_marker_unique(markers@, k as int);
    }
    if k > n {
        return Err(AgStashError::ProjectRootNotFound);
    }
    let keep: usize = n - k;
    let mut root: Vec<String> = Vec::new();
    let mut j: usize = 0;
    while j < keep
        invariant
            keep <= n,
            n == cwd@.len(),
            j <= keep,
            root@.len() == j,
            forall|t: int| 0 <= t < j ==> root@[t] == cwd@[t],
        decreases keep - j,
    {
        root.push(cwd[j].clone());
        j = j + 1;
    }
    proof {
        assert(root@ =~= cwd@.take(keep as int));
    }
    Ok(root)
}

/// The base name of a resolved project root; empty when the root has no
/// component, mirroring a defaulted file name lookup.
pub fn project_name_of(root: &Vec<String>) -> (r: String)
    ensures
        root@.len() > 0 ==> r == root@.last(),
        root@.len() == 0 ==> r@ == Seq::<char>::empty(),
{
    if root.len() > 0 {
        root[root.len() - 1].clone()
    } else {
        String::new()
    }
}

/// The absolute textual path of a directory given as components: `/` for
/// the file-system root, otherwise `/` before each component in order.
pub open spec fn join_components(cs: Seq<String>) -> Seq<char>
    decreases cs.len(),
{
    if cs.len() == 0 {
        Seq::empty()
    } else {
        join_components(cs.drop_last()) + "/"@ + cs.last()@
    }
}

/// See `join_components`; the empty sequence denotes the file-system
/// root `/`.
pub open spec fn join_path_spec(cs: Seq<String>) -> Seq<char> {
    if cs.len() == 0 {
        "/"@
    } else {
        join_components(cs)
    }
}

/// Render a directory's components as an absolute path.
pub fn join_path(components: &Vec<String>) -> (r: String)
    ensures
        r@ == join_path_spec(components@),
{
    if components.len() == 0 {
        return String::from_str("/");
    }
    let mut acc = String::new();
    let mut j: usize = 0;
    while j < components.len()
        invariant
            j <= components@.len(),
            acc@ == join_components(components@.take(j as int)),
        decreases components@.len() - j,
    {
        acc.append("/");
        acc.append(components[j].as_str());
        proof {
            assert(components@.take(j + 1).drop_last() =~= components@.take(j as int));
            assert(components@.take(j + 1).last() == components@[j as int]);
        }
        j = j + 1;
    }
    proof {
        assert(components@.take(components@.len() as int) =~= components@);
    }
    acc
}

/// The global stash directory under the home directory.
pub open spec fn agstash_dir_spec(home: Seq<char>) -> Seq<char> {
    home + "/.agstash"@
}

/// The directory holding the stash entries.
pub open spec fn stash_dir_spec(home: Seq<char>) -> Seq<char> {
    home + "/.agstash/stashes"@
}

/// The stash entry path for a project name.
pub open spec fn stash_entry_spec(home: Seq<char>, name: Seq<char>) -> Seq<char> {
    home + "/.agstash/stashes/stash-"@ + name + ".md"@
}

/// The convention file's path inside a project root.
pub open spec fn agents_path_spec(root: Seq<char>) -> Seq<char> {
    root + "/AGENTS.md"@
}

/// Compose the global stash directory path for a home directory.
pub fn agstash_dir_path(home: &str) -> (r: String)
    ensures
        r@ == agstash_dir_spec(home@),
{
    let mut s = String::from_str(home);
    s.append("/.agstash");
    s
}

/// Compose the stash entries directory path for a home directory.
pub fn stash_dir_path(home: &str) -> (r: String)
    ensures
        r@ == stash_dir_spec(home@),
{
    let mut s = String::from_str(home);
    s.append("/.agstash/stashes");
    s
}

/// Compose the stash entry path for a home directory and project name.
pub fn stash_entry_path(home: &str, project_name: &str) -> (r: String)
    ensures
        r@ == stash_entry_spec(home@, project_name@),
{
    let mut s = String::from_str(home);
    s.append("/.agstash/stashes/stash-");
    s.append(project_name);
    s.append(".md");
    proof {
        assert(s@ =~= stash_entry_spec(home@, project_name@));
    }
    s
}

/// Compose the convention file's path inside a project root.
pub fn agents_file_path(root: &str) -> (r: String)
    ensures
        r@ == agents_path_spec(root@),
{
    let mut s = String::from_str(root);
    s.append("/AGENTS.md");
    s
}

/// Relies on home::home_dir: the current user's home directory when it
/// can be determined, None otherwise. Nothing more is promised: the
/// result depends on the process environment (it may even be empty when
/// the HOME variable is set to an empty string).
#[verifier::external_body]
fn home_dir_string() -> (r: Option<String>)
{
    home::home_dir().map(|p| p.to_string_lossy().into_owned())
}

/// The stash entry path for a project, under the current user's home
/// directory. Fails only when no home directory can be determined; the
/// caller must have a named project, and must create the stash directory
/// tree before writing to the returned path.
pub fn get_stash_path(project_name: &str) -> (r: Result<String, AgStashError>)
    requires
        project_name@.len() > 0,
    ensures
        r matches Err(e) ==> e == AgStashError::HomeDirNotFound,
        r matches Ok(p) ==> exists|h: Seq<char>| p@ == stash_entry_spec(h, project_name@),
{
    match home_dir_string() {
        None => Err(AgStashError::HomeDirNotFound),
        Some(home) => {
            let p = stash_entry_path(home.as_str(), project_name);
            proof {
                assert(p@ == stash_entry_spec(home@, project_name@));
            }
            Ok(p)
        },
    }
}

/// The global stash directory under the current user's home directory.
/// Pure composition: nothing is created. Fails only when no home
/// directory can be determined.
pub fn get_agstash_dir() -> (r: Result<String, AgStashError>)
    ensures
        r matches Err(e) ==> e == AgStashError::HomeDirNotFound,
        r matches Ok(p) ==> exists|h: Seq<char>| p@ == agstash_dir_spec(h),
{
    match home_dir_string() {
        None => Err(AgStashError::HomeDirNotFound),
        Some(home) => {
            let p = agstash_dir_path(home.as_str());
            proof {
                assert(p@ == agstash_dir_spec(home@));
            }
            Ok(p)
        },
    }
}

} // verus!
