//! The command engine: the decision each of the five commands (init,
//! clean, stash, apply, uninstall) takes, as a pure function of what was
//! observed on the file system. The caller performs the observations
//! (existence checks, reads, the confirmation prompt), hands them in as
//! plain values, and carries out the file operations the returned
//! outcome calls for.

use vstd::prelude::*;
use vstd::string::*;

use crate::paths::{
    get_project_root, project_name_of, root_name, stash_dir_path, stash_dir_spec,
    stash_entry_path, stash_entry_spec, usable_root, AgStashError, agents_file_path,
    agents_path_spec, agstash_dir_path, agstash_dir_spec, join_path, join_path_spec,
    lemma_first_marker, root_components,
};
use crate::validation::{
    is_valid_agents, is_valid_spec, is_ws_char, lemma_leading_ws_count_unique,
    lemma_trailing_ws_count_unique, trim_spec, trim_start_spec, MAX_CONTENT_LEN,
};

verus! {

/// What the init command does.
#[derive(Debug)]
pub enum InitOutcome {
    /// The convention file is already there and is left untouched.
    AlreadyExists,
    /// Write the default template to the convention file.
    Create,
}

/// What the clean command does.
#[derive(Debug)]
pub enum CleanOutcome {
    /// Delete the convention file.
    Removed,
    /// Nothing to delete.
    DoesNotExist,
}

/// What the stash command does.
#[derive(Debug)]
pub enum StashOutcome {
    /// The project root has no convention file; nothing to stash.
    FileMissing,
    /// The convention file lacks the header; nothing is persisted.
    InvalidContent,
    /// Copy the convention file verbatim to `stash_path`, creating
    /// `stash_dir` first.
    Stashed { project_name: String, stash_dir: String, stash_path: String },
}

/// What the apply command does, up to the point where the stash entry
/// has to be read.
#[derive(Debug)]
pub enum ApplyOutcome {
    /// No stash entry exists for this project.
    NoStashFound { project_name: String },
    /// The convention file exists and no force was given: ask the user
    /// and come back with the answer.
    NeedsConfirmation,
    /// The user declined; nothing is changed.
    Declined,
    /// Read the stash entry at `stash_path` and continue with
    /// `apply_stash_content`; on a valid entry, copy it verbatim over
    /// `target_path`.
    Proceed { project_name: String, stash_path: String, target_path: String },
}

/// Whether a stash entry's content may be written over the convention
/// file.
#[derive(Debug)]
pub enum ApplyContentOutcome {
    /// The stash entry lacks the header; the target is left untouched.
    InvalidContent,
    /// Copy the stash entry verbatim over the convention file.
    Apply,
}

/// What the uninstall command does.
#[derive(Debug)]
pub enum UninstallOutcome {
    /// Recursively delete the global stash directory `dir`.
    Removed { dir: String },
    /// Nothing to delete.
    DoesNotExist,
}

/// The text the init command writes when the convention file is absent.
pub open spec fn default_template_text() -> Seq<char> {
    "# AGENTS\n\n- be concise and factual.\n- always test after changes are made.\n- create tests after a new feature is added.\n"@
}

/// The default convention file content: the header line and a few
/// guidance bullets. Valid by construction.
pub fn default_template() -> (r: String)
    ensures
        r@ == default_template_text(),
        is_valid_spec(r@),
{
    let t = String::from_str(
        "# AGENTS\n\n- be concise and factual.\n- always test after changes are made.\n- create tests after a new feature is added.\n",
    );
    proof {
        reveal_strlit(
            "# AGENTS\n\n- be concise and factual.\n- always test after changes are made.\n- create tests after a new feature is added.\n",
        );
        reveal_strlit("# AGENTS");
        lemma_leading_ws_count_unique(t@, 0);
        assert(trim_start_spec(t@) =~= t@);
        assert(crate::validation::header_marker() =~= trim_start_spec(t@).subrange(0, 8));
    }
    t
}

/// An affirmative confirmation: the input, after trimming surrounding
/// whitespace, is a single case-insensitive `y`. Anything else declines.
pub open spec fn confirmed_spec(s: Seq<char>) -> bool {
    let t = trim_spec(s);
    t.len() == 1 && (t[0] == 'y' || t[0] == 'Y')
}

/// Decide whether a line read from the user confirms an overwrite.
pub fn parse_confirmation(input: &str) -> (r: bool)
    ensures
        r == confirmed_spec(input@),
{
    let n: usize = input.unicode_len();
    let mut i: usize = 0;
    loop
        invariant
            n == input@.len(),
            i <= n,
            forall|j: int| 0 <= j < i ==> is_ws_char(input@[j]),
        ensures
            n == input@.len(),
            i <= n,
            forall|j: int| 0 <= j < i ==> is_ws_char(input@[j]),
            i < n ==> !is_ws_char(input@[i as int]),
        decreases n - i,
    {
        if i >= n {
            break;
        }
        let c = input.get_char(i);
        if !(c == ' ' || c == '\t' || c == '\n' || c == '\r') {
            break;
        }
        i = i + 1;
    }
    let mut m: usize = n;
    loop
        invariant
            n == input@.len(),
            i <= n,
            i <= m <= n,
            i < n ==> !is_ws_char(input@[i as int]),
            forall|j: int| m <= j < n ==> is_ws_char(input@[j]),
        ensures
            i <= m <= n,
            forall|j: int| m <= j < n ==> is_ws_char(input@[j]),
            m > i ==> !is_ws_char(input@[m - 1]),
        decreases m,
    {
        if m <= i {
            break;
        }
        let c = input.get_char(m - 1);
        if !(c == ' ' || c == '\t' || c == '\n' || c == '\r') {
            break;
        }
        m = m - 1;
    }
    proof {
        lemma_leading_ws_count_unique(input@, i as int);
        let t = trim_start_spec(input@);
        assert(t =~= input@.skip(i as int));
        if m == i {
            assert(i == n) by {
                if i < n {
                    assert(is_ws_char(input@[i as int]));
                }
            }
            lemma_trailing_ws_count_unique(t, 0);
        } else {
            assert forall|j: int| (m - i) <= j < t.len() implies is_ws_char(t[j]) by {
                assert(t[j] == input@[i + j]);
            }
            assert(t[m - i - 1] == input@[m - 1]);
            lemma_trailing_ws_count_unique(t, m - i);
        }
        assert(trim_spec(input@) =~= input@.subrange(i as int, m as int));
    }
    if m - i == 1 {
        let c = input.get_char(i);
        proof {
            assert(trim_spec(input@)[0] == input@[i as int]);
        }
        c == 'y' || c == 'Y'
    } else {
        false
    }
}

/// Initialize: write the default template unless the convention file is
/// already there (a force overwrites it regardless).
pub fn handle_init(file_exists: bool, force: bool) -> (r: InitOutcome)
    ensures
        r is Create <==> (!file_exists || force),
{
    if file_exists && !force {
        InitOutcome::AlreadyExists
    } else {
        InitOutcome::Create
    }
}

/// Clean: delete the convention file when it is there; otherwise there
/// is nothing to do. Never an error, so a second run in a row simply
/// reports that the file does not exist.
pub fn handle_clean(file_exists: bool) -> (r: CleanOutcome)
    ensures
        r is Removed <==> file_exists,
{
    if file_exists {
        CleanOutcome::Removed
    } else {
        CleanOutcome::DoesNotExist
    }
}

/// Stash: with a usable project root and an existing, valid convention
/// file, copy it verbatim to the project's stash entry. A missing file
/// and invalid content are soft outcomes; a missing root or home
/// directory and oversized content are hard failures.
///
/// `cwd` and `markers` are the walk observations of
/// `crate::paths::get_project_root`; `file_exists` and `content` are the
/// convention file's existence and content at the resolved root (the
/// content is ignored when the file does not exist); `home` is the home
/// directory when one is known.
pub fn handle_stash(
    cwd: &Vec<String>,
    markers: &Vec<bool>,
    home: Option<&str>,
    file_exists: bool,
    content: &str,
) -> (r: Result<StashOutcome, AgStashError>)
    requires
        markers@.len() == cwd@.len() + 1,
    ensures
        !usable_root(cwd@, markers@) ==> (r matches Err(e) && e is ProjectRootNotFound),
        usable_root(cwd@, markers@) && !file_exists ==> (r matches Ok(o) && o is FileMissing),
        usable_root(cwd@, markers@) && file_exists && content@.len() >= MAX_CONTENT_LEN ==> (
        r matches Err(e) && e is ContentTooLarge),
        usable_root(cwd@, markers@) && file_exists && content@.len() < MAX_CONTENT_LEN
            && !is_valid_spec(content@) ==> (r matches Ok(o) && o is InvalidContent),
        usable_root(cwd@, markers@) && file_exists && content@.len() < MAX_CONTENT_LEN
            && is_valid_spec(content@) && home is None ==> (r matches Err(e)
            && e is HomeDirNotFound),
        home matches Some(h) ==> (usable_root(cwd@, markers@) && file_exists && content@.len()
            < MAX_CONTENT_LEN && is_valid_spec(content@) ==> (r matches Ok(o)
            && o matches StashOutcome::Stashed { project_name, stash_dir, stash_path }
            && project_name@ == root_name(cwd@, markers@) && stash_dir@ == stash_dir_spec(h@)
            && stash_path@ == stash_entry_spec(h@, root_name(cwd@, markers@)))),
{
    proof {
        lemma_first_marker(markers@);
    }
    let root = match get_project_root(cwd, markers) {
        Err(e) => {
            return Err(e);
        },
        Ok(root) => root,
    };
    if root.len() == 0 {
        return Err(AgStashError::ProjectRootNotFound);
    }
    if !file_exists {
        return Ok(StashOutcome::FileMissing);
    }
    if content.unicode_len() >= MAX_CONTENT_LEN {
        return Err(AgStashError::ContentTooLarge);
    }
    if !is_valid_agents(content) {
        return Ok(StashOutcome::InvalidContent);
    }
    match home {
        None => Err(AgStashError::HomeDirNotFound),
        Some(h) => {
            let name = project_name_of(&root);
            let dir = stash_dir_path(h);
            let path = stash_entry_path(h, name.as_str());
            Ok(StashOutcome::Stashed { project_name: name, stash_dir: dir, stash_path: path })
        },
    }
}

/// Apply, up to the confirmation guard: with a usable project root, a
/// known home directory and an existing stash entry, decide whether to
/// go ahead. An existing convention file without a force needs the
/// user's confirmation: on the first call pass `answer: None` and, when
/// the outcome asks for it, come back with the line the user gave.
/// Reading and validating the stash entry is `apply_stash_content`'s
/// part.
pub fn handle_apply(
    cwd: &Vec<String>,
    markers: &Vec<bool>,
    home: Option<&str>,
    stash_exists: bool,
    file_exists: bool,
    force: bool,
    answer: Option<&str>,
) -> (r: Result<ApplyOutcome, AgStashError>)
    requires
        markers@.len() == cwd@.len() + 1,
    ensures
        !usable_root(cwd@, markers@) ==> (r matches Err(e) && e is ProjectRootNotFound),
        usable_root(cwd@, markers@) && home is None ==> (r matches Err(e) && e is HomeDirNotFound),
        usable_root(cwd@, markers@) && home is Some && !stash_exists ==> (r matches Ok(o)
            && o matches ApplyOutcome::NoStashFound { project_name } && project_name@ == root_name(
            cwd@,
            markers@,
        )),
        usable_root(cwd@, markers@) && home is Some && stash_exists && file_exists && !force
            && answer is None ==> (r matches Ok(o) && o is NeedsConfirmation),
        answer matches Some(a) ==> (usable_root(cwd@, markers@) && home is Some && stash_exists
            && file_exists && !force && !confirmed_spec(a@) ==> (r matches Ok(o)
            && o is Declined)),
        home matches Some(h) ==> (usable_root(cwd@, markers@) && stash_exists && (force
            || !file_exists || (answer matches Some(a) && confirmed_spec(a@))) ==> (
        r matches Ok(o) && o matches ApplyOutcome::Proceed { project_name, stash_path, target_path }
            && project_name@ == root_name(cwd@, markers@) && stash_path@ == stash_entry_spec(
            h@,
            root_name(cwd@, markers@),
        ) && target_path@ == agents_path_spec(join_path_spec(root_components(cwd@, markers@))))),
{
    proof {
        lemma_first_marker(markers@);
    }
    let root = match get_project_root(cwd, markers) {
        Err(e) => {
            return Err(e);
        },
        Ok(root) => root,
    };
    if root.len() == 0 {
        return Err(AgStashError::ProjectRootNotFound);
    }
    let h = match home {
        None => {
            return Err(AgStashError::HomeDirNotFound);
        },
        Some(h) => h,
    };
    let name = project_name_of(&root);
    if !stash_exists {
        return Ok(ApplyOutcome::NoStashFound { project_name: name });
    }
    if file_exists && !force {
        match answer {
            None => {
                return Ok(ApplyOutcome::NeedsConfirmation);
            },
            Some(a) => {
                if !parse_confirmation(a) {
                    return Ok(ApplyOutcome::Declined);
                }
            },
        }
    }
    let stash_path = stash_entry_path(h, name.as_str());
    let target_path = agents_file_path(join_path(&root).as_str());
    Ok(ApplyOutcome::Proceed { project_name: name, stash_path, target_path })
}

/// The tail of apply: decide whether a stash entry's content may be
/// written over the convention file. Invalid content leaves the target
/// untouched; oversized content is a hard failure.
pub fn apply_stash_content(stash_content: &str) -> (r: Result<ApplyContentOutcome, AgStashError>)
    ensures
        stash_content@.len() >= MAX_CONTENT_LEN ==> (r matches Err(e) && e is ContentTooLarge),
        stash_content@.len() < MAX_CONTENT_LEN && !is_valid_spec(stash_content@) ==> (
        r matches Ok(o) && o is InvalidContent),
        stash_content@.len() < MAX_CONTENT_LEN && is_valid_spec(stash_content@) ==> (
        r matches Ok(o) && o is Apply),
{
    if stash_content.unicode_len() >= MAX_CONTENT_LEN {
        return Err(AgStashError::ContentTooLarge);
    }
    if !is_valid_agents(stash_content) {
        Ok(ApplyContentOutcome::InvalidContent)
    } else {
        Ok(ApplyContentOutcome::Apply)
    }
}

/// Uninstall: recursively delete the global stash directory when it is
/// there; otherwise there is nothing to do. Fails only when no home
/// directory is known.
pub fn handle_uninstall(home: Option<&str>, dir_exists: bool) -> (r: Result<
    UninstallOutcome,
    AgStashError,
>)
    ensures
        home is None ==> (r matches Err(e) && e is HomeDirNotFound),
        home matches Some(h) ==> (dir_exists ==> (r matches Ok(o)
            && o matches UninstallOutcome::Removed { dir } && dir@ == agstash_dir_spec(h@))),
        home is Some && !dir_exists ==> (r matches Ok(o) && o is DoesNotExist),
{
    match home {
        None => Err(AgStashError::HomeDirNotFound),
        Some(h) => {
            if dir_exists {
                Ok(UninstallOutcome::Removed { dir: agstash_dir_path(h) })
            } else {
                Ok(UninstallOutcome::DoesNotExist)
            }
        },
    }
}

} // verus!
