//! A model of the file-system state one project's commands touch — the
//! convention file at the project root and the project's stash entry —
//! and proofs of the laws the command engine keeps over it. Each effect
//! function records the mutation the caller performs when the matching
//! decision in `crate::commands` tells it to go ahead, guarded by the
//! same predicates those decisions are specified with.

use vstd::prelude::*;

use crate::commands::{confirmed_spec, default_template_text};
use crate::validation::{is_valid_spec, MAX_CONTENT_LEN};

verus! {

/// The files one project's commands read and write; `None` means the
/// file does not exist.
pub struct FsState {
    /// The convention file at the project root.
    pub file: Option<Seq<char>>,
    /// The project's stash entry.
    pub stash: Option<Seq<char>>,
}

/// Init writes the default template, unless the convention file is
/// already there and no force was given.
pub open spec fn init_effect(fs: FsState, force: bool) -> FsState {
    if fs.file is Some && !force {
        fs
    } else {
        FsState { file: Some(default_template_text()), stash: fs.stash }
    }
}

/// Clean deletes the convention file; a missing file is nothing to do.
pub open spec fn clean_effect(fs: FsState) -> FsState {
    FsState { file: None, stash: fs.stash }
}

/// Stash copies an existing, valid, not oversized convention file
/// verbatim to the stash entry; otherwise it changes nothing.
pub open spec fn stash_effect(fs: FsState) -> FsState {
    match fs.file {
        None => fs,
        Some(c) => if c.len() < MAX_CONTENT_LEN && is_valid_spec(c) {
            FsState { file: fs.file, stash: Some(c) }
        } else {
            fs
        },
    }
}

/// The confirmation guard of apply allows the overwrite when force was given, when no
/// convention file would be overwritten, or when the user's answer is
/// affirmative.
pub open spec fn apply_guard(fs: FsState, force: bool, answer: Option<Seq<char>>) -> bool {
    force || fs.file is None || (answer matches Some(a) && confirmed_spec(a))
}

/// Apply copies an existing, valid, not oversized stash entry verbatim
/// onto the target when the guard allows it.
pub open spec fn apply_effect(fs: FsState, force: bool, answer: Option<Seq<char>>) -> FsState {
    match fs.stash {
        None => fs,
        Some(c) => if apply_guard(fs, force, answer) && c.len() < MAX_CONTENT_LEN && is_valid_spec(
            c,
        ) {
            FsState { file: Some(c), stash: fs.stash }
        } else {
            fs
        },
    }
}

/// Cleaning is idempotent: after a clean the convention file is gone,
/// and a second clean in a row changes nothing — it has nothing to
/// remove and never errors.
pub proof fn lemma_clean_idempotent(fs: FsState)
    ensures
        clean_effect(fs).file is None,
        clean_effect(clean_effect(fs)) == clean_effect(fs),
{
}

/// Initializing while the convention file exists and force is false
/// modifies nothing.
pub proof fn lemma_init_preserves_existing(fs: FsState)
    requires
        fs.file is Some,
    ensures
        init_effect(fs, false) == fs,
{
}

/// Round trip: stashing a valid convention file, deleting it, and then
/// applying — with no existing file there is no confirmation to give —
/// restores exactly the content that was stashed.
pub proof fn lemma_stash_apply_round_trip(fs: FsState)
    requires
        fs.file matches Some(c) && is_valid_spec(c) && c.len() < MAX_CONTENT_LEN,
    ensures
        apply_effect(clean_effect(stash_effect(fs)), false, None).file == fs.file,
{
}

/// The confirmation guard: over an existing convention file and a valid
/// stash entry, a declining answer leaves everything untouched, an
/// affirmative answer applies the entry, and force applies it with no
/// answer at all.
pub proof fn lemma_apply_confirmation_guard(fs: FsState, answer: Seq<char>)
    requires
        fs.file is Some,
        fs.stash matches Some(c) && is_valid_spec(c) && c.len() < MAX_CONTENT_LEN,
    ensures
        !confirmed_spec(answer) ==> apply_effect(fs, false, Some(answer)) == fs,
        confirmed_spec(answer) ==> apply_effect(fs, false, Some(answer)).file == fs.stash,
        apply_effect(fs, true, None).file == fs.stash,
{
}

/// Invalid content never propagates: a convention file without the
/// header is never stashed, and a stash entry without the header never
/// touches the convention file.
pub proof fn lemma_invalid_never_propagates(fs: FsState, force: bool, answer: Option<Seq<char>>)
    ensures
        fs.file matches Some(c) && !is_valid_spec(c) ==> stash_effect(fs) == fs,
        fs.stash matches Some(c) && !is_valid_spec(c) ==> apply_effect(fs, force, answer) == fs,
{
}

} // verus!
