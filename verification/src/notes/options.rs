//! The options of `git notes`.
//!
//! Each function builds one option action. A flag without a value emits its one
//! token. A flag with a value emits the flag and the value, joined by `=` or as
//! two tokens, as Git documents that flag; an empty value leaves the bare flag.

use vstd::prelude::*;

use crate::command_executor::{joined, separate};
use crate::wrap_command::FnOptionArg;

verus! {

/// When adding notes to an object that already has notes, overwrite the existing notes (instead of
/// aborting).
///
/// Git documents it as `-f, --force`; the token emitted is `--force`.
pub fn force() -> (opt: FnOptionArg)
    ensures
        opt@ == seq!["--force"@],
{
    FnOptionArg::flag("--force")
}

/// Use the given note message (instead of prompting). If multiple -m options are given, their
/// values are concatenated as separate paragraphs. Lines starting with # and empty lines other than
/// a single line between paragraphs will be stripped out.
///
/// Git documents it as `-m <msg>, --message=<msg>`; the token emitted is `--message=` followed by
/// the value, or `--message` alone when the value is empty.
pub fn message(msg_arg: &str) -> (opt: FnOptionArg)
    ensures
        opt@ == joined("--message"@, msg_arg@),
{
    FnOptionArg::joined("--message", msg_arg)
}

/// Take the note message from the given file. Use - to read the note message from the standard
/// input. Lines starting with # and empty lines other than a single line between paragraphs will be
/// stripped out.
///
/// Git documents it as `-F <file>, --file=<file>`; the token emitted is `--file=` followed by the
/// value, or `--file` alone when the value is empty.
pub fn file(file_arg: &str) -> (opt: FnOptionArg)
    ensures
        opt@ == joined("--file"@, file_arg@),
{
    FnOptionArg::joined("--file", file_arg)
}

/// Take the given blob object (for example, another note) as the note message. (Use git notes copy
/// <object> instead to copy notes between objects.)
///
/// Git documents it as `-C <object>, --reuse-message=<object>`; the token emitted is
/// `--reuse-message=` followed by the value, or `--reuse-message` alone when the value is empty.
pub fn reuse_message(object_arg: &str) -> (opt: FnOptionArg)
    ensures
        opt@ == joined("--reuse-message"@, object_arg@),
{
    FnOptionArg::joined("--reuse-message", object_arg)
}

/// Like -C, but with -c the editor is invoked, so that the user can further edit the note message.
///
/// Git documents it as `-c <object>, --reedit-message=<object>`; the token emitted is
/// `--reedit-message=` followed by the value, or `--reedit-message` alone when the value is empty.
pub fn reedit_message(object_arg: &str) -> (opt: FnOptionArg)
    ensures
        opt@ == joined("--reedit-message"@, object_arg@),
{
    FnOptionArg::joined("--reedit-message", object_arg)
}

/// Allow an empty note object to be stored. The default behavior is to automatically remove empty
/// notes.
///
/// Git documents it as `--allow-empty`; the token emitted is `--allow-empty`.
pub fn allow_empty() -> (opt: FnOptionArg)
    ensures
        opt@ == seq!["--allow-empty"@],
{
    FnOptionArg::flag("--allow-empty")
}

/// Manipulate the notes tree in <ref>. This overrides GIT_NOTES_REF and the "core.notesRef"
/// configuration. The ref specifies the full refname when it begins with refs/notes/; when it
/// begins with notes/, refs/ and otherwise refs/notes/ is prefixed to form a full name of the ref.
///
/// Git documents it as `--ref <ref>`; the tokens emitted are `--ref` and then the value, or `--ref`
/// alone when the value is empty.
pub fn ref_notes(ref_arg: &str) -> (opt: FnOptionArg)
    ensures
        opt@ == separate("--ref"@, ref_arg@),
{
    FnOptionArg::separate("--ref", ref_arg)
}

/// Do not consider it an error to request removing notes from an object that does not have notes
/// attached to it.
///
/// Git documents it as `--ignore-missing`; the token emitted is `--ignore-missing`.
pub fn ignore_missing() -> (opt: FnOptionArg)
    ensures
        opt@ == seq!["--ignore-missing"@],
{
    FnOptionArg::flag("--ignore-missing")
}

/// Also read the object names to remove notes from the standard input (there is no reason you
/// cannot combine this with object names from the command line).
///
/// Git documents it as `--stdin`; the token emitted is `--stdin`.
pub fn stdin() -> (opt: FnOptionArg)
    ensures
        opt@ == seq!["--stdin"@],
{
    FnOptionArg::flag("--stdin")
}

/// Do not remove anything; just report the object names whose notes would be removed.
///
/// Git documents it as `-n, --dry-run`; the token emitted is `--dry-run`.
pub fn dry_run() -> (opt: FnOptionArg)
    ensures
        opt@ == seq!["--dry-run"@],
{
    FnOptionArg::flag("--dry-run")
}

/// When merging notes, resolve notes conflicts using the given strategy. The following strategies
/// are recognized: "manual" (default), "ours", "theirs", "union" and "cat_sort_uniq". This option
/// overrides the "notes.mergeStrategy" configuration setting. See the "NOTES MERGE STRATEGIES"
/// section below for more information on each notes merge strategy.
///
/// Git documents it as `-s <strategy>, --strategy=<strategy>`; the token emitted is `--strategy=`
/// followed by the value, or `--strategy` alone when the value is empty.
pub fn strategy(strategy_arg: &str) -> (opt: FnOptionArg)
    ensures
        opt@ == joined("--strategy"@, strategy_arg@),
{
    FnOptionArg::joined("--strategy", strategy_arg)
}

/// Finalize an in-progress git notes merge. Use this option when you have resolved the conflicts
/// that git notes merge stored in .git/NOTES_MERGE_WORKTREE. This amends the partial merge commit
/// created by git notes merge (stored in .git/NOTES_MERGE_PARTIAL) by adding the notes in
/// .git/NOTES_MERGE_WORKTREE. The notes ref stored in the .git/NOTES_MERGE_REF symref is updated to
/// the resulting commit.
///
/// Git documents it as `--commit`; the token emitted is `--commit`.
pub fn commit() -> (opt: FnOptionArg)
    ensures
        opt@ == seq!["--commit"@],
{
    FnOptionArg::flag("--commit")
}

/// Abort/reset an in-progress git notes merge, i.e. a notes merge with conflicts. This simply
/// removes all files related to the notes merge.
///
/// Git documents it as `--abort`; the token emitted is `--abort`.
pub fn abort() -> (opt: FnOptionArg)
    ensures
        opt@ == seq!["--abort"@],
{
    FnOptionArg::flag("--abort")
}

/// When merging notes, operate quietly.
///
/// Git documents it as `-q, --quiet`; the token emitted is `--quiet`.
pub fn quiet() -> (opt: FnOptionArg)
    ensures
        opt@ == seq!["--quiet"@],
{
    FnOptionArg::flag("--quiet")
}

/// When merging notes, be more verbose. When pruning notes, report all object names whose notes are
/// removed.
///
/// Git documents it as `-v, --verbose`; the token emitted is `--verbose`.
pub fn verbose() -> (opt: FnOptionArg)
    ensures
        opt@ == seq!["--verbose"@],
{
    FnOptionArg::flag("--verbose")
}

} // verus!
