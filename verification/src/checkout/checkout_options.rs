//! The options of `git checkout`.
//!
//! Each function builds one option action. A flag without a value emits its one
//! token. A flag with a value emits the flag and the value, joined by `=` or as
//! two tokens, as Git documents that flag; an empty value leaves the bare flag.

use vstd::prelude::*;

use crate::command_executor::{joined, separate, CommandOption};

verus! {

/// Quiet, suppress feedback messages.
///
/// Git documents it as `-q, --quiet`; the token emitted is `--quiet`.
pub fn quiet_option() -> (opt: CommandOption)
    ensures
        opt@ == seq!["--quiet"@],
{
    CommandOption::flag("--quiet")
}

/// Progress status is reported on the standard error stream by default when it is attached to a
/// terminal, unless --quiet is specified. This flag enables progress reporting even if not attached
/// to a terminal, regardless of --quiet.
///
/// Git documents it as `--progress`; the token emitted is `--progress`.
pub fn progress_option() -> (opt: CommandOption)
    ensures
        opt@ == seq!["--progress"@],
{
    CommandOption::flag("--progress")
}

/// Progress status is reported on the standard error stream by default when it is attached to a
/// terminal, unless --quiet is specified. This flag enables progress reporting even if not attached
/// to a terminal, regardless of --quiet.
///
/// Git documents it as `--no-progress`; the token emitted is `--no-progress`.
pub fn no_progress_option() -> (opt: CommandOption)
    ensures
        opt@ == seq!["--no-progress"@],
{
    CommandOption::flag("--no-progress")
}

/// When switching branches, proceed even if the index or the working tree differs from HEAD. This
/// is used to throw away local changes. When checking out paths from the index, do not fail upon
/// unmerged entries; instead, unmerged entries are ignored.
///
/// Git documents it as `-f, --force`; the token emitted is `--force`.
pub fn force_option() -> (opt: CommandOption)
    ensures
        opt@ == seq!["--force"@],
{
    CommandOption::flag("--force")
}

/// When checking out paths from the index, check out stage #2 (ours) or #3 (theirs) for unmerged
/// paths.
///
/// Git documents it as `--ours, --theirs`; the token emitted is `--ours`.
pub fn ours_option() -> (opt: CommandOption)
    ensures
        opt@ == seq!["--ours"@],
{
    CommandOption::flag("--ours")
}

/// When checking out paths from the index, check out stage #2 (ours) or #3 (theirs) for unmerged
/// paths.
///
/// Git documents it as `--ours, --theirs`; the token emitted is `--theirs`.
pub fn theirs_option() -> (opt: CommandOption)
    ensures
        opt@ == seq!["--theirs"@],
{
    CommandOption::flag("--theirs")
}

/// Create a new branch named <new_branch> and start it at <start_point>; see git-branch(1) for
/// details.
///
/// Git documents it as `-b [new_branch]`; the tokens emitted are `-b` and then the value, or `-b`
/// alone when the value is empty.
pub fn b_option(new_branch_arg: &str) -> (opt: CommandOption)
    ensures
        opt@ == separate("-b"@, new_branch_arg@),
{
    CommandOption::separate("-b", new_branch_arg)
}

/// Creates the branch <new_branch> and start it at <start_point>; if it already exists, then reset
/// it to <start_point>. This is equivalent to running 'git branch' with '-f'; see git-branch(1) for
/// details.
///
/// Git documents it as `-B [new_branch]`; the tokens emitted are `-B` and then the value, or `-B`
/// alone when the value is empty.
pub fn upper_b_option(new_branch_arg: &str) -> (opt: CommandOption)
    ensures
        opt@ == separate("-B"@, new_branch_arg@),
{
    CommandOption::separate("-B", new_branch_arg)
}

/// When creating a new branch, set up 'upstream' configuration. See '--track' in git-branch(1) for
/// details.
///
/// Git documents it as `-t, --track`; the token emitted is `--track`.
pub fn track_option() -> (opt: CommandOption)
    ensures
        opt@ == seq!["--track"@],
{
    CommandOption::flag("--track")
}

/// Do not set up 'upstream' configuration, even if the branch.autoSetupMerge configuration variable
/// is true.
///
/// Git documents it as `--no-track`; the token emitted is `--no-track`.
pub fn no_track_option() -> (opt: CommandOption)
    ensures
        opt@ == seq!["--no-track"@],
{
    CommandOption::flag("--no-track")
}

/// Create the new branch's reflog; see git-branch(1) for details.
///
/// Git documents it as `-l`; the token emitted is `-l`.
pub fn l_option() -> (opt: CommandOption)
    ensures
        opt@ == seq!["-l"@],
{
    CommandOption::flag("-l")
}

/// Rather than checking out a branch to work on it, check out a commit for inspection and
/// discardable experiments. This is the default behavior of 'git checkout <commit>' when <commit>
/// is not a branch name. See the 'DETACHED HEAD' section below for details.
///
/// Git documents it as `--detach`; the token emitted is `--detach`.
pub fn detach_option() -> (opt: CommandOption)
    ensures
        opt@ == seq!["--detach"@],
{
    CommandOption::flag("--detach")
}

/// Create a new orphan branch, named <new_branch>, started from <start_point> and switch to it. The
/// first commit made on this new branch will have no parents and it will be the root of a new
/// history totally disconnected from all the other branches and commits.
///
/// Git documents it as `--orphan <new_branch>`; the tokens emitted are `--orphan` and then the
/// value, or `--orphan` alone when the value is empty.
pub fn orphan_option(new_branch_arg: &str) -> (opt: CommandOption)
    ensures
        opt@ == separate("--orphan"@, new_branch_arg@),
{
    CommandOption::separate("--orphan", new_branch_arg)
}

/// In sparse checkout mode, git checkout -- <paths> would update only entries matched by <paths>
/// and sparse patterns in $GIT_DIR/info/sparse-checkout. This option ignores the sparse patterns
/// and adds back any files in <paths>.
///
/// Git documents it as `--ignore-skip-worktree-bits`; the token emitted is
/// `--ignore-skip-worktree-bits`.
pub fn ignore_skip_worktree_bits_option() -> (opt: CommandOption)
    ensures
        opt@ == seq!["--ignore-skip-worktree-bits"@],
{
    CommandOption::flag("--ignore-skip-worktree-bits")
}

/// When switching branches, if you have local modifications to one or more files that are different
/// between the current branch and the branch to which you are switching, the command refuses to
/// switch branches in order to preserve your modifications in context. However, with this option, a
/// three-way merge between the current branch, your working tree contents, and the new branch is
/// done, and you will be on the new branch.
///
/// Git documents it as `-m, --merge`; the token emitted is `--merge`.
pub fn merge_option() -> (opt: CommandOption)
    ensures
        opt@ == seq!["--merge"@],
{
    CommandOption::flag("--merge")
}

/// The same as --merge option above, but changes the way the conflicting hunks are presented,
/// overriding the merge.conflictStyle configuration variable. Possible values are 'merge' (default)
/// and 'diff3' (in addition to what is shown by 'merge' style, shows the contents of the common
/// base).
///
/// Git documents it as `--conflict=<style>`; the token emitted is `--conflict=` followed by the
/// value, or `--conflict` alone when the value is empty.
pub fn conflict_option(style_arg: &str) -> (opt: CommandOption)
    ensures
        opt@ == joined("--conflict"@, style_arg@),
{
    CommandOption::joined("--conflict", style_arg)
}

/// Interactively select hunks in the difference between the <tree-ish> (or the index, if
/// unspecified) and the working tree. The chosen hunks are then applied in reverse to the working
/// tree (and if a <tree-ish> was specified, the index).
///
/// Git documents it as `-p, --patch`; the token emitted is `--patch`.
pub fn patch_option() -> (opt: CommandOption)
    ensures
        opt@ == seq!["--patch"@],
{
    CommandOption::flag("--patch")
}

/// git checkout refuses when the wanted ref is already checked out by another worktree. This option
/// makes it check the ref out anyway. In other words, the ref can be held by more than one
/// worktree.
///
/// Git documents it as `--ignore-other-worktrees`; the token emitted is `--ignore-other-worktrees`.
pub fn ignore_other_worktrees_option() -> (opt: CommandOption)
    ensures
        opt@ == seq!["--ignore-other-worktrees"@],
{
    CommandOption::flag("--ignore-other-worktrees")
}

/// Using --recurse-submodules will update the content of all initialized submodules according to
/// the commit recorded in the superproject. If local modifications in a submodule would be
/// overwritten the checkout will fail unless -f is used. If nothing (or --no-recurse-submodules) is
/// used, the work trees of submodules will not be updated.
///
/// Git documents it as `--recurse-submodules`; the token emitted is `--recurse-submodules`.
pub fn recurse_submodules_option() -> (opt: CommandOption)
    ensures
        opt@ == seq!["--recurse-submodules"@],
{
    CommandOption::flag("--recurse-submodules")
}

/// Using --recurse-submodules will update the content of all initialized submodules according to
/// the commit recorded in the superproject. If local modifications in a submodule would be
/// overwritten the checkout will fail unless -f is used. If nothing (or --no-recurse-submodules) is
/// used, the work trees of submodules will not be updated.
///
/// Git documents it as `--no-recurse-submodules`; the token emitted is `--no-recurse-submodules`.
pub fn no_recurse_submodules_option() -> (opt: CommandOption)
    ensures
        opt@ == seq!["--no-recurse-submodules"@],
{
    CommandOption::flag("--no-recurse-submodules")
}

} // verus!
