//! The options of `git merge`.
//!
//! Each function builds one option action. A flag without a value emits its one
//! token. A flag with a value emits the flag and the value, joined by `=` or as
//! two tokens, as Git documents that flag; an empty value leaves the bare flag.

use vstd::prelude::*;

use crate::command_executor::{joined, separate};
use crate::wrap_command::FnOptionArg;

verus! {

/// Perform the merge and commit the result. This option can be used to override --no-commit.
///
/// Git documents it as `--commit, --no-commit`; the token emitted is `--commit`.
pub fn commit() -> (opt: FnOptionArg)
    ensures
        opt@ == seq!["--commit"@],
{
    FnOptionArg::flag("--commit")
}

/// With --no-commit perform the merge but pretend the merge failed and do not autocommit, to give
/// the user a chance to inspect and further tweak the merge result before committing.
///
/// Git documents it as `--commit, --no-commit`; the token emitted is `--no-commit`.
pub fn no_commit() -> (opt: FnOptionArg)
    ensures
        opt@ == seq!["--no-commit"@],
{
    FnOptionArg::flag("--no-commit")
}

/// Invoke an editor before committing successful mechanical merge to further edit the automatic
/// merge message, so that the user can explain and justify the merge. The --no-edit option can be
/// used to accept the automatic message (this is generally discouraged). The --edit (or -e) option
/// is still useful if you are giving a draft message with the -m option from the command line and
/// want to edit it in the editor. Older scripts may depend on the historical behaviour of not
/// allowing the user to edit the merge log message. They will see an editor opened when they run
/// git merge. To make it easier to adjust such scripts to the updated behaviour, the environment
/// variable GIT_MERGE_AUTOEDIT can be set to no at the beginning of them.
///
/// Git documents it as `--edit, -e, --no-edit`; the token emitted is `--edit`.
pub fn edit() -> (opt: FnOptionArg)
    ensures
        opt@ == seq!["--edit"@],
{
    FnOptionArg::flag("--edit")
}

/// Invoke an editor before committing successful mechanical merge to further edit the automatic
/// merge message, so that the user can explain and justify the merge. The --no-edit option can be
/// used to accept the automatic message (this is generally discouraged). The --edit (or -e) option
/// is still useful if you are giving a draft message with the -m option from the command line and
/// want to edit it in the editor. Older scripts may depend on the historical behaviour of not
/// allowing the user to edit the merge log message. They will see an editor opened when they run
/// git merge. To make it easier to adjust such scripts to the updated behaviour, the environment
/// variable GIT_MERGE_AUTOEDIT can be set to no at the beginning of them.
///
/// Git documents it as `--edit, -e, --no-edit`; the token emitted is `--no-edit`.
pub fn no_edit() -> (opt: FnOptionArg)
    ensures
        opt@ == seq!["--no-edit"@],
{
    FnOptionArg::flag("--no-edit")
}

/// When the merge resolves as a fast-forward, only update the branch pointer, without creating a
/// merge commit. This is the default behavior.
///
/// Git documents it as `--ff`; the token emitted is `--ff`.
pub fn ff() -> (opt: FnOptionArg)
    ensures
        opt@ == seq!["--ff"@],
{
    FnOptionArg::flag("--ff")
}

/// Create a merge commit even when the merge resolves as a fast-forward. This is the default
/// behaviour when merging an annotated (and possibly signed) tag.
///
/// Git documents it as `--no-ff`; the token emitted is `--no-ff`.
pub fn no_ff() -> (opt: FnOptionArg)
    ensures
        opt@ == seq!["--no-ff"@],
{
    FnOptionArg::flag("--no-ff")
}

/// Refuse to merge and exit with a non-zero status unless the current HEAD is already up-to-date or
/// the merge can be resolved as a fast-forward.
///
/// Git documents it as `--ff-only`; the token emitted is `--ff-only`.
pub fn ff_only() -> (opt: FnOptionArg)
    ensures
        opt@ == seq!["--ff-only"@],
{
    FnOptionArg::flag("--ff-only")
}

/// In addition to branch names, populate the log message with one-line descriptions from at most
/// <n> actual commits that are being merged. See also git-fmt-merge-msg(1). With --no-log do not
/// list one-line descriptions from the actual commits being merged.
///
/// Git documents it as `--log[=<n>], --no-log`; the token emitted is `--log=` followed by the
/// value, or `--log` alone when the value is empty.
pub fn log(n_arg: &str) -> (opt: FnOptionArg)
    ensures
        opt@ == joined("--log"@, n_arg@),
{
    FnOptionArg::joined("--log", n_arg)
}

/// In addition to branch names, populate the log message with one-line descriptions from at most
/// <n> actual commits that are being merged. See also git-fmt-merge-msg(1). With --no-log do not
/// list one-line descriptions from the actual commits being merged.
///
/// Git documents it as `--log[=<n>], --no-log`; the token emitted is `--no-log`.
pub fn no_log() -> (opt: FnOptionArg)
    ensures
        opt@ == seq!["--no-log"@],
{
    FnOptionArg::flag("--no-log")
}

/// Show a diffstat at the end of the merge. The diffstat is also controlled by the configuration
/// option merge.stat. With -n or --no-stat do not show a diffstat at the end of the merge.
///
/// Git documents it as `--stat, -n, --no-stat`; the token emitted is `--stat`.
pub fn stat() -> (opt: FnOptionArg)
    ensures
        opt@ == seq!["--stat"@],
{
    FnOptionArg::flag("--stat")
}

/// Show a diffstat at the end of the merge. The diffstat is also controlled by the configuration
/// option merge.stat. With -n or --no-stat do not show a diffstat at the end of the merge.
///
/// Git documents it as `--stat, -n, --no-stat`; the token emitted is `--no-stat`.
pub fn no_stat() -> (opt: FnOptionArg)
    ensures
        opt@ == seq!["--no-stat"@],
{
    FnOptionArg::flag("--no-stat")
}

/// Produce the working tree and index state as if a real merge happened (except for the merge
/// information), but do not actually make a commit, move the HEAD, or record $GIT_DIR/MERGE_HEAD
/// (to cause the next git commit command to create a merge commit). This allows you to create a
/// single commit on top of the current branch whose effect is the same as merging another branch
/// (or more in case of an octopus). With --no-squash perform the merge and commit the result. This
/// option can be used to override --squash.
///
/// Git documents it as `--squash, --no-squash`; the token emitted is `--squash`.
pub fn squash() -> (opt: FnOptionArg)
    ensures
        opt@ == seq!["--squash"@],
{
    FnOptionArg::flag("--squash")
}

/// Produce the working tree and index state as if a real merge happened (except for the merge
/// information), but do not actually make a commit, move the HEAD, or record $GIT_DIR/MERGE_HEAD
/// (to cause the next git commit command to create a merge commit). This allows you to create a
/// single commit on top of the current branch whose effect is the same as merging another branch
/// (or more in case of an octopus). With --no-squash perform the merge and commit the result. This
/// option can be used to override --squash.
///
/// Git documents it as `--squash, --no-squash`; the token emitted is `--no-squash`.
pub fn no_squash() -> (opt: FnOptionArg)
    ensures
        opt@ == seq!["--no-squash"@],
{
    FnOptionArg::flag("--no-squash")
}

/// Use the given merge strategy; can be supplied more than once to specify them in the order they
/// should be tried. If there is no -s option, a built-in list of strategies is used instead (git
/// merge-recursive when merging a single head, git merge-octopus otherwise).
///
/// Git documents it as `-s <strategy>, --strategy=<strategy>`; the token emitted is `--strategy=`
/// followed by the value, or `--strategy` alone when the value is empty.
pub fn strategy(strategy_arg: &str) -> (opt: FnOptionArg)
    ensures
        opt@ == joined("--strategy"@, strategy_arg@),
{
    FnOptionArg::joined("--strategy", strategy_arg)
}

/// Pass merge strategy specific option through to the merge strategy.
///
/// Git documents it as `-X <option>, --strategy-option=<option>`; the token emitted is
/// `--strategy-option=` followed by the value, or `--strategy-option` alone when the value is
/// empty.
pub fn strategy_option(option_arg: &str) -> (opt: FnOptionArg)
    ensures
        opt@ == joined("--strategy-option"@, option_arg@),
{
    FnOptionArg::joined("--strategy-option", option_arg)
}

/// Verify that the tip commit of the side branch being merged is signed with a valid key, i.e. a
/// key that has a valid uid: in the default trust model, this means the signing key has been signed
/// by a trusted key. If the tip commit of the side branch is not signed with a valid key, the merge
/// is aborted.
///
/// Git documents it as `--verify-signatures, --no-verify-signatures`; the token emitted is
/// `--verify-signatures`.
pub fn verify_signatures() -> (opt: FnOptionArg)
    ensures
        opt@ == seq!["--verify-signatures"@],
{
    FnOptionArg::flag("--verify-signatures")
}

/// Verify that the tip commit of the side branch being merged is signed with a valid key, i.e. a
/// key that has a valid uid: in the default trust model, this means the signing key has been signed
/// by a trusted key. If the tip commit of the side branch is not signed with a valid key, the merge
/// is aborted.
///
/// Git documents it as `--verify-signatures, --no-verify-signatures`; the token emitted is
/// `--no-verify-signatures`.
pub fn no_verify_signatures() -> (opt: FnOptionArg)
    ensures
        opt@ == seq!["--no-verify-signatures"@],
{
    FnOptionArg::flag("--no-verify-signatures")
}

/// Synonyms to --stat and --no-stat; these are deprecated and will be removed in the future.
///
/// Git documents it as `--summary, --no-summary`; the token emitted is `--summary`.
pub fn summary() -> (opt: FnOptionArg)
    ensures
        opt@ == seq!["--summary"@],
{
    FnOptionArg::flag("--summary")
}

/// Synonyms to --stat and --no-stat; these are deprecated and will be removed in the future.
///
/// Git documents it as `--summary, --no-summary`; the token emitted is `--no-summary`.
pub fn no_summary() -> (opt: FnOptionArg)
    ensures
        opt@ == seq!["--no-summary"@],
{
    FnOptionArg::flag("--no-summary")
}

/// Operate quietly. Implies --no-progress.
///
/// Git documents it as `-q, --quiet`; the token emitted is `--quiet`.
pub fn quiet() -> (opt: FnOptionArg)
    ensures
        opt@ == seq!["--quiet"@],
{
    FnOptionArg::flag("--quiet")
}

/// Be verbose.
///
/// Git documents it as `-v, --verbose`; the token emitted is `--verbose`.
pub fn verbose() -> (opt: FnOptionArg)
    ensures
        opt@ == seq!["--verbose"@],
{
    FnOptionArg::flag("--verbose")
}

/// Turn progress on/off explicitly. If neither is specified, progress is shown if standard error is
/// connected to a terminal. Note that not all merge strategies may support progress reporting.
///
/// Git documents it as `--progress, --no-progress`; the token emitted is `--progress`.
pub fn progress() -> (opt: FnOptionArg)
    ensures
        opt@ == seq!["--progress"@],
{
    FnOptionArg::flag("--progress")
}

/// Turn progress on/off explicitly. If neither is specified, progress is shown if standard error is
/// connected to a terminal. Note that not all merge strategies may support progress reporting.
///
/// Git documents it as `--progress, --no-progress`; the token emitted is `--no-progress`.
pub fn no_progress() -> (opt: FnOptionArg)
    ensures
        opt@ == seq!["--no-progress"@],
{
    FnOptionArg::flag("--no-progress")
}

/// By default, git merge command refuses to merge histories that do not share a common ancestor.
/// This option can be used to override this safety when merging histories of two projects that
/// started their lives independently. As that is a very rare occasion, no configuration variable to
/// enable this by default exists and will not be added.
///
/// Git documents it as `--allow-unrelated-histories`; the token emitted is
/// `--allow-unrelated-histories`.
pub fn allow_unrelated_histories() -> (opt: FnOptionArg)
    ensures
        opt@ == seq!["--allow-unrelated-histories"@],
{
    FnOptionArg::flag("--allow-unrelated-histories")
}

/// GPG-sign the resulting merge commit. The keyid argument is optional and defaults to the
/// committer identity; if specified, it must be stuck to the option without a space.
///
/// Git documents it as `-S[<keyid>], --gpg-sign[=<keyid>]`; the token emitted is `--gpg-sign=`
/// followed by the value, or `--gpg-sign` alone when the value is empty.
pub fn gpg_sign(keyid_arg: &str) -> (opt: FnOptionArg)
    ensures
        opt@ == joined("--gpg-sign"@, keyid_arg@),
{
    FnOptionArg::joined("--gpg-sign", keyid_arg)
}

/// Set the commit message to be used for the merge commit (in case one is created). If --log is
/// specified, a shortlog of the commits being merged will be appended to the specified message. The
/// git fmt-merge-msg command can be used to give a good default for automated git merge
/// invocations. The automated message can include the branch description.
///
/// Git documents it as `-m <msg>`; the tokens emitted are `-m` and then the value, or `-m` alone
/// when the value is empty.
pub fn m(msg_arg: &str) -> (opt: FnOptionArg)
    ensures
        opt@ == separate("-m"@, msg_arg@),
{
    FnOptionArg::separate("-m", msg_arg)
}

/// Allow the rerere mechanism to update the index with the result of auto-conflict resolution if
/// possible.
///
/// Git documents it as `--[no-]rerere-autoupdate`; the token emitted is `--rerere-autoupdate`.
pub fn rerere_autoupdate() -> (opt: FnOptionArg)
    ensures
        opt@ == seq!["--rerere-autoupdate"@],
{
    FnOptionArg::flag("--rerere-autoupdate")
}

/// Allow the rerere mechanism to update the index with the result of auto-conflict resolution if
/// possible.
///
/// Git documents it as `--[no-]rerere-autoupdate`; the token emitted is `--no-rerere-autoupdate`.
pub fn no_rerere_autoupdate() -> (opt: FnOptionArg)
    ensures
        opt@ == seq!["--no-rerere-autoupdate"@],
{
    FnOptionArg::flag("--no-rerere-autoupdate")
}

/// Abort the current conflict resolution process, and try to reconstruct the pre-merge state. If
/// there were uncommitted worktree changes present when the merge started, git merge --abort will
/// in some cases be unable to reconstruct these changes. It is therefore recommended to always
/// commit or stash your changes before running git merge. git merge --abort is equivalent to git
/// reset --merge when MERGE_HEAD is present.
///
/// Git documents it as `--abort`; the token emitted is `--abort`.
pub fn abort() -> (opt: FnOptionArg)
    ensures
        opt@ == seq!["--abort"@],
{
    FnOptionArg::flag("--abort")
}

/// After a git merge stops due to conflicts you can conclude the merge by running git merge
/// --continue (see 'HOW TO RESOLVE CONFLICTS' section below).
///
/// Git documents it as `--continue`; the token emitted is `--continue`.
pub fn continue_merge() -> (opt: FnOptionArg)
    ensures
        opt@ == seq!["--continue"@],
{
    FnOptionArg::flag("--continue")
}

} // verus!
