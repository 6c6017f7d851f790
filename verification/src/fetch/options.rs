//! The options of `git fetch`.
//!
//! Each function builds one option action. A flag without a value emits its one
//! token. A flag with a value emits the flag and the value, joined by `=` or as
//! two tokens, as Git documents that flag; an empty value leaves the bare flag.

use vstd::prelude::*;

use crate::command_executor::{joined, separate};
use crate::wrap_command::FnOptionArg;

verus! {

/// Fetch all remotes.
///
/// Git documents it as `--all`; the token emitted is `--all`.
pub fn all() -> (opt: FnOptionArg)
    ensures
        opt@ == seq!["--all"@],
{
    FnOptionArg::flag("--all")
}

/// Append ref names and object names of fetched refs to the existing contents of .git/FETCH_HEAD.
/// Without this option old data in .git/FETCH_HEAD will be overwritten.
///
/// Git documents it as `-a, --append`; the token emitted is `--append`.
pub fn append() -> (opt: FnOptionArg)
    ensures
        opt@ == seq!["--append"@],
{
    FnOptionArg::flag("--append")
}

/// Limit fetching to the specified number of commits from the tip of each remote branch history. If
/// fetching to a shallow repository created by git clone with --depth=<depth> option (see
/// git-clone(1)), deepen or shorten the history to the specified number of commits. Tags for the
/// deepened commits are not fetched.
///
/// Git documents it as `--depth=<depth>`; the token emitted is `--depth=` followed by the value, or
/// `--depth` alone when the value is empty.
pub fn depth(depth_arg: &str) -> (opt: FnOptionArg)
    ensures
        opt@ == joined("--depth"@, depth_arg@),
{
    FnOptionArg::joined("--depth", depth_arg)
}

/// Similar to --depth, except it specifies the number of commits from the current shallow boundary
/// instead of from the tip of each remote branch history.
///
/// Git documents it as `--deepen=<depth>`; the token emitted is `--deepen=` followed by the value,
/// or `--deepen` alone when the value is empty.
pub fn deepen(depth_arg: &str) -> (opt: FnOptionArg)
    ensures
        opt@ == joined("--deepen"@, depth_arg@),
{
    FnOptionArg::joined("--deepen", depth_arg)
}

/// Deepen or shorten the history of a shallow repository to include all reachable commits after
/// <date>.
///
/// Git documents it as `--shallow-since=<date>`; the token emitted is `--shallow-since=` followed
/// by the value, or `--shallow-since` alone when the value is empty.
pub fn shallow_since(date_arg: &str) -> (opt: FnOptionArg)
    ensures
        opt@ == joined("--shallow-since"@, date_arg@),
{
    FnOptionArg::joined("--shallow-since", date_arg)
}

/// Deepen or shorten the history of a shallow repository to exclude commits reachable from a
/// specified remote branch or tag. This option can be specified multiple times.
///
/// Git documents it as `--shallow-exclude=<revision>`; the token emitted is `--shallow-exclude=`
/// followed by the value, or `--shallow-exclude` alone when the value is empty.
pub fn shallow_exclude(revision_arg: &str) -> (opt: FnOptionArg)
    ensures
        opt@ == joined("--shallow-exclude"@, revision_arg@),
{
    FnOptionArg::joined("--shallow-exclude", revision_arg)
}

/// If the source repository is complete, convert a shallow repository to a complete one, removing
/// all the limitations imposed by shallow repositories. If the source repository is shallow, fetch
/// as much as possible so that the current repository has the same history as the source
/// repository.
///
/// Git documents it as `--unshallow`; the token emitted is `--unshallow`.
pub fn unshallow() -> (opt: FnOptionArg)
    ensures
        opt@ == seq!["--unshallow"@],
{
    FnOptionArg::flag("--unshallow")
}

/// By default when fetching from a shallow repository, git fetch refuses refs that require updating
/// .git/shallow. This option updates .git/shallow and accept such refs.
///
/// Git documents it as `--update-shallow`; the token emitted is `--update-shallow`.
pub fn update_shallow() -> (opt: FnOptionArg)
    ensures
        opt@ == seq!["--update-shallow"@],
{
    FnOptionArg::flag("--update-shallow")
}

/// Show what would be done, without making any changes.
///
/// Git documents it as `--dry-run`; the token emitted is `--dry-run`.
pub fn dry_run() -> (opt: FnOptionArg)
    ensures
        opt@ == seq!["--dry-run"@],
{
    FnOptionArg::flag("--dry-run")
}

/// When git fetch is used with <rbranch>:<lbranch> refspec, it refuses to update the local branch
/// <lbranch> unless the remote branch <rbranch> it fetches is a descendant of <lbranch>. This
/// option overrides that check.
///
/// Git documents it as `-f, --force`; the token emitted is `--force`.
pub fn force() -> (opt: FnOptionArg)
    ensures
        opt@ == seq!["--force"@],
{
    FnOptionArg::flag("--force")
}

/// Keep downloaded pack.
///
/// Git documents it as `-k, --keep`; the token emitted is `--keep`.
pub fn keep() -> (opt: FnOptionArg)
    ensures
        opt@ == seq!["--keep"@],
{
    FnOptionArg::flag("--keep")
}

/// Allow several <repository> and <group> arguments to be specified. No <refspec>s may be
/// specified.
///
/// Git documents it as `--multiple`; the token emitted is `--multiple`.
pub fn multiple() -> (opt: FnOptionArg)
    ensures
        opt@ == seq!["--multiple"@],
{
    FnOptionArg::flag("--multiple")
}

/// Before fetching, remove any remote-tracking references that no longer exist on the remote.
///
/// Git documents it as `-p, --prune`; the token emitted is `--prune`.
pub fn prune() -> (opt: FnOptionArg)
    ensures
        opt@ == seq!["--prune"@],
{
    FnOptionArg::flag("--prune")
}

/// By default, tags that point at objects that are downloaded from the remote repository are
/// fetched and stored locally. This option disables this automatic tag following. The default
/// behavior for a remote may be specified with the remote.<name>.tagOpt setting.
///
/// Git documents it as `-n, --no-tags`; the token emitted is `--no-tags`.
pub fn no_tags() -> (opt: FnOptionArg)
    ensures
        opt@ == seq!["--no-tags"@],
{
    FnOptionArg::flag("--no-tags")
}

/// When fetching refs listed on the command line, use the specified refspec (can be given more than
/// once) to map the refs to remote-tracking branches, instead of the values of remote.*.fetch
/// configuration variables for the remote repository.
///
/// Git documents it as `--refmap=<refspec>`; the token emitted is `--refmap=` followed by the
/// value, or `--refmap` alone when the value is empty.
pub fn refmap(refspec_arg: &str) -> (opt: FnOptionArg)
    ensures
        opt@ == joined("--refmap"@, refspec_arg@),
{
    FnOptionArg::joined("--refmap", refspec_arg)
}

/// Fetch all tags from the remote (i.e., fetch remote tags refs/tags/* into local tags with the
/// same name), in addition to whatever else would otherwise be fetched.
///
/// Git documents it as `-t, --tags`; the token emitted is `--tags`.
pub fn tags() -> (opt: FnOptionArg)
    ensures
        opt@ == seq!["--tags"@],
{
    FnOptionArg::flag("--tags")
}

/// This option controls if and under what conditions new commits of populated submodules should be
/// fetched too.
///
/// Git documents it as `--recurse-submodules[=yes|on-demand|no]`; the token emitted is
/// `--recurse-submodules=` followed by the value, or `--recurse-submodules` alone when the value is
/// empty.
pub fn recurse_submodules(value: &str) -> (opt: FnOptionArg)
    ensures
        opt@ == joined("--recurse-submodules"@, value@),
{
    FnOptionArg::joined("--recurse-submodules", value)
}

/// Number of parallel children to be used for fetching submodules. Each will fetch from different
/// submodules, such that fetching many submodules will be faster. By default submodules will be
/// fetched one at a time.
///
/// Git documents it as `-j, --jobs=<n>`; the token emitted is `--jobs=` followed by the value, or
/// `--jobs` alone when the value is empty.
pub fn jobs(n_arg: &str) -> (opt: FnOptionArg)
    ensures
        opt@ == joined("--jobs"@, n_arg@),
{
    FnOptionArg::joined("--jobs", n_arg)
}

/// Disable recursive fetching of submodules (this has the same effect as using the
/// --recurse-submodules=no option).
///
/// Git documents it as `--no-recurse-submodules`; the token emitted is `--no-recurse-submodules`.
pub fn no_recurse_submodules() -> (opt: FnOptionArg)
    ensures
        opt@ == seq!["--no-recurse-submodules"@],
{
    FnOptionArg::flag("--no-recurse-submodules")
}

/// Prepend <path> to paths printed in informative messages.
///
/// Git documents it as `--submodule-prefix=<path>`; the token emitted is `--submodule-prefix=`
/// followed by the value, or `--submodule-prefix` alone when the value is empty.
pub fn submodule_prefix(path_arg: &str) -> (opt: FnOptionArg)
    ensures
        opt@ == joined("--submodule-prefix"@, path_arg@),
{
    FnOptionArg::joined("--submodule-prefix", path_arg)
}

/// This option is used internally to temporarily provide a non-negative default value for the
/// --recurse-submodules option. All other methods of configuring fetch's submodule recursion (such
/// as settings in gitmodules(5) and git-config(1)) override this option, as does specifying
/// --[no-]recurse-submodules directly.
///
/// Git documents it as `--recurse-submodules-default=[yes|on-demand]`; the token emitted is
/// `--recurse-submodules-default=` followed by the value, or `--recurse-submodules-default` alone
/// when the value is empty.
pub fn recurse_submodules_default(value: &str) -> (opt: FnOptionArg)
    ensures
        opt@ == joined("--recurse-submodules-default"@, value@),
{
    FnOptionArg::joined("--recurse-submodules-default", value)
}

/// By default git fetch refuses to update the head which corresponds to the current branch. This
/// flag disables the check. This is purely for the internal use for git pull to communicate with
/// git fetch, and unless you are implementing your own Porcelain you are not supposed to use it.
///
/// Git documents it as `-u, --update-head-ok`; the token emitted is `--update-head-ok`.
pub fn update_head_ok() -> (opt: FnOptionArg)
    ensures
        opt@ == seq!["--update-head-ok"@],
{
    FnOptionArg::flag("--update-head-ok")
}

/// When given, and the repository to fetch from is handled by git fetch-pack, --exec=<upload-pack>
/// is passed to the command to specify non-default path for the command run on the other end.
///
/// Git documents it as `--upload-pack <upload-pack>`; the tokens emitted are `--upload-pack` and
/// then the value, or `--upload-pack` alone when the value is empty.
pub fn upload_pack(upload_pack_arg: &str) -> (opt: FnOptionArg)
    ensures
        opt@ == separate("--upload-pack"@, upload_pack_arg@),
{
    FnOptionArg::separate("--upload-pack", upload_pack_arg)
}

/// Pass --quiet to git-fetch-pack and silence any other internally used git commands. Progress is
/// not reported to the standard error stream.
///
/// Git documents it as `-q, --quiet`; the token emitted is `--quiet`.
pub fn quiet() -> (opt: FnOptionArg)
    ensures
        opt@ == seq!["--quiet"@],
{
    FnOptionArg::flag("--quiet")
}

/// Be verbose.
///
/// Git documents it as `-v, --verbose`; the token emitted is `--verbose`.
pub fn verbose() -> (opt: FnOptionArg)
    ensures
        opt@ == seq!["--verbose"@],
{
    FnOptionArg::flag("--verbose")
}

/// Progress status is reported on the standard error stream by default when it is attached to a
/// terminal, unless -q is specified. This flag forces progress status even if the standard error
/// stream is not directed to a terminal.
///
/// Git documents it as `--progress`; the token emitted is `--progress`.
pub fn progress() -> (opt: FnOptionArg)
    ensures
        opt@ == seq!["--progress"@],
{
    FnOptionArg::flag("--progress")
}

/// Use IPv4 addresses only, ignoring IPv6 addresses.
///
/// Git documents it as `-4, --ipv4`; the token emitted is `--ipv4`.
pub fn ipv4() -> (opt: FnOptionArg)
    ensures
        opt@ == seq!["--ipv4"@],
{
    FnOptionArg::flag("--ipv4")
}

/// Use IPv6 addresses only, ignoring IPv4 addresses.
///
/// Git documents it as `-6, --ipv6`; the token emitted is `--ipv6`.
pub fn ipv6() -> (opt: FnOptionArg)
    ensures
        opt@ == seq!["--ipv6"@],
{
    FnOptionArg::flag("--ipv6")
}

} // verus!
