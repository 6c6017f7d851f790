//! The options of `git rev-parse`, under their `_option` names.
//!
//! Each function builds one option action. A flag without a value emits its one
//! token. A flag with a value emits the flag and the value, joined by `=` or as
//! two tokens, as Git documents that flag; an empty value leaves the bare flag.

use vstd::prelude::*;

use crate::command_executor::{joined, separate, CommandOption};

verus! {

/// Use git rev-parse in option parsing mode (see PARSEOPT section below).
///
/// Git documents it as `--parseopt`; the token emitted is `--parseopt`.
pub fn parseopt_option() -> (opt: CommandOption)
    ensures
        opt@ == seq!["--parseopt"@],
{
    CommandOption::flag("--parseopt")
}

/// Use git rev-parse in shell quoting mode (see SQ-QUOTE section below). In contrast to the --sq
/// option below, this mode does only quoting. Nothing else is done to command input.
///
/// Git documents it as `--sq-quote`; the token emitted is `--sq-quote`.
pub fn sq_quote_option() -> (opt: CommandOption)
    ensures
        opt@ == seq!["--sq-quote"@],
{
    CommandOption::flag("--sq-quote")
}

/// Only meaningful in --parseopt mode. Tells the option parser to echo out the first -- met instead
/// of skipping it.
///
/// Git documents it as `--keep-dashdash`; the token emitted is `--keep-dashdash`.
pub fn keep_dashdash_option() -> (opt: CommandOption)
    ensures
        opt@ == seq!["--keep-dashdash"@],
{
    CommandOption::flag("--keep-dashdash")
}

/// Only meaningful in --parseopt mode. Lets the option parser stop at the first non-option
/// argument. This can be used to parse sub-commands that take options themselves.
///
/// Git documents it as `--stop-at-non-option`; the token emitted is `--stop-at-non-option`.
pub fn stop_at_non_option_option() -> (opt: CommandOption)
    ensures
        opt@ == seq!["--stop-at-non-option"@],
{
    CommandOption::flag("--stop-at-non-option")
}

/// Only meaningful in --parseopt mode. Output the options in their long form if available, and with
/// their arguments stuck.
///
/// Git documents it as `--stuck-long`; the token emitted is `--stuck-long`.
pub fn stuck_long_option() -> (opt: CommandOption)
    ensures
        opt@ == seq!["--stuck-long"@],
{
    CommandOption::flag("--stuck-long")
}

/// Do not output flags and parameters not meant for git rev-list command.
///
/// Git documents it as `--revs-only`; the token emitted is `--revs-only`.
pub fn revs_only_option() -> (opt: CommandOption)
    ensures
        opt@ == seq!["--revs-only"@],
{
    CommandOption::flag("--revs-only")
}

/// Do not output flags and parameters meant for git rev-list command.
///
/// Git documents it as `--no-revs`; the token emitted is `--no-revs`.
pub fn no_revs_option() -> (opt: CommandOption)
    ensures
        opt@ == seq!["--no-revs"@],
{
    CommandOption::flag("--no-revs")
}

/// Do not output non-flag parameters.
///
/// Git documents it as `--flags`; the token emitted is `--flags`.
pub fn flags_option() -> (opt: CommandOption)
    ensures
        opt@ == seq!["--flags"@],
{
    CommandOption::flag("--flags")
}

/// Do not output flag parameters.
///
/// Git documents it as `--no-flags`; the token emitted is `--no-flags`.
pub fn no_flags_option() -> (opt: CommandOption)
    ensures
        opt@ == seq!["--no-flags"@],
{
    CommandOption::flag("--no-flags")
}

/// If there is no parameter given by the user, use <arg> instead.
///
/// Git documents it as `--default <arg>`; the tokens emitted are `--default` and then the value, or
/// `--default` alone when the value is empty.
pub fn default_option(arg_arg: &str) -> (opt: CommandOption)
    ensures
        opt@ == separate("--default"@, arg_arg@),
{
    CommandOption::separate("--default", arg_arg)
}

/// Behave as if git rev-parse was invoked from the <arg> subdirectory of the working tree. Any
/// relative filenames are resolved as if they are prefixed by <arg> and will be printed in that
/// form. This can be used to convert arguments to a command run in a subdirectory so that they can
/// still be used after moving to the top-level of the repository.
///
/// Git documents it as `--prefix <arg>`; the tokens emitted are `--prefix` and then the value, or
/// `--prefix` alone when the value is empty.
pub fn prefix_option(arg_arg: &str) -> (opt: CommandOption)
    ensures
        opt@ == separate("--prefix"@, arg_arg@),
{
    CommandOption::separate("--prefix", arg_arg)
}

/// Verify that exactly one parameter is provided, and that it can be turned into a raw 20-byte
/// SHA-1 that can be used to access the object database. If so, emit it to the standard output;
/// otherwise, error out.
///
/// Git documents it as `--verify`; the token emitted is `--verify`.
pub fn verify_option() -> (opt: CommandOption)
    ensures
        opt@ == seq!["--verify"@],
{
    CommandOption::flag("--verify")
}

/// Only meaningful in --verify mode. Do not output an error message if the first argument is not a
/// valid object name; instead exit with non-zero status silently. SHA-1s for valid object names are
/// printed to stdout on success.
///
/// Git documents it as `-q, --quiet`; the token emitted is `--quiet`.
pub fn quiet_option() -> (opt: CommandOption)
    ensures
        opt@ == seq!["--quiet"@],
{
    CommandOption::flag("--quiet")
}

/// Usually the output is made one line per flag and parameter. This option makes output a single
/// line, properly quoted for consumption by shell. Useful when you expect your parameter to contain
/// whitespaces and newlines (e.g. when using pickaxe -S with git diff-*). In contrast to the
/// --sq-quote option, the command input is still interpreted as usual.
///
/// Git documents it as `--sq`; the token emitted is `--sq`.
pub fn sq_option() -> (opt: CommandOption)
    ensures
        opt@ == seq!["--sq"@],
{
    CommandOption::flag("--sq")
}

/// Same as --verify but shortens the object name to a unique prefix with at least length
/// characters. The minimum length is 4, the default is the effective value of the core.abbrev
/// configuration variable (see git-config(1)).
///
/// Git documents it as `--short[=length]`; the token emitted is `--short=` followed by the value,
/// or `--short` alone when the value is empty.
pub fn short_option(value: &str) -> (opt: CommandOption)
    ensures
        opt@ == joined("--short"@, value@),
{
    CommandOption::joined("--short", value)
}

/// When showing object names, prefix them with ^ and strip ^ prefix from the object names that
/// already have one.
///
/// Git documents it as `--not`; the token emitted is `--not`.
pub fn not_option() -> (opt: CommandOption)
    ensures
        opt@ == seq!["--not"@],
{
    CommandOption::flag("--not")
}

/// A non-ambiguous short name of the objects name. The option core.warnAmbiguousRefs is used to
/// select the strict abbreviation mode.
///
/// Git documents it as `--abbrev-ref[=(strict|loose)]`; the token emitted is `--abbrev-ref=`
/// followed by the value, or `--abbrev-ref` alone when the value is empty.
pub fn abbrev_ref_option(value: &str) -> (opt: CommandOption)
    ensures
        opt@ == joined("--abbrev-ref"@, value@),
{
    CommandOption::joined("--abbrev-ref", value)
}

/// Usually the object names are output in SHA-1 form (with possible ^ prefix); this option makes
/// them output in a form as close to the given input as possible.
///
/// Git documents it as `--symbolic`; the token emitted is `--symbolic`.
pub fn symbolic_option() -> (opt: CommandOption)
    ensures
        opt@ == seq!["--symbolic"@],
{
    CommandOption::flag("--symbolic")
}

/// This is similar to --symbolic, but it omits input that are not refs (i.e. branch or tag names;
/// or more explicitly disambiguating 'heads/master' form, when you want to name the 'master' branch
/// when there is an unfortunately named tag 'master'), and show them as full refnames (e.g.
/// 'refs/heads/master').
///
/// Git documents it as `--symbolic-full-name`; the token emitted is `--symbolic-full-name`.
pub fn symbolic_full_name_option() -> (opt: CommandOption)
    ensures
        opt@ == seq!["--symbolic-full-name"@],
{
    CommandOption::flag("--symbolic-full-name")
}

/// Show all refs found in refs/.
///
/// Git documents it as `--all`; the token emitted is `--all`.
pub fn all_option() -> (opt: CommandOption)
    ensures
        opt@ == seq!["--all"@],
{
    CommandOption::flag("--all")
}

/// Show all branches, tags, or remote-tracking branches, respectively (i.e., refs found in
/// refs/heads, refs/tags, or refs/remotes, respectively). If a pattern is given, only refs matching
/// the given shell glob are shown. If the pattern does not contain a globbing character (?, *, or
/// [), it is turned into a prefix match by appending /*.
///
/// Git documents it as `--branches[=pattern], --tags[=pattern], --remotes[=pattern]`; the token
/// emitted is `--branches=` followed by the value, or `--branches` alone when the value is empty.
pub fn branches_option(value: &str) -> (opt: CommandOption)
    ensures
        opt@ == joined("--branches"@, value@),
{
    CommandOption::joined("--branches", value)
}

/// Show all branches, tags, or remote-tracking branches, respectively (i.e., refs found in
/// refs/heads, refs/tags, or refs/remotes, respectively). If a pattern is given, only refs matching
/// the given shell glob are shown. If the pattern does not contain a globbing character (?, *, or
/// [), it is turned into a prefix match by appending /*.
///
/// Git documents it as `--branches[=pattern], --tags[=pattern], --remotes[=pattern]`; the token
/// emitted is `--tags=` followed by the value, or `--tags` alone when the value is empty.
pub fn tags_option(value: &str) -> (opt: CommandOption)
    ensures
        opt@ == joined("--tags"@, value@),
{
    CommandOption::joined("--tags", value)
}

/// Show all branches, tags, or remote-tracking branches, respectively (i.e., refs found in
/// refs/heads, refs/tags, or refs/remotes, respectively). If a pattern is given, only refs matching
/// the given shell glob are shown. If the pattern does not contain a globbing character (?, *, or
/// [), it is turned into a prefix match by appending /*.
///
/// Git documents it as `--branches[=pattern], --tags[=pattern], --remotes[=pattern]`; the token
/// emitted is `--remotes=` followed by the value, or `--remotes` alone when the value is empty.
pub fn remotes_option(value: &str) -> (opt: CommandOption)
    ensures
        opt@ == joined("--remotes"@, value@),
{
    CommandOption::joined("--remotes", value)
}

/// Show all refs matching the shell glob pattern pattern. If the pattern does not start with refs/,
/// this is automatically prepended. If the pattern does not contain a globbing character (?, *, or
/// [), it is turned into a prefix match by appending /*.
///
/// Git documents it as `--glob=pattern`; the token emitted is `--glob=` followed by the value, or
/// `--glob` alone when the value is empty.
pub fn glob_option(pattern_arg: &str) -> (opt: CommandOption)
    ensures
        opt@ == joined("--glob"@, pattern_arg@),
{
    CommandOption::joined("--glob", pattern_arg)
}

/// Do not include refs matching <glob-pattern> that the next --all, --branches, --tags, --remotes,
/// or --glob would otherwise consider. Repetitions of this option accumulate exclusion patterns up
/// to the next --all, --branches, --tags, --remotes, or --glob option (other options or arguments
/// do not clear accumulated patterns). The patterns given should not begin with refs/heads,
/// refs/tags, or refs/remotes when applied to --branches, --tags, or --remotes, respectively, and
/// they must begin with refs/ when applied to --glob or --all. If a trailing /* is intended, it
/// must be given explicitly.
///
/// Git documents it as `--exclude=<glob-pattern>`; the token emitted is `--exclude=` followed by
/// the value, or `--exclude` alone when the value is empty.
pub fn exclude_option(glob_pattern_arg: &str) -> (opt: CommandOption)
    ensures
        opt@ == joined("--exclude"@, glob_pattern_arg@),
{
    CommandOption::joined("--exclude", glob_pattern_arg)
}

/// Show every object whose name begins with the given prefix. The <prefix> must be at least 4
/// hexadecimal digits long to avoid listing each and every object in the repository by mistake.
///
/// Git documents it as `--disambiguate=<prefix>`; the token emitted is `--disambiguate=` followed
/// by the value, or `--disambiguate` alone when the value is empty.
pub fn disambiguate_option(prefix_arg: &str) -> (opt: CommandOption)
    ensures
        opt@ == joined("--disambiguate"@, prefix_arg@),
{
    CommandOption::joined("--disambiguate", prefix_arg)
}

/// List the GIT_* environment variables that are local to the repository (e.g. GIT_DIR or
/// GIT_WORK_TREE, but not GIT_EDITOR). Only the names of the variables are listed, not their value,
/// even if they are set.
///
/// Git documents it as `--local-env-vars`; the token emitted is `--local-env-vars`.
pub fn local_env_vars_option() -> (opt: CommandOption)
    ensures
        opt@ == seq!["--local-env-vars"@],
{
    CommandOption::flag("--local-env-vars")
}

/// Show $GIT_DIR if defined. Otherwise show the path to the .git directory. The path shown, when
/// relative, is relative to the current working directory. If $GIT_DIR is not defined and the
/// current directory is not detected to lie in a Git repository or work tree print a message to
/// stderr and exit with nonzero status.
///
/// Git documents it as `--git-dir`; the token emitted is `--git-dir`.
pub fn git_dir_option() -> (opt: CommandOption)
    ensures
        opt@ == seq!["--git-dir"@],
{
    CommandOption::flag("--git-dir")
}

/// Like --git-dir, but its output is always the canonicalized absolute path.
///
/// Git documents it as `--absolute-git-dir`; the token emitted is `--absolute-git-dir`.
pub fn absolute_git_dir_option() -> (opt: CommandOption)
    ensures
        opt@ == seq!["--absolute-git-dir"@],
{
    CommandOption::flag("--absolute-git-dir")
}

/// Show $GIT_COMMON_DIR if defined, else $GIT_DIR.
///
/// Git documents it as `--git-common-dir`; the token emitted is `--git-common-dir`.
pub fn git_common_dir_option() -> (opt: CommandOption)
    ensures
        opt@ == seq!["--git-common-dir"@],
{
    CommandOption::flag("--git-common-dir")
}

/// When the current working directory is below the repository directory print 'true', otherwise
/// 'false'.
///
/// Git documents it as `--is-inside-git-dir`; the token emitted is `--is-inside-git-dir`.
pub fn is_inside_git_dir_option() -> (opt: CommandOption)
    ensures
        opt@ == seq!["--is-inside-git-dir"@],
{
    CommandOption::flag("--is-inside-git-dir")
}

/// When the current working directory is inside the work tree of the repository print 'true',
/// otherwise 'false'.
///
/// Git documents it as `--is-inside-work-tree`; the token emitted is `--is-inside-work-tree`.
pub fn is_inside_work_tree_option() -> (opt: CommandOption)
    ensures
        opt@ == seq!["--is-inside-work-tree"@],
{
    CommandOption::flag("--is-inside-work-tree")
}

/// When the repository is bare print 'true', otherwise 'false'.
///
/// Git documents it as `--is-bare-repository`; the token emitted is `--is-bare-repository`.
pub fn is_bare_repository_option() -> (opt: CommandOption)
    ensures
        opt@ == seq!["--is-bare-repository"@],
{
    CommandOption::flag("--is-bare-repository")
}

/// Check if <path> is a valid repository or a gitfile that points at a valid repository, and print
/// the location of the repository. If <path> is a gitfile then the resolved path to the real
/// repository is printed.
///
/// Git documents it as `--resolve-git-dir <path>`; the tokens emitted are `--resolve-git-dir` and
/// then the value, or `--resolve-git-dir` alone when the value is empty.
pub fn resolve_git_dir_option(path_arg: &str) -> (opt: CommandOption)
    ensures
        opt@ == separate("--resolve-git-dir"@, path_arg@),
{
    CommandOption::separate("--resolve-git-dir", path_arg)
}

/// Resolve '$GIT_DIR/<path>' and takes other path relocation variables such as
/// $GIT_OBJECT_DIRECTORY, $GIT_INDEX_FILE... into account. For example, if $GIT_OBJECT_DIRECTORY is
/// set to /foo/bar then 'git rev-parse --git-path objects/abc' returns /foo/bar/abc.
///
/// Git documents it as `--git-path <path>`; the tokens emitted are `--git-path` and then the value,
/// or `--git-path` alone when the value is empty.
pub fn git_path_option(path_arg: &str) -> (opt: CommandOption)
    ensures
        opt@ == separate("--git-path"@, path_arg@),
{
    CommandOption::separate("--git-path", path_arg)
}

/// When the command is invoked from a subdirectory, show the path of the top-level directory
/// relative to the current directory (typically a sequence of '../', or an empty string).
///
/// Git documents it as `--show-cdup`; the token emitted is `--show-cdup`.
pub fn show_cdup_option() -> (opt: CommandOption)
    ensures
        opt@ == seq!["--show-cdup"@],
{
    CommandOption::flag("--show-cdup")
}

/// When the command is invoked from a subdirectory, show the path of the current directory relative
/// to the top-level directory.
///
/// Git documents it as `--show-prefix`; the token emitted is `--show-prefix`.
pub fn show_prefix_option() -> (opt: CommandOption)
    ensures
        opt@ == seq!["--show-prefix"@],
{
    CommandOption::flag("--show-prefix")
}

/// Show the absolute path of the top-level directory.
///
/// Git documents it as `--show-toplevel`; the token emitted is `--show-toplevel`.
pub fn show_toplevel_option() -> (opt: CommandOption)
    ensures
        opt@ == seq!["--show-toplevel"@],
{
    CommandOption::flag("--show-toplevel")
}

/// Show the absolute path of the root of the superproject's working tree (if exists) that uses the
/// current repository as its submodule. Outputs nothing if the current repository is not used as a
/// submodule by any project.
///
/// Git documents it as `--show-superproject-working-tree`; the token emitted is
/// `--show-superproject-working-tree`.
pub fn show_superproject_working_tree_option() -> (opt: CommandOption)
    ensures
        opt@ == seq!["--show-superproject-working-tree"@],
{
    CommandOption::flag("--show-superproject-working-tree")
}

/// Show the path to the shared index file in split index mode, or empty if not in split-index mode.
///
/// Git documents it as `--shared-index-path`; the token emitted is `--shared-index-path`.
pub fn shared_index_path_option() -> (opt: CommandOption)
    ensures
        opt@ == seq!["--shared-index-path"@],
{
    CommandOption::flag("--shared-index-path")
}

/// Parse the date string, and output the corresponding --max-age= parameter for git rev-list.
///
/// Git documents it as `--since=datestring, --after=datestring`; the token emitted is `--since=`
/// followed by the value, or `--since` alone when the value is empty.
pub fn since_option(datestring_arg: &str) -> (opt: CommandOption)
    ensures
        opt@ == joined("--since"@, datestring_arg@),
{
    CommandOption::joined("--since", datestring_arg)
}

/// Parse the date string, and output the corresponding --max-age= parameter for git rev-list.
///
/// Git documents it as `--since=datestring, --after=datestring`; the token emitted is `--after=`
/// followed by the value, or `--after` alone when the value is empty.
pub fn after_option(datestring_arg: &str) -> (opt: CommandOption)
    ensures
        opt@ == joined("--after"@, datestring_arg@),
{
    CommandOption::joined("--after", datestring_arg)
}

/// Parse the date string, and output the corresponding --min-age= parameter for git rev-list.
///
/// Git documents it as `--until=datestring, --before=datestring`; the token emitted is `--until=`
/// followed by the value, or `--until` alone when the value is empty.
pub fn until_option(datestring_arg: &str) -> (opt: CommandOption)
    ensures
        opt@ == joined("--until"@, datestring_arg@),
{
    CommandOption::joined("--until", datestring_arg)
}

/// Parse the date string, and output the corresponding --min-age= parameter for git rev-list.
///
/// Git documents it as `--until=datestring, --before=datestring`; the token emitted is `--before=`
/// followed by the value, or `--before` alone when the value is empty.
pub fn before_option(datestring_arg: &str) -> (opt: CommandOption)
    ensures
        opt@ == joined("--before"@, datestring_arg@),
{
    CommandOption::joined("--before", datestring_arg)
}

} // verus!
