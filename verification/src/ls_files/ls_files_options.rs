//! The options of `git ls-files`.
//!
//! Each function builds one option action. A flag without a value emits its one
//! token. A flag with a value emits the flag and the value, joined by `=` or as
//! two tokens, as Git documents that flag; an empty value leaves the bare flag.

use vstd::prelude::*;

use crate::command_executor::{joined, CommandOption};

verus! {

/// Show cached files in the output (default)
///
/// Git documents it as `-c, --cached`; the token emitted is `--cached`.
pub fn cached_option() -> (opt: CommandOption)
    ensures
        opt@ == seq!["--cached"@],
{
    CommandOption::flag("--cached")
}

/// Show deleted files in the output
///
/// Git documents it as `-d, --deleted`; the token emitted is `--deleted`.
pub fn deleted_option() -> (opt: CommandOption)
    ensures
        opt@ == seq!["--deleted"@],
{
    CommandOption::flag("--deleted")
}

/// Show modified files in the output
///
/// Git documents it as `-m, --modified`; the token emitted is `--modified`.
pub fn modified_option() -> (opt: CommandOption)
    ensures
        opt@ == seq!["--modified"@],
{
    CommandOption::flag("--modified")
}

/// Show other (i.e. untracked) files in the output
///
/// Git documents it as `-o, --others`; the token emitted is `--others`.
pub fn others_option() -> (opt: CommandOption)
    ensures
        opt@ == seq!["--others"@],
{
    CommandOption::flag("--others")
}

/// Show only ignored files in the output. When showing files in the index, print only those matched
/// by an exclude pattern. When showing "other" files, show only those matched by an exclude
/// pattern. Standard ignore rules are not automatically activated, therefore at least one of the
/// --exclude* options is required.
///
/// Git documents it as `-i, --ignored`; the token emitted is `--ignored`.
pub fn ignored_option() -> (opt: CommandOption)
    ensures
        opt@ == seq!["--ignored"@],
{
    CommandOption::flag("--ignored")
}

/// Show staged contents' mode bits, object name and stage number in the output.
///
/// Git documents it as `-s, --stage`; the token emitted is `--stage`.
pub fn stage_option() -> (opt: CommandOption)
    ensures
        opt@ == seq!["--stage"@],
{
    CommandOption::flag("--stage")
}

/// If a whole directory is classified as "other", show just its name (with a trailing slash) and
/// not its whole contents.
///
/// Git documents it as `--directory`; the token emitted is `--directory`.
pub fn directory_option() -> (opt: CommandOption)
    ensures
        opt@ == seq!["--directory"@],
{
    CommandOption::flag("--directory")
}

/// Do not list empty directories. Has no effect without --directory.
///
/// Git documents it as `--no-empty-directory`; the token emitted is `--no-empty-directory`.
pub fn no_empty_directory_option() -> (opt: CommandOption)
    ensures
        opt@ == seq!["--no-empty-directory"@],
{
    CommandOption::flag("--no-empty-directory")
}

/// Show unmerged files in the output (forces --stage)
///
/// Git documents it as `-u, --unmerged`; the token emitted is `--unmerged`.
pub fn unmerged_option() -> (opt: CommandOption)
    ensures
        opt@ == seq!["--unmerged"@],
{
    CommandOption::flag("--unmerged")
}

/// Show files on the filesystem that need to be removed due to file/directory conflicts for
/// checkout-index to succeed.
///
/// Git documents it as `-k, --killed`; the token emitted is `--killed`.
pub fn killed_option() -> (opt: CommandOption)
    ensures
        opt@ == seq!["--killed"@],
{
    CommandOption::flag("--killed")
}

/// \0 line termination on output and do not quote filenames. See OUTPUT below for more information.
///
/// Git documents it as `-z`; the token emitted is `-z`.
pub fn z_option() -> (opt: CommandOption)
    ensures
        opt@ == seq!["-z"@],
{
    CommandOption::flag("-z")
}

/// When only filenames are shown, suppress duplicates that may come from having multiple stages
/// during a merge, or giving --deleted and --modified option at the same time. When any of the -t,
/// --unmerged, or --stage option is in use, this option has no effect.
///
/// Git documents it as `--deduplicate`; the token emitted is `--deduplicate`.
pub fn deduplicate_option() -> (opt: CommandOption)
    ensures
        opt@ == seq!["--deduplicate"@],
{
    CommandOption::flag("--deduplicate")
}

/// Skip untracked files matching pattern. Note that pattern is a shell wildcard pattern. See
/// EXCLUDE PATTERNS below for more information.
///
/// Git documents it as `-x <pattern>, --exclude=<pattern>`; the token emitted is `--exclude=`
/// followed by the value, or `--exclude` alone when the value is empty.
pub fn exclude_option(pattern_arg: &str) -> (opt: CommandOption)
    ensures
        opt@ == joined("--exclude"@, pattern_arg@),
{
    CommandOption::joined("--exclude", pattern_arg)
}

/// Read exclude patterns from <file>; 1 per line.
///
/// Git documents it as `-X <file>, --exclude-from=<file>`; the token emitted is `--exclude-from=`
/// followed by the value, or `--exclude-from` alone when the value is empty.
pub fn exclude_from_option(file_arg: &str) -> (opt: CommandOption)
    ensures
        opt@ == joined("--exclude-from"@, file_arg@),
{
    CommandOption::joined("--exclude-from", file_arg)
}

/// Read additional exclude patterns that apply only to the directory and its subdirectories in
/// <file>.
///
/// Git documents it as `--exclude-per-directory=<file>`; the token emitted is
/// `--exclude-per-directory=` followed by the value, or `--exclude-per-directory` alone when the
/// value is empty.
pub fn exclude_per_directory_option(file_arg: &str) -> (opt: CommandOption)
    ensures
        opt@ == joined("--exclude-per-directory"@, file_arg@),
{
    CommandOption::joined("--exclude-per-directory", file_arg)
}

/// Add the standard Git exclusions: .git/info/exclude, .gitignore in each directory, and the user's
/// global exclusion file.
///
/// Git documents it as `--exclude-standard`; the token emitted is `--exclude-standard`.
pub fn exclude_standard_option() -> (opt: CommandOption)
    ensures
        opt@ == seq!["--exclude-standard"@],
{
    CommandOption::flag("--exclude-standard")
}

/// If any <file> does not appear in the index, treat this as an error (return 1).
///
/// Git documents it as `--error-unmatch`; the token emitted is `--error-unmatch`.
pub fn error_unmatch_option() -> (opt: CommandOption)
    ensures
        opt@ == seq!["--error-unmatch"@],
{
    CommandOption::flag("--error-unmatch")
}

/// When using --error-unmatch to expand the user supplied <file> (i.e. path pattern) arguments to
/// paths, pretend that paths which were removed in the index since the named <tree-ish> are still
/// present. Using this option with -s or -u options does not make any sense.
///
/// Git documents it as `--with-tree=<tree-ish>`; the token emitted is `--with-tree=` followed by
/// the value, or `--with-tree` alone when the value is empty.
pub fn with_tree_option(tree_ish_arg: &str) -> (opt: CommandOption)
    ensures
        opt@ == joined("--with-tree"@, tree_ish_arg@),
{
    CommandOption::joined("--with-tree", tree_ish_arg)
}

/// This feature is semi-deprecated. For scripting purpose, git-status(1) --porcelain and
/// git-diff-files(1) --name-status are almost always superior alternatives, and users should look
/// at git-status(1) --short or git-diff(1) --name-status for more user-friendly alternatives.
///
/// Git documents it as `-t`; the token emitted is `-t`.
pub fn t_option() -> (opt: CommandOption)
    ensures
        opt@ == seq!["-t"@],
{
    CommandOption::flag("-t")
}

/// Similar to -t, but use lowercase letters for files that are marked as assume unchanged (see
/// git-update-index(1)).
///
/// Git documents it as `-v`; the token emitted is `-v`.
pub fn v_option() -> (opt: CommandOption)
    ensures
        opt@ == seq!["-v"@],
{
    CommandOption::flag("-v")
}

/// Similar to -t, but use lowercase letters for files that are marked as fsmonitor valid (see
/// git-update-index(1)).
///
/// Git documents it as `-f`; the token emitted is `-f`.
pub fn f_option() -> (opt: CommandOption)
    ensures
        opt@ == seq!["-f"@],
{
    CommandOption::flag("-f")
}

/// When run from a subdirectory, the command usually outputs paths relative to the current
/// directory. This option forces paths to be output relative to the project top directory.
///
/// Git documents it as `--full-name`; the token emitted is `--full-name`.
pub fn full_name_option() -> (opt: CommandOption)
    ensures
        opt@ == seq!["--full-name"@],
{
    CommandOption::flag("--full-name")
}

/// Recursively calls ls-files on each active submodule in the repository. Currently there is only
/// support for the --cached and --stage modes.
///
/// Git documents it as `--recurse-submodules`; the token emitted is `--recurse-submodules`.
pub fn recurse_submodules_option() -> (opt: CommandOption)
    ensures
        opt@ == seq!["--recurse-submodules"@],
{
    CommandOption::flag("--recurse-submodules")
}

/// Instead of showing the full 40-byte hexadecimal object lines, show the shortest prefix that is
/// at least <n> hexdigits long that uniquely refers the object. Non default number of digits can be
/// specified with --abbrev=<n>.
///
/// Git documents it as `--abbrev[=<n>]`; the token emitted is `--abbrev=` followed by the value, or
/// `--abbrev` alone when the value is empty.
pub fn abbrev_option(n_arg: &str) -> (opt: CommandOption)
    ensures
        opt@ == joined("--abbrev"@, n_arg@),
{
    CommandOption::joined("--abbrev", n_arg)
}

/// After each line that describes a file, add more data about its cache entry. This is intended to
/// show as much information as possible for manual inspection; the exact format may change at any
/// time.
///
/// Git documents it as `--debug`; the token emitted is `--debug`.
pub fn debug_option() -> (opt: CommandOption)
    ensures
        opt@ == seq!["--debug"@],
{
    CommandOption::flag("--debug")
}

/// Show <eolinfo> and <eolattr> of files. <eolinfo> is the file content identification used by Git
/// when the "text" attribute is "auto" (or not set and core.autocrlf is not false). <eolinfo> is
/// either "-text", "none", "lf", "crlf", "mixed" or "".\n"" means the file is not a regular file,
/// it is not in the index or not accessible in the working tree. <eolattr> is the attribute that is
/// used when checking out or committing, it is either "", "-text", "text", "text=auto", "text
/// eol=lf", "text eol=crlf". Since Git 2.10 "text=auto eol=lf" and "text=auto eol=crlf" are
/// supported. Both the <eolinfo> in the index ("i/<eolinfo>") and in the working tree
/// ("w/<eolinfo>") are shown for regular files, followed by the ("attr/<eolattr>").
///
/// Git documents it as `--eol`; the token emitted is `--eol`.
pub fn eol_option() -> (opt: CommandOption)
    ensures
        opt@ == seq!["--eol"@],
{
    CommandOption::flag("--eol")
}

/// If the index is sparse, show the sparse directories without expanding to the contained files.
/// Sparse directories will be shown with a trailing slash, such as "x/" for a sparse directory "x".
///
/// Git documents it as `--sparse`; the token emitted is `--sparse`.
pub fn sparse_option() -> (opt: CommandOption)
    ensures
        opt@ == seq!["--sparse"@],
{
    CommandOption::flag("--sparse")
}

/// A string that interpolates %(fieldname) from the result being shown. It also interpolates %% to
/// %, and %xx where xx are hex digits interpolates to character with hex code xx; for example %00
/// interpolates to \0 (NUL), %09 to \t (TAB) and %0a to \n (LF). --format cannot be combined with
/// -s, -o, -k, -t, --resolve-undo and --eol.
///
/// Git documents it as `--format=<format>`; the token emitted is `--format=` followed by the value,
/// or `--format` alone when the value is empty.
pub fn format_option(format_arg: &str) -> (opt: CommandOption)
    ensures
        opt@ == joined("--format"@, format_arg@),
{
    CommandOption::joined("--format", format_arg)
}

} // verus!
