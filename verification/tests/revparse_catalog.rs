use gitwrap::revparse::revparse_options;

#[test]
fn revparse_flags_emit_their_one_token() {
    assert_eq!(*revparse_options::parseopt_option().tokens(), vec!["--parseopt"]);
    assert_eq!(*revparse_options::sq_quote_option().tokens(), vec!["--sq-quote"]);
    assert_eq!(*revparse_options::keep_dashdash_option().tokens(), vec!["--keep-dashdash"]);
    assert_eq!(*revparse_options::stop_at_non_option_option().tokens(), vec!["--stop-at-non-option"]);
    assert_eq!(*revparse_options::stuck_long_option().tokens(), vec!["--stuck-long"]);
    assert_eq!(*revparse_options::revs_only_option().tokens(), vec!["--revs-only"]);
    assert_eq!(*revparse_options::no_revs_option().tokens(), vec!["--no-revs"]);
    assert_eq!(*revparse_options::flags_option().tokens(), vec!["--flags"]);
    assert_eq!(*revparse_options::no_flags_option().tokens(), vec!["--no-flags"]);
    assert_eq!(*revparse_options::verify_option().tokens(), vec!["--verify"]);
    assert_eq!(*revparse_options::quiet_option().tokens(), vec!["--quiet"]);
    assert_eq!(*revparse_options::sq_option().tokens(), vec!["--sq"]);
    assert_eq!(*revparse_options::not_option().tokens(), vec!["--not"]);
    assert_eq!(*revparse_options::symbolic_option().tokens(), vec!["--symbolic"]);
    assert_eq!(*revparse_options::symbolic_full_name_option().tokens(), vec!["--symbolic-full-name"]);
    assert_eq!(*revparse_options::all_option().tokens(), vec!["--all"]);
    assert_eq!(*revparse_options::local_env_vars_option().tokens(), vec!["--local-env-vars"]);
    assert_eq!(*revparse_options::git_dir_option().tokens(), vec!["--git-dir"]);
    assert_eq!(*revparse_options::absolute_git_dir_option().tokens(), vec!["--absolute-git-dir"]);
    assert_eq!(*revparse_options::git_common_dir_option().tokens(), vec!["--git-common-dir"]);
    assert_eq!(*revparse_options::is_inside_git_dir_option().tokens(), vec!["--is-inside-git-dir"]);
    assert_eq!(*revparse_options::is_inside_work_tree_option().tokens(), vec!["--is-inside-work-tree"]);
    assert_eq!(*revparse_options::is_bare_repository_option().tokens(), vec!["--is-bare-repository"]);
    assert_eq!(*revparse_options::show_cdup_option().tokens(), vec!["--show-cdup"]);
    assert_eq!(*revparse_options::show_prefix_option().tokens(), vec!["--show-prefix"]);
    assert_eq!(*revparse_options::show_toplevel_option().tokens(), vec!["--show-toplevel"]);
    assert_eq!(*revparse_options::show_superproject_working_tree_option().tokens(), vec!["--show-superproject-working-tree"]);
    assert_eq!(*revparse_options::shared_index_path_option().tokens(), vec!["--shared-index-path"]);
}

#[test]
fn revparse_values_are_joined_by_equals() {
    assert_eq!(*revparse_options::short_option("x").tokens(), vec!["--short=x"]);
    assert_eq!(*revparse_options::abbrev_ref_option("x").tokens(), vec!["--abbrev-ref=x"]);
    assert_eq!(*revparse_options::branches_option("x").tokens(), vec!["--branches=x"]);
    assert_eq!(*revparse_options::tags_option("x").tokens(), vec!["--tags=x"]);
    assert_eq!(*revparse_options::remotes_option("x").tokens(), vec!["--remotes=x"]);
    assert_eq!(*revparse_options::glob_option("x").tokens(), vec!["--glob=x"]);
    assert_eq!(*revparse_options::exclude_option("x").tokens(), vec!["--exclude=x"]);
    assert_eq!(*revparse_options::disambiguate_option("x").tokens(), vec!["--disambiguate=x"]);
    assert_eq!(*revparse_options::since_option("x").tokens(), vec!["--since=x"]);
    assert_eq!(*revparse_options::after_option("x").tokens(), vec!["--after=x"]);
    assert_eq!(*revparse_options::until_option("x").tokens(), vec!["--until=x"]);
    assert_eq!(*revparse_options::before_option("x").tokens(), vec!["--before=x"]);
}

#[test]
fn revparse_joined_values_keep_every_character() {
    assert_eq!(*revparse_options::short_option("a b=c").tokens(), vec!["--short=a b=c"]);
    assert_eq!(*revparse_options::abbrev_ref_option("a b=c").tokens(), vec!["--abbrev-ref=a b=c"]);
    assert_eq!(*revparse_options::branches_option("a b=c").tokens(), vec!["--branches=a b=c"]);
    assert_eq!(*revparse_options::tags_option("a b=c").tokens(), vec!["--tags=a b=c"]);
    assert_eq!(*revparse_options::remotes_option("a b=c").tokens(), vec!["--remotes=a b=c"]);
    assert_eq!(*revparse_options::glob_option("a b=c").tokens(), vec!["--glob=a b=c"]);
    assert_eq!(*revparse_options::exclude_option("a b=c").tokens(), vec!["--exclude=a b=c"]);
    assert_eq!(*revparse_options::disambiguate_option("a b=c").tokens(), vec!["--disambiguate=a b=c"]);
    assert_eq!(*revparse_options::since_option("a b=c").tokens(), vec!["--since=a b=c"]);
    assert_eq!(*revparse_options::after_option("a b=c").tokens(), vec!["--after=a b=c"]);
    assert_eq!(*revparse_options::until_option("a b=c").tokens(), vec!["--until=a b=c"]);
    assert_eq!(*revparse_options::before_option("a b=c").tokens(), vec!["--before=a b=c"]);
}

#[test]
fn revparse_empty_joined_values_leave_the_bare_flag() {
    assert_eq!(*revparse_options::short_option("").tokens(), vec!["--short"]);
    assert_eq!(*revparse_options::abbrev_ref_option("").tokens(), vec!["--abbrev-ref"]);
    assert_eq!(*revparse_options::branches_option("").tokens(), vec!["--branches"]);
    assert_eq!(*revparse_options::tags_option("").tokens(), vec!["--tags"]);
    assert_eq!(*revparse_options::remotes_option("").tokens(), vec!["--remotes"]);
    assert_eq!(*revparse_options::glob_option("").tokens(), vec!["--glob"]);
    assert_eq!(*revparse_options::exclude_option("").tokens(), vec!["--exclude"]);
    assert_eq!(*revparse_options::disambiguate_option("").tokens(), vec!["--disambiguate"]);
    assert_eq!(*revparse_options::since_option("").tokens(), vec!["--since"]);
    assert_eq!(*revparse_options::after_option("").tokens(), vec!["--after"]);
    assert_eq!(*revparse_options::until_option("").tokens(), vec!["--until"]);
    assert_eq!(*revparse_options::before_option("").tokens(), vec!["--before"]);
}

#[test]
fn revparse_separate_values_follow_the_flag() {
    assert_eq!(*revparse_options::default_option("x y").tokens(), vec!["--default", "x y"]);
    assert_eq!(*revparse_options::prefix_option("x y").tokens(), vec!["--prefix", "x y"]);
    assert_eq!(*revparse_options::resolve_git_dir_option("x y").tokens(), vec!["--resolve-git-dir", "x y"]);
    assert_eq!(*revparse_options::git_path_option("x y").tokens(), vec!["--git-path", "x y"]);
}

#[test]
fn revparse_empty_separate_values_leave_the_bare_flag() {
    assert_eq!(*revparse_options::default_option("").tokens(), vec!["--default"]);
    assert_eq!(*revparse_options::prefix_option("").tokens(), vec!["--prefix"]);
    assert_eq!(*revparse_options::resolve_git_dir_option("").tokens(), vec!["--resolve-git-dir"]);
    assert_eq!(*revparse_options::git_path_option("").tokens(), vec!["--git-path"]);
}
