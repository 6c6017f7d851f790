use gitwrap::merge::options;

#[test]
fn merge_flags_emit_their_one_token() {
    assert_eq!(*options::commit().tokens(), vec!["--commit"]);
    assert_eq!(*options::no_commit().tokens(), vec!["--no-commit"]);
    assert_eq!(*options::edit().tokens(), vec!["--edit"]);
    assert_eq!(*options::no_edit().tokens(), vec!["--no-edit"]);
    assert_eq!(*options::ff().tokens(), vec!["--ff"]);
    assert_eq!(*options::no_ff().tokens(), vec!["--no-ff"]);
    assert_eq!(*options::ff_only().tokens(), vec!["--ff-only"]);
    assert_eq!(*options::no_log().tokens(), vec!["--no-log"]);
    assert_eq!(*options::stat().tokens(), vec!["--stat"]);
    assert_eq!(*options::no_stat().tokens(), vec!["--no-stat"]);
    assert_eq!(*options::squash().tokens(), vec!["--squash"]);
    assert_eq!(*options::no_squash().tokens(), vec!["--no-squash"]);
    assert_eq!(*options::verify_signatures().tokens(), vec!["--verify-signatures"]);
    assert_eq!(*options::no_verify_signatures().tokens(), vec!["--no-verify-signatures"]);
    assert_eq!(*options::summary().tokens(), vec!["--summary"]);
    assert_eq!(*options::no_summary().tokens(), vec!["--no-summary"]);
    assert_eq!(*options::quiet().tokens(), vec!["--quiet"]);
    assert_eq!(*options::verbose().tokens(), vec!["--verbose"]);
    assert_eq!(*options::progress().tokens(), vec!["--progress"]);
    assert_eq!(*options::no_progress().tokens(), vec!["--no-progress"]);
    assert_eq!(*options::allow_unrelated_histories().tokens(), vec!["--allow-unrelated-histories"]);
    assert_eq!(*options::rerere_autoupdate().tokens(), vec!["--rerere-autoupdate"]);
    assert_eq!(*options::no_rerere_autoupdate().tokens(), vec!["--no-rerere-autoupdate"]);
    assert_eq!(*options::abort().tokens(), vec!["--abort"]);
    assert_eq!(*options::continue_merge().tokens(), vec!["--continue"]);
}

#[test]
fn merge_values_are_joined_by_equals() {
    assert_eq!(*options::log("x").tokens(), vec!["--log=x"]);
    assert_eq!(*options::strategy("x").tokens(), vec!["--strategy=x"]);
    assert_eq!(*options::strategy_option("x").tokens(), vec!["--strategy-option=x"]);
    assert_eq!(*options::gpg_sign("x").tokens(), vec!["--gpg-sign=x"]);
}

#[test]
fn merge_joined_values_keep_every_character() {
    assert_eq!(*options::log("a b=c").tokens(), vec!["--log=a b=c"]);
    assert_eq!(*options::strategy("a b=c").tokens(), vec!["--strategy=a b=c"]);
    assert_eq!(*options::strategy_option("a b=c").tokens(), vec!["--strategy-option=a b=c"]);
    assert_eq!(*options::gpg_sign("a b=c").tokens(), vec!["--gpg-sign=a b=c"]);
}

#[test]
fn merge_empty_joined_values_leave_the_bare_flag() {
    assert_eq!(*options::log("").tokens(), vec!["--log"]);
    assert_eq!(*options::strategy("").tokens(), vec!["--strategy"]);
    assert_eq!(*options::strategy_option("").tokens(), vec!["--strategy-option"]);
    assert_eq!(*options::gpg_sign("").tokens(), vec!["--gpg-sign"]);
}

#[test]
fn merge_separate_values_follow_the_flag() {
    assert_eq!(*options::m("x y").tokens(), vec!["-m", "x y"]);
}

#[test]
fn merge_empty_separate_values_leave_the_bare_flag() {
    assert_eq!(*options::m("").tokens(), vec!["-m"]);
}
