use gitwrap::fetch::options;

#[test]
fn fetch_flags_emit_their_one_token() {
    assert_eq!(*options::all().tokens(), vec!["--all"]);
    assert_eq!(*options::append().tokens(), vec!["--append"]);
    assert_eq!(*options::unshallow().tokens(), vec!["--unshallow"]);
    assert_eq!(*options::update_shallow().tokens(), vec!["--update-shallow"]);
    assert_eq!(*options::dry_run().tokens(), vec!["--dry-run"]);
    assert_eq!(*options::force().tokens(), vec!["--force"]);
    assert_eq!(*options::keep().tokens(), vec!["--keep"]);
    assert_eq!(*options::multiple().tokens(), vec!["--multiple"]);
    assert_eq!(*options::prune().tokens(), vec!["--prune"]);
    assert_eq!(*options::no_tags().tokens(), vec!["--no-tags"]);
    assert_eq!(*options::tags().tokens(), vec!["--tags"]);
    assert_eq!(*options::no_recurse_submodules().tokens(), vec!["--no-recurse-submodules"]);
    assert_eq!(*options::update_head_ok().tokens(), vec!["--update-head-ok"]);
    assert_eq!(*options::quiet().tokens(), vec!["--quiet"]);
    assert_eq!(*options::verbose().tokens(), vec!["--verbose"]);
    assert_eq!(*options::progress().tokens(), vec!["--progress"]);
    assert_eq!(*options::ipv4().tokens(), vec!["--ipv4"]);
    assert_eq!(*options::ipv6().tokens(), vec!["--ipv6"]);
}

#[test]
fn fetch_values_are_joined_by_equals() {
    assert_eq!(*options::depth("x").tokens(), vec!["--depth=x"]);
    assert_eq!(*options::deepen("x").tokens(), vec!["--deepen=x"]);
    assert_eq!(*options::shallow_since("x").tokens(), vec!["--shallow-since=x"]);
    assert_eq!(*options::shallow_exclude("x").tokens(), vec!["--shallow-exclude=x"]);
    assert_eq!(*options::refmap("x").tokens(), vec!["--refmap=x"]);
    assert_eq!(*options::recurse_submodules("x").tokens(), vec!["--recurse-submodules=x"]);
    assert_eq!(*options::jobs("x").tokens(), vec!["--jobs=x"]);
    assert_eq!(*options::submodule_prefix("x").tokens(), vec!["--submodule-prefix=x"]);
    assert_eq!(*options::recurse_submodules_default("x").tokens(), vec!["--recurse-submodules-default=x"]);
}

#[test]
fn fetch_joined_values_keep_every_character() {
    assert_eq!(*options::depth("a b=c").tokens(), vec!["--depth=a b=c"]);
    assert_eq!(*options::deepen("a b=c").tokens(), vec!["--deepen=a b=c"]);
    assert_eq!(*options::shallow_since("a b=c").tokens(), vec!["--shallow-since=a b=c"]);
    assert_eq!(*options::shallow_exclude("a b=c").tokens(), vec!["--shallow-exclude=a b=c"]);
    assert_eq!(*options::refmap("a b=c").tokens(), vec!["--refmap=a b=c"]);
    assert_eq!(*options::recurse_submodules("a b=c").tokens(), vec!["--recurse-submodules=a b=c"]);
    assert_eq!(*options::jobs("a b=c").tokens(), vec!["--jobs=a b=c"]);
    assert_eq!(*options::submodule_prefix("a b=c").tokens(), vec!["--submodule-prefix=a b=c"]);
    assert_eq!(*options::recurse_submodules_default("a b=c").tokens(), vec!["--recurse-submodules-default=a b=c"]);
}

#[test]
fn fetch_empty_joined_values_leave_the_bare_flag() {
    assert_eq!(*options::depth("").tokens(), vec!["--depth"]);
    assert_eq!(*options::deepen("").tokens(), vec!["--deepen"]);
    assert_eq!(*options::shallow_since("").tokens(), vec!["--shallow-since"]);
    assert_eq!(*options::shallow_exclude("").tokens(), vec!["--shallow-exclude"]);
    assert_eq!(*options::refmap("").tokens(), vec!["--refmap"]);
    assert_eq!(*options::recurse_submodules("").tokens(), vec!["--recurse-submodules"]);
    assert_eq!(*options::jobs("").tokens(), vec!["--jobs"]);
    assert_eq!(*options::submodule_prefix("").tokens(), vec!["--submodule-prefix"]);
    assert_eq!(*options::recurse_submodules_default("").tokens(), vec!["--recurse-submodules-default"]);
}

#[test]
fn fetch_separate_values_follow_the_flag() {
    assert_eq!(*options::upload_pack("x y").tokens(), vec!["--upload-pack", "x y"]);
}

#[test]
fn fetch_empty_separate_values_leave_the_bare_flag() {
    assert_eq!(*options::upload_pack("").tokens(), vec!["--upload-pack"]);
}
