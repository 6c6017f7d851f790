use gitwrap::add::add;
use gitwrap::checkout::checkout;
use gitwrap::checkout::checkout_options::{b_option, conflict_option, force_option, quiet_option};
use gitwrap::clone::clone;
use gitwrap::command_executor::{CommandExecutor, CommandOption};
use gitwrap::fetch::fetch;
use gitwrap::git;
use gitwrap::ls_files::ls_files;
use gitwrap::merge::merge;
use gitwrap::notes::notes;
use gitwrap::rev_parse::rev_parse;
use gitwrap::revparse::revparse_options::short_option;
use gitwrap::wrap_command::{FnOptionArg, WrapCommand};

#[test]
fn checkout_quiet_force_main() {
    let mut cmd = checkout(None);
    cmd.option(quiet_option());
    cmd.option(force_option());
    cmd.add_option("main");
    assert_eq!(cmd.command_line(), vec!["checkout", "--quiet", "--force", "main"]);
}

#[test]
fn rev_parse_short_with_and_without_length() {
    assert_eq!(*short_option("").tokens(), vec!["--short"]);
    assert_eq!(*short_option("8").tokens(), vec!["--short=8"]);
    assert_eq!(*gitwrap::rev_parse::options::short("").tokens(), vec!["--short"]);
    assert_eq!(*gitwrap::rev_parse::options::short("8").tokens(), vec!["--short=8"]);
}

#[test]
fn option_on_an_empty_executor_leaves_exactly_its_tokens() {
    let mut cmd = CommandExecutor::new("checkout", None);
    cmd.option(b_option("topic"));
    assert_eq!(cmd.command_line(), vec!["checkout", "-b", "topic"]);

    let mut cmd = CommandExecutor::new("checkout", None);
    cmd.option(conflict_option("diff3"));
    assert_eq!(cmd.command_line(), vec!["checkout", "--conflict=diff3"]);
}

#[test]
fn options_stay_in_call_order() {
    let mut forward = checkout(None);
    forward.option(quiet_option());
    forward.option(b_option("topic"));
    forward.option(force_option());
    assert_eq!(forward.command_line(), vec!["checkout", "--quiet", "-b", "topic", "--force"]);

    let mut backward = checkout(None);
    backward.option(force_option());
    backward.option(b_option("topic"));
    backward.option(quiet_option());
    assert_eq!(backward.command_line(), vec!["checkout", "--force", "-b", "topic", "--quiet"]);
}

#[test]
fn repeated_options_are_not_merged() {
    let mut cmd = checkout(None);
    cmd.option(quiet_option());
    cmd.option(quiet_option());
    cmd.add_option("main");
    cmd.add_option("main");
    assert_eq!(cmd.command_line(), vec!["checkout", "--quiet", "--quiet", "main", "main"]);
}

#[test]
fn options_applies_a_list_from_first_to_last() {
    let mut cmd = checkout(None);
    cmd.add_option("--");
    cmd.options(vec![quiet_option(), b_option("topic"), conflict_option(""), force_option()]);
    assert_eq!(
        cmd.command_line(),
        vec!["checkout", "--", "--quiet", "-b", "topic", "--conflict", "--force"]
    );
}

#[test]
fn options_with_an_empty_list_changes_nothing() {
    let mut cmd = checkout(None);
    cmd.add_option("main");
    cmd.options(Vec::new());
    assert_eq!(cmd.command_line(), vec!["checkout", "main"]);
}

#[test]
fn options_gives_what_single_applications_give() {
    let mut one_by_one = fetch(None);
    one_by_one.option(gitwrap::fetch::options::depth("1"));
    one_by_one.option(gitwrap::fetch::options::upload_pack("/bin/pack"));
    one_by_one.option(gitwrap::fetch::options::prune());

    let mut at_once = fetch(None);
    at_once.options(vec![
        gitwrap::fetch::options::depth("1"),
        gitwrap::fetch::options::upload_pack("/bin/pack"),
        gitwrap::fetch::options::prune(),
    ]);
    assert_eq!(one_by_one.command_line(), at_once.command_line());
    assert_eq!(
        at_once.command_line(),
        vec!["fetch", "--depth=1", "--upload-pack", "/bin/pack", "--prune"]
    );
}

#[test]
fn add_option_string_appends_the_token_as_given() {
    let mut cmd = CommandExecutor::new("log", None);
    cmd.add_option_string(format!("--max-count={}", 3));
    cmd.add_option_string(String::new());
    cmd.add_option("");
    assert_eq!(cmd.command_line(), vec!["log", "--max-count=3", "", ""]);
}

#[test]
fn a_new_executor_holds_only_the_subcommand() {
    let cmd = CommandExecutor::new("status", None);
    assert_eq!(cmd.command_line(), vec!["status"]);
    assert_eq!(cmd.current_dir(), None);
}

#[test]
fn the_working_directory_is_kept_and_is_no_argument() {
    let mut cmd = CommandExecutor::new("status", Some("/tmp/repo"));
    assert_eq!(cmd.current_dir(), Some("/tmp/repo"));
    cmd.add_option("--short");
    assert_eq!(cmd.current_dir(), Some("/tmp/repo"));
    assert_eq!(cmd.command_line(), vec!["status", "--short"]);
}

#[test]
fn git_seeds_the_subcommand_and_the_directory() {
    let cmd: WrapCommand = git("stash", Some("work"));
    assert_eq!(cmd.command_line(), vec!["stash"]);
    assert_eq!(cmd.current_dir(), Some("work"));
    let cmd = git("stash", None);
    assert_eq!(cmd.current_dir(), None);
}

#[test]
fn subcommand_constructors_name_their_subcommand() {
    assert_eq!(add(None).command_line(), vec!["add"]);
    assert_eq!(clone(None).command_line(), vec!["clone"]);
    assert_eq!(checkout(None).command_line(), vec!["checkout"]);
    assert_eq!(fetch(None).command_line(), vec!["fetch"]);
    assert_eq!(ls_files(None).command_line(), vec!["ls-files"]);
    assert_eq!(merge(None).command_line(), vec!["merge"]);
    assert_eq!(notes(None).command_line(), vec!["notes"]);
    assert_eq!(rev_parse(None).command_line(), vec!["rev-parse"]);
}

#[test]
fn subcommand_constructors_keep_the_directory() {
    assert_eq!(add(Some("a")).current_dir(), Some("a"));
    assert_eq!(clone(Some("b")).current_dir(), Some("b"));
    assert_eq!(checkout(Some("c")).current_dir(), Some("c"));
    assert_eq!(fetch(Some("d")).current_dir(), Some("d"));
    assert_eq!(ls_files(Some("e")).current_dir(), Some("e"));
    assert_eq!(merge(Some("f")).current_dir(), Some("f"));
    assert_eq!(notes(Some("g")).current_dir(), Some("g"));
    assert_eq!(rev_parse(Some("h")).current_dir(), Some("h"));
    assert_eq!(add(None).current_dir(), None);
    assert_eq!(clone(None).current_dir(), None);
}

#[test]
fn add_with_paths() {
    let mut cmd = add(Some("/srv/repo"));
    cmd.add_option("--");
    cmd.add_option("src/lib.rs");
    cmd.add_option("a file with spaces.txt");
    assert_eq!(cmd.command_line(), vec!["add", "--", "src/lib.rs", "a file with spaces.txt"]);
}

#[test]
fn option_forms_by_hand() {
    assert_eq!(*CommandOption::flag("--bare").tokens(), vec!["--bare"]);
    assert_eq!(*CommandOption::joined("--depth", "3").tokens(), vec!["--depth=3"]);
    assert_eq!(*CommandOption::joined("--depth", "").tokens(), vec!["--depth"]);
    assert_eq!(*CommandOption::joined("--flag", "x").tokens(), vec!["--flag=x"]);
    assert_eq!(*CommandOption::joined("--flag", "=").tokens(), vec!["--flag=="]);
    assert_eq!(*CommandOption::separate("-b", "topic").tokens(), vec!["-b", "topic"]);
    assert_eq!(*CommandOption::separate("-b", "").tokens(), vec!["-b"]);
    let opt: FnOptionArg = CommandOption::separate("-m", "two words");
    assert_eq!(*opt.tokens(), vec!["-m", "two words"]);
}

#[test]
fn values_that_are_not_ascii_are_kept() {
    assert_eq!(
        *gitwrap::notes::options::message("gr\u{fc}\u{df}e").tokens(),
        vec!["--message=gr\u{fc}\u{df}e"]
    );
    let mut cmd = notes(None);
    cmd.add_option("add");
    cmd.option(gitwrap::notes::options::message("\u{65e5}\u{672c}"));
    assert_eq!(cmd.command_line(), vec!["notes", "add", "--message=\u{65e5}\u{672c}"]);
}

#[test]
fn command_line_can_be_read_more_than_once() {
    let mut cmd = merge(None);
    cmd.option(gitwrap::merge::options::no_ff());
    let first = cmd.command_line();
    cmd.option(gitwrap::merge::options::m("merge topic"));
    cmd.add_option("topic");
    assert_eq!(first, vec!["merge", "--no-ff"]);
    assert_eq!(cmd.command_line(), vec!["merge", "--no-ff", "-m", "merge topic", "topic"]);
}
