//! The executor of one `git` invocation and the option actions applied to it.
//!
//! An executor owns the subcommand name, an optional working directory and the
//! ordered argument tokens. An option action is a value that carries the tokens
//! of one documented flag; applying it appends those tokens, in order, and
//! touches nothing else.

use vstd::prelude::*;
use vstd::string::*;

verus! {

/// The tokens of a flag whose value is joined to it by `=`: the bare flag when
/// the value is empty, otherwise the single token `name=value`.
pub open spec fn joined(name: Seq<char>, value: Seq<char>) -> Seq<Seq<char>> {
    if value.len() == 0 {
        seq![name]
    } else {
        seq![name + seq!['='] + value]
    }
}

/// The tokens of a flag whose value follows it as a token of its own: the bare
/// flag when the value is empty, otherwise the flag and then the value.
pub open spec fn separate(name: Seq<char>, value: Seq<char>) -> Seq<Seq<char>> {
    if value.len() == 0 {
        seq![name]
    } else {
        seq![name, value]
    }
}

/// An option action: the tokens that one documented flag adds to a command.
#[derive(Debug)]
pub struct CommandOption {
    tokens: Vec<String>,
}

impl View for CommandOption {
    type V = Seq<Seq<char>>;

    closed spec fn view(&self) -> Seq<Seq<char>> {
        self.tokens.deep_view()
    }
}

impl DeepView for CommandOption {
    type V = Seq<Seq<char>>;

    open spec fn deep_view(&self) -> Seq<Seq<char>> {
        self@
    }
}

impl CommandOption {
    /// A flag that stands alone, such as `--quiet`.
    pub fn flag(name: &str) -> (opt: Self)
        ensures
            opt@ == seq![name@],
    {
        let mut tokens: Vec<String> = Vec::new();
        tokens.push(String::from_str(name));
        CommandOption { tokens }
    }

    /// A flag with a value joined by `=`, such as `--depth=<n>` or
    /// `--short[=length]`. An empty value leaves the bare flag.
    pub fn joined(name: &str, value: &str) -> (opt: Self)
        ensures
            opt@ == joined(name@, value@),
    {
        let mut token = String::from_str(name);
        if !value.is_empty() {
            proof {
                reveal_strlit("=");
            }
            token.append("=");
            token.append(value);
            assert("="@ =~= seq!['=']);
        }
        let mut tokens: Vec<String> = Vec::new();
        tokens.push(token);
        CommandOption { tokens }
    }

    /// A flag followed by its value as a second token, such as `-b <branch>`.
    /// An empty value leaves the bare flag.
    pub fn separate(name: &str, value: &str) -> (opt: Self)
        ensures
            opt@ == separate(name@, value@),
    {
        let mut tokens: Vec<String> = Vec::new();
        tokens.push(String::from_str(name));
        if !value.is_empty() {
            tokens.push(String::from_str(value));
        }
        CommandOption { tokens }
    }

    /// The tokens of this option, in the order in which they are appended.
    pub fn tokens(&self) -> (tokens: &Vec<String>)
        ensures
            tokens.deep_view() == self@,
    {
        &self.tokens
    }
}

/// What an executor stands for: one command line of `git`, not yet run.
pub struct CommandLine {
    /// The subcommand, such as `checkout`.
    pub subcommand: Seq<char>,
    /// The directory in which the command is to run, if one was given.
    pub current_dir: Option<Seq<char>>,
    /// The tokens after the subcommand, in the order in which they were added.
    pub args: Seq<Seq<char>>,
}

impl CommandLine {
    /// The command line of a subcommand before anything is added to it.
    pub open spec fn start(subcommand: Seq<char>, current_dir: Option<Seq<char>>) -> CommandLine {
        CommandLine { subcommand, current_dir, args: Seq::empty() }
    }

    /// The command line after one option action: its tokens are appended and
    /// nothing else changes.
    pub open spec fn apply(self, tokens: Seq<Seq<char>>) -> CommandLine {
        CommandLine { args: self.args + tokens, ..self }
    }

    /// The command line after a sequence of option actions, applied from the
    /// first to the last.
    pub open spec fn apply_all(self, options: Seq<Seq<Seq<char>>>) -> CommandLine
        decreases options.len(),
    {
        if options.len() == 0 {
            self
        } else {
            self.apply(options.first()).apply_all(options.drop_first())
        }
    }

    /// Everything handed to `git`: the subcommand, then the arguments.
    pub open spec fn tokens(self) -> Seq<Seq<char>> {
        seq![self.subcommand] + self.args
    }
}

/// An option action applied to a command that has no argument yet leaves
/// exactly the tokens of that option as its arguments, in their order, and the
/// subcommand and the working directory as they were.
pub proof fn lemma_option_on_empty_command(line: CommandLine, tokens: Seq<Seq<char>>)
    requires
        line.args.len() == 0,
    ensures
        line.apply(tokens).args == tokens,
        line.apply(tokens).tokens() == seq![line.subcommand] + tokens,
        line.apply(tokens).subcommand == line.subcommand,
        line.apply(tokens).current_dir == line.current_dir,
{
}

/// Option actions applied one after another leave their tokens in call order:
/// the arguments afterwards are the arguments before, followed by the tokens
/// of the first option, then those of the second, and so on to the last.
/// Nothing is reordered, dropped or merged, and the subcommand and the working
/// directory stay as they were.
pub proof fn lemma_options_keep_call_order(line: CommandLine, options: Seq<Seq<Seq<char>>>)
    ensures
        line.apply_all(options) == line.apply(options.flatten()),
        line.apply_all(options).args == line.args + options.flatten(),
    decreases options.len(),
{
    if options.len() > 0 {
        lemma_options_keep_call_order(line.apply(options.first()), options.drop_first());
        assert((line.args + options.first()) + options.drop_first().flatten() =~= line.args
            + options.flatten());
    }
}

/// The view of an optional directory.
pub open spec fn dir_view(dir: Option<&str>) -> Option<Seq<char>> {
    match dir {
        Some(d) => Some(d@),
        None => None,
    }
}

/// The accumulator of one `git` invocation.
#[derive(Debug)]
pub struct CommandExecutor {
    cmd: String,
    current_dir: Option<String>,
    args: Vec<String>,
}

impl View for CommandExecutor {
    type V = CommandLine;

    closed spec fn view(&self) -> CommandLine {
        CommandLine {
            subcommand: self.cmd@,
            current_dir: match self.current_dir {
                Some(d) => Some(d@),
                None => None,
            },
            args: self.args.deep_view(),
        }
    }
}

impl CommandExecutor {
    /// An executor for the subcommand `cmd`, with no argument yet.
    pub fn new(cmd: &str, current_dir: Option<&str>) -> (executor: Self)
        ensures
            executor@ == CommandLine::start(cmd@, dir_view(current_dir)),
    {
        let dir = match current_dir {
            Some(d) => Some(String::from_str(d)),
            None => None,
        };
        let executor = CommandExecutor { cmd: String::from_str(cmd), current_dir: dir, args: Vec::new() };
        assert(executor@.args =~= Seq::empty());
        executor
    }

    /// Appends one token: a flag, or a positional argument such as a path or a
    /// ref.
    pub fn add_option(&mut self, opt: &str)
        ensures
            final(self)@ == old(self)@.apply(seq![opt@]),
    {
        self.add_option_string(String::from_str(opt));
    }

    /// Appends one token that the caller has already built.
    pub fn add_option_string(&mut self, opt: String)
        ensures
            final(self)@ == old(self)@.apply(seq![opt@]),
    {
        self.args.push(opt);
        assert(self@.args =~= old(self)@.args + seq![opt@]);
    }

    /// Applies one option action: its tokens are appended in their order.
    pub fn option(&mut self, opt: CommandOption)
        ensures
            final(self)@ == old(self)@.apply(opt@),
    {
        let mut opt = opt;
        let ghost added = opt@;
        self.args.append(&mut opt.tokens);
        assert(self@.args =~= old(self)@.args + added);
    }

    /// Applies option actions in the order of `opts`, the first one first.
    pub fn options(&mut self, opts: Vec<CommandOption>)
        ensures
            final(self)@ == old(self)@.apply(opts.deep_view().flatten()),
    {
        let ghost all = opts.deep_view();
        for opt in it: opts
            invariant
                it.seq().len() == all.len(),
                forall|k: int| 0 <= k < all.len() ==> (#[trigger] it.seq()[k])@ == all[k],
                self@ == old(self)@.apply(all.take(it.index() as int).flatten()),
        {
            let ghost done = all.take(it.index() as int);
            proof {
                assert(all.take(it.index() + 1) =~= done.push(opt@));
                done.lemma_flatten_push(opt@);
            }
            self.option(opt);
            assert(self@.args =~= old(self)@.args + done.push(all[it.index() as int]).flatten());
        }
        assert(all.take(all.len() as int) =~= all);
    }

    /// The tokens handed to `git`: the subcommand first, then every argument
    /// in the order in which it was added.
    pub fn command_line(&self) -> (line: Vec<String>)
        ensures
            line.deep_view() == self@.tokens(),
    {
        let mut line: Vec<String> = Vec::new();
        line.push(self.cmd.clone());
        let mut i: usize = 0;
        while i < self.args.len()
            invariant
                i <= self.args.len(),
                line.deep_view() =~= seq![self.cmd@] + self.args.deep_view().take(i as int),
            decreases self.args.len() - i,
        {
            let ghost before = line.deep_view();
            let token = self.args[i].clone();
            line.push(token);
            assert(line.deep_view() =~= before.push(self.args[i as int]@));
            i += 1;
        }
        line
    }

    /// The directory in which the command is to run, if one was given.
    pub fn current_dir(&self) -> (dir: Option<&str>)
        ensures
            dir_view(dir) == self@.current_dir,
    {
        match &self.current_dir {
            Some(d) => Some(d.as_str()),
            None => None,
        }
    }
}

} // verus!
