//! The command line: which options are understood, which commands exist, and
//! what each arrangement of arguments asks for.

use crate::error::{DotsError, DotsErrorView};
use vstd::prelude::*;
use vstd::string::*;

verus! {

/// A command the tool can carry out.
#[derive(Debug, Clone, PartialEq, Eq)]
pub enum Command {
    /// Create the repository.
    Init,
    /// Stage the named file.
    Add(String),
    /// Unstage the named file.
    Remove(String),
}

/// Mathematical counterpart of [`Command`].
pub enum CommandView {
    Init,
    Add(Seq<char>),
    Remove(Seq<char>),
}

impl View for Command {
    type V = CommandView;

    open spec fn view(&self) -> CommandView {
        match self {
            Command::Init => CommandView::Init,
            Command::Add(file) => CommandView::Add(file@),
            Command::Remove(file) => CommandView::Remove(file@),
        }
    }
}

/// What a command line asks for.
#[derive(Debug, Clone, PartialEq, Eq)]
pub enum Invocation {
    /// Show the usage text and do nothing else.
    Help,
    /// Carry out a command.
    Run(Command),
}

/// Mathematical counterpart of [`Invocation`].
pub enum InvocationView {
    Help,
    Run(CommandView),
}

impl View for Invocation {
    type V = InvocationView;

    open spec fn view(&self) -> InvocationView {
        match self {
            Invocation::Help => InvocationView::Help,
            Invocation::Run(command) => InvocationView::Run(command@),
        }
    }
}

/// The arguments as the option parser read them: whether the help flag was
/// among them, and the tokens that are not options, in order.
#[derive(Debug, Clone, PartialEq, Eq)]
pub struct Parsed {
    pub help: bool,
    pub free: Vec<String>,
}

/// Mathematical counterpart of a parse of the options: the flag and the free
/// tokens, or the parser's complaint.
pub type ParsedView = Result<(bool, Seq<Seq<char>>), Seq<char>>;

/// The view of the outcome of parsing the options.
pub open spec fn parsed_view(parsed: Result<Parsed, String>) -> ParsedView {
    match parsed {
        Ok(found) => Ok((found.help, found.free.deep_view())),
        Err(complaint) => Err(complaint@),
    }
}

/// The view of the outcome of reading a command line.
pub open spec fn invocation_view(outcome: Result<Invocation, DotsError>) -> Result<
    InvocationView,
    DotsErrorView,
> {
    match outcome {
        Ok(invocation) => Ok(invocation@),
        Err(error) => Err(error@),
    }
}

/// The view of the outcome of choosing a command.
pub open spec fn command_view(outcome: Result<Command, DotsError>) -> Result<
    CommandView,
    DotsErrorView,
> {
    match outcome {
        Ok(command) => Ok(command@),
        Err(error) => Err(error@),
    }
}

/// A short option name the parser accepts: one ASCII letter.
pub open spec fn is_flag_letter(short: Seq<char>) -> bool {
    short.len() == 1 && (('a' <= short[0] && short[0] <= 'z') || ('A' <= short[0] && short[0]
        <= 'Z'))
}

/// What `getopts::Options::parse` makes of `args` when the only option
/// declared is a flag with the given short name, long name and description:
/// whether the flag occurs and which tokens are free, or the text of its
/// failure.
pub uninterp spec fn flag_parse(
    short: Seq<char>,
    long: Seq<char>,
    desc: Seq<char>,
    args: Seq<Seq<char>>,
) -> ParsedView;

/// What `getopts::Options::usage` renders for `brief` when the only option
/// declared is a flag with the given short name, long name and description.
pub uninterp spec fn flag_usage(
    short: Seq<char>,
    long: Seq<char>,
    desc: Seq<char>,
    brief: Seq<char>,
) -> Seq<char>;

/// Declares one flag with `getopts::Options::optflag` and parses `args` with
/// `getopts::Options::parse`. Trusted: the outcome is a function of the
/// arguments alone. The names are restricted to those for which `optflag`
/// and `Matches::opt_present` do not panic.
#[verifier::external_body]
fn parse_flag(short: &str, long: &str, desc: &str, args: &Vec<String>) -> (parsed: Result<
    Parsed,
    String,
>)
    requires
        is_flag_letter(short@),
        long@.len() >= 2,
    ensures
        parsed_view(parsed) == flag_parse(short@, long@, desc@, args.deep_view()),
{
    let mut options = getopts::Options::new();
    options.optflag(short, long, desc);
    match options.parse(args) {
        Ok(matches) => Ok(Parsed { help: matches.opt_present(short), free: matches.free }),
        Err(fail) => Err(fail.to_string()),
    }
}

/// Declares one flag with `getopts::Options::optflag` and renders the usage
/// text with `getopts::Options::usage`. Trusted: the text is a function of
/// the arguments alone. The names are restricted to those for which
/// `optflag` and `usage` do not panic.
#[verifier::external_body]
fn usage_with_flag(short: &str, long: &str, desc: &str, brief: &str) -> (text: String)
    requires
        is_flag_letter(short@),
        long@.len() >= 2,
    ensures
        text@ == flag_usage(short@, long@, desc@, brief@),
{
    let mut options = getopts::Options::new();
    options.optflag(short, long, desc);
    options.usage(brief)
}

/// The command that the free tokens name.
///
/// The first token selects the command. `add` and `remove` take the token
/// after it as their file; further tokens are ignored.
pub open spec fn dispatch_spec(free: Seq<Seq<char>>) -> Result<CommandView, DotsErrorView> {
    if free.len() == 0 {
        Err(DotsErrorView::MissingCommand)
    } else if free[0] == "init"@ {
        Ok(CommandView::Init)
    } else if free[0] == "add"@ {
        if free.len() >= 2 {
            Ok(CommandView::Add(free[1]))
        } else {
            Err(DotsErrorView::MissingArgument(free[0]))
        }
    } else if free[0] == "remove"@ {
        if free.len() >= 2 {
            Ok(CommandView::Remove(free[1]))
        } else {
            Err(DotsErrorView::MissingArgument(free[0]))
        }
    } else {
        Err(DotsErrorView::InvalidCommand(free[0]))
    }
}

/// What parsed arguments ask for. A complaint of the option parser is an
/// error; the help flag wins over any command; otherwise the free tokens
/// decide.
pub open spec fn interpret_spec(parsed: ParsedView) -> Result<InvocationView, DotsErrorView> {
    match parsed {
        Err(complaint) => Err(DotsErrorView::InvalidOption(complaint)),
        Ok((help, free)) => if help {
            Ok(InvocationView::Help)
        } else {
            match dispatch_spec(free) {
                Ok(command) => Ok(InvocationView::Run(command)),
                Err(error) => Err(error),
            }
        },
    }
}

/// What the arguments after the program's name ask for.
pub open spec fn parse_args_spec(args: Seq<Seq<char>>) -> Result<InvocationView, DotsErrorView> {
    interpret_spec(flag_parse("h"@, "help"@, "print this help"@, args))
}

/// The line that heads the usage text.
pub open spec fn usage_brief_spec(program: Seq<char>) -> Seq<char> {
    "Usage: "@ + program + " [options] command"@
}

/// The usage text for a program of the given name.
pub open spec fn usage_spec(program: Seq<char>) -> Seq<char> {
    flag_usage("h"@, "help"@, "print this help"@, usage_brief_spec(program))
}

/// Chooses the command that the free tokens name.
pub fn dispatch(free: &Vec<String>) -> (outcome: Result<Command, DotsError>)
    ensures
        command_view(outcome) == dispatch_spec(free.deep_view()),
{
    if free.len() == 0 {
        return Err(DotsError::MissingCommand);
    }
    let name = &free[0];
    assert(free.deep_view()[0] == name@);
    if *name == String::from_str("init") {
        Ok(Command::Init)
    } else if *name == String::from_str("add") {
        if free.len() >= 2 {
            assert(free.deep_view()[1] == free[1]@);
            Ok(Command::Add(free[1].clone()))
        } else {
            Err(DotsError::MissingArgument(name.clone()))
        }
    } else if *name == String::from_str("remove") {
        if free.len() >= 2 {
            assert(free.deep_view()[1] == free[1]@);
            Ok(Command::Remove(free[1].clone()))
        } else {
            Err(DotsError::MissingArgument(name.clone()))
        }
    } else {
        Err(DotsError::InvalidCommand(name.clone()))
    }
}

/// Decides what parsed arguments ask for.
pub fn interpret(parsed: Result<Parsed, String>) -> (outcome: Result<Invocation, DotsError>)
    ensures
        invocation_view(outcome) == interpret_spec(parsed_view(parsed)),
{
    match parsed {
        Err(complaint) => Err(DotsError::InvalidOption(complaint)),
        Ok(found) => {
            if found.help {
                Ok(Invocation::Help)
            } else {
                match dispatch(&found.free) {
                    Ok(command) => Ok(Invocation::Run(command)),
                    Err(error) => Err(error),
                }
            }
        },
    }
}

/// Reads the arguments that follow the program's name.
///
/// `-h` and `--help` ask for the usage text. Anything else the option parser
/// accepts is a command with its argument.
pub fn parse_args(args: &Vec<String>) -> (outcome: Result<Invocation, DotsError>)
    ensures
        invocation_view(outcome) == parse_args_spec(args.deep_view()),
{
    proof {
        reveal_strlit("h");
        reveal_strlit("help");
    }
    interpret(parse_flag("h", "help", "print this help", args))
}

/// The line that heads the usage text.
pub fn usage_brief(program: &str) -> (brief: String)
    ensures
        brief@ == usage_brief_spec(program@),
{
    String::from_str("Usage: ").concat(program).concat(" [options] command")
}

/// The usage text for a program of the given name.
pub fn usage(program: &str) -> (text: String)
    ensures
        text@ == usage_spec(program@),
{
    proof {
        reveal_strlit("h");
        reveal_strlit("help");
    }
    let brief = usage_brief(program);
    usage_with_flag("h", "help", "print this help", brief.as_str())
}

} // verus!
