//! One run of the tool, as a sequence of actions for the caller to perform.
//!
//! A [`Session`] is opened from the command line. It names the action that is
//! due, the caller performs it and reports the outcome, and the session moves
//! on. The first failure replaces whatever was left to do by a report of that
//! failure: nothing is retried and nothing is undone.
//!
//! A run of `init` creates the repository and confirms it. A run of `add` or
//! `remove` opens the repository, changes the index in memory and then
//! writes it; the write is the only point at which a change becomes durable.

use crate::cli::{parse_args, parse_args_spec, usage, usage_spec};
use crate::cli::{Command, CommandView, Invocation, InvocationView};
use crate::error::{DotsError, DotsErrorView};
use crate::path::{dots_dir, dots_dir_spec, home_dir, home_or_error, quote_path, quoted_path};
use crate::path::{require_home, text_of, to_relative, to_relative_spec, usable_home};
use vstd::prelude::*;
use vstd::string::*;

verus! {

/// Something the caller is asked to do.
#[derive(Debug, Clone, PartialEq, Eq)]
pub enum Action {
    /// Write the text to standard output.
    Print(String),
    /// End the process abruptly with the text as the reason.
    Abort(String),
    /// Create the directory `dots` with its parents, initialise a bare
    /// repository in it (one that is there already is kept), and set the
    /// option `key` to `value` in the repository's configuration. To be
    /// reported as failed as soon as one of the three fails.
    CreateRepository { dots: String, key: String, value: String },
    /// Open the bare repository at `dots`, make `workdir` its working
    /// directory without checking anything out, and load its index. To be
    /// reported as failed if there is no valid repository at `dots`.
    OpenRepository { dots: String, workdir: String },
    /// Stage the file at this path, read from the working directory, in the
    /// index held in memory. To be reported as failed if there is no such
    /// file, if it cannot be read, or if the engine does not accept the path.
    AddPath(String),
    /// Remove the entry for this path from the index held in memory. To be
    /// reported as failed if the index has no entry for the path.
    RemovePath(String),
    /// Write the index back to disk. To be reported as failed if the engine
    /// cannot write it; until this succeeds no change to the index lasts.
    WriteIndex,
}

/// Mathematical counterpart of [`Action`].
pub enum ActionView {
    Print(Seq<char>),
    Abort(Seq<char>),
    CreateRepository { dots: Seq<char>, key: Seq<char>, value: Seq<char> },
    OpenRepository { dots: Seq<char>, workdir: Seq<char> },
    AddPath(Seq<char>),
    RemovePath(Seq<char>),
    WriteIndex,
}

impl View for Action {
    type V = ActionView;

    open spec fn view(&self) -> ActionView {
        match self {
            Action::Print(text) => ActionView::Print(text@),
            Action::Abort(reason) => ActionView::Abort(reason@),
            Action::CreateRepository { dots, key, value } => ActionView::CreateRepository {
                dots: dots@,
                key: key@,
                value: value@,
            },
            Action::OpenRepository { dots, workdir } => ActionView::OpenRepository {
                dots: dots@,
                workdir: workdir@,
            },
            Action::AddPath(path) => ActionView::AddPath(path@),
            Action::RemovePath(path) => ActionView::RemovePath(path@),
            Action::WriteIndex => ActionView::WriteIndex,
        }
    }
}

impl DeepView for Action {
    type V = ActionView;

    open spec fn deep_view(&self) -> ActionView {
        self@
    }
}

impl ActionView {
    /// Whether performing the action can fail. Printing and aborting cannot.
    pub open spec fn can_fail(self) -> bool {
        !(self is Print || self is Abort)
    }
}

impl Action {
    /// Whether performing the action can fail. Printing and aborting cannot.
    pub fn can_fail(&self) -> (fallible: bool)
        ensures
            fallible == self@.can_fail(),
    {
        match self {
            Action::Print(_) => false,
            Action::Abort(_) => false,
            _ => true,
        }
    }
}

/// The configuration option set in a new repository, so that the rest of
/// the home directory does not show up as untracked.
pub open spec fn config_key() -> Seq<char> {
    "status.showUntrackedFiles"@
}

/// The value given to [`config_key`].
pub open spec fn config_value() -> Seq<char> {
    "no"@
}

/// The confirmation that shows the repository's location as `quoted`.
pub open spec fn announcement_spec(quoted: Seq<char>) -> Seq<char> {
    "initialised new bare dotfiles-reop at "@ + quoted
}

/// The confirmation printed once the repository at `dots` exists.
pub open spec fn confirmation_spec(dots: Seq<char>) -> Seq<char> {
    announcement_spec(quoted_path(dots))
}

/// How a failure is brought to the user: as the reason of an abrupt end, or
/// as printed text.
pub open spec fn report_spec(error: DotsErrorView) -> Seq<ActionView> {
    if error.aborts() {
        seq![ActionView::Abort(error.message())]
    } else {
        seq![ActionView::Print(error.message())]
    }
}

/// The steps of `init`: create the repository at `dots`, then print
/// `announcement`.
pub open spec fn init_steps_spec(dots: Seq<char>, announcement: Seq<char>) -> Seq<ActionView> {
    seq![
        ActionView::CreateRepository { dots: dots, key: config_key(), value: config_value() },
        ActionView::Print(announcement),
    ]
}

/// The steps of a change to the index: open the repository at `dots` over
/// the working directory `home`, make the change, write the index.
pub open spec fn index_steps_spec(dots: Seq<char>, home: Seq<char>, change: ActionView) -> Seq<
    ActionView,
> {
    seq![ActionView::OpenRepository { dots: dots, workdir: home }, change, ActionView::WriteIndex]
}

/// The steps of a command when the home directory is `home`.
pub open spec fn command_steps_spec(command: CommandView, home: Seq<char>) -> Seq<ActionView> {
    let dots = dots_dir_spec(home);
    match command {
        CommandView::Init => init_steps_spec(dots, confirmation_spec(dots)),
        CommandView::Add(file) => index_steps_spec(
            dots,
            home,
            ActionView::AddPath(to_relative_spec(file, home)),
        ),
        CommandView::Remove(file) => index_steps_spec(
            dots,
            home,
            ActionView::RemovePath(to_relative_spec(file, home)),
        ),
    }
}

/// The steps of a command, given what the lookup of the home directory
/// found. Without a home directory there is only the failure to report.
pub open spec fn plan_spec(command: CommandView, home: Option<Seq<char>>) -> Seq<ActionView> {
    match home_or_error(home) {
        Ok(dir) => command_steps_spec(command, dir),
        Err(error) => report_spec(error),
    }
}

/// Everything a run does if nothing fails, for a program called `program`
/// with the arguments `args` after its name, given what the lookup of the
/// home directory finds.
pub open spec fn opening_spec(
    program: Seq<char>,
    args: Seq<Seq<char>>,
    home: Option<Seq<char>>,
) -> Seq<ActionView> {
    match parse_args_spec(args) {
        Ok(InvocationView::Help) => seq![ActionView::Print(usage_spec(program))],
        Ok(InvocationView::Run(command)) => plan_spec(command, home),
        Err(error) => report_spec(error),
    }
}

/// The confirmation that shows the repository's location as `quoted`.
pub fn announcement(quoted: &str) -> (text: String)
    ensures
        text@ == "initialised new bare dotfiles-reop at "@ + quoted@,
        text@ == announcement_spec(quoted@),
{
    String::from_str("initialised new bare dotfiles-reop at ").concat(quoted)
}

/// The confirmation printed once the repository at `dots` exists.
pub fn confirmation(dots: &str) -> (text: String)
    ensures
        text@ == confirmation_spec(dots@),
{
    let quoted = quote_path(dots);
    announcement(quoted.as_str())
}

/// The single step that brings a failure to the user.
pub fn report(error: &DotsError) -> (steps: Vec<Action>)
    ensures
        steps.deep_view() == report_spec(error@),
{
    let mut steps: Vec<Action> = Vec::new();
    if error.aborts() {
        steps.push(Action::Abort(error.message()));
    } else {
        steps.push(Action::Print(error.message()));
    }
    assert(steps.deep_view() =~= report_spec(error@));
    steps
}

/// The steps of `init`: create the repository at `dots`, then print
/// `announcement`.
pub fn init_steps(dots: String, announcement: String) -> (steps: Vec<Action>)
    ensures
        steps.deep_view() == init_steps_spec(dots@, announcement@),
{
    let mut steps: Vec<Action> = Vec::new();
    steps.push(
        Action::CreateRepository {
            dots,
            key: String::from_str("status.showUntrackedFiles"),
            value: String::from_str("no"),
        },
    );
    steps.push(Action::Print(announcement));
    assert(steps.deep_view() =~= init_steps_spec(dots@, announcement@));
    steps
}

/// The steps of a change to the index: open the repository at `dots` over
/// the working directory `home`, make the change, write the index.
pub fn index_steps(dots: String, home: String, change: Action) -> (steps: Vec<Action>)
    ensures
        steps.deep_view() == index_steps_spec(dots@, home@, change@),
{
    let mut steps: Vec<Action> = Vec::new();
    steps.push(Action::OpenRepository { dots, workdir: home });
    steps.push(change);
    steps.push(Action::WriteIndex);
    assert(steps.deep_view() =~= index_steps_spec(dots@, home@, change@));
    steps
}

/// The steps of a command when the home directory is `home`.
pub fn command_steps(command: &Command, home: &str) -> (steps: Vec<Action>)
    ensures
        steps.deep_view() == command_steps_spec(command@, home@),
{
    let dots = dots_dir(home);
    match command {
        Command::Init => {
            let announcement = confirmation(dots.as_str());
            init_steps(dots, announcement)
        },
        Command::Add(file) => {
            let relative = to_relative(file.as_str(), home);
            index_steps(dots, String::from_str(home), Action::AddPath(relative))
        },
        Command::Remove(file) => {
            let relative = to_relative(file.as_str(), home);
            index_steps(dots, String::from_str(home), Action::RemovePath(relative))
        },
    }
}

/// The steps of a command, given what the lookup of the home directory found.
pub fn plan(command: &Command, home: Option<String>) -> (steps: Vec<Action>)
    ensures
        steps.deep_view() == plan_spec(command@, text_of(home)),
{
    match require_home(home) {
        Ok(dir) => command_steps(command, dir.as_str()),
        Err(error) => report(&error),
    }
}

/// A run in progress: the steps that are planned and how many of them are done.
#[derive(Debug, Clone, PartialEq, Eq)]
pub struct Session {
    script: Vec<Action>,
    cursor: usize,
}

/// Mathematical counterpart of [`Session`].
pub struct SessionView {
    /// The planned steps, in order.
    pub script: Seq<ActionView>,
    /// How many of them are behind us.
    pub cursor: nat,
}

/// The view of an outcome reported by the caller.
pub open spec fn outcome_view(outcome: Result<(), DotsError>) -> Result<(), DotsErrorView> {
    match outcome {
        Ok(_) => Ok(()),
        Err(error) => Err(error@),
    }
}

/// The view of an action that may be absent.
pub open spec fn pending_view(action: Option<&Action>) -> Option<ActionView> {
    match action {
        Some(due) => Some(due@),
        None => None,
    }
}

impl SessionView {
    /// A run that has `script` ahead of it.
    pub open spec fn fresh(script: Seq<ActionView>) -> SessionView {
        SessionView { script: script, cursor: 0 }
    }

    /// Whether nothing is left to do.
    pub open spec fn finished(self) -> bool {
        self.cursor >= self.script.len()
    }

    /// The action that is due, if any.
    pub open spec fn pending(self) -> Option<ActionView> {
        if self.finished() {
            None
        } else {
            Some(self.script[self.cursor as int])
        }
    }

    /// The run after the caller reported `outcome` for the action that was due.
    ///
    /// Success moves on to the next step. A failure of an action that can
    /// fail replaces the rest of the run by the report of that failure. A
    /// finished run stays as it is.
    pub open spec fn advance(self, outcome: Result<(), DotsErrorView>) -> SessionView {
        if self.finished() {
            self
        } else {
            match outcome {
                Err(error) if self.script[self.cursor as int].can_fail() => SessionView::fresh(
                    report_spec(error),
                ),
                _ => SessionView { script: self.script, cursor: self.cursor + 1 },
            }
        }
    }
}

impl View for Session {
    type V = SessionView;

    closed spec fn view(&self) -> SessionView {
        SessionView { script: self.script.deep_view(), cursor: self.cursor as nat }
    }
}

impl Session {
    /// A run that has `script` ahead of it.
    pub fn new(script: Vec<Action>) -> (session: Session)
        ensures
            session@ == SessionView::fresh(script.deep_view()),
    {
        Session { script, cursor: 0 }
    }

    /// Opens the run for a program called `program` that was given `args`
    /// after its name, with `home` as the outcome of looking up the home
    /// directory.
    pub fn open(program: &str, args: &Vec<String>, home: Option<String>) -> (session: Session)
        ensures
            session@ == SessionView::fresh(
                opening_spec(program@, args.deep_view(), text_of(home)),
            ),
    {
        match parse_args(args) {
            Ok(Invocation::Help) => {
                let mut script: Vec<Action> = Vec::new();
                script.push(Action::Print(usage(program)));
                assert(script.deep_view() =~= seq![ActionView::Print(usage_spec(program@))]);
                Session::new(script)
            },
            Ok(Invocation::Run(command)) => Session::new(plan(&command, home)),
            Err(error) => Session::new(report(&error)),
        }
    }

    /// Opens the run for a program called `program` that was given `args`
    /// after its name. The home directory is looked up in the environment,
    /// and only if the arguments name a command. A home directory whose
    /// name is not valid Unicode counts as none.
    pub fn start(program: &str, args: &Vec<String>) -> (session: Session)
        ensures
            exists|home: Option<Seq<char>>|
                session@ == SessionView::fresh(
                    #[trigger] opening_spec(program@, args.deep_view(), home),
                ),
    {
        match parse_args(args) {
            Ok(Invocation::Run(command)) => {
                let home = usable_home(home_dir());
                let session = Session::new(plan(&command, home));
                assert(session@ == SessionView::fresh(
                    opening_spec(program@, args.deep_view(), text_of(home)),
                ));
                session
            },
            _ => {
                let session = Session::open(program, args, None);
                assert(session@ == SessionView::fresh(
                    opening_spec(program@, args.deep_view(), None),
                ));
                session
            },
        }
    }

    /// The action that is due, or `None` once the run is over.
    pub fn pending(&self) -> (action: Option<&Action>)
        ensures
            pending_view(action) == self@.pending(),
    {
        if self.cursor < self.script.len() {
            Some(&self.script[self.cursor])
        } else {
            None
        }
    }

    /// Whether nothing is left to do.
    pub fn is_finished(&self) -> (done: bool)
        ensures
            done == self@.finished(),
    {
        self.cursor >= self.script.len()
    }

    /// Takes note of how the action that was due went.
    pub fn advance(&mut self, outcome: Result<(), DotsError>)
        ensures
            final(self)@ == old(self)@.advance(outcome_view(outcome)),
    {
        if self.cursor >= self.script.len() {
            return ;
        }
        let fallible = self.script[self.cursor].can_fail();
        match outcome {
            Err(error) => {
                if fallible {
                    self.script = report(&error);
                    self.cursor = 0;
                } else {
                    self.cursor = self.cursor + 1;
                }
            },
            Ok(_) => {
                self.cursor = self.cursor + 1;
            },
        }
    }
}

/// A failure ends the run: what remains is the report of that failure, and
/// once that is delivered nothing else is asked for. In particular a change
/// to the index that failed is never followed by a write of the index.
pub proof fn failure_ends_the_run(
    session: SessionView,
    error: DotsErrorView,
    next: Result<(), DotsErrorView>,
)
    requires
        session.pending() is Some,
        session.pending().unwrap().can_fail(),
    ensures
        session.advance(Err(error)).pending() == Some(
            if error.aborts() {
                ActionView::Abort(error.message())
            } else {
                ActionView::Print(error.message())
            },
        ),
        session.advance(Err(error)).advance(next).finished(),
{
}

/// Success moves a run exactly one step on and leaves its plan alone.
pub proof fn success_moves_one_step(session: SessionView)
    requires
        !session.finished(),
    ensures
        session.advance(Ok(())).script == session.script,
        session.advance(Ok(())).cursor == session.cursor + 1,
{
}

/// In every run the index is written only as the step right after a change
/// to the index, whatever the command line and the home directory are. So
/// `init` never writes the index, and `add` and `remove` write it only once
/// their change went through.
pub proof fn write_follows_change(
    program: Seq<char>,
    args: Seq<Seq<char>>,
    home: Option<Seq<char>>,
    at: int,
)
    requires
        0 <= at < opening_spec(program, args, home).len(),
        opening_spec(program, args, home)[at] is WriteIndex,
    ensures
        at > 0,
        opening_spec(program, args, home)[at - 1] is AddPath || opening_spec(
            program,
            args,
            home,
        )[at - 1] is RemovePath,
{
}

/// Every run that creates the repository sets the option that hides
/// untracked files to `no`, each time it is run.
pub proof fn init_hides_untracked_files(home: Seq<char>)
    ensures
        command_steps_spec(CommandView::Init, home)[0] == (ActionView::CreateRepository {
            dots: dots_dir_spec(home),
            key: "status.showUntrackedFiles"@,
            value: "no"@,
        }),
{
}

} // verus!
