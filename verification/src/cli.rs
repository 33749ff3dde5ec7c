//! The command line's two commands, and what each comes to.

use vstd::prelude::*;
use crate::info::{info_error_message, info_outcome, Info, InfoError, InfoErrorView, Opened};
use crate::plan::{Notice, RenameError, RenameErrorView};
use crate::rename::{actions_for, notice_views, survey, Located, Rename, Run};
use crate::report::{action_views, rename_error_message, Action, ActionView, Line};
use crate::style::Tone;
use crate::text::texts;

verus! {

/// What the caller found on disk for a command. Each command reads its own
/// part and leaves the other alone.
#[derive(Debug, Clone)]
pub struct Findings {
    /// For the info command: what opening its file came to.
    pub opened: Opened,
    /// For the rename command: what each of its arguments came to, and each
    /// file below an argument that is a directory, in the order of the
    /// arguments.
    pub located: Vec<Located>,
}

/// Why a command failed.
#[derive(Debug, Clone, PartialEq, Eq)]
pub enum CliError {
    Info(InfoError),
    Rename(RenameError),
}

/// A command's error over plain text.
pub enum CliErrorView {
    Info(InfoErrorView),
    Rename(RenameErrorView),
}

impl View for CliError {
    type V = CliErrorView;

    open spec fn view(&self) -> CliErrorView {
        match self {
            CliError::Info(error) => CliErrorView::Info(error@),
            CliError::Rename(error) => CliErrorView::Rename(error@),
        }
    }
}

/// The message of a command's error.
pub open spec fn cli_error_message(error: CliErrorView) -> Seq<char> {
    match error {
        CliErrorView::Info(error) => info_error_message(error),
        CliErrorView::Rename(error) => rename_error_message(error),
    }
}

impl CliError {
    /// The message that tells the user of this error.
    pub fn message(&self) -> (r: String)
        ensures
            r@ == cli_error_message(self@),
    {
        match self {
            CliError::Info(error) => error.message(),
            CliError::Rename(error) => error.message(),
        }
    }
}

/// What a command came to.
#[derive(Debug)]
pub struct Outcome {
    /// The candidates that were passed over, in the order they were met.
    pub notices: Vec<Notice>,
    /// What is left to do, or why the command failed.
    pub result: Result<Vec<Action>, CliError>,
}

/// The steps that print `lines` as they are.
pub open spec fn said(lines: Seq<Seq<char>>) -> Seq<ActionView> {
    Seq::new(lines.len(), |i: int| ActionView::Say(seq![(Tone::Plain, lines[i])]))
}

/// The commands.
#[derive(Debug, Clone)]
pub enum Commands {
    Info(Info),
    Rename(Rename),
}

impl Outcome {
    /// Whether this is what `command` comes to on `found`: for the info
    /// command, its lines to print or its error, and no notice; for the
    /// rename command, what its run comes to.
    pub open spec fn answers(&self, command: Commands, found: Findings) -> bool {
        match command {
            Commands::Info(info) => {
                &&& self.notices@.len() == 0
                &&& match info_outcome(info.file@, found.opened) {
                    Ok(lines) => self.result is Ok && action_views(self.result.unwrap()@) == said(
                        lines,
                    ),
                    Err(error) => self.result is Err && self.result.unwrap_err()@
                        == CliErrorView::Info(error),
                }
            },
            Commands::Rename(rename) => {
                let progress = survey(found.located@);
                &&& notice_views(self.notices@) == progress.notices
                &&& match progress.failure {
                    None => self.result is Ok && action_views(self.result.unwrap()@) == actions_for(
                        progress.plan,
                        rename.execute,
                    ),
                    Some(error) => self.result is Err && self.result.unwrap_err()@
                        == CliErrorView::Rename(error),
                }
            },
        }
    }
}

/// The steps that print `lines` as they are.
fn say_all(lines: &Vec<String>) -> (r: Vec<Action>)
    ensures
        action_views(r@) == said(texts(lines@)),
{
    let mut out: Vec<Action> = Vec::new();
    let mut i: usize = 0;
    while i < lines.len()
        invariant
            i <= lines@.len(),
            out@.len() == i,
            forall|k: int| 0 <= k < i ==> (#[trigger] out@[k])@ == said(texts(lines@))[k],
        decreases lines@.len() - i,
    {
        out.push(Action::Say(Line::plain(lines[i].as_str())));
        i += 1;
    }
    assert(action_views(out@) =~= said(texts(lines@)));
    out
}

impl Commands {
    /// Runs the command on what the caller found for it.
    pub fn run(&self, found: &Findings) -> (r: Outcome)
        ensures
            r.answers(*self, *found),
    {
        match self {
            Commands::Info(info) => {
                let notices: Vec<Notice> = Vec::new();
                match info.run(&found.opened) {
                    Ok(lines) => Outcome { notices, result: Ok(say_all(&lines)) },
                    Err(error) => Outcome { notices, result: Err(CliError::Info(error)) },
                }
            },
            Commands::Rename(rename) => {
                let Run { notices, outcome } = rename.run(&found.located);
                match outcome {
                    Ok(actions) => Outcome { notices, result: Ok(actions) },
                    Err(error) => Outcome { notices, result: Err(CliError::Rename(error)) },
                }
            },
        }
    }
}

/// The command line: one command.
#[derive(Debug, Clone)]
pub struct Cli {
    pub command: Commands,
}

impl Cli {
    /// Runs the command of this command line on what the caller found for
    /// it.
    pub fn run(&self, found: &Findings) -> (r: Outcome)
        ensures
            r.answers(self.command, *found),
    {
        self.command.run(found)
    }
}

} // verus!
