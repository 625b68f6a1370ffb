//! The command model: the four operations and the parameters of each.

use vstd::prelude::*;

verus! {

/// The style a README is written in when none is asked for.
pub const DEFAULT_STYLE: &'static str = "Professional and Concise";

/// The text of an optional field, if it is there.
pub open spec fn text_of(field: Option<String>) -> Option<Seq<char>> {
    match field {
        Some(s) => Some(s@),
        None => None,
    }
}

/// A parsed invocation: the global options and the selected operation.
pub struct Args {
    /// Directory to scan for reference code.
    pub scan: Option<String>,
    /// Whether input is read from standard input.
    pub stdin: bool,
    /// The selected operation with its parameters.
    pub command: Commands,
}

/// The operation to produce a prompt for, with its own parameters.
pub enum Commands {
    /// A full project architecture and implementation plan.
    Architecture(ArchitectureArgs),
    /// A review of existing code.
    CodeReview(CodeReviewArgs),
    /// A refactor of specific logic.
    Refactor(RefactorArgs),
    /// A README file.
    Readme(ReadmeArgs),
}

/// Parameters of an architecture prompt.
pub struct ArchitectureArgs {
    /// The main idea or description of the project.
    pub description: Option<String>,
    /// Specific constraints or library requirements.
    pub context: Option<String>,
}

/// Parameters of a code review prompt.
pub struct CodeReviewArgs {
    /// The area the review focuses on.
    pub focus: Option<String>,
}

/// Parameters of a refactor prompt.
pub struct RefactorArgs {
    /// The goal of the refactor; never empty in a valid command.
    pub goal: String,
}

/// Parameters of a README prompt.
pub struct ReadmeArgs {
    /// Tone of the README.
    pub style: String,
    /// Extra details to include.
    pub details: Option<String>,
}

/// The mathematical model of a command: each operation with the text of its
/// parameters.
pub enum CommandModel {
    Architecture { description: Option<Seq<char>>, context: Option<Seq<char>> },
    CodeReview { focus: Option<Seq<char>> },
    Refactor { goal: Seq<char> },
    Readme { style: Seq<char>, details: Option<Seq<char>> },
}

impl CommandModel {
    /// Every required field is present: a refactor goal is not empty.
    pub open spec fn is_valid(self) -> bool {
        match self {
            CommandModel::Refactor { goal } => goal.len() > 0,
            _ => true,
        }
    }
}

impl View for Commands {
    type V = CommandModel;

    open spec fn view(&self) -> CommandModel {
        match self {
            Commands::Architecture(a) => CommandModel::Architecture {
                description: text_of(a.description),
                context: text_of(a.context),
            },
            Commands::CodeReview(a) => CommandModel::CodeReview { focus: text_of(a.focus) },
            Commands::Refactor(a) => CommandModel::Refactor { goal: a.goal@ },
            Commands::Readme(a) => CommandModel::Readme {
                style: a.style@,
                details: text_of(a.details),
            },
        }
    }
}

/// Why a command was rejected before any prompt was composed.
#[derive(Debug, PartialEq, Eq, Structural)]
pub enum CommandError {
    /// A refactor command was given an empty goal.
    MissingGoal,
}

impl CommandError {
    /// A description of the error for the user.
    pub fn message(&self) -> (r: String)
        ensures
            r@ == "missing required field: the refactor goal must not be empty"@,
    {
        "missing required field: the refactor goal must not be empty".to_owned()
    }
}

impl RefactorArgs {
    /// A refactor command with the given goal, rejected when the goal is empty.
    pub fn new(goal: String) -> (r: Result<RefactorArgs, CommandError>)
        ensures
            goal@.len() == 0 <==> r is Err,
            r matches Ok(a) ==> a.goal@ == goal@,
            r matches Err(e) ==> e == CommandError::MissingGoal,
    {
        if goal.as_str().is_empty() {
            Err(CommandError::MissingGoal)
        } else {
            Ok(RefactorArgs { goal })
        }
    }
}

impl ReadmeArgs {
    /// README parameters; the style is the default one when none is given.
    pub fn new(style: Option<String>, details: Option<String>) -> (r: ReadmeArgs)
        ensures
            r.style@ == match style {
                Some(s) => s@,
                None => DEFAULT_STYLE@,
            },
            text_of(r.details) == text_of(details),
    {
        let style = match style {
            Some(s) => s,
            None => DEFAULT_STYLE.to_owned(),
        };
        ReadmeArgs { style, details }
    }
}

impl Commands {
    /// Checks that every required field is present.
    pub fn validate(&self) -> (r: Result<(), CommandError>)
        ensures
            r is Ok <==> self@.is_valid(),
            r matches Err(e) ==> e == CommandError::MissingGoal,
    {
        match self {
            Commands::Refactor(a) => {
                if a.goal.as_str().is_empty() {
                    Err(CommandError::MissingGoal)
                } else {
                    Ok(())
                }
            },
            _ => Ok(()),
        }
    }
}

} // verus!
