//! The prompt composer: dispatches on the operation and fills its skeleton.

use vstd::prelude::*;
use crate::command::{CommandModel, Commands};
use crate::document::concat_all;
use crate::template::{
    architecture_sections, generate_architecture_prompt, generate_readme_prompt,
    generate_refactor_prompt, generate_review_prompt, readme_sections, refactor_sections,
    review_sections,
};

verus! {

/// The sections of the prompt for a command and its reference code.
pub open spec fn prompt_sections(command: CommandModel, reference: Seq<char>) -> Seq<Seq<char>> {
    match command {
        CommandModel::Architecture { description, context } => architecture_sections(
            description,
            context,
            reference,
        ),
        CommandModel::CodeReview { focus } => review_sections(focus, reference),
        CommandModel::Refactor { goal } => refactor_sections(goal, reference),
        CommandModel::Readme { style, details } => readme_sections(style, details, reference),
    }
}

/// The text of the prompt for a command and its reference code.
pub open spec fn prompt_text(command: CommandModel, reference: Seq<char>) -> Seq<char> {
    concat_all(prompt_sections(command, reference))
}

/// The prompt for a valid command, with the reference code spliced in when
/// there is any.
pub fn compose(command: &Commands, reference: &str) -> (r: String)
    requires
        command@.is_valid(),
    ensures
        r@ == prompt_text(command@, reference@),
{
    match command {
        Commands::Architecture(a) => generate_architecture_prompt(a, reference),
        Commands::CodeReview(a) => generate_review_prompt(a, reference),
        Commands::Refactor(a) => generate_refactor_prompt(a, reference),
        Commands::Readme(a) => generate_readme_prompt(a, reference),
    }
}

} // verus!
