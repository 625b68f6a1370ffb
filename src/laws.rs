//! Properties of composed prompts that relate the composer, the skeletons
//! and the context splicer.

use vstd::prelude::*;
use crate::command::{CommandModel, DEFAULT_STYLE};
use crate::compose::{prompt_sections, prompt_text};
use crate::document::{concat_all, lemma_section_in_text};
use crate::splice::{
    is_reference_section, lemma_heading_not_reference, lemma_reference_block_is_reference,
    reference_block, reference_sections, REFERENCE_CLOSE, REFERENCE_HEADER, REFERENCE_OPEN,
};
use crate::template::{
    effective_style, field_section, fixed_section, optional_section, or_default,
    ARCHITECTURE_CLOSING, ARCHITECTURE_REQUIREMENTS, ARCHITECTURE_ROLE, CONSTRAINTS_HEADING,
    DEFAULT_FOCUS, DESCRIPTION_HEADING, DETAILS_HEADING, FOCUS_HEADING, GOAL_HEADING,
    INSTRUCTIONS_HEADING, README_CHECKLIST, README_CHECKLIST_HEADING, README_CLOSING,
    README_ROLE, REFACTOR_CHECKLIST, REFACTOR_CHECKLIST_HEADING, REFACTOR_CLOSING,
    REFACTOR_ROLE, REQUIREMENTS_HEADING, REVIEW_CHECKLIST, REVIEW_CHECKLIST_HEADING,
    REVIEW_CLOSING, REVIEW_ROLE, ROLE_HEADING, SECTION_END, STYLE_HEADING,
};

verus! {

/// The reference-code sections among a document's sections, in order.
pub open spec fn reference_sections_of(sections: Seq<Seq<char>>) -> Seq<Seq<char>> {
    sections.filter(|s: Seq<char>| is_reference_section(s))
}

proof fn lemma_single_not_reference(section: Seq<char>)
    requires
        !is_reference_section(section),
    ensures
        reference_sections_of(seq![section]) == Seq::<Seq<char>>::empty(),
{
    reveal_with_fuel(Seq::filter, 2);
    assert(seq![section].drop_last() =~= Seq::<Seq<char>>::empty());
    assert(reference_sections_of(seq![section]) =~= Seq::<Seq<char>>::empty());
}

proof fn lemma_optional_not_reference(heading: Seq<char>, text: Option<Seq<char>>, k: int)
    requires
        0 <= k < heading.len(),
        k < REFERENCE_HEADER@.len(),
        heading[k] != REFERENCE_HEADER@[k],
    ensures
        reference_sections_of(optional_section(heading, text)) == Seq::<Seq<char>>::empty(),
{
    match text {
        Some(t) => {
            if t.len() > 0 {
                lemma_heading_not_reference(heading, t + SECTION_END@, k);
                lemma_single_not_reference(field_section(heading, t));
            } else {
                assert(reference_sections_of(Seq::<Seq<char>>::empty()) =~= Seq::<
                    Seq<char>,
                >::empty());
            }
        },
        None => {
            assert(reference_sections_of(Seq::<Seq<char>>::empty()) =~= Seq::<
                Seq<char>,
            >::empty());
        },
    }
}

proof fn lemma_reference_sections_kept(reference: Seq<char>)
    ensures
        reference_sections_of(reference_sections(reference)) == reference_sections(reference),
{
    reveal_with_fuel(Seq::filter, 2);
    if reference.len() == 0 {
        assert(reference_sections_of(Seq::<Seq<char>>::empty()) =~= Seq::<
            Seq<char>,
        >::empty());
    } else {
        lemma_reference_block_is_reference(reference);
        let s = seq![reference_block(reference)];
        assert(s.drop_last() =~= Seq::<Seq<char>>::empty());
        assert(reference_sections_of(s) =~= s);
    }
}

/// Whatever the operation, the reference-code sections of a prompt are
/// exactly those that the reference code contributes.
pub proof fn lemma_reference_sections_of_prompt(command: CommandModel, reference: Seq<char>)
    ensures
        reference_sections_of(prompt_sections(command, reference)) == reference_sections(
            reference,
        ),
{
    broadcast use Seq::filter_distributes_over_add;

    reveal_strlit("## Reference Code Context\n");
    reveal_strlit("## Role\n");
    reveal_strlit("## Instructions\n");
    lemma_heading_not_reference(ROLE_HEADING@, ARCHITECTURE_ROLE@, 4);
    lemma_heading_not_reference(ROLE_HEADING@, REVIEW_ROLE@, 4);
    lemma_heading_not_reference(ROLE_HEADING@, REFACTOR_ROLE@, 4);
    lemma_heading_not_reference(ROLE_HEADING@, README_ROLE@, 4);
    lemma_heading_not_reference(INSTRUCTIONS_HEADING@, ARCHITECTURE_CLOSING@, 3);
    lemma_heading_not_reference(INSTRUCTIONS_HEADING@, REVIEW_CLOSING@, 3);
    lemma_heading_not_reference(INSTRUCTIONS_HEADING@, REFACTOR_CLOSING@, 3);
    lemma_heading_not_reference(INSTRUCTIONS_HEADING@, README_CLOSING@, 3);
    lemma_reference_sections_kept(reference);
    let e = Seq::<Seq<char>>::empty();
    match command {
        CommandModel::Architecture { description, context } => {
            reveal_strlit("## Project Description\n");
            reveal_strlit("## Constraints and Context\n");
            reveal_strlit("## Engineering Requirements\n");
            lemma_single_not_reference(fixed_section(ROLE_HEADING@, ARCHITECTURE_ROLE@));
            lemma_optional_not_reference(DESCRIPTION_HEADING@, description, 3);
            lemma_optional_not_reference(CONSTRAINTS_HEADING@, context, 3);
            lemma_heading_not_reference(REQUIREMENTS_HEADING@, ARCHITECTURE_REQUIREMENTS@, 3);
            lemma_single_not_reference(
                fixed_section(REQUIREMENTS_HEADING@, ARCHITECTURE_REQUIREMENTS@),
            );
            lemma_single_not_reference(fixed_section(INSTRUCTIONS_HEADING@, ARCHITECTURE_CLOSING@));
            assert(e + e + e + e + reference_sections(reference) + e =~= reference_sections(
                reference,
            ));
        },
        CommandModel::CodeReview { focus } => {
            reveal_strlit("## Review Focus\n");
            reveal_strlit("## Review Checklist\n");
            let f = or_default(focus, DEFAULT_FOCUS@);
            lemma_heading_not_reference(FOCUS_HEADING@, f + SECTION_END@, 5);
            lemma_heading_not_reference(REVIEW_CHECKLIST_HEADING@, REVIEW_CHECKLIST@, 5);
            let head = seq![
                fixed_section(ROLE_HEADING@, REVIEW_ROLE@),
                field_section(FOCUS_HEADING@, f),
                fixed_section(REVIEW_CHECKLIST_HEADING@, REVIEW_CHECKLIST@),
            ];
            assert(head =~= seq![fixed_section(ROLE_HEADING@, REVIEW_ROLE@)] + seq![
                field_section(FOCUS_HEADING@, f),
            ] + seq![fixed_section(REVIEW_CHECKLIST_HEADING@, REVIEW_CHECKLIST@)]);
            lemma_single_not_reference(fixed_section(ROLE_HEADING@, REVIEW_ROLE@));
            lemma_single_not_reference(field_section(FOCUS_HEADING@, f));
            lemma_single_not_reference(
                fixed_section(REVIEW_CHECKLIST_HEADING@, REVIEW_CHECKLIST@),
            );
            lemma_single_not_reference(fixed_section(INSTRUCTIONS_HEADING@, REVIEW_CLOSING@));
            assert(e + e + e =~= e);
            assert(e + reference_sections(reference) + e =~= reference_sections(reference));
        },
        CommandModel::Refactor { goal } => {
            reveal_strlit("## Refactor Goal\n");
            reveal_strlit("## Refactor Checklist\n");
            lemma_heading_not_reference(GOAL_HEADING@, goal + SECTION_END@, 6);
            lemma_heading_not_reference(REFACTOR_CHECKLIST_HEADING@, REFACTOR_CHECKLIST@, 6);
            let head = seq![
                fixed_section(ROLE_HEADING@, REFACTOR_ROLE@),
                field_section(GOAL_HEADING@, goal),
                fixed_section(REFACTOR_CHECKLIST_HEADING@, REFACTOR_CHECKLIST@),
            ];
            assert(head =~= seq![fixed_section(ROLE_HEADING@, REFACTOR_ROLE@)] + seq![
                field_section(GOAL_HEADING@, goal),
            ] + seq![fixed_section(REFACTOR_CHECKLIST_HEADING@, REFACTOR_CHECKLIST@)]);
            lemma_single_not_reference(fixed_section(ROLE_HEADING@, REFACTOR_ROLE@));
            lemma_single_not_reference(field_section(GOAL_HEADING@, goal));
            lemma_single_not_reference(
                fixed_section(REFACTOR_CHECKLIST_HEADING@, REFACTOR_CHECKLIST@),
            );
            lemma_single_not_reference(fixed_section(INSTRUCTIONS_HEADING@, REFACTOR_CLOSING@));
            assert(e + e + e =~= e);
            assert(e + reference_sections(reference) + e =~= reference_sections(reference));
        },
        CommandModel::Readme { style, details } => {
            reveal_strlit("## Style\n");
            reveal_strlit("## Additional Details\n");
            reveal_strlit("## README Sections\n");
            let st = effective_style(style);
            lemma_heading_not_reference(STYLE_HEADING@, st + SECTION_END@, 3);
            lemma_optional_not_reference(DETAILS_HEADING@, details, 3);
            lemma_heading_not_reference(README_CHECKLIST_HEADING@, README_CHECKLIST@, 4);
            let head = seq![
                fixed_section(ROLE_HEADING@, README_ROLE@),
                field_section(STYLE_HEADING@, st),
            ];
            assert(head =~= seq![fixed_section(ROLE_HEADING@, README_ROLE@)] + seq![
                field_section(STYLE_HEADING@, st),
            ]);
            lemma_single_not_reference(fixed_section(ROLE_HEADING@, README_ROLE@));
            lemma_single_not_reference(field_section(STYLE_HEADING@, st));
            lemma_single_not_reference(
                fixed_section(README_CHECKLIST_HEADING@, README_CHECKLIST@),
            );
            lemma_single_not_reference(fixed_section(INSTRUCTIONS_HEADING@, README_CLOSING@));
            assert(e + e + e + e + reference_sections(reference) + e =~= reference_sections(
                reference,
            ));
        },
    }
}

/// Without reference code, no prompt of any operation holds a reference-code
/// section.
pub proof fn lemma_no_reference_section_without_context(command: CommandModel)
    ensures
        reference_sections_of(prompt_sections(command, Seq::empty())) == Seq::<
            Seq<char>,
        >::empty(),
{
    lemma_reference_sections_of_prompt(command, Seq::empty());
}

/// With non-empty reference code, the prompt of any operation holds exactly
/// one reference-code section, and the code stands in the text verbatim.
pub proof fn lemma_one_reference_section_with_context(
    command: CommandModel,
    reference: Seq<char>,
)
    requires
        reference.len() > 0,
    ensures
        reference_sections_of(prompt_sections(command, reference)) == seq![
            reference_block(reference),
        ],
        exists|start: int|
            0 <= start && start + reference.len() <= prompt_text(command, reference).len()
                && #[trigger] prompt_text(command, reference).subrange(
                start,
                start + reference.len(),
            ) == reference,
{
    let sections = prompt_sections(command, reference);
    let block = reference_block(reference);
    lemma_reference_sections_of_prompt(command, reference);
    assert(reference_sections_of(sections)[0] == block);
    sections.lemma_filter_contains_rev(|s: Seq<char>| is_reference_section(s), block);
    let i = choose|i: int| 0 <= i < sections.len() && sections[i] == block;
    lemma_section_in_text(sections, i);
    let text = prompt_text(command, reference);
    let at = concat_all(sections.subrange(0, i)).len() as int;
    let off = REFERENCE_HEADER@.len() + REFERENCE_OPEN@.len() as int;
    let start = at + off;
    assert(text.subrange(start, start + reference.len()) =~= block.subrange(
        off,
        off + reference.len(),
    ));
    assert(text.subrange(start, start + reference.len()) =~= reference);
}

/// The prompt is a function of the command and the reference code alone:
/// equal inputs give the identical text.
pub proof fn lemma_prompt_referentially_transparent(
    command1: CommandModel,
    reference1: Seq<char>,
    command2: CommandModel,
    reference2: Seq<char>,
)
    requires
        command1 == command2,
        reference1 == reference2,
    ensures
        prompt_text(command1, reference1) == prompt_text(command2, reference2),
{
}

/// A README prompt whose style was not overridden puts
/// "Professional and Concise" in the style slot.
pub proof fn lemma_readme_default_style(
    style: Seq<char>,
    details: Option<Seq<char>>,
    reference: Seq<char>,
)
    requires
        style == DEFAULT_STYLE@ || style.len() == 0,
    ensures
        prompt_sections(CommandModel::Readme { style, details }, reference)[1]
            == field_section(STYLE_HEADING@, "Professional and Concise"@),
        exists|start: int|
            0 <= start && start + DEFAULT_STYLE@.len() <= prompt_text(
                CommandModel::Readme { style, details },
                reference,
            ).len() && #[trigger] prompt_text(
                CommandModel::Readme { style, details },
                reference,
            ).subrange(start, start + DEFAULT_STYLE@.len()) == DEFAULT_STYLE@,
{
    let command = CommandModel::Readme { style, details };
    let sections = prompt_sections(command, reference);
    let start = lemma_field_in_text(sections, 1, STYLE_HEADING@, DEFAULT_STYLE@);
    assert(prompt_text(command, reference).subrange(start, start + DEFAULT_STYLE@.len()) == DEFAULT_STYLE@);
}

/// A code review prompt without a focus reviews "general code quality".
pub proof fn lemma_review_default_focus(focus: Option<Seq<char>>, reference: Seq<char>)
    requires
        focus is None || focus == Some(Seq::<char>::empty()),
    ensures
        prompt_sections(CommandModel::CodeReview { focus }, reference)[1] == field_section(
            FOCUS_HEADING@,
            "general code quality"@,
        ),
        exists|start: int|
            0 <= start && start + DEFAULT_FOCUS@.len() <= prompt_text(
                CommandModel::CodeReview { focus },
                reference,
            ).len() && #[trigger] prompt_text(
                CommandModel::CodeReview { focus },
                reference,
            ).subrange(start, start + DEFAULT_FOCUS@.len()) == DEFAULT_FOCUS@,
{
    let command = CommandModel::CodeReview { focus };
    let sections = prompt_sections(command, reference);
    let start = lemma_field_in_text(sections, 1, FOCUS_HEADING@, DEFAULT_FOCUS@);
    assert(prompt_text(command, reference).subrange(start, start + DEFAULT_FOCUS@.len()) == DEFAULT_FOCUS@);
}

proof fn lemma_field_in_text(
    sections: Seq<Seq<char>>,
    i: int,
    heading: Seq<char>,
    text: Seq<char>,
) -> (start: int)
    requires
        0 <= i < sections.len(),
        sections[i] == field_section(heading, text),
    ensures
        0 <= start,
        start + text.len() <= concat_all(sections).len(),
        concat_all(sections).subrange(start, start + text.len()) == text,
{
    lemma_section_in_text(sections, i);
    let all = concat_all(sections);
    let start = concat_all(sections.subrange(0, i)).len() + heading.len() as int;
    assert(all.subrange(start, start + text.len()) =~= sections[i].subrange(
        heading.len() as int,
        (heading.len() + text.len()) as int,
    ));
    assert(all.subrange(start, start + text.len()) =~= text);
    start
}

} // verus!
