//! The skeleton of each operation: its sections, their fixed text and the
//! slots filled from the command.

use vstd::prelude::*;
use crate::command::{text_of, ArchitectureArgs, CodeReviewArgs, RefactorArgs, ReadmeArgs, DEFAULT_STYLE};
use crate::document::{concat_all, PromptDocument};
use crate::splice::{reference_sections, splice_reference};

verus! {

/// Ends a section whose body is a field's text.
pub const SECTION_END: &'static str = "\n\n";

/// Heads the section that sets the model's role.
pub const ROLE_HEADING: &'static str = "## Role\n";
/// Heads the closing instruction.
pub const INSTRUCTIONS_HEADING: &'static str = "## Instructions\n";

pub const ARCHITECTURE_ROLE: &'static str = "You are a senior software architect and an expert engineer. Design a complete, production-ready architecture and implementation plan for the project described below.\n\n";
pub const DESCRIPTION_HEADING: &'static str = "## Project Description\n";
pub const CONSTRAINTS_HEADING: &'static str = "## Constraints and Context\n";
pub const REQUIREMENTS_HEADING: &'static str = "## Engineering Requirements\n";
pub const ARCHITECTURE_REQUIREMENTS: &'static str = "- Modularity: split the system into small, cohesive modules with clear interfaces.\n- Error handling: propagate errors explicitly with typed errors and never swallow them.\n- Type safety: model the domain with precise types so that invalid states cannot be represented.\n- Documentation: document every public item and the reasons behind key decisions.\n- Configuration: keep settings out of the code, with sensible defaults.\n- Testing: provide unit tests for the core logic and integration tests for the main flows.\n\nOutput format:\n1. An overview of the architecture.\n2. The directory layout.\n3. The complete code of each file, in its own fenced block headed by its path.\n4. Instructions to build, run and test the project.\n\n";
pub const ARCHITECTURE_CLOSING: &'static str = "Start with the architecture overview, then give each file in full.\n";

/// The review focus when none is given.
pub const DEFAULT_FOCUS: &'static str = "general code quality";
pub const REVIEW_ROLE: &'static str = "You are an experienced senior engineer performing a thorough code review.\n\n";
pub const FOCUS_HEADING: &'static str = "## Review Focus\n";
pub const REVIEW_CHECKLIST_HEADING: &'static str = "## Review Checklist\n";
pub const REVIEW_CHECKLIST: &'static str = "- Correctness: logic errors, unhandled edge cases and error paths.\n- Readability: naming, structure and comments.\n- Performance: needless allocations, copies and algorithmic costs.\n- Security: input validation, injection, secrets and unsafe operations.\n\n";
pub const REVIEW_CLOSING: &'static str = "List each finding with its location, its severity and a concrete fix.\n";

pub const REFACTOR_ROLE: &'static str = "You are an expert software engineer who specialises in safe, incremental refactoring.\n\n";
pub const GOAL_HEADING: &'static str = "## Refactor Goal\n";
pub const REFACTOR_CHECKLIST_HEADING: &'static str = "## Refactor Checklist\n";
pub const REFACTOR_CHECKLIST: &'static str = "- Behaviour preservation: the observable behaviour must not change.\n- Test coverage: keep the existing tests passing and add tests where coverage is missing.\n- Incremental steps: proceed in small steps that each leave the code working.\n\n";
pub const REFACTOR_CLOSING: &'static str = "Explain the plan first, then give the refactored code of each changed file.\n";

pub const README_ROLE: &'static str = "You are a technical writer who writes clear and complete README files for software projects.\n\n";
pub const STYLE_HEADING: &'static str = "## Style\n";
pub const DETAILS_HEADING: &'static str = "## Additional Details\n";
pub const README_CHECKLIST_HEADING: &'static str = "## README Sections\n";
pub const README_CHECKLIST: &'static str = "- Overview: what the project does and why it exists.\n- Installation: requirements and setup steps.\n- Usage: how to run it, with examples.\n- Contributing: how to report issues and submit changes.\n\n";
pub const README_CLOSING: &'static str = "Write the README in Markdown.\n";

/// A section of fixed text under a heading.
pub open spec fn fixed_section(heading: Seq<char>, body: Seq<char>) -> Seq<char> {
    heading + body
}

/// A section that holds a field's text under a heading.
pub open spec fn field_section(heading: Seq<char>, text: Seq<char>) -> Seq<char> {
    heading + (text + SECTION_END@)
}

/// The section of an optional field: present exactly when the field holds
/// some text; an empty field counts as absent.
pub open spec fn optional_section(heading: Seq<char>, text: Option<Seq<char>>) -> Seq<Seq<char>> {
    match text {
        Some(t) => if t.len() > 0 {
            seq![field_section(heading, t)]
        } else {
            Seq::empty()
        },
        None => Seq::empty(),
    }
}

/// The text of an optional field, or the default where it is absent or
/// empty.
pub open spec fn or_default(text: Option<Seq<char>>, default: Seq<char>) -> Seq<char> {
    match text {
        Some(t) => if t.len() > 0 {
            t
        } else {
            default
        },
        None => default,
    }
}

/// The style of a README: the given one, or the default where it is empty.
pub open spec fn effective_style(style: Seq<char>) -> Seq<char> {
    if style.len() > 0 {
        style
    } else {
        DEFAULT_STYLE@
    }
}

/// Role, project description, constraints, engineering requirements,
/// reference code and closing instruction; absent fields leave no section.
pub open spec fn architecture_sections(
    description: Option<Seq<char>>,
    context: Option<Seq<char>>,
    reference: Seq<char>,
) -> Seq<Seq<char>> {
    seq![fixed_section(ROLE_HEADING@, ARCHITECTURE_ROLE@)]
        + optional_section(DESCRIPTION_HEADING@, description)
        + optional_section(CONSTRAINTS_HEADING@, context)
        + seq![fixed_section(REQUIREMENTS_HEADING@, ARCHITECTURE_REQUIREMENTS@)]
        + reference_sections(reference)
        + seq![fixed_section(INSTRUCTIONS_HEADING@, ARCHITECTURE_CLOSING@)]
}

/// Role, review focus (defaulted), review checklist, reference code and
/// closing instruction.
pub open spec fn review_sections(focus: Option<Seq<char>>, reference: Seq<char>) -> Seq<Seq<char>> {
    seq![
        fixed_section(ROLE_HEADING@, REVIEW_ROLE@),
        field_section(FOCUS_HEADING@, or_default(focus, DEFAULT_FOCUS@)),
        fixed_section(REVIEW_CHECKLIST_HEADING@, REVIEW_CHECKLIST@),
    ] + reference_sections(reference) + seq![fixed_section(INSTRUCTIONS_HEADING@, REVIEW_CLOSING@)]
}

/// Role, refactor goal verbatim, refactor checklist, reference code and
/// closing instruction.
pub open spec fn refactor_sections(goal: Seq<char>, reference: Seq<char>) -> Seq<Seq<char>> {
    seq![
        fixed_section(ROLE_HEADING@, REFACTOR_ROLE@),
        field_section(GOAL_HEADING@, goal),
        fixed_section(REFACTOR_CHECKLIST_HEADING@, REFACTOR_CHECKLIST@),
    ] + reference_sections(reference) + seq![
        fixed_section(INSTRUCTIONS_HEADING@, REFACTOR_CLOSING@),
    ]
}

/// Role, style (defaulted), extra details, README checklist, reference code
/// and closing instruction.
pub open spec fn readme_sections(
    style: Seq<char>,
    details: Option<Seq<char>>,
    reference: Seq<char>,
) -> Seq<Seq<char>> {
    seq![
        fixed_section(ROLE_HEADING@, README_ROLE@),
        field_section(STYLE_HEADING@, effective_style(style)),
    ] + optional_section(DETAILS_HEADING@, details) + seq![
        fixed_section(README_CHECKLIST_HEADING@, README_CHECKLIST@),
    ] + reference_sections(reference) + seq![fixed_section(INSTRUCTIONS_HEADING@, README_CLOSING@)]
}

/// A section of fixed text.
fn fixed(heading: &str, body: &str) -> (r: String)
    ensures
        r@ == fixed_section(heading@, body@),
{
    let mut s = heading.to_owned();
    s.append(body);
    s
}

/// A section that holds a field's text.
fn field(heading: &str, text: &str) -> (r: String)
    ensures
        r@ == field_section(heading@, text@),
{
    let mut s = heading.to_owned();
    s.append(text);
    s.append(SECTION_END);
    assert(s@ =~= field_section(heading@, text@));
    s
}

/// Appends the section of an optional field, when it holds some text.
fn push_optional(doc: &mut PromptDocument, heading: &str, text: &Option<String>)
    ensures
        final(doc)@ == old(doc)@ + optional_section(heading@, text_of(*text)),
{
    match text {
        Some(t) => {
            if t.as_str().is_empty() {
                assert(doc@ =~= old(doc)@ + optional_section(heading@, text_of(*text)));
            } else {
                doc.push_section(field(heading, t.as_str()));
                assert(doc@ =~= old(doc)@ + optional_section(heading@, text_of(*text)));
            }
        },
        None => {
            assert(doc@ =~= old(doc)@ + optional_section(heading@, text_of(*text)));
        },
    }
}

/// The architecture prompt for the given parameters and reference code.
pub fn generate_architecture_prompt(args: &ArchitectureArgs, reference: &str) -> (r: String)
    ensures
        r@ == concat_all(
            architecture_sections(text_of(args.description), text_of(args.context), reference@),
        ),
{
    let mut doc = PromptDocument::new();
    doc.push_section(fixed(ROLE_HEADING, ARCHITECTURE_ROLE));
    push_optional(&mut doc, DESCRIPTION_HEADING, &args.description);
    push_optional(&mut doc, CONSTRAINTS_HEADING, &args.context);
    doc.push_section(fixed(REQUIREMENTS_HEADING, ARCHITECTURE_REQUIREMENTS));
    splice_reference(&mut doc, reference);
    doc.push_section(fixed(INSTRUCTIONS_HEADING, ARCHITECTURE_CLOSING));
    assert(doc@ =~= architecture_sections(
        text_of(args.description),
        text_of(args.context),
        reference@,
    ));
    doc.render()
}

/// The code review prompt for the given parameters and reference code.
pub fn generate_review_prompt(args: &CodeReviewArgs, reference: &str) -> (r: String)
    ensures
        r@ == concat_all(review_sections(text_of(args.focus), reference@)),
{
    let mut doc = PromptDocument::new();
    doc.push_section(fixed(ROLE_HEADING, REVIEW_ROLE));
    let focus = match &args.focus {
        Some(f) => if f.as_str().is_empty() {
            DEFAULT_FOCUS
        } else {
            f.as_str()
        },
        None => DEFAULT_FOCUS,
    };
    doc.push_section(field(FOCUS_HEADING, focus));
    doc.push_section(fixed(REVIEW_CHECKLIST_HEADING, REVIEW_CHECKLIST));
    splice_reference(&mut doc, reference);
    doc.push_section(fixed(INSTRUCTIONS_HEADING, REVIEW_CLOSING));
    assert(doc@ =~= review_sections(text_of(args.focus), reference@));
    doc.render()
}

/// The refactor prompt for the given parameters and reference code.
pub fn generate_refactor_prompt(args: &RefactorArgs, reference: &str) -> (r: String)
    ensures
        r@ == concat_all(refactor_sections(args.goal@, reference@)),
{
    let mut doc = PromptDocument::new();
    doc.push_section(fixed(ROLE_HEADING, REFACTOR_ROLE));
    doc.push_section(field(GOAL_HEADING, args.goal.as_str()));
    doc.push_section(fixed(REFACTOR_CHECKLIST_HEADING, REFACTOR_CHECKLIST));
    splice_reference(&mut doc, reference);
    doc.push_section(fixed(INSTRUCTIONS_HEADING, REFACTOR_CLOSING));
    assert(doc@ =~= refactor_sections(args.goal@, reference@));
    doc.render()
}

/// The README prompt for the given parameters and reference code.
pub fn generate_readme_prompt(args: &ReadmeArgs, reference: &str) -> (r: String)
    ensures
        r@ == concat_all(readme_sections(args.style@, text_of(args.details), reference@)),
{
    let mut doc = PromptDocument::new();
    doc.push_section(fixed(ROLE_HEADING, README_ROLE));
    let style = if args.style.as_str().is_empty() {
        DEFAULT_STYLE
    } else {
        args.style.as_str()
    };
    doc.push_section(field(STYLE_HEADING, style));
    push_optional(&mut doc, DETAILS_HEADING, &args.details);
    doc.push_section(fixed(README_CHECKLIST_HEADING, README_CHECKLIST));
    splice_reference(&mut doc, reference);
    doc.push_section(fixed(INSTRUCTIONS_HEADING, README_CLOSING));
    assert(doc@ =~= readme_sections(args.style@, text_of(args.details), reference@));
    doc.render()
}

} // verus!
