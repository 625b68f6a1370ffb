use prompt_composer::command::{
    ArchitectureArgs, CodeReviewArgs, CommandError, Commands, ReadmeArgs, RefactorArgs,
    DEFAULT_STYLE,
};
use prompt_composer::compose::compose;
use prompt_composer::document::PromptDocument;
use prompt_composer::scan::{ScanSettings, ALL_FILES};
use prompt_composer::splice::{reference_section, REFERENCE_HEADER};
use prompt_composer::template::{
    generate_architecture_prompt, generate_readme_prompt, generate_refactor_prompt,
    generate_review_prompt,
};

fn all_commands() -> Vec<Commands> {
    vec![
        Commands::Architecture(ArchitectureArgs {
            description: Some("A chat server".to_string()),
            context: Some("Use tokio".to_string()),
        }),
        Commands::CodeReview(CodeReviewArgs { focus: None }),
        Commands::Refactor(RefactorArgs::new("Split the parser".to_string()).unwrap()),
        Commands::Readme(ReadmeArgs::new(None, Some("Ships as a single binary".to_string()))),
    ]
}

fn occurrences(text: &str, needle: &str) -> usize {
    text.matches(needle).count()
}

#[test]
fn no_reference_section_without_context() {
    for command in all_commands() {
        let out = compose(&command, "");
        assert_eq!(occurrences(&out, REFERENCE_HEADER), 0);
        assert_eq!(occurrences(&out, "<reference_code>"), 0);
    }
}

#[test]
fn one_reference_section_with_context() {
    let reference = "src/main.rs\nfn main() {\n    println!(\"hi\");\n}\n";
    for command in all_commands() {
        let out = compose(&command, reference);
        assert_eq!(occurrences(&out, REFERENCE_HEADER), 1);
        let expected = format!(
            "## Reference Code Context\n<reference_code>\n{}\n</reference_code>\n\n",
            reference
        );
        assert!(out.contains(&expected));
    }
}

#[test]
fn compose_is_repeatable() {
    for command in all_commands() {
        let first = compose(&command, "struct A;");
        let second = compose(&command, "struct A;");
        assert_eq!(first, second);
        assert_eq!(compose(&command, ""), compose(&command, ""));
    }
}

#[test]
fn readme_default_style() {
    let args = ReadmeArgs::new(None, None);
    assert_eq!(args.style, "Professional and Concise");
    assert_eq!(DEFAULT_STYLE, "Professional and Concise");
    let out = generate_readme_prompt(&args, "");
    assert!(out.contains("## Style\nProfessional and Concise\n\n"));
    assert!(!out.contains("## Additional Details"));
}

#[test]
fn readme_empty_style_uses_default() {
    let args = ReadmeArgs { style: String::new(), details: None };
    let out = generate_readme_prompt(&args, "");
    assert!(out.contains("## Style\nProfessional and Concise\n\n"));
}

#[test]
fn readme_style_override() {
    let args = ReadmeArgs::new(Some("Playful".to_string()), Some("Has a logo".to_string()));
    let out = compose(&Commands::Readme(args), "");
    assert!(out.contains("## Style\nPlayful\n\n"));
    assert!(!out.contains("Professional and Concise"));
    assert!(out.contains("## Additional Details\nHas a logo\n\n"));
    assert!(out.contains("- Installation:"));
    assert!(out.contains("- Contributing:"));
}

#[test]
fn review_default_focus() {
    let out = generate_review_prompt(&CodeReviewArgs { focus: None }, "");
    assert!(out.contains("## Review Focus\ngeneral code quality\n\n"));
    let out = generate_review_prompt(&CodeReviewArgs { focus: Some(String::new()) }, "");
    assert!(out.contains("## Review Focus\ngeneral code quality\n\n"));
}

#[test]
fn review_given_focus() {
    let args = CodeReviewArgs { focus: Some("thread safety".to_string()) };
    let out = generate_review_prompt(&args, "");
    assert!(out.contains("## Review Focus\nthread safety\n\n"));
    assert!(!out.contains("general code quality"));
    for item in ["- Correctness:", "- Readability:", "- Performance:", "- Security:"] {
        assert!(out.contains(item));
    }
}

#[test]
fn refactor_empty_goal_is_rejected() {
    let r = RefactorArgs::new(String::new());
    assert!(matches!(r, Err(CommandError::MissingGoal)));
    let command = Commands::Refactor(RefactorArgs { goal: String::new() });
    assert_eq!(command.validate(), Err(CommandError::MissingGoal));
    assert_eq!(
        CommandError::MissingGoal.message(),
        "missing required field: the refactor goal must not be empty"
    );
}

#[test]
fn valid_commands_pass_validation() {
    for command in all_commands() {
        assert_eq!(command.validate(), Ok(()));
    }
}

#[test]
fn architecture_scenario() {
    let args = ArchitectureArgs { description: Some("A task queue service".to_string()), context: None };
    let out = compose(&Commands::Architecture(args), "");
    assert!(out.contains("## Project Description\nA task queue service\n\n"));
    assert!(out.contains("## Engineering Requirements\n"));
    for item in [
        "- Modularity:",
        "- Error handling:",
        "- Type safety:",
        "- Documentation:",
        "- Configuration:",
        "- Testing:",
        "Output format:",
    ] {
        assert!(out.contains(item));
    }
    assert!(!out.contains("## Constraints and Context"));
    assert!(!out.contains(REFERENCE_HEADER));
}

#[test]
fn architecture_with_context_and_no_description() {
    let args = ArchitectureArgs { description: None, context: Some("No unsafe code".to_string()) };
    let out = generate_architecture_prompt(&args, "");
    assert!(!out.contains("## Project Description"));
    assert!(out.contains("## Constraints and Context\nNo unsafe code\n\n"));
    let args = ArchitectureArgs { description: Some(String::new()), context: Some(String::new()) };
    let out = generate_architecture_prompt(&args, "");
    assert!(!out.contains("## Project Description"));
    assert!(!out.contains("## Constraints and Context"));
}

#[test]
fn refactor_scenario() {
    let args = RefactorArgs::new("Modernize error handling".to_string()).unwrap();
    let out = compose(&Commands::Refactor(args), "fn foo() {}");
    assert!(out.contains("## Refactor Goal\nModernize error handling\n\n"));
    assert!(out.contains(
        "## Reference Code Context\n<reference_code>\nfn foo() {}\n</reference_code>\n\n"
    ));
    assert_eq!(occurrences(&out, REFERENCE_HEADER), 1);
    for item in ["- Behaviour preservation:", "- Test coverage:", "- Incremental steps:"] {
        assert!(out.contains(item));
    }
}

#[test]
fn refactor_prompt_section_order() {
    let args = RefactorArgs { goal: "Inline helpers".to_string() };
    let out = generate_refactor_prompt(&args, "x");
    let role = out.find("## Role\n").unwrap();
    let goal = out.find("## Refactor Goal\n").unwrap();
    let list = out.find("## Refactor Checklist\n").unwrap();
    let reference = out.find(REFERENCE_HEADER).unwrap();
    let closing = out.find("## Instructions\n").unwrap();
    assert_eq!(role, 0);
    assert!(role < goal && goal < list && list < reference && reference < closing);
    assert!(out.ends_with(
        "## Instructions\nExplain the plan first, then give the refactored code of each changed file.\n"
    ));
}

#[test]
fn reference_section_wraps_code_verbatim() {
    assert!(reference_section("").is_none());
    let s = reference_section("let x = \"<tag>\";").unwrap();
    assert_eq!(
        s,
        "## Reference Code Context\n<reference_code>\nlet x = \"<tag>\";\n</reference_code>\n\n"
    );
}

#[test]
fn document_renders_sections_in_order() {
    let mut doc = PromptDocument::new();
    assert_eq!(doc.len(), 0);
    assert_eq!(doc.render(), "");
    doc.push_section("first\n".to_string());
    doc.push_section("second\n".to_string());
    assert_eq!(doc.len(), 2);
    assert_eq!(doc.render(), "first\nsecond\n");
}

#[test]
fn scan_settings_cover_whole_tree() {
    let s = ScanSettings::whole_tree();
    assert_eq!(s.selected, vec![ALL_FILES.to_string()]);
    assert_eq!(ALL_FILES, "**/*");
    assert!(s.excluded.is_empty());
    assert!(s.tree_listed.is_empty());
    assert!(!s.tree_only);
}
