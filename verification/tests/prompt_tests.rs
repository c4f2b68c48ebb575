use knock::context::ShellContext;
use knock::mode::RequestMode;
use knock::prompt::PromptBuilder;

fn sample_context() -> ShellContext {
    ShellContext::new(
        "macos".to_string(),
        "zsh".to_string(),
        "/home/user".to_string(),
    )
}

#[test]
fn explain_instructions_differ_from_the_shared_template() {
    let explain = PromptBuilder::instructions_for(RequestMode::Explain);
    assert_ne!(explain, PromptBuilder::instructions_for(RequestMode::Standard));
    assert_ne!(explain, PromptBuilder::instructions_for(RequestMode::Verbose));
    assert_ne!(explain, PromptBuilder::instructions_for(RequestMode::Alt));
}

#[test]
fn command_modes_share_one_instruction_template() {
    let standard = PromptBuilder::instructions_for(RequestMode::Standard);
    assert_eq!(standard, PromptBuilder::instructions_for(RequestMode::Verbose));
    assert_eq!(standard, PromptBuilder::instructions_for(RequestMode::Alt));
}

#[test]
fn explain_instructions_name_the_invalid_command_fallback() {
    let explain = PromptBuilder::instructions_for(RequestMode::Explain);
    assert!(explain.contains("Invalid command."));
}

#[test]
fn max_tokens_budget_per_mode() {
    assert_eq!(PromptBuilder::max_tokens_for(RequestMode::Standard), 256);
    assert_eq!(PromptBuilder::max_tokens_for(RequestMode::Verbose), 512);
    assert_eq!(PromptBuilder::max_tokens_for(RequestMode::Alt), 512);
    assert_eq!(PromptBuilder::max_tokens_for(RequestMode::Explain), 512);
}

#[test]
fn verbose_prompt_ends_with_the_verbose_tag() {
    let prompt = PromptBuilder::build(&sample_context(), "list files", RequestMode::Verbose);
    assert!(prompt.ends_with(" [verbose]</request>"));
}

#[test]
fn standard_prompt_has_no_tag_before_the_closing_marker() {
    let prompt = PromptBuilder::build(&sample_context(), "list files", RequestMode::Standard);
    assert!(prompt.ends_with("list files</request>"));
    assert!(!prompt.contains(" [verbose]"));
    assert!(!prompt.contains(" [alt]"));
}

#[test]
fn alt_prompt_carries_the_alt_tag() {
    let prompt = PromptBuilder::build(&sample_context(), "list files", RequestMode::Alt);
    assert!(prompt.ends_with(" [alt]</request>"));
}

#[test]
fn prompt_is_context_blank_line_then_tagged_request() {
    let prompt = PromptBuilder::build(&sample_context(), "show disk usage", RequestMode::Standard);
    assert_eq!(
        prompt,
        "OS: macos\nShell: zsh\nDirectory: /home/user\n\n<request>show disk usage</request>"
    );
}

#[test]
fn context_block_renders_the_three_fields() {
    let block = sample_context().as_prompt_context();
    assert_eq!(block, "OS: macos\nShell: zsh\nDirectory: /home/user");
}

#[test]
fn context_detection_defaults_to_placeholders() {
    let ctx = ShellContext::from_parts(None, None, None);
    assert_eq!(ctx.operating_system, "unknown os");
    assert_eq!(ctx.shell_name, "unknown shell");
    assert_eq!(ctx.working_directory, "unknown directory");
}

#[test]
fn context_detection_keeps_given_values() {
    let ctx = ShellContext::from_parts(
        Some("linux".to_string()),
        None,
        Some("/tmp/work".to_string()),
    );
    assert_eq!(ctx.operating_system, "linux");
    assert_eq!(ctx.shell_name, "unknown shell");
    assert_eq!(ctx.working_directory, "/tmp/work");
}

#[test]
fn mode_identifiers_are_distinct_and_stable() {
    assert_eq!(RequestMode::Standard.id(), "standard");
    assert_eq!(RequestMode::Verbose.id(), "verbose");
    assert_eq!(RequestMode::Alt.id(), "alt");
    assert_eq!(RequestMode::Explain.id(), "explain");
}

#[test]
fn mode_tags_match_their_modes() {
    assert_eq!(RequestMode::Standard.tag(), "");
    assert_eq!(RequestMode::Verbose.tag(), " [verbose]");
    assert_eq!(RequestMode::Alt.tag(), " [alt]");
    assert_eq!(RequestMode::Explain.tag(), "");
}

#[test]
fn args_select_mode_from_the_verbose_flag() {
    let plain = knock::Args {
        input: "list files".to_string(),
        verbose: false,
    };
    let verbose = knock::Args {
        input: "list files".to_string(),
        verbose: true,
    };
    assert_eq!(plain.mode(), RequestMode::Standard);
    assert_eq!(verbose.mode(), RequestMode::Verbose);
}
