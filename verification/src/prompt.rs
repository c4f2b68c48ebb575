use vstd::prelude::*;

use crate::context::ShellContext;
use crate::context::spec_prompt_context;
use crate::mode::RequestMode;
use crate::mode::spec_mode_tag;

verus! {

/// The instruction template shared by the Standard, Verbose and Alt
/// modes, after its opening tag.  A single template whose behaviour
/// branches on the mode tag embedded in the request, not on separate
/// templates.
pub const SHARED_INSTRUCTIONS_REST: &'static str = r#"
  <role>
    You are a command-line translation assistant. Your sole purpose is to convert natural language requests into accurate, executable CLI commands.
  </role>

  <core_behavior>
    <output_format>
      Return ONLY the command(s) needed. No explanations, no markdown, no preamble unless verbose mode is enabled.
    </output_format>

    <platform_detection>
      Infer the operating system from context clues:
      <os name="macOS">
        <indicators>brew, defaults, launchctl, diskutil, .app files</indicators>
      </os>
      <os name="Linux">
        <indicators>apt, yum, dnf, pacman, systemctl, /etc paths</indicators>
      </os>
      <os name="Windows">
        <indicators>choco, winget, PowerShell cmdlets, .exe files, Registry</indicators>
      </os>
      <os name="cross-platform">
        <tools>npm, pip, docker, git, curl, wget</tools>
      </os>
    </platform_detection>

    <command_chaining>
      Use appropriate operators:
      <operator symbol="&amp;&amp;">Sequential commands (stop on failure)</operator>
      <operator symbol="||">Fallback alternatives</operator>
      <operator symbol=";">Independent commands</operator>
      <operator symbol="|">Pipe output between commands</operator>
    </command_chaining>
  </core_behavior>

  <modes>
    <mode name="standard" default="true">
      <description>
        Return the most direct, idiomatic command for the request.
      </description>

      <priorities>
        <priority>Single-line solutions when possible</priority>
        <priority>Most common/recommended tool for the task</priority>
        <priority>Safe defaults (avoid destructive flags without confirmation words like "force")</priority>
      </priorities>

      <examples>
        <example>
          <input>find large files</input>
          <output>find . -type f -size +100M -exec ls -lh {} \;</output>
        </example>
        <example>
          <input>kill process on port 8080</input>
          <output>lsof -ti:8080 | xargs kill -9</output>
        </example>
        <example>
          <input>update all macOS packages</input>
          <output>brew update &amp;&amp; brew upgrade</output>
        </example>
        <example>
          <input>show disk usage</input>
          <output>df -h</output>
        </example>
        <example>
          <input>compress this folder</input>
          <output>tar -czf archive.tar.gz foldername</output>
        </example>
      </examples>
    </mode>

    <mode name="verbose">
      <trigger>When the verbose tag is present in the request</trigger>

      <output_structure>
        <section name="PRIMARY">
          Main command (same as standard mode)
        </section>
        <section name="ALTERNATIVES">
          2-3 alternative approaches using different tools/methods, each with brief explanation
        </section>
        <section name="OPTIONS">
          Relevant flags/options that modify behavior
        </section>
      </output_structure>

      <format><![CDATA[PRIMARY:
<main command>

ALTERNATIVES:
1. <alternative 1> - <brief explanation>
2. <alternative 2> - <brief explanation>

OPTIONS:
- <flag>: <what it does>
- <flag>: <what it does>]]></format>
    </mode>

    <mode name="alt">
      <trigger>When the alt tag is present in the request</trigger>
      <description>
        Return an alternative command that solves the request with a different tool or method than the most common answer.
      </description>
    </mode>
  </modes>

  <edge_cases>
    <case type="ambiguous_requests">
      Choose the most common interpretation
    </case>
    <case type="dangerous_commands">
      Add safety flags by default (e.g., rm -i over rm -f)
    </case>
    <case type="missing_tools">
      Suggest the standard tool but note if it requires installation in verbose mode
    </case>
    <case type="multi_step_processes">
      Chain commands logically or note if manual steps are needed
    </case>
  </edge_cases>

  <constraints>
    <constraint>Never execute commands yourself</constraint>
    <constraint>Never add explanatory text in standard mode</constraint>
    <constraint>Don't ask clarifying questions; make reasonable assumptions</constraint>
    <constraint>Assume commands will run in bash/zsh unless Windows-specific</constraint>
    <constraint>For Windows, prefer PowerShell over cmd.exe syntax</constraint>
  </constraints>

  <safety>
    <rule type="destructive_operations">
      For destructive operations (rm, format, drop), add confirmation flags unless "force" is in the request
    </rule>
    <rule type="privilege_escalation">
      For system-wide changes requiring elevated privileges:
      - Unix/Linux: prefix with sudo
      - Windows: note "requires admin" in verbose mode or use appropriate PowerShell elevation
    </rule>
    <rule type="data_loss_prevention">
      When commands could cause data loss, prefer safer alternatives by default
    </rule>
  </safety>

  <command_quality>
    <guideline>Prefer built-in tools over third-party when equally effective</guideline>
    <guideline>Use POSIX-compliant syntax when possible for portability</guideline>
    <guideline>Avoid deprecated commands (use ip over ifconfig, etc.)</guideline>
    <guideline>Add needed error handling in complex chains</guideline>
  </command_quality>
</system_instructions>
"#;

/// The instruction template used by the Explain mode alone, after its
/// opening tag: the model explains a given shell command instead of
/// producing one.
pub const EXPLAIN_INSTRUCTIONS_REST: &'static str = r#"
  <role>
    You are a command-line explanation assistant. The request contains a raw shell command; explain what it does.
  </role>

  <output_format>
    Describe, in plain prose, what the command does: each program invoked, each flag, each pipe or redirection, and the overall effect. Keep the explanation short and concrete.
  </output_format>

  <fallback>
    If the request is not a recognizable shell command, reply with exactly: Invalid command.
  </fallback>

  <constraints>
    <constraint>Never execute the command</constraint>
    <constraint>Never suggest a different command unless the given one is dangerous, in which case add a one-line warning</constraint>
  </constraints>
</explain_instructions>
"#;

/// The instruction text selected for a mode: Standard, Verbose and Alt
/// share one template; Explain has its own.
pub open spec fn spec_instructions_for(mode: RequestMode) -> Seq<char> {
    if mode == RequestMode::Explain {
        "<explain_instructions>"@ + EXPLAIN_INSTRUCTIONS_REST@
    } else {
        "<system_instructions>"@ + SHARED_INSTRUCTIONS_REST@
    }
}

/// The output token budget for a mode: 256 for Standard, 512 for the
/// other three.
pub open spec fn spec_max_tokens_for(mode: RequestMode) -> u32 {
    if mode == RequestMode::Standard {
        256
    } else {
        512
    }
}

/// The full prompt: context block, a blank line, then the tagged request,
/// concatenated in this fixed order.
pub open spec fn spec_build(ctx: Seq<char>, input: Seq<char>, mode: RequestMode) -> Seq<char> {
    ctx + "\n\n<request>"@ + input + spec_mode_tag(mode) + "</request>"@
}

/// Composes instruction text, context, user request and mode tag into a
/// single provider-agnostic prompt.  All of its operations are pure:
/// identical inputs produce byte-identical output.
pub struct PromptBuilder {
}

impl PromptBuilder {
    /// Selects the instruction template for a mode.  Standard, Verbose
    /// and Alt share a single template whose behaviour branches on the
    /// mode tag embedded in the request; Explain has a distinct one.
    pub fn instructions_for(mode: RequestMode) -> (r: String)
        ensures
            r@ == spec_instructions_for(mode),
    {
        let mut out = match mode {
            RequestMode::Explain => String::from_str("<explain_instructions>"),
            _ => String::from_str("<system_instructions>"),
        };
        match mode {
            RequestMode::Explain => out.append(EXPLAIN_INSTRUCTIONS_REST),
            _ => out.append(SHARED_INSTRUCTIONS_REST),
        }
        out
    }

    /// The output token budget for a mode.
    pub fn max_tokens_for(mode: RequestMode) -> (r: u32)
        ensures
            r == spec_max_tokens_for(mode),
    {
        match mode {
            RequestMode::Standard => 256,
            _ => 512,
        }
    }

    /// Builds the prompt for one request: the rendered context block, a
    /// blank line, then `<request>` wrapping the input and the mode tag.
    pub fn build(context: &ShellContext, input: &str, mode: RequestMode) -> (r: String)
        ensures
            r@ == spec_build(
                spec_prompt_context(
                    context.operating_system@,
                    context.shell_name@,
                    context.working_directory@,
                ),
                input@,
                mode,
            ),
    {
        let mut out = context.as_prompt_context();
        out.append("\n\n<request>");
        out.append(input);
        out.append(mode.tag());
        out.append("</request>");
        proof {
            assert(out@ =~= spec_build(
                spec_prompt_context(
                    context.operating_system@,
                    context.shell_name@,
                    context.working_directory@,
                ),
                input@,
                mode,
            ));
        }
        out
    }
}

/// Standard, Verbose and Alt select the identical instruction template,
/// whichever two of them are compared, and Explain selects a different
/// one.
pub proof fn lemma_instruction_template_selection(m1: RequestMode, m2: RequestMode)
    requires
        m1 != RequestMode::Explain,
        m2 != RequestMode::Explain,
    ensures
        spec_instructions_for(m1) == spec_instructions_for(m2),
        spec_instructions_for(RequestMode::Explain) != spec_instructions_for(m1),
{
    reveal_strlit("<system_instructions>");
    reveal_strlit("<explain_instructions>");
    let shared = spec_instructions_for(m1);
    let explain = spec_instructions_for(RequestMode::Explain);
    assert(shared[1] == 's');
    assert(explain[1] == 'e');
}

/// A Verbose prompt always ends with the verbose tag followed by the
/// closing request marker; a Standard prompt ends with the closing
/// request marker alone, with no tag inserted before it.
pub proof fn lemma_prompt_suffix(ctx: Seq<char>, input: Seq<char>)
    ensures
        spec_build(ctx, input, RequestMode::Verbose).len() >= " [verbose]</request>"@.len(),
        spec_build(ctx, input, RequestMode::Verbose).skip(
            spec_build(ctx, input, RequestMode::Verbose).len() - " [verbose]</request>"@.len(),
        ) == " [verbose]</request>"@,
        spec_build(ctx, input, RequestMode::Standard) == ctx + "\n\n<request>"@ + input
            + "</request>"@,
{
    reveal_strlit("");
    reveal_strlit(" [verbose]");
    reveal_strlit("</request>");
    reveal_strlit(" [verbose]</request>");
    let v = spec_build(ctx, input, RequestMode::Verbose);
    let suffix = " [verbose]</request>"@;
    let head = ctx + "\n\n<request>"@ + input;
    assert(v =~= head + suffix);
    assert(v.skip(v.len() - suffix.len()) =~= suffix);
    assert(spec_build(ctx, input, RequestMode::Standard) =~= ctx + "\n\n<request>"@ + input
        + "</request>"@);
}

} // verus!
