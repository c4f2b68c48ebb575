use vstd::prelude::*;

verus! {

/// The placeholder used when the operating system cannot be determined.
pub open spec fn unknown_os() -> Seq<char> {
    "unknown os"@
}

/// The placeholder used when the shell cannot be determined.
pub open spec fn unknown_shell() -> Seq<char> {
    "unknown shell"@
}

/// The placeholder used when the working directory cannot be determined.
pub open spec fn unknown_directory() -> Seq<char> {
    "unknown directory"@
}

/// The deterministic textual block embedding the three context fields,
/// used verbatim inside every prompt.
pub open spec fn spec_prompt_context(os: Seq<char>, shell: Seq<char>, cwd: Seq<char>) -> Seq<
    char,
> {
    "OS: "@ + os + "\nShell: "@ + shell + "\nDirectory: "@ + cwd
}

/// An immutable snapshot of the environment facts used to ground prompts:
/// operating system, shell, and working directory.  Captured once per
/// process invocation and never mutated afterwards.
pub struct ShellContext {
    pub operating_system: String,
    pub shell_name: String,
    pub working_directory: String,
}

impl ShellContext {
    /// Builds a context from already-detected values.
    pub fn new(operating_system: String, shell_name: String, working_directory: String) -> (r:
        ShellContext)
        ensures
            r.operating_system@ == operating_system@,
            r.shell_name@ == shell_name@,
            r.working_directory@ == working_directory@,
    {
        ShellContext { operating_system, shell_name, working_directory }
    }

    /// Builds a context from raw environment lookups.  Detection never
    /// fails: a value that could not be determined falls back to its
    /// documented placeholder.
    pub fn from_parts(
        operating_system: Option<String>,
        shell_name: Option<String>,
        working_directory: Option<String>,
    ) -> (r: ShellContext)
        ensures
            r.operating_system@ == (match operating_system {
                Option::Some(v) => v@,
                Option::None => unknown_os(),
            }),
            r.shell_name@ == (match shell_name {
                Option::Some(v) => v@,
                Option::None => unknown_shell(),
            }),
            r.working_directory@ == (match working_directory {
                Option::Some(v) => v@,
                Option::None => unknown_directory(),
            }),
    {
        let operating_system = match operating_system {
            Option::Some(v) => v,
            Option::None => String::from_str("unknown os"),
        };
        let shell_name = match shell_name {
            Option::Some(v) => v,
            Option::None => String::from_str("unknown shell"),
        };
        let working_directory = match working_directory {
            Option::Some(v) => v,
            Option::None => String::from_str("unknown directory"),
        };
        ShellContext { operating_system, shell_name, working_directory }
    }

    /// Renders the compact, deterministic context block embedded in every
    /// prompt.  Identical environments produce identical blocks.
    pub fn as_prompt_context(&self) -> (r: String)
        ensures
            r@ == spec_prompt_context(
                self.operating_system@,
                self.shell_name@,
                self.working_directory@,
            ),
    {
        let mut out = String::from_str("OS: ");
        out.append(self.operating_system.as_str());
        out.append("\nShell: ");
        out.append(self.shell_name.as_str());
        out.append("\nDirectory: ");
        out.append(self.working_directory.as_str());
        proof {
            assert(out@ =~= spec_prompt_context(
                self.operating_system@,
                self.shell_name@,
                self.working_directory@,
            ));
        }
        out
    }
}

} // verus!
