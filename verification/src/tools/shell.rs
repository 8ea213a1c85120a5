//! Shell tools: OS command execution (`shell_exec`).
//! Callers fire the PreShellExec hook before executing.

use vstd::prelude::*;

use super::{table_of, BuiltinToolDef, DefSummary, ToolPropertyDef};

verus! {

pub const SHELL_EXEC_TOOL_NAME: &'static str = "shell_exec";

/// The summaries of the shell tool definitions.
pub open spec fn shell_table() -> Seq<DefSummary> {
    seq![
        DefSummary {
            name: "shell_exec"@,
            required: seq!["command"@],
            summary_params: seq!["command"@],
            property_names: seq!["command"@, "timeout_secs"@],
        },
    ]
}

/// All shell tool definitions.
pub fn shell_tool_defs() -> (r: Vec<BuiltinToolDef>)
    ensures
        table_of(r@) == shell_table(),
{
    let r = vec![
        BuiltinToolDef {
            name: "shell_exec",
            description: "Execute a shell command and return stdout, stderr, exit code, and whether it timed out. Commands run via `sh -c`. Use for build, test, and general shell tasks.",
            properties: vec![
                ToolPropertyDef {
                    name: "command",
                    prop_type: "string",
                    description: "Shell command to execute",
                    default: None,
                },
                ToolPropertyDef {
                    name: "timeout_secs",
                    prop_type: "integer",
                    description: "Timeout in seconds before the process is killed (default: 30)",
                    default: Some(30),
                },
            ],
            required: vec!["command"],
            summary_params: vec!["command"],
        },
    ];
    assert(table_of(r@) =~~= shell_table());
    r
}

} // verus!
