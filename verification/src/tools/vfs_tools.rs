//! VFS tools: operations on the shared virtual file system.

use vstd::prelude::*;

use super::{table_of, BuiltinToolDef, DefSummary, ToolPropertyDef};

verus! {

pub const VFS_LIST_TOOL_NAME: &'static str = "vfs_list";

/// The summaries of the vfs tool definitions.
pub open spec fn vfs_table() -> Seq<DefSummary> {
    seq![
        DefSummary {
            name: "vfs_list"@,
            required: seq!["path"@],
            summary_params: seq!["path"@],
            property_names: seq!["path"@],
        },
    ]
}

/// All vfs tool definitions.
pub fn vfs_tool_defs() -> (r: Vec<BuiltinToolDef>)
    ensures
        table_of(r@) == vfs_table(),
{
    let r = vec![
        BuiltinToolDef {
            name: "vfs_list",
            description: "List the entries of a directory in the virtual file system.",
            properties: vec![
                ToolPropertyDef {
                    name: "path",
                    prop_type: "string",
                    description: "VFS directory path (e.g. /shared)",
                    default: None,
                },
            ],
            required: vec!["path"],
            summary_params: vec!["path"],
        },
    ];
    assert(table_of(r@) =~~= vfs_table());
    r
}

} // verus!
