//! The `scheme_eval` tool: evaluates Scheme expressions in a persistent
//! sandboxed environment kept per context.

use vstd::prelude::*;

use super::{table_of, BuiltinToolDef, DefSummary, ToolPropertyDef};

verus! {

pub const SCHEME_EVAL_TOOL_NAME: &'static str = "scheme_eval";

/// The summaries of the eval tool definitions.
pub open spec fn eval_table() -> Seq<DefSummary> {
    seq![
        DefSummary {
            name: "scheme_eval"@,
            required: seq!["code"@],
            summary_params: seq!["code"@],
            property_names: seq!["code"@],
        },
    ]
}

/// All eval tool definitions.
pub fn eval_tool_defs() -> (r: Vec<BuiltinToolDef>)
    ensures
        table_of(r@) == eval_table(),
{
    let r = vec![
        BuiltinToolDef {
            name: "scheme_eval",
            description: "Evaluate Scheme (R7RS) expression(s) in a persistent sandboxed environment. \
                  State persists across calls -- define variables, build data structures, compose \
                  computations. Returns the result of the last expression along with any stdout \
                  and stderr output (e.g. from display, write). Pre-imported: \
                  (scheme base), (scheme write), (scheme read), (scheme char), (scheme case-lambda), \
                  (scheme inexact) for sin/cos/atan/sqrt/exp/log/finite?/nan?, \
                  (scheme complex) for make-polar/magnitude/angle/real-part/imag-part, \
                  (tein json) for json-parse/json-stringify, (tein safe-regexp) for regex, \
                  (tein docs) for module-docs/describe, \
                  (tein introspect) for available-modules/module-exports/binding-info/env-bindings, \
                  (srfi 1) for list operations, (srfi 27) for random-integer/random-real, \
                  (srfi 69) for basic hash tables, (srfi 95) for sort/merge, \
                  (srfi 125) for comprehensive hash tables, (srfi 128) for comparators, \
                  (srfi 130) for string cursors, \
                  (srfi 132) for comprehensive sorting, (srfi 133) for vector operations, \
                  (chibi match) for pattern matching, and (harness tools) for call-tool. \
                  Additional safe modules can be imported with (import ...).",
            properties: vec![
                ToolPropertyDef {
                    name: "code",
                    prop_type: "string",
                    description: "Scheme expression(s) to evaluate",
                    default: None,
                },
            ],
            required: vec!["code"],
            summary_params: vec!["code"],
        },
    ];
    assert(table_of(r@) =~~= eval_table());
    r
}

} // verus!
