//! The JSON forms of tools: the parameter schema of a built-in definition,
//! the function definitions sent to the model, and the short notice shown
//! for a tool call.

use vstd::prelude::*;

use crate::json::{
    array_of, copy_json, json_view, jsons_view, members_view, object_of, parse_json, parsed_json,
    str_member, view_get_str, Json, JsonNumber, JsonView,
};
use crate::text::{copy_str, join_strings, join_with, str_eq};
use super::eval::{eval_table, eval_tool_defs};
use super::flow::{flow_table, flow_tool_defs, flow_tool_metadata, spec_flow_tool_metadata};
use super::fs_read::{fs_read_table, fs_read_tool_defs};
use super::fs_write::{fs_write_table, fs_write_tool_defs};
use super::index::{index_table, index_tool_defs};
use super::memory::{memory_table, memory_tool_defs};
use super::network::{network_table, network_tool_defs};
use super::registry::{key_position, Tool, ToolCategory, ToolImpl, ToolRegistry};
use super::shell::{shell_table, shell_tool_defs};
use super::vfs_tools::{vfs_table, vfs_tool_defs};
use super::{
    concat_defs, default_metadata, lookup, strs_view, take_def_named, BuiltinToolDef,
    DefSummary, ToolMetadata, ToolPropertyDef,
};

verus! {

/// A JSON integer for an `i64`: non-negative values are unsigned.
pub open spec fn int_number(d: i64) -> JsonNumber {
    if d >= 0 {
        JsonNumber::PosInt(d as u64)
    } else {
        JsonNumber::NegInt(d)
    }
}

/// The description a parameter shows: the one given for it by `over`
/// (a parameter name and a description), else its own.
pub open spec fn shown_description(
    p: ToolPropertyDef,
    over: Option<(Seq<char>, Seq<char>)>,
) -> Seq<char> {
    match over {
        Some(o) => if o.0 == p.name@ {
            o.1
        } else {
            p.description@
        },
        None => p.description@,
    }
}

/// The schema of one parameter: its type, its description (as `over` may
/// replace it) and, when it has one, its default.
pub open spec fn property_json_over(
    p: ToolPropertyDef,
    over: Option<(Seq<char>, Seq<char>)>,
) -> JsonView {
    JsonView::Object(
        seq![
            ("type"@, JsonView::Str(p.prop_type@)),
            ("description"@, JsonView::Str(shown_description(p, over))),
        ] + match p.default {
            Some(d) => seq![("default"@, JsonView::Number(int_number(d)))],
            None => Seq::empty(),
        },
    )
}

/// The schema of one parameter: its type, its description and, when it has
/// one, its default.
pub open spec fn property_json(p: ToolPropertyDef) -> JsonView {
    property_json_over(p, None)
}

/// The JSON Schema of a definition's parameters, with the description of
/// one parameter replaced as `over` says.
pub open spec fn schema_json_over(
    d: BuiltinToolDef,
    over: Option<(Seq<char>, Seq<char>)>,
) -> JsonView {
    JsonView::Object(
        seq![
            ("type"@, JsonView::Str("object"@)),
            (
                "properties"@,
                JsonView::Object(
                    d.properties@.map_values(
                        |p: ToolPropertyDef| (p.name@, property_json_over(p, over)),
                    ),
                ),
            ),
            (
                "required"@,
                JsonView::Array(d.required@.map_values(|r: &'static str| JsonView::Str(r@))),
            ),
        ],
    )
}

/// The JSON Schema of a definition's parameters.
pub open spec fn schema_json(d: BuiltinToolDef) -> JsonView {
    JsonView::Object(
        seq![
            ("type"@, JsonView::Str("object"@)),
            (
                "properties"@,
                JsonView::Object(
                    d.properties@.map_values(|p: ToolPropertyDef| (p.name@, property_json(p))),
                ),
            ),
            (
                "required"@,
                JsonView::Array(d.required@.map_values(|r: &'static str| JsonView::Str(r@))),
            ),
        ],
    )
}

/// An OpenAI-style function definition.
pub open spec fn function_json(
    name: Seq<char>,
    description: Seq<char>,
    parameters: JsonView,
) -> JsonView {
    JsonView::Object(
        seq![
            ("type"@, JsonView::Str("function"@)),
            (
                "function"@,
                JsonView::Object(
                    seq![
                        ("name"@, JsonView::Str(name)),
                        ("description"@, JsonView::Str(description)),
                        ("parameters"@, parameters),
                    ],
                ),
            ),
        ],
    )
}

/// The description of a parameter, as `over` may replace it.
fn description_shown<'a>(p: &'a ToolPropertyDef, over: Option<(&'a str, &'a str)>) -> (r: &'a str)
    ensures
        r@ == shown_description(
            *p,
            match over {
                Some(o) => Some((o.0@, o.1@)),
                None => None,
            },
        ),
{
    match over {
        Some(o) => if str_eq(o.0, p.name) {
            o.1
        } else {
            p.description
        },
        None => p.description,
    }
}

/// The plain values of a description override.
pub open spec fn over_view(over: Option<(&str, &str)>) -> Option<(Seq<char>, Seq<char>)> {
    match over {
        Some(o) => Some((o.0@, o.1@)),
        None => None,
    }
}

/// The schema of one parameter, with its description as `over` may
/// replace it.
fn property_schema(p: &ToolPropertyDef, over: Option<(&str, &str)>) -> (r: Json)
    ensures
        json_view(r) == property_json_over(*p, over_view(over)),
{
    let desc = description_shown(p, over);
    let mut m: Vec<(String, Json)> = Vec::new();
    m.push(str_member("type", p.prop_type));
    m.push(str_member("description", desc));
    let ghost base = members_view(m@);
    assert(base =~= seq![
        ("type"@, JsonView::Str(p.prop_type@)),
        ("description"@, JsonView::Str(shown_description(*p, over_view(over)))),
    ]);
    match p.default {
        Some(d) => {
            let n = if d >= 0 {
                JsonNumber::PosInt(d as u64)
            } else {
                JsonNumber::NegInt(d)
            };
            m.push((copy_str("default"), Json::Number(n)));
            assert(members_view(m@) =~= base + seq![
                ("default"@, JsonView::Number(int_number(d))),
            ]);
        },
        None => {
            assert(members_view(m@) =~= base + Seq::<(Seq<char>, JsonView)>::empty());
        },
    }
    object_of(m)
}

impl BuiltinToolDef {
    /// This definition's parameters as a JSON Schema object, with the
    /// description of one parameter replaced as `over` says.
    fn schema_over(&self, over: Option<(&str, &str)>) -> (r: Json)
        ensures
            json_view(r) == schema_json_over(*self, over_view(over)),
    {
        let ghost ov = over_view(over);
        let mut props: Vec<(String, Json)> = Vec::new();
        let n = self.properties.len();
        let mut i: usize = 0;
        while i < n
            invariant
                n == self.properties@.len(),
                ov == over_view(over),
                i <= n,
                members_view(props@) =~= self.properties@.take(i as int).map_values(
                    |p: ToolPropertyDef| (p.name@, property_json_over(p, ov)),
                ),
            decreases n - i,
        {
            let p = &self.properties[i];
            let ghost before = members_view(props@);
            props.push((copy_str(p.name), property_schema(p, over)));
            assert(members_view(props@) =~= before.push((p.name@, property_json_over(*p, ov))));
            assert(self.properties@.take(i + 1).map_values(
                |p: ToolPropertyDef| (p.name@, property_json_over(p, ov)),
            ) =~= self.properties@.take(i as int).map_values(
                |p: ToolPropertyDef| (p.name@, property_json_over(p, ov)),
            ).push((p.name@, property_json_over(*p, ov))));
            i = i + 1;
        }
        assert(self.properties@.take(n as int) =~= self.properties@);
        let mut req: Vec<Json> = Vec::new();
        let k = self.required.len();
        let mut j: usize = 0;
        while j < k
            invariant
                k == self.required@.len(),
                j <= k,
                jsons_view(req@) =~= self.required@.take(j as int).map_values(
                    |r: &'static str| JsonView::Str(r@),
                ),
            decreases k - j,
        {
            let ghost before = jsons_view(req@);
            req.push(Json::string(self.required[j]));
            assert(jsons_view(req@) =~= before.push(JsonView::Str(self.required@[j as int]@)));
            assert(self.required@.take(j + 1).map_values(|r: &'static str| JsonView::Str(r@))
                =~= self.required@.take(j as int).map_values(
                |r: &'static str| JsonView::Str(r@),
            ).push(JsonView::Str(self.required@[j as int]@)));
            j = j + 1;
        }
        assert(self.required@.take(k as int) =~= self.required@);
        let properties = object_of(props);
        let required = array_of(req);
        let mut m: Vec<(String, Json)> = Vec::new();
        m.push(str_member("type", "object"));
        m.push((copy_str("properties"), properties));
        m.push((copy_str("required"), required));
        assert(members_view(m@) =~= seq![
            ("type"@, JsonView::Str("object"@)),
            (
                "properties"@,
                JsonView::Object(
                    self.properties@.map_values(
                        |p: ToolPropertyDef| (p.name@, property_json_over(p, ov)),
                    ),
                ),
            ),
            (
                "required"@,
                JsonView::Array(self.required@.map_values(|r: &'static str| JsonView::Str(r@))),
            ),
        ]);
        object_of(m)
    }

    /// This definition's parameters as a JSON Schema object: `type`,
    /// `properties` (one schema per parameter) and `required`.
    pub fn to_json_schema(&self) -> (r: Json)
        ensures
            json_view(r) == schema_json(*self),
    {
        let r = self.schema_over(None);
        assert(self.properties@.map_values(
            |p: ToolPropertyDef| (p.name@, property_json_over(p, None)),
        ) =~= self.properties@.map_values(|p: ToolPropertyDef| (p.name@, property_json(p))));
        r
    }

    /// This definition as an OpenAI-style function definition.
    pub fn to_api_format(&self) -> (r: Json)
        ensures
            json_view(r) == function_json(self.name@, self.description@, schema_json(*self)),
    {
        let schema = self.to_json_schema();
        function_object(self.name, self.description, schema)
    }

    /// This definition as an OpenAI-style function definition, with the
    /// description of the parameter `prop` replaced by `description`.
    pub fn to_api_format_described(&self, prop: &str, description: &str) -> (r: Json)
        ensures
            json_view(r) == function_json(
                self.name@,
                self.description@,
                schema_json_over(*self, Some((prop@, description@))),
            ),
    {
        let schema = self.schema_over(Some((prop, description)));
        function_object(self.name, self.description, schema)
    }
}

/// An OpenAI-style function definition of the given parts.
fn function_object(name: &str, description: &str, parameters: Json) -> (r: Json)
    ensures
        json_view(r) == function_json(name@, description@, json_view(parameters)),
{
    let ghost pv = json_view(parameters);
    let mut f: Vec<(String, Json)> = Vec::new();
    f.push(str_member("name", name));
    f.push(str_member("description", description));
    f.push((copy_str("parameters"), parameters));
    assert(members_view(f@) =~= seq![
        ("name"@, JsonView::Str(name@)),
        ("description"@, JsonView::Str(description@)),
        ("parameters"@, pv),
    ]);
    let function = object_of(f);
    let mut m: Vec<(String, Json)> = Vec::new();
    m.push(str_member("type", "function"));
    m.push((copy_str("function"), function));
    assert(members_view(m@) =~= seq![
        ("type"@, JsonView::Str("function"@)),
        (
            "function"@,
            JsonView::Object(
                seq![
                    ("name"@, JsonView::Str(name@)),
                    ("description"@, JsonView::Str(description@)),
                    ("parameters"@, pv),
                ],
            ),
        ),
    ]);
    object_of(m)
}

/// Copies of string slices as strings.
fn owned_strings(v: &Vec<&'static str>) -> (r: Vec<String>)
    ensures
        r@.map_values(|x: String| x@) == strs_view(v@),
{
    let mut out: Vec<String> = Vec::new();
    let n = v.len();
    let mut i: usize = 0;
    while i < n
        invariant
            n == v@.len(),
            i <= n,
            out@.map_values(|x: String| x@) =~= strs_view(v@).take(i as int),
        decreases n - i,
    {
        let ghost before = out@.map_values(|x: String| x@);
        out.push(copy_str(v[i]));
        assert(out@.map_values(|x: String| x@) =~= before.push(v@[i as int]@));
        i = i + 1;
    }
    assert(strs_view(v@).take(n as int) =~= strs_view(v@));
    out
}

impl Tool {
    /// This tool as an OpenAI-style function definition for the model.
    pub fn to_api_format(&self) -> (r: Json)
        ensures
            json_view(r) == function_json(self.name@, self.description@, json_view(self.parameters)),
    {
        function_object(self.name.as_str(), self.description.as_str(), copy_json(&self.parameters))
    }

    /// Whether this tool takes part in hook dispatch: plugins always do,
    /// synthesised tools when they registered hooks, others never.
    pub fn is_hook_eligible(&self) -> (r: bool)
        ensures
            r == (self.category == ToolCategory::Plugin || (self.category
                == ToolCategory::Synthesised && self.hooks@.len() > 0)),
    {
        self.category == ToolCategory::Plugin || (self.category == ToolCategory::Synthesised
            && self.hooks.len() > 0)
    }

    /// A built-in tool made from its definition, in the given category: its
    /// schema as parameters, no hooks, regular metadata.
    pub fn from_builtin_def(def: &BuiltinToolDef, category: ToolCategory) -> (r: Tool)
        ensures
            r.name@ == def.name@,
            r.description@ == def.description@,
            json_view(r.parameters) == schema_json(*def),
            r.hooks@.len() == 0,
            r.metadata == default_metadata(),
            r.summary_params@.map_values(|x: String| x@) == strs_view(def.summary_params@),
            r.implementation is Builtin,
            r.category == category,
    {
        Tool {
            name: copy_str(def.name),
            description: copy_str(def.description),
            parameters: def.to_json_schema(),
            hooks: Vec::new(),
            metadata: ToolMetadata::new(),
            summary_params: owned_strings(&def.summary_params),
            implementation: ToolImpl::Builtin,
            category,
        }
    }
}

// ---------------------------------------------------------------------------
// Metadata and call notices
// ---------------------------------------------------------------------------

/// The metadata of the tool named `name`: a registered tool's own, else that
/// of the flow tool of that name (call_agent stays known for the fallback
/// mechanism without being registered).
pub open spec fn tool_metadata_of(es: Seq<(Seq<char>, Tool)>, name: Seq<char>) -> ToolMetadata {
    match key_position(es, name) {
        Some(i) => es[i].1.metadata,
        None => spec_flow_tool_metadata(name),
    }
}

/// Get metadata for any tool (builtin, plugin or MCP).
pub fn get_tool_metadata(registry: &ToolRegistry, name: &str) -> (r: ToolMetadata)
    ensures
        r == tool_metadata_of(registry@, name@),
{
    match registry.get(name) {
        Some(tool) => tool.metadata,
        None => flow_tool_metadata(name),
    }
}

/// Every built-in group, in the order searched for summary parameters.
pub open spec fn summary_groups() -> Seq<DefSummary> {
    memory_table() + flow_table() + fs_read_table() + fs_write_table() + shell_table()
        + network_table() + index_table() + vfs_table() + eval_table()
}

/// The summary parameters of the built-in tool named `name`; none when it
/// is not built in.
pub open spec fn builtin_params_of(name: Seq<char>) -> Seq<Seq<char>> {
    match lookup(summary_groups(), name) {
        Some(d) => d.summary_params,
        None => Seq::empty(),
    }
}

/// Look up summary_params for a built-in tool by name across all groups;
/// empty when the tool is not found.
fn builtin_summary_params(name: &str) -> (r: Vec<&'static str>)
    ensures
        strs_view(r@) == builtin_params_of(name@),
{
    let mut defs = memory_tool_defs();
    defs = concat_defs(defs, flow_tool_defs());
    defs = concat_defs(defs, fs_read_tool_defs());
    defs = concat_defs(defs, fs_write_tool_defs());
    defs = concat_defs(defs, shell_tool_defs());
    defs = concat_defs(defs, network_tool_defs());
    defs = concat_defs(defs, index_tool_defs());
    defs = concat_defs(defs, vfs_tool_defs());
    defs = concat_defs(defs, eval_tool_defs());
    match take_def_named(defs, name) {
        Some(d) => d.summary_params,
        None => {
            let r: Vec<&'static str> = Vec::new();
            assert(strs_view(r@) =~= Seq::<Seq<char>>::empty());
            r
        },
    }
}

/// The summary parameters of the tool named `name`: a registered tool's
/// own, else the built-in ones.
pub open spec fn summary_params_for(es: Seq<(Seq<char>, Tool)>, name: Seq<char>) -> Seq<Seq<char>> {
    match key_position(es, name) {
        Some(i) => es[i].1.summary_params@.map_values(|x: String| x@),
        None => builtin_params_of(name),
    }
}

/// The string values that `args` holds for the parameters `params`, in
/// order; parameters without a string value are skipped.
pub open spec fn summary_parts(params: Seq<Seq<char>>, args: JsonView) -> Seq<Seq<char>>
    decreases params.len(),
{
    if params.len() == 0 {
        Seq::empty()
    } else {
        let before = summary_parts(params.drop_last(), args);
        match view_get_str(args, params.last()) {
            Some(v) => before.push(v),
            None => before,
        }
    }
}

/// The notice for a call with arguments `args`: the values of the summary
/// parameters joined by spaces, or nothing when there are none.
pub open spec fn summary_of(params: Seq<Seq<char>>, args: JsonView) -> Option<Seq<char>> {
    let parts = summary_parts(params, args);
    if parts.len() == 0 {
        None
    } else {
        Some(join_with(parts, " "@))
    }
}

/// The notice for a call with parsed arguments `args`, given the summary
/// parameters of the tool.
pub fn summary_from_args(params: &Vec<String>, args: &Json) -> (r: Option<String>)
    ensures
        match r {
            Some(s) => summary_of(params@.map_values(|x: String| x@), json_view(*args)) == Some(s@),
            None => summary_of(params@.map_values(|x: String| x@), json_view(*args)) is None,
        },
{
    let ghost ps = params@.map_values(|x: String| x@);
    let mut parts: Vec<String> = Vec::new();
    let n = params.len();
    let mut i: usize = 0;
    while i < n
        invariant
            n == params@.len(),
            ps == params@.map_values(|x: String| x@),
            i <= n,
            parts@.map_values(|x: String| x@) =~= summary_parts(ps.take(i as int), json_view(*args)),
        decreases n - i,
    {
        assert(ps.take(i + 1).drop_last() =~= ps.take(i as int));
        assert(ps.take(i + 1).last() == params@[i as int]@);
        let ghost before = parts@.map_values(|x: String| x@);
        match args.get_str(params[i].as_str()) {
            Some(v) => {
                parts.push(v);
                assert(parts@.map_values(|x: String| x@) =~= before.push(parts@.last()@));
            },
            None => {},
        }
        i = i + 1;
    }
    assert(ps.take(n as int) =~= ps);
    if parts.len() == 0 {
        None
    } else {
        Some(join_strings(&parts, " "))
    }
}

/// A concise notice for a tool call: the values of the tool's declared
/// summary parameters in the call's arguments, joined by spaces. `None`
/// when the arguments are not valid JSON or no value is found.
pub fn tool_call_summary(registry: &ToolRegistry, name: &str, args_json: &str) -> (r: Option<
    String,
>)
    ensures
        match parsed_json(args_json@) {
            None => r is None,
            Some(args) => match r {
                Some(s) => summary_of(summary_params_for(registry@, name@), args) == Some(s@),
                None => summary_of(summary_params_for(registry@, name@), args) is None,
            },
        },
{
    let args = match parse_json(args_json) {
        Some(a) => a,
        None => {
            return None;
        },
    };
    let params: Vec<String> = match registry.get(name) {
        Some(tool) => copy_strings(&tool.summary_params),
        None => {
            let b = builtin_summary_params(name);
            owned_strings(&b)
        },
    };
    summary_from_args(&params, &args)
}

/// Copies of strings.
fn copy_strings(v: &Vec<String>) -> (r: Vec<String>)
    ensures
        r@.map_values(|x: String| x@) == v@.map_values(|x: String| x@),
{
    let mut out: Vec<String> = Vec::new();
    let n = v.len();
    let mut i: usize = 0;
    while i < n
        invariant
            n == v@.len(),
            i <= n,
            out@.map_values(|x: String| x@) =~= v@.map_values(|x: String| x@).take(i as int),
        decreases n - i,
    {
        let ghost before = out@.map_values(|x: String| x@);
        out.push(copy_str(v[i].as_str()));
        assert(out@.map_values(|x: String| x@) =~= before.push(v@[i as int]@));
        i = i + 1;
    }
    assert(v@.map_values(|x: String| x@).take(n as int) =~= v@.map_values(|x: String| x@));
    out
}


/// The API form of one definition.
pub open spec fn def_api_json(d: BuiltinToolDef) -> JsonView {
    function_json(d.name@, d.description@, schema_json(d))
}

/// The API forms of definitions, in order.
pub fn defs_to_api_format(defs: &Vec<BuiltinToolDef>) -> (r: Vec<Json>)
    ensures
        jsons_view(r@) == defs@.map_values(|d: BuiltinToolDef| def_api_json(d)),
{
    let mut out: Vec<Json> = Vec::new();
    let n = defs.len();
    let mut i: usize = 0;
    while i < n
        invariant
            n == defs@.len(),
            i <= n,
            jsons_view(out@) =~= defs@.take(i as int).map_values(
                |d: BuiltinToolDef| def_api_json(d),
            ),
        decreases n - i,
    {
        let ghost before = jsons_view(out@);
        let j = defs[i].to_api_format();
        out.push(j);
        assert(jsons_view(out@) =~= before.push(def_api_json(defs@[i as int])));
        assert(defs@.take(i + 1).map_values(|d: BuiltinToolDef| def_api_json(d))
            =~= defs@.take(i as int).map_values(|d: BuiltinToolDef| def_api_json(d)).push(
            def_api_json(defs@[i as int]),
        ));
        i = i + 1;
    }
    assert(defs@.take(n as int) =~= defs@);
    out
}

} // verus!
