//! fs_read tools: read-only access to files and directories.
//! file_head, file_tail, file_lines, file_grep, dir_list, glob_files, grep_files.

use vstd::prelude::*;
use super::schema::{def_api_json, defs_to_api_format};

use crate::error::{ErrorKind, ToolError};
use crate::json::{json_view, jsons_view, view_get_str, view_get_u64, Json, JsonView};
use super::fs_write::missing_param_msg;
use crate::text::{
    trailing_space, copy_str, decimal, from_chars, join_strings, join_with, lines_of, push_decimal, push_str,
    split_lines, to_chars,
};
use super::{has_def_named, table_names, table_of, BuiltinToolDef, DefSummary, ToolPropertyDef};

verus! {

pub const FILE_HEAD_TOOL_NAME: &'static str = "file_head";
pub const FILE_TAIL_TOOL_NAME: &'static str = "file_tail";
pub const FILE_LINES_TOOL_NAME: &'static str = "file_lines";
pub const FILE_GREP_TOOL_NAME: &'static str = "file_grep";
pub const DIR_LIST_TOOL_NAME: &'static str = "dir_list";
pub const GLOB_FILES_TOOL_NAME: &'static str = "glob_files";
pub const GREP_FILES_TOOL_NAME: &'static str = "grep_files";

/// The summaries of the fs_read tool definitions.
pub open spec fn fs_read_table() -> Seq<DefSummary> {
    seq![
        DefSummary {
            name: "file_head"@,
            required: seq!["path"@],
            summary_params: seq!["path"@],
            property_names: seq!["path"@, "lines"@],
        },
        DefSummary {
            name: "file_tail"@,
            required: seq!["path"@],
            summary_params: seq!["path"@],
            property_names: seq!["path"@, "lines"@],
        },
        DefSummary {
            name: "file_lines"@,
            required: seq!["path"@, "start"@, "end"@],
            summary_params: seq!["path"@],
            property_names: seq!["path"@, "start"@, "end"@],
        },
        DefSummary {
            name: "file_grep"@,
            required: seq!["path"@, "pattern"@],
            summary_params: seq!["pattern"@, "path"@],
            property_names: seq!["path"@, "pattern"@, "context_before"@, "context_after"@],
        },
        DefSummary {
            name: "dir_list"@,
            required: seq!["path"@],
            summary_params: seq!["path"@],
            property_names: seq!["path"@, "depth"@, "show_hidden"@],
        },
        DefSummary {
            name: "glob_files"@,
            required: seq!["pattern"@],
            summary_params: seq!["pattern"@],
            property_names: seq!["pattern"@, "path"@, "max_results"@],
        },
        DefSummary {
            name: "grep_files"@,
            required: seq!["pattern"@],
            summary_params: seq!["pattern"@, "path"@],
            property_names: seq!["pattern"@, "path"@, "file_pattern"@, "context_lines"@, "max_results"@],
        },
    ]
}

/// All fs_read tool definitions.
pub fn fs_read_tool_defs() -> (r: Vec<BuiltinToolDef>)
    ensures
        table_of(r@) == fs_read_table(),
{
    let r = vec![
        BuiltinToolDef {
            name: "file_head",
            description: "Read the first N lines from a file or cached tool output. Use this to examine the beginning of large outputs.",
            properties: vec![
                ToolPropertyDef {
                    name: "path",
                    prop_type: "string",
                    description: "Absolute or relative path to a file, or a vfs:/// URI for VFS storage",
                    default: None,
                },
                ToolPropertyDef {
                    name: "lines",
                    prop_type: "integer",
                    description: "Number of lines to read (default: 50)",
                    default: Some(50),
                },
            ],
            required: vec!["path"],
            summary_params: vec!["path"],
        },
        BuiltinToolDef {
            name: "file_tail",
            description: "Read the last N lines from a file or cached tool output. Use this to examine the end of large outputs.",
            properties: vec![
                ToolPropertyDef {
                    name: "path",
                    prop_type: "string",
                    description: "Absolute or relative path to a file, or a vfs:/// URI for VFS storage",
                    default: None,
                },
                ToolPropertyDef {
                    name: "lines",
                    prop_type: "integer",
                    description: "Number of lines to read (default: 50)",
                    default: Some(50),
                },
            ],
            required: vec!["path"],
            summary_params: vec!["path"],
        },
        BuiltinToolDef {
            name: "file_lines",
            description: "Read a specific range of lines from a file or cached tool output. Lines are 1-indexed.",
            properties: vec![
                ToolPropertyDef {
                    name: "path",
                    prop_type: "string",
                    description: "Absolute or relative path to a file, or a vfs:/// URI for VFS storage",
                    default: None,
                },
                ToolPropertyDef {
                    name: "start",
                    prop_type: "integer",
                    description: "First line number (1-indexed)",
                    default: None,
                },
                ToolPropertyDef {
                    name: "end",
                    prop_type: "integer",
                    description: "Last line number (1-indexed, inclusive)",
                    default: None,
                },
            ],
            required: vec!["path", "start", "end"],
            summary_params: vec!["path"],
        },
        BuiltinToolDef {
            name: "file_grep",
            description: "Search for a pattern in a file or cached tool output. Returns matching lines with optional context.",
            properties: vec![
                ToolPropertyDef {
                    name: "path",
                    prop_type: "string",
                    description: "Absolute or relative path to a file, or a vfs:/// URI for VFS storage",
                    default: None,
                },
                ToolPropertyDef {
                    name: "pattern",
                    prop_type: "string",
                    description: "Regular expression pattern to search for",
                    default: None,
                },
                ToolPropertyDef {
                    name: "context_before",
                    prop_type: "integer",
                    description: "Number of lines to show before each match (default: 2)",
                    default: Some(2),
                },
                ToolPropertyDef {
                    name: "context_after",
                    prop_type: "integer",
                    description: "Number of lines to show after each match (default: 2)",
                    default: Some(2),
                },
            ],
            required: vec!["path", "pattern"],
            summary_params: vec!["pattern", "path"],
        },
        BuiltinToolDef {
            name: "dir_list",
            description: "List a directory tree with file sizes and type indicators. Respects depth limit. Paths are relative to project_root unless absolute.",
            properties: vec![
                ToolPropertyDef {
                    name: "path",
                    prop_type: "string",
                    description: "Directory to list (default: project root)",
                    default: None,
                },
                ToolPropertyDef {
                    name: "depth",
                    prop_type: "integer",
                    description: "Maximum recursion depth (default: 1)",
                    default: Some(1),
                },
                ToolPropertyDef {
                    name: "show_hidden",
                    prop_type: "string",
                    description: "Include hidden files and directories (\"true\"/\"false\", default: \"false\")",
                    default: None,
                },
            ],
            required: vec!["path"],
            summary_params: vec!["path"],
        },
        BuiltinToolDef {
            name: "glob_files",
            description: "Find files matching a glob pattern under a directory, honouring .gitignore. Returns relative paths, one per line.",
            properties: vec![
                ToolPropertyDef {
                    name: "pattern",
                    prop_type: "string",
                    description: "Glob pattern to match (e.g. \"**/*.rs\")",
                    default: None,
                },
                ToolPropertyDef {
                    name: "path",
                    prop_type: "string",
                    description: "Root directory to search in (default: \".\")",
                    default: None,
                },
                ToolPropertyDef {
                    name: "max_results",
                    prop_type: "integer",
                    description: "Maximum number of paths to return (default: 100)",
                    default: Some(100),
                },
            ],
            required: vec!["pattern"],
            summary_params: vec!["pattern"],
        },
        BuiltinToolDef {
            name: "grep_files",
            description: "Search files for a regex pattern, honouring .gitignore. Output format: `file:line: content` with optional context lines.",
            properties: vec![
                ToolPropertyDef {
                    name: "pattern",
                    prop_type: "string",
                    description: "Regular expression pattern to search for",
                    default: None,
                },
                ToolPropertyDef {
                    name: "path",
                    prop_type: "string",
                    description: "Root directory to search in (default: \".\")",
                    default: None,
                },
                ToolPropertyDef {
                    name: "file_pattern",
                    prop_type: "string",
                    description: "Optional glob to restrict which files are searched (e.g. \"*.rs\")",
                    default: None,
                },
                ToolPropertyDef {
                    name: "context_lines",
                    prop_type: "integer",
                    description: "Lines of context to show before and after each match (default: 2)",
                    default: Some(2),
                },
                ToolPropertyDef {
                    name: "max_results",
                    prop_type: "integer",
                    description: "Maximum number of matches to return (default: 50)",
                    default: Some(50),
                },
            ],
            required: vec!["pattern"],
            summary_params: vec!["pattern", "path"],
        },
    ];
    assert(table_of(r@) =~~= fs_read_table());
    r
}


/// Check if a tool name belongs to the fs_read group.
pub fn is_fs_read_tool(name: &str) -> (r: bool)
    ensures
        r == table_names(fs_read_table()).contains(name@),
{
    has_def_named(&fs_read_tool_defs(), name)
}

// ---------------------------------------------------------------------------
// Regular expressions
// ---------------------------------------------------------------------------

/// `regex::Regex`, a compiled regular expression.
#[verifier::external_type_specification]
#[verifier::external_body]
pub struct ExRegex(regex::Regex);

/// The text of the error `regex::Regex::new` gives for `pattern`; `None`
/// when the pattern compiles.
pub uninterp spec fn regex_compile_error(pattern: Seq<char>) -> Option<Seq<char>>;

/// Whether the regular expression `pattern` matches somewhere in `text`
/// (`regex::Regex::is_match`).
pub uninterp spec fn regex_is_match(pattern: Seq<char>, text: Seq<char>) -> bool;

/// A compiled regular expression together with the pattern it was
/// compiled from.
pub struct CompiledPattern {
    regex: regex::Regex,
    pattern: String,
}

impl CompiledPattern {
    /// The pattern this was compiled from.
    pub closed spec fn source(&self) -> Seq<char> {
        self.pattern@
    }
}

/// Compiles a regular expression (`regex::Regex::new`); on failure, the
/// error's text.
#[verifier::external_body]
fn compile_pattern(pattern: &str) -> (r: Result<CompiledPattern, String>)
    ensures
        match r {
            Ok(c) => regex_compile_error(pattern@) is None && c.source() == pattern@,
            Err(msg) => regex_compile_error(pattern@) == Some(msg@),
        },
{
    match regex::Regex::new(pattern) {
        Ok(regex) => Ok(CompiledPattern { regex, pattern: pattern.to_string() }),
        Err(e) => Err(e.to_string()),
    }
}

/// Whether a compiled expression matches somewhere in `text`
/// (`regex::Regex::is_match`).
#[verifier::external_body]
fn pattern_matches(c: &CompiledPattern, text: &str) -> (r: bool)
    ensures
        r == regex_is_match(c.source(), text@),
{
    c.regex.is_match(text)
}

// ---------------------------------------------------------------------------
// file_head, file_tail, file_lines
// ---------------------------------------------------------------------------

/// The first `n` lines of `content`, joined by newlines.
pub open spec fn head_text(content: Seq<char>, n: nat) -> Seq<char> {
    let lines = split_lines(content);
    join_with(lines.take(if n < lines.len() { n as int } else { lines.len() as int }), "\n"@)
}

/// The last `n` lines of `content`, joined by newlines.
pub open spec fn tail_text(content: Seq<char>, n: nat) -> Seq<char> {
    let lines = split_lines(content);
    join_with(lines.skip(if n < lines.len() { lines.len() - n } else { 0 }), "\n"@)
}

/// Lines `start..=end` (1-indexed) of `content`, joined by newlines.
pub open spec fn range_text(content: Seq<char>, start: nat, end: nat) -> Seq<char> {
    let lines = split_lines(content);
    let lo = if start - 1 < lines.len() { start - 1 } else { lines.len() as int };
    let hi = if end < lines.len() { end as int } else { lines.len() as int };
    join_with(lines.subrange(lo, if hi < lo { lo } else { hi }), "\n"@)
}

/// The lines `lo..hi` of a text, as strings.
fn line_strings(content: &str) -> (r: Vec<String>)
    ensures
        r@.map_values(|x: String| x@) == split_lines(content@),
{
    let cs = to_chars(content);
    let lines = lines_of(cs.as_slice());
    let mut out: Vec<String> = Vec::new();
    let n = lines.len();
    let mut i: usize = 0;
    while i < n
        invariant
            n == lines@.len(),
            n == split_lines(content@).len(),
            forall|k: int| 0 <= k < n ==> #[trigger] lines@[k]@ == split_lines(content@)[k],
            i <= n,
            out@.map_values(|x: String| x@) =~= split_lines(content@).take(i as int),
        decreases n - i,
    {
        let ghost before = out@.map_values(|x: String| x@);
        out.push(from_chars(lines[i].as_slice()));
        assert(out@.map_values(|x: String| x@) =~= before.push(split_lines(content@)[i as int]));
        i = i + 1;
    }
    assert(split_lines(content@).take(n as int) =~= split_lines(content@));
    out
}

/// The lines `lo..hi` of `lines` joined by newlines.
fn join_range(lines: &Vec<String>, lo: usize, hi: usize) -> (r: String)
    requires
        lo <= hi <= lines@.len(),
    ensures
        r@ == join_with(lines@.map_values(|x: String| x@).subrange(lo as int, hi as int), "\n"@),
{
    let mut part: Vec<String> = Vec::new();
    let mut i: usize = lo;
    while i < hi
        invariant
            lo <= i <= hi,
            hi <= lines@.len(),
            part@.map_values(|x: String| x@) =~= lines@.map_values(|x: String| x@).subrange(
                lo as int,
                i as int,
            ),
        decreases hi - i,
    {
        let ghost before = part@.map_values(|x: String| x@);
        part.push(copy_str(lines[i].as_str()));
        assert(part@.map_values(|x: String| x@) =~= before.push(lines@[i as int]@));
        i = i + 1;
    }
    join_strings(&part, "\n")
}

/// The first `n` lines of a file's text (file_head).
pub fn head_lines(content: &str, n: usize) -> (r: String)
    ensures
        r@ == head_text(content@, n as nat),
{
    let lines = line_strings(content);
    let k = if n < lines.len() {
        n
    } else {
        lines.len()
    };
    let r = join_range(&lines, 0, k);
    assert(split_lines(content@).subrange(0, k as int) =~= split_lines(content@).take(k as int));
    r
}

/// The last `n` lines of a file's text (file_tail).
pub fn tail_lines(content: &str, n: usize) -> (r: String)
    ensures
        r@ == tail_text(content@, n as nat),
{
    let lines = line_strings(content);
    let len = lines.len();
    let start = if n < len {
        len - n
    } else {
        0
    };
    let r = join_range(&lines, start, len);
    assert(split_lines(content@).subrange(start as int, len as int) =~= split_lines(content@).skip(
        start as int,
    ));
    r
}

/// Lines `start..=end` (1-indexed) of a file's text (file_lines). Fails
/// when `start` is 0 or `end` comes before `start`.
pub fn range_lines(content: &str, start: usize, end: usize) -> (r: Result<String, ToolError>)
    ensures
        match r {
            Ok(s) => start > 0 && end >= start && s@ == range_text(content@, start as nat, end as nat),
            Err(e) => e.kind == ErrorKind::InvalidInput && if start == 0 {
                e.message@ == "Line numbers are 1-indexed, start must be >= 1"@
            } else {
                end < start && e.message@ == "End line must be >= start line"@
            },
        },
{
    if start == 0 {
        return Err(
            ToolError::new(
                ErrorKind::InvalidInput,
                copy_str("Line numbers are 1-indexed, start must be >= 1"),
            ),
        );
    }
    if end < start {
        return Err(
            ToolError::new(ErrorKind::InvalidInput, copy_str("End line must be >= start line")),
        );
    }
    let lines = line_strings(content);
    let len = lines.len();
    let lo = if start - 1 < len {
        start - 1
    } else {
        len
    };
    let hi = if end < len {
        end
    } else {
        len
    };
    let hi = if hi < lo {
        lo
    } else {
        hi
    };
    Ok(join_range(&lines, lo, hi))
}

// ---------------------------------------------------------------------------
// file_grep
// ---------------------------------------------------------------------------

/// One output row of file_grep: a marker (`>` for a match, a space for
/// context), the 1-based line number, a colon and the line.
pub open spec fn grep_row(marker: Seq<char>, j: int, line: Seq<char>) -> Seq<char> {
    marker + decimal((j + 1) as nat) + ":"@ + line
}

/// The rows for lines `from..to` around the match at `i`.
pub open spec fn context_rows(lines: Seq<Seq<char>>, i: int, from: int, to: int) -> Seq<Seq<char>> {
    Seq::new(
        if from <= to { (to - from) as nat } else { 0 },
        |t: int| grep_row(if from + t == i { ">"@ } else { " "@ }, from + t, lines[from + t]),
    )
}

/// The rows emitted so far and where the last shown window ended.
pub struct GrepState {
    pub rows: Seq<Seq<char>>,
    pub last_end: int,
}

/// The state after looking at line `i`: a matching line shows the window of
/// `before` lines before it and `after` lines after it, without repeating
/// lines already shown, and with `--` between windows that do not touch.
pub open spec fn grep_step(
    lines: Seq<Seq<char>>,
    pattern: Seq<char>,
    before: nat,
    after: nat,
    st: GrepState,
    i: int,
) -> GrepState {
    if regex_is_match(pattern, lines[i]) {
        let start = if i >= before { i - before } else { 0 };
        let end = if i + after + 1 < lines.len() { i + after + 1 } else { lines.len() as int };
        let sep = if start > st.last_end && st.rows.len() > 0 {
            seq!["--"@]
        } else {
            Seq::empty()
        };
        let from = if start > st.last_end { start } else { st.last_end };
        GrepState { rows: st.rows + sep + context_rows(lines, i, from, end), last_end: end }
    } else {
        st
    }
}

/// The state after looking at the first `k` lines.
pub open spec fn grep_fold(
    lines: Seq<Seq<char>>,
    pattern: Seq<char>,
    before: nat,
    after: nat,
    k: nat,
) -> GrepState
    decreases k,
{
    if k == 0 {
        GrepState { rows: Seq::empty(), last_end: 0 }
    } else {
        grep_step(lines, pattern, before, after, grep_fold(lines, pattern, before, after, (k - 1) as nat), k - 1)
    }
}

/// The grep output for `content`: the rows joined by newlines.
pub open spec fn grep_text(content: Seq<char>, pattern: Seq<char>, before: nat, after: nat) -> Seq<char> {
    let lines = split_lines(content);
    join_with(grep_fold(lines, pattern, before, after, lines.len()).rows, "\n"@)
}

/// The shown windows never end before they start and stay within the text.
proof fn lemma_grep_fold_bounds(
    lines: Seq<Seq<char>>,
    pattern: Seq<char>,
    before: nat,
    after: nat,
    k: nat,
)
    requires
        k <= lines.len(),
    ensures
        0 <= grep_fold(lines, pattern, before, after, k).last_end <= lines.len(),
        grep_fold(lines, pattern, before, after, k).last_end <= k + after,
    decreases k,
{
    if k > 0 {
        lemma_grep_fold_bounds(lines, pattern, before, after, (k - 1) as nat);
    }
}

/// Appends one grep row.
fn push_grep_row(rows: &mut Vec<String>, marker: &str, j: usize, line: &str)
    requires
        j < usize::MAX,
    ensures
        final(rows)@.map_values(|x: String| x@) == old(rows)@.map_values(|x: String| x@).push(
            grep_row(marker@, j as int, line@),
        ),
{
    let mut s = copy_str(marker);
    push_decimal(&mut s, (j + 1) as u64);
    push_str(&mut s, ":");
    push_str(&mut s, line);
    let ghost before = old(rows)@.map_values(|x: String| x@);
    rows.push(s);
    assert(rows@.map_values(|x: String| x@) =~= before.push(grep_row(marker@, j as int, line@)));
}

/// In-memory grep with context lines: each line matching `pattern`, marked
/// `>`, with up to `context_before` lines before and `context_after` lines
/// after it, 1-based numbers, and `--` between separate windows. Fails with
/// `InvalidInput` when the pattern is not a valid regular expression.
pub fn grep_in_memory(
    content: &str,
    pattern: &str,
    context_before: usize,
    context_after: usize,
) -> (r: Result<String, ToolError>)
    ensures
        match regex_compile_error(pattern@) {
            Some(msg) => r matches Err(e) && e.kind == ErrorKind::InvalidInput && e.message@
                == "Invalid regex: "@ + msg,
            None => r matches Ok(s) && s@ == grep_text(
                content@,
                pattern@,
                context_before as nat,
                context_after as nat,
            ),
        },
{
    let lines = line_strings(content);
    let ghost ls = split_lines(content@);
    let re = match compile_pattern(pattern) {
        Ok(re) => re,
        Err(msg) => {
            let mut m = copy_str("Invalid regex: ");
            push_str(&mut m, msg.as_str());
            return Err(ToolError::new(ErrorKind::InvalidInput, m));
        },
    };
    let n = lines.len();
    let mut rows: Vec<String> = Vec::new();
    let mut last_end: usize = 0;
    let mut i: usize = 0;
    while i < n
        invariant
            n == lines@.len(),
            lines@.map_values(|x: String| x@) == ls,
            ls == split_lines(content@),
            re.source() == pattern@,
            i <= n,
            last_end <= n,
            rows@.map_values(|x: String| x@) == grep_fold(
                ls,
                pattern@,
                context_before as nat,
                context_after as nat,
                i as nat,
            ).rows,
            last_end as int == grep_fold(
                ls,
                pattern@,
                context_before as nat,
                context_after as nat,
                i as nat,
            ).last_end,
        decreases n - i,
    {
        assert(lines@[i as int]@ == ls[i as int]);
        proof {
            lemma_grep_fold_bounds(ls, pattern@, context_before as nat, context_after as nat, i as nat);
        }
        if pattern_matches(&re, lines[i].as_str()) {
            let start = if i >= context_before {
                i - context_before
            } else {
                0
            };
            let end = if context_after < n - i - 1 {
                i + context_after + 1
            } else {
                n
            };
            if start > last_end && rows.len() > 0 {
                let ghost b = rows@.map_values(|x: String| x@);
                rows.push(copy_str("--"));
                assert(rows@.map_values(|x: String| x@) =~= b + seq!["--"@]);
            } else {
                assert(rows@.map_values(|x: String| x@) =~= rows@.map_values(|x: String| x@)
                    + Seq::<Seq<char>>::empty());
            }
            let from = if start > last_end {
                start
            } else {
                last_end
            };
            let ghost mid = rows@.map_values(|x: String| x@);
            let mut j: usize = from;
            while j < end
                invariant
                    from <= j <= end,
                    end <= n,
                    n == lines@.len(),
                    lines@.map_values(|x: String| x@) == ls,
                    rows@.map_values(|x: String| x@) =~= mid + context_rows(ls, i as int, from as int, j as int),
                decreases end - j,
            {
                let marker = if j == i {
                    ">"
                } else {
                    " "
                };
                assert(lines@[j as int]@ == ls[j as int]);
                push_grep_row(&mut rows, marker, j, lines[j].as_str());
                assert(context_rows(ls, i as int, from as int, j + 1) =~= context_rows(
                    ls,
                    i as int,
                    from as int,
                    j as int,
                ).push(grep_row(marker@, j as int, ls[j as int])));
                j = j + 1;
            }
            last_end = end;
        }
        i = i + 1;
    }
    assert(ls.len() == n);
    Ok(join_strings(&rows, "\n"))
}

/// The report of file_grep: the matches, or a note that there were none.
pub open spec fn grep_report(found: Seq<char>, pattern: Seq<char>) -> Seq<char> {
    if found.len() == 0 {
        "No matches found for pattern: "@ + pattern
    } else {
        found
    }
}

/// The file_grep report for a file's text: the grep output, or a note that
/// nothing matched. Fails when the pattern is not a valid regular expression.
pub fn file_grep_report(
    content: &str,
    pattern: &str,
    context_before: usize,
    context_after: usize,
) -> (r: Result<String, ToolError>)
    ensures
        match regex_compile_error(pattern@) {
            Some(msg) => r matches Err(e) && e.kind == ErrorKind::InvalidInput && e.message@
                == "Invalid regex: "@ + msg,
            None => r matches Ok(s) && s@ == grep_report(
                grep_text(content@, pattern@, context_before as nat, context_after as nat),
                pattern@,
            ),
        },
{
    let found = match grep_in_memory(content, pattern, context_before, context_after) {
        Ok(found) => found,
        Err(e) => {
            return Err(e);
        },
    };
    if found.as_str().is_empty() {
        let mut m = copy_str("No matches found for pattern: ");
        push_str(&mut m, pattern);
        Ok(m)
    } else {
        Ok(found)
    }
}

// ---------------------------------------------------------------------------
// grep_files
// ---------------------------------------------------------------------------

/// Compiles the pattern of a grep_files search; fails with `InvalidInput`
/// when it is not a valid regular expression.
pub fn compile_search_pattern(pattern: &str) -> (r: Result<CompiledPattern, ToolError>)
    ensures
        match r {
            Ok(c) => regex_compile_error(pattern@) is None && c.source() == pattern@,
            Err(e) => e.kind == ErrorKind::InvalidInput && (regex_compile_error(pattern@) matches Some(
                msg,
            ) && e.message@ == "Invalid regex pattern '"@ + pattern@ + "': "@ + msg),
        },
{
    match compile_pattern(pattern) {
        Ok(c) => Ok(c),
        Err(msg) => {
            let mut m = copy_str("Invalid regex pattern '");
            push_str(&mut m, pattern);
            push_str(&mut m, "': ");
            push_str(&mut m, msg.as_str());
            Err(ToolError::new(ErrorKind::InvalidInput, m))
        },
    }
}

/// The windows of lines shown around the matches at `idxs` (in increasing
/// order): each match shows `ctx` lines on either side, and windows that
/// overlap or touch are merged.
pub open spec fn merged_windows(idxs: Seq<int>, ctx: nat, len: int) -> Seq<(int, int)>
    decreases idxs.len(),
{
    if idxs.len() == 0 {
        Seq::empty()
    } else {
        let ws = merged_windows(idxs.drop_last(), ctx, len);
        let i = idxs.last();
        let start = if i >= ctx { i - ctx } else { 0 };
        let end = if i + ctx + 1 < len { i + ctx + 1 } else { len };
        if ws.len() > 0 && start <= ws.last().1 {
            ws.update(ws.len() - 1, (ws.last().0, if ws.last().1 >= end { ws.last().1 } else { end }))
        } else {
            ws.push((start, end))
        }
    }
}

/// The positions of the lines that match `pattern`, in order.
pub open spec fn match_positions(lines: Seq<Seq<char>>, pattern: Seq<char>, k: nat) -> Seq<int>
    decreases k,
{
    if k == 0 {
        Seq::empty()
    } else {
        let before = match_positions(lines, pattern, (k - 1) as nat);
        if regex_is_match(pattern, lines[k - 1]) {
            before.push(k - 1)
        } else {
            before
        }
    }
}

/// The output of one file, and where the search stands after it: the text,
/// the running count of matches, and whether the limit was reached.
pub struct SearchState {
    pub text: Seq<char>,
    pub total: nat,
    pub stopped: bool,
}

/// One step of showing a file: `Some(i)` shows line `i` (a match as
/// `path:n: line`, counted, with a notice and a stop when the limit is
/// reached; a match met with the limit already reached is not shown, only
/// the notice; context as `path:n-line`), `None` ends a window with a blank
/// line. Nothing happens after a stop.
pub open spec fn search_step(
    rel: Seq<char>,
    lines: Seq<Seq<char>>,
    pattern: Seq<char>,
    max: nat,
    st: SearchState,
    ev: Option<int>,
) -> SearchState {
    if st.stopped {
        st
    } else {
        match ev {
            None => SearchState { text: st.text + "\n"@, ..st },
            Some(i) => if regex_is_match(pattern, lines[i]) {
                let text = st.text + rel + ":"@ + decimal((i + 1) as nat) + ": "@ + lines[i] + "\n"@;
                let total = st.total + 1;
                if st.total >= max {
                    SearchState {
                        text: st.text + "\n[Truncated: "@ + decimal(max) + " results limit reached]\n"@,
                        total: st.total,
                        stopped: true,
                    }
                } else if total >= max {
                    SearchState {
                        text: text + "\n[Truncated: "@ + decimal(max) + " results limit reached]\n"@,
                        total,
                        stopped: true,
                    }
                } else {
                    SearchState { text, total, stopped: false }
                }
            } else {
                SearchState {
                    text: st.text + rel + ":"@ + decimal((i + 1) as nat) + "-"@ + lines[i] + "\n"@,
                    ..st
                }
            },
        }
    }
}

/// The steps of showing the windows `ws`: each window's lines, then its end.
pub open spec fn window_events(ws: Seq<(int, int)>) -> Seq<Option<int>>
    decreases ws.len(),
{
    if ws.len() == 0 {
        Seq::empty()
    } else {
        let w = ws.last();
        window_events(ws.drop_last()) + Seq::new(
            if w.0 <= w.1 { (w.1 - w.0) as nat } else { 0 },
            |k: int| Some(w.0 + k),
        ) + seq![None::<int>]
    }
}

/// The state after taking the steps `evs` from `st`.
pub open spec fn run_search(
    rel: Seq<char>,
    lines: Seq<Seq<char>>,
    pattern: Seq<char>,
    max: nat,
    st: SearchState,
    evs: Seq<Option<int>>,
) -> SearchState
    decreases evs.len(),
{
    if evs.len() == 0 {
        st
    } else {
        search_step(rel, lines, pattern, max, run_search(rel, lines, pattern, max, st, evs.drop_last()), evs.last())
    }
}

/// Showing one file found by grep_files: its matching lines with `ctx`
/// lines of context, window by window, counting matches from `total` and
/// stopping at `max`.
pub open spec fn search_file(
    rel: Seq<char>,
    lines: Seq<Seq<char>>,
    pattern: Seq<char>,
    ctx: nat,
    max: nat,
    total: nat,
) -> SearchState {
    run_search(
        rel,
        lines,
        pattern,
        max,
        SearchState { text: Seq::empty(), total, stopped: false },
        window_events(merged_windows(match_positions(lines, pattern, lines.len()), ctx, lines.len() as int)),
    )
}

proof fn lemma_run_append(
    rel: Seq<char>,
    lines: Seq<Seq<char>>,
    pattern: Seq<char>,
    max: nat,
    st: SearchState,
    a: Seq<Option<int>>,
    b: Seq<Option<int>>,
)
    ensures
        run_search(rel, lines, pattern, max, st, a + b) == run_search(
            rel,
            lines,
            pattern,
            max,
            run_search(rel, lines, pattern, max, st, a),
            b,
        ),
    decreases b.len(),
{
    if b.len() == 0 {
        assert(a + b =~= a);
    } else {
        assert((a + b).drop_last() =~= a + b.drop_last());
        assert((a + b).last() == b.last());
        lemma_run_append(rel, lines, pattern, max, st, a, b.drop_last());
    }
}

/// Windows lie inside the text, in order, each start at most its end.
proof fn lemma_windows_bounds(idxs: Seq<int>, ctx: nat, len: int)
    requires
        forall|t: int| 0 <= t < idxs.len() ==> 0 <= #[trigger] idxs[t] < len,
    ensures
        forall|t: int|
            0 <= t < merged_windows(idxs, ctx, len).len() ==> 0 <= (#[trigger] merged_windows(
                idxs,
                ctx,
                len,
            )[t]).0 <= merged_windows(idxs, ctx, len)[t].1 <= len,
    decreases idxs.len(),
{
    if idxs.len() > 0 {
        let d = idxs.drop_last();
        assert forall|t: int| 0 <= t < d.len() implies 0 <= #[trigger] d[t] < len by {
            assert(d[t] == idxs[t]);
        }
        lemma_windows_bounds(d, ctx, len);
        let ws = merged_windows(d, ctx, len);
        let r = merged_windows(idxs, ctx, len);
        assert(0 <= idxs[idxs.len() - 1] < len);
        assert forall|t: int| 0 <= t < r.len() implies 0 <= (#[trigger] r[t]).0 <= r[t].1 <= len by {
            if t < ws.len() && t != ws.len() - 1 {
                assert(r[t] == ws[t]);
            } else if t < ws.len() {
                assert(ws[t] == ws.last());
            }
        }
    }
}

proof fn lemma_match_positions_bounds(lines: Seq<Seq<char>>, pattern: Seq<char>, k: nat)
    requires
        k <= lines.len(),
    ensures
        forall|t: int|
            0 <= t < match_positions(lines, pattern, k).len() ==> 0 <= #[trigger] match_positions(
                lines,
                pattern,
                k,
            )[t] < k,
    decreases k,
{
    if k > 0 {
        lemma_match_positions_bounds(lines, pattern, (k - 1) as nat);
        let before = match_positions(lines, pattern, (k - 1) as nat);
        let r = match_positions(lines, pattern, k);
        assert forall|t: int| 0 <= t < r.len() implies 0 <= #[trigger] r[t] < k by {
            if t < before.len() {
                assert(r[t] == before[t]);
            }
        }
    }
}

/// Shows one file found by grep_files: the lines of `lines` (the file's
/// lines, shown under `rel_path`) that match, each with `context_lines`
/// lines around it, windows merged and separated by blank lines; matches
/// are counted on from `total`, and at `max_results` a notice is added and
/// the search stops: no more than `max_results` matches are counted.
/// Returns the text, the new count and whether it stopped.
pub fn grep_file_section(
    rel_path: &str,
    lines: &Vec<String>,
    re: &CompiledPattern,
    context_lines: usize,
    max_results: usize,
    total: usize,
) -> (r: (String, usize, bool))
    ensures
        ({
            let st = search_file(
                rel_path@,
                lines@.map_values(|x: String| x@),
                re.source(),
                context_lines as nat,
                max_results as nat,
                total as nat,
            );
            r.0@ == st.text && r.1 == st.total && r.2 == st.stopped
        }),
        total <= r.1,
        total <= max_results ==> r.1 <= max_results,
{
    let ghost ls = lines@.map_values(|x: String| x@);
    let ghost pat = re.source();
    let n = lines.len();
    // Matching lines.
    let mut idxs: Vec<usize> = Vec::new();
    let mut i: usize = 0;
    while i < n
        invariant
            n == lines@.len(),
            ls == lines@.map_values(|x: String| x@),
            pat == re.source(),
            i <= n,
            idxs@.map_values(|x: usize| x as int) =~= match_positions(ls, pat, i as nat),
        decreases n - i,
    {
        assert(ls[i as int] == lines@[i as int]@);
        if pattern_matches(re, lines[i].as_str()) {
            let ghost b = idxs@.map_values(|x: usize| x as int);
            idxs.push(i);
            assert(idxs@.map_values(|x: usize| x as int) =~= b.push(i as int));
        }
        i = i + 1;
    }
    let ghost mp = match_positions(ls, pat, n as nat);
    proof {
        lemma_match_positions_bounds(ls, pat, n as nat);
    }
    // Windows around them.
    let mut ws: Vec<(usize, usize)> = Vec::new();
    let m = idxs.len();
    let mut k: usize = 0;
    proof {
        lemma_windows_bounds(mp.take(0), context_lines as nat, n as int);
    }
    while k < m
        invariant
            m == idxs@.len(),
            n == lines@.len(),
            mp == idxs@.map_values(|x: usize| x as int),
            forall|t: int| 0 <= t < mp.len() ==> 0 <= #[trigger] mp[t] < n,
            k <= m,
            ws@.map_values(|w: (usize, usize)| (w.0 as int, w.1 as int)) =~= merged_windows(
                mp.take(k as int),
                context_lines as nat,
                n as int,
            ),
        decreases m - k,
    {
        let idx = idxs[k];
        assert(mp.take(k + 1).drop_last() =~= mp.take(k as int));
        assert(mp.take(k + 1).last() == idx as int);
        proof {
            lemma_windows_bounds(mp.take(k as int), context_lines as nat, n as int);
            assert forall|t: int| 0 <= t < mp.take(k as int).len() implies 0 <= #[trigger] mp.take(k as int)[t] < n by {
                assert(mp.take(k as int)[t] == mp[t]);
            }
        }
        let start = if idx >= context_lines {
            idx - context_lines
        } else {
            0
        };
        let end = if context_lines < n - idx - 1 {
            idx + context_lines + 1
        } else {
            n
        };
        let ghost before = ws@.map_values(|w: (usize, usize)| (w.0 as int, w.1 as int));
        let wl = ws.len();
        if wl > 0 && start <= ws[wl - 1].1 {
            let last = ws[wl - 1];
            let new_end = if last.1 >= end {
                last.1
            } else {
                end
            };
            ws.set(wl - 1, (last.0, new_end));
            assert(ws@.map_values(|w: (usize, usize)| (w.0 as int, w.1 as int)) =~= before.update(
                before.len() - 1,
                (before.last().0, if before.last().1 >= end { before.last().1 } else { end as int }),
            ));
        } else {
            ws.push((start, end));
            assert(ws@.map_values(|w: (usize, usize)| (w.0 as int, w.1 as int)) =~= before.push(
                (start as int, end as int),
            ));
        }
        k = k + 1;
    }
    assert(mp.take(m as int) =~= mp);
    let ghost wv = merged_windows(mp, context_lines as nat, n as int);
    proof {
        lemma_windows_bounds(mp, context_lines as nat, n as int);
    }
    // Showing the windows.
    let ghost init = SearchState { text: Seq::empty(), total: total as nat, stopped: false };
    let mut text = String::new();
    let mut count: usize = total;
    let nw = ws.len();
    let mut w: usize = 0;
    while w < nw
        invariant
            nw == ws@.len(),
            n == lines@.len(),
            ls == lines@.map_values(|x: String| x@),
            pat == re.source(),
            wv == ws@.map_values(|w: (usize, usize)| (w.0 as int, w.1 as int)),
            wv == merged_windows(mp, context_lines as nat, n as int),
            mp == match_positions(ls, pat, n as nat),
            init == (SearchState { text: Seq::empty(), total: total as nat, stopped: false }),
            forall|t: int| 0 <= t < wv.len() ==> 0 <= (#[trigger] wv[t]).0 <= wv[t].1 <= n,
            w <= nw,
            total <= count, count <= max_results || count == total,
            ({
                let st = run_search(rel_path@, ls, pat, max_results as nat, init, window_events(wv.take(w as int)));
                st.text == text@ && st.total == count && !st.stopped
            }),
        decreases nw - w,
    {
        let (a, b) = ws[w];
        assert(wv[w as int] == (a as int, b as int));
        let ghost prefix_evs = window_events(wv.take(w as int));
        let ghost line_evs = Seq::new((b - a) as nat, |t: int| Some(a as int + t));
        assert(wv.take(w + 1).drop_last() =~= wv.take(w as int));
        assert(wv.take(w + 1).last() == (a as int, b as int));
        assert(window_events(wv.take(w + 1)) == prefix_evs + line_evs + seq![None::<int>]);
        let mut j: usize = a;
        while j < b
            invariant
                a <= j <= b,
                b <= n,
                n == lines@.len(),
                ls == lines@.map_values(|x: String| x@),
                pat == re.source(),
                w < nw,
                nw == wv.len(),
                wv == merged_windows(mp, context_lines as nat, n as int),
                mp == match_positions(ls, pat, n as nat),
                init == (SearchState { text: Seq::empty(), total: total as nat, stopped: false }),
                wv[w as int] == (a as int, b as int),
                line_evs == Seq::new((b - a) as nat, |t: int| Some(a as int + t)),
                prefix_evs == window_events(wv.take(w as int)),
                window_events(wv.take(w + 1)) == prefix_evs + line_evs + seq![None::<int>],
                total <= count, count <= max_results || count == total,
                ({
                    let st = run_search(
                        rel_path@,
                        ls,
                        pat,
                        max_results as nat,
                        init,
                        prefix_evs + line_evs.take(j - a),
                    );
                    st.text == text@ && st.total == count && !st.stopped
                }),
            decreases b - j,
        {
            let ghost cur = prefix_evs + line_evs.take(j - a);
            let ghost nxt = prefix_evs + line_evs.take(j + 1 - a);
            assert(nxt.drop_last() =~= cur);
            assert(nxt.last() == Some(j as int));
            assert(ls[j as int] == lines@[j as int]@);
            if pattern_matches(re, lines[j].as_str()) {
                let limit_hit: bool;
                if count >= max_results {
                    limit_hit = true;
                } else {
                    push_str(&mut text, rel_path);
                    push_str(&mut text, ":");
                    push_decimal(&mut text, (j + 1) as u64);
                    push_str(&mut text, ": ");
                    push_str(&mut text, lines[j].as_str());
                    push_str(&mut text, "\n");
                    count = count + 1;
                    limit_hit = count >= max_results;
                }
                if limit_hit {
                    push_str(&mut text, "\n[Truncated: ");
                    push_decimal(&mut text, max_results as u64);
                    push_str(&mut text, " results limit reached]\n");
                    proof {
                        let st0 = run_search(rel_path@, ls, pat, max_results as nat, init, cur);
                        let st1 = run_search(rel_path@, ls, pat, max_results as nat, init, nxt);
                        assert(st1 == search_step(
                            rel_path@,
                            ls,
                            pat,
                            max_results as nat,
                            st0,
                            Some(j as int),
                        ));
                        assert(st1.stopped);
                        assert(st1.total == count);
                        assert(st1.text == text@);
                        let tail_ws = wv.skip(w + 1);
                        assert(wv =~= wv.take(w + 1) + tail_ws);
                        lemma_events_concat(wv.take(w + 1), tail_ws);
                        let rest = line_evs.skip(j + 1 - a) + seq![None::<int>] + window_events(
                            tail_ws,
                        );
                        assert(line_evs.take(j + 1 - a) + line_evs.skip(j + 1 - a) =~= line_evs);
                        assert(nxt + rest =~= window_events(wv));
                        lemma_run_append(rel_path@, ls, pat, max_results as nat, init, nxt, rest);
                        lemma_run_stopped(
                            rel_path@,
                            ls,
                            pat,
                            max_results as nat,
                            run_search(rel_path@, ls, pat, max_results as nat, init, nxt),
                            rest,
                        );
                    }
                    assert(ls.len() == n);
                    assert(wv == merged_windows(
                        match_positions(ls, pat, ls.len()),
                        context_lines as nat,
                        ls.len() as int,
                    ));
                    assert(run_search(rel_path@, ls, pat, max_results as nat, init, window_events(wv))
                        == run_search(rel_path@, ls, pat, max_results as nat, init, nxt));
                    assert(search_file(
                        rel_path@,
                        ls,
                        pat,
                        context_lines as nat,
                        max_results as nat,
                        total as nat,
                    ) == run_search(rel_path@, ls, pat, max_results as nat, init, nxt));
                    return (text, count, true);
                }
            } else {
                push_str(&mut text, rel_path);
                push_str(&mut text, ":");
                push_decimal(&mut text, (j + 1) as u64);
                push_str(&mut text, "-");
                push_str(&mut text, lines[j].as_str());
                push_str(&mut text, "\n");
            }
            j = j + 1;
        }
        assert(line_evs.take(b - a) =~= line_evs);
        push_str(&mut text, "\n");
        proof {
            let evs = prefix_evs + line_evs + seq![None::<int>];
            assert(evs.drop_last() =~= prefix_evs + line_evs);
            assert(evs.last() == None::<int>);
        }
        w = w + 1;
    }
    assert(wv.take(nw as int) =~= wv);
    assert(ls.len() == n);
    assert(wv == merged_windows(match_positions(ls, pat, ls.len()), context_lines as nat, ls.len() as int));
    (text, count, false)
}

/// The events of two runs of windows are those of each, one after the other.
proof fn lemma_events_concat(a: Seq<(int, int)>, b: Seq<(int, int)>)
    ensures
        window_events(a + b) == window_events(a) + window_events(b),
    decreases b.len(),
{
    if b.len() == 0 {
        assert(a + b =~= a);
        assert(window_events(a) + window_events(b) =~= window_events(a));
    } else {
        assert((a + b).drop_last() =~= a + b.drop_last());
        assert((a + b).last() == b.last());
        lemma_events_concat(a, b.drop_last());
        let w = b.last();
        let line_evs = Seq::new(
            if w.0 <= w.1 { (w.1 - w.0) as nat } else { 0 },
            |k: int| Some(w.0 + k),
        );
        assert(window_events(a) + window_events(b.drop_last()) + line_evs + seq![None::<int>]
            =~= window_events(a) + (window_events(b.drop_last()) + line_evs + seq![None::<int>]));
    }
}

/// Once stopped, further steps change nothing.
proof fn lemma_run_stopped(
    rel: Seq<char>,
    lines: Seq<Seq<char>>,
    pattern: Seq<char>,
    max: nat,
    st: SearchState,
    evs: Seq<Option<int>>,
)
    requires
        st.stopped,
    ensures
        run_search(rel, lines, pattern, max, st, evs) == st,
    decreases evs.len(),
{
    if evs.len() > 0 {
        lemma_run_stopped(rel, lines, pattern, max, st, evs.drop_last());
    }
}

/// The text with trailing white space removed (`str::trim_end`).
pub open spec fn trimmed_end(s: Seq<char>) -> Seq<char> {
    s.take(s.len() - trailing_space(s))
}

/// The grep_files report: the output with trailing white space removed, or
/// a note that nothing matched.
pub fn grep_files_report(output: &str, pattern: &str) -> (r: String)
    ensures
        r@ == if output@.len() == 0 {
            "No matches found for pattern: "@ + pattern@
        } else {
            trimmed_end(output@)
        },
{
    if output.is_empty() {
        let mut m = copy_str("No matches found for pattern: ");
        push_str(&mut m, pattern);
        return m;
    }
    crate::text::trim_end_text(output)
}

// ---------------------------------------------------------------------------
// Reading the arguments of an fs_read tool call
// ---------------------------------------------------------------------------

/// `args[key]` as a non-negative integer, or `default` (`get_u64_or`).
pub open spec fn u64_or(args: JsonView, key: Seq<char>, default: u64) -> u64 {
    match view_get_u64(args, key) {
        Some(n) => n,
        None => default,
    }
}

/// `args[key]` as a string, or `default` (`get_str_or`).
pub open spec fn str_or(args: JsonView, key: Seq<char>, default: Seq<char>) -> Seq<char> {
    match view_get_str(args, key) {
        Some(s) => s,
        None => default,
    }
}

/// An fs_read tool call with its arguments read, as plain values.
pub enum ReadRequestView {
    Head { path: Seq<char>, lines: u64 },
    Tail { path: Seq<char>, lines: u64 },
    Lines { path: Seq<char>, start: u64, end: u64 },
    Grep { path: Seq<char>, pattern: Seq<char>, context_before: u64, context_after: u64 },
    DirList { path: Seq<char>, depth: u64, show_hidden: bool },
    GlobFiles { pattern: Seq<char>, path: Seq<char>, max_results: u64 },
    GrepFiles {
        pattern: Seq<char>,
        path: Seq<char>,
        file_pattern: Option<Seq<char>>,
        context_lines: u64,
        max_results: u64,
    },
}

/// The arguments of a file_lines call: the path, then the first and last
/// line, 1-indexed and in order.
pub open spec fn lines_request_of(args: JsonView) -> Result<ReadRequestView, Seq<char>> {
    match view_get_str(args, "path"@) {
        None => Err("Must provide path"@),
        Some(path) => match view_get_u64(args, "start"@) {
            None => Err(missing_param_msg("start"@)),
            Some(start) => match view_get_u64(args, "end"@) {
                None => Err(missing_param_msg("end"@)),
                Some(end) => if start == 0 {
                    Err("Line numbers are 1-indexed, start must be >= 1"@)
                } else if end < start {
                    Err("End line must be >= start line"@)
                } else {
                    Ok(ReadRequestView::Lines { path, start, end })
                },
            },
        },
    }
}

/// The request an fs_read tool call makes, or the message of the error
/// its arguments give; `Ok(None)` for a tool that is not an fs_read tool.
pub open spec fn read_request_of(name: Seq<char>, args: JsonView) -> Result<
    Option<ReadRequestView>,
    Seq<char>,
> {
    if name == FILE_HEAD_TOOL_NAME@ || name == FILE_TAIL_TOOL_NAME@ {
        match view_get_str(args, "path"@) {
            None => Err("Must provide path"@),
            Some(path) => {
                let lines = u64_or(args, "lines"@, 50);
                Ok(
                    Some(
                        if name == FILE_HEAD_TOOL_NAME@ {
                            ReadRequestView::Head { path, lines }
                        } else {
                            ReadRequestView::Tail { path, lines }
                        },
                    ),
                )
            },
        }
    } else if name == FILE_LINES_TOOL_NAME@ {
        match lines_request_of(args) {
            Ok(r) => Ok(Some(r)),
            Err(m) => Err(m),
        }
    } else if name == FILE_GREP_TOOL_NAME@ {
        match view_get_str(args, "path"@) {
            None => Err("Must provide path"@),
            Some(path) => match view_get_str(args, "pattern"@) {
                None => Err(missing_param_msg("pattern"@)),
                Some(pattern) => Ok(
                    Some(
                        ReadRequestView::Grep {
                            path,
                            pattern,
                            context_before: u64_or(args, "context_before"@, 2),
                            context_after: u64_or(args, "context_after"@, 2),
                        },
                    ),
                ),
            },
        }
    } else if name == DIR_LIST_TOOL_NAME@ {
        Ok(
            Some(
                ReadRequestView::DirList {
                    path: str_or(args, "path"@, "."@),
                    depth: u64_or(args, "depth"@, 1),
                    show_hidden: str_or(args, "show_hidden"@, "false"@) == "true"@,
                },
            ),
        )
    } else if name == GLOB_FILES_TOOL_NAME@ {
        match view_get_str(args, "pattern"@) {
            None => Err(missing_param_msg("pattern"@)),
            Some(pattern) => Ok(
                Some(
                    ReadRequestView::GlobFiles {
                        pattern,
                        path: str_or(args, "path"@, "."@),
                        max_results: u64_or(args, "max_results"@, 100),
                    },
                ),
            ),
        }
    } else if name == GREP_FILES_TOOL_NAME@ {
        match view_get_str(args, "pattern"@) {
            None => Err(missing_param_msg("pattern"@)),
            Some(pattern) => Ok(
                Some(
                    ReadRequestView::GrepFiles {
                        pattern,
                        path: str_or(args, "path"@, "."@),
                        file_pattern: view_get_str(args, "file_pattern"@),
                        context_lines: u64_or(args, "context_lines"@, 2),
                        max_results: u64_or(args, "max_results"@, 50),
                    },
                ),
            ),
        }
    } else {
        Ok(None)
    }
}

/// An fs_read tool call with its arguments read.
pub enum FsReadRequest {
    /// file_head: the first `lines` lines of a file.
    Head { path: String, lines: u64 },
    /// file_tail: the last `lines` lines of a file.
    Tail { path: String, lines: u64 },
    /// file_lines: lines `start` to `end` of a file, 1-indexed.
    Lines { path: String, start: u64, end: u64 },
    /// file_grep: the lines of a file matching `pattern`, with context.
    Grep { path: String, pattern: String, context_before: u64, context_after: u64 },
    /// dir_list: a directory tree `depth` levels deep.
    DirList { path: String, depth: u64, show_hidden: bool },
    /// glob_files: the files under `path` matching a glob.
    GlobFiles { pattern: String, path: String, max_results: u64 },
    /// grep_files: the lines of the files under `path` matching `pattern`.
    GrepFiles {
        pattern: String,
        path: String,
        file_pattern: Option<String>,
        context_lines: u64,
        max_results: u64,
    },
}

impl View for FsReadRequest {
    type V = ReadRequestView;

    open spec fn view(&self) -> ReadRequestView {
        match self {
            FsReadRequest::Head { path, lines } => ReadRequestView::Head { path: path@, lines: *lines },
            FsReadRequest::Tail { path, lines } => ReadRequestView::Tail { path: path@, lines: *lines },
            FsReadRequest::Lines { path, start, end } => ReadRequestView::Lines {
                path: path@,
                start: *start,
                end: *end,
            },
            FsReadRequest::Grep { path, pattern, context_before, context_after } =>
                ReadRequestView::Grep {
                path: path@,
                pattern: pattern@,
                context_before: *context_before,
                context_after: *context_after,
            },
            FsReadRequest::DirList { path, depth, show_hidden } => ReadRequestView::DirList {
                path: path@,
                depth: *depth,
                show_hidden: *show_hidden,
            },
            FsReadRequest::GlobFiles { pattern, path, max_results } => ReadRequestView::GlobFiles {
                pattern: pattern@,
                path: path@,
                max_results: *max_results,
            },
            FsReadRequest::GrepFiles { pattern, path, file_pattern, context_lines, max_results } =>
                ReadRequestView::GrepFiles {
                pattern: pattern@,
                path: path@,
                file_pattern: match file_pattern {
                    Some(f) => Some(f@),
                    None => None,
                },
                context_lines: *context_lines,
                max_results: *max_results,
            },
        }
    }
}

/// `args[key]` as a non-negative integer, or `default`.
fn get_u64_or(args: &Json, key: &str, default: u64) -> (r: u64)
    ensures
        r == u64_or(json_view(*args), key@, default),
{
    match args.get_u64(key) {
        Some(n) => n,
        None => default,
    }
}

/// `args[key]` as a string, or `default`.
fn get_str_or(args: &Json, key: &str, default: &str) -> (r: String)
    ensures
        r@ == str_or(json_view(*args), key@, default@),
{
    match args.get_str(key) {
        Some(s) => s,
        None => copy_str(default),
    }
}

/// An error about the arguments of a call.
fn invalid_input(msg: &str) -> (e: ToolError)
    ensures
        e.kind == ErrorKind::InvalidInput,
        e.message@ == msg@,
{
    ToolError::new(ErrorKind::InvalidInput, copy_str(msg))
}

/// The error for a missing parameter.
fn missing_param(name: &str) -> (e: ToolError)
    ensures
        e.kind == ErrorKind::InvalidInput,
        e.message@ == missing_param_msg(name@),
{
    let mut m = copy_str("Missing '");
    push_str(&mut m, name);
    push_str(&mut m, "' parameter");
    ToolError::new(ErrorKind::InvalidInput, m)
}

/// Reads the arguments of a file_lines call.
fn lines_request(args: &Json) -> (r: Result<FsReadRequest, ToolError>)
    ensures
        match r {
            Ok(q) => lines_request_of(json_view(*args)) == Ok::<ReadRequestView, Seq<char>>(q@),
            Err(e) => e.kind == ErrorKind::InvalidInput && lines_request_of(json_view(*args))
                == Err::<ReadRequestView, Seq<char>>(e.message@),
        },
{
    let path = match args.get_str("path") {
        Some(p) => p,
        None => return Err(invalid_input("Must provide path")),
    };
    let start = match args.get_u64("start") {
        Some(n) => n,
        None => return Err(missing_param("start")),
    };
    let end = match args.get_u64("end") {
        Some(n) => n,
        None => return Err(missing_param("end")),
    };
    if start == 0 {
        return Err(invalid_input("Line numbers are 1-indexed, start must be >= 1"));
    }
    if end < start {
        return Err(invalid_input("End line must be >= start line"));
    }
    Ok(FsReadRequest::Lines { path, start, end })
}

/// The request that a call of the fs_read tool `tool_name` makes, read
/// from its arguments (`read_request_of` gives the defaults and the
/// errors); `Ok(None)` when `tool_name` is not an fs_read tool.
pub fn fs_read_request(tool_name: &str, args: &Json) -> (r: Result<Option<FsReadRequest>, ToolError>)
    ensures
        match r {
            Ok(Some(q)) => read_request_of(tool_name@, json_view(*args)) == Ok::<
                Option<ReadRequestView>,
                Seq<char>,
            >(Some(q@)),
            Ok(None) => read_request_of(tool_name@, json_view(*args)) == Ok::<
                Option<ReadRequestView>,
                Seq<char>,
            >(None),
            Err(e) => e.kind == ErrorKind::InvalidInput && read_request_of(
                tool_name@,
                json_view(*args),
            ) == Err::<Option<ReadRequestView>, Seq<char>>(e.message@),
        },
{
    let is_head = crate::text::str_eq(tool_name, FILE_HEAD_TOOL_NAME);
    if is_head || crate::text::str_eq(tool_name, FILE_TAIL_TOOL_NAME) {
        let path = match args.get_str("path") {
            Some(p) => p,
            None => return Err(invalid_input("Must provide path")),
        };
        let lines = get_u64_or(args, "lines", 50);
        if is_head {
            Ok(Some(FsReadRequest::Head { path, lines }))
        } else {
            Ok(Some(FsReadRequest::Tail { path, lines }))
        }
    } else if crate::text::str_eq(tool_name, FILE_LINES_TOOL_NAME) {
        match lines_request(args) {
            Ok(q) => Ok(Some(q)),
            Err(e) => Err(e),
        }
    } else if crate::text::str_eq(tool_name, FILE_GREP_TOOL_NAME) {
        let path = match args.get_str("path") {
            Some(p) => p,
            None => return Err(invalid_input("Must provide path")),
        };
        let pattern = match args.get_str("pattern") {
            Some(p) => p,
            None => return Err(missing_param("pattern")),
        };
        Ok(
            Some(
                FsReadRequest::Grep {
                    path,
                    pattern,
                    context_before: get_u64_or(args, "context_before", 2),
                    context_after: get_u64_or(args, "context_after", 2),
                },
            ),
        )
    } else if crate::text::str_eq(tool_name, DIR_LIST_TOOL_NAME) {
        let path = get_str_or(args, "path", ".");
        let depth = get_u64_or(args, "depth", 1);
        let shown = get_str_or(args, "show_hidden", "false");
        let show_hidden = crate::text::str_eq(shown.as_str(), "true");
        Ok(Some(FsReadRequest::DirList { path, depth, show_hidden }))
    } else if crate::text::str_eq(tool_name, GLOB_FILES_TOOL_NAME) {
        let pattern = match args.get_str("pattern") {
            Some(p) => p,
            None => return Err(missing_param("pattern")),
        };
        let path = get_str_or(args, "path", ".");
        let max_results = get_u64_or(args, "max_results", 100);
        Ok(Some(FsReadRequest::GlobFiles { pattern, path, max_results }))
    } else if crate::text::str_eq(tool_name, GREP_FILES_TOOL_NAME) {
        let pattern = match args.get_str("pattern") {
            Some(p) => p,
            None => return Err(missing_param("pattern")),
        };
        let path = get_str_or(args, "path", ".");
        let file_pattern = args.get_str("file_pattern");
        let context_lines = get_u64_or(args, "context_lines", 2);
        let max_results = get_u64_or(args, "max_results", 50);
        Ok(
            Some(
                FsReadRequest::GrepFiles {
                    pattern,
                    path,
                    file_pattern,
                    context_lines,
                    max_results,
                },
            ),
        )
    } else {
        Ok(None)
    }
}


/// All of the file reading tools in API form, in the order of their definitions.
pub fn all_fs_read_tools_to_api_format() -> (r: Vec<Json>)
    ensures
        exists|defs: Seq<BuiltinToolDef>|
            table_of(defs) == fs_read_table() && jsons_view(r@) == defs.map_values(
                |d: BuiltinToolDef| def_api_json(d),
            ),
{
    let defs = fs_read_tool_defs();
    let r = defs_to_api_format(&defs);
    assert(table_of(defs@) == fs_read_table());
    r
}

} // verus!
