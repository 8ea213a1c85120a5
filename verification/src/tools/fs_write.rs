//! fs_write tools: `write_file` and `file_edit`.
//!
//! The structured edit applied by `file_edit` is computed here on the text of
//! the file; reading and writing the file itself happens at the caller.

use vstd::prelude::*;
use super::schema::{def_api_json, defs_to_api_format};
use vstd::utf8::encode_utf8;

use crate::error::{is_error, ErrorKind, ToolError};
use crate::json::{json_view, jsons_view, view_get_str, view_get_u64, Json, JsonView};
use super::{has_def_named, table_names, table_of, BuiltinToolDef, DefSummary, ToolPropertyDef};
use crate::text::{
    contains_seq, copy_str, decimal, find_first, from_chars, is_first_match, join_chars, join_with,
    lemma_views_push, lines_of, push_decimal, push_str, slice_chars, split_lines, to_chars, views_of,
};

verus! {

pub const WRITE_FILE_TOOL_NAME: &'static str = "write_file";
pub const FILE_EDIT_TOOL_NAME: &'static str = "file_edit";

/// The summaries of the fs_write tool definitions.
pub open spec fn fs_write_table() -> Seq<DefSummary> {
    seq![
        DefSummary {
            name: "write_file"@,
            required: seq!["path"@, "content"@],
            summary_params: seq!["path"@],
            property_names: seq!["path"@, "content"@],
        },
        DefSummary {
            name: "file_edit"@,
            required: seq!["path"@, "operation"@],
            summary_params: seq!["path"@],
            property_names: seq!["path"@, "operation"@, "line_start"@, "line_end"@, "content"@, "find"@, "replace"@],
        },
    ]
}

/// All fs_write tool definitions.
pub fn fs_write_tool_defs() -> (r: Vec<BuiltinToolDef>)
    ensures
        table_of(r@) == fs_write_table(),
{
    let r = vec![
        BuiltinToolDef {
            name: "write_file",
            description: "Write content to a file. Creates the file if it doesn't exist, overwrites if it does. Requires user permission.",
            properties: vec![
                ToolPropertyDef {
                    name: "path",
                    prop_type: "string",
                    description: "Absolute or relative path to write to, or a vfs:/// URI for VFS storage",
                    default: None,
                },
                ToolPropertyDef {
                    name: "content",
                    prop_type: "string",
                    description: "Content to write to the file",
                    default: None,
                },
            ],
            required: vec!["path", "content"],
            summary_params: vec!["path"],
        },
        BuiltinToolDef {
            name: "file_edit",
            description: "Edit a file using structured operations: replace_lines, insert_before, insert_after, delete_lines, replace_string. All line numbers are 1-indexed. Writes are atomic.",
            properties: vec![
                ToolPropertyDef {
                    name: "path",
                    prop_type: "string",
                    description: "Path to the file to edit",
                    default: None,
                },
                ToolPropertyDef {
                    name: "operation",
                    prop_type: "string",
                    description: "Edit operation: replace_lines | insert_before | insert_after | delete_lines | replace_string",
                    default: None,
                },
                ToolPropertyDef {
                    name: "line_start",
                    prop_type: "integer",
                    description: "First line number (1-indexed, required for line operations)",
                    default: None,
                },
                ToolPropertyDef {
                    name: "line_end",
                    prop_type: "integer",
                    description: "Last line number (1-indexed, inclusive, required for replace_lines and delete_lines)",
                    default: None,
                },
                ToolPropertyDef {
                    name: "content",
                    prop_type: "string",
                    description: "Text to insert or use as replacement (required for replace_lines, insert_before, insert_after)",
                    default: None,
                },
                ToolPropertyDef {
                    name: "find",
                    prop_type: "string",
                    description: "Exact string to find (required for replace_string)",
                    default: None,
                },
                ToolPropertyDef {
                    name: "replace",
                    prop_type: "string",
                    description: "Replacement string (required for replace_string)",
                    default: None,
                },
            ],
            required: vec!["path", "operation"],
            summary_params: vec!["path"],
        },
    ];
    assert(table_of(r@) =~~= fs_write_table());
    r
}


/// Check if a tool name belongs to the fs_write group.
pub fn is_fs_write_tool(name: &str) -> (r: bool)
    ensures
        r == table_names(fs_write_table()).contains(name@),
{
    has_def_named(&fs_write_tool_defs(), name)
}

// === Edit operations ===

/// One structured edit of a text file. Line numbers are 1-indexed.
pub enum EditOperation {
    ReplaceLines { start: usize, end: usize, content: String },
    InsertBefore { line: usize, content: String },
    InsertAfter { line: usize, content: String },
    DeleteLines { start: usize, end: usize },
    ReplaceString { find: String, replace: String },
}

/// The line numbers of `op` that are subtracted from (the first line of a
/// range, the line to insert before) are at least 1, and the byte lengths of
/// a replacement's strings fit in a `usize`.
pub open spec fn edit_preconditions(op: EditOperation) -> bool {
    match op {
        EditOperation::ReplaceLines { start, .. } => start >= 1,
        EditOperation::InsertBefore { line, .. } => line >= 1,
        EditOperation::DeleteLines { start, .. } => start >= 1,
        EditOperation::ReplaceString { find, replace } => encode_utf8(find@).len() <= usize::MAX
            && encode_utf8(replace@).len() <= usize::MAX,
        _ => true,
    }
}

// === Messages ===

/// Message for a line number past the end of the file.
pub open spec fn line_out_of_bounds_msg(line: nat, total: nat) -> Seq<char> {
    "Line "@ + decimal(line) + " is out of bounds (file has "@ + decimal(total) + " lines)"@
}

/// Message for a range whose end precedes its start.
pub open spec fn range_order_msg(start: nat, end: nat) -> Seq<char> {
    "line_end ("@ + decimal(end) + ") must be >= line_start ("@ + decimal(start) + ")"@
}

/// Message for a range that ends past the end of the file.
pub open spec fn range_bounds_msg(end: nat, total: nat) -> Seq<char> {
    "line_end "@ + decimal(end) + " is out of bounds (file has "@ + decimal(total) + " lines)"@
}

/// The summary of a line-based edit.
pub open spec fn edit_summary(path: Seq<char>, count: nat) -> Seq<char> {
    "Edited "@ + path + " ("@ + decimal(count) + " lines)"@
}

/// The summary of a string replacement (lengths in UTF-8 bytes).
pub open spec fn replace_summary(path: Seq<char>, find: Seq<char>, replace: Seq<char>) -> Seq<
    char,
> {
    "Replaced string in "@ + path + " ("@ + decimal(encode_utf8(find).len()) + " → "@ + decimal(
        encode_utf8(replace).len(),
    ) + " bytes)"@
}

/// The `Debug` rendering of a string (quoted and escaped).
pub uninterp spec fn debug_repr(s: Seq<char>) -> Seq<char>;

/// `format!("{:?}", s)`: the quoted, escaped rendering of a string. The
/// result is named by `debug_repr` and depends on `s` alone.
#[verifier::external_body]
fn debug_string(s: &str) -> (r: String)
    ensures
        r@ == debug_repr(s@),
{
    format!("{:?}", s)
}

/// Message for a `replace_string` whose text does not occur in the file.
pub open spec fn not_found_msg(find: Seq<char>) -> Seq<char> {
    "String not found in file: "@ + debug_repr(find)
}

// === Validation ===

/// Checks that a single 1-indexed line number lies within a file of `total` lines.
pub fn validate_line_number(line: usize, total: usize) -> (r: Result<(), ToolError>)
    ensures
        r is Ok <==> line <= total,
        line > total ==> is_error(
            r,
            ErrorKind::InvalidInput,
            line_out_of_bounds_msg(line as nat, total as nat),
        ),
{
    if line > total {
        let mut m = String::new();
        push_str(&mut m, "Line ");
        push_decimal(&mut m, line as u64);
        push_str(&mut m, " is out of bounds (file has ");
        push_decimal(&mut m, total as u64);
        push_str(&mut m, " lines)");
        return Err(ToolError::new(ErrorKind::InvalidInput, m));
    }
    Ok(())
}

/// Checks that a 1-indexed inclusive range `start..=end` is ordered and lies
/// within a file of `total` lines.
pub fn validate_line_range(start: usize, end: usize, total: usize) -> (r: Result<(), ToolError>)
    ensures
        r is Ok <==> start <= end && end <= total,
        end < start ==> is_error(
            r,
            ErrorKind::InvalidInput,
            range_order_msg(start as nat, end as nat),
        ),
        start <= end && end > total ==> is_error(
            r,
            ErrorKind::InvalidInput,
            range_bounds_msg(end as nat, total as nat),
        ),
{
    if end < start {
        let mut m = String::new();
        push_str(&mut m, "line_end (");
        push_decimal(&mut m, end as u64);
        push_str(&mut m, ") must be >= line_start (");
        push_decimal(&mut m, start as u64);
        push_str(&mut m, ")");
        return Err(ToolError::new(ErrorKind::InvalidInput, m));
    }
    if end > total {
        let mut m = String::new();
        push_str(&mut m, "line_end ");
        push_decimal(&mut m, end as u64);
        push_str(&mut m, " is out of bounds (file has ");
        push_decimal(&mut m, total as u64);
        push_str(&mut m, " lines)");
        return Err(ToolError::new(ErrorKind::InvalidInput, m));
    }
    Ok(())
}

// === Edit semantics ===

/// `lines` with `lines[from..to]` replaced by `ins`.
pub open spec fn splice<T>(lines: Seq<T>, from: int, to: int, ins: Seq<T>) -> Seq<T> {
    lines.take(from) + ins + lines.skip(to)
}

/// The text ends with a newline.
pub open spec fn ends_with_newline(s: Seq<char>) -> bool {
    s.len() > 0 && s.last() == '\n'
}

/// Lines joined with `'\n'`, with a final newline when the original text had
/// one or when the result is not empty.
pub open spec fn reassemble(lines: Seq<Seq<char>>, had_newline: bool) -> Seq<char> {
    let j = join_with(lines, seq!['\n']);
    if had_newline || j.len() > 0 {
        j.push('\n')
    } else {
        j
    }
}

/// `r` is the successful result of a line-based edit that leaves `after` as
/// the file's lines.
pub open spec fn line_edit_result(
    r: Result<(String, String), ToolError>,
    after: Seq<Seq<char>>,
    content: Seq<char>,
    path: Seq<char>,
) -> bool {
    match r {
        Ok((c, s)) => c@ == reassemble(after, ends_with_newline(content)) && s@ == edit_summary(
            path,
            after.len(),
        ),
        Err(_) => false,
    }
}

/// `r` is the successful result of replacing the first occurrence of `find`
/// in `content` by `replace`.
pub open spec fn replace_result(
    r: Result<(String, String), ToolError>,
    content: Seq<char>,
    find: Seq<char>,
    replace: Seq<char>,
    path: Seq<char>,
) -> bool {
    match r {
        Ok((c, s)) => (forall|i: int|
            is_first_match(content, find, i) ==> c@ == content.take(i) + replace + content.skip(
                i + find.len(),
            )) && s@ == replace_summary(path, find, replace),
        Err(_) => false,
    }
}

/// What applying `op` to a text with content `content` at `path` yields.
pub open spec fn apply_edit_post(
    op: EditOperation,
    content: Seq<char>,
    path: Seq<char>,
    r: Result<(String, String), ToolError>,
) -> bool {
    let ls = split_lines(content);
    let n = ls.len();
    match op {
        EditOperation::ReplaceLines { start, end, content: c } => if end < start {
            is_error(r, ErrorKind::InvalidInput, range_order_msg(start as nat, end as nat))
        } else if end > n {
            is_error(r, ErrorKind::InvalidInput, range_bounds_msg(end as nat, n))
        } else {
            line_edit_result(r, splice(ls, start - 1, end as int, split_lines(c@)), content, path)
        },
        EditOperation::InsertBefore { line, content: c } => if line > n {
            is_error(r, ErrorKind::InvalidInput, line_out_of_bounds_msg(line as nat, n))
        } else {
            line_edit_result(r, splice(ls, line - 1, line - 1, split_lines(c@)), content, path)
        },
        EditOperation::InsertAfter { line, content: c } => if line > n {
            is_error(r, ErrorKind::InvalidInput, line_out_of_bounds_msg(line as nat, n))
        } else {
            line_edit_result(r, splice(ls, line as int, line as int, split_lines(c@)), content, path)
        },
        EditOperation::DeleteLines { start, end } => if end < start {
            is_error(r, ErrorKind::InvalidInput, range_order_msg(start as nat, end as nat))
        } else if end > n {
            is_error(r, ErrorKind::InvalidInput, range_bounds_msg(end as nat, n))
        } else {
            line_edit_result(r, splice(ls, start - 1, end as int, Seq::empty()), content, path)
        },
        EditOperation::ReplaceString { find, replace } => if !contains_seq(content, find@) {
            is_error(r, ErrorKind::NotFound, not_found_msg(find@))
        } else {
            replace_result(r, content, find@, replace@, path)
        },
    }
}

/// Inserting after line `line` is inserting before the next line: for a
/// line inside the text, both give the same result.
pub proof fn law_insert_after_is_before_next(
    after: EditOperation,
    before: EditOperation,
    content: Seq<char>,
    path: Seq<char>,
    r1: Result<(String, String), ToolError>,
    r2: Result<(String, String), ToolError>,
)
    requires
        (after matches EditOperation::InsertAfter { line, .. } && line < split_lines(content).len()),
        (before matches EditOperation::InsertBefore { line, .. } && line == after->InsertAfter_line + 1),
        after->InsertAfter_content@ == before->InsertBefore_content@,
        apply_edit_post(after, content, path, r1),
        apply_edit_post(before, content, path, r2),
    ensures
        (r1 matches Ok((t1, s1)) && (r2 matches Ok((t2, s2)) && t1@ == t2@ && s1@ == s2@)),
{
}

/// Inserting after line `line` keeps the first `line` lines in place and
/// puts the new lines right after them: the edited text's lines are the
/// first `line` lines, the new lines, then the rest.
pub proof fn law_insert_after_keeps_leading_lines(
    op: EditOperation,
    content: Seq<char>,
    path: Seq<char>,
    r: Result<(String, String), ToolError>,
)
    requires
        (op matches EditOperation::InsertAfter { line, .. } && line <= split_lines(content).len()),
        apply_edit_post(op, content, path, r),
    ensures
        (r matches Ok((t, _)) && t@ == reassemble(
            split_lines(content).take(op->InsertAfter_line as int) + split_lines(
                op->InsertAfter_content@,
            ) + split_lines(content).skip(op->InsertAfter_line as int),
            ends_with_newline(content),
        )),
{
}

/// The lines `lines[..from]`, then `ins`, then `lines[to..]`.
fn splice_lines(lines: &Vec<Vec<char>>, from: usize, to: usize, ins: &Vec<Vec<char>>) -> (r: Vec<
    Vec<char>,
>)
    requires
        from <= to <= lines@.len(),
    ensures
        views_of(r@) == splice(views_of(lines@), from as int, to as int, views_of(ins@)),
{
    let ghost target = splice(views_of(lines@), from as int, to as int, views_of(ins@));
    let mut r: Vec<Vec<char>> = Vec::new();
    let mut i: usize = 0;
    while i < from
        invariant
            i <= from <= to <= lines@.len(),
            views_of(r@) == views_of(lines@).take(i as int),
        decreases from - i,
    {
        let l = &lines[i];
        let x = slice_chars(l.as_slice(), 0, l.len());
        let ghost old_r = r@;
        r.push(x);
        proof {
            assert(l@.subrange(0, l@.len() as int) =~= l@);
            lemma_views_push(old_r, x);
            assert(views_of(lines@).take(i + 1) =~= views_of(lines@).take(i as int).push(l@));
        }
        i = i + 1;
    }
    let mut k: usize = 0;
    while k < ins.len()
        invariant
            k <= ins@.len(),
            from <= to <= lines@.len(),
            views_of(r@) == views_of(lines@).take(from as int) + views_of(ins@).take(k as int),
        decreases ins@.len() - k,
    {
        let l = &ins[k];
        let x = slice_chars(l.as_slice(), 0, l.len());
        let ghost old_r = r@;
        r.push(x);
        proof {
            assert(l@.subrange(0, l@.len() as int) =~= l@);
            lemma_views_push(old_r, x);
            assert(views_of(ins@).take(k + 1) =~= views_of(ins@).take(k as int).push(l@));
            assert(views_of(r@) =~= views_of(lines@).take(from as int) + views_of(ins@).take(
                k + 1,
            ));
        }
        k = k + 1;
    }
    assert(views_of(ins@).take(ins@.len() as int) =~= views_of(ins@));
    let n = lines.len();
    let mut j: usize = to;
    while j < n
        invariant
            from <= to <= j <= n,
            n == lines@.len(),
            views_of(r@) == views_of(lines@).take(from as int) + views_of(ins@) + views_of(
                lines@,
            ).subrange(to as int, j as int),
        decreases n - j,
    {
        let l = &lines[j];
        let x = slice_chars(l.as_slice(), 0, l.len());
        let ghost old_r = r@;
        r.push(x);
        proof {
            assert(l@.subrange(0, l@.len() as int) =~= l@);
            lemma_views_push(old_r, x);
            assert(views_of(lines@).subrange(to as int, j + 1) =~= views_of(lines@).subrange(
                to as int,
                j as int,
            ).push(l@));
            assert(views_of(r@) =~= views_of(lines@).take(from as int) + views_of(ins@)
                + views_of(lines@).subrange(to as int, j + 1));
        }
        j = j + 1;
    }
    assert(views_of(lines@).subrange(to as int, n as int) =~= views_of(lines@).skip(to as int));
    r
}

/// Finishes a line-based edit: joins the lines back and writes the summary.
fn finish_line_edit(
    after: &Vec<Vec<char>>,
    had_newline: bool,
    display_path: &str,
) -> (r: (String, String))
    ensures
        r.0@ == reassemble(views_of(after@), had_newline),
        r.1@ == edit_summary(display_path@, after@.len()),
{
    let nl = vec!['\n'];
    assert(nl@ =~= seq!['\n']);
    let mut joined = join_chars(after, nl.as_slice());
    let ghost j = joined@;
    if had_newline || joined.len() > 0 {
        joined.push('\n');
    }
    assert(joined@ == reassemble(views_of(after@), had_newline));
    let new_content = from_chars(joined.as_slice());
    let mut summary = String::new();
    push_str(&mut summary, "Edited ");
    push_str(&mut summary, display_path);
    push_str(&mut summary, " (");
    push_decimal(&mut summary, after.len() as u64);
    push_str(&mut summary, " lines)");
    (new_content, summary)
}

/// Applies an edit operation to the text `content`, returning the new text
/// and a one-line summary of the change.
///
/// Line operations work on the lines of `content` as `str::lines` splits
/// them; the result is those lines joined with `'\n'`, followed by a newline
/// when the original ended with one or the result is not empty.
/// `replace_string` replaces the first occurrence only.
pub fn apply_edit(op: EditOperation, content: &str, display_path: &str) -> (r: Result<
    (String, String),
    ToolError,
>)
    requires
        edit_preconditions(op),
    ensures
        apply_edit_post(op, content@, display_path@, r),
        match op {
            EditOperation::InsertAfter { line, content: c } => line <= split_lines(content@).len()
                ==> match r {
                Ok((t, _)) => t@ == reassemble(
                    split_lines(content@).take(line as int) + split_lines(c@) + split_lines(
                        content@,
                    ).skip(line as int),
                    ends_with_newline(content@),
                ),
                Err(_) => false,
            },
            _ => true,
        },
{
    let cv = to_chars(content);
    let lines = lines_of(cv.as_slice());
    let had_newline = cv.len() > 0 && cv[cv.len() - 1] == '\n';
    proof {
        assert(had_newline == ends_with_newline(content@));
    }
    let n = lines.len();
    match op {
        EditOperation::ReplaceLines { start, end, content: c } => {
            let v = validate_line_range(start, end, n);
            if let Err(e) = v {
                return Err(e);
            }
            let cc = to_chars(c.as_str());
            let ins = lines_of(cc.as_slice());
            let after = splice_lines(&lines, start - 1, end, &ins);
            let res = finish_line_edit(&after, had_newline, display_path);
            proof {
                assert(views_of(lines@) == split_lines(content@));
                assert(views_of(ins@) == split_lines(c@));
                assert(views_of(after@) == splice(split_lines(content@), start - 1, end as int, split_lines(c@)));
                assert(line_edit_result(Ok(res), views_of(after@), content@, display_path@));
            }
            Ok(res)
        },
        EditOperation::InsertBefore { line, content: c } => {
            let v = validate_line_number(line, n);
            if let Err(e) = v {
                return Err(e);
            }
            let cc = to_chars(c.as_str());
            let ins = lines_of(cc.as_slice());
            let after = splice_lines(&lines, line - 1, line - 1, &ins);
            Ok(finish_line_edit(&after, had_newline, display_path))
        },
        EditOperation::InsertAfter { line, content: c } => {
            let v = validate_line_number(line, n);
            if let Err(e) = v {
                return Err(e);
            }
            let cc = to_chars(c.as_str());
            let ins = lines_of(cc.as_slice());
            let after = splice_lines(&lines, line, line, &ins);
            Ok(finish_line_edit(&after, had_newline, display_path))
        },
        EditOperation::DeleteLines { start, end } => {
            let v = validate_line_range(start, end, n);
            if let Err(e) = v {
                return Err(e);
            }
            let ins: Vec<Vec<char>> = Vec::new();
            let after = splice_lines(&lines, start - 1, end, &ins);
            proof {
                assert(views_of(ins@) =~= Seq::<Seq<char>>::empty());
            }
            Ok(finish_line_edit(&after, had_newline, display_path))
        },
        EditOperation::ReplaceString { find, replace } => {
            let fv = to_chars(find.as_str());
            match find_first(cv.as_slice(), fv.as_slice()) {
                None => {
                    let mut m = String::new();
                    push_str(&mut m, "String not found in file: ");
                    let d = debug_string(find.as_str());
                    push_str(&mut m, d.as_str());
                    Err(ToolError::new(ErrorKind::NotFound, m))
                },
                Some(i) => {
                    let rv = to_chars(replace.as_str());
                    let mut out = slice_chars(cv.as_slice(), 0, i);
                    let mut k: usize = 0;
                    while k < rv.len()
                        invariant
                            k <= rv@.len(),
                            out@ == cv@.take(i as int) + rv@.take(k as int),
                        decreases rv@.len() - k,
                    {
                        out.push(rv[k]);
                        proof {
                            assert(out@ =~= cv@.take(i as int) + rv@.take(k + 1));
                        }
                        k = k + 1;
                    }
                    let tail = slice_chars(cv.as_slice(), i + fv.len(), cv.len());
                    let mut t: usize = 0;
                    let ghost mid = out@;
                    while t < tail.len()
                        invariant
                            t <= tail@.len(),
                            out@ == mid + tail@.take(t as int),
                        decreases tail@.len() - t,
                    {
                        out.push(tail[t]);
                        proof {
                            assert(out@ =~= mid + tail@.take(t + 1));
                        }
                        t = t + 1;
                    }
                    proof {
                        assert(rv@.take(rv@.len() as int) =~= rv@);
                        assert(tail@.take(tail@.len() as int) =~= tail@);
                        assert(out@ =~= content@.take(i as int) + replace@ + content@.skip(
                            i + find@.len(),
                        ));
                        assert forall|j: int| is_first_match(content@, find@, j) implies j
                            == i by {
                            if j < i {
                                assert(!crate::text::matches_at(content@, find@, j));
                            } else if j > i {
                                assert(!crate::text::matches_at(content@, find@, i as int));
                            }
                        }
                    }
                    let new_content = from_chars(out.as_slice());
                    let mut summary = String::new();
                    push_str(&mut summary, "Replaced string in ");
                    push_str(&mut summary, display_path);
                    push_str(&mut summary, " (");
                    push_decimal(&mut summary, find.as_str().len() as u64);
                    push_str(&mut summary, " → ");
                    push_decimal(&mut summary, replace.as_str().len() as u64);
                    push_str(&mut summary, " bytes)");
                    Ok((new_content, summary))
                },
            }
        },
    }
}

// === Parameters ===

/// Message for a missing required parameter.
pub open spec fn missing_param_msg(name: Seq<char>) -> Seq<char> {
    "Missing '"@ + name + "' parameter"@
}

/// Message for a line number parameter that is zero.
pub open spec fn zero_line_msg(name: Seq<char>) -> Seq<char> {
    "'"@ + name + "' must be >= 1 (line numbers are 1-indexed)"@
}

/// The error, if any, of reading the string parameter `name` from `args`.
pub open spec fn str_param_error(args: JsonView, name: Seq<char>) -> Option<Seq<char>> {
    match view_get_str(args, name) {
        Some(_) => None,
        None => Some(missing_param_msg(name)),
    }
}

/// The error, if any, of reading the 1-indexed line parameter `name` from `args`.
pub open spec fn line_param_error(args: JsonView, name: Seq<char>) -> Option<Seq<char>> {
    match view_get_u64(args, name) {
        None => Some(missing_param_msg(name)),
        Some(n) => if n as usize == 0 {
            Some(zero_line_msg(name))
        } else {
            None
        },
    }
}

/// The line parameter `name` of `args` (meaningful when it has no error).
pub open spec fn line_param(args: JsonView, name: Seq<char>) -> usize {
    match view_get_u64(args, name) {
        Some(n) => n as usize,
        None => 0,
    }
}

/// The string parameter `name` of `args` (meaningful when it has no error).
pub open spec fn str_param(args: JsonView, name: Seq<char>) -> Seq<char> {
    match view_get_str(args, name) {
        Some(s) => s,
        None => Seq::empty(),
    }
}

/// Reads a required string parameter (`require_str_param`).
pub fn require_str_param(args: &Json, name: &str) -> (r: Result<String, ToolError>)
    ensures
        match r {
            Ok(s) => view_get_str(json_view(*args), name@) == Some(s@),
            Err(e) => str_param_error(json_view(*args), name@) == Some(e.message@) && e.kind
                == ErrorKind::InvalidInput,
        },
{
    match args.get_str(name) {
        Some(s) => Ok(s),
        None => {
            let mut m = String::new();
            push_str(&mut m, "Missing '");
            push_str(&mut m, name);
            push_str(&mut m, "' parameter");
            Err(ToolError::new(ErrorKind::InvalidInput, m))
        },
    }
}

/// Reads a required 1-indexed line number parameter.
pub fn require_line_param(args: &Json, name: &str) -> (r: Result<usize, ToolError>)
    ensures
        match r {
            Ok(n) => line_param_error(json_view(*args), name@) is None && n == line_param(
                json_view(*args),
                name@,
            ),
            Err(e) => line_param_error(json_view(*args), name@) == Some(e.message@) && e.kind
                == ErrorKind::InvalidInput,
        },
{
    match args.get_u64(name) {
        None => {
            let mut m = String::new();
            push_str(&mut m, "Missing '");
            push_str(&mut m, name);
            push_str(&mut m, "' parameter");
            Err(ToolError::new(ErrorKind::InvalidInput, m))
        },
        Some(n) => {
            let n = n as usize;
            if n == 0 {
                let mut m = String::new();
                push_str(&mut m, "'");
                push_str(&mut m, name);
                push_str(&mut m, "' must be >= 1 (line numbers are 1-indexed)");
                Err(ToolError::new(ErrorKind::InvalidInput, m))
            } else {
                Ok(n)
            }
        },
    }
}

/// Message for an unknown edit operation.
pub open spec fn unknown_operation_msg(op: Seq<char>) -> Seq<char> {
    "Unknown operation '"@ + op
        + "'. Valid: replace_lines, insert_before, insert_after, delete_lines, replace_string"@
}

/// The first error among `errs`, in order.
pub open spec fn first_error(errs: Seq<Option<Seq<char>>>) -> Option<Seq<char>>
    decreases errs.len(),
{
    if errs.len() == 0 {
        None
    } else if errs[0] is Some {
        errs[0]
    } else {
        first_error(errs.drop_first())
    }
}

/// `r` fails with the first of `errs` when there is one, and otherwise
/// satisfies `ok`.
pub open spec fn checked(
    r: Result<EditOperation, ToolError>,
    errs: Seq<Option<Seq<char>>>,
    ok: spec_fn(EditOperation) -> bool,
) -> bool {
    match first_error(errs) {
        Some(m) => is_error(r, ErrorKind::InvalidInput, m),
        None => match r {
            Ok(op) => ok(op),
            Err(_) => false,
        },
    }
}

/// What parsing the operation `op` with arguments `args` yields.
pub open spec fn parse_edit_post(op: Seq<char>, args: JsonView, r: Result<EditOperation, ToolError>) -> bool {
    let ls = "line_start"@;
    let le = "line_end"@;
    let ct = "content"@;
    if op == "replace_lines"@ {
        checked(
            r,
            seq![line_param_error(args, ls), line_param_error(args, le), str_param_error(args, ct)],
            |o: EditOperation|
                o matches EditOperation::ReplaceLines { start, end, content } && start
                    == line_param(args, ls) && end == line_param(args, le) && content@ == str_param(
                    args,
                    ct,
                ),
        )
    } else if op == "insert_before"@ {
        checked(
            r,
            seq![line_param_error(args, ls), str_param_error(args, ct)],
            |o: EditOperation|
                o matches EditOperation::InsertBefore { line, content } && line == line_param(
                    args,
                    ls,
                ) && content@ == str_param(args, ct),
        )
    } else if op == "insert_after"@ {
        checked(
            r,
            seq![line_param_error(args, ls), str_param_error(args, ct)],
            |o: EditOperation|
                o matches EditOperation::InsertAfter { line, content } && line == line_param(
                    args,
                    ls,
                ) && content@ == str_param(args, ct),
        )
    } else if op == "delete_lines"@ {
        checked(
            r,
            seq![line_param_error(args, ls), line_param_error(args, le)],
            |o: EditOperation|
                o matches EditOperation::DeleteLines { start, end } && start == line_param(
                    args,
                    ls,
                ) && end == line_param(args, le),
        )
    } else if op == "replace_string"@ {
        checked(
            r,
            seq![str_param_error(args, "find"@), str_param_error(args, "replace"@)],
            |o: EditOperation|
                o matches EditOperation::ReplaceString { find, replace } && find@ == str_param(
                    args,
                    "find"@,
                ) && replace@ == str_param(args, "replace"@),
        )
    } else {
        is_error(r, ErrorKind::InvalidInput, unknown_operation_msg(op))
    }
}

/// Parses the operation name and its parameters into an `EditOperation`.
pub fn parse_edit_operation(op: &str, args: &Json) -> (r: Result<EditOperation, ToolError>)
    ensures
        parse_edit_post(op@, json_view(*args), r),
        r matches Ok(o) ==> edit_preconditions(o) || o is ReplaceString,
{
    proof {
        reveal_with_fuel(first_error, 4);
    }
    if crate::text::str_eq(op, "replace_lines") {
        let start = match require_line_param(args, "line_start") {
            Ok(n) => n,
            Err(e) => return Err(e),
        };
        let end = match require_line_param(args, "line_end") {
            Ok(n) => n,
            Err(e) => return Err(e),
        };
        let content = match require_str_param(args, "content") {
            Ok(s) => s,
            Err(e) => return Err(e),
        };
        Ok(EditOperation::ReplaceLines { start, end, content })
    } else if crate::text::str_eq(op, "insert_before") {
        let line = match require_line_param(args, "line_start") {
            Ok(n) => n,
            Err(e) => return Err(e),
        };
        let content = match require_str_param(args, "content") {
            Ok(s) => s,
            Err(e) => return Err(e),
        };
        Ok(EditOperation::InsertBefore { line, content })
    } else if crate::text::str_eq(op, "insert_after") {
        let line = match require_line_param(args, "line_start") {
            Ok(n) => n,
            Err(e) => return Err(e),
        };
        let content = match require_str_param(args, "content") {
            Ok(s) => s,
            Err(e) => return Err(e),
        };
        Ok(EditOperation::InsertAfter { line, content })
    } else if crate::text::str_eq(op, "delete_lines") {
        let start = match require_line_param(args, "line_start") {
            Ok(n) => n,
            Err(e) => return Err(e),
        };
        let end = match require_line_param(args, "line_end") {
            Ok(n) => n,
            Err(e) => return Err(e),
        };
        Ok(EditOperation::DeleteLines { start, end })
    } else if crate::text::str_eq(op, "replace_string") {
        let find = match require_str_param(args, "find") {
            Ok(s) => s,
            Err(e) => return Err(e),
        };
        let replace = match require_str_param(args, "replace") {
            Ok(s) => s,
            Err(e) => return Err(e),
        };
        Ok(EditOperation::ReplaceString { find, replace })
    } else {
        let mut m = String::new();
        push_str(&mut m, "Unknown operation '");
        push_str(&mut m, op);
        push_str(
            &mut m,
            "'. Valid: replace_lines, insert_before, insert_after, delete_lines, replace_string",
        );
        Err(ToolError::new(ErrorKind::InvalidInput, m))
    }
}

// ---------------------------------------------------------------------------
// Which fs_write call is made
// ---------------------------------------------------------------------------

/// An fs_write tool call with its arguments read.
pub enum FsWriteRequest {
    /// write_file: write `content` to `path`.
    WriteFile { path: String, content: String },
    /// file_edit: apply `op` to the file at `path`.
    FileEdit { path: String, op: EditOperation },
}

/// The request that a call of the fs_write tool `tool_name` makes:
/// write_file needs `path` and `content`, file_edit needs `path`,
/// `operation` and the operation's parameters (`parse_edit_operation`);
/// a missing one gives its error, the first in that order. `None` when
/// `tool_name` is not an fs_write tool.
pub fn fs_write_request(tool_name: &str, args: &Json) -> (r: Option<Result<FsWriteRequest, ToolError>>)
    ensures
        tool_name@ == WRITE_FILE_TOOL_NAME@ ==> match r {
            Some(Ok(FsWriteRequest::WriteFile { path, content })) => str_param_error(
                json_view(*args),
                "path"@,
            ) is None && str_param_error(json_view(*args), "content"@) is None && path@ == str_param(
                json_view(*args),
                "path"@,
            ) && content@ == str_param(json_view(*args), "content"@),
            Some(Err(e)) => e.kind == ErrorKind::InvalidInput && Some(e.message@) == first_error(
                seq![
                    str_param_error(json_view(*args), "path"@),
                    str_param_error(json_view(*args), "content"@),
                ],
            ),
            _ => false,
        },
        tool_name@ == FILE_EDIT_TOOL_NAME@ ==> match r {
            Some(Ok(FsWriteRequest::FileEdit { path, op })) => str_param_error(
                json_view(*args),
                "path"@,
            ) is None && str_param_error(json_view(*args), "operation"@) is None && path@
                == str_param(json_view(*args), "path"@) && parse_edit_post(
                str_param(json_view(*args), "operation"@),
                json_view(*args),
                Ok::<EditOperation, ToolError>(op),
            ),
            Some(Err(e)) => e.kind == ErrorKind::InvalidInput && (Some(e.message@) == first_error(
                seq![
                    str_param_error(json_view(*args), "path"@),
                    str_param_error(json_view(*args), "operation"@),
                ],
            ) || (str_param_error(json_view(*args), "path"@) is None && str_param_error(
                json_view(*args),
                "operation"@,
            ) is None && parse_edit_post(
                str_param(json_view(*args), "operation"@),
                json_view(*args),
                Err::<EditOperation, ToolError>(e),
            ))),
            _ => false,
        },
        tool_name@ != WRITE_FILE_TOOL_NAME@ && tool_name@ != FILE_EDIT_TOOL_NAME@ ==> r is None,
{
    proof {
        reveal_strlit("write_file");
        reveal_strlit("file_edit");
        assert(WRITE_FILE_TOOL_NAME@.len() != FILE_EDIT_TOOL_NAME@.len());
        reveal_with_fuel(first_error, 3);
    }
    if crate::text::str_eq(tool_name, WRITE_FILE_TOOL_NAME) {
        let path = match require_str_param(args, "path") {
            Ok(p) => p,
            Err(e) => return Some(Err(e)),
        };
        let content = match require_str_param(args, "content") {
            Ok(c) => c,
            Err(e) => return Some(Err(e)),
        };
        Some(Ok(FsWriteRequest::WriteFile { path, content }))
    } else if crate::text::str_eq(tool_name, FILE_EDIT_TOOL_NAME) {
        let path = match require_str_param(args, "path") {
            Ok(p) => p,
            Err(e) => return Some(Err(e)),
        };
        let operation = match require_str_param(args, "operation") {
            Ok(o) => o,
            Err(e) => return Some(Err(e)),
        };
        match parse_edit_operation(operation.as_str(), args) {
            Ok(op) => Some(Ok(FsWriteRequest::FileEdit { path, op })),
            Err(e) => Some(Err(e)),
        }
    } else {
        None
    }
}

/// The reply to a successful write_file call: the path as shown and the
/// number of bytes written.
pub fn write_file_reply(shown_path: &str, content: &str) -> (r: String)
    ensures
        r@ == "File written successfully: "@ + shown_path@ + " ("@ + decimal(
            super::memory::byte_len(content@),
        ) + " bytes)"@,
{
    let mut m = copy_str("File written successfully: ");
    push_str(&mut m, shown_path);
    push_str(&mut m, " (");
    push_decimal(&mut m, content.len() as u64);
    push_str(&mut m, " bytes)");
    m
}


/// All of the file writing tools in API form, in the order of their definitions.
pub fn all_fs_write_tools_to_api_format() -> (r: Vec<Json>)
    ensures
        exists|defs: Seq<BuiltinToolDef>|
            table_of(defs) == fs_write_table() && jsons_view(r@) == defs.map_values(
                |d: BuiltinToolDef| def_api_json(d),
            ),
{
    let defs = fs_write_tool_defs();
    let r = defs_to_api_format(&defs);
    assert(table_of(defs@) == fs_write_table());
    r
}

} // verus!
