//! Application state: the list of known contexts kept in `state.json`, the
//! layout of the chibi directory, and the bookkeeping done on that list.
//! Reading and writing the files themselves is left to the caller.

use vstd::prelude::*;

use crate::error::{ErrorKind, ToolError};
use crate::text::{copy_str, push_str, str_eq};
use crate::tools::coding_tools::spec_join_path;
use crate::tools::flow::{
    flow_tool_metadata, spec_flow_tool_metadata, CALL_AGENT_TOOL_NAME, CALL_USER_TOOL_NAME,
};
use crate::tools::registry::Tool;
use crate::tools::ToolMetadata;
use super::entries::now_timestamp;

verus! {

/// A known context as recorded in `state.json`.
#[derive(Debug)]
pub struct ContextEntry {
    pub name: String,
    /// When the context was created (seconds since the epoch).
    pub created_at: u64,
    /// When the context was last used.
    pub last_activity_at: u64,
    /// Destroy the context at this time; 0 for never.
    pub destroy_at: u64,
    /// Destroy the context after this many seconds without activity; 0 for
    /// never.
    pub destroy_after_seconds_inactive: u64,
}

impl ContextEntry {
    /// A context created at `created_at`, last active then, with no destroy
    /// settings.
    pub fn with_created_at(name: &str, created_at: u64) -> (r: ContextEntry)
        ensures
            r.name@ == name@,
            r.created_at == created_at,
            r.last_activity_at == created_at,
            r.destroy_at == 0,
            r.destroy_after_seconds_inactive == 0,
    {
        ContextEntry {
            name: copy_str(name),
            created_at,
            last_activity_at: created_at,
            destroy_at: 0,
            destroy_after_seconds_inactive: 0,
        }
    }
}

/// The contents of `state.json`: the known contexts.
#[derive(Debug)]
pub struct ContextState {
    pub contexts: Vec<ContextEntry>,
}

/// The application state: the known contexts and the directories of the
/// chibi home.
#[derive(Debug)]
pub struct AppState {
    pub state: ContextState,
    pub chibi_dir: String,
    pub state_path: String,
    pub contexts_dir: String,
    pub prompts_dir: String,
    pub plugins_dir: String,
}

/// `base.join(p)` for paths held as text.
pub open spec fn join(base: Seq<char>, p: Seq<char>) -> Seq<char> {
    spec_join_path(base, p)
}

/// Joins a path onto a base path (`Path::join`): an absolute path replaces
/// the base, a relative one is appended after a separator.
pub fn join_path(base: &str, p: &str) -> (r: String)
    ensures
        r@ == join(base@, p@),
{
    crate::tools::coding_tools::resolve_path(base, p)
}

/// Path computations for context directories and files.
pub trait StatePaths {
    /// The contexts directory root, as text.
    spec fn spec_contexts_dir(&self) -> Seq<char>;

    /// The contexts directory root.
    fn contexts_dir(&self) -> (r: &String)
        ensures
            r@ == self.spec_contexts_dir(),
    ;

    /// Path to a context's directory.
    fn context_dir(&self, name: &str) -> (r: String)
        ensures
            r@ == join(self.spec_contexts_dir(), name@),
    {
        join_path(self.contexts_dir().as_str(), name)
    }

    /// Path to a file in a context's directory.
    fn context_path(&self, name: &str, file: &str) -> (r: String)
        ensures
            r@ == join(join(self.spec_contexts_dir(), name@), file@),
    {
        let dir = self.context_dir(name);
        join_path(dir.as_str(), file)
    }

    /// Path to `context.jsonl`.
    fn context_file(&self, name: &str) -> (r: String)
        ensures
            r@ == join(join(self.spec_contexts_dir(), name@), "context.jsonl"@),
    {
        self.context_path(name, "context.jsonl")
    }

    /// Path to the old `context.json` format (for migration).
    fn context_file_old(&self, name: &str) -> (r: String)
        ensures
            r@ == join(join(self.spec_contexts_dir(), name@), "context.json"@),
    {
        self.context_path(name, "context.json")
    }

    /// Path to the context metadata file.
    fn context_meta_file(&self, name: &str) -> (r: String)
        ensures
            r@ == join(join(self.spec_contexts_dir(), name@), "context_meta.json"@),
    {
        self.context_path(name, "context_meta.json")
    }

    /// Path to the legacy JSONL transcript.
    fn transcript_jsonl_file(&self, name: &str) -> (r: String)
        ensures
            r@ == join(join(self.spec_contexts_dir(), name@), "transcript.jsonl"@),
    {
        self.context_path(name, "transcript.jsonl")
    }

    /// Path to the partitioned transcript directory.
    fn transcript_dir(&self, name: &str) -> (r: String)
        ensures
            r@ == join(join(self.spec_contexts_dir(), name@), "transcript"@),
    {
        self.context_path(name, "transcript")
    }

    /// Path to the dirty marker: a dirty context has a stale prefix (anchor
    /// and system prompt) that needs rebuilding.
    fn dirty_marker_file(&self, name: &str) -> (r: String)
        ensures
            r@ == join(join(self.spec_contexts_dir(), name@), ".dirty"@),
    {
        self.context_path(name, ".dirty")
    }

    /// Path to the summary file.
    fn summary_file(&self, name: &str) -> (r: String)
        ensures
            r@ == join(join(self.spec_contexts_dir(), name@), "summary.md"@),
    {
        self.context_path(name, "summary.md")
    }

    /// Path to the inbox of messages from other contexts.
    fn inbox_file(&self, name: &str) -> (r: String)
        ensures
            r@ == join(join(self.spec_contexts_dir(), name@), "inbox.jsonl"@),
    {
        self.context_path(name, "inbox.jsonl")
    }

    /// Path to the tool cache directory of a context.
    fn tool_cache_dir(&self, name: &str) -> (r: String)
        ensures
            r@ == join(join(self.spec_contexts_dir(), name@), "tool_cache"@),
    {
        self.context_path(name, "tool_cache")
    }

    /// Path to a cached tool output file.
    fn cache_file(&self, name: &str, cache_id: &str) -> (r: String)
        ensures
            r@ == join(
                join(join(self.spec_contexts_dir(), name@), "tool_cache"@),
                cache_id@ + ".cache"@,
            ),
    {
        let dir = self.tool_cache_dir(name);
        let mut file = copy_str(cache_id);
        push_str(&mut file, ".cache");
        join_path(dir.as_str(), file.as_str())
    }

    /// Path to a cache metadata file.
    fn cache_meta_file(&self, name: &str, cache_id: &str) -> (r: String)
        ensures
            r@ == join(
                join(join(self.spec_contexts_dir(), name@), "tool_cache"@),
                cache_id@ + ".meta.json"@,
            ),
    {
        let dir = self.tool_cache_dir(name);
        let mut file = copy_str(cache_id);
        push_str(&mut file, ".meta.json");
        join_path(dir.as_str(), file.as_str())
    }

    /// Path to a context's system prompt file.
    fn context_prompt_file(&self, context_name: &str) -> (r: String)
        ensures
            r@ == join(join(self.spec_contexts_dir(), context_name@), "system_prompt.md"@),
    {
        self.context_path(context_name, "system_prompt.md")
    }

    /// Path to a context's todos file.
    fn todos_file(&self, context_name: &str) -> (r: String)
        ensures
            r@ == join(join(self.spec_contexts_dir(), context_name@), "todos.md"@),
    {
        self.context_path(context_name, "todos.md")
    }

    /// Path to a context's goals file.
    fn goals_file(&self, context_name: &str) -> (r: String)
        ensures
            r@ == join(join(self.spec_contexts_dir(), context_name@), "goals.md"@),
    {
        self.context_path(context_name, "goals.md")
    }

    /// Path to a context's local config file.
    fn local_config_file(&self, context_name: &str) -> (r: String)
        ensures
            r@ == join(join(self.spec_contexts_dir(), context_name@), "local.toml"@),
    {
        self.context_path(context_name, "local.toml")
    }
}

impl StatePaths for AppState {
    open spec fn spec_contexts_dir(&self) -> Seq<char> {
        self.contexts_dir@
    }

    fn contexts_dir(&self) -> (r: &String) {
        &self.contexts_dir
    }
}

/// The names of the known contexts, in order.
pub open spec fn context_names(cs: Seq<ContextEntry>) -> Seq<Seq<char>> {
    cs.map_values(|e: ContextEntry| e.name@)
}

/// The position of the first known context named `name`.
pub open spec fn entry_position(cs: Seq<ContextEntry>, name: Seq<char>) -> Option<int> {
    if exists|i: int| 0 <= i < cs.len() && #[trigger] cs[i].name@ == name {
        Some(
            choose|i: int|
                0 <= i < cs.len() && #[trigger] cs[i].name@ == name && forall|j: int|
                    0 <= j < i ==> cs[j].name@ != name,
        )
    } else {
        None
    }
}

/// The position of the first known context named `name`.
fn find_entry(cs: &Vec<ContextEntry>, name: &str) -> (r: Option<usize>)
    ensures
        match r {
            Some(i) => i < cs@.len() && cs@[i as int].name@ == name@ && entry_position(cs@, name@)
                == Some(i as int),
            None => entry_position(cs@, name@) is None,
        },
{
    let n = cs.len();
    let mut i: usize = 0;
    while i < n
        invariant
            n == cs@.len(),
            i <= n,
            forall|j: int| 0 <= j < i ==> cs@[j].name@ != name@,
        decreases n - i,
    {
        if str_eq(cs[i].name.as_str(), name) {
            proof {
                let k = choose|k: int|
                    0 <= k < cs@.len() && #[trigger] cs@[k].name@ == name@ && forall|j: int|
                        0 <= j < k ==> cs@[j].name@ != name@;
                assert(cs@[i as int].name@ == name@);
                if k < i {
                    assert(cs@[k].name@ != name@);
                }
                if k > i {
                    assert(cs@[i as int].name@ != name@);
                }
            }
            return Some(i);
        }
        i = i + 1;
    }
    None
}

impl AppState {
    /// The state of a chibi home at `chibi_dir` with no known contexts yet:
    /// contexts, prompts and plugins directories, and `state.json`, inside it.
    pub fn from_dir(chibi_dir: &str) -> (r: AppState)
        ensures
            r.chibi_dir@ == chibi_dir@,
            r.contexts_dir@ == join(chibi_dir@, "contexts"@),
            r.prompts_dir@ == join(chibi_dir@, "prompts"@),
            r.plugins_dir@ == join(chibi_dir@, "plugins"@),
            r.state_path@ == join(chibi_dir@, "state.json"@),
            r.state.contexts@.len() == 0,
    {
        AppState {
            state: ContextState { contexts: Vec::new() },
            chibi_dir: copy_str(chibi_dir),
            state_path: join_path(chibi_dir, "state.json"),
            contexts_dir: join_path(chibi_dir, "contexts"),
            prompts_dir: join_path(chibi_dir, "prompts"),
            plugins_dir: join_path(chibi_dir, "plugins"),
        }
    }

    /// The names of the known contexts (`state.json` is the single source of
    /// truth, kept in step with the filesystem at startup).
    pub fn list_contexts(&self) -> (r: Vec<String>)
        ensures
            r@.map_values(|x: String| x@) == context_names(self.state.contexts@),
    {
        let cs = &self.state.contexts;
        let mut out: Vec<String> = Vec::new();
        let n = cs.len();
        let mut i: usize = 0;
        while i < n
            invariant
                n == cs@.len(),
                cs@ == self.state.contexts@,
                i <= n,
                out@.map_values(|x: String| x@) =~= context_names(cs@).take(i as int),
            decreases n - i,
        {
            let ghost before = out@.map_values(|x: String| x@);
            out.push(copy_str(cs[i].name.as_str()));
            assert(out@.map_values(|x: String| x@) =~= before.push(cs@[i as int].name@));
            i = i + 1;
        }
        assert(context_names(cs@).take(n as int) =~= context_names(cs@));
        out
    }

    /// The recorded creation time of the context named `name`, if it is
    /// known.
    pub fn recorded_created_at(&self, name: &str) -> (r: Option<u64>)
        ensures
            r == match entry_position(self.state.contexts@, name@) {
                Some(i) => Some(self.state.contexts@[i].created_at),
                None => None,
            },
    {
        match find_entry(&self.state.contexts, name) {
            Some(i) => Some(self.state.contexts[i].created_at),
            None => None,
        }
    }

    /// The creation time of a context from `state.json`; the current time
    /// for a context not recorded there.
    pub fn get_context_created_at(&self, name: &str) -> (r: u64)
        ensures
            entry_position(self.state.contexts@, name@) matches Some(i) ==> r
                == self.state.contexts@[i].created_at,
    {
        match self.recorded_created_at(name) {
            Some(t) => t,
            None => now_timestamp(),
        }
    }

    /// Mark the context named `name` as active at time `now` and apply the
    /// given destroy settings; `false` when the context is not known.
    pub fn touch_context_at(
        &mut self,
        name: &str,
        now: u64,
        destroy_at: Option<u64>,
        destroy_after_seconds_inactive: Option<u64>,
    ) -> (r: bool)
        ensures
            r == (entry_position(old(self).state.contexts@, name@) is Some),
            final(self).chibi_dir == old(self).chibi_dir,
            final(self).contexts_dir == old(self).contexts_dir,
            final(self).state.contexts@.len() == old(self).state.contexts@.len(),
            forall|j: int|
                0 <= j < old(self).state.contexts@.len() && entry_position(
                    old(self).state.contexts@,
                    name@,
                ) != Some(j) ==> #[trigger] final(self).state.contexts@[j] == old(
                    self,
                ).state.contexts@[j],
            match entry_position(old(self).state.contexts@, name@) {
                Some(i) => {
                    let before = old(self).state.contexts@[i];
                    let after = final(self).state.contexts@[i];
                    &&& after.name == before.name
                    &&& after.created_at == before.created_at
                    &&& after.last_activity_at == now
                    &&& after.destroy_at == match destroy_at {
                        Some(t) => t,
                        None => before.destroy_at,
                    }
                    &&& after.destroy_after_seconds_inactive == match destroy_after_seconds_inactive {
                        Some(s) => s,
                        None => before.destroy_after_seconds_inactive,
                    }
                },
                None => true,
            },
    {
        match find_entry(&self.state.contexts, name) {
            Some(i) => {
                let mut cs = Vec::new();
                std::mem::swap(&mut cs, &mut self.state.contexts);
                let ghost before = cs@;
                let mut entry = cs.remove(i);
                entry.last_activity_at = now;
                if let Some(t) = destroy_at {
                    entry.destroy_at = t;
                }
                if let Some(s) = destroy_after_seconds_inactive {
                    entry.destroy_after_seconds_inactive = s;
                }
                cs.insert(i, entry);
                assert forall|j: int| 0 <= j < before.len() && j != i implies #[trigger] cs@[j]
                    == before[j] by {}
                self.state.contexts = cs;
                true
            },
            None => false,
        }
    }

    /// Mark the context named `name` as active now and apply the given
    /// destroy settings (`destroy_at`, `destroy_after_seconds_inactive`);
    /// `Ok(false)` when the context is not known.
    pub fn touch_context_with_destroy_settings(
        &mut self,
        name: &str,
        destroy_at: Option<u64>,
        destroy_after_seconds_inactive: Option<u64>,
    ) -> (r: Result<bool, ToolError>)
        ensures
            r matches Ok(found) && found == (entry_position(old(self).state.contexts@, name@) is Some),
            final(self).state.contexts@.len() == old(self).state.contexts@.len(),
            match entry_position(old(self).state.contexts@, name@) {
                Some(i) => {
                    let before = old(self).state.contexts@[i];
                    let after = final(self).state.contexts@[i];
                    &&& after.name == before.name
                    &&& after.created_at == before.created_at
                    &&& after.destroy_at == match destroy_at {
                        Some(t) => t,
                        None => before.destroy_at,
                    }
                    &&& after.destroy_after_seconds_inactive == match destroy_after_seconds_inactive {
                        Some(s) => s,
                        None => before.destroy_after_seconds_inactive,
                    }
                },
                None => final(self).state.contexts@ == old(self).state.contexts@,
            },
    {
        let now = now_timestamp();
        let found = self.touch_context_at(name, now, destroy_at, destroy_after_seconds_inactive);
        proof {
            if found == false {
                assert(self.state.contexts@ =~= old(self).state.contexts@);
            }
        }
        Ok(found)
    }

    /// Resolve a model name. Names in `models.toml` are aliases to model
    /// metadata, not to other names, so the name itself is the model.
    pub fn resolve_model_name(&self, model: &str) -> (r: String)
        ensures
            r@ == model@,
    {
        copy_str(model)
    }

    /// Check the configured fallback tool against the loaded tools: it must
    /// be a known tool (a loaded one, or call_agent or call_user) and a flow
    /// control tool.
    pub fn validate_config(&self, fallback_tool: &str, tools: &[Tool]) -> (r: Result<(), ToolError>)
        ensures
            fallback_valid(fallback_tool@, tools@) <==> r is Ok,
            r matches Err(e) ==> e.kind == ErrorKind::InvalidInput && e.message@ == if !fallback_known(
                fallback_tool@,
                tools@,
            ) {
                "fallback_tool '"@ + fallback_tool@ + "' not found"@
            } else {
                "fallback_tool '"@ + fallback_tool@ + "' must have flow_control=true metadata"@
            },
    {
        let meta = metadata_in(tools, fallback_tool);
        let is_builtin = str_eq(fallback_tool, CALL_AGENT_TOOL_NAME) || str_eq(
            fallback_tool,
            CALL_USER_TOOL_NAME,
        );
        let in_plugins = tool_named(tools, fallback_tool).is_some();
        if !is_builtin && !in_plugins {
            let mut msg = copy_str("fallback_tool '");
            push_str(&mut msg, fallback_tool);
            push_str(&mut msg, "' not found");
            return Err(ToolError::new(ErrorKind::InvalidInput, msg));
        }
        if !meta.flow_control {
            let mut msg = copy_str("fallback_tool '");
            push_str(&mut msg, fallback_tool);
            push_str(&mut msg, "' must have flow_control=true metadata");
            return Err(ToolError::new(ErrorKind::InvalidInput, msg));
        }
        Ok(())
    }
}

/// The position of the first tool named `name` in `tools`.
pub open spec fn tool_position(tools: Seq<Tool>, name: Seq<char>) -> Option<int> {
    if exists|i: int| 0 <= i < tools.len() && #[trigger] tools[i].name@ == name {
        Some(
            choose|i: int|
                0 <= i < tools.len() && #[trigger] tools[i].name@ == name && forall|j: int|
                    0 <= j < i ==> tools[j].name@ != name,
        )
    } else {
        None
    }
}

/// The metadata of the tool named `name`: the first loaded tool of that
/// name, else the flow tool of that name.
pub open spec fn metadata_among(tools: Seq<Tool>, name: Seq<char>) -> ToolMetadata {
    match tool_position(tools, name) {
        Some(i) => tools[i].metadata,
        None => spec_flow_tool_metadata(name),
    }
}

/// The fallback tool is known: built in, or loaded.
pub open spec fn fallback_known(name: Seq<char>, tools: Seq<Tool>) -> bool {
    name == CALL_AGENT_TOOL_NAME@ || name == CALL_USER_TOOL_NAME@ || tool_position(tools, name) is Some
}

/// The fallback tool is known and controls the flow.
pub open spec fn fallback_valid(name: Seq<char>, tools: Seq<Tool>) -> bool {
    fallback_known(name, tools) && metadata_among(tools, name).flow_control
}

/// The position of the first tool named `name` in `tools`.
fn tool_named(tools: &[Tool], name: &str) -> (r: Option<usize>)
    ensures
        match r {
            Some(i) => i < tools@.len() && tool_position(tools@, name@) == Some(i as int),
            None => tool_position(tools@, name@) is None,
        },
{
    let n = tools.len();
    let mut i: usize = 0;
    while i < n
        invariant
            n == tools@.len(),
            i <= n,
            forall|j: int| 0 <= j < i ==> tools@[j].name@ != name@,
        decreases n - i,
    {
        if str_eq(tools[i].name.as_str(), name) {
            proof {
                let k = choose|k: int|
                    0 <= k < tools@.len() && #[trigger] tools@[k].name@ == name@ && forall|j: int|
                        0 <= j < k ==> tools@[j].name@ != name@;
                assert(tools@[i as int].name@ == name@);
                if k < i {
                    assert(tools@[k].name@ != name@);
                }
                if k > i {
                    assert(tools@[i as int].name@ != name@);
                }
            }
            return Some(i);
        }
        i = i + 1;
    }
    None
}

/// The metadata of the tool named `name` among `tools`.
fn metadata_in(tools: &[Tool], name: &str) -> (r: ToolMetadata)
    ensures
        r == metadata_among(tools@, name@),
{
    match tool_named(tools, name) {
        Some(i) => tools[i].metadata,
        None => flow_tool_metadata(name),
    }
}

// ---------------------------------------------------------------------------
// Loading
// ---------------------------------------------------------------------------

/// The chibi home directory: the override given (the `--home` flag), else
/// `CHIBI_HOME`, else `.chibi` in the user's home directory.
pub open spec fn chibi_dir_of(
    home_override: Option<Seq<char>>,
    chibi_home: Option<Seq<char>>,
    user_home: Option<Seq<char>>,
) -> Option<Seq<char>> {
    match home_override {
        Some(p) => Some(p),
        None => match chibi_home {
            Some(p) => Some(p),
            None => match user_home {
                Some(h) => Some(join(h, ".chibi"@)),
                None => None,
            },
        },
    }
}

/// The plain value of an optional string slice.
pub open spec fn opt_view(o: Option<&str>) -> Option<Seq<char>> {
    match o {
        Some(s) => Some(s@),
        None => None,
    }
}

/// The chibi home directory (see `chibi_dir_of`); a `NotFound` error
/// (`Home directory not found`) when neither is given and the user's home
/// directory is unknown.
pub fn resolve_chibi_dir(
    home_override: Option<&str>,
    chibi_home: Option<&str>,
    user_home: Option<&str>,
) -> (r: Result<String, ToolError>)
    ensures
        match chibi_dir_of(opt_view(home_override), opt_view(chibi_home), opt_view(user_home)) {
            Some(d) => r matches Ok(s) && s@ == d,
            None => r matches Err(e) && e.kind == ErrorKind::NotFound && e.message@
                == "Home directory not found"@,
        },
{
    match home_override {
        Some(p) => Ok(copy_str(p)),
        None => match chibi_home {
            Some(p) => Ok(copy_str(p)),
            None => match user_home {
                Some(h) => Ok(join_path(h, ".chibi")),
                None => Err(ToolError::new(ErrorKind::NotFound, copy_str("Home directory not found"))),
            },
        },
    }
}

/// Checks the configured VFS backend: only `local` is built in.
pub fn check_vfs_backend(backend: &str) -> (r: Result<(), ToolError>)
    ensures
        r is Ok <==> backend@ == "local"@,
        r matches Err(e) ==> e.kind == ErrorKind::InvalidInput && e.message@
            == "unsupported VFS backend '"@ + backend@ + "' (only 'local' is built in)"@,
{
    if str_eq(backend, "local") {
        Ok(())
    } else {
        let mut m = copy_str("unsupported VFS backend '");
        push_str(&mut m, backend);
        push_str(&mut m, "' (only 'local' is built in)");
        Err(ToolError::new(ErrorKind::InvalidInput, m))
    }
}

/// Where a context is loaded from.
#[derive(Debug, Clone, Copy, PartialEq, Eq, Structural)]
pub enum ContextSource {
    /// The JSONL format: the partitioned transcript (its partition index or
    /// `active.jsonl`) or `context.jsonl`.
    Jsonl,
    /// The old `context.json`, to be migrated.
    Migrate,
}

/// Where the context `name` is loaded from, given which of its files
/// exist: the JSONL format when the partitioned transcript or
/// `context.jsonl` is there, else the old `context.json`; a `NotFound`
/// error (`Context '<name>' not found`) when none is.
pub fn context_source(
    name: &str,
    has_manifest: bool,
    has_active: bool,
    has_context_jsonl: bool,
    has_old_json: bool,
) -> (r: Result<ContextSource, ToolError>)
    ensures
        (has_manifest || has_active || has_context_jsonl) ==> (r matches Ok(s) && s
            == ContextSource::Jsonl),
        !(has_manifest || has_active || has_context_jsonl) && has_old_json ==> (r matches Ok(s)
            && s == ContextSource::Migrate),
        !(has_manifest || has_active || has_context_jsonl || has_old_json) ==> (r matches Err(e)
            && e.kind == ErrorKind::NotFound && e.message@ == "Context '"@ + name@ + "' not found"@),
{
    if has_manifest || has_active || has_context_jsonl {
        Ok(ContextSource::Jsonl)
    } else if has_old_json {
        Ok(ContextSource::Migrate)
    } else {
        let mut m = copy_str("Context '");
        push_str(&mut m, name);
        push_str(&mut m, "' not found");
        Err(ToolError::new(ErrorKind::NotFound, m))
    }
}

} // verus!
