//! The caller's description of one query.

use vstd::prelude::*;

verus! {

/// What a caller submits: the message and every option of the run.
#[derive(Clone, Debug)]
pub struct QueryConfig {
    pub message: String,
    pub model: Option<String>,
    /// Path of an MCP server configuration file.
    pub mcp_config: Option<String>,
    pub system_prompt: Option<String>,
    /// A prior session to continue; used only when `resume` is set.
    pub session_id: Option<String>,
    pub resume: bool,
    /// Engine selector; see `Engine::from_selector`.
    pub engine: Option<String>,
    /// Bound on agentic turns.
    pub max_turns: Option<u32>,
    /// Tool allow-list: `None` allows every tool, an empty string none.
    pub tools: Option<String>,
    /// Use only the servers of `mcp_config`, ignoring ambient configuration.
    pub strict_mcp: bool,
    pub permission_mode: Option<String>,
    /// Working directory of the child process.
    pub cwd: Option<String>,
}

/// The configuration with its working directory defaulted to the active
/// project's root.
pub open spec fn with_root_spec(c: QueryConfig, root: Option<String>) -> QueryConfig {
    if c.cwd is None && root is Some {
        QueryConfig { cwd: root, ..c }
    } else {
        c
    }
}

impl QueryConfig {
    /// Fills in the working directory from the active project's root when the
    /// caller gave none; an explicit directory is kept.
    pub fn with_project_root(self, root: Option<String>) -> (r: QueryConfig)
        ensures
            r == with_root_spec(self, root),
    {
        let mut c = self;
        if c.cwd.is_none() && root.is_some() {
            c.cwd = root;
        }
        c
    }
}

} // verus!
