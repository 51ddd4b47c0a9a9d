//! The two supported agent engines and the host operating systems.

use vstd::prelude::*;
use crate::text::same_text;

verus! {

/// Which agent executable a query runs against.
#[derive(Clone, Copy, Debug, PartialEq, Eq, Structural)]
pub enum Engine {
    /// The default engine.
    Primary,
    /// The alternative engine, with its own flag vocabulary.
    Secondary,
}

/// The view of an optional string.
pub open spec fn opt_text(o: Option<String>) -> Option<Seq<char>> {
    match o {
        Some(s) => Some(s@),
        None => None,
    }
}

/// The engine that a selector names: the secondary engine, called
/// `secondary` or by its command name; the primary engine for anything else
/// or for no selector.
pub open spec fn engine_selected_by(sel: Option<Seq<char>>, secondary_command: Seq<char>) -> Engine {
    match sel {
        Some(s) => if s == "secondary"@ || s == secondary_command {
            Engine::Secondary
        } else {
            Engine::Primary
        },
        None => Engine::Primary,
    }
}

/// The tag that events and failures carry for an engine.
pub open spec fn engine_tag(e: Engine) -> Seq<char> {
    match e {
        Engine::Primary => "primary"@,
        Engine::Secondary => "secondary"@,
    }
}

impl Engine {
    /// Reads an engine selector.
    pub fn from_selector(sel: &Option<String>, names: &EngineNames) -> (r: Engine)
        ensures
            r == engine_selected_by(opt_text(*sel), names.secondary.command@),
    {
        match sel {
            Some(s) => {
                if same_text(s.as_str(), "secondary") || same_text(s.as_str(), names.secondary.command.as_str()) {
                    Engine::Secondary
                } else {
                    Engine::Primary
                }
            },
            None => Engine::Primary,
        }
    }

    /// The engine's tag.
    pub fn tag(&self) -> (r: &'static str)
        ensures
            r@ == engine_tag(*self),
    {
        match self {
            Engine::Primary => "primary",
            Engine::Secondary => "secondary",
        }
    }
}

/// The operating system the supervisor runs on; it decides where
/// executables are looked for and how paths are joined.
#[derive(Clone, Copy, Debug, PartialEq, Eq, Structural)]
pub enum HostOs {
    Windows,
    MacOs,
    Linux,
}

/// The path separator of an operating system.
pub open spec fn separator(os: HostOs) -> Seq<char> {
    match os {
        HostOs::Windows => "\\"@,
        _ => "/"@,
    }
}

impl HostOs {
    /// The path separator.
    pub fn separator(&self) -> (r: &'static str)
        ensures
            r@ == separator(*self),
    {
        match self {
            HostOs::Windows => "\\",
            _ => "/",
        }
    }
}

/// How an engine is installed, in its distributor's names.
#[derive(Clone, Debug)]
pub struct EngineNaming {
    /// The executable's name: the bare fallback, and the last component of
    /// its install paths.
    pub command: String,
    /// Directory-name prefix of editor extensions that bundle the executable.
    pub extension_prefix: String,
    /// The package's entry script, as path components below `node_modules`.
    pub package_script: Vec<String>,
}

/// The names of both engines, and the environment variables by which an
/// enclosing agent session marks the processes it starts.
#[derive(Clone, Debug)]
pub struct EngineNames {
    pub primary: EngineNaming,
    pub secondary: EngineNaming,
    pub session_markers: Vec<String>,
}

impl EngineNames {
    pub open spec fn of(self, e: Engine) -> EngineNaming {
        match e {
            Engine::Primary => self.primary,
            Engine::Secondary => self.secondary,
        }
    }

    /// The naming of one engine.
    pub fn naming(&self, e: Engine) -> (r: &EngineNaming)
        ensures
            *r == self.of(e),
    {
        match e {
            Engine::Primary => &self.primary,
            Engine::Secondary => &self.secondary,
        }
    }
}

} // verus!
