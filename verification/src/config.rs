//! The runtime configuration and the lenient parsers that read it from
//! key-value pairs: every malformed value falls back to its default.

use vstd::prelude::*;
use vstd::string::StringExecFns;

use crate::text::chars_eq;
use crate::text::norm_spec;
use crate::text::normalized_chars;
use crate::text::parse_u64_chars;
use crate::text::parse_u64_spec;
use crate::text::str_chars;
use crate::text::trim_chars;
use crate::text::trim_spec;

verus! {

pub const DEFAULT_MODEL_TIMEOUT_SECS: u64 = 60;

pub const DEFAULT_TOOL_TIMEOUT_SECS: u64 = 30;

pub const DEFAULT_TOOL_MEMORY_MB: u64 = 256;

pub const DEFAULT_TOOL_ALLOW_DIRECT_NETWORK: bool = false;

/// Which runtime executes tool invocations.
#[derive(Clone, Copy, Debug, PartialEq, Eq, Structural)]
pub enum ToolRuntime {
    Builtin,
    Wasm,
}

impl ToolRuntime {
    pub open spec fn spec_str(self) -> Seq<char> {
        match self {
            ToolRuntime::Builtin => "builtin"@,
            ToolRuntime::Wasm => "wasm"@,
        }
    }

    pub fn as_str(&self) -> (r: &'static str)
        ensures
            r@ == self.spec_str(),
    {
        match self {
            ToolRuntime::Builtin => "builtin",
            ToolRuntime::Wasm => "wasm",
        }
    }
}

/// How the workspace file system is exposed to tools.
#[derive(Clone, Copy, Debug, PartialEq, Eq, Structural)]
pub enum WorkspaceFsMode {
    Host,
    Overlay,
    Agentfs,
}

impl WorkspaceFsMode {
    pub open spec fn spec_str(self) -> Seq<char> {
        match self {
            WorkspaceFsMode::Host => "host"@,
            WorkspaceFsMode::Overlay => "overlay"@,
            WorkspaceFsMode::Agentfs => "agentfs"@,
        }
    }

    pub fn as_str(&self) -> (r: &'static str)
        ensures
            r@ == self.spec_str(),
    {
        match self {
            WorkspaceFsMode::Host => "host",
            WorkspaceFsMode::Overlay => "overlay",
            WorkspaceFsMode::Agentfs => "agentfs",
        }
    }
}

/// Resource bounds applied to one tool execution.
#[derive(Clone, Copy, Debug, PartialEq, Eq, Structural)]
pub struct ToolResourceLimits {
    pub timeout_secs: u64,
    pub memory_mb: u64,
}

impl Default for ToolResourceLimits {
    fn default() -> (r: ToolResourceLimits)
        ensures
            r.timeout_secs == DEFAULT_TOOL_TIMEOUT_SECS,
            r.memory_mb == DEFAULT_TOOL_MEMORY_MB,
    {
        ToolResourceLimits {
            timeout_secs: DEFAULT_TOOL_TIMEOUT_SECS,
            memory_mb: DEFAULT_TOOL_MEMORY_MB,
        }
    }
}

/// What tool executions are allowed to do.
#[derive(Clone, Copy, Debug, PartialEq, Eq, Structural)]
pub struct ToolPolicy {
    pub allow_direct_network: bool,
    pub resource_limits: ToolResourceLimits,
}

impl Default for ToolPolicy {
    fn default() -> (r: ToolPolicy)
        ensures
            r.allow_direct_network == DEFAULT_TOOL_ALLOW_DIRECT_NETWORK,
            r.resource_limits.timeout_secs == DEFAULT_TOOL_TIMEOUT_SECS,
            r.resource_limits.memory_mb == DEFAULT_TOOL_MEMORY_MB,
    {
        ToolPolicy {
            allow_direct_network: DEFAULT_TOOL_ALLOW_DIRECT_NETWORK,
            resource_limits: ToolResourceLimits::default(),
        }
    }
}

/// The full runtime configuration.
#[derive(Debug)]
pub struct Config {
    pub model_provider: String,
    pub model: String,
    pub model_base_url: String,
    pub system_prompt: String,
    pub model_timeout_secs: u64,
    pub tool_runtime: ToolRuntime,
    pub tool_timeout_secs: u64,
    pub tool_memory_mb: u64,
    pub tool_allow_direct_network: bool,
    pub workspace_fs_mode: WorkspaceFsMode,
    pub tool_policy: ToolPolicy,
}

/// The value of the first pair whose key is `key`.
pub open spec fn lookup(pairs: Seq<(String, String)>, key: Seq<char>) -> Option<Seq<char>>
    decreases pairs.len(),
{
    if pairs.len() == 0 {
        None
    } else if pairs[0].0@ == key {
        Some(pairs[0].1@)
    } else {
        lookup(pairs.drop_first(), key)
    }
}

/// `v`, or `d` where there is none.
pub open spec fn or_default(v: Option<Seq<char>>, d: Seq<char>) -> Seq<char> {
    match v {
        None => d,
        Some(s) => s,
    }
}

/// The view of an optional string slice.
pub open spec fn view_opt(raw: Option<&str>) -> Option<Seq<char>> {
    match raw {
        None => None,
        Some(s) => Some(s@),
    }
}

/// Borrows an optional owned string as an optional slice.
pub fn opt_str(v: &Option<String>) -> (r: Option<&str>)
    ensures
        v is Some <==> r is Some,
        v is Some ==> (r->0)@ == (v->0)@,
{
    match v {
        Some(s) => Some(s.as_str()),
        None => None,
    }
}

/// The first value stored under `key`, if any.
pub fn get_var(vars: &Vec<(String, String)>, key: &str) -> (r: Option<String>)
    ensures
        r is Some <==> lookup(vars@, key@) is Some,
        r is Some ==> (r->0)@ == lookup(vars@, key@)->0,
{
    let needle = String::from_str(key);
    let mut i: usize = 0;
    proof {
        assert(vars@.subrange(0, vars@.len() as int) =~= vars@);
    }
    while i < vars.len()
        invariant
            needle@ == key@,
            i <= vars@.len(),
            lookup(vars@, key@) == lookup(vars@.subrange(i as int, vars@.len() as int), key@),
        decreases vars@.len() - i,
    {
        let ghost rest = vars@.subrange(i as int, vars@.len() as int);
        if vars[i].0 == needle {
            proof {
                assert(rest[0] == vars@[i as int]);
            }
            return Some(vars[i].1.clone());
        }
        proof {
            assert(rest[0] == vars@[i as int]);
            assert(rest.drop_first() =~= vars@.subrange(i + 1, vars@.len() as int));
        }
        i = i + 1;
    }
    proof {
        assert(vars@.subrange(i as int, vars@.len() as int).len() == 0);
    }
    None
}

/// A strictly positive decimal value, or the default where the value is
/// missing, malformed, zero, or out of range.
pub open spec fn parse_positive_spec(raw: Option<Seq<char>>, default: u64) -> u64 {
    match raw {
        None => default,
        Some(s) => match parse_u64_spec(trim_spec(s)) {
            None => default,
            Some(v) => if v > 0 {
                v
            } else {
                default
            },
        },
    }
}

pub fn parse_positive_u64(raw: Option<&str>, default: u64) -> (r: u64)
    ensures
        r == parse_positive_spec(view_opt(raw), default),
{
    match raw {
        None => default,
        Some(s) => {
            let chars = str_chars(s);
            let t = trim_chars(&chars);
            match parse_u64_chars(&t) {
                None => default,
                Some(v) => if v > 0 {
                    v
                } else {
                    default
                },
            }
        },
    }
}

pub fn parse_model_timeout_secs(raw: Option<&str>) -> (r: u64)
    ensures
        r == parse_positive_spec(view_opt(raw), DEFAULT_MODEL_TIMEOUT_SECS),
{
    parse_positive_u64(raw, DEFAULT_MODEL_TIMEOUT_SECS)
}

pub fn parse_tool_timeout_secs(raw: Option<&str>) -> (r: u64)
    ensures
        r == parse_positive_spec(view_opt(raw), DEFAULT_TOOL_TIMEOUT_SECS),
{
    parse_positive_u64(raw, DEFAULT_TOOL_TIMEOUT_SECS)
}

pub fn parse_tool_memory_mb(raw: Option<&str>) -> (r: u64)
    ensures
        r == parse_positive_spec(view_opt(raw), DEFAULT_TOOL_MEMORY_MB),
{
    parse_positive_u64(raw, DEFAULT_TOOL_MEMORY_MB)
}

/// A boolean keyword, case-insensitively and ignoring surrounding
/// whitespace; anything unrecognized is the default.
pub open spec fn parse_bool_spec(raw: Option<Seq<char>>, default: bool) -> bool {
    match raw {
        None => default,
        Some(s) => {
            let n = norm_spec(s);
            if n == "1"@ || n == "true"@ || n == "yes"@ || n == "on"@ {
                true
            } else if n == "0"@ || n == "false"@ || n == "no"@ || n == "off"@ {
                false
            } else {
                default
            }
        },
    }
}

pub fn parse_bool(raw: Option<&str>, default: bool) -> (r: bool)
    ensures
        r == parse_bool_spec(view_opt(raw), default),
{
    match raw {
        None => default,
        Some(s) => {
            let n = normalized_chars(s);
            if chars_eq(&n, "1") || chars_eq(&n, "true") || chars_eq(&n, "yes") || chars_eq(
                &n,
                "on",
            ) {
                true
            } else if chars_eq(&n, "0") || chars_eq(&n, "false") || chars_eq(&n, "no") || chars_eq(
                &n,
                "off",
            ) {
                false
            } else {
                default
            }
        },
    }
}

/// `wasm` selects the wasm runtime; everything else, the built-in one.
pub open spec fn parse_tool_runtime_spec(raw: Option<Seq<char>>) -> ToolRuntime {
    match raw {
        None => ToolRuntime::Builtin,
        Some(s) => if norm_spec(s) == "wasm"@ {
            ToolRuntime::Wasm
        } else {
            ToolRuntime::Builtin
        },
    }
}

pub fn parse_tool_runtime(raw: Option<&str>) -> (r: ToolRuntime)
    ensures
        r == parse_tool_runtime_spec(view_opt(raw)),
{
    match raw {
        None => ToolRuntime::Builtin,
        Some(s) => {
            let n = normalized_chars(s);
            if chars_eq(&n, "wasm") {
                ToolRuntime::Wasm
            } else {
                ToolRuntime::Builtin
            }
        },
    }
}

/// `overlay` and `agentfs` select those modes; everything else, `host`.
pub open spec fn parse_workspace_fs_mode_spec(raw: Option<Seq<char>>) -> WorkspaceFsMode {
    match raw {
        None => WorkspaceFsMode::Host,
        Some(s) => {
            let n = norm_spec(s);
            if n == "overlay"@ {
                WorkspaceFsMode::Overlay
            } else if n == "agentfs"@ {
                WorkspaceFsMode::Agentfs
            } else {
                WorkspaceFsMode::Host
            }
        },
    }
}

pub fn parse_workspace_fs_mode(raw: Option<&str>) -> (r: WorkspaceFsMode)
    ensures
        r == parse_workspace_fs_mode_spec(view_opt(raw)),
{
    match raw {
        None => WorkspaceFsMode::Host,
        Some(s) => {
            let n = normalized_chars(s);
            if chars_eq(&n, "overlay") {
                WorkspaceFsMode::Overlay
            } else if chars_eq(&n, "agentfs") {
                WorkspaceFsMode::Agentfs
            } else {
                WorkspaceFsMode::Host
            }
        },
    }
}

impl Config {
    /// Builds the configuration from the given key-value pairs (the
    /// process environment, in the running program), falling back to the
    /// documented default wherever a value is missing or malformed.
    pub fn from_env_with(vars: &Vec<(String, String)>) -> (cfg: Config)
        ensures
            cfg.model_provider@ == or_default(lookup(vars@, "MODEL_PROVIDER"@), "ollama"@),
            cfg.model@ == or_default(lookup(vars@, "MODEL"@), "qwen2.5:3b"@),
            cfg.model_base_url@ == or_default(
                lookup(vars@, "MODEL_BASE_URL"@),
                "http://localhost:11434"@,
            ),
            cfg.system_prompt@ == or_default(
                lookup(vars@, "SYSTEM_PROMPT"@),
                "You are a helpful assistant."@,
            ),
            cfg.model_timeout_secs == parse_positive_spec(
                lookup(vars@, "MODEL_TIMEOUT_SECS"@),
                DEFAULT_MODEL_TIMEOUT_SECS,
            ),
            cfg.tool_runtime == parse_tool_runtime_spec(lookup(vars@, "TOOL_RUNTIME"@)),
            cfg.tool_timeout_secs == parse_positive_spec(
                lookup(vars@, "TOOL_TIMEOUT_SECS"@),
                DEFAULT_TOOL_TIMEOUT_SECS,
            ),
            cfg.tool_memory_mb == parse_positive_spec(
                lookup(vars@, "TOOL_MEMORY_MB"@),
                DEFAULT_TOOL_MEMORY_MB,
            ),
            cfg.tool_allow_direct_network == parse_bool_spec(
                lookup(vars@, "TOOL_ALLOW_DIRECT_NETWORK"@),
                DEFAULT_TOOL_ALLOW_DIRECT_NETWORK,
            ),
            cfg.workspace_fs_mode == parse_workspace_fs_mode_spec(
                lookup(vars@, "WORKSPACE_FS_MODE"@),
            ),
            cfg.tool_policy.allow_direct_network == cfg.tool_allow_direct_network,
            cfg.tool_policy.resource_limits.timeout_secs == cfg.tool_timeout_secs,
            cfg.tool_policy.resource_limits.memory_mb == cfg.tool_memory_mb,
    {
        let model_base_url = match get_var(vars, "MODEL_BASE_URL") {
            Some(v) => v,
            None => String::from_str("http://localhost:11434"),
        };
        let raw_model_timeout = get_var(vars, "MODEL_TIMEOUT_SECS");
        let model_timeout_secs = parse_model_timeout_secs(opt_str(&raw_model_timeout));
        let raw_tool_runtime = get_var(vars, "TOOL_RUNTIME");
        let tool_runtime = parse_tool_runtime(opt_str(&raw_tool_runtime));
        let raw_tool_timeout = get_var(vars, "TOOL_TIMEOUT_SECS");
        let tool_timeout_secs = parse_tool_timeout_secs(opt_str(&raw_tool_timeout));
        let raw_tool_memory = get_var(vars, "TOOL_MEMORY_MB");
        let tool_memory_mb = parse_tool_memory_mb(opt_str(&raw_tool_memory));
        let raw_allow_network = get_var(vars, "TOOL_ALLOW_DIRECT_NETWORK");
        let tool_allow_direct_network = parse_bool(
            opt_str(&raw_allow_network),
            DEFAULT_TOOL_ALLOW_DIRECT_NETWORK,
        );
        let raw_fs_mode = get_var(vars, "WORKSPACE_FS_MODE");
        let workspace_fs_mode = parse_workspace_fs_mode(opt_str(&raw_fs_mode));
        let tool_policy = ToolPolicy {
            allow_direct_network: tool_allow_direct_network,
            resource_limits: ToolResourceLimits {
                timeout_secs: tool_timeout_secs,
                memory_mb: tool_memory_mb,
            },
        };
        Config {
            model_provider: match get_var(vars, "MODEL_PROVIDER") {
                Some(v) => v,
                None => String::from_str("ollama"),
            },
            model: match get_var(vars, "MODEL") {
                Some(v) => v,
                None => String::from_str("qwen2.5:3b"),
            },
            model_base_url,
            system_prompt: match get_var(vars, "SYSTEM_PROMPT") {
                Some(v) => v,
                None => String::from_str("You are a helpful assistant."),
            },
            model_timeout_secs,
            tool_runtime,
            tool_timeout_secs,
            tool_memory_mb,
            tool_allow_direct_network,
            workspace_fs_mode,
            tool_policy,
        }
    }
}

} // verus!
