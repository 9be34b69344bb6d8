//! What the running program keeps track of.
use vstd::prelude::*;

verus! {

/// Which of the local listeners are up.
#[derive(Debug, PartialEq, Eq)]
pub struct McpRuntime {
    pub http_running: bool,
    pub bridge_running: bool,
    /// The port that the listener got. It may be another than the usual one.
    pub http_port: Option<u16>,
    pub http_url: Option<String>,
    pub http_fallback: bool,
    pub last_error: Option<String>,
}

impl Default for McpRuntime {
    /// Nothing is up, and nothing has gone wrong.
    fn default() -> (r: McpRuntime)
        ensures
            r == (McpRuntime {
                http_running: false,
                bridge_running: false,
                http_port: None,
                http_url: None,
                http_fallback: false,
                last_error: None,
            }),
    {
        McpRuntime {
            http_running: false,
            bridge_running: false,
            http_port: None,
            http_url: None,
            http_fallback: false,
            last_error: None,
        }
    }
}

} // verus!
