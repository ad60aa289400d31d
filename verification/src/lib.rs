//! Verified core of a sandboxed execution environment for AI agents: the
//! workspace jail, file edits and searches, isolation policy, sandbox
//! registry, and the JSON-RPC tool dispatch of its MCP server.

pub mod text;
pub mod path;
pub mod disk;
pub mod filesystem;
pub mod search;
pub mod ids;
pub mod sandbox;
pub mod isolation;
pub mod runtime;
pub mod capture;
pub mod shell;
pub mod mcp;
pub mod code;
pub mod assets;
pub mod browser;
pub mod cdp;
pub mod config;
pub mod e2b;
pub mod setup;

