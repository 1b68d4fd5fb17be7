//! Shared protocol and tool-parameter types of an MCP server for Windows
//! debugging sessions (crash dumps, remote targets and programs launched
//! under CDB), with their checks stated and proved.

pub mod types;
