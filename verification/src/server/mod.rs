//! What the MCP server decides: its tool catalogue, how tool names and
//! arguments are read, and the help texts.

pub mod help;
pub mod tools;
