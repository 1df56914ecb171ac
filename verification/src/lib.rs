//! Verified core of a browser-automation MCP server: the decisions and the
//! texts behind each tool, the launch of the browser and the wait for its
//! debugging port. I/O (processes, sockets, the DevTools connection and the
//! MCP transport) is driven by the application around this library.

pub mod text;
pub mod err;
pub mod outcome;
pub mod chrome;
pub mod srv;
pub mod tools;
