//! The logic of an MCP server that exposes the modules of an apcore registry as tools.

pub mod json;
pub mod text;
pub mod table;
pub mod value;
pub mod merge;
pub mod cancel;
pub mod types;
pub mod output;
pub mod modules;
pub mod approval_bridge;
pub mod async_task_bridge;
pub mod task_manager;
pub mod ids;
pub mod session;
pub mod elicit_registry;
pub mod server;
pub mod router;
pub mod factory;
pub mod listener;
pub mod transport;
