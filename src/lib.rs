//! Runtime for osquery table extensions: the column type system, the
//! addressing convention of an extension's endpoint, the registration
//! handshake and the dispatcher that answers the host's calls.
pub mod client;
pub mod column;
pub mod context;
pub mod dispatch;
pub mod endpoint;
pub mod example;
pub mod plugin;
pub mod session;
pub mod spy;
pub mod status;

pub use client::{column_routes, registration, routes, Client, ExtensionRegistry, Handle, InternalExtensionInfo};
pub use column::{Column, ColumnType, ColumnValue};
pub use context::QueryContext;
pub use dispatch::{
    columns_response, context_fault, generate_response, handle_call, handle_ping, handle_shutdown,
    plan_call, request_field, row_to_wire, Action,
};
pub use endpoint::derive_endpoint;
pub use example::ExampleTable;
pub use plugin::{Row, TableColumns, TablePlugin, TableRows};
pub use session::{worker_step, WorkerStep};
pub use spy::SpyIO;
pub use status::{
    ApplicationErrorKind, Error, ExtensionCode, ExtensionResponse, ExtensionStatus, ProtocolErrorKind,
    TransportErrorKind, WireMap, EXT_SUCCESS,
};
