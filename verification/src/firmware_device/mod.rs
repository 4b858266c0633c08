pub mod fd_ops;
pub mod fd_internal;
pub mod fd_context;
pub mod update_flow;
pub mod handler_laws;
