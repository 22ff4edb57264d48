//! The client side: its errors, the routing of the request manager, the
//! block-number cache and the decisions of the client and its listeners.
pub mod errors;
pub mod request_manager;
pub mod subscription;
pub mod blockchain;
