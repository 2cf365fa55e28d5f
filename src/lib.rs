//! Request handling for a package file server: which resource a request path
//! names, how each kind of resource becomes an HTTP response, and the order in
//! which listening ports are tried at startup.

pub mod content_type;
pub mod response;
pub mod resource;
pub mod dispatch;
pub mod port;
pub mod mode;
