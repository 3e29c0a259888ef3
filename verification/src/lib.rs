//! A REST gateway control-plane library: resource addressing (`Filter`),
//! child-URI canonicalization, cascading delete resolution, the error
//! taxonomy shared by every handler, and the client URN builder that mirrors
//! the server's routing grammar.

pub mod bodies;
pub mod children;
pub mod client;
pub mod message_bus;
pub mod nexuses;
pub mod nodes;
pub mod pools;
pub mod rest_error;
pub mod router;
pub mod volumes;
