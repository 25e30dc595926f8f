//! Resolution of WebFinger discovery queries for the communities of a
//! federated node.
//!
//! A query names a resource such as `group:asklemmy@example.org`. The node
//! answers it only when the resource has the exact shape
//! `group:<name>@<hostname>` for its own hostname and a community of that
//! name exists; the answer is a discovery document that points at the
//! community's canonical URL.
pub mod document;
pub mod pattern;
pub mod resolver;
