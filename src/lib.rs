//! Permission management for personal "box" directories: path resolution and
//! containment, the authorization rule, and the ownership and mode changes that
//! a grant applies to a box tree.

pub mod access;
pub mod cred;
pub mod directory;
pub mod grant;
pub mod laws;
pub mod paths;
pub mod session;
