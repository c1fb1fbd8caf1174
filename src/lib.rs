pub mod geometry;
pub mod hooks;
pub mod keys;
pub mod labels;
pub mod nvim;
pub mod retry;
pub mod selection;
pub mod session;
pub mod workspaces;
