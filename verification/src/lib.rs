//! A verified tree-rewrite substrate for a compiler front end: an abstract
//! syntax tree, a per-node-kind reconstruction protocol with identity
//! defaults, and a bottom-up traversal driver with fail-fast error
//! propagation.
pub mod ast;
pub mod views;
pub mod reducer;
pub mod director;
pub mod passes;
