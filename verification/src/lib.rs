//! Compiler core for a covenant-style transaction-commitment contract toolkit.
//!
//! A contract is a tree of possible future transactions, each gated by
//! cryptographic or timelock conditions. Compiling a contract yields a single
//! output address and script tree together with the full set of pre-committed
//! transaction templates and spending conditions realizing every execution
//! path.
pub mod bridge;
pub mod clause;
pub mod compiler;
pub mod context;
pub mod error;
pub mod federated_sidechain;
pub mod guard_cache;
pub mod reverse_path;
pub mod template;
pub mod template_map;
pub mod tree;
