//! Elaboration of SystemRDL register descriptions into a resolved node tree.
//!
//! The parser's syntax tree (`ast`) goes in; `elaborate` hands back the
//! top-level nodes with their properties, addresses and bit ranges resolved,
//! or the first failure.
//!
//! - `eval` reduces constant expressions to literals.
//! - `property` holds the property namespaces and resolves assignments.
//! - `scope` computes the effective value of a property at a node.
//! - `layout` reads instantiation clauses and lays instances out.
//! - `node` is the elaborated tree.
//! - `elaborator` walks the syntax tree and builds the nodes.
//! - `laws` states what holds of every elaboration.

pub mod ast;
pub mod elaborator;
pub mod error;
pub mod eval;
pub mod laws;
pub mod layout;
pub mod node;
pub mod property;
pub mod scope;

pub use elaborator::elaborate;
pub use elaborator::RootNamespace;
pub use error::ElabError;
pub use error::ErrorKind;
pub use node::Node;
pub use scope::effective_value;
