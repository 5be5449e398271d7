//! A lint rule for call statements of a workflow document: from version 1.2 of
//! the language on, the `input:` keyword that opens the inputs of a call is
//! optional, and the rule flags each call statement that still writes it.
//!
//! The rule is a visitor. A walker of the document's syntax tree hands it the
//! declared version when it enters the document, and then each call statement
//! twice, on entering and on leaving it. What the rule finds it submits to a
//! collection of diagnostics that honours the exceptions a document's author
//! wrote down.
//!
//! The syntax tree, the diagnostic record and the collection belong to the
//! `wdl-ast` and `wdl-analysis` crates. The contracts here speak of them through
//! a few specification functions: what a diagnostic holds, what a collection
//! holds, which children a call statement has, and whether a rule is excepted at
//! a node.

pub mod diagnostic;
pub mod rule;
pub mod sink;
pub mod syntax;
pub mod tags;
pub mod traversal;
pub mod version;

pub use rule::call_input_unnecessary;
pub use rule::CallInputUnnecessaryRule;
pub use syntax::CallNode;
pub use syntax::Child;
pub use tags::Tag;
pub use tags::TagSet;
