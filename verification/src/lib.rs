//! Intermediate representation of a grammar compiler: the data model that a
//! grammar front-end produces and that a parse-table generator consumes.
//!
//! The pipeline runs `InputGrammar` -> extraction -> `LexicalGrammar` plus
//! `SyntaxGrammar` -> inlining -> `InlinedProductionMap`. The extraction and
//! inlining passes themselves live elsewhere; this crate holds the data types
//! they exchange, with their invariants and lookup contracts.

pub mod grammars;
pub mod nfa;
pub mod rules;
