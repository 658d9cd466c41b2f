//! The primitive value types that every part of the grammar IR refers to:
//! symbols, associativity, aliases, and uncompiled rule expressions.

use vstd::prelude::*;

verus! {

/// Which namespace a `Symbol`'s index refers to.
#[derive(Clone, Copy, Debug, PartialEq, Eq, Hash, PartialOrd, Ord, Structural)]
pub enum SymbolType {
    External,
    Terminal,
    NonTerminal,
}

/// Identifies a terminal, nonterminal, or external token. Two symbols are the
/// same exactly when both their kind and their index agree.
#[derive(Clone, Copy, Debug, PartialEq, Eq, Hash, PartialOrd, Ord, Structural)]
pub struct Symbol {
    pub kind: SymbolType,
    pub index: usize,
}

impl Symbol {
    /// The external token with the given index.
    pub fn external(index: usize) -> (r: Self)
        ensures
            r == (Symbol { kind: SymbolType::External, index }),
    {
        Symbol { kind: SymbolType::External, index }
    }

    /// The terminal (lexical token) with the given index.
    pub fn terminal(index: usize) -> (r: Self)
        ensures
            r == (Symbol { kind: SymbolType::Terminal, index }),
    {
        Symbol { kind: SymbolType::Terminal, index }
    }

    /// The nonterminal (syntactic variable) with the given index.
    pub fn non_terminal(index: usize) -> (r: Self)
        ensures
            r == (Symbol { kind: SymbolType::NonTerminal, index }),
    {
        Symbol { kind: SymbolType::NonTerminal, index }
    }
}

/// Whether a binary rule groups to the left or to the right when two parses
/// at the same precedence compete.
#[derive(Clone, Copy, Debug, PartialEq, Eq, Hash, PartialOrd, Ord, Structural)]
pub enum Associativity {
    Left,
    Right,
}

/// Renames the tree node produced by a production step, independent of the
/// underlying symbol's own name.
#[derive(Debug, PartialEq, Eq, Hash, PartialOrd, Ord)]
pub struct Alias {
    pub value: String,
    pub is_named: bool,
}

/// The mathematical content of an `Alias`: its text and its naming flag.
#[verifier::ext_equal]
pub ghost struct AliasModel {
    pub value: Seq<char>,
    pub is_named: bool,
}

impl View for Alias {
    type V = AliasModel;

    open spec fn view(&self) -> AliasModel {
        AliasModel { value: self.value@, is_named: self.is_named }
    }
}

impl Clone for Alias {
    fn clone(&self) -> (r: Self)
        ensures
            r == *self,
    {
        Alias { value: self.value.clone(), is_named: self.is_named }
    }
}

/// An uncompiled rule expression, as authored in the grammar. The extraction
/// pass walks these trees; this layer only stores them, so the variants are
/// carried as opaque structure.
#[derive(Debug, PartialEq, Eq)]
pub enum Rule {
    /// Matches the empty string.
    Blank,
    /// Matches a literal string of characters.
    Literal(String),
    /// Matches by a regular-expression pattern.
    Pattern(String),
    /// References another variable of the grammar by its name; extraction
    /// resolves the name to a `Symbol`.
    NamedSymbol(String),
    /// References a variable whose symbol is already resolved.
    Symbol(Symbol),
    /// Matches any one of the nested rules.
    Choice(Vec<Rule>),
    /// Matches the nested rules one after another.
    Sequence(Vec<Rule>),
    /// Matches one or more repetitions of the nested rule.
    Repeat(Box<Rule>),
}

} // verus!
