//! The grammar IR proper: the input grammar as authored, the extracted
//! lexical and syntax grammars, and the production-inlining map derived from
//! them.

use vstd::prelude::*;

use crate::nfa::Nfa;
use crate::rules::{Alias, AliasModel, Associativity, Rule, Symbol};

verus! {

/// Controls whether a variable's node appears in the produced syntax tree,
/// and how it is named there. `Hidden` nodes are elided; `Auxiliary` nodes
/// are generator-introduced helpers, normally elided; `Anonymous` nodes
/// surface only as literal text; `Named` nodes are the user-visible shape of
/// the tree.
#[derive(Clone, Copy, Debug, PartialEq, Eq, Structural)]
pub enum VariableType {
    Hidden,
    Auxiliary,
    Anonymous,
    Named,
}

/// A single grammar rule as authored, before extraction classifies it as
/// lexical or syntactic. Within an `InputGrammar`, names are unique.
#[derive(Debug, PartialEq, Eq)]
pub struct Variable {
    pub name: String,
    pub kind: VariableType,
    pub rule: Rule,
}

impl Variable {
    /// A variable whose node is part of the user-visible tree shape.
    pub fn named(name: &str, rule: Rule) -> (r: Self)
        ensures
            r.name@ == name@,
            r.kind == VariableType::Named,
            r.rule == rule,
    {
        Variable { name: name.to_owned(), kind: VariableType::Named, rule }
    }

    /// A generator-introduced helper variable, normally elided from the tree.
    pub fn auxiliary(name: &str, rule: Rule) -> (r: Self)
        ensures
            r.name@ == name@,
            r.kind == VariableType::Auxiliary,
            r.rule == rule,
    {
        Variable { name: name.to_owned(), kind: VariableType::Auxiliary, rule }
    }

    /// A variable whose node is elided from the tree.
    pub fn hidden(name: &str, rule: Rule) -> (r: Self)
        ensures
            r.name@ == name@,
            r.kind == VariableType::Hidden,
            r.rule == rule,
    {
        Variable { name: name.to_owned(), kind: VariableType::Hidden, rule }
    }

    /// A variable whose node surfaces only as literal text.
    pub fn anonymous(name: &str, rule: Rule) -> (r: Self)
        ensures
            r.name@ == name@,
            r.kind == VariableType::Anonymous,
            r.rule == rule,
    {
        Variable { name: name.to_owned(), kind: VariableType::Anonymous, rule }
    }
}

/// The grammar as authored: a flat list of named variables plus grammar-wide
/// metadata, all of it still referring to other variables by name. This is
/// the sole entry point into the pipeline and is immutable once produced.
#[derive(Debug, PartialEq, Eq)]
pub struct InputGrammar {
    pub name: String,
    pub variables: Vec<Variable>,
    pub extra_tokens: Vec<Rule>,
    pub expected_conflicts: Vec<Vec<String>>,
    pub external_tokens: Vec<Rule>,
    pub variables_to_inline: Vec<String>,
    pub word_token: Option<String>,
}

impl InputGrammar {
    /// Resolves a variable name to the index of the variable that declares
    /// it, the resolution that extraction performs on every name-based
    /// reference. Returns the first declaration with that name (names are
    /// unique in a well-formed grammar), or `None` when the name is not
    /// declared, which extraction reports as a configuration error.
    pub fn variable_index_for_name(&self, name: &str) -> (r: Option<usize>)
        ensures
            r matches Some(i) ==> (i < self.variables@.len() && self.variables@[
                i as int
            ].name@ == name@ && (forall|j: int|
                0 <= j < i ==> (#[trigger] self.variables@[j]).name@ != name@)),
            r is None ==> (forall|j: int|
                0 <= j < self.variables@.len() ==> (#[trigger] self.variables@[j]).name@
                    != name@),
    {
        let want: String = name.to_owned();
        let n = self.variables.len();
        let mut i: usize = 0;
        while i < n
            invariant
                n == self.variables@.len(),
                i <= n,
                want@ == name@,
                forall|j: int| 0 <= j < i ==> (#[trigger] self.variables@[j]).name@ != name@,
            decreases n - i,
        {
            if self.variables[i].name == want {
                return Some(i);
            }
            i = i + 1;
        }
        None
    }
}

/// A variable of the extracted tokenizer grammar. `start_state` is the first
/// NFA state id belonging to this variable's transition graph: the variables
/// of a `LexicalGrammar` stand in ascending `start_state` order, and the
/// states owned by each are exactly those from its own `start_state` up to
/// its successor's (the last variable owning up to the NFA's final state).
#[derive(Debug, PartialEq, Eq)]
pub struct LexicalVariable {
    pub name: String,
    pub kind: VariableType,
    pub is_string: bool,
    pub start_state: u32,
}

/// The extracted tokenizer grammar: an NFA plus the ordered list of lexical
/// variables that partition its states.
#[derive(Debug, PartialEq, Eq)]
pub struct LexicalGrammar {
    pub nfa: Nfa,
    pub variables: Vec<LexicalVariable>,
}

impl Default for LexicalGrammar {
    /// A tokenizer grammar with no states and no variables.
    fn default() -> (r: Self)
        ensures
            r.nfa.state_count == 0,
            r.variables@.len() == 0,
    {
        LexicalGrammar { nfa: Nfa::default(), variables: Vec::new() }
    }
}

impl LexicalGrammar {
    /// The ordering invariant that extraction owes this structure: variables
    /// stand in ascending `start_state` order, each owning at least one
    /// state, so each one's range ends where its successor's begins.
    pub open spec fn wf(&self) -> bool {
        forall|i: int, j: int|
            0 <= i < j < self.variables@.len() ==> (#[trigger] self.variables@[i]).start_state < (
            #[trigger] self.variables@[j]).start_state
    }

    /// What `variable_index_for_nfa_state` promises of its result: the first
    /// variable whose `start_state` is at least `state_id`.
    pub open spec fn state_lookup_post(&self, state_id: u32, r: usize) -> bool {
        &&& r < self.variables@.len()
        &&& self.variables@[r as int].start_state >= state_id
        &&& forall|j: int| 0 <= j < r ==> (#[trigger] self.variables@[j]).start_state < state_id
    }

    /// Answers which lexical variable starts at or after the given state id:
    /// the index of the first variable whose `start_state` is at least
    /// `state_id`. This is a deliberately narrow contract, meant for boundary
    /// lookups during extraction and debugging: querying with each variable's
    /// own `start_state` lands on its owner, but an arbitrary interior state
    /// id lands on the *next* variable, since the scan compares against
    /// `start_state`, not against an upper bound. A query past every
    /// variable's `start_state` is a programming error in the caller and is
    /// ruled out here rather than answered.
    pub fn variable_index_for_nfa_state(&self, state_id: u32) -> (r: usize)
        requires
            exists|i: int|
                0 <= i < self.variables@.len() && (#[trigger] self.variables@[i]).start_state
                    >= state_id,
        ensures
            self.state_lookup_post(state_id, r),
    {
        let n = self.variables.len();
        let mut i: usize = 0;
        loop
            invariant
                n == self.variables@.len(),
                i <= self.variables@.len(),
                exists|x: int|
                    0 <= x < self.variables@.len() && (#[trigger] self.variables@[x]).start_state
                        >= state_id,
                forall|j: int|
                    0 <= j < i ==> (#[trigger] self.variables@[j]).start_state < state_id,
            decreases self.variables@.len() - i,
        {
            proof {
                assert(i < self.variables@.len()) by {
                    if i >= self.variables@.len() {
                        let x = choose|x: int|
                            0 <= x < self.variables@.len() && (#[trigger] self.variables@[
                                x
                            ]).start_state >= state_id;
                        assert(self.variables@[x].start_state < state_id);
                    }
                }
            }
            if self.variables[i].start_state >= state_id {
                return i;
            }
            i = i + 1;
        }
    }
}

/// Law: under the ordering invariant, a state lookup queried with a
/// variable's own `start_state` lands exactly on that variable. Interior
/// state ids carry no such promise: the lookup compares against
/// `start_state`, not against an upper bound.
pub proof fn lemma_boundary_lookup_finds_owner(g: LexicalGrammar, i: int, r: usize)
    requires
        g.wf(),
        0 <= i < g.variables@.len(),
        g.state_lookup_post(g.variables@[i].start_state, r),
    ensures
        r == i,
{
    if (r as int) < i {
        assert(g.variables@[r as int].start_state < g.variables@[i].start_state);
    }
    if (r as int) > i {
        assert(g.variables@[i].start_state < g.variables@[i].start_state);
    }
}

/// One step of a production: the symbol consumed, with the precedence,
/// associativity and alias annotations that describe how the step attaches
/// to its parent.
#[derive(Debug, PartialEq, Eq, Hash, PartialOrd, Ord)]
pub struct ProductionStep {
    pub symbol: Symbol,
    pub precedence: i32,
    pub associativity: Option<Associativity>,
    pub alias: Option<Alias>,
}

/// The mathematical content of a `ProductionStep`.
#[verifier::ext_equal]
pub ghost struct StepModel {
    pub symbol: Symbol,
    pub precedence: int,
    pub associativity: Option<Associativity>,
    pub alias: Option<AliasModel>,
}

impl StepModel {
    /// The step that consumes `symbol` with neutral annotations: precedence
    /// zero, no associativity, no alias.
    pub open spec fn of_symbol(symbol: Symbol) -> StepModel {
        StepModel { symbol, precedence: 0, associativity: None, alias: None }
    }

    /// The same step with precedence and associativity replaced; symbol and
    /// alias are untouched.
    pub open spec fn with_prec(
        self,
        precedence: int,
        associativity: Option<Associativity>,
    ) -> StepModel {
        StepModel { precedence, associativity, ..self }
    }

    /// The same step with the alias replaced; symbol, precedence and
    /// associativity are untouched.
    pub open spec fn with_alias(self, value: Seq<char>, is_named: bool) -> StepModel {
        StepModel { alias: Some(AliasModel { value, is_named }), ..self }
    }
}

impl View for ProductionStep {
    type V = StepModel;

    open spec fn view(&self) -> StepModel {
        StepModel {
            symbol: self.symbol,
            precedence: self.precedence as int,
            associativity: self.associativity,
            alias: match self.alias {
                Some(a) => Some(a@),
                None => None,
            },
        }
    }
}

impl Clone for ProductionStep {
    fn clone(&self) -> (r: Self)
        ensures
            r == *self,
    {
        ProductionStep {
            symbol: self.symbol,
            precedence: self.precedence,
            associativity: self.associativity,
            alias: match &self.alias {
                Some(a) => Some(a.clone()),
                None => None,
            },
        }
    }
}

impl ProductionStep {
    /// A step that consumes `symbol` with neutral annotations.
    pub fn new(symbol: Symbol) -> (r: Self)
        ensures
            r@ == StepModel::of_symbol(symbol),
    {
        ProductionStep { symbol, precedence: 0, associativity: None, alias: None }
    }

    /// The same step with precedence and associativity replaced; the symbol
    /// and the alias are carried over unchanged.
    pub fn with_prec(self, precedence: i32, associativity: Option<Associativity>) -> (r: Self)
        ensures
            r@ == self@.with_prec(precedence as int, associativity),
    {
        ProductionStep { symbol: self.symbol, precedence, associativity, alias: self.alias }
    }

    /// The same step with the alias replaced; the symbol, the precedence and
    /// the associativity are carried over unchanged.
    pub fn with_alias(self, value: &str, is_named: bool) -> (r: Self)
        ensures
            r@ == self@.with_alias(value@, is_named),
    {
        ProductionStep {
            symbol: self.symbol,
            precedence: self.precedence,
            associativity: self.associativity,
            alias: Some(Alias { value: value.to_owned(), is_named }),
        }
    }
}

/// Law: the two step builders write disjoint fields, so applying them in
/// either order yields the same step, and each leaves the other's fields as
/// `of_symbol` set them.
pub proof fn lemma_step_builders_independent(
    s: Symbol,
    p: int,
    a: Option<Associativity>,
    v: Seq<char>,
    n: bool,
)
    ensures
        StepModel::of_symbol(s).with_prec(p, a) == (StepModel {
            symbol: s,
            precedence: p,
            associativity: a,
            alias: None,
        }),
        StepModel::of_symbol(s).with_alias(v, n) == (StepModel {
            symbol: s,
            precedence: 0,
            associativity: None,
            alias: Some(AliasModel { value: v, is_named: n }),
        }),
        StepModel::of_symbol(s).with_prec(p, a).with_alias(v, n) == StepModel::of_symbol(
            s,
        ).with_alias(v, n).with_prec(p, a),
{
}

/// One way of expanding a syntactic variable: an ordered sequence of steps,
/// plus a dynamic precedence used to break parse-table conflicts at runtime.
/// The default is the epsilon production: no steps, zero dynamic precedence.
#[derive(Debug, PartialEq, Eq)]
pub struct Production {
    pub steps: Vec<ProductionStep>,
    pub dynamic_precedence: i32,
}

/// The mathematical content of a `Production`.
#[verifier::ext_equal]
pub ghost struct ProductionModel {
    pub steps: Seq<StepModel>,
    pub dynamic_precedence: int,
}

impl View for Production {
    type V = ProductionModel;

    open spec fn view(&self) -> ProductionModel {
        ProductionModel {
            steps: self.steps@.map_values(|s: ProductionStep| s@),
            dynamic_precedence: self.dynamic_precedence as int,
        }
    }
}

impl Default for Production {
    /// The epsilon production.
    fn default() -> (r: Self)
        ensures
            r@.steps == Seq::<StepModel>::empty(),
            r@.dynamic_precedence == 0,
    {
        let steps: Vec<ProductionStep> = Vec::new();
        proof {
            assert(steps@.map_values(|s: ProductionStep| s@) =~= Seq::<StepModel>::empty());
        }
        Production { steps, dynamic_precedence: 0 }
    }
}

impl Clone for Production {
    fn clone(&self) -> (r: Self)
        ensures
            r@ == self@,
    {
        let n = self.steps.len();
        let mut steps: Vec<ProductionStep> = Vec::new();
        let mut i: usize = 0;
        while i < n
            invariant
                n == self.steps@.len(),
                i <= n,
                steps@.len() == i as int,
                forall|j: int| 0 <= j < i ==> steps@[j] == self.steps@[j],
            decreases n - i,
        {
            steps.push(self.steps[i].clone());
            i = i + 1;
        }
        proof {
            assert(steps@ =~= self.steps@);
        }
        Production { steps, dynamic_precedence: self.dynamic_precedence }
    }
}

impl Production {
    /// The symbol of the first step, or `None` for the epsilon production.
    pub fn first_symbol(&self) -> (r: Option<Symbol>)
        ensures
            self@.steps.len() == 0 ==> r is None,
            self@.steps.len() > 0 ==> r == Some(self@.steps[0].symbol),
    {
        if self.steps.len() == 0 {
            None
        } else {
            Some(self.steps[0].symbol)
        }
    }

    /// The precedence annotation of the final step, or 0 for the epsilon
    /// production. Conflict resolution at reduce time cares about the
    /// precedence context established at the end of a production, not its
    /// start.
    pub fn last_precedence(&self) -> (r: i32)
        ensures
            self@.steps.len() == 0 ==> r == 0,
            self@.steps.len() > 0 ==> r == self@.steps[self@.steps.len() - 1].precedence,
    {
        let n = self.steps.len();
        if n == 0 {
            0
        } else {
            self.steps[n - 1].precedence
        }
    }

    /// The associativity annotation of the final step, or `None` for the
    /// epsilon production.
    pub fn last_associativity(&self) -> (r: Option<Associativity>)
        ensures
            self@.steps.len() == 0 ==> r is None,
            self@.steps.len() > 0 ==> r == self@.steps[self@.steps.len() - 1].associativity,
    {
        let n = self.steps.len();
        if n == 0 {
            None
        } else {
            self.steps[n - 1].associativity
        }
    }
}

/// A variable of the extracted context-free grammar: its productions, with
/// the name and tree-visibility kind carried over from the input grammar.
#[derive(Debug, PartialEq, Eq)]
pub struct SyntaxVariable {
    pub name: String,
    pub kind: VariableType,
    pub productions: Vec<Production>,
}

impl SyntaxVariable {
    /// Whether this variable was introduced by the generator rather than
    /// authored: true exactly when its kind is `Auxiliary`. Downstream code
    /// uses this to decide default tree visibility.
    pub fn is_auxiliary(&self) -> (r: bool)
        ensures
            r == (self.kind == VariableType::Auxiliary),
    {
        self.kind == VariableType::Auxiliary
    }
}

/// An external token: one recognized by a user-supplied scanner rather than
/// by the extracted NFA. It may alias an internal lexical token of the same
/// name, for precedence and conflict purposes.
#[derive(Debug, PartialEq, Eq)]
pub struct ExternalToken {
    pub name: String,
    pub kind: VariableType,
    pub corresponding_internal_token: Option<Symbol>,
}

/// The extracted context-free grammar. All name-based references of the
/// `InputGrammar` have been resolved to `Symbol`s by extraction; this
/// structure holds only resolved references.
#[derive(Debug)]
pub struct SyntaxGrammar {
    pub variables: Vec<SyntaxVariable>,
    pub extra_tokens: Vec<Symbol>,
    pub expected_conflicts: Vec<Vec<Symbol>>,
    pub external_tokens: Vec<ExternalToken>,
    pub variables_to_inline: Vec<Symbol>,
    pub word_token: Option<Symbol>,
}

/// One association of an `InlinedProductionMap`: for the production with
/// identity `production_id`, at step position `step_index`, the arena indices
/// of the productions that should be substituted in place of the referenced
/// nonterminal, in order.
#[derive(Debug, PartialEq, Eq)]
pub struct InlinedProductionEntry {
    pub production_id: usize,
    pub step_index: u32,
    pub replacements: Vec<usize>,
}

impl InlinedProductionEntry {
    /// Every replacement points into an arena of the given length.
    pub open spec fn indices_valid(&self, arena_len: int) -> bool {
        forall|j: int|
            0 <= j < self.replacements@.len() ==> (#[trigger] self.replacements@[j]) < arena_len
    }
}

/// The result of the inlining pass: for each (production, step) pair marked
/// for inlining, the ordered list of replacement productions. The arena
/// `productions` owns every inlined production; the associations refer to it
/// by index. A production is keyed by a stable integer identity handle chosen
/// by the pass that builds the map, never by its structure: two structurally
/// equal productions reached via different derivations keep separate entries.
/// The arena must not change after the map is built — the indices are
/// captured at construction time, and a later structural change would require
/// a full rebuild.
#[derive(Debug)]
pub struct InlinedProductionMap {
    pub productions: Vec<Production>,
    pub production_map: Vec<InlinedProductionEntry>,
}

impl InlinedProductionMap {
    /// Whether the association at position `k` carries the given key.
    pub open spec fn key_at(&self, k: int, production_id: usize, step_index: u32) -> bool {
        &&& 0 <= k < self.production_map@.len()
        &&& self.production_map@[k].production_id == production_id
        &&& self.production_map@[k].step_index == step_index
    }

    /// Well-formedness: every replacement index lands in the arena, and no
    /// key is registered twice, so the map is a function of its keys. Both
    /// are owed by the pass that builds the map; a dangling index or a
    /// doubled key is a programming error there, not a recoverable state.
    pub open spec fn wf(&self) -> bool {
        &&& forall|k: int|
            0 <= k < self.production_map@.len() ==> (#[trigger] self.production_map@[
                k
            ]).indices_valid(self.productions@.len() as int)
        &&& forall|k1: int, k2: int|
            #![trigger self.production_map@[k1], self.production_map@[k2]]
            (0 <= k1 < self.production_map@.len() && 0 <= k2 < self.production_map@.len()
                && self.production_map@[k1].production_id == self.production_map@[k2].production_id
                && self.production_map@[k1].step_index == self.production_map@[k2].step_index) ==> k1
                == k2
    }

    /// Whether some replacement list is registered for this key.
    pub open spec fn has_entry(&self, production_id: usize, step_index: u32) -> bool {
        exists|k: int| self.key_at(k, production_id, step_index)
    }

    /// The arena indices registered for this key.
    pub open spec fn entry_replacements(&self, production_id: usize, step_index: u32) -> Seq<usize>
        recommends
            self.has_entry(production_id, step_index),
    {
        let k = choose|k: int| self.key_at(k, production_id, step_index);
        self.production_map@[k].replacements@
    }

    /// What `inlined_productions` promises of its result: present exactly
    /// when the key is registered, and then the replacement productions of
    /// that key, in registration order, equal (as values) to the arena's.
    pub open spec fn lookup_post(
        &self,
        production_id: usize,
        step_index: u32,
        r: Option<Vec<Production>>,
    ) -> bool {
        &&& r is Some <==> self.has_entry(production_id, step_index)
        &&& r matches Some(ps) ==> ({
            let idxs = self.entry_replacements(production_id, step_index);
            &&& ps@.len() == idxs.len()
            &&& forall|j: int|
                0 <= j < idxs.len() ==> (#[trigger] ps@[j])@ == self.productions@[idxs[j] as int]@
        })
    }

    /// The replacement productions registered for the production with the
    /// given identity at the given step, in registration order, projected out
    /// of the arena; or `None` when no inlining is registered for this exact
    /// key, the normal outcome for most steps. Each call looks the key up
    /// afresh, so repeating a call repeats the same sequence
    /// (`lemma_inlined_lookup_restartable`).
    pub fn inlined_productions(&self, production_id: usize, step_index: u32) -> (r: Option<
        Vec<Production>,
    >)
        requires
            self.wf(),
        ensures
            self.lookup_post(production_id, step_index, r),
    {
        let n = self.production_map.len();
        let mut k: usize = 0;
        while k < n
            invariant
                self.wf(),
                n == self.production_map@.len(),
                k <= n,
                forall|kk: int| 0 <= kk < k ==> !self.key_at(kk, production_id, step_index),
            decreases n - k,
        {
            let e = &self.production_map[k];
            if e.production_id == production_id && e.step_index == step_index {
                proof {
                    assert(self.key_at(k as int, production_id, step_index));
                    let kc = choose|kk: int| self.key_at(kk, production_id, step_index);
                    assert(kc == k as int);
                }
                let m = e.replacements.len();
                let mut ps: Vec<Production> = Vec::new();
                let mut j: usize = 0;
                while j < m
                    invariant
                        self.wf(),
                        self.key_at(k as int, production_id, step_index),
                        m == self.production_map@[k as int].replacements@.len(),
                        self.entry_replacements(production_id, step_index)
                            == self.production_map@[k as int].replacements@,
                        j <= m,
                        ps@.len() == j as int,
                        forall|jj: int|
                            0 <= jj < j ==> (#[trigger] ps@[jj])@ == self.productions@[
                                self.production_map@[k as int].replacements@[jj] as int
                            ]@,
                    decreases m - j,
                {
                    let idx = self.production_map[k].replacements[j];
                    ps.push(self.productions[idx].clone());
                    j = j + 1;
                }
                return Some(ps);
            }
            k = k + 1;
        }
        proof {
            if self.has_entry(production_id, step_index) {
                let kc = choose|kk: int| self.key_at(kk, production_id, step_index);
                assert(!self.key_at(kc, production_id, step_index));
            }
        }
        None
    }
}

/// Law: the lookup contract pins its result, so two lookups of the same key
/// on the same map agree — a call is restartable, and iterating the yielded
/// productions twice passes over the same values.
pub proof fn lemma_inlined_lookup_restartable(
    m: InlinedProductionMap,
    production_id: usize,
    step_index: u32,
    r1: Option<Vec<Production>>,
    r2: Option<Vec<Production>>,
)
    requires
        m.lookup_post(production_id, step_index, r1),
        m.lookup_post(production_id, step_index, r2),
    ensures
        r1 is Some <==> r2 is Some,
        r1 matches Some(p1) ==> (r2 matches Some(p2) && p1@.map_values(|p: Production| p@)
            == p2@.map_values(|p: Production| p@)),
{
    if r1 is Some && r2 is Some {
        let p1 = r1->0;
        let p2 = r2->0;
        assert(p1@.map_values(|p: Production| p@) =~= p2@.map_values(|p: Production| p@));
    }
}

} // verus!
