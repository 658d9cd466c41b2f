use grammar_ir::grammars::{
    InlinedProductionEntry, InlinedProductionMap, InputGrammar, LexicalGrammar, LexicalVariable,
    Production, ProductionStep, SyntaxGrammar, SyntaxVariable, Variable, VariableType,
};
use grammar_ir::nfa::Nfa;
use grammar_ir::rules::{Alias, Associativity, Rule, Symbol, SymbolType};

fn lexical_variable(name: &str, start_state: u32) -> LexicalVariable {
    LexicalVariable {
        name: name.to_string(),
        kind: VariableType::Named,
        is_string: false,
        start_state,
    }
}

#[test]
fn empty_production_has_default_reads() {
    let p = Production::default();
    assert_eq!(p.steps.len(), 0);
    assert_eq!(p.dynamic_precedence, 0);
    assert_eq!(p.first_symbol(), None);
    assert_eq!(p.last_precedence(), 0);
    assert_eq!(p.last_associativity(), None);
}

#[test]
fn nonempty_production_reads_first_and_last_step() {
    let first = ProductionStep::new(Symbol::terminal(4));
    let last = ProductionStep::new(Symbol::non_terminal(2))
        .with_prec(9, Some(Associativity::Right));
    let p = Production {
        steps: vec![first, ProductionStep::new(Symbol::terminal(1)), last],
        dynamic_precedence: 3,
    };
    assert_eq!(p.first_symbol(), Some(Symbol::terminal(4)));
    assert_eq!(p.last_precedence(), 9);
    assert_eq!(p.last_associativity(), Some(Associativity::Right));
}

#[test]
fn step_builder_replaces_only_precedence_fields() {
    let s = Symbol::terminal(7);
    let built = ProductionStep::new(s).with_prec(5, Some(Associativity::Left));
    assert_eq!(
        built,
        ProductionStep {
            symbol: s,
            precedence: 5,
            associativity: Some(Associativity::Left),
            alias: None,
        }
    );
}

#[test]
fn step_builder_replaces_only_alias_field() {
    let s = Symbol::terminal(7);
    let built = ProductionStep::new(s).with_alias("shifted", true);
    assert_eq!(
        built,
        ProductionStep {
            symbol: s,
            precedence: 0,
            associativity: None,
            alias: Some(Alias { value: "shifted".to_string(), is_named: true }),
        }
    );
}

#[test]
fn step_builders_commute() {
    let s = Symbol::non_terminal(1);
    let one = ProductionStep::new(s)
        .with_prec(-2, Some(Associativity::Left))
        .with_alias("al", false);
    let other = ProductionStep::new(s)
        .with_alias("al", false)
        .with_prec(-2, Some(Associativity::Left));
    assert_eq!(one, other);
}

#[test]
fn lexical_lookup_finds_each_boundary_state() {
    let g = LexicalGrammar {
        nfa: Nfa { state_count: 20 },
        variables: vec![
            lexical_variable("first", 0),
            lexical_variable("second", 5),
            lexical_variable("third", 12),
        ],
    };
    assert_eq!(g.variable_index_for_nfa_state(0), 0);
    assert_eq!(g.variable_index_for_nfa_state(5), 1);
    assert_eq!(g.variable_index_for_nfa_state(12), 2);
    // An interior state id lands on the variable that starts at or after it:
    // the narrow contract this lookup documents.
    assert_eq!(g.variable_index_for_nfa_state(6), 2);
}

#[test]
fn default_lexical_grammar_is_empty() {
    let g = LexicalGrammar::default();
    assert_eq!(g.nfa.state_count, 0);
    assert_eq!(g.variables.len(), 0);
}

#[test]
fn auxiliary_kind_is_the_only_auxiliary_one() {
    let kinds = [
        VariableType::Hidden,
        VariableType::Auxiliary,
        VariableType::Anonymous,
        VariableType::Named,
    ];
    for kind in kinds {
        let v = SyntaxVariable { name: "v".to_string(), kind, productions: vec![] };
        assert_eq!(v.is_auxiliary(), kind == VariableType::Auxiliary);
    }
}

#[test]
fn variable_builders_set_name_kind_and_rule() {
    let named = Variable::named("n", Rule::Blank);
    assert_eq!(named.name, "n");
    assert_eq!(named.kind, VariableType::Named);
    assert_eq!(named.rule, Rule::Blank);
    let auxiliary = Variable::auxiliary("x", Rule::Blank);
    assert_eq!(auxiliary.name, "x");
    assert_eq!(auxiliary.kind, VariableType::Auxiliary);
    let hidden = Variable::hidden("h", Rule::Blank);
    assert_eq!(hidden.name, "h");
    assert_eq!(hidden.kind, VariableType::Hidden);
    let anonymous = Variable::anonymous("a", Rule::Blank);
    assert_eq!(anonymous.name, "a");
    assert_eq!(anonymous.kind, VariableType::Anonymous);
}

#[test]
fn symbol_constructors_set_kind_and_index() {
    assert_eq!(Symbol::terminal(3), Symbol { kind: SymbolType::Terminal, index: 3 });
    assert_eq!(Symbol::non_terminal(0), Symbol { kind: SymbolType::NonTerminal, index: 0 });
    assert_eq!(Symbol::external(9), Symbol { kind: SymbolType::External, index: 9 });
}

#[test]
fn inlined_lookup_yields_arena_productions_in_order_and_restarts() {
    let a = Production {
        steps: vec![ProductionStep::new(Symbol::terminal(1))],
        dynamic_precedence: 7,
    };
    let b = Production::default();
    let map = InlinedProductionMap {
        productions: vec![a.clone(), b.clone()],
        production_map: vec![InlinedProductionEntry {
            production_id: 9,
            step_index: 1,
            replacements: vec![0, 1],
        }],
    };
    let got = map.inlined_productions(9, 1).unwrap();
    assert_eq!(got, vec![a.clone(), b.clone()]);
    // Restartable: looking the key up again yields the same sequence.
    let again = map.inlined_productions(9, 1).unwrap();
    assert_eq!(again, vec![a, b]);
    // An unregistered step of the same production has no entry.
    assert!(map.inlined_productions(9, 2).is_none());
}

#[test]
fn inlined_lookup_misses_unknown_production_identity() {
    let map = InlinedProductionMap {
        productions: vec![Production::default()],
        production_map: vec![InlinedProductionEntry {
            production_id: 0,
            step_index: 0,
            replacements: vec![0],
        }],
    };
    assert!(map.inlined_productions(1, 0).is_none());
}

#[test]
fn name_resolution_round_trips_through_a_symbol() {
    let input = InputGrammar {
        name: "g".to_string(),
        variables: vec![
            Variable::named("a", Rule::Blank),
            Variable::named("b", Rule::NamedSymbol("a".to_string())),
        ],
        extra_tokens: vec![],
        expected_conflicts: vec![],
        external_tokens: vec![],
        variables_to_inline: vec![],
        word_token: None,
    };
    // Extraction resolves the reference inside "b"'s rule to a symbol.
    let a_index = input.variable_index_for_name("a").unwrap();
    let syntax = SyntaxGrammar {
        variables: vec![
            SyntaxVariable {
                name: "a".to_string(),
                kind: VariableType::Named,
                productions: vec![Production::default()],
            },
            SyntaxVariable {
                name: "b".to_string(),
                kind: VariableType::Named,
                productions: vec![Production {
                    steps: vec![ProductionStep::new(Symbol::non_terminal(a_index))],
                    dynamic_precedence: 0,
                }],
            },
        ],
        extra_tokens: vec![],
        expected_conflicts: vec![],
        external_tokens: vec![],
        variables_to_inline: vec![],
        word_token: None,
    };
    // The step's symbol resolves back to the "a" variable's index.
    let step_symbol = syntax.variables[1].productions[0].first_symbol().unwrap();
    assert_eq!(step_symbol.kind, SymbolType::NonTerminal);
    assert_eq!(input.variables[step_symbol.index].name, "a");
    assert_eq!(step_symbol.index, 0);
}

#[test]
fn name_resolution_misses_undeclared_names() {
    let input = InputGrammar {
        name: "g".to_string(),
        variables: vec![Variable::named("a", Rule::Blank)],
        extra_tokens: vec![],
        expected_conflicts: vec![],
        external_tokens: vec![],
        variables_to_inline: vec![],
        word_token: None,
    };
    assert_eq!(input.variable_index_for_name("a"), Some(0));
    assert_eq!(input.variable_index_for_name("missing"), None);
}
