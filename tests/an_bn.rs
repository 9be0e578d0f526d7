use std::collections::HashMap;

use pushdown::{Automata, AutomataBuilder, AutomataResult, Movement, Movements, Stack};

#[derive(Debug, Clone, Hash, PartialEq, Eq)]
enum State {
    Q0,
    Q1,
}

use self::State::{Q0, Q1};

#[derive(Debug, Clone, Hash, PartialEq, Eq)]
enum StackElement {
    A0,
    A,
}

use self::StackElement::{A, A0};

#[allow(non_camel_case_types)]
#[derive(Debug, Clone, Hash, PartialEq, Eq)]
enum Vocab {
    a,
    b,
}

use self::Vocab::{a, b};

fn rules_v1() -> Movements<Vocab, StackElement, State> {
    let mut ruleset: Movements<Vocab, StackElement, State> = HashMap::new();
    ruleset.insert((Q0, Some(a), A0), (Q0, vec![A]));
    ruleset.insert((Q0, Some(a), A), (Q0, vec![A, A]));
    ruleset.insert((Q0, Some(b), A), (Q1, vec![]));
    ruleset.insert((Q1, Some(b), A), (Q1, vec![]));
    ruleset
}

fn rules_v2() -> Movements<Vocab, StackElement, State> {
    let mut ruleset: Movements<Vocab, StackElement, State> = HashMap::new();
    ruleset.insert((Q0, Some(a), A0), (Q0, vec![A, A0]));
    ruleset.insert((Q0, Some(a), A), (Q0, vec![A, A]));
    ruleset.insert((Q0, Some(b), A), (Q1, vec![]));
    ruleset.insert((Q1, Some(b), A), (Q1, vec![]));
    ruleset.insert((Q1, None, A0), (Q1, vec![]));
    ruleset
}

#[test]
fn test_an_bn_n_ge_1_v1() {
    let mut ruleset: Movements<Vocab, StackElement, State> = HashMap::new();
    ruleset.insert((Q0, Some(a), A0), (Q0, vec![A]));
    ruleset.insert((Q0, Some(a), A), (Q0, vec![A, A]));
    ruleset.insert((Q0, Some(b), A), (Q1, vec![]));
    ruleset.insert((Q1, Some(b), A), (Q1, vec![]));

    let automata_builder = AutomataBuilder::new(Q0, vec![A0], ruleset);
    assert!(automata_builder.build(vec![a, b]).complete());
    assert!(automata_builder.build(vec![a, a, b, b]).complete());
    assert!(automata_builder.build(vec![a, a, a, b, b, b]).complete());
    assert!(!automata_builder.build(vec![a]).complete());
    assert!(!automata_builder.build(vec![b]).complete());
    assert!(!automata_builder.build(Vec::<Vocab>::new()).complete());
}

#[test]
fn test_an_bn_n_ge_1_v2() {
    let mut ruleset: Movements<Vocab, StackElement, State> = HashMap::new();
    ruleset.insert((Q0, Some(a), A0), (Q0, vec![A, A0]));
    ruleset.insert((Q0, Some(a), A), (Q0, vec![A, A]));
    ruleset.insert((Q0, Some(b), A), (Q1, vec![]));
    ruleset.insert((Q1, Some(b), A), (Q1, vec![]));
    ruleset.insert((Q1, None, A0), (Q1, vec![])); // Accept

    let automata_builder = AutomataBuilder::new(Q0, vec![A0], ruleset);
    assert!(automata_builder.build(vec![a, b]).complete());
    assert!(automata_builder.build(vec![a, a, b, b]).complete());
    assert!(automata_builder.build(vec![a, a, a, b, b, b]).complete());
    assert!(!automata_builder.build(vec![a]).complete());
    assert!(!automata_builder.build(vec![b]).complete());
    assert!(!automata_builder.build(Vec::<Vocab>::new()).complete());
}

#[test]
fn unbalanced_words_are_rejected() {
    let builder = AutomataBuilder::new(Q0, vec![A0], rules_v1());
    assert!(!builder.build(vec![a, a, b]).complete());
    assert!(!builder.build(vec![a, b, b]).complete());
    assert!(!builder.build(vec![a, b, a, b]).complete());
    assert!(!builder.build(vec![b, a]).complete());
}

#[test]
fn steps_of_an_accepting_run() {
    let builder = AutomataBuilder::new(Q0, vec![A0], rules_v2());
    let mut runner = builder.build(vec![a, b]);
    assert_eq!(runner.run(), AutomataResult::Processing);
    assert_eq!(runner.run(), AutomataResult::Processing);
    // the input is used up; the rule without a symbol drains the bottom marker
    assert_eq!(runner.run(), AutomataResult::Processing);
    assert_eq!(runner.run(), AutomataResult::Accept);
    // a final verdict is given again and again
    assert_eq!(runner.run(), AutomataResult::Accept);
    assert_eq!(runner.run(), AutomataResult::Accept);
}

#[test]
fn same_input_twice_gives_same_verdict() {
    let builder = AutomataBuilder::new(Q0, vec![A0], rules_v1());
    for word in [vec![a, b], vec![a, a, b], vec![b], vec![a, a, b, b]] {
        let first = builder.build(word.clone()).complete();
        let second = builder.build(word).complete();
        assert_eq!(first, second);
    }
}

#[test]
fn runners_do_not_share_their_stacks() {
    let builder = AutomataBuilder::new(Q0, vec![A0], rules_v1());
    let mut first = builder.build(vec![a, a, b, b]);
    let mut second = builder.build(vec![a, a, b, b]);
    assert_eq!(first.run(), AutomataResult::Processing);
    assert_eq!(first.run(), AutomataResult::Processing);
    assert_eq!(first.run(), AutomataResult::Processing);
    // the second run starts from the initial stack, whatever the first has pushed
    let mut verdicts = Vec::new();
    let mut r = AutomataResult::Processing;
    while r == AutomataResult::Processing {
        r = second.run();
        verdicts.push(r);
    }
    assert_eq!(
        verdicts,
        vec![
            AutomataResult::Processing,
            AutomataResult::Processing,
            AutomataResult::Processing,
            AutomataResult::Processing,
            AutomataResult::Accept
        ]
    );
    assert_eq!(first.run(), AutomataResult::Processing);
    assert_eq!(first.run(), AutomataResult::Accept);
    // a run built after the others still starts afresh
    assert!(builder.build(vec![a, b]).complete());
}

#[test]
fn empty_stack_and_empty_input_accept_at_once() {
    let builder = AutomataBuilder::new(Q0, Vec::<StackElement>::new(), rules_v1());
    let mut runner = builder.build(Vec::<Vocab>::new());
    assert_eq!(runner.run(), AutomataResult::Accept);
    assert!(builder.build(Vec::<Vocab>::new()).complete());
}

#[test]
fn input_left_on_empty_stack_is_rejected() {
    let builder = AutomataBuilder::new(Q0, Vec::<StackElement>::new(), rules_v1());
    let mut runner = builder.build(vec![a]);
    assert_eq!(runner.run(), AutomataResult::NotAccepting);
    assert_eq!(runner.run(), AutomataResult::NotAccepting);
}

#[test]
fn missing_entry_rejects_at_once() {
    let builder = AutomataBuilder::new(Q0, vec![A0], rules_v1());
    let mut runner = builder.build(vec![b, b]);
    assert_eq!(runner.run(), AutomataResult::NotAccepting);
    assert_eq!(runner.run(), AutomataResult::NotAccepting);
}

#[test]
fn stack_left_after_input_is_rejected() {
    let builder = AutomataBuilder::new(Q0, vec![A0], rules_v1());
    let mut runner = builder.build(vec![a]);
    assert_eq!(runner.run(), AutomataResult::Processing);
    // input used up, A still on the stack and no rule without a symbol
    assert_eq!(runner.run(), AutomataResult::NotAccepting);
}

#[test]
fn first_pushed_symbol_ends_on_top() {
    let mut rules: Movements<Vocab, StackElement, State> = HashMap::new();
    rules.insert((Q0, Some(a), A0), (Q1, vec![A, A0]));
    // only the top A can be read next
    rules.insert((Q1, Some(b), A), (Q1, vec![]));
    rules.insert((Q1, None, A0), (Q1, vec![]));
    let builder = AutomataBuilder::new(Q0, vec![A0], rules);
    assert!(builder.build(vec![a, b]).complete());
    assert!(!builder.build(vec![a]).complete());
}

#[test]
fn runner_made_directly() {
    let rules = rules_v1();
    let runner = Automata::new(vec![a, b], Q0, Stack::new(vec![A0]), &rules);
    assert!(runner.complete());
    let runner = Automata::new(vec![a, b], Q0, Stack::from(vec![A0, A0]), &rules);
    assert!(!runner.complete());
}

#[test]
fn table_lookup() {
    let rules = rules_v2();
    assert_eq!(Movement::f(&rules, &Q0, &Some(a), &A0), Some(&(Q0, vec![A, A0])));
    assert_eq!(Movement::f(&rules, &Q1, &None, &A0), Some(&(Q1, vec![])));
    assert_eq!(Movement::f(&rules, &Q1, &Some(a), &A0), None);
    assert_eq!(Movement::f(&rules, &Q0, &None, &A0), None);
}

#[test]
fn stack_push_and_pop() {
    let mut s = Stack::new(vec![1u8, 2]);
    s.push(3);
    assert_eq!(s.pop(), Some(3));
    assert_eq!(s.pop(), Some(2));
    assert_eq!(s.pop(), Some(1));
    assert_eq!(s.pop(), None);
    assert_eq!(s.pop(), None);
    let mut t: Stack<u8> = Stack::from(vec![7]);
    assert_eq!(t.pop(), Some(7));
    assert_eq!(t, Stack::new(vec![]));
}
