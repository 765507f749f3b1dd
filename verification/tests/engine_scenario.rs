//! Scenarios run against the real property engine, in the very shape the
//! synthesized body uses: a runner with the default configuration, a
//! strategy, and a closure over the drawn values.

use std::cell::Cell;

use proptest_attr::token::Token;

#[test]
fn bounded_strategy_stays_in_bounds_across_trials() {
    let config = proptest::test_runner::Config::default();
    // The default configuration draws well over a hundred combinations.
    assert!(config.cases >= 100);
    let mut runner = proptest::test_runner::TestRunner::new(config);
    let trials = Cell::new(0u32);
    let result = runner.run(&(33u8..100), |x| {
        trials.set(trials.get() + 1);
        assert!(33 <= x && x < 100);
        Ok(())
    });
    assert!(result.is_ok());
    assert!(trials.get() >= 100);
}

// The zero-parameter expansion runs the body against the single-value
// generator of the unit value, with the configuration pinned to one case:
// the same shape, run here directly, evaluates the body exactly once.
#[test]
fn unit_strategy_pinned_to_one_case_runs_the_body_once() {
    let mut config = proptest::test_runner::Config::default();
    config.cases = 1;
    let mut runner = proptest::test_runner::TestRunner::new(config);
    let ran = Cell::new(0u32);
    let result = runner.run(&proptest::strategy::Just(()), |_| {
        ran.set(ran.get() + 1);
        Ok(())
    });
    assert!(result.is_ok());
    assert_eq!(ran.get(), 1);
}

#[test]
fn library_token_values_compare_by_content() {
    // The token model the expansion emits is plain data: equal spellings
    // are equal tokens.
    assert_eq!(Token::Ident("x".to_string()), Token::Ident("x".to_string()));
    assert_ne!(Token::Ident("x".to_string()), Token::Punct("x".to_string()));
}
