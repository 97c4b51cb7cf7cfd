use glyphlayout::history::History;
use glyphlayout::solver::{
    bracket_update, line_search_decide, next_phase, record_pair, BracketMove, Config,
    LineSearchDecision, Phase, TrialBudget,
};

fn config() -> Config<f64> {
    Config {
        m: 17,
        armijo: 0.001,
        wolfe: 0.9,
        min_interval: 1e-9,
        max_steps: 10,
        epsd: 1e-11,
    }
}

#[test]
fn line_search_accepts_when_both_conditions_hold() {
    let cfg = config();
    assert_eq!(
        line_search_decide(cfg.max_steps, 0, true, true, false),
        LineSearchDecision::Accept
    );
    // acceptance wins even when the budget is already spent
    assert_eq!(
        line_search_decide(cfg.max_steps, 10, true, true, true),
        LineSearchDecision::Accept
    );
}

#[test]
fn line_search_keeps_bracketing_while_budget_and_width_allow() {
    let cfg = config();
    assert_eq!(
        line_search_decide(cfg.max_steps, 3, false, true, false),
        LineSearchDecision::Continue
    );
    assert_eq!(
        line_search_decide(cfg.max_steps, 9, true, false, false),
        LineSearchDecision::Continue
    );
}

#[test]
fn line_search_settles_for_best_on_spent_budget() {
    let cfg = config();
    assert_eq!(
        line_search_decide(cfg.max_steps, 10, false, false, false),
        LineSearchDecision::TakeBest
    );
    assert_eq!(
        line_search_decide(cfg.max_steps, 11, true, false, false),
        LineSearchDecision::TakeBest
    );
}

#[test]
fn line_search_settles_for_best_on_narrow_bracket() {
    let cfg = config();
    assert_eq!(
        line_search_decide(cfg.max_steps, 1, false, true, true),
        LineSearchDecision::TakeBest
    );
}

#[test]
fn trial_budget_charges_every_evaluation() {
    let mut cfg = config();
    cfg.max_steps = 3;
    let mut budget = TrialBudget::begin(&cfg);
    // two unusable trials fit in the budget, the third exhausts it
    assert_eq!(
        budget.judge(false, true, false),
        LineSearchDecision::Continue
    );
    assert_eq!(
        budget.judge(true, false, false),
        LineSearchDecision::Continue
    );
    assert_eq!(
        budget.judge(false, false, false),
        LineSearchDecision::TakeBest
    );
}

#[test]
fn trial_budget_still_accepts_its_last_trial() {
    let mut cfg = config();
    cfg.max_steps = 1;
    let mut budget = TrialBudget::begin(&cfg);
    assert_eq!(budget.judge(true, true, false), LineSearchDecision::Accept);
}

#[test]
fn bracket_caps_from_above_on_any_overshoot() {
    for no_decrease in [false, true] {
        for slope_nonneg in [false, true] {
            for armijo_ok in [false, true] {
                let expected = if !armijo_ok || no_decrease || slope_nonneg {
                    BracketMove::ShrinkHigh
                } else {
                    BracketMove::RaiseLow
                };
                assert_eq!(bracket_update(armijo_ok, no_decrease, slope_nonneg), expected);
            }
        }
    }
}

#[test]
fn record_pair_skips_small_denominators() {
    let mut h: History<(f64, f64)> = History::new(2);
    record_pair(&mut h, (1.0, 2.0), false);
    assert_eq!(h.len(), 0);
    record_pair(&mut h, (1.0, 2.0), true);
    assert_eq!(h.len(), 1);
    assert_eq!(*h.get(0), (1.0, 2.0));
}

#[test]
fn record_pair_evicts_like_the_history() {
    let mut h: History<u8> = History::new(2);
    record_pair(&mut h, 1, true);
    record_pair(&mut h, 2, true);
    record_pair(&mut h, 3, false);
    record_pair(&mut h, 4, true);
    assert_eq!(h.len(), 2);
    assert_eq!(*h.get(0), 2);
    assert_eq!(*h.get(1), 4);
}

#[test]
fn stepping_terminates_on_stop_or_exhaustion_only() {
    assert_eq!(next_phase(false, false), Phase::Stepping);
    assert_eq!(next_phase(true, false), Phase::Terminated);
    assert_eq!(next_phase(false, true), Phase::Terminated);
    assert_eq!(next_phase(true, true), Phase::Terminated);
}
