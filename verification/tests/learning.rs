use rsrl::domain::{Observation, Transition};
use rsrl::fa::{IndexProjector, Projection, SimpleLFA};
use rsrl::fixed::{Fx, SCALE};
use rsrl::parameter::Parameter;
use rsrl::prediction::TDLambda;
use rsrl::trace::Trace;

fn fx(units: i64) -> Fx {
    Fx::from_units(units)
}

fn units_of(v: &[Fx]) -> Vec<i64> {
    v.iter().map(|x| x.units()).collect()
}

fn predictor(dim: usize, lambda: Fx, alpha: Parameter, gamma: Parameter) -> TDLambda<
    IndexProjector,
> {
    let trace = Trace::new(Parameter::fixed(lambda), dim);
    let fa_theta = SimpleLFA::new(IndexProjector::new(dim));
    TDLambda::new(trace, fa_theta, alpha, gamma)
}

fn non_terminal(from: usize, reward: Fx, to: usize) -> Transition<usize, usize> {
    Transition {
        from: Observation::Full { state: from, actions: vec![0, 1] },
        action: 0,
        reward,
        to: Observation::Full { state: to, actions: vec![0, 1] },
    }
}

fn terminal(from: usize, reward: Fx, to: usize) -> Transition<usize, usize> {
    Transition {
        from: Observation::Full { state: from, actions: vec![0, 1] },
        action: 0,
        reward,
        to: Observation::Terminal(to),
    }
}

#[test]
fn trace_decay_zero_resets_any_content() {
    let mut trace = Trace::new(Parameter::fixed(fx(SCALE / 2)), 3);
    trace.update(&vec![fx(123), fx(-456), fx(789_000)]);
    trace.update(&vec![fx(1), fx(1), fx(1)]);
    assert_ne!(units_of(&trace.get()), vec![0, 0, 0]);
    trace.decay(Fx::zero());
    assert_eq!(units_of(&trace.get()), vec![0, 0, 0]);
}

#[test]
fn trace_decays_then_accumulates() {
    let mut trace = Trace::new(Parameter::fixed(Fx::zero()), 2);
    trace.update(&vec![Fx::one(), fx(2 * SCALE)]);
    trace.decay(fx(SCALE / 2));
    assert_eq!(units_of(&trace.get()), vec![SCALE / 2, SCALE]);
    trace.update(&vec![fx(0), Fx::one()]);
    assert_eq!(units_of(&trace.get()), vec![SCALE / 2, 2 * SCALE]);
}

#[test]
fn single_step_terminal_update_has_no_bootstrap() {
    // gamma = 0, lambda = 0, alpha = 0.5: a terminal transition with
    // reward 2.0 from a state whose value is 0 moves only theta[1], by
    // alpha * (reward - v_old) = 1.0.
    let alpha = Parameter::fixed(fx(SCALE / 2));
    let gamma = Parameter::fixed(Fx::zero());
    let mut p = predictor(4, Fx::zero(), alpha, gamma);
    p.handle_terminal(&terminal(1, fx(2 * SCALE), 0));
    assert_eq!(units_of(&p.weights()), vec![0, SCALE, 0, 0]);

    // A second identical episode sees v_old = 1.0, so the update is
    // alpha * (2.0 - 1.0) = 0.5 at the same single cell.
    p.handle_terminal(&terminal(1, fx(2 * SCALE), 0));
    assert_eq!(units_of(&p.weights()), vec![0, SCALE + SCALE / 2, 0, 0]);
}

#[test]
fn terminal_transition_routes_through_reward_only_target() {
    // theta[0] is made large, so a bootstrapped target from to-state 0
    // would differ wildly from the reward-only target.  Routing the
    // terminal transition through handle_transition must agree with
    // handle_terminal exactly.
    let build = || {
        let alpha = Parameter::fixed(fx(SCALE / 2));
        let gamma = Parameter::fixed(fx(900_000));
        let mut p = predictor(3, Fx::zero(), alpha, gamma);
        // One bootstrapped step onto cell 0 to give it weight.
        p.handle_sample(&non_terminal(0, fx(10 * SCALE), 1));
        p
    };

    let mut routed = build();
    routed.handle_transition(&terminal(1, Fx::one(), 0));
    let mut direct = build();
    direct.handle_terminal(&terminal(1, Fx::one(), 0));
    assert_eq!(units_of(&routed.weights()), units_of(&direct.weights()));

    // The same transition made non-terminal gives a different update:
    // the two paths really compute different targets.
    let mut sampled = build();
    sampled.handle_sample(&non_terminal(1, Fx::one(), 0));
    assert_ne!(units_of(&sampled.weights()), units_of(&direct.weights()));
}

#[test]
fn non_terminal_transition_routes_through_bootstrap() {
    let build = || {
        let alpha = Parameter::fixed(fx(SCALE / 2));
        let gamma = Parameter::fixed(fx(900_000));
        let mut p = predictor(3, Fx::zero(), alpha, gamma);
        p.handle_sample(&non_terminal(0, fx(10 * SCALE), 1));
        p
    };
    let mut routed = build();
    routed.handle_transition(&non_terminal(1, Fx::one(), 0));
    let mut direct = build();
    direct.handle_sample(&non_terminal(1, Fx::one(), 0));
    assert_eq!(units_of(&routed.weights()), units_of(&direct.weights()));
}

#[test]
fn end_to_end_single_tile_update() {
    // Single active tile feature at index 3, initial weight 0,
    // alpha = 0.1, gamma = 0.9, lambda = 0, non-terminal transition with
    // reward 1.0 and next-state value 0: delta = 1.0 and theta[3]
    // becomes exactly 0.1.
    let alpha = Parameter::fixed(fx(100_000));
    let gamma = Parameter::fixed(fx(900_000));
    let mut p = predictor(4, Fx::zero(), alpha, gamma);
    p.handle_sample(&non_terminal(3, Fx::one(), 0));
    assert_eq!(units_of(&p.weights()), vec![0, 0, 0, 100_000]);
}

#[test]
fn alpha_schedule_steps_once_per_episode() {
    // alpha halves at each episode boundary: 0.8, 0.4, 0.2, 0.1.
    // Mid-episode samples must not step it.
    let alpha = Parameter::exponential(fx(800_000), fx(SCALE / 2));
    let gamma = Parameter::fixed(Fx::zero());
    let mut p = predictor(4, Fx::zero(), alpha, gamma);
    let mut expected: i64 = 800_000;
    for episode in 0..3 {
        let steps = episode + 1;
        for _ in 0..steps {
            p.handle_sample(&non_terminal(0, Fx::zero(), 1));
            assert_eq!(p.alpha.value().units(), expected);
        }
        p.handle_terminal(&terminal(1, Fx::zero(), 2));
        expected /= 2;
        assert_eq!(p.alpha.value().units(), expected);
    }
    assert_eq!(p.alpha.value().units(), 100_000);
}

#[test]
fn predict_v_fails_on_unrepresentable_state() {
    let alpha = Parameter::fixed(fx(100_000));
    let gamma = Parameter::fixed(Fx::zero());
    let p = predictor(4, Fx::zero(), alpha, gamma);
    assert!(p.predict_v(&3).is_some());
    assert!(p.predict_v(&4).is_none());
    assert!(p.predict_v(&100).is_none());
}

#[test]
fn predict_v_reads_the_learned_weight() {
    let alpha = Parameter::fixed(fx(100_000));
    let gamma = Parameter::fixed(fx(900_000));
    let mut p = predictor(4, Fx::zero(), alpha, gamma);
    p.handle_sample(&non_terminal(3, Fx::one(), 0));
    // The projection has weight one, so the estimate is theta[3] itself.
    assert_eq!(p.predict_v(&3).unwrap().units(), 100_000);
    assert_eq!(p.predict_v(&0).unwrap().units(), 0);
}

#[test]
fn evaluate_phi_dense_projection_dot_product() {
    let mut fa = SimpleLFA::new(IndexProjector::new(3));
    // theta := [0.5, 0.25, 1.0] via a dense update of delta = 1.
    let shape = Projection::Dense(vec![fx(SCALE / 2), fx(SCALE / 4), Fx::one()]);
    fa.update_phi(&shape, Fx::one());
    assert_eq!(units_of(&fa.weights()), vec![SCALE / 2, SCALE / 4, SCALE]);
    // Dot of [1.0, 1.0, 0.5] against theta: 0.5 + 0.25 + 0.5.
    let phi = Projection::Dense(vec![Fx::one(), Fx::one(), fx(SCALE / 2)]);
    assert_eq!(fa.evaluate_phi(&phi).units(), 1_250_000);
}

#[test]
fn expanded_pads_to_requested_dimension() {
    let sparse = Projection::Sparse { dim: 3, active: vec![(1, fx(7))] };
    assert_eq!(units_of(&sparse.expanded(5)), vec![0, 7, 0, 0, 0]);
    let dense = Projection::Dense(vec![fx(4), fx(5)]);
    assert_eq!(units_of(&dense.expanded(4)), vec![4, 5, 0, 0]);
}

#[test]
fn sparse_projection_with_several_cells() {
    let mut fa = SimpleLFA::new(IndexProjector::new(4));
    // theta := [0.5, 0, 1.0, 0] through a sparse update of delta = 1.
    let shape = Projection::Sparse {
        dim: 4,
        active: vec![(0, fx(SCALE / 2)), (2, Fx::one())],
    };
    fa.update_phi(&shape, Fx::one());
    assert_eq!(units_of(&fa.weights()), vec![SCALE / 2, 0, SCALE, 0]);
    // Dot of the same sparse projection: 0.5 * 0.5 + 1.0 * 1.0.
    assert_eq!(fa.evaluate_phi(&shape).units(), 1_250_000);
}

#[test]
fn empty_feature_space_represents_nothing() {
    let alpha = Parameter::fixed(fx(100_000));
    let gamma = Parameter::fixed(Fx::zero());
    let p = predictor(0, Fx::zero(), alpha, gamma);
    assert!(p.predict_v(&0).is_none());
    assert_eq!(p.weights().len(), 0);
}

#[test]
fn parameter_schedules() {
    let fixed = Parameter::fixed(fx(300_000));
    let stepped = fixed.step().step();
    assert_eq!(stepped.value().units(), 300_000);

    let decaying = Parameter::exponential(Fx::one(), fx(250_000));
    let once = decaying.step();
    assert_eq!(once.value().units(), 250_000);
    assert_eq!(once.step().value().units(), 62_500);
}

#[test]
fn observation_state_and_terminal_flag() {
    let full: Observation<usize, usize> = Observation::Full { state: 7, actions: vec![0] };
    let partial: Observation<usize, usize> = Observation::Partial { state: 8, actions: vec![0] };
    let terminal: Observation<usize, usize> = Observation::Terminal(9);
    assert_eq!(*full.state(), 7);
    assert_eq!(*partial.state(), 8);
    assert_eq!(*terminal.state(), 9);
    assert!(!full.is_terminal());
    assert!(!partial.is_terminal());
    assert!(terminal.is_terminal());
}
