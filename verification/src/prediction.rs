//! The TD(lambda) predictor: orchestrates a projector, an eligibility
//! trace and a linear function approximator to update weights from
//! observed transitions, owning decaying alpha and gamma parameters.
//!
//! A non-terminal transition bootstraps the target from the next state's
//! value; a terminal transition uses the observed reward alone, resets
//! the trace and steps the parameter schedules exactly once.

use vstd::prelude::*;

use crate::domain::Transition;
use crate::fa::{
    dot_ok, dot_view, expand_view, lemma_sparse_expand_len, lemma_sparse_expand_untouched,
    pair_idx, sparse_wf, Projection, ProjectionView, Projector, SimpleLFA, view_dim, view_wf,
};
use crate::fixed::{fx_fits, fx_mul_v, lemma_fx_mul_unit, lemma_fx_mul_zero, Fx, SCALE};
use crate::parameter::{param_stepped, sched_value, Parameter, Schedule};
use crate::params::{seq_add, seq_scale, seq_zero, vals};
use crate::trace::Trace;

verus! {

/// The trace after one step: the old content decayed by
/// `lambda * gamma`, plus the expanded projection of the current state.
pub open spec fn trace_after(
    lambda: int,
    gamma: int,
    tr: Seq<int>,
    phi: ProjectionView,
    dim: nat,
) -> Seq<int> {
    seq_add(seq_scale(fx_mul_v(lambda, gamma), tr), expand_view(phi, dim))
}

/// The weights after one step: the old weights plus the trace scaled by
/// `c = alpha * delta`.
pub open spec fn theta_after(c: int, tr: Seq<int>, theta: Seq<int>) -> Seq<int> {
    seq_add(theta, seq_scale(c, tr))
}

/// A TD(lambda) value-function predictor.
pub struct TDLambda<P: Projector> {
    trace: Trace,
    /// The linear function approximator holding the learned weights.
    pub fa_theta: SimpleLFA<P>,
    /// The learning rate, stepped once per episode.
    pub alpha: Parameter,
    /// The discount factor, stepped once per episode.
    pub gamma: Parameter,
}

impl<P: Projector> TDLambda<P> {
    /// The eligibility-trace counts.
    pub closed spec fn trace_counts(&self) -> Seq<int> {
        self.trace.counts()
    }

    /// The trace decay-rate parameter.
    pub closed spec fn trace_lambda(&self) -> Parameter {
        self.trace.lambda_spec()
    }

    /// The weight counts.
    pub closed spec fn theta(&self) -> Seq<int> {
        self.fa_theta.theta_spec()
    }

    /// The projector.
    pub closed spec fn projector_spec(&self) -> P {
        self.fa_theta.projector_spec()
    }

    /// The learning-rate parameter.
    pub closed spec fn alpha_spec(&self) -> Parameter {
        self.alpha
    }

    /// The discount-factor parameter.
    pub closed spec fn gamma_spec(&self) -> Parameter {
        self.gamma
    }

    /// Trace and weights share the projector's dimension; lambda and
    /// gamma are well-formed parameters in `[0, 1]`; alpha is a
    /// well-formed parameter.
    pub open spec fn wf(&self) -> bool {
        &&& self.theta().len() == self.projector_spec().dim_spec()
        &&& self.trace_counts().len() == self.theta().len()
        &&& self.trace_lambda().wf()
        &&& 0 <= self.trace_lambda().value_spec() <= SCALE as int
        &&& self.alpha_spec().wf()
        &&& self.gamma_spec().wf()
        &&& 0 <= self.gamma_spec().value_spec() <= SCALE as int
    }

    /// Assembles a predictor from a trace, an approximator and its two
    /// parameters.
    pub fn new(trace: Trace, fa_theta: SimpleLFA<P>, alpha: Parameter, gamma: Parameter) -> (r:
        TDLambda<P>)
        requires
            trace.wf(),
            fa_theta.wf(),
            trace.dim_spec() == fa_theta.theta_spec().len(),
            alpha.wf(),
            gamma.wf(),
            0 <= gamma.value_spec() <= SCALE as int,
        ensures
            r.wf(),
            r.trace_counts() == trace.counts(),
            r.trace_lambda() == trace.lambda_spec(),
            r.theta() == fa_theta.theta_spec(),
            r.projector_spec() == fa_theta.projector_spec(),
            r.alpha_spec() == alpha,
            r.gamma_spec() == gamma,
    {
        TDLambda { trace, fa_theta, alpha, gamma }
    }

    /// Every intermediate value of one trace-and-weights update stays in
    /// range: the new trace cells, the scaled trace cells, and the
    /// updated weights.
    pub open spec fn update_v_ok(&self, phi: ProjectionView, error: int) -> bool {
        let dim = self.theta().len();
        let tr1 = trace_after(
            self.trace_lambda().value_spec(),
            self.gamma_spec().value_spec(),
            self.trace_counts(),
            phi,
            dim as nat,
        );
        let c = fx_mul_v(self.alpha_spec().value_spec(), error);
        &&& fx_fits(c)
        &&& forall|i: int| 0 <= i < dim ==> fx_fits(#[trigger] tr1[i])
        &&& forall|i: int| 0 <= i < dim ==> fx_fits(#[trigger] fx_mul_v(c, tr1[i]))
        &&& forall|i: int| 0 <= i < dim ==> fx_fits(self.theta()[i] + #[trigger] fx_mul_v(c, tr1[i]))
    }

    /// Decays the trace by `lambda * gamma`, folds in the projection of
    /// the current state, and applies the `alpha * error`-scaled trace
    /// to the weights.
    fn update_v(&mut self, phi_s: Projection, error: Fx)
        requires
            old(self).wf(),
            phi_s.wf(),
            view_dim(phi_s@) == old(self).theta().len(),
            old(self).update_v_ok(phi_s@, error@),
        ensures
            final(self).wf(),
            final(self).trace_counts() == trace_after(
                old(self).trace_lambda().value_spec(),
                old(self).gamma_spec().value_spec(),
                old(self).trace_counts(),
                phi_s@,
                old(self).theta().len() as nat,
            ),
            final(self).theta() == theta_after(
                fx_mul_v(old(self).alpha_spec().value_spec(), error@),
                final(self).trace_counts(),
                old(self).theta(),
            ),
            final(self).trace_lambda() == old(self).trace_lambda(),
            final(self).projector_spec() == old(self).projector_spec(),
            final(self).alpha_spec() == old(self).alpha_spec(),
            final(self).gamma_spec() == old(self).gamma_spec(),
    {
        let ghost dim = old(self).theta().len();
        let ghost tr1 = trace_after(
            old(self).trace_lambda().value_spec(),
            old(self).gamma_spec().value_spec(),
            old(self).trace_counts(),
            phi_s@,
            dim as nat,
        );
        let ghost c = fx_mul_v(old(self).alpha_spec().value_spec(), error@);
        proof {
            lemma_fx_mul_unit(self.trace_lambda().value_spec(), self.gamma_spec().value_spec());
        }
        let decay_rate = self.trace.lambda().value().mul(self.gamma.value());
        self.trace.decay(decay_rate);
        let dim_e = self.fa_theta.projector().dim();
        let expanded = phi_s.expanded(dim_e);
        proof {
            assert forall|i: int| 0 <= i < self.trace.counts().len() implies fx_fits(
                self.trace.counts()[i] + vals(expanded@)[i],
            ) by {
                assert(self.trace.counts()[i] + vals(expanded@)[i] == tr1[i]);
                assert(fx_fits(tr1[i]));
            }
        }
        self.trace.update(&expanded);
        proof {
            assert(self.trace.counts() =~= tr1);
        }
        let tr = self.trace.get();
        let scaled = self.alpha.value().mul(error);
        proof {
            assert(vals(tr@) == tr1);
            assert(crate::fa::dense_scaled_ok(c, vals(tr@), old(self).theta()));
        }
        self.fa_theta.update_phi(&Projection::Dense(tr), scaled);
        proof {
            assert(final(self).theta() == theta_after(c, tr1, old(self).theta()));
        }
    }

    /// Every side condition of a non-terminal update: both states
    /// project, every dot product stays in range, the TD error fits,
    /// and the trace-and-weights update fits.
    pub open spec fn sample_ok<A>(&self, t: Transition<P::State, A>) -> bool {
        let pj = self.projector_spec();
        &&& pj.project_view(t.from.state_spec()) is Some
        &&& pj.project_view(t.to.state_spec()) is Some
        &&& {
            let phi = pj.project_view(t.from.state_spec()).unwrap();
            let phi_to = pj.project_view(t.to.state_spec()).unwrap();
            let v = dot_view(phi, self.theta());
            let nv = dot_view(phi_to, self.theta());
            let g = fx_mul_v(self.gamma_spec().value_spec(), nv);
            &&& dot_ok(phi, self.theta())
            &&& dot_ok(phi_to, self.theta())
            &&& fx_fits(g)
            &&& fx_fits(t.reward@ + g)
            &&& fx_fits(t.reward@ + g - v)
            &&& self.update_v_ok(phi, t.reward@ + g - v)
        }
    }

    /// Every side condition of a terminal update: the source state
    /// projects, its dot product stays in range, the reward-only TD
    /// error fits, the update fits, and the schedules can step.
    pub open spec fn terminal_ok<A>(&self, t: Transition<P::State, A>) -> bool {
        let pj = self.projector_spec();
        &&& pj.project_view(t.from.state_spec()) is Some
        &&& {
            let phi = pj.project_view(t.from.state_spec()).unwrap();
            let v = dot_view(phi, self.theta());
            &&& dot_ok(phi, self.theta())
            &&& fx_fits(t.reward@ - v)
            &&& self.update_v_ok(phi, t.reward@ - v)
            &&& self.alpha_spec().count_spec() < usize::MAX
            &&& self.gamma_spec().count_spec() < usize::MAX
        }
    }

    /// How one non-terminal transition relates the predictor's states:
    /// the TD error bootstraps from the next state's value, the trace is
    /// decayed and updated, the weights move along the trace, and the
    /// parameters do not step.
    pub open spec fn sample_rel<A>(pre: TDLambda<P>, post: TDLambda<P>, t: Transition<
        P::State,
        A,
    >) -> bool {
        let pj = pre.projector_spec();
        let phi = pj.project_view(t.from.state_spec()).unwrap();
        let phi_to = pj.project_view(t.to.state_spec()).unwrap();
        let v = dot_view(phi, pre.theta());
        let nv = dot_view(phi_to, pre.theta());
        let delta = t.reward@ + fx_mul_v(pre.gamma_spec().value_spec(), nv) - v;
        let dim = pre.theta().len();
        let tr1 = trace_after(
            pre.trace_lambda().value_spec(),
            pre.gamma_spec().value_spec(),
            pre.trace_counts(),
            phi,
            dim as nat,
        );
        &&& post.trace_counts() == tr1
        &&& post.theta() == theta_after(
            fx_mul_v(pre.alpha_spec().value_spec(), delta),
            tr1,
            pre.theta(),
        )
        &&& post.trace_lambda() == pre.trace_lambda()
        &&& post.projector_spec() == pre.projector_spec()
        &&& post.alpha_spec() == pre.alpha_spec()
        &&& post.gamma_spec() == pre.gamma_spec()
    }

    /// How one terminal transition relates the predictor's states: the
    /// TD error is the reward alone (terminal value is defined as zero),
    /// the weights move along the updated trace, the trace is then reset
    /// to all-zero, and both schedules step exactly once.
    pub open spec fn terminal_rel<A>(pre: TDLambda<P>, post: TDLambda<P>, t: Transition<
        P::State,
        A,
    >) -> bool {
        let pj = pre.projector_spec();
        let phi = pj.project_view(t.from.state_spec()).unwrap();
        let v = dot_view(phi, pre.theta());
        let delta = t.reward@ - v;
        let dim = pre.theta().len();
        let tr1 = trace_after(
            pre.trace_lambda().value_spec(),
            pre.gamma_spec().value_spec(),
            pre.trace_counts(),
            phi,
            dim as nat,
        );
        &&& post.trace_counts() == seq_zero(dim as nat)
        &&& post.theta() == theta_after(
            fx_mul_v(pre.alpha_spec().value_spec(), delta),
            tr1,
            pre.theta(),
        )
        &&& post.trace_lambda() == pre.trace_lambda()
        &&& post.projector_spec() == pre.projector_spec()
        &&& param_stepped(pre.alpha_spec(), post.alpha_spec())
        &&& param_stepped(pre.gamma_spec(), post.gamma_spec())
    }

    /// Handles a non-terminal transition: bootstrapped target, no
    /// schedule step.
    pub fn handle_sample<A>(&mut self, t: &Transition<P::State, A>)
        requires
            old(self).wf(),
            old(self).sample_ok(*t),
        ensures
            final(self).wf(),
            Self::sample_rel(*old(self), *final(self), *t),
    {
        let phi_s = match self.fa_theta.projector().project(t.from.state()) {
            Some(p) => p,
            None => vstd::pervasive::unreached(),
        };
        let v = self.fa_theta.evaluate_phi(&phi_s);
        let nv = match self.fa_theta.evaluate(t.to.state()) {
            Some(x) => x,
            None => vstd::pervasive::unreached(),
        };
        let td_error = t.reward.add(self.gamma.value().mul(nv)).sub(v);
        self.update_v(phi_s, td_error);
    }

    /// Handles a terminal transition: reward-only target, trace reset,
    /// one schedule step for alpha and gamma.
    pub fn handle_terminal<A>(&mut self, t: &Transition<P::State, A>)
        requires
            old(self).wf(),
            old(self).terminal_ok(*t),
        ensures
            final(self).wf(),
            Self::terminal_rel(*old(self), *final(self), *t),
    {
        let phi_s = match self.fa_theta.projector().project(t.from.state()) {
            Some(p) => p,
            None => vstd::pervasive::unreached(),
        };
        let v = self.fa_theta.evaluate_phi(&phi_s);
        let td_error = t.reward.sub(v);
        self.update_v(phi_s, td_error);
        self.trace.decay(Fx::zero());
        proof {
            let g = old(self).gamma_spec();
            assert(sched_value(g.init_spec(), g.sched_spec(), g.count_spec() + 1) == match g
                .sched_spec() {
                Schedule::Constant => sched_value(g.init_spec(), g.sched_spec(), g.count_spec()),
                Schedule::Exponential { rate } => fx_mul_v(
                    rate@,
                    sched_value(g.init_spec(), g.sched_spec(), g.count_spec()),
                ),
            });
            match g.sched_spec() {
                Schedule::Constant => {},
                Schedule::Exponential { rate } => {
                    lemma_fx_mul_unit(rate@, g.value_spec());
                },
            }
        }
        self.alpha = self.alpha.step();
        self.gamma = self.gamma.step();
    }

    /// Routes a transition by the variant of its `to` observation: a
    /// terminal transition always takes the reward-only path, any other
    /// transition the bootstrapped path.
    pub fn handle_transition<A>(&mut self, t: &Transition<P::State, A>)
        requires
            old(self).wf(),
            t.to.is_terminal_spec() ==> old(self).terminal_ok(*t),
            !t.to.is_terminal_spec() ==> old(self).sample_ok(*t),
        ensures
            final(self).wf(),
            t.to.is_terminal_spec() ==> Self::terminal_rel(*old(self), *final(self), *t),
            !t.to.is_terminal_spec() ==> Self::sample_rel(*old(self), *final(self), *t),
    {
        if t.to.is_terminal() {
            self.handle_terminal(t);
        } else {
            self.handle_sample(t);
        }
    }

    /// The value estimate of a state, or `None` when the projector
    /// cannot represent it.
    pub fn predict_v(&self, s: &P::State) -> (r: Option<Fx>)
        requires
            self.wf(),
            self.projector_spec().project_view(*s) matches Some(p) ==> dot_ok(p, self.theta()),
        ensures
            r is Some <==> self.projector_spec().project_view(*s) is Some,
            r matches Some(v) ==> v@ == dot_view(
                self.projector_spec().project_view(*s).unwrap(),
                self.theta(),
            ),
    {
        self.fa_theta.evaluate(s)
    }

    /// A read-only copy of the weights for inspection or persistence.
    pub fn weights(&self) -> (r: Vec<Fx>)
        ensures
            r@.len() == self.theta().len(),
            vals(r@) == self.theta(),
    {
        self.fa_theta.weights()
    }
}

/// Single-step episode law: with gamma and lambda both zero, a terminal
/// transition with reward `r` moves every weight by exactly
/// `alpha * (r - v_old)` times the expanded current feature — no
/// bootstrap term enters the TD error, and no weight outside the
/// feature's active cells moves (no trace spread).
pub proof fn lemma_terminal_update_no_bootstrap<P: Projector, A>(
    pre: TDLambda<P>,
    post: TDLambda<P>,
    t: Transition<P::State, A>,
)
    requires
        pre.wf(),
        pre.gamma_spec().value_spec() == 0,
        pre.trace_lambda().value_spec() == 0,
        pre.projector_spec().project_view(t.from.state_spec()) is Some,
        view_wf(pre.projector_spec().project_view(t.from.state_spec()).unwrap()),
        view_dim(pre.projector_spec().project_view(t.from.state_spec()).unwrap())
            == pre.theta().len(),
        TDLambda::terminal_rel(pre, post, t),
    ensures
        ({
            let phi = pre.projector_spec().project_view(t.from.state_spec()).unwrap();
            let dim = pre.theta().len();
            let e = expand_view(phi, dim as nat);
            let c = fx_mul_v(
                pre.alpha_spec().value_spec(),
                t.reward@ - dot_view(phi, pre.theta()),
            );
            &&& post.theta().len() == dim
            &&& forall|i: int|
                0 <= i < dim ==> #[trigger] post.theta()[i] == pre.theta()[i] + fx_mul_v(c, e[i])
            &&& phi matches ProjectionView::Sparse { active, .. } ==> forall|i: int|
                0 <= i < dim && (forall|j: int|
                    0 <= j < active.len() ==> #[trigger] pair_idx(active, j) != i)
                    ==> #[trigger] post.theta()[i] == pre.theta()[i]
        }),
{
    let phi = pre.projector_spec().project_view(t.from.state_spec()).unwrap();
    let dim = pre.theta().len();
    let tr0 = pre.trace_counts();
    let e = expand_view(phi, dim as nat);
    let c = fx_mul_v(pre.alpha_spec().value_spec(), t.reward@ - dot_view(phi, pre.theta()));
    let tr1 = trace_after(0, 0, tr0, phi, dim as nat);
    assert(fx_mul_v(0, 0) == 0) by {
        lemma_fx_mul_zero(0);
    }
    match phi {
        ProjectionView::Dense { data } => {
            assert(e.len() == dim);
        },
        ProjectionView::Sparse { dim: vd, active } => {
            assert(sparse_wf(vd, active));
            lemma_sparse_expand_len(active, dim as nat);
        },
    }
    assert forall|i: int| 0 <= i < dim implies tr1[i] == e[i] by {
        lemma_fx_mul_zero(tr0[i]);
        assert(seq_scale(0, tr0)[i] == 0);
    }
    assert forall|i: int|
        0 <= i < dim implies #[trigger] post.theta()[i] == pre.theta()[i] + fx_mul_v(c, e[i]) by {
        assert(post.theta()[i] == pre.theta()[i] + fx_mul_v(c, tr1[i]));
    }
    match phi {
        ProjectionView::Sparse { dim: vd, active } => {
            assert forall|i: int|
                0 <= i < dim && (forall|j: int|
                    0 <= j < active.len() ==> #[trigger] pair_idx(active, j) != i)
                    implies #[trigger] post.theta()[i] == pre.theta()[i] by {
                assert(sparse_wf(vd, active));
                lemma_sparse_expand_untouched(active, dim as nat, i);
                assert(e[i] == 0);
                lemma_fx_mul_zero(c);
                assert(fx_mul_v(c, 0) == 0);
            }
        },
        ProjectionView::Dense { .. } => {},
    }
}

} // verus!
