//! Feature projection and the linear function approximator: a projection
//! is a dense or sparse feature representation of a state; a projector
//! is an externally supplied capability that produces one; the
//! approximator pairs a projector with a weight buffer and evaluates and
//! updates a scalar value estimate.

use vstd::prelude::*;

use crate::fixed::{fx_fits, fx_mul_v, Fx, SCALE};
use crate::params::{seq_add, seq_scale, seq_zero, vals};

verus! {

/// The mathematical content of a projection: counts of a dense vector,
/// or a sparse list of index-count pairs over a shape.
pub enum ProjectionView {
    Dense { data: Seq<int> },
    Sparse { dim: int, active: Seq<(int, int)> },
}

/// The shape a projection expands into.
pub open spec fn view_dim(p: ProjectionView) -> int {
    match p {
        ProjectionView::Dense { data } => data.len() as int,
        ProjectionView::Sparse { dim, .. } => dim,
    }
}

/// The index of the `j`-th active pair of a sparse list.
pub open spec fn pair_idx(active: Seq<(int, int)>, j: int) -> int {
    active[j].0
}

/// A sparse list is well-formed when its active indices are strictly
/// increasing and lie inside the shape.
pub open spec fn sparse_wf(dim: int, active: Seq<(int, int)>) -> bool {
    &&& 0 <= dim
    &&& forall|j: int, k: int|
        0 <= j < k < active.len() ==> #[trigger] pair_idx(active, j) < #[trigger] pair_idx(
            active,
            k,
        )
    &&& forall|j: int| 0 <= j < active.len() ==> 0 <= #[trigger] pair_idx(active, j) < dim
}

/// A projection view is well-formed when its sparse part is.
pub open spec fn view_wf(p: ProjectionView) -> bool {
    match p {
        ProjectionView::Dense { .. } => true,
        ProjectionView::Sparse { dim, active } => sparse_wf(dim, active),
    }
}

/// The dense vector a sparse list of index-count pairs stands for.
pub open spec fn sparse_expand(active: Seq<(int, int)>, dim: nat) -> Seq<int>
    decreases active.len(),
{
    if active.len() == 0 {
        seq_zero(dim)
    } else {
        sparse_expand(active.drop_last(), dim).update(active.last().0, active.last().1)
    }
}

/// Expansion keeps the requested shape.
pub proof fn lemma_sparse_expand_len(active: Seq<(int, int)>, dim: nat)
    requires
        forall|j: int| 0 <= j < active.len() ==> 0 <= #[trigger] pair_idx(active, j) < dim,
    ensures
        sparse_expand(active, dim).len() == dim,
    decreases active.len(),
{
    if active.len() != 0 {
        assert forall|j: int| 0 <= j < active.drop_last().len() implies 0 <= #[trigger] pair_idx(
            active.drop_last(),
            j,
        ) < dim by {
            assert(active.drop_last()[j] == active[j]);
            assert(0 <= pair_idx(active, j) < dim);
        }
        lemma_sparse_expand_len(active.drop_last(), dim);
        assert(active.last().0 == pair_idx(active, active.len() - 1));
        assert(0 <= pair_idx(active, active.len() - 1) < dim);
    }
}

/// A cell named by no active pair expands to zero.
pub proof fn lemma_sparse_expand_untouched(active: Seq<(int, int)>, dim: nat, i: int)
    requires
        0 <= i < dim,
        forall|j: int| 0 <= j < active.len() ==> 0 <= #[trigger] pair_idx(active, j) < dim,
        forall|j: int| 0 <= j < active.len() ==> #[trigger] pair_idx(active, j) != i,
    ensures
        sparse_expand(active, dim)[i] == 0,
    decreases active.len(),
{
    if active.len() != 0 {
        assert forall|j: int| 0 <= j < active.drop_last().len() implies 0 <= #[trigger] pair_idx(
            active.drop_last(),
            j,
        ) < dim && pair_idx(active.drop_last(), j) != i by {
            assert(active.drop_last()[j] == active[j]);
            assert(0 <= pair_idx(active, j) < dim && pair_idx(active, j) != i);
        }
        lemma_sparse_expand_untouched(active.drop_last(), dim, i);
        lemma_sparse_expand_len(active.drop_last(), dim);
        assert(active.last().0 == pair_idx(active, active.len() - 1));
        assert(0 <= pair_idx(active, active.len() - 1) < dim);
        assert(pair_idx(active, active.len() - 1) != i);
    }
}

/// The dense projection a view expands into, padded with zeros up to the
/// requested shape.
pub open spec fn expand_view(p: ProjectionView, dim: nat) -> Seq<int> {
    match p {
        ProjectionView::Dense { data } => data + seq_zero((dim - data.len()) as nat),
        ProjectionView::Sparse { active, .. } => sparse_expand(active, dim),
    }
}

/// The dot product of the first `n` cells of two count vectors.
pub open spec fn dense_dot(v: Seq<int>, w: Seq<int>, n: int) -> int
    decreases n,
{
    if n <= 0 {
        0
    } else {
        dense_dot(v, w, n - 1) + fx_mul_v(v[n - 1], w[n - 1])
    }
}

/// The dot product of the first `n` active pairs against a count vector.
pub open spec fn sparse_dot(active: Seq<(int, int)>, w: Seq<int>, n: int) -> int
    decreases n,
{
    if n <= 0 {
        0
    } else {
        sparse_dot(active, w, n - 1) + fx_mul_v(active[n - 1].1, w[active[n - 1].0])
    }
}

/// The dot-product contribution of a projection against weights `w`.
pub open spec fn dot_view(p: ProjectionView, w: Seq<int>) -> int {
    match p {
        ProjectionView::Dense { data } => dense_dot(data, w, data.len() as int),
        ProjectionView::Sparse { active, .. } => sparse_dot(active, w, active.len() as int),
    }
}

/// Every term and every partial sum of a dense dot product stays in
/// range.
pub open spec fn dense_dot_ok(data: Seq<int>, w: Seq<int>) -> bool {
    &&& forall|j: int| 0 <= j < data.len() ==> fx_fits(#[trigger] fx_mul_v(data[j], w[j]))
    &&& forall|j: int| 0 <= j <= data.len() ==> fx_fits(#[trigger] dense_dot(data, w, j))
}

/// Every term and every partial sum of a sparse dot product stays in
/// range.
pub open spec fn sparse_dot_ok(active: Seq<(int, int)>, w: Seq<int>) -> bool {
    &&& forall|j: int|
        0 <= j < active.len() ==> fx_fits(#[trigger] fx_mul_v(active[j].1, w[active[j].0]))
    &&& forall|j: int| 0 <= j <= active.len() ==> fx_fits(#[trigger] sparse_dot(active, w, j))
}

/// Every term and every partial sum of the dot product stays in range.
pub open spec fn dot_ok(p: ProjectionView, w: Seq<int>) -> bool {
    match p {
        ProjectionView::Dense { data } => dense_dot_ok(data, w),
        ProjectionView::Sparse { active, .. } => sparse_dot_ok(active, w),
    }
}

/// The weights after adding a projection scaled by `c`.
pub open spec fn sparse_scaled_add(active: Seq<(int, int)>, c: int, w: Seq<int>) -> Seq<int>
    decreases active.len(),
{
    if active.len() == 0 {
        w
    } else {
        let prev = sparse_scaled_add(active.drop_last(), c, w);
        prev.update(active.last().0, prev[active.last().0] + fx_mul_v(c, active.last().1))
    }
}

/// The weights after adding projection `p` scaled by `c`.
pub open spec fn scaled_add_view(c: int, p: ProjectionView, w: Seq<int>) -> Seq<int> {
    match p {
        ProjectionView::Dense { data } => seq_add(w, seq_scale(c, data)),
        ProjectionView::Sparse { active, .. } => sparse_scaled_add(active, c, w),
    }
}

/// Every scaled term and every touched sum of a dense update stays in
/// range.
pub open spec fn dense_scaled_ok(c: int, data: Seq<int>, w: Seq<int>) -> bool {
    &&& forall|j: int| 0 <= j < data.len() ==> fx_fits(#[trigger] fx_mul_v(c, data[j]))
    &&& forall|j: int| 0 <= j < data.len() ==> fx_fits(w[j] + #[trigger] fx_mul_v(c, data[j]))
}

/// Every scaled term and every touched sum of a sparse update stays in
/// range.
pub open spec fn sparse_scaled_ok(c: int, active: Seq<(int, int)>, w: Seq<int>) -> bool {
    &&& forall|j: int| 0 <= j < active.len() ==> fx_fits(#[trigger] fx_mul_v(c, active[j].1))
    &&& forall|j: int|
        0 <= j < active.len() ==> fx_fits(w[active[j].0] + #[trigger] fx_mul_v(c, active[j].1))
}

/// Every scaled term and every touched sum of the update stays in range.
pub open spec fn scaled_add_ok(c: int, p: ProjectionView, w: Seq<int>) -> bool {
    match p {
        ProjectionView::Dense { data } => dense_scaled_ok(c, data, w),
        ProjectionView::Sparse { active, .. } => sparse_scaled_ok(c, active, w),
    }
}

/// A feature representation of a state: a full dense vector, or a sparse
/// list of index-value pairs over a shape.
#[derive(Clone, Debug)]
pub enum Projection {
    Dense(Vec<Fx>),
    Sparse { dim: usize, active: Vec<(usize, Fx)> },
}

impl View for Projection {
    type V = ProjectionView;

    open spec fn view(&self) -> ProjectionView {
        match self {
            Projection::Dense(v) => ProjectionView::Dense { data: vals(v@) },
            Projection::Sparse { dim, active } => ProjectionView::Sparse {
                dim: *dim as int,
                active: active@.map_values(|p: (usize, Fx)| (p.0 as int, p.1@)),
            },
        }
    }
}

impl Projection {
    /// Whether the sparse indices are strictly increasing and in range.
    pub open spec fn wf(&self) -> bool {
        view_wf(self@)
    }

    /// The shape this projection expands into.
    pub fn dim(&self) -> (r: usize)
        ensures
            r as int == view_dim(self@),
    {
        match self {
            Projection::Dense(v) => v.len(),
            Projection::Sparse { dim, .. } => *dim,
        }
    }

    /// Converts the projection into a dense vector of the requested
    /// shape, padding with zeros.
    pub fn expanded(&self, dim: usize) -> (r: Vec<Fx>)
        requires
            self.wf(),
            view_dim(self@) <= dim as int,
        ensures
            r@.len() == dim as int,
            vals(r@) == expand_view(self@, dim as nat),
    {
        match self {
            Projection::Dense(v) => {
                let mut out: Vec<Fx> = Vec::new();
                let mut i: usize = 0;
                while i < v.len()
                    invariant
                        i <= v@.len(),
                        out@ == v@.take(i as int),
                    decreases v@.len() - i,
                {
                    out.push(v[i]);
                    proof {
                        assert(out@ =~= v@.take(i + 1));
                    }
                    i = i + 1;
                }
                proof {
                    assert(v@.take(v@.len() as int) =~= v@);
                }
                while i < dim
                    invariant
                        v@.len() <= i as int <= dim as int,
                        out@.len() == i as int,
                        out@.take(v@.len() as int) == v@,
                        forall|j: int| v@.len() <= j < i as int ==> out@[j]@ == 0,
                    decreases dim - i,
                {
                    out.push(Fx::zero());
                    proof {
                        assert(out@.take(v@.len() as int) =~= v@);
                    }
                    i = i + 1;
                }
                proof {
                    assert(vals(out@) =~= expand_view(self@, dim as nat));
                }
                out
            },
            Projection::Sparse { dim: _, active } => {
                let mut out: Vec<Fx> = Vec::new();
                let mut i: usize = 0;
                while i < dim
                    invariant
                        i <= dim,
                        out@.len() == i as int,
                        forall|j: int| 0 <= j < i as int ==> out@[j]@ == 0,
                    decreases dim - i,
                {
                    out.push(Fx::zero());
                    i = i + 1;
                }
                proof {
                    assert(vals(out@) =~= seq_zero(dim as nat));
                }
                let ghost av = active@.map_values(|p: (usize, Fx)| (p.0 as int, p.1@));
                let ghost vd = view_dim(self@);
                proof {
                    assert(self@ == (ProjectionView::Sparse { dim: vd, active: av }));
                    assert(sparse_wf(vd, av));
                }
                let mut k: usize = 0;
                while k < active.len()
                    invariant
                        k <= active@.len(),
                        av.len() == active@.len(),
                        forall|j: int| 0 <= j < av.len() ==> #[trigger] av[j] == (
                            active@[j].0 as int,
                            active@[j].1@,
                        ),
                        sparse_wf(vd, av),
                        self@ == (ProjectionView::Sparse { dim: vd, active: av }),
                        vd <= dim as int,
                        out@.len() == dim as int,
                        vals(out@) == sparse_expand(av.take(k as int), dim as nat),
                    decreases active@.len() - k,
                {
                    let (idx, val) = active[k];
                    proof {
                        assert(av[k as int] == (idx as int, val@));
                        assert(0 <= pair_idx(av, k as int) < vd);
                        assert forall|j: int| 0 <= j < k as int implies 0 <= #[trigger] pair_idx(
                            av.take(k as int),
                            j,
                        ) < dim as nat by {
                            assert(av.take(k as int)[j] == av[j]);
                            assert(0 <= pair_idx(av, j) < vd);
                        }
                        assert(av.take(k + 1).drop_last() =~= av.take(k as int));
                        assert(av.take(k + 1).last() == av[k as int]);
                        lemma_sparse_expand_len(av.take(k as int), dim as nat);
                    }
                    out.set(idx, val);
                    proof {
                        assert(vals(out@) =~= sparse_expand(av.take(k + 1), dim as nat));
                    }
                    k = k + 1;
                }
                proof {
                    assert(av.take(av.len() as int) =~= av);
                }
                out
            },
        }
    }
}

/// An externally supplied feature projector: a stateless capability
/// mapping a raw state to a projection, or to nothing when the state
/// cannot be represented.
pub trait Projector: Sized {
    /// The raw state type this projector consumes.
    type State;

    /// The dimension of the projected feature space.
    spec fn dim_spec(&self) -> int;

    /// The projection of a state, or `None` when the state cannot be
    /// represented.
    spec fn project_view(&self, s: Self::State) -> Option<ProjectionView>;

    /// The dimension of the projected feature space.
    fn dim(&self) -> (d: usize)
        ensures
            d as int == self.dim_spec(),
    ;

    /// Projects a state.
    fn project(&self, s: &Self::State) -> (r: Option<Projection>)
        ensures
            r is Some <==> self.project_view(*s) is Some,
            r matches Some(p) ==> {
                &&& Some(p@) == self.project_view(*s)
                &&& p.wf()
                &&& view_dim(p@) == self.dim_spec()
            },
    ;
}

/// A projector over states that are already feature indices: a state `s`
/// below the dimension activates the single tile cell `s` with weight
/// one; any other state is unrepresentable.
#[derive(Clone, Copy, Debug)]
pub struct IndexProjector {
    /// The dimension of the feature space.
    pub dim: usize,
}

impl IndexProjector {
    /// Builds a projector over the given feature space.
    pub fn new(dim: usize) -> (r: IndexProjector)
        ensures
            r.dim_spec() == dim as int,
    {
        IndexProjector { dim }
    }
}

impl Projector for IndexProjector {
    type State = usize;

    open spec fn dim_spec(&self) -> int {
        self.dim as int
    }

    open spec fn project_view(&self, s: usize) -> Option<ProjectionView> {
        if (s as int) < self.dim as int {
            Some(
                ProjectionView::Sparse {
                    dim: self.dim as int,
                    active: seq![(s as int, SCALE as int)],
                },
            )
        } else {
            None
        }
    }

    fn dim(&self) -> (d: usize) {
        self.dim
    }

    fn project(&self, s: &usize) -> (r: Option<Projection>) {
        if *s < self.dim {
            let mut active: Vec<(usize, Fx)> = Vec::new();
            active.push((*s, Fx::one()));
            let p = Projection::Sparse { dim: self.dim, active };
            proof {
                let av = seq![(*s as int, SCALE as int)];
                assert(active@.map_values(|q: (usize, Fx)| (q.0 as int, q.1@)) =~= av);
                assert(pair_idx(av, 0) == *s as int);
            }
            Some(p)
        } else {
            None
        }
    }
}

/// A linear function approximator: a projector paired with a dense
/// weight buffer (theta).  The value of a state is the dot product of
/// its projection with theta, and `update_phi` is the single authorized
/// mutation point for theta.
pub struct SimpleLFA<P: Projector> {
    /// The feature projector.
    pub projector: P,
    theta: Vec<Fx>,
}

impl<P: Projector> SimpleLFA<P> {
    /// The weight counts.
    pub closed spec fn theta_spec(&self) -> Seq<int> {
        vals(self.theta@)
    }

    /// The projector.
    pub closed spec fn projector_spec(&self) -> P {
        self.projector
    }

    /// The weight buffer has exactly the projector's dimension.
    pub open spec fn wf(&self) -> bool {
        self.theta_spec().len() == self.projector_spec().dim_spec()
    }

    /// The projector.
    pub fn projector(&self) -> (r: &P)
        ensures
            *r == self.projector_spec(),
    {
        &self.projector
    }

    /// A fresh approximator with all-zero weights.
    pub fn new(projector: P) -> (r: SimpleLFA<P>)
        ensures
            r.wf(),
            r.projector_spec() == projector,
            r.theta_spec() == seq_zero(projector.dim_spec() as nat),
    {
        let dim = projector.dim();
        let mut theta: Vec<Fx> = Vec::new();
        let mut i: usize = 0;
        while i < dim
            invariant
                i <= dim,
                theta@.len() == i as int,
                forall|j: int| 0 <= j < i as int ==> theta@[j]@ == 0,
            decreases dim - i,
        {
            theta.push(Fx::zero());
            i = i + 1;
        }
        let r = SimpleLFA { projector, theta };
        proof {
            assert(r.theta_spec() =~= seq_zero(projector.dim_spec() as nat));
        }
        r
    }

    /// A read-only copy of theta for inspection or serialization.
    pub fn weights(&self) -> (r: Vec<Fx>)
        ensures
            r@.len() == self.theta_spec().len(),
            vals(r@) == self.theta_spec(),
    {
        let mut out: Vec<Fx> = Vec::new();
        let mut i: usize = 0;
        while i < self.theta.len()
            invariant
                i <= self.theta@.len(),
                out@ == self.theta@.take(i as int),
            decreases self.theta@.len() - i,
        {
            out.push(self.theta[i]);
            proof {
                assert(out@ =~= self.theta@.take(i + 1));
            }
            i = i + 1;
        }
        proof {
            assert(self.theta@.take(self.theta@.len() as int) =~= self.theta@);
        }
        out
    }

    /// The dot-product contribution of a precomputed projection against
    /// theta.
    pub fn evaluate_phi(&self, phi: &Projection) -> (r: Fx)
        requires
            self.wf(),
            phi.wf(),
            view_dim(phi@) == self.theta_spec().len(),
            dot_ok(phi@, self.theta_spec()),
        ensures
            r@ == dot_view(phi@, self.theta_spec()),
    {
        let ghost w = self.theta_spec();
        match phi {
            Projection::Dense(v) => {
                let ghost dv = vals(v@);
                proof {
                    assert(dense_dot_ok(dv, w));
                }
                let mut acc = Fx::zero();
                let mut i: usize = 0;
                while i < v.len()
                    invariant
                        i <= v@.len(),
                        dv == vals(v@),
                        dv.len() == v@.len(),
                        w == self.theta_spec(),
                        self.theta@.len() == dv.len(),
                        dense_dot_ok(dv, w),
                        acc@ == dense_dot(dv, w, i as int),
                    decreases v@.len() - i,
                {
                    proof {
                        assert(fx_fits(fx_mul_v(dv[i as int], w[i as int])));
                        assert(fx_fits(dense_dot(dv, w, i + 1)));
                        assert(dense_dot(dv, w, i + 1) == dense_dot(dv, w, i as int) + fx_mul_v(
                            dv[i as int],
                            w[i as int],
                        ));
                    }
                    acc = acc.add(v[i].mul(self.theta[i]));
                    i = i + 1;
                }
                acc
            },
            Projection::Sparse { dim: _, active } => {
                let ghost av = active@.map_values(|q: (usize, Fx)| (q.0 as int, q.1@));
                let ghost vd = view_dim(phi@);
                proof {
                    assert(phi@ == (ProjectionView::Sparse { dim: vd, active: av }));
                    assert(sparse_wf(vd, av));
                    assert(sparse_dot_ok(av, w));
                }
                let mut acc = Fx::zero();
                let mut k: usize = 0;
                while k < active.len()
                    invariant
                        k <= active@.len(),
                        av.len() == active@.len(),
                        forall|j: int| 0 <= j < av.len() ==> #[trigger] av[j] == (
                            active@[j].0 as int,
                            active@[j].1@,
                        ),
                        sparse_wf(vd, av),
                        phi@ == (ProjectionView::Sparse { dim: vd, active: av }),
                        w == self.theta_spec(),
                        self.theta@.len() == w.len(),
                        vd == w.len(),
                        sparse_dot_ok(av, w),
                        acc@ == sparse_dot(av, w, k as int),
                    decreases active@.len() - k,
                {
                    let (idx, val) = active[k];
                    proof {
                        assert(av[k as int] == (idx as int, val@));
                        assert(0 <= pair_idx(av, k as int) < vd);
                        assert(fx_fits(fx_mul_v(av[k as int].1, w[av[k as int].0])));
                        assert(fx_fits(sparse_dot(av, w, k + 1)));
                        assert(sparse_dot(av, w, k + 1) == sparse_dot(av, w, k as int) + fx_mul_v(
                            av[k as int].1,
                            w[av[k as int].0],
                        ));
                    }
                    acc = acc.add(val.mul(self.theta[idx]));
                    k = k + 1;
                }
                acc
            },
        }
    }

    /// The value estimate of a state: project, then evaluate; `None`
    /// exactly when the projector cannot represent the state.
    pub fn evaluate(&self, s: &P::State) -> (r: Option<Fx>)
        requires
            self.wf(),
            self.projector_spec().project_view(*s) matches Some(p) ==> dot_ok(
                p,
                self.theta_spec(),
            ),
        ensures
            r is Some <==> self.projector_spec().project_view(*s) is Some,
            r matches Some(v) ==> v@ == dot_view(
                self.projector_spec().project_view(*s).unwrap(),
                self.theta_spec(),
            ),
    {
        match self.projector.project(s) {
            Some(phi) => Some(self.evaluate_phi(&phi)),
            None => None,
        }
    }

    /// Adds `delta`-scaled `phi` onto theta: the single authorized
    /// mutation point for the weights.
    pub fn update_phi(&mut self, phi: &Projection, delta: Fx)
        requires
            old(self).wf(),
            phi.wf(),
            view_dim(phi@) == old(self).theta_spec().len(),
            scaled_add_ok(delta@, phi@, old(self).theta_spec()),
        ensures
            final(self).wf(),
            final(self).projector_spec() == old(self).projector_spec(),
            final(self).theta_spec() == scaled_add_view(delta@, phi@, old(self).theta_spec()),
    {
        let ghost w = old(self).theta_spec();
        match phi {
            Projection::Dense(v) => {
                let ghost dv = vals(v@);
                proof {
                    assert(dense_scaled_ok(delta@, dv, w));
                }
                let n = self.theta.len();
                let mut i: usize = 0;
                while i < n
                    invariant
                        i <= n,
                        dv == vals(v@),
                        dv.len() == n as int,
                        v@.len() == n as int,
                        self.theta@.len() == n as int,
                        w.len() == n as int,
                        w == old(self).theta_spec(),
                        self.projector == old(self).projector,
                        dense_scaled_ok(delta@, dv, w),
                        forall|j: int|
                            0 <= j < i as int ==> self.theta@[j]@ == w[j] + fx_mul_v(
                                delta@,
                                dv[j],
                            ),
                        forall|j: int| i as int <= j < n as int ==> self.theta@[j]@ == w[j],
                    decreases n - i,
                {
                    proof {
                        assert(fx_fits(fx_mul_v(delta@, dv[i as int])));
                        assert(fx_fits(w[i as int] + fx_mul_v(delta@, dv[i as int])));
                    }
                    let cur = self.theta[i];
                    self.theta.set(i, cur.add(delta.mul(v[i])));
                    i = i + 1;
                }
                proof {
                    assert(self.theta_spec() =~= scaled_add_view(delta@, phi@, w));
                }
            },
            Projection::Sparse { dim: _, active } => {
                let ghost av = active@.map_values(|q: (usize, Fx)| (q.0 as int, q.1@));
                let ghost vd = view_dim(phi@);
                proof {
                    assert(phi@ == (ProjectionView::Sparse { dim: vd, active: av }));
                    assert(sparse_wf(vd, av));
                    assert(sparse_scaled_ok(delta@, av, w));
                }
                let mut k: usize = 0;
                while k < active.len()
                    invariant
                        k <= active@.len(),
                        av.len() == active@.len(),
                        forall|j: int| 0 <= j < av.len() ==> #[trigger] av[j] == (
                            active@[j].0 as int,
                            active@[j].1@,
                        ),
                        sparse_wf(vd, av),
                        phi@ == (ProjectionView::Sparse { dim: vd, active: av }),
                        w == old(self).theta_spec(),
                        w.len() == vd,
                        self.theta@.len() == vd,
                        self.projector == old(self).projector,
                        sparse_scaled_ok(delta@, av, w),
                        vals(self.theta@) == sparse_scaled_add(av.take(k as int), delta@, w),
                        forall|j: int|
                            k as int <= j < av.len() ==> vals(self.theta@)[#[trigger] pair_idx(
                                av,
                                j,
                            )] == w[pair_idx(av, j)],
                    decreases active@.len() - k,
                {
                    let (idx, val) = active[k];
                    proof {
                        assert(av[k as int] == (idx as int, val@));
                        assert(0 <= pair_idx(av, k as int) < vd);
                        assert(fx_fits(fx_mul_v(delta@, av[k as int].1)));
                        assert(fx_fits(w[av[k as int].0] + fx_mul_v(delta@, av[k as int].1)));
                        assert(vals(self.theta@)[pair_idx(av, k as int)] == w[pair_idx(
                            av,
                            k as int,
                        )]);
                    }
                    let cur = self.theta[idx];
                    self.theta.set(idx, cur.add(delta.mul(val)));
                    proof {
                        assert(av.take(k + 1).drop_last() =~= av.take(k as int));
                        assert(av.take(k + 1).last() == av[k as int]);
                        assert(vals(self.theta@) =~= sparse_scaled_add(
                            av.take(k + 1),
                            delta@,
                            w,
                        ));
                        assert forall|j: int|
                            k + 1 <= j < av.len() implies vals(self.theta@)[#[trigger] pair_idx(
                            av,
                            j,
                        )] == w[pair_idx(av, j)] by {
                            assert(pair_idx(av, k as int) < pair_idx(av, j));
                        }
                    }
                    k = k + 1;
                }
                proof {
                    assert(av.take(av.len() as int) =~= av);
                }
            },
        }
    }
}

} // verus!
