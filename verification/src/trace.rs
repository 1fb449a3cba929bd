//! The eligibility trace: a decay rate and a dense vector of scalars
//! that accumulates projected features across one episode.

use vstd::prelude::*;

use crate::fixed::{fx_fits, fx_mul_v, lemma_fx_mul_unit, lemma_fx_mul_zero, Fx, SCALE};
use crate::parameter::Parameter;
use crate::params::{seq_add, seq_scale, seq_zero, vals};

verus! {

/// A decaying dense accumulator of projected features.
#[derive(Clone, Debug)]
pub struct Trace {
    /// The trace decay rate, a parameter in `[0, 1]`.
    pub lambda: Parameter,
    data: Vec<Fx>,
}

impl Trace {
    /// The decay-rate parameter.
    pub closed spec fn lambda_spec(&self) -> Parameter {
        self.lambda
    }

    /// The stored counts.
    pub closed spec fn counts(&self) -> Seq<int> {
        vals(self.data@)
    }

    /// The shape of the stored vector.
    pub open spec fn dim_spec(&self) -> int {
        self.counts().len() as int
    }

    /// The decay rate is a well-formed parameter in `[0, 1]`.
    pub open spec fn wf(&self) -> bool {
        &&& self.lambda_spec().wf()
        &&& 0 <= self.lambda_spec().value_spec() <= SCALE as int
    }

    /// The decay-rate parameter.
    pub fn lambda(&self) -> (r: Parameter)
        ensures
            r == self.lambda_spec(),
    {
        self.lambda
    }

    /// An all-zero trace of the given shape.
    pub fn new(lambda: Parameter, dim: usize) -> (r: Trace)
        requires
            lambda.wf(),
            0 <= lambda.value_spec() <= SCALE as int,
        ensures
            r.wf(),
            r.lambda_spec() == lambda,
            r.dim_spec() == dim as int,
            r.counts() == seq_zero(dim as nat),
    {
        let mut data: Vec<Fx> = Vec::new();
        let mut i: usize = 0;
        while i < dim
            invariant
                i <= dim,
                data@.len() == i as int,
                forall|j: int| 0 <= j < i as int ==> data@[j]@ == 0,
            decreases dim - i,
        {
            data.push(Fx::zero());
            i = i + 1;
        }
        let r = Trace { lambda, data };
        proof {
            assert(r.counts() =~= seq_zero(dim as nat));
        }
        r
    }

    /// Multiplies the entire stored vector by `rate`; a rate of zero
    /// resets the trace to all-zero.
    pub fn decay(&mut self, rate: Fx)
        requires
            0 <= rate@ <= SCALE as int,
        ensures
            final(self).lambda_spec() == old(self).lambda_spec(),
            final(self).dim_spec() == old(self).dim_spec(),
            final(self).counts() == seq_scale(rate@, old(self).counts()),
            rate@ == 0 ==> final(self).counts() == seq_zero(old(self).counts().len()),
    {
        let n = self.data.len();
        let mut i: usize = 0;
        while i < n
            invariant
                i <= n,
                self.data@.len() == n as int,
                old(self).data@.len() == n as int,
                self.lambda == old(self).lambda,
                0 <= rate@ <= SCALE as int,
                forall|j: int|
                    0 <= j < i as int ==> self.data@[j]@ == fx_mul_v(rate@, old(self).data@[j]@),
                forall|j: int| i as int <= j < n as int ==> self.data@[j] == old(self).data@[j],
            decreases n - i,
        {
            let cur = self.data[i];
            proof {
                lemma_fx_mul_unit(rate@, cur@);
            }
            self.data.set(i, rate.mul(cur));
            i = i + 1;
        }
        proof {
            assert(self.counts() =~= seq_scale(rate@, old(self).counts()));
            if rate@ == 0 {
                assert forall|j: int| 0 <= j < old(self).counts().len() implies seq_scale(
                    rate@,
                    old(self).counts(),
                )[j] == 0 by {
                    lemma_fx_mul_zero(old(self).counts()[j]);
                }
                assert(self.counts() =~= seq_zero(old(self).counts().len()));
            }
        }
    }

    /// Adds an expanded projection onto the (already decayed) stored
    /// vector.
    pub fn update(&mut self, v: &Vec<Fx>)
        requires
            v@.len() == old(self).dim_spec(),
            forall|i: int|
                0 <= i < old(self).dim_spec() ==> fx_fits(
                    old(self).counts()[i] + vals(v@)[i],
                ),
        ensures
            final(self).lambda_spec() == old(self).lambda_spec(),
            final(self).dim_spec() == old(self).dim_spec(),
            final(self).counts() == seq_add(old(self).counts(), vals(v@)),
    {
        let n = self.data.len();
        let mut i: usize = 0;
        while i < n
            invariant
                i <= n,
                self.data@.len() == n as int,
                old(self).data@.len() == n as int,
                v@.len() == n as int,
                self.lambda == old(self).lambda,
                forall|j: int|
                    0 <= j < old(self).dim_spec() ==> fx_fits(
                        old(self).counts()[j] + vals(v@)[j],
                    ),
                forall|j: int|
                    0 <= j < i as int ==> self.data@[j]@ == old(self).data@[j]@ + v@[j]@,
                forall|j: int| i as int <= j < n as int ==> self.data@[j] == old(self).data@[j],
            decreases n - i,
        {
            proof {
                assert(fx_fits(old(self).counts()[i as int] + vals(v@)[i as int]));
            }
            let cur = self.data[i];
            self.data.set(i, cur.add(v[i]));
            i = i + 1;
        }
        proof {
            assert(self.counts() =~= seq_add(old(self).counts(), vals(v@)));
        }
    }

    /// A copy of the current content.
    pub fn get(&self) -> (r: Vec<Fx>)
        ensures
            r@.len() == self.dim_spec(),
            vals(r@) == self.counts(),
    {
        let mut out: Vec<Fx> = Vec::new();
        let mut i: usize = 0;
        while i < self.data.len()
            invariant
                i <= self.data@.len(),
                out@ == self.data@.take(i as int),
            decreases self.data@.len() - i,
        {
            out.push(self.data[i]);
            proof {
                assert(out@ =~= self.data@.take(i + 1));
            }
            i = i + 1;
        }
        proof {
            assert(self.data@.take(self.data@.len() as int) =~= self.data@);
        }
        out
    }
}

} // verus!
