//! The additive buffer algebra: fixed-shape accumulators, either sparse
//! with at most one active cell (`Tile`) or dense (`Dense`), sharing one
//! set of algebraic operations.  Targets of `addto` and `scaled_addto`
//! are plain dense vectors of scalars.

use vstd::prelude::*;

use crate::fixed::{fx_fits, fx_mul_v, Fx};

verus! {

/// The counts held by a vector of scalars.
pub open spec fn vals(s: Seq<Fx>) -> Seq<int> {
    s.map_values(|x: Fx| x@)
}

/// Elementwise sum of two equally long count sequences.
pub open spec fn seq_add(a: Seq<int>, b: Seq<int>) -> Seq<int> {
    Seq::new(a.len(), |i: int| a[i] + b[i])
}

/// Every count scaled by the fixed-point factor `r`.
pub open spec fn seq_scale(r: int, s: Seq<int>) -> Seq<int> {
    Seq::new(s.len(), |i: int| fx_mul_v(r, s[i]))
}

/// The all-zero count sequence of length `n`.
pub open spec fn seq_zero(n: nat) -> Seq<int> {
    Seq::new(n, |i: int| 0)
}

/// What a sparse buffer with active cell `act` adds to a target.
pub open spec fn tile_add_spec(act: Option<(usize, Fx)>, s: Seq<int>) -> Seq<int> {
    match act {
        None => s,
        Some((i, v)) => s.update(i as int, s[i as int] + v@),
    }
}

/// What a sparse buffer adds to a target when scaled by `alpha`.
pub open spec fn tile_scaled_add_spec(act: Option<(usize, Fx)>, alpha: int, s: Seq<int>) -> Seq<
    int,
> {
    match act {
        None => s,
        Some((i, v)) => s.update(i as int, s[i as int] + fx_mul_v(alpha, v@)),
    }
}

/// A sparse buffer over a fixed shape, carrying at most one active
/// index-value pair.
#[derive(Clone, Copy, Debug)]
pub struct Tile {
    dim: usize,
    active: Option<(usize, Fx)>,
}

/// The result of a unary transform of a sparse buffer: same shape, same
/// active index, and the active value related to the old one by `f`.
pub open spec fn tile_map_rel<F: Fn(Fx) -> Fx>(b: Tile, f: F, r: Tile) -> bool {
    &&& r.dim_spec() == b.dim_spec()
    &&& b.active_spec() is None ==> r.active_spec() is None
    &&& b.active_spec() is Some ==> {
        &&& r.active_spec() is Some
        &&& r.active_spec().unwrap().0 == b.active_spec().unwrap().0
        &&& call_ensures(f, (b.active_spec().unwrap().1,), r.active_spec().unwrap().1)
    }
}

impl Tile {
    /// The shape of this buffer.
    pub closed spec fn dim_spec(&self) -> int {
        self.dim as int
    }

    /// The active cell, if any.
    pub closed spec fn active_spec(&self) -> Option<(usize, Fx)> {
        self.active
    }

    /// The active index, when there is one, lies inside the shape.
    pub open spec fn wf(&self) -> bool {
        self.active_spec() matches Some(p) ==> (p.0 as int) < self.dim_spec()
    }

    /// Builds a sparse buffer from its shape and active cell.
    pub fn new(dim: usize, active: Option<(usize, Fx)>) -> (r: Tile)
        requires
            active matches Some(p) ==> (p.0 as int) < dim as int,
        ensures
            r.dim_spec() == dim as int,
            r.active_spec() == active,
            r.wf(),
    {
        Tile { dim, active }
    }

    /// The shape of this buffer.
    pub fn raw_dim(&self) -> (r: usize)
        ensures
            r as int == self.dim_spec(),
    {
        self.dim
    }

    /// The active cell, if any.
    pub fn active(&self) -> (r: Option<(usize, Fx)>)
        ensures
            r == self.active_spec(),
    {
        self.active
    }

    /// A buffer of the given shape with no active cell.
    pub fn zeros(dim: usize) -> (r: Tile)
        ensures
            r.dim_spec() == dim as int,
            r.active_spec() is None,
            r.wf(),
    {
        Tile::new(dim, None)
    }

    /// Adds the active value, if any, into the matching cell of `arr`;
    /// every other cell is untouched.
    pub fn addto(&self, arr: &mut Vec<Fx>)
        requires
            self.wf(),
            old(arr)@.len() == self.dim_spec(),
            self.active_spec() matches Some(p) ==> fx_fits(
                old(arr)@[p.0 as int]@ + p.1@,
            ),
        ensures
            final(arr)@.len() == old(arr)@.len(),
            vals(final(arr)@) == tile_add_spec(self.active_spec(), vals(old(arr)@)),
    {
        if let Some((idx, activation)) = self.active {
            let cur = arr[idx];
            arr.set(idx, cur.add(activation));
        }
        proof {
            assert(vals(arr@) =~= tile_add_spec(self.active_spec(), vals(old(arr)@)));
        }
    }

    /// Adds the active value scaled by `alpha`, if any, into the matching
    /// cell of `arr`; every other cell is untouched.
    pub fn scaled_addto(&self, alpha: Fx, arr: &mut Vec<Fx>)
        requires
            self.wf(),
            old(arr)@.len() == self.dim_spec(),
            self.active_spec() matches Some(p) ==> fx_fits(fx_mul_v(alpha@, p.1@)) && fx_fits(
                old(arr)@[p.0 as int]@ + fx_mul_v(alpha@, p.1@),
            ),
        ensures
            final(arr)@.len() == old(arr)@.len(),
            vals(final(arr)@) == tile_scaled_add_spec(self.active_spec(), alpha@, vals(old(arr)@)),
    {
        if let Some((idx, activation)) = self.active {
            let cur = arr[idx];
            arr.set(idx, cur.add(alpha.mul(activation)));
        }
        proof {
            assert(vals(arr@) =~= tile_scaled_add_spec(self.active_spec(), alpha@, vals(old(arr)@)));
        }
    }

    /// Copy-variant unary transform of the active value.
    pub fn map<F: Fn(Fx) -> Fx>(&self, f: F) -> (r: Tile)
        requires
            self.active_spec() matches Some(p) ==> call_requires(f, (p.1,)),
        ensures
            tile_map_rel(*self, f, r),
            self.wf() ==> r.wf(),
    {
        self.clone().map_into(f)
    }

    /// Move-variant unary transform of the active value.
    pub fn map_into<F: Fn(Fx) -> Fx>(self, f: F) -> (r: Tile)
        requires
            self.active_spec() matches Some(p) ==> call_requires(f, (p.1,)),
        ensures
            tile_map_rel(self, f, r),
            self.wf() ==> r.wf(),
    {
        Tile {
            dim: self.dim,
            active: match self.active {
                Some((idx, a)) => Some((idx, f(a))),
                None => None,
            },
        }
    }

    /// In-place unary transform of the active value.
    pub fn map_inplace<F: Fn(Fx) -> Fx>(&mut self, f: F)
        requires
            old(self).active_spec() matches Some(p) ==> call_requires(f, (p.1,)),
        ensures
            tile_map_rel(*old(self), f, *final(self)),
            old(self).wf() ==> final(self).wf(),
    {
        if let Some((idx, x)) = self.active {
            self.active = Some((idx, f(x)));
        }
    }

    /// Copy-variant elementwise combination; requires matching shapes and
    /// matching active indices.
    pub fn merge<F: Fn(Fx, Fx) -> Fx>(&self, other: &Tile, f: F) -> (r: Tile)
        requires
            self.dim_spec() == other.dim_spec(),
            self.active_spec() is Some,
            other.active_spec() is Some,
            self.active_spec().unwrap().0 == other.active_spec().unwrap().0,
            call_requires(f, (self.active_spec().unwrap().1, other.active_spec().unwrap().1)),
        ensures
            r.dim_spec() == self.dim_spec(),
            r.active_spec() is Some,
            r.active_spec().unwrap().0 == self.active_spec().unwrap().0,
            call_ensures(
                f,
                (self.active_spec().unwrap().1, other.active_spec().unwrap().1),
                r.active_spec().unwrap().1,
            ),
            self.wf() ==> r.wf(),
    {
        self.clone().merge_into(other, f)
    }

    /// Move-variant elementwise combination.
    pub fn merge_into<F: Fn(Fx, Fx) -> Fx>(self, other: &Tile, f: F) -> (r: Tile)
        requires
            self.dim_spec() == other.dim_spec(),
            self.active_spec() is Some,
            other.active_spec() is Some,
            self.active_spec().unwrap().0 == other.active_spec().unwrap().0,
            call_requires(f, (self.active_spec().unwrap().1, other.active_spec().unwrap().1)),
        ensures
            r.dim_spec() == self.dim_spec(),
            r.active_spec() is Some,
            r.active_spec().unwrap().0 == self.active_spec().unwrap().0,
            call_ensures(
                f,
                (self.active_spec().unwrap().1, other.active_spec().unwrap().1),
                r.active_spec().unwrap().1,
            ),
            self.wf() ==> r.wf(),
    {
        let mut this = self;
        this.merge_inplace(other, f);
        this
    }

    /// In-place elementwise combination.
    pub fn merge_inplace<F: Fn(Fx, Fx) -> Fx>(&mut self, other: &Tile, f: F)
        requires
            old(self).dim_spec() == other.dim_spec(),
            old(self).active_spec() is Some,
            other.active_spec() is Some,
            old(self).active_spec().unwrap().0 == other.active_spec().unwrap().0,
            call_requires(f, (old(self).active_spec().unwrap().1, other.active_spec().unwrap().1)),
        ensures
            final(self).dim_spec() == old(self).dim_spec(),
            final(self).active_spec() is Some,
            final(self).active_spec().unwrap().0 == old(self).active_spec().unwrap().0,
            call_ensures(
                f,
                (old(self).active_spec().unwrap().1, other.active_spec().unwrap().1),
                final(self).active_spec().unwrap().1,
            ),
            old(self).wf() ==> final(self).wf(),
    {
        let (i, x) = self.active.unwrap();
        let (_, y) = other.active.unwrap();
        self.active = Some((i, f(x, y)));
    }
}

/// The result of an elementwise unary transform of a dense buffer.
pub open spec fn dense_map_rel<F: Fn(Fx) -> Fx>(b: Seq<Fx>, f: F, r: Seq<Fx>) -> bool {
    &&& r.len() == b.len()
    &&& forall|i: int| 0 <= i < b.len() ==> call_ensures(f, (b[i],), #[trigger] r[i])
}

/// The result of an elementwise binary combination of two dense buffers.
pub open spec fn dense_merge_rel<F: Fn(Fx, Fx) -> Fx>(
    a: Seq<Fx>,
    b: Seq<Fx>,
    f: F,
    r: Seq<Fx>,
) -> bool {
    &&& r.len() == a.len()
    &&& forall|i: int| 0 <= i < a.len() ==> call_ensures(f, (a[i], b[i]), #[trigger] r[i])
}

/// A dense buffer: a full vector of scalars over a fixed shape.
#[derive(Clone, Debug)]
pub struct Dense {
    data: Vec<Fx>,
}

impl Dense {
    /// The stored scalars.
    pub closed spec fn elems(&self) -> Seq<Fx> {
        self.data@
    }

    /// The stored counts.
    pub open spec fn counts(&self) -> Seq<int> {
        vals(self.elems())
    }

    /// The shape of this buffer.
    pub open spec fn dim_spec(&self) -> int {
        self.elems().len() as int
    }

    /// Wraps a vector of scalars as a dense buffer.
    pub fn from_vec(data: Vec<Fx>) -> (r: Dense)
        ensures
            r.elems() == data@,
    {
        Dense { data }
    }

    /// An all-zero buffer of the given shape.
    pub fn zeros(dim: usize) -> (r: Dense)
        ensures
            r.dim_spec() == dim as int,
            r.counts() == seq_zero(dim as nat),
    {
        let mut data: Vec<Fx> = Vec::new();
        let mut i: usize = 0;
        while i < dim
            invariant
                i <= dim,
                data@.len() == i as int,
                forall|j: int| 0 <= j < i as int ==> data@[j]@ == 0,
            decreases dim - i,
        {
            data.push(Fx::zero());
            i = i + 1;
        }
        let r = Dense { data };
        proof {
            assert(r.counts() =~= seq_zero(dim as nat));
        }
        r
    }

    /// The stored scalars, as a vector.
    pub fn to_vec(&self) -> (r: Vec<Fx>)
        ensures
            r@ == self.elems(),
    {
        let mut out: Vec<Fx> = Vec::new();
        let mut i: usize = 0;
        while i < self.data.len()
            invariant
                i <= self.data@.len(),
                out@ == self.data@.take(i as int),
            decreases self.data@.len() - i,
        {
            out.push(self.data[i]);
            proof {
                assert(out@ =~= self.data@.take(i + 1));
            }
            i = i + 1;
        }
        proof {
            assert(self.data@.take(self.data@.len() as int) =~= self.data@);
        }
        out
    }

    /// The shape of this buffer.
    pub fn raw_dim(&self) -> (r: usize)
        ensures
            r as int == self.dim_spec(),
    {
        self.data.len()
    }

    /// Adds every cell into the matching cell of `arr`.
    pub fn addto(&self, arr: &mut Vec<Fx>)
        requires
            old(arr)@.len() == self.dim_spec(),
            forall|i: int|
                0 <= i < self.dim_spec() ==> fx_fits(vals(old(arr)@)[i] + self.counts()[i]),
        ensures
            final(arr)@.len() == old(arr)@.len(),
            vals(final(arr)@) == seq_add(vals(old(arr)@), self.counts()),
    {
        let mut i: usize = 0;
        while i < self.data.len()
            invariant
                i <= self.elems().len(),
                arr@.len() == self.elems().len(),
                old(arr)@.len() == self.elems().len(),
                forall|j: int|
                    0 <= j < self.dim_spec() ==> fx_fits(vals(old(arr)@)[j] + self.counts()[j]),
                forall|j: int| 0 <= j < i as int ==> arr@[j]@ == old(arr)@[j]@ + self.elems()[j]@,
                forall|j: int| i as int <= j < self.elems().len() ==> arr@[j] == old(arr)@[j],
            decreases self.elems().len() - i,
        {
            proof {
                assert(fx_fits(vals(old(arr)@)[i as int] + self.counts()[i as int]));
            }
            let cur = arr[i];
            arr.set(i, cur.add(self.data[i]));
            i = i + 1;
        }
        proof {
            assert(vals(arr@) =~= seq_add(vals(old(arr)@), self.counts()));
        }
    }

    /// Adds every cell, scaled by `alpha`, into the matching cell of
    /// `arr`.
    pub fn scaled_addto(&self, alpha: Fx, arr: &mut Vec<Fx>)
        requires
            old(arr)@.len() == self.dim_spec(),
            forall|i: int|
                0 <= i < self.dim_spec() ==> fx_fits(#[trigger] fx_mul_v(alpha@, self.counts()[i])),
            forall|i: int|
                0 <= i < self.dim_spec() ==> fx_fits(
                    vals(old(arr)@)[i] + #[trigger] fx_mul_v(alpha@, self.counts()[i]),
                ),
        ensures
            final(arr)@.len() == old(arr)@.len(),
            vals(final(arr)@) == seq_add(vals(old(arr)@), seq_scale(alpha@, self.counts())),
    {
        let mut i: usize = 0;
        while i < self.data.len()
            invariant
                i <= self.elems().len(),
                arr@.len() == self.elems().len(),
                old(arr)@.len() == self.elems().len(),
                forall|j: int|
                    0 <= j < self.dim_spec() ==> fx_fits(
                        #[trigger] fx_mul_v(alpha@, self.counts()[j]),
                    ),
                forall|j: int|
                    0 <= j < self.dim_spec() ==> fx_fits(
                        vals(old(arr)@)[j] + #[trigger] fx_mul_v(alpha@, self.counts()[j]),
                    ),
                forall|j: int|
                    0 <= j < i as int ==> arr@[j]@ == old(arr)@[j]@ + fx_mul_v(
                        alpha@,
                        self.elems()[j]@,
                    ),
                forall|j: int| i as int <= j < self.elems().len() ==> arr@[j] == old(arr)@[j],
            decreases self.elems().len() - i,
        {
            proof {
                assert(fx_fits(fx_mul_v(alpha@, self.counts()[i as int])) && fx_fits(
                    vals(old(arr)@)[i as int] + fx_mul_v(alpha@, self.counts()[i as int]),
                ));
            }
            let cur = arr[i];
            arr.set(i, cur.add(alpha.mul(self.data[i])));
            i = i + 1;
        }
        proof {
            assert(vals(arr@) =~= seq_add(vals(old(arr)@), seq_scale(alpha@, self.counts())));
        }
    }

    /// Copy-variant elementwise unary transform.
    pub fn map<F: Fn(Fx) -> Fx>(&self, f: F) -> (r: Dense)
        requires
            forall|i: int| 0 <= i < self.dim_spec() ==> call_requires(f, (self.elems()[i],)),
        ensures
            dense_map_rel(self.elems(), f, r.elems()),
    {
        let mut out: Vec<Fx> = Vec::new();
        let mut i: usize = 0;
        while i < self.data.len()
            invariant
                i <= self.elems().len(),
                out@.len() == i as int,
                forall|j: int| 0 <= j < self.dim_spec() ==> call_requires(f, (self.elems()[j],)),
                forall|j: int|
                    0 <= j < i as int ==> call_ensures(f, (self.elems()[j],), #[trigger] out@[j]),
            decreases self.elems().len() - i,
        {
            proof {
                assert(call_requires(f, (self.elems()[i as int],)));
            }
            out.push(f(self.data[i]));
            i = i + 1;
        }
        Dense { data: out }
    }

    /// Move-variant elementwise unary transform.
    pub fn map_into<F: Fn(Fx) -> Fx>(self, f: F) -> (r: Dense)
        requires
            forall|i: int| 0 <= i < self.dim_spec() ==> call_requires(f, (self.elems()[i],)),
        ensures
            dense_map_rel(self.elems(), f, r.elems()),
    {
        let mut this = self;
        this.map_inplace(f);
        this
    }

    /// In-place elementwise unary transform.
    pub fn map_inplace<F: Fn(Fx) -> Fx>(&mut self, f: F)
        requires
            forall|i: int|
                0 <= i < old(self).dim_spec() ==> call_requires(f, (old(self).elems()[i],)),
        ensures
            dense_map_rel(old(self).elems(), f, final(self).elems()),
    {
        let n = self.data.len();
        let mut i: usize = 0;
        while i < n
            invariant
                i <= n,
                self.elems().len() == n as int,
                old(self).elems().len() == n as int,
                forall|j: int|
                    0 <= j < old(self).dim_spec() ==> call_requires(f, (old(self).elems()[j],)),
                forall|j: int|
                    0 <= j < i as int ==> call_ensures(
                        f,
                        (old(self).elems()[j],),
                        #[trigger] self.elems()[j],
                    ),
                forall|j: int|
                    i as int <= j < n as int ==> self.elems()[j] == old(self).elems()[j],
            decreases n - i,
        {
            proof {
                assert(call_requires(f, (old(self).elems()[i as int],)));
            }
            let cur = self.data[i];
            self.data.set(i, f(cur));
            i = i + 1;
        }
    }

    /// Copy-variant elementwise binary combination; shapes must match.
    pub fn merge<F: Fn(Fx, Fx) -> Fx>(&self, other: &Dense, f: F) -> (r: Dense)
        requires
            self.dim_spec() == other.dim_spec(),
            forall|i: int|
                0 <= i < self.dim_spec() ==> call_requires(
                    f,
                    (self.elems()[i], other.elems()[i]),
                ),
        ensures
            r.dim_spec() == self.dim_spec(),
            dense_merge_rel(self.elems(), other.elems(), f, r.elems()),
    {
        let copied = Dense { data: self.to_vec() };
        copied.merge_into(other, f)
    }

    /// Move-variant elementwise binary combination.
    pub fn merge_into<F: Fn(Fx, Fx) -> Fx>(self, other: &Dense, f: F) -> (r: Dense)
        requires
            self.dim_spec() == other.dim_spec(),
            forall|i: int|
                0 <= i < self.dim_spec() ==> call_requires(
                    f,
                    (self.elems()[i], other.elems()[i]),
                ),
        ensures
            r.dim_spec() == self.dim_spec(),
            dense_merge_rel(self.elems(), other.elems(), f, r.elems()),
    {
        let mut this = self;
        this.merge_inplace(other, f);
        this
    }

    /// In-place elementwise binary combination.
    pub fn merge_inplace<F: Fn(Fx, Fx) -> Fx>(&mut self, other: &Dense, f: F)
        requires
            old(self).dim_spec() == other.dim_spec(),
            forall|i: int|
                0 <= i < old(self).dim_spec() ==> call_requires(
                    f,
                    (old(self).elems()[i], other.elems()[i]),
                ),
        ensures
            final(self).dim_spec() == old(self).dim_spec(),
            dense_merge_rel(old(self).elems(), other.elems(), f, final(self).elems()),
    {
        let n = self.data.len();
        let mut i: usize = 0;
        while i < n
            invariant
                i <= n,
                self.elems().len() == n as int,
                old(self).elems().len() == n as int,
                other.elems().len() == n as int,
                forall|j: int|
                    0 <= j < old(self).dim_spec() ==> call_requires(
                        f,
                        (old(self).elems()[j], other.elems()[j]),
                    ),
                forall|j: int|
                    0 <= j < i as int ==> call_ensures(
                        f,
                        (old(self).elems()[j], other.elems()[j]),
                        #[trigger] self.elems()[j],
                    ),
                forall|j: int|
                    i as int <= j < n as int ==> self.elems()[j] == old(self).elems()[j],
            decreases n - i,
        {
            proof {
                assert(call_requires(f, (old(self).elems()[i as int], other.elems()[i as int])));
            }
            let a = self.data[i];
            let b = other.data[i];
            self.data.set(i, f(a, b));
            i = i + 1;
        }
    }
}

/// Copy- and move-variant equivalence for dense buffers: whenever the
/// transform determines its result from its argument alone, any two
/// vectors that `map` and `map_into` may return from the same input are
/// equal.
pub proof fn lemma_dense_map_copy_move_agree<F: Fn(Fx) -> Fx>(
    f: F,
    b: Seq<Fx>,
    r1: Seq<Fx>,
    r2: Seq<Fx>,
)
    requires
        forall|x: Fx, y1: Fx, y2: Fx|
            call_ensures(f, (x,), y1) && call_ensures(f, (x,), y2) ==> y1 == y2,
        dense_map_rel(b, f, r1),
        dense_map_rel(b, f, r2),
    ensures
        r1 == r2,
{
    assert(r1 =~= r2);
}

/// Copy- and move-variant equivalence for sparse buffers: whenever the
/// transform determines its result from its argument alone, any two
/// buffers that `map` and `map_into` may return from the same input are
/// equal.
pub proof fn lemma_tile_map_copy_move_agree<F: Fn(Fx) -> Fx>(f: F, b: Tile, r1: Tile, r2: Tile)
    requires
        forall|x: Fx, y1: Fx, y2: Fx|
            call_ensures(f, (x,), y1) && call_ensures(f, (x,), y2) ==> y1 == y2,
        tile_map_rel(b, f, r1),
        tile_map_rel(b, f, r2),
    ensures
        r1 == r2,
{
}

} // verus!
