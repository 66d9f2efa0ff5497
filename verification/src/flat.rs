//! The flat view: a pixel, or a run of pixels of one type, seen as the
//! sequence of its channel values in declared field order, with no gap.
//!
//! Reading the view copies the channels out. Writing goes through `at_mut`,
//! which borrows one channel in place, so that what is written is found in the
//! pixel afterwards.
use crate::pixel::hom_pixel::HomPixel;
use crate::pixel::meta_traits::ArrayLike;
use vstd::arithmetic::div_mod::lemma_fundamental_div_mod_converse;
use vstd::prelude::*;
use vstd::slice::slice_subrange;

verus! {

/// The flat view of a run of pixels: element `i` is channel `i % n` of pixel
/// `i / n`, where `n` is the number of channels of one pixel.
pub open spec fn flat_run<P: HomPixel>(run: Seq<P>) -> Seq<P::ColorComponent> {
    let n = P::num_components() as int;
    Seq::new(run.len() * P::num_components(), |i: int| run[i / n].components()[i % n])
}

/// Position `i` of a run's flat view lies in pixel `i / n`, at channel `i % n`.
pub proof fn lemma_flat_position(i: int, n: int, len: int)
    requires
        n > 0,
        0 <= i < len * n,
    ensures
        0 <= i / n < len,
        0 <= i % n < n,
        i == (i / n) * n + i % n,
{
    assert(i == (i / n) * n + i % n && 0 <= i % n < n) by (nonlinear_arith)
        requires
            n > 0,
    ;
    assert(0 <= i / n < len) by (nonlinear_arith)
        requires
            n > 0,
            0 <= i < len * n,
            i == (i / n) * n + i % n,
            0 <= i % n < n,
    ;
}

/// Channel `c` of pixel `k` stands at position `k * n + c` of the flat view.
pub proof fn lemma_flat_run_index<P: HomPixel>(run: Seq<P>, k: int, c: int)
    requires
        0 <= k < run.len(),
        0 <= c < P::num_components(),
    ensures
        0 <= k * (P::num_components() as int) + c < flat_run(run).len(),
        flat_run(run)[k * (P::num_components() as int) + c] == run[k].components()[c],
{
    let n = P::num_components() as int;
    let i = k * n + c;
    lemma_fundamental_div_mod_converse(i, n, k, c);
    assert(0 <= i < run.len() * n) by (nonlinear_arith)
        requires
            0 <= k < run.len(),
            0 <= c < n,
            i == k * n + c,
    ;
}

/// Appending a pixel to a run appends its channels to the flat view.
pub proof fn lemma_flat_run_push<P: HomPixel>(run: Seq<P>, px: P)
    ensures
        flat_run(run.push(px)) == flat_run(run) + px.components(),
{
    let n = P::num_components() as int;
    let whole = flat_run(run.push(px));
    let parts = flat_run(run) + px.components();
    P::lemma_counts();
    px.lemma_shape();
    px.lemma_layout();
    assert(whole.len() == parts.len()) by (nonlinear_arith)
        requires
            whole.len() == (run.len() + 1) * n,
            parts.len() == run.len() * n + n,
    ;
    assert forall|i: int| 0 <= i < whole.len() implies whole[i] == parts[i] by {
        lemma_flat_position(i, n, run.len() as int + 1);
        if i / n < run.len() {
            assert(i < run.len() * n) by (nonlinear_arith)
                requires
                    i == (i / n) * n + i % n,
                    i % n < n,
                    i / n < run.len(),
                    n > 0,
            ;
        } else {
            assert(i - run.len() * n == i % n) by (nonlinear_arith)
                requires
                    i == (i / n) * n + i % n,
                    i / n == run.len(),
            ;
        }
    }
    assert(whole =~= parts);
}

/// Writing one channel of one pixel changes that one position of the run's
/// flat view.
pub proof fn lemma_flat_run_update<P: HomPixel>(run: Seq<P>, k: int, c: int, px: P)
    requires
        0 <= k < run.len(),
        0 <= c < P::num_components(),
        px.components() == run[k].components().update(c, px.components()[c]),
    ensures
        flat_run(run.update(k, px)) == flat_run(run).update(
            k * (P::num_components() as int) + c,
            px.components()[c],
        ),
{
    let n = P::num_components() as int;
    let after = flat_run(run.update(k, px));
    let expected = flat_run(run).update(k * n + c, px.components()[c]);
    lemma_flat_run_index(run, k, c);
    px.lemma_layout();
    run[k].lemma_layout();
    assert forall|i: int| 0 <= i < after.len() implies after[i] == expected[i] by {
        lemma_flat_position(i, n, run.len() as int);
        if i / n == k && i % n == c {
        } else if i / n == k {
            assert(i != k * n + c);
        } else {
            assert(i != k * n + c) by {
                lemma_fundamental_div_mod_converse(k * n + c, n, k, c);
            }
        }
    }
    assert(after =~= expected);
}

/// A pixel, or a run of pixels, that can be seen as a flat sequence of channel
/// values of type `T`.
pub trait ComponentSlice<T> {
    /// What the view holds.
    spec fn flat(&self) -> Seq<T>;

    /// The flat view, copied out.
    fn as_slice(&self) -> (out: Vec<T>)
        ensures
            out@ == self.flat(),
    ;

    /// Position `i` of the flat view, borrowed in place: what is written
    /// through the reference is found at that position afterwards, and the
    /// other positions stay. A position past the end is the caller's fault; a
    /// caller that cannot rule it out asks `checked_at_mut`.
    fn at_mut(&mut self, i: usize) -> (out: &mut T)
        requires
            i < old(self).flat().len(),
        ensures
            *out == old(self).flat()[i as int],
            final(self).flat() == old(self).flat().update(i as int, *final(out)),
    ;

    /// Position `i` of the flat view, borrowed in place as `at_mut` lends it,
    /// or `None` where `i` is past the end; the view is then left as it is.
    fn checked_at_mut(&mut self, i: usize) -> (out: Option<&mut T>)
        ensures
            match out {
                Some(c) => {
                    &&& i < old(self).flat().len()
                    &&& *c == old(self).flat()[i as int]
                    &&& final(self).flat() == old(self).flat().update(i as int, *final(c))
                },
                None => i >= old(self).flat().len() && final(self).flat() == old(self).flat(),
            },
    ;

    /// Writes a flat view back: where `flat` has an element for each position
    /// of the view, the channels are set to its elements and `true` is
    /// returned; where it has not, nothing is written and `false` is
    /// returned.
    fn write_flat(&mut self, flat: &[T]) -> (done: bool)
        ensures
            done <==> flat@.len() == old(self).flat().len(),
            final(self).flat() == (if done {
                flat@
            } else {
                old(self).flat()
            }),
    ;
}

impl<P: HomPixel> ComponentSlice<P::ColorComponent> for P {
    open spec fn flat(&self) -> Seq<P::ColorComponent> {
        self.components()
    }

    fn as_slice(&self) -> (out: Vec<P::ColorComponent>) {
        let channels = self.component_array();
        let n = channels.count();
        let mut out: Vec<P::ColorComponent> = Vec::new();
        let mut i: usize = 0;
        while i < n
            invariant
                i <= n,
                n == channels.elements().len(),
                out@ == channels.elements().take(i as int),
            decreases n - i,
        {
            out.push(channels.at(i));
            i += 1;
            assert(out@ =~= channels.elements().take(i as int));
        }
        assert(out@ =~= channels.elements());
        out
    }

    fn at_mut(&mut self, i: usize) -> (out: &mut P::ColorComponent) {
        proof {
            self.lemma_layout();
        }
        self.component_mut(i)
    }

    fn checked_at_mut(&mut self, i: usize) -> (out: Option<&mut P::ColorComponent>) {
        proof {
            self.lemma_layout();
        }
        self.checked_component_mut(i)
    }

    fn write_flat(&mut self, flat: &[P::ColorComponent]) -> (done: bool) {
        proof {
            self.lemma_layout();
        }
        if flat.len() == P::NUM_COMPONENTS as usize {
            proof {
                P::lemma_counts();
                P::lemma_from_flat(flat@);
                assert(flat@.take(P::num_components() as int) =~= flat@);
            }
            match P::try_from_components(flat) {
                Some(px) => {
                    *self = px;
                    true
                },
                None => false,
            }
        } else {
            proof {
                P::lemma_counts();
            }
            false
        }
    }
}

impl<P: HomPixel> ComponentSlice<P::ColorComponent> for [P] {
    open spec fn flat(&self) -> Seq<P::ColorComponent> {
        flat_run(self@)
    }

    fn as_slice(&self) -> (out: Vec<P::ColorComponent>) {
        let mut out: Vec<P::ColorComponent> = Vec::new();
        let mut k: usize = 0;
        assert(flat_run(self@.take(0)) =~= Seq::<P::ColorComponent>::empty());
        while k < self.len()
            invariant
                k <= self.len(),
                out@ == flat_run(self@.take(k as int)),
            decreases self.len() - k,
        {
            let mut channels = self[k].as_slice();
            proof {
                lemma_flat_run_push(self@.take(k as int), self@[k as int]);
                assert(self@.take(k as int).push(self@[k as int]) =~= self@.take(k + 1));
            }
            out.append(&mut channels);
            k += 1;
        }
        assert(self@.take(k as int) =~= self@);
        out
    }

    fn at_mut(&mut self, i: usize) -> (out: &mut P::ColorComponent) {
        let n = P::NUM_COMPONENTS as usize;
        proof {
            P::lemma_counts();
            assert(n > 0) by (nonlinear_arith)
                requires
                    0 <= i < self@.len() * n,
            ;
            lemma_flat_position(i as int, n as int, self@.len() as int);
            lemma_flat_run_index(self@, (i / n) as int, (i % n) as int);
            let k = (i / n) as int;
            let c = (i % n) as int;
            self@[k].lemma_layout();
            assert forall|px: P|
                px.components()
                    == self@[k].components().update(c, px.components()[c]) implies flat_run(
                #[trigger] self@.update(k, px),
            ) == flat_run(self@).update(i as int, px.components()[c]) by {
                lemma_flat_run_update(self@, k, c, px);
            }
        }
        self[i / n].component_mut(i % n)
    }

    fn checked_at_mut(&mut self, i: usize) -> (out: Option<&mut P::ColorComponent>) {
        let n = P::NUM_COMPONENTS as usize;
        proof {
            P::lemma_counts();
        }
        if n > 0 && i / n < self.len() {
            assert(i < self@.len() * n) by (nonlinear_arith)
                requires
                    n > 0,
                    i / n < self@.len(),
            ;
            Some(self.at_mut(i))
        } else {
            assert(i >= self@.len() * n) by (nonlinear_arith)
                requires
                    n == 0 || i / n >= self@.len(),
                    0 <= i,
                    0 <= n,
            ;
            None
        }
    }

    fn write_flat(&mut self, flat: &[P::ColorComponent]) -> (done: bool) {
        let n = P::NUM_COMPONENTS as usize;
        proof {
            P::lemma_counts();
        }
        if !(flat.len() % n == 0 && flat.len() / n == self.len()) {
            assert(flat@.len() != self@.len() * n) by (nonlinear_arith)
                requires
                    n >= 1,
                    !(flat@.len() % (n as nat) == 0 && flat@.len() / (n as nat) == self@.len()),
            ;
            return false;
        }
        assert(flat@.len() == self@.len() * n) by (nonlinear_arith)
            requires
                n >= 1,
                flat@.len() % (n as nat) == 0,
                flat@.len() / (n as nat) == self@.len(),
        ;
        let total = flat.len();
        let mut k: usize = 0;
        while k < self.len()
            invariant
                n == P::num_components(),
                n >= 1,
                total == flat@.len(),
                flat@.len() == self@.len() * n,
                k <= self@.len(),
                forall|j: int|
                    0 <= j < k ==> (#[trigger] self@[j]).components() == flat@.subrange(
                        j * n,
                        j * n + n,
                    ),
            decreases self.len() - k,
        {
            assert(0 <= k * n && k * n + n <= flat@.len()) by (nonlinear_arith)
                requires
                    0 <= k < self@.len(),
                    n >= 1,
                    flat@.len() == self@.len() * n,
            ;
            let part = slice_subrange(flat, k * n, k * n + n);
            proof {
                P::lemma_from_flat(part@);
                assert(part@.take(n as int) =~= part@);
            }
            match P::try_from_components(part) {
                Some(px) => {
                    self[k] = px;
                },
                None => {},
            }
            k += 1;
        }
        proof {
            let len = self@.len() as int;
            assert forall|i: int| 0 <= i < flat@.len() implies flat_run(self@)[i] == flat@[i] by {
                lemma_flat_position(i, n as int, len);
                let j = i / (n as int);
                let c = i % (n as int);
                assert(0 <= j * n && j * n + n <= flat@.len()) by (nonlinear_arith)
                    requires
                        0 <= j < len,
                        n >= 1,
                        flat@.len() == len * n,
                ;
                assert(self@[j].components() == flat@.subrange(j * n, j * n + n));
                assert(flat@.subrange(j * n, j * n + n)[c] == flat@[j * n + c]);
            }
            assert(flat_run(self@) =~= flat@);
        }
        true
    }
}

} // verus!
