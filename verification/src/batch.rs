//! Cutting a stream of items into batches of a fixed size.

use vstd::prelude::*;
use vstd::arithmetic::div_mod::{lemma_basic_div, lemma_fundamental_div_mod, lemma_mod_bound};
use vstd::std_specs::iter::IteratorSpec;

verus! {

/// How many items the next batch takes when `len` items are pending.
pub open spec fn head_len(len: nat, size: nat) -> nat {
    if len < size {
        len
    } else {
        size
    }
}

/// The number of batches that `len` items make: `len / size`, rounded up.
///
/// A batch size of zero makes no batch at all.
pub open spec fn batch_count(len: nat, size: nat) -> nat {
    if size == 0 {
        0
    } else {
        ((len + size - 1) / (size as int)) as nat
    }
}

/// Where batch `i` ends in a sequence of `len` items.
pub open spec fn batch_end(len: nat, size: nat, i: int) -> int {
    if (i + 1) * size < len {
        (i + 1) * size
    } else {
        len as int
    }
}

/// Batch `i` of `items`: the items from position `i * size` on, up to `size` of them.
pub open spec fn batch_at<A>(items: Seq<A>, size: nat, i: int) -> Seq<A> {
    items.subrange(i * size, batch_end(items.len(), size, i))
}

/// All the batches of `items`, in order.
pub open spec fn batches<A>(items: Seq<A>, size: nat) -> Seq<Seq<A>> {
    Seq::new(batch_count(items.len(), size), |i: int| batch_at(items, size, i))
}

/// Splits the items of an iterator into consecutive batches.
///
/// Every batch holds `batch_size` items, except the last one, which holds
/// what is left. Only the batch being built is buffered.
pub struct BatchIter<T> {
    inner: T,
    batch_size: usize,
}

impl<T: Iterator> BatchIter<T> {
    /// The iterator that the batches are drawn from.
    pub closed spec fn source(&self) -> T {
        self.inner
    }

    /// The number of items in a full batch.
    pub closed spec fn size(&self) -> usize {
        self.batch_size
    }

    /// Batches of `batch_size` items each, drawn from `inner`.
    pub fn new(inner: T, batch_size: usize) -> (batches: BatchIter<T>)
        ensures
            batches.source() == inner,
            batches.size() == batch_size,
    {
        BatchIter { inner, batch_size }
    }

    /// Draws the next batch, or `None` once the source is exhausted.
    ///
    /// Of a source that keeps the laws of an iterator (it ends, and stays
    /// ended) the batch is the head of what was pending, and the rest stays
    /// pending; no item beyond the batch is drawn. Of any other source the
    /// batch is still neither empty nor longer than the batch size.
    pub fn next(&mut self) -> (batch: Option<Vec<T::Item>>)
        ensures
            final(self).size() == old(self).size(),
            final(self).source().obeys_prophetic_iter_laws() == old(self).source().obeys_prophetic_iter_laws(),
            batch matches Some(items) ==> 1 <= items@.len() <= old(self).size(),
            old(self).source().obeys_prophetic_iter_laws() ==> ({
                let pending = old(self).source().remaining();
                let n = head_len(pending.len(), old(self).size() as nat);
                &&& final(self).source().remaining() == pending.skip(n as int)
                &&& (batch is None <==> n == 0)
                &&& (batch matches Some(items) ==> items@ == pending.take(n as int))
            }),
    {
        let mut batch: Vec<T::Item> = Vec::new();
        let mut taken: usize = 0;
        while taken < self.batch_size
            invariant
                taken == batch@.len(),
                taken <= self.batch_size,
                self.batch_size == old(self).batch_size,
                self.inner.obeys_prophetic_iter_laws() == old(self).inner.obeys_prophetic_iter_laws(),
                self.inner.obeys_prophetic_iter_laws() ==> ({
                    let pending = old(self).inner.remaining();
                    &&& taken <= pending.len()
                    &&& batch@ == pending.take(taken as int)
                    &&& self.inner.remaining() == pending.skip(taken as int)
                }),
            ensures
                self.inner.obeys_prophetic_iter_laws() ==> taken == head_len(
                    old(self).inner.remaining().len(),
                    self.batch_size as nat,
                ),
            decreases self.batch_size - taken,
        {
            match self.inner.next() {
                Some(item) => {
                    batch.push(item);
                    taken = taken + 1;
                },
                None => {
                    break ;
                },
            }
        }
        if batch.is_empty() {
            None
        } else {
            Some(batch)
        }
    }
}

/// Counts the batches that `len` items make.
pub fn count_batches(len: usize, size: usize) -> (count: usize)
    ensures
        count == batch_count(len as nat, size as nat),
{
    if size == 0 {
        0
    } else {
        let whole: usize = len / size;
        let rest: usize = len % size;
        proof {
            let x = (len + size - 1) as int;
            let d = size as int;
            lemma_fundamental_div_mod(len as int, d);
            lemma_fundamental_div_mod(x, d);
            lemma_mod_bound(x, d);
            let c = x / d;
            assert(d * c == c * d) by (nonlinear_arith);
            assert(d * (whole as int) == whole * d) by (nonlinear_arith);
            if rest == 0 {
                assert(c == whole) by (nonlinear_arith)
                    requires
                        d > 0,
                        c * d + x % d == whole * d + d - 1,
                        0 <= x % d < d,
                ;
            } else {
                assert(c == whole + 1) by (nonlinear_arith)
                    requires
                        d > 0,
                        c * d + x % d == whole * d + rest + d - 1,
                        0 <= x % d < d,
                        0 < rest < d,
                ;
            }
        }
        if rest == 0 {
            whole
        } else {
            assert(whole < len) by (nonlinear_arith)
                requires
                    len == size * whole + rest,
                    size > 0,
                    rest > 0,
                    whole >= 0,
            ;
            whole + 1
        }
    }
}

/// `batch_count` is the quotient rounded up: that many batches hold all the
/// items, and one batch fewer would not.
pub proof fn lemma_batch_count_is_ceiling(len: nat, size: nat)
    requires
        size > 0,
    ensures
        batch_count(len, size) * size >= len,
        len > 0 ==> (batch_count(len, size) - 1) * size < len,
        len == 0 ==> batch_count(len, size) == 0,
{
    let x = (len + size - 1) as int;
    let d = size as int;
    lemma_fundamental_div_mod(x, d);
    lemma_mod_bound(x, d);
    let c = x / d;
    assert(d * c == c * d) by (nonlinear_arith);
    assert((c - 1) * d == c * d - d) by (nonlinear_arith);
    if len == 0 {
        lemma_basic_div(x, d);
    }
}

/// What `BatchIter::next` returns, call after call, is `batches` from front
/// to back: the first batch is the head of the items, and the batches of
/// what `next` leaves behind are the batches that follow it.
pub proof fn lemma_batches_unfold<A>(items: Seq<A>, size: nat)
    requires
        size > 0,
    ensures
        items.len() == 0 ==> batches(items, size).len() == 0,
        items.len() > 0 ==> ({
            let n = head_len(items.len(), size) as int;
            &&& batches(items, size).len() > 0
            &&& batches(items, size)[0] == items.take(n)
            &&& batches(items.skip(n), size) == batches(items, size).drop_first()
        }),
{
    let len = items.len();
    lemma_batch_count_is_ceiling(len, size);
    if len > 0 {
        let n = head_len(len, size) as int;
        let rest = items.skip(n);
        let all = batches(items, size);
        let count = batch_count(len, size) as int;
        lemma_batch_count_is_ceiling(rest.len(), size);
        let rest_count = batch_count(rest.len(), size) as int;
        assert(count >= 1) by (nonlinear_arith)
            requires
                count * size >= len,
                len > 0,
                size > 0,
        ;
        assert(rest_count == count - 1) by (nonlinear_arith)
            requires
                size > 0,
                count >= 1,
                count * size >= len,
                (count - 1) * size < len,
                rest_count * size >= len - n,
                len - n > 0 ==> (rest_count - 1) * size < len - n,
                len - n == 0 ==> rest_count == 0,
                n == (if len < size { len as int } else { size as int }),
        ;
        assert(all[0] =~= items.take(n));
        assert forall|i: int| 0 <= i < rest_count implies #[trigger] batch_at(rest, size, i)
            == batch_at(items, size, i + 1) by {
            assert(n == size) by (nonlinear_arith)
                requires
                    0 <= i < rest_count,
                    rest_count * size >= len - n,
                    len - n > 0 ==> (rest_count - 1) * size < len - n,
                    len - n == 0 ==> rest_count == 0,
                    n == (if len < size { len as int } else { size as int }),
            ;
            assert((i + 1) * size == i * size + size) by (nonlinear_arith);
            assert((i + 2) * size == (i + 1) * size + size) by (nonlinear_arith);
            assert(0 <= i * size) by (nonlinear_arith)
                requires
                    0 <= i,
            ;
            assert((i + 1) * size <= len) by (nonlinear_arith)
                requires
                    i <= rest_count - 1,
                    (rest_count - 1) * size < len - size,
                    size > 0,
            ;
            assert(batch_at(rest, size, i) =~= batch_at(items, size, i + 1));
        }
        assert(batches(rest, size) =~= all.drop_first());
    }
}

/// The batches cover the items exactly: there are `len / size` of them,
/// rounded up; none is empty or longer than `size`; all but the last are
/// full; and joined in order they give the items back.
pub proof fn lemma_batches_partition<A>(items: Seq<A>, size: nat)
    requires
        size > 0,
    ensures
        batches(items, size).len() == batch_count(items.len(), size),
        batch_count(items.len(), size) * size >= items.len(),
        items.len() > 0 ==> (batch_count(items.len(), size) - 1) * size < items.len(),
        forall|i: int|
            0 <= i < batches(items, size).len() ==> 1 <= (#[trigger] batches(items, size)[i]).len()
                <= size,
        forall|i: int|
            0 <= i < batches(items, size).len() - 1 ==> (#[trigger] batches(items, size)[i]).len()
                == size,
        batches(items, size).flatten() == items,
    decreases items.len(),
{
    let len = items.len();
    let count = batch_count(len, size) as int;
    lemma_batch_count_is_ceiling(len, size);
    assert forall|i: int| 0 <= i < count implies 1 <= (#[trigger] batches(items, size)[i]).len()
        <= size && (i < count - 1 ==> batches(items, size)[i].len() == size) by {
        assert((i + 1) * size == i * size + size) by (nonlinear_arith);
        assert(0 <= i * size) by (nonlinear_arith)
            requires
                0 <= i,
        ;
        assert(i * size < len) by (nonlinear_arith)
            requires
                i <= count - 1,
                (count - 1) * size < len,
                size > 0,
        ;
        if i < count - 1 {
            assert((i + 1) * size < len) by (nonlinear_arith)
                requires
                    i + 1 <= count - 1,
                    (count - 1) * size < len,
                    size > 0,
            ;
        }
    }
    lemma_batches_unfold(items, size);
    if len == 0 {
        assert(batches(items, size).flatten() =~= items);
    } else {
        let n = head_len(len, size) as int;
        lemma_batches_partition(items.skip(n), size);
        assert(items.take(n) + items.skip(n) =~= items);
    }
}

} // verus!
