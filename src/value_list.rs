//! Variable-length lists of values, stored in a pool that a function owns.
//!
//! A `ValueList` is an `(offset, length)` handle into one `ValueListPool`. It means
//! nothing against any other pool. Lists are never freed: appending to a list that does
//! not end the pool's storage copies it to the end first, so every handle that was valid
//! keeps its contents.

use vstd::prelude::*;
use crate::entities::Value;

verus! {

/// The backing store of value lists.
pub struct ValueListPool {
    data: Vec<Value>,
}

/// A handle to a list of values in a `ValueListPool`.
#[derive(Clone, Copy, Debug, PartialEq, Eq, Hash, Structural)]
pub struct ValueList {
    start: u32,
    len: u32,
}

impl ValueListPool {
    /// Everything the pool holds, in order.
    pub closed spec fn view(&self) -> Seq<Value> {
        self.data@
    }

    /// An empty pool.
    pub fn new() -> (r: ValueListPool)
        ensures
            r@.len() == 0,
    {
        ValueListPool { data: Vec::new() }
    }
}

impl ValueList {
    /// Is the list's range inside the storage of `pool`?
    pub closed spec fn valid_in(self, pool: &ValueListPool) -> bool {
        self.start + self.len <= pool@.len()
    }

    /// The values of the list in `pool`.
    pub closed spec fn view_in(self, pool: &ValueListPool) -> Seq<Value> {
        pool@.subrange(self.start as int, self.start + self.len)
    }

    /// The empty list, valid in every pool.
    pub fn new() -> (r: ValueList)
        ensures
            forall|p: &ValueListPool| #[trigger] r.valid_in(p) && r.view_in(p).len() == 0,
    {
        ValueList { start: 0, len: 0 }
    }

    /// A list in `pool` that holds `items`.
    pub fn from_slice(items: &[Value], pool: &mut ValueListPool) -> (r: ValueList)
        requires
            old(pool)@.len() + items@.len() <= u32::MAX,
        ensures
            r.valid_in(final(pool)),
            r.view_in(final(pool)) == items@,
            old(pool)@.len() <= final(pool)@.len() <= old(pool)@.len() + items@.len(),
            final(pool)@.subrange(0, old(pool)@.len() as int) == old(pool)@,
            forall|l: ValueList| #[trigger] l.valid_in(old(pool)) ==> l.valid_in(final(pool))
                && l.view_in(final(pool)) == l.view_in(old(pool)),
    {
        let mut r = ValueList::new();
        proof {
            assert(r.valid_in(old(pool)));
        }
        r.extend(items, pool);
        proof {
            assert forall|l: ValueList| #[trigger] l.valid_in(old(pool)) implies l.valid_in(pool)
                && l.view_in(pool) == l.view_in(old(pool)) by {
                assert(l.view_in(pool) =~= pool@.subrange(0, old(pool)@.len() as int).subrange(
                    l.start as int,
                    l.start + l.len,
                ));
            }
        }
        r
    }

    /// The number of values in the list.
    pub fn len(&self, pool: &ValueListPool) -> (r: usize)
        requires
            self.valid_in(pool),
        ensures
            r == self.view_in(pool).len(),
    {
        self.len as usize
    }

    /// Is the list empty?
    pub fn is_empty(&self, pool: &ValueListPool) -> (r: bool)
        requires
            self.valid_in(pool),
        ensures
            r == (self.view_in(pool).len() == 0),
    {
        self.len == 0
    }

    /// The values of the list, borrowed from `pool` without copying.
    pub fn as_slice<'a>(&self, pool: &'a ValueListPool) -> (r: &'a [Value])
        requires
            self.valid_in(pool),
        ensures
            r@ == self.view_in(pool),
    {
        proof {
            assert(pool.data.len() == pool.data@.len());
        }
        vstd::slice::slice_subrange(
            pool.data.as_slice(),
            self.start as usize,
            self.start as usize + self.len as usize,
        )
    }

    /// Appends `items` to the list. The list moves to the end of the pool unless it is
    /// there already; the pool only grows, so other lists keep their contents.
    pub fn extend(&mut self, items: &[Value], pool: &mut ValueListPool)
        requires
            old(self).valid_in(old(pool)),
            old(pool)@.len() + old(self).view_in(old(pool)).len() + items@.len() <= u32::MAX,
        ensures
            final(self).valid_in(final(pool)),
            final(self).view_in(final(pool)) == old(self).view_in(old(pool)) + items@,
            old(pool)@.len() <= final(pool)@.len() <= old(pool)@.len() + old(self).view_in(
                old(pool),
            ).len() + items@.len(),
            final(pool)@.subrange(0, old(pool)@.len() as int) == old(pool)@,
            forall|l: ValueList| #[trigger] l.valid_in(old(pool)) ==> l.valid_in(final(pool))
                && l.view_in(final(pool)) == l.view_in(old(pool)),
    {
        let ghost old_list = self.view_in(pool);
        let ghost old_pool = pool@;
        let end = self.start + self.len;
        if end as usize != pool.data.len() {
            let new_start = pool.data.len() as u32;
            let mut i: u32 = self.start;
            while i < end
                invariant
                    self.start <= i <= end,
                    end == self.start + self.len,
                    end <= old_pool.len(),
                    old_list == old_pool.subrange(self.start as int, end as int),
                    new_start == old_pool.len(),
                    pool.data@.len() == old_pool.len() + (i - self.start),
                    pool.data@.subrange(0, old_pool.len() as int) == old_pool,
                    pool.data@.subrange(new_start as int, pool.data@.len() as int)
                        == old_list.subrange(0, i - self.start),
                    old_pool.len() + old_list.len() + items@.len() <= u32::MAX,
                decreases end - i,
            {
                let v = pool.data[i as usize];
                pool.data.push(v);
                i = i + 1;
                proof {
                    assert(pool.data@.subrange(0, old_pool.len() as int) =~= old_pool);
                    assert(pool.data@.subrange(new_start as int, pool.data@.len() as int)
                        =~= old_list.subrange(0, i - self.start));
                }
            }
            self.start = new_start;
        }
        let ghost mid_pool = pool.data@;
        assert(pool.data@.subrange(self.start as int, self.start + self.len) =~= old_list);
        let mut j: usize = 0;
        while j < items.len()
            invariant
                j <= items@.len(),
                self.start + self.len + j == pool.data@.len(),
                pool.data@.subrange(0, old_pool.len() as int) == old_pool,
                pool.data@.subrange(self.start as int, pool.data@.len() as int)
                    == old_list + items@.subrange(0, j as int),
                self.len == old_list.len(),
                self.start as int + self.len + items@.len() <= u32::MAX,
                old_pool.len() <= self.start + self.len,
            decreases items@.len() - j,
        {
            let ghost before = pool.data@;
            pool.data.push(items[j]);
            j = j + 1;
            proof {
                assert(pool.data@.subrange(self.start as int, pool.data@.len() as int)
                    =~= before.subrange(self.start as int, before.len() as int).push(items@[j - 1]));
                assert(items@.subrange(0, j as int) =~= items@.subrange(0, j - 1).push(items@[j - 1]));
                assert(pool.data@.subrange(0, old_pool.len() as int) =~= old_pool);
                assert(pool.data@.subrange(self.start as int, pool.data@.len() as int)
                    =~= old_list + items@.subrange(0, j as int));
            }
        }
        self.len = self.len + items.len() as u32;
        proof {
            assert(items@.subrange(0, items@.len() as int) =~= items@);
            assert forall|l: ValueList| #[trigger] l.valid_in(old(pool)) implies l.valid_in(pool)
                && l.view_in(pool) == l.view_in(old(pool)) by {
                assert(l.view_in(pool) =~= pool@.subrange(0, old_pool.len() as int).subrange(
                    l.start as int,
                    l.start + l.len,
                ));
            }
        }
    }
}

} // verus!
