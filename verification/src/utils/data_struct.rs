use vstd::prelude::*;

verus! {

/// Samples of the four signals of a stereo stream: left, right, mid and side.
#[derive(Debug, Clone, Default)]
pub struct RawData<T> {
    pub l: Vec<T>,
    pub r: Vec<T>,
    pub m: Vec<T>,
    pub s: Vec<T>,
}

/// `v` without its first `n` items.
pub open spec fn drop_front<T>(v: Seq<T>, n: int) -> Seq<T> {
    v.subrange(n, v.len() as int)
}

/// Dropping the first `n` items keeps the rest in order: item `j` of the
/// result is item `j + n` of `v`.
pub proof fn law_drop_front_keeps_last<T>(v: Seq<T>, n: int)
    requires
        0 <= n <= v.len(),
    ensures
        drop_front(v, n).len() == v.len() - n,
        forall|j: int| 0 <= j < v.len() - n ==> #[trigger] drop_front(v, n)[j] == v[j + n],
{
}

impl<T> RawData<T> {
    /// Four empty signals.
    pub fn new() -> (res: Self)
        ensures
            res.l@ == Seq::<T>::empty(),
            res.r@ == Seq::<T>::empty(),
            res.m@ == Seq::<T>::empty(),
            res.s@ == Seq::<T>::empty(),
    {
        RawData { l: Vec::new(), r: Vec::new(), m: Vec::new(), s: Vec::new() }
    }

    /// Keeps the last `size` samples of the left signal, and drops as many
    /// samples from the front of each other signal.
    pub fn keep_last(&mut self, size: usize)
        requires
            old(self).l@.len() > size ==> {
                &&& old(self).r@.len() >= old(self).l@.len() - size
                &&& old(self).m@.len() >= old(self).l@.len() - size
                &&& old(self).s@.len() >= old(self).l@.len() - size
            },
        ensures
            old(self).l@.len() > size ==> {
                let n = old(self).l@.len() - size;
                &&& final(self).l@ == drop_front(old(self).l@, n)
                &&& final(self).r@ == drop_front(old(self).r@, n)
                &&& final(self).m@ == drop_front(old(self).m@, n)
                &&& final(self).s@ == drop_front(old(self).s@, n)
            },
            old(self).l@.len() <= size ==> *final(self) == *old(self),
    {
        let len = self.l.len();
        if len > size {
            let n = len - size;
            self.l = self.l.split_off(n);
            self.r = self.r.split_off(n);
            self.m = self.m.split_off(n);
            self.s = self.s.split_off(n);
        }
    }

    /// Empties all four signals.
    pub fn clear(&mut self)
        ensures
            final(self).l@ == Seq::<T>::empty(),
            final(self).r@ == Seq::<T>::empty(),
            final(self).m@ == Seq::<T>::empty(),
            final(self).s@ == Seq::<T>::empty(),
    {
        self.l.clear();
        self.r.clear();
        self.m.clear();
        self.s.clear();
    }
}

} // verus!
