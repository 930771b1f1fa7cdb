use std::collections::VecDeque;
use vstd::prelude::*;

verus! {

/// `s` without its first item; an empty `s` stays empty.
pub open spec fn drop_oldest<T>(s: Seq<T>) -> Seq<T> {
    if s.len() > 0 {
        s.drop_first()
    } else {
        s
    }
}

/// What one `push` leaves in a buffer holding `s` with room for `capacity`
/// items: when the buffer is full the oldest item is dropped first (an empty
/// buffer drops nothing), then `value` is appended.
pub open spec fn push_spec<T>(s: Seq<T>, capacity: nat, value: T) -> Seq<T> {
    if s.len() == capacity {
        drop_oldest(s).push(value)
    } else {
        s.push(value)
    }
}

/// Length of the window that `push_slice` keeps once it has pushed anything:
/// the old length, or one when the buffer was empty.
pub open spec fn slice_window_len(old_len: nat) -> nat {
    if old_len > 0 {
        old_len
    } else {
        1
    }
}

/// `new` is the last `slice_window_len(old.len())` items of `old` followed by
/// the first `pushed` items of `slice`, each item of `slice` as a clone of it.
pub open spec fn is_slice_window<T: Clone>(old: Seq<T>, slice: Seq<T>, pushed: nat, new: Seq<T>) -> bool {
    let w = slice_window_len(old.len());
    &&& new.len() == w
    &&& forall|j: int|
        #![trigger new[j]]
        0 <= j < w ==> {
            let k = old.len() + pushed - w + j;
            &&& (k < old.len() ==> new[j] == old[k])
            &&& (k >= old.len() ==> cloned(slice[k - old.len()], new[j]))
        }
}

/// What `push_slice` leaves: nothing changes while `old` and `slice` fit in
/// `capacity` together; otherwise the surplus `old.len() + slice.len() - capacity`
/// first items of `slice` are pushed one by one, each dropping the oldest item.
pub open spec fn push_slice_result<T: Clone>(old: Seq<T>, capacity: nat, slice: Seq<T>, new: Seq<T>) -> bool {
    if old.len() + slice.len() <= capacity {
        new == old
    } else {
        is_slice_window(old, slice, (old.len() + slice.len() - capacity) as nat, new)
    }
}

/// A first-in first-out buffer that keeps at most `capacity` items; a zero
/// capacity bounds nothing, every push then grows the buffer.
#[derive(Debug, Default)]
pub struct RingBuffer<T> {
    buffer: VecDeque<T>,
    capacity: usize,
}

impl<T> View for RingBuffer<T> {
    type V = Seq<T>;

    closed spec fn view(&self) -> Seq<T> {
        self.buffer@
    }
}

impl<T> RingBuffer<T> {
    /// A buffer with room for at least one item never holds more items than
    /// it has room for.
    #[verifier::type_invariant]
    closed spec fn bounded(&self) -> bool {
        self.capacity == 0 || self.buffer@.len() <= self.capacity
    }

    /// The capacity the buffer was made with.
    pub closed spec fn spec_capacity(&self) -> nat {
        self.capacity as nat
    }

    /// An empty buffer with room for `size` items.
    pub fn new(size: usize) -> (res: Self)
        ensures
            res@ == Seq::<T>::empty(),
            res.spec_capacity() == size,
    {
        RingBuffer { buffer: VecDeque::with_capacity(size), capacity: size }
    }

    /// A full buffer of `size` items, each a clone of `default`.
    pub fn new_with_default(size: usize, default: T) -> (res: Self)
        where T: Clone,
        ensures
            res@.len() == size,
            forall|i: int| 0 <= i < size ==> cloned(default, #[trigger] res@[i]),
            res.spec_capacity() == size,
    {
        let mut buffer: VecDeque<T> = VecDeque::with_capacity(size);
        if size > 0 {
            let mut i: usize = 0;
            while i < size - 1
                invariant
                    size > 0,
                    i <= size - 1,
                    buffer@.len() == i,
                    forall|j: int| 0 <= j < i ==> cloned(default, #[trigger] buffer@[j]),
                decreases size - 1 - i,
            {
                buffer.push_back(default.clone());
                i = i + 1;
            }
            buffer.push_back(default);
        }
        RingBuffer { buffer, capacity: size }
    }

    /// Appends `value`, dropping the oldest item first when the buffer is full.
    pub fn push(&mut self, value: T)
        ensures
            final(self)@ == push_spec(old(self)@, old(self).spec_capacity(), value),
            final(self).spec_capacity() == old(self).spec_capacity(),
            final(self).spec_capacity() > 0 ==> final(self)@.len() <= final(self).spec_capacity(),
    {
        proof {
            use_type_invariant(&*self);
        }
        let mut buffer: VecDeque<T> = VecDeque::new();
        std::mem::swap(&mut buffer, &mut self.buffer);
        if buffer.len() == self.capacity {
            buffer.pop_front();
        }
        buffer.push_back(value);
        self.buffer = buffer;
    }

    /// When `slice` does not fit beside the items held, pushes its first
    /// `len + slice.len() - capacity` items, each dropping the oldest item;
    /// when it fits, the buffer is left as it is.
    pub fn push_slice(&mut self, slice: &[T])
        where T: Clone,
        requires
            old(self)@.len() <= old(self).spec_capacity(),
        ensures
            push_slice_result(old(self)@, old(self).spec_capacity(), slice@, final(self)@),
            final(self).spec_capacity() == old(self).spec_capacity(),
            final(self).spec_capacity() > 0 ==> final(self)@.len() <= final(self).spec_capacity(),
    {
        proof {
            use_type_invariant(&*self);
        }
        let capacity = self.capacity;
        let mut buffer: VecDeque<T> = VecDeque::new();
        std::mem::swap(&mut buffer, &mut self.buffer);
        let ghost old_items = buffer@;
        let len = buffer.len();
        if slice.len() > capacity - len {
            let diff = slice.len() - (capacity - len);
            let mut i: usize = 0;
            while i < diff
                invariant
                    len == old_items.len(),
                    len <= capacity,
                    diff == len + slice@.len() - capacity,
                    diff <= slice@.len(),
                    i <= diff,
                    i == 0 ==> buffer@ == old_items,
                    i > 0 ==> is_slice_window(old_items, slice@, i as nat, buffer@),
                decreases diff - i,
            {
                let ghost before = buffer@;
                buffer.pop_front();
                let item = slice[i].clone();
                buffer.push_back(item);
                proof {
                    let w = slice_window_len(len as nat);
                    let after = buffer@;
                    assert forall|j: int| #![trigger after[j]] 0 <= j < w implies {
                        let k = len + (i + 1) - w + j;
                        &&& (k < len ==> after[j] == old_items[k])
                        &&& (k >= len ==> cloned(slice@[k - len], after[j]))
                    } by {
                        if j < w - 1 {
                            if i == 0 {
                                assert(after[j] == old_items[j + 1]);
                            } else {
                                assert(after[j] == before[j + 1]);
                            }
                        } else {
                            assert(after[j] == item);
                        }
                    }
                }
                i = i + 1;
            }
        }
        self.buffer = buffer;
    }

    /// The item at `index`, counted from the oldest, if there is one.
    pub fn get(&self, index: usize) -> (res: Option<&T>)
        where T: Clone,
        ensures
            index < self@.len() ==> res == Some(&self@[index as int]),
            index >= self@.len() ==> res is None,
    {
        if index < self.buffer.len() {
            Some(&self.buffer[index])
        } else {
            None
        }
    }

    /// The capacity the buffer was made with.
    pub fn capacity(&self) -> (res: usize)
        ensures
            res == self.spec_capacity(),
    {
        self.capacity
    }

    /// The number of items held.
    pub fn len(&self) -> (res: usize)
        ensures
            res == self@.len(),
            self.spec_capacity() > 0 ==> res <= self.spec_capacity(),
    {
        proof {
            use_type_invariant(self);
        }
        self.buffer.len()
    }
}

} // verus!

verus! {

/// The contents left by pushing every item of `values`, in order, onto `s`.
pub open spec fn push_all_spec<T>(s: Seq<T>, capacity: nat, values: Seq<T>) -> Seq<T>
    decreases values.len(),
{
    if values.len() == 0 {
        s
    } else {
        push_spec(push_all_spec(s, capacity, values.drop_last()), capacity, values.last())
    }
}

/// A buffer with room for at least one item never holds more than its
/// capacity after a `push`: it grows by one until it is full, then stays full.
pub proof fn law_push_keeps_capacity_bound<T>(s: Seq<T>, capacity: nat, value: T)
    requires
        capacity > 0,
        s.len() <= capacity,
    ensures
        push_spec(s, capacity, value).len() <= capacity,
        s.len() < capacity ==> push_spec(s, capacity, value).len() == s.len() + 1,
        s.len() == capacity ==> push_spec(s, capacity, value).len() == capacity,
{
}

/// A buffer with room for at least one item never holds more than its
/// capacity after a `push_slice`, and never loses items it had.
pub proof fn law_push_slice_keeps_capacity_bound<T: Clone>(
    s: Seq<T>,
    capacity: nat,
    slice: Seq<T>,
    new: Seq<T>,
)
    requires
        capacity > 0,
        s.len() <= capacity,
        push_slice_result(s, capacity, slice, new),
    ensures
        new.len() <= capacity,
        s.len() > 0 ==> new.len() == s.len(),
{
}

/// When a slice does not fit beside the items a non-empty buffer holds,
/// `push_slice` works as `d = len + slice.len() - capacity` single pushes
/// onto a full buffer: the buffer keeps its length, its first items are its
/// old items from position `d` on (the `d` oldest are dropped), and the rest
/// are clones of the first `d` items of the slice, in order. An empty
/// buffer keeps a single item, a clone of slice item `d - 1`.
pub proof fn law_push_slice_drops_oldest<T: Clone>(
    old: Seq<T>,
    capacity: nat,
    slice: Seq<T>,
    new: Seq<T>,
)
    requires
        old.len() <= capacity,
        old.len() + slice.len() > capacity,
        push_slice_result(old, capacity, slice, new),
    ensures
        ({
            let d = old.len() + slice.len() - capacity;
            &&& old.len() > 0 ==> {
                &&& new.len() == old.len()
                &&& forall|j: int| 0 <= j < old.len() && j + d < old.len() ==> #[trigger] new[j] == old[j + d]
                &&& forall|j: int|
                    0 <= j < old.len() && j + d >= old.len() ==> cloned(slice[j + d - old.len()], #[trigger] new[j])
            }
            &&& old.len() == 0 ==> new.len() == 1 && cloned(slice[d - 1], new[0])
        }),
{
    let d = old.len() + slice.len() - capacity;
    if old.len() > 0 {
        assert forall|j: int| 0 <= j < old.len() && j + d < old.len() implies #[trigger] new[j] == old[j + d] by {
            assert(new[j] == new[j]);
        }
        assert forall|j: int| 0 <= j < old.len() && j + d >= old.len() implies cloned(slice[j + d - old.len()], #[trigger] new[j]) by {
            assert(new[j] == new[j]);
        }
    } else {
        assert(new[0] == new[0]);
    }
}

/// The newest item of a buffer is the one pushed last, and the items before it
/// are the items held before the push, less the oldest one when it was full.
pub proof fn law_push_then_read<T>(s: Seq<T>, capacity: nat, value: T)
    ensures
        push_spec(s, capacity, value).len() >= 1,
        push_spec(s, capacity, value).last() == value,
        push_spec(s, capacity, value).drop_last() == (if s.len() == capacity {
            drop_oldest(s)
        } else {
            s
        }),
        s.len() == capacity && s.len() > 0 ==> push_spec(s, capacity, value).len() == s.len()
            && forall|j: int| 0 <= j < s.len() - 1 ==> #[trigger] push_spec(s, capacity, value)[j] == s[j + 1],
        s.len() != capacity ==> push_spec(s, capacity, value).len() == s.len() + 1
            && forall|j: int| 0 <= j < s.len() ==> #[trigger] push_spec(s, capacity, value)[j] == s[j],
{
    let r = push_spec(s, capacity, value);
    if s.len() == capacity {
        assert(r.drop_last() =~= drop_oldest(s));
    } else {
        assert(r.drop_last() =~= s);
    }
}

/// Pushing items one by one onto an empty buffer with room for at least one
/// item leaves exactly the last `capacity` of them (all of them when fewer),
/// oldest first.
pub proof fn law_keeps_newest_items<T>(capacity: nat, values: Seq<T>)
    requires
        capacity > 0,
    ensures
        push_all_spec(Seq::<T>::empty(), capacity, values) == values.subrange(
            if values.len() > capacity {
                values.len() - capacity
            } else {
                0
            },
            values.len() as int,
        ),
    decreases values.len(),
{
    if values.len() > 0 {
        let prefix = values.drop_last();
        law_keeps_newest_items(capacity, prefix);
        let before = push_all_spec(Seq::<T>::empty(), capacity, prefix);
        let after = push_all_spec(Seq::<T>::empty(), capacity, values);
        assert(after == push_spec(before, capacity, values.last()));
        let start: int = if values.len() > capacity {
            values.len() - capacity
        } else {
            0
        };
        assert(after =~= values.subrange(start, values.len() as int));
    }
}

} // verus!
