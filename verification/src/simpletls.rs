//! Values that belong to threads.
use crate::raw::{Addr, Call};
use vstd::prelude::*;

verus! {

/// A map from threads to values.  Threads are added by hand.
pub struct SimpleTls<T: Copy> {
    /// The associations, ordered by thread.
    pub map: Vec<(usize, T)>,
}

/// Whether a thread has a value.
pub open spec fn has_thread<T>(map: Seq<(usize, T)>, thread: usize) -> bool {
    exists|i: int| 0 <= i < map.len() && (#[trigger] map[i]).0 == thread
}

impl<T: Copy> View for SimpleTls<T> {
    type V = Map<usize, T>;

    open spec fn view(&self) -> Map<usize, T> {
        let map = self.map@;
        Map::new(
            |thread: usize| has_thread(map, thread),
            |thread: usize|
                map[choose|i: int| 0 <= i < map.len() && (#[trigger] map[i]).0 == thread].1,
        )
    }
}

impl<T: Copy> SimpleTls<T> {
    /// The associations are ordered, with one for each thread.
    pub open spec fn wf(self) -> bool {
        forall|i: int, j: int|
            0 <= i < j < self.map@.len() ==> (#[trigger] self.map@[i]).0 < (
            #[trigger] self.map@[j]).0
    }

    /// A map without threads.
    pub fn new() -> (r: SimpleTls<T>)
        ensures
            r.wf(),
            r@ == Map::<usize, T>::empty(),
    {
        let r = SimpleTls { map: Vec::new() };
        assert(r@ =~= Map::<usize, T>::empty());
        r
    }

    /// Where a thread stands, or where it would be inserted.
    fn search(&self, thread: usize) -> (r: Result<usize, usize>)
        requires
            self.wf(),
        ensures
            match r {
                Ok(pos) => pos < self.map@.len() && self.map@[pos as int].0 == thread,
                Err(pos) => {
                    &&& pos <= self.map@.len()
                    &&& forall|i: int| 0 <= i < pos ==> (#[trigger] self.map@[i]).0 < thread
                    &&& forall|i: int|
                        pos <= i < self.map@.len() ==> thread < (#[trigger] self.map@[i]).0
                },
            },
    {
        let mut low: usize = 0;
        let mut high: usize = self.map.len();
        while low < high
            invariant
                self.wf(),
                low <= high <= self.map@.len(),
                forall|i: int| 0 <= i < low ==> (#[trigger] self.map@[i]).0 < thread,
                forall|i: int| high <= i < self.map@.len() ==> thread < (#[trigger] self.map@[i]).0,
            decreases high - low,
        {
            let middle: usize = low + (high - low) / 2;
            let id: usize = self.map[middle].0;
            if id == thread {
                return Ok(middle);
            } else if id < thread {
                low = middle + 1;
            } else {
                high = middle;
            }
        }
        Err(low)
    }

    /// Give a value to a thread.  The value that the thread had is replaced.
    pub fn insert(&mut self, thread: Addr, data: T)
        requires
            old(self).wf(),
        ensures
            final(self).wf(),
            final(self)@ == old(self)@.insert(thread, data),
    {
        match self.search(thread) {
            Ok(pos) => {
                self.map[pos] = (thread, data);
                proof {
                    assert forall|k: usize| has_thread(self.map@, k) == has_thread(
                        old(self).map@,
                        k,
                    ) by {
                        if has_thread(self.map@, k) {
                            let i = choose|i: int|
                                0 <= i < self.map@.len() && (#[trigger] self.map@[i]).0 == k;
                            assert(old(self).map@[i].0 == k);
                        }
                        if has_thread(old(self).map@, k) {
                            let i = choose|i: int|
                                0 <= i < old(self).map@.len() && (#[trigger] old(self).map@[i]).0
                                    == k;
                            assert(self.map@[i].0 == k);
                        }
                    }
                    assert(self.map@[pos as int].0 == thread);
                    assert(self@ =~= old(self)@.insert(thread, data));
                }
            },
            Err(pos) => {
                self.map.insert(pos, (thread, data));
                proof {
                    let before = old(self).map@;
                    assert forall|i: int| 0 <= i < self.map@.len() implies (
                    #[trigger] self.map@[i]) == (if i < pos {
                        before[i]
                    } else if i == pos {
                        (thread, data)
                    } else {
                        before[i - 1]
                    }) by {}
                    assert forall|k: usize|
                        has_thread(self.map@, k) == (k == thread || has_thread(before, k)) by {
                        if has_thread(before, k) {
                            let i = choose|i: int|
                                0 <= i < before.len() && (#[trigger] before[i]).0 == k;
                            let j = if i < pos {
                                i
                            } else {
                                i + 1
                            };
                            assert(self.map@[j].0 == k);
                        }
                        if k == thread {
                            assert(self.map@[pos as int].0 == k);
                        }
                        if has_thread(self.map@, k) && k != thread {
                            let i = choose|i: int|
                                0 <= i < self.map@.len() && (#[trigger] self.map@[i]).0 == k;
                            let j = if i < pos {
                                i
                            } else {
                                i - 1
                            };
                            assert(before[j].0 == k);
                        }
                    }
                    assert forall|k: usize| has_thread(before, k) && k != thread implies self@[k]
                        == old(self)@[k] by {
                        let i = choose|i: int|
                            0 <= i < self.map@.len() && (#[trigger] self.map@[i]).0 == k;
                        let j = choose|j: int|
                            0 <= j < before.len() && (#[trigger] before[j]).0 == k;
                        assert(has_thread(self.map@, k));
                        let moved = if j < pos {
                            j
                        } else {
                            j + 1
                        };
                        assert(self.map@[moved].0 == k);
                        assert(i == moved);
                    }
                    assert(self@[thread] == data) by {
                        assert(self.map@[pos as int].0 == thread);
                        let i = choose|i: int|
                            0 <= i < self.map@.len() && (#[trigger] self.map@[i]).0 == thread;
                        assert(i == pos);
                    }
                    let expected = old(self)@.insert(thread, data);
                    assert forall|k: usize|
                        self@.dom().contains(k) == expected.dom().contains(k) by {
                        assert(has_thread(self.map@, k) == (k == thread || has_thread(before, k)));
                    }
                    assert forall|k: usize| self@.dom().contains(k) implies self@[k]
                        == expected[k] by {
                        assert(has_thread(self.map@, k));
                        if k != thread {
                            assert(has_thread(before, k));
                        }
                    }
                    assert(self@ =~= expected);
                }
            },
        }
    }

    /// Ask which thread is running.
    pub fn get() -> (call: Call)
        ensures
            call == Call::CurrentGet,
    {
        Call::CurrentGet
    }

    /// The value of the running thread.
    pub fn get_done(&self, thread: Addr) -> (r: Option<T>)
        requires
            self.wf(),
        ensures
            r == (if self@.dom().contains(thread) {
                Some(self@[thread])
            } else {
                None
            }),
    {
        match self.search(thread) {
            Ok(pos) => {
                proof {
                    assert(self.map@[pos as int].0 == thread);
                    let i = choose|i: int|
                        0 <= i < self.map@.len() && (#[trigger] self.map@[i]).0 == thread;
                    assert(i == pos);
                }
                Some(self.map[pos].1)
            },
            Err(_) => None,
        }
    }
}

/// A thread has the value that it was given last, and giving one to another thread does not change
/// that.
pub proof fn law_last_insert_wins<T: Copy>(
    tls: SimpleTls<T>,
    thread: Addr,
    data: T,
    other: Addr,
    value: T,
)
    ensures
        tls@.insert(thread, data)[thread] == data,
        other != thread ==> tls@.insert(thread, data).insert(other, value)[thread] == data,
        other == thread ==> tls@.insert(thread, data).insert(other, value)[thread] == value,
{
}

/// A new map has no value for any thread.
pub proof fn law_new_map_is_empty<T: Copy>(new: SimpleTls<T>, thread: Addr, value: Option<T>)
    requires
        call_ensures(SimpleTls::<T>::new, (), new),
        call_ensures(SimpleTls::<T>::get_done, (&new, thread), value),
    ensures
        value is None,
        new.map@.len() == 0,
{
    if new.map@.len() > 0 {
        assert(has_thread(new.map@, new.map@[0].0));
        assert(new@.dom().contains(new.map@[0].0));
    }
}

/// A thread that was given a value has it, and every other thread has what it had before.  The
/// associations stay ordered by thread.
pub proof fn law_value_is_found<T: Copy>(
    tls: &mut SimpleTls<T>,
    thread: Addr,
    data: T,
    before: SimpleTls<T>,
    after: SimpleTls<T>,
    other: Addr,
    was: Option<T>,
    value: Option<T>,
)
    requires
        forall|i: int, j: int|
            0 <= i < j < old(tls).map@.len() ==> (#[trigger] old(tls).map@[i]).0 < (
            #[trigger] old(tls).map@[j]).0,
        before == *old(tls),
        call_ensures(SimpleTls::<T>::insert, (tls, thread, data), ()),
        after == *final(tls),
        call_ensures(SimpleTls::<T>::get_done, (&before, other), was),
        call_ensures(SimpleTls::<T>::get_done, (&after, other), value),
    ensures
        other == thread ==> value == Some(data),
        other != thread ==> value == was,
        forall|i: int, j: int|
            0 <= i < j < after.map@.len() ==> (#[trigger] after.map@[i]).0 < (
            #[trigger] after.map@[j]).0,
{
}

} // verus!
