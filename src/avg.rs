use vstd::prelude::*;

verus! {

/// The largest value that an `Avg` accepts.
pub const MAX_VALUE: u64 = 1_000_000_000_000_000;

/// The largest window that an `Avg` can be made with.
pub const MAX_SIZE: usize = 10_000;

/// The sum of the values in `s`.
pub open spec fn seq_sum(s: Seq<u64>) -> int
    decreases s.len(),
{
    if s.len() == 0 {
        0
    } else {
        seq_sum(s.drop_last()) + s.last()
    }
}

/// The window after `v` is added to `w`: the oldest value leaves once the
/// window holds `size` values.
pub open spec fn next_window(w: Seq<u64>, v: u64, size: nat) -> Seq<u64> {
    if w.len() < size {
        w.push(v)
    } else {
        w.drop_first().push(v)
    }
}

proof fn lemma_sum_drop_first(s: Seq<u64>)
    requires
        s.len() > 0,
    ensures
        seq_sum(s) == s[0] + seq_sum(s.drop_first()),
    decreases s.len(),
{
    if s.len() == 1 {
        assert(seq_sum(s.drop_first()) == 0);
        assert(seq_sum(s.drop_last()) == 0);
        assert(s.last() == s[0]);
    } else {
        let d = s.drop_first();
        lemma_sum_drop_first(s.drop_last());
        assert(s.drop_last().drop_first() =~= d.drop_last());
        assert(d.last() == s.last());
        assert(s.drop_last()[0] == s[0]);
        assert(seq_sum(d) == seq_sum(d.drop_last()) + d.last());
    }
}

proof fn lemma_sum_bound(s: Seq<u64>)
    requires
        forall|i: int| 0 <= i < s.len() ==> s[i] <= MAX_VALUE,
    ensures
        0 <= seq_sum(s) <= s.len() * MAX_VALUE,
    decreases s.len(),
{
    if s.len() > 0 {
        lemma_sum_bound(s.drop_last());
    }
}

/// A moving average over the last `size` values, kept in a ring buffer.
pub struct Avg {
    values: Vec<u64>,
    size: usize,
    position: usize,
    num_values: usize,
    sum: u64,
}

impl Avg {
    /// The values in the window, oldest first.
    pub closed spec fn window(&self) -> Seq<u64> {
        if self.num_values < self.size {
            self.values@.subrange(0, self.num_values as int)
        } else {
            self.values@.subrange(self.position as int, self.size as int) + self.values@.subrange(
                0,
                self.position as int,
            )
        }
    }

    /// How many values the window holds at most.
    pub closed spec fn capacity(&self) -> nat {
        self.size as nat
    }

    pub closed spec fn wf(&self) -> bool {
        &&& 1 <= self.size <= MAX_SIZE
        &&& self.values@.len() == self.size
        &&& self.position < self.size
        &&& self.num_values <= self.size
        &&& self.num_values < self.size ==> self.position == self.num_values
        &&& forall|i: int| 0 <= i < self.size ==> self.values@[i] <= MAX_VALUE
        &&& self.sum == seq_sum(self.window())
    }

    proof fn lemma_window(&self)
        requires
            self.wf(),
        ensures
            self.window().len() == self.num_values,
            self.window().len() <= self.capacity() <= MAX_SIZE,
            forall|i: int| 0 <= i < self.window().len() ==> self.window()[i] <= MAX_VALUE,
            self.num_values == self.size ==> self.window()[0] == self.values@[self.position as int],
    {
    }

    /// An empty window of `size` values.
    pub fn new(size: usize) -> (r: Self)
        requires
            1 <= size <= MAX_SIZE,
        ensures
            r.wf(),
            r.window() == Seq::<u64>::empty(),
            r.capacity() == size,
    {
        let r = Avg { values: vec![0; size], size, position: 0, num_values: 0, sum: 0 };
        assert(r.window() =~= Seq::<u64>::empty());
        r
    }

    /// Adds `value` to the window. Once the window is full, returns the mean
    /// of its values, rounded down; before that, `None`.
    pub fn add_value(&mut self, value: u64) -> (r: Option<u64>)
        requires
            old(self).wf(),
            value <= MAX_VALUE,
        ensures
            final(self).wf(),
            final(self).capacity() == old(self).capacity(),
            final(self).window() == next_window(old(self).window(), value, old(self).capacity()),
            r == if final(self).window().len() == final(self).capacity() {
                Some((seq_sum(final(self).window()) / (final(self).capacity() as int)) as u64)
            } else {
                None::<u64>
            },
    {
        let ghost w = self.window();
        let ghost rest = if w.len() < self.size {
            w
        } else {
            w.drop_first()
        };
        proof {
            self.lemma_window();
            lemma_sum_bound(w);
            lemma_sum_bound(rest);
        }
        if self.num_values == self.size {
            proof {
                lemma_sum_drop_first(w);
            }
            self.sum = self.sum - self.values[self.position];
        }
        assert(self.sum == seq_sum(rest));
        self.values.set(self.position, value);
        self.sum = self.sum + value;
        self.position = self.position + 1;
        if self.position >= self.size {
            self.position = 0;
        }
        if self.num_values < self.size {
            self.num_values = self.num_values + 1;
        }
        assert(self.window() =~= rest.push(value));
        assert(rest.push(value).drop_last() =~= rest);
        proof {
            lemma_sum_bound(self.window());
        }
        if self.num_values == self.size {
            Some(self.sum / (self.size as u64))
        } else {
            None
        }
    }
}

} // verus!
