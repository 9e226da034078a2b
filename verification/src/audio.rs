//! The window of most recent audio samples that spectrum analysis reads.

use vstd::prelude::*;

verus! {

/// The last `n` items of `s` (all of them when `s` is shorter).
pub open spec fn last_n<T>(s: Seq<T>, n: nat) -> Seq<T> {
    if s.len() > n {
        s.skip(s.len() - n)
    } else {
        s
    }
}

/// Holds at most `buffer_size` of the most recent samples.
pub struct SampleWindow<T> {
    buffer: Vec<T>,
    buffer_size: usize,
}

impl<T: Copy> SampleWindow<T> {
    pub closed spec fn samples_spec(&self) -> Seq<T> {
        self.buffer@
    }

    pub closed spec fn capacity(&self) -> nat {
        self.buffer_size as nat
    }

    pub closed spec fn wf(&self) -> bool {
        self.buffer@.len() <= self.buffer_size
    }

    /// An empty window holding up to `buffer_size` samples.
    pub fn new(buffer_size: usize) -> (r: SampleWindow<T>)
        ensures
            r.wf(),
            r.samples_spec().len() == 0,
            r.capacity() == buffer_size,
    {
        SampleWindow { buffer: Vec::new(), buffer_size }
    }

    /// Appends `samples` and drops the oldest samples beyond the capacity.
    pub fn add_samples(&mut self, samples: &[T])
        requires
            old(self).wf(),
            old(self).samples_spec().len() + samples@.len() <= usize::MAX,
        ensures
            final(self).wf(),
            final(self).capacity() == old(self).capacity(),
            final(self).samples_spec() == last_n(
                old(self).samples_spec() + samples@,
                old(self).capacity(),
            ),
    {
        let ghost all = self.buffer@ + samples@;
        let cap = self.buffer_size;
        let old_len = self.buffer.len();
        let total = old_len + samples.len();
        let drop = if total > cap {
            total - cap
        } else {
            0
        };
        let mut kept: Vec<T> = Vec::new();
        let mut i: usize = drop;
        while i < old_len
            invariant
                drop <= i || i == drop,
                old_len == self.buffer@.len(),
                drop <= total,
                total == old_len + samples@.len(),
                all == self.buffer@ + samples@,
                i <= old_len || i == drop,
                kept@ == all.subrange(drop as int, if i > drop { i as int } else { drop as int }),
            decreases old_len - i,
        {
            kept.push(self.buffer[i]);
            i = i + 1;
            assert(kept@ =~= all.subrange(drop as int, i as int));
        }
        let start = if drop > old_len {
            drop - old_len
        } else {
            0
        };
        let mut j: usize = start;
        assert(kept@ =~= all.subrange(drop as int, old_len + start));
        while j < samples.len()
            invariant
                start <= j <= samples@.len() || j == start,
                start <= samples@.len(),
                drop <= total,
                total == old_len + samples@.len(),
                all == self.buffer@ + samples@,
                old_len == self.buffer@.len(),
                start == (if drop > old_len { drop - old_len } else { 0 }),
                kept@ == all.subrange(drop as int, old_len + j),
            decreases samples@.len() - j,
        {
            kept.push(samples[j]);
            j = j + 1;
            assert(kept@ =~= all.subrange(drop as int, old_len + j));
        }
        assert(kept@ =~= last_n(all, cap as nat));
        self.buffer = kept;
    }

    /// The samples in the window, oldest first.
    pub fn samples(&self) -> (r: &Vec<T>)
        ensures
            r@ == self.samples_spec(),
    {
        &self.buffer
    }
}

/// Adding samples in two batches keeps the same window as adding them at once.
pub proof fn law_add_in_batches<T>(held: Seq<T>, first: Seq<T>, second: Seq<T>, n: nat)
    ensures
        last_n(last_n(held + first, n) + second, n) == last_n(held + first + second, n),
{
    let a = held + first;
    let all = a + second;
    let kept = last_n(a, n) + second;
    assert(last_n(kept, n) =~= last_n(all, n)) by {
        assert(last_n(kept, n).len() == last_n(all, n).len());
        assert forall|i: int| 0 <= i < last_n(kept, n).len() implies #[trigger] last_n(kept, n)[i]
            == last_n(all, n)[i] by {
            let k = last_n(kept, n).len();
            assert(last_n(kept, n)[i] == kept[kept.len() - k + i]);
            assert(last_n(all, n)[i] == all[all.len() - k + i]);
            let j = kept.len() - k + i;
            if j >= last_n(a, n).len() {
                assert(kept[j] == second[j - last_n(a, n).len()]);
            } else {
                assert(kept[j] == last_n(a, n)[j]);
            }
        }
    }
}

} // verus!
