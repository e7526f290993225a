//! A bounded sample window with drop-oldest eviction.
use vstd::prelude::*;

verus! {

/// The last `n` elements of `s`, or the whole of `s` when it holds no more than `n`.
pub open spec fn last_n<T>(s: Seq<T>, n: nat) -> Seq<T> {
    if s.len() <= n {
        s
    } else {
        s.subrange(s.len() - n, s.len() as int)
    }
}

/// The window that results from appending `frames` to `window` under `capacity`:
/// the oldest samples are evicted first, never the newest.
pub open spec fn appended<T>(window: Seq<T>, frames: Seq<T>, capacity: nat) -> Seq<T> {
    last_n(window + frames, capacity)
}

/// The window after a sequence of append batches, starting from `window`.
pub open spec fn appended_all<T>(window: Seq<T>, batches: Seq<Seq<T>>, capacity: nat) -> Seq<T>
    decreases batches.len(),
{
    if batches.len() == 0 {
        window
    } else {
        appended_all(appended(window, batches[0], capacity), batches.drop_first(), capacity)
    }
}

/// An ordered, bounded sequence of samples.
///
/// Appending beyond the capacity drops the oldest samples; the order of the
/// samples is always the order in which they were appended.
pub struct RingBuffer<T> {
    samples: Vec<T>,
    capacity: usize,
}

impl<T> View for RingBuffer<T> {
    type V = Seq<T>;

    /// The stored samples, oldest first.
    closed spec fn view(&self) -> Seq<T> {
        self.samples@
    }
}

impl<T: Copy> RingBuffer<T> {
    /// The largest number of samples the buffer may hold.
    pub closed spec fn spec_capacity(&self) -> nat {
        self.capacity as nat
    }

    /// The buffer never holds more samples than its capacity.
    pub closed spec fn wf(&self) -> bool {
        self.samples@.len() <= self.capacity
    }

    /// An empty buffer that holds at most `capacity` samples.
    pub fn new(capacity: usize) -> (r: Self)
        ensures
            r.wf(),
            r@ == Seq::<T>::empty(),
            r.spec_capacity() == capacity,
    {
        RingBuffer { samples: Vec::new(), capacity }
    }

    /// The number of stored samples.
    pub fn len(&self) -> (r: usize)
        ensures
            r == self@.len(),
    {
        self.samples.len()
    }

    /// The capacity of the buffer.
    pub fn capacity(&self) -> (r: usize)
        ensures
            r == self.spec_capacity(),
    {
        self.capacity
    }

    /// Appends `frames`, first dropping as many of the oldest samples as needed
    /// to stay within the capacity. When `frames` alone exceeds the capacity,
    /// only its last `capacity` samples are kept.
    pub fn append(&mut self, frames: &[T])
        requires
            old(self).wf(),
        ensures
            final(self).wf(),
            final(self).spec_capacity() == old(self).spec_capacity(),
            final(self)@ == appended(old(self)@, frames@, old(self).spec_capacity()),
    {
        let ghost before = self.samples@;
        let cap = self.capacity;
        let f = frames.len();
        let incoming = if f < cap { f } else { cap };
        let skip = f - incoming;
        let len = self.samples.len();
        let room = cap - incoming;
        let kept = if len < room { len } else { room };
        let dropped = len - kept;
        // Move the samples that stay to the front, oldest first.
        let mut k: usize = 0;
        while k < kept
            invariant
                k <= kept,
                kept + dropped == len,
                len == before.len(),
                self.capacity == cap,
                self.samples@.len() == len,
                forall|m: int| 0 <= m < k ==> self.samples@[m] == before[m + dropped],
                forall|m: int| k <= m < len ==> self.samples@[m] == before[m],
            decreases kept - k,
        {
            let x = self.samples[k + dropped];
            self.samples[k] = x;
            k = k + 1;
        }
        self.samples.truncate(kept);
        assert(self.samples@ =~= before.subrange(dropped as int, len as int));
        let mut j: usize = skip;
        while j < f
            invariant
                skip <= j <= f,
                f == frames@.len(),
                dropped <= len == before.len(),
                self.capacity == cap,
                self.samples@ == before.subrange(dropped as int, len as int) + frames@.subrange(
                    skip as int,
                    j as int,
                ),
            decreases f - j,
        {
            self.samples.push(frames[j]);
            j = j + 1;
        }
        assert(self.samples@ =~= last_n(before + frames@, cap as nat));
    }

    /// The most recent `min(n, len)` samples, oldest first. The buffer is unchanged.
    pub fn snapshot(&self, n: usize) -> (r: Vec<T>)
        ensures
            r@ == last_n(self@, n as nat),
            r@.len() <= n,
            r@.len() <= self@.len(),
    {
        let len = self.samples.len();
        let start = if len <= n { 0 } else { len - n };
        let mut out: Vec<T> = Vec::new();
        let mut i: usize = start;
        while i < len
            invariant
                start <= i <= len,
                len == self.samples@.len(),
                out@ == self.samples@.subrange(start as int, i as int),
            decreases len - i,
        {
            out.push(self.samples[i]);
            i = i + 1;
        }
        proof {
            assert(out@ =~= last_n(self@, n as nat));
        }
        out
    }

    /// Sets the capacity to `capacity`, dropping the oldest samples at once when
    /// more than `capacity` are stored.
    pub fn resize(&mut self, capacity: usize)
        requires
            old(self).wf(),
        ensures
            final(self).wf(),
            final(self).spec_capacity() == capacity,
            final(self)@ == last_n(old(self)@, capacity as nat),
    {
        let kept = self.snapshot(capacity);
        self.samples = kept;
        self.capacity = capacity;
    }

    /// Removes every sample; the capacity stays.
    pub fn clear(&mut self)
        requires
            old(self).wf(),
        ensures
            final(self).wf(),
            final(self).spec_capacity() == old(self).spec_capacity(),
            final(self)@ == Seq::<T>::empty(),
    {
        self.samples = Vec::new();
    }
}

/// Taking the last `n` of a window that already holds the last `n` of `history`,
/// extended by `frames`, equals taking the last `n` of `history` extended by `frames`.
pub proof fn lemma_last_n_absorbs<T>(history: Seq<T>, frames: Seq<T>, n: nat)
    ensures
        last_n(last_n(history, n) + frames, n) == last_n(history + frames, n),
{
    assert(last_n(last_n(history, n) + frames, n) =~= last_n(history + frames, n));
}

/// After any sequence of append batches the window holds no more than its
/// capacity, and it is exactly the last `capacity` samples of everything
/// ever appended, in the order they were appended.
pub proof fn lemma_window_is_stream_suffix<T>(batches: Seq<Seq<T>>, capacity: nat)
    ensures
        appended_all(Seq::<T>::empty(), batches, capacity) == last_n(batches.flatten(), capacity),
        appended_all(Seq::<T>::empty(), batches, capacity).len() <= capacity,
{
    lemma_window_of_history(Seq::<T>::empty(), batches, capacity);
    assert(Seq::<T>::empty() + batches.flatten() =~= batches.flatten());
}

/// Appending `batches` to the window of `history` gives the window of `history`
/// followed by all of `batches`.
pub proof fn lemma_window_of_history<T>(history: Seq<T>, batches: Seq<Seq<T>>, capacity: nat)
    ensures
        appended_all(last_n(history, capacity), batches, capacity) == last_n(
            history + batches.flatten(),
            capacity,
        ),
        appended_all(last_n(history, capacity), batches, capacity).len() <= capacity,
    decreases batches.len(),
{
    if batches.len() == 0 {
        assert(history + batches.flatten() =~= history);
    } else {
        let rest = batches.drop_first();
        lemma_last_n_absorbs(history, batches[0], capacity);
        lemma_window_of_history(history + batches[0], rest, capacity);
        assert(batches.flatten() == batches[0] + rest.flatten());
        assert(history + batches[0] + rest.flatten() =~= history + batches.flatten());
    }
    assert(last_n(history + batches.flatten(), capacity).len() <= capacity);
}

/// Whatever batches a chain of appends receives, starting from an empty window:
/// after every append the window holds no more than the capacity, and after the
/// last it is exactly the last `capacity` samples of all batches, in order.
/// `windows[i + 1]` is the window that `append` leaves after receiving
/// `batches[i]` on `windows[i]`.
pub proof fn lemma_append_chain<T>(windows: Seq<Seq<T>>, batches: Seq<Seq<T>>, capacity: nat)
    requires
        windows.len() == batches.len() + 1,
        windows[0] == Seq::<T>::empty(),
        forall|i: int|
            0 <= i < batches.len() ==> #[trigger] windows[i + 1] == appended(
                windows[i],
                batches[i],
                capacity,
            ),
    ensures
        windows.last() == last_n(batches.flatten(), capacity),
        forall|i: int| 0 <= i < windows.len() ==> (#[trigger] windows[i]).len() <= capacity,
{
    lemma_chain_from_history(Seq::<T>::empty(), windows, batches, capacity);
    assert(Seq::<T>::empty() + batches.flatten() =~= batches.flatten());
}

/// A chain of appends that starts from the window of `history` ends at the
/// window of `history` followed by all of its batches.
pub proof fn lemma_chain_from_history<T>(
    history: Seq<T>,
    windows: Seq<Seq<T>>,
    batches: Seq<Seq<T>>,
    capacity: nat,
)
    requires
        windows.len() == batches.len() + 1,
        windows[0] == last_n(history, capacity),
        forall|i: int|
            0 <= i < batches.len() ==> #[trigger] windows[i + 1] == appended(
                windows[i],
                batches[i],
                capacity,
            ),
    ensures
        windows.last() == last_n(history + batches.flatten(), capacity),
        forall|i: int| 0 <= i < windows.len() ==> (#[trigger] windows[i]).len() <= capacity,
    decreases batches.len(),
{
    if batches.len() == 0 {
        assert(history + batches.flatten() =~= history);
    } else {
        let rest = batches.drop_first();
        let later = windows.drop_first();
        lemma_last_n_absorbs(history, batches[0], capacity);
        assert(later[0] == windows[1]);
        assert forall|i: int| 0 <= i < rest.len() implies #[trigger] later[i + 1] == appended(
            later[i],
            rest[i],
            capacity,
        ) by {
            assert(windows[(i + 1) + 1] == appended(windows[i + 1], batches[i + 1], capacity));
        }
        lemma_chain_from_history(history + batches[0], later, rest, capacity);
        assert(batches.flatten() == batches[0] + rest.flatten());
        assert(history + batches[0] + rest.flatten() =~= history + batches.flatten());
        assert(later.last() == windows.last());
        assert forall|i: int| 0 <= i < windows.len() implies (#[trigger] windows[i]).len()
            <= capacity by {
            if i > 0 {
                assert(windows[i] == later[i - 1]);
            }
        }
    }
}

/// Shrinking the capacity and then appending any frames leaves no more samples
/// than the new capacity.
pub proof fn lemma_resize_then_append<T>(window: Seq<T>, new_capacity: nat, frames: Seq<T>)
    ensures
        appended(last_n(window, new_capacity), frames, new_capacity).len() <= new_capacity,
{
}

} // verus!
