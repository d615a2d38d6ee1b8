//! The ring buffer that retains the most recent samples of the stream.

use vstd::prelude::*;

verus! {

/// Why a request could not be served.
#[derive(Debug, Clone, Copy, PartialEq, Eq, Structural)]
pub enum AudioError {
    /// No sample was ever taken.
    EmptyWindow,
    /// The codec or the container writer reported a failure.
    EncodeError,
    /// The byte sink could not be written.
    WriteError,
    /// The native capture source could not be acquired.
    CaptureUnavailable,
}

/// Position `k` steps after `start` on a ring of `cap` slots, for `start, k < cap`.
pub open spec fn ring_slot(start: int, k: int, cap: int) -> int {
    if start + k < cap {
        start + k
    } else {
        start + k - cap
    }
}

/// Fixed-capacity circular store of interleaved samples.
///
/// The window keeps, besides the slots themselves, a ghost record of every
/// sample that it took, oldest first. Before the first write each slot holds
/// the `silence` value given at creation.
pub struct AudioWindow<T> {
    buffer: Vec<T>,
    write_index: usize,
    logical_len: usize,
    recording: bool,
    has_data: bool,
    silence: Ghost<T>,
    taken: Ghost<Seq<T>>,
}

/// What a window is, abstractly: its fixed shape, its flag, and every sample
/// that it took.
pub struct WindowModel<T> {
    /// Number of slots, fixed at creation.
    pub capacity: nat,
    /// Number of samples that a snapshot returns.
    pub window_len: nat,
    /// Whether pushed samples are taken.
    pub recording: bool,
    /// The value every slot holds before it is first written.
    pub silence: T,
    /// Every sample taken since creation, oldest first.
    pub pushed: Seq<T>,
}

impl<T> WindowModel<T> {
    /// The stream as the ring sees it: a full ring of silence, then every
    /// sample taken.
    pub open spec fn timeline(self) -> Seq<T> {
        Seq::new(self.capacity, |i: int| self.silence) + self.pushed
    }

    /// What the ring holds, oldest first: the last `capacity` samples of the
    /// timeline.
    pub open spec fn contents(self) -> Seq<T> {
        let t = self.timeline();
        t.subrange(t.len() - self.capacity, t.len() as int)
    }

    /// The last `window_len` samples that the ring holds, oldest first.
    pub open spec fn window_view(self) -> Seq<T> {
        let c = self.contents();
        c.subrange(c.len() - self.window_len, c.len() as int)
    }

    /// The result of a snapshot.
    pub open spec fn snapshot(self) -> Result<Seq<T>, AudioError> {
        if self.pushed.len() == 0 {
            Err(AudioError::EmptyWindow)
        } else {
            Ok(self.window_view())
        }
    }

    /// The window after a block of samples is offered to it.
    pub open spec fn push_block(self, samples: Seq<T>) -> Self {
        if self.recording {
            WindowModel { pushed: self.pushed + samples, ..self }
        } else {
            self
        }
    }

    /// The window after its length is set to `n` samples, held to `1..=capacity`.
    pub open spec fn configure(self, n: int) -> Self {
        WindowModel { window_len: clamp_spec(n, 1, self.capacity as int) as nat, ..self }
    }

    /// The window with its flag set to `on`.
    pub open spec fn with_recording(self, on: bool) -> Self {
        WindowModel { recording: on, ..self }
    }
}

impl<T: Copy> View for AudioWindow<T> {
    type V = WindowModel<T>;

    closed spec fn view(&self) -> WindowModel<T> {
        WindowModel {
            capacity: self.buffer@.len(),
            window_len: self.logical_len as nat,
            recording: self.recording,
            silence: self.silence@,
            pushed: self.taken@,
        }
    }
}

impl<T: Copy> AudioWindow<T> {
    pub closed spec fn wf(&self) -> bool {
        &&& 0 < self.buffer@.len()
        &&& self.write_index < self.buffer@.len()
        &&& 1 <= self.logical_len <= self.buffer@.len()
        &&& self.has_data == (self.taken@.len() > 0)
        &&& forall|k: int|
            0 <= k < self.buffer@.len() ==> #[trigger] self.buffer@[ring_slot(
                self.write_index as int,
                k,
                self.buffer@.len() as int,
            )] == self@.contents()[k]
    }

    /// What a well-formed window is known to satisfy: at least one slot, and a
    /// window length between one sample and the capacity.
    pub proof fn lemma_wf_shape(&self)
        requires
            self.wf(),
        ensures
            0 < self@.capacity,
            1 <= self@.window_len <= self@.capacity,
    {
    }

    /// A window of `capacity` slots, all holding `silence`, that returns
    /// `window` samples (held to `1..=capacity`) and does not record yet.
    pub fn new(capacity: usize, window: usize, silence: T) -> (r: Self)
        requires
            capacity > 0,
        ensures
            r.wf(),
            r@ == (WindowModel {
                capacity: capacity as nat,
                window_len: clamp_spec(window as int, 1, capacity as int) as nat,
                recording: false,
                silence,
                pushed: Seq::<T>::empty(),
            }),
    {
        let mut buffer: Vec<T> = Vec::new();
        let mut i: usize = 0;
        while i < capacity
            invariant
                i <= capacity,
                buffer@.len() == i,
                forall|j: int| 0 <= j < i ==> buffer@[j] == silence,
            decreases capacity - i,
        {
            buffer.push(silence);
            i = i + 1;
        }
        let r = AudioWindow {
            buffer,
            write_index: 0,
            logical_len: clamp(window, 1, capacity),
            recording: false,
            has_data: false,
            silence: Ghost(silence),
            taken: Ghost(Seq::empty()),
        };
        assert(r@.timeline() =~= Seq::new(capacity as nat, |i: int| silence));
        assert forall|k: int| 0 <= k < capacity implies #[trigger] r.buffer@[ring_slot(0, k, capacity as int)] == r@.contents()[k] by {}
        r
    }

    /// The number of slots.
    pub fn capacity(&self) -> (r: usize)
        requires
            self.wf(),
        ensures
            r == self@.capacity,
    {
        self.buffer.len()
    }

    /// The number of samples that a snapshot returns.
    pub fn window_samples(&self) -> (r: usize)
        ensures
            r == self@.window_len,
    {
        self.logical_len
    }

    pub fn is_recording(&self) -> (r: bool)
        ensures
            r == self@.recording,
    {
        self.recording
    }

    /// Sets the window to `window_samples` samples held to `1..=capacity`.
    pub fn configure(&mut self, window_samples: usize)
        requires
            old(self).wf(),
        ensures
            final(self).wf(),
            final(self)@ == old(self)@.configure(window_samples as int),
    {
        self.logical_len = clamp(window_samples, 1, self.buffer.len());
    }

    /// Turns recording on or off.
    pub fn set_recording(&mut self, on: bool)
        requires
            old(self).wf(),
        ensures
            final(self).wf(),
            final(self)@ == old(self)@.with_recording(on),
    {
        self.recording = on;
    }

    /// Writes one sample at the cursor and advances it, whatever the flag says.
    fn write(&mut self, sample: T)
        requires
            old(self).wf(),
        ensures
            final(self).wf(),
            final(self)@ == (WindowModel { pushed: old(self)@.pushed.push(sample), ..old(self)@ }),
    {
        let ghost before = self@.contents();
        let ghost c = self.buffer@.len() as int;
        let ghost w = self.write_index as int;
        let ghost t0 = self@.timeline();
        let idx = self.write_index;
        self.buffer.set(idx, sample);
        self.write_index = if idx == self.buffer.len() - 1 { 0 } else { idx + 1 };
        self.has_data = true;
        self.taken = Ghost(self.taken@.push(sample));
        proof {
            let t1 = self@.timeline();
            assert(t1 =~= t0.push(sample));
            assert(self@.contents() =~= before.subrange(1, c).push(sample));
            assert forall|k: int| 0 <= k < c implies #[trigger] self.buffer@[ring_slot(
                self.write_index as int,
                k,
                c,
            )] == self@.contents()[k] by {
                if k < c - 1 {
                    assert(ring_slot(self.write_index as int, k, c) == ring_slot(w, k + 1, c));
                    assert(old(self).buffer@[ring_slot(w, k + 1, c)] == before[k + 1]);
                } else {
                    assert(ring_slot(self.write_index as int, k, c) == w);
                }
            }
        }
    }

    /// Takes one sample if recording; does nothing otherwise.
    pub fn push(&mut self, sample: T)
        requires
            old(self).wf(),
        ensures
            final(self).wf(),
            final(self)@ == old(self)@.push_block(seq![sample]),
    {
        if self.recording {
            self.write(sample);
            assert(old(self)@.pushed.push(sample) =~= old(self)@.pushed + seq![sample]);
        }
    }

    /// Takes a block of samples in order if recording; does nothing otherwise.
    pub fn push_block(&mut self, samples: &[T])
        requires
            old(self).wf(),
        ensures
            final(self).wf(),
            final(self)@ == old(self)@.push_block(samples@),
    {
        if !self.recording {
            return;
        }
        let mut i: usize = 0;
        while i < samples.len()
            invariant
                self.wf(),
                i <= samples@.len(),
                old(self)@.recording,
                self@ == old(self)@.push_block(samples@.subrange(0, i as int)),
            decreases samples@.len() - i,
        {
            self.write(samples[i]);
            assert(old(self)@.pushed + samples@.subrange(0, i + 1) =~= (old(self)@.pushed
                + samples@.subrange(0, i as int)).push(samples@[i as int]));
            i = i + 1;
        }
        assert(samples@.subrange(0, i as int) =~= samples@);
    }

    /// The last `window_len` samples in the order they were taken, or
    /// `EmptyWindow` when no sample was ever taken.
    pub fn snapshot(&self) -> (r: Result<Vec<T>, AudioError>)
        requires
            self.wf(),
        ensures
            match r {
                Ok(v) => self@.snapshot() == Ok::<Seq<T>, AudioError>(v@),
                Err(e) => self@.snapshot() == Err::<Seq<T>, AudioError>(e),
            },
    {
        if !self.has_data {
            return Err(AudioError::EmptyWindow);
        }
        let cap = self.buffer.len();
        let len = self.logical_len;
        let w = self.write_index;
        let start = if w >= len { w - len } else { w + (cap - len) };
        let mut out: Vec<T> = Vec::with_capacity(len);
        let mut i: usize = 0;
        while i < len
            invariant
                self.wf(),
                cap == self@.capacity,
                len == self@.window_len,
                start == ring_slot(w as int, cap - len, cap as int),
                w == self.write_index,
                i <= len,
                out@ =~= self@.window_view().subrange(0, i as int),
            decreases len - i,
        {
            let j = if i < cap - start { start + i } else { i - (cap - start) };
            proof {
                assert(j == ring_slot(w as int, cap - len + i, cap as int));
                assert(self.buffer@[ring_slot(w as int, cap - len + i, cap as int)]
                    == self@.contents()[cap - len + i]);
            }
            out.push(self.buffer[j]);
            i = i + 1;
        }
        assert(out@ =~= self@.window_view());
        Ok(out)
    }
}

/// Once at least `capacity` samples were taken, a snapshot returns exactly the
/// last `window_len` of them, in the order they were taken.
pub proof fn lemma_snapshot_is_last_pushed<T>(m: WindowModel<T>)
    requires
        1 <= m.window_len <= m.capacity,
        m.pushed.len() >= m.capacity,
    ensures
        m.snapshot() == Ok::<Seq<T>, AudioError>(
            m.pushed.subrange(m.pushed.len() - m.window_len, m.pushed.len() as int),
        ),
{
    let n = m.pushed.len() as int;
    let c = m.capacity as int;
    let l = m.window_len as int;
    assert(m.contents() =~= m.pushed.subrange(n - c, n));
    assert(m.window_view() =~= m.pushed.subrange(n - l, n));
}

/// With the window as long as the ring, after `capacity + k` samples (`k > 0`)
/// a snapshot returns the samples from the `k`-th on: the ring has wrapped.
pub proof fn lemma_wraparound<T>(m: WindowModel<T>, k: nat)
    requires
        0 < m.capacity,
        m.window_len == m.capacity,
        k > 0,
        m.pushed.len() == m.capacity + k,
    ensures
        m.snapshot() == Ok::<Seq<T>, AudioError>(m.pushed.subrange(k as int, (m.capacity + k) as int)),
{
    lemma_snapshot_is_last_pushed(m);
}

/// However blocks were taken or dropped, a snapshot holds exactly
/// `window_len` values, each of them the initial silence or a sample that
/// the window took: no value is torn or made up.
pub proof fn lemma_snapshot_values_are_taken<T>(m: WindowModel<T>)
    requires
        1 <= m.window_len <= m.capacity,
    ensures
        match m.snapshot() {
            Ok(v) => v.len() == m.window_len && forall|i: int|
                0 <= i < v.len() ==> #[trigger] v[i] == m.silence || m.pushed.contains(v[i]),
            Err(_) => m.pushed.len() == 0,
        },
{
    if m.pushed.len() > 0 {
        let v = m.window_view();
        let t = m.timeline();
        let c = m.capacity as int;
        let l = m.window_len as int;
        assert forall|i: int| 0 <= i < v.len() implies #[trigger] v[i] == m.silence || m.pushed.contains(v[i]) by {
            let at = t.len() - l + i;
            assert(v[i] == t[at]);
            if at >= c {
                assert(m.pushed[at - c] == v[i]);
            }
        }
    }
}

/// Offering samples to a window that does not record changes no snapshot.
pub proof fn lemma_idle_push_keeps_snapshot<T>(m: WindowModel<T>, samples: Seq<T>)
    requires
        !m.recording,
    ensures
        m.push_block(samples).snapshot() == m.snapshot(),
{
}

/// `x` held to the range `lo..=hi`, for `lo <= hi`.
pub open spec fn clamp_spec(x: int, lo: int, hi: int) -> int {
    if x < lo {
        lo
    } else if x > hi {
        hi
    } else {
        x
    }
}

/// `x` held to the range `lo..=hi`.
pub fn clamp(x: usize, lo: usize, hi: usize) -> (r: usize)
    requires
        lo <= hi,
    ensures
        r == clamp_spec(x as int, lo as int, hi as int),
{
    if x < lo {
        lo
    } else if x > hi {
        hi
    } else {
        x
    }
}

} // verus!
