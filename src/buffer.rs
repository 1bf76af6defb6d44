use vstd::prelude::*;

verus! {

/// A byte buffer with an active window.
///
/// The window can be narrowed and reset without losing any of the underlying
/// bytes, so a buffer handed back after narrowing is still the whole buffer
/// that was lent.
pub struct SubSliceMut {
    internal: Vec<u8>,
    start: usize,
    end: usize,
}

impl View for SubSliceMut {
    type V = Seq<u8>;

    /// The bytes in the active window.
    closed spec fn view(&self) -> Seq<u8> {
        self.internal@.subrange(self.start as int, self.end as int)
    }
}

impl SubSliceMut {
    /// The window lies inside the underlying bytes.
    pub closed spec fn wf(&self) -> bool {
        self.start <= self.end <= self.internal@.len()
    }

    /// All the underlying bytes, inside the window or not.
    pub closed spec fn underlying(&self) -> Seq<u8> {
        self.internal@
    }

    /// Where the window starts in the underlying bytes.
    pub closed spec fn window_start(&self) -> int {
        self.start as int
    }

    /// The active window lies inside the underlying bytes.
    pub proof fn lemma_window_within(&self)
        requires
            self.wf(),
        ensures
            0 <= self.window_start(),
            self.window_start() + self@.len() <= self.underlying().len(),
    {
    }

    /// A buffer whose window covers all of `buf`.
    pub fn new(buf: Vec<u8>) -> (r: SubSliceMut)
        ensures
            r.wf(),
            r.underlying() == buf@,
            r@ == buf@,
            r.window_start() == 0,
    {
        let end = buf.len();
        let r = SubSliceMut { internal: buf, start: 0, end };
        assert(r@ =~= buf@);
        r
    }

    /// Length of the active window.
    pub fn len(&self) -> (r: usize)
        requires
            self.wf(),
        ensures
            r == self@.len(),
    {
        self.end - self.start
    }

    /// Whether the active window is empty.
    pub fn is_empty(&self) -> (r: bool)
        requires
            self.wf(),
        ensures
            r == (self@.len() == 0),
    {
        self.end == self.start
    }

    /// The byte at `i` within the active window.
    pub fn get(&self, i: usize) -> (r: u8)
        requires
            self.wf(),
            i < self@.len(),
        ensures
            r == self@[i as int],
    {
        self.internal[self.start + i]
    }

    /// The active window as a slice.
    pub fn as_slice(&self) -> (r: &[u8])
        requires
            self.wf(),
        ensures
            r@ == self@,
    {
        vstd::slice::slice_subrange(self.internal.as_slice(), self.start, self.end)
    }

    /// Overwrites the byte at `i` within the active window.
    pub fn set(&mut self, i: usize, b: u8)
        requires
            old(self).wf(),
            i < old(self)@.len(),
        ensures
            final(self).wf(),
            final(self)@ == old(self)@.update(i as int, b),
            final(self).window_start() == old(self).window_start(),
            final(self).underlying() == old(self).underlying().update(
                old(self).window_start() + i,
                b,
            ),
    {
        self.internal.set(self.start + i, b);
        assert(self@ =~= old(self)@.update(i as int, b));
    }

    /// Drops the first `n` bytes of the active window, or all of them where the
    /// window is shorter.
    pub fn slice_from(&mut self, n: usize)
        requires
            old(self).wf(),
        ensures
            final(self).wf(),
            final(self).underlying() == old(self).underlying(),
            n <= old(self)@.len() ==> final(self).window_start() == old(self).window_start() + n,
            n <= old(self)@.len() ==> final(self)@ == old(self)@.subrange(
                n as int,
                old(self)@.len() as int,
            ),
            n > old(self)@.len() ==> final(self)@.len() == 0,
    {
        if n <= self.end - self.start {
            self.start = self.start + n;
        } else {
            self.start = self.end;
        }
        assert(n <= old(self)@.len() ==> self@ =~= old(self)@.subrange(
            n as int,
            old(self)@.len() as int,
        ));
    }

    /// Keeps only the first `n` bytes of the active window, or all of them
    /// where the window is shorter.
    pub fn slice_to(&mut self, n: usize)
        requires
            old(self).wf(),
        ensures
            final(self).wf(),
            final(self).underlying() == old(self).underlying(),
            final(self).window_start() == old(self).window_start(),
            n <= old(self)@.len() ==> final(self)@ == old(self)@.subrange(0, n as int),
            n > old(self)@.len() ==> final(self)@ == old(self)@,
    {
        if n <= self.end - self.start {
            self.end = self.start + n;
        }
        assert(n <= old(self)@.len() ==> self@ =~= old(self)@.subrange(0, n as int));
    }

    /// Widens the active window back to all the underlying bytes.
    pub fn reset(&mut self)
        requires
            old(self).wf(),
        ensures
            final(self).wf(),
            final(self).underlying() == old(self).underlying(),
            final(self)@ == old(self).underlying(),
            final(self).window_start() == 0,
    {
        self.start = 0;
        self.end = self.internal.len();
        assert(self@ =~= self.internal@);
    }

    /// Sets every underlying byte to zero, inside the active window or not,
    /// and keeps the window where it is.
    pub fn zero_all(&mut self)
        requires
            old(self).wf(),
        ensures
            final(self).wf(),
            final(self).underlying() == Seq::new(old(self).underlying().len(), |_i: int| 0u8),
            final(self).window_start() == old(self).window_start(),
            final(self)@ == Seq::new(old(self)@.len(), |_i: int| 0u8),
    {
        let n = self.internal.len();
        let mut i: usize = 0;
        while i < n
            invariant
                i <= n,
                n == self.internal@.len(),
                n == old(self).internal@.len(),
                self.start == old(self).start,
                self.end == old(self).end,
                forall|j: int| 0 <= j < i ==> self.internal@[j] == 0u8,
            decreases n - i,
        {
            self.internal.set(i, 0);
            i = i + 1;
        }
        assert(self.internal@ =~= Seq::new(n as nat, |_i: int| 0u8));
        assert(self@ =~= Seq::new(old(self)@.len(), |_i: int| 0u8));
    }

    /// Gives back all the underlying bytes.
    pub fn take(self) -> (r: Vec<u8>)
        ensures
            r@ == self.underlying(),
    {
        self.internal
    }
}

} // verus!
