//! FIFO byte buffer with contiguous read and write windows.
//!
//! The buffer owns a fixed-capacity byte store and two cursors `rpos` and
//! `wpos` with `0 <= rpos <= wpos <= capacity`.  The bytes in `[rpos, wpos)`
//! are the live contents; reads consume from the front, writes append at the
//! back.  When a write needs more contiguous room than the tail offers and
//! there are already-read bytes at the front, the live window is first moved
//! down to offset 0 (compaction).  Compaction is the only operation that moves
//! bytes; ordinary reads and writes only advance the cursors.

use vstd::prelude::*;

verus! {

/// FIFO byte buffer over a caller-provided backing store.
pub struct Buffer {
    store: Vec<u8>,
    rpos: usize,
    wpos: usize,
}

impl Buffer {
    /// Cursor discipline: `0 <= rpos <= wpos <= capacity`.
    pub closed spec fn wf(&self) -> bool {
        self.rpos <= self.wpos <= self.store@.len()
    }

    /// Size of the backing store; fixed for the life of the buffer.
    pub closed spec fn capacity(&self) -> int {
        self.store@.len() as int
    }

    /// The live bytes, oldest first.
    pub closed spec fn contents(&self) -> Seq<u8> {
        self.store@.subrange(self.rpos as int, self.wpos as int)
    }

    /// The read cursor: the offset of the next byte to read.
    pub closed spec fn spec_rpos(&self) -> int {
        self.rpos as int
    }

    /// The write cursor: the offset of the next byte to write.
    pub closed spec fn spec_wpos(&self) -> int {
        self.wpos as int
    }

    /// Bytes available for reading.
    pub closed spec fn spec_available_read(&self) -> int {
        self.wpos - self.rpos
    }

    /// Room for writing, counting the reclaimable head.
    pub closed spec fn spec_available_write(&self) -> int {
        self.capacity() - self.spec_available_read()
    }

    /// Contiguous room at the tail, without compaction.
    pub closed spec fn spec_available_write_contig(&self) -> int {
        self.capacity() - self.wpos
    }

    /// Creates an empty buffer over `store`; only `[rpos, wpos)` is ever
    /// read back, so the store's current contents do not matter.
    pub fn new(store: Vec<u8>) -> (b: Buffer)
        ensures
            b.wf(),
            b.contents() == Seq::<u8>::empty(),
            b.capacity() == store@.len(),
            b.spec_rpos() == 0,
            b.spec_wpos() == 0,
    {
        let b = Buffer { store, rpos: 0, wpos: 0 };
        proof {
            assert(b.contents() =~= Seq::<u8>::empty());
        }
        b
    }

    /// Drops all buffered bytes by resetting both cursors.
    pub fn clear(&mut self)
        ensures
            final(self).wf(),
            final(self).capacity() == old(self).capacity(),
            final(self).contents() == Seq::<u8>::empty(),
            final(self).spec_rpos() == 0,
            final(self).spec_wpos() == 0,
    {
        self.rpos = 0;
        self.wpos = 0;
        proof {
            assert(self.contents() =~= Seq::<u8>::empty());
        }
    }

    /// Number of bytes available for reading.
    pub fn available_read(&self) -> (n: usize)
        requires
            self.wf(),
        ensures
            n == self.spec_available_read(),
            n == self.contents().len(),
    {
        self.wpos - self.rpos
    }

    /// Total room for writing, counting the head bytes that a compaction
    /// would reclaim.
    pub fn available_write(&self) -> (n: usize)
        requires
            self.wf(),
        ensures
            n == self.spec_available_write(),
    {
        let contig = self.store.len() - self.wpos;
        contig + self.rpos
    }

    /// Contiguous room at the tail.
    fn available_write_without_discard(&self) -> (n: usize)
        requires
            self.wf(),
        ensures
            n == self.spec_available_write_contig(),
    {
        self.store.len() - self.wpos
    }

    /// Moves the live window down to offset 0, reclaiming the already-read
    /// head.  The move is a forward byte-by-byte copy, safe for the
    /// overlapping source and destination.
    fn discard_already_read_data(&mut self)
        requires
            old(self).wf(),
        ensures
            final(self).wf(),
            final(self).capacity() == old(self).capacity(),
            final(self).contents() == old(self).contents(),
            final(self).rpos == 0,
            final(self).wpos == old(self).spec_available_read(),
    {
        let n = self.wpos - self.rpos;
        let rpos = self.rpos;
        let mut i: usize = 0;
        while i < n
            invariant
                old(self).wf(),
                i <= n,
                rpos == old(self).rpos,
                n == old(self).spec_available_read(),
                self.rpos == old(self).rpos,
                self.wpos == old(self).wpos,
                self.store@.len() == old(self).store@.len(),
                forall|j: int| 0 <= j < i ==> self.store@[j] == old(self).store@[rpos + j],
                forall|j: int| i <= j < self.store@.len() - rpos ==>
                    #[trigger] self.store@[rpos + j] == old(self).store@[rpos + j],
            decreases n - i,
        {
            let b = self.store[rpos + i];
            self.store[i] = b;
            i += 1;
        }
        self.wpos = n;
        self.rpos = 0;
        proof {
            assert(self.contents() =~= old(self).contents());
        }
    }

    /// Appends as much of `data` as fits and returns the number of bytes
    /// copied.  If `data` does not fit in the contiguous tail and there are
    /// reclaimable head bytes, the live window is compacted first; if the
    /// tail already has room for all of `data`, no byte of the store below
    /// `wpos` is touched and `rpos` stays put.
    pub fn write(&mut self, data: &[u8]) -> (n: usize)
        requires
            old(self).wf(),
        ensures
            final(self).wf(),
            final(self).capacity() == old(self).capacity(),
            ({
                let compacted = data@.len() > old(self).spec_available_write_contig()
                    && old(self).spec_rpos() > 0;
                let room = if compacted {
                    old(self).spec_available_write()
                } else {
                    old(self).spec_available_write_contig()
                };
                let k = if data@.len() <= room { data@.len() as int } else { room };
                &&& n == k
                &&& final(self).contents() == old(self).contents() + data@.take(k)
            }),
            data@.len() <= old(self).spec_available_write_contig() ==> {
                &&& final(self).spec_rpos() == old(self).spec_rpos()
                &&& final(self).spec_wpos() == old(self).spec_wpos() + n
            },
    {
        if data.len() > self.available_write_without_discard() && self.rpos > 0 {
            // data does not fit in the tail, and there is a head to reclaim
            self.discard_already_read_data();
        }

        let ghost mid = *self;

        let avail = self.available_write_without_discard();
        let count = if data.len() < avail { data.len() } else { avail };
        if count == 0 {
            // buffer is full, or data is empty
            proof {
                assert(self.contents() =~= old(self).contents() + data@.take(0));
            }
            return 0;
        }

        let wpos = self.wpos;
        let slen = self.store.len();
        let mut i: usize = 0;
        while i < count
            invariant
                mid.wf(),
                i <= count,
                wpos == mid.wpos,
                wpos + count <= slen,
                slen == self.store@.len(),
                count <= mid.spec_available_write_contig(),
                count <= data@.len(),
                self.rpos == mid.rpos,
                self.wpos == mid.wpos,
                self.store@.len() == mid.store@.len(),
                forall|j: int| 0 <= j < wpos ==> self.store@[j] == mid.store@[j],
                forall|j: int| 0 <= j < i ==> self.store@[wpos + j] == data@[j],
            decreases count - i,
        {
            let b = data[i];
            self.store[wpos + i] = b;
            i += 1;
        }
        self.wpos = wpos + count;
        proof {
            assert(self.contents() =~= mid.contents() + data@.take(count as int));
            assert(mid.contents() == old(self).contents());
        }
        count
    }

    /// Reserves `max_count` bytes of room for writing (compacting first if
    /// that is both needed and sufficient) and passes a mutable window of
    /// exactly `max_count` bytes to `f`.  If the room is insufficient even
    /// after compaction, returns `Ok(0)` without invoking `f`.  On `Ok(c)`
    /// from the callback the first `c` bytes the callback left in the window
    /// are committed to the buffer (a count larger than the window commits
    /// the whole window); on an error nothing is committed and the cursors
    /// sit where the possible compaction left them.
    pub fn write_all<E, F: FnOnce(&mut [u8]) -> Result<usize, E>>(
        &mut self,
        max_count: usize,
        f: F,
    ) -> (r: Result<usize, E>)
        requires
            old(self).wf(),
            forall|s: &mut [u8]| call_requires(f, (s,)),
        ensures
            final(self).wf(),
            final(self).capacity() == old(self).capacity(),
            max_count > old(self).spec_available_write() ==> {
                &&& r == Result::<usize, E>::Ok(0usize)
                &&& final(self).contents() == old(self).contents()
                &&& final(self).spec_rpos() == old(self).spec_rpos()
                &&& final(self).spec_wpos() == old(self).spec_wpos()
            },
            // with room, the callback saw a window of exactly `max_count`
            // bytes, placed after a compaction if and only if the tail was
            // short; its count — capped at the window — of its own window
            // bytes were committed, or its error left nothing committed
            max_count <= old(self).spec_available_write() ==> ({
                let compacted = max_count > old(self).spec_available_write_contig();
                let rpos_mid = if compacted { 0 } else { old(self).spec_rpos() };
                let wpos_mid = if compacted {
                    old(self).spec_available_read()
                } else {
                    old(self).spec_wpos()
                };
                exists|s: &mut [u8], fr: Result<usize, E>|
                    {
                        &&& #[trigger] call_ensures(f, (s,), fr)
                        &&& s@.len() == max_count
                        &&& match fr {
                            Ok(c0) => ({
                                let m = if max_count <= final(s)@.len() {
                                    max_count as int
                                } else {
                                    final(s)@.len() as int
                                };
                                let c = if c0 <= m { c0 as int } else { m };
                                &&& (r matches Ok(cr) && cr == c)
                                &&& final(self).contents() == old(self).contents()
                                    + final(s)@.take(c)
                                &&& final(self).spec_rpos() == rpos_mid
                                &&& final(self).spec_wpos() == wpos_mid + c
                            }),
                            Err(e) => {
                                &&& r == Result::<usize, E>::Err(e)
                                &&& final(self).contents() == old(self).contents()
                                &&& final(self).spec_rpos() == rpos_mid
                                &&& final(self).spec_wpos() == wpos_mid
                            },
                        }
                    }
            }),
    {
        if max_count > self.available_write_without_discard() {
            // the window does not fit in the contiguous tail
            if max_count > self.available_write() {
                // it does not fit even if the read head is reclaimed
                return Ok(0);
            }

            self.discard_already_read_data();
        }

        let ghost mid = *self;

        // stage the window outside the store: the callback sees exactly
        // `max_count` bytes and may write any part of them
        let mut window: Vec<u8> = Vec::new();
        let mut i: usize = 0;
        while i < max_count
            invariant
                i <= max_count,
                window@.len() == i,
            decreases max_count - i,
        {
            window.push(0u8);
            i += 1;
        }

        let sl = window.as_mut_slice();
        let res = f(sl);

        match res {
            Ok(returned) => {
                // commit what the callback wrote; a count that overshoots
                // the window is capped at the window (its length cannot
                // really change, but nothing states that here, so the cap
                // reads it back)
                let wlen = window.len();
                let mut c = if returned < max_count { returned } else { max_count };
                if c > wlen {
                    c = wlen;
                }

                let wpos = self.wpos;
                let slen = self.store.len();
                let mut j: usize = 0;
                while j < c
                    invariant
                        mid.wf(),
                        j <= c,
                        wpos == mid.wpos,
                        wpos + c <= slen,
                        c <= window@.len(),
                        slen == self.store@.len(),
                        self.rpos == mid.rpos,
                        self.wpos == mid.wpos,
                        self.store@.len() == mid.store@.len(),
                        forall|t: int| 0 <= t < wpos ==> self.store@[t] == mid.store@[t],
                        forall|t: int| 0 <= t < j ==> self.store@[wpos + t] == window@[t],
                    decreases c - j,
                {
                    let b = window[j];
                    self.store[wpos + j] = b;
                    j += 1;
                }
                self.wpos = wpos + c;
                proof {
                    assert(self.contents() =~= mid.contents() + window@.take(c as int));
                    assert(mid.contents() == old(self).contents());
                }
                Ok(c)
            },
            Err(e) => {
                proof {
                    assert(self.contents() == old(self).contents());
                }
                Err(e)
            },
        }
    }

    /// Copies out up to `max_count` of the front bytes without consuming
    /// them; [`Buffer::consume`] consumes them once they are safely
    /// delivered.
    pub(crate) fn copy_front(&self, max_count: usize) -> (r: Vec<u8>)
        requires
            self.wf(),
        ensures
            r@ == self.contents().take(
                if max_count <= self.spec_available_read() {
                    max_count as int
                } else {
                    self.spec_available_read()
                },
            ),
    {
        let avail = self.wpos - self.rpos;
        let count = if max_count < avail { max_count } else { avail };
        let mut v: Vec<u8> = Vec::new();
        let mut i: usize = 0;
        while i < count
            invariant
                self.wf(),
                i <= count,
                count <= self.spec_available_read(),
                v@.len() == i,
                forall|j: int| 0 <= j < i ==> v@[j] == self.store@[self.rpos + j],
            decreases count - i,
        {
            let b = self.store[self.rpos + i];
            v.push(b);
            i += 1;
        }
        proof {
            assert(v@ =~= self.contents().take(count as int));
        }
        v
    }

    /// Consumes `n` front bytes that a [`Buffer::copy_front`] has already
    /// delivered.
    pub(crate) fn consume(&mut self, n: usize)
        requires
            old(self).wf(),
            n <= old(self).spec_available_read(),
        ensures
            final(self).wf(),
            final(self).capacity() == old(self).capacity(),
            final(self).contents() == old(self).contents().skip(n as int),
            final(self).spec_wpos() == old(self).spec_wpos(),
            final(self).spec_rpos() == old(self).spec_rpos() + n,
    {
        self.rpos += n;
        proof {
            assert(self.contents() =~= old(self).contents().skip(n as int));
        }
    }

    /// Takes up to `max_count` bytes from the front of the buffer and passes
    /// them, as one contiguous slice, to `f`.  On `Ok(c)` from the callback —
    /// which must not claim more bytes than it was shown — the first `c`
    /// bytes are consumed; on an error nothing is consumed.
    pub fn read<E, F: FnOnce(&[u8]) -> Result<usize, E>>(
        &mut self,
        max_count: usize,
        f: F,
    ) -> (r: Result<usize, E>)
        requires
            old(self).wf(),
            forall|s: &[u8]|
                s@ == old(self).contents().take(
                    if max_count <= old(self).spec_available_read() {
                        max_count as int
                    } else {
                        old(self).spec_available_read()
                    },
                ) ==> call_requires(f, (s,)),
            forall|s: &[u8], fr: Result<usize, E>|
                #[trigger] call_ensures(f, (s,), fr) ==> (fr matches Ok(c) ==> c <= s@.len()),
        ensures
            final(self).wf(),
            final(self).capacity() == old(self).capacity(),
            ({
                let k = if max_count <= old(self).spec_available_read() {
                    max_count as int
                } else {
                    old(self).spec_available_read()
                };
                let observed = old(self).contents().take(k);
                match r {
                    Ok(c) => {
                        &&& c <= k
                        &&& final(self).contents() == old(self).contents().skip(c as int)
                        &&& final(self).spec_rpos() == old(self).spec_rpos() + c
                        &&& final(self).spec_wpos() == old(self).spec_wpos()
                        &&& exists|s: &[u8]|
                            s@ == observed && #[trigger] call_ensures(f, (s,), Result::<
                                usize,
                                E,
                            >::Ok(c))
                    },
                    Err(e) => {
                        &&& final(self).contents() == old(self).contents()
                        &&& final(self).spec_rpos() == old(self).spec_rpos()
                        &&& final(self).spec_wpos() == old(self).spec_wpos()
                        &&& exists|s: &[u8]|
                            s@ == observed && #[trigger] call_ensures(f, (s,), Result::<
                                usize,
                                E,
                            >::Err(e))
                    },
                }
            }),
    {
        let avail = self.available_read();
        let count = if max_count < avail { max_count } else { avail };

        let s = vstd::slice::slice_subrange(self.store.as_slice(), self.rpos, self.rpos + count);
        proof {
            assert(s@ =~= self.contents().take(count as int));
        }
        let res = f(s);

        match res {
            Ok(c) => {
                self.rpos += c;
                proof {
                    assert(self.contents() =~= old(self).contents().skip(c as int));
                }
                Ok(c)
            },
            Err(e) => Err(e),
        }
    }
}

/// Law: cursor discipline.  A well-formed buffer — and every operation above
/// returns one — keeps `0 <= rpos <= wpos <= capacity`.
pub proof fn lemma_cursor_discipline(b: &Buffer)
    requires
        b.wf(),
    ensures
        0 <= b.spec_rpos() <= b.spec_wpos() <= b.capacity(),
{
}

/// Law: order preservation.  [`Buffer::write`] appends its accepted bytes at
/// the end of the live contents, and a successful [`Buffer::read`] shows its
/// callback exactly the oldest live bytes and consumes exactly those.  So
/// over any interleaving the stream "bytes already observed by readers, then
/// bytes still buffered" grows only at its end, by what a write appended,
/// and a read only moves its front into the observed part: what readers
/// observe is what writers appended, byte for byte and in order.
pub proof fn lemma_order_preservation(
    observed: Seq<u8>,
    buffered: Seq<u8>,
    appended: Seq<u8>,
    c: int,
)
    requires
        0 <= c <= buffered.len(),
    ensures
        observed + (buffered + appended) == (observed + buffered) + appended,
        (observed + buffered.take(c)) + buffered.skip(c) == observed + buffered,
{
    assert(observed + (buffered + appended) =~= (observed + buffered) + appended);
    assert((observed + buffered.take(c)) + buffered.skip(c) =~= observed + buffered);
}

/// Law: conservation.  The bytes available for reading and the total room for
/// writing together account for the whole store, so
/// `available_read + available_write >= capacity - rpos` with equality once
/// the wasted head is reclaimed; the contiguous tail alone accounts for
/// everything but the wasted head.
pub proof fn lemma_conservation(b: &Buffer)
    requires
        b.wf(),
    ensures
        b.spec_available_read() + b.spec_available_write() == b.capacity(),
        b.spec_available_read() + b.spec_available_write_contig()
            == b.capacity() - b.spec_rpos(),
        b.spec_available_read() == b.contents().len(),
        b.spec_available_read() == b.spec_wpos() - b.spec_rpos(),
        b.spec_available_write_contig() == b.capacity() - b.spec_wpos(),
{
}

/// Backing store of the default size used by [`super::serial_port::SerialPort`].
pub struct DefaultBufferStore;

impl DefaultBufferStore {
    /// The default backing-store size, in bytes.
    pub open spec fn spec_size() -> int {
        128
    }

    /// A zeroed 128-byte backing store.
    pub fn store() -> (v: Vec<u8>)
        ensures
            v@.len() == DefaultBufferStore::spec_size(),
            forall|i: int| 0 <= i < v@.len() ==> v@[i] == 0u8,
    {
        let mut v: Vec<u8> = Vec::new();
        let mut i: usize = 0;
        while i < 128
            invariant
                i <= 128,
                v@.len() == i,
                forall|j: int| 0 <= j < i ==> v@[j] == 0u8,
            decreases 128 - i,
        {
            v.push(0u8);
            i += 1;
        }
        v
    }
}

} // verus!
