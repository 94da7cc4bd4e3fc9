//! The sidetone ring: a fixed-size circular buffer that carries the raw
//! microphone signal to the headphone mix with the least possible latency.
//!
//! The ring is owned by the audio engine, whose capture step is its only
//! writer and whose playback step is its only reader. One slot always stays
//! empty, so that equal cursors mean an empty ring. The writer never blocks: a
//! sample without room is dropped. The reader never waits: a missing sample
//! reads as silence.
use vstd::math::min;
use vstd::prelude::*;

verus! {

pub struct SidetoneRing {
    buf: Vec<i16>,
    write: usize,
    read: usize,
}

/// Each sample of `s` twice in a row: a mono signal as interleaved stereo.
pub open spec fn stereo_of(s: Seq<i16>) -> Seq<i16> {
    Seq::new(2 * s.len(), |i: int| s[i / 2])
}

/// `n` samples of silence.
pub open spec fn silence(n: int) -> Seq<i16> {
    Seq::new(n as nat, |i: int| 0i16)
}

impl SidetoneRing {
    /// Number of slots.
    pub closed spec fn slots(&self) -> int {
        self.buf@.len() as int
    }

    /// Number of samples waiting to be read.
    pub closed spec fn used(&self) -> int {
        if self.write >= self.read {
            self.write - self.read
        } else {
            self.write + self.buf@.len() - self.read
        }
    }

    closed spec fn pos(&self, i: int) -> int {
        if self.read + i < self.buf@.len() {
            self.read + i
        } else {
            self.read + i - self.buf@.len()
        }
    }

    /// The samples waiting to be read, oldest first.
    pub closed spec fn contents(&self) -> Seq<i16> {
        Seq::new(self.used() as nat, |i: int| self.buf@[self.pos(i)])
    }

    /// At least two slots, and both cursors on a slot.
    pub closed spec fn wf(&self) -> bool {
        &&& self.buf@.len() >= 2
        &&& self.read < self.buf@.len()
        &&& self.write < self.buf@.len()
    }

    /// A ring of `capacity` slots (two at least), half of them filled with silence.
    pub fn new(capacity: usize) -> (r: SidetoneRing)
        ensures
            r.wf(),
            r.slots() == (if capacity < 2 { 2 } else { capacity as int }),
            r.contents() == silence(r.slots() / 2),
    {
        let n: usize = if capacity < 2 {
            2
        } else {
            capacity
        };
        let mut buf: Vec<i16> = Vec::with_capacity(n);
        let mut i: usize = 0;
        while i < n
            invariant
                0 <= i <= n,
                buf@.len() == i,
                forall|k: int| 0 <= k < i ==> buf@[k] == 0,
            decreases n - i,
        {
            buf.push(0);
            i = i + 1;
        }
        let r = SidetoneRing { buf, write: n / 2, read: 0 };
        assert(r.contents() =~= silence(r.slots() / 2));
        r
    }

    /// Number of slots of the ring.
    pub fn capacity(&self) -> (r: usize)
        ensures
            r == self.slots(),
    {
        self.buf.len()
    }

    /// Number of samples waiting to be read.
    pub fn available(&self) -> (r: usize)
        requires
            self.wf(),
        ensures
            r == self.contents().len(),
    {
        if self.write >= self.read {
            self.write - self.read
        } else {
            self.buf.len() - self.read + self.write
        }
    }

    fn push_slot(&mut self, s: i16)
        requires
            old(self).wf(),
            old(self).contents().len() < old(self).slots() - 1,
        ensures
            final(self).wf(),
            final(self).slots() == old(self).slots(),
            final(self).contents() == old(self).contents().push(s),
    {
        let ghost before = self.contents();
        let w = self.write;
        self.buf.set(w, s);
        self.write = if w == self.buf.len() - 1 {
            0
        } else {
            w + 1
        };
        assert(self.contents() =~= before.push(s));
    }

    fn pop_slot(&mut self) -> (r: i16)
        requires
            old(self).wf(),
            old(self).contents().len() > 0,
        ensures
            final(self).wf(),
            final(self).slots() == old(self).slots(),
            r == old(self).contents()[0],
            final(self).contents() == old(self).contents().drop_first(),
    {
        let ghost before = self.contents();
        let x = self.buf[self.read];
        self.read = if self.read == self.buf.len() - 1 {
            0
        } else {
            self.read + 1
        };
        assert(self.contents() =~= before.drop_first());
        x
    }

    /// Writes each sample as a stereo pair; a sample that finds fewer than two
    /// free slots is dropped.
    pub fn write_mono(&mut self, samples: &[i16])
        requires
            old(self).wf(),
        ensures
            final(self).wf(),
            final(self).slots() == old(self).slots(),
            final(self).contents() == old(self).contents() + stereo_of(
                samples@.take(
                    min(
                        samples@.len() as int,
                        (old(self).slots() - 1 - old(self).contents().len()) / 2,
                    ),
                ),
            ),
    {
        let ghost start = self.contents();
        let ghost room = (self.slots() - 1 - start.len()) / 2;
        let cap = self.buf.len();
        let mut i: usize = 0;
        while i < samples.len()
            invariant
                self.wf(),
                self.slots() == cap,
                0 <= i <= samples@.len(),
                room == (cap - 1 - start.len()) / 2,
                self.contents() == start + stereo_of(
                    samples@.take(min(i as int, room)),
                ),
            decreases samples@.len() - i,
        {
            let used = self.available();
            if cap - 1 - used >= 2 {
                let s = samples[i];
                let ghost prev = self.contents();
                self.push_slot(s);
                self.push_slot(s);
                assert(i < room);
                assert(stereo_of(samples@.take(i + 1)) =~= stereo_of(samples@.take(i as int)).push(
                    s,
                ).push(s));
            } else {
                assert(i >= room);
            }
            i = i + 1;
        }
        assert(samples@.take(min(samples@.len() as int, room)) =~= samples@.take(
            min(i as int, room),
        ));
    }

    /// Reads `count` samples; past the samples waiting, silence.
    pub fn read_stereo(&mut self, count: usize) -> (r: Vec<i16>)
        requires
            old(self).wf(),
        ensures
            final(self).wf(),
            final(self).slots() == old(self).slots(),
            r@ == old(self).contents().take(min(count as int, old(self).contents().len() as int))
                + silence(count - min(count as int, old(self).contents().len() as int)),
            final(self).contents() == old(self).contents().skip(
                min(count as int, old(self).contents().len() as int),
            ),
    {
        let ghost start = self.contents();
        let ghost m = min(count as int, start.len() as int);
        let mut out: Vec<i16> = Vec::with_capacity(count);
        let mut i: usize = 0;
        while i < count
            invariant
                self.wf(),
                self.slots() == old(self).slots(),
                start == old(self).contents(),
                m == min(count as int, start.len() as int),
                0 <= i <= count,
                out@ == start.take(min(i as int, m)) + silence(i - min(i as int, m)),
                self.contents() == start.skip(min(i as int, m)),
            decreases count - i,
        {
            if self.write != self.read {
                let x = self.pop_slot();
                assert(i < m);
                out.push(x);
                assert(out@ =~= start.take(i + 1) + silence(0));
            } else {
                assert(self.contents().len() == 0);
                assert(start.skip(min(i as int, m)).len() == start.len() - min(i as int, m));
                assert(i >= m);
                out.push(0);
                assert(out@ =~= start.take(m) + silence(i + 1 - m));
            }
            i = i + 1;
            assert(self.contents() =~= start.skip(min(i as int, m)));
        }
        out
    }
}

/// Cold start: reading a ring that holds only silence gives silence, for
/// any count.
pub proof fn lemma_cold_start_silence(held: Seq<i16>, count: nat)
    requires
        forall|i: int| 0 <= i < held.len() ==> held[i] == 0,
    ensures
        held.take(min(count as int, held.len() as int)) + silence(
            count - min(count as int, held.len() as int),
        ) =~= silence(count as int),
{
}

} // verus!
