//! The intercom's sample queues and per-packet logic: the jitter buffer that
//! absorbs network arrival jitter, and the decoding of received packets.
use std::collections::VecDeque;
use crate::vban::{decode_error, name_text, read_from, VbanHeader, VBAN_HEADER_SIZE};
use vstd::arithmetic::power2::{lemma2_to64_rest, lemma_pow2_pos, lemma_pow2_strictly_increases, pow2};
use vstd::bits::lemma_u64_shr_is_div;
use vstd::math::min;
use vstd::prelude::*;

verus! {

/// Bounded FIFO of samples in front of playback. Pushing past the capacity
/// evicts the oldest samples; it never blocks and never fails.
pub struct AudioBuffer {
    samples: VecDeque<i16>,
    capacity: usize,
}

/// The last `n` elements of `s` (all of `s` where it is shorter).
pub open spec fn last_n(s: Seq<i16>, n: int) -> Seq<i16> {
    if s.len() <= n {
        s
    } else {
        s.subrange(s.len() - n, s.len() as int)
    }
}

impl View for AudioBuffer {
    type V = Seq<i16>;

    closed spec fn view(&self) -> Seq<i16> {
        self.samples@
    }
}

impl AudioBuffer {
    /// The number of samples the buffer holds at most.
    pub closed spec fn spec_capacity(&self) -> usize {
        self.capacity
    }

    /// The buffer never holds more than its capacity.
    pub closed spec fn wf(&self) -> bool {
        self.samples@.len() <= self.capacity
    }

    /// An empty buffer of the given capacity.
    pub fn new(capacity: usize) -> (r: AudioBuffer)
        ensures
            r.wf(),
            r@ == Seq::<i16>::empty(),
            r.spec_capacity() == capacity,
    {
        AudioBuffer { samples: VecDeque::with_capacity(capacity), capacity }
    }

    /// The capacity given at construction.
    pub fn capacity(&self) -> (r: usize)
        ensures
            r == self.spec_capacity(),
    {
        self.capacity
    }

    /// The number of samples held.
    pub fn len(&self) -> (r: usize)
        ensures
            r == self@.len(),
    {
        self.samples.len()
    }

    /// Appends `data`, first evicting from the front as many of the oldest
    /// samples as needed to stay within the capacity.
    pub fn push_samples(&mut self, data: &[i16])
        requires
            old(self).wf(),
        ensures
            final(self).wf(),
            final(self).spec_capacity() == old(self).spec_capacity(),
            final(self)@ == last_n(old(self)@ + data@, old(self).spec_capacity() as int),
    {
        let ghost orig = self.samples@;
        let ghost all = orig + data@;
        let cap = self.capacity;
        let n = data.len();
        let mut start: usize = 0;
        let ghost mut dropped: int = 0;
        if n >= cap {
            self.samples.clear();
            start = n - cap;
        } else {
            while self.samples.len() > cap - n
                invariant
                    self.capacity == cap,
                    n < cap,
                    data@.len() == n,
                    orig.len() <= cap,
                    0 <= dropped <= orig.len(),
                    self.samples@ == orig.skip(dropped),
                    dropped > 0 ==> self.samples@.len() + n >= cap as int,
                decreases self.samples@.len(),
            {
                self.samples.pop_front();
                proof {
                    dropped = dropped + 1;
                }
                assert(self.samples@ =~= orig.skip(dropped));
            }
        }
        let ghost kept = self.samples@;
        let mut i: usize = start;
        while i < n
            invariant
                self.capacity == cap,
                data@.len() == n,
                start <= i <= n,
                self.samples@ == kept + data@.subrange(start as int, i as int),
            decreases n - i,
        {
            self.samples.push_back(data[i]);
            i = i + 1;
            assert(self.samples@ =~= kept + data@.subrange(start as int, i as int));
        }
        proof {
            if n >= cap {
                assert(self.samples@ =~= last_n(all, cap as int));
            } else {
                assert(data@.subrange(0, n as int) =~= data@);
                assert(kept + data@ =~= all.skip(dropped));
                if all.len() <= cap {
                    assert(all.skip(0) =~= all);
                } else {
                    assert(all.skip(dropped) =~= all.subrange(all.len() - cap, all.len() as int));
                }
            }
        }
    }

    /// Removes and returns the oldest `count` samples, or all of them where
    /// fewer are held.
    pub fn pop_samples(&mut self, count: usize) -> (r: Vec<i16>)
        requires
            old(self).wf(),
        ensures
            final(self).wf(),
            final(self).spec_capacity() == old(self).spec_capacity(),
            r@ == old(self)@.take(min(count as int, old(self)@.len() as int)),
            final(self)@ == old(self)@.skip(min(count as int, old(self)@.len() as int)),
    {
        let available = if count < self.samples.len() {
            count
        } else {
            self.samples.len()
        };
        let ghost orig = self.samples@;
        let mut out: Vec<i16> = Vec::with_capacity(available);
        let mut i: usize = 0;
        while i < available
            invariant
                available <= orig.len(),
                self.capacity == old(self).capacity,
                0 <= i <= available,
                out@ == orig.take(i as int),
                self.samples@ == orig.skip(i as int),
            decreases available - i,
        {
            let s = self.samples.pop_front();
            match s {
                Some(x) => {
                    out.push(x);
                },
                None => {},
            }
            i = i + 1;
            assert(out@ =~= orig.take(i as int));
            assert(self.samples@ =~= orig.skip(i as int));
        }
        out
    }
}

/// `x` limited to the range of a 16-bit sample.
pub open spec fn clamp16(x: int) -> i16 {
    if x < -32768 {
        -32768i16
    } else if x > 32767 {
        32767
    } else {
        x as i16
    }
}

/// The sample of two little-endian bytes.
pub open spec fn le16(b0: u8, b1: u8) -> i16 {
    ((b0 as u16) | ((b1 as u16) << 8u16)) as i16
}

/// The 32-bit word of four little-endian bytes.
pub open spec fn le_word(b0: u8, b1: u8, b2: u8, b3: u8) -> u32 {
    (b0 as u32) | ((b1 as u32) << 8u32) | ((b2 as u32) << 16u32) | ((b3 as u32) << 24u32)
}

/// The magnitude of the IEEE-754 single-precision value with these bits,
/// times 32767, truncated toward zero (infinities and NaNs excluded).
pub open spec fn scaled_magnitude(bits: u32) -> int {
    let e = ((bits >> 23u32) & 0xff) as int;
    let frac = (bits & 0x7fffff) as int;
    let mant = if e == 0 {
        frac
    } else {
        frac + 0x800000
    };
    let e_eff = if e == 0 {
        1
    } else {
        e
    };
    if e_eff >= 150 {
        mant * 32767 * pow2((e_eff - 150) as nat)
    } else {
        mant * 32767 / (pow2((150 - e_eff) as nat) as int)
    }
}

/// The 16-bit sample for a single-precision float of full scale 1.0: the
/// value times 32767, truncated toward zero and clamped to the sample range;
/// infinities clamp, NaN gives 0.
pub open spec fn float_sample(bits: u32) -> i16 {
    let neg = (bits >> 31u32) != 0;
    if (bits >> 23u32) & 0xff == 0xff {
        if bits & 0x7fffff != 0 {
            0
        } else if neg {
            -32768i16
        } else {
            32767
        }
    } else if neg {
        clamp16(-scaled_magnitude(bits))
    } else {
        clamp16(scaled_magnitude(bits))
    }
}

/// The samples of a little-endian 16-bit payload; a trailing odd byte is ignored.
pub open spec fn pcm16_spec(p: Seq<u8>) -> Seq<i16> {
    Seq::new((p.len() / 2) as nat, |i: int| le16(p[2 * i], p[2 * i + 1]))
}

/// The samples of a little-endian 32-bit float payload; trailing bytes are ignored.
pub open spec fn float32_spec(p: Seq<u8>) -> Seq<i16> {
    Seq::new(
        (p.len() / 4) as nat,
        |i: int| float_sample(le_word(p[4 * i], p[4 * i + 1], p[4 * i + 2], p[4 * i + 3])),
    )
}

/// The samples of a payload by its codec identifier: 32-bit floats for
/// identifier 4, 16-bit integers for every other one.
pub open spec fn payload_spec(codec: u8, p: Seq<u8>) -> Seq<i16> {
    if codec == 4 {
        float32_spec(p)
    } else {
        pcm16_spec(p)
    }
}

/// Converts the bits of one single-precision float sample to a 16-bit sample.
pub fn float_bits_to_sample(bits: u32) -> (r: i16)
    ensures
        r == float_sample(bits),
{
    let neg = (bits >> 31u32) != 0;
    let e = (bits >> 23u32) & 0xff;
    let frac = bits & 0x7fffff;
    if e == 0xff {
        if frac != 0 {
            return 0;
        } else if neg {
            return -32768;
        } else {
            return 32767;
        }
    }
    let mant: u64 = if e == 0 {
        frac as u64
    } else {
        (frac as u64) + 0x800000
    };
    let e_eff: u32 = if e == 0 {
        1
    } else {
        e
    };
    assert(e < 255 && frac < 0x800000) by (bit_vector)
        requires
            e == (bits >> 23u32) & 0xff,
            e != 0xff,
            frac == bits & 0x7fffff,
    ;
    let ghost m = scaled_magnitude(bits);
    let mag: u64 = if e_eff >= 150 {
        proof {
            lemma_pow2_pos((e_eff - 150) as nat);
            assert(mant >= 0x800000);
            assert(m >= mant * 32767) by (nonlinear_arith)
                requires
                    m == mant * 32767 * pow2((e_eff - 150) as nat),
                    pow2((e_eff - 150) as nat) >= 1,
                    mant >= 0,
            ;
        }
        32768
    } else {
        let k: u64 = (150 - e_eff) as u64;
        let x: u64 = mant * 32767;
        if k >= 40 {
            proof {
                lemma2_to64_rest();
                lemma_pow2_strictly_increases(39, k as nat);
                assert(x < 0x8000000000) by (nonlinear_arith)
                    requires
                        x == mant * 32767,
                        mant < 0x1000000,
                ;
                assert(pow2(39) == 0x8000000000);
                assert(x < pow2(k as nat));
                assert(m == 0) by (nonlinear_arith)
                    requires
                        m == (x as int) / (pow2(k as nat) as int),
                        0 <= x < pow2(k as nat),
                ;
            }
            0
        } else {
            proof {
                lemma_u64_shr_is_div(x, k);
                lemma_pow2_pos(k as nat);
                assert(m == (x as int) / (pow2(k as nat) as int));
            }
            x >> k
        }
    };
    let lim: u64 = if neg {
        32768
    } else {
        32767
    };
    if mag >= lim {
        if neg {
            -32768i16
        } else {
            32767
        }
    } else if neg {
        -(mag as i32) as i16
    } else {
        mag as i16
    }
}

/// The samples of a 16-bit little-endian payload.
pub fn pcm16_samples(payload: &[u8]) -> (r: Vec<i16>)
    ensures
        r@ == pcm16_spec(payload@),
{
    let len = payload.len();
    let n = len / 2;
    let mut out: Vec<i16> = Vec::with_capacity(n);
    let mut i: usize = 0;
    while i < n
        invariant
            len == payload@.len(),
            n == payload@.len() / 2,
            0 <= i <= n,
            out@ == pcm16_spec(payload@).take(i as int),
        decreases n - i,
    {
        assert(2 * i + 1 < payload@.len());
        let b0 = payload[2 * i];
        let b1 = payload[2 * i + 1];
        out.push(#[verifier::truncate] (((b0 as u16) | ((b1 as u16) << 8u16)) as i16));
        i = i + 1;
        assert(out@ =~= pcm16_spec(payload@).take(i as int));
    }
    assert(out@ =~= pcm16_spec(payload@));
    out
}

/// The samples of a 32-bit float little-endian payload.
pub fn float32_samples(payload: &[u8]) -> (r: Vec<i16>)
    ensures
        r@ == float32_spec(payload@),
{
    let len = payload.len();
    let n = len / 4;
    let mut out: Vec<i16> = Vec::with_capacity(n);
    let mut i: usize = 0;
    while i < n
        invariant
            len == payload@.len(),
            n == payload@.len() / 4,
            0 <= i <= n,
            out@ == float32_spec(payload@).take(i as int),
        decreases n - i,
    {
        assert(4 * i + 3 < payload@.len());
        let bits = (payload[4 * i] as u32) | ((payload[4 * i + 1] as u32) << 8u32) | ((payload[4
            * i + 2] as u32) << 16u32) | ((payload[4 * i + 3] as u32) << 24u32);
        out.push(float_bits_to_sample(bits));
        i = i + 1;
        assert(out@ =~= float32_spec(payload@).take(i as int));
    }
    assert(out@ =~= float32_spec(payload@));
    out
}

/// The samples of a payload by its codec: 32-bit floats are scaled to 16
/// bits; 16-bit integers, and any other codec, are read as 16-bit integers.
pub fn decode_payload(codec: u8, payload: &[u8]) -> (r: Vec<i16>)
    ensures
        r@ == payload_spec(codec, payload@),
{
    if codec == 4 {
        float32_samples(payload)
    } else {
        pcm16_samples(payload)
    }
}

/// What a received datagram gives for the stream `stream_name`: `None` where
/// it is shorter than a header, its header does not read, or it belongs to
/// another stream; else the samples of its payload.
pub open spec fn packet_spec(d: Seq<u8>, stream_name: Seq<char>) -> Option<Seq<i16>> {
    if decode_error(d) is Some {
        None
    } else if name_text(d.subrange(8, 24)) != stream_name {
        None
    } else {
        Some(payload_spec(d[7], d.subrange(28, d.len() as int)))
    }
}

/// Accepts or drops one received datagram for the stream `stream_name`.
pub fn receive_packet(packet: &[u8], stream_name: &String) -> (r: Option<Vec<i16>>)
    ensures
        match packet_spec(packet@, stream_name@) {
            None => r is None,
            Some(s) => r matches Some(v) && v@ == s,
        },
{
    if packet.len() < VBAN_HEADER_SIZE {
        return None;
    }
    let header = match VbanHeader::decode(packet) {
        Ok(h) => h,
        Err(_) => return None,
    };
    let name = header.stream_name_str();
    if name != *stream_name {
        return None;
    }
    let payload = slice_from(packet, VBAN_HEADER_SIZE);
    Some(decode_payload(header.codec, payload))
}

/// The part of `s` from index `start` on.
fn slice_from(s: &[u8], start: usize) -> (r: &[u8])
    requires
        start <= s@.len(),
    ensures
        r@ == s@.subrange(start as int, s@.len() as int),
{
    vstd::slice::slice_subrange(s, start, s.len())
}

} // verus!
