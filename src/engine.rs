//! The audio engine's per-period processing: the outbound chain (pre-clip,
//! microphone gain, limiter), packetizing, and the headphone mix.
//!
//! Gains are Q8 fixed point: 256 is unity.
use crate::limiter::{abs16, clamp_threshold, lemma_run_len, PeakLimiter};
use crate::sidetone::{silence, stereo_of, SidetoneRing};
use crate::vban::{header_bytes, rate_table, stream_header, VbanCodec, VbanError, VbanHeader};
use vstd::math::min;
use vstd::utf8::encode_utf8;
use vstd::prelude::*;

verus! {

/// Frames per hardware period.
pub const PERIOD_SIZE: usize = 256;

/// Periods in the hardware buffer.
pub const BUFFER_PERIODS: usize = 4;

/// Sample rate of the hardware and of the stream, in Hz.
pub const SAMPLE_RATE: u32 = 48000;

/// Largest number of mono samples in one outbound packet.
pub const CHUNK_SIZE: usize = 128;

/// Level at which captured samples are clipped before any gain (about 91% of
/// full scale).
pub const PRE_CLIP_LEVEL: i16 = 29818;

/// Unity gain, Q8.
pub const UNITY_GAIN_Q8: u32 = 256;

/// Capacity of the jitter buffer in samples: half a second of 48 kHz stereo.
pub const JITTER_CAPACITY: usize = 48000;

/// Slots of the sidetone ring.
pub const SIDETONE_CAPACITY: usize = 1024;

/// `x` limited to the range of a 16-bit sample.
pub open spec fn sat16(x: int) -> i16 {
    if x < -32768 {
        -32768i16
    } else if x > 32767 {
        32767i16
    } else {
        x as i16
    }
}

/// `x` times the Q8 gain `g`, truncated toward zero.
pub open spec fn scaled(x: int, g: int) -> int {
    if x * g >= 0 {
        (x * g) / 256
    } else {
        -((-(x * g)) / 256)
    }
}

/// A captured sample clipped to plus or minus the pre-clip level.
pub open spec fn pre_clip_spec(x: i16) -> i16 {
    if x > PRE_CLIP_LEVEL {
        PRE_CLIP_LEVEL
    } else if x < -PRE_CLIP_LEVEL {
        (-PRE_CLIP_LEVEL) as i16
    } else {
        x
    }
}

/// Clips a captured sample to plus or minus the pre-clip level.
pub fn pre_clip(x: i16) -> (r: i16)
    ensures
        r == pre_clip_spec(x),
{
    if x > PRE_CLIP_LEVEL {
        PRE_CLIP_LEVEL
    } else if x < -PRE_CLIP_LEVEL {
        -PRE_CLIP_LEVEL
    } else {
        x
    }
}

/// `x` times the Q8 gain `g`, toward zero, as an unclamped 32-bit value.
pub fn scale(x: i16, g: u32) -> (r: i64)
    ensures
        r == scaled(x as int, g as int),
        -0x1_0000_0000_0000 < r < 0x1_0000_0000_0000,
{
    assert(-0x8000_0000_0000 <= (x as int) * (g as int) <= 0x8000_0000_0000) by (nonlinear_arith)
        requires
            -32768 <= x <= 32767,
            0 <= g <= 0xffff_ffff,
    ;
    let p: i64 = (x as i64) * (g as i64);
    if p >= 0 {
        p / 256
    } else {
        -((-p) / 256)
    }
}

/// `x` times the Q8 gain `g`, toward zero, saturated to the sample range.
pub fn apply_gain(x: i16, g: u32) -> (r: i16)
    ensures
        r == sat16(scaled(x as int, g as int)),
{
    saturate(scale(x, g))
}

/// `x` saturated to the sample range.
pub fn saturate(x: i64) -> (r: i16)
    ensures
        r == sat16(x as int),
{
    if x < -32768 {
        -32768
    } else if x > 32767 {
        32767
    } else {
        x as i16
    }
}

/// The samples that enter the limiter: pre-clipped, then amplified by the
/// microphone gain.
pub open spec fn prepared(s: Seq<i16>, mic_gain: u32) -> Seq<i16> {
    Seq::new(s.len(), |i: int| sat16(scaled(pre_clip_spec(s[i]) as int, mic_gain as int)))
}

/// Pre-clips and amplifies each captured sample, then, where `limit` holds,
/// runs it through the limiter.
pub fn process_outbound(
    samples: &[i16],
    mic_gain: u32,
    limiter: &mut PeakLimiter,
    limit: bool,
) -> (r: Vec<i16>)
    requires
        old(limiter).wf(),
    ensures
        final(limiter).wf(),
        final(limiter).spec_threshold() == old(limiter).spec_threshold(),
        final(limiter).spec_ceiling() == old(limiter).spec_ceiling(),
        final(limiter).spec_lookahead() == old(limiter).spec_lookahead(),
        final(limiter).spec_attack() == old(limiter).spec_attack(),
        final(limiter).spec_release() == old(limiter).spec_release(),
        limit ==> ({
            let (d, e, out) = old(limiter).run(prepared(samples@, mic_gain));
            &&& r@ == out
            &&& final(limiter).delayed() == d
            &&& final(limiter).spec_envelope() == e
        }),
        !limit ==> r@ == prepared(samples@, mic_gain) && final(limiter).delayed() == old(
            limiter,
        ).delayed() && final(limiter).spec_envelope() == old(limiter).spec_envelope(),
        limit ==> forall|i: int| 0 <= i < r@.len() ==> abs16(#[trigger] r@[i]) <= old(
            limiter,
        ).spec_ceiling(),
{
    let ghost xs = prepared(samples@, mic_gain);
    let n = samples.len();
    let mut out: Vec<i16> = Vec::with_capacity(n);
    let mut i: usize = 0;
    while i < n
        invariant
            n == samples@.len(),
            xs == prepared(samples@, mic_gain),
            0 <= i <= n,
            limiter.wf(),
            limiter.spec_threshold() == old(limiter).spec_threshold(),
            limiter.spec_ceiling() == old(limiter).spec_ceiling(),
            limiter.spec_lookahead() == old(limiter).spec_lookahead(),
            limiter.spec_attack() == old(limiter).spec_attack(),
            limiter.spec_release() == old(limiter).spec_release(),
            limit ==> ({
                let (d, e, o) = old(limiter).run(xs.take(i as int));
                &&& out@ == o
                &&& limiter.delayed() == d
                &&& limiter.spec_envelope() == e
            }),
            !limit ==> out@ == xs.take(i as int) && limiter.delayed() == old(limiter).delayed()
                && limiter.spec_envelope() == old(limiter).spec_envelope(),
            limit ==> forall|k: int| 0 <= k < out@.len() ==> abs16(#[trigger] out@[k]) <= old(
                limiter,
            ).spec_ceiling(),
        decreases n - i,
    {
        let x = apply_gain(pre_clip(samples[i]), mic_gain);
        if limit {
            let y = limiter.process(x);
            assert(xs.take(i + 1).drop_last() =~= xs.take(i as int));
            out.push(y);
        } else {
            out.push(x);
        }
        i = i + 1;
        assert(!limit ==> out@ =~= xs.take(i as int));
    }
    assert(xs.take(n as int) =~= xs);
    out
}

/// The two little-endian bytes of a sample.
pub open spec fn sample_le(x: i16) -> Seq<u8> {
    seq![((x as u16) & 0xff) as u8, (((x as u16) >> 8u16) & 0xff) as u8]
}

/// A mono chunk as an interleaved stereo 16-bit little-endian payload: each
/// sample's two bytes, twice.
pub open spec fn stereo_payload(c: Seq<i16>) -> Seq<u8> {
    Seq::new(4 * c.len(), |i: int| sample_le(c[i / 4])[i % 2])
}

/// The packet for one chunk: the header announcing the chunk's length, then
/// the chunk as stereo.
pub open spec fn packet_spec(h: VbanHeader, chunk: Seq<i16>) -> Seq<u8> {
    header_bytes(h, chunk.len() as usize) + stereo_payload(chunk)
}

/// Number of packets for `n` samples.
pub open spec fn chunk_count(n: int) -> int {
    (n + 127) / 128
}

/// The `k`-th chunk of `s`.
pub open spec fn chunk_of(s: Seq<i16>, k: int) -> Seq<i16> {
    s.subrange(128 * k, if 128 * k + 128 < s.len() { 128 * k + 128 } else { s.len() as int })
}

/// `h` with its frame counter advanced by `k`, wrapping.
pub open spec fn advanced(h: VbanHeader, k: int) -> VbanHeader {
    VbanHeader { frame_counter: ((h.frame_counter + k) % 0x1_0000_0000) as u32, ..h }
}

/// Splits `samples` into chunks of at most 128 and makes one packet of each,
/// the frame counter of `header` going up by one per packet (wrapping).
pub fn packetize(samples: &[i16], header: &mut VbanHeader) -> (r: Vec<Vec<u8>>)
    ensures
        r@.len() == chunk_count(samples@.len() as int),
        forall|k: int|
            0 <= k < r@.len() ==> #[trigger] r@[k]@ == packet_spec(
                advanced(*old(header), k),
                chunk_of(samples@, k),
            ),
        *final(header) == advanced(*old(header), chunk_count(samples@.len() as int)),
{
    let n = samples.len();
    let mut packets: Vec<Vec<u8>> = Vec::new();
    let mut start: usize = 0;
    let ghost h0 = *header;
    while start < n
        invariant
            n == samples@.len(),
            start <= n,
            start == (if 128 * packets@.len() <= n { 128 * packets@.len() as int } else { n as int }),
            128 * packets@.len() < n + 128,
            *header == advanced(h0, packets@.len() as int),
            forall|k: int|
                0 <= k < packets@.len() ==> #[trigger] packets@[k]@ == packet_spec(
                    advanced(h0, k),
                    chunk_of(samples@, k),
                ),
        decreases n - start,
    {
        let end: usize = if n - start > CHUNK_SIZE {
            start + CHUNK_SIZE
        } else {
            n
        };
        let ghost k = packets@.len() as int;
        let chunk = vstd::slice::slice_subrange(samples, start, end);
        assert(chunk@ == chunk_of(samples@, k));
        let packet = make_packet(header, chunk);
        packets.push(packet);
        header.frame_counter = header.frame_counter.wrapping_add(1);
        start = end;
        assert(*header == advanced(h0, k + 1));
    }
    proof {
        let c = packets@.len() as int;
        assert(chunk_count(n as int) == c) by (nonlinear_arith)
            requires
                128 * c >= n,
                128 * c < n + 128,
                chunk_count(n as int) == (n + 127) / 128,
        ;
    }
    packets
}

/// One packet: the header for `chunk`, then `chunk` as stereo.
pub fn make_packet(header: &VbanHeader, chunk: &[i16]) -> (r: Vec<u8>)
    ensures
        r@ == packet_spec(*header, chunk@),
{
    let head = header.encode(chunk.len());
    let mut out: Vec<u8> = Vec::new();
    let mut i: usize = 0;
    while i < 28
        invariant
            0 <= i <= 28,
            head@.len() == 28,
            out@ == head@.take(i as int),
        decreases 28 - i,
    {
        out.push(head[i]);
        i = i + 1;
        assert(out@ =~= head@.take(i as int));
    }
    let ghost pay = stereo_payload(chunk@);
    let mut j: usize = 0;
    while j < chunk.len()
        invariant
            0 <= j <= chunk@.len(),
            out@ == head@ + pay.take(4 * j),
            pay == stereo_payload(chunk@),
            head@.len() == 28,
        decreases chunk@.len() - j,
    {
        let x = chunk[j];
        let u: u16 = #[verifier::truncate] (x as u16);
        let lo: u8 = #[verifier::truncate] ((u & 0xff) as u8);
        let hi: u8 = #[verifier::truncate] (((u >> 8u16) & 0xff) as u8);
        out.push(lo);
        out.push(hi);
        out.push(lo);
        out.push(hi);
        j = j + 1;
        assert(out@ =~= head@ + pay.take(4 * j));
    }
    assert(pay.take(4 * chunk@.len() as int) =~= pay);
    assert(head@ == header_bytes(*header, chunk@.len() as usize));
    out
}

/// The sample at `i`, or silence past the end.
pub open spec fn at_or_silence(s: Seq<i16>, i: int) -> int {
    if i < s.len() {
        s[i] as int
    } else {
        0
    }
}

/// The headphone mix of `len` samples: network audio times its gain, plus the
/// sidetone times its gain (silence while muted), saturated.
pub open spec fn mix_spec(
    network: Seq<i16>,
    sidetone: Seq<i16>,
    len: int,
    network_gain: u32,
    sidetone_gain: u32,
    muted: bool,
) -> Seq<i16> {
    Seq::new(
        len as nat,
        |i: int|
            sat16(
                scaled(at_or_silence(network, i), network_gain as int) + if muted {
                    0
                } else {
                    scaled(at_or_silence(sidetone, i), sidetone_gain as int)
                },
            ),
    )
}

/// Mixes one period for the headphones; missing samples are silence.
pub fn mix_playback(
    network: &[i16],
    sidetone: &[i16],
    len: usize,
    network_gain: u32,
    sidetone_gain: u32,
    muted: bool,
) -> (r: Vec<i16>)
    ensures
        r@ == mix_spec(network@, sidetone@, len as int, network_gain, sidetone_gain, muted),
{
    let mut out: Vec<i16> = Vec::with_capacity(len);
    let mut i: usize = 0;
    while i < len
        invariant
            0 <= i <= len,
            out@ == mix_spec(network@, sidetone@, len as int, network_gain, sidetone_gain, muted).take(
                i as int,
            ),
        decreases len - i,
    {
        let net: i16 = if i < network.len() {
            network[i]
        } else {
            0
        };
        let side: i16 = if muted || i >= sidetone.len() {
            0
        } else {
            sidetone[i]
        };
        let a = scale(net, network_gain);
        let b = scale(side, sidetone_gain);
        out.push(saturate(a + b));
        i = i + 1;
        assert(out@ =~= mix_spec(
            network@,
            sidetone@,
            len as int,
            network_gain,
            sidetone_gain,
            muted,
        ).take(i as int));
    }
    assert(out@ =~= mix_spec(network@, sidetone@, len as int, network_gain, sidetone_gain, muted));
    out
}

/// The settings a session starts with. Gains are Q8; the limiter threshold
/// is in 1/10000 of full scale.
pub struct IntercomSettings {
    /// Stream name, sent in every packet and required of received ones.
    pub stream_name: String,
    /// Host that outbound packets go to.
    pub target_host: String,
    /// Sample rate of the stream in Hz.
    pub sample_rate: u32,
    /// Channel count from the configuration; the outbound stream is always stereo.
    pub channels: u8,
    /// Gain on the microphone before the limiter.
    pub mic_gain: u32,
    /// Gain on the network audio in the headphones.
    pub headphone_gain: u32,
    /// Gain on the sidetone in the headphones.
    pub sidetone_gain: u32,
    /// Whether the limiter is in the outbound chain.
    pub limiter_enabled: bool,
    /// Threshold of the limiter.
    pub limiter_threshold: u32,
}

/// The state that the period loop carries from one period to the next.
pub struct AudioEngine {
    pub ring: SidetoneRing,
    pub limiter: PeakLimiter,
    pub header: VbanHeader,
    pub mic_gain: u32,
    pub headphone_gain: u32,
    pub sidetone_gain: u32,
    pub limit: bool,
}

impl AudioEngine {
    /// The ring and the limiter are well formed.
    pub open spec fn wf(&self) -> bool {
        self.ring.wf() && self.limiter.wf()
    }

    /// The engine of a new session: the outbound header of the stream (stereo,
    /// 16-bit, frame counter at zero), a sidetone ring half full of silence, a
    /// limiter at rest. Fails where the sample rate is not in the table.
    pub fn new(settings: &IntercomSettings) -> (r: Result<AudioEngine, VbanError>)
        ensures
            r is Ok <==> rate_table().contains(settings.sample_rate),
            r matches Err(e) ==> e == VbanError::UnsupportedSampleRate,
            r matches Ok(eng) ==> {
                &&& eng.wf()
                &&& stream_header(
                    eng.header,
                    encode_utf8(settings.stream_name@),
                    settings.sample_rate,
                    2,
                    VbanCodec::Pcm16,
                )
                &&& eng.header.frame_counter == 0
                &&& eng.ring.slots() == SIDETONE_CAPACITY
                &&& eng.ring.contents() == silence(SIDETONE_CAPACITY as int / 2)
                &&& eng.limiter.spec_threshold() == clamp_threshold(settings.limiter_threshold)
                &&& eng.limiter.spec_envelope() == 65536
                &&& eng.limiter.delayed() == Seq::<i16>::empty()
                &&& eng.mic_gain == settings.mic_gain
                &&& eng.headphone_gain == settings.headphone_gain
                &&& eng.sidetone_gain == settings.sidetone_gain
                &&& eng.limit == settings.limiter_enabled
            },
    {
        let header = match VbanHeader::new(
            settings.stream_name.as_str(),
            settings.sample_rate,
            2,
            VbanCodec::Pcm16,
        ) {
            Ok(h) => h,
            Err(e) => return Err(e),
        };
        Ok(
            AudioEngine {
                ring: SidetoneRing::new(SIDETONE_CAPACITY),
                limiter: PeakLimiter::new(settings.limiter_threshold, settings.sample_rate),
                header,
                mic_gain: settings.mic_gain,
                headphone_gain: settings.headphone_gain,
                sidetone_gain: settings.sidetone_gain,
                limit: settings.limiter_enabled,
            },
        )
    }

    /// The capture half of a period. Muted, nothing is done and nothing is
    /// sent. Otherwise the raw samples go to the sidetone ring, and the
    /// processed ones (pre-clip, gain, limiter) leave as packets of at most
    /// 128 samples.
    pub fn capture_period(&mut self, samples: &[i16], muted: bool) -> (r: Vec<Vec<u8>>)
        requires
            old(self).wf(),
        ensures
            final(self).wf(),
            final(self).mic_gain == old(self).mic_gain,
            final(self).headphone_gain == old(self).headphone_gain,
            final(self).sidetone_gain == old(self).sidetone_gain,
            final(self).limit == old(self).limit,
            final(self).ring.slots() == old(self).ring.slots(),
            muted ==> r@.len() == 0 && final(self).ring.contents() == old(self).ring.contents()
                && final(self).header == old(self).header && final(self).limiter.delayed() == old(
                self,
            ).limiter.delayed() && final(self).limiter.spec_envelope() == old(
                self,
            ).limiter.spec_envelope(),
            !muted ==> {
                let outbound = if old(self).limit {
                    old(self).limiter.run(prepared(samples@, old(self).mic_gain)).2
                } else {
                    prepared(samples@, old(self).mic_gain)
                };
                &&& final(self).ring.contents() == old(self).ring.contents() + stereo_of(
                    samples@.take(
                        min(
                            samples@.len() as int,
                            (old(self).ring.slots() - 1 - old(self).ring.contents().len()) / 2,
                        ),
                    ),
                )
                &&& r@.len() == chunk_count(samples@.len() as int)
                &&& forall|k: int|
                    0 <= k < r@.len() ==> #[trigger] r@[k]@ == packet_spec(
                        advanced(old(self).header, k),
                        chunk_of(outbound, k),
                    )
                &&& final(self).header == advanced(
                    old(self).header,
                    chunk_count(samples@.len() as int),
                )
            },
    {
        if muted {
            return Vec::new();
        }
        self.ring.write_mono(samples);
        proof {
            let l = self.limiter;
            lemma_run_len(
                l.spec_threshold(),
                l.spec_ceiling(),
                l.spec_lookahead(),
                l.spec_attack(),
                l.spec_release(),
                l.delayed(),
                l.spec_envelope(),
                prepared(samples@, self.mic_gain),
            );
        }
        let out = process_outbound(samples, self.mic_gain, &mut self.limiter, self.limit);
        packetize(out.as_slice(), &mut self.header)
    }

    /// The playback half of a period: `frames` stereo frames mixing the
    /// network samples with what the sidetone ring holds (silence while muted
    /// or where either runs short).
    pub fn playback_period(&mut self, network: &[i16], frames: usize, muted: bool) -> (r: Vec<
        i16,
    >)
        requires
            old(self).wf(),
            frames <= usize::MAX / 2,
        ensures
            final(self).wf(),
            final(self).limiter == old(self).limiter,
            final(self).header == old(self).header,
            final(self).mic_gain == old(self).mic_gain,
            final(self).headphone_gain == old(self).headphone_gain,
            final(self).sidetone_gain == old(self).sidetone_gain,
            final(self).limit == old(self).limit,
            final(self).ring.slots() == old(self).ring.slots(),
            ({
                let held = old(self).ring.contents();
                let m = min(2 * frames as int, held.len() as int);
                &&& final(self).ring.contents() == held.skip(m)
                &&& r@ == mix_spec(
                    network@,
                    held.take(m) + silence(2 * frames - m),
                    2 * frames as int,
                    old(self).headphone_gain,
                    old(self).sidetone_gain,
                    muted,
                )
            }),
    {
        let len = 2 * frames;
        let side = self.ring.read_stereo(len);
        mix_playback(
            network,
            side.as_slice(),
            len,
            self.headphone_gain,
            self.sidetone_gain,
            muted,
        )
    }
}

} // verus!
