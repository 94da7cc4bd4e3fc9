//! VBAN wire format: the 28-byte packet header, the sample-rate table and the
//! codec identifiers.
use vstd::prelude::*;
use vstd::string::StringSliceAdditionalSpecFns;
use vstd::utf8::{decode_utf8, encode_utf8, is_ascii_chars, valid_utf8};

verus! {

/// The four magic bytes that open every packet ("VBAN").
pub const VBAN_MAGIC: [u8; 4] = [0x56, 0x42, 0x41, 0x4e];

/// UDP port of the service.
pub const VBAN_PORT: u16 = 6980;

/// Size in bytes of the packet header.
pub const VBAN_HEADER_SIZE: usize = 28;

/// Size of the stream-name field, terminating NUL included.
pub const VBAN_STREAM_NAME_SIZE: usize = 16;

/// Largest packet handled: a header and 256 frames of 8 channels of 4 bytes.
pub const MAX_VBAN_PACKET_SIZE: usize = VBAN_HEADER_SIZE + 256 * 8 * 4;

/// Sample rates in Hz, by their index on the wire.
pub const SAMPLE_RATES: [u32; 20] = [
    6000, 12000, 24000, 48000, 96000, 192000, 384000,
    8000, 16000, 32000, 64000, 128000, 256000, 512000,
    11025, 22050, 44100, 88200, 176400, 352800,
];

/// The sample-rate table as a sequence.
pub open spec fn rate_table() -> Seq<u32> {
    seq![
        6000u32, 12000, 24000, 48000, 96000, 192000, 384000,
        8000, 16000, 32000, 64000, 128000, 256000, 512000,
        11025, 22050, 44100, 88200, 176400, 352800,
    ]
}

/// Payload kind announced in the upper three bits of byte 4.
#[derive(Debug, Clone, Copy, PartialEq, Eq, Structural)]
pub enum VbanProtocol {
    Audio,
    Serial,
    Text,
    Service,
}

impl VbanProtocol {
    pub open spec fn spec_tag(&self) -> u8 {
        match self {
            VbanProtocol::Audio => 0x00,
            VbanProtocol::Serial => 0x20,
            VbanProtocol::Text => 0x40,
            VbanProtocol::Service => 0x60,
        }
    }

    /// The protocol's bits as they stand in byte 4.
    pub fn as_u8(&self) -> (r: u8)
        ensures
            r == self.spec_tag(),
    {
        match self {
            VbanProtocol::Audio => 0x00,
            VbanProtocol::Serial => 0x20,
            VbanProtocol::Text => 0x40,
            VbanProtocol::Service => 0x60,
        }
    }
}

/// Sample encodings of the audio payload.
#[derive(Debug, Clone, Copy, PartialEq, Eq, Structural)]
pub enum VbanCodec {
    Pcm8,
    Pcm16,
    Pcm24,
    Pcm32,
    Float32,
    Float64,
}

impl VbanCodec {
    pub open spec fn spec_id(&self) -> u8 {
        match self {
            VbanCodec::Pcm8 => 0,
            VbanCodec::Pcm16 => 1,
            VbanCodec::Pcm24 => 2,
            VbanCodec::Pcm32 => 3,
            VbanCodec::Float32 => 4,
            VbanCodec::Float64 => 5,
        }
    }

    /// The codec's identifier in byte 7.
    pub fn as_u8(&self) -> (r: u8)
        ensures
            r == self.spec_id(),
    {
        match self {
            VbanCodec::Pcm8 => 0,
            VbanCodec::Pcm16 => 1,
            VbanCodec::Pcm24 => 2,
            VbanCodec::Pcm32 => 3,
            VbanCodec::Float32 => 4,
            VbanCodec::Float64 => 5,
        }
    }

    /// Bytes taken by one sample of one channel.
    pub fn bytes_per_sample(&self) -> (r: usize)
        ensures
            r == match self {
                VbanCodec::Pcm8 => 1usize,
                VbanCodec::Pcm16 => 2,
                VbanCodec::Pcm24 => 3,
                VbanCodec::Pcm32 => 4,
                VbanCodec::Float32 => 4,
                VbanCodec::Float64 => 8,
            },
    {
        match self {
            VbanCodec::Pcm8 => 1,
            VbanCodec::Pcm16 => 2,
            VbanCodec::Pcm24 => 3,
            VbanCodec::Pcm32 => 4,
            VbanCodec::Float32 => 4,
            VbanCodec::Float64 => 8,
        }
    }
}

/// Why a header could not be built or read.
#[derive(Debug, Clone, Copy, PartialEq, Eq, Structural)]
pub enum VbanError {
    /// The sample rate is not in the table.
    UnsupportedSampleRate,
    /// Fewer bytes than a header.
    TooShort,
    /// The first four bytes are not the magic.
    InvalidMagic,
    /// The protocol bits announce another payload than audio.
    NotAudio,
}

impl VbanError {
    /// A short description of the error.
    pub fn message(&self) -> (r: &'static str)
        ensures
            r@ == match self {
                VbanError::UnsupportedSampleRate => "Unsupported sample rate"@,
                VbanError::TooShort => "VBAN packet too short"@,
                VbanError::InvalidMagic => "Invalid VBAN magic"@,
                VbanError::NotAudio => "Not a VBAN audio packet"@,
            },
    {
        match self {
            VbanError::UnsupportedSampleRate => "Unsupported sample rate",
            VbanError::TooShort => "VBAN packet too short",
            VbanError::InvalidMagic => "Invalid VBAN magic",
            VbanError::NotAudio => "Not a VBAN audio packet",
        }
    }
}

/// A packet header with its fields in their stored form.
#[derive(Debug, Clone, Copy)]
pub struct VbanHeader {
    /// Index into the sample-rate table (0-19).
    pub sample_rate_index: u8,
    /// Samples per frame, stored as the count minus one.
    pub samples_per_frame: u8,
    /// Channels, stored as the count minus one.
    pub channels: u8,
    /// Codec identifier.
    pub codec: u8,
    /// Stream name, NUL padded.
    pub stream_name: [u8; 16],
    /// Frame counter.
    pub frame_counter: u32,
}

/// The 16-byte name field for a name: its first 15 bytes at most, then zeros.
pub open spec fn name_field(name: Seq<u8>) -> Seq<u8> {
    Seq::new(16, |i: int| if i < name.len() && i < 15 { name[i] } else { 0u8 })
}

/// Little-endian bytes of a 32-bit value.
pub open spec fn le32(x: u32) -> Seq<u8> {
    seq![
        (x & 0xff) as u8,
        ((x >> 8u32) & 0xff) as u8,
        ((x >> 16u32) & 0xff) as u8,
        ((x >> 24u32) & 0xff) as u8,
    ]
}

/// The 32-bit value of four little-endian bytes.
pub open spec fn from_le32(b0: u8, b1: u8, b2: u8, b3: u8) -> u32 {
    (b0 as u32) | ((b1 as u32) << 8u32) | ((b2 as u32) << 16u32) | ((b3 as u32) << 24u32)
}

/// The stored form of a samples-per-frame count: one less, saturating at zero, low byte.
pub open spec fn stored_count(n: usize) -> u8 {
    ((if n == 0 { 0 } else { n - 1 }) as usize & 0xff) as u8
}

/// The 28 bytes of a header announcing `samples_per_frame` samples.
pub open spec fn header_bytes(h: VbanHeader, samples_per_frame: usize) -> Seq<u8> {
    VBAN_MAGIC@ + seq![
        h.sample_rate_index & 0x1f,
        stored_count(samples_per_frame),
        h.channels,
        h.codec,
    ] + h.stream_name@ + le32(h.frame_counter)
}

/// The error that reading a header from `d` gives, if any.
pub open spec fn decode_error(d: Seq<u8>) -> Option<VbanError> {
    if d.len() < 28 {
        Some(VbanError::TooShort)
    } else if d.subrange(0, 4) != VBAN_MAGIC@ {
        Some(VbanError::InvalidMagic)
    } else if d[4] & 0xe0 != 0 {
        Some(VbanError::NotAudio)
    } else {
        None
    }
}

/// `h` holds the fields that the first 28 bytes of `d` give.
pub open spec fn read_from(d: Seq<u8>, h: VbanHeader) -> bool {
    &&& h.sample_rate_index == d[4] & 0x1f
    &&& h.samples_per_frame == d[5]
    &&& h.channels == d[6]
    &&& h.codec == d[7]
    &&& h.stream_name@ == d.subrange(8, 24)
    &&& h.frame_counter == from_le32(d[24], d[25], d[26], d[27])
}

/// Index of the first NUL byte of `s`, or its length where there is none.
pub open spec fn nul_index(s: Seq<u8>) -> int
    decreases s.len(),
{
    if s.len() == 0 {
        0
    } else if s[0] == 0 {
        0
    } else {
        1 + nul_index(s.drop_first())
    }
}

/// The text of a name field: the bytes before the first NUL read as UTF-8,
/// or the empty text where they are not valid UTF-8.
pub open spec fn name_text(field: Seq<u8>) -> Seq<char> {
    let b = field.subrange(0, nul_index(field));
    if valid_utf8(b) {
        decode_utf8(b)
    } else {
        Seq::empty()
    }
}

/// `h` is the header of a stream of this name, rate, channel count and codec.
pub open spec fn stream_header(
    h: VbanHeader,
    name: Seq<u8>,
    rate: u32,
    channels: u8,
    codec: VbanCodec,
) -> bool {
    &&& h.sample_rate_index < 20
    &&& rate_table()[h.sample_rate_index as int] == rate
    &&& h.channels == (if channels == 0 { 0 } else { channels - 1 })
    &&& h.codec == codec.spec_id()
    &&& h.stream_name@ == name_field(name)
}

/// Relies on std's `String::from_utf8`: it succeeds exactly on valid UTF-8,
/// and then holds the characters that the bytes encode.
#[verifier::external_body]
fn string_from_utf8(bytes: Vec<u8>) -> (r: Option<String>)
    ensures
        r is Some <==> valid_utf8(bytes@),
        r matches Some(s) ==> s@ == decode_utf8(bytes@),
{
    String::from_utf8(bytes).ok()
}

proof fn lemma_nul_index(s: Seq<u8>, e: int)
    requires
        0 <= e <= s.len(),
        forall|k: int| 0 <= k < e ==> s[k] != 0,
        e == s.len() || s[e] == 0,
    ensures
        nul_index(s) == e,
    decreases e,
{
    if e > 0 {
        lemma_nul_index(s.drop_first(), e - 1);
    }
}

/// Index of `rate` in the sample-rate table, if it is there.
pub fn sample_rate_to_index(rate: u32) -> (r: Option<u8>)
    ensures
        r is Some <==> rate_table().contains(rate),
        r matches Some(i) ==> i < 20 && rate_table()[i as int] == rate,
{
    let mut i: usize = 0;
    while i < 20
        invariant
            0 <= i <= 20,
            SAMPLE_RATES@ == rate_table(),
            forall|k: int| 0 <= k < i ==> rate_table()[k] != rate,
        decreases 20 - i,
    {
        if SAMPLE_RATES[i] == rate {
            return Some(i as u8);
        }
        i = i + 1;
    }
    proof {
        if rate_table().contains(rate) {
            let k = choose|k: int| 0 <= k < rate_table().len() && rate_table()[k] == rate;
            assert(rate_table()[k] != rate);
        }
    }
    None
}

impl VbanHeader {
    /// Builds the header of a stream; samples per frame and the frame counter start at zero.
    pub fn new(stream_name: &str, sample_rate: u32, channels: u8, codec: VbanCodec) -> (r: Result<
        VbanHeader,
        VbanError,
    >)
        ensures
            r is Ok <==> rate_table().contains(sample_rate),
            r matches Err(e) ==> e == VbanError::UnsupportedSampleRate,
            r matches Ok(h) ==> {
                &&& stream_header(h, stream_name.spec_bytes(), sample_rate, channels, codec)
                &&& h.samples_per_frame == 0
                &&& h.frame_counter == 0
            },
    {
        let sample_rate_index = match sample_rate_to_index(sample_rate) {
            Some(i) => i,
            None => return Err(VbanError::UnsupportedSampleRate),
        };
        let bytes = stream_name.as_bytes();
        let name_len: usize = if bytes.len() < 15 {
            bytes.len()
        } else {
            15
        };
        let mut name_bytes = [0u8; 16];
        let mut i: usize = 0;
        while i < name_len
            invariant
                name_len <= bytes@.len(),
                name_len <= 15,
                bytes@ == stream_name.spec_bytes(),
                0 <= i <= name_len,
                forall|k: int| 0 <= k < i ==> name_bytes@[k] == bytes@[k],
                forall|k: int| i <= k < 16 ==> name_bytes@[k] == 0,
            decreases name_len - i,
        {
            name_bytes[i] = bytes[i];
            i = i + 1;
        }
        assert(name_bytes@ =~= name_field(stream_name.spec_bytes()));
        Ok(
            VbanHeader {
                sample_rate_index,
                samples_per_frame: 0,
                channels: if channels == 0 {
                    0
                } else {
                    channels - 1
                },
                codec: codec.as_u8(),
                stream_name: name_bytes,
                frame_counter: 0,
            },
        )
    }

    /// The sample rate in Hz; an index past the table reads as 48000.
    pub fn sample_rate(&self) -> (r: u32)
        ensures
            r == rate_of_index(self.sample_rate_index),
    {
        let idx = (self.sample_rate_index & 0x1f) as usize;
        if idx < 20 {
            SAMPLE_RATES[idx]
        } else {
            48000
        }
    }

    /// The number of channels (one more than the stored value, at most 255).
    pub fn num_channels(&self) -> (r: u8)
        ensures
            r == (if self.channels == 255 { 255 } else { self.channels + 1 }),
    {
        if self.channels == 255 {
            255
        } else {
            self.channels + 1
        }
    }

    /// The number of samples per frame (one more than the stored value).
    pub fn num_samples(&self) -> (r: usize)
        ensures
            r == self.samples_per_frame as usize + 1,
    {
        self.samples_per_frame as usize + 1
    }

    /// The 28 header bytes of a packet of `samples_per_frame` samples.
    pub fn encode(&self, samples_per_frame: usize) -> (r: [u8; 28])
        ensures
            r@ == header_bytes(*self, samples_per_frame),
    {
        let mut buf = [0u8; 28];
        buf[0] = VBAN_MAGIC[0];
        buf[1] = VBAN_MAGIC[1];
        buf[2] = VBAN_MAGIC[2];
        buf[3] = VBAN_MAGIC[3];
        buf[4] = self.sample_rate_index & 0x1f;
        let n: usize = if samples_per_frame == 0 {
            0
        } else {
            samples_per_frame - 1
        };
        buf[5] = (n & 0xff) as u8;
        buf[6] = self.channels;
        buf[7] = self.codec;
        let mut i: usize = 0;
        while i < 16
            invariant
                0 <= i <= 16,
                buf@.len() == 28,
                forall|k: int| 0 <= k < 8 ==> buf@[k] == #[trigger] header_bytes(
                    *self,
                    samples_per_frame,
                )[k],
                forall|k: int| 0 <= k < i ==> buf@[8 + k] == self.stream_name@[k],
            decreases 16 - i,
        {
            buf[8 + i] = self.stream_name[i];
            i = i + 1;
        }
        let c = self.frame_counter;
        buf[24] = (c & 0xff) as u8;
        buf[25] = ((c >> 8u32) & 0xff) as u8;
        buf[26] = ((c >> 16u32) & 0xff) as u8;
        buf[27] = ((c >> 24u32) & 0xff) as u8;
        assert(buf@ =~= header_bytes(*self, samples_per_frame));
        buf
    }

    /// Reads a header from the first 28 bytes of `data`.
    pub fn decode(data: &[u8]) -> (r: Result<VbanHeader, VbanError>)
        ensures
            match decode_error(data@) {
                Some(e) => r == Err::<VbanHeader, VbanError>(e),
                None => r matches Ok(h) && read_from(data@, h),
            },
    {
        if data.len() < 28 {
            return Err(VbanError::TooShort);
        }
        if data[0] != VBAN_MAGIC[0] || data[1] != VBAN_MAGIC[1] || data[2] != VBAN_MAGIC[2]
            || data[3] != VBAN_MAGIC[3] {
            proof {
                assert(data@.subrange(0, 4) != VBAN_MAGIC@) by {
                    if data@.subrange(0, 4) == VBAN_MAGIC@ {
                        assert(data@.subrange(0, 4)[0] == data@[0]);
                        assert(data@.subrange(0, 4)[1] == data@[1]);
                        assert(data@.subrange(0, 4)[2] == data@[2]);
                        assert(data@.subrange(0, 4)[3] == data@[3]);
                    }
                }
            }
            return Err(VbanError::InvalidMagic);
        }
        assert(data@.subrange(0, 4) =~= VBAN_MAGIC@);
        if data[4] & 0xe0 != 0 {
            return Err(VbanError::NotAudio);
        }
        let mut stream_name = [0u8; 16];
        let mut i: usize = 0;
        while i < 16
            invariant
                0 <= i <= 16,
                data@.len() >= 28,
                forall|k: int| 0 <= k < i ==> stream_name@[k] == data@[8 + k],
            decreases 16 - i,
        {
            stream_name[i] = data[8 + i];
            i = i + 1;
        }
        assert(stream_name@ =~= data@.subrange(8, 24));
        Ok(
            VbanHeader {
                sample_rate_index: data[4] & 0x1f,
                samples_per_frame: data[5],
                channels: data[6],
                codec: data[7],
                stream_name,
                frame_counter: (data[24] as u32) | ((data[25] as u32) << 8u32) | ((
                data[26] as u32) << 16u32) | ((data[27] as u32) << 24u32),
            },
        )
    }

    /// The stream name: the bytes before the first NUL, or the empty string
    /// where they are not valid UTF-8.
    pub fn stream_name_str(&self) -> (r: String)
        ensures
            r@ == name_text(self.stream_name@),
    {
        let mut bytes: Vec<u8> = Vec::new();
        let mut i: usize = 0;
        while i < 16 && self.stream_name[i] != 0
            invariant
                0 <= i <= 16,
                bytes@ == self.stream_name@.subrange(0, i as int),
                forall|k: int| 0 <= k < i ==> self.stream_name@[k] != 0,
            decreases 16 - i,
        {
            bytes.push(self.stream_name[i]);
            i = i + 1;
            assert(bytes@ =~= self.stream_name@.subrange(0, i as int));
        }
        proof {
            lemma_nul_index(self.stream_name@, i as int);
        }
        match string_from_utf8(bytes) {
            Some(s) => s,
            None => String::new(),
        }
    }
}

/// The rate that a stored index stands for: the table entry of its low five
/// bits, or 48000 past the table.
pub open spec fn rate_of_index(i: u8) -> u32 {
    if (i & 0x1f) < 20 {
        rate_table()[(i & 0x1f) as int]
    } else {
        48000
    }
}

/// Reading back the bytes of an encoded header gives the header again, with
/// the stored form of the announced sample count.
pub proof fn lemma_decode_encode(h: VbanHeader, samples_per_frame: usize)
    requires
        h.sample_rate_index < 32,
    ensures
        decode_error(header_bytes(h, samples_per_frame)) is None,
        forall|d: VbanHeader| #[trigger]
            read_from(header_bytes(h, samples_per_frame), d) ==> {
                &&& d.sample_rate_index == h.sample_rate_index
                &&& d.samples_per_frame == stored_count(samples_per_frame)
                &&& d.channels == h.channels
                &&& d.codec == h.codec
                &&& d.stream_name@ == h.stream_name@
                &&& d.frame_counter == h.frame_counter
            },
        1 <= samples_per_frame <= 256 ==> stored_count(samples_per_frame) + 1
            == samples_per_frame,
{
    let b = header_bytes(h, samples_per_frame);
    let i = h.sample_rate_index;
    assert(b.subrange(0, 4) =~= VBAN_MAGIC@);
    assert((i & 0x1f) & 0xe0 == 0) by (bit_vector);
    assert(i < 32 ==> (i & 0x1f) == i) by (bit_vector);
    assert(b.subrange(8, 24) =~= h.stream_name@);
    let c = h.frame_counter;
    assert(from_le32(
        (c & 0xff) as u8,
        ((c >> 8u32) & 0xff) as u8,
        ((c >> 16u32) & 0xff) as u8,
        ((c >> 24u32) & 0xff) as u8,
    ) == c) by (bit_vector);
    if 1 <= samples_per_frame <= 256 {
        let n = (samples_per_frame - 1) as usize;
        assert(n < 256 ==> (n & 0xff) == n) by (bit_vector);
    }
}

/// Round trip: the header of a stream whose name has at most 15 ASCII
/// characters, none of them NUL, with a rate of the table and 1 to 255
/// channels, with any codec and frame counter, once encoded and read back,
/// gives that rate, that channel count, that name and that frame counter.
pub proof fn lemma_round_trip(
    name: Seq<char>,
    rate: u32,
    channels: u8,
    codec: VbanCodec,
    frame_counter: u32,
    samples_per_frame: usize,
    h: VbanHeader,
    d: VbanHeader,
)
    requires
        is_ascii_chars(name),
        name.len() <= 15,
        forall|i: int| 0 <= i < name.len() ==> name[i] != '\0',
        rate_table().contains(rate),
        1 <= channels,
        stream_header(h, encode_utf8(name), rate, channels, codec),
        h.frame_counter == frame_counter,
        read_from(header_bytes(h, samples_per_frame), d),
    ensures
        decode_error(header_bytes(h, samples_per_frame)) is None,
        rate_of_index(d.sample_rate_index) == rate,
        d.channels + 1 == channels,
        name_text(d.stream_name@) == name,
        d.frame_counter == frame_counter,
{
    broadcast use vstd::utf8::group_utf8_lib;

    lemma_decode_encode(h, samples_per_frame);
    let i = d.sample_rate_index;
    assert(i < 20 ==> (i & 0x1f) == i) by (bit_vector);
    let bytes = encode_utf8(name);
    let f = d.stream_name@;
    assert forall|k: int| 0 <= k < name.len() implies f[k] != 0 by {
        assert(f[k] == bytes[k]);
        assert(name[k] as u8 == bytes[k]);
    }
    lemma_nul_index(f, name.len() as int);
    assert(f.subrange(0, name.len() as int) =~= bytes);
}

} // verus!
