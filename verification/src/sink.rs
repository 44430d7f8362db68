//! The finalize-once destination for canonical PCM samples.
//!
//! A [`SampleSink`] accepts 16-bit signed samples and accumulates the data
//! chunk of a WAV container. `finalize` consumes the accumulated payload
//! exactly once and returns the complete container bytes, header fields
//! (chunk size, data length) filled in correctly; once the sink is
//! finalized, further writes and further finalize calls are no-ops, so that
//! a driver callback still delivering samples after a stop request is
//! discarded safely. The surrounding program owns the destination file: the
//! sink hands it bytes, never a descriptor.

use vstd::prelude::*;

use crate::audio::{audio_config_wf, format_supported, AudioConfig, NativeFormat};
use crate::error::AssistantError;
use crate::sample::{canonicalize_block, clamp_to_canonical};

verus! {

/// Greatest number of payload bytes a WAV container can carry: the RIFF
/// chunk size field must hold 36 bytes of header remainder plus the data.
pub const DATA_MAX: usize = 4294967259;

/// The two little-endian bytes of a 16-bit value.
pub open spec fn u16_le(x: u16) -> Seq<u8> {
    seq![(x & 0xff) as u8, ((x >> 8) & 0xff) as u8]
}

/// The four little-endian bytes of a 32-bit value.
pub open spec fn u32_le(x: u32) -> Seq<u8> {
    seq![
        (x & 0xff) as u8,
        ((x >> 8) & 0xff) as u8,
        ((x >> 16) & 0xff) as u8,
        ((x >> 24) & 0xff) as u8,
    ]
}

/// A canonical sample as stored in the data chunk: its two's-complement
/// bytes, least significant first.
pub open spec fn sample_le(s: i16) -> Seq<u8> {
    u16_le(s as u16)
}

/// The data-chunk bytes of a sample sequence, in arrival order.
pub open spec fn pcm_bytes(samples: Seq<i16>) -> Seq<u8>
    decreases samples.len(),
{
    if samples.len() == 0 {
        Seq::empty()
    } else {
        pcm_bytes(samples.drop_last()) + sample_le(samples.last())
    }
}

/// The 44 header bytes of a 16-bit integer PCM WAV container whose data
/// chunk holds `data_len` bytes.
pub open spec fn wav_header(sample_rate: u32, channels: u16, data_len: int) -> Seq<u8> {
    seq![0x52u8, 0x49u8, 0x46u8, 0x46u8]  // "RIFF"
    + u32_le((36 + data_len) as u32)
    + seq![0x57u8, 0x41u8, 0x56u8, 0x45u8]  // "WAVE"
    + seq![0x66u8, 0x6du8, 0x74u8, 0x20u8]  // "fmt "
    + u32_le(16)  // format chunk length
    + u16_le(1)  // PCM
    + u16_le(channels)
    + u32_le(sample_rate)
    + u32_le((sample_rate as int * channels as int * 2) as u32)  // byte rate
    + u16_le((channels as int * 2) as u16)  // block align
    + u16_le(16)  // bits per sample
    + seq![0x64u8, 0x61u8, 0x74u8, 0x61u8]  // "data"
    + u32_le(data_len as u32)
}

/// A complete container: header plus payload.
pub open spec fn wav_file_bytes(sample_rate: u32, channels: u16, payload: Seq<u8>) -> Seq<u8> {
    wav_header(sample_rate, channels, payload.len() as int) + payload
}

/// Thread-safe (when held behind the callers' mutual exclusion),
/// finalize-once destination for canonical PCM samples.
pub struct SampleSink {
    pub sample_rate: u32,
    pub channels: u16,
    /// Whether the payload holder has been consumed.
    pub finalized: bool,
    /// The accumulated data chunk, little-endian canonical samples.
    pub data: Vec<u8>,
}

impl SampleSink {
    /// The sink still holds its payload and accepts samples.
    pub open spec fn is_open(self) -> bool {
        !self.finalized
    }

    /// The accumulated data chunk.
    pub open spec fn payload(self) -> Seq<u8> {
        self.data@
    }

    /// Internal invariant: a usable stream configuration, whole samples
    /// only, a payload the header fields can describe, and an empty holder
    /// once finalized.
    pub open spec fn wf(self) -> bool {
        &&& self.sample_rate >= 1
        &&& self.channels >= 1
        &&& self.sample_rate as int * self.channels as int * 2 <= u32::MAX as int
        &&& self.channels as int * 2 <= u16::MAX as int
        &&& self.payload().len() % 2 == 0
        &&& self.payload().len() <= DATA_MAX as int
        &&& self.finalized ==> self.payload().len() == 0
    }

    /// How many samples the sink has accepted and still holds.
    pub open spec fn samples_stored(self) -> int {
        self.payload().len() as int / 2
    }

    /// How many further samples fit before the container's length fields
    /// would overflow.
    pub open spec fn capacity_left(self) -> int {
        (DATA_MAX as int - self.payload().len()) / 2
    }

    /// An empty, open sink for one capture.
    pub fn new(config: &AudioConfig) -> (s: SampleSink)
        requires
            audio_config_wf(*config),
        ensures
            s.wf(),
            s.is_open(),
            s.payload() == Seq::<u8>::empty(),
            s.sample_rate == config.sample_rate,
            s.channels == config.channels,
    {
        SampleSink {
            sample_rate: config.sample_rate,
            channels: config.channels,
            finalized: false,
            data: Vec::new(),
        }
    }
}

/// The canonical form of a block of scaled float-native samples.
pub open spec fn canonical_of(ts: Seq<i64>) -> Seq<i16> {
    ts.map_values(|t: i64| clamp_to_canonical(t as int) as i16)
}

/// How many of the offered samples a write to `pre` stores: all of them,
/// unless the container's capacity cuts the block short.
pub open spec fn write_count(pre: SampleSink, samples: Seq<i16>) -> int {
    if samples.len() <= pre.capacity_left() {
        samples.len() as int
    } else {
        pre.capacity_left()
    }
}

/// What one `write` call does: nothing at all on a finalized sink, else it
/// appends the stored prefix of the offered samples to the payload.
pub open spec fn write_post(pre: SampleSink, samples: Seq<i16>, post: SampleSink) -> bool {
    &&& post.sample_rate == pre.sample_rate
    &&& post.channels == pre.channels
    &&& post.finalized == pre.finalized
    &&& if pre.is_open() {
        post.payload() == pre.payload() + pcm_bytes(samples.take(write_count(pre, samples)))
    } else {
        post == pre
    }
}

/// What one `finalize` call does and returns: on an open sink it takes the
/// payload (the holder is empty afterwards) and yields the complete
/// container bytes; on an already finalized sink it changes nothing and
/// yields nothing.
pub open spec fn finalize_post(
    pre: SampleSink,
    post: SampleSink,
    r: Option<Vec<u8>>,
) -> bool {
    &&& post.sample_rate == pre.sample_rate
    &&& post.channels == pre.channels
    &&& !post.is_open()
    &&& post.payload() == Seq::<u8>::empty()
    &&& if pre.is_open() {
        r matches Some(b) && b@ == wav_file_bytes(pre.sample_rate, pre.channels, pre.payload())
    } else {
        r is None && post == pre
    }
}

proof fn lemma_pcm_bytes_take_step(samples: Seq<i16>, i: int)
    requires
        0 <= i < samples.len(),
    ensures
        pcm_bytes(samples.take(i + 1)) == pcm_bytes(samples.take(i)) + sample_le(samples[i]),
{
    assert(samples.take(i + 1).drop_last() =~= samples.take(i));
    assert(samples.take(i + 1).last() == samples[i]);
}

impl SampleSink {
    /// Accept a block of canonical samples from the producer, in arrival
    /// order. A write to a finalized sink is a silent no-op; a write that
    /// would overflow the container's length fields stores what still fits
    /// and discards the rest (best-effort capture).
    pub fn write(&mut self, samples: &Vec<i16>)
        requires
            old(self).wf(),
        ensures
            final(self).wf(),
            write_post(*old(self), samples@, *final(self)),
    {
        if self.finalized {
            return ;
        }
        let ghost pre = *self;
        let mut i: usize = 0;
        while i < samples.len() && self.data.len() + 2 <= DATA_MAX
            invariant
                pre.wf(),
                !pre.finalized,
                self.sample_rate == pre.sample_rate,
                self.channels == pre.channels,
                self.finalized == pre.finalized,
                i <= samples@.len(),
                i <= pre.capacity_left(),
                self.data@.len() == pre.payload().len() + 2 * i,
                self.data@ == pre.payload() + pcm_bytes(samples@.take(i as int)),
            decreases samples@.len() - i,
        {
            let s: i16 = samples[i];
            let u: u16 = #[verifier::truncate] (s as u16);
            let lo: u16 = u & 0xff;
            let hi: u16 = (u >> 8) & 0xff;
            assert(lo < 256 && hi < 256) by (bit_vector)
                requires
                    lo == u & 0xff && hi == (u >> 8) & 0xff,
            ;
            self.data.push(lo as u8);
            self.data.push(hi as u8);
            proof {
                lemma_pcm_bytes_take_step(samples@, i as int);
                assert(self.data@ =~= pre.payload() + pcm_bytes(samples@.take(i + 1)));
            }
            i = i + 1;
        }
        proof {
            if i < samples@.len() {
                // capacity, not the block length, ended the loop
                assert(pre.payload().len() + 2 * i + 2 > DATA_MAX as int);
                assert(i as int == pre.capacity_left());
            }
            assert(i as int == write_count(pre, samples@));
        }
    }

    /// Accept a block of scaled float-native samples: each is canonicalized
    /// (clamped into the 16-bit range) and then stored as by [`Self::write`].
    pub fn write_scaled(&mut self, samples: &Vec<i64>)
        requires
            old(self).wf(),
        ensures
            final(self).wf(),
            write_post(*old(self), canonical_of(samples@), *final(self)),
    {
        let canonical = canonicalize_block(samples);
        proof {
            assert(canonical@ =~= canonical_of(samples@));
        }
        self.write(&canonical);
    }

    /// Consume the payload exactly once and return the complete container
    /// bytes with correct length fields. At most one caller gets the bytes:
    /// on an already finalized sink the call observes that, changes
    /// nothing, and returns without error.
    pub fn finalize(&mut self) -> (r: Option<Vec<u8>>)
        requires
            old(self).wf(),
        ensures
            final(self).wf(),
            finalize_post(*old(self), *final(self), r),
    {
        if self.finalized {
            assert(self.data@ =~= Seq::<u8>::empty());
            return None;
        }
        self.finalized = true;
        let dl: u32 = self.data.len() as u32;
        let mut out: Vec<u8> = Vec::new();
        out.push(0x52u8);
        out.push(0x49u8);
        out.push(0x46u8);
        out.push(0x46u8);
        assert(out@ =~= seq![0x52u8, 0x49u8, 0x46u8, 0x46u8]);
        push_u32_le(&mut out, 36 + dl);
        out.push(0x57u8);
        out.push(0x41u8);
        out.push(0x56u8);
        out.push(0x45u8);
        out.push(0x66u8);
        out.push(0x6du8);
        out.push(0x74u8);
        out.push(0x20u8);
        push_u32_le(&mut out, 16);
        push_u16_le(&mut out, 1);
        push_u16_le(&mut out, self.channels);
        push_u32_le(&mut out, self.sample_rate);
        push_u32_le(&mut out, self.sample_rate * (self.channels as u32) * 2);
        push_u16_le(&mut out, self.channels * 2);
        push_u16_le(&mut out, 16);
        out.push(0x64u8);
        out.push(0x61u8);
        out.push(0x74u8);
        out.push(0x61u8);
        push_u32_le(&mut out, dl);
        assert(out@ =~= wav_header(self.sample_rate, self.channels, dl as int));
        out.append(&mut self.data);
        Some(out)
    }
}

fn push_u16_le(out: &mut Vec<u8>, x: u16)
    ensures
        final(out)@ == old(out)@ + u16_le(x),
{
    let lo: u16 = x & 0xff;
    let hi: u16 = (x >> 8) & 0xff;
    assert(lo < 256 && hi < 256) by (bit_vector)
        requires
            lo == x & 0xff && hi == (x >> 8) & 0xff,
    ;
    out.push(lo as u8);
    out.push(hi as u8);
    assert(final(out)@ =~= old(out)@ + u16_le(x));
}

fn push_u32_le(out: &mut Vec<u8>, x: u32)
    ensures
        final(out)@ == old(out)@ + u32_le(x),
{
    let b0: u32 = x & 0xff;
    let b1: u32 = (x >> 8) & 0xff;
    let b2: u32 = (x >> 16) & 0xff;
    let b3: u32 = (x >> 24) & 0xff;
    assert(b0 < 256 && b1 < 256 && b2 < 256 && b3 < 256) by (bit_vector)
        requires
            b0 == x & 0xff && b1 == (x >> 8) & 0xff && b2 == (x >> 16) & 0xff && b3 == (x >> 24)
                & 0xff,
    ;
    out.push(b0 as u8);
    out.push(b1 as u8);
    out.push(b2 as u8);
    out.push(b3 as u8);
    assert(final(out)@ =~= old(out)@ + u32_le(x));
}

/// The decision that gates one capture (the first steps of `record`): with
/// no default input device the capture fails with `DeviceError` before any
/// sink exists, a degenerate device configuration fails the same way, a
/// native sample format that is neither integer nor float is rejected up
/// front with `UnsupportedFormat`, and otherwise an empty open sink bound
/// to the negotiated configuration is ready.
pub fn begin_capture(device: Option<AudioConfig>) -> (r: Result<SampleSink, AssistantError>)
    ensures
        match device {
            Option::None => r matches Err(AssistantError::DeviceError),
            Option::Some(c) => {
                if !audio_config_wf(c) {
                    r matches Err(AssistantError::DeviceError)
                } else if !format_supported(c.sample_format) {
                    r matches Err(AssistantError::UnsupportedFormat)
                } else {
                    r matches Ok(s) && s.wf() && s.is_open() && s.payload() == Seq::<u8>::empty()
                        && s.sample_rate == c.sample_rate && s.channels == c.channels
                }
            },
        },
{
    match device {
        None => Err(AssistantError::DeviceError),
        Some(c) => {
            if !c.is_usable() {
                Err(AssistantError::DeviceError)
            } else {
                match c.sample_format {
                    NativeFormat::Other => Err(AssistantError::UnsupportedFormat),
                    _ => Ok(SampleSink::new(&c)),
                }
            }
        },
    }
}

/// Finalize is idempotent: after one finalize, a second changes nothing
/// and yields no bytes, so a container header is never written twice.
pub proof fn lemma_finalize_idempotent(
    s0: SampleSink,
    s1: SampleSink,
    r1: Option<Vec<u8>>,
    s2: SampleSink,
    r2: Option<Vec<u8>>,
)
    requires
        finalize_post(s0, s1, r1),
        finalize_post(s1, s2, r2),
    ensures
        r2 is None,
        s2 == s1,
{
}

/// A write after finalize never reopens the holder and never changes the
/// sink: the samples are discarded.
pub proof fn lemma_write_after_finalize(
    s0: SampleSink,
    s1: SampleSink,
    r1: Option<Vec<u8>>,
    samples: Seq<i16>,
    s2: SampleSink,
)
    requires
        finalize_post(s0, s1, r1),
        write_post(s1, samples, s2),
    ensures
        s2 == s1,
{
}

/// Writes store samples in arrival order: two consecutive writes to an
/// open sink leave the payload of the first block before the payload of
/// the second, with nothing lost in between while capacity lasts.
pub proof fn lemma_writes_ordered(
    s0: SampleSink,
    a: Seq<i16>,
    s1: SampleSink,
    b: Seq<i16>,
    s2: SampleSink,
)
    requires
        s0.is_open(),
        write_post(s0, a, s1),
        write_post(s1, b, s2),
        a.len() <= s0.capacity_left(),
        b.len() <= s1.capacity_left(),
    ensures
        s2.payload() == s0.payload() + pcm_bytes(a) + pcm_bytes(b),
{
    assert(a.take(a.len() as int) =~= a);
    assert(b.take(b.len() as int) =~= b);
}

} // verus!
