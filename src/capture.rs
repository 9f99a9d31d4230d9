use crate::resampler::{resample_fails, resample_spec, AudioError, AudioResampler};
use crate::stt::AudioChunk;
use vstd::prelude::*;
use vstd::string::*;

verus! {

/// Capacity of the channel from the hardware callback to the processing task.
pub const RAW_CHANNEL_CAPACITY: usize = 64;
/// Capacity of the channel of processed audio chunks.
pub const CHUNK_CHANNEL_CAPACITY: usize = 32;
/// Capacity of the channel of level readings.
pub const LEVEL_CHANNEL_CAPACITY: usize = 32;
/// The rate of the audio handed to transcription.
pub const TARGET_SAMPLE_RATE: u32 = 16000;

/// The native sample type of an input device.
#[derive(Debug, Clone, Copy, PartialEq, Eq, Structural)]
pub enum SampleFormat {
    I16,
    U16,
    F32,
    Other,
}

/// What the capture has handed out and whether it is running.
pub struct CaptureControl {
    running: bool,
    chunks_ready: bool,
    levels_ready: bool,
}

pub struct CaptureView {
    pub running: bool,
    pub chunks_ready: bool,
    pub levels_ready: bool,
}

impl View for CaptureControl {
    type V = CaptureView;

    closed spec fn view(&self) -> CaptureView {
        CaptureView {
            running: self.running,
            chunks_ready: self.chunks_ready,
            levels_ready: self.levels_ready,
        }
    }
}

impl CaptureControl {
    pub fn new() -> (r: Self)
        ensures
            !r@.running,
            !r@.chunks_ready,
            !r@.levels_ready,
    {
        CaptureControl { running: false, chunks_ready: false, levels_ready: false }
    }

    /// Starts a session on a device with the given sample type. On success the
    /// capture runs and each of its two streams can be taken once.
    pub fn start(&mut self, has_device: bool, format: SampleFormat) -> (r: Result<(), AudioError>)
        ensures
            old(self)@.running ==> r == Err::<(), AudioError>(AudioError::AlreadyRunning),
            !old(self)@.running && !has_device ==> r == Err::<(), AudioError>(
                AudioError::NoInputDevice,
            ),
            !old(self)@.running && has_device && format == SampleFormat::Other ==> (r matches Err(
                e,
            ) && e is UnsupportedFormat),
            r is Err ==> final(self)@ == old(self)@,
            (!old(self)@.running && has_device && format != SampleFormat::Other) <==> r is Ok,
            r is Ok ==> final(self)@.running && final(self)@.chunks_ready
                && final(self)@.levels_ready,
    {
        if self.running {
            return Err(AudioError::AlreadyRunning);
        }
        if !has_device {
            return Err(AudioError::NoInputDevice);
        }
        match format {
            SampleFormat::Other => {
                return Err(AudioError::UnsupportedFormat(String::from_str("unsupported sample format")));
            },
            _ => {},
        }
        self.running = true;
        self.chunks_ready = true;
        self.levels_ready = true;
        Ok(())
    }

    /// Stops a running capture; fails with `NotStarted` otherwise.
    pub fn stop(&mut self) -> (r: Result<(), AudioError>)
        ensures
            old(self)@.running <==> r is Ok,
            r is Err ==> r == Err::<(), AudioError>(AudioError::NotStarted) && final(self)@ == old(
                self,
            )@,
            !final(self)@.running,
            final(self)@.chunks_ready == old(self)@.chunks_ready,
            final(self)@.levels_ready == old(self)@.levels_ready,
    {
        if !self.running {
            return Err(AudioError::NotStarted);
        }
        self.running = false;
        Ok(())
    }

    /// Whether the chunk stream may be handed out now; true once per session.
    pub fn take_chunks(&mut self) -> (r: bool)
        ensures
            r == old(self)@.chunks_ready,
            !final(self)@.chunks_ready,
            final(self)@.running == old(self)@.running,
            final(self)@.levels_ready == old(self)@.levels_ready,
    {
        let r = self.chunks_ready;
        self.chunks_ready = false;
        r
    }

    /// Whether the level stream may be handed out now; true once per session.
    pub fn take_levels(&mut self) -> (r: bool)
        ensures
            r == old(self)@.levels_ready,
            !final(self)@.levels_ready,
            final(self)@.running == old(self)@.running,
            final(self)@.chunks_ready == old(self)@.chunks_ready,
    {
        let r = self.levels_ready;
        self.levels_ready = false;
        r
    }

    pub fn is_running(&self) -> (r: bool)
        ensures
            r == self@.running,
    {
        self.running
    }
}

/// An unsigned 16-bit sample as a signed one: the midpoint 32768 becomes zero.
pub open spec fn from_unsigned(v: u16) -> i16 {
    (v as int - 32768) as i16
}

pub fn convert_u16_sample(v: u16) -> (r: i16)
    ensures
        r == from_unsigned(v),
{
    (v as i32 - 32768) as i16
}

/// Converts a frame of unsigned 16-bit samples.
pub fn convert_u16_samples(data: &[u16]) -> (r: Vec<i16>)
    ensures
        r@.len() == data@.len(),
        forall|i: int| 0 <= i < data@.len() ==> #[trigger] r@[i] == from_unsigned(data@[i]),
{
    let mut out: Vec<i16> = Vec::with_capacity(data.len());
    let mut k: usize = 0;
    while k < data.len()
        invariant
            k <= data@.len(),
            out@.len() == k,
            forall|i: int| 0 <= i < k ==> #[trigger] out@[i] == from_unsigned(data@[i]),
        decreases data@.len() - k,
    {
        out.push(convert_u16_sample(data[k]));
        k = k + 1;
    }
    out
}

pub open spec fn squares_sum(s: Seq<i16>) -> int
    decreases s.len(),
{
    if s.len() == 0 {
        0
    } else {
        squares_sum(s.drop_last()) + (s.last() as int) * (s.last() as int)
    }
}

proof fn lemma_squares_sum_bound(s: Seq<i16>)
    ensures
        0 <= squares_sum(s) <= s.len() * 1073741824,
    decreases s.len(),
{
    if s.len() > 0 {
        lemma_squares_sum_bound(s.drop_last());
        let x = s.last() as int;
        assert(0 <= x * x <= 1073741824) by (nonlinear_arith)
            requires
                -32768 <= x <= 32767,
        ;
    }
}

/// The sum of the squared samples, the energy that a level reading is taken from.
pub fn sum_of_squares(samples: &[i16]) -> (r: u128)
    ensures
        r == squares_sum(samples@),
{
    let mut sum: u128 = 0;
    let mut k: usize = 0;
    while k < samples.len()
        invariant
            k <= samples@.len(),
            sum == squares_sum(samples@.subrange(0, k as int)),
        decreases samples@.len() - k,
    {
        proof {
            let next = samples@.subrange(0, k + 1);
            assert(next.drop_last() =~= samples@.subrange(0, k as int));
            lemma_squares_sum_bound(next);
            assert(k + 1 <= usize::MAX);
            assert(next.len() * 1073741824 <= 0x1_0000_0000_0000_0000 * 1073741824);
        }
        let x: i64 = samples[k] as i64;
        proof {
            assert(0 <= x * x <= 1073741824) by (nonlinear_arith)
                requires
                    -32768 <= x <= 32767,
            ;
        }
        sum = sum + (x * x) as u128;
        k = k + 1;
    }
    proof {
        assert(samples@.subrange(0, samples@.len() as int) =~= samples@);
    }
    sum
}

/// The processing stage of a capture: resampling to the target rate and
/// timestamping relative to the start of the session.
pub struct FrameProcessor {
    resampler: AudioResampler,
    start_ms: u64,
}

impl FrameProcessor {
    pub closed spec fn resampler_spec(&self) -> AudioResampler {
        self.resampler
    }

    pub closed spec fn start_spec(&self) -> u64 {
        self.start_ms
    }

    /// A processor for a device of `sample_rate` Hz and `channels` channels whose
    /// session began at `start_ms`.
    pub fn new(sample_rate: u32, channels: usize, start_ms: u64) -> (r: Result<Self, AudioError>)
        ensures
            channels > 0 <==> r is Ok,
            r matches Ok(p) ==> {
                &&& p.resampler_spec().wf()
                &&& p.resampler_spec().in_rate() == sample_rate
                &&& p.resampler_spec().out_rate() == TARGET_SAMPLE_RATE
                &&& p.resampler_spec().channel_count() == channels
                &&& p.start_spec() == start_ms
            },
    {
        match AudioResampler::new(sample_rate, TARGET_SAMPLE_RATE, channels) {
            Ok(resampler) => Ok(FrameProcessor { resampler, start_ms }),
            Err(e) => Err(e),
        }
    }

    /// One raw frame received at `now_ms`: the chunk of 16 kHz mono audio with its
    /// offset in the session (zero if the clock went back). `None` for a frame too
    /// large to convert, and for samples from a device that reports a zero rate.
    pub fn process(&mut self, raw: &[i16], now_ms: u64) -> (r: Option<AudioChunk>)
        requires
            old(self).resampler_spec().wf(),
            old(self).resampler_spec().out_rate() == TARGET_SAMPLE_RATE,
        ensures
            final(self).resampler_spec() == old(self).resampler_spec(),
            final(self).start_spec() == old(self).start_spec(),
            (raw@.len() * TARGET_SAMPLE_RATE <= usize::MAX && !resample_fails(
                raw@,
                old(self).resampler_spec().channel_count(),
                old(self).resampler_spec().in_rate(),
                TARGET_SAMPLE_RATE as nat,
            )) <==> r is Some,
            r matches Some(c) ==> {
                &&& c.data@ == resample_spec(
                    raw@,
                    old(self).resampler_spec().channel_count(),
                    old(self).resampler_spec().in_rate(),
                    TARGET_SAMPLE_RATE as nat,
                )
                &&& c.timestamp_ms == (if now_ms >= old(self).start_spec() {
                    now_ms - old(self).start_spec()
                } else {
                    0
                })
            },
    {
        if raw.len() > usize::MAX / 16000 {
            proof {
                assert(raw@.len() * 16000 > usize::MAX) by (nonlinear_arith)
                    requires
                        raw@.len() > usize::MAX / 16000,
                ;
            }
            return None;
        }
        let out_rate = self.resampler.output_sample_rate();
        proof {
            assert(raw@.len() * out_rate <= usize::MAX) by (nonlinear_arith)
                requires
                    raw@.len() <= usize::MAX / 16000,
                    out_rate == 16000,
            ;
        }
        let timestamp_ms = now_ms.saturating_sub(self.start_ms);
        match self.resampler.resample(raw) {
            Ok(data) => Some(AudioChunk { data, timestamp_ms }),
            Err(_) => None,
        }
    }
}

} // verus!
