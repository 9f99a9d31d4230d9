use crate::error::LocaltypeError;
use crate::stt::AudioChunk;
use crate::wav::{encode_wav, wav_fits, wav_spec};
use vstd::prelude::*;
use vstd::string::*;

verus! {

/// The sample rate of the audio handed to batch transcription.
pub const CHUNK_SAMPLE_RATE: u32 = 16000;

/// Buffers PCM for upload-based transcription and says when a chunk is due.
pub struct AudioChunker {
    buffer: Vec<i16>,
    sample_rate: u32,
    chunk_duration_ms: u64,
    last_flush_ms: u64,
    marked: bool,
}

pub struct ChunkerView {
    pub buffer: Seq<i16>,
    pub sample_rate: u32,
    pub chunk_duration_ms: u64,
    /// The timestamp of the first chunk since creation or the last flush.
    pub last_flush_ms: u64,
    /// Whether a chunk has come since creation or the last flush.
    pub marked: bool,
}

impl View for AudioChunker {
    type V = ChunkerView;

    closed spec fn view(&self) -> ChunkerView {
        ChunkerView {
            buffer: self.buffer@,
            sample_rate: self.sample_rate,
            chunk_duration_ms: self.chunk_duration_ms,
            last_flush_ms: self.last_flush_ms,
            marked: self.marked,
        }
    }
}

/// Whether a chunk is due at `now_ms`: audio is buffered and the configured
/// duration has passed since the mark.
pub open spec fn flush_due(v: ChunkerView, now_ms: u64) -> bool {
    v.buffer.len() > 0 && (if now_ms >= v.last_flush_ms {
        now_ms - v.last_flush_ms
    } else {
        0
    }) >= v.chunk_duration_ms
}

/// An empty buffer is never due; a non-empty one is due exactly when the
/// configured duration has elapsed since the mark.
pub proof fn lemma_flush_policy(v: ChunkerView, now_ms: u64)
    ensures
        v.buffer.len() == 0 ==> !flush_due(v, now_ms),
        v.buffer.len() > 0 && now_ms >= v.last_flush_ms ==> (flush_due(v, now_ms) <==> now_ms
            - v.last_flush_ms >= v.chunk_duration_ms),
{
}

impl AudioChunker {
    pub fn new(chunk_duration_ms: u64) -> (r: Self)
        ensures
            r@.buffer.len() == 0,
            r@.sample_rate == CHUNK_SAMPLE_RATE,
            r@.chunk_duration_ms == chunk_duration_ms,
            r@.last_flush_ms == 0,
            !r@.marked,
    {
        AudioChunker {
            buffer: Vec::new(),
            sample_rate: CHUNK_SAMPLE_RATE,
            chunk_duration_ms,
            last_flush_ms: 0,
            marked: false,
        }
    }

    /// Appends the chunk's samples; the first chunk after a flush sets the mark
    /// from which the chunk duration is measured.
    pub fn add_chunk(&mut self, chunk: &AudioChunk)
        ensures
            final(self)@.buffer == old(self)@.buffer + chunk.data@,
            final(self)@.marked,
            final(self)@.last_flush_ms == (if !old(self)@.marked {
                chunk.timestamp_ms
            } else {
                old(self)@.last_flush_ms
            }),
            final(self)@.sample_rate == old(self)@.sample_rate,
            final(self)@.chunk_duration_ms == old(self)@.chunk_duration_ms,
    {
        let n = chunk.data.len();
        let mut k: usize = 0;
        let ghost start = self.buffer@;
        while k < n
            invariant
                n == chunk.data@.len(),
                k <= n,
                self.buffer@ == start + chunk.data@.subrange(0, k as int),
                self.sample_rate == old(self).sample_rate,
                self.chunk_duration_ms == old(self).chunk_duration_ms,
                self.last_flush_ms == old(self).last_flush_ms,
                self.marked == old(self).marked,
                start == old(self)@.buffer,
            decreases n - k,
        {
            self.buffer.push(chunk.data[k]);
            k = k + 1;
            proof {
                assert(self.buffer@ =~= start + chunk.data@.subrange(0, k as int));
            }
        }
        proof {
            assert(chunk.data@.subrange(0, n as int) =~= chunk.data@);
        }
        if !self.marked {
            self.last_flush_ms = chunk.timestamp_ms;
            self.marked = true;
        }
    }

    /// Whether the buffered audio is due for upload at `current_timestamp_ms`.
    pub fn should_flush(&self, current_timestamp_ms: u64) -> (r: bool)
        ensures
            r == flush_due(self@, current_timestamp_ms),
    {
        if self.buffer.len() == 0 {
            return false;
        }
        let elapsed_ms = current_timestamp_ms.saturating_sub(self.last_flush_ms);
        elapsed_ms >= self.chunk_duration_ms
    }

    /// Empties the buffer and clears the mark. Returns the buffered audio as a WAV
    /// file, no bytes when nothing was buffered, and an error when the audio is
    /// too long for the 32-bit sizes of a WAV header.
    pub fn flush(&mut self) -> (r: Result<Vec<u8>, LocaltypeError>)
        ensures
            final(self)@.buffer.len() == 0,
            final(self)@.last_flush_ms == 0,
            !final(self)@.marked,
            final(self)@.sample_rate == old(self)@.sample_rate,
            final(self)@.chunk_duration_ms == old(self)@.chunk_duration_ms,
            old(self)@.buffer.len() == 0 ==> (r matches Ok(b) && b@.len() == 0),
            old(self)@.buffer.len() > 0 ==> (wav_fits(
                old(self)@.buffer.len(),
                old(self)@.sample_rate as nat,
            ) <==> r is Ok),
            old(self)@.buffer.len() > 0 ==> (r matches Ok(b) ==> b@ == wav_spec(
                old(self)@.buffer,
                old(self)@.sample_rate,
            )),
            r is Err ==> r->Err_0 is Stt,
    {
        if self.buffer.len() == 0 {
            self.last_flush_ms = 0;
            self.marked = false;
            return Ok(Vec::new());
        }
        let n = self.buffer.len();
        let r = if n <= 2147483629 && self.sample_rate <= 2147483647 {
            Ok(encode_wav(self.buffer.as_slice(), self.sample_rate))
        } else {
            Err(LocaltypeError::Stt(String::from_str("Audio too long for a WAV file")))
        };
        self.buffer.clear();
        self.last_flush_ms = 0;
        self.marked = false;
        r
    }

    /// Number of buffered samples.
    pub fn buffer_size(&self) -> (r: usize)
        ensures
            r == self@.buffer.len(),
    {
        self.buffer.len()
    }

    pub fn chunk_duration_ms(&self) -> (r: u64)
        ensures
            r == self@.chunk_duration_ms,
    {
        self.chunk_duration_ms
    }
}

} // verus!
