use vstd::prelude::*;

verus! {

/// Little-endian bytes of a 16-bit value.
pub open spec fn le16(v: u16) -> Seq<u8> {
    seq![(v % 256) as u8, (v / 256) as u8]
}

/// Little-endian bytes of a 32-bit value.
pub open spec fn le32(v: u32) -> Seq<u8> {
    seq![(v % 256) as u8, ((v / 256) % 256) as u8, ((v / 65536) % 256) as u8, (v / 16777216) as u8]
}

/// The samples as consecutive little-endian 16-bit words.
pub open spec fn pcm_bytes(s: Seq<i16>) -> Seq<u8>
    decreases s.len(),
{
    if s.len() == 0 {
        Seq::empty()
    } else {
        pcm_bytes(s.drop_last()) + le16(s.last() as u16)
    }
}

pub open spec fn riff_tag() -> Seq<u8> {
    seq![82u8, 73u8, 70u8, 70u8]
}

pub open spec fn wave_tag() -> Seq<u8> {
    seq![87u8, 65u8, 86u8, 69u8]
}

pub open spec fn fmt_tag() -> Seq<u8> {
    seq![102u8, 109u8, 116u8, 32u8]
}

pub open spec fn data_tag() -> Seq<u8> {
    seq![100u8, 97u8, 116u8, 97u8]
}

/// Whether `n` samples at `rate` Hz fit the 32-bit sizes of a WAV header.
pub open spec fn wav_fits(n: nat, rate: nat) -> bool {
    2 * n + 36 <= u32::MAX && 2 * rate <= u32::MAX
}

/// The canonical 44-byte header of a mono 16-bit PCM file of `n` samples at `rate` Hz.
pub open spec fn wav_header(n: nat, rate: u32) -> Seq<u8> {
    riff_tag() + le32((36 + 2 * n) as u32) + wave_tag() + fmt_tag() + le32(16) + le16(1) + le16(1)
        + le32(rate) + le32((2 * rate) as u32) + le16(2) + le16(16) + data_tag() + le32(
        (2 * n) as u32,
    )
}

/// A whole mono 16-bit PCM WAV file holding `s` at `rate` Hz.
pub open spec fn wav_spec(s: Seq<i16>, rate: u32) -> Seq<u8> {
    wav_header(s.len(), rate) + pcm_bytes(s)
}

/// Every WAV file begins with the RIFF tag and names the WAVE form at offset 8.
pub proof fn lemma_wav_markers(s: Seq<i16>, rate: u32)
    ensures
        wav_spec(s, rate).len() >= 44,
        wav_spec(s, rate).subrange(0, 4) == riff_tag(),
        wav_spec(s, rate).subrange(8, 12) == wave_tag(),
{
    let w = wav_spec(s, rate);
    assert(wav_header(s.len(), rate).len() == 44);
    assert(w.subrange(0, 4) =~= riff_tag());
    assert(w.subrange(8, 12) =~= wave_tag());
}

fn push_le16(out: &mut Vec<u8>, v: u16)
    ensures
        final(out)@ == old(out)@ + le16(v),
{
    out.push((v % 256) as u8);
    out.push((v / 256) as u8);
    proof {
        assert(final(out)@ =~= old(out)@ + le16(v));
    }
}

fn push_le32(out: &mut Vec<u8>, v: u32)
    ensures
        final(out)@ == old(out)@ + le32(v),
{
    out.push((v % 256) as u8);
    out.push(((v / 256) % 256) as u8);
    out.push(((v / 65536) % 256) as u8);
    out.push((v / 16777216) as u8);
    proof {
        assert(final(out)@ =~= old(out)@ + le32(v));
    }
}

fn push_tag(out: &mut Vec<u8>, a: u8, b: u8, c: u8, d: u8)
    ensures
        final(out)@ == old(out)@ + seq![a, b, c, d],
{
    out.push(a);
    out.push(b);
    out.push(c);
    out.push(d);
    proof {
        assert(final(out)@ =~= old(out)@ + seq![a, b, c, d]);
    }
}

/// Encodes mono 16-bit samples at `sample_rate` Hz as a WAV file.
pub fn encode_wav(samples: &[i16], sample_rate: u32) -> (r: Vec<u8>)
    requires
        wav_fits(samples@.len(), sample_rate as nat),
    ensures
        r@ == wav_spec(samples@, sample_rate),
{
    let n = samples.len();
    let data_size: u32 = (2 * n) as u32;
    let mut out: Vec<u8> = Vec::new();
    push_tag(&mut out, 82, 73, 70, 70);
    push_le32(&mut out, 36 + data_size);
    push_tag(&mut out, 87, 65, 86, 69);
    push_tag(&mut out, 102, 109, 116, 32);
    push_le32(&mut out, 16);
    push_le16(&mut out, 1);
    push_le16(&mut out, 1);
    push_le32(&mut out, sample_rate);
    push_le32(&mut out, 2 * sample_rate);
    push_le16(&mut out, 2);
    push_le16(&mut out, 16);
    push_tag(&mut out, 100, 97, 116, 97);
    push_le32(&mut out, data_size);
    let ghost header = out@;
    proof {
        assert(header =~= wav_header(n as nat, sample_rate));
    }
    let mut k: usize = 0;
    while k < n
        invariant
            n == samples@.len(),
            k <= n,
            out@ == header + pcm_bytes(samples@.subrange(0, k as int)),
        decreases n - k,
    {
        push_le16(&mut out, #[verifier::truncate] (samples[k] as u16));
        proof {
            let pre = samples@.subrange(0, k as int);
            let next = samples@.subrange(0, k + 1);
            assert(next.drop_last() =~= pre);
            assert(out@ =~= header + pcm_bytes(next));
        }
        k = k + 1;
    }
    proof {
        assert(samples@.subrange(0, n as int) =~= samples@);
    }
    out
}

} // verus!
