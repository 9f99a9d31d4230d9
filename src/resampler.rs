use vstd::prelude::*;

verus! {

/// Errors of the audio stage.
#[derive(Debug, Clone, PartialEq, Eq)]
pub enum AudioError {
    NoInputDevice,
    DeviceError(String),
    UnsupportedFormat(String),
    StreamError(String),
    ResamplingError(String),
    ChannelFull,
    ChannelClosed(String),
    PermissionDenied,
    NotStarted,
    AlreadyRunning,
}

/// Sum of the first `k` samples of frame `f` in an interleaved buffer of `c` channels.
pub open spec fn frame_sum(input: Seq<i16>, f: int, c: int, k: int) -> int
    decreases k,
{
    if k <= 0 {
        0
    } else {
        frame_sum(input, f, c, k - 1) + input[f * c + k - 1] as int
    }
}

/// Integer division that truncates toward zero, as on machine integers.
pub open spec fn trunc_div(a: int, d: int) -> int {
    if a >= 0 {
        a / d
    } else {
        -((-a) / d)
    }
}

/// Division rounded to the nearest integer, halves away from zero.
pub open spec fn round_div(a: int, d: int) -> int {
    if a >= 0 {
        (2 * a + d) / (2 * d)
    } else {
        -((-2 * a + d) / (2 * d))
    }
}

/// Downmix: each complete frame becomes the truncated average of its channels;
/// an incomplete trailing frame is dropped.
pub open spec fn mono_spec(input: Seq<i16>, c: nat) -> Seq<i16> {
    Seq::new(input.len() / c, |f: int| trunc_div(frame_sum(input, f, c as int, c as int), c as int) as i16)
}

/// Number of output samples for `n` input samples: ceil(n * out_rate / in_rate).
pub open spec fn out_len(n: nat, in_rate: nat, out_rate: nat) -> nat {
    ((n * out_rate + in_rate - 1) / in_rate as int) as nat
}

/// Output sample `i` of the linear interpolation over `mono`.
pub open spec fn interp_at(mono: Seq<i16>, i: int, in_rate: int, out_rate: int) -> i16 {
    let pos = i * in_rate;
    let idx = pos / out_rate;
    let frac = pos % out_rate;
    if idx + 1 < mono.len() {
        round_div(
            mono[idx] as int * out_rate + (mono[idx + 1] as int - mono[idx] as int) * frac,
            out_rate,
        ) as i16
    } else if idx < mono.len() {
        mono[idx]
    } else {
        0
    }
}

/// Rate conversion of a mono signal by linear interpolation; identity at equal rates.
pub open spec fn convert_spec(mono: Seq<i16>, in_rate: nat, out_rate: nat) -> Seq<i16> {
    if in_rate == out_rate {
        mono
    } else if mono.len() == 0 {
        Seq::empty()
    } else {
        Seq::new(
            out_len(mono.len(), in_rate, out_rate),
            |i: int| interp_at(mono, i, in_rate as int, out_rate as int),
        )
    }
}

/// Conversion is impossible from a zero input rate to another rate, once there
/// is a sample to convert.
pub open spec fn resample_fails(input: Seq<i16>, c: nat, in_rate: nat, out_rate: nat) -> bool {
    in_rate == 0 && out_rate != 0 && mono_spec(input, c).len() > 0
}

/// The whole conversion: downmix, then rate conversion.
pub open spec fn resample_spec(input: Seq<i16>, c: nat, in_rate: nat, out_rate: nat) -> Seq<i16> {
    convert_spec(mono_spec(input, c), in_rate, out_rate)
}

proof fn lemma_frame_sum_bounds(input: Seq<i16>, f: int, c: int, k: int)
    requires
        0 <= k <= c,
        0 <= f,
        (f + 1) * c <= input.len(),
    ensures
        -32768 * k <= frame_sum(input, f, c, k) <= 32767 * k,
    decreases k,
{
    if k > 0 {
        lemma_frame_sum_bounds(input, f, c, k - 1);
    }
}

proof fn lemma_trunc_avg_fits(s: int, c: int)
    requires
        c > 0,
        -32768 * c <= s <= 32767 * c,
    ensures
        -32768 <= trunc_div(s, c) <= 32767,
{
    if s >= 0 {
        assert(s / c <= 32767) by (nonlinear_arith)
            requires
                0 <= s <= 32767 * c,
                c > 0,
        ;
        assert(s / c >= 0) by (nonlinear_arith)
            requires
                0 <= s,
                c > 0,
        ;
    } else {
        assert((-s) / c <= 32768) by (nonlinear_arith)
            requires
                0 <= -s <= 32768 * c,
                c > 0,
        ;
        assert((-s) / c >= 0) by (nonlinear_arith)
            requires
                0 <= -s,
                c > 0,
        ;
    }
}

proof fn lemma_round_between(a: int, d: int, lo: int, hi: int)
    requires
        d > 0,
        lo <= hi,
        lo * d <= a <= hi * d,
    ensures
        lo <= round_div(a, d) <= hi,
{
    if a >= 0 {
        assert((2 * a + d) / (2 * d) <= hi) by (nonlinear_arith)
            requires
                0 <= a <= hi * d,
                d > 0,
        ;
        assert((2 * a + d) / (2 * d) >= lo) by (nonlinear_arith)
            requires
                lo * d <= a,
                0 <= a,
                d > 0,
        ;
    } else {
        assert((-2 * a + d) / (2 * d) <= -lo) by (nonlinear_arith)
            requires
                lo * d <= a < 0,
                d > 0,
        ;
        assert((-2 * a + d) / (2 * d) >= -hi) by (nonlinear_arith)
            requires
                a <= hi * d,
                a < 0,
                d > 0,
        ;
    }
}

/// A single channel is its own downmix.
pub proof fn lemma_mono_of_one_channel(s: Seq<i16>)
    ensures
        mono_spec(s, 1) == s,
{
    assert forall|f: int| 0 <= f < s.len() implies #[trigger] mono_spec(s, 1)[f] == s[f] by {
        assert(frame_sum(s, f, 1, 0) == 0);
        assert(frame_sum(s, f, 1, 1) == s[f] as int);
    }
    assert(mono_spec(s, 1) =~= s);
}

/// At equal rates a mono signal comes out unchanged, and so with its length.
pub proof fn lemma_equal_rates_identity(s: Seq<i16>, rate: nat)
    ensures
        resample_spec(s, 1, rate, rate) == s,
        resample_spec(s, 1, rate, rate).len() == s.len(),
{
    lemma_mono_of_one_channel(s);
}

/// The output holds `n * out_rate / in_rate` samples rounded up: never fewer than
/// that ratio and less than one more.
pub proof fn lemma_output_length(n: nat, in_rate: nat, out_rate: nat)
    requires
        in_rate > 0,
    ensures
        out_len(n, in_rate, out_rate) * in_rate >= n * out_rate,
        (out_len(n, in_rate, out_rate) - 1) * in_rate < n * out_rate,
{
    let a = n * out_rate;
    let q = (a + in_rate - 1) / in_rate as int;
    assert(q * in_rate >= a && (q - 1) * in_rate < a) by (nonlinear_arith)
        requires
            in_rate > 0,
            a >= 0,
            q == (a + in_rate - 1) / in_rate as int,
    ;
}

/// Converts interleaved PCM of a given channel count and rate to mono at another rate.
pub struct AudioResampler {
    input_sample_rate: u32,
    output_sample_rate: u32,
    channels: usize,
}

impl AudioResampler {
    pub closed spec fn in_rate(&self) -> nat {
        self.input_sample_rate as nat
    }

    pub closed spec fn out_rate(&self) -> nat {
        self.output_sample_rate as nat
    }

    pub closed spec fn channel_count(&self) -> nat {
        self.channels as nat
    }

    /// At least one channel.
    pub open spec fn wf(&self) -> bool {
        self.channel_count() > 0
    }

    /// Fails with `UnsupportedFormat` exactly when there are no channels.
    pub fn new(input_sample_rate: u32, output_sample_rate: u32, channels: usize) -> (r: Result<
        Self,
        AudioError,
    >)
        ensures
            channels > 0 <==> r is Ok,
            r is Err ==> r->Err_0 is UnsupportedFormat,
            r matches Ok(res) ==> {
                &&& res.wf()
                &&& res.in_rate() == input_sample_rate
                &&& res.out_rate() == output_sample_rate
                &&& res.channel_count() == channels
            },
    {
        if channels == 0 {
            return Err(AudioError::UnsupportedFormat(String::from_str("Number of channels must be > 0")));
        }
        Ok(Self { input_sample_rate, output_sample_rate, channels })
    }

    /// Downmixes interleaved samples to mono.
    pub fn to_mono(&self, input: &[i16]) -> (r: Vec<i16>)
        requires
            self.wf(),
        ensures
            r@ == mono_spec(input@, self.channel_count()),
    {
        let c = self.channels;
        let n = input.len();
        let frames = n / c;
        let mut mono: Vec<i16> = Vec::with_capacity(frames);
        let mut f: usize = 0;
        while f < frames
            invariant
                c == self.channels,
                c > 0,
                n == input@.len(),
                frames == n / c,
                f <= frames,
                mono@.len() == f,
                forall|j: int|
                    0 <= j < f ==> #[trigger] mono@[j] == mono_spec(input@, c as nat)[j],
            decreases frames - f,
        {
            proof {
                assert((f + 1) * c <= n) by (nonlinear_arith)
                    requires
                        f < frames,
                        frames == n / c,
                        c > 0,
                ;
            }
            proof {
                assert(f * c <= n) by (nonlinear_arith)
                    requires
                        (f + 1) * c <= n,
                        c > 0,
                ;
            }
            let base: usize = f * c;
            let mut sum: i128 = 0;
            let mut ch: usize = 0;
            while ch < c
                invariant
                    c == self.channels,
                    c > 0,
                    n == input@.len(),
                    f < frames,
                    (f + 1) * c <= n,
                    base == f * c,
                    ch <= c,
                    sum == frame_sum(input@, f as int, c as int, ch as int),
                decreases c - ch,
            {
                proof {
                    lemma_frame_sum_bounds(input@, f as int, c as int, ch as int);
                    assert(base + ch < n) by (nonlinear_arith)
                        requires
                            base == f * c,
                            ch < c,
                            (f + 1) * c <= n,
                    ;
                    assert(ch < 0x1_0000_0000_0000_0000);
                }
                sum = sum + input[base + ch] as i128;
                ch = ch + 1;
            }
            proof {
                lemma_frame_sum_bounds(input@, f as int, c as int, c as int);
                lemma_trunc_avg_fits(sum as int, c as int);
            }
            let avg: i128 = if sum >= 0 {
                (sum as u128 / c as u128) as i128
            } else {
                -(((-sum) as u128 / c as u128) as i128)
            };
            mono.push(avg as i16);
            f = f + 1;
        }
        proof {
            assert(mono@ =~= mono_spec(input@, c as nat));
        }
        mono
    }

    /// Downmixes, then converts the rate by linear interpolation. Fails with
    /// `ResamplingError` only when there are samples and the input rate is zero
    /// while the output rate is not.
    pub fn resample(&mut self, input: &[i16]) -> (r: Result<Vec<i16>, AudioError>)
        requires
            old(self).wf(),
            old(self).in_rate() == old(self).out_rate() || input@.len() * old(self).out_rate()
                <= usize::MAX,
        ensures
            *final(self) == *old(self),
            resample_fails(
                input@,
                old(self).channel_count(),
                old(self).in_rate(),
                old(self).out_rate(),
            ) <==> r is Err,
            r is Err ==> r->Err_0 is ResamplingError,
            r matches Ok(v) ==> v@ == resample_spec(
                input@,
                old(self).channel_count(),
                old(self).in_rate(),
                old(self).out_rate(),
            ),
    {
        if input.len() == 0 {
            proof {
                assert(mono_spec(input@, self.channel_count()) =~= Seq::<i16>::empty());
                assert(resample_spec(input@, self.channel_count(), self.in_rate(), self.out_rate())
                    =~= Seq::<i16>::empty());
            }
            return Ok(Vec::new());
        }
        let mono = self.to_mono(input);
        if self.input_sample_rate == self.output_sample_rate {
            return Ok(mono);
        }
        if mono.len() == 0 {
            proof {
                assert(mono@ =~= Seq::<i16>::empty());
            }
            return Ok(Vec::new());
        }
        if self.input_sample_rate == 0 {
            return Err(AudioError::ResamplingError(String::from_str("Input sample rate is zero")));
        }
        let in_r: u64 = self.input_sample_rate as u64;
        let out_r: u64 = self.output_sample_rate as u64;
        let m: usize = mono.len();
        proof {
            assert(m <= input@.len()) by (nonlinear_arith)
                requires
                    m == input@.len() / (self.channels as nat),
                    self.channels > 0,
            ;
            assert(m * out_r <= input@.len() * out_r) by (nonlinear_arith)
                requires
                    m <= input@.len(),
            ;
        }
        let total: u128 = (m as u128) * (out_r as u128) + (in_r as u128) - 1;
        let len_wide: u128 = total / (in_r as u128);
        proof {
            assert(len_wide <= m * out_r) by (nonlinear_arith)
                requires
                    len_wide == (m * out_r + in_r - 1) / (in_r as int),
                    in_r >= 1,
            ;
        }
        let output_len: usize = len_wide as usize;
        let mut output: Vec<i16> = Vec::with_capacity(output_len);
        let mut i: usize = 0;
        while i < output_len
            invariant
                in_r == self.input_sample_rate,
                out_r == self.output_sample_rate,
                in_r > 0,
                in_r != out_r,
                m == mono@.len(),
                output_len == out_len(m as nat, in_r as nat, out_r as nat),
                output_len <= m * out_r,
                i <= output_len,
                output@.len() == i,
                forall|j: int|
                    0 <= j < i ==> #[trigger] output@[j] == interp_at(
                        mono@,
                        j,
                        in_r as int,
                        out_r as int,
                    ),
            decreases output_len - i,
        {
            proof {
                assert(out_r > 0) by (nonlinear_arith)
                    requires
                        i < output_len,
                        output_len <= m * out_r,
                ;
                assert(i * in_r < 0x1_0000_0000_0000_0000_0000_0000) by (nonlinear_arith)
                    requires
                        i < 0x1_0000_0000_0000_0000,
                        in_r < 0x1_0000_0000,
                ;
            }
            let pos: u128 = (i as u128) * (in_r as u128);
            let idx_wide: u128 = pos / (out_r as u128);
            let frac: u128 = pos % (out_r as u128);
            let sample: i16 = if idx_wide + 1 < m as u128 {
                let idx: usize = idx_wide as usize;
                let s0: i64 = mono[idx] as i64;
                let s1: i64 = mono[idx + 1] as i64;
                let fr: i64 = frac as i64;
                let d: i64 = out_r as i64;
                proof {
                    assert(s0 * d <= 32767 * 0x1_0000_0000 && s0 * d >= -32768 * 0x1_0000_0000)
                        by (nonlinear_arith)
                        requires
                            -32768 <= s0 <= 32767,
                            0 < d < 0x1_0000_0000,
                    ;
                    assert((s1 - s0) * fr <= 65535 * 0x1_0000_0000 && (s1 - s0) * fr >= -65535
                        * 0x1_0000_0000) by (nonlinear_arith)
                        requires
                            -65535 <= s1 - s0 <= 65535,
                            0 <= fr < d,
                            d < 0x1_0000_0000,
                    ;
                    let lo = if s0 <= s1 { s0 as int } else { s1 as int };
                    let hi = if s0 <= s1 { s1 as int } else { s0 as int };
                    assert(lo * d <= s0 * d + (s1 - s0) * fr <= hi * d) by (nonlinear_arith)
                        requires
                            0 <= fr < d,
                            lo == (if s0 <= s1 { s0 as int } else { s1 as int }),
                            hi == (if s0 <= s1 { s1 as int } else { s0 as int }),
                    ;
                    lemma_round_between(s0 * d + (s1 - s0) * fr, d as int, lo, hi);
                }
                let a: i64 = s0 * d + (s1 - s0) * fr;
                let r: i64 = if a >= 0 {
                    ((2 * a + d) as u64 / (2 * d) as u64) as i64
                } else {
                    -(((-2 * a + d) as u64 / (2 * d) as u64) as i64)
                };
                r as i16
            } else if idx_wide < m as u128 {
                mono[idx_wide as usize]
            } else {
                0
            };
            output.push(sample);
            i = i + 1;
        }
        proof {
            assert(output@ =~= convert_spec(mono@, in_r as nat, out_r as nat));
        }
        Ok(output)
    }

    pub fn input_sample_rate(&self) -> (r: u32)
        ensures
            r == self.in_rate(),
    {
        self.input_sample_rate
    }

    pub fn output_sample_rate(&self) -> (r: u32)
        ensures
            r == self.out_rate(),
    {
        self.output_sample_rate
    }
}

} // verus!
