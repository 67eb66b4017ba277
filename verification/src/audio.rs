//! Capture-side logic: the ring of most recent samples shared between the
//! capture loop and the renderer, how a device's mix format is read, how the
//! bytes of a capture packet split into frames and channel samples, and which
//! device a configured name picks.

use std::collections::VecDeque;

use vstd::prelude::*;

verus! {

/// `WAVE_FORMAT_IEEE_FLOAT` format tag.
pub const WAVE_FORMAT_IEEE_FLOAT: u16 = 0x0003;
/// `WAVE_FORMAT_EXTENSIBLE` format tag.
pub const WAVE_FORMAT_EXTENSIBLE: u16 = 0xFFFE;
/// `AUDCLNT_BUFFERFLAGS_SILENT`: the packet is to be read as silence.
pub const AUDCLNT_BUFFERFLAGS_SILENT: u32 = 0x2;

/// Format of the captured stream as reported by the device.
#[derive(Debug, Clone, Copy)]
pub struct StreamFormat {
    pub sample_rate: u32,
    pub channels: u16,
    pub bits_per_sample: u16,
    pub is_float: bool,
}

/// Samples are IEEE floats: a float format tag, or an extensible format with
/// 32-bit samples.
pub open spec fn mix_is_float(format_tag: u16, bits_per_sample: u16) -> bool {
    format_tag == WAVE_FORMAT_IEEE_FLOAT || (format_tag == WAVE_FORMAT_EXTENSIBLE
        && bits_per_sample == 32)
}

/// The stream format described by a device's mix format.
pub fn stream_format(format_tag: u16, sample_rate: u32, channels: u16, bits_per_sample: u16) -> (r:
    StreamFormat)
    ensures
        r == (StreamFormat {
            sample_rate,
            channels,
            bits_per_sample,
            is_float: mix_is_float(format_tag, bits_per_sample),
        }),
{
    let is_float = format_tag == WAVE_FORMAT_IEEE_FLOAT || (format_tag == WAVE_FORMAT_EXTENSIBLE
        && bits_per_sample == 32);
    StreamFormat { sample_rate, channels, bits_per_sample, is_float }
}

/// Format reported when no device is captured: 44.1 kHz stereo 32-bit float.
pub fn silent_format() -> (r: StreamFormat)
    ensures
        r == (StreamFormat { sample_rate: 44100, channels: 2, bits_per_sample: 32, is_float: true }),
{
    StreamFormat { sample_rate: 44100, channels: 2, bits_per_sample: 32, is_float: true }
}

/// A capture packet is read as silence when the device flags it so or hands
/// no data.
pub fn buffer_is_silent(flags: u32, data_missing: bool) -> (r: bool)
    ensures
        r == ((flags & AUDCLNT_BUFFERFLAGS_SILENT) != 0 || data_missing),
{
    (flags & AUDCLNT_BUFFERFLAGS_SILENT) != 0 || data_missing
}

/// Contents kept after appending: the last `cap` items of `s`.
pub open spec fn keep_latest<T>(s: Seq<T>, cap: nat) -> Seq<T> {
    if s.len() > cap {
        s.subrange(s.len() - cap, s.len() as int)
    } else {
        s
    }
}

/// The `n` most recent items of `s`, with `silence` in front where `s` holds
/// fewer than `n`.
pub open spec fn latest_window<T>(s: Seq<T>, n: nat, silence: T) -> Seq<T> {
    if s.len() >= n {
        s.subrange(s.len() - n, s.len() as int)
    } else {
        Seq::new((n - s.len()) as nat, |_i: int| silence) + s
    }
}

/// Bounded ring of the most recent samples: appending beyond the capacity
/// drops the oldest ones.
pub struct SampleBuffer<T> {
    inner: VecDeque<T>,
    capacity: usize,
}

impl<T> View for SampleBuffer<T> {
    type V = Seq<T>;

    /// The samples held, oldest first.
    closed spec fn view(&self) -> Seq<T> {
        self.inner@
    }
}

proof fn lemma_keep_latest_push<T>(a: Seq<T>, x: T, cap: nat)
    ensures
        keep_latest(keep_latest(a, cap).push(x), cap) == keep_latest(a.push(x), cap),
{
    let k = keep_latest(a, cap);
    if a.len() > cap {
        assert(k.push(x).len() == cap + 1);
        assert(keep_latest(k.push(x), cap) =~= keep_latest(a.push(x), cap));
    } else {
        assert(k == a);
    }
}

impl<T> SampleBuffer<T> {
    /// Most samples the buffer holds.
    pub closed spec fn max_len(&self) -> nat {
        self.capacity as nat
    }

    /// The buffer holds no more than its capacity.
    #[verifier::type_invariant]
    spec fn wf(self) -> bool {
        self.inner@.len() <= self.capacity
    }
}

impl<T: Copy> SampleBuffer<T> {
    /// An empty buffer that keeps at most `capacity` samples.
    pub fn new(capacity: usize) -> (r: Self)
        ensures
            r@ == Seq::<T>::empty(),
            r.max_len() == capacity,
    {
        SampleBuffer { inner: VecDeque::with_capacity(capacity), capacity }
    }

    /// Appends `samples` in order, then drops the oldest samples beyond the
    /// capacity.
    pub fn push_many(&mut self, samples: &[T])
        ensures
            final(self).max_len() == old(self).max_len(),
            final(self)@ == keep_latest(old(self)@ + samples@, old(self).max_len()),
    {
        proof {
            use_type_invariant(&*self);
        }
        let cap = self.capacity;
        let mut inner: VecDeque<T> = VecDeque::new();
        std::mem::swap(&mut inner, &mut self.inner);
        let ghost start = inner@;
        let n = samples.len();
        let mut i: usize = 0;
        assert(start + samples@.take(0) =~= start);
        while i < n
            invariant
                n == samples@.len(),
                i <= n,
                inner@.len() <= cap,
                inner@ == keep_latest(start + samples@.take(i as int), cap as nat),
            decreases n - i,
        {
            let ghost before = inner@;
            inner.push_back(samples[i]);
            if inner.len() > cap {
                let _ = inner.pop_front();
            }
            proof {
                assert(inner@ =~= keep_latest(before.push(samples@[i as int]), cap as nat));
                lemma_keep_latest_push(start + samples@.take(i as int), samples@[i as int], cap as nat);
                assert((start + samples@.take(i as int)).push(samples@[i as int]) =~= start
                    + samples@.take(i + 1));
            }
            i += 1;
        }
        self.inner = inner;
        assert(samples@.take(n as int) =~= samples@);
    }

    /// Fills `out` with the `out.len()` most recent samples, oldest first;
    /// where fewer are held, the front of `out` is `silence`.
    pub fn read_latest(&self, out: &mut [T], silence: T)
        ensures
            final(out)@ == latest_window(self@, old(out)@.len(), silence),
    {
        let n = out.len();
        let len = self.inner.len();
        let ghost target = latest_window(self.inner@, n as nat, silence);
        if len >= n {
            let start = len - n;
            let mut i: usize = 0;
            while i < n
                invariant
                    n == out@.len(),
                    len == self.inner@.len(),
                    start == len - n,
                    i <= n,
                    target == latest_window(self.inner@, n as nat, silence),
                    forall|j: int| 0 <= j < i ==> out@[j] == target[j],
                decreases n - i,
            {
                out[i] = self.inner[start + i];
                i += 1;
            }
        } else {
            let pad = n - len;
            let mut i: usize = 0;
            while i < pad
                invariant
                    n == out@.len(),
                    len == self.inner@.len(),
                    pad == n - len,
                    i <= pad,
                    target == latest_window(self.inner@, n as nat, silence),
                    forall|j: int| 0 <= j < i ==> out@[j] == target[j],
                decreases pad - i,
            {
                out[i] = silence;
                i += 1;
            }
            let mut k: usize = 0;
            while k < len
                invariant
                    n == out@.len(),
                    len == self.inner@.len(),
                    pad == n - len,
                    k <= len,
                    target == latest_window(self.inner@, n as nat, silence),
                    forall|j: int| 0 <= j < pad + k ==> out@[j] == target[j],
                decreases len - k,
            {
                out[pad + k] = self.inner[k];
                k += 1;
            }
        }
        assert(out@ =~= target);
    }
}

/// After a write of at least `n` samples, a read of `n` (no more than the
/// capacity) gives back the last `n` samples written, whatever the buffer
/// held before.
pub proof fn law_read_returns_latest_written<T>(
    buf: SampleBuffer<T>,
    written: Seq<T>,
    n: nat,
    silence: T,
)
    requires
        n <= written.len(),
        n <= buf.max_len(),
    ensures
        latest_window(keep_latest(buf@ + written, buf.max_len()), n, silence) == written.subrange(
            written.len() - n,
            written.len() as int,
        ),
{
    let kept = keep_latest(buf@ + written, buf.max_len());
    assert(kept.len() >= n);
    assert(latest_window(kept, n, silence) =~= written.subrange(
        written.len() - n,
        written.len() as int,
    ));
}

/// After a write the buffer holds no more than its capacity, and what it
/// holds is the most recent part of what it held followed by what was written.
pub proof fn law_write_keeps_bounded_suffix<T>(buf: SampleBuffer<T>, written: Seq<T>)
    ensures
        keep_latest(buf@ + written, buf.max_len()).len() <= buf.max_len(),
        keep_latest(buf@ + written, buf.max_len()) == (buf@ + written).subrange(
            (buf@ + written).len() - keep_latest(buf@ + written, buf.max_len()).len(),
            (buf@ + written).len() as int,
        ),
{
    let all = buf@ + written;
    if all.len() <= buf.max_len() {
        assert(all.subrange(0, all.len() as int) =~= all);
    }
}

/// Writing samples in two pieces leaves the buffer as writing them at once:
/// how the capture loop splits its packets does not matter.
pub proof fn law_split_writes_equal_one_write<T>(
    buf: SampleBuffer<T>,
    first: Seq<T>,
    second: Seq<T>,
)
    ensures
        keep_latest(keep_latest(buf@ + first, buf.max_len()) + second, buf.max_len())
            == keep_latest(buf@ + first + second, buf.max_len()),
{
    let cap = buf.max_len();
    let a = buf@ + first;
    let k = keep_latest(a, cap);
    let lhs = keep_latest(k + second, cap);
    let rhs = keep_latest(a + second, cap);
    assert(a + second =~= buf@ + first + second);
    if a.len() > cap {
        assert(lhs.len() == rhs.len());
        assert(lhs =~= rhs);
    } else {
        assert(k == a);
    }
}

/// A read from a buffer holding nothing is all silence.
pub proof fn law_empty_read_is_silence<T>(n: nat, silence: T)
    ensures
        latest_window(Seq::<T>::empty(), n, silence) == Seq::new(n, |_i: int| silence),
{
    assert(latest_window(Seq::<T>::empty(), n, silence) =~= Seq::new(n, |_i: int| silence));
}

/// One channel sample as it stands in a capture packet, before it is scaled
/// to a float.
#[derive(Debug, Clone, Copy, PartialEq, Eq, Structural)]
pub enum RawSample {
    /// The bits of a 32-bit IEEE float.
    Float(u32),
    /// A signed 16-bit integer sample.
    Int16(i16),
    /// A signed 32-bit integer sample.
    Int32(i32),
    /// A sample width this decoder does not read; it stands for silence.
    Unsupported,
}

/// Unsigned value of two little-endian bytes.
pub open spec fn le_u16(b0: u8, b1: u8) -> int {
    b0 + 256 * b1
}

/// Unsigned value of four little-endian bytes.
pub open spec fn le_u32(b0: u8, b1: u8, b2: u8, b3: u8) -> int {
    b0 + 256 * b1 + 65536 * b2 + 16777216 * b3
}

/// Two's complement reading of an unsigned value whose sign bit is worth
/// `sign_bit` (values at or above it are negative).
pub open spec fn twos_complement(v: int, sign_bit: int) -> int {
    if v < sign_bit {
        v
    } else {
        v - 2 * sign_bit
    }
}

/// The sample that `bytes` encode: a float when the stream is float and the
/// sample is 4 bytes wide, otherwise a signed little-endian integer of 2 or 4
/// bytes; any other width is unsupported.
pub open spec fn decoded(bytes: Seq<u8>, is_float: bool) -> RawSample {
    if is_float && bytes.len() == 4 {
        RawSample::Float(le_u32(bytes[0], bytes[1], bytes[2], bytes[3]) as u32)
    } else if bytes.len() == 2 {
        RawSample::Int16(twos_complement(le_u16(bytes[0], bytes[1]), 0x8000) as i16)
    } else if bytes.len() == 4 {
        RawSample::Int32(twos_complement(le_u32(bytes[0], bytes[1], bytes[2], bytes[3]), 0x8000_0000) as i32)
    } else {
        RawSample::Unsupported
    }
}

/// Decodes the `len` bytes of `bytes` that start at `start`.
fn decode_at(bytes: &[u8], start: usize, len: usize, is_float: bool) -> (r: RawSample)
    requires
        start + len <= bytes@.len(),
    ensures
        r == decoded(bytes@.subrange(start as int, start + len), is_float),
{
    let ghost sub = bytes@.subrange(start as int, start + len);
    if is_float && len == 4 {
        let v: u32 = bytes[start] as u32 + (bytes[start + 1] as u32) * 256 + (bytes[start + 2]
            as u32) * 65536 + (bytes[start + 3] as u32) * 16777216;
        assert(sub[0] == bytes@[start as int] && sub[1] == bytes@[start + 1] && sub[2]
            == bytes@[start + 2] && sub[3] == bytes@[start + 3]);
        RawSample::Float(v)
    } else if len == 2 {
        let v: u16 = bytes[start] as u16 + (bytes[start + 1] as u16) * 256;
        assert(sub[0] == bytes@[start as int] && sub[1] == bytes@[start + 1]);
        let s: i16 = if v < 0x8000 {
            v as i16
        } else {
            (v as i32 - 0x10000) as i16
        };
        RawSample::Int16(s)
    } else if len == 4 {
        let v: u32 = bytes[start] as u32 + (bytes[start + 1] as u32) * 256 + (bytes[start + 2]
            as u32) * 65536 + (bytes[start + 3] as u32) * 16777216;
        assert(sub[0] == bytes@[start as int] && sub[1] == bytes@[start + 1] && sub[2]
            == bytes@[start + 2] && sub[3] == bytes@[start + 3]);
        let s: i32 = if v < 0x8000_0000 {
            v as i32
        } else {
            (v as i64 - 0x1_0000_0000) as i32
        };
        RawSample::Int32(s)
    } else {
        RawSample::Unsupported
    }
}

/// The sample encoded by `bytes` (one channel of one frame).
pub fn decode_sample(bytes: &[u8], is_float: bool) -> (r: RawSample)
    ensures
        r == decoded(bytes@, is_float),
{
    let r = decode_at(bytes, 0, bytes.len(), is_float);
    assert(bytes@.subrange(0, bytes@.len() as int) =~= bytes@);
    r
}

/// The channel samples of one frame: channel `c` occupies the
/// `bytes_per_sample` bytes from `c * bytes_per_sample` on.
pub open spec fn frame_samples(
    frame: Seq<u8>,
    channels: nat,
    bytes_per_sample: nat,
    is_float: bool,
) -> Seq<RawSample> {
    Seq::new(
        channels,
        |c: int|
            decoded(
                frame.subrange(c * bytes_per_sample, c * bytes_per_sample + bytes_per_sample),
                is_float,
            ),
    )
}

/// Splits a capture packet into whole frames of `block_align` bytes (a
/// trailing partial frame is left out) and decodes the channel samples of
/// each frame. The channels must fit in a frame once there is a whole frame
/// to decode.
pub fn decode_frames(
    raw: &[u8],
    block_align: usize,
    channels: usize,
    bytes_per_sample: usize,
    is_float: bool,
) -> (r: Vec<Vec<RawSample>>)
    requires
        block_align > 0,
        raw@.len() >= block_align ==> channels * bytes_per_sample <= block_align,
    ensures
        r@.len() == raw@.len() / (block_align as nat),
        forall|f: int|
            0 <= f < r@.len() ==> #[trigger] r@[f]@ == frame_samples(
                raw@.subrange(f * block_align, f * block_align + block_align),
                channels as nat,
                bytes_per_sample as nat,
                is_float,
            ),
{
    let len = raw.len();
    let frames = len / block_align;
    let mut out: Vec<Vec<RawSample>> = Vec::new();
    let mut f: usize = 0;
    while f < frames
        invariant
            len == raw@.len(),
            frames == raw@.len() / (block_align as nat),
            block_align > 0,
            raw@.len() >= block_align ==> channels * bytes_per_sample <= block_align,
            f <= frames,
            out@.len() == f,
            forall|g: int|
                0 <= g < f ==> #[trigger] out@[g]@ == frame_samples(
                    raw@.subrange(g * block_align, g * block_align + block_align),
                    channels as nat,
                    bytes_per_sample as nat,
                    is_float,
                ),
        decreases frames - f,
    {
        assert((f + 1) * block_align <= raw@.len()) by (nonlinear_arith)
            requires
                f < frames,
                frames == raw@.len() / (block_align as nat),
                block_align > 0,
        ;
        assert((f + 1) * block_align == f * block_align + block_align) by (nonlinear_arith);
        assert(channels * bytes_per_sample <= block_align);
        assert(f * block_align + block_align <= len);
        let base = f * block_align;
        let ghost frame = raw@.subrange(base as int, base + block_align);
        let mut samples: Vec<RawSample> = Vec::new();
        let mut c: usize = 0;
        while c < channels
            invariant
                len == raw@.len(),
                base + block_align <= raw@.len(),
                frame == raw@.subrange(base as int, base + block_align),
                channels * bytes_per_sample <= block_align,
                c <= channels,
                samples@.len() == c,
                forall|d: int|
                    0 <= d < c ==> #[trigger] samples@[d] == frame_samples(
                        frame,
                        channels as nat,
                        bytes_per_sample as nat,
                        is_float,
                    )[d],
            decreases channels - c,
        {
            assert((c + 1) * bytes_per_sample <= channels * bytes_per_sample) by (nonlinear_arith)
                requires
                    c < channels,
            ;
            assert((c + 1) * bytes_per_sample == c * bytes_per_sample + bytes_per_sample)
                by (nonlinear_arith);
            let off = base + c * bytes_per_sample;
            let s = decode_at(raw, off, bytes_per_sample, is_float);
            assert(raw@.subrange(off as int, off + bytes_per_sample) =~= frame.subrange(
                c * bytes_per_sample,
                c * bytes_per_sample + bytes_per_sample,
            ));
            samples.push(s);
            c += 1;
        }
        assert(samples@ =~= frame_samples(
            frame,
            channels as nat,
            bytes_per_sample as nat,
            is_float,
        ));
        out.push(samples);
        f += 1;
    }
    out
}

/// ASCII lowercase of one character; every other character is kept.
pub open spec fn ascii_lower(c: char) -> char {
    if 'A' <= c <= 'Z' {
        ((c as u32) + 32) as char
    } else {
        c
    }
}

/// ASCII lowercase of a string.
pub open spec fn ascii_lower_seq(s: Seq<char>) -> Seq<char> {
    s.map_values(|c: char| ascii_lower(c))
}

/// `needle` occurs in `hay` as a contiguous run (the empty needle occurs in
/// every string).
pub open spec fn occurs_in(hay: Seq<char>, needle: Seq<char>) -> bool {
    exists|i: int|
        0 <= i <= hay.len() - needle.len() && #[trigger] hay.subrange(i, i + needle.len()) == needle
}

/// The characters of `s`, ASCII-lowercased.
fn lowered_chars(s: &str) -> (r: Vec<char>)
    ensures
        r@ == ascii_lower_seq(s@),
{
    let n = s.unicode_len();
    let mut out: Vec<char> = Vec::new();
    let mut i: usize = 0;
    while i < n
        invariant
            n == s@.len(),
            i <= n,
            out@ == ascii_lower_seq(s@.take(i as int)),
        decreases n - i,
    {
        let c = s.get_char(i);
        let l = if 'A' <= c && c <= 'Z' {
            ((c as u8) + 32) as char
        } else {
            c
        };
        out.push(l);
        assert(s@.take(i + 1) =~= s@.take(i as int).push(c));
        assert(ascii_lower_seq(s@.take(i + 1)) =~= ascii_lower_seq(s@.take(i as int)).push(l));
        i += 1;
    }
    assert(s@.take(n as int) =~= s@);
    out
}

/// `needle` stands in `hay` from position `at` on.
fn occurs_at(hay: &Vec<char>, needle: &Vec<char>, at: usize) -> (r: bool)
    requires
        at + needle@.len() <= hay@.len(),
    ensures
        r == (hay@.subrange(at as int, at + needle@.len()) == needle@),
{
    let m = needle.len();
    let hl = hay.len();
    let mut k: usize = 0;
    while k < m
        invariant
            m == needle@.len(),
            hl == hay@.len(),
            at + m <= hay@.len(),
            k <= m,
            forall|j: int| 0 <= j < k ==> hay@[at + j] == needle@[j],
        decreases m - k,
    {
        if hay[at + k] != needle[k] {
            assert(hay@.subrange(at as int, at + m)[k as int] != needle@[k as int]);
            return false;
        }
        k += 1;
    }
    assert(hay@.subrange(at as int, at + m) =~= needle@);
    true
}

/// A device whose friendly name contains `needle`, ignoring ASCII case, is
/// the one a configured name picks.
pub fn device_name_matches(name: &str, needle: &str) -> (r: bool)
    ensures
        r == occurs_in(ascii_lower_seq(name@), ascii_lower_seq(needle@)),
{
    let hay = lowered_chars(name);
    let pat = lowered_chars(needle);
    let h = hay.len();
    let m = pat.len();
    if m > h {
        return false;
    }
    if m == 0 {
        assert(hay@.subrange(0, 0int + pat@.len()) =~= pat@);
        assert(occurs_in(hay@, pat@));
        return true;
    }
    let mut i: usize = 0;
    while i <= h - m
        invariant
            h == hay@.len(),
            m == pat@.len(),
            hay@ == ascii_lower_seq(name@),
            pat@ == ascii_lower_seq(needle@),
            1 <= m <= h,
            i <= h - m + 1,
            forall|j: int| 0 <= j < i ==> #[trigger] hay@.subrange(j, j + m) != pat@,
        decreases h - m + 1 - i,
    {
        if occurs_at(&hay, &pat, i) {
            assert(hay@.subrange(i as int, i + pat@.len()) == pat@);
            assert(occurs_in(hay@, pat@));
            return true;
        }
        i += 1;
    }
    false
}

/// Characters with the Unicode `White_Space` property, the ones that
/// `str::trim` removes.
pub open spec fn is_white_space(c: char) -> bool {
    ||| '\t' <= c <= '\r'
    ||| c == ' '
    ||| c == '\u{85}'
    ||| c == '\u{a0}'
    ||| c == '\u{1680}'
    ||| '\u{2000}' <= c <= '\u{200a}'
    ||| c == '\u{2028}'
    ||| c == '\u{2029}'
    ||| c == '\u{202f}'
    ||| c == '\u{205f}'
    ||| c == '\u{3000}'
}

/// A capture device is configured when its name is not blank; with a blank
/// name the program runs silent.
pub fn device_configured(device: &str) -> (r: bool)
    ensures
        r == exists|i: int| 0 <= i < device@.len() && !is_white_space(#[trigger] device@[i]),
{
    let n = device.unicode_len();
    let mut i: usize = 0;
    while i < n
        invariant
            n == device@.len(),
            i <= n,
            forall|j: int| 0 <= j < i ==> is_white_space(#[trigger] device@[j]),
        decreases n - i,
    {
        let c = device.get_char(i);
        let white = ('\t' <= c && c <= '\r') || c == ' ' || c == '\u{85}' || c == '\u{a0}' || c
            == '\u{1680}' || ('\u{2000}' <= c && c <= '\u{200a}') || c == '\u{2028}' || c
            == '\u{2029}' || c == '\u{202f}' || c == '\u{205f}' || c == '\u{3000}';
        if !white {
            return true;
        }
        i += 1;
    }
    false
}

/// `a` and `b` are the same character up to ASCII case: equal, or an ASCII
/// capital letter and the character 32 code points above it.
pub open spec fn same_ignoring_ascii_case(a: char, b: char) -> bool {
    ||| a == b
    ||| ('A' <= a <= 'Z' && b as u32 == a as u32 + 32)
    ||| ('A' <= b <= 'Z' && a as u32 == b as u32 + 32)
}

/// ASCII lowercasing moves every capital `A` to `Z` 32 code points up, to its
/// small letter, and leaves every other character alone.
pub proof fn law_ascii_lower_moves_capitals_only(c: char)
    ensures
        'A' <= c <= 'Z' ==> ascii_lower(c) as u32 == c as u32 + 32 && 'a' <= ascii_lower(c) <= 'z',
        !('A' <= c <= 'Z') ==> ascii_lower(c) == c,
{
}

/// A device name matches every needle that stands in it somewhere up to the
/// ASCII case of its letters (`ZOOM` in the name matches `zoom`, `Zoom`,
/// `zOOm`, ...).
pub proof fn law_match_ignores_ascii_case(name: Seq<char>, needle: Seq<char>, at: int)
    requires
        0 <= at,
        at + needle.len() <= name.len(),
        forall|j: int|
            0 <= j < needle.len() ==> same_ignoring_ascii_case(#[trigger] name[at + j], needle[j]),
    ensures
        occurs_in(ascii_lower_seq(name), ascii_lower_seq(needle)),
{
    let hay = ascii_lower_seq(name);
    let pat = ascii_lower_seq(needle);
    assert forall|j: int| 0 <= j < needle.len() implies hay.subrange(at, at + needle.len())[j]
        == pat[j] by {
        let a = name[at + j];
        let b = needle[j];
        assert(same_ignoring_ascii_case(a, b));
        if 'A' <= a <= 'Z' && b as u32 == a as u32 + 32 {
            vstd::utf8::char_u32_cast(b, b as u32);
            assert(ascii_lower(a) == b);
        } else if 'A' <= b <= 'Z' && a as u32 == b as u32 + 32 {
            vstd::utf8::char_u32_cast(a, a as u32);
            assert(ascii_lower(b) == a);
        }
    }
    assert(hay.subrange(at, at + pat.len()) =~= pat);
}

/// The four formats the capture reads as floats or integers: a float tag is
/// float at any width, an extensible tag only at 32 bits, and anything else
/// (PCM) is integer.
pub proof fn law_float_formats(bits: u16, other_tag: u16)
    requires
        other_tag != 0x0003,
        other_tag != 0xFFFE,
    ensures
        mix_is_float(0x0003, bits),
        mix_is_float(0xFFFE, 32),
        bits != 32 ==> !mix_is_float(0xFFFE, bits),
        !mix_is_float(other_tag, bits),
{
}

/// Writing a 16-bit sample as two little-endian bytes and decoding them gives
/// the sample back.
pub proof fn law_int16_round_trip(v: i16)
    ensures
        ({
            let u: int = if v < 0 { v + 0x10000 } else { v as int };
            decoded(seq![(u % 256) as u8, (u / 256) as u8], false) == RawSample::Int16(v)
        }),
{
}

/// Writing a 32-bit sample as four little-endian bytes and decoding them
/// gives the sample back, as an integer or (for a float stream) as the same
/// bits.
pub proof fn law_int32_and_float_round_trip(v: i32, bits: u32)
    ensures
        ({
            let u: int = if v < 0 { v + 0x1_0000_0000 } else { v as int };
            decoded(
                seq![
                    (u % 256) as u8,
                    ((u / 256) % 256) as u8,
                    ((u / 65536) % 256) as u8,
                    (u / 16777216) as u8,
                ],
                false,
            ) == RawSample::Int32(v)
        }),
        decoded(
            seq![
                (bits % 256) as u8,
                ((bits / 256) % 256) as u8,
                ((bits / 65536) % 256) as u8,
                (bits / 16777216) as u8,
            ],
            true,
        ) == RawSample::Float(bits),
{
}

/// Spaces, tabs, line breaks and the ideographic space are blank; letters and
/// digits are not.
pub proof fn law_blank_characters(c: char)
    ensures
        is_white_space(' ') && is_white_space('\t') && is_white_space('\n') && is_white_space('\r')
            && is_white_space('\u{3000}'),
        ('a' <= c <= 'z' || 'A' <= c <= 'Z' || '0' <= c <= '9') ==> !is_white_space(c),
{
}

} // verus!
