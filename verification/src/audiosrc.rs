//! The audio test source: silence except a short tone pip centred on each pip instant.
//!
//! Here stand the times: when a pip sounds, which time a sample has, how buffers follow each
//! other, and how samples are laid out. The tone itself is a matter of floating point.

use crate::captions::{caption_text, captions_follow_pips, next_pip, pip_text};
use crate::signal::{
    mul_div_floor, scaled, scaled_is_monotonic, scaled_is_the_floor, DEFAULT_PIP_DURATION, DEFAULT_PIP_INTERVAL,
    DEFAULT_SAMPLES_PER_BUFFER, SECOND,
};
use crate::text::same_text;
use vstd::prelude::*;

verus! {

/// Settings of the audio test source that are not the tone's.
#[derive(Debug, Clone, Copy, PartialEq, Eq, Structural)]
pub struct Settings {
    /// Nanoseconds between pips.
    pub pip_interval: u64,
    /// Nanoseconds that a pip sounds.
    pub pip_duration: u64,
    pub samples_per_buffer: u32,
    pub is_live: bool,
}

impl Default for Settings {
    fn default() -> (r: Self)
        ensures
            r == (Settings {
                pip_interval: DEFAULT_PIP_INTERVAL,
                pip_duration: DEFAULT_PIP_DURATION,
                samples_per_buffer: 1_024,
                is_live: false,
            }),
    {
        Settings {
            pip_interval: DEFAULT_PIP_INTERVAL,
            pip_duration: DEFAULT_PIP_DURATION,
            samples_per_buffer: DEFAULT_SAMPLES_PER_BUFFER as u32,
            is_live: false,
        }
    }
}

/// A property of the audio test source that is not the tone's.
#[derive(Debug, Clone, Copy, PartialEq, Eq, Structural)]
pub enum AudioProperty {
    PipInterval,
    PipDuration,
    SamplesPerBuffer,
    IsLive,
}

/// The value of a property of the audio test source.
#[derive(Debug, Clone, Copy, PartialEq, Eq)]
pub enum AudioValue {
    Nanoseconds(u64),
    UInt(u32),
    Boolean(bool),
}

impl AudioProperty {
    pub open spec fn name(self) -> Seq<char> {
        match self {
            AudioProperty::PipInterval => "pip-interval"@,
            AudioProperty::PipDuration => "pip-duration"@,
            AudioProperty::SamplesPerBuffer => "samples-per-buffer"@,
            AudioProperty::IsLive => "is-live"@,
        }
    }

    /// The property of the given name.
    pub fn from_name(name: &str) -> (r: Option<AudioProperty>)
        ensures
            match r {
                Some(p) => p.name() == name@,
                None => forall|p: AudioProperty| (#[trigger] p.name()) != name@,
            },
    {
        if same_text(name, "pip-interval") {
            Some(AudioProperty::PipInterval)
        } else if same_text(name, "pip-duration") {
            Some(AudioProperty::PipDuration)
        } else if same_text(name, "samples-per-buffer") {
            Some(AudioProperty::SamplesPerBuffer)
        } else if same_text(name, "is-live") {
            Some(AudioProperty::IsLive)
        } else {
            None
        }
    }

    /// The property takes values of this type.
    pub open spec fn takes(self, value: AudioValue) -> bool {
        match self {
            AudioProperty::PipInterval => value is Nanoseconds,
            AudioProperty::PipDuration => value is Nanoseconds,
            AudioProperty::SamplesPerBuffer => value is UInt,
            AudioProperty::IsLive => value is Boolean,
        }
    }
}

impl Settings {
    pub open spec fn value_of(self, p: AudioProperty) -> AudioValue {
        match p {
            AudioProperty::PipInterval => AudioValue::Nanoseconds(self.pip_interval),
            AudioProperty::PipDuration => AudioValue::Nanoseconds(self.pip_duration),
            AudioProperty::SamplesPerBuffer => AudioValue::UInt(self.samples_per_buffer),
            AudioProperty::IsLive => AudioValue::Boolean(self.is_live),
        }
    }

    /// Set a property. A value of the wrong type is left aside; a time must be one.
    pub fn set_property(&mut self, p: AudioProperty, value: AudioValue)
        requires
            value != AudioValue::Nanoseconds(u64::MAX),
        ensures
            p.takes(value) ==> final(self).value_of(p) == value,
            !p.takes(value) ==> *final(self) == *old(self),
            forall|q: AudioProperty|
                q != p ==> #[trigger] final(self).value_of(q) == old(self).value_of(q),
    {
        match (p, value) {
            (AudioProperty::PipInterval, AudioValue::Nanoseconds(n)) => {
                self.pip_interval = n;
            },
            (AudioProperty::PipDuration, AudioValue::Nanoseconds(n)) => {
                self.pip_duration = n;
            },
            (AudioProperty::SamplesPerBuffer, AudioValue::UInt(n)) => {
                self.samples_per_buffer = n;
            },
            (AudioProperty::IsLive, AudioValue::Boolean(b)) => {
                self.is_live = b;
            },
            _ => {},
        }
    }

    pub fn property(&self, p: AudioProperty) -> (r: AudioValue)
        ensures
            r == self.value_of(p),
    {
        match p {
            AudioProperty::PipInterval => AudioValue::Nanoseconds(self.pip_interval),
            AudioProperty::PipDuration => AudioValue::Nanoseconds(self.pip_duration),
            AudioProperty::SamplesPerBuffer => AudioValue::UInt(self.samples_per_buffer),
            AudioProperty::IsLive => AudioValue::Boolean(self.is_live),
        }
    }
}

// ---- pips -------------------------------------------------------------------

/// The pip instant nearest to `t`; the later one, half-way between two.
pub open spec fn nearest_pip(t: int, interval: int) -> int {
    ((t + interval / 2) / interval) * interval
}

pub open spec fn time_apart(a: int, b: int) -> int {
    if a >= b {
        a - b
    } else {
        b - a
    }
}

/// A pip sounds at `t`: within half a pip's length of the nearest pip instant, unless the
/// pip would have begun before the signal.
pub open spec fn pip_sounds(t: int, interval: int, duration: int) -> bool {
    let centre = nearest_pip(t, interval);
    centre >= duration / 2 && time_apart(t, centre) < duration / 2
}

/// Whether a pip sounds at a running time. The pip at running time 0 is skipped so every
/// emitted pip is a full window.
pub fn pip_active(running_ns: u64, settings: &Settings) -> (r: bool)
    requires
        settings.pip_interval > 0,
        running_ns + settings.pip_interval / 2 <= u64::MAX,
    ensures
        r == pip_sounds(
            running_ns as int,
            settings.pip_interval as int,
            settings.pip_duration as int,
        ),
{
    let p: u64 = settings.pip_interval;
    let half: u64 = settings.pip_duration / 2;
    let k: u64 = (running_ns + p / 2) / p;
    proof {
        let total = running_ns as int + p as int / 2;
        vstd::arithmetic::div_mod::lemma_fundamental_div_mod(total, p as int);
        vstd::arithmetic::mul::lemma_mul_is_commutative(p as int, k as int);
    }
    let centre: u64 = k * p;
    let apart: u64 = if running_ns >= centre {
        running_ns - centre
    } else {
        centre - running_ns
    };
    centre >= half && apart < half
}

proof fn nearest_is_near(t: int, interval: int)
    requires
        t >= 0,
        interval > 0,
    ensures
        ({
            let k = (t + interval / 2) / interval;
            &&& k >= 0
            &&& nearest_pip(t, interval) == k * interval
            &&& t + interval / 2 - interval < nearest_pip(t, interval) <= t + interval / 2
        }),
{
    let total = t + interval / 2;
    let k = total / interval;
    vstd::arithmetic::div_mod::lemma_fundamental_div_mod(total, interval);
    vstd::arithmetic::mul::lemma_mul_is_commutative(interval, k);
    vstd::arithmetic::div_mod::lemma_div_pos_is_pos(total, interval);
}

/// Pips sound round the pip instants and nowhere else: one sounds at `t` exactly if `t` is
/// within half a pip's length of some pip instant that is not too early, for pips no longer
/// than the interval.
pub proof fn pips_sound_round_instants(t: int, interval: int, duration: int, k: int)
    requires
        t >= 0,
        interval > 0,
        0 <= duration <= interval,
    ensures
        pip_sounds(t, interval, duration) ==> ({
            let n = (t + interval / 2) / interval;
            n * interval >= duration / 2 && time_apart(t, n * interval) < duration / 2
        }),
        k >= 0 && k * interval >= duration / 2 && time_apart(t, k * interval) < duration / 2
            ==> pip_sounds(t, interval, duration),
{
    nearest_is_near(t, interval);
    let n = (t + interval / 2) / interval;
    if k >= 0 && time_apart(t, k * interval) < duration / 2 {
        if k < n {
            assert(k * interval <= n * interval - interval) by (nonlinear_arith)
                requires
                    k <= n - 1,
                    interval > 0,
            ;
        } else if k > n {
            assert(k * interval >= n * interval + interval) by (nonlinear_arith)
                requires
                    k >= n + 1,
                    interval > 0,
            ;
        }
    }
}

/// The two sources agree: a frame with a caption spans an instant at which a pip sounds.
pub proof fn captioned_frame_sounds(pts: int, next_pts: int, interval: int, duration: int)
    requires
        0 <= pts < next_pts,
        interval > 0,
        2 <= duration <= interval,
        caption_text(pts, next_pts, interval) is Some,
    ensures
        pts <= next_pip(pts, interval) * interval < next_pts,
        pip_sounds(next_pip(pts, interval) * interval, interval, duration),
{
    let k = next_pip(pts, interval);
    assert(k * interval >= interval) by (nonlinear_arith)
        requires
            k >= 1,
            interval > 0,
    ;
    pips_sound_round_instants(k * interval, interval, duration, k);
}

/// And the other way round: a pip instant that sounds is captioned in the frame that spans
/// it, for frames no longer than the interval.
pub proof fn sounding_instant_is_captioned(
    pts: int,
    next_pts: int,
    interval: int,
    duration: int,
    k: int,
)
    requires
        0 <= pts <= k * interval < next_pts <= pts + interval,
        interval > 0,
        2 <= duration <= interval,
        k >= 0,
        pip_sounds(k * interval, interval, duration),
    ensures
        caption_text(pts, next_pts, interval) == Some(pip_text(k)),
{
    if k == 0 {
        first_pip_is_skipped_at_start(interval, duration);
    }
    captions_follow_pips(pts, next_pts, interval, k);
}

proof fn first_pip_is_skipped_at_start(interval: int, duration: int)
    requires
        interval > 0,
        2 <= duration <= interval,
    ensures
        !pip_sounds(0 * interval, interval, duration),
{
    vstd::arithmetic::div_mod::lemma_fundamental_div_mod_converse(
        interval / 2,
        interval,
        0,
        interval / 2,
    );
}

/// Nothing sounds at the start of the signal: the pip at running time 0 is skipped.
pub proof fn first_pip_is_skipped(t: int, interval: int, duration: int)
    requires
        0 <= t,
        interval > 0,
        0 <= duration <= interval,
        2 * t < interval - 1,
    ensures
        !pip_sounds(t, interval, duration),
{
    nearest_is_near(t, interval);
    let n = (t + interval / 2) / interval;
    assert(n == 0) by (nonlinear_arith)
        requires
            n >= 0,
            n * interval <= t + interval / 2,
            2 * t < interval - 1,
            interval > 0,
    ;
    assert(n * interval == 0) by (nonlinear_arith)
        requires
            n == 0,
    ;
}

// ---- samples ----------------------------------------------------------------

/// The running time of sample `g`, in nanoseconds, rounded down.
pub open spec fn sample_time(g: int, rate: int) -> int {
    scaled(g, SECOND as int, rate)
}

/// The running time of a sample.
pub fn sample_running_time(g: u64, rate: u32) -> (t: u64)
    requires
        rate > 0,
        sample_time(g as int, rate as int) <= u64::MAX,
    ensures
        t == sample_time(g as int, rate as int),
{
    match mul_div_floor(g, SECOND, rate as u64) {
        Some(t) => t,
        None => 0,
    }
}

/// The two's complement of a number in 32 bits.
pub open spec fn unsigned_bits(v: int) -> int {
    if v >= 0 {
        v
    } else {
        v + 0x1_0000_0000
    }
}

/// The number that big-endian bytes stand for.
pub open spec fn big_endian(bytes: Seq<u8>) -> int
    decreases bytes.len(),
{
    if bytes.len() == 0 {
        0
    } else {
        256 * big_endian(bytes.drop_last()) + bytes.last()
    }
}

/// The low `n` bytes of a sample, the most significant first.
pub open spec fn sample_bytes(v: int, n: int) -> Seq<u8> {
    if n == 2 {
        seq![((unsigned_bits(v) / 256) % 256) as u8, (unsigned_bits(v) % 256) as u8]
    } else {
        seq![
            ((unsigned_bits(v) / 65_536) % 256) as u8,
            ((unsigned_bits(v) / 256) % 256) as u8,
            (unsigned_bits(v) % 256) as u8,
        ]
    }
}

/// A signed 16-bit sample, the most significant byte first.
pub fn s16be(v: i16) -> (bytes: Vec<u8>)
    ensures
        bytes@.len() == 2,
        big_endian(bytes@) == if v >= 0 {
            v as int
        } else {
            v + 65_536
        },
        bytes@ == seq![
            ((unsigned_bits(v as int) / 256) % 256) as u8,
            (unsigned_bits(v as int) % 256) as u8,
        ],
        bytes@ == sample_bytes(v as int, 2),
{
    let bits: u64 = if v >= 0 {
        v as u64
    } else {
        (v as i64 + 0x1_0000_0000) as u64
    };
    let mut bytes: Vec<u8> = Vec::new();
    bytes.push(((bits / 256) % 256) as u8);
    bytes.push((bits % 256) as u8);
    assert(bytes@ =~= seq![
        ((unsigned_bits(v as int) / 256) % 256) as u8,
        (unsigned_bits(v as int) % 256) as u8,
    ]);
    proof {
        reveal_with_fuel(big_endian, 3);
        assert(bytes@.drop_last().drop_last() =~= Seq::empty());
    }
    bytes
}

/// The low 24 bits of a signed sample, the most significant byte first.
pub fn s24be(v: i32) -> (bytes: Vec<u8>)
    ensures
        bytes@.len() == 3,
        0 <= v <= 8_388_607 ==> big_endian(bytes@) == v,
        -8_388_608 <= v < 0 ==> big_endian(bytes@) == v + 16_777_216,
        bytes@ == seq![
            ((unsigned_bits(v as int) / 65_536) % 256) as u8,
            ((unsigned_bits(v as int) / 256) % 256) as u8,
            (unsigned_bits(v as int) % 256) as u8,
        ],
        bytes@ == sample_bytes(v as int, 3),
{
    let bits: u64 = if v >= 0 {
        v as u64
    } else {
        (v as i64 + 0x1_0000_0000) as u64
    };
    let mut bytes: Vec<u8> = Vec::new();
    bytes.push(((bits / 65_536) % 256) as u8);
    bytes.push(((bits / 256) % 256) as u8);
    bytes.push((bits % 256) as u8);
    assert(bytes@ =~= seq![
        ((unsigned_bits(v as int) / 65_536) % 256) as u8,
        ((unsigned_bits(v as int) / 256) % 256) as u8,
        (unsigned_bits(v as int) % 256) as u8,
    ]);
    proof {
        reveal_with_fuel(big_endian, 4);
        assert(bytes@.drop_last().drop_last().drop_last() =~= Seq::empty());
    }
    bytes
}

/// Reading a big-endian 24-bit sample back gives the sample.
pub proof fn s24be_round_trip(v: int)
    requires
        -8_388_608 <= v <= 8_388_607,
    ensures
        ({
            let u = unsigned_bits(v);
            let read = ((u / 65_536) % 256) * 65_536 + ((u / 256) % 256) * 256 + u % 256;
            v == if read >= 8_388_608 {
                read - 16_777_216
            } else {
                read
            }
        }),
{
}

/// The bytes, `n` times over.
pub open spec fn repeated(bytes: Seq<u8>, n: nat) -> Seq<u8>
    decreases n,
{
    if n == 0 {
        Seq::empty()
    } else {
        repeated(bytes, (n - 1) as nat) + bytes
    }
}

/// The samples in order, each once per channel.
pub open spec fn interleaved(samples: Seq<Seq<u8>>, channels: nat) -> Seq<u8>
    decreases samples.len(),
{
    if samples.len() == 0 {
        Seq::empty()
    } else {
        interleaved(samples.drop_last(), channels) + repeated(samples.last(), channels)
    }
}

/// The layout of a buffer can be cut between any two samples: what comes before and what
/// comes after are laid out as they would be in buffers of their own.
pub proof fn layout_splits_between_samples(a: Seq<Seq<u8>>, b: Seq<Seq<u8>>, channels: nat)
    ensures
        interleaved(a + b, channels) == interleaved(a, channels) + interleaved(b, channels),
    decreases b.len(),
{
    if b.len() == 0 {
        assert(a + b =~= a);
        assert(interleaved(a, channels) + interleaved(b, channels) =~= interleaved(a, channels));
    } else {
        let front = b.drop_last();
        layout_splits_between_samples(a, front, channels);
        assert((a + b).drop_last() =~= a + front);
        assert((a + b).last() == b.last());
        assert(interleaved(a + b, channels) =~= interleaved(a, channels) + interleaved(
            b,
            channels,
        ));
    }
}

/// Every channel of a frame holds the same sample: byte `i` of channel `c` of frame `j` is byte
/// `i` of sample `j`, where samples are `width` bytes each.
pub proof fn channels_hold_the_same_sample(
    samples: Seq<Seq<u8>>,
    channels: nat,
    width: nat,
    j: int,
    c: int,
    i: int,
)
    requires
        forall|k: int| 0 <= k < samples.len() ==> (#[trigger] samples[k]).len() == width,
        0 <= j < samples.len(),
        0 <= c < channels,
        0 <= i < width,
    ensures
        interleaved(samples, channels).len() == samples.len() * (channels * width),
        0 <= j * (channels * width) + c * width + i < interleaved(samples, channels).len(),
        interleaved(samples, channels)[j * (channels * width) + c * width + i] == samples[j][i],
    decreases samples.len(),
{
    let front = samples.drop_last();
    let frame = (channels * width) as int;
    repeated_bytes(samples.last(), channels, c, i);
    layout_length(front, channels, width);
    layout_length(samples, channels, width);
    assert(c * width + i < frame) by (nonlinear_arith)
        requires
            0 <= c < channels,
            0 <= i < width,
            frame == channels * width,
    ;
    assert(0 <= c * width) by (nonlinear_arith)
        requires
            0 <= c,
            0 <= width,
    ;
    assert((j + 1) * frame <= samples.len() * frame && j * frame >= 0) by (nonlinear_arith)
        requires
            0 <= j < samples.len(),
            frame >= 0,
    ;
    assert((j + 1) * frame == j * frame + frame) by (nonlinear_arith);
    if j < samples.len() - 1 {
        channels_hold_the_same_sample(front, channels, width, j, c, i);
    }
}

proof fn repeated_bytes(bytes: Seq<u8>, n: nat, c: int, i: int)
    requires
        0 <= c < n,
        0 <= i < bytes.len(),
    ensures
        repeated(bytes, n).len() == n * bytes.len(),
        0 <= c * bytes.len() + i < repeated(bytes, n).len(),
        repeated(bytes, n)[c * bytes.len() + i] == bytes[i],
    decreases n,
{
    let w = bytes.len() as int;
    repeated_length(bytes, n);
    repeated_length(bytes, (n - 1) as nat);
    assert((c + 1) * w <= n * w && c * w >= 0 && (c + 1) * w == c * w + w) by (nonlinear_arith)
        requires
            0 <= c < n,
            w >= 0,
    ;
    if c < n - 1 {
        repeated_bytes(bytes, (n - 1) as nat, c, i);
    }
}

proof fn repeated_length(bytes: Seq<u8>, n: nat)
    ensures
        repeated(bytes, n).len() == n * bytes.len(),
    decreases n,
{
    let w = bytes.len() as int;
    if n > 0 {
        repeated_length(bytes, (n - 1) as nat);
        assert((n - 1) * w + w == n * w) by (nonlinear_arith);
    } else {
        assert(0 * w == 0);
    }
}

proof fn layout_length(samples: Seq<Seq<u8>>, channels: nat, width: nat)
    requires
        forall|k: int| 0 <= k < samples.len() ==> (#[trigger] samples[k]).len() == width,
    ensures
        interleaved(samples, channels).len() == samples.len() * (channels * width),
    decreases samples.len(),
{
    if samples.len() > 0 {
        layout_length(samples.drop_last(), channels, width);
        repeated_length(samples.last(), channels);
        let frame = (channels * width) as int;
        assert((samples.len() - 1) * frame + frame == samples.len() * frame) by (nonlinear_arith);
    }
}

/// Lay out encoded samples for a buffer: every channel of a frame carries the same sample.
pub fn fill(samples: &[Vec<u8>], channels: u32) -> (data: Vec<u8>)
    ensures
        data@ == interleaved(samples.deep_view(), channels as nat),
{
    let ghost all = samples.deep_view();
    let mut data: Vec<u8> = Vec::new();
    let mut i: usize = 0;
    assert(all.take(0) =~= Seq::empty());
    while i < samples.len()
        invariant
            i <= samples@.len(),
            all == samples.deep_view(),
            data@ == interleaved(all.take(i as int), channels as nat),
        decreases samples@.len() - i,
    {
        let sample = &samples[i];
        proof {
            assert(all.take(i as int + 1).drop_last() =~= all.take(i as int));
            assert(all.take(i as int + 1).last() =~= sample@);
        }
        let ghost before = data@;
        let mut c: u32 = 0;
        assert(before + repeated(sample@, 0) =~= before);
        while c < channels
            invariant
                c <= channels,
                data@ == before + repeated(sample@, c as nat),
            decreases channels - c,
        {
            let ghost so_far = data@;
            let mut b: usize = 0;
            assert(so_far + sample@.take(0) =~= so_far);
            while b < sample.len()
                invariant
                    b <= sample@.len(),
                    data@ == so_far + sample@.take(b as int),
                decreases sample@.len() - b,
            {
                data.push(sample[b]);
                assert(data@ =~= so_far + sample@.take(b as int + 1));
                b = b + 1;
            }
            assert(sample@.take(sample@.len() as int) =~= sample@);
            assert(so_far + sample@ =~= before + (repeated(sample@, c as nat) + sample@));
            c = c + 1;
        }
        i = i + 1;
    }
    assert(all.take(all.len() as int) =~= all);
    data
}

// ---- buffers ----------------------------------------------------------------

/// What the source remembers from buffer to buffer: how many samples it has emitted.
#[derive(Debug, Clone, Copy, PartialEq, Eq, Structural)]
pub struct AudioState {
    pub sample_offset: u64,
}

impl AudioState {
    /// A buffer of `samples` comes with `r`, and the source is then in `after`.
    pub open spec fn emits(
        self,
        samples: u32,
        rate: u32,
        r: Option<(u64, u64)>,
        after: AudioState,
    ) -> bool {
        let first = self.sample_offset as int;
        let pts = sample_time(first, rate as int);
        let next = sample_time(first + samples, rate as int);
        if next > u64::MAX {
            r is None && after == self
        } else {
            (r matches Some((t, d)) && t == pts && t + d == next) && after.sample_offset == first
                + samples
        }
    }

    /// The time and length of the next buffer, after which the source has moved on. `None`
    /// where the times leave the machine's integers; the source then stays.
    pub fn next_buffer(&mut self, samples: u32, rate: u32) -> (r: Option<(u64, u64)>)
        requires
            rate > 0,
            old(self).sample_offset + samples <= u64::MAX,
        ensures
            ({
                let first = old(self).sample_offset as int;
                let pts = sample_time(first, rate as int);
                let next = sample_time(first + samples, rate as int);
                if next > u64::MAX {
                    r is None && *final(self) == *old(self)
                } else {
                    (r matches Some((t, d)) && t == pts && t + d == next) && final(self).sample_offset == first + samples
                }
            }),
            old(self).emits(samples, rate, r, *final(self)),
    {
        let n: u64 = samples as u64;
        proof {
            let first = self.sample_offset as int;
            assert(SECOND * first == first * SECOND && SECOND * (first + samples) == (first
                + samples) * SECOND);
            scaled_is_monotonic(SECOND as int, first, first + samples, rate as int);
        }
        let pts: u64 = match mul_div_floor(self.sample_offset, SECOND, rate as u64) {
            Some(t) => t,
            None => {
                return None;
            },
        };
        let next: u64 = match mul_div_floor(self.sample_offset + n, SECOND, rate as u64) {
            Some(t) => t,
            None => {
                return None;
            },
        };
        self.sample_offset = self.sample_offset + n;
        Some((pts, next - pts))
    }
}

/// Buffers tile time without drift: every `rate` samples take one second exactly.
pub proof fn sample_times_do_not_drift(k: int, rate: int)
    requires
        k >= 0,
        rate > 0,
    ensures
        sample_time(k * rate, rate) == k * SECOND,
{
    assert((k * rate) * SECOND == rate * (k * SECOND)) by (nonlinear_arith);
    vstd::arithmetic::div_mod::lemma_div_multiples_vanish(k * SECOND, rate);
}

/// The latency of the source: one buffer.
pub fn latency(samples_per_buffer: u32, rate: u32) -> (r: u64)
    requires
        rate > 0,
    ensures
        r == scaled(SECOND as int, samples_per_buffer as int, rate as int),
        r * rate <= 1_000_000_000 * samples_per_buffer < (r + 1) * rate,
{
    proof {
        let n = samples_per_buffer as int;
        scaled_is_the_floor(SECOND as int, n, rate as int);
        assert(0 <= SECOND * n <= 1_000_000_000 * 0xffff_ffff) by (nonlinear_arith)
            requires
                0 <= n <= 0xffff_ffff,
        ;
        vstd::arithmetic::div_mod::lemma_div_is_ordered_by_denominator(SECOND * n, 1, rate as int);
    }
    match mul_div_floor(SECOND, samples_per_buffer as u64, rate as u64) {
        Some(t) => t,
        None => 0,
    }
}

/// Sample time is sample count over sample rate, rounded down to a nanosecond.
pub proof fn sample_time_is_rounded_down(g: int, rate: int)
    requires
        g >= 0,
        rate > 0,
    ensures
        sample_time(g, rate) * rate <= g * 1_000_000_000 < (sample_time(g, rate) + 1) * rate,
{
    scaled_is_the_floor(g, SECOND as int, rate);
}

/// A pip sounds at every moment that is less than half a pip's length from a pip instant after
/// the first, and is silent half-way between two.
pub proof fn pips_are_where_the_instants_are(k: int, away: int, interval: int, duration: int)
    requires
        k >= 1,
        interval > 0,
        2 <= duration <= interval,
        -interval <= 2 * away <= interval,
    ensures
        pip_sounds(k * interval + away, interval, duration) <==> -(duration / 2) < away < duration
            / 2,
{
    let t = k * interval + away;
    assert(k * interval >= interval) by (nonlinear_arith)
        requires
            k >= 1,
            interval > 0,
    ;
    pips_sound_round_instants(t, interval, duration, k);
    nearest_is_near(t, interval);
    let n = (t + interval / 2) / interval;
    if n < k {
        assert(n * interval <= k * interval - interval) by (nonlinear_arith)
            requires
                n <= k - 1,
                interval > 0,
        ;
    } else if n > k {
        assert(n * interval >= k * interval + interval) by (nonlinear_arith)
            requires
                n >= k + 1,
                interval > 0,
        ;
    }
}

/// Buffers follow each other without a gap: each begins where the one before ends, the first at
/// the start, and two buffers take as long as one that holds the samples of both.
pub proof fn buffers_follow_each_other(
    start: AudioState,
    m: u32,
    n: u32,
    rate: u32,
    a: Option<(u64, u64)>,
    middle: AudioState,
    b: Option<(u64, u64)>,
    end: AudioState,
    whole: Option<(u64, u64)>,
    last: AudioState,
)
    requires
        rate > 0,
        m + n <= u32::MAX,
        start.emits(m, rate, a, middle),
        middle.emits(n, rate, b, end),
        start.emits((m + n) as u32, rate, whole, last),
    ensures
        a is Some && b is Some ==> {
            let (t, d) = a->0;
            let (u, e) = b->0;
            &&& u == t + d
            &&& whole == Some((t, (d + e) as u64))
            &&& last == end
            &&& end.sample_offset == start.sample_offset + m + n
        },
        start.sample_offset == 0 ==> (a matches Some((t, d)) ==> t == 0),
        a is None ==> middle == start,
{
    if start.sample_offset == 0 {
        sample_time_is_rounded_down(0, rate as int);
        let t = sample_time(0, rate as int);
        if t >= 1 {
            assert(t * rate >= rate) by (nonlinear_arith)
                requires
                    t >= 1,
                    rate > 0,
            ;
        }
    }
}

/// A sample is read back from its bytes, as a signed number of as many: the first byte is the one
/// that counts most.
pub proof fn samples_are_read_back(v: int)
    ensures
        -32_768 <= v <= 32_767 ==> ({
            let b = sample_bytes(v, 2);
            let n = 256 * b[0] + b[1];
            b.len() == 2 && v == if n < 32_768 {
                n
            } else {
                n - 65_536
            }
        }),
        -8_388_608 <= v <= 8_388_607 ==> ({
            let b = sample_bytes(v, 3);
            let n = 65_536 * b[0] + 256 * b[1] + b[2];
            b.len() == 3 && v == if n < 8_388_608 {
                n
            } else {
                n - 16_777_216
            }
        }),
{
}

} // verus!
