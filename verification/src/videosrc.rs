//! The video test source: a white vertical bar on black that is at screen centre exactly at
//! each pip instant and sweeps across in one interval.
//!
//! The frame index is written into payload byte 0 and into an ancillary packet (DID/SDID in
//! the user space); a second ancillary packet carries a phase-locked CEA-708 CDP caption.
//! Frames are v210 or UYVP.

use crate::ancillary::{add_ancillary_meta, carries, parity_word, AncillaryPacket};
use crate::analyze::{captions_decoded, fresh_parser, low_bytes};
use crate::captions::{
    caption_fits, caption_for, caption_text, captions_are_read_back, cdp_written, next_pip,
    pip_captions_fit, prepared, writer_model, writes, CaptionWriter, CdpFramerate, CC_DID, CC_LINE,
    CC_SDID,
};
use crate::signal::{
    circular_distance, columns_apart, mul_div_floor, scaled, scaled_is_monotonic, ANC_DID, ANC_LINE,
    ANC_OFFSET, ANC_SDID, CHROMA_NEUTRAL, DEFAULT_FRAMERATE_DEN, DEFAULT_FRAMERATE_NUM,
    DEFAULT_HEIGHT, DEFAULT_PIP_INTERVAL, DEFAULT_WIDTH, LUMA_BLACK, LUMA_WHITE, SECOND,
};
use crate::text::same_text;
use vstd::prelude::*;

verus! {

/// The packings that the source emits.
#[derive(Debug, Clone, Copy, PartialEq, Eq, Structural)]
pub enum VideoFormat {
    V210,
    Uyvp,
}

/// The shape of a frame.
#[derive(Debug, Clone, Copy, PartialEq, Eq, Structural)]
pub struct VideoInfo {
    pub format: VideoFormat,
    pub width: u32,
    pub height: u32,
    /// Bytes from one line to the next.
    pub stride: usize,
    /// Bytes of a frame.
    pub size: usize,
    pub fps_numer: u32,
    pub fps_denom: u32,
}

/// Bytes of a line of v210: sixteen for every six pixels.
pub open spec fn v210_line(width: int) -> int {
    16 * ((width + 5) / 6)
}

/// Bytes of a line of UYVP: five for every two pixels.
pub open spec fn uyvp_line(width: int) -> int {
    5 * ((width + 1) / 2)
}

impl VideoInfo {
    pub open spec fn line(&self) -> int {
        match self.format {
            VideoFormat::V210 => v210_line(self.width as int),
            VideoFormat::Uyvp => uyvp_line(self.width as int),
        }
    }

    /// A frame has pixels and a rate, its lines fit in the stride and the frame in its size.
    pub open spec fn wf(&self) -> bool {
        &&& 0 < self.width <= 0x7fff_ffff
        &&& self.height > 0
        &&& self.line() <= self.stride
        &&& self.height * self.stride <= self.size
        &&& self.fps_numer > 0
        &&& self.fps_denom > 0
    }
}

// ---- pixels -----------------------------------------------------------------

/// The luma at a column: white within half the bar's width of its centre, black elsewhere
/// and beyond the edge.
pub open spec fn luma(x: int, width: int, bar_centre: int, bar_width: int) -> int {
    if x < width && columns_apart(x, bar_centre, width) <= bar_width / 2 {
        LUMA_WHITE as int
    } else {
        LUMA_BLACK as int
    }
}

pub fn luma_at(x: u32, width: u32, bar_centre: u32, bar_width: u32) -> (r: u16)
    requires
        bar_centre <= width,
    ensures
        r == luma(x as int, width as int, bar_centre as int, bar_width as int),
{
    if x >= width {
        return LUMA_BLACK;
    }
    if circular_distance(x, bar_centre, width) <= bar_width / 2 {
        LUMA_WHITE
    } else {
        LUMA_BLACK
    }
}

/// Pack three 10-bit components into one little-endian v210 word.
pub fn v210_word(a: u16, b: u16, c: u16) -> (w: u32)
    ensures
        w == (a as u32) | ((b as u32) << 10) | ((c as u32) << 20),
        a < 1024 && b < 1024 && c < 1024 ==> w == a + 1024 * b + 1_048_576 * c,
{
    let x: u32 = a as u32;
    let y: u32 = b as u32;
    let z: u32 = c as u32;
    assert(x < 1024 && y < 1024 && z < 1024 ==> (x | (y << 10) | (z << 20)) == x + 1024 * y
        + 1_048_576 * z) by (bit_vector);
    x | (y << 10) | (z << 20)
}

/// Byte `k` of a number, the least significant first.
pub open spec fn byte_of(n: int, k: int) -> u8 {
    if k == 0 {
        (n % 256) as u8
    } else if k == 1 {
        ((n / 256) % 256) as u8
    } else if k == 2 {
        ((n / 65_536) % 256) as u8
    } else if k == 3 {
        ((n / 16_777_216) % 256) as u8
    } else {
        ((n / 4_294_967_296) % 256) as u8
    }
}

/// Word `w` of a group of six pixels: chroma and luma in the order U Y V, Y U Y, V Y U,
/// Y V Y.
pub open spec fn v210_group_word(l: spec_fn(int) -> int, w: int) -> int {
    let c = CHROMA_NEUTRAL as int;
    if w == 0 {
        c + 1024 * l(0) + 1_048_576 * c
    } else if w == 1 {
        l(1) + 1024 * c + 1_048_576 * l(2)
    } else if w == 2 {
        c + 1024 * l(3) + 1_048_576 * c
    } else {
        l(4) + 1024 * c + 1_048_576 * l(5)
    }
}

/// Byte `o` of a line of v210.
pub open spec fn v210_byte(o: int, width: int, bar_centre: int, bar_width: int) -> u8 {
    let g = o / 16;
    let word = v210_group_word(
        |i: int| luma(6 * g + i, width, bar_centre, bar_width),
        (o % 16) / 4,
    );
    byte_of(word, o % 4)
}

/// Byte `o` of a line of UYVP: four 10-bit components U Y V Y to five bytes, the most
/// significant first.
pub open spec fn uyvp_byte(o: int, width: int, bar_centre: int, bar_width: int) -> u8 {
    let p = o / 5;
    let c = CHROMA_NEUTRAL as int;
    let y0 = luma(2 * p, width, bar_centre, bar_width);
    let y1 = luma(2 * p + 1, width, bar_centre, bar_width);
    byte_of(1_073_741_824 * c + 1_048_576 * y0 + 1024 * c + y1, 4 - o % 5)
}

fn push_le(row: &mut Vec<u8>, w: u32)
    ensures
        final(row)@.len() == old(row)@.len() + 4,
        forall|i: int| 0 <= i < old(row)@.len() ==> final(row)@[i] == old(row)@[i],
        forall|k: int|
            0 <= k < 4 ==> #[trigger] final(row)@[old(row)@.len() + k] == byte_of(w as int, k),
{
    row.push((w % 256) as u8);
    row.push(((w / 256) % 256) as u8);
    row.push(((w / 65_536) % 256) as u8);
    row.push(((w / 16_777_216) % 256) as u8);
}

/// One line of v210.
pub fn v210_row(width: u32, bar_centre: u32, bar_width: u32) -> (row: Vec<u8>)
    requires
        bar_centre <= width,
        width <= 0x7fff_ffff,
    ensures
        row@.len() == v210_line(width as int),
        forall|o: int|
            0 <= o < row@.len() ==> #[trigger] row@[o] == v210_byte(
                o,
                width as int,
                bar_centre as int,
                bar_width as int,
            ),
{
    let mut row: Vec<u8> = Vec::new();
    let groups: u32 = (width + 5) / 6;
    let c: u16 = CHROMA_NEUTRAL;
    let mut g: u32 = 0;
    while g < groups
        invariant
            g <= groups,
            groups == (width + 5) / 6,
            width <= 0x7fff_ffff,
            bar_centre <= width,
            c == CHROMA_NEUTRAL,
            row@.len() == 16 * g,
            forall|o: int|
                0 <= o < row@.len() ==> #[trigger] row@[o] == v210_byte(
                    o,
                    width as int,
                    bar_centre as int,
                    bar_width as int,
                ),
        decreases groups - g,
    {
        let x: u32 = 6 * g;
        let l0: u16 = luma_at(x, width, bar_centre, bar_width);
        let l1: u16 = luma_at(x + 1, width, bar_centre, bar_width);
        let l2: u16 = luma_at(x + 2, width, bar_centre, bar_width);
        let l3: u16 = luma_at(x + 3, width, bar_centre, bar_width);
        let l4: u16 = luma_at(x + 4, width, bar_centre, bar_width);
        let l5: u16 = luma_at(x + 5, width, bar_centre, bar_width);
        let ghost before = row@;
        let w0: u32 = v210_word(c, l0, c);
        let w1: u32 = v210_word(l1, c, l2);
        let w2: u32 = v210_word(c, l3, c);
        let w3: u32 = v210_word(l4, c, l5);
        push_le(&mut row, w0);
        push_le(&mut row, w1);
        push_le(&mut row, w2);
        push_le(&mut row, w3);
        proof {
            let n = before.len() as int;
            let (wi, bc, bw) = (width as int, bar_centre as int, bar_width as int);
            assert forall|o: int| 0 <= o < row@.len() implies #[trigger] row@[o] == v210_byte(
                o,
                wi,
                bc,
                bw,
            ) by {
                if o < n {
                    assert(row@[o] == before[o]);
                } else {
                    let k = o - n;
                    assert(o / 16 == g && o % 16 == k && o % 4 == k % 4);
                    let word = v210_group_word(|i: int| luma(6 * g + i, wi, bc, bw), k / 4);
                    if k < 4 {
                        assert(word == w0);
                        assert(row@[n + k] == byte_of(w0 as int, k));
                    } else if k < 8 {
                        assert(word == w1);
                        assert(row@[(n + 4) + (k - 4)] == byte_of(w1 as int, k - 4));
                    } else if k < 12 {
                        assert(word == w2);
                        assert(row@[(n + 8) + (k - 8)] == byte_of(w2 as int, k - 8));
                    } else {
                        assert(word == w3);
                        assert(row@[(n + 12) + (k - 12)] == byte_of(w3 as int, k - 12));
                    }
                }
            }
        }
        g = g + 1;
    }
    row
}

/// One line of UYVP.
pub fn uyvp_row(width: u32, bar_centre: u32, bar_width: u32) -> (row: Vec<u8>)
    requires
        bar_centre <= width,
        width <= 0x7fff_ffff,
    ensures
        row@.len() == uyvp_line(width as int),
        forall|o: int|
            0 <= o < row@.len() ==> #[trigger] row@[o] == uyvp_byte(
                o,
                width as int,
                bar_centre as int,
                bar_width as int,
            ),
{
    let mut row: Vec<u8> = Vec::new();
    let pairs: u32 = (width + 1) / 2;
    let c: u64 = CHROMA_NEUTRAL as u64;
    let mut p: u32 = 0;
    while p < pairs
        invariant
            p <= pairs,
            pairs == (width + 1) / 2,
            width <= 0x7fff_ffff,
            bar_centre <= width,
            c == CHROMA_NEUTRAL,
            row@.len() == 5 * p,
            forall|o: int|
                0 <= o < row@.len() ==> #[trigger] row@[o] == uyvp_byte(
                    o,
                    width as int,
                    bar_centre as int,
                    bar_width as int,
                ),
        decreases pairs - p,
    {
        let y0: u64 = luma_at(2 * p, width, bar_centre, bar_width) as u64;
        let y1: u64 = luma_at(2 * p + 1, width, bar_centre, bar_width) as u64;
        let val: u64 = 1_073_741_824 * c + 1_048_576 * y0 + 1024 * c + y1;
        let ghost before = row@;
        row.push(((val / 4_294_967_296) % 256) as u8);
        row.push(((val / 16_777_216) % 256) as u8);
        row.push(((val / 65_536) % 256) as u8);
        row.push(((val / 256) % 256) as u8);
        row.push((val % 256) as u8);
        proof {
            let n = before.len() as int;
            let (wi, bc, bw) = (width as int, bar_centre as int, bar_width as int);
            assert forall|o: int| 0 <= o < row@.len() implies #[trigger] row@[o] == uyvp_byte(
                o,
                wi,
                bc,
                bw,
            ) by {
                if o < n {
                    assert(row@[o] == before[o]);
                } else {
                    assert(o / 5 == p && o % 5 == o - n);
                }
            }
        }
        p = p + 1;
    }
    row
}

/// The frame after its lines were written: bytes beyond the pixels of a line stay.
pub open spec fn painted(before: Seq<u8>, row: Seq<u8>, stride: int, lines: int) -> Seq<u8> {
    Seq::new(
        before.len(),
        |i: int|
            if i / stride < lines && i % stride < row.len() {
                row[i % stride]
            } else {
                before[i]
            },
    )
}

/// Write the same line into every line of a frame.
fn paint(data: &mut Vec<u8>, row: &[u8], stride: usize, lines: u32)
    requires
        0 < row@.len() <= stride,
        lines * stride <= old(data)@.len(),
    ensures
        final(data)@ == painted(old(data)@, row@, stride as int, lines as int),
{
    let ghost before = data@;
    let ghost s = stride as int;
    let n: usize = row.len();
    let total: usize = data.len();
    let mut y: u32 = 0;
    let mut base: usize = 0;
    assert(data@ =~= painted(before, row@, s, 0)) by {
        assert forall|i: int| 0 <= i < before.len() implies data@[i] == #[trigger] painted(
            before,
            row@,
            s,
            0,
        )[i] by {
            vstd::arithmetic::div_mod::lemma_div_pos_is_pos(i, s);
        }
    }
    while y < lines
        invariant
            y <= lines,
            base == y * stride,
            s == stride,
            n == row@.len(),
            0 < n <= stride,
            total == before.len(),
            lines * stride <= before.len(),
            data@ == painted(before, row@, s, y as int),
            data@.len() == before.len(),
        decreases lines - y,
    {
        proof {
            assert((y + 1) * stride <= lines * stride) by (nonlinear_arith)
                requires
                    y + 1 <= lines,
                    stride >= 0,
            ;
            assert((y + 1) * stride == y * stride + stride) by (nonlinear_arith);
        }
        let ghost start = data@;
        let mut o: usize = 0;
        while o < n
            invariant
                o <= n,
                n == row@.len(),
                n <= stride,
                s == stride,
                base == y * stride,
                total == before.len(),
                base + stride <= total,
                data@.len() == before.len(),
                start.len() == before.len(),
                forall|i: int|
                    0 <= i < before.len() ==> #[trigger] data@[i] == if base <= i < base + o {
                        row@[i - base]
                    } else {
                        start[i]
                    },
            decreases n - o,
        {
            data[base + o] = row[o];
            o = o + 1;
        }
        proof {
            let after = painted(before, row@, s, y as int + 1);
            assert forall|i: int| 0 <= i < before.len() implies data@[i] == #[trigger] after[i] by {
                vstd::arithmetic::div_mod::lemma_fundamental_div_mod(i, s);
                vstd::arithmetic::mul::lemma_mul_is_commutative(s, i / s);
                let q = i / s;
                let r = i % s;
                assert(start[i] == painted(before, row@, s, y as int)[i]);
                if q == y {
                    assert(i == base + r);
                } else if q < y {
                    assert(q * s + s <= y * s) by (nonlinear_arith)
                        requires
                            q + 1 <= y,
                            s > 0,
                    ;
                    assert(i < base);
                } else {
                    assert(q * s >= y * s + s) by (nonlinear_arith)
                        requires
                            q >= y + 1,
                            s > 0,
                    ;
                    assert(i >= base + s);
                }
            }
            assert(data@ =~= after);
        }
        base = base + stride;
        y = y + 1;
    }
}

/// The line of a frame.
pub open spec fn frame_line(info: VideoInfo, bar_centre: int, bar_width: int) -> Seq<u8> {
    match info.format {
        VideoFormat::V210 => Seq::new(
            v210_line(info.width as int) as nat,
            |o: int| v210_byte(o, info.width as int, bar_centre, bar_width),
        ),
        VideoFormat::Uyvp => Seq::new(
            uyvp_line(info.width as int) as nat,
            |o: int| uyvp_byte(o, info.width as int, bar_centre, bar_width),
        ),
    }
}

/// Fill a v210 frame.
pub fn fill_v210(data: &mut Vec<u8>, info: &VideoInfo, bar_centre: u32, bar_width: u32)
    requires
        info.wf(),
        info.format == VideoFormat::V210,
        bar_centre <= info.width,
        old(data)@.len() == info.size,
    ensures
        final(data)@ == painted(
            old(data)@,
            frame_line(*info, bar_centre as int, bar_width as int),
            info.stride as int,
            info.height as int,
        ),
{
    let row = v210_row(info.width, bar_centre, bar_width);
    assert(row@ =~= frame_line(*info, bar_centre as int, bar_width as int));
    paint(data, row.as_slice(), info.stride, info.height);
}

/// Fill a UYVP frame.
pub fn fill_uyvp(data: &mut Vec<u8>, info: &VideoInfo, bar_centre: u32, bar_width: u32)
    requires
        info.wf(),
        info.format == VideoFormat::Uyvp,
        bar_centre <= info.width,
        old(data)@.len() == info.size,
    ensures
        final(data)@ == painted(
            old(data)@,
            frame_line(*info, bar_centre as int, bar_width as int),
            info.stride as int,
            info.height as int,
        ),
{
    let row = uyvp_row(info.width, bar_centre, bar_width);
    assert(row@ =~= frame_line(*info, bar_centre as int, bar_width as int));
    paint(data, row.as_slice(), info.stride, info.height);
}

// ---- time -------------------------------------------------------------------

/// The time of frame `n`: `n` frames at the frame rate, in nanoseconds, rounded down.
pub open spec fn frame_time(n: int, numer: int, denom: int) -> int {
    scaled(SECOND as int, n * denom, numer)
}

/// The times of the frames up to `n` are within the machine's integers.
pub open spec fn time_fits(n: int, numer: int, denom: int) -> bool {
    n * denom <= u64::MAX && frame_time(n, numer, denom) <= u64::MAX
}

/// Frames tile time: each begins where the last one ends, and none has a negative length.
pub proof fn frame_times_are_ordered(m: int, n: int, numer: int, denom: int)
    requires
        0 <= m <= n,
        numer > 0,
        denom > 0,
    ensures
        0 <= frame_time(m, numer, denom) <= frame_time(n, numer, denom),
{
    assert(0 <= m * denom <= n * denom) by (nonlinear_arith)
        requires
            0 <= m <= n,
            denom > 0,
    ;
    scaled_is_monotonic(SECOND as int, m * denom, n * denom, numer);
}

/// No drift accumulates, at fractional rates either: every `numer` frames take `denom`
/// seconds exactly.
pub proof fn frame_times_do_not_drift(k: int, numer: int, denom: int)
    requires
        k >= 0,
        numer > 0,
        denom > 0,
    ensures
        frame_time(k * numer, numer, denom) == k * denom * SECOND,
{
    assert(SECOND * ((k * numer) * denom) == (k * denom * SECOND) * numer) by (nonlinear_arith);
    vstd::arithmetic::div_mod::lemma_div_multiples_vanish(k * denom * SECOND, numer);
    assert((k * denom * SECOND) * numer == numer * (k * denom * SECOND)) by (nonlinear_arith);
}

/// Where a frame begins and where the next one does.
pub fn frame_times(n: u64, numer: u32, denom: u32) -> (r: (u64, u64))
    requires
        n < u64::MAX,
        numer > 0,
        denom > 0,
        time_fits(n + 1, numer as int, denom as int),
    ensures
        r.0 == frame_time(n as int, numer as int, denom as int),
        r.1 == frame_time(n + 1, numer as int, denom as int),
        r.0 <= r.1,
{
    proof {
        frame_times_are_ordered(n as int, n + 1, numer as int, denom as int);
        assert(0 <= n * denom <= (n + 1) * denom) by (nonlinear_arith)
            requires
                n >= 0,
                denom > 0,
        ;
    }
    let pts: u64 = match mul_div_floor(SECOND, n * denom as u64, numer as u64) {
        Some(t) => t,
        None => 0,
    };
    let next: u64 = match mul_div_floor(SECOND, (n + 1) * denom as u64, numer as u64) {
        Some(t) => t,
        None => 0,
    };
    (pts, next)
}

/// The latency of the source: one frame.
pub fn latency(info: &VideoInfo) -> (r: u64)
    requires
        info.wf(),
    ensures
        r == frame_time(1, info.fps_numer as int, info.fps_denom as int),
        r * info.fps_numer <= 1_000_000_000 * info.fps_denom < (r + 1) * info.fps_numer,
{
    proof {
        let d = info.fps_denom as int;
        frame_time_is_rounded_down(1, info.fps_numer as int, d);
        assert(0 <= SECOND * d <= 1_000_000_000 * 0xffff_ffff) by (nonlinear_arith)
            requires
                0 <= d <= 0xffff_ffff,
        ;
        vstd::arithmetic::div_mod::lemma_div_is_ordered_by_denominator(
            SECOND * d,
            1,
            info.fps_numer as int,
        );
    }
    match mul_div_floor(SECOND, info.fps_denom as u64, info.fps_numer as u64) {
        Some(t) => t,
        None => 0,
    }
}

// ---- frames -----------------------------------------------------------------

/// Settings of the video test source.
#[derive(Debug, Clone, Copy, PartialEq, Eq)]
pub struct Settings {
    /// Nanoseconds between bar-centre crossings.
    pub pip_interval: u64,
    pub width: i32,
    pub height: i32,
    pub framerate: (i32, i32),
    pub is_live: bool,
}

impl Default for Settings {
    fn default() -> (r: Self)
        ensures
            r == (Settings {
                pip_interval: DEFAULT_PIP_INTERVAL,
                width: DEFAULT_WIDTH,
                height: DEFAULT_HEIGHT,
                framerate: (DEFAULT_FRAMERATE_NUM, DEFAULT_FRAMERATE_DEN),
                is_live: false,
            }),
    {
        Settings {
            pip_interval: DEFAULT_PIP_INTERVAL,
            width: DEFAULT_WIDTH,
            height: DEFAULT_HEIGHT,
            framerate: (DEFAULT_FRAMERATE_NUM, DEFAULT_FRAMERATE_DEN),
            is_live: false,
        }
    }
}

/// A property of the video test source.
#[derive(Debug, Clone, Copy, PartialEq, Eq, Structural)]
pub enum VideoProperty {
    PipInterval,
    Width,
    Height,
    Framerate,
    IsLive,
}

/// The value of a property of the video test source.
#[derive(Debug, Clone, Copy, PartialEq, Eq)]
pub enum VideoValue {
    Nanoseconds(u64),
    Int(i32),
    Fraction(i32, i32),
    Boolean(bool),
}

impl VideoProperty {
    pub open spec fn name(self) -> Seq<char> {
        match self {
            VideoProperty::PipInterval => "pip-interval"@,
            VideoProperty::Width => "width"@,
            VideoProperty::Height => "height"@,
            VideoProperty::Framerate => "framerate"@,
            VideoProperty::IsLive => "is-live"@,
        }
    }

    /// The property of the given name.
    pub fn from_name(name: &str) -> (r: Option<VideoProperty>)
        ensures
            match r {
                Some(p) => p.name() == name@,
                None => forall|p: VideoProperty| (#[trigger] p.name()) != name@,
            },
    {
        if same_text(name, "pip-interval") {
            Some(VideoProperty::PipInterval)
        } else if same_text(name, "width") {
            Some(VideoProperty::Width)
        } else if same_text(name, "height") {
            Some(VideoProperty::Height)
        } else if same_text(name, "framerate") {
            Some(VideoProperty::Framerate)
        } else if same_text(name, "is-live") {
            Some(VideoProperty::IsLive)
        } else {
            None
        }
    }

    /// The property takes such a value: an interval is a time, and not zero; sizes are
    /// positive.
    pub open spec fn takes(self, value: VideoValue) -> bool {
        match (self, value) {
            (VideoProperty::PipInterval, VideoValue::Nanoseconds(n)) => 1 <= n < u64::MAX,
            (VideoProperty::Width, VideoValue::Int(n)) => n >= 1,
            (VideoProperty::Height, VideoValue::Int(n)) => n >= 1,
            (VideoProperty::Framerate, VideoValue::Fraction(_, d)) => d > 0,
            (VideoProperty::IsLive, VideoValue::Boolean(_)) => true,
            _ => false,
        }
    }
}

impl Settings {
    pub open spec fn value_of(self, p: VideoProperty) -> VideoValue {
        match p {
            VideoProperty::PipInterval => VideoValue::Nanoseconds(self.pip_interval),
            VideoProperty::Width => VideoValue::Int(self.width),
            VideoProperty::Height => VideoValue::Int(self.height),
            VideoProperty::Framerate => VideoValue::Fraction(self.framerate.0, self.framerate.1),
            VideoProperty::IsLive => VideoValue::Boolean(self.is_live),
        }
    }

    pub fn set_property(&mut self, p: VideoProperty, value: VideoValue)
        requires
            p.takes(value),
        ensures
            final(self).value_of(p) == value,
            forall|q: VideoProperty|
                q != p ==> #[trigger] final(self).value_of(q) == old(self).value_of(q),
    {
        match (p, value) {
            (VideoProperty::PipInterval, VideoValue::Nanoseconds(n)) => {
                self.pip_interval = n;
            },
            (VideoProperty::Width, VideoValue::Int(n)) => {
                self.width = n;
            },
            (VideoProperty::Height, VideoValue::Int(n)) => {
                self.height = n;
            },
            (VideoProperty::Framerate, VideoValue::Fraction(n, d)) => {
                self.framerate = (n, d);
            },
            (VideoProperty::IsLive, VideoValue::Boolean(b)) => {
                self.is_live = b;
            },
            _ => {},
        }
    }

    pub fn property(&self, p: VideoProperty) -> (r: VideoValue)
        ensures
            r == self.value_of(p),
    {
        match p {
            VideoProperty::PipInterval => VideoValue::Nanoseconds(self.pip_interval),
            VideoProperty::Width => VideoValue::Int(self.width),
            VideoProperty::Height => VideoValue::Int(self.height),
            VideoProperty::Framerate => VideoValue::Fraction(self.framerate.0, self.framerate.1),
            VideoProperty::IsLive => VideoValue::Boolean(self.is_live),
        }
    }
}

/// A frame: its time, its pixels and its ancillary packets.
#[derive(Debug)]
pub struct VideoFrame {
    pub pts: u64,
    pub duration: u64,
    pub data: Vec<u8>,
    pub ancillary: Vec<AncillaryPacket>,
}

/// What the source remembers from frame to frame.
pub struct VideoState {
    pub n_frames: u64,
    pub cdp_framerate: Option<CdpFramerate>,
    pub caption_writer: CaptionWriter,
}

/// The caption of frame `n`, where a pip falls in it.
pub open spec fn frame_caption(info: VideoInfo, n: int, pip_interval: int) -> Option<Seq<char>> {
    caption_text(
        frame_time(n, info.fps_numer as int, info.fps_denom as int),
        frame_time(n + 1, info.fps_numer as int, info.fps_denom as int),
        pip_interval,
    )
}

/// One step of the source: a frame, and what the state then is.
pub open spec fn creates(
    before: VideoState,
    info: VideoInfo,
    bar_centre: int,
    bar_width: int,
    pip_interval: int,
    frame: VideoFrame,
    after: VideoState,
) -> bool {
    let n = before.n_frames as int;
    let text = frame_caption(info, n, pip_interval);
    let index = seq![(n % 256) as u8];
    &&& after.n_frames == n + 1
    &&& after.cdp_framerate == before.cdp_framerate
    &&& frame.pts == frame_time(n, info.fps_numer as int, info.fps_denom as int)
    &&& frame.pts + frame.duration == frame_time(
        n + 1,
        info.fps_numer as int,
        info.fps_denom as int,
    )
    &&& frame.data@ == before.pixels(info, bar_centre, bar_width)
    &&& match before.cdp_framerate {
        None => frame.ancillary@.len() == 1 && after.caption_writer == before.caption_writer,
        Some(rate) => {
            let count = (n % 65_536) as u16;
            let ready = prepared(
                writer_model(before.caption_writer.cdp),
                before.caption_writer.dtvcc_seq,
                count,
                text,
            );
            let (cdp, _) = cdp_written(ready, rate.id);
            &&& frame.ancillary@.len() == 2
            &&& carries(frame.ancillary@[1], CC_LINE, ANC_OFFSET, CC_DID, CC_SDID, cdp)
            &&& writes(before.caption_writer, rate.id, count, text, cdp, after.caption_writer)
        },
    }
    &&& carries(frame.ancillary@[0], ANC_LINE, ANC_OFFSET, ANC_DID, ANC_SDID, index)
}

impl VideoState {
    pub open spec fn wf(&self) -> bool {
        &&& self.cdp_framerate matches Some(f) ==> 1 <= f.id <= 8
        &&& self.caption_writer.wf()
    }

    /// The pixels of a frame, with the frame index in the first byte.
    pub open spec fn pixels(&self, info: VideoInfo, bar_centre: int, bar_width: int) -> Seq<u8> {
        painted(
            Seq::new(info.size as nat, |i: int| 0u8),
            frame_line(info, bar_centre, bar_width),
            info.stride as int,
            info.height as int,
        ).update(0, (self.n_frames % 256) as u8)
    }

    /// The next frame. The bar stands at `bar_centre`, as wide as `bar_width`. Every frame
    /// carries its index; at a frame rate that a CDP can name it also carries a CDP, with a
    /// caption if a pip falls in the frame.
    pub fn create(
        &mut self,
        info: &VideoInfo,
        bar_centre: u32,
        bar_width: u32,
        pip_interval: u64,
    ) -> (frame: VideoFrame)
        requires
            old(self).wf(),
            info.wf(),
            bar_centre <= info.width,
            old(self).n_frames < u64::MAX,
            time_fits(old(self).n_frames + 1, info.fps_numer as int, info.fps_denom as int),
            pip_interval > 0,
            next_pip(
                frame_time(
                    old(self).n_frames as int,
                    info.fps_numer as int,
                    info.fps_denom as int,
                ),
                pip_interval as int,
            ) * pip_interval <= u64::MAX,
        ensures
            final(self).wf(),
            creates(
                *old(self),
                *info,
                bar_centre as int,
                bar_width as int,
                pip_interval as int,
                frame,
                *final(self),
            ),
    {
        let n: u64 = self.n_frames;
        let (pts, next_pts): (u64, u64) = frame_times(n, info.fps_numer, info.fps_denom);
        let frame_idx: u8 = (n % 256) as u8;
        let cdp: Option<Vec<u8>> = match self.cdp_framerate {
            Some(rate) => {
                let text = caption_for(pts, next_pts, pip_interval);
                Some(self.caption_writer.next_cdp(rate, (n % 65_536) as u16, text))
            },
            None => None,
        };
        let mut data: Vec<u8> = Vec::new();
        let mut i: usize = 0;
        while i < info.size
            invariant
                i <= info.size,
                data@.len() == i,
                forall|k: int| 0 <= k < i ==> data@[k] == 0,
            decreases info.size - i,
        {
            data.push(0);
            i = i + 1;
        }
        assert(data@ =~= Seq::new(info.size as nat, |i: int| 0u8));
        match info.format {
            VideoFormat::V210 => fill_v210(&mut data, info, bar_centre, bar_width),
            VideoFormat::Uyvp => fill_uyvp(&mut data, info, bar_centre, bar_width),
        }
        proof {
            assert(info.height * info.stride >= 1) by (nonlinear_arith)
                requires
                    info.height >= 1,
                    info.stride >= 1,
            ;
        }
        data[0] = frame_idx;
        let mut ancillary: Vec<AncillaryPacket> = Vec::new();
        let mut index: Vec<u8> = Vec::new();
        index.push(frame_idx);
        assert(index@ =~= seq![(n % 256) as u8]);
        add_ancillary_meta(
            &mut ancillary,
            ANC_LINE,
            ANC_OFFSET,
            ANC_DID,
            ANC_SDID,
            index.as_slice(),
        );
        let ghost first = ancillary@;
        assert(first.last() == first[0]);
        if let Some(bytes) = &cdp {
            add_ancillary_meta(
                &mut ancillary,
                CC_LINE,
                ANC_OFFSET,
                CC_DID,
                CC_SDID,
                bytes.as_slice(),
            );
            assert(ancillary@.drop_last()[0] == ancillary@[0]);
            assert(ancillary@.last() == ancillary@[1]);
        }
        self.n_frames = n + 1;
        VideoFrame { pts, duration: next_pts - pts, data, ancillary }
    }
}

/// What the source stamps is read back: the packets of a frame are valid, and the frame
/// index and the CDP come back from them unchanged.
pub proof fn stamped_frame_is_read_back(
    index_packet: AncillaryPacket,
    cdp_packet: AncillaryPacket,
    index: u8,
    cdp: Seq<u8>,
)
    requires
        cdp.len() < 256,
        carries(index_packet, ANC_LINE, ANC_OFFSET, ANC_DID, ANC_SDID, seq![index]),
        carries(cdp_packet, CC_LINE, ANC_OFFSET, CC_DID, CC_SDID, cdp),
    ensures
        index_packet.consistent(),
        cdp_packet.consistent(),
        crate::analyze::first_bytes(seq![index_packet, cdp_packet], ANC_DID) == seq![index],
        crate::analyze::caption_payloads(seq![index_packet, cdp_packet]) == seq![cdp],
        !crate::analyze::is_caption(index_packet),
        crate::analyze::is_caption(cdp_packet),
        crate::analyze::low_bytes(cdp_packet.data@) == cdp,
{
    crate::ancillary::built_packet_is_valid(
        index_packet,
        ANC_LINE,
        ANC_OFFSET,
        ANC_DID,
        ANC_SDID,
        seq![index],
    );
    crate::ancillary::built_packet_is_valid(
        cdp_packet,
        CC_LINE,
        ANC_OFFSET,
        CC_DID,
        CC_SDID,
        cdp,
    );
    assert forall|w: u16| (w & 0xff) as u8 == #[trigger] (w % 256) as u8 by {
        assert(w & 0xff == w % 256) by (bit_vector);
    }
    let all = seq![index_packet, cdp_packet];
    assert(all.drop_last() =~= seq![index_packet]);
    assert(seq![index_packet].drop_last() =~= Seq::empty());
    reveal_with_fuel(crate::analyze::first_bytes, 3);
    reveal_with_fuel(crate::analyze::caption_payloads, 3);
    assert(index_packet.payload()[0] == index);
    assert(crate::analyze::low_bytes(cdp_packet.data@) =~= cdp_packet.payload());
    assert(crate::analyze::first_bytes(all, ANC_DID) =~= seq![index]);
    assert(crate::analyze::caption_payloads(all) =~= seq![cdp]);
}

/// Every frame says its caption, from the first on: a new parser that is fed with the CDPs of
/// the frames in order reads from each the caption of a pip in that frame, or none where no
/// pip falls in it, at all frame rates but the two highest, at which a caption is longer than
/// one CDP.
pub proof fn frames_say_their_captions(
    states: Seq<VideoState>,
    frames: Seq<VideoFrame>,
    centres: Seq<int>,
    info: VideoInfo,
    bar_width: int,
    pip_interval: int,
)
    requires
        states.len() == frames.len() + 1,
        centres.len() == frames.len(),
        states[0].caption_writer.idle(),
        states[0].cdp_framerate matches Some(rate) && 1 <= rate.id <= 6,
        forall|n: int|
            0 <= n < frames.len() ==> #[trigger] creates(
                states[n],
                info,
                centres[n],
                bar_width,
                pip_interval,
                frames[n],
                states[n + 1],
            ),
    ensures
        captions_decoded(
            fresh_parser(),
            Seq::new(frames.len(), |n: int| low_bytes(frames[n].ancillary@[1].data@)),
        ).0 == Some(
            Seq::new(
                frames.len(),
                |n: int| frame_caption(info, states[0].n_frames + n, pip_interval),
            ),
        ),
{
    let rate = states[0].cdp_framerate->0;
    let writers = Seq::new(states.len(), |n: int| states[n].caption_writer);
    let counts = Seq::new(
        frames.len(),
        |n: int| ((states[0].n_frames + n) % 65_536) as u16,
    );
    let texts = Seq::new(
        frames.len(),
        |n: int| frame_caption(info, states[0].n_frames + n, pip_interval),
    );
    let cdps = Seq::new(frames.len(), |n: int| low_bytes(frames[n].ancillary@[1].data@));
    assert forall|n: int| 0 <= n < texts.len() implies caption_fits(#[trigger] texts[n], rate.id) by {
        let pts = frame_time(states[0].n_frames + n, info.fps_numer as int, info.fps_denom as int);
        pip_captions_fit(next_pip(pts, pip_interval), rate.id);
    }
    assert forall|n: int| 0 <= n < texts.len() implies #[trigger] writes(
        writers[n],
        rate.id,
        counts[n],
        texts[n],
        cdps[n],
        writers[n + 1],
    ) by {
        frames_are_counted(states, frames, centres, info, bar_width, pip_interval, n);
        assert(creates(
            states[n],
            info,
            centres[n],
            bar_width,
            pip_interval,
            frames[n],
            states[n + 1],
        ));
        let ready = prepared(
            writer_model(states[n].caption_writer.cdp),
            states[n].caption_writer.dtvcc_seq,
            counts[n],
            texts[n],
        );
        let (cdp, _) = cdp_written(ready, rate.id);
        payload_is_read_back(frames[n].ancillary@[1], CC_LINE, ANC_OFFSET, CC_DID, CC_SDID, cdp);
    }
    captions_are_read_back(writers, rate.id, counts, texts, cdps);
}

proof fn frames_are_counted(
    states: Seq<VideoState>,
    frames: Seq<VideoFrame>,
    centres: Seq<int>,
    info: VideoInfo,
    bar_width: int,
    pip_interval: int,
    n: int,
)
    requires
        states.len() == frames.len() + 1,
        0 <= n <= frames.len(),
        forall|k: int|
            0 <= k < frames.len() ==> #[trigger] creates(
                states[k],
                info,
                centres[k],
                bar_width,
                pip_interval,
                frames[k],
                states[k + 1],
            ),
    ensures
        states[n].n_frames == states[0].n_frames + n,
        states[n].cdp_framerate == states[0].cdp_framerate,
    decreases n,
{
    if n > 0 {
        frames_are_counted(states, frames, centres, info, bar_width, pip_interval, n - 1);
        assert(creates(
            states[n - 1],
            info,
            centres[n - 1],
            bar_width,
            pip_interval,
            frames[n - 1],
            states[n - 1 + 1],
        ));
    }
}

/// The bytes of a payload come back from the words of its packet.
proof fn payload_is_read_back(
    packet: AncillaryPacket,
    line: u16,
    offset: u16,
    did: u8,
    sdid: u8,
    payload: Seq<u8>,
)
    requires
        payload.len() < 256,
        carries(packet, line, offset, did, sdid, payload),
    ensures
        low_bytes(packet.data@) == payload,
{
    crate::ancillary::built_packet_is_valid(packet, line, offset, did, sdid, payload);
    assert forall|w: u16| (w & 0xff) as u8 == #[trigger] (w % 256) as u8 by {
        assert(w & 0xff == w % 256) by (bit_vector);
    }
    assert(low_bytes(packet.data@) =~= packet.payload());
}

// ---- laws of the picture ----------------------------------------------------

/// Component `i` of a line that begins at byte `base`, read out of v210: three 10-bit
/// components to a little-endian word, the first in the lowest bits.
#[verifier::opaque]
pub open spec fn v210_component(data: Seq<u8>, base: int, i: int) -> int {
    let at = base + 4 * (i / 3);
    let word = data[at] + 256 * data[at + 1] + 65_536 * data[at + 2] + 16_777_216 * data[at + 3];
    if i % 3 == 0 {
        word % 1024
    } else if i % 3 == 1 {
        (word / 1024) % 1024
    } else {
        (word / 1_048_576) % 1024
    }
}

/// Component `i` of a line that begins at byte `base`, read out of UYVP: four 10-bit
/// components to five bytes, the first in the highest bits.
#[verifier::opaque]
pub open spec fn uyvp_component(data: Seq<u8>, base: int, i: int) -> int {
    let at = base + 5 * (i / 4);
    if i % 4 == 0 {
        4 * data[at] + data[at + 1] / 64
    } else if i % 4 == 1 {
        16 * (data[at + 1] % 64) + data[at + 2] / 16
    } else if i % 4 == 2 {
        64 * (data[at + 2] % 16) + data[at + 3] / 4
    } else {
        256 * (data[at + 3] % 4) + data[at + 4]
    }
}

/// Component `i` of line `y` of a frame.
pub open spec fn frame_component(info: VideoInfo, data: Seq<u8>, y: int, i: int) -> int {
    match info.format {
        VideoFormat::V210 => v210_component(data, y * info.stride, i),
        VideoFormat::Uyvp => uyvp_component(data, y * info.stride, i),
    }
}

/// A column is in the bar: it is no further from the bar's centre than half the bar's width,
/// straight or over the edge of the picture.
pub open spec fn in_bar(x: int, width: int, bar_centre: int, bar_width: int) -> bool {
    let h = bar_width / 2;
    ||| -h <= x - bar_centre <= h
    ||| -h <= x + width - bar_centre <= h
    ||| -h <= x - width - bar_centre <= h
}

proof fn luma_follows_the_bar(x: int, width: int, bar_centre: int, bar_width: int)
    requires
        0 <= x < width,
        0 <= bar_centre <= width,
        0 <= bar_width,
    ensures
        luma(x, width, bar_centre, bar_width) == if in_bar(x, width, bar_centre, bar_width) {
            940int
        } else {
            64int
        },
{
}

/// Unpacking a line of UYVP gives its pixels back: chroma is neutral, and the luma of a column
/// is white if the column is in the bar and black if it is not.
pub proof fn uyvp_line_is_unpacked(
    row: Seq<u8>,
    width: int,
    bar_centre: int,
    bar_width: int,
    x: int,
)
    requires
        0 <= x < width,
        0 <= bar_centre <= width,
        0 <= bar_width,
        row.len() == uyvp_line(width),
        forall|o: int|
            0 <= o < row.len() ==> #[trigger] row[o] == uyvp_byte(o, width, bar_centre, bar_width),
    ensures
        uyvp_component(row, 0, 2 * x) == 512,
        uyvp_component(row, 0, 2 * x + 1) == if in_bar(x, width, bar_centre, bar_width) {
            940int
        } else {
            64int
        },
        2 * row.len() >= 5 * width,
        2 * row.len() <= 5 * (width + 1),
{
    let p = x / 2;
    let y0 = luma(2 * p, width, bar_centre, bar_width);
    let y1 = luma(2 * p + 1, width, bar_centre, bar_width);
    luma_follows_the_bar(x, width, bar_centre, bar_width);
    let o = 5 * p;
    assert forall|k: int| 0 <= k < 5 implies #[trigger] row[o + k] == byte_of(
        1_073_741_824 * 512 + 1_048_576 * y0 + 1024 * 512 + y1,
        4 - k,
    ) by {
        assert((o + k) / 5 == p && (o + k) % 5 == k && o + k < row.len());
        assert(row[o + k] == uyvp_byte(o + k, width, bar_centre, bar_width));
    }
    uyvp_group_is_unpacked(row, p, y0, y1, 2 * x);
    uyvp_group_is_unpacked(row, p, y0, y1, 2 * x + 1);
}

/// The components of a pair of pixels, by the bytes of its group.
proof fn uyvp_group_is_unpacked(row: Seq<u8>, p: int, y0: int, y1: int, i: int)
    requires
        0 <= p,
        4 * p <= i < 4 * p + 4,
        0 <= y0 < 1024,
        0 <= y1 < 1024,
        forall|k: int|
            0 <= k < 5 ==> #[trigger] row[5 * p + k] == byte_of(
                1_073_741_824 * 512 + 1_048_576 * y0 + 1024 * 512 + y1,
                4 - k,
            ),
    ensures
        uyvp_component(row, 0, i) == if i % 2 == 0 {
            512
        } else if i % 4 == 1 {
            y0
        } else {
            y1
        },
{
    reveal(uyvp_component);
    let at = 5 * p;
    let (a, b) = (y0 as u64, y1 as u64);
    let n = (1_073_741_824 * 512 + 1_048_576 * y0 + 1024 * 512 + y1) as u64;
    assert(4 * ((n / 4_294_967_296) % 256) + ((n / 16_777_216) % 256) / 64 == 512 && 16 * (((n
        / 16_777_216) % 256) % 64) + ((n / 65_536) % 256) / 16 == a && 64 * (((n / 65_536) % 256)
        % 16) + ((n / 256) % 256) / 4 == 512 && 256 * (((n / 256) % 256) % 4) + n % 256 == b)
        by (bit_vector)
        requires
            n == 549_755_813_888u64 + 1_048_576 * a + 524_288 + b,
            a < 1024,
            b < 1024,
    ;
    assert(row[at + 0] == row[at]);
    assert(row[at + 1] == byte_of(n as int, 3));
    assert(row[at + 2] == byte_of(n as int, 2));
    assert(row[at + 3] == byte_of(n as int, 1));
    assert(row[at + 4] == byte_of(n as int, 0));
    assert(i / 4 == p);
}

/// Unpacking a line of v210 gives its pixels back: chroma is neutral, and the luma of a column
/// is white if the column is in the bar and black if it is not.
pub proof fn v210_line_is_unpacked(
    row: Seq<u8>,
    width: int,
    bar_centre: int,
    bar_width: int,
    x: int,
)
    requires
        0 <= x < width,
        0 <= bar_centre <= width,
        0 <= bar_width,
        row.len() == v210_line(width),
        forall|o: int|
            0 <= o < row.len() ==> #[trigger] row[o] == v210_byte(o, width, bar_centre, bar_width),
    ensures
        v210_component(row, 0, 2 * x) == 512,
        v210_component(row, 0, 2 * x + 1) == if in_bar(x, width, bar_centre, bar_width) {
            940int
        } else {
            64int
        },
        3 * row.len() >= 8 * width,
        3 * row.len() < 8 * (width + 6),
{
    luma_follows_the_bar(x, width, bar_centre, bar_width);
    v210_component_is_packed(row, width, bar_centre, bar_width, 2 * x);
    v210_component_is_packed(row, width, bar_centre, bar_width, 2 * x + 1);
    assert((2 * x + 1) / 2 == x);
}

/// Three 10-bit fields come back from the bytes of their word.
proof fn word_is_unpacked(bytes: Seq<u8>, at: int, a: int, b: int, c: int)
    requires
        0 <= a < 1024,
        0 <= b < 1024,
        0 <= c < 1024,
        bytes[at] == byte_of(a + 1024 * b + 1_048_576 * c, 0),
        bytes[at + 1] == byte_of(a + 1024 * b + 1_048_576 * c, 1),
        bytes[at + 2] == byte_of(a + 1024 * b + 1_048_576 * c, 2),
        bytes[at + 3] == byte_of(a + 1024 * b + 1_048_576 * c, 3),
    ensures
        bytes[at] + 256 * bytes[at + 1] + 65_536 * bytes[at + 2] + 16_777_216 * bytes[at + 3] == a
            + 1024 * b + 1_048_576 * c,
        (a + 1024 * b + 1_048_576 * c) % 1024 == a,
        ((a + 1024 * b + 1_048_576 * c) / 1024) % 1024 == b,
        ((a + 1024 * b + 1_048_576 * c) / 1_048_576) % 1024 == c,
{
    let n = (a + 1024 * b + 1_048_576 * c) as u32;
    let (x, y, z) = (a as u32, b as u32, c as u32);
    assert(n % 256 + 256 * ((n / 256) % 256) + 65_536 * ((n / 65_536) % 256) + 16_777_216 * ((n
        / 16_777_216) % 256) == n) by (bit_vector);
    assert(n % 1024 == x && (n / 1024) % 1024 == y && (n / 1_048_576) % 1024 == z) by (bit_vector)
        requires
            n == x + 1024 * y + 1_048_576 * z,
            x < 1024,
            y < 1024,
            z < 1024,
    ;
}

/// The components of a group of six pixels, by the bytes of its words.
proof fn v210_group_is_unpacked(row: Seq<u8>, g: int, l: Seq<int>, i: int)
    requires
        0 <= g,
        12 * g <= i < 12 * g + 12,
        l.len() == 6,
        forall|k: int| 0 <= k < 6 ==> 0 <= #[trigger] l[k] < 1024,
        forall|w: int, k: int|
            0 <= w < 4 && 0 <= k < 4 ==> #[trigger] row[16 * g + 4 * w + k] == byte_of(
                if w == 0 {
                    512 + 1024 * l[0] + 1_048_576 * 512
                } else if w == 1 {
                    l[1] + 1024 * 512 + 1_048_576 * l[2]
                } else if w == 2 {
                    512 + 1024 * l[3] + 1_048_576 * 512
                } else {
                    l[4] + 1024 * 512 + 1_048_576 * l[5]
                },
                k,
            ),
    ensures
        v210_component(row, 0, i) == if i % 2 == 0 {
            512
        } else {
            l[(i - 12 * g) / 2]
        },
{
    reveal(v210_component);
    let r = i - 12 * g;
    let w = r / 3;
    let o = 4 * (i / 3);
    assert(o == 16 * g + 4 * w && i % 3 == r % 3 && i % 2 == r % 2);
    assert(row[16 * g + 4 * w + 0] == row[o]);
    assert(row[16 * g + 4 * w + 1] == row[o + 1]);
    assert(row[16 * g + 4 * w + 2] == row[o + 2]);
    assert(row[16 * g + 4 * w + 3] == row[o + 3]);
    if w == 0 {
        word_is_unpacked(row, o, 512, l[0], 512);
    } else if w == 1 {
        word_is_unpacked(row, o, l[1], 512, l[2]);
    } else if w == 2 {
        word_is_unpacked(row, o, 512, l[3], 512);
    } else {
        word_is_unpacked(row, o, l[4], 512, l[5]);
    }
}

/// Component `i` of a line of v210 is the chroma or the luma that its place calls for.
proof fn v210_component_is_packed(
    row: Seq<u8>,
    width: int,
    bar_centre: int,
    bar_width: int,
    i: int,
)
    requires
        0 <= i < 2 * width,
        row.len() == v210_line(width),
        forall|o: int|
            0 <= o < row.len() ==> #[trigger] row[o] == v210_byte(o, width, bar_centre, bar_width),
    ensures
        v210_component(row, 0, i) == if i % 2 == 0 {
            512
        } else {
            luma(i / 2, width, bar_centre, bar_width)
        },
{
    let g = i / 12;
    let l = Seq::new(6, |k: int| luma(6 * g + k, width, bar_centre, bar_width));
    assert forall|w: int, k: int|
        0 <= w < 4 && 0 <= k < 4 implies #[trigger] row[16 * g + 4 * w + k] == byte_of(
        if w == 0 {
            512 + 1024 * l[0] + 1_048_576 * 512
        } else if w == 1 {
            l[1] + 1024 * 512 + 1_048_576 * l[2]
        } else if w == 2 {
            512 + 1024 * l[3] + 1_048_576 * 512
        } else {
            l[4] + 1024 * 512 + 1_048_576 * l[5]
        },
        k,
    ) by {
        let o = 16 * g + 4 * w + k;
        assert(o / 16 == g && (o % 16) / 4 == w && o % 4 == k && o < row.len());
        assert(row[o] == v210_byte(o, width, bar_centre, bar_width));
    }
    v210_group_is_unpacked(row, g, l, i);
    assert(6 * g + (i - 12 * g) / 2 == i / 2);
}

/// Both packings of a picture hold the same components in every column.
pub proof fn packings_agree(
    v210: Seq<u8>,
    uyvp: Seq<u8>,
    width: int,
    bar_centre: int,
    bar_width: int,
    i: int,
)
    requires
        0 <= i < 2 * width,
        0 <= bar_centre <= width,
        0 <= bar_width,
        v210.len() == v210_line(width),
        forall|o: int|
            0 <= o < v210.len() ==> #[trigger] v210[o] == v210_byte(
                o,
                width,
                bar_centre,
                bar_width,
            ),
        uyvp.len() == uyvp_line(width),
        forall|o: int|
            0 <= o < uyvp.len() ==> #[trigger] uyvp[o] == uyvp_byte(
                o,
                width,
                bar_centre,
                bar_width,
            ),
    ensures
        v210_component(v210, 0, i) == uyvp_component(uyvp, 0, i),
{
    v210_line_is_unpacked(v210, width, bar_centre, bar_width, i / 2);
    uyvp_line_is_unpacked(uyvp, width, bar_centre, bar_width, i / 2);
    assert(i == 2 * (i / 2) || i == 2 * (i / 2) + 1);
}

/// A frame shows the bar on every line, whatever the packing: the luma of a column is white if
/// the column is in the bar and black if it is not. Its first byte is the frame index, which
/// takes no luma away.
pub proof fn frame_shows_the_bar(
    before: VideoState,
    info: VideoInfo,
    bar_centre: int,
    bar_width: int,
    pip_interval: int,
    frame: VideoFrame,
    after: VideoState,
    y: int,
    x: int,
)
    requires
        info.wf(),
        0 <= bar_centre <= info.width,
        0 <= bar_width,
        creates(before, info, bar_centre, bar_width, pip_interval, frame, after),
        0 <= y < info.height,
        0 <= x < info.width,
    ensures
        frame.data@.len() == info.size,
        frame.data@[0] == before.n_frames % 256,
        frame_component(info, frame.data@, y, 2 * x + 1) == if in_bar(
            x,
            info.width as int,
            bar_centre,
            bar_width,
        ) {
            940int
        } else {
            64int
        },
        frame_component(info, frame.data@, y, 2 * x) == 512 || x == 0 && y == 0,
{
    let data = frame.data@;
    let row = frame_line(info, bar_centre, bar_width);
    let (w, stride) = (info.width as int, info.stride as int);
    let base = y * stride;
    assert(0 <= base && base + stride <= info.height * stride) by (nonlinear_arith)
        requires
            base == y * stride,
            0 <= y < info.height,
            stride >= 0,
    ;
    assert forall|o: int| 0 <= o < row.len() && (y != 0 || o != 0) implies #[trigger] data[base + o]
        == row[o] by {
        vstd::arithmetic::div_mod::lemma_fundamental_div_mod_converse(base + o, stride, y, o);
        assert(base + o != 0);
    }
    assert(row.len() == info.line());
    match info.format {
        VideoFormat::V210 => {
            v210_line_is_unpacked(row, w, bar_centre, bar_width, x);
            v210_component_of_line(data, base, row, 2 * x, y == 0);
            v210_component_of_line(data, base, row, 2 * x + 1, y == 0);
        },
        VideoFormat::Uyvp => {
            uyvp_line_is_unpacked(row, w, bar_centre, bar_width, x);
            uyvp_component_of_line(data, base, row, 2 * x, y == 0);
            uyvp_component_of_line(data, base, row, 2 * x + 1, y == 0);
        },
    }
}

/// A component is read from the bytes of its line; what stands in the first byte of the line
/// is no more than a part of its first component.
proof fn v210_component_of_line(data: Seq<u8>, base: int, row: Seq<u8>, i: int, first: bool)
    requires
        0 <= i,
        4 * (i / 3) + 3 < row.len(),
        forall|o: int|
            0 <= o < row.len() && !(first && o == 0) ==> #[trigger] data[base + o] == row[o],
    ensures
        v210_component(data, base, i) == v210_component(row, 0, i) || first && i == 0,
{
    reveal(v210_component);
    let o = 4 * (i / 3);
    assert(data[base + (o + 1)] == row[o + 1]);
    assert(data[base + (o + 2)] == row[o + 2]);
    assert(data[base + (o + 3)] == row[o + 3]);
    if first && o == 0 {
        let rest = 256 * row[1] + 65_536 * row[2] + 16_777_216 * row[3];
        assert((data[base] + rest) / 1024 == (row[0] + rest) / 1024);
        assert((data[base] + rest) / 1_048_576 == (row[0] + rest) / 1_048_576);
    } else {
        assert(data[base + o] == row[o]);
    }
}

/// The same of UYVP.
proof fn uyvp_component_of_line(data: Seq<u8>, base: int, row: Seq<u8>, i: int, first: bool)
    requires
        0 <= i,
        5 * (i / 4) + 4 < row.len(),
        forall|o: int|
            0 <= o < row.len() && !(first && o == 0) ==> #[trigger] data[base + o] == row[o],
    ensures
        uyvp_component(data, base, i) == uyvp_component(row, 0, i) || first && i == 0,
{
    reveal(uyvp_component);
    let o = 5 * (i / 4);
    assert(data[base + (o + 1)] == row[o + 1]);
    assert(data[base + (o + 2)] == row[o + 2]);
    assert(data[base + (o + 3)] == row[o + 3]);
    assert(data[base + (o + 4)] == row[o + 4]);
    if !(first && o == 0) {
        assert(data[base + o] == row[o]);
    }
}

/// A frame begins at the last nanosecond that is not after `n` frame periods, and ends where
/// the next one begins.
pub proof fn frames_are_on_time(
    before: VideoState,
    info: VideoInfo,
    bar_centre: int,
    bar_width: int,
    pip_interval: int,
    frame: VideoFrame,
    after: VideoState,
)
    requires
        info.wf(),
        creates(before, info, bar_centre, bar_width, pip_interval, frame, after),
    ensures
        frame.pts * info.fps_numer <= before.n_frames * info.fps_denom * 1_000_000_000,
        before.n_frames * info.fps_denom * 1_000_000_000 < (frame.pts + 1) * info.fps_numer,
        (frame.pts + frame.duration) * info.fps_numer <= after.n_frames * info.fps_denom
            * 1_000_000_000,
        after.n_frames * info.fps_denom * 1_000_000_000 < (frame.pts + frame.duration + 1)
            * info.fps_numer,
{
    let (numer, denom) = (info.fps_numer as int, info.fps_denom as int);
    frame_time_is_rounded_down(before.n_frames as int, numer, denom);
    frame_time_is_rounded_down(after.n_frames as int, numer, denom);
}

/// Frame time is frame count over frame rate, rounded down to a nanosecond.
pub proof fn frame_time_is_rounded_down(n: int, numer: int, denom: int)
    requires
        n >= 0,
        numer > 0,
        denom > 0,
    ensures
        frame_time(n, numer, denom) * numer <= n * denom * 1_000_000_000,
        n * denom * 1_000_000_000 < (frame_time(n, numer, denom) + 1) * numer,
{
    let a = SECOND * (n * denom);
    let t = frame_time(n, numer, denom);
    assert(a == n * denom * 1_000_000_000) by (nonlinear_arith)
        requires
            a == 1_000_000_000 * (n * denom),
    ;
    vstd::arithmetic::div_mod::lemma_fundamental_div_mod(a, numer);
    vstd::arithmetic::div_mod::lemma_mod_bound(a, numer);
    assert(t * numer <= a && a < (t + 1) * numer) by (nonlinear_arith)
        requires
            a == numer * t + a % numer,
            0 <= a % numer < numer,
    ;
}

/// A frame bears one index, in its first byte and in its first ancillary packet, and the index of
/// the frame after it is the next, back to zero after 255.
pub proof fn frame_and_packet_bear_one_index(
    before: VideoState,
    info: VideoInfo,
    bar_centre: int,
    bar_width: int,
    pip_interval: int,
    frame: VideoFrame,
    after: VideoState,
    next_centre: int,
    next: VideoFrame,
    last: VideoState,
)
    requires
        info.wf(),
        creates(before, info, bar_centre, bar_width, pip_interval, frame, after),
        creates(after, info, next_centre, bar_width, pip_interval, next, last),
    ensures
        frame.ancillary@[0].data@.len() == 1,
        frame.ancillary@[0].data@[0] == parity_word(frame.data@[0]),
        next.ancillary@[0].data@[0] == parity_word(next.data@[0]),
        next.data@[0] == (frame.data@[0] + 1) % 256,
        before.n_frames == 0 ==> frame.data@[0] == 0,
        last.n_frames == before.n_frames + 2,
{
    some_pixels(info);
    let n = before.n_frames as int;
    assert(seq![(n % 256) as u8].map_values(|v: u8| parity_word(v))[0] == parity_word(
        (n % 256) as u8,
    ));
    assert(seq![((n + 1) % 256) as u8].map_values(|v: u8| parity_word(v))[0] == parity_word(
        ((n + 1) % 256) as u8,
    ));
    assert((n + 1) % 256 == (n % 256 + 1) % 256);
}

proof fn some_pixels(info: VideoInfo)
    requires
        info.wf(),
    ensures
        info.size > 0,
{
    assert(info.line() > 0);
    assert(info.height * info.stride > 0) by (nonlinear_arith)
        requires
            info.height > 0,
            info.stride > 0,
    ;
}

/// Every size, rate and interval above zero that a property can name can be set, and nothing else.
pub proof fn sizes_above_zero_are_taken(n: i32, t: u64, d: i32)
    ensures
        VideoProperty::Width.takes(VideoValue::Int(n)) <==> n > 0,
        VideoProperty::Height.takes(VideoValue::Int(n)) <==> n > 0,
        VideoProperty::Framerate.takes(VideoValue::Fraction(n, d)) <==> d > 0,
        VideoProperty::PipInterval.takes(VideoValue::Nanoseconds(t)) <==> 0 < t && t + 1
            <= u64::MAX,
{
}

} // verus!
