//! Recovery-side analysis for the aligned A/V test signal: the video bar, the audio pips,
//! and the phase-locked captions, as a pipeline under test hands them back.

use crate::ancillary::{carries, parity_word_is_well_formed, AncillaryPacket};
use crate::captions::{says, CC_DID, CC_SDID, CC_SERVICE_NO};
use crate::text::string_of;
use vstd::prelude::*;

verus! {

// ---- the bar ----------------------------------------------------------------

/// A pixel of the bar.
pub open spec fn is_bright(v: u8) -> bool {
    v > 128
}

/// The sum of the columns of the bright pixels.
pub open spec fn bright_sum(row: Seq<u8>) -> nat
    decreases row.len(),
{
    if row.len() == 0 {
        0
    } else {
        bright_sum(row.drop_last()) + if is_bright(row.last()) {
            (row.len() - 1) as nat
        } else {
            0
        }
    }
}

/// How many pixels are bright.
pub open spec fn bright_count(row: Seq<u8>) -> nat
    decreases row.len(),
{
    if row.len() == 0 {
        0
    } else {
        bright_count(row.drop_last()) + if is_bright(row.last()) {
            1nat
        } else {
            0
        }
    }
}

/// The first `width` pixels of a row, or all of them where there are fewer.
pub open spec fn visible(row: Seq<u8>, width: int) -> Seq<u8> {
    if width < row.len() {
        row.take(width)
    } else {
        row
    }
}

/// The sum and the count of the bright columns of a row, whose quotient is the centroid of
/// the bar. `None` if the row has no bright pixels.
pub fn bar_centroid(row: &[u8], width: u32) -> (r: Option<(u64, u64)>)
    ensures
        ({
            let pixels = visible(row@, width as int);
            match r {
                Some((sum, count)) => sum == bright_sum(pixels) && count == bright_count(pixels)
                    && count > 0,
                None => bright_count(pixels) == 0,
            }
        }),
{
    let ghost pixels = visible(row@, width as int);
    let n: u32 = if row.len() < width as usize {
        row.len() as u32
    } else {
        width
    };
    let mut sum: u64 = 0;
    let mut count: u64 = 0;
    let mut x: u32 = 0;
    assert(pixels.take(0) =~= Seq::empty());
    while x < n
        invariant
            x <= n,
            n == pixels.len(),
            n <= row@.len(),
            forall|i: int| 0 <= i < n ==> pixels[i] == row@[i],
            sum == bright_sum(pixels.take(x as int)),
            count == bright_count(pixels.take(x as int)),
            sum <= x * 0xffff_ffff,
            count <= x,
        decreases n - x,
    {
        proof {
            assert(pixels.take(x as int + 1).drop_last() =~= pixels.take(x as int));
            assert(pixels.take(x as int + 1).last() == row@[x as int]);
            assert(x * 0xffff_ffff + 0xffff_ffff <= 0xffff_ffff * 0x1_0000_0000) by (nonlinear_arith)
                requires
                    x <= 0xffff_ffff,
            ;
        }
        if row[x as usize] > 128 {
            sum = sum + x as u64;
            count = count + 1;
        }
        x = x + 1;
    }
    assert(pixels.take(pixels.len() as int) =~= pixels);
    if count > 0 {
        Some((sum, count))
    } else {
        None
    }
}

// ---- pips -------------------------------------------------------------------

/// The envelope of the audio is binned, 5 ms to a bin, so that a tone's zero-crossings never
/// split a pip.
pub const BIN_NS: u64 = 5_000_000;

/// The bin of a sample at `t`, counted from the first sample's.
pub fn bin_of(t: u64, t0: u64) -> (bin: u64)
    requires
        t0 <= t,
    ensures
        bin == (t - t0) / BIN_NS as int,
        bin * 5_000_000 <= t - t0 < (bin + 1) * 5_000_000,
{
    (t - t0) / BIN_NS
}

/// The time at the middle of a bin.
pub open spec fn bin_centre(t0: int, bin: int) -> int {
    t0 + bin * BIN_NS + BIN_NS / 2
}

/// Bins `first` to `last` are a run of loud bins with quiet ones, or none, on both sides.
pub open spec fn is_pip(loud: Seq<bool>, first: int, last: int) -> bool {
    &&& 0 <= first <= last < loud.len()
    &&& forall|i: int| first <= i <= last ==> #[trigger] loud[i]
    &&& first > 0 ==> !loud[first - 1]
    &&& last + 1 < loud.len() ==> !loud[last + 1]
}

/// The midpoint of a pip.
pub open spec fn pip_midpoint(t0: int, first: int, last: int) -> int {
    (bin_centre(t0, first) + bin_centre(t0, last)) / 2
}

/// The runs of loud bins in the first `n`, in order, each by its first and last bin.
pub open spec fn runs(loud: Seq<bool>, n: int) -> Seq<(int, int)>
    decreases n,
{
    if n <= 0 || n > loud.len() {
        Seq::empty()
    } else if !loud[n - 1] {
        runs(loud, n - 1)
    } else if n >= 2 && loud[n - 2] {
        let front = runs(loud, n - 1);
        front.update(front.len() - 1, (front.last().0, n - 1))
    } else {
        runs(loud, n - 1).push((n - 1, n - 1))
    }
}

/// The midpoints of runs.
pub open spec fn midpoints(t0: int, all: Seq<(int, int)>) -> Seq<u64> {
    all.map_values(|run: (int, int)| pip_midpoint(t0, run.0, run.1) as u64)
}

proof fn runs_well_formed(loud: Seq<bool>, n: int)
    requires
        0 <= n <= loud.len(),
    ensures
        forall|k: int|
            0 <= k < runs(loud, n).len() ==> 0 <= (#[trigger] runs(loud, n)[k]).0
                <= runs(loud, n)[k].1 < n,
        n > 0 && loud[n - 1] ==> runs(loud, n).len() > 0 && runs(loud, n).last().1 == n - 1,
    decreases n,
{
    if n > 0 {
        runs_well_formed(loud, n - 1);
        let all = runs(loud, n);
        let front = runs(loud, n - 1);
        assert forall|k: int| 0 <= k < all.len() implies 0 <= (#[trigger] all[k]).0 <= all[k].1
            < n by {
            if k < front.len() {
                assert(0 <= front[k].0 <= front[k].1 < n - 1);
            }
        }
    }
}

/// Every run is a pip of the bins so far: all its bins are loud, and those beside it are
/// not.
pub proof fn runs_are_pips(loud: Seq<bool>, k: int)
    requires
        0 <= k < runs(loud, loud.len() as int).len(),
    ensures
        is_pip(
            loud,
            runs(loud, loud.len() as int)[k].0,
            runs(loud, loud.len() as int)[k].1,
        ),
{
    runs_are_pips_upto(loud, loud.len() as int, k);
    let n = loud.len() as int;
    let run = runs(loud, n)[k];
    assert(loud.take(n) =~= loud);
}

proof fn runs_are_pips_upto(loud: Seq<bool>, n: int, k: int)
    requires
        0 <= n <= loud.len(),
        0 <= k < runs(loud, n).len(),
    ensures
        is_pip(loud.take(n), runs(loud, n)[k].0, runs(loud, n)[k].1),
        k < runs(loud, n).len() - 1 ==> runs(loud, n)[k].1 + 1 < n && !loud[runs(loud, n)[k].1 + 1],
    decreases n,
{
    runs_well_formed(loud, n);
    if n > 0 {
        runs_well_formed(loud, n - 1);
        let all = runs(loud, n);
        let front = runs(loud, n - 1);
        let run = all[k];
        if k < front.len() {
            runs_are_pips_upto(loud, n - 1, k);
            let before = front[k];
            assert forall|i: int| before.0 <= i <= before.1 implies #[trigger] loud[i] by {
                assert(loud.take(n - 1)[i] == loud[i]);
            }
            if before.0 > 0 {
                assert(loud.take(n - 1)[before.0 - 1] == loud[before.0 - 1]);
            }
            if before.1 + 1 < n - 1 {
                assert(loud.take(n - 1)[before.1 + 1] == loud[before.1 + 1]);
            }
            assert(loud[before.1]);
            if !loud[n - 1] {
                assert(run == before);
            } else if n >= 2 && loud[n - 2] {
                if k == front.len() - 1 {
                    assert(front.last() == before);
                    assert(before.1 == n - 2);
                    assert(run == (before.0, n - 1));
                } else {
                    assert(run == before);
                }
            } else {
                assert(run == before);
                if before.1 == n - 2 {
                    assert(loud[n - 2]);
                }
            }
        } else {
            assert(run == (n - 1, n - 1));
        }
        assert forall|i: int| run.0 <= i <= run.1 implies #[trigger] loud.take(n)[i] by {
            assert(loud.take(n)[i] == loud[i]);
        }
        if run.0 > 0 {
            assert(loud.take(n)[run.0 - 1] == loud[run.0 - 1]);
        }
        if run.1 + 1 < n {
            assert(loud.take(n)[run.1 + 1] == loud[run.1 + 1]);
        }
    }
}

/// Every bin that belongs to a pip can be added up without leaving the machine's integers.
pub open spec fn times_fit(t0: int, loud: Seq<bool>) -> bool {
    forall|i: int|
        0 <= i < loud.len() && #[trigger] loud[i] ==> 0 <= 2 * bin_centre(t0, i) <= u64::MAX
}

/// Running-time centre of each tone pip, from which of the bins are loud. Contiguous loud
/// bins are grouped; each pip's time is the midpoint of its group, which is unbiased for a
/// symmetric burst.
pub fn detect_pips(t0: u64, loud: &[bool]) -> (pips: Vec<u64>)
    requires
        times_fit(t0 as int, loud@),
    ensures
        pips@ == midpoints(t0 as int, runs(loud@, loud@.len() as int)),
{
    let mut pips: Vec<u64> = Vec::new();
    let n: usize = loud.len();
    let mut i: usize = 0;
    assert(midpoints(t0 as int, Seq::empty()) =~= Seq::empty());
    while i < n
        invariant
            i <= n,
            n == loud@.len(),
            times_fit(t0 as int, loud@),
            i > 0 && i < n ==> !(loud@[i as int] && loud@[i - 1]),
            pips@ == midpoints(t0 as int, runs(loud@, i as int)),
        decreases n - i,
    {
        if loud[i] {
            let first: usize = i;
            let ghost before = runs(loud@, i as int);
            i = i + 1;
            assert(runs(loud@, i as int) =~= before.push((first as int, first as int)));
            while i < n && loud[i]
                invariant
                    first < i <= n,
                    n == loud@.len(),
                    loud@[i - 1],
                    runs(loud@, i as int) == before.push((first as int, i - 1)),
                decreases n - i,
            {
                proof {
                    let front = before.push((first as int, i - 1));
                    assert(front.update(front.len() - 1, (first as int, i as int)) =~= before.push(
                        (first as int, i as int),
                    ));
                }
                i = i + 1;
            }
            proof {
                assert(loud@[i - 1]);
                assert(bin_centre(t0 as int, first as int) <= bin_centre(t0 as int, i - 1));
            }
            let a: u64 = t0 + first as u64 * BIN_NS + BIN_NS / 2;
            let b: u64 = t0 + (i - 1) as u64 * BIN_NS + BIN_NS / 2;
            let ghost old_pips = pips@;
            pips.push((a + b) / 2);
            proof {
                let all = before.push((first as int, i - 1));
                assert(midpoints(t0 as int, all) =~= midpoints(t0 as int, before).push(
                    pip_midpoint(t0 as int, first as int, i - 1) as u64,
                ));
            }
        } else {
            i = i + 1;
        }
    }
    pips
}

proof fn runs_in_order(loud: Seq<bool>, n: int, a: int, b: int)
    requires
        0 <= n <= loud.len(),
        0 <= a < b < runs(loud, n).len(),
    ensures
        runs(loud, n)[a].1 < runs(loud, n)[b].0,
    decreases n,
{
    if n > 0 {
        let front = runs(loud, n - 1);
        runs_well_formed(loud, n - 1);
        if b < front.len() {
            runs_in_order(loud, n - 1, a, b);
        } else {
            assert(runs(loud, n)[b] == (n - 1, n - 1));
            assert(front[a].1 < n - 1);
        }
    }
}

proof fn midpoint_of_run(t0: int, loud: Seq<bool>, k: int)
    requires
        times_fit(t0, loud),
        0 <= k < runs(loud, loud.len() as int).len(),
    ensures
        ({
            let all = runs(loud, loud.len() as int);
            let pip = midpoints(t0, all)[k];
            &&& pip == pip_midpoint(t0, all[k].0, all[k].1)
            &&& bin_centre(t0, all[k].0) <= pip <= bin_centre(t0, all[k].1)
        }),
{
    runs_are_pips(loud, k);
    let run = runs(loud, loud.len() as int)[k];
    assert(loud[run.0] && loud[run.1]);
    assert(bin_centre(t0, run.0) <= bin_centre(t0, run.1));
}

/// Detected pips come in order of time, each later than the one before.
pub proof fn pips_strictly_increase(t0: int, loud: Seq<bool>, a: int, b: int)
    requires
        times_fit(t0, loud),
        0 <= a < b < runs(loud, loud.len() as int).len(),
    ensures
        midpoints(t0, runs(loud, loud.len() as int))[a] < midpoints(
            t0,
            runs(loud, loud.len() as int),
        )[b],
{
    let all = runs(loud, loud.len() as int);
    runs_in_order(loud, loud.len() as int, a, b);
    midpoint_of_run(t0, loud, a);
    midpoint_of_run(t0, loud, b);
    assert(bin_centre(t0, all[a].1) < bin_centre(t0, all[b].0));
}

/// The same sound that starts later by `d` has the same pips, each later by `d`.
pub proof fn pips_shift_with_the_start(t0: int, d: int, loud: Seq<bool>)
    requires
        times_fit(t0, loud),
        times_fit(t0 + d, loud),
    ensures
        ({
            let all = runs(loud, loud.len() as int);
            &&& midpoints(t0 + d, all).len() == midpoints(t0, all).len()
            &&& forall|k: int|
                0 <= k < all.len() ==> #[trigger] midpoints(t0 + d, all)[k] == midpoints(
                    t0,
                    all,
                )[k] + d
        }),
{
    let all = runs(loud, loud.len() as int);
    assert forall|k: int| 0 <= k < all.len() implies #[trigger] midpoints(t0 + d, all)[k]
        == midpoints(t0, all)[k] + d by {
        midpoint_of_run(t0, loud, k);
        midpoint_of_run(t0 + d, loud, k);
        assert(bin_centre(t0 + d, all[k].0) == bin_centre(t0, all[k].0) + d);
        assert(bin_centre(t0 + d, all[k].1) == bin_centre(t0, all[k].1) + d);
    }
}

/// Silence has no pips.
pub proof fn silence_has_no_pips(t0: int, loud: Seq<bool>)
    requires
        forall|i: int| 0 <= i < loud.len() ==> !#[trigger] loud[i],
    ensures
        midpoints(t0, runs(loud, loud.len() as int)).len() == 0,
{
    if runs(loud, loud.len() as int).len() > 0 {
        runs_are_pips(loud, 0);
        assert(loud[runs(loud, loud.len() as int)[0].0]);
    }
}

// ---- ancillary data ---------------------------------------------------------

/// A packet under the given data identifier, by its low eight bits.
pub open spec fn has_did(packet: AncillaryPacket, did: u8) -> bool {
    packet.did % 256 == did
}

/// The first payload byte of every packet with the identifier that has one, in order.
pub open spec fn first_bytes(packets: Seq<AncillaryPacket>, did: u8) -> Seq<u8>
    decreases packets.len(),
{
    if packets.len() == 0 {
        Seq::empty()
    } else {
        let front = first_bytes(packets.drop_last(), did);
        let p = packets.last();
        if has_did(p, did) && p.data@.len() > 0 {
            front.push((p.data@[0] % 256) as u8)
        } else {
            front
        }
    }
}

/// Low byte of the first user-data word of every ancillary packet with DID `did` (matched
/// on its low 8 bits) carried by the frame, in attachment order: the per-frame index that
/// the video test source stamps. Usually one entry per frame.
pub fn ancillary_indices(packets: &[AncillaryPacket], did: u8) -> (indices: Vec<u8>)
    ensures
        indices@ == first_bytes(packets@, did),
{
    let mut indices: Vec<u8> = Vec::new();
    let mut i: usize = 0;
    assert(packets@.take(0) =~= Seq::empty());
    while i < packets.len()
        invariant
            i <= packets@.len(),
            indices@ == first_bytes(packets@.take(i as int), did),
        decreases packets@.len() - i,
    {
        proof {
            assert(packets@.take(i as int + 1).drop_last() =~= packets@.take(i as int));
            assert(packets@.take(i as int + 1).last() == packets@[i as int]);
        }
        let p = &packets[i];
        if p.did % 256 == did as u16 && p.data.len() > 0 {
            indices.push((p.data[0] % 256) as u8);
        }
        i = i + 1;
    }
    assert(packets@.take(packets@.len() as int) =~= packets@);
    indices
}

/// The payload of a packet: the low bytes of its words.
pub open spec fn low_bytes(words: Seq<u16>) -> Seq<u8> {
    words.map_values(|w: u16| (w % 256) as u8)
}

fn payload_bytes(words: &[u16]) -> (bytes: Vec<u8>)
    ensures
        bytes@ == low_bytes(words@),
{
    let mut bytes: Vec<u8> = Vec::new();
    let mut i: usize = 0;
    while i < words.len()
        invariant
            i <= words@.len(),
            bytes@ == low_bytes(words@).take(i as int),
        decreases words@.len() - i,
    {
        bytes.push((words[i] % 256) as u8);
        i = i + 1;
    }
    bytes
}

/// The payloads of the caption packets, in order.
pub open spec fn caption_payloads(packets: Seq<AncillaryPacket>) -> Seq<Seq<u8>>
    decreases packets.len(),
{
    if packets.len() == 0 {
        Seq::empty()
    } else {
        let front = caption_payloads(packets.drop_last());
        if has_did(packets.last(), CC_DID) {
            front.push(low_bytes(packets.last().data@))
        } else {
            front
        }
    }
}

/// Raw CDP bytes of every CEA-708 caption ancillary carried by the frame, in attachment
/// order: a frame that collected two packets exposes both captions. Decode each with
/// [`decode_caption`].
pub fn caption_cdps(packets: &[AncillaryPacket]) -> (cdps: Vec<Vec<u8>>)
    ensures
        cdps.deep_view() == caption_payloads(packets@),
{
    let mut cdps: Vec<Vec<u8>> = Vec::new();
    let mut i: usize = 0;
    assert(packets@.take(0) =~= Seq::empty());
    assert(cdps.deep_view() =~= Seq::empty());
    while i < packets.len()
        invariant
            i <= packets@.len(),
            cdps.deep_view() == caption_payloads(packets@.take(i as int)),
        decreases packets@.len() - i,
    {
        proof {
            assert(packets@.take(i as int + 1).drop_last() =~= packets@.take(i as int));
            assert(packets@.take(i as int + 1).last() == packets@[i as int]);
        }
        if packets[i].did % 256 == CC_DID as u16 {
            let ghost before = cdps.deep_view();
            let bytes = payload_bytes(packets[i].data.as_slice());
            assert(bytes.deep_view() =~= bytes@);
            cdps.push(bytes);
            assert(cdps.deep_view() =~= before.push(bytes@));
        }
        i = i + 1;
    }
    assert(packets@.take(packets@.len() as int) =~= packets@);
    cdps
}

/// The packet carries a CEA-708 CDP: it has the caption DID and SDID.
pub open spec fn is_caption(packet: AncillaryPacket) -> bool {
    has_did(packet, CC_DID) && packet.sdid_block_number % 256 == CC_SDID
}

/// The CEA-708 CDP that the video source attaches (DID [`CC_DID`] / SDID [`CC_SDID`]), as raw
/// bytes recovered from the ancillary packet's 10-bit words: that of the first caption
/// packet. `None` if the frame carries no caption ancillary.
pub fn caption_cdp_bytes(packets: &[AncillaryPacket]) -> (r: Option<Vec<u8>>)
    ensures
        match r {
            Some(bytes) => exists|i: int|
                0 <= i < packets@.len() && #[trigger] is_caption(packets@[i]) && bytes@
                    == low_bytes(packets@[i].data@) && forall|j: int|
                    0 <= j < i ==> !is_caption(#[trigger] packets@[j]),
            None => forall|j: int|
                0 <= j < packets@.len() ==> !is_caption(#[trigger] packets@[j]),
        },
{
    let mut i: usize = 0;
    while i < packets.len()
        invariant
            i <= packets@.len(),
            forall|j: int| 0 <= j < i ==> !is_caption(#[trigger] packets@[j]),
        decreases packets@.len() - i,
    {
        let packet = &packets[i];
        if packet.did % 256 == CC_DID as u16 && packet.sdid_block_number % 256 == CC_SDID as u16 {
            let bytes = payload_bytes(packet.data.as_slice());
            assert(is_caption(packets@[i as int]));
            return Some(bytes);
        }
        i = i + 1;
    }
    None
}

// ---- captions ---------------------------------------------------------------

/// `cdp_types::CDPParser`.
#[verifier::external_type_specification]
#[verifier::external_body]
pub struct ExCDPParser(cdp_types::CDPParser);

/// `cdp_types::ParserError`.
#[verifier::external_type_specification]
#[verifier::external_body]
pub struct ExCdpParserError(cdp_types::ParserError);

/// A service block of a caption packet: its number, and the characters of its codes, where
/// they have any.
pub type ServiceText = (u8, Seq<Option<char>>);

/// What a parser has read of a packet that is not complete yet.
pub struct PartialPacket {
    pub pending: Seq<u8>,
    pub started: bool,
    pub bytes_needed: nat,
}

/// The packets that a `CDPParser` holds, the next to be popped first.
pub uninterp spec fn parsed_packets(p: cdp_types::CDPParser) -> Seq<Seq<ServiceText>>;

/// What a `CDPParser` has read of a packet that is not complete yet.
pub uninterp spec fn partial_packet(p: cdp_types::CDPParser) -> PartialPacket;

/// What `CDPParser::parse` makes of a CDP: the packets that it completes and what is then
/// left, or nothing where it refuses the CDP.
pub uninterp spec fn cdp_parsed(partial: PartialPacket, cdp: Seq<u8>) -> Option<
    (Seq<Seq<ServiceText>>, PartialPacket),
>;

/// What a parser holds: packets that wait to be popped, and what it has read of another.
pub struct ParserState {
    pub packets: Seq<Seq<ServiceText>>,
    pub partial: PartialPacket,
}

pub open spec fn parser_state(p: cdp_types::CDPParser) -> ParserState {
    ParserState { packets: parsed_packets(p), partial: partial_packet(p) }
}

impl ParserState {
    /// No packet is held, nor a part of one.
    pub open spec fn at_rest(self) -> bool {
        self.packets.len() == 0 && self.partial.pending.len() == 0
    }
}

/// What a parser holds that has read nothing.
pub open spec fn fresh_parser() -> ParserState {
    ParserState {
        packets: Seq::empty(),
        partial: PartialPacket { pending: Seq::empty(), started: false, bytes_needed: 0 },
    }
}

/// `CDPParser::new`: a parser that has read nothing.
#[verifier::external_body]
fn new_parser() -> (parser: cdp_types::CDPParser)
    ensures
        parser_state(parser) == fresh_parser(),
{
    cdp_types::CDPParser::new()
}

/// `CDPParser::parse`: the packets that a CDP completes wait behind those that wait already.
/// A CDP that is refused leaves them as they are.
#[verifier::external_body]
fn parse_cdp(parser: &mut cdp_types::CDPParser, cdp: &[u8]) -> (r: Result<
    (),
    cdp_types::ParserError,
>)
    ensures
        match cdp_parsed(partial_packet(*old(parser)), cdp@) {
            Some((added, partial)) => r is Ok && parsed_packets(*final(parser)) == parsed_packets(
                *old(parser),
            ) + added && partial_packet(*final(parser)) == partial,
            None => r is Err && parsed_packets(*final(parser)) == parsed_packets(*old(parser))
                && partial_packet(*final(parser)) == partial_packet(*old(parser)),
        },
{
    parser.parse(cdp)
}

/// The characters of a list of service blocks.
pub open spec fn services_view(services: Seq<(u8, Vec<Option<char>>)>) -> Seq<ServiceText> {
    services.map_values(|s: (u8, Vec<Option<char>>)| (s.0, s.1@))
}

/// `CDPParser::pop_packet`, with the `services` of the packet, the `number` of each and the
/// `char` of each of its `codes`: the packet that has waited longest.
#[verifier::external_body]
fn pop_services(parser: &mut cdp_types::CDPParser) -> (r: Option<Vec<(u8, Vec<Option<char>>)>>)
    ensures
        partial_packet(*final(parser)) == partial_packet(*old(parser)),
        match r {
            Some(services) => parsed_packets(*old(parser)).len() > 0 && services_view(services@)
                == parsed_packets(*old(parser))[0] && parsed_packets(*final(parser))
                == parsed_packets(*old(parser)).skip(1),
            None => parsed_packets(*old(parser)).len() == 0 && parsed_packets(*final(parser))
                == parsed_packets(*old(parser)),
        },
{
    let packet = parser.pop_packet()?;
    let services = packet.services().iter();
    Some(services.map(|s| (s.number(), s.codes().iter().map(|code| code.char()).collect())).collect())
}

/// The characters of the codes that have any.
pub open spec fn spoken(chars: Seq<Option<char>>) -> Seq<char>
    decreases chars.len(),
{
    if chars.len() == 0 {
        Seq::empty()
    } else {
        match chars.last() {
            Some(c) => spoken(chars.drop_last()).push(c),
            None => spoken(chars.drop_last()),
        }
    }
}

/// The text of the caption service in a packet: of all its blocks, one after the other.
pub open spec fn service_text(services: Seq<ServiceText>) -> Seq<char>
    decreases services.len(),
{
    if services.len() == 0 {
        Seq::empty()
    } else {
        let front = service_text(services.drop_last());
        if services.last().0 == CC_SERVICE_NO {
            front + spoken(services.last().1)
        } else {
            front
        }
    }
}

/// The caption text of a packet: that of the caption service, where there is any.
pub fn caption_text(services: &[(u8, Vec<Option<char>>)]) -> (r: Option<String>)
    ensures
        ({
            let text = service_text(services_view(services@));
            match r {
                Some(t) => t@ == text && text.len() > 0,
                None => text.len() == 0,
            }
        }),
{
    let ghost all = services_view(services@);
    let mut text: Vec<char> = Vec::new();
    let mut i: usize = 0;
    assert(all.take(0) =~= Seq::empty());
    while i < services.len()
        invariant
            i <= services@.len(),
            all == services_view(services@),
            text@ == service_text(all.take(i as int)),
        decreases services@.len() - i,
    {
        proof {
            assert(all.take(i as int + 1).drop_last() =~= all.take(i as int));
            assert(all.take(i as int + 1).last() == (
                services@[i as int].0,
                services@[i as int].1@,
            ));
        }
        if services[i].0 == CC_SERVICE_NO {
            let chars = &services[i].1;
            let ghost before = text@;
            let mut k: usize = 0;
            assert(chars@.take(0) =~= Seq::empty());
            assert(before + Seq::<char>::empty() =~= before);
            while k < chars.len()
                invariant
                    k <= chars@.len(),
                    text@ == before + spoken(chars@.take(k as int)),
                decreases chars@.len() - k,
            {
                proof {
                    assert(chars@.take(k as int + 1).drop_last() =~= chars@.take(k as int));
                    assert(chars@.take(k as int + 1).last() == chars@[k as int]);
                }
                let ghost so_far = spoken(chars@.take(k as int));
                if let Some(c) = chars[k] {
                    text.push(c);
                    assert(text@ =~= before + so_far.push(c));
                }
                k = k + 1;
            }
            assert(chars@.take(chars@.len() as int) =~= chars@);
        }
        i = i + 1;
    }
    assert(all.take(all.len() as int) =~= all);
    if text.len() > 0 {
        Some(string_of(text.as_slice()))
    } else {
        None
    }
}

/// What a CDP comes to for a parser: the caption in the packet that has waited longest, where
/// the CDP is not refused, and what the parser then holds.
pub open spec fn caption_decoded(before: ParserState, cdp: Seq<u8>) -> (
    Option<Option<Seq<char>>>,
    ParserState,
) {
    match cdp_parsed(before.partial, cdp) {
        None => (None, before),
        Some((added, partial)) => {
            let packets = before.packets + added;
            if packets.len() == 0 {
                (Some(None), ParserState { packets, partial })
            } else {
                let text = service_text(packets[0]);
                (
                    Some(
                        if text.len() > 0 {
                            Some(text)
                        } else {
                            None
                        },
                    ),
                    ParserState { packets: packets.skip(1), partial },
                )
            }
        },
    }
}

/// The caption text carried by one frame's CDP, or `Ok(None)` for a CDP that carries no
/// caption. `Err` if the CDP fails to parse.
pub fn decode_caption(parser: &mut cdp_types::CDPParser, cdp: &[u8]) -> (r: Result<
    Option<String>,
    cdp_types::ParserError,
>)
    ensures
        ({
            let (said, after) = caption_decoded(parser_state(*old(parser)), cdp@);
            &&& parser_state(*final(parser)) == after
            &&& match r {
                Ok(text) => said == Some(text.deep_view()),
                Err(_) => said is None,
            }
        }),
{
    match parse_cdp(parser, cdp) {
        Err(e) => {
            return Err(e);
        },
        Ok(()) => {},
    }
    match pop_services(parser) {
        None => Ok(None),
        Some(services) => Ok(caption_text(services.as_slice())),
    }
}

/// What a run of CDPs comes to, one after the other: the captions in them, where none is
/// refused, and what the parser then holds.
pub open spec fn captions_decoded(before: ParserState, cdps: Seq<Seq<u8>>) -> (
    Option<Seq<Option<Seq<char>>>>,
    ParserState,
)
    decreases cdps.len(),
{
    if cdps.len() == 0 {
        (Some(Seq::empty()), before)
    } else {
        let (front, held) = captions_decoded(before, cdps.drop_last());
        match front {
            None => (None, held),
            Some(texts) => {
                let (said, after) = caption_decoded(held, cdps.last());
                match said {
                    None => (None, after),
                    Some(text) => (Some(texts.push(text)), after),
                }
            },
        }
    }
}

proof fn refused_run_stays_refused(before: ParserState, cdps: Seq<Seq<u8>>, n: int)
    requires
        0 <= n <= cdps.len(),
        captions_decoded(before, cdps.take(n)).0 is None,
    ensures
        captions_decoded(before, cdps).0 is None,
    decreases cdps.len() - n,
{
    if n < cdps.len() {
        assert(cdps.take(n + 1).drop_last() =~= cdps.take(n));
        refused_run_stays_refused(before, cdps, n + 1);
    } else {
        assert(cdps.take(n) =~= cdps);
    }
}

/// The caption text of every CDP of a run, read by one parser from the first CDP on. `Err` if
/// one of them fails to parse.
pub fn decode_captions(cdps: &[Vec<u8>]) -> (r: Result<
    Vec<Option<String>>,
    cdp_types::ParserError,
>)
    ensures
        match r {
            Ok(texts) => captions_decoded(fresh_parser(), cdps.deep_view()).0 == Some(
                texts.deep_view(),
            ),
            Err(_) => captions_decoded(fresh_parser(), cdps.deep_view()).0 is None,
        },
{
    let ghost all = cdps.deep_view();
    let mut parser = new_parser();
    let mut texts: Vec<Option<String>> = Vec::new();
    let mut i: usize = 0;
    assert(all.take(0) =~= Seq::empty());
    assert(texts.deep_view() =~= Seq::empty());
    while i < cdps.len()
        invariant
            i <= cdps@.len(),
            all == cdps.deep_view(),
            captions_decoded(fresh_parser(), all.take(i as int)) == (
                Some(texts.deep_view()),
                parser_state(parser),
            ),
        decreases cdps@.len() - i,
    {
        proof {
            assert(all.take(i as int + 1).drop_last() =~= all.take(i as int));
            assert(all.take(i as int + 1).last() =~= cdps@[i as int]@);
        }
        match decode_caption(&mut parser, cdps[i].as_slice()) {
            Ok(text) => {
                let ghost before = texts.deep_view();
                let ghost said = text.deep_view();
                texts.push(text);
                assert(texts.deep_view() =~= before.push(said));
            },
            Err(e) => {
                proof {
                    refused_run_stays_refused(fresh_parser(), all, i as int + 1);
                }
                return Err(e);
            },
        }
        i = i + 1;
    }
    assert(all.take(all.len() as int) =~= all);
    Ok(texts)
}

/// A caption is read back from the CDP that says it, and a CDP that says none is read as one
/// without a caption; the parser is then at rest again.
pub proof fn said_caption_is_read(before: ParserState, cdp: Seq<u8>, text: Option<Seq<char>>)
    requires
        before.at_rest(),
        says(cdp, text),
        text matches Some(t) ==> t.len() > 0,
    ensures
        caption_decoded(before, cdp).0 == Some(text),
        caption_decoded(before, cdp).1.at_rest(),
{
    let (added, _) = cdp_parsed(before.partial, cdp)->0;
    assert(before.packets + added =~= added);
}

/// So is every caption of a run: one parser, fed with the CDPs in order, reads of each CDP
/// what it says.
pub proof fn said_captions_are_read(
    before: ParserState,
    cdps: Seq<Seq<u8>>,
    texts: Seq<Option<Seq<char>>>,
)
    requires
        before.at_rest(),
        cdps.len() == texts.len(),
        forall|n: int| 0 <= n < cdps.len() ==> #[trigger] says(cdps[n], texts[n]),
        forall|n: int|
            0 <= n < texts.len() ==> ((#[trigger] texts[n]) matches Some(t) ==> t.len() > 0),
    ensures
        captions_decoded(before, cdps).0 == Some(texts),
        captions_decoded(before, cdps).1.at_rest(),
    decreases cdps.len(),
{
    if cdps.len() > 0 {
        let front = cdps.drop_last();
        let said = texts.drop_last();
        assert forall|n: int| 0 <= n < front.len() implies #[trigger] says(front[n], said[n]) by {
            assert(says(cdps[n], texts[n]));
        }
        assert forall|n: int| 0 <= n < said.len() implies ((#[trigger] said[n]) matches Some(t)
            ==> t.len() > 0) by {
            assert(said[n] == texts[n]);
        }
        said_captions_are_read(before, front, said);
        let last = cdps.len() - 1;
        assert(says(cdps[last], texts[last]));
        said_caption_is_read(captions_decoded(before, front).1, cdps.last(), texts.last());
        assert(said.push(texts.last()) =~= texts);
    } else {
        assert(texts =~= Seq::empty());
    }
}

// ---- what is seen and heard -------------------------------------------------

/// The centroid of a bar is its middle: where the bright pixels of a row are those of columns
/// `a` to `b`, they are counted and their columns add up to the middle column that many times.
pub proof fn bar_centroid_is_its_middle(row: Seq<u8>, a: int, b: int)
    requires
        0 <= a <= b < row.len(),
        forall|x: int| 0 <= x < row.len() ==> (#[trigger] row[x] > 128 <==> a <= x <= b),
    ensures
        bright_count(row) == b - a + 1,
        2 * bright_sum(row) == (a + b) * (b - a + 1),
    decreases row.len(),
{
    bright_columns_add_up(row, a, b, row.len() as int);
    assert(row.take(row.len() as int) =~= row);
    let n = b - a + 1;
    assert((a + b) * n == b * (b + 1) - a * (a - 1)) by (nonlinear_arith)
        requires
            n == b - a + 1,
    ;
}

proof fn bright_columns_add_up(row: Seq<u8>, a: int, b: int, n: int)
    requires
        0 <= a <= b < row.len(),
        0 <= n <= row.len(),
        forall|x: int| 0 <= x < row.len() ==> (#[trigger] row[x] > 128 <==> a <= x <= b),
    ensures
        n <= a ==> bright_count(row.take(n)) == 0 && bright_sum(row.take(n)) == 0,
        a < n <= b + 1 ==> bright_count(row.take(n)) == n - a && 2 * bright_sum(row.take(n)) == (n
            - 1) * n - a * (a - 1),
        b < n ==> bright_count(row.take(n)) == b - a + 1 && 2 * bright_sum(row.take(n)) == b * (b
            + 1) - a * (a - 1),
    decreases n,
{
    if n > 0 {
        bright_columns_add_up(row, a, b, n - 1);
        assert(row.take(n).drop_last() =~= row.take(n - 1));
        assert(row.take(n).last() == row[n - 1]);
        assert((n - 1) * n == (n - 2) * (n - 1) + 2 * (n - 1)) by (nonlinear_arith);
        if n - 1 == a {
            assert((n - 1) * n == a * (a - 1) + 2 * a) by (nonlinear_arith)
                requires
                    n - 1 == a,
            ;
        }
        if n == b + 1 {
            assert((n - 1) * n == b * (b + 1)) by (nonlinear_arith)
                requires
                    n == b + 1,
            ;
        }
    }
}

/// Only the first `width` pixels of a row count.
pub proof fn pixels_beyond_the_width_do_not_count(row: Seq<u8>, other: Seq<u8>, width: int)
    requires
        0 <= width <= row.len(),
        width <= other.len(),
        forall|x: int| 0 <= x < width ==> row[x] == #[trigger] other[x],
    ensures
        visible(row, width) == visible(other, width),
        visible(row, width).len() == width,
{
    assert(visible(row, width) =~= visible(other, width));
}

/// No pip is lost: every loud bin lies in a run.
pub proof fn loud_bins_are_in_runs(loud: Seq<bool>, n: int, i: int)
    requires
        0 <= i < n <= loud.len(),
        loud[i],
    ensures
        exists|k: int|
            0 <= k < runs(loud, n).len() && (#[trigger] runs(loud, n)[k]).0 <= i <= runs(
                loud,
                n,
            )[k].1,
    decreases n,
{
    runs_well_formed(loud, n);
    runs_well_formed(loud, n - 1);
    let all = runs(loud, n);
    let front = runs(loud, n - 1);
    if i < n - 1 {
        loud_bins_are_in_runs(loud, n - 1, i);
        let k = choose|k: int| 0 <= k < front.len() && (#[trigger] front[k]).0 <= i <= front[k].1;
        assert(all[k].0 <= i <= all[k].1);
    } else {
        let k = all.len() - 1;
        assert(all[k].0 <= i <= all[k].1);
    }
}

/// The time of a pip is the middle of its bins: half-way between the start of the first and the
/// end of the last, which lie five milliseconds apart for each bin.
pub proof fn pip_time_is_the_middle(t0: int, loud: Seq<bool>, k: int)
    requires
        times_fit(t0, loud),
        0 <= k < runs(loud, loud.len() as int).len(),
    ensures
        ({
            let (first, last) = runs(loud, loud.len() as int)[k];
            2 * midpoints(t0, runs(loud, loud.len() as int))[k] == (t0 + first * 5_000_000) + (t0
                + (last + 1) * 5_000_000)
        }),
{
    midpoint_of_run(t0, loud, k);
    let (first, last) = runs(loud, loud.len() as int)[k];
    assert(bin_centre(t0, first) == t0 + first * 5_000_000 + 2_500_000);
    assert(bin_centre(t0, last) == t0 + last * 5_000_000 + 2_500_000);
    assert((last + 1) * 5_000_000 == last * 5_000_000 + 5_000_000);
}

/// Frame indices come packet by packet: each packet under the identifier that has data gives the
/// low byte of its first word, every other gives nothing.
pub proof fn indices_come_packet_by_packet(
    packets: Seq<AncillaryPacket>,
    packet: AncillaryPacket,
    did: u8,
)
    ensures
        first_bytes(Seq::empty(), did).len() == 0,
        packet.did % 256 == did && packet.data@.len() > 0 ==> first_bytes(
            packets.push(packet),
            did,
        ) == first_bytes(packets, did).push((packet.data@[0] % 256) as u8),
        packet.did % 256 != did || packet.data@.len() == 0 ==> first_bytes(
            packets.push(packet),
            did,
        ) == first_bytes(packets, did),
{
    assert(packets.push(packet).drop_last() =~= packets);
}

/// Caption packets come one by one too: each gives the low bytes of its words, every other packet
/// nothing.
pub proof fn captions_come_packet_by_packet(packets: Seq<AncillaryPacket>, packet: AncillaryPacket)
    ensures
        caption_payloads(Seq::empty()).len() == 0,
        packet.did % 256 == 0x61 ==> caption_payloads(packets.push(packet)).len()
            == caption_payloads(packets).len() + 1 && caption_payloads(packets.push(packet)).last().len()
            == packet.data@.len() && forall|i: int|
            0 <= i < packet.data@.len() ==> #[trigger] caption_payloads(
                packets.push(packet),
            ).last()[i] == packet.data@[i] % 256,
        packet.did % 256 == 0x61 ==> caption_payloads(packets.push(packet)).drop_last()
            == caption_payloads(packets),
        packet.did % 256 != 0x61 ==> caption_payloads(packets.push(packet)) == caption_payloads(
            packets,
        ),
{
    assert(packets.push(packet).drop_last() =~= packets);
    assert(packet.did % 256 == 0x61 ==> caption_payloads(packets.push(packet)).drop_last()
        =~= caption_payloads(packets));
}

/// A packet is a caption packet where both of its identifiers are those of captions, whatever
/// parity bits stand above them.
pub proof fn captions_are_told_by_both_identifiers(
    packet: AncillaryPacket,
    line: u16,
    offset: u16,
    did: u8,
    sdid: u8,
    payload: Seq<u8>,
)
    requires
        carries(packet, line, offset, did, sdid, payload),
    ensures
        is_caption(packet) <==> did == 0x61 && sdid == 0x01,
        has_did(packet, did),
{
    parity_word_is_well_formed(did);
    parity_word_is_well_formed(sdid);
    low_byte_is_the_rest(packet.did);
    low_byte_is_the_rest(packet.sdid_block_number);
}

proof fn low_byte_is_the_rest(w: u16)
    ensures
        w & 0xff == w % 256,
{
    assert(w & 0xff == w % 256) by (bit_vector);
}

/// What is said in two halves is said one after the other: the characters of a service, and the
/// text of the services of a packet, of which only those of the caption service count.
pub proof fn texts_are_said_in_order(
    a: Seq<Option<char>>,
    b: Seq<Option<char>>,
    x: Seq<ServiceText>,
    y: Seq<ServiceText>,
)
    ensures
        spoken(a + b) == spoken(a) + spoken(b),
        service_text(x + y) == service_text(x) + service_text(y),
    decreases b.len() + y.len(),
{
    if b.len() > 0 {
        texts_are_said_in_order(a, b.drop_last(), x, y);
        assert((a + b).drop_last() =~= a + b.drop_last());
        assert(spoken(a + b) =~= spoken(a) + spoken(b));
    } else {
        assert(a + b =~= a);
        assert(spoken(a + b) =~= spoken(a) + spoken(b));
    }
    if y.len() > 0 {
        texts_are_said_in_order(a, b, x, y.drop_last());
        assert((x + y).drop_last() =~= x + y.drop_last());
        assert(service_text(x + y) =~= service_text(x) + service_text(y));
    } else {
        assert(x + y =~= x);
        assert(service_text(x + y) =~= service_text(x) + service_text(y));
    }
}

/// A service says its characters, and no more where it has none; only the caption service is
/// heard.
pub proof fn caption_service_is_heard(c: char, a: Seq<Option<char>>, number: u8)
    ensures
        spoken(seq![Some(c)]) == seq![c],
        spoken(seq![None]).len() == 0,
        number == CC_SERVICE_NO ==> service_text(seq![(number, a)]) == spoken(a),
        number != CC_SERVICE_NO ==> service_text(seq![(number, a)]).len() == 0,
{
    reveal_with_fuel(spoken, 2);
    reveal_with_fuel(service_text, 2);
    assert(spoken(seq![Some(c)]) =~= seq![c]);
    if number == CC_SERVICE_NO {
        assert(service_text(seq![(number, a)]) =~= spoken(a));
    }
}

} // verus!
