//! Phase-locked CEA-708 captions for the video test source.
//!
//! The frame whose interval contains a pip instant carries a pop-on caption, alternating
//! "TICK" (odd pip) and "TOCK" (even pip); every other frame carries a null CDP. Which
//! frame is the caption frame follows from the frame's time and the pip interval alone, so
//! it stays locked to the pips even at fractional frame rates, with no accumulated drift.
//!
//! Output is a CEA-708 CDP, the payload of an SMPTE 291 ancillary packet (DID 0x61 / SDID
//! 0x01), built with `cdp-types` and `cea708-types`.

use crate::analyze::{
    captions_decoded, cdp_parsed, fresh_parser, said_captions_are_read, service_text, spoken,
    PartialPacket, ServiceText,
};
use crate::text::chars_of;
use cea708_types::tables::{Code, DefineWindowArgs, SetPenLocationArgs};
use vstd::prelude::*;

verus! {

/// SMPTE 334 CEA-708 CDP ancillary identifier (DID 0x61 / SDID 0x01).
pub const CC_DID: u8 = 0x61;

pub const CC_SDID: u8 = 0x01;

/// Ancillary line for the caption packet (distinct from the frame-index line).
pub const CC_LINE: u16 = 10;

/// The single CEA-708 service the captions are written to.
pub const CC_SERVICE_NO: u8 = 1;

/// The anchor point at the bottom left of a window.
pub const ANCHOR_BOTTOM_LEFT: u8 = 6;

// ---- frame rates ------------------------------------------------------------

/// A frame rate that a CDP can name.
#[derive(Debug, Clone, Copy, PartialEq, Eq, Structural)]
pub struct CdpFramerate {
    pub id: u8,
    pub numer: u32,
    pub denom: u32,
}

/// The frame rate with the given identifier. CDP only encodes the eight broadcast rates.
pub open spec fn rate_of_id(id: u8) -> Option<(u32, u32)> {
    if id == 1 {
        Some((24000, 1001))
    } else if id == 2 {
        Some((24, 1))
    } else if id == 3 {
        Some((25, 1))
    } else if id == 4 {
        Some((30000, 1001))
    } else if id == 5 {
        Some((30, 1))
    } else if id == 6 {
        Some((50, 1))
    } else if id == 7 {
        Some((60000, 1001))
    } else if id == 8 {
        Some((60, 1))
    } else {
        None
    }
}

/// `cdp_types::Framerate::from_id`: the rate that an identifier stands for in a CDP, for
/// the identifiers 1 to 8.
#[verifier::external_body]
fn framerate_from_id(id: u8) -> (r: Option<(u32, u32)>)
    ensures
        r == rate_of_id(id),
{
    cdp_types::Framerate::from_id(id).map(|f| (f.numer(), f.denom()))
}

/// The CDP frame rate for a video frame rate, or `None` if it has no CDP identifier.
pub fn cdp_framerate(numer: i32, denom: i32) -> (r: Option<CdpFramerate>)
    ensures
        match r {
            Some(f) => rate_of_id(f.id) == Some((f.numer, f.denom)) && f.numer == numer && f.denom
                == denom,
            None => forall|id: u8|
                #![trigger rate_of_id(id)]
                rate_of_id(id) matches Some((n, d)) ==> !(n == numer && d == denom),
        },
{
    let id: u8 = if numer == 24000 && denom == 1001 {
        1
    } else if numer == 24 && denom == 1 {
        2
    } else if numer == 25 && denom == 1 {
        3
    } else if numer == 30000 && denom == 1001 {
        4
    } else if numer == 30 && denom == 1 {
        5
    } else if numer == 50 && denom == 1 {
        6
    } else if numer == 60000 && denom == 1001 {
        7
    } else if numer == 60 && denom == 1 {
        8
    } else {
        return None;
    };
    match framerate_from_id(id) {
        Some((n, d)) => Some(CdpFramerate { id, numer: n, denom: d }),
        None => None,
    }
}

// ---- which frames carry captions --------------------------------------------

/// The least `k` of at least 1 whose pip instant `k * interval` is not before `pts`.
pub open spec fn next_pip(pts: int, interval: int) -> int {
    if pts == 0 {
        1
    } else {
        (pts + interval - 1) / interval
    }
}

/// The pip instant `k * interval` falls in a frame.
pub open spec fn pip_in_frame(k: int, pts: int, next_pts: int, interval: int) -> bool {
    k >= 1 && pts <= k * interval < next_pts
}

/// The caption of the frame with the given pip: odd pips tick, even pips tock.
pub open spec fn pip_text(k: int) -> Seq<char> {
    if k % 2 == 1 {
        "TICK"@
    } else {
        "TOCK"@
    }
}

/// The caption of a frame: that of the first pip in it.
pub open spec fn caption_text(pts: int, next_pts: int, interval: int) -> Option<Seq<char>> {
    let k = next_pip(pts, interval);
    if pip_in_frame(k, pts, next_pts, interval) {
        Some(pip_text(k))
    } else {
        None
    }
}

proof fn next_pip_is_least(pts: int, interval: int)
    requires
        pts >= 0,
        interval > 0,
    ensures
        next_pip(pts, interval) >= 1,
        next_pip(pts, interval) * interval >= pts,
        next_pip(pts, interval) == 1 || (next_pip(pts, interval) - 1) * interval < pts,
{
    if pts > 0 {
        let k = next_pip(pts, interval);
        vstd::arithmetic::div_mod::lemma_fundamental_div_mod(pts + interval - 1, interval);
        let r = (pts + interval - 1) % interval;
        assert(k * interval == pts + interval - 1 - r) by {
            vstd::arithmetic::mul::lemma_mul_is_commutative(interval, k);
        }
        assert((k - 1) * interval == k * interval - interval) by (nonlinear_arith);
        assert(k > 0) by (nonlinear_arith)
            requires
                k * interval >= pts,
                pts > 0,
                interval > 0,
        ;
    }
}

/// A frame carries a caption exactly if a pip falls in it: that of the first pip there, which
/// in a frame no longer than the interval is the only one.
pub proof fn captions_follow_pips(pts: int, next_pts: int, interval: int, k: int)
    requires
        0 <= pts < next_pts,
        interval > 0,
    ensures
        pip_in_frame(k, pts, next_pts, interval) ==> next_pip(pts, interval) <= k && caption_text(
            pts,
            next_pts,
            interval,
        ) == Some(pip_text(next_pip(pts, interval))),
        pip_in_frame(k, pts, next_pts, interval) && next_pts <= pts + interval ==> caption_text(
            pts,
            next_pts,
            interval,
        ) == Some(pip_text(k)),
        caption_text(pts, next_pts, interval) is Some ==> pip_in_frame(
            next_pip(pts, interval),
            pts,
            next_pts,
            interval,
        ),
{
    next_pip_is_least(pts, interval);
    let n = next_pip(pts, interval);
    if pip_in_frame(k, pts, next_pts, interval) {
        if k < n {
            assert(k * interval <= (n - 1) * interval) by (nonlinear_arith)
                requires
                    k <= n - 1,
                    interval > 0,
            ;
        } else if k > n {
            assert(k * interval >= n * interval + interval) by (nonlinear_arith)
                requires
                    k >= n + 1,
                    interval > 0,
            ;
            assert(n * interval >= pts);
        }
    }
}

/// Every pip instant is captioned once: of the frames that tile time, with `times` their
/// starts, only the one in whose span the instant lies can carry its caption.
pub proof fn pip_lies_in_one_frame(times: Seq<int>, k: int, interval: int, i: int, j: int)
    requires
        forall|a: int, b: int| 0 <= a <= b < times.len() ==> times[a] <= times[b],
        0 <= i < times.len() - 1,
        0 <= j < times.len() - 1,
        pip_in_frame(k, times[i], times[i + 1], interval),
        pip_in_frame(k, times[j], times[j + 1], interval),
    ensures
        i == j,
{
    if i < j {
        assert(times[i + 1] <= times[j]);
    } else if j < i {
        assert(times[j + 1] <= times[i]);
    }
}

/// The caption for the frame spanning `[pts, next_pts)`: `TICK`/`TOCK` if a pip instant
/// `k * P` (`k >= 1`) falls in that span, else `None`.
pub fn caption_for(pts: u64, next_pts: u64, pip_interval: u64) -> (r: Option<&'static str>)
    requires
        pip_interval > 0,
        next_pip(pts as int, pip_interval as int) * pip_interval <= u64::MAX,
    ensures
        r.deep_view() == caption_text(pts as int, next_pts as int, pip_interval as int),
{
    proof {
        next_pip_is_least(pts as int, pip_interval as int);
        let k = next_pip(pts as int, pip_interval as int);
        ceil_by_remainder(pts as int, pip_interval as int);
        assert(k <= k * pip_interval) by (nonlinear_arith)
            requires
                k >= 0,
                pip_interval >= 1,
        ;
    }
    let k: u64 = if pts == 0 {
        1
    } else if pts % pip_interval == 0 {
        pts / pip_interval
    } else {
        pts / pip_interval + 1
    };
    if k * pip_interval < next_pts {
        if k % 2 == 1 {
            Some("TICK")
        } else {
            Some("TOCK")
        }
    } else {
        None
    }
}

proof fn ceil_by_remainder(a: int, b: int)
    requires
        a >= 0,
        b > 0,
    ensures
        next_pip(a, b) == if a == 0 {
            1
        } else if a % b == 0 {
            a / b
        } else {
            a / b + 1
        },
{
    let q = a / b;
    let r = a % b;
    vstd::arithmetic::div_mod::lemma_fundamental_div_mod(a, b);
    vstd::arithmetic::mul::lemma_mul_is_commutative(b, q);
    if r == 0 {
        vstd::arithmetic::div_mod::lemma_fundamental_div_mod_converse(a + b - 1, b, q, b - 1);
    } else {
        assert(a + b - 1 == (q + 1) * b + (r - 1)) by (nonlinear_arith)
            requires
                a == q * b + r,
        ;
        vstd::arithmetic::div_mod::lemma_fundamental_div_mod_converse(
            a + b - 1,
            b,
            q + 1,
            r - 1,
        );
    }
}

// ---- codes ------------------------------------------------------------------

/// The shape of a caption window.
#[derive(Debug, Clone, Copy, PartialEq, Eq, Structural)]
pub struct WindowShape {
    pub window_id: u8,
    pub priority: u8,
    /// Where the window is anchored, as the code numbers it.
    pub anchor_point: u8,
    pub relative_positioning: bool,
    pub anchor_vertical: u8,
    pub anchor_horizontal: u8,
    pub row_count: u8,
    pub column_count: u8,
    pub row_lock: bool,
    pub column_lock: bool,
    pub visible: bool,
    pub window_style_id: u8,
    pub pen_style_id: u8,
}

/// A CEA-708 code of a caption.
#[derive(Debug, Clone, Copy, PartialEq, Eq, Structural)]
pub enum CaptionCode {
    /// Delete the windows whose bits are set.
    DeleteWindows(u8),
    /// Define a window.
    DefineWindow(WindowShape),
    SetPenLocation { row: u8, column: u8 },
    /// A character, by its code point.
    Character(u32),
    EndOfText,
}

/// The length in bytes of the code for the character with a code point, where
/// `Code::from_char` has one.
pub uninterp spec fn char_code_len(code_point: u32) -> Option<usize>;

/// A capital letter of the basic Latin alphabet.
pub open spec fn is_capital(c: char) -> bool {
    'A' <= c && c <= 'Z'
}

/// `cea708_types::tables::Code::from_char`, with the `byte_len` of the code: whether a
/// character has a code, and how long it is, is a function of the character. That of a
/// capital letter has one byte.
#[verifier::external_body]
fn code_for_char(c: char) -> (r: Option<usize>)
    ensures
        r == char_code_len(c as u32),
        is_capital(c) ==> r == Some(1usize),
{
    cea708_types::tables::Code::from_char(c).map(|code| code.byte_len())
}

/// The window of a caption: one visible row at the bottom left.
pub open spec fn caption_window() -> WindowShape {
    WindowShape {
        window_id: 0,
        priority: 0,
        anchor_point: ANCHOR_BOTTOM_LEFT,
        relative_positioning: true,
        anchor_vertical: 100,
        anchor_horizontal: 0,
        row_count: 0,
        column_count: 31,
        row_lock: true,
        column_lock: true,
        visible: true,
        window_style_id: 1,
        pen_style_id: 1,
    }
}

/// The codes of the characters that have one.
pub open spec fn character_codes(text: Seq<char>) -> Seq<CaptionCode>
    decreases text.len(),
{
    if text.len() == 0 {
        Seq::empty()
    } else if char_code_len(text.last() as u32) is Some {
        character_codes(text.drop_last()).push(CaptionCode::Character(text.last() as u32))
    } else {
        character_codes(text.drop_last())
    }
}

/// The codes of a pop-on caption: clear the windows, define and show a one-row window, reset
/// the pen, then the text.
pub open spec fn codes_of(text: Seq<char>) -> Seq<CaptionCode> {
    (seq![
        CaptionCode::DeleteWindows(0xff),
        CaptionCode::DefineWindow(caption_window()),
        CaptionCode::SetPenLocation { row: 0, column: 0 },
    ] + character_codes(text)).push(CaptionCode::EndOfText)
}

/// A number that is a character's.
pub open spec fn is_code_point(n: u32) -> bool {
    n <= 0xd7ff || 0xe000 <= n <= 0x10ffff
}

fn code_point(c: char) -> (n: u32)
    ensures
        n == c as u32,
        is_code_point(n),
{
    c as u32
}

/// The code can be written: a character has one, an anchor point is one of sixteen.
pub open spec fn writable(code: CaptionCode) -> bool {
    match code {
        CaptionCode::Character(n) => is_code_point(n) && char_code_len(n) is Some,
        CaptionCode::DefineWindow(w) => w.anchor_point < 16,
        _ => true,
    }
}

/// Every code in a list can be written.
pub open spec fn encodable(codes: Seq<CaptionCode>) -> bool {
    forall|i: int| 0 <= i < codes.len() ==> writable(#[trigger] codes[i])
}

/// The codes of a pop-on caption.
pub fn caption_codes(text: &str) -> (codes: Vec<CaptionCode>)
    ensures
        codes@ == codes_of(text@),
        encodable(codes@),
        forall|i: int|
            0 <= i < text@.len() && is_capital(#[trigger] text@[i]) ==> char_code_len(
                text@[i] as u32,
            ) == Some(1usize),
{
    let chars = chars_of(text);
    let mut codes: Vec<CaptionCode> = Vec::new();
    codes.push(CaptionCode::DeleteWindows(0xff));
    codes.push(
        CaptionCode::DefineWindow(
            WindowShape {
                window_id: 0,
                priority: 0,
                anchor_point: ANCHOR_BOTTOM_LEFT,
                relative_positioning: true,
                anchor_vertical: 100,
                anchor_horizontal: 0,
                row_count: 0,
                column_count: 31,
                row_lock: true,
                column_lock: true,
                visible: true,
                window_style_id: 1,
                pen_style_id: 1,
            },
        ),
    );
    codes.push(CaptionCode::SetPenLocation { row: 0, column: 0 });
    let ghost head = codes@;
    assert(head =~= seq![
        CaptionCode::DeleteWindows(0xff),
        CaptionCode::DefineWindow(caption_window()),
        CaptionCode::SetPenLocation { row: 0, column: 0 },
    ]);
    let mut i: usize = 0;
    assert(text@.take(0) =~= Seq::empty());
    assert(head + Seq::<CaptionCode>::empty() =~= head);
    while i < chars.len()
        invariant
            i <= chars@.len(),
            chars@ == text@,
            codes@ == head + character_codes(text@.take(i as int)),
            encodable(codes@),
            forall|k: int|
                0 <= k < i && is_capital(#[trigger] text@[k]) ==> char_code_len(text@[k] as u32)
                    == Some(1usize),
        decreases chars@.len() - i,
    {
        let c: char = chars[i];
        proof {
            assert(text@.take(i as int + 1).drop_last() =~= text@.take(i as int));
            assert(text@.take(i as int + 1).last() == c);
        }
        let ghost before = character_codes(text@.take(i as int));
        if code_for_char(c).is_some() {
            let code: CaptionCode = CaptionCode::Character(code_point(c));
            let ghost so_far = codes@;
            codes.push(code);
            assert(codes@ == so_far.push(code));
            assert(before.push(code).len() == before.len() + 1);
            assert(codes@ =~= head + before.push(code));
            assert forall|k: int| 0 <= k < codes@.len() implies writable(#[trigger] codes@[k]) by {
                if k < so_far.len() {
                    assert(codes@[k] == so_far[k]);
                }
            }
        }
        i = i + 1;
    }
    assert(text@.take(text@.len() as int) =~= text@);
    codes.push(CaptionCode::EndOfText);
    codes
}

// ---- packets ----------------------------------------------------------------

/// `cea708_types::Service`.
#[verifier::external_type_specification]
#[verifier::external_body]
pub struct ExService(cea708_types::Service);

/// `cea708_types::DTVCCPacket`.
#[verifier::external_type_specification]
#[verifier::external_body]
pub struct ExDTVCCPacket(cea708_types::DTVCCPacket);

/// `cdp_types::CDPWriter`.
#[verifier::external_type_specification]
#[verifier::external_body]
pub struct ExCDPWriter(cdp_types::CDPWriter);

/// What a caption service block holds.
pub struct ServiceModel {
    pub number: u8,
    pub codes: Seq<CaptionCode>,
}

/// What a caption packet holds.
pub struct PacketModel {
    pub sequence: u8,
    pub services: Seq<ServiceModel>,
}

/// What a CDP writer holds: the packets that no CDP has begun to carry, the bytes of one
/// that a CDP has begun to carry, which field its next CEA-608 padding is for, the counter
/// of the next CDP, and whether that is all: no CEA-608 pairs, no time code and no service
/// information.
pub struct WriterModel {
    pub waiting: Seq<PacketModel>,
    pub unsent: Seq<u8>,
    pub second_field: bool,
    pub sequence_count: u16,
    pub bare: bool,
}

/// Every code in a packet is one that can be written.
pub open spec fn known_packet(p: PacketModel) -> bool {
    forall|i: int| 0 <= i < p.services.len() ==> encodable((#[trigger] p.services[i]).codes)
}

/// Every packet in a list is made of codes that can be written.
pub open spec fn known_packets(packets: Seq<PacketModel>) -> bool {
    forall|i: int| 0 <= i < packets.len() ==> known_packet(#[trigger] packets[i])
}

/// What a `Service` holds; a code of another kind than captions have stands there as one
/// that cannot be written.
pub uninterp spec fn service_model(s: cea708_types::Service) -> ServiceModel;

/// What a `DTVCCPacket` holds.
pub uninterp spec fn packet_model(p: cea708_types::DTVCCPacket) -> PacketModel;

/// What a `CDPWriter` holds.
pub uninterp spec fn writer_model(w: cdp_types::CDPWriter) -> WriterModel;

/// The CDP that `CDPWriter::write` writes at a frame rate, and what the writer then holds.
pub uninterp spec fn cdp_written(w: WriterModel, rate_id: u8) -> (Seq<u8>, WriterModel);

/// The length in bytes of a code.
pub open spec fn code_len(code: CaptionCode) -> nat {
    match code {
        CaptionCode::DeleteWindows(_) => 2,
        CaptionCode::DefineWindow(_) => 7,
        CaptionCode::SetPenLocation { .. } => 3,
        CaptionCode::Character(n) => char_code_len(n)->0 as nat,
        CaptionCode::EndOfText => 1,
    }
}

pub open spec fn codes_len(codes: Seq<CaptionCode>) -> nat
    decreases codes.len(),
{
    if codes.len() == 0 {
        0
    } else {
        codes_len(codes.drop_last()) + code_len(codes.last())
    }
}

/// A service block holds 31 bytes of codes.
pub open spec fn service_with(s: ServiceModel, code: CaptionCode) -> ServiceModel {
    if s.number != 0 && codes_len(s.codes) + code_len(code) <= 31 {
        ServiceModel { codes: s.codes.push(code), ..s }
    } else {
        s
    }
}

/// The service block after the codes were pushed one after the other; those that do not fit
/// are left out.
pub open spec fn service_after(s: ServiceModel, codes: Seq<CaptionCode>) -> ServiceModel
    decreases codes.len(),
{
    if codes.len() == 0 {
        s
    } else {
        service_with(service_after(s, codes.drop_last()), codes.last())
    }
}

/// `Service::new`: an empty service block.
#[verifier::external_body]
fn new_service(number: u8) -> (s: cea708_types::Service)
    requires
        number < 64,
    ensures
        service_model(s) == (ServiceModel { number, codes: Seq::empty() }),
{
    cea708_types::Service::new(number)
}

/// `Service::push_code`: the code is added at the end, unless the block would then hold
/// more than 31 bytes of codes, or is that of the null service.
#[verifier::external_body]
fn push_code(s: &mut cea708_types::Service, code: &CaptionCode)
    requires
        writable(*code),
        encodable(service_model(*old(s)).codes),
    ensures
        service_model(*final(s)) == service_with(service_model(*old(s)), *code),
{
    let code = match *code {
        CaptionCode::DeleteWindows(bits) => Code::DeleteWindows(bits.into()),
        CaptionCode::DefineWindow(w) => Code::DefineWindow(DefineWindowArgs::new(
            w.window_id, w.priority, w.anchor_point.into(), w.relative_positioning,
            w.anchor_vertical, w.anchor_horizontal, w.row_count, w.column_count, w.row_lock,
            w.column_lock, w.visible, w.window_style_id, w.pen_style_id)),
        CaptionCode::SetPenLocation { row, column } => Code::SetPenLocation(SetPenLocationArgs::new(row, column)),
        CaptionCode::Character(n) => char::from_u32(n).and_then(Code::from_char).expect("a character with a code"),
        CaptionCode::EndOfText => Code::ETX,
    };
    let _ = s.push_code(&code);
}

/// The length in bytes of a service block.
pub open spec fn service_len(s: ServiceModel) -> nat {
    if s.number == 0 || s.codes.len() == 0 {
        0
    } else {
        codes_len(s.codes) + if s.number >= 7 {
            2nat
        } else {
            1nat
        }
    }
}

pub open spec fn services_len(services: Seq<ServiceModel>) -> nat
    decreases services.len(),
{
    if services.len() == 0 {
        0
    } else {
        services_len(services.drop_last()) + service_len(services.last())
    }
}

/// The length in bytes of a packet.
pub open spec fn packet_len(p: PacketModel) -> nat {
    if services_len(p.services) > 0 {
        services_len(p.services) + 1
    } else {
        0
    }
}

/// A packet holds 128 bytes, and no empty service block.
pub open spec fn packet_with(p: PacketModel, s: ServiceModel) -> PacketModel {
    if s.codes.len() > 0 && service_len(s) + packet_len(p) <= 128 {
        PacketModel { services: p.services.push(s), ..p }
    } else {
        p
    }
}

/// `DTVCCPacket::new`: a packet without service blocks.
#[verifier::external_body]
fn new_packet(sequence: u8) -> (p: cea708_types::DTVCCPacket)
    requires
        sequence < 4,
    ensures
        packet_model(p) == (PacketModel { sequence, services: Seq::empty() }),
{
    cea708_types::DTVCCPacket::new(sequence)
}

/// `DTVCCPacket::push_service`: the block is added at the end, unless it is empty or the
/// packet would then be longer than 128 bytes.
#[verifier::external_body]
fn push_service(p: &mut cea708_types::DTVCCPacket, s: cea708_types::Service)
    requires
        known_packet(packet_model(*old(p))),
        encodable(service_model(s).codes),
    ensures
        packet_model(*final(p)) == packet_with(packet_model(*old(p)), service_model(s)),
{
    let _ = p.push_service(s);
}

/// `CDPWriter::new`: a writer that holds nothing.
#[verifier::external_body]
fn new_writer() -> (w: cdp_types::CDPWriter)
    ensures
        writer_model(w) == (WriterModel {
            waiting: Seq::empty(),
            unsent: Seq::empty(),
            second_field: false,
            sequence_count: 0,
            bare: true,
        }),
{
    cdp_types::CDPWriter::new()
}

/// `CDPWriter::push_packet`: the packet waits behind those that wait already.
#[verifier::external_body]
fn push_packet(w: &mut cdp_types::CDPWriter, p: cea708_types::DTVCCPacket)
    ensures
        writer_model(*final(w)) == (WriterModel {
            waiting: writer_model(*old(w)).waiting.push(packet_model(p)),
            ..writer_model(*old(w))
        }),
{
    w.push_packet(p)
}

/// `CDPWriter::set_sequence_count` sets the counter of the next CDP.
#[verifier::external_body]
fn set_sequence_count(w: &mut cdp_types::CDPWriter, sequence_count: u16)
    ensures
        writer_model(*final(w)) == (WriterModel { sequence_count, ..writer_model(*old(w)) }),
{
    w.set_sequence_count(sequence_count)
}

/// The sum of bytes.
pub open spec fn byte_sum(bytes: Seq<u8>) -> nat
    decreases bytes.len(),
{
    if bytes.len() == 0 {
        0
    } else {
        byte_sum(bytes.drop_last()) + bytes.last() as nat
    }
}

/// A CDP with a caption data section: its header gives its length, its frame rate and its
/// counter, its footer repeats the counter, and all its bytes add up to a multiple of 256.
pub open spec fn is_cdp(cdp: Seq<u8>, rate_id: u8, sequence_count: u16) -> bool {
    let high = (sequence_count / 256) as u8;
    let low = (sequence_count % 256) as u8;
    let n = cdp.len() as int;
    &&& 13 <= n <= 255
    &&& cdp[0] == 0x96 && cdp[1] == 0x69
    &&& cdp[2] == n
    &&& cdp[3] == rate_id * 16 + 15
    &&& cdp[5] == high && cdp[6] == low
    &&& cdp[7] == 0x72
    &&& n == 13 + 3 * (cdp[8] % 32)
    &&& cdp[n - 4] == 0x74 && cdp[n - 3] == high && cdp[n - 2] == low
    &&& byte_sum(cdp) % 256 == 0
}

/// How many triples of caption packets a CDP carries at a frame rate, next to those that are
/// kept for CEA-608.
pub open spec fn triples_per_cdp(rate_id: u8) -> nat {
    if rate_id <= 3 {
        22
    } else if rate_id <= 5 {
        18
    } else if rate_id == 6 {
        11
    } else {
        9
    }
}

/// The character that a code stands for.
pub open spec fn code_char(code: CaptionCode) -> Option<char> {
    match code {
        CaptionCode::Character(n) => Some(n as char),
        _ => None,
    }
}

/// The numbers and characters of a packet's service blocks.
pub open spec fn packet_text(p: PacketModel) -> Seq<ServiceText> {
    p.services.map_values(
        |s: ServiceModel| (s.number, s.codes.map_values(|code: CaptionCode| code_char(code))),
    )
}

/// A packet that a CDP can carry: its service blocks have numbers of three bits, codes that
/// can be written, and no more of them than a block holds.
pub open spec fn is_packet(p: PacketModel) -> bool {
    known_packet(p) && p.services.len() > 0 && forall|i: int|
        0 <= i < p.services.len() ==> {
            let s = #[trigger] p.services[i];
            1 <= s.number <= 6 && s.codes.len() > 0 && codes_len(s.codes) <= 31
        }
}

/// The writer holds nothing but one packet, which fits in one CDP.
pub open spec fn holds_one(w: WriterModel, rate_id: u8) -> bool {
    w.unsent.len() == 0 && w.waiting.len() == 1 && is_packet(w.waiting[0]) && (packet_len(
        w.waiting[0],
    ) + 1) / 2 <= triples_per_cdp(rate_id)
}

/// The writer holds no packet, nor a part of one.
pub open spec fn holds_none(w: WriterModel) -> bool {
    w.unsent.len() == 0 && w.waiting.len() == 0
}

/// A parser with no packet begun reads these packets from a CDP, and has then none begun.
pub open spec fn reads_as(cdp: Seq<u8>, packets: Seq<Seq<ServiceText>>) -> bool {
    forall|partial: PartialPacket|
        partial.pending.len() == 0 ==> (#[trigger] cdp_parsed(partial, cdp) matches Some(
            (added, left),
        ) && added == packets && left.pending.len() == 0)
}

/// `CDPWriter::write` into a byte vector: one CDP at the frame rate, with the writer's
/// counter. Packets are carried in the order in which they were pushed; the counter stays.
/// `CDPParser::parse` reads a packet that fits in the CDP from it, and none if the writer
/// holds none. Of a packet that a CDP carries in part nothing is said, nor of a writer with
/// CEA-608 pairs, a time code or service information.
#[verifier::external_body]
fn write_cdp(w: &mut cdp_types::CDPWriter, rate_id: u8) -> (cdp: Vec<u8>)
    requires
        1 <= rate_id <= 8,
        writer_model(*old(w)).bare,
        known_packets(writer_model(*old(w)).waiting),
    ensures
        writer_model(*final(w)).bare,
        (cdp@, writer_model(*final(w))) == cdp_written(writer_model(*old(w)), rate_id),
        is_cdp(cdp@, rate_id, writer_model(*old(w)).sequence_count),
        writer_model(*final(w)).sequence_count == writer_model(*old(w)).sequence_count,
        exists|n: int|
            0 <= n <= writer_model(*old(w)).waiting.len() && writer_model(*final(w)).waiting
                == #[trigger] writer_model(*old(w)).waiting.skip(n),
        holds_none(writer_model(*old(w))) ==> holds_none(writer_model(*final(w))) && reads_as(
            cdp@,
            Seq::empty(),
        ),
        holds_one(writer_model(*old(w)), rate_id) ==> holds_none(writer_model(*final(w)))
            && reads_as(cdp@, seq![packet_text(writer_model(*old(w)).waiting[0])]),
{
    let rate = cdp_types::Framerate::from_id(rate_id).expect("a CDP frame rate");
    let mut cdp = Vec::new();
    let _ = w.write(rate, &mut cdp);
    cdp
}

// ---- the writer -------------------------------------------------------------

/// A stateful CDP writer: one CDP per frame, so the CEA-708 sequence numbering stays
/// continuous across the stream (as a real caption service does).
pub struct CaptionWriter {
    pub cdp: cdp_types::CDPWriter,
    pub dtvcc_seq: u8,
}

/// The packet of a caption.
pub open spec fn caption_packet(sequence: u8, text: Seq<char>) -> PacketModel {
    packet_with(
        PacketModel { sequence, services: Seq::empty() },
        service_after(
            ServiceModel { number: CC_SERVICE_NO, codes: Seq::empty() },
            codes_of(text),
        ),
    )
}

/// What the writer holds when the CDP of a frame is written: a caption's packet is added,
/// and the counter is set.
pub open spec fn prepared(
    w: WriterModel,
    dtvcc_seq: u8,
    sequence_count: u16,
    text: Option<Seq<char>>,
) -> WriterModel {
    WriterModel {
        waiting: match text {
            Some(t) => w.waiting.push(caption_packet(dtvcc_seq % 4, t)),
            None => w.waiting,
        },
        sequence_count,
        ..w
    }
}

/// A caption that is carried whole: capital letters, not too many for a service block, nor for
/// one CDP at the frame rate. A frame without a caption always is.
pub open spec fn caption_fits(text: Option<Seq<char>>, rate_id: u8) -> bool {
    match text {
        Some(t) => {
            &&& 0 < t.len() <= 18
            &&& forall|i: int| 0 <= i < t.len() ==> is_capital(#[trigger] t[i])
            &&& (t.len() + 16) / 2 <= triples_per_cdp(rate_id)
        },
        None => true,
    }
}

/// A parser with no packet begun reads this caption from a CDP, or none, and has then no
/// packet begun.
pub open spec fn says(cdp: Seq<u8>, text: Option<Seq<char>>) -> bool {
    forall|partial: PartialPacket|
        partial.pending.len() == 0 ==> (#[trigger] cdp_parsed(partial, cdp) matches Some(
            (added, left),
        ) && left.pending.len() == 0 && match text {
            Some(t) => added.len() == 1 && service_text(added[0]) == t,
            None => added.len() == 0,
        })
}

/// One step of a caption writer: the CDP of a frame, and what the writer then is.
pub open spec fn writes(
    before: CaptionWriter,
    rate_id: u8,
    sequence_count: u16,
    text: Option<Seq<char>>,
    cdp: Seq<u8>,
    after: CaptionWriter,
) -> bool {
    let ready = prepared(writer_model(before.cdp), before.dtvcc_seq, sequence_count, text);
    &&& after.dtvcc_seq == if text is Some {
        (before.dtvcc_seq + 1) % 256
    } else {
        before.dtvcc_seq as int
    }
    &&& (cdp, writer_model(after.cdp)) == cdp_written(ready, rate_id)
    &&& is_cdp(cdp, rate_id, sequence_count)
    &&& before.idle() && caption_fits(text, rate_id) ==> after.idle() && says(cdp, text)
    &&& exists|n: int| writer_model(after.cdp).waiting == #[trigger] ready.waiting.skip(n)
}

impl Default for CaptionWriter {
    fn default() -> (r: Self)
        ensures
            r.idle(),
            r.dtvcc_seq == 0,
            writer_model(r.cdp) == (WriterModel {
                waiting: Seq::empty(),
                unsent: Seq::empty(),
                second_field: false,
                sequence_count: 0,
                bare: true,
            }),
            r.wf(),
    {
        CaptionWriter { cdp: new_writer(), dtvcc_seq: 0 }
    }
}

impl CaptionWriter {
    /// The writer carries captions and nothing else.
    pub open spec fn wf(&self) -> bool {
        writer_model(self.cdp).bare && known_packets(writer_model(self.cdp).waiting)
    }

    /// Nothing of a caption is still to be carried.
    pub open spec fn idle(&self) -> bool {
        holds_none(writer_model(self.cdp))
    }

    /// Build the next frame's CDP. With `text`, a pop-on caption; without, a null CDP
    /// (padding only). `sequence_count` is the CDP header counter.
    pub fn next_cdp(
        &mut self,
        framerate: CdpFramerate,
        sequence_count: u16,
        text: Option<&str>,
    ) -> (cdp: Vec<u8>)
        requires
            old(self).wf(),
            1 <= framerate.id <= 8,
        ensures
            final(self).wf(),
            writes(
                *old(self),
                framerate.id,
                sequence_count,
                text.deep_view(),
                cdp@,
                *final(self),
            ),
    {
        let ghost ready = prepared(
            writer_model(self.cdp),
            self.dtvcc_seq,
            sequence_count,
            text.deep_view(),
        );
        if let Some(t) = text {
            let codes = caption_codes(t);
            let mut service = new_service(CC_SERVICE_NO);
            let ghost empty = ServiceModel { number: CC_SERVICE_NO, codes: Seq::empty() };
            let mut i: usize = 0;
            assert(codes@.take(0) =~= Seq::empty());
            while i < codes.len()
                invariant
                    i <= codes@.len(),
                    encodable(codes@),
                    encodable(service_model(service).codes),
                    service_model(service) == service_after(empty, codes@.take(i as int)),
                decreases codes@.len() - i,
            {
                proof {
                    assert(codes@.take(i as int + 1).drop_last() =~= codes@.take(i as int));
                    assert(codes@.take(i as int + 1).last() == codes@[i as int]);
                    assert(writable(codes@[i as int]));
                }
                push_code(&mut service, &codes[i]);
                i = i + 1;
            }
            assert(codes@.take(codes@.len() as int) =~= codes@);
            let mut packet = new_packet(self.dtvcc_seq % 4);
            push_service(&mut packet, service);
            proof {
                assert(known_packet(packet_model(packet)));
                if caption_fits(Some(t@), framerate.id) {
                    caption_is_carried(packet_model(packet), self.dtvcc_seq % 4, t@, framerate.id);
                }
            }
            push_packet(&mut self.cdp, packet);
            self.dtvcc_seq = self.dtvcc_seq.wrapping_add(1);
        }
        set_sequence_count(&mut self.cdp, sequence_count);
        assert(writer_model(self.cdp) == ready);
        let cdp = write_cdp(&mut self.cdp, framerate.id);
        proof {
            let n = choose|n: int|
                0 <= n <= ready.waiting.len() && writer_model(self.cdp).waiting
                    == #[trigger] ready.waiting.skip(n);
            assert(writer_model(self.cdp).waiting == ready.waiting.skip(n));
            assert forall|i: int| 0 <= i < ready.waiting.skip(n).len() implies known_packet(
                #[trigger] ready.waiting.skip(n)[i],
            ) by {
                assert(ready.waiting.skip(n)[i] == ready.waiting[i + n]);
            }
        }
        cdp
    }
}

/// Captions of up to eighteen letters fit: where their letters have one-byte codes, none of
/// their codes is left out of their packet.
pub proof fn short_captions_fit(sequence: u8, text: Seq<char>)
    requires
        text.len() <= 18,
        forall|i: int| 0 <= i < text.len() ==> char_code_len(#[trigger] text[i] as u32) == Some(1usize),
    ensures
        caption_packet(sequence, text).services == seq![
            ServiceModel { number: CC_SERVICE_NO, codes: codes_of(text) },
        ],
        codes_len(codes_of(text)) == 13 + text.len(),
{
    let empty = ServiceModel { number: CC_SERVICE_NO, codes: Seq::empty() };
    let codes = codes_of(text);
    let head = seq![
        CaptionCode::DeleteWindows(0xff),
        CaptionCode::DefineWindow(caption_window()),
        CaptionCode::SetPenLocation { row: 0, column: 0 },
    ];
    letters_len(text);
    codes_len_of_sum(head, character_codes(text));
    assert(head.drop_last().drop_last().drop_last() =~= Seq::empty());
    assert(codes_len(head) == 12) by {
        reveal_with_fuel(codes_len, 4);
    }
    assert(codes.drop_last() =~= head + character_codes(text));
    assert(codes_len(codes) == 13 + text.len());
    all_codes_fit(empty, codes);
    let service = service_after(empty, codes);
    assert(service.codes =~= codes);
    let bare = PacketModel { sequence, services: Seq::<ServiceModel>::empty() };
    assert(packet_with(bare, service).services =~= seq![service]);
}

/// The packet of a caption that fits in one CDP can be carried, and says the caption.
proof fn caption_is_carried(p: PacketModel, sequence: u8, text: Seq<char>, rate_id: u8)
    requires
        p == caption_packet(sequence, text),
        known_packet(p),
        caption_fits(Some(text), rate_id),
        forall|i: int| 0 <= i < text.len() ==> char_code_len(#[trigger] text[i] as u32) == Some(1usize),
    ensures
        is_packet(p),
        (packet_len(p) + 1) / 2 <= triples_per_cdp(rate_id),
        service_text(packet_text(p)) == text,
{
    short_captions_fit(sequence, text);
    let codes = codes_of(text);
    let service = ServiceModel { number: CC_SERVICE_NO, codes };
    assert(p.services == seq![service]);
    assert(p.services.drop_last() =~= Seq::empty());
    assert(services_len(p.services) == 14 + text.len()) by {
        reveal_with_fuel(services_len, 2);
    }
    let said = codes.map_values(|code: CaptionCode| code_char(code));
    assert(packet_text(p) =~= seq![(CC_SERVICE_NO, said)]);
    let head = seq![None::<char>, None::<char>, None::<char>];
    let letters = character_codes(text).map_values(|code: CaptionCode| code_char(code));
    let tail = seq![None::<char>];
    assert(said =~= head + letters + tail);
    spoken_of_sum(head + letters, tail);
    spoken_of_sum(head, letters);
    spoken_letters(text);
    assert(head.drop_last().drop_last().drop_last() =~= Seq::empty());
    assert(spoken(head) == Seq::<char>::empty()) by {
        reveal_with_fuel(spoken, 4);
    }
    assert(tail.drop_last() =~= Seq::empty());
    assert(spoken(tail) == Seq::<char>::empty()) by {
        reveal_with_fuel(spoken, 2);
    }
    assert(spoken(said) =~= text);
    assert(packet_text(p).drop_last() =~= Seq::empty());
    assert(service_text(packet_text(p)) =~= text) by {
        reveal_with_fuel(service_text, 2);
    }
}

proof fn spoken_of_sum(a: Seq<Option<char>>, b: Seq<Option<char>>)
    ensures
        spoken(a + b) == spoken(a) + spoken(b),
    decreases b.len(),
{
    if b.len() == 0 {
        assert(a + b =~= a);
        assert(spoken(a) + spoken(b) =~= spoken(a));
    } else {
        spoken_of_sum(a, b.drop_last());
        assert((a + b).drop_last() =~= a + b.drop_last());
        assert((a + b).last() == b.last());
        match b.last() {
            Some(c) => {
                assert(spoken(a) + spoken(b.drop_last()).push(c) =~= (spoken(a) + spoken(
                    b.drop_last(),
                )).push(c));
            },
            None => {},
        }
    }
}

/// What is written is read back, from the first frame on: a new parser that is fed with the
/// CDPs of a writer with nothing left to carry reads from every CDP the caption of its frame,
/// or that there is none, for captions that fit in one CDP.
pub proof fn captions_are_read_back(
    writers: Seq<CaptionWriter>,
    rate_id: u8,
    counts: Seq<u16>,
    texts: Seq<Option<Seq<char>>>,
    cdps: Seq<Seq<u8>>,
)
    requires
        writers.len() == texts.len() + 1,
        counts.len() == texts.len(),
        cdps.len() == texts.len(),
        writers[0].idle(),
        forall|n: int| 0 <= n < texts.len() ==> caption_fits(#[trigger] texts[n], rate_id),
        forall|n: int|
            0 <= n < texts.len() ==> #[trigger] writes(
                writers[n],
                rate_id,
                counts[n],
                texts[n],
                cdps[n],
                writers[n + 1],
            ),
    ensures
        captions_decoded(fresh_parser(), cdps).0 == Some(texts),
{
    assert forall|n: int| 0 <= n < cdps.len() implies #[trigger] says(cdps[n], texts[n]) by {
        writer_stays_idle(writers, rate_id, counts, texts, cdps, n);
        assert(caption_fits(texts[n], rate_id));
        assert(writes(writers[n], rate_id, counts[n], texts[n], cdps[n], writers[n + 1]));
    }
    assert forall|n: int| 0 <= n < texts.len() implies ((#[trigger] texts[n]) matches Some(t)
        ==> t.len() > 0) by {
        assert(caption_fits(texts[n], rate_id));
    }
    said_captions_are_read(fresh_parser(), cdps, texts);
}

proof fn writer_stays_idle(
    writers: Seq<CaptionWriter>,
    rate_id: u8,
    counts: Seq<u16>,
    texts: Seq<Option<Seq<char>>>,
    cdps: Seq<Seq<u8>>,
    n: int,
)
    requires
        writers.len() == texts.len() + 1,
        0 <= n <= texts.len(),
        writers[0].idle(),
        forall|k: int| 0 <= k < texts.len() ==> caption_fits(#[trigger] texts[k], rate_id),
        forall|k: int|
            0 <= k < texts.len() ==> #[trigger] writes(
                writers[k],
                rate_id,
                counts[k],
                texts[k],
                cdps[k],
                writers[k + 1],
            ),
    ensures
        writers[n].idle(),
    decreases n,
{
    if n > 0 {
        writer_stays_idle(writers, rate_id, counts, texts, cdps, n - 1);
        assert(caption_fits(texts[n - 1], rate_id));
        assert(writes(
            writers[n - 1],
            rate_id,
            counts[n - 1],
            texts[n - 1],
            cdps[n - 1],
            writers[n - 1 + 1],
        ));
    }
}

proof fn char_of_its_code_point(c: char)
    ensures
        (c as u32) as char == c,
{
}

proof fn spoken_letters(text: Seq<char>)
    requires
        forall|i: int| 0 <= i < text.len() ==> char_code_len(#[trigger] text[i] as u32) == Some(1usize),
    ensures
        spoken(character_codes(text).map_values(|code: CaptionCode| code_char(code))) == text,
    decreases text.len(),
{
    let chars = character_codes(text).map_values(|code: CaptionCode| code_char(code));
    if text.len() > 0 {
        let front = text.drop_last();
        assert(char_code_len(text[text.len() - 1] as u32) == Some(1usize));
        assert forall|i: int| 0 <= i < front.len() implies char_code_len(
            #[trigger] front[i] as u32,
        ) == Some(1usize) by {
            assert(text[i] == front[i]);
        }
        spoken_letters(front);
        let before = character_codes(front).map_values(|code: CaptionCode| code_char(code));
        let c = text.last();
        char_of_its_code_point(c);
        assert(chars =~= before.push(Some(c)));
        assert(chars.drop_last() =~= before);
        assert(front.push(c) =~= text);
    } else {
        assert(chars =~= Seq::empty());
        assert(text =~= Seq::empty());
    }
}

/// The caption of a pip fits in one CDP at all rates but the two highest.
pub proof fn pip_captions_fit(k: int, rate_id: u8)
    requires
        1 <= rate_id <= 6,
    ensures
        caption_fits(Some(pip_text(k)), rate_id),
{
    reveal_strlit("TICK");
    reveal_strlit("TOCK");
}

proof fn letters_len(text: Seq<char>)
    requires
        forall|i: int| 0 <= i < text.len() ==> char_code_len(#[trigger] text[i] as u32) == Some(1usize),
    ensures
        codes_len(character_codes(text)) == text.len(),
        character_codes(text).len() == text.len(),
    decreases text.len(),
{
    if text.len() > 0 {
        assert(char_code_len(text[text.len() - 1] as u32) == Some(1usize));
        assert forall|i: int| 0 <= i < text.drop_last().len() implies char_code_len(
            #[trigger] text.drop_last()[i] as u32,
        ) == Some(1usize) by {
            assert(text[i] == text.drop_last()[i]);
        }
        letters_len(text.drop_last());
        let front = character_codes(text.drop_last());
        assert(front.push(CaptionCode::Character(text.last() as u32)).drop_last() =~= front);
    }
}

proof fn codes_len_of_sum(a: Seq<CaptionCode>, b: Seq<CaptionCode>)
    ensures
        codes_len(a + b) == codes_len(a) + codes_len(b),
    decreases b.len(),
{
    if b.len() == 0 {
        assert(a + b =~= a);
    } else {
        codes_len_of_sum(a, b.drop_last());
        assert((a + b).drop_last() =~= a + b.drop_last());
        assert((a + b).last() == b.last());
    }
}

proof fn all_codes_fit(empty: ServiceModel, codes: Seq<CaptionCode>)
    requires
        empty.number != 0,
        empty.codes.len() == 0,
        codes_len(codes) <= 31,
    ensures
        service_after(empty, codes).codes == codes,
        service_after(empty, codes).number == empty.number,
    decreases codes.len(),
{
    if codes.len() > 0 {
        all_codes_fit(empty, codes.drop_last());
        assert(codes.drop_last().push(codes.last()) =~= codes);
    } else {
        assert(empty.codes =~= codes);
    }
}

/// Captions alternate: the first pip ticks, and of two pips in a row one ticks and one tocks.
pub proof fn captions_alternate(k: int)
    requires
        k >= 0,
    ensures
        pip_text(2 * k + 1) == "TICK"@,
        pip_text(k) != pip_text(k + 1),
        pip_text(k) == pip_text(k + 2),
{
    reveal_strlit("TICK");
    reveal_strlit("TOCK");
    assert("TICK"@[1] == 'I' && "TOCK"@[1] == 'O');
}

/// The next pip is the first that is not before the frame, and never pip 0.
pub proof fn next_pip_is_the_first(pts: int, interval: int, k: int)
    requires
        pts >= 0,
        interval > 0,
        k >= 1,
        pts <= k * interval,
    ensures
        1 <= next_pip(pts, interval) <= k,
        pts <= next_pip(pts, interval) * interval,
{
    next_pip_is_least(pts, interval);
    let n = next_pip(pts, interval);
    if n > k {
        assert(k * interval <= (n - 1) * interval) by (nonlinear_arith)
            requires
                k <= n - 1,
                interval > 0,
        ;
    }
}

/// A higher identifier names a higher frame rate, so that no two identifiers name the same.
pub proof fn cdp_rates_grow_with_the_identifier(a: u8, b: u8)
    requires
        1 <= a < b <= 8,
    ensures
        (rate_of_id(a), rate_of_id(b)) matches (Some((m, x)), Some((n, y))) && m * y < n * x,
{
    if let (Some((m, x)), Some((n, y))) = (rate_of_id(a), rate_of_id(b)) {
        assert(m * y < n * x) by (nonlinear_arith)
            requires
                (x == 1 || x == 1001) && (y == 1 || y == 1001),
                x == y ==> m < n,
                x == 1 && y == 1001 ==> m * 1001 < n,
                x == 1001 && y == 1 ==> m < n * 1001,
                m >= 0,
                n >= 0,
        ;
    }
}

/// A caption spells its text: after every window was deleted, one visible window of one row is
/// defined that has room for it, the pen is put at its start, every character follows in order,
/// and the text is ended.
pub proof fn caption_spells_its_text(text: Seq<char>, i: int)
    requires
        text.len() <= 32,
        forall|j: int| 0 <= j < text.len() ==> char_code_len(#[trigger] text[j] as u32) is Some,
        0 <= i < text.len(),
    ensures
        codes_of(text).len() == text.len() + 4,
        codes_of(text)[0] == CaptionCode::DeleteWindows(255),
        codes_of(text)[1] matches CaptionCode::DefineWindow(w) && w.visible && w.row_count == 0
            && w.column_count + 1 >= text.len() && w.window_id < 8 && w.anchor_vertical <= 100
            && w.anchor_horizontal <= 100 && w.relative_positioning && w.anchor_point == 6,
        codes_of(text)[2] == (CaptionCode::SetPenLocation { row: 0, column: 0 }),
        codes_of(text)[3 + i] == CaptionCode::Character(text[i] as u32),
        codes_of(text).last() == CaptionCode::EndOfText,
{
    characters_follow_in_order(text, i);
}

proof fn characters_follow_in_order(text: Seq<char>, i: int)
    requires
        forall|j: int| 0 <= j < text.len() ==> char_code_len(#[trigger] text[j] as u32) is Some,
        0 <= i < text.len(),
    ensures
        character_codes(text).len() == text.len(),
        character_codes(text)[i] == CaptionCode::Character(text[i] as u32),
    decreases text.len(),
{
    let front = text.drop_last();
    assert(char_code_len(text[text.len() - 1] as u32) is Some);
    if front.len() > 0 {
        assert forall|j: int| 0 <= j < front.len() implies char_code_len(
            #[trigger] front[j] as u32,
        ) is Some by {
            assert(front[j] == text[j]);
        }
        characters_follow_in_order(front, if i < front.len() {
            i
        } else {
            0
        });
    }
}

/// Characters without a code are left out, and take none of the others away.
pub proof fn uncoded_characters_are_left_out(text: Seq<char>, c: char)
    ensures
        char_code_len(c as u32) is None ==> codes_of(text.push(c)) == codes_of(text),
        char_code_len(c as u32) is Some ==> codes_of(text.push(c)).len() == codes_of(text).len()
            + 1,
{
    assert(text.push(c).drop_last() =~= text);
}

/// Caption packets are numbered in turn, from 0 to 3 and round again; a frame without a caption
/// does not use up a number.
pub proof fn caption_packets_are_numbered(
    a: CaptionWriter,
    b: CaptionWriter,
    rate_id: u8,
    count: u16,
    text: Option<Seq<char>>,
    cdp: Seq<u8>,
    w: WriterModel,
    next_text: Seq<char>,
)
    requires
        writes(a, rate_id, count, text, cdp, b),
    ensures
        ({
            let number = prepared(w, b.dtvcc_seq, count, Some(next_text)).waiting.last().sequence;
            let before = a.dtvcc_seq % 4;
            &&& number < 4
            &&& text is None ==> number == before
            &&& text is Some ==> number == (before + 1) % 4
        }),
        text matches Some(t) ==> prepared(w, a.dtvcc_seq, count, text).waiting.last().sequence
            == a.dtvcc_seq % 4,
        prepared(w, a.dtvcc_seq, count, text).sequence_count == count,
        prepared(w, a.dtvcc_seq, count, None).waiting == w.waiting,
{
}

/// Every character has a code point of its own, and no surrogate or number beyond is one.
pub proof fn code_points_are_characters(c: char, n: u32)
    ensures
        is_code_point(c as u32),
        is_code_point(n) ==> (n as char) as u32 == n,
        0xd800 <= n <= 0xdfff || n > 0x10ffff ==> !is_code_point(n),
        n <= 0xff ==> is_code_point(n),
{
}

} // verus!
