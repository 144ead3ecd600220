//! Map SDP `a=ts-refclk:` attributes to `nvdsudpsink` / `nvdsudpsrc` `ptp-src`.

use crate::text::{
    find_char, first_index, first_index_is_least, has_prefix, is_whitespace, same_text, starts_with,
    strip_prefix, trim, trimmed, trimming_takes_only_white_space,
};
use vstd::prelude::*;

verus! {

/// Whether to enable Rivermax hardware PTP on the local NIC.
#[derive(Debug, Clone, Copy, PartialEq, Eq, Structural)]
pub enum PtpSrcResolution {
    /// Leave `ptp-src` unset (system clock).
    Unset,
    /// SDP declares PTP: set `ptp-src` to `local-iface-ip` / `interface_ip`.
    ///
    /// RFC 7273 / ST 2110-10 `a=ts-refclk:ptp=…` carries clock identity
    /// (traceable, GMID, domain), not a bind address.
    UseInterfaceIp,
}

/// The lines of a text, as newlines part them.
pub open spec fn lines_of(text: Seq<char>) -> Seq<Seq<char>>
    decreases text.len(),
{
    let end = first_index(text, '\n');
    if end < 0 || end >= text.len() {
        seq![text]
    } else {
        seq![text.take(end)] + lines_of(text.skip(end + 1))
    }
}

/// The value of a `ts-refclk` attribute line. White space round the line and round
/// the value does not count.
pub open spec fn refclk_value(line: Seq<char>) -> Option<Seq<char>> {
    let attribute = trimmed(line);
    if has_prefix(attribute, "a=ts-refclk:"@) {
        Some(trimmed(attribute.skip("a=ts-refclk:"@.len() as int)))
    } else {
        None
    }
}

/// The values of all `ts-refclk` lines, in order.
pub open spec fn refclk_values(lines: Seq<Seq<char>>) -> Seq<Seq<char>>
    decreases lines.len(),
{
    if lines.len() == 0 {
        Seq::empty()
    } else {
        let front = refclk_values(lines.drop_last());
        match refclk_value(lines.last()) {
            Some(value) => front.push(value),
            None => front,
        }
    }
}

/// A clock of the sender's own, that no receiver can follow over PTP.
pub open spec fn is_local_clock(value: Seq<char>) -> bool {
    value == "local"@ || has_prefix(value, "localmac="@)
}

pub open spec fn is_ptp_clock(value: Seq<char>) -> bool {
    has_prefix(value, "ptp="@)
}

/// PTP is used where some media declares it and none declares a local clock.
pub open spec fn resolution(values: Seq<Seq<char>>) -> PtpSrcResolution {
    if (exists|i: int| 0 <= i < values.len() && is_local_clock(#[trigger] values[i])) || !(exists|
        i: int,
    |
        0 <= i < values.len() && is_ptp_clock(#[trigger] values[i])) {
        PtpSrcResolution::Unset
    } else {
        PtpSrcResolution::UseInterfaceIp
    }
}

/// Resolve `ptp-src` from SDP text (activation or configuring transport file).
pub fn ptp_src_from_sdp(sdp_text: &str) -> (r: PtpSrcResolution)
    ensures
        r == resolution(refclk_values(lines_of(sdp_text@))),
{
    let values = collect_ts_refclk_values(sdp_text);
    let ghost all = values.deep_view();
    let mut saw_ptp: bool = false;
    let mut i: usize = 0;
    while i < values.len()
        invariant
            i <= values@.len(),
            all == values.deep_view(),
            all == refclk_values(lines_of(sdp_text@)),
            saw_ptp == exists|j: int| 0 <= j < i && is_ptp_clock(#[trigger] all[j]),
            forall|j: int| 0 <= j < i ==> !is_local_clock(#[trigger] all[j]),
        decreases values@.len() - i,
    {
        let value = values[i].as_str();
        assert(all[i as int] == value@);
        if same_text(value, "local") || starts_with(value, "localmac=") {
            return PtpSrcResolution::Unset;
        }
        if starts_with(value, "ptp=") {
            saw_ptp = true;
        }
        i = i + 1;
    }
    if saw_ptp {
        PtpSrcResolution::UseInterfaceIp
    } else {
        PtpSrcResolution::Unset
    }
}

proof fn refclk_values_step(front: Seq<Seq<char>>, line: Seq<char>, rest: Seq<Seq<char>>)
    ensures
        refclk_values(front + (seq![line] + rest)) == refclk_values((front.push(line)) + rest),
        refclk_values(front.push(line)) == match refclk_value(line) {
            Some(value) => refclk_values(front).push(value),
            None => refclk_values(front),
        },
{
    assert(front + (seq![line] + rest) =~= front.push(line) + rest);
    assert(front.push(line).drop_last() =~= front);
}

/// The values of the `a=ts-refclk:` lines, in order.
pub fn collect_ts_refclk_values(sdp_text: &str) -> (values: Vec<String>)
    ensures
        values.deep_view() == refclk_values(lines_of(sdp_text@)),
{
    let mut values: Vec<String> = Vec::new();
    let mut rest: &str = sdp_text;
    let ghost mut done: Seq<Seq<char>> = Seq::empty();
    assert(values.deep_view() =~= Seq::empty());
    assert(done + lines_of(rest@) =~= lines_of(sdp_text@));
    loop
        invariant
            values.deep_view() == refclk_values(done),
            done + lines_of(rest@) == lines_of(sdp_text@),
        decreases rest@.len(),
    {
        proof {
            first_index_is_least(rest@, '\n');
        }
        let n: usize = rest.unicode_len();
        let end: Option<usize> = find_char(rest, '\n');
        let line = match end {
            Some(i) => rest.substring_char(0, i),
            None => rest,
        };
        let ghost more = match end {
            Some(i) => lines_of(rest@.skip(i as int + 1)),
            None => Seq::empty(),
        };
        proof {
            refclk_values_step(done, line@, more);
            assert(lines_of(rest@) =~= seq![line@] + more);
            assert(done + (seq![line@] + more) =~= done.push(line@) + more);
            done = done.push(line@);
        }
        let ghost before = values.deep_view();
        match strip_prefix(trim(line), "a=ts-refclk:") {
            Some(value) => {
                let value = trim(value).to_owned();
                values.push(value);
                assert(values.deep_view() =~= before.push(value@));
            },
            None => {},
        }
        match end {
            Some(i) => {
                rest = rest.substring_char(i + 1, n);
            },
            None => {
                assert(done + more =~= done);
                return values;
            },
        }
    }
}

/// A local clock anywhere in the SDP suppresses PTP, whatever else it declares.
pub proof fn local_clock_suppresses_ptp(values: Seq<Seq<char>>, i: int)
    requires
        0 <= i < values.len(),
        is_local_clock(values[i]),
    ensures
        resolution(values) == PtpSrcResolution::Unset,
{
}

/// PTP is used exactly where some media declares a PTP clock and none a clock of its own.
pub proof fn ptp_is_used_where_declared(values: Seq<Seq<char>>)
    ensures
        resolution(values) == PtpSrcResolution::UseInterfaceIp <==> (exists|i: int|
            0 <= i < values.len() && has_prefix(#[trigger] values[i], "ptp="@)) && forall|i: int|
            0 <= i < values.len() ==> #[trigger] values[i] != "local"@ && !has_prefix(
                values[i],
                "localmac="@,
            ),
{
    if resolution(values) == PtpSrcResolution::UseInterfaceIp {
        assert forall|i: int| 0 <= i < values.len() implies #[trigger] values[i] != "local"@
            && !has_prefix(values[i], "localmac="@) by {
            assert(!is_local_clock(values[i]));
        }
        let i = choose|i: int| 0 <= i < values.len() && is_ptp_clock(#[trigger] values[i]);
        assert(has_prefix(values[i], "ptp="@));
    } else if exists|i: int| 0 <= i < values.len() && is_local_clock(#[trigger] values[i]) {
        let i = choose|i: int| 0 <= i < values.len() && is_local_clock(#[trigger] values[i]);
        assert(values[i] == "local"@ || has_prefix(values[i], "localmac="@));
    } else if exists|i: int| 0 <= i < values.len() && has_prefix(#[trigger] values[i], "ptp="@) {
        let i = choose|i: int| 0 <= i < values.len() && has_prefix(#[trigger] values[i], "ptp="@);
        assert(is_ptp_clock(values[i]));
    }
}

/// A text is read line by line: what stands before a newline is a line, and what follows it is
/// read on its own.
pub proof fn lines_are_parted_by_newlines(line: Seq<char>, rest: Seq<char>)
    requires
        !line.contains('\n'),
    ensures
        lines_of(line) == seq![line],
        lines_of(line.push('\n') + rest) == seq![line] + lines_of(rest),
{
    first_index_is_least(line, '\n');
    let text = line.push('\n') + rest;
    first_index_is_least(text, '\n');
    let n = line.len() as int;
    assert(text[n] == '\n');
    assert forall|j: int| 0 <= j < n implies text[j] != '\n' by {
        assert(line.contains(line[j]));
    }
    let end = first_index(text, '\n');
    assert(end == n);
    assert(text.take(end) =~= line);
    assert(text.skip(end + 1) =~= rest);
    if first_index(line, '\n') < line.len() {
        assert(line.contains(line[first_index(line, '\n')]));
    }
}

/// A line that is no `ts-refclk` attribute adds no value; one that is adds what stands behind the
/// colon.
pub proof fn only_refclk_lines_count(lines: Seq<Seq<char>>, line: Seq<char>, value: Seq<char>)
    requires
        line.len() > 0,
        !is_whitespace(line[0]),
        !is_whitespace(line.last()),
    ensures
        !has_prefix(line, "a=ts-refclk:"@) ==> refclk_values(lines.push(line)) == refclk_values(
            lines,
        ),
        line == "a=ts-refclk:"@ + value && value.len() > 0 && !is_whitespace(value[0])
            ==> refclk_values(lines.push(line)) == refclk_values(lines).push(value),
{
    assert(lines.push(line).drop_last() =~= lines);
    assert(trimmed(line) == line);
    if line == "a=ts-refclk:"@ + value && value.len() > 0 && !is_whitespace(value[0]) {
        let n = "a=ts-refclk:"@.len() as int;
        assert(line.take(n) =~= "a=ts-refclk:"@);
        assert(line.skip(n) =~= value);
        assert(value.last() == line.last());
        assert(trimmed(value) == value);
    }
}

/// White space round a line, or round the value in it, does not count.
pub proof fn indented_refclk_lines_count(
    before: Seq<char>,
    between: Seq<char>,
    value: Seq<char>,
    after: Seq<char>,
)
    requires
        value.len() > 0,
        !is_whitespace(value[0]),
        !is_whitespace(value.last()),
        forall|i: int| 0 <= i < before.len() ==> is_whitespace(#[trigger] before[i]),
        forall|i: int| 0 <= i < between.len() ==> is_whitespace(#[trigger] between[i]),
        forall|i: int| 0 <= i < after.len() ==> is_whitespace(#[trigger] after[i]),
    ensures
        refclk_value(before + ("a=ts-refclk:"@ + between + value) + after) == Some(value),
{
    reveal_strlit("a=ts-refclk:");
    let line = "a=ts-refclk:"@ + between + value;
    assert(line[0] == 'a');
    assert(!is_whitespace('a'));
    assert(line.last() == value.last());
    trimming_takes_only_white_space(before, line, after);
    assert(line.take(12) =~= "a=ts-refclk:"@);
    assert(line.skip(12) =~= between + value + Seq::<char>::empty());
    trimming_takes_only_white_space(between, value, Seq::empty());
}

} // verus!
