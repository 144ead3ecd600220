//! Session descriptions: the marker of wide receivers.

use crate::nvdsudp::ts_refclk::lines_of;
use crate::text::{
    find_char, first_index_is_least, has_prefix, is_whitespace, starts_with, trim, trimmed,
    trimming_takes_only_white_space,
};
use vstd::prelude::*;

verus! {

/// A line that marks a wide receiver.
pub open spec fn is_wide_marker(line: Seq<char>) -> bool {
    has_prefix(trimmed(line), "a=x-nvnmos-caps:"@)
}

/// Some line of the description marks a wide receiver.
pub open spec fn has_wide_marker(lines: Seq<Seq<char>>) -> bool {
    exists|i: int| 0 <= i < lines.len() && is_wide_marker(#[trigger] lines[i])
}

/// Whether a session description marks its receiver as wide (`a=x-nvnmos-caps:`).
pub fn indicates_wide_receiver_caps(sdp_text: &str) -> (r: bool)
    ensures
        r == has_wide_marker(lines_of(sdp_text@)),
{
    let mut rest: &str = sdp_text;
    let ghost mut done: Seq<Seq<char>> = Seq::empty();
    assert(done + lines_of(rest@) =~= lines_of(sdp_text@));
    loop
        invariant
            done + lines_of(rest@) == lines_of(sdp_text@),
            forall|i: int| 0 <= i < done.len() ==> !is_wide_marker(#[trigger] done[i]),
        decreases rest@.len(),
    {
        proof {
            first_index_is_least(rest@, '\n');
        }
        let n: usize = rest.unicode_len();
        let end: Option<usize> = find_char(rest, '\n');
        let line = match end {
            Some(i) => rest.substring_char(0, i),
            None => rest,
        };
        let ghost more = match end {
            Some(i) => lines_of(rest@.skip(i as int + 1)),
            None => Seq::empty(),
        };
        proof {
            assert(lines_of(rest@) =~= seq![line@] + more);
            assert(done + (seq![line@] + more) =~= done.push(line@) + more);
            assert(lines_of(sdp_text@)[done.len() as int] == line@);
        }
        if starts_with(trim(line), "a=x-nvnmos-caps:") {
            return true;
        }
        proof {
            done = done.push(line@);
        }
        match end {
            Some(i) => {
                rest = rest.substring_char(i + 1, n);
            },
            None => {
                assert(done + more =~= done);
                return false;
            },
        }
    }
}

/// A description marks a wide receiver where one of its lines is such an attribute, wherever it
/// stands; a line that is none does not change what the rest says.
pub proof fn wide_marker_is_a_line(lines: Seq<Seq<char>>, line: Seq<char>)
    requires
        line.len() > 0,
        !is_whitespace(line[0]),
        !is_whitespace(line.last()),
    ensures
        has_prefix(line, "a=x-nvnmos-caps:"@) ==> has_wide_marker(lines.push(line)),
        !has_prefix(line, "a=x-nvnmos-caps:"@) ==> has_wide_marker(lines.push(line))
            == has_wide_marker(lines),
        !has_wide_marker(Seq::empty()),
{
    assert(trimmed(line) == line);
    let longer = lines.push(line);
    assert(longer[lines.len() as int] == line);
    if has_wide_marker(lines) {
        let i = choose|i: int| 0 <= i < lines.len() && is_wide_marker(#[trigger] lines[i]);
        assert(longer[i] == lines[i]);
    }
    if has_wide_marker(longer) {
        let i = choose|i: int| 0 <= i < longer.len() && is_wide_marker(#[trigger] longer[i]);
        if i < lines.len() {
            assert(longer[i] == lines[i]);
        }
    }
}

/// White space round a line does not keep it from marking a wide receiver, nor make it mark one.
pub proof fn indented_markers_count(before: Seq<char>, line: Seq<char>, after: Seq<char>)
    requires
        line.len() > 0,
        !is_whitespace(line[0]),
        !is_whitespace(line.last()),
        forall|i: int| 0 <= i < before.len() ==> is_whitespace(#[trigger] before[i]),
        forall|i: int| 0 <= i < after.len() ==> is_whitespace(#[trigger] after[i]),
    ensures
        is_wide_marker(before + line + after) == is_wide_marker(line),
        is_wide_marker(before + line + after) == has_prefix(line, "a=x-nvnmos-caps:"@),
{
    trimming_takes_only_white_space(before, line, after);
    trimming_takes_only_white_space(Seq::empty(), line, Seq::empty());
    assert(Seq::<char>::empty() + line + Seq::<char>::empty() =~= line);
}

} // verus!
