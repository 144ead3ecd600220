//! Pad snapshots and the topology frozen from them.

use crate::text::{copy_texts, first_position, first_position_is_least, position_of};
use vstd::prelude::*;

verus! {

/// One field of an `active-map` structure: its key, and its value read as an
/// optional string, or why it is not one.
#[derive(Debug, PartialEq, Eq)]
pub struct ActiveMapField {
    pub key: String,
    pub value: Result<Option<String>, String>,
}

/// Snapshot of one sink pad at fixation time.
#[derive(Debug, PartialEq, Eq)]
pub struct SinkPadSnapshot {
    pub receiver_name: String,
    pub input_id: String,
    pub label: String,
    pub description: String,
    pub negotiated_channels: u32,
}

/// Snapshot of one src pad at fixation time.
#[derive(Debug, PartialEq, Eq)]
pub struct SrcPadSnapshot {
    pub sender_name: String,
    pub output_id: String,
    pub label: String,
    pub description: String,
    pub negotiated_channels: u32,
    pub active_map: Option<Vec<ActiveMapField>>,
}

/// Topology frozen after the first successful internal build.
#[derive(Debug, PartialEq, Eq)]
pub struct FrozenTopology {
    pub input_ids: Vec<String>,
    pub output_ids: Vec<String>,
    /// Negotiated channel count per IS-08 Input (same order as `input_ids`).
    pub input_channels: Vec<u32>,
    /// Negotiated channel count per IS-08 Output (same order as `output_ids`).
    pub output_channels: Vec<u32>,
    /// Input-bus slot for each Input's channel 0 (disjoint placement).
    pub input_bus_offsets: Vec<u32>,
    /// Width of the input bus (the sum of `input_channels`).
    pub input_bus_channels: u32,
}

/// How many channels all the inputs have together.
pub open spec fn total_channels(channels: Seq<u32>) -> nat
    decreases channels.len(),
{
    if channels.len() == 0 {
        0
    } else {
        total_channels(channels.drop_last()) + channels.last() as nat
    }
}

/// The channel counts of the sink pads.
pub open spec fn sink_channels(sinks: Seq<SinkPadSnapshot>) -> Seq<u32> {
    sinks.map_values(|s: SinkPadSnapshot| s.negotiated_channels)
}

/// The channel counts of the src pads.
pub open spec fn src_channels(srcs: Seq<SrcPadSnapshot>) -> Seq<u32> {
    srcs.map_values(|s: SrcPadSnapshot| s.negotiated_channels)
}

pub proof fn total_channels_grows(channels: Seq<u32>, k: int)
    requires
        0 <= k <= channels.len(),
    ensures
        total_channels(channels.take(k)) <= total_channels(channels),
        k < channels.len() ==> total_channels(channels.take(k)) + channels[k]
            == total_channels(channels.take(k + 1)),
        k < channels.len() ==> total_channels(channels.take(k)) + channels[k] <= total_channels(
            channels,
        ),
    decreases channels.len(),
{
    if k < channels.len() {
        total_channels_grows(channels.drop_last(), k);
        assert(channels.drop_last().take(k) =~= channels.take(k));
        assert(channels.take(k + 1).drop_last() =~= channels.take(k));
        if k < channels.len() - 1 {
            assert(channels.drop_last().take(k + 1) =~= channels.take(k + 1));
        } else {
            assert(channels.take(k + 1) =~= channels);
        }
    } else {
        assert(channels.take(k) =~= channels);
    }
}

impl FrozenTopology {
    /// The inputs lie on the bus one after the other, and the bus ends where the
    /// last one does.
    pub open spec fn wf(&self) -> bool {
        &&& self.input_bus_offsets@.len() == self.input_channels@.len()
        &&& forall|i: int|
            0 <= i < self.input_channels@.len() ==> #[trigger] self.input_bus_offsets@[i]
                == total_channels(self.input_channels@.take(i))
        &&& self.input_bus_channels == total_channels(self.input_channels@)
    }

    /// The input-bus channel of an input channel, where the input is known and has
    /// that channel.
    pub open spec fn bus_index(&self, input_id: Seq<char>, input_channel: u32) -> Option<int> {
        match first_position(self.input_ids@, input_id) {
            Some(i) => if i < self.input_channels@.len() && input_channel
                < self.input_channels@[i] {
                Some(total_channels(self.input_channels@.take(i)) + input_channel)
            } else {
                None
            },
            None => None,
        }
    }

    /// The channel count of an input, zero where it has none on record.
    pub open spec fn channels_of_input(&self, index: int) -> u32 {
        if 0 <= index < self.input_channels@.len() {
            self.input_channels@[index]
        } else {
            0
        }
    }

    pub fn from_snapshots(
        sinks: &[SinkPadSnapshot],
        srcs: &[SrcPadSnapshot],
        effective_input_ids: &[String],
        effective_output_ids: &[String],
    ) -> (topology: Self)
        requires
            total_channels(sink_channels(sinks@)) <= u32::MAX,
        ensures
            topology.wf(),
            topology.input_ids@ == effective_input_ids@,
            topology.output_ids@ == effective_output_ids@,
            topology.input_channels@ == sink_channels(sinks@),
            topology.output_channels@ == src_channels(srcs@),
    {
        let ghost counts = sink_channels(sinks@);
        let mut input_channels: Vec<u32> = Vec::new();
        let mut input_bus_offsets: Vec<u32> = Vec::new();
        let mut offset: u32 = 0;
        let mut i: usize = 0;
        while i < sinks.len()
            invariant
                i <= sinks@.len(),
                counts == sink_channels(sinks@),
                total_channels(counts) <= u32::MAX,
                input_channels@ == counts.take(i as int),
                input_bus_offsets@.len() == i,
                forall|j: int|
                    0 <= j < i ==> #[trigger] input_bus_offsets@[j] == total_channels(
                        counts.take(j),
                    ),
                offset == total_channels(counts.take(i as int)),
            decreases sinks@.len() - i,
        {
            proof {
                total_channels_grows(counts, i as int);
                assert(counts[i as int] == sinks@[i as int].negotiated_channels);
            }
            let n: u32 = sinks[i].negotiated_channels;
            input_channels.push(n);
            input_bus_offsets.push(offset);
            offset = offset + n;
            i = i + 1;
        }
        let mut output_channels: Vec<u32> = Vec::new();
        let mut k: usize = 0;
        while k < srcs.len()
            invariant
                k <= srcs@.len(),
                output_channels@ == src_channels(srcs@).take(k as int),
            decreases srcs@.len() - k,
        {
            output_channels.push(srcs[k].negotiated_channels);
            k = k + 1;
        }
        assert(counts.take(counts.len() as int) =~= counts);
        FrozenTopology {
            input_ids: copy_texts(effective_input_ids),
            output_ids: copy_texts(effective_output_ids),
            input_channels,
            output_channels,
            input_bus_offsets,
            input_bus_channels: offset,
        }
    }

    /// Map `(input_id, input_channel)` to an input-bus channel index.
    pub fn input_bus_index(&self, input_id: &str, input_channel: u32) -> (index: Option<u32>)
        requires
            self.wf(),
        ensures
            match index {
                Some(b) => self.bus_index(input_id@, input_channel) == Some(b as int) && b
                    < self.input_bus_channels,
                None => self.bus_index(input_id@, input_channel) is None,
            },
    {
        let input_idx: usize = match position_of(self.input_ids.as_slice(), input_id) {
            Some(i) => i,
            None => {
                return None;
            },
        };
        if input_idx >= self.input_bus_offsets.len() {
            return None;
        }
        let offset: u32 = self.input_bus_offsets[input_idx];
        let channels: u32 = self.input_channels[input_idx];
        if input_channel >= channels {
            return None;
        }
        proof {
            total_channels_grows(self.input_channels@, input_idx as int);
        }
        Some(offset + input_channel)
    }
}

/// No two inputs share a bus channel: distinct input channels lie on distinct bus
/// channels, and every one of them lies on the bus.
pub proof fn bus_placement_is_disjoint(channels: Seq<u32>, i: int, c: int, j: int, d: int)
    requires
        0 <= i < channels.len(),
        0 <= c < channels[i],
        0 <= j < channels.len(),
        0 <= d < channels[j],
        (i, c) != (j, d),
    ensures
        total_channels(channels.take(i)) + c != total_channels(channels.take(j)) + d,
        total_channels(channels.take(i)) + c < total_channels(channels),
        total_channels(channels.take(j)) + d < total_channels(channels),
{
    total_channels_grows(channels, i);
    total_channels_grows(channels, j);
    if i < j {
        total_channels_grows(channels.take(j), i + 1);
        assert(channels.take(j).take(i + 1) =~= channels.take(i + 1));
    } else if j < i {
        total_channels_grows(channels.take(i), j + 1);
        assert(channels.take(i).take(j + 1) =~= channels.take(j + 1));
    }
}

/// The input whose channels cover bus channel `b`, and which of them it is.
pub open spec fn bus_channel_source(channels: Seq<u32>, b: int) -> (int, int)
    decreases channels.len(),
{
    if channels.len() == 0 {
        (0, 0)
    } else if b >= total_channels(channels.drop_last()) {
        (channels.len() - 1, b - total_channels(channels.drop_last()))
    } else {
        bus_channel_source(channels.drop_last(), b)
    }
}

/// The bus has no gaps: every bus channel belongs to some input channel.
pub proof fn bus_placement_covers(channels: Seq<u32>, b: int)
    requires
        0 <= b < total_channels(channels),
    ensures
        ({
            let (i, c) = bus_channel_source(channels, b);
            0 <= i < channels.len() && 0 <= c < channels[i] && total_channels(channels.take(i)) + c
                == b
        }),
    decreases channels.len(),
{
    if channels.len() > 0 {
        let front = channels.drop_last();
        assert(channels.take(channels.len() - 1) =~= front);
        if b < total_channels(front) {
            bus_placement_covers(front, b);
            let (i, c) = bus_channel_source(front, b);
            assert(front.take(i) =~= channels.take(i));
        }
    }
}

/// Where the input ids are all different, the input at each position is found again
/// under its own id.
pub proof fn distinct_ids_are_found(ids: Seq<String>, i: int)
    requires
        0 <= i < ids.len(),
        forall|a: int, b: int| 0 <= a < b < ids.len() ==> (#[trigger] ids[a])@ != (#[trigger] ids[b])@,
    ensures
        first_position(ids, ids[i]@) == Some(i),
{
    first_position_is_least(ids, ids[i]@);
    match first_position(ids, ids[i]@) {
        Some(j) => {
            if j < i {
                assert(ids[j]@ != ids[i]@);
            }
        },
        None => {
            assert(ids[i]@ != ids[i]@);
        },
    }
}

} // verus!
