//! `audio/x-raw` caps of the channel-mapping element, and channel counts read from caps.

use crate::caps::{
    Caps, CapsModel, Features, FeaturesModel, Field, FieldModel, FieldValue, Structure,
    StructureModel,
};
use crate::essence_caps::{channel_mask, default_channel_mask};
use crate::text::{
    around, decimal, decimal_text, put_together_in_order, same_text, says_in_order,
};
use vstd::prelude::*;

verus! {

/// Sequential channel mask for all channels; the same as the default of essence caps.
pub fn sequential_channel_mask(channels: u32) -> (r: Option<u64>)
    ensures
        r == channel_mask(channels as int),
{
    if channels <= 64 {
        default_channel_mask(channels as i32)
    } else {
        None
    }
}

/// The 32 bits of a count, read as a signed number.
pub open spec fn signed_count(n: u32) -> i32 {
    if n <= i32::MAX {
        n as i32
    } else {
        (n - 0x1_0000_0000) as i32
    }
}

fn to_signed(n: u32) -> (r: i32)
    ensures
        r == signed_count(n),
{
    if n <= i32::MAX as u32 {
        n as i32
    } else {
        (n as i64 - 0x1_0000_0000) as i32
    }
}

pub open spec fn audio_structure(fields: Seq<(Seq<char>, FieldModel)>) -> CapsModel {
    CapsModel::Structures(
        seq![
            StructureModel {
                name: "audio/x-raw"@,
                fields,
                features: FeaturesModel::Named(Seq::empty()),
            },
        ],
    )
}

pub open spec fn count_caps(channels: u32) -> CapsModel {
    audio_structure(seq![("channels"@, FieldModel::Int(signed_count(channels)))])
}

/// Minimum `audio/x-raw` caps fixating channel count only. Format, rate, and channel-mask
/// remain open for negotiation with upstream / downstream.
pub fn caps_with_channel_count(channels: u32) -> (caps: Caps)
    ensures
        caps.deep_view() == count_caps(channels),
{
    let mut fields: Vec<Field> = Vec::new();
    fields.push(
        Field { name: "channels".to_owned(), value: FieldValue::Int(to_signed(channels)) },
    );
    assert(fields.deep_view() =~= seq![
        ("channels"@, FieldModel::Int(signed_count(channels))),
    ]);
    Caps::of(
        Structure { name: "audio/x-raw".to_owned(), fields, features: Features::system_memory() },
    )
}

/// The mask that caps of a channel count carry: none for mono and stereo, whose positions
/// are implied.
pub open spec fn carried_mask(channels: u32) -> Option<u64> {
    if channels > 2 {
        channel_mask(channels as int)
    } else {
        None
    }
}

pub open spec fn mask_caps(channels: u32) -> CapsModel {
    let count = seq![("channels"@, FieldModel::Int(signed_count(channels)))];
    audio_structure(
        match carried_mask(channels) {
            Some(mask) => count.push(("channel-mask"@, FieldModel::Bitmask(mask))),
            None => count,
        },
    )
}

/// Minimum `audio/x-raw` caps fixating channel count and mask. Format and rate remain open
/// for negotiation with upstream / downstream.
///
/// Mono/stereo are left maskless: their positions are implied, and a sequential mask for 1
/// channel would wrongly read as front-left rather than mono.
pub fn caps_with_channel_mask(channels: u32) -> (caps: Caps)
    ensures
        caps.deep_view() == mask_caps(channels),
{
    let mut fields: Vec<Field> = Vec::new();
    fields.push(
        Field { name: "channels".to_owned(), value: FieldValue::Int(to_signed(channels)) },
    );
    if channels > 2 {
        if let Some(mask) = sequential_channel_mask(channels) {
            fields.push(
                Field { name: "channel-mask".to_owned(), value: FieldValue::Bitmask(mask) },
            );
        }
    }
    let ghost count = seq![("channels"@, FieldModel::Int(signed_count(channels)))];
    assert(fields.deep_view() =~= match carried_mask(channels) {
        Some(mask) => count.push(("channel-mask"@, FieldModel::Bitmask(mask))),
        None => count,
    });
    Caps::of(
        Structure { name: "audio/x-raw".to_owned(), fields, features: Features::system_memory() },
    )
}

// ---- channel counts ---------------------------------------------------------

/// The channel count that an audio structure fixes: a positive number, or a range of one.
pub open spec fn fixed_channels(s: StructureModel) -> Option<u32> {
    if s.name != "audio/x-raw"@ {
        None
    } else {
        match s.field("channels"@) {
            Some(FieldModel::Int(n)) => if n > 0 {
                Some(n as u32)
            } else {
                None
            },
            Some(FieldModel::IntRange(low, high)) => if low == high && low > 0 {
                Some(low as u32)
            } else {
                None
            },
            _ => None,
        }
    }
}

pub fn channels_from_structure(structure: &Structure) -> (r: Option<u32>)
    ensures
        r == fixed_channels(structure.deep_view()),
{
    if !same_text(structure.name.as_str(), "audio/x-raw") {
        return None;
    }
    match structure.get("channels") {
        Some(FieldValue::Int(n)) => if *n > 0 {
            Some(*n as u32)
        } else {
            None
        },
        Some(FieldValue::IntRange(low, high)) => if *low == *high && *low > 0 {
            Some(*low as u32)
        } else {
            None
        },
        _ => None,
    }
}

/// The channel count that the first structure to fix one fixes.
pub open spec fn first_fixed(all: Seq<StructureModel>) -> Option<u32>
    decreases all.len(),
{
    if all.len() == 0 {
        None
    } else {
        match fixed_channels(all[0]) {
            Some(n) => Some(n),
            None => first_fixed(all.skip(1)),
        }
    }
}

pub open spec fn caps_channels(caps: CapsModel) -> Option<u32> {
    match caps {
        CapsModel::Any => None,
        CapsModel::Structures(all) => first_fixed(all),
    }
}

pub fn channels_from_caps(caps: &Caps) -> (r: Option<u32>)
    ensures
        r == caps_channels(caps.deep_view()),
{
    match caps {
        Caps::Any => None,
        Caps::Structures(all) => {
            let ghost models = all.deep_view();
            let mut i: usize = 0;
            assert(models.skip(0) =~= models);
            while i < all.len()
                invariant
                    i <= all@.len(),
                    models == all.deep_view(),
                    caps.deep_view() == CapsModel::Structures(models),
                    first_fixed(models) == first_fixed(models.skip(i as int)),
                decreases all@.len() - i,
            {
                assert(models.skip(i as int).skip(1) =~= models.skip(i as int + 1));
                assert(models.skip(i as int)[0] == all@[i as int].deep_view());
                match channels_from_structure(&all[i]) {
                    Some(n) => {
                        return Some(n);
                    },
                    None => {},
                }
                i = i + 1;
            }
            None
        },
    }
}

/// What is known of the caps on a pad's link: its current caps, and what it and its peer
/// have in common.
#[derive(Debug)]
pub struct PadCaps {
    pub current: Option<Caps>,
    pub link: Option<Caps>,
}

/// Why a pad's channel count could not be settled.
#[derive(Debug, Clone, Copy, PartialEq, Eq, Structural)]
pub enum ChannelsError {
    /// The declared count is not the negotiated one.
    Mismatch { declared: u32, negotiated: u32 },
    /// None is declared and none is fixed.
    Unknown,
}

impl ChannelsError {
    /// The wording of the error, of the pad `pad` that has the caps `caps`.
    pub open spec fn text(self, pad: Seq<char>, caps: Seq<char>) -> Seq<char> {
        match self {
            ChannelsError::Mismatch { declared, negotiated } => "pad `"@ + pad
                + "`: declared channels="@ + decimal(declared as nat)
                + " but negotiated caps have "@ + decimal(negotiated as nat),
            ChannelsError::Unknown => "pad `"@ + pad
                + "`: link peers with fixed channel count in audio/x-raw caps, or set `channels` before READY→PAUSED (caps="@
                + caps + ")"@,
        }
    }

    /// What is said of the error, of the pad `pad` that has the caps `caps`.
    pub fn message(&self, pad: &str, caps: &str) -> (r: String)
        ensures
            r@ == self.text(pad@, caps@),
    {
        match self {
            ChannelsError::Mismatch { declared, negotiated } => {
                let mut r = around("pad `", pad, "`: declared channels=");
                r.append(decimal_text(*declared as u64).as_str());
                r.append(" but negotiated caps have ");
                r.append(decimal_text(*negotiated as u64).as_str());
                r
            },
            ChannelsError::Unknown => {
                let mut r = around(
                    "pad `",
                    pad,
                    "`: link peers with fixed channel count in audio/x-raw caps, or set `channels` before READY→PAUSED (caps=",
                );
                r.append(caps);
                r.append(")");
                r
            },
        }
    }
}

pub open spec fn optional_channels(caps: Option<Caps>) -> Option<u32> {
    match caps {
        Some(c) => caps_channels(c.deep_view()),
        None => None,
    }
}

/// The negotiated channel count: that of the current caps, else that of the link.
pub open spec fn negotiated_channels(caps: PadCaps) -> Option<u32> {
    match optional_channels(caps.current) {
        Some(n) => Some(n),
        None => optional_channels(caps.link),
    }
}

/// The channel count of a pad, from what was declared (0 where nothing was) and what was
/// negotiated.
pub open spec fn pad_channels(caps: PadCaps, declared: u32) -> Result<u32, ChannelsError> {
    match negotiated_channels(caps) {
        Some(negotiated) => if declared > 0 && declared != negotiated {
            Err(ChannelsError::Mismatch { declared, negotiated })
        } else {
            Ok(negotiated)
        },
        None => if declared > 0 {
            Ok(declared)
        } else {
            Err(ChannelsError::Unknown)
        },
    }
}

proof fn fixed_counts_are_positive(all: Seq<StructureModel>)
    ensures
        first_fixed(all) matches Some(n) ==> n > 0,
    decreases all.len(),
{
    if all.len() > 0 {
        fixed_counts_are_positive(all.skip(1));
    }
}

/// A pad's channel count is never zero.
pub proof fn pad_channels_are_positive(caps: PadCaps, declared: u32)
    ensures
        pad_channels(caps, declared) matches Ok(n) ==> n > 0,
{
    if let Some(c) = caps.current {
        if let CapsModel::Structures(all) = c.deep_view() {
            fixed_counts_are_positive(all);
        }
    }
    if let Some(c) = caps.link {
        if let CapsModel::Structures(all) = c.deep_view() {
            fixed_counts_are_positive(all);
        }
    }
}

/// The channel count of a pad.
pub fn resolve_pad_channels(caps: &PadCaps, declared: u32) -> (r: Result<u32, ChannelsError>)
    ensures
        r == pad_channels(*caps, declared),
        r matches Ok(n) ==> n > 0,
{
    proof {
        pad_channels_are_positive(*caps, declared);
    }
    let current: Option<u32> = match &caps.current {
        Some(c) => channels_from_caps(c),
        None => None,
    };
    let negotiated: Option<u32> = match current {
        Some(n) => Some(n),
        None => match &caps.link {
            Some(c) => channels_from_caps(c),
            None => None,
        },
    };
    match negotiated {
        Some(n) => if declared > 0 && declared != n {
            Err(ChannelsError::Mismatch { declared, negotiated: n })
        } else {
            Ok(n)
        },
        None => if declared > 0 {
            Ok(declared)
        } else {
            Err(ChannelsError::Unknown)
        },
    }
}

/// Caps that fix a channel count are read as fixing it, with a mask or without.
pub proof fn fixed_count_is_read_back(channels: u32)
    requires
        1 <= channels <= i32::MAX,
    ensures
        caps_channels(count_caps(channels)) == Some(channels),
        caps_channels(mask_caps(channels)) == Some(channels),
{
    reveal_with_fuel(crate::caps::lookup, 2);
    let count = count_caps(channels)->Structures_0;
    let mask = mask_caps(channels)->Structures_0;
    assert(fixed_channels(count[0]) == Some(channels));
    assert(fixed_channels(mask[0]) == Some(channels));
}

/// Only more than two channels carry a mask, and it has a bit for each.
pub proof fn mono_and_stereo_carry_no_mask(channels: u32)
    ensures
        mask_caps(channels).first() matches Some(s) && s.name == "audio/x-raw"@
            && s.bitmask_field("channel-mask"@) == if channels > 2 {
            channel_mask(channels as int)
        } else {
            None
        },
        count_caps(channels).first() matches Some(s) && s.bitmask_field("channel-mask"@) is None,
{
    reveal_strlit("channels");
    reveal_strlit("channel-mask");
    assert("channels"@.len() == 8 && "channel-mask"@.len() == 12);
    reveal_with_fuel(crate::caps::lookup, 3);
    let s = mask_caps(channels).first()->0;
    let c = count_caps(channels).first()->0;
    assert(c.fields.skip(1) =~= Seq::empty());
    if s.fields.len() == 2 {
        assert(s.fields.skip(1)[0] == s.fields[1]);
        assert(s.fields.skip(1).skip(1) =~= Seq::empty());
    } else {
        assert(s.fields.skip(1) =~= Seq::empty());
    }
}

/// A pad settles on one count: a declared one is never overruled, nor is that of its current
/// caps; the link counts only where the current caps fix none. Where neither caps nor the
/// declaration say anything there is none.
pub proof fn pads_settle_on_one_count(current: Caps, link: Caps, declared: u32)
    ensures
        ({
            let now = caps_channels(current.deep_view());
            let common = caps_channels(link.deep_view());
            let settled = pad_channels(
                PadCaps { current: Some(current), link: Some(link) },
                declared,
            );
            &&& declared > 0 ==> (settled matches Ok(n) ==> n == declared)
            &&& now is Some ==> (settled matches Ok(n) ==> Some(n) == now)
            &&& now is None && common is Some ==> (settled matches Ok(n) ==> Some(n) == common)
            &&& declared == 0 && now is Some ==> settled is Ok
            &&& declared == 0 && common is Some ==> settled is Ok
            &&& now == Some(declared) && declared > 0 ==> settled is Ok
            &&& now is None && common is None ==> settled == if declared > 0 {
                Ok(declared)
            } else {
                Err(ChannelsError::Unknown)
            }
        }),
{
}

/// The first structure that fixes a count decides: those that fix none are passed over.
pub proof fn first_fixed_count_decides(all: Seq<StructureModel>, i: int, n: u32)
    requires
        0 <= i < all.len(),
        fixed_channels(all[i]) == Some(n),
        forall|j: int| 0 <= j < i ==> fixed_channels(#[trigger] all[j]) is None,
    ensures
        first_fixed(all) == Some(n),
    decreases i,
{
    if i > 0 {
        let rest = all.skip(1);
        assert forall|j: int| 0 <= j < i - 1 implies fixed_channels(#[trigger] rest[j]) is None by {
            assert(rest[j] == all[j + 1]);
        }
        assert(fixed_channels(all[0]) is None);
        first_fixed_count_decides(rest, i - 1, n);
    }
}

/// What is said of a mismatch names the pad, and the declared count before the negotiated one.
pub proof fn mismatch_names_both_counts(
    pad: Seq<char>,
    caps: Seq<char>,
    declared: u32,
    negotiated: u32,
)
    ensures
        ({
            let said = ChannelsError::Mismatch { declared, negotiated }.text(pad, caps);
            &&& says_in_order(said, decimal(declared as nat), decimal(negotiated as nat))
            &&& says_in_order(said, pad, decimal(declared as nat))
        }),
        says_in_order(ChannelsError::Unknown.text(pad, caps), pad, caps),
{
    let d = decimal(declared as nat);
    let n = decimal(negotiated as nat);
    let middle = "`: declared channels="@;
    let rest = " but negotiated caps have "@;
    let said = ChannelsError::Mismatch { declared, negotiated }.text(pad, caps);
    put_together_in_order("pad `"@ + pad + middle, d, rest, n, Seq::empty());
    assert(said =~= "pad `"@ + pad + middle + d + rest + n + Seq::<char>::empty());
    put_together_in_order("pad `"@, pad, middle, d, rest + n);
    assert(said =~= "pad `"@ + pad + middle + d + (rest + n));
    put_together_in_order(
        "pad `"@,
        pad,
        "`: link peers with fixed channel count in audio/x-raw caps, or set `channels` before READY→PAUSED (caps="@,
        caps,
        ")"@,
    );
}

/// `field` admits the count `k`.
pub open spec fn admits(field: FieldModel, k: int) -> bool {
    match field {
        FieldModel::Int(n) => k == n,
        FieldModel::IntRange(low, high) => low <= k <= high,
        _ => false,
    }
}

/// A count is fixed where the structure is of raw audio and its count field admits this count,
/// which is above zero, and no other.
pub proof fn fixed_count_is_the_only_one(s: StructureModel, n: u32)
    ensures
        fixed_channels(s) == Some(n) <==> {
            &&& s.name == "audio/x-raw"@
            &&& n > 0
            &&& s.field("channels"@) matches Some(field) && admits(field, n as int) && forall|
                k: int,
            | #[trigger]
                admits(field, k) ==> k == n
        },
{
    if let Some(field) = s.field("channels"@) {
        if let FieldModel::IntRange(low, high) = field {
            assert(admits(field, low as int) <==> low <= high);
            assert(admits(field, high as int) <==> low <= high);
        }
    }
}

} // verus!
