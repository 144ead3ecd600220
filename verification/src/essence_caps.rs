//! Essence caps helpers shared by the MXL (`flow_def`) and SDP transport paths.

use crate::caps::{
    with_field, Caps, CapsModel, Features, FeaturesModel, FieldModel, FieldValue, Structure,
    StructureModel,
};
use crate::text::{around, decimal, decimal_text, same_text};
use vstd::prelude::*;

verus! {

/// SMPTE ST 2110-30 `channel-order` for a channel count: `M` for mono, `ST` for stereo,
/// and the Undefined group `Uxx` for all other layouts (3 to 64 channels).
pub open spec fn channel_order(channels: int) -> Seq<char> {
    if channels == 1 {
        "SMPTE2110.(M)"@
    } else if channels == 2 {
        "SMPTE2110.(ST)"@
    } else if 3 <= channels < 10 {
        "SMPTE2110.(U0"@ + decimal(channels as nat) + ")"@
    } else if 10 <= channels <= 64 {
        "SMPTE2110.(U"@ + decimal(channels as nat) + ")"@
    } else {
        "SMPTE2110.(U01)"@
    }
}

/// Default SMPTE ST 2110-30 `channel-order` fmtp for a channel count when none is
/// supplied.
pub fn default_smpte2110_channel_order(channels: i32) -> (order: String)
    ensures
        order@ == channel_order(channels as int),
{
    if channels == 1 {
        "SMPTE2110.(M)".to_owned()
    } else if channels == 2 {
        "SMPTE2110.(ST)".to_owned()
    } else if 3 <= channels && channels < 10 {
        around("SMPTE2110.(U0", decimal_text(channels as u64).as_str(), ")")
    } else if 10 <= channels && channels <= 64 {
        around("SMPTE2110.(U", decimal_text(channels as u64).as_str(), ")")
    } else {
        "SMPTE2110.(U01)".to_owned()
    }
}

/// `2^n`.
pub open spec fn power_of_two(n: nat) -> nat
    decreases n,
{
    if n == 0 {
        1
    } else {
        2 * power_of_two((n - 1) as nat)
    }
}

/// One bit per channel, for 1 to 64 channels.
pub open spec fn channel_mask(channels: int) -> Option<u64> {
    if 1 <= channels <= 64 {
        Some((power_of_two(channels as nat) - 1) as u64)
    } else {
        None
    }
}

pub fn default_channel_mask(channels: i32) -> (mask: Option<u64>)
    ensures
        mask == channel_mask(channels as int),
{
    if channels < 1 || channels > 64 {
        return None;
    }
    let mut mask: u64 = 0;
    let mut i: i32 = 0;
    while i < channels
        invariant
            0 <= i <= channels <= 64,
            mask + 1 == power_of_two(i as nat),
            i < 64 ==> mask < 0x8000_0000_0000_0000,
        decreases channels - i,
    {
        proof {
            powers_bounded(i as nat + 1);
        }
        mask = 2 * mask + 1;
        i = i + 1;
    }
    Some(mask)
}

proof fn powers_bounded(n: nat)
    requires
        n <= 64,
    ensures
        power_of_two(n) <= 0x1_0000_0000_0000_0000,
        n < 64 ==> power_of_two(n) <= 0x8000_0000_0000_0000,
    decreases 64 - n,
{
    if n < 64 {
        powers_bounded(n + 1);
        assert(power_of_two(n + 1) == 2 * power_of_two(n));
    } else {
        powers_sixty_four();
    }
}

proof fn powers_sixty_four()
    ensures
        power_of_two(64) == 0x1_0000_0000_0000_0000,
{
    reveal_with_fuel(power_of_two, 65);
}

/// Read `channel-order` from parsed `application/x-rtp` caps (the fmtp `channel-order=`
/// slot from SDP).
pub fn channel_order_from_rtp_structure(s: &Structure) -> (r: Option<String>)
    ensures
        r.deep_view() == s.deep_view().text_field("channel-order"@),
{
    match s.get_text("channel-order") {
        Some(order) => Some(order.to_owned()),
        None => None,
    }
}

/// An audio structure with its optional fields filled in where absent: the mask follows
/// from the channel count, where it can; the order is the given one, or follows from the
/// channel count.
pub open spec fn filled_audio(s: StructureModel, order: Option<Seq<char>>) -> StructureModel {
    let channels = match s.int_field("channels"@) {
        Some(n) => n as int,
        None => 1,
    };
    let masked = match (s.bitmask_field("channel-mask"@), channel_mask(channels)) {
        (None, Some(mask)) => with_field(s.fields, "channel-mask"@, FieldModel::Bitmask(mask)),
        _ => s.fields,
    };
    let ordered = if s.text_field("channel-order"@) is None {
        with_field(
            masked,
            "channel-order"@,
            FieldModel::Text(
                match order {
                    Some(o) => o,
                    None => channel_order(channels),
                },
            ),
        )
    } else {
        masked
    };
    StructureModel { fields: ordered, ..s }
}

/// Audio caps with the optional fields of the first structure filled in.
pub open spec fn filled_audio_caps(caps: CapsModel, order: Option<Seq<char>>) -> CapsModel {
    match caps {
        CapsModel::Structures(all) => if all.len() > 0 {
            CapsModel::Structures(all.update(0, filled_audio(all[0], order)))
        } else {
            caps
        },
        CapsModel::Any => caps,
    }
}

/// Audio caps with the optional fields of the first structure filled in where absent.
pub fn audio_caps_from(caps: &Caps, channel_order: Option<&str>) -> (out: Caps)
    ensures
        out.deep_view() == filled_audio_caps(caps.deep_view(), channel_order.deep_view()),
{
    let mut out = caps.copy();
    match &mut out {
        Caps::Any => {},
        Caps::Structures(all) => {
            if all.len() > 0 {
                let ghost before = all.deep_view();
                fill_audio(&mut all[0], channel_order);
                assert(all.deep_view() =~= before.update(
                    0,
                    filled_audio(before[0], channel_order.deep_view()),
                ));
            }
        },
    }
    out
}

fn fill_audio(s: &mut Structure, channel_order: Option<&str>)
    ensures
        final(s).deep_view() == filled_audio(old(s).deep_view(), channel_order.deep_view()),
{
    let needs_mask: bool = s.get_bitmask("channel-mask").is_none();
    let needs_order: bool = s.get_text("channel-order").is_none();
    let channels: i32 = match s.get_int("channels") {
        Some(n) => n,
        None => 1,
    };
    if needs_mask {
        if let Some(mask) = default_channel_mask(channels) {
            s.set("channel-mask", FieldValue::Bitmask(mask));
        }
    }
    if needs_order {
        let order: String = match channel_order {
            Some(o) => o.to_owned(),
            None => default_smpte2110_channel_order(channels),
        };
        s.set("channel-order", FieldValue::Text(order));
    }
}

/// Essence caps from parsed transport state.
pub open spec fn essence_caps(caps: CapsModel, rtp_caps: Option<CapsModel>) -> CapsModel {
    if caps.first() matches Some(s) && s.name == "audio/x-raw"@ {
        let order = match rtp_caps {
            Some(rtp) => match rtp.first() {
                Some(s) => s.text_field("channel-order"@),
                None => None,
            },
            None => None,
        };
        filled_audio_caps(caps, order)
    } else {
        caps
    }
}

/// Build essence caps from parsed transport state: optional fields are filled in where
/// absent (audio `channel-mask` and `channel-order`; video and ANC pass through
/// unchanged).
///
/// When `rtp_caps` is supplied, audio `channel-order` is taken from the fmtp slot on the
/// companion `application/x-rtp` caps; otherwise audio defaults use channel count.
pub fn caps_from(caps: &Caps, rtp_caps: Option<&Caps>) -> (out: Caps)
    ensures
        out.deep_view() == essence_caps(caps.deep_view(), rtp_caps.deep_view()),
{
    let audio: bool = match caps.first() {
        Some(s) => same_text(s.name.as_str(), "audio/x-raw"),
        None => false,
    };
    if audio {
        let order: Option<String> = match rtp_caps {
            Some(rtp) => match rtp.first() {
                Some(s) => channel_order_from_rtp_structure(s),
                None => None,
            },
            None => None,
        };
        match order {
            Some(o) => audio_caps_from(caps, Some(o.as_str())),
            None => audio_caps_from(caps, None),
        }
    } else {
        caps.copy()
    }
}

/// The features of the first structure, where they name any.
pub open spec fn requested_features(source: Option<CapsModel>) -> Option<FeaturesModel> {
    match source {
        None => None,
        Some(caps) => match caps.first() {
            None => None,
            Some(s) => match s.features {
                FeaturesModel::Any => None,
                FeaturesModel::Named(names) => if names.len() == 0 {
                    None
                } else {
                    Some(s.features)
                },
            },
        },
    }
}

/// `base` with the requested features on its first structure, where it has one.
pub open spec fn with_features(base: CapsModel, features: Option<FeaturesModel>) -> CapsModel {
    match (base, features) {
        (CapsModel::Structures(all), Some(f)) => if all.len() > 0 {
            CapsModel::Structures(all.update(0, StructureModel { features: f, ..all[0] }))
        } else {
            base
        },
        _ => base,
    }
}

/// Copy the caps features (e.g. `memory:NVMM`) from `source`'s first structure onto a
/// copy of `base`.
///
/// Transport files have no representation for caps features. When a `caps` property
/// requests a non-default feature set, this re-attaches it onto the file-derived essence
/// caps. A `source` with an empty feature set or `ANY` leaves `base` unchanged.
pub fn overlay_features(base: &Caps, source: Option<&Caps>) -> (out: Caps)
    ensures
        out.deep_view() == with_features(
            base.deep_view(),
            requested_features(source.deep_view()),
        ),
{
    let mut out = base.copy();
    let features: Option<Features> = match source {
        None => None,
        Some(caps) => match caps.first() {
            None => None,
            Some(s) => match &s.features {
                Features::Any => None,
                Features::Named(names) => if names.len() == 0 {
                    None
                } else {
                    Some(s.features.copy())
                },
            },
        },
    };
    match features {
        None => {},
        Some(f) => {
            let ghost model = f.deep_view();
            match &mut out {
                Caps::Any => {},
                Caps::Structures(all) => {
                    if all.len() > 0 {
                        let ghost before = all.deep_view();
                        set_features(&mut all[0], f);
                        assert(all.deep_view() =~= before.update(
                            0,
                            StructureModel { features: model, ..before[0] },
                        ));
                    }
                },
            }
        },
    }
    out
}

fn set_features(s: &mut Structure, features: Features)
    ensures
        final(s).deep_view() == (StructureModel {
            features: features.deep_view(),
            ..old(s).deep_view()
        }),
{
    s.features = features;
}

/// Every structure in plain system memory.
pub open spec fn featureless(caps: CapsModel) -> CapsModel {
    match caps {
        CapsModel::Any => caps,
        CapsModel::Structures(all) => CapsModel::Structures(
            all.map_values(
                |s: StructureModel|
                    StructureModel { features: FeaturesModel::Named(Seq::empty()), ..s },
            ),
        ),
    }
}

/// Copy `caps` with every structure's feature set emptied (the system-memory default), so
/// that a requested feature does not read as a shape mismatch. Complements
/// [`overlay_features`].
pub fn without_features(caps: &Caps) -> (out: Caps)
    ensures
        out.deep_view() == featureless(caps.deep_view()),
{
    match caps {
        Caps::Any => Caps::Any,
        Caps::Structures(all) => {
            let mut plain: Vec<Structure> = Vec::new();
            let mut i: usize = 0;
            while i < all.len()
                invariant
                    i <= all@.len(),
                    plain@.len() == i,
                    forall|j: int|
                        0 <= j < i ==> (#[trigger] plain@[j]).deep_view() == (StructureModel {
                            features: FeaturesModel::Named(Seq::empty()),
                            ..all@[j].deep_view()
                        }),
                decreases all@.len() - i,
            {
                let mut s = all[i].copy();
                set_features(&mut s, Features::system_memory());
                plain.push(s);
                i = i + 1;
            }
            assert(plain.deep_view() =~= all.deep_view().map_values(
                |s: StructureModel|
                    StructureModel { features: FeaturesModel::Named(Seq::empty()), ..s },
            ));
            Caps::Structures(plain)
        },
    }
}

/// Overlaying features changes nothing but features: stripped of them, the result is
/// what `base` is stripped of them.
pub proof fn overlay_keeps_shape(base: CapsModel, source: Option<CapsModel>)
    ensures
        featureless(with_features(base, requested_features(source))) == featureless(base),
{
    match (base, requested_features(source)) {
        (CapsModel::Structures(all), Some(f)) => {
            if all.len() > 0 {
                let strip = |s: StructureModel|
                    StructureModel { features: FeaturesModel::Named(Seq::empty()), ..s };
                assert(all.update(0, StructureModel { features: f, ..all[0] }).map_values(strip)
                    =~= all.map_values(strip));
            }
        },
        _ => {},
    }
}

/// Filled-in audio caps are complete: filling them in again changes nothing.
pub proof fn filling_audio_is_idempotent(s: StructureModel, order: Option<Seq<char>>)
    ensures
        filled_audio(filled_audio(s, order), order) == filled_audio(s, order),
{
    reveal_strlit("channel-mask");
    reveal_strlit("channel-order");
    reveal_strlit("channels");
    assert("channel-mask"@.len() == 12 && "channel-order"@.len() == 13 && "channels"@.len() == 8);
    let channels = match s.int_field("channels"@) {
        Some(n) => n as int,
        None => 1,
    };
    let masked = match (s.bitmask_field("channel-mask"@), channel_mask(channels)) {
        (None, Some(mask)) => with_field(s.fields, "channel-mask"@, FieldModel::Bitmask(mask)),
        _ => s.fields,
    };
    if let Some(mask) = channel_mask(channels) {
        let v = FieldModel::Bitmask(mask);
        crate::caps::set_field_is_found(s.fields, "channel-mask"@, v, "channels"@);
        crate::caps::set_field_is_found(s.fields, "channel-mask"@, v, "channel-order"@);
    }
    let o = FieldModel::Text(
        match order {
            Some(o) => o,
            None => channel_order(channels),
        },
    );
    crate::caps::set_field_is_found(masked, "channel-order"@, o, "channels"@);
    crate::caps::set_field_is_found(masked, "channel-order"@, o, "channel-mask"@);
}

/// A mask has a bit for each channel, the lowest first: one channel has bit 0, and a further one
/// adds the next bit.
pub proof fn mask_grows_by_a_bit(n: int)
    requires
        1 <= n < 64,
    ensures
        channel_mask(1) == Some(1u64),
        (channel_mask(n), channel_mask(n + 1)) matches (Some(a), Some(b)) && b == 2 * a + 1,
        channel_mask(0) is None,
        channel_mask(64) is Some,
        channel_mask(65) is None,
{
    reveal_with_fuel(power_of_two, 2);
    powers_bounded(n as nat);
    powers_bounded((n + 1) as nat);
    assert(power_of_two((n + 1) as nat) == 2 * power_of_two(n as nat));
    powers_positive(n as nat);
}

proof fn powers_positive(n: nat)
    ensures
        power_of_two(n) >= 1,
    decreases n,
{
    if n > 0 {
        powers_positive((n - 1) as nat);
    }
}

/// A channel order with an undefined layout says how many channels there are, in two digits.
pub proof fn channel_order_counts_channels(n: int)
    requires
        3 <= n <= 64,
    ensures
        channel_order(n).len() == 15,
        channel_order(n).take(12) == "SMPTE2110.(U"@,
        10 * (channel_order(n)[12] as int - '0' as int) + (channel_order(n)[13] as int - '0' as int)
            == n,
        channel_order(n)[14] == ')',
{
    reveal_strlit("SMPTE2110.(U");
    reveal_strlit("SMPTE2110.(U0");
    reveal_strlit(")");
    reveal_with_fuel(decimal, 3);
    let order = channel_order(n);
    assert("SMPTE2110.(U"@.len() == 12 && "SMPTE2110.(U0"@.len() == 13);
    if n < 10 {
        assert(decimal(n as nat) =~= seq![crate::text::digit_char(n as nat)]);
        assert(order[12] == '0');
        assert(order[13] == crate::text::digit_char(n as nat));
    } else {
        let d = decimal(n as nat);
        assert(d =~= seq![
            crate::text::digit_char((n / 10) as nat),
            crate::text::digit_char((n % 10) as nat),
        ]);
        assert(order[12] == d[0] && order[13] == d[1]);
    }
    assert(order.take(12) =~= "SMPTE2110.(U"@);
}

/// Audio caps are completed and nothing else: a mask and an order that are there stay; a missing
/// mask has a bit per channel; a missing order is that of the RTP caps, or else follows from the
/// channel count; every other field, the name and the features stay, and so do further
/// structures.
pub proof fn audio_caps_are_completed(
    caps: CapsModel,
    rtp_caps: Option<CapsModel>,
    s: StructureModel,
    channels: i32,
    name: Seq<char>,
)
    requires
        caps.first() == Some(s),
        s.name == "audio/x-raw"@,
        s.int_field("channels"@) == Some(channels),
        1 <= channels <= 64,
    ensures
        essence_caps(caps, rtp_caps).first() is Some,
        ({
            let out = essence_caps(caps, rtp_caps).first()->0;
            let told = match rtp_caps {
                Some(rtp) => match rtp.first() {
                    Some(r) => r.text_field("channel-order"@),
                    None => None,
                },
                None => None,
            };
            &&& out.name == s.name
            &&& out.features == s.features
            &&& name != "channel-mask"@ && name != "channel-order"@ ==> out.field(name) == s.field(
                name,
            )
            &&& match (s.text_field("channel-order"@), told) {
                (Some(order), _) => out.text_field("channel-order"@) == Some(order),
                (None, Some(order)) => out.text_field("channel-order"@) == Some(order),
                (None, None) => out.text_field("channel-order"@) == Some(
                    channel_order(channels as int),
                ),
            }
            &&& match s.bitmask_field("channel-mask"@) {
                Some(mask) => out.bitmask_field("channel-mask"@) == Some(mask),
                None => out.bitmask_field("channel-mask"@) == channel_mask(channels as int),
            }
        }),
        (caps, essence_caps(caps, rtp_caps)) matches (
            CapsModel::Structures(before),
            CapsModel::Structures(after),
        ) && before.len() == after.len() && forall|i: int|
            1 <= i < before.len() ==> #[trigger] after[i] == before[i],
{
    reveal_strlit("channel-mask");
    reveal_strlit("channel-order");
    reveal_strlit("channels");
    assert("channel-mask"@.len() == 12 && "channel-order"@.len() == 13 && "channels"@.len() == 8);
    let order = match rtp_caps {
        Some(rtp) => match rtp.first() {
            Some(r) => r.text_field("channel-order"@),
            None => None,
        },
        None => None,
    };
    let mask = channel_mask(channels as int)->0;
    let m = FieldModel::Bitmask(mask);
    let masked = if s.bitmask_field("channel-mask"@) is None {
        with_field(s.fields, "channel-mask"@, m)
    } else {
        s.fields
    };
    crate::caps::set_field_is_found(s.fields, "channel-mask"@, m, name);
    crate::caps::set_field_is_found(s.fields, "channel-mask"@, m, "channel-order"@);
    let o = FieldModel::Text(
        match order {
            Some(o) => o,
            None => channel_order(channels as int),
        },
    );
    crate::caps::set_field_is_found(masked, "channel-order"@, o, name);
    crate::caps::set_field_is_found(masked, "channel-order"@, o, "channel-mask"@);
    assert(essence_caps(caps, rtp_caps).first() == Some(filled_audio(s, order)));
}

/// Video and ancillary data pass through unchanged.
pub proof fn other_caps_pass_through(caps: CapsModel, rtp_caps: Option<CapsModel>)
    requires
        caps.first() matches Some(s) ==> s.name != "audio/x-raw"@,
    ensures
        essence_caps(caps, rtp_caps) == caps,
{
}

/// The first structure takes over features that are asked for, and keeps its own where none are;
/// its name and fields stay.
pub proof fn requested_features_are_taken_over(
    base: CapsModel,
    source: CapsModel,
    b: StructureModel,
    s: StructureModel,
)
    requires
        base.first() == Some(b),
        source.first() == Some(s),
    ensures
        with_features(base, requested_features(Some(source))).first() matches Some(out) && out.name
            == b.name && out.fields == b.fields && out.features == if (
        s.features matches FeaturesModel::Named(names) && names.len() > 0) {
            s.features
        } else {
            b.features
        },
        with_features(base, requested_features(None)) == base,
{
}

/// Without features, caps keep their structures, with every name and field.
pub proof fn shape_survives_without_features(caps: CapsModel, i: int)
    requires
        caps matches CapsModel::Structures(all) && 0 <= i < all.len(),
    ensures
        (caps, featureless(caps)) matches (
            CapsModel::Structures(before),
            CapsModel::Structures(after),
        ) && before.len() == after.len() && after[i].name == before[i].name && after[i].fields
            == before[i].fields && (after[i].features matches FeaturesModel::Named(names)
            && names.len() == 0),
{
}

/// Audio caps without a channel count are completed as those of one channel are.
pub proof fn uncounted_audio_is_mono(
    s: StructureModel,
    counted: StructureModel,
    order: Option<Seq<char>>,
)
    requires
        s.int_field("channels"@) is None,
        s.bitmask_field("channel-mask"@) is None,
        s.text_field("channel-order"@) is None,
        counted.int_field("channels"@) == Some(1i32),
        counted.bitmask_field("channel-mask"@) is None,
        counted.text_field("channel-order"@) is None,
    ensures
        filled_audio(s, order).bitmask_field("channel-mask"@) == filled_audio(
            counted,
            order,
        ).bitmask_field("channel-mask"@),
        filled_audio(s, order).text_field("channel-order"@) == filled_audio(
            counted,
            order,
        ).text_field("channel-order"@),
{
    reveal_strlit("channel-mask");
    reveal_strlit("channel-order");
    assert("channel-mask"@.len() == 12 && "channel-order"@.len() == 13);
    mono_is_filled(s, order);
    mono_is_filled(counted, order);
}

proof fn mono_is_filled(s: StructureModel, order: Option<Seq<char>>)
    requires
        s.int_field("channels"@) is None || s.int_field("channels"@) == Some(1i32),
        s.bitmask_field("channel-mask"@) is None,
        s.text_field("channel-order"@) is None,
        "channel-mask"@ != "channel-order"@,
    ensures
        filled_audio(s, order).bitmask_field("channel-mask"@) == channel_mask(1),
        filled_audio(s, order).text_field("channel-order"@) == Some(
            match order {
                Some(o) => o,
                None => channel_order(1),
            },
        ),
{
    let mask = channel_mask(1)->0;
    let masked = with_field(s.fields, "channel-mask"@, FieldModel::Bitmask(mask));
    let o = match order {
        Some(o) => o,
        None => channel_order(1),
    };
    crate::caps::set_field_is_found(
        s.fields,
        "channel-mask"@,
        FieldModel::Bitmask(mask),
        "channel-order"@,
    );
    crate::caps::set_field_is_found(
        masked,
        "channel-order"@,
        FieldModel::Text(o),
        "channel-mask"@,
    );
}

} // verus!
