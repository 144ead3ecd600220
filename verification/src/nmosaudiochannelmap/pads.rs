//! The pads of the channel-mapping element: how they are named and ordered, and their
//! properties.

use crate::channel_mapping::types::ActiveMapField;
use crate::property::{PropertyKind, PropertySpec};
use crate::rebuild::Direction;
use crate::text::{
    chars_of, decimal, decimal_is_digits, decimal_is_injective, decimal_text, has_prefix, is_digit,
    joined, parse_u32, same_text, says, says_at, starts_with, unsigned_value,
};
use vstd::prelude::*;

verus! {

// ---- names ------------------------------------------------------------------

/// Which pads can be requested: the next indices for those that come without a name of their
/// own, and whether the set of pads is frozen.
#[derive(Debug, Clone, Copy, PartialEq, Eq, Structural)]
pub struct PadNames {
    pub next_sink: u32,
    pub next_src: u32,
    /// Whether the set of pads is frozen.
    pub frozen: bool,
}

/// The caller leaves the name open.
pub open spec fn name_is_open(name: Option<Seq<char>>) -> bool {
    match name {
        None => true,
        Some(n) => n.len() == 0 || n == "sink_%u"@ || n == "src_%u"@,
    }
}

pub open spec fn sink_name(index: u32) -> Seq<char> {
    "sink_"@ + decimal(index as nat)
}

pub open spec fn src_name(index: u32) -> Seq<char> {
    "src_"@ + decimal(index as nat)
}

impl PadNames {
    /// Let no pad be requested or released any more.
    pub fn freeze(&mut self)
        ensures
            *final(self) == (PadNames { frozen: true, ..*old(self) }),
    {
        self.frozen = true;
    }

    /// Let pads be requested and released again.
    pub fn thaw(&mut self)
        ensures
            *final(self) == (PadNames { frozen: false, ..*old(self) }),
    {
        self.frozen = false;
    }

    /// The name of a pad that is requested: the caller's, or the next in line. No pad is
    /// given out while the set of pads is frozen.
    pub fn request_new_pad(&mut self, direction: Direction, name: Option<&str>) -> (r: Option<
        String,
    >)
        requires
            direction == Direction::Sink ==> old(self).next_sink < u32::MAX,
            direction == Direction::Src ==> old(self).next_src < u32::MAX,
        ensures
            old(self).frozen ==> r is None && *final(self) == *old(self),
            !old(self).frozen && !name_is_open(name.deep_view()) ==> (r matches Some(n) && n@
                == name->0@) && *final(self) == *old(self),
            !old(self).frozen && name_is_open(name.deep_view()) ==> match direction {
                Direction::Sink => (r matches Some(n) && n@ == sink_name(old(self).next_sink))
                    && *final(self) == (PadNames {
                    next_sink: (old(self).next_sink + 1) as u32,
                    ..*old(self)
                }),
                Direction::Src => (r matches Some(n) && n@ == src_name(old(self).next_src))
                    && *final(self) == (PadNames {
                    next_src: (old(self).next_src + 1) as u32,
                    ..*old(self)
                }),
            },
    {
        if self.frozen {
            return None;
        }
        if let Some(n) = name {
            if !n.is_empty() && !same_text(n, "sink_%u") && !same_text(n, "src_%u") {
                return Some(n.to_owned());
            }
        }
        match direction {
            Direction::Sink => {
                let index: u32 = self.next_sink;
                self.next_sink = index + 1;
                Some(joined("sink_", decimal_text(index as u64).as_str()))
            },
            Direction::Src => {
                let index: u32 = self.next_src;
                self.next_src = index + 1;
                Some(joined("src_", decimal_text(index as u64).as_str()))
            },
        }
    }

    /// Whether a pad may be released: not while the set of pads is frozen.
    pub fn release_pad(&self) -> (r: bool)
        ensures
            r == !self.frozen,
    {
        !self.frozen
    }
}

/// Pads that are named in line never share a name.
pub proof fn names_in_line_differ(i: u32, j: u32)
    requires
        i != j,
    ensures
        sink_name(i) != sink_name(j),
        src_name(i) != src_name(j),
{
    if sink_name(i) == sink_name(j) {
        assert(sink_name(i).skip("sink_"@.len() as int) =~= decimal(i as nat));
        assert(sink_name(j).skip("sink_"@.len() as int) =~= decimal(j as nat));
        decimal_is_injective(i as nat, j as nat);
    }
    if src_name(i) == src_name(j) {
        assert(src_name(i).skip("src_"@.len() as int) =~= decimal(i as nat));
        assert(src_name(j).skip("src_"@.len() as int) =~= decimal(j as nat));
        decimal_is_injective(i as nat, j as nat);
    }
}

// ---- order ------------------------------------------------------------------

/// What follows the last `c`, or the whole text where there is none.
pub open spec fn after_last(text: Seq<char>, c: char) -> Seq<char>
    decreases text.len(),
{
    if text.len() == 0 || text.last() == c {
        Seq::empty()
    } else {
        after_last(text.drop_last(), c).push(text.last())
    }
}

/// The index in a pad's name: the number after the last underscore, 0 where there is none.
pub open spec fn index_in_name(name: Seq<char>) -> u32 {
    match unsigned_value(after_last(name, '_'), u32::MAX as nat) {
        Some(n) => n as u32,
        None => 0,
    }
}

proof fn after_last_from(text: Seq<char>, c: char, k: int)
    requires
        0 <= k <= text.len(),
        k == 0 || text[k - 1] == c,
        forall|j: int| k <= j < text.len() ==> text[j] != c,
    ensures
        after_last(text, c) == text.skip(k),
    decreases text.len(),
{
    if text.len() == k {
        assert(text.skip(k) =~= Seq::empty());
    } else {
        after_last_from(text.drop_last(), c, k);
        assert(text.drop_last().skip(k).push(text.last()) =~= text.skip(k));
    }
}

pub fn pad_index(name: &str) -> (index: u32)
    ensures
        index == index_in_name(name@),
{
    let chars = chars_of(name);
    let mut k: usize = chars.len();
    while k > 0 && chars[k - 1] != '_'
        invariant
            k <= chars@.len(),
            chars@ == name@,
            forall|j: int| k <= j < chars@.len() ==> chars@[j] != '_',
        decreases k,
    {
        k = k - 1;
    }
    proof {
        after_last_from(name@, '_', k as int);
    }
    match parse_u32(name.substring_char(k, chars.len())) {
        Some(n) => n,
        None => 0,
    }
}

/// `a` comes before `b`: by the index in its name, then by its place.
pub open spec fn comes_before(names: Seq<String>, a: int, b: int) -> bool {
    let x = index_in_name(names[a]@);
    let y = index_in_name(names[b]@);
    x < y || (x == y && a < b)
}

/// The places of the names with the prefix, among the first `n`, in order.
pub open spec fn ordered_places(
    places: Seq<usize>,
    names: Seq<String>,
    prefix: Seq<char>,
    n: int,
) -> bool {
    &&& forall|k: int|
        0 <= k < places.len() ==> (#[trigger] places[k]) < n && has_prefix(
            names[places[k] as int]@,
            prefix,
        )
    &&& forall|i: int|
        0 <= i < n && has_prefix((#[trigger] names[i])@, prefix) ==> places.contains(i as usize)
    &&& forall|a: int, b: int|
        0 <= a < b < places.len() ==> comes_before(
            names,
            #[trigger] places[a] as int,
            #[trigger] places[b] as int,
        )
}

/// The places of the pads with the prefix, in order of the index in their name.
pub fn places_in_order(names: &[String], prefix: &str) -> (places: Vec<usize>)
    ensures
        ordered_places(places@, names@, prefix@, names@.len() as int),
{
    let mut places: Vec<usize> = Vec::new();
    let mut i: usize = 0;
    while i < names.len()
        invariant
            i <= names@.len(),
            ordered_places(places@, names@, prefix@, i as int),
        decreases names@.len() - i,
    {
        if starts_with(names[i].as_str(), prefix) {
            let index: u32 = pad_index(names[i].as_str());
            let mut at: usize = places.len();
            while at > 0 && pad_index(names[places[at - 1]].as_str()) > index
                invariant
                    i < names@.len(),
                    at <= places@.len(),
                    index == index_in_name(names@[i as int]@),
                    ordered_places(places@, names@, prefix@, i as int),
                    forall|k: int|
                        at <= k < places@.len() ==> index_in_name(
                            names@[#[trigger] places@[k] as int]@,
                        ) > index,
                decreases at,
            {
                at = at - 1;
            }
            proof {
                insert_place(places@, names@, prefix@, i as int, at as int);
            }
            places.insert(at, i);
        } else {
            proof {
                assert forall|j: int|
                    0 <= j < i + 1 && has_prefix((#[trigger] names@[j])@, prefix@) implies places@.contains(
                    j as usize,
                ) by {
                    assert(j < i);
                }
            }
        }
        i = i + 1;
    }
    places
}

proof fn insert_place(
    places: Seq<usize>,
    names: Seq<String>,
    prefix: Seq<char>,
    i: int,
    at: int,
)
    requires
        0 <= i < names.len(),
        names.len() <= usize::MAX,
        ordered_places(places, names, prefix, i),
        has_prefix(names[i]@, prefix),
        0 <= at <= places.len(),
        forall|k: int|
            at <= k < places.len() ==> index_in_name(names[#[trigger] places[k] as int]@)
                > index_in_name(names[i]@),
        at > 0 ==> index_in_name(names[places[at - 1] as int]@) <= index_in_name(names[i]@),
    ensures
        ordered_places(places.insert(at, i as usize), names, prefix, i + 1),
{
    let after = places.insert(at, i as usize);
    assert forall|k: int| 0 <= k < at implies index_in_name(names[#[trigger] places[k] as int]@)
        <= index_in_name(names[i]@) by {
        if k < at - 1 {
            assert(comes_before(names, places[k] as int, places[at - 1] as int));
        }
    }
    assert forall|k: int| 0 <= k < after.len() implies (#[trigger] after[k]) < i + 1 && has_prefix(
        names[after[k] as int]@,
        prefix,
    ) by {
        if k < at {
            assert(after[k] == places[k]);
        } else if k > at {
            assert(after[k] == places[k - 1]);
        }
    }
    assert forall|j: int| 0 <= j < i + 1 && has_prefix((#[trigger] names[j])@, prefix) implies after.contains(
        j as usize,
    ) by {
        if j < i {
            let k = choose|k: int| 0 <= k < places.len() && places[k] == j as usize;
            assert(after[if k < at {
                k
            } else {
                k + 1
            }] == places[k]);
        } else {
            assert(after[at] == i as usize);
        }
    }
    assert forall|a: int, b: int| 0 <= a < b < after.len() implies comes_before(
        names,
        #[trigger] after[a] as int,
        #[trigger] after[b] as int,
    ) by {
        let x = if a < at {
            places[a]
        } else if a == at {
            i as usize
        } else {
            places[a - 1]
        };
        let y = if b < at {
            places[b]
        } else if b == at {
            i as usize
        } else {
            places[b - 1]
        };
        assert(after[a] == x && after[b] == y);
        if a < at && b == at {
            assert(places[a] < i);
        }
    }
}

/// The element's request pads, sink pads and src pads, each in order of the index in their
/// name.
pub fn collect_request_pads(names: &[String]) -> (r: (Vec<usize>, Vec<usize>))
    ensures
        ordered_places(r.0@, names@, "sink_"@, names@.len() as int),
        ordered_places(r.1@, names@, "src_"@, names@.len() as int),
{
    (places_in_order(names, "sink_"), places_in_order(names, "src_"))
}

// ---- properties -------------------------------------------------------------

/// A property of a sink pad.
#[derive(Debug, Clone, Copy, PartialEq, Eq, Structural)]
pub enum SinkPadProperty {
    ReceiverName,
    InputId,
    Label,
    Description,
    Channels,
}

/// A property of a src pad.
#[derive(Debug, Clone, Copy, PartialEq, Eq, Structural)]
pub enum SrcPadProperty {
    SenderName,
    OutputId,
    Label,
    Description,
    Channels,
    ActiveMap,
}

/// The value of a pad property.
#[derive(Debug)]
pub enum PadValue {
    Text(String),
    Channels(u32),
    ActiveMap(Option<Vec<ActiveMapField>>),
}

impl SinkPadProperty {
    pub open spec fn name(self) -> Seq<char> {
        match self {
            SinkPadProperty::ReceiverName => "receiver-name"@,
            SinkPadProperty::InputId => "input-id"@,
            SinkPadProperty::Label => "label"@,
            SinkPadProperty::Description => "description"@,
            SinkPadProperty::Channels => "channels"@,
        }
    }

    /// The property of the given name.
    pub fn from_name(name: &str) -> (r: Option<SinkPadProperty>)
        ensures
            match r {
                Some(p) => p.name() == name@,
                None => forall|p: SinkPadProperty| (#[trigger] p.name()) != name@,
            },
    {
        if same_text(name, "receiver-name") {
            Some(SinkPadProperty::ReceiverName)
        } else if same_text(name, "input-id") {
            Some(SinkPadProperty::InputId)
        } else if same_text(name, "label") {
            Some(SinkPadProperty::Label)
        } else if same_text(name, "description") {
            Some(SinkPadProperty::Description)
        } else if same_text(name, "channels") {
            Some(SinkPadProperty::Channels)
        } else {
            None
        }
    }

    pub open spec fn takes(self, value: PadValue) -> bool {
        match self {
            SinkPadProperty::Channels => value is Channels,
            _ => value is Text,
        }
    }
}

impl SrcPadProperty {
    pub open spec fn name(self) -> Seq<char> {
        match self {
            SrcPadProperty::SenderName => "sender-name"@,
            SrcPadProperty::OutputId => "output-id"@,
            SrcPadProperty::Label => "label"@,
            SrcPadProperty::Description => "description"@,
            SrcPadProperty::Channels => "channels"@,
            SrcPadProperty::ActiveMap => "active-map"@,
        }
    }

    /// The property of the given name.
    pub fn from_name(name: &str) -> (r: Option<SrcPadProperty>)
        ensures
            match r {
                Some(p) => p.name() == name@,
                None => forall|p: SrcPadProperty| (#[trigger] p.name()) != name@,
            },
    {
        if same_text(name, "sender-name") {
            Some(SrcPadProperty::SenderName)
        } else if same_text(name, "output-id") {
            Some(SrcPadProperty::OutputId)
        } else if same_text(name, "label") {
            Some(SrcPadProperty::Label)
        } else if same_text(name, "description") {
            Some(SrcPadProperty::Description)
        } else if same_text(name, "channels") {
            Some(SrcPadProperty::Channels)
        } else if same_text(name, "active-map") {
            Some(SrcPadProperty::ActiveMap)
        } else {
            None
        }
    }

    pub open spec fn takes(self, value: PadValue) -> bool {
        match self {
            SrcPadProperty::Channels => value is Channels,
            SrcPadProperty::ActiveMap => value is ActiveMap,
            _ => value is Text,
        }
    }
}

impl SinkPadProperty {
    /// What the property takes.
    pub open spec fn kind(self) -> PropertyKind {
        match self {
            SinkPadProperty::ReceiverName => PropertyKind::Text,
            SinkPadProperty::InputId => PropertyKind::Text,
            SinkPadProperty::Label => PropertyKind::Text,
            SinkPadProperty::Description => PropertyKind::Text,
            SinkPadProperty::Channels => PropertyKind::UInt { max: u32::MAX },
        }
    }

    /// What the property is called for people.
    pub open spec fn nick(self) -> Seq<char> {
        match self {
            SinkPadProperty::ReceiverName => "Receiver Name"@,
            SinkPadProperty::InputId => "Input ID"@,
            SinkPadProperty::Label => "IS-08 Name"@,
            SinkPadProperty::Description => "IS-08 Description"@,
            SinkPadProperty::Channels => "Channels"@,
        }
    }

    /// What is said of the property.
    pub open spec fn blurb(self) -> Seq<char> {
        match self {
            SinkPadProperty::ReceiverName =>
                "Caller-chosen name of the NMOS Receiver associated with this Input. Its \
                 derived NMOS ID is published as IS-08 `/parent`. Empty publishes null."@,
            SinkPadProperty::InputId =>
                "IS-08 Input ID. Empty assigns a default."@,
            SinkPadProperty::Label =>
                "Label for this Input shown to controllers as IS-08 `/properties/name`."@,
            SinkPadProperty::Description =>
                "Description for this Input shown to controllers as IS-08 \
                 `/properties/description`."@,
            SinkPadProperty::Channels =>
                "Number of Input channels. 0 derives it from negotiated audio caps."@,
        }
    }

    /// How the property is declared.
    pub fn spec(self) -> (r: PropertySpec)
        ensures
            r.name@ == self.name(),
            r.kind == self.kind(),
            r.nick@ == self.nick(),
            r.blurb.deep_view() == Some(self.blurb()),
            r.default_text is None,
            !r.mutable_ready,
    {
        match self {
            SinkPadProperty::ReceiverName => PropertySpec {
                name: "receiver-name",
                nick: "Receiver Name",
                blurb: Some(
                    "Caller-chosen name of the NMOS Receiver associated with this Input. Its \
                     derived NMOS ID is published as IS-08 `/parent`. Empty publishes null.",
                ),
                kind: PropertyKind::Text,
                default_text: None,
                mutable_ready: false,
            },
            SinkPadProperty::InputId => PropertySpec {
                name: "input-id",
                nick: "Input ID",
                blurb: Some(
                    "IS-08 Input ID. Empty assigns a default.",
                ),
                kind: PropertyKind::Text,
                default_text: None,
                mutable_ready: false,
            },
            SinkPadProperty::Label => PropertySpec {
                name: "label",
                nick: "IS-08 Name",
                blurb: Some(
                    "Label for this Input shown to controllers as IS-08 `/properties/name`.",
                ),
                kind: PropertyKind::Text,
                default_text: None,
                mutable_ready: false,
            },
            SinkPadProperty::Description => PropertySpec {
                name: "description",
                nick: "IS-08 Description",
                blurb: Some(
                    "Description for this Input shown to controllers as IS-08 \
                     `/properties/description`.",
                ),
                kind: PropertyKind::Text,
                default_text: None,
                mutable_ready: false,
            },
            SinkPadProperty::Channels => PropertySpec {
                name: "channels",
                nick: "Channels",
                blurb: Some(
                    "Number of Input channels. 0 derives it from negotiated audio caps.",
                ),
                kind: PropertyKind::UInt { max: u32::MAX },
                default_text: None,
                mutable_ready: false,
            },
        }
    }
}

/// Every property of a sink pad, in the order in which they are declared.
pub open spec fn sink_pad_declared() -> Seq<SinkPadProperty> {
    seq![
        SinkPadProperty::ReceiverName,
        SinkPadProperty::InputId,
        SinkPadProperty::Label,
        SinkPadProperty::Description,
        SinkPadProperty::Channels,
    ]
}

/// The properties of a sink pad.
pub fn sink_pad_properties() -> (r: Vec<PropertySpec>)
    ensures
        r@.len() == sink_pad_declared().len(),
        forall|i: int|
            0 <= i < r@.len() ==> (#[trigger] r@[i]).name@ == sink_pad_declared()[i].name() && r@[i].kind
                == sink_pad_declared()[i].kind() && r@[i].nick@ == sink_pad_declared()[i].nick()
                && r@[i].blurb.deep_view() == Some(sink_pad_declared()[i].blurb()) && r@[i].default_text is None
                && !r@[i].mutable_ready,
{
    let mut r: Vec<PropertySpec> = Vec::new();
    r.push(SinkPadProperty::ReceiverName.spec());
    r.push(SinkPadProperty::InputId.spec());
    r.push(SinkPadProperty::Label.spec());
    r.push(SinkPadProperty::Description.spec());
    r.push(SinkPadProperty::Channels.spec());
    r
}

impl SrcPadProperty {
    /// What the property takes.
    pub open spec fn kind(self) -> PropertyKind {
        match self {
            SrcPadProperty::SenderName => PropertyKind::Text,
            SrcPadProperty::OutputId => PropertyKind::Text,
            SrcPadProperty::Label => PropertyKind::Text,
            SrcPadProperty::Description => PropertyKind::Text,
            SrcPadProperty::Channels => PropertyKind::UInt { max: u32::MAX },
            SrcPadProperty::ActiveMap => PropertyKind::Structure,
        }
    }

    /// What the property is called for people.
    pub open spec fn nick(self) -> Seq<char> {
        match self {
            SrcPadProperty::SenderName => "Sender Name"@,
            SrcPadProperty::OutputId => "Output ID"@,
            SrcPadProperty::Label => "IS-08 Name"@,
            SrcPadProperty::Description => "IS-08 Description"@,
            SrcPadProperty::Channels => "Channels"@,
            SrcPadProperty::ActiveMap => "Active Map"@,
        }
    }

    /// What is said of the property.
    pub open spec fn blurb(self) -> Seq<char> {
        match self {
            SrcPadProperty::SenderName =>
                "Caller-chosen name of the NMOS Sender associated with this Output. The \
                 derived NMOS ID of its Source is published as IS-08 `/sourceid`. Empty \
                 publishes null."@,
            SrcPadProperty::OutputId =>
                "IS-08 Output ID. Empty assigns a default."@,
            SrcPadProperty::Label =>
                "Label for this Output shown to controllers as IS-08 `/properties/name`."@,
            SrcPadProperty::Description =>
                "Description for this Output shown to controllers as IS-08 \
                 `/properties/description`."@,
            SrcPadProperty::Channels =>
                "Number of Output channels. 0 derives it from negotiated audio caps."@,
            SrcPadProperty::ActiveMap =>
                "Initial channel routing for this Output, for example \
                 `map,0=input0:0,1=input0:1`."@,
        }
    }

    /// How the property is declared.
    pub fn spec(self) -> (r: PropertySpec)
        ensures
            r.name@ == self.name(),
            r.kind == self.kind(),
            r.nick@ == self.nick(),
            r.blurb.deep_view() == Some(self.blurb()),
            r.default_text is None,
            !r.mutable_ready,
    {
        match self {
            SrcPadProperty::SenderName => PropertySpec {
                name: "sender-name",
                nick: "Sender Name",
                blurb: Some(
                    "Caller-chosen name of the NMOS Sender associated with this Output. The \
                     derived NMOS ID of its Source is published as IS-08 `/sourceid`. Empty \
                     publishes null.",
                ),
                kind: PropertyKind::Text,
                default_text: None,
                mutable_ready: false,
            },
            SrcPadProperty::OutputId => PropertySpec {
                name: "output-id",
                nick: "Output ID",
                blurb: Some(
                    "IS-08 Output ID. Empty assigns a default.",
                ),
                kind: PropertyKind::Text,
                default_text: None,
                mutable_ready: false,
            },
            SrcPadProperty::Label => PropertySpec {
                name: "label",
                nick: "IS-08 Name",
                blurb: Some(
                    "Label for this Output shown to controllers as IS-08 `/properties/name`.",
                ),
                kind: PropertyKind::Text,
                default_text: None,
                mutable_ready: false,
            },
            SrcPadProperty::Description => PropertySpec {
                name: "description",
                nick: "IS-08 Description",
                blurb: Some(
                    "Description for this Output shown to controllers as IS-08 \
                     `/properties/description`.",
                ),
                kind: PropertyKind::Text,
                default_text: None,
                mutable_ready: false,
            },
            SrcPadProperty::Channels => PropertySpec {
                name: "channels",
                nick: "Channels",
                blurb: Some(
                    "Number of Output channels. 0 derives it from negotiated audio caps.",
                ),
                kind: PropertyKind::UInt { max: u32::MAX },
                default_text: None,
                mutable_ready: false,
            },
            SrcPadProperty::ActiveMap => PropertySpec {
                name: "active-map",
                nick: "Active Map",
                blurb: Some(
                    "Initial channel routing for this Output, for example \
                     `map,0=input0:0,1=input0:1`.",
                ),
                kind: PropertyKind::Structure,
                default_text: None,
                mutable_ready: false,
            },
        }
    }
}

/// Every property of a src pad, in the order in which they are declared.
pub open spec fn src_pad_declared() -> Seq<SrcPadProperty> {
    seq![
        SrcPadProperty::SenderName,
        SrcPadProperty::OutputId,
        SrcPadProperty::Label,
        SrcPadProperty::Description,
        SrcPadProperty::Channels,
        SrcPadProperty::ActiveMap,
    ]
}

/// The properties of a src pad.
pub fn src_pad_properties() -> (r: Vec<PropertySpec>)
    ensures
        r@.len() == src_pad_declared().len(),
        forall|i: int|
            0 <= i < r@.len() ==> (#[trigger] r@[i]).name@ == src_pad_declared()[i].name() && r@[i].kind
                == src_pad_declared()[i].kind() && r@[i].nick@ == src_pad_declared()[i].nick()
                && r@[i].blurb.deep_view() == Some(src_pad_declared()[i].blurb()) && r@[i].default_text is None
                && !r@[i].mutable_ready,
{
    let mut r: Vec<PropertySpec> = Vec::new();
    r.push(SrcPadProperty::SenderName.spec());
    r.push(SrcPadProperty::OutputId.spec());
    r.push(SrcPadProperty::Label.spec());
    r.push(SrcPadProperty::Description.spec());
    r.push(SrcPadProperty::Channels.spec());
    r.push(SrcPadProperty::ActiveMap.spec());
    r
}

/// The state of a sink pad. Its properties are not writable once it is frozen.
#[derive(Debug)]
pub struct SinkPadState {
    pub receiver_name: String,
    pub input_id: String,
    pub label: String,
    pub description: String,
    pub channels: u32,
    pub frozen: bool,
}

/// The state of a src pad. Its properties are not writable once it is frozen.
#[derive(Debug)]
pub struct SrcPadState {
    pub sender_name: String,
    pub output_id: String,
    pub label: String,
    pub description: String,
    pub channels: u32,
    pub active_map: Option<Vec<ActiveMapField>>,
    pub frozen: bool,
}

impl Default for SinkPadState {
    fn default() -> (r: Self)
        ensures
            r.receiver_name@.len() == 0,
            r.input_id@.len() == 0,
            r.label@.len() == 0,
            r.description@.len() == 0,
            r.channels == 0,
            !r.frozen,
    {
        SinkPadState {
            receiver_name: String::new(),
            input_id: String::new(),
            label: String::new(),
            description: String::new(),
            channels: 0,
            frozen: false,
        }
    }
}

impl Default for SrcPadState {
    fn default() -> (r: Self)
        ensures
            r.sender_name@.len() == 0,
            r.output_id@.len() == 0,
            r.label@.len() == 0,
            r.description@.len() == 0,
            r.channels == 0,
            r.active_map is None,
            !r.frozen,
    {
        SrcPadState {
            sender_name: String::new(),
            output_id: String::new(),
            label: String::new(),
            description: String::new(),
            channels: 0,
            active_map: None,
            frozen: false,
        }
    }
}

impl SinkPadState {
    /// The state with one property set.
    pub open spec fn with(self, p: SinkPadProperty, value: PadValue) -> SinkPadState {
        match (p, value) {
            (SinkPadProperty::ReceiverName, PadValue::Text(t)) => SinkPadState {
                receiver_name: t,
                ..self
            },
            (SinkPadProperty::InputId, PadValue::Text(t)) => SinkPadState { input_id: t, ..self },
            (SinkPadProperty::Label, PadValue::Text(t)) => SinkPadState { label: t, ..self },
            (SinkPadProperty::Description, PadValue::Text(t)) => SinkPadState {
                description: t,
                ..self
            },
            (SinkPadProperty::Channels, PadValue::Channels(n)) => SinkPadState {
                channels: n,
                ..self
            },
            _ => self,
        }
    }

    /// Set a property; a frozen pad stays as it is.
    pub fn set_property(&mut self, p: SinkPadProperty, value: PadValue)
        requires
            p.takes(value),
        ensures
            *final(self) == if old(self).frozen {
                *old(self)
            } else {
                old(self).with(p, value)
            },
    {
        if self.frozen {
            return ;
        }
        match (p, value) {
            (SinkPadProperty::ReceiverName, PadValue::Text(t)) => {
                self.receiver_name = t;
            },
            (SinkPadProperty::InputId, PadValue::Text(t)) => {
                self.input_id = t;
            },
            (SinkPadProperty::Label, PadValue::Text(t)) => {
                self.label = t;
            },
            (SinkPadProperty::Description, PadValue::Text(t)) => {
                self.description = t;
            },
            (SinkPadProperty::Channels, PadValue::Channels(n)) => {
                self.channels = n;
            },
            _ => {},
        }
    }

    pub fn freeze(&mut self)
        ensures
            *final(self) == (SinkPadState { frozen: true, ..*old(self) }),
    {
        self.frozen = true;
    }
}

impl SrcPadState {
    /// The state with one property set.
    pub open spec fn with(self, p: SrcPadProperty, value: PadValue) -> SrcPadState {
        match (p, value) {
            (SrcPadProperty::SenderName, PadValue::Text(t)) => SrcPadState {
                sender_name: t,
                ..self
            },
            (SrcPadProperty::OutputId, PadValue::Text(t)) => SrcPadState { output_id: t, ..self },
            (SrcPadProperty::Label, PadValue::Text(t)) => SrcPadState { label: t, ..self },
            (SrcPadProperty::Description, PadValue::Text(t)) => SrcPadState {
                description: t,
                ..self
            },
            (SrcPadProperty::Channels, PadValue::Channels(n)) => SrcPadState {
                channels: n,
                ..self
            },
            (SrcPadProperty::ActiveMap, PadValue::ActiveMap(map)) => SrcPadState {
                active_map: map,
                ..self
            },
            _ => self,
        }
    }

    /// Set a property; a frozen pad stays as it is.
    pub fn set_property(&mut self, p: SrcPadProperty, value: PadValue)
        requires
            p.takes(value),
        ensures
            *final(self) == if old(self).frozen {
                *old(self)
            } else {
                old(self).with(p, value)
            },
    {
        if self.frozen {
            return ;
        }
        match (p, value) {
            (SrcPadProperty::SenderName, PadValue::Text(t)) => {
                self.sender_name = t;
            },
            (SrcPadProperty::OutputId, PadValue::Text(t)) => {
                self.output_id = t;
            },
            (SrcPadProperty::Label, PadValue::Text(t)) => {
                self.label = t;
            },
            (SrcPadProperty::Description, PadValue::Text(t)) => {
                self.description = t;
            },
            (SrcPadProperty::Channels, PadValue::Channels(n)) => {
                self.channels = n;
            },
            (SrcPadProperty::ActiveMap, PadValue::ActiveMap(map)) => {
                self.active_map = map;
            },
            _ => {},
        }
    }

    pub fn freeze(&mut self)
        ensures
            *final(self) == (SrcPadState { frozen: true, ..*old(self) }),
    {
        self.frozen = true;
    }
}

// ---- laws -------------------------------------------------------------------

/// A pad that is named in line is found again by its place in line, among the pads of its own
/// direction only.
pub proof fn place_in_line_is_read_back(index: u32)
    ensures
        index_in_name(sink_name(index)) == index,
        index_in_name(src_name(index)) == index,
        has_prefix(sink_name(index), "sink_"@),
        has_prefix(src_name(index), "src_"@),
        !has_prefix(sink_name(index), "src_"@),
        !has_prefix(src_name(index), "sink_"@),
{
    reveal_strlit("sink_");
    reveal_strlit("src_");
    let digits = decimal(index as nat);
    crate::text::decimal_round_trip(index as nat, u32::MAX as nat);
    crate::text::decimal_is_digits(index as nat);
    let a = sink_name(index);
    let b = src_name(index);
    assert("sink_"@.len() == 5 && "src_"@.len() == 4);
    assert forall|j: int| 5 <= j < a.len() implies a[j] != '_' by {
        assert(a[j] == digits[j - 5]);
        assert(crate::text::is_digit(digits[j - 5]));
    }
    assert forall|j: int| 4 <= j < b.len() implies b[j] != '_' by {
        assert(b[j] == digits[j - 4]);
        assert(crate::text::is_digit(digits[j - 4]));
    }
    after_last_from(a, '_', 5);
    after_last_from(b, '_', 4);
    assert(a.skip(5) =~= digits);
    assert(b.skip(4) =~= digits);
    assert(a.take(5) =~= "sink_"@);
    assert(b.take(4) =~= "src_"@);
    assert(a.take(4)[1] == 'i' && "src_"@[1] == 'r');
    if b.len() >= 5 {
        assert(b.take(5)[1] == 'r' && "sink_"@[1] == 'i');
    }
}

/// Pads stand in the order in which they came in line, and each stands once.
pub proof fn pads_stand_in_line(
    places: Seq<usize>,
    names: Seq<String>,
    a: int,
    b: int,
    i: u32,
    j: u32,
)
    requires
        names.len() <= usize::MAX,
        ordered_places(places, names, "sink_"@, names.len() as int),
        0 <= a < places.len(),
        0 <= b < places.len(),
        names[places[a] as int]@ == sink_name(i),
        names[places[b] as int]@ == sink_name(j),
    ensures
        i < j ==> a < b,
        a != b ==> places[a] != places[b],
{
    place_in_line_is_read_back(i);
    place_in_line_is_read_back(j);
    if a < b {
        assert(comes_before(names, places[a] as int, places[b] as int));
    } else if b < a {
        assert(comes_before(names, places[b] as int, places[a] as int));
    }
}

/// Every sink pad stands in line.
pub proof fn no_pad_is_left_out(places: Seq<usize>, names: Seq<String>, i: int, index: u32)
    requires
        names.len() <= usize::MAX,
        ordered_places(places, names, "sink_"@, names.len() as int),
        0 <= i < names.len(),
        names[i]@ == sink_name(index),
    ensures
        exists|k: int| 0 <= k < places.len() && #[trigger] places[k] == i,
{
    place_in_line_is_read_back(index);
    assert(places.contains(i as usize));
    let k = choose|k: int| 0 <= k < places.len() && places[k] == i as usize;
    assert(places[k] == i);
}

/// A property of a sink pad is a field of its own: setting it changes that field and leaves the
/// others.
pub proof fn sink_properties_are_fields(pad: SinkPadState, text: String, n: u32)
    ensures
        pad.with(SinkPadProperty::ReceiverName, PadValue::Text(text)) == (SinkPadState {
            receiver_name: text,
            ..pad
        }),
        pad.with(SinkPadProperty::InputId, PadValue::Text(text)) == (SinkPadState {
            input_id: text,
            ..pad
        }),
        pad.with(SinkPadProperty::Label, PadValue::Text(text)) == (SinkPadState {
            label: text,
            ..pad
        }),
        pad.with(SinkPadProperty::Description, PadValue::Text(text)) == (SinkPadState {
            description: text,
            ..pad
        }),
        pad.with(SinkPadProperty::Channels, PadValue::Channels(n)) == (SinkPadState {
            channels: n,
            ..pad
        }),
{
}

/// And so of a src pad.
pub proof fn src_properties_are_fields(
    pad: SrcPadState,
    text: String,
    n: u32,
    map: Option<Vec<ActiveMapField>>,
)
    ensures
        pad.with(SrcPadProperty::SenderName, PadValue::Text(text)) == (SrcPadState {
            sender_name: text,
            ..pad
        }),
        pad.with(SrcPadProperty::OutputId, PadValue::Text(text)) == (SrcPadState {
            output_id: text,
            ..pad
        }),
        pad.with(SrcPadProperty::Label, PadValue::Text(text)) == (SrcPadState {
            label: text,
            ..pad
        }),
        pad.with(SrcPadProperty::Description, PadValue::Text(text)) == (SrcPadState {
            description: text,
            ..pad
        }),
        pad.with(SrcPadProperty::Channels, PadValue::Channels(n)) == (SrcPadState {
            channels: n,
            ..pad
        }),
        pad.with(SrcPadProperty::ActiveMap, PadValue::ActiveMap(map)) == (SrcPadState {
            active_map: map,
            ..pad
        }),
{
}

/// A pad that is requested without a name, with an empty one or by either template is named in
/// line; any other name is the caller's own, those in line among them.
pub proof fn templates_are_open(name: Seq<char>, index: u32)
    ensures
        name_is_open(None),
        name_is_open(Some(Seq::empty())),
        name_is_open(Some("sink_%u"@)),
        name_is_open(Some("src_%u"@)),
        name_is_open(Some(name)) && name.len() > 0 ==> says(name, "%u"@),
        !name_is_open(Some(sink_name(index))),
        !name_is_open(Some(src_name(index))),
{
    reveal_strlit("%u");
    reveal_strlit("sink_%u");
    reveal_strlit("src_%u");
    reveal_strlit("sink_");
    reveal_strlit("src_");
    says_at("sink_%u"@, "%u"@, 5);
    says_at("src_%u"@, "%u"@, 4);
    decimal_is_digits(index as nat);
    assert(is_digit(decimal(index as nat)[0]));
    assert(sink_name(index)[5] == decimal(index as nat)[0]);
    assert(src_name(index)[4] == decimal(index as nat)[0]);
    assert("sink_%u"@[5] == '%');
    assert("src_%u"@[4] == '%');
    assert(sink_name(index)[0] == 's' && sink_name(index)[1] == 'i');
    assert(src_name(index)[0] == 's' && src_name(index)[1] == 'r');
}

/// A pad's channel count may be any that its state can hold, and its other properties are of the
/// kind that it takes.
pub proof fn pad_properties_fit(p: SinkPadProperty, q: SrcPadProperty, value: PadValue, n: u32)
    ensures
        p.takes(PadValue::Channels(n)) ==> (p.kind() matches PropertyKind::UInt { max } && n <= max),
        p.takes(value) && value is Text ==> p.kind() == PropertyKind::Text,
        q.takes(PadValue::Channels(n)) ==> (q.kind() matches PropertyKind::UInt { max } && n <= max),
        q.takes(value) && value is Text ==> q.kind() == PropertyKind::Text,
        q.takes(value) && value is ActiveMap ==> q.kind() == PropertyKind::Structure,
{
}

/// Pads with one number stand in the order in which they were found, and a pad whose name has no
/// number stands with the first.
pub proof fn equal_pads_keep_their_order(
    places: Seq<usize>,
    names: Seq<String>,
    prefix: Seq<char>,
    a: int,
    b: int,
    name: Seq<char>,
    other: Seq<char>,
)
    requires
        ordered_places(places, names, prefix, names.len() as int),
        0 <= a < places.len(),
        0 <= b < places.len(),
        index_in_name(names[places[a] as int]@) == index_in_name(names[places[b] as int]@),
    ensures
        a < b ==> places[a] < places[b],
        b < a ==> places[b] < places[a],
        unsigned_value(after_last(name, '_'), u32::MAX as nat) is None ==> index_in_name(name)
            <= index_in_name(other),
{
    if a < b {
        assert(comes_before(names, places[a] as int, places[b] as int));
    } else if b < a {
        assert(comes_before(names, places[b] as int, places[a] as int));
    }
}

} // verus!
