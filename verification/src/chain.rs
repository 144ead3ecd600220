//! Plans for the chains of elements that an NMOS element holds.
//!
//! A plan says which elements to make, how to set them and how to join them: its elements
//! are linked in order, and the first one's `sink` pad (of a sender) or the last one's
//! `src` pad (of a receiver) is the chain's own.

use crate::caps::{Caps, CapsModel};
use vstd::prelude::*;

verus! {

/// The value that a property of an inner element is set to.
#[derive(Debug, PartialEq, Eq)]
pub enum SettingValue {
    Text(String),
    Int(i32),
    UInt(u32),
    Int64(i64),
    UInt64(u64),
    Boolean(bool),
    Caps(Caps),
    /// A value of an enumeration, by its nick.
    Nick(&'static str),
    /// Mixing coefficients, row by row.
    Matrix(Vec<Vec<u8>>),
}

pub enum SettingModel {
    Text(Seq<char>),
    Int(i32),
    UInt(u32),
    Int64(i64),
    UInt64(u64),
    Boolean(bool),
    Caps(CapsModel),
    Nick(Seq<char>),
    Matrix(Seq<Seq<u8>>),
}

impl DeepView for SettingValue {
    type V = SettingModel;

    open spec fn deep_view(&self) -> SettingModel {
        match self {
            SettingValue::Text(t) => SettingModel::Text(t@),
            SettingValue::Int(n) => SettingModel::Int(*n),
            SettingValue::UInt(n) => SettingModel::UInt(*n),
            SettingValue::Int64(n) => SettingModel::Int64(*n),
            SettingValue::UInt64(n) => SettingModel::UInt64(*n),
            SettingValue::Boolean(b) => SettingModel::Boolean(*b),
            SettingValue::Caps(c) => SettingModel::Caps(c.deep_view()),
            SettingValue::Nick(t) => SettingModel::Nick(t@),
            SettingValue::Matrix(m) => SettingModel::Matrix(m.deep_view()),
        }
    }
}

/// A property of an inner element, and the value it is set to.
#[derive(Debug, PartialEq, Eq)]
pub struct Setting {
    pub name: &'static str,
    pub value: SettingValue,
}

impl DeepView for Setting {
    type V = (Seq<char>, SettingModel);

    open spec fn deep_view(&self) -> (Seq<char>, SettingModel) {
        (self.name@, self.value.deep_view())
    }
}

/// An element to make, and its properties in the order in which they are set.
#[derive(Debug, PartialEq, Eq)]
pub struct ElementPlan {
    pub factory: String,
    pub name: String,
    pub settings: Vec<Setting>,
}

pub struct ElementModel {
    pub factory: Seq<char>,
    pub name: Seq<char>,
    pub settings: Seq<(Seq<char>, SettingModel)>,
}

impl DeepView for ElementPlan {
    type V = ElementModel;

    open spec fn deep_view(&self) -> ElementModel {
        ElementModel {
            factory: self.factory@,
            name: self.name@,
            settings: self.settings.deep_view(),
        }
    }
}

/// A chain of elements.
#[derive(Debug, PartialEq, Eq)]
pub struct ChainPlan {
    /// The name of the bin that wraps the elements; without one the chain is its only
    /// element.
    pub bin: Option<&'static str>,
    pub elements: Vec<ElementPlan>,
    /// Which element is the transport's source or sink.
    pub transport: usize,
    /// Which element is the RTP payloader or depayloader, where there is one.
    pub codec: Option<usize>,
}

pub struct ChainModel {
    pub bin: Option<Seq<char>>,
    pub elements: Seq<ElementModel>,
    pub transport: int,
    pub codec: Option<int>,
}

impl DeepView for ChainPlan {
    type V = ChainModel;

    open spec fn deep_view(&self) -> ChainModel {
        ChainModel {
            bin: self.bin.deep_view(),
            elements: self.elements.deep_view(),
            transport: self.transport as int,
            codec: match self.codec {
                Some(i) => Some(i as int),
                None => None,
            },
        }
    }
}

impl ChainModel {
    /// The transport and the payloader or depayloader are elements of the chain, and a
    /// chain without a bin is a single element.
    pub open spec fn wf(self) -> bool {
        &&& 0 <= self.transport < self.elements.len()
        &&& self.codec matches Some(i) ==> 0 <= i < self.elements.len() && i != self.transport
        &&& self.bin is None ==> self.elements.len() == 1
    }

    /// The name under which the chain stands in the element.
    pub open spec fn outer_name(self) -> Seq<char> {
        match self.bin {
            Some(name) => name,
            None => self.elements[0].name,
        }
    }
}

impl ElementModel {
    /// The property is set, and to this value only.
    pub open spec fn sets(self, name: Seq<char>, value: SettingModel) -> bool {
        &&& exists|i: int| 0 <= i < self.settings.len() && #[trigger] self.settings[i] == (name, value)
        &&& forall|i: int|
            0 <= i < self.settings.len() && (#[trigger] self.settings[i]).0 == name
                ==> self.settings[i].1 == value
    }

    /// The property is left as it is.
    pub open spec fn leaves(self, name: Seq<char>) -> bool {
        forall|i: int| 0 <= i < self.settings.len() ==> (#[trigger] self.settings[i]).0 != name
    }
}

/// A setting that is made only where there is a value.
pub open spec fn optional_setting(name: Seq<char>, value: Option<SettingModel>) -> Seq<
    (Seq<char>, SettingModel),
> {
    match value {
        Some(v) => seq![(name, v)],
        None => Seq::empty(),
    }
}

/// Add a setting.
pub(crate) fn put(settings: &mut Vec<Setting>, name: &'static str, value: SettingValue)
    ensures
        final(settings).deep_view() == old(settings).deep_view().push((name@, value.deep_view())),
{
    let ghost before = settings.deep_view();
    let ghost v = value.deep_view();
    settings.push(Setting { name, value });
    assert(settings.deep_view() =~= before.push((name@, v)));
}

/// Add a setting where there is a value.
pub(crate) fn put_optional(
    settings: &mut Vec<Setting>,
    name: &'static str,
    value: Option<SettingValue>,
)
    ensures
        final(settings).deep_view() == old(settings).deep_view() + optional_setting(
            name@,
            value.deep_view(),
        ),
{
    let ghost before = settings.deep_view();
    match value {
        Some(v) => {
            let ghost m = v.deep_view();
            put(settings, name, v);
            assert(before.push((name@, m)) =~= before + seq![(name@, m)]);
        },
        None => {
            assert(before =~= before + Seq::<(Seq<char>, SettingModel)>::empty());
        },
    }
}

/// An empty list of settings.
pub(crate) fn no_settings() -> (r: Vec<Setting>)
    ensures
        r.deep_view() == Seq::<(Seq<char>, SettingModel)>::empty(),
{
    let r: Vec<Setting> = Vec::new();
    assert(r.deep_view() =~= Seq::empty());
    r
}

/// An element to make.
pub(crate) fn element(factory: &str, name: &str, settings: Vec<Setting>) -> (r: ElementPlan)
    ensures
        r.deep_view() == (ElementModel {
            factory: factory@,
            name: name@,
            settings: settings.deep_view(),
        }),
{
    ElementPlan { factory: factory.to_owned(), name: name.to_owned(), settings }
}

/// A chain that is a single element.
pub(crate) fn single(e: ElementPlan) -> (r: ChainPlan)
    ensures
        r.deep_view() == (ChainModel {
            bin: None,
            elements: seq![e.deep_view()],
            transport: 0,
            codec: None,
        }),
{
    let ghost m = e.deep_view();
    let mut elements: Vec<ElementPlan> = Vec::new();
    elements.push(e);
    assert(elements.deep_view() =~= seq![m]);
    ChainPlan { bin: None, elements, transport: 0, codec: None }
}

/// A chain of two elements in a bin.
pub(crate) fn pair(
    bin: &'static str,
    first: ElementPlan,
    second: ElementPlan,
    transport: usize,
    codec: Option<usize>,
) -> (r: ChainPlan)
    ensures
        r.deep_view() == (ChainModel {
            bin: Some(bin@),
            elements: seq![first.deep_view(), second.deep_view()],
            transport: transport as int,
            codec: match codec {
                Some(i) => Some(i as int),
                None => None,
            },
        }),
{
    let ghost a = first.deep_view();
    let ghost b = second.deep_view();
    let mut elements: Vec<ElementPlan> = Vec::new();
    elements.push(first);
    elements.push(second);
    assert(elements.deep_view() =~= seq![a, b]);
    ChainPlan { bin: Some(bin), elements, transport, codec }
}

} // verus!
