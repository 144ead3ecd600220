//! Media capabilities as plain values: a list of structures, each with a media type
//! name, named fields, and memory features.

use crate::text::same_text;
use vstd::prelude::*;

verus! {

/// The value of one field.
#[derive(Debug, PartialEq, Eq)]
pub enum FieldValue {
    Text(String),
    Int(i32),
    Fraction(i32, i32),
    Bitmask(u64),
    Boolean(bool),
    /// Every integer from the first to the second.
    IntRange(i32, i32),
    /// A list or another value that is not a single fixed one, in its
    /// serialised form.
    Other(String),
}

/// What a field holds, with texts as sequences of characters.
pub enum FieldModel {
    Text(Seq<char>),
    Int(i32),
    Fraction(i32, i32),
    Bitmask(u64),
    Boolean(bool),
    IntRange(i32, i32),
    Other(Seq<char>),
}

impl DeepView for FieldValue {
    type V = FieldModel;

    open spec fn deep_view(&self) -> FieldModel {
        match self {
            FieldValue::Text(t) => FieldModel::Text(t@),
            FieldValue::Int(n) => FieldModel::Int(*n),
            FieldValue::Fraction(n, d) => FieldModel::Fraction(*n, *d),
            FieldValue::Bitmask(m) => FieldModel::Bitmask(*m),
            FieldValue::Boolean(b) => FieldModel::Boolean(*b),
            FieldValue::IntRange(low, high) => FieldModel::IntRange(*low, *high),
            FieldValue::Other(t) => FieldModel::Other(t@),
        }
    }
}

impl FieldValue {
    pub fn copy(&self) -> (r: FieldValue)
        ensures
            r.deep_view() == self.deep_view(),
    {
        match self {
            FieldValue::Text(t) => FieldValue::Text(t.clone()),
            FieldValue::Int(n) => FieldValue::Int(*n),
            FieldValue::Fraction(n, d) => FieldValue::Fraction(*n, *d),
            FieldValue::Bitmask(m) => FieldValue::Bitmask(*m),
            FieldValue::Boolean(b) => FieldValue::Boolean(*b),
            FieldValue::IntRange(low, high) => FieldValue::IntRange(*low, *high),
            FieldValue::Other(t) => FieldValue::Other(t.clone()),
        }
    }
}

#[derive(Debug, PartialEq, Eq)]
pub struct Field {
    pub name: String,
    pub value: FieldValue,
}

impl DeepView for Field {
    type V = (Seq<char>, FieldModel);

    open spec fn deep_view(&self) -> (Seq<char>, FieldModel) {
        (self.name@, self.value.deep_view())
    }
}

/// A copy of a list of fields.
pub fn copy_fields(fields: &[Field]) -> (copy: Vec<Field>)
    ensures
        copy.deep_view() == fields.deep_view(),
{
    let mut copy: Vec<Field> = Vec::new();
    let mut i: usize = 0;
    while i < fields.len()
        invariant
            i <= fields@.len(),
            copy@.len() == i,
            forall|j: int|
                0 <= j < i ==> (#[trigger] copy@[j]).deep_view() == fields@[j].deep_view(),
        decreases fields@.len() - i,
    {
        copy.push(Field { name: fields[i].name.clone(), value: fields[i].value.copy() });
        i = i + 1;
    }
    assert(copy.deep_view() =~= fields.deep_view());
    copy
}

/// Where a structure's buffers may lie.
#[derive(Debug, PartialEq, Eq)]
pub enum Features {
    /// Any memory.
    Any,
    /// The named features; an empty list stands for plain system memory.
    Named(Vec<String>),
}

pub enum FeaturesModel {
    Any,
    Named(Seq<Seq<char>>),
}

impl DeepView for Features {
    type V = FeaturesModel;

    open spec fn deep_view(&self) -> FeaturesModel {
        match self {
            Features::Any => FeaturesModel::Any,
            Features::Named(names) => FeaturesModel::Named(names.deep_view()),
        }
    }
}

impl Features {
    pub fn copy(&self) -> (r: Features)
        ensures
            r.deep_view() == self.deep_view(),
    {
        match self {
            Features::Any => Features::Any,
            Features::Named(names) => {
                let copy = crate::text::copy_texts(names.as_slice());
                assert(copy.deep_view() =~= names.deep_view());
                Features::Named(copy)
            },
        }
    }

    /// Plain system memory.
    pub fn system_memory() -> (r: Features)
        ensures
            r.deep_view() == FeaturesModel::Named(Seq::empty()),
    {
        let names: Vec<String> = Vec::new();
        assert(names.deep_view() =~= Seq::empty());
        Features::Named(names)
    }
}

/// One structure: a media type name, its fields and its features.
#[derive(Debug, PartialEq, Eq)]
pub struct Structure {
    pub name: String,
    pub fields: Vec<Field>,
    pub features: Features,
}

pub struct StructureModel {
    pub name: Seq<char>,
    pub fields: Seq<(Seq<char>, FieldModel)>,
    pub features: FeaturesModel,
}

impl DeepView for Structure {
    type V = StructureModel;

    open spec fn deep_view(&self) -> StructureModel {
        StructureModel {
            name: self.name@,
            fields: self.fields.deep_view(),
            features: self.features.deep_view(),
        }
    }
}

/// The value of the first field with the given name.
pub open spec fn lookup(fields: Seq<(Seq<char>, FieldModel)>, name: Seq<char>) -> Option<FieldModel>
    decreases fields.len(),
{
    if fields.len() == 0 {
        None
    } else if fields[0].0 == name {
        Some(fields[0].1)
    } else {
        lookup(fields.skip(1), name)
    }
}

/// The fields with `name` set to `value`: in its place where there is such a field,
/// else at the end.
pub open spec fn with_field(
    fields: Seq<(Seq<char>, FieldModel)>,
    name: Seq<char>,
    value: FieldModel,
) -> Seq<(Seq<char>, FieldModel)>
    decreases fields.len(),
{
    if fields.len() == 0 {
        seq![(name, value)]
    } else if fields[0].0 == name {
        fields.update(0, (name, value))
    } else {
        seq![fields[0]] + with_field(fields.skip(1), name, value)
    }
}

pub open spec fn as_text(value: Option<FieldModel>) -> Option<Seq<char>> {
    match value {
        Some(FieldModel::Text(t)) => Some(t),
        _ => None,
    }
}

pub open spec fn as_int(value: Option<FieldModel>) -> Option<i32> {
    match value {
        Some(FieldModel::Int(n)) => Some(n),
        _ => None,
    }
}

pub open spec fn as_fraction(value: Option<FieldModel>) -> Option<(i32, i32)> {
    match value {
        Some(FieldModel::Fraction(n, d)) => Some((n, d)),
        _ => None,
    }
}

pub open spec fn as_bitmask(value: Option<FieldModel>) -> Option<u64> {
    match value {
        Some(FieldModel::Bitmask(m)) => Some(m),
        _ => None,
    }
}

/// A field that was set is found with its new value; every other field is found as
/// before.
pub proof fn set_field_is_found(
    fields: Seq<(Seq<char>, FieldModel)>,
    name: Seq<char>,
    value: FieldModel,
    other: Seq<char>,
)
    ensures
        lookup(with_field(fields, name, value), name) == Some(value),
        other != name ==> lookup(with_field(fields, name, value), other) == lookup(fields, other),
    decreases fields.len(),
{
    reveal_with_fuel(lookup, 2);
    if fields.len() == 0 {
        assert(with_field(fields, name, value).skip(1) =~= Seq::empty());
    } else if fields[0].0 == name {
        assert(with_field(fields, name, value).skip(1) =~= fields.skip(1));
    } else {
        set_field_is_found(fields.skip(1), name, value, other);
        assert(with_field(fields, name, value).skip(1) =~= with_field(fields.skip(1), name, value));
    }
}

impl StructureModel {
    pub open spec fn field(self, name: Seq<char>) -> Option<FieldModel> {
        lookup(self.fields, name)
    }

    pub open spec fn text_field(self, name: Seq<char>) -> Option<Seq<char>> {
        as_text(self.field(name))
    }

    pub open spec fn int_field(self, name: Seq<char>) -> Option<i32> {
        as_int(self.field(name))
    }

    pub open spec fn fraction_field(self, name: Seq<char>) -> Option<(i32, i32)> {
        as_fraction(self.field(name))
    }

    pub open spec fn bitmask_field(self, name: Seq<char>) -> Option<u64> {
        as_bitmask(self.field(name))
    }
}

proof fn lookup_from(fields: Seq<(Seq<char>, FieldModel)>, name: Seq<char>, k: int)
    requires
        0 <= k <= fields.len(),
        forall|j: int| 0 <= j < k ==> (#[trigger] fields[j]).0 != name,
    ensures
        lookup(fields, name) == lookup(fields.skip(k), name),
        k < fields.len() && fields[k].0 == name ==> lookup(fields, name) == Some(fields[k].1),
    decreases k,
{
    if k == 0 {
        assert(fields.skip(0) =~= fields);
    } else {
        assert(fields[0].0 != name);
        let rest = fields.skip(1);
        assert forall|j: int| 0 <= j < k - 1 implies (#[trigger] rest[j]).0 != name by {
            assert(fields[j + 1].0 != name);
        }
        lookup_from(rest, name, k - 1);
        assert(rest.skip(k - 1) =~= fields.skip(k));
    }
}

proof fn with_field_at(
    fields: Seq<(Seq<char>, FieldModel)>,
    name: Seq<char>,
    value: FieldModel,
    k: int,
)
    requires
        0 <= k <= fields.len(),
        forall|j: int| 0 <= j < k ==> (#[trigger] fields[j]).0 != name,
        k < fields.len() ==> fields[k].0 == name,
    ensures
        with_field(fields, name, value) == if k < fields.len() {
            fields.update(k, (name, value))
        } else {
            fields.push((name, value))
        },
    decreases k,
{
    if k > 0 {
        assert(fields[0].0 != name);
        let rest = fields.skip(1);
        assert forall|j: int| 0 <= j < k - 1 implies (#[trigger] rest[j]).0 != name by {
            assert(fields[j + 1].0 != name);
        }
        with_field_at(rest, name, value, k - 1);
        assert(seq![fields[0]] + with_field(rest, name, value) =~= if k < fields.len() {
            fields.update(k, (name, value))
        } else {
            fields.push((name, value))
        });
    } else if fields.len() == 0 {
        assert(seq![(name, value)] =~= fields.push((name, value)));
    }
}

impl Structure {
    /// A structure without fields, in system memory.
    pub fn new(name: &str) -> (r: Structure)
        ensures
            r.deep_view() == (StructureModel {
                name: name@,
                fields: Seq::empty(),
                features: FeaturesModel::Named(Seq::empty()),
            }),
    {
        let fields: Vec<Field> = Vec::new();
        assert(fields.deep_view() =~= Seq::empty());
        Structure { name: name.to_owned(), fields, features: Features::system_memory() }
    }

    pub fn copy(&self) -> (r: Structure)
        ensures
            r.deep_view() == self.deep_view(),
    {
        let fields = copy_fields(self.fields.as_slice());
        Structure { name: self.name.clone(), fields, features: self.features.copy() }
    }

    /// The value of the field with the given name.
    pub fn get(&self, name: &str) -> (r: Option<&FieldValue>)
        ensures
            match r {
                Some(v) => self.deep_view().field(name@) == Some(v.deep_view()),
                None => self.deep_view().field(name@) is None,
            },
    {
        let ghost all = self.fields.deep_view();
        let mut i: usize = 0;
        while i < self.fields.len()
            invariant
                i <= self.fields@.len(),
                all == self.fields.deep_view(),
                forall|j: int| 0 <= j < i ==> (#[trigger] all[j]).0 != name@,
            decreases self.fields@.len() - i,
        {
            if same_text(self.fields[i].name.as_str(), name) {
                proof {
                    lookup_from(all, name@, i as int);
                }
                return Some(&self.fields[i].value);
            }
            i = i + 1;
        }
        proof {
            lookup_from(all, name@, all.len() as int);
        }
        None
    }

    pub fn get_text(&self, name: &str) -> (r: Option<&str>)
        ensures
            match r {
                Some(t) => self.deep_view().text_field(name@) == Some(t@),
                None => self.deep_view().text_field(name@) is None,
            },
    {
        match self.get(name) {
            Some(FieldValue::Text(t)) => Some(t.as_str()),
            _ => None,
        }
    }

    pub fn get_int(&self, name: &str) -> (r: Option<i32>)
        ensures
            r == self.deep_view().int_field(name@),
    {
        match self.get(name) {
            Some(FieldValue::Int(n)) => Some(*n),
            _ => None,
        }
    }

    pub fn get_fraction(&self, name: &str) -> (r: Option<(i32, i32)>)
        ensures
            r == self.deep_view().fraction_field(name@),
    {
        match self.get(name) {
            Some(FieldValue::Fraction(n, d)) => Some((*n, *d)),
            _ => None,
        }
    }

    pub fn get_bitmask(&self, name: &str) -> (r: Option<u64>)
        ensures
            r == self.deep_view().bitmask_field(name@),
    {
        match self.get(name) {
            Some(FieldValue::Bitmask(m)) => Some(*m),
            _ => None,
        }
    }

    /// Set a field, in its place where there is one of that name.
    pub fn set(&mut self, name: &str, value: FieldValue)
        ensures
            final(self).deep_view() == (StructureModel {
                fields: with_field(old(self).deep_view().fields, name@, value.deep_view()),
                ..old(self).deep_view()
            }),
    {
        let ghost before = self.deep_view();
        let mut i: usize = 0;
        while i < self.fields.len()
            invariant
                i <= self.fields@.len(),
                *self == *old(self),
                before == self.deep_view(),
                forall|j: int| 0 <= j < i ==> (#[trigger] before.fields[j]).0 != name@,
            decreases self.fields@.len() - i,
        {
            if same_text(self.fields[i].name.as_str(), name) {
                proof {
                    with_field_at(before.fields, name@, value.deep_view(), i as int);
                }
                let ghost v = value.deep_view();
                self.fields[i] = Field { name: name.to_owned(), value };
                assert(self.fields.deep_view() =~= before.fields.update(i as int, (name@, v)));
                return ;
            }
            i = i + 1;
        }
        proof {
            with_field_at(before.fields, name@, value.deep_view(), before.fields.len() as int);
        }
        let ghost v = value.deep_view();
        self.fields.push(Field { name: name.to_owned(), value });
        assert(self.fields.deep_view() =~= before.fields.push((name@, v)));
    }
}

/// Capabilities: either any media at all, or a list of alternatives.
#[derive(Debug, PartialEq, Eq)]
pub enum Caps {
    Any,
    Structures(Vec<Structure>),
}

pub enum CapsModel {
    Any,
    Structures(Seq<StructureModel>),
}

impl DeepView for Caps {
    type V = CapsModel;

    open spec fn deep_view(&self) -> CapsModel {
        match self {
            Caps::Any => CapsModel::Any,
            Caps::Structures(s) => CapsModel::Structures(s.deep_view()),
        }
    }
}

impl CapsModel {
    /// The first structure, where there is one.
    pub open spec fn first(self) -> Option<StructureModel> {
        match self {
            CapsModel::Structures(s) => if s.len() > 0 {
                Some(s[0])
            } else {
                None
            },
            CapsModel::Any => None,
        }
    }
}

impl Caps {
    /// Caps of a single structure.
    pub fn of(structure: Structure) -> (r: Caps)
        ensures
            r.deep_view() == CapsModel::Structures(seq![structure.deep_view()]),
    {
        let ghost model = structure.deep_view();
        let mut structures: Vec<Structure> = Vec::new();
        structures.push(structure);
        assert(structures.deep_view() =~= seq![model]);
        Caps::Structures(structures)
    }

    pub fn copy(&self) -> (r: Caps)
        ensures
            r.deep_view() == self.deep_view(),
    {
        match self {
            Caps::Any => Caps::Any,
            Caps::Structures(all) => {
                let mut copy: Vec<Structure> = Vec::new();
                let mut i: usize = 0;
                while i < all.len()
                    invariant
                        i <= all@.len(),
                        copy@.len() == i,
                        forall|j: int|
                            0 <= j < i ==> (#[trigger] copy@[j]).deep_view() == all@[j].deep_view(),
                    decreases all@.len() - i,
                {
                    copy.push(all[i].copy());
                    i = i + 1;
                }
                assert(copy.deep_view() =~= all.deep_view());
                Caps::Structures(copy)
            },
        }
    }

    /// The first structure, where there is one.
    pub fn first(&self) -> (r: Option<&Structure>)
        ensures
            match r {
                Some(s) => self.deep_view().first() == Some(s.deep_view()),
                None => self.deep_view().first() is None,
            },
    {
        match self {
            Caps::Structures(s) => if s.len() > 0 {
                Some(&s[0])
            } else {
                None
            },
            Caps::Any => None,
        }
    }
}

/// A field is what the first of its name says.
pub proof fn first_field_counts(fields: Seq<(Seq<char>, FieldModel)>, name: Seq<char>, k: int)
    requires
        0 <= k < fields.len(),
        fields[k].0 == name,
        forall|j: int| 0 <= j < k ==> (#[trigger] fields[j]).0 != name,
    ensures
        lookup(fields, name) == Some(fields[k].1),
{
    lookup_from(fields, name, k);
}

/// A field that no name gives is not there.
pub proof fn unnamed_field_is_absent(fields: Seq<(Seq<char>, FieldModel)>, name: Seq<char>)
    requires
        forall|j: int| 0 <= j < fields.len() ==> (#[trigger] fields[j]).0 != name,
    ensures
        lookup(fields, name) is None,
{
    lookup_from(fields, name, fields.len() as int);
    assert(fields.skip(fields.len() as int) =~= Seq::empty());
}

} // verus!
