//! Decoded frames and the typed value tree.

pub mod encode;

use vstd::prelude::*;

use crate::can_adapter::timestamped::Timestamped;
use crate::config::share;
use crate::config::MessageId;
use crate::config::MessageRef;

verus! {

/// A typed value.
#[derive(Debug)]
pub enum Value {
    UnsignedValue(u64),
    SignedValue(i64),
    RealValue(i128),
    StructValue(Vec<Attribute>),
    EnumValue(String),
}

/// A named value inside a struct value or a frame.
#[derive(Debug)]
pub struct Attribute {
    pub name: String,
    pub value: Value,
}

/// The mathematical content of a [`Value`].
pub enum ValueView {
    Unsigned(u64),
    Signed(i64),
    Real(int),
    Struct(Seq<AttributeView>),
    Enum(Seq<char>),
}

/// The mathematical content of an [`Attribute`].
pub struct AttributeView {
    pub name: Seq<char>,
    pub value: ValueView,
}

impl View for Attribute {
    type V = AttributeView;

    open spec fn view(&self) -> AttributeView {
        AttributeView { name: self.name@, value: self.value@ }
    }
}

/// The contents of a list of attributes.
pub open spec fn attribute_views(attributes: Seq<Attribute>) -> Seq<AttributeView> {
    Seq::new(attributes.len(), |i: int| attributes[i]@)
}

/// The mathematical content of a value, level by level.
pub open spec fn value_view(value: Value) -> ValueView
    decreases value,
{
    match value {
        Value::UnsignedValue(v) => ValueView::Unsigned(v),
        Value::SignedValue(v) => ValueView::Signed(v),
        Value::RealValue(v) => ValueView::Real(v as int),
        Value::StructValue(attributes) => ValueView::Struct(
            Seq::new(
                attributes@.len(),
                |i: int|
                    if 0 <= i < attributes@.len() {
                        AttributeView {
                            name: attributes@[i].name@,
                            value: value_view(attributes@[i].value),
                        }
                    } else {
                        arbitrary()
                    },
            ),
        ),
        Value::EnumValue(name) => ValueView::Enum(name@),
    }
}

impl View for Value {
    type V = ValueView;

    open spec fn view(&self) -> ValueView {
        value_view(*self)
    }
}

/// The position of the first attribute called `name` at or behind `from`.
pub open spec fn attribute_index(attributes: Seq<AttributeView>, name: Seq<char>, from: int) -> Option<int>
    decreases attributes.len() - from,
{
    if from < 0 || from >= attributes.len() {
        None
    } else if attributes[from].name == name {
        Some(from)
    } else {
        attribute_index(attributes, name, from + 1)
    }
}

/// The attribute of a struct value that a name selects: the first one that
/// carries the name. Values of other kinds have no attributes.
pub open spec fn attribute_of(value: ValueView, name: Seq<char>) -> Option<ValueView> {
    match value {
        ValueView::Struct(attributes) => match attribute_index(attributes, name, 0) {
            Some(i) => Some(attributes[i].value),
            None => None,
        },
        _ => None,
    }
}

/// The view of a struct value is the list of the views of its attributes.
pub proof fn lemma_struct_view(attributes: Vec<Attribute>)
    ensures
        Value::StructValue(attributes)@ == ValueView::Struct(attribute_views(attributes@)),
{
    let v = Value::StructValue(attributes)@;
    assert(v->Struct_0 =~= attribute_views(attributes@));
}

impl Attribute {
    pub fn new(name: &str, value: Value) -> (attribute: Attribute)
        ensures
            attribute.name@ == name@,
            attribute.value == value,
    {
        Attribute { name: name.to_owned(), value }
    }

    pub fn name(&self) -> (name: &str)
        ensures
            name@ == self.name@,
    {
        self.name.as_str()
    }

    pub fn value(&self) -> (value: &Value)
        ensures
            *value == self.value,
    {
        &self.value
    }
}

/// What a found position says: no attribute before it carries the name, and
/// the one at it does.
pub proof fn lemma_attribute_index(attributes: Seq<AttributeView>, name: Seq<char>, from: int)
    requires
        0 <= from,
    ensures
        match attribute_index(attributes, name, from) {
            Some(i) => {
                &&& from <= i < attributes.len()
                &&& attributes[i].name == name
                &&& forall|j: int| from <= j < i ==> attributes[j].name != name
            },
            None => forall|j: int| from <= j < attributes.len() ==> attributes[j].name != name,
        },
    decreases attributes.len() - from,
{
    if from < attributes.len() && attributes[from].name != name {
        lemma_attribute_index(attributes, name, from + 1);
    }
}

/// Finds the first attribute of a list that carries a name.
pub(crate) fn find_attribute<'a>(attributes: &'a Vec<Attribute>, name: &str) -> (found: Option<&'a Value>)
    ensures
        found is Some <==> attribute_index(attribute_views(attributes@), name@, 0) is Some,
        found is Some ==> found->0@ == attribute_views(attributes@)[attribute_index(
            attribute_views(attributes@),
            name@,
            0,
        )->0].value,
{
    proof {
        lemma_attribute_index(attribute_views(attributes@), name@, 0);
    }
    let key = name.to_owned();
    let mut i: usize = 0;
    while i < attributes.len()
        invariant
            i <= attributes@.len(),
            key@ == name@,
            attribute_index(attribute_views(attributes@), name@, 0) == attribute_index(
                attribute_views(attributes@),
                name@,
                i as int,
            ),
        decreases attributes@.len() - i,
    {
        if attributes[i].name == key {
            return Some(&attributes[i].value);
        }
        i += 1;
    }
    None
}

impl Value {
    /// The attribute of a struct value that `name` selects: the first one
    /// that carries the name. A value of another kind has none.
    pub fn attribute(&self, name: &str) -> (found: Option<&Value>)
        ensures
            found is Some <==> attribute_of(self@, name@) is Some,
            found is Some ==> found->0@ == attribute_of(self@, name@)->0,
    {
        match self {
            Value::StructValue(attribs) => {
                proof {
                    lemma_struct_view(*attribs);
                }
                find_attribute(attribs, name)
            },
            _ => None,
        }
    }
}

/// Copies a list of attributes.
fn clone_attributes(attributes: &Vec<Attribute>) -> (copy: Vec<Attribute>)
    ensures
        attribute_views(copy@) == attribute_views(attributes@),
    decreases attributes, 0nat,
{
    let mut copy: Vec<Attribute> = Vec::new();
    let mut i: usize = 0;
    while i < attributes.len()
        invariant
            i <= attributes@.len(),
            attribute_views(copy@) =~= attribute_views(attributes@).take(i as int),
        decreases attributes@.len() - i,
    {
        let value = clone_value(&attributes[i].value);
        copy.push(Attribute { name: attributes[i].name.clone(), value });
        assert(attribute_views(attributes@).take(i + 1) =~= attribute_views(attributes@).take(
            i as int,
        ).push(attributes@[i as int]@));
        i += 1;
    }
    copy
}

/// Copies a value.
fn clone_value(value: &Value) -> (copy: Value)
    ensures
        copy@ == value@,
    decreases value, 1nat,
{
    match value {
        Value::UnsignedValue(v) => Value::UnsignedValue(*v),
        Value::SignedValue(v) => Value::SignedValue(*v),
        Value::RealValue(v) => Value::RealValue(*v),
        Value::StructValue(attributes) => {
            let copy = clone_attributes(attributes);
            proof {
                lemma_struct_view(*attributes);
                lemma_struct_view(copy);
            }
            Value::StructValue(copy)
        },
        Value::EnumValue(name) => Value::EnumValue(name.clone()),
    }
}

impl Clone for Value {
    fn clone(&self) -> (copy: Self)
        ensures
            copy@ == self@,
    {
        clone_value(self)
    }
}

impl Clone for Attribute {
    fn clone(&self) -> (copy: Self)
        ensures
            copy@ == self@,
    {
        Attribute { name: self.name.clone(), value: clone_value(&self.value) }
    }
}

/// The decoded attributes of a frame, in the order of the message's
/// description.
#[derive(Debug)]
pub struct FrameValue {
    pub attributes: Vec<Attribute>,
}

impl FrameValue {
    pub fn new(attributes: Vec<Attribute>) -> (value: FrameValue)
        ensures
            value.attributes == attributes,
    {
        Self { attributes }
    }
}

/// One decoded message: its description, its raw payload and its typed
/// attributes.
#[derive(Debug)]
pub struct Frame {
    pub config: MessageRef,
    pub data: u64,
    pub value: FrameValue,
}

impl Frame {
    pub fn new(config: MessageRef, data: u64, value: FrameValue) -> (frame: Frame)
        ensures
            frame.config == config,
            frame.data == data,
            frame.value == value,
    {
        Self { config, data, value }
    }

    pub fn id(&self) -> (id: &MessageId)
        ensures
            *id == self.config.id,
    {
        &self.config.id
    }

    pub fn ide(&self) -> (ide: bool)
        ensures
            ide == (self.config.id is ExtendedId),
    {
        self.config.id.ide()
    }

    pub fn data(&self) -> (data: u64)
        ensures
            data == self.data,
    {
        self.data
    }

    /// Decoded frames are never remote requests.
    pub fn rtr(&self) -> (rtr: bool)
        ensures
            !rtr,
    {
        false
    }

    pub fn description(&self) -> (description: Option<&str>)
        ensures
            description is Some <==> self.config.description is Some,
            description is Some ==> description->0@ == self.config.description->0@,
    {
        match &self.config.description {
            Some(text) => Some(text.as_str()),
            None => None,
        }
    }

    pub fn name(&self) -> (name: &str)
        ensures
            name@ == self.config.name@,
    {
        self.config.name.as_str()
    }

    pub fn dlc(&self) -> (dlc: u8)
        ensures
            dlc == self.config.dlc,
    {
        self.config.dlc
    }

    /// The first attribute of the frame that carries `name`.
    pub fn attribute(&self, name: &str) -> (found: Option<&Value>)
        ensures
            found is Some <==> attribute_of(self@, name@) is Some,
            found is Some ==> found->0@ == attribute_of(self@, name@)->0,
    {
        find_attribute(&self.value.attributes, name)
    }

    pub fn attributes(&self) -> (attributes: &Vec<Attribute>)
        ensures
            *attributes == self.value.attributes,
    {
        &self.value.attributes
    }
}

impl Clone for FrameValue {
    fn clone(&self) -> (copy: Self)
        ensures
            attribute_views(copy.attributes@) == attribute_views(self.attributes@),
    {
        FrameValue { attributes: clone_attributes(&self.attributes) }
    }
}

impl Clone for Frame {
    fn clone(&self) -> (copy: Self)
        ensures
            copy.config == self.config,
            copy.data == self.data,
            copy@ == self@,
    {
        Frame { config: share(&self.config), data: self.data, value: self.value.clone() }
    }
}

/// A decoded frame with the instant of its receipt.
pub type TFrame = Timestamped<Frame>;

impl View for Frame {
    type V = ValueView;

    /// The attributes of a frame, read as one struct value.
    open spec fn view(&self) -> ValueView {
        ValueView::Struct(attribute_views(self.value.attributes@))
    }
}

} // verus!
