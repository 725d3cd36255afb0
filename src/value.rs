use vstd::prelude::*;

verus! {

/// A single value of one of the protocol's value syntaxes.
#[derive(Debug, PartialEq, Eq)]
pub enum Value {
    Charset(String),
    Keyword(String),
    MimeMediaType(String),
    NaturalLanguage(String),
    Uri(String),
    Enum(i32),
    Integer(i32),
    Boolean(bool),
    NameWithoutLanguage(String),
}

/// What a [`Value`] holds, with its texts as character sequences.
pub enum ValueView {
    Charset(Seq<char>),
    Keyword(Seq<char>),
    MimeMediaType(Seq<char>),
    NaturalLanguage(Seq<char>),
    Uri(Seq<char>),
    Enum(i32),
    Integer(i32),
    Boolean(bool),
    NameWithoutLanguage(Seq<char>),
}

impl View for Value {
    type V = ValueView;

    open spec fn view(&self) -> ValueView {
        match self {
            Value::Charset(s) => ValueView::Charset(s@),
            Value::Keyword(s) => ValueView::Keyword(s@),
            Value::MimeMediaType(s) => ValueView::MimeMediaType(s@),
            Value::NaturalLanguage(s) => ValueView::NaturalLanguage(s@),
            Value::Uri(s) => ValueView::Uri(s@),
            Value::Enum(n) => ValueView::Enum(*n),
            Value::Integer(n) => ValueView::Integer(*n),
            Value::Boolean(b) => ValueView::Boolean(*b),
            Value::NameWithoutLanguage(s) => ValueView::NameWithoutLanguage(s@),
        }
    }
}

impl Clone for Value {
    fn clone(&self) -> (r: Value)
        ensures
            r == *self,
    {
        match self {
            Value::Charset(s) => Value::Charset(s.clone()),
            Value::Keyword(s) => Value::Keyword(s.clone()),
            Value::MimeMediaType(s) => Value::MimeMediaType(s.clone()),
            Value::NaturalLanguage(s) => Value::NaturalLanguage(s.clone()),
            Value::Uri(s) => Value::Uri(s.clone()),
            Value::Enum(n) => Value::Enum(*n),
            Value::Integer(n) => Value::Integer(*n),
            Value::Boolean(b) => Value::Boolean(*b),
            Value::NameWithoutLanguage(s) => Value::NameWithoutLanguage(s.clone()),
        }
    }
}

/// The value of an attribute: one value, or an ordered list of values.
#[derive(Debug, PartialEq, Eq)]
pub enum AttributeValue {
    Single(Value),
    Array(Vec<Value>),
}

pub enum AttributeValueView {
    Single(ValueView),
    Array(Seq<ValueView>),
}

/// The views of a list of values, in order.
pub open spec fn views_of(values: Seq<Value>) -> Seq<ValueView> {
    values.map_values(|v: Value| v@)
}

impl View for AttributeValue {
    type V = AttributeValueView;

    open spec fn view(&self) -> AttributeValueView {
        match self {
            AttributeValue::Single(v) => AttributeValueView::Single(v@),
            AttributeValue::Array(vs) => AttributeValueView::Array(views_of(vs@)),
        }
    }
}

impl Clone for AttributeValue {
    fn clone(&self) -> (r: AttributeValue)
        ensures
            r@ == self@,
    {
        match self {
            AttributeValue::Single(v) => AttributeValue::Single(v.clone()),
            AttributeValue::Array(vs) => {
                let copy = vs.clone();
                assert(copy@ =~= vs@);
                AttributeValue::Array(copy)
            },
        }
    }
}

/// A named attribute.
#[derive(Debug, PartialEq, Eq)]
pub struct Attribute {
    pub name: String,
    pub value: AttributeValue,
}

pub struct AttributeView {
    pub name: Seq<char>,
    pub value: AttributeValueView,
}

impl View for Attribute {
    type V = AttributeView;

    open spec fn view(&self) -> AttributeView {
        AttributeView { name: self.name@, value: self.value@ }
    }
}

impl Clone for Attribute {
    fn clone(&self) -> (r: Attribute)
        ensures
            r@ == self@,
    {
        Attribute { name: self.name.clone(), value: self.value.clone() }
    }
}

impl Attribute {
    pub fn new(name: String, value: AttributeValue) -> (r: Attribute)
        ensures
            r.name == name,
            r.value == value,
    {
        Attribute { name, value }
    }
}

} // verus!
