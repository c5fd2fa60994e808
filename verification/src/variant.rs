//! D-Bus values of a type that is known only at run time.

use vstd::prelude::*;
use std::collections::HashMap;
use zbus::zvariant::{Array, Signature, Value};

verus! {

/// A D-Bus value.
#[verifier::external_type_specification]
#[verifier::external_body]
pub struct ExValue<'a>(zbus::zvariant::Value<'a>);

/// The type of a D-Bus value.
#[verifier::external_type_specification]
#[verifier::external_body]
pub struct ExSignature(zbus::zvariant::Signature);

/// The type of a D-Bus value, as far as it matters here.
#[verifier::ext_equal]
pub enum SignatureModel {
    U32,
    I32,
    Str,
    Variant,
    Structure(Seq<SignatureModel>),
    Other,
}

/// A D-Bus value, as far as it matters here.
#[verifier::ext_equal]
pub enum ValueModel {
    Str(Seq<char>),
    /// A value inside a variant.
    Variant(Box<ValueModel>),
    Structure(Seq<ValueModel>),
    Array { element: SignatureModel, elements: Seq<ValueModel> },
    Dict { key: SignatureModel, value: SignatureModel, len: nat },
    Other,
}

/// What a value holds.
pub uninterp spec fn value_view(value: zbus::zvariant::Value<'_>) -> ValueModel;

/// The type that a signature stands for.
pub uninterp spec fn signature_view(signature: zbus::zvariant::Signature) -> SignatureModel;

/// The type of a field of a structure.
#[derive(Debug, Clone, Copy, PartialEq, Eq, Structural)]
pub enum FieldType {
    U32,
    I32,
}

impl FieldType {
    pub open spec fn model(self) -> SignatureModel {
        match self {
            FieldType::U32 => SignatureModel::U32,
            FieldType::I32 => SignatureModel::I32,
        }
    }
}

/// The outermost layer of a value.
pub enum ValueNode<'v> {
    Variant(&'v Value<'v>),
    Structure(&'v [Value<'v>]),
    Text(String),
    Other,
}

/// What the values of a slice hold.
pub open spec fn values_view(values: Seq<Value<'_>>) -> Seq<ValueModel> {
    values.map_values(|v: Value<'_>| value_view(v))
}

/// `Signature::U32` and `Signature::I32` stand for the types of their names.
#[verifier::external_body]
pub(crate) fn field_signature(field: FieldType) -> (signature: Signature)
    ensures
        signature_view(signature) == field.model(),
{
    match field {
        FieldType::U32 => Signature::U32,
        FieldType::I32 => Signature::I32,
    }
}

/// `Signature::Structure` stands for the structures with fields of the given
/// types, in their order.
#[verifier::external_body]
pub(crate) fn structure_signature(
    a: Signature,
    b: Signature,
    c: Signature,
    d: Signature,
) -> (signature: Signature)
    ensures
        signature_view(signature) == SignatureModel::Structure(
            seq![signature_view(a), signature_view(b), signature_view(c), signature_view(d)],
        ),
{
    Signature::Structure(vec![a, b, c, d].into())
}

/// `Array::new` makes an empty array whose elements are of the given type;
/// `Value::Array` takes it as a value.
#[verifier::external_body]
pub(crate) fn empty_array(element: &Signature) -> (value: Value<'static>)
    ensures
        value_view(value) == (ValueModel::Array {
            element: signature_view(*element),
            elements: Seq::empty(),
        }),
{
    Value::Array(Array::new(element))
}

/// `Value::new` makes a structure of a triple: a text stays a text, an empty
/// map from texts to values becomes an empty dictionary of that type, and a
/// value goes inside a variant.
#[verifier::external_body]
pub(crate) fn triple_value(
    name: &str,
    attachments: HashMap<String, Value<'static>>,
    inner: Value<'static>,
) -> (value: Value<'static>)
    requires
        attachments@ == Map::<String, Value<'static>>::empty(),
    ensures
        value_view(value) == ValueModel::Structure(
            seq![
                ValueModel::Str(name@),
                empty_vardict(),
                ValueModel::Variant(Box::new(value_view(inner))),
            ],
        ),
{
    Value::new((name.to_owned(), attachments, inner))
}

/// `Value::new` makes a structure of a quadruple, each field as in
/// [`triple_value`].
#[verifier::external_body]
pub(crate) fn quadruple_value(
    name: &str,
    attachments: HashMap<String, Value<'static>>,
    text: &str,
    inner: Value<'static>,
) -> (value: Value<'static>)
    requires
        attachments@ == Map::<String, Value<'static>>::empty(),
    ensures
        value_view(value) == ValueModel::Structure(
            seq![
                ValueModel::Str(name@),
                empty_vardict(),
                ValueModel::Str(text@),
                ValueModel::Variant(Box::new(value_view(inner))),
            ],
        ),
{
    Value::new((name.to_owned(), attachments, text.to_owned(), inner))
}

/// An empty dictionary from texts to values of any type.
pub open spec fn empty_vardict() -> ValueModel {
    ValueModel::Dict { key: SignatureModel::Str, value: SignatureModel::Variant, len: 0 }
}

/// The variants of `Value`: what is inside a variant, the fields of a structure
/// by `Structure::fields`, and a text are handed out; of any other value it is
/// claimed only that it is none of these.
#[verifier::external_body]
pub(crate) fn value_node<'v>(value: &'v Value<'v>) -> (node: ValueNode<'v>)
    ensures
        node matches ValueNode::Variant(inner) ==> value_view(*value) == ValueModel::Variant(
            Box::new(value_view(*inner)),
        ),
        node matches ValueNode::Structure(fields) ==> value_view(*value) == ValueModel::Structure(
            values_view(fields@),
        ),
        node matches ValueNode::Text(text) ==> value_view(*value) == ValueModel::Str(text@),
        node is Other ==> !(value_view(*value) is Variant) && !(value_view(*value) is Structure)
            && !(value_view(*value) is Str),
{
    match value {
        Value::Value(inner) => ValueNode::Variant(inner.as_ref()),
        Value::Structure(structure) => ValueNode::Structure(structure.fields()),
        Value::Str(text) => ValueNode::Text(text.to_string()),
        _ => ValueNode::Other,
    }
}

} // verus!
