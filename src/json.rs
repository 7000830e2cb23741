//! The shape of a JSON object as the structural codecs of this library read and
//! write it: an ordered list of members, each a scalar, an object of scalars, or
//! something nested deeper that the codecs do not look into.
use vstd::prelude::*;

verus! {

/// A JSON scalar. A number keeps the literal text it was written with, so that
/// it is carried through unchanged.
#[derive(Debug, Clone, PartialEq, Eq)]
pub enum Scalar {
    Null,
    Bool(bool),
    Number(String),
    Text(String),
}

/// The value of one member of a JSON object.
#[derive(Debug, Clone, PartialEq, Eq)]
pub enum Value {
    Scalar(Scalar),
    /// An object whose members are all scalars, in the order they were written.
    Object(Vec<(String, Scalar)>),
    /// An array, or an object holding a member that is not a scalar.
    Nested,
}

pub enum ScalarModel {
    Null,
    Bool(bool),
    Number(Seq<char>),
    Text(Seq<char>),
}

pub enum ValueModel {
    Scalar(ScalarModel),
    Object(Seq<(Seq<char>, ScalarModel)>),
    Nested,
}

impl View for Scalar {
    type V = ScalarModel;

    open spec fn view(&self) -> ScalarModel {
        match self {
            Scalar::Null => ScalarModel::Null,
            Scalar::Bool(b) => ScalarModel::Bool(*b),
            Scalar::Number(n) => ScalarModel::Number(n@),
            Scalar::Text(t) => ScalarModel::Text(t@),
        }
    }
}

pub open spec fn fields_view(fs: Seq<(String, Scalar)>) -> Seq<(Seq<char>, ScalarModel)> {
    fs.map_values(|f: (String, Scalar)| (f.0@, f.1@))
}

impl View for Value {
    type V = ValueModel;

    open spec fn view(&self) -> ValueModel {
        match self {
            Value::Scalar(s) => ValueModel::Scalar(s@),
            Value::Object(fs) => ValueModel::Object(fields_view(fs@)),
            Value::Nested => ValueModel::Nested,
        }
    }
}

/// The members of a JSON object, seen as names and models of values.
pub open spec fn members_view(ms: Seq<(String, Value)>) -> Seq<(Seq<char>, ValueModel)> {
    ms.map_values(|m: (String, Value)| (m.0@, m.1@))
}

} // verus!
