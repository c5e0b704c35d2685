//! Structural size derivation: given the description of a product type's
//! field list, produce the plan for a size-oracle implementation whose body
//! is the sum of the fields' sizes, in declaration order.  Sum types are
//! rejected with a diagnostic, never given a silently wrong implementation.

use vstd::prelude::*;

verus! {

/// How one summand of a generated implementation reaches its field: by
/// field name, or by position.
#[derive(Debug)]
pub enum FieldId {
    Named(String),
    Positional(usize),
}

/// The shape of a type declaration, as far as size derivation cares: the
/// three product forms, and everything with variants.
#[derive(Debug)]
pub enum TypeShape {
    /// A struct with named fields, in declaration order.
    NamedStruct { field_names: Vec<String> },
    /// A struct with positional fields.
    TupleStruct { arity: usize },
    /// A field-less struct, which sizes to zero.
    UnitStruct,
    /// A tagged union; size derivation does not support these.
    SumType,
}

/// A type declaration handed to the derivation: its name and its shape.
#[derive(Debug)]
pub struct TypeDesc {
    pub name: String,
    pub shape: TypeShape,
}

/// The derivation's output: for the named type, a size-oracle body that
/// sums the listed fields, in order.
#[derive(Debug)]
pub struct SizeImpl {
    pub target: String,
    pub summands: Vec<FieldId>,
}

/// Why a derivation was refused, naming the offending type.
#[derive(Debug)]
pub enum GenError {
    SumTypeUnsupported { target: String },
}

/// The summand list a product shape must generate: one entry per field, in
/// declaration order; nothing for a sum type.
pub open spec fn summands_match(shape: TypeShape, ids: Seq<FieldId>) -> bool {
    match shape {
        TypeShape::NamedStruct { field_names } => {
            &&& ids.len() == field_names@.len()
            &&& forall|i: int|
                0 <= i < ids.len() ==> ids[i] == FieldId::Named(field_names@[i])
        },
        TypeShape::TupleStruct { arity } => {
            &&& ids.len() == arity
            &&& forall|i: int| 0 <= i < ids.len() ==> ids[i] == FieldId::Positional(i as usize)
        },
        TypeShape::UnitStruct => ids.len() == 0,
        TypeShape::SumType => false,
    }
}

/// Derive the size oracle for a described type: every product shape yields
/// the field-wise sum over its fields in declaration order, and a sum type
/// is rejected with a diagnostic naming it.
pub fn derive_borsh_size(input: TypeDesc) -> (r: Result<SizeImpl, GenError>)
    ensures
        r is Err <==> input.shape is SumType,
        r matches Ok(si) ==> si.target == input.name && summands_match(
            input.shape,
            si.summands@,
        ),
        r matches Err(e) ==> e == (GenError::SumTypeUnsupported { target: input.name }),
{
    let TypeDesc { name, shape } = input;
    match shape {
        TypeShape::NamedStruct { field_names } => {
            let ghost names = field_names@;
            let mut summands: Vec<FieldId> = Vec::new();
            let mut i: usize = 0;
            while i < field_names.len()
                invariant
                    i <= names.len(),
                    names == field_names@,
                    summands@.len() == i,
                    forall|j: int|
                        0 <= j < i ==> summands@[j] == FieldId::Named(names[j]),
                decreases names.len() - i,
            {
                summands.push(FieldId::Named(field_names[i].clone()));
                i = i + 1;
            }
            Ok(SizeImpl { target: name, summands })
        },
        TypeShape::TupleStruct { arity } => {
            let mut summands: Vec<FieldId> = Vec::new();
            let mut i: usize = 0;
            while i < arity
                invariant
                    i <= arity,
                    summands@.len() == i,
                    forall|j: int|
                        0 <= j < i ==> summands@[j] == FieldId::Positional(j as usize),
                decreases arity - i,
            {
                summands.push(FieldId::Positional(i));
                i = i + 1;
            }
            Ok(SizeImpl { target: name, summands })
        },
        TypeShape::UnitStruct => Ok(SizeImpl { target: name, summands: Vec::new() }),
        TypeShape::SumType => Err(GenError::SumTypeUnsupported { target: name }),
    }
}

} // verus!
