//! The structural size derivation must accept every product shape, emit its
//! fields in declaration order, and reject sum types with a diagnostic.

use fastborsh::derive_borsh_size;
use fastborsh::FieldId;
use fastborsh::GenError;
use fastborsh::TypeDesc;
use fastborsh::TypeShape;

#[test]
fn named_struct_sums_fields_in_order() {
    let desc = TypeDesc {
        name: String::from("Record"),
        shape: TypeShape::NamedStruct {
            field_names: vec![String::from("a"), String::from("b"), String::from("c")],
        },
    };
    let plan = derive_borsh_size(desc).unwrap();
    assert_eq!(plan.target, "Record");
    assert_eq!(plan.summands.len(), 3);
    match &plan.summands[0] {
        FieldId::Named(n) => assert_eq!(n, "a"),
        _ => panic!("expected a named field"),
    }
    match &plan.summands[1] {
        FieldId::Named(n) => assert_eq!(n, "b"),
        _ => panic!("expected a named field"),
    }
    match &plan.summands[2] {
        FieldId::Named(n) => assert_eq!(n, "c"),
        _ => panic!("expected a named field"),
    }
}

#[test]
fn tuple_struct_sums_positions_in_order() {
    let desc = TypeDesc {
        name: String::from("Pair"),
        shape: TypeShape::TupleStruct { arity: 2 },
    };
    let plan = derive_borsh_size(desc).unwrap();
    assert_eq!(plan.target, "Pair");
    assert_eq!(plan.summands.len(), 2);
    assert!(matches!(plan.summands[0], FieldId::Positional(0)));
    assert!(matches!(plan.summands[1], FieldId::Positional(1)));
}

#[test]
fn unit_struct_sums_nothing() {
    let desc = TypeDesc { name: String::from("Unit"), shape: TypeShape::UnitStruct };
    let plan = derive_borsh_size(desc).unwrap();
    assert_eq!(plan.target, "Unit");
    assert!(plan.summands.is_empty());
}

#[test]
fn sum_type_is_rejected_with_diagnostic() {
    let desc = TypeDesc { name: String::from("Choice"), shape: TypeShape::SumType };
    match derive_borsh_size(desc) {
        Err(GenError::SumTypeUnsupported { target }) => assert_eq!(target, "Choice"),
        Ok(_) => panic!("a sum type must be rejected, not given an implementation"),
    }
}
