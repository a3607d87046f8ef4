use std::mem;

use cretonne::bitset::{BitSet16, BitSet8};
use cretonne::constraints::{ResolvedConstraint, ValueTypeSet};
use cretonne::instructions::InstructionData;
use cretonne::opcodes::{InstructionFormat, Opcode};
use cretonne::types::{LaneType, Type};

fn scalar(l: LaneType) -> Type {
    Type::scalar(l)
}

fn vector(l: LaneType, n: u16) -> Type {
    Type::scalar(l).by_factor(n).unwrap()
}

#[test]
fn opcodes() {
    let x = Opcode::Iadd;
    let mut y = Opcode::Isub;

    assert!(x != y);
    y = Opcode::Iadd;
    assert_eq!(x, y);
    assert_eq!(x.format(), InstructionFormat::Binary);

    assert_eq!(format!("{:?}", Opcode::IaddImm), "IaddImm");
    assert_eq!(Opcode::IaddImm.to_string(), "iadd_imm");

    // Check the matcher.
    assert_eq!("iadd".parse::<Opcode>(), Ok(Opcode::Iadd));
    assert_eq!("iadd_imm".parse::<Opcode>(), Ok(Opcode::IaddImm));
    assert_eq!("iadd\0".parse::<Opcode>(), Err("Unknown opcode"));
    assert_eq!("".parse::<Opcode>(), Err("Unknown opcode"));
    assert_eq!("\0".parse::<Opcode>(), Err("Unknown opcode"));

    // An optional opcode costs no more room than an opcode.
    assert_eq!(mem::size_of::<Opcode>(), mem::size_of::<Option<Opcode>>());
}

#[test]
fn instruction_data() {
    assert_eq!(mem::size_of::<InstructionData>(), 16);
}

#[test]
fn constraints() {
    let a = Opcode::Iadd.constraints();
    assert!(a.use_typevar_operand());
    assert!(!a.requires_typevar_operand());
    assert_eq!(a.fixed_results(), 1);
    assert_eq!(a.fixed_value_arguments(), 2);
    assert_eq!(a.result_type(0, scalar(LaneType::I32)), scalar(LaneType::I32));
    assert_eq!(a.result_type(0, scalar(LaneType::I8)), scalar(LaneType::I8));
    assert_eq!(
        a.value_argument_constraint(0, scalar(LaneType::I32)),
        ResolvedConstraint::Bound(scalar(LaneType::I32))
    );
    assert_eq!(
        a.value_argument_constraint(1, scalar(LaneType::I32)),
        ResolvedConstraint::Bound(scalar(LaneType::I32))
    );

    let b = Opcode::Bitcast.constraints();
    assert!(!b.use_typevar_operand());
    assert!(!b.requires_typevar_operand());
    assert_eq!(b.fixed_results(), 1);
    assert_eq!(b.fixed_value_arguments(), 1);
    assert_eq!(b.result_type(0, scalar(LaneType::I32)), scalar(LaneType::I32));
    assert_eq!(b.result_type(0, scalar(LaneType::I8)), scalar(LaneType::I8));
    match b.value_argument_constraint(0, scalar(LaneType::I32)) {
        ResolvedConstraint::Free(vts) => assert!(vts.contains(scalar(LaneType::F32))),
        _ => panic!("Unexpected constraint from value_argument_constraint"),
    }

    let c = Opcode::Call.constraints();
    assert_eq!(c.fixed_results(), 0);
    assert_eq!(c.fixed_value_arguments(), 0);

    let i = Opcode::CallIndirect.constraints();
    assert_eq!(i.fixed_results(), 0);
    assert_eq!(i.fixed_value_arguments(), 1);

    let cmp = Opcode::Icmp.constraints();
    assert!(cmp.use_typevar_operand());
    assert!(cmp.requires_typevar_operand());
    assert_eq!(cmp.fixed_results(), 1);
    assert_eq!(cmp.fixed_value_arguments(), 2);
}

#[test]
fn value_set() {
    let vts = ValueTypeSet {
        lanes: BitSet16::from_range(0, 8),
        ints: BitSet8::from_range(4, 7),
        floats: BitSet8::from_range(0, 0),
        bools: BitSet8::from_range(3, 7),
    };
    assert!(!vts.contains(scalar(LaneType::I8)));
    assert!(vts.contains(scalar(LaneType::I32)));
    assert!(vts.contains(scalar(LaneType::I64)));
    assert!(vts.contains(vector(LaneType::I32, 4)));
    assert!(!vts.contains(scalar(LaneType::F32)));
    assert!(!vts.contains(scalar(LaneType::B1)));
    assert!(vts.contains(scalar(LaneType::B8)));
    assert!(vts.contains(scalar(LaneType::B64)));
    assert_eq!(vts.example().to_string(), "i32");

    let vts = ValueTypeSet {
        lanes: BitSet16::from_range(0, 8),
        ints: BitSet8::from_range(0, 0),
        floats: BitSet8::from_range(5, 7),
        bools: BitSet8::from_range(3, 7),
    };
    assert_eq!(vts.example().to_string(), "f32");

    let vts = ValueTypeSet {
        lanes: BitSet16::from_range(1, 8),
        ints: BitSet8::from_range(0, 0),
        floats: BitSet8::from_range(5, 7),
        bools: BitSet8::from_range(3, 7),
    };
    assert_eq!(vts.example().to_string(), "f32x2");

    let vts = ValueTypeSet {
        lanes: BitSet16::from_range(2, 8),
        ints: BitSet8::from_range(0, 0),
        floats: BitSet8::from_range(0, 0),
        bools: BitSet8::from_range(3, 7),
    };
    assert!(!vts.contains(vector(LaneType::B32, 2)));
    assert!(vts.contains(vector(LaneType::B32, 4)));
    assert_eq!(vts.example().to_string(), "b32x4");

    let vts = ValueTypeSet {
        // lanes 1 to 256, integers of 8 to 64 bits
        lanes: BitSet16::from_range(0, 9),
        ints: BitSet8::from_range(3, 7),
        floats: BitSet8::from_range(0, 0),
        bools: BitSet8::from_range(0, 0),
    };
    assert!(vts.contains(scalar(LaneType::I32)));
    assert!(vts.contains(vector(LaneType::I32, 4)));
}
