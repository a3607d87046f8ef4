use cretonne::bitset::{BitSet16, BitSet8};
use cretonne::constraints::{OperandConstraint, ResolvedConstraint, ValueTypeSet};
use cretonne::entities::{Ebb, FuncRef, JumpTable, SigRef, StackSlot, Value};
use cretonne::immediates::{Imm64, IntCC, Offset32};
use cretonne::instructions::{BranchInfo, CallInfo, InstructionData, VariableArgs};
use cretonne::name_index::{simple_hash, OpcodeNameIndex};
use cretonne::opcodes::{InstructionFormat, Opcode, OPCODE_COUNT};
use cretonne::types::{LaneType, Type};
use cretonne::value_list::{ValueList, ValueListPool};

fn ty(l: LaneType) -> Type {
    Type::scalar(l)
}

fn vec_ty(l: LaneType, n: u16) -> Type {
    Type::scalar(l).by_factor(n).unwrap()
}

fn vals(ns: &[u32]) -> Vec<Value> {
    ns.iter().map(|n| Value::new(*n)).collect()
}

#[test]
fn every_opcode_name_parses_back() {
    let index = OpcodeNameIndex::new();
    for i in 0..OPCODE_COUNT {
        let o = Opcode::from_ordinal(i);
        assert_eq!(index.parse(&o.to_string()), Ok(o));
        assert_eq!(o.format(), o.format());
    }
}

#[test]
fn near_names_do_not_parse() {
    let index = OpcodeNameIndex::new();
    for s in ["IADD", "Iadd", "iadd ", " iadd", "ia", "iadd_im", "jump\0", "j\0ump", "iaddd"] {
        assert_eq!(index.parse(s), Err("Unknown opcode"));
    }
    assert_eq!(index.parse("br_icmp"), Ok(Opcode::BrIcmp));
    assert_eq!(index.parse("return"), Ok(Opcode::Return));
}

#[test]
fn hash_of_known_strings() {
    assert_eq!(simple_hash(""), 5381);
    // 5381 ^ 97 = 0x1564; 5381 rotated right by 6 = 0x1400_0054; sum = 0x1400_15b8
    assert_eq!(simple_hash("a"), 0x1400_15b8);
}

#[test]
fn formats_of_some_opcodes() {
    assert_eq!(Opcode::Jump.format(), InstructionFormat::Jump);
    assert_eq!(Opcode::Brz.format(), InstructionFormat::Branch);
    assert_eq!(Opcode::BrIcmp.format(), InstructionFormat::BranchIcmp);
    assert_eq!(Opcode::CallIndirect.format(), InstructionFormat::IndirectCall);
    assert_eq!(Opcode::IaddImm.format(), InstructionFormat::BinaryImm);
    assert_eq!(Opcode::Regmove.format(), InstructionFormat::RegMove);
}

#[test]
fn analyze_jump_passes_all_values() {
    let mut pool = ValueListPool::new();
    let args = ValueList::from_slice(&vals(&[1]), &mut pool);
    let inst = InstructionData::Jump { opcode: Opcode::Jump, destination: Ebb::new(4), args };
    match inst.analyze_branch(&pool) {
        BranchInfo::SingleDest(d, s) => {
            assert_eq!(d, Ebb::new(4));
            assert_eq!(s, &vals(&[1])[..]);
        }
        _ => panic!("expected a single destination"),
    }
    assert_eq!(inst.branch_destination(), Some(Ebb::new(4)));
}

#[test]
fn analyze_branch_drops_condition() {
    let mut pool = ValueListPool::new();
    let args = ValueList::from_slice(&vals(&[9, 1]), &mut pool);
    let inst = InstructionData::Branch { opcode: Opcode::Brnz, destination: Ebb::new(2), args };
    match inst.analyze_branch(&pool) {
        BranchInfo::SingleDest(d, s) => {
            assert_eq!(d, Ebb::new(2));
            assert_eq!(s, &vals(&[1])[..]);
        }
        _ => panic!("expected a single destination"),
    }
}

#[test]
fn analyze_compare_and_branch_drops_compared_values() {
    let mut pool = ValueListPool::new();
    let args = ValueList::from_slice(&vals(&[7, 8, 1]), &mut pool);
    let inst = InstructionData::BranchIcmp {
        opcode: Opcode::BrIcmp,
        cond: IntCC::SignedLessThan,
        destination: Ebb::new(5),
        args,
    };
    match inst.analyze_branch(&pool) {
        BranchInfo::SingleDest(d, s) => {
            assert_eq!(d, Ebb::new(5));
            assert_eq!(s, &vals(&[1])[..]);
        }
        _ => panic!("expected a single destination"),
    }
}

#[test]
fn analyze_table_and_non_branches() {
    let pool = ValueListPool::new();
    let table = InstructionData::BranchTable {
        opcode: Opcode::BrTable,
        arg: Value::new(3),
        table: JumpTable::new(6),
    };
    assert!(matches!(table.analyze_branch(&pool), BranchInfo::Table(t) if t == JumpTable::new(6)));
    assert_eq!(table.branch_destination(), None);
    let add = InstructionData::Binary { opcode: Opcode::Iadd, args: [Value::new(1), Value::new(2)] };
    assert!(matches!(add.analyze_branch(&pool), BranchInfo::NotABranch));
    assert!(matches!(add.analyze_call(&pool), CallInfo::NotACall));
    assert_eq!(add.branch_destination(), None);
}

#[test]
fn retarget_a_branch() {
    let mut pool = ValueListPool::new();
    let args = ValueList::from_slice(&vals(&[9]), &mut pool);
    let mut inst = InstructionData::Branch { opcode: Opcode::Brz, destination: Ebb::new(2), args };
    if let Some(d) = inst.branch_destination_mut() {
        *d = Ebb::new(11);
    }
    assert_eq!(inst.branch_destination(), Some(Ebb::new(11)));
    let mut other = InstructionData::UnaryImm { opcode: Opcode::Iconst, imm: Imm64(5) };
    assert!(other.branch_destination_mut().is_none());
}

#[test]
fn analyze_direct_and_indirect_calls() {
    let mut pool = ValueListPool::new();
    let direct_args = ValueList::from_slice(&vals(&[1, 2]), &mut pool);
    let direct = InstructionData::Call { opcode: Opcode::Call, func_ref: FuncRef::new(3), args: direct_args };
    match direct.analyze_call(&pool) {
        CallInfo::Direct(f, s) => {
            assert_eq!(f, FuncRef::new(3));
            assert_eq!(s, &vals(&[1, 2])[..]);
        }
        _ => panic!("expected a direct call"),
    }
    let indirect_args = ValueList::from_slice(&vals(&[20, 1]), &mut pool);
    let indirect = InstructionData::IndirectCall {
        opcode: Opcode::CallIndirect,
        sig_ref: SigRef::new(0),
        args: indirect_args,
    };
    match indirect.analyze_call(&pool) {
        CallInfo::Indirect(g, s) => {
            assert_eq!(g, SigRef::new(0));
            assert_eq!(s, &vals(&[1])[..]);
        }
        _ => panic!("expected an indirect call"),
    }
    let load = InstructionData::StackLoad {
        opcode: Opcode::StackLoad,
        stack_slot: StackSlot::new(0),
        offset: Offset32(8),
    };
    assert!(matches!(load.analyze_call(&pool), CallInfo::NotACall));
}

#[test]
fn extending_a_list_keeps_other_lists() {
    let mut pool = ValueListPool::new();
    let mut a = ValueList::from_slice(&vals(&[1, 2]), &mut pool);
    let b = ValueList::from_slice(&vals(&[3]), &mut pool);
    a.extend(&vals(&[4, 5]), &mut pool);
    assert_eq!(a.as_slice(&pool), &vals(&[1, 2, 4, 5])[..]);
    assert_eq!(b.as_slice(&pool), &vals(&[3])[..]);
    assert_eq!(a.len(&pool), 4);
    let mut c = ValueList::new();
    assert!(c.is_empty(&pool));
    c.extend(&vals(&[6]), &mut pool);
    assert_eq!(c.as_slice(&pool), &vals(&[6])[..]);
    assert_eq!(a.as_slice(&pool), &vals(&[1, 2, 4, 5])[..]);
}

#[test]
fn variable_args_into_value_list() {
    let mut args = VariableArgs::new();
    assert!(args.is_empty());
    args.push(Value::new(1));
    args.push(Value::new(2));
    assert!(!args.is_empty());
    assert_eq!(args.as_slice(), &vals(&[1, 2])[..]);
    assert_eq!(args.to_string(), "v1, v2");
    let mut pool = ValueListPool::new();
    let list = args.into_value_list(&vals(&[0]), &mut pool);
    assert_eq!(list.as_slice(&pool), &vals(&[0, 1, 2])[..]);
    assert_eq!(VariableArgs::default().to_string(), "");
}

#[test]
fn entity_names() {
    assert_eq!(Value::new(7).to_string(), "v7");
    assert_eq!(Value::new(1234).to_string(), "v1234");
    assert_eq!(Ebb::new(0).to_string(), "ebb0");
    assert_eq!(Value::new(42).index(), 42);
}

#[test]
fn type_names_and_transforms() {
    assert_eq!(ty(LaneType::B1).to_string(), "b1");
    assert_eq!(vec_ty(LaneType::I32, 4).to_string(), "i32x4");
    assert_eq!(vec_ty(LaneType::F64, 256).to_string(), "f64x256");
    assert_eq!(vec_ty(LaneType::I8, 16).lane_count(), 16);
    assert_eq!(ty(LaneType::I32).by_factor(3), None);
    assert_eq!(ty(LaneType::I32).by_factor(512), None);
    assert_eq!(vec_ty(LaneType::I32, 128).by_factor(4), None);
    assert_eq!(ty(LaneType::I8).double_width(), Some(ty(LaneType::I16)));
    assert_eq!(ty(LaneType::I64).double_width(), None);
    assert_eq!(vec_ty(LaneType::F64, 2).half_width(), Some(vec_ty(LaneType::F32, 2)));
    assert_eq!(ty(LaneType::F32).half_width(), None);
    assert_eq!(ty(LaneType::I32).half_vector(), None);
    assert_eq!(vec_ty(LaneType::I32, 4).half_vector(), Some(vec_ty(LaneType::I32, 2)));
    assert_eq!(vec_ty(LaneType::F32, 4).as_bool(), vec_ty(LaneType::B32, 4));
    assert_eq!(vec_ty(LaneType::I16, 8).lane_type(), ty(LaneType::I16));
    assert_eq!(ty(LaneType::I64).log2_lane_bits(), 6);
    assert!(ty(LaneType::F32).is_float() && !ty(LaneType::F32).is_int());
    assert!(ty(LaneType::B8).is_bool());
}

#[test]
fn resolve_every_rule_kind() {
    let i32x4 = vec_ty(LaneType::I32, 4);
    let bound = |t: Type| ResolvedConstraint::Bound(t);
    assert_eq!(OperandConstraint::Concrete(ty(LaneType::F64)).resolve(i32x4), bound(ty(LaneType::F64)));
    assert_eq!(OperandConstraint::Same.resolve(i32x4), bound(i32x4));
    assert_eq!(OperandConstraint::LaneOf.resolve(i32x4), bound(ty(LaneType::I32)));
    assert_eq!(OperandConstraint::AsBool.resolve(i32x4), bound(vec_ty(LaneType::B32, 4)));
    assert_eq!(OperandConstraint::HalfWidth.resolve(i32x4), bound(vec_ty(LaneType::I16, 4)));
    assert_eq!(OperandConstraint::DoubleWidth.resolve(i32x4), bound(vec_ty(LaneType::I64, 4)));
    assert_eq!(OperandConstraint::HalfVector.resolve(i32x4), bound(vec_ty(LaneType::I32, 2)));
    assert_eq!(OperandConstraint::DoubleVector.resolve(i32x4), bound(vec_ty(LaneType::I32, 8)));
    match OperandConstraint::Free(2).resolve(i32x4) {
        ResolvedConstraint::Free(set) => {
            assert!(set.contains(ty(LaneType::F64)));
            assert!(!set.contains(ty(LaneType::I32)));
        }
        _ => panic!("expected a free constraint"),
    }
}

#[test]
fn result_types_of_polymorphic_opcodes() {
    let i32x4 = vec_ty(LaneType::I32, 4);
    let vsplit = Opcode::Vsplit.constraints();
    assert_eq!(vsplit.fixed_results(), 2);
    assert_eq!(vsplit.result_type(1, i32x4), vec_ty(LaneType::I32, 2));
    assert_eq!(Opcode::Vconcat.constraints().result_type(0, i32x4), vec_ty(LaneType::I32, 8));
    assert_eq!(Opcode::Isplit.constraints().result_type(0, ty(LaneType::I64)), ty(LaneType::I32));
    assert_eq!(Opcode::Iconcat.constraints().result_type(0, ty(LaneType::I32)), ty(LaneType::I64));
    assert_eq!(Opcode::Icmp.constraints().result_type(0, i32x4), vec_ty(LaneType::B32, 4));
    assert_eq!(Opcode::Extractlane.constraints().result_type(0, i32x4), ty(LaneType::I32));
    assert_eq!(
        Opcode::Splat.constraints().value_argument_constraint(0, i32x4),
        ResolvedConstraint::Bound(ty(LaneType::I32))
    );
    assert_eq!(
        Opcode::HeapStore.constraints().value_argument_constraint(1, ty(LaneType::F32)),
        ResolvedConstraint::Bound(ty(LaneType::I32))
    );
}

#[test]
fn controlling_type_sets() {
    let iadd = Opcode::Iadd.constraints();
    assert!(iadd.is_polymorphic());
    let set = iadd.ctrl_typeset().unwrap();
    assert!(set.contains(ty(LaneType::I8)));
    assert!(set.contains(vec_ty(LaneType::I64, 256)));
    assert!(!set.contains(ty(LaneType::F32)));
    assert!(!Opcode::Jump.constraints().is_polymorphic());
    assert_eq!(Opcode::F32const.constraints().ctrl_typeset(), None);
    assert_eq!(Opcode::F32const.constraints().result_type(0, ty(LaneType::I8)), ty(LaneType::F32));
}

#[test]
fn integer_range_type_set() {
    // widths 16 to 64 bits, lane counts 1 to 8
    let vts = ValueTypeSet {
        lanes: BitSet16::from_range(0, 4),
        ints: BitSet8::from_range(4, 7),
        floats: BitSet8::from_range(0, 0),
        bools: BitSet8::from_range(0, 0),
    };
    for l in [LaneType::I16, LaneType::I32, LaneType::I64] {
        for n in [1, 2, 4, 8] {
            assert!(vts.contains(vec_ty(l, n)));
        }
        assert!(!vts.contains(vec_ty(l, 16)));
    }
    assert!(!vts.contains(ty(LaneType::I8)));
    assert!(!vts.contains(ty(LaneType::F32)));
    assert!(!vts.contains(ty(LaneType::F64)));
    assert!(!vts.contains(ty(LaneType::B32)));
    assert!(!vts.contains(ty(LaneType::B1)));
    assert_eq!(vts.example().to_string(), "i32");
}

#[test]
fn example_of_narrow_sets() {
    let vts = ValueTypeSet {
        lanes: BitSet16::from_range(3, 5),
        ints: BitSet8::from_range(3, 5),
        floats: BitSet8::from_range(0, 0),
        bools: BitSet8::from_range(0, 1),
    };
    assert_eq!(vts.example().to_string(), "i8x8");
}

#[test]
fn example_is_a_member() {
    // only one-lane 64-bit integers
    let wide = ValueTypeSet {
        lanes: BitSet16::from_range(0, 1),
        ints: BitSet8::from_range(6, 7),
        floats: BitSet8::from_range(0, 0),
        bools: BitSet8::from_range(0, 0),
    };
    assert_eq!(wide.example(), ty(LaneType::I64));
    assert!(wide.contains(wide.example()));
    // only 8-bit integers
    let narrow = ValueTypeSet {
        lanes: BitSet16::from_range(0, 9),
        ints: BitSet8::from_range(3, 4),
        floats: BitSet8::from_range(0, 0),
        bools: BitSet8::from_range(0, 0),
    };
    assert_eq!(narrow.example().to_string(), "i8");
    // only 64-bit floats, at least two lanes
    let floats = ValueTypeSet {
        lanes: BitSet16::from_range(1, 3),
        ints: BitSet8::from_range(0, 0),
        floats: BitSet8::from_range(6, 7),
        bools: BitSet8::from_range(0, 0),
    };
    assert_eq!(floats.example().to_string(), "f64x2");
    assert!(floats.contains(floats.example()));
}

#[test]
fn replace_a_variable_argument() {
    let mut args = VariableArgs::new();
    args.push(Value::new(1));
    args.push(Value::new(2));
    args.set(1, Value::new(5));
    assert_eq!(args.as_slice(), &vals(&[1, 5])[..]);
}

#[test]
fn from_str_matches_exactly() {
    for s in ["IADD", "Iadd", "iAdd", "iadd\0", "", "\0"] {
        assert_eq!(s.parse::<Opcode>(), Err("Unknown opcode"));
    }
    for i in 0..OPCODE_COUNT {
        let o = Opcode::from_ordinal(i);
        assert_eq!(o.to_string().parse::<Opcode>(), Ok(o));
    }
}

#[test]
fn bit_sets() {
    let s = BitSet8::from_range(2, 5);
    assert_eq!(s.0, 0b0001_1100);
    assert!(s.contains(2) && s.contains(4) && !s.contains(5) && !s.contains(200));
    assert_eq!(s.min(), Some(2));
    assert_eq!(s.max(), Some(4));
    let e = BitSet8::from_range(3, 3);
    assert_eq!(e.min(), None);
    assert_eq!(e.max(), None);
    let w = BitSet16::from_range(0, 16);
    assert_eq!(w.0, 0xffff);
    assert_eq!(w.max(), Some(15));
    assert_eq!(BitSet16::from_range(9, 12).min(), Some(9));
}
