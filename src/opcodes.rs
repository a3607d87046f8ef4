//! The opcode catalog: every opcode with its instruction format, printed name and value
//! type constraints, and the shared tables of operand rules and type sets those
//! constraints point into.

use vstd::prelude::*;
use vstd::string::StringExecFns;
use crate::bitset::{lemma_members16, lemma_members8, BitSet8, BitSet16};
use crate::constraints::{OpcodeConstraints, OperandConstraint, ValueTypeSet};
use crate::types::{LaneType, Type};

verus! {

/// The shape of an instruction's operands. Each opcode has exactly one format, which
/// decides the `InstructionData` variant that holds it.
#[derive(Clone, Copy, Debug, PartialEq, Eq, Hash, Structural)]
pub enum InstructionFormat {
    Nullary,
    Unary,
    UnaryImm,
    UnaryIeee32,
    UnaryIeee64,
    Binary,
    BinaryImm,
    Ternary,
    MultiAry,
    InsertLane,
    ExtractLane,
    IntCompare,
    IntCompareImm,
    FloatCompare,
    Jump,
    Branch,
    BranchIcmp,
    BranchTable,
    Call,
    IndirectCall,
    StackLoad,
    StackStore,
    HeapLoad,
    HeapStore,
    Load,
    Store,
    RegMove,
}

/// An instruction opcode.
#[derive(Clone, Copy, Debug, PartialEq, Eq, Hash, Structural)]
pub enum Opcode {
    Jump,
    Brz,
    Brnz,
    BrIcmp,
    BrTable,
    Trap,
    Return,
    Call,
    CallIndirect,
    Iconst,
    F32const,
    F64const,
    Select,
    Copy,
    Bitcast,
    Splat,
    Insertlane,
    Extractlane,
    Vsplit,
    Vconcat,
    Icmp,
    IcmpImm,
    Fcmp,
    Iadd,
    Isub,
    Imul,
    IaddImm,
    Band,
    Fadd,
    Isplit,
    Iconcat,
    StackLoad,
    StackStore,
    HeapLoad,
    HeapStore,
    Load,
    Store,
    Regmove,
}

/// The number of opcodes.
pub const OPCODE_COUNT: usize = 38;

/// The number of entries in the operand constraint table.
pub const OPERAND_CONSTRAINT_COUNT: u16 = 35;

/// The number of entries in the type set table.
pub const TYPE_SET_COUNT: u8 = 10;

impl Opcode {
    /// The position of the opcode in the catalog.
    pub open spec fn ordinal(self) -> int {
        match self {
            Opcode::Jump => 0,
            Opcode::Brz => 1,
            Opcode::Brnz => 2,
            Opcode::BrIcmp => 3,
            Opcode::BrTable => 4,
            Opcode::Trap => 5,
            Opcode::Return => 6,
            Opcode::Call => 7,
            Opcode::CallIndirect => 8,
            Opcode::Iconst => 9,
            Opcode::F32const => 10,
            Opcode::F64const => 11,
            Opcode::Select => 12,
            Opcode::Copy => 13,
            Opcode::Bitcast => 14,
            Opcode::Splat => 15,
            Opcode::Insertlane => 16,
            Opcode::Extractlane => 17,
            Opcode::Vsplit => 18,
            Opcode::Vconcat => 19,
            Opcode::Icmp => 20,
            Opcode::IcmpImm => 21,
            Opcode::Fcmp => 22,
            Opcode::Iadd => 23,
            Opcode::Isub => 24,
            Opcode::Imul => 25,
            Opcode::IaddImm => 26,
            Opcode::Band => 27,
            Opcode::Fadd => 28,
            Opcode::Isplit => 29,
            Opcode::Iconcat => 30,
            Opcode::StackLoad => 31,
            Opcode::StackStore => 32,
            Opcode::HeapLoad => 33,
            Opcode::HeapStore => 34,
            Opcode::Load => 35,
            Opcode::Store => 36,
            Opcode::Regmove => 37,
        }
    }

    /// The opcode at position `i` of the catalog.
    pub open spec fn spec_from_ordinal(i: int) -> Opcode {
        if i == 0 {
            Opcode::Jump
        } else if i == 1 {
            Opcode::Brz
        } else if i == 2 {
            Opcode::Brnz
        } else if i == 3 {
            Opcode::BrIcmp
        } else if i == 4 {
            Opcode::BrTable
        } else if i == 5 {
            Opcode::Trap
        } else if i == 6 {
            Opcode::Return
        } else if i == 7 {
            Opcode::Call
        } else if i == 8 {
            Opcode::CallIndirect
        } else if i == 9 {
            Opcode::Iconst
        } else if i == 10 {
            Opcode::F32const
        } else if i == 11 {
            Opcode::F64const
        } else if i == 12 {
            Opcode::Select
        } else if i == 13 {
            Opcode::Copy
        } else if i == 14 {
            Opcode::Bitcast
        } else if i == 15 {
            Opcode::Splat
        } else if i == 16 {
            Opcode::Insertlane
        } else if i == 17 {
            Opcode::Extractlane
        } else if i == 18 {
            Opcode::Vsplit
        } else if i == 19 {
            Opcode::Vconcat
        } else if i == 20 {
            Opcode::Icmp
        } else if i == 21 {
            Opcode::IcmpImm
        } else if i == 22 {
            Opcode::Fcmp
        } else if i == 23 {
            Opcode::Iadd
        } else if i == 24 {
            Opcode::Isub
        } else if i == 25 {
            Opcode::Imul
        } else if i == 26 {
            Opcode::IaddImm
        } else if i == 27 {
            Opcode::Band
        } else if i == 28 {
            Opcode::Fadd
        } else if i == 29 {
            Opcode::Isplit
        } else if i == 30 {
            Opcode::Iconcat
        } else if i == 31 {
            Opcode::StackLoad
        } else if i == 32 {
            Opcode::StackStore
        } else if i == 33 {
            Opcode::HeapLoad
        } else if i == 34 {
            Opcode::HeapStore
        } else if i == 35 {
            Opcode::Load
        } else if i == 36 {
            Opcode::Store
        } else {
            Opcode::Regmove
        }
    }

    /// The opcode at position `i` of the catalog.
    pub fn from_ordinal(i: usize) -> (r: Opcode)
        requires
            i < OPCODE_COUNT,
        ensures
            r == Opcode::spec_from_ordinal(i as int),
            r.ordinal() == i,
    {
        match i {
            0 => Opcode::Jump,
            1 => Opcode::Brz,
            2 => Opcode::Brnz,
            3 => Opcode::BrIcmp,
            4 => Opcode::BrTable,
            5 => Opcode::Trap,
            6 => Opcode::Return,
            7 => Opcode::Call,
            8 => Opcode::CallIndirect,
            9 => Opcode::Iconst,
            10 => Opcode::F32const,
            11 => Opcode::F64const,
            12 => Opcode::Select,
            13 => Opcode::Copy,
            14 => Opcode::Bitcast,
            15 => Opcode::Splat,
            16 => Opcode::Insertlane,
            17 => Opcode::Extractlane,
            18 => Opcode::Vsplit,
            19 => Opcode::Vconcat,
            20 => Opcode::Icmp,
            21 => Opcode::IcmpImm,
            22 => Opcode::Fcmp,
            23 => Opcode::Iadd,
            24 => Opcode::Isub,
            25 => Opcode::Imul,
            26 => Opcode::IaddImm,
            27 => Opcode::Band,
            28 => Opcode::Fadd,
            29 => Opcode::Isplit,
            30 => Opcode::Iconcat,
            31 => Opcode::StackLoad,
            32 => Opcode::StackStore,
            33 => Opcode::HeapLoad,
            34 => Opcode::HeapStore,
            35 => Opcode::Load,
            36 => Opcode::Store,
            _ => Opcode::Regmove,
        }
    }

    /// The instruction format of the opcode.
    pub open spec fn spec_format(self) -> InstructionFormat {
        match self {
            Opcode::Jump => InstructionFormat::Jump,
            Opcode::Brz => InstructionFormat::Branch,
            Opcode::Brnz => InstructionFormat::Branch,
            Opcode::BrIcmp => InstructionFormat::BranchIcmp,
            Opcode::BrTable => InstructionFormat::BranchTable,
            Opcode::Trap => InstructionFormat::Nullary,
            Opcode::Return => InstructionFormat::MultiAry,
            Opcode::Call => InstructionFormat::Call,
            Opcode::CallIndirect => InstructionFormat::IndirectCall,
            Opcode::Iconst => InstructionFormat::UnaryImm,
            Opcode::F32const => InstructionFormat::UnaryIeee32,
            Opcode::F64const => InstructionFormat::UnaryIeee64,
            Opcode::Select => InstructionFormat::Ternary,
            Opcode::Copy => InstructionFormat::Unary,
            Opcode::Bitcast => InstructionFormat::Unary,
            Opcode::Splat => InstructionFormat::Unary,
            Opcode::Insertlane => InstructionFormat::InsertLane,
            Opcode::Extractlane => InstructionFormat::ExtractLane,
            Opcode::Vsplit => InstructionFormat::Unary,
            Opcode::Vconcat => InstructionFormat::Binary,
            Opcode::Icmp => InstructionFormat::IntCompare,
            Opcode::IcmpImm => InstructionFormat::IntCompareImm,
            Opcode::Fcmp => InstructionFormat::FloatCompare,
            Opcode::Iadd => InstructionFormat::Binary,
            Opcode::Isub => InstructionFormat::Binary,
            Opcode::Imul => InstructionFormat::Binary,
            Opcode::IaddImm => InstructionFormat::BinaryImm,
            Opcode::Band => InstructionFormat::Binary,
            Opcode::Fadd => InstructionFormat::Binary,
            Opcode::Isplit => InstructionFormat::Unary,
            Opcode::Iconcat => InstructionFormat::Binary,
            Opcode::StackLoad => InstructionFormat::StackLoad,
            Opcode::StackStore => InstructionFormat::StackStore,
            Opcode::HeapLoad => InstructionFormat::HeapLoad,
            Opcode::HeapStore => InstructionFormat::HeapStore,
            Opcode::Load => InstructionFormat::Load,
            Opcode::Store => InstructionFormat::Store,
            Opcode::Regmove => InstructionFormat::RegMove,
        }
    }

    /// Get the instruction format for this opcode.
    pub fn format(self) -> (r: InstructionFormat)
        ensures
            r == self.spec_format(),
    {
        match self {
            Opcode::Jump => InstructionFormat::Jump,
            Opcode::Brz => InstructionFormat::Branch,
            Opcode::Brnz => InstructionFormat::Branch,
            Opcode::BrIcmp => InstructionFormat::BranchIcmp,
            Opcode::BrTable => InstructionFormat::BranchTable,
            Opcode::Trap => InstructionFormat::Nullary,
            Opcode::Return => InstructionFormat::MultiAry,
            Opcode::Call => InstructionFormat::Call,
            Opcode::CallIndirect => InstructionFormat::IndirectCall,
            Opcode::Iconst => InstructionFormat::UnaryImm,
            Opcode::F32const => InstructionFormat::UnaryIeee32,
            Opcode::F64const => InstructionFormat::UnaryIeee64,
            Opcode::Select => InstructionFormat::Ternary,
            Opcode::Copy => InstructionFormat::Unary,
            Opcode::Bitcast => InstructionFormat::Unary,
            Opcode::Splat => InstructionFormat::Unary,
            Opcode::Insertlane => InstructionFormat::InsertLane,
            Opcode::Extractlane => InstructionFormat::ExtractLane,
            Opcode::Vsplit => InstructionFormat::Unary,
            Opcode::Vconcat => InstructionFormat::Binary,
            Opcode::Icmp => InstructionFormat::IntCompare,
            Opcode::IcmpImm => InstructionFormat::IntCompareImm,
            Opcode::Fcmp => InstructionFormat::FloatCompare,
            Opcode::Iadd => InstructionFormat::Binary,
            Opcode::Isub => InstructionFormat::Binary,
            Opcode::Imul => InstructionFormat::Binary,
            Opcode::IaddImm => InstructionFormat::BinaryImm,
            Opcode::Band => InstructionFormat::Binary,
            Opcode::Fadd => InstructionFormat::Binary,
            Opcode::Isplit => InstructionFormat::Unary,
            Opcode::Iconcat => InstructionFormat::Binary,
            Opcode::StackLoad => InstructionFormat::StackLoad,
            Opcode::StackStore => InstructionFormat::StackStore,
            Opcode::HeapLoad => InstructionFormat::HeapLoad,
            Opcode::HeapStore => InstructionFormat::HeapStore,
            Opcode::Load => InstructionFormat::Load,
            Opcode::Store => InstructionFormat::Store,
            Opcode::Regmove => InstructionFormat::RegMove,
        }
    }

    /// The printed name of the opcode.
    pub open spec fn spec_name(self) -> Seq<char> {
        match self {
            Opcode::Jump => "jump"@,
            Opcode::Brz => "brz"@,
            Opcode::Brnz => "brnz"@,
            Opcode::BrIcmp => "br_icmp"@,
            Opcode::BrTable => "br_table"@,
            Opcode::Trap => "trap"@,
            Opcode::Return => "return"@,
            Opcode::Call => "call"@,
            Opcode::CallIndirect => "call_indirect"@,
            Opcode::Iconst => "iconst"@,
            Opcode::F32const => "f32const"@,
            Opcode::F64const => "f64const"@,
            Opcode::Select => "select"@,
            Opcode::Copy => "copy"@,
            Opcode::Bitcast => "bitcast"@,
            Opcode::Splat => "splat"@,
            Opcode::Insertlane => "insertlane"@,
            Opcode::Extractlane => "extractlane"@,
            Opcode::Vsplit => "vsplit"@,
            Opcode::Vconcat => "vconcat"@,
            Opcode::Icmp => "icmp"@,
            Opcode::IcmpImm => "icmp_imm"@,
            Opcode::Fcmp => "fcmp"@,
            Opcode::Iadd => "iadd"@,
            Opcode::Isub => "isub"@,
            Opcode::Imul => "imul"@,
            Opcode::IaddImm => "iadd_imm"@,
            Opcode::Band => "band"@,
            Opcode::Fadd => "fadd"@,
            Opcode::Isplit => "isplit"@,
            Opcode::Iconcat => "iconcat"@,
            Opcode::StackLoad => "stack_load"@,
            Opcode::StackStore => "stack_store"@,
            Opcode::HeapLoad => "heap_load"@,
            Opcode::HeapStore => "heap_store"@,
            Opcode::Load => "load"@,
            Opcode::Store => "store"@,
            Opcode::Regmove => "regmove"@,
        }
    }

    /// The printed name of the opcode.
    pub fn name(self) -> (r: &'static str)
        ensures
            r@ == self.spec_name(),
    {
        match self {
            Opcode::Jump => "jump",
            Opcode::Brz => "brz",
            Opcode::Brnz => "brnz",
            Opcode::BrIcmp => "br_icmp",
            Opcode::BrTable => "br_table",
            Opcode::Trap => "trap",
            Opcode::Return => "return",
            Opcode::Call => "call",
            Opcode::CallIndirect => "call_indirect",
            Opcode::Iconst => "iconst",
            Opcode::F32const => "f32const",
            Opcode::F64const => "f64const",
            Opcode::Select => "select",
            Opcode::Copy => "copy",
            Opcode::Bitcast => "bitcast",
            Opcode::Splat => "splat",
            Opcode::Insertlane => "insertlane",
            Opcode::Extractlane => "extractlane",
            Opcode::Vsplit => "vsplit",
            Opcode::Vconcat => "vconcat",
            Opcode::Icmp => "icmp",
            Opcode::IcmpImm => "icmp_imm",
            Opcode::Fcmp => "fcmp",
            Opcode::Iadd => "iadd",
            Opcode::Isub => "isub",
            Opcode::Imul => "imul",
            Opcode::IaddImm => "iadd_imm",
            Opcode::Band => "band",
            Opcode::Fadd => "fadd",
            Opcode::Isplit => "isplit",
            Opcode::Iconcat => "iconcat",
            Opcode::StackLoad => "stack_load",
            Opcode::StackStore => "stack_store",
            Opcode::HeapLoad => "heap_load",
            Opcode::HeapStore => "heap_store",
            Opcode::Load => "load",
            Opcode::Store => "store",
            Opcode::Regmove => "regmove",
        }
    }

    /// The printed name of the opcode, as an owned string.
    pub fn to_string(self) -> (r: String)
        ensures
            r@ == self.spec_name(),
    {
        String::from_str(self.name())
    }

    /// The value type constraints of the opcode.
    pub open spec fn spec_constraints(self) -> OpcodeConstraints {
        match self {
            Opcode::Jump => OpcodeConstraints { results: 0, value_arguments: 0, typevar_operand: false, typevar_operand_required: false, typeset_offset: 255, constraint_offset: 0 },
            Opcode::Brz => OpcodeConstraints { results: 0, value_arguments: 1, typevar_operand: true, typevar_operand_required: true, typeset_offset: 4, constraint_offset: 0 },
            Opcode::Brnz => OpcodeConstraints { results: 0, value_arguments: 1, typevar_operand: true, typevar_operand_required: true, typeset_offset: 4, constraint_offset: 0 },
            Opcode::BrIcmp => OpcodeConstraints { results: 0, value_arguments: 2, typevar_operand: true, typevar_operand_required: true, typeset_offset: 0, constraint_offset: 1 },
            Opcode::BrTable => OpcodeConstraints { results: 0, value_arguments: 1, typevar_operand: true, typevar_operand_required: true, typeset_offset: 1, constraint_offset: 0 },
            Opcode::Trap => OpcodeConstraints { results: 0, value_arguments: 0, typevar_operand: false, typevar_operand_required: false, typeset_offset: 255, constraint_offset: 3 },
            Opcode::Return => OpcodeConstraints { results: 0, value_arguments: 0, typevar_operand: false, typevar_operand_required: false, typeset_offset: 255, constraint_offset: 3 },
            Opcode::Call => OpcodeConstraints { results: 0, value_arguments: 0, typevar_operand: false, typevar_operand_required: false, typeset_offset: 255, constraint_offset: 3 },
            Opcode::CallIndirect => OpcodeConstraints { results: 0, value_arguments: 1, typevar_operand: true, typevar_operand_required: true, typeset_offset: 1, constraint_offset: 0 },
            Opcode::Iconst => OpcodeConstraints { results: 1, value_arguments: 0, typevar_operand: false, typevar_operand_required: false, typeset_offset: 1, constraint_offset: 0 },
            Opcode::F32const => OpcodeConstraints { results: 1, value_arguments: 0, typevar_operand: false, typevar_operand_required: false, typeset_offset: 255, constraint_offset: 3 },
            Opcode::F64const => OpcodeConstraints { results: 1, value_arguments: 0, typevar_operand: false, typevar_operand_required: false, typeset_offset: 255, constraint_offset: 4 },
            Opcode::Select => OpcodeConstraints { results: 1, value_arguments: 3, typevar_operand: true, typevar_operand_required: false, typeset_offset: 3, constraint_offset: 5 },
            Opcode::Copy => OpcodeConstraints { results: 1, value_arguments: 1, typevar_operand: true, typevar_operand_required: false, typeset_offset: 3, constraint_offset: 0 },
            Opcode::Bitcast => OpcodeConstraints { results: 1, value_arguments: 1, typevar_operand: false, typevar_operand_required: false, typeset_offset: 9, constraint_offset: 9 },
            Opcode::Splat => OpcodeConstraints { results: 1, value_arguments: 1, typevar_operand: false, typevar_operand_required: false, typeset_offset: 5, constraint_offset: 11 },
            Opcode::Insertlane => OpcodeConstraints { results: 1, value_arguments: 2, typevar_operand: true, typevar_operand_required: false, typeset_offset: 5, constraint_offset: 13 },
            Opcode::Extractlane => OpcodeConstraints { results: 1, value_arguments: 1, typevar_operand: true, typevar_operand_required: true, typeset_offset: 5, constraint_offset: 12 },
            Opcode::Vsplit => OpcodeConstraints { results: 2, value_arguments: 1, typevar_operand: true, typevar_operand_required: true, typeset_offset: 5, constraint_offset: 16 },
            Opcode::Vconcat => OpcodeConstraints { results: 1, value_arguments: 2, typevar_operand: true, typevar_operand_required: true, typeset_offset: 6, constraint_offset: 19 },
            Opcode::Icmp => OpcodeConstraints { results: 1, value_arguments: 2, typevar_operand: true, typevar_operand_required: true, typeset_offset: 0, constraint_offset: 22 },
            Opcode::IcmpImm => OpcodeConstraints { results: 1, value_arguments: 1, typevar_operand: true, typevar_operand_required: true, typeset_offset: 0, constraint_offset: 22 },
            Opcode::Fcmp => OpcodeConstraints { results: 1, value_arguments: 2, typevar_operand: true, typevar_operand_required: true, typeset_offset: 2, constraint_offset: 22 },
            Opcode::Iadd => OpcodeConstraints { results: 1, value_arguments: 2, typevar_operand: true, typevar_operand_required: false, typeset_offset: 0, constraint_offset: 0 },
            Opcode::Isub => OpcodeConstraints { results: 1, value_arguments: 2, typevar_operand: true, typevar_operand_required: false, typeset_offset: 0, constraint_offset: 0 },
            Opcode::Imul => OpcodeConstraints { results: 1, value_arguments: 2, typevar_operand: true, typevar_operand_required: false, typeset_offset: 0, constraint_offset: 0 },
            Opcode::IaddImm => OpcodeConstraints { results: 1, value_arguments: 1, typevar_operand: true, typevar_operand_required: false, typeset_offset: 0, constraint_offset: 0 },
            Opcode::Band => OpcodeConstraints { results: 1, value_arguments: 2, typevar_operand: true, typevar_operand_required: false, typeset_offset: 3, constraint_offset: 0 },
            Opcode::Fadd => OpcodeConstraints { results: 1, value_arguments: 2, typevar_operand: true, typevar_operand_required: false, typeset_offset: 2, constraint_offset: 0 },
            Opcode::Isplit => OpcodeConstraints { results: 2, value_arguments: 1, typevar_operand: true, typevar_operand_required: true, typeset_offset: 7, constraint_offset: 25 },
            Opcode::Iconcat => OpcodeConstraints { results: 1, value_arguments: 2, typevar_operand: true, typevar_operand_required: true, typeset_offset: 8, constraint_offset: 28 },
            Opcode::StackLoad => OpcodeConstraints { results: 1, value_arguments: 0, typevar_operand: false, typevar_operand_required: false, typeset_offset: 9, constraint_offset: 0 },
            Opcode::StackStore => OpcodeConstraints { results: 0, value_arguments: 1, typevar_operand: true, typevar_operand_required: true, typeset_offset: 9, constraint_offset: 0 },
            Opcode::HeapLoad => OpcodeConstraints { results: 1, value_arguments: 1, typevar_operand: false, typevar_operand_required: false, typeset_offset: 9, constraint_offset: 31 },
            Opcode::HeapStore => OpcodeConstraints { results: 0, value_arguments: 2, typevar_operand: true, typevar_operand_required: true, typeset_offset: 9, constraint_offset: 31 },
            Opcode::Load => OpcodeConstraints { results: 1, value_arguments: 1, typevar_operand: false, typevar_operand_required: false, typeset_offset: 9, constraint_offset: 33 },
            Opcode::Store => OpcodeConstraints { results: 0, value_arguments: 2, typevar_operand: true, typevar_operand_required: true, typeset_offset: 9, constraint_offset: 33 },
            Opcode::Regmove => OpcodeConstraints { results: 0, value_arguments: 1, typevar_operand: true, typevar_operand_required: true, typeset_offset: 3, constraint_offset: 0 },
        }
    }

    /// Get the constraint descriptor for this opcode.
    pub fn constraints(self) -> (r: OpcodeConstraints)
        ensures
            r == self.spec_constraints(),
            r.wf(),
    {
        match self {
            Opcode::Jump => OpcodeConstraints { results: 0, value_arguments: 0, typevar_operand: false, typevar_operand_required: false, typeset_offset: 255, constraint_offset: 0 },
            Opcode::Brz => OpcodeConstraints { results: 0, value_arguments: 1, typevar_operand: true, typevar_operand_required: true, typeset_offset: 4, constraint_offset: 0 },
            Opcode::Brnz => OpcodeConstraints { results: 0, value_arguments: 1, typevar_operand: true, typevar_operand_required: true, typeset_offset: 4, constraint_offset: 0 },
            Opcode::BrIcmp => OpcodeConstraints { results: 0, value_arguments: 2, typevar_operand: true, typevar_operand_required: true, typeset_offset: 0, constraint_offset: 1 },
            Opcode::BrTable => OpcodeConstraints { results: 0, value_arguments: 1, typevar_operand: true, typevar_operand_required: true, typeset_offset: 1, constraint_offset: 0 },
            Opcode::Trap => OpcodeConstraints { results: 0, value_arguments: 0, typevar_operand: false, typevar_operand_required: false, typeset_offset: 255, constraint_offset: 3 },
            Opcode::Return => OpcodeConstraints { results: 0, value_arguments: 0, typevar_operand: false, typevar_operand_required: false, typeset_offset: 255, constraint_offset: 3 },
            Opcode::Call => OpcodeConstraints { results: 0, value_arguments: 0, typevar_operand: false, typevar_operand_required: false, typeset_offset: 255, constraint_offset: 3 },
            Opcode::CallIndirect => OpcodeConstraints { results: 0, value_arguments: 1, typevar_operand: true, typevar_operand_required: true, typeset_offset: 1, constraint_offset: 0 },
            Opcode::Iconst => OpcodeConstraints { results: 1, value_arguments: 0, typevar_operand: false, typevar_operand_required: false, typeset_offset: 1, constraint_offset: 0 },
            Opcode::F32const => OpcodeConstraints { results: 1, value_arguments: 0, typevar_operand: false, typevar_operand_required: false, typeset_offset: 255, constraint_offset: 3 },
            Opcode::F64const => OpcodeConstraints { results: 1, value_arguments: 0, typevar_operand: false, typevar_operand_required: false, typeset_offset: 255, constraint_offset: 4 },
            Opcode::Select => OpcodeConstraints { results: 1, value_arguments: 3, typevar_operand: true, typevar_operand_required: false, typeset_offset: 3, constraint_offset: 5 },
            Opcode::Copy => OpcodeConstraints { results: 1, value_arguments: 1, typevar_operand: true, typevar_operand_required: false, typeset_offset: 3, constraint_offset: 0 },
            Opcode::Bitcast => OpcodeConstraints { results: 1, value_arguments: 1, typevar_operand: false, typevar_operand_required: false, typeset_offset: 9, constraint_offset: 9 },
            Opcode::Splat => OpcodeConstraints { results: 1, value_arguments: 1, typevar_operand: false, typevar_operand_required: false, typeset_offset: 5, constraint_offset: 11 },
            Opcode::Insertlane => OpcodeConstraints { results: 1, value_arguments: 2, typevar_operand: true, typevar_operand_required: false, typeset_offset: 5, constraint_offset: 13 },
            Opcode::Extractlane => OpcodeConstraints { results: 1, value_arguments: 1, typevar_operand: true, typevar_operand_required: true, typeset_offset: 5, constraint_offset: 12 },
            Opcode::Vsplit => OpcodeConstraints { results: 2, value_arguments: 1, typevar_operand: true, typevar_operand_required: true, typeset_offset: 5, constraint_offset: 16 },
            Opcode::Vconcat => OpcodeConstraints { results: 1, value_arguments: 2, typevar_operand: true, typevar_operand_required: true, typeset_offset: 6, constraint_offset: 19 },
            Opcode::Icmp => OpcodeConstraints { results: 1, value_arguments: 2, typevar_operand: true, typevar_operand_required: true, typeset_offset: 0, constraint_offset: 22 },
            Opcode::IcmpImm => OpcodeConstraints { results: 1, value_arguments: 1, typevar_operand: true, typevar_operand_required: true, typeset_offset: 0, constraint_offset: 22 },
            Opcode::Fcmp => OpcodeConstraints { results: 1, value_arguments: 2, typevar_operand: true, typevar_operand_required: true, typeset_offset: 2, constraint_offset: 22 },
            Opcode::Iadd => OpcodeConstraints { results: 1, value_arguments: 2, typevar_operand: true, typevar_operand_required: false, typeset_offset: 0, constraint_offset: 0 },
            Opcode::Isub => OpcodeConstraints { results: 1, value_arguments: 2, typevar_operand: true, typevar_operand_required: false, typeset_offset: 0, constraint_offset: 0 },
            Opcode::Imul => OpcodeConstraints { results: 1, value_arguments: 2, typevar_operand: true, typevar_operand_required: false, typeset_offset: 0, constraint_offset: 0 },
            Opcode::IaddImm => OpcodeConstraints { results: 1, value_arguments: 1, typevar_operand: true, typevar_operand_required: false, typeset_offset: 0, constraint_offset: 0 },
            Opcode::Band => OpcodeConstraints { results: 1, value_arguments: 2, typevar_operand: true, typevar_operand_required: false, typeset_offset: 3, constraint_offset: 0 },
            Opcode::Fadd => OpcodeConstraints { results: 1, value_arguments: 2, typevar_operand: true, typevar_operand_required: false, typeset_offset: 2, constraint_offset: 0 },
            Opcode::Isplit => OpcodeConstraints { results: 2, value_arguments: 1, typevar_operand: true, typevar_operand_required: true, typeset_offset: 7, constraint_offset: 25 },
            Opcode::Iconcat => OpcodeConstraints { results: 1, value_arguments: 2, typevar_operand: true, typevar_operand_required: true, typeset_offset: 8, constraint_offset: 28 },
            Opcode::StackLoad => OpcodeConstraints { results: 1, value_arguments: 0, typevar_operand: false, typevar_operand_required: false, typeset_offset: 9, constraint_offset: 0 },
            Opcode::StackStore => OpcodeConstraints { results: 0, value_arguments: 1, typevar_operand: true, typevar_operand_required: true, typeset_offset: 9, constraint_offset: 0 },
            Opcode::HeapLoad => OpcodeConstraints { results: 1, value_arguments: 1, typevar_operand: false, typevar_operand_required: false, typeset_offset: 9, constraint_offset: 31 },
            Opcode::HeapStore => OpcodeConstraints { results: 0, value_arguments: 2, typevar_operand: true, typevar_operand_required: true, typeset_offset: 9, constraint_offset: 31 },
            Opcode::Load => OpcodeConstraints { results: 1, value_arguments: 1, typevar_operand: false, typevar_operand_required: false, typeset_offset: 9, constraint_offset: 33 },
            Opcode::Store => OpcodeConstraints { results: 0, value_arguments: 2, typevar_operand: true, typevar_operand_required: true, typeset_offset: 9, constraint_offset: 33 },
            Opcode::Regmove => OpcodeConstraints { results: 0, value_arguments: 1, typevar_operand: true, typevar_operand_required: true, typeset_offset: 3, constraint_offset: 0 },
        }
    }
}

/// Entry `i` of the operand constraint table.
pub open spec fn operand_constraint_at(i: int) -> OperandConstraint {
    if i == 0 {
        OperandConstraint::Same
    } else if i == 1 {
        OperandConstraint::Same
    } else if i == 2 {
        OperandConstraint::Same
    } else if i == 3 {
        OperandConstraint::Concrete(Type { lane: LaneType::F32, log2_lanes: 0 })
    } else if i == 4 {
        OperandConstraint::Concrete(Type { lane: LaneType::F64, log2_lanes: 0 })
    } else if i == 5 {
        OperandConstraint::Same
    } else if i == 6 {
        OperandConstraint::Free(4)
    } else if i == 7 {
        OperandConstraint::Same
    } else if i == 8 {
        OperandConstraint::Same
    } else if i == 9 {
        OperandConstraint::Same
    } else if i == 10 {
        OperandConstraint::Free(9)
    } else if i == 11 {
        OperandConstraint::Same
    } else if i == 12 {
        OperandConstraint::LaneOf
    } else if i == 13 {
        OperandConstraint::Same
    } else if i == 14 {
        OperandConstraint::Same
    } else if i == 15 {
        OperandConstraint::LaneOf
    } else if i == 16 {
        OperandConstraint::HalfVector
    } else if i == 17 {
        OperandConstraint::HalfVector
    } else if i == 18 {
        OperandConstraint::Same
    } else if i == 19 {
        OperandConstraint::DoubleVector
    } else if i == 20 {
        OperandConstraint::Same
    } else if i == 21 {
        OperandConstraint::Same
    } else if i == 22 {
        OperandConstraint::AsBool
    } else if i == 23 {
        OperandConstraint::Same
    } else if i == 24 {
        OperandConstraint::Same
    } else if i == 25 {
        OperandConstraint::HalfWidth
    } else if i == 26 {
        OperandConstraint::HalfWidth
    } else if i == 27 {
        OperandConstraint::Same
    } else if i == 28 {
        OperandConstraint::DoubleWidth
    } else if i == 29 {
        OperandConstraint::Same
    } else if i == 30 {
        OperandConstraint::Same
    } else if i == 31 {
        OperandConstraint::Same
    } else if i == 32 {
        OperandConstraint::Concrete(Type { lane: LaneType::I32, log2_lanes: 0 })
    } else if i == 33 {
        OperandConstraint::Same
    } else {
        OperandConstraint::Concrete(Type { lane: LaneType::I64, log2_lanes: 0 })
    }
}

/// Entry `i` of the operand constraint table.
pub fn operand_constraint(i: usize) -> (r: OperandConstraint)
    requires
        i < OPERAND_CONSTRAINT_COUNT,
    ensures
        r == operand_constraint_at(i as int),
{
    match i {
        0 => OperandConstraint::Same,
        1 => OperandConstraint::Same,
        2 => OperandConstraint::Same,
        3 => OperandConstraint::Concrete(Type { lane: LaneType::F32, log2_lanes: 0 }),
        4 => OperandConstraint::Concrete(Type { lane: LaneType::F64, log2_lanes: 0 }),
        5 => OperandConstraint::Same,
        6 => OperandConstraint::Free(4),
        7 => OperandConstraint::Same,
        8 => OperandConstraint::Same,
        9 => OperandConstraint::Same,
        10 => OperandConstraint::Free(9),
        11 => OperandConstraint::Same,
        12 => OperandConstraint::LaneOf,
        13 => OperandConstraint::Same,
        14 => OperandConstraint::Same,
        15 => OperandConstraint::LaneOf,
        16 => OperandConstraint::HalfVector,
        17 => OperandConstraint::HalfVector,
        18 => OperandConstraint::Same,
        19 => OperandConstraint::DoubleVector,
        20 => OperandConstraint::Same,
        21 => OperandConstraint::Same,
        22 => OperandConstraint::AsBool,
        23 => OperandConstraint::Same,
        24 => OperandConstraint::Same,
        25 => OperandConstraint::HalfWidth,
        26 => OperandConstraint::HalfWidth,
        27 => OperandConstraint::Same,
        28 => OperandConstraint::DoubleWidth,
        29 => OperandConstraint::Same,
        30 => OperandConstraint::Same,
        31 => OperandConstraint::Same,
        32 => OperandConstraint::Concrete(Type { lane: LaneType::I32, log2_lanes: 0 }),
        33 => OperandConstraint::Same,
        _ => OperandConstraint::Concrete(Type { lane: LaneType::I64, log2_lanes: 0 }),
    }
}

/// Entry `i` of the type set table.
pub open spec fn type_set_at(i: int) -> ValueTypeSet {
    if i == 0 {
        ValueTypeSet { lanes: BitSet16(511), ints: BitSet8(120), floats: BitSet8(0), bools: BitSet8(0) }
    } else if i == 1 {
        ValueTypeSet { lanes: BitSet16(1), ints: BitSet8(120), floats: BitSet8(0), bools: BitSet8(0) }
    } else if i == 2 {
        ValueTypeSet { lanes: BitSet16(511), ints: BitSet8(0), floats: BitSet8(96), bools: BitSet8(0) }
    } else if i == 3 {
        ValueTypeSet { lanes: BitSet16(511), ints: BitSet8(120), floats: BitSet8(96), bools: BitSet8(127) }
    } else if i == 4 {
        ValueTypeSet { lanes: BitSet16(1), ints: BitSet8(120), floats: BitSet8(0), bools: BitSet8(127) }
    } else if i == 5 {
        ValueTypeSet { lanes: BitSet16(510), ints: BitSet8(120), floats: BitSet8(96), bools: BitSet8(127) }
    } else if i == 6 {
        ValueTypeSet { lanes: BitSet16(255), ints: BitSet8(120), floats: BitSet8(96), bools: BitSet8(127) }
    } else if i == 7 {
        ValueTypeSet { lanes: BitSet16(511), ints: BitSet8(112), floats: BitSet8(0), bools: BitSet8(0) }
    } else if i == 8 {
        ValueTypeSet { lanes: BitSet16(511), ints: BitSet8(56), floats: BitSet8(0), bools: BitSet8(0) }
    } else {
        ValueTypeSet { lanes: BitSet16(511), ints: BitSet8(120), floats: BitSet8(96), bools: BitSet8(0) }
    }
}

/// Entry `i` of the type set table.
pub fn type_set(i: usize) -> (r: ValueTypeSet)
    requires
        i < TYPE_SET_COUNT,
    ensures
        r == type_set_at(i as int),
{
    match i {
        0 => ValueTypeSet { lanes: BitSet16(511), ints: BitSet8(120), floats: BitSet8(0), bools: BitSet8(0) },
        1 => ValueTypeSet { lanes: BitSet16(1), ints: BitSet8(120), floats: BitSet8(0), bools: BitSet8(0) },
        2 => ValueTypeSet { lanes: BitSet16(511), ints: BitSet8(0), floats: BitSet8(96), bools: BitSet8(0) },
        3 => ValueTypeSet { lanes: BitSet16(511), ints: BitSet8(120), floats: BitSet8(96), bools: BitSet8(127) },
        4 => ValueTypeSet { lanes: BitSet16(1), ints: BitSet8(120), floats: BitSet8(0), bools: BitSet8(127) },
        5 => ValueTypeSet { lanes: BitSet16(510), ints: BitSet8(120), floats: BitSet8(96), bools: BitSet8(127) },
        6 => ValueTypeSet { lanes: BitSet16(255), ints: BitSet8(120), floats: BitSet8(96), bools: BitSet8(127) },
        7 => ValueTypeSet { lanes: BitSet16(511), ints: BitSet8(112), floats: BitSet8(0), bools: BitSet8(0) },
        8 => ValueTypeSet { lanes: BitSet16(511), ints: BitSet8(56), floats: BitSet8(0), bools: BitSet8(0) },
        _ => ValueTypeSet { lanes: BitSet16(511), ints: BitSet8(120), floats: BitSet8(96), bools: BitSet8(0) },
    }
}


/// The opcode a printed name belongs to, told apart by its length and a few of its
/// characters. Names of no opcode map to an arbitrary opcode.
pub open spec fn opcode_of_name(s: Seq<char>) -> Opcode {
    if s.len() == 4 && s[0] == 'j' {
        Opcode::Jump
    } else if s.len() == 3 {
        Opcode::Brz
    } else if s.len() == 4 && s[3] == 'z' {
        Opcode::Brnz
    } else if s.len() == 7 && s[1] == 'r' {
        Opcode::BrIcmp
    } else if s.len() == 8 && s[0] == 'b' {
        Opcode::BrTable
    } else if s.len() == 4 && s[0] == 't' {
        Opcode::Trap
    } else if s.len() == 6 && s[0] == 'r' {
        Opcode::Return
    } else if s.len() == 4 && s[2] == 'l' {
        Opcode::Call
    } else if s.len() == 13 {
        Opcode::CallIndirect
    } else if s.len() == 6 && s[1] == 'c' {
        Opcode::Iconst
    } else if s.len() == 8 && s[1] == '3' {
        Opcode::F32const
    } else if s.len() == 8 && s[1] == '6' {
        Opcode::F64const
    } else if s.len() == 6 && s[0] == 's' {
        Opcode::Select
    } else if s.len() == 4 && s[2] == 'p' {
        Opcode::Copy
    } else if s.len() == 7 && s[1] == 'i' {
        Opcode::Bitcast
    } else if s.len() == 5 && s[1] == 'p' {
        Opcode::Splat
    } else if s.len() == 10 && s[0] == 'i' {
        Opcode::Insertlane
    } else if s.len() == 11 && s[0] == 'e' {
        Opcode::Extractlane
    } else if s.len() == 6 && s[0] == 'v' {
        Opcode::Vsplit
    } else if s.len() == 7 && s[0] == 'v' {
        Opcode::Vconcat
    } else if s.len() == 4 && s[0] == 'i' && s[1] == 'c' {
        Opcode::Icmp
    } else if s.len() == 8 && s[1] == 'c' {
        Opcode::IcmpImm
    } else if s.len() == 4 && s[0] == 'f' && s[1] == 'c' {
        Opcode::Fcmp
    } else if s.len() == 4 && s[0] == 'i' && s[1] == 'a' {
        Opcode::Iadd
    } else if s.len() == 4 && s[1] == 's' {
        Opcode::Isub
    } else if s.len() == 4 && s[1] == 'm' {
        Opcode::Imul
    } else if s.len() == 8 && s[1] == 'a' {
        Opcode::IaddImm
    } else if s.len() == 4 && s[0] == 'b' && s[1] == 'a' {
        Opcode::Band
    } else if s.len() == 4 && s[0] == 'f' && s[1] == 'a' {
        Opcode::Fadd
    } else if s.len() == 6 && s[0] == 'i' && s[1] == 's' {
        Opcode::Isplit
    } else if s.len() == 7 && s[0] == 'i' {
        Opcode::Iconcat
    } else if s.len() == 10 && s[0] == 's' {
        Opcode::StackLoad
    } else if s.len() == 11 && s[0] == 's' {
        Opcode::StackStore
    } else if s.len() == 9 {
        Opcode::HeapLoad
    } else if s.len() == 10 && s[0] == 'h' {
        Opcode::HeapStore
    } else if s.len() == 4 && s[0] == 'l' {
        Opcode::Load
    } else if s.len() == 5 && s[1] == 't' {
        Opcode::Store
    } else {
        Opcode::Regmove
    }
}

/// `opcode_of_name` inverts the name table.
pub proof fn lemma_opcode_of_name(o: Opcode)
    ensures
        opcode_of_name(o.spec_name()) == o,
{
    match o {
        Opcode::Jump => {
            reveal_strlit("jump");
        },
        Opcode::Brz => {
            reveal_strlit("brz");
        },
        Opcode::Brnz => {
            reveal_strlit("brnz");
        },
        Opcode::BrIcmp => {
            reveal_strlit("br_icmp");
        },
        Opcode::BrTable => {
            reveal_strlit("br_table");
        },
        Opcode::Trap => {
            reveal_strlit("trap");
        },
        Opcode::Return => {
            reveal_strlit("return");
        },
        Opcode::Call => {
            reveal_strlit("call");
        },
        Opcode::CallIndirect => {
            reveal_strlit("call_indirect");
        },
        Opcode::Iconst => {
            reveal_strlit("iconst");
        },
        Opcode::F32const => {
            reveal_strlit("f32const");
        },
        Opcode::F64const => {
            reveal_strlit("f64const");
        },
        Opcode::Select => {
            reveal_strlit("select");
        },
        Opcode::Copy => {
            reveal_strlit("copy");
        },
        Opcode::Bitcast => {
            reveal_strlit("bitcast");
        },
        Opcode::Splat => {
            reveal_strlit("splat");
        },
        Opcode::Insertlane => {
            reveal_strlit("insertlane");
        },
        Opcode::Extractlane => {
            reveal_strlit("extractlane");
        },
        Opcode::Vsplit => {
            reveal_strlit("vsplit");
        },
        Opcode::Vconcat => {
            reveal_strlit("vconcat");
        },
        Opcode::Icmp => {
            reveal_strlit("icmp");
        },
        Opcode::IcmpImm => {
            reveal_strlit("icmp_imm");
        },
        Opcode::Fcmp => {
            reveal_strlit("fcmp");
        },
        Opcode::Iadd => {
            reveal_strlit("iadd");
        },
        Opcode::Isub => {
            reveal_strlit("isub");
        },
        Opcode::Imul => {
            reveal_strlit("imul");
        },
        Opcode::IaddImm => {
            reveal_strlit("iadd_imm");
        },
        Opcode::Band => {
            reveal_strlit("band");
        },
        Opcode::Fadd => {
            reveal_strlit("fadd");
        },
        Opcode::Isplit => {
            reveal_strlit("isplit");
        },
        Opcode::Iconcat => {
            reveal_strlit("iconcat");
        },
        Opcode::StackLoad => {
            reveal_strlit("stack_load");
        },
        Opcode::StackStore => {
            reveal_strlit("stack_store");
        },
        Opcode::HeapLoad => {
            reveal_strlit("heap_load");
        },
        Opcode::HeapStore => {
            reveal_strlit("heap_store");
        },
        Opcode::Load => {
            reveal_strlit("load");
        },
        Opcode::Store => {
            reveal_strlit("store");
        },
        Opcode::Regmove => {
            reveal_strlit("regmove");
        },
    }
}


/// Bound `k` of type set `i`: the low and high end of its log2 lane counts, then of its
/// integer, float and boolean widths.
pub open spec fn type_set_range(i: int, k: int) -> int {
    if i == 0 {
        if k == 0 {
            0
        } else if k == 1 {
            9
        } else if k == 2 {
            3
        } else if k == 3 {
            7
        } else if k == 4 {
            0
        } else if k == 5 {
            0
        } else if k == 6 {
            0
        } else {
            0
        }
    } else if i == 1 {
        if k == 0 {
            0
        } else if k == 1 {
            1
        } else if k == 2 {
            3
        } else if k == 3 {
            7
        } else if k == 4 {
            0
        } else if k == 5 {
            0
        } else if k == 6 {
            0
        } else {
            0
        }
    } else if i == 2 {
        if k == 0 {
            0
        } else if k == 1 {
            9
        } else if k == 2 {
            0
        } else if k == 3 {
            0
        } else if k == 4 {
            5
        } else if k == 5 {
            7
        } else if k == 6 {
            0
        } else {
            0
        }
    } else if i == 3 {
        if k == 0 {
            0
        } else if k == 1 {
            9
        } else if k == 2 {
            3
        } else if k == 3 {
            7
        } else if k == 4 {
            5
        } else if k == 5 {
            7
        } else if k == 6 {
            0
        } else {
            7
        }
    } else if i == 4 {
        if k == 0 {
            0
        } else if k == 1 {
            1
        } else if k == 2 {
            3
        } else if k == 3 {
            7
        } else if k == 4 {
            0
        } else if k == 5 {
            0
        } else if k == 6 {
            0
        } else {
            7
        }
    } else if i == 5 {
        if k == 0 {
            1
        } else if k == 1 {
            9
        } else if k == 2 {
            3
        } else if k == 3 {
            7
        } else if k == 4 {
            5
        } else if k == 5 {
            7
        } else if k == 6 {
            0
        } else {
            7
        }
    } else if i == 6 {
        if k == 0 {
            0
        } else if k == 1 {
            8
        } else if k == 2 {
            3
        } else if k == 3 {
            7
        } else if k == 4 {
            5
        } else if k == 5 {
            7
        } else if k == 6 {
            0
        } else {
            7
        }
    } else if i == 7 {
        if k == 0 {
            0
        } else if k == 1 {
            9
        } else if k == 2 {
            4
        } else if k == 3 {
            7
        } else if k == 4 {
            0
        } else if k == 5 {
            0
        } else if k == 6 {
            0
        } else {
            0
        }
    } else if i == 8 {
        if k == 0 {
            0
        } else if k == 1 {
            9
        } else if k == 2 {
            3
        } else if k == 3 {
            6
        } else if k == 4 {
            0
        } else if k == 5 {
            0
        } else if k == 6 {
            0
        } else {
            0
        }
    } else {
        if k == 0 {
            0
        } else if k == 1 {
            9
        } else if k == 2 {
            3
        } else if k == 3 {
            7
        } else if k == 4 {
            5
        } else if k == 5 {
            7
        } else if k == 6 {
            0
        } else {
            0
        }
    }
}


/// The members of each type set of the table, as ranges of log2 values: lane counts,
/// then integer, float and boolean widths.
pub proof fn lemma_type_set_members(i: int)
    requires
        0 <= i < TYPE_SET_COUNT,
    ensures
        forall|j: int| #[trigger] type_set_at(i).lanes.has(j) <==> 0 <= j < 16 && type_set_range(i, 0) <= j < type_set_range(i, 1),
        forall|j: int| #[trigger] type_set_at(i).ints.has(j) <==> 0 <= j < 8 && type_set_range(i, 2) <= j < type_set_range(i, 3),
        forall|j: int| #[trigger] type_set_at(i).floats.has(j) <==> 0 <= j < 8 && type_set_range(i, 4) <= j < type_set_range(i, 5),
        forall|j: int| #[trigger] type_set_at(i).bools.has(j) <==> 0 <= j < 8 && type_set_range(i, 6) <= j < type_set_range(i, 7),
{
    assert(forall|j: u16| j < 16 ==> (((1u16 >> j) & 1u16 == 1u16) <==> 0 <= j < 1)) by (bit_vector);
    lemma_members16(1, 0, 1);
    assert(forall|j: u16| j < 16 ==> (((255u16 >> j) & 1u16 == 1u16) <==> 0 <= j < 8)) by (bit_vector);
    lemma_members16(255, 0, 8);
    assert(forall|j: u16| j < 16 ==> (((510u16 >> j) & 1u16 == 1u16) <==> 1 <= j < 9)) by (bit_vector);
    lemma_members16(510, 1, 9);
    assert(forall|j: u16| j < 16 ==> (((511u16 >> j) & 1u16 == 1u16) <==> 0 <= j < 9)) by (bit_vector);
    lemma_members16(511, 0, 9);
    assert(forall|j: u8| j < 8 ==> (((0u8 >> j) & 1u8 == 1u8) <==> 0 <= j < 0)) by (bit_vector);
    lemma_members8(0, 0, 0);
    assert(forall|j: u8| j < 8 ==> (((56u8 >> j) & 1u8 == 1u8) <==> 3 <= j < 6)) by (bit_vector);
    lemma_members8(56, 3, 6);
    assert(forall|j: u8| j < 8 ==> (((96u8 >> j) & 1u8 == 1u8) <==> 5 <= j < 7)) by (bit_vector);
    lemma_members8(96, 5, 7);
    assert(forall|j: u8| j < 8 ==> (((112u8 >> j) & 1u8 == 1u8) <==> 4 <= j < 7)) by (bit_vector);
    lemma_members8(112, 4, 7);
    assert(forall|j: u8| j < 8 ==> (((120u8 >> j) & 1u8 == 1u8) <==> 3 <= j < 7)) by (bit_vector);
    lemma_members8(120, 3, 7);
    assert(forall|j: u8| j < 8 ==> (((127u8 >> j) & 1u8 == 1u8) <==> 0 <= j < 7)) by (bit_vector);
    lemma_members8(127, 0, 7);
}

} // verus!
