//! The contents of an instruction, and structural queries on them.
//!
//! `InstructionData` is a tagged union with one variant per instruction format. Every
//! variant holds the opcode and at most 16 bytes in all: operand lists that do not fit
//! inline live in a `ValueListPool`.

use vstd::prelude::*;
use vstd::string::StringExecFns;
use crate::entities::{Ebb, FuncRef, JumpTable, SigRef, StackSlot, Value};
use crate::immediates::{
    FloatCC,
    Ieee32,
    Ieee64,
    Imm64,
    IntCC,
    MemFlags,
    Offset32,
    RegUnit,
    Uimm8,
    Uoffset32,
};
use crate::opcodes::Opcode;
use crate::value_list::{ValueList, ValueListPool};

verus! {

/// Contents of an instruction.
#[derive(Clone, Debug, Hash, PartialEq, Eq)]
pub enum InstructionData {
    Nullary { opcode: Opcode },
    Unary { opcode: Opcode, arg: Value },
    UnaryImm { opcode: Opcode, imm: Imm64 },
    UnaryIeee32 { opcode: Opcode, imm: Ieee32 },
    UnaryIeee64 { opcode: Opcode, imm: Ieee64 },
    Binary { opcode: Opcode, args: [Value; 2] },
    BinaryImm { opcode: Opcode, arg: Value, imm: Imm64 },
    Ternary { opcode: Opcode, args: [Value; 3] },
    MultiAry { opcode: Opcode, args: ValueList },
    InsertLane { opcode: Opcode, lane: Uimm8, args: [Value; 2] },
    ExtractLane { opcode: Opcode, lane: Uimm8, arg: Value },
    IntCompare { opcode: Opcode, cond: IntCC, args: [Value; 2] },
    IntCompareImm { opcode: Opcode, cond: IntCC, arg: Value, imm: Imm64 },
    FloatCompare { opcode: Opcode, cond: FloatCC, args: [Value; 2] },
    Jump { opcode: Opcode, destination: Ebb, args: ValueList },
    Branch { opcode: Opcode, destination: Ebb, args: ValueList },
    BranchIcmp { opcode: Opcode, cond: IntCC, destination: Ebb, args: ValueList },
    BranchTable { opcode: Opcode, arg: Value, table: JumpTable },
    Call { opcode: Opcode, func_ref: FuncRef, args: ValueList },
    IndirectCall { opcode: Opcode, sig_ref: SigRef, args: ValueList },
    StackLoad { opcode: Opcode, stack_slot: StackSlot, offset: Offset32 },
    StackStore { opcode: Opcode, arg: Value, stack_slot: StackSlot, offset: Offset32 },
    HeapLoad { opcode: Opcode, arg: Value, offset: Uoffset32 },
    HeapStore { opcode: Opcode, args: [Value; 2], offset: Uoffset32 },
    Load { opcode: Opcode, flags: MemFlags, arg: Value, offset: Offset32 },
    Store { opcode: Opcode, flags: MemFlags, args: [Value; 2], offset: Offset32 },
    RegMove { opcode: Opcode, arg: Value, src: RegUnit, dst: RegUnit },
}

/// A variable list of values, used for call arguments and for the values passed to
/// blocks, while an instruction is being put together.
#[derive(Clone, Debug)]
pub struct VariableArgs(Vec<Value>);

/// The values printed with `, ` between them.
pub open spec fn join_values(vals: Seq<Value>) -> Seq<char>
    decreases vals.len(),
{
    if vals.len() == 0 {
        Seq::empty()
    } else if vals.len() == 1 {
        vals[0].spec_to_string()
    } else {
        join_values(vals.drop_last()) + ", "@ + vals.last().spec_to_string()
    }
}

impl View for VariableArgs {
    type V = Seq<Value>;

    closed spec fn view(&self) -> Seq<Value> {
        self.0@
    }
}

impl VariableArgs {
    /// An empty argument list.
    pub fn new() -> (r: VariableArgs)
        ensures
            r@.len() == 0,
    {
        VariableArgs(Vec::new())
    }

    /// Adds an argument at the end.
    pub fn push(&mut self, v: Value)
        ensures
            final(self)@ == old(self)@.push(v),
    {
        self.0.push(v)
    }

    /// Is the list empty?
    pub fn is_empty(&self) -> (r: bool)
        ensures
            r == (self@.len() == 0),
    {
        self.0.len() == 0
    }

    /// Replaces argument `i` with `v`.
    pub fn set(&mut self, i: usize, v: Value)
        requires
            i < old(self)@.len(),
        ensures
            final(self)@ == old(self)@.update(i as int, v),
    {
        self.0.set(i, v);
    }

    /// The arguments as a slice.
    pub fn as_slice(&self) -> (r: &[Value])
        ensures
            r@ == self@,
    {
        self.0.as_slice()
    }

    /// Converts this to a value list in `pool` with `fixed` before the arguments.
    pub fn into_value_list(self, fixed: &[Value], pool: &mut ValueListPool) -> (r: ValueList)
        requires
            old(pool)@.len() + 2 * (fixed@.len() + self@.len()) <= u32::MAX,
        ensures
            r.valid_in(final(pool)),
            r.view_in(final(pool)) == fixed@ + self@,
            old(pool)@.len() <= final(pool)@.len(),
            final(pool)@.subrange(0, old(pool)@.len() as int) == old(pool)@,
            forall|l: ValueList| #[trigger] l.valid_in(old(pool)) ==> l.valid_in(final(pool))
                && l.view_in(final(pool)) == l.view_in(old(pool)),
    {
        let mut vlist = ValueList::from_slice(fixed, pool);
        let ghost mid = pool@;
        vlist.extend(self.0.as_slice(), pool);
        proof {
            assert(pool@.subrange(0, old(pool)@.len() as int) =~= mid.subrange(
                0,
                old(pool)@.len() as int,
            ));
            assert forall|l: ValueList| #[trigger] l.valid_in(old(pool)) implies l.valid_in(pool)
                && l.view_in(pool) == l.view_in(old(pool)) by {
            }
        }
        vlist
    }

    /// The arguments printed with `, ` between them, such as `v1, v2`.
    pub fn to_string(&self) -> (r: String)
        ensures
            r@ == join_values(self@),
    {
        let mut s = String::new();
        let mut i: usize = 0;
        while i < self.0.len()
            invariant
                i <= self.0@.len(),
                s@ == join_values(self.0@.subrange(0, i as int)),
            decreases self.0@.len() - i,
        {
            let ghost prefix = self.0@.subrange(0, i as int);
            assert(self.0@.subrange(0, i + 1).drop_last() =~= prefix);
            if i > 0 {
                s.append(", ");
            }
            let v = self.0[i].to_string();
            s.append(v.as_str());
            i = i + 1;
        }
        assert(self.0@.subrange(0, i as int) =~= self.0@);
        s
    }
}

impl Default for VariableArgs {
    fn default() -> (r: VariableArgs)
        ensures
            r@.len() == 0,
    {
        VariableArgs::new()
    }
}

/// Information about branch and jump instructions.
pub enum BranchInfo<'a> {
    /// Not a branch or jump. The instruction may still return or trap.
    NotABranch,
    /// A branch or jump to a single block, with the values passed to it.
    SingleDest(Ebb, &'a [Value]),
    /// A branch through a jump table, which can have many destinations.
    Table(JumpTable),
}

/// Information about call instructions.
pub enum CallInfo<'a> {
    /// Not a call.
    NotACall,
    /// A direct call to an external function, with its arguments.
    Direct(FuncRef, &'a [Value]),
    /// An indirect call with the given signature, with its arguments: the callee
    /// address is not among them.
    Indirect(SigRef, &'a [Value]),
}

impl<'a> BranchInfo<'a> {
    /// Is this a single destination `dest` that is passed `vals`?
    pub open spec fn is_single_dest(self, dest: Ebb, vals: Seq<Value>) -> bool {
        match self {
            BranchInfo::SingleDest(d, s) => d == dest && s@ == vals,
            _ => false,
        }
    }
}

impl<'a> CallInfo<'a> {
    /// Is this a direct call of `callee` with the arguments `vals`?
    pub open spec fn is_direct(self, callee: FuncRef, vals: Seq<Value>) -> bool {
        match self {
            CallInfo::Direct(f, s) => f == callee && s@ == vals,
            _ => false,
        }
    }

    /// Is this an indirect call with signature `sig` and the arguments `vals`?
    pub open spec fn is_indirect(self, sig: SigRef, vals: Seq<Value>) -> bool {
        match self {
            CallInfo::Indirect(g, s) => g == sig && s@ == vals,
            _ => false,
        }
    }
}

impl InstructionData {
    /// The instruction's value list, if its format has one, is valid in `pool`, and holds
    /// the operands that lead it: the condition of a branch, the two compared values of a
    /// compare-and-branch, the callee address of an indirect call.
    pub open spec fn valid_in(self, pool: &ValueListPool) -> bool {
        match self {
            InstructionData::MultiAry { args, .. } => args.valid_in(pool),
            InstructionData::Jump { args, .. } => args.valid_in(pool),
            InstructionData::Branch { args, .. } => args.valid_in(pool) && args.view_in(pool).len()
                >= 1,
            InstructionData::BranchIcmp { args, .. } => args.valid_in(pool) && args.view_in(
                pool,
            ).len() >= 2,
            InstructionData::Call { args, .. } => args.valid_in(pool),
            InstructionData::IndirectCall { args, .. } => args.valid_in(pool) && args.view_in(
                pool,
            ).len() >= 1,
            _ => true,
        }
    }

    /// The single destination of a jump, branch or compare-and-branch.
    pub open spec fn spec_branch_destination(self) -> Option<Ebb> {
        match self {
            InstructionData::Jump { destination, .. } => Some(destination),
            InstructionData::Branch { destination, .. } => Some(destination),
            InstructionData::BranchIcmp { destination, .. } => Some(destination),
            _ => None,
        }
    }

    /// The instruction with its single destination replaced by `dest`; unchanged if it
    /// has none.
    pub open spec fn with_destination(self, dest: Ebb) -> InstructionData {
        match self {
            InstructionData::Jump { opcode, args, .. } => InstructionData::Jump {
                opcode,
                destination: dest,
                args,
            },
            InstructionData::Branch { opcode, args, .. } => InstructionData::Branch {
                opcode,
                destination: dest,
                args,
            },
            InstructionData::BranchIcmp { opcode, cond, args, .. } => InstructionData::BranchIcmp {
                opcode,
                cond,
                destination: dest,
                args,
            },
            _ => self,
        }
    }

    /// What the instruction reveals about its destinations: a jump passes all its listed
    /// values, a branch all but the condition, a compare-and-branch all but the two
    /// compared values.
    pub fn analyze_branch<'a>(&'a self, pool: &'a ValueListPool) -> (r: BranchInfo<'a>)
        requires
            self.valid_in(pool),
        ensures
            match *self {
                InstructionData::Jump { destination, args, .. } => r.is_single_dest(
                    destination,
                    args.view_in(pool),
                ),
                InstructionData::Branch { destination, args, .. } => r.is_single_dest(
                    destination,
                    args.view_in(pool).subrange(1, args.view_in(pool).len() as int),
                ),
                InstructionData::BranchIcmp { destination, args, .. } => r.is_single_dest(
                    destination,
                    args.view_in(pool).subrange(2, args.view_in(pool).len() as int),
                ),
                InstructionData::BranchTable { table, .. } => r == BranchInfo::<'a>::Table(table),
                _ => r is NotABranch,
            },
    {
        match self {
            InstructionData::Jump { destination, args, .. } => BranchInfo::SingleDest(
                *destination,
                args.as_slice(pool),
            ),
            InstructionData::Branch { destination, args, .. } => {
                let s = args.as_slice(pool);
                BranchInfo::SingleDest(*destination, vstd::slice::slice_subrange(s, 1, s.len()))
            },
            InstructionData::BranchIcmp { destination, args, .. } => {
                let s = args.as_slice(pool);
                BranchInfo::SingleDest(*destination, vstd::slice::slice_subrange(s, 2, s.len()))
            },
            InstructionData::BranchTable { table, .. } => BranchInfo::Table(*table),
            _ => BranchInfo::NotABranch,
        }
    }

    /// The single destination of a jump, branch or compare-and-branch; `None` for any
    /// other instruction, jump table branches included.
    pub fn branch_destination(&self) -> (r: Option<Ebb>)
        ensures
            r == self.spec_branch_destination(),
    {
        match self {
            InstructionData::Jump { destination, .. } => Some(*destination),
            InstructionData::Branch { destination, .. } => Some(*destination),
            InstructionData::BranchIcmp { destination, .. } => Some(*destination),
            _ => None,
        }
    }

    /// A mutable reference to the single destination of a jump, branch or
    /// compare-and-branch; `None` for any other instruction.
    pub fn branch_destination_mut(&mut self) -> (r: Option<&mut Ebb>)
        ensures
            r is Some <==> old(self).spec_branch_destination() is Some,
            r is Some ==> *r->0 == old(self).spec_branch_destination()->0 && *final(self)
                == old(self).with_destination(*final(r->0)),
            r is None ==> *final(self) == *old(self),
    {
        match self {
            InstructionData::Jump { destination, .. } => Some(destination),
            InstructionData::Branch { destination, .. } => Some(destination),
            InstructionData::BranchIcmp { destination, .. } => Some(destination),
            _ => None,
        }
    }

    /// What the instruction reveals about a call: a direct call passes all its listed
    /// values, an indirect call all but the callee address.
    pub fn analyze_call<'a>(&'a self, pool: &'a ValueListPool) -> (r: CallInfo<'a>)
        requires
            self.valid_in(pool),
        ensures
            match *self {
                InstructionData::Call { func_ref, args, .. } => r.is_direct(
                    func_ref,
                    args.view_in(pool),
                ),
                InstructionData::IndirectCall { sig_ref, args, .. } => r.is_indirect(
                    sig_ref,
                    args.view_in(pool).subrange(1, args.view_in(pool).len() as int),
                ),
                _ => r is NotACall,
            },
    {
        match self {
            InstructionData::Call { func_ref, args, .. } => CallInfo::Direct(
                *func_ref,
                args.as_slice(pool),
            ),
            InstructionData::IndirectCall { sig_ref, args, .. } => {
                let s = args.as_slice(pool);
                CallInfo::Indirect(*sig_ref, vstd::slice::slice_subrange(s, 1, s.len()))
            },
            _ => CallInfo::NotACall,
        }
    }
}

} // verus!
