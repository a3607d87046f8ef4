//! Value type constraints: which types an opcode's operands and results may have, given
//! the controlling type variable.

use vstd::prelude::*;
use crate::bitset::{BitSet8, BitSet16};
use crate::opcodes::{
    operand_constraint,
    operand_constraint_at,
    type_set,
    type_set_at,
    OPERAND_CONSTRAINT_COUNT,
    TYPE_SET_COUNT,
};
use crate::types::{LaneType, Type, MAX_LOG2_LANES};

verus! {

/// Value type constraints for one opcode: the counts of fixed results and value
/// arguments, the two polymorphism flags, the set of controlling types, and where the
/// per-operand rules start in the operand constraint table.
#[derive(Clone, Copy, Debug, PartialEq, Eq, Structural)]
pub struct OpcodeConstraints {
    /// Number of fixed result values.
    pub results: u8,
    /// Number of fixed value arguments: the fewest value operands the opcode takes.
    pub value_arguments: u8,
    /// The controlling type variable can be read off the designated value operand.
    pub typevar_operand: bool,
    /// The controlling type variable must be read off the designated value operand: it
    /// is not the type of the first result.
    pub typevar_operand_required: bool,
    /// Index of the controlling type set in the type set table; an index past the end
    /// marks a monomorphic opcode.
    pub typeset_offset: u8,
    /// Index of the first rule for this opcode in the operand constraint table: the
    /// result rules come first, then the value argument rules.
    pub constraint_offset: u16,
}

/// How the type of one value operand relates to the controlling type variable.
#[derive(Clone, Copy, Debug, PartialEq, Eq, Structural)]
pub enum OperandConstraint {
    /// This operand has a concrete value type.
    Concrete(Type),
    /// This operand can vary freely within the type set with this index.
    Free(u8),
    /// This operand has the controlling type.
    Same,
    /// This operand is the lane type of the controlling type.
    LaneOf,
    /// This operand is the controlling type with boolean lanes.
    AsBool,
    /// This operand is the controlling type with lanes of half the width.
    HalfWidth,
    /// This operand is the controlling type with lanes of twice the width.
    DoubleWidth,
    /// This operand is the controlling type with half as many lanes.
    HalfVector,
    /// This operand is the controlling type with twice as many lanes.
    DoubleVector,
}

/// The type constraint on a value operand once the controlling type variable is known.
#[derive(Clone, Copy, Debug, PartialEq, Eq, Structural)]
pub enum ResolvedConstraint {
    /// The operand is bound to a known type.
    Bound(Type),
    /// The operand type can vary freely within the given set.
    Free(ValueTypeSet),
}

/// A set of value types: the permitted lane counts, and for each kind of lane the
/// permitted widths, all as sets of log2 values.
#[derive(Clone, Copy, Debug, PartialEq, Eq, Structural)]
pub struct ValueTypeSet {
    pub lanes: BitSet16,
    pub ints: BitSet8,
    pub floats: BitSet8,
    pub bools: BitSet8,
}

impl OpcodeConstraints {
    /// The opcode's rules lie inside the operand constraint table.
    pub open spec fn wf(self) -> bool {
        self.constraint_offset + self.results + self.value_arguments <= OPERAND_CONSTRAINT_COUNT
    }

    /// The rule for result `n`.
    pub open spec fn result_rule(self, n: int) -> OperandConstraint {
        operand_constraint_at(self.constraint_offset + n)
    }

    /// The rule for value argument `n`.
    pub open spec fn argument_rule(self, n: int) -> OperandConstraint {
        operand_constraint_at(self.constraint_offset + self.results + n)
    }

    /// The set of controlling types, or `None` for a monomorphic opcode.
    pub open spec fn spec_ctrl_typeset(self) -> Option<ValueTypeSet> {
        if self.typeset_offset < TYPE_SET_COUNT {
            Some(type_set_at(self.typeset_offset as int))
        } else {
            None
        }
    }

    /// Can the controlling type variable be inferred from the designated value operand?
    /// This implies that the opcode is polymorphic.
    pub fn use_typevar_operand(self) -> (r: bool)
        ensures
            r == self.typevar_operand,
    {
        self.typevar_operand
    }

    /// Must the designated value operand be read to learn the controlling type variable,
    /// because the first result does not have that type?
    pub fn requires_typevar_operand(self) -> (r: bool)
        ensures
            r == self.typevar_operand_required,
    {
        self.typevar_operand_required
    }

    /// The number of fixed result values.
    pub fn fixed_results(self) -> (r: usize)
        ensures
            r == self.results,
    {
        self.results as usize
    }

    /// The number of fixed value arguments: the fewest value operands the opcode takes.
    /// Variable-arity opcodes may carry more in their value list.
    pub fn fixed_value_arguments(self) -> (r: usize)
        ensures
            r == self.value_arguments,
    {
        self.value_arguments as usize
    }

    /// The index of the controlling type set, or `None` if the opcode is monomorphic.
    fn typeset_offset(self) -> (r: Option<usize>)
        ensures
            r == if self.typeset_offset < TYPE_SET_COUNT {
                Some(self.typeset_offset as usize)
            } else {
                None
            },
    {
        let offset = self.typeset_offset as usize;
        if offset < TYPE_SET_COUNT as usize {
            Some(offset)
        } else {
            None
        }
    }

    /// Where the opcode's rules start in the operand constraint table.
    fn constraint_offset(self) -> (r: usize)
        ensures
            r == self.constraint_offset,
    {
        self.constraint_offset as usize
    }

    /// The type of result `n` once the controlling type variable is `ctrl_type`.
    pub fn result_type(self, n: usize, ctrl_type: Type) -> (r: Type)
        requires
            self.wf(),
            n < self.results,
            self.result_rule(n as int).resolvable(ctrl_type),
            !(self.result_rule(n as int) is Free),
        ensures
            ResolvedConstraint::Bound(r) == self.result_rule(n as int).spec_resolve(ctrl_type),
    {
        let c = operand_constraint(self.constraint_offset() + n);
        match c.resolve(ctrl_type) {
            ResolvedConstraint::Bound(t) => t,
            ResolvedConstraint::Free(_) => {
                proof {
                    assert(false);
                }
                ctrl_type
            },
        }
    }

    /// The constraint on value argument `n` once the controlling type variable is
    /// `ctrl_type`: a bound type, or a set the argument may range over.
    pub fn value_argument_constraint(self, n: usize, ctrl_type: Type) -> (r: ResolvedConstraint)
        requires
            self.wf(),
            n < self.value_arguments,
            self.argument_rule(n as int).resolvable(ctrl_type),
        ensures
            r == self.argument_rule(n as int).spec_resolve(ctrl_type),
    {
        let offset = self.constraint_offset() + self.fixed_results();
        operand_constraint(offset + n).resolve(ctrl_type)
    }

    /// The set of permitted controlling types, or `None` if the opcode is monomorphic.
    pub fn ctrl_typeset(self) -> (r: Option<ValueTypeSet>)
        ensures
            r == self.spec_ctrl_typeset(),
    {
        match self.typeset_offset() {
            Some(offset) => Some(type_set(offset)),
            None => None,
        }
    }

    /// Is the opcode polymorphic?
    pub fn is_polymorphic(self) -> (r: bool)
        ensures
            r == self.spec_ctrl_typeset() is Some,
    {
        self.ctrl_typeset().is_some()
    }
}

impl ValueTypeSet {
    /// Is `scalar`'s lane of a kind and width this set permits? The lane count of
    /// `scalar` plays no part.
    pub open spec fn spec_is_base_type(self, scalar: Type) -> bool {
        let l2b = scalar.lane.spec_log2_bits() as int;
        if scalar.lane.spec_is_int() {
            self.ints.has(l2b)
        } else if scalar.lane.spec_is_float() {
            self.floats.has(l2b)
        } else if scalar.lane.spec_is_bool() {
            self.bools.has(l2b)
        } else {
            false
        }
    }

    /// Does `typ` belong to this set?
    pub open spec fn spec_contains(self, typ: Type) -> bool {
        self.lanes.has(typ.log2_lanes as int) && self.spec_is_base_type(
            Type::spec_new(typ.lane, 0),
        )
    }

    /// The lane type of the example member: the first of `i32`, `f32`, `b32`, then of the
    /// other lane types, that the set allows; `b1` if it allows none.
    pub open spec fn spec_example_lane(self) -> LaneType {
        if self.spec_is_base_type(Type::spec_new(LaneType::I32, 0)) {
            LaneType::I32
        } else if self.spec_is_base_type(Type::spec_new(LaneType::F32, 0)) {
            LaneType::F32
        } else if self.spec_is_base_type(Type::spec_new(LaneType::B32, 0)) {
            LaneType::B32
        } else if self.spec_is_base_type(Type::spec_new(LaneType::I8, 0)) {
            LaneType::I8
        } else if self.spec_is_base_type(Type::spec_new(LaneType::I16, 0)) {
            LaneType::I16
        } else if self.spec_is_base_type(Type::spec_new(LaneType::I64, 0)) {
            LaneType::I64
        } else if self.spec_is_base_type(Type::spec_new(LaneType::F64, 0)) {
            LaneType::F64
        } else if self.spec_is_base_type(Type::spec_new(LaneType::B1, 0)) {
            LaneType::B1
        } else if self.spec_is_base_type(Type::spec_new(LaneType::B8, 0)) {
            LaneType::B8
        } else if self.spec_is_base_type(Type::spec_new(LaneType::B16, 0)) {
            LaneType::B16
        } else if self.spec_is_base_type(Type::spec_new(LaneType::B64, 0)) {
            LaneType::B64
        } else {
            LaneType::B1
        }
    }

    fn is_base_type(&self, scalar: Type) -> (r: bool)
        ensures
            r == self.spec_is_base_type(scalar),
    {
        let l2b = scalar.log2_lane_bits();
        if scalar.is_int() {
            self.ints.contains(l2b)
        } else if scalar.is_float() {
            self.floats.contains(l2b)
        } else if scalar.is_bool() {
            self.bools.contains(l2b)
        } else {
            false
        }
    }

    /// Does `typ` belong to this set?
    pub fn contains(&self, typ: Type) -> (r: bool)
        ensures
            r == self.spec_contains(typ),
    {
        let l2l = typ.log2_lane_count();
        self.lanes.contains(l2l) && self.is_base_type(typ.lane_type())
    }

    /// An example member of the set, for messages: the example lane type with the fewest
    /// lanes the set permits. It belongs to the set whenever the set has a well-formed
    /// member.
    pub fn example(&self) -> (r: Type)
        requires
            exists|m: int| m <= MAX_LOG2_LANES && #[trigger] self.lanes.has(m),
        ensures
            r.wf(),
            r.lane == self.spec_example_lane(),
            self.lanes.has(r.log2_lanes as int),
            forall|j: int| j < r.log2_lanes ==> !#[trigger] self.lanes.has(j),
            (exists|t: Type| t.wf() && #[trigger] self.spec_contains(t)) ==> self.spec_contains(r),
    {
        let lane = if self.is_base_type(Type::scalar(LaneType::I32)) {
            LaneType::I32
        } else if self.is_base_type(Type::scalar(LaneType::F32)) {
            LaneType::F32
        } else if self.is_base_type(Type::scalar(LaneType::B32)) {
            LaneType::B32
        } else if self.is_base_type(Type::scalar(LaneType::I8)) {
            LaneType::I8
        } else if self.is_base_type(Type::scalar(LaneType::I16)) {
            LaneType::I16
        } else if self.is_base_type(Type::scalar(LaneType::I64)) {
            LaneType::I64
        } else if self.is_base_type(Type::scalar(LaneType::F64)) {
            LaneType::F64
        } else if self.is_base_type(Type::scalar(LaneType::B1)) {
            LaneType::B1
        } else if self.is_base_type(Type::scalar(LaneType::B8)) {
            LaneType::B8
        } else if self.is_base_type(Type::scalar(LaneType::B16)) {
            LaneType::B16
        } else if self.is_base_type(Type::scalar(LaneType::B64)) {
            LaneType::B64
        } else {
            LaneType::B1
        };
        let min = self.lanes.min().unwrap();
        let r = Type { lane, log2_lanes: min };
        proof {
            if exists|t: Type| t.wf() && #[trigger] self.spec_contains(t) {
                let t = choose|t: Type| t.wf() && #[trigger] self.spec_contains(t);
                assert(self.spec_is_base_type(Type::spec_new(t.lane, 0)));
            }
        }
        r
    }
}

impl OperandConstraint {
    /// The controlling types against which this rule resolves: the width and lane-count
    /// transforms need a counterpart of the controlling type, and a free rule a type set
    /// that exists.
    pub open spec fn resolvable(self, ctrl: Type) -> bool {
        match self {
            OperandConstraint::Free(i) => i < TYPE_SET_COUNT,
            OperandConstraint::HalfWidth => ctrl.lane.spec_half_width() is Some,
            OperandConstraint::DoubleWidth => ctrl.lane.spec_double_width() is Some,
            OperandConstraint::HalfVector => ctrl.log2_lanes > 0,
            OperandConstraint::DoubleVector => ctrl.log2_lanes < MAX_LOG2_LANES,
            _ => true,
        }
    }

    /// The rule resolved against the controlling type `ctrl`.
    pub open spec fn spec_resolve(self, ctrl: Type) -> ResolvedConstraint {
        match self {
            OperandConstraint::Concrete(t) => ResolvedConstraint::Bound(t),
            OperandConstraint::Free(i) => ResolvedConstraint::Free(type_set_at(i as int)),
            OperandConstraint::Same => ResolvedConstraint::Bound(ctrl),
            OperandConstraint::LaneOf => ResolvedConstraint::Bound(Type::spec_new(ctrl.lane, 0)),
            OperandConstraint::AsBool => ResolvedConstraint::Bound(
                Type::spec_new(ctrl.lane.spec_as_bool(), ctrl.log2_lanes),
            ),
            OperandConstraint::HalfWidth => ResolvedConstraint::Bound(
                Type::spec_new(ctrl.lane.spec_half_width()->0, ctrl.log2_lanes),
            ),
            OperandConstraint::DoubleWidth => ResolvedConstraint::Bound(
                Type::spec_new(ctrl.lane.spec_double_width()->0, ctrl.log2_lanes),
            ),
            OperandConstraint::HalfVector => ResolvedConstraint::Bound(
                Type::spec_new(ctrl.lane, (ctrl.log2_lanes - 1) as u8),
            ),
            OperandConstraint::DoubleVector => ResolvedConstraint::Bound(
                Type::spec_new(ctrl.lane, (ctrl.log2_lanes + 1) as u8),
            ),
        }
    }

    /// Resolves this rule into a type or a type set, given the controlling type.
    pub fn resolve(&self, ctrl_type: Type) -> (r: ResolvedConstraint)
        requires
            self.resolvable(ctrl_type),
        ensures
            r == self.spec_resolve(ctrl_type),
    {
        match *self {
            OperandConstraint::Concrete(t) => ResolvedConstraint::Bound(t),
            OperandConstraint::Free(vts) => ResolvedConstraint::Free(type_set(vts as usize)),
            OperandConstraint::Same => ResolvedConstraint::Bound(ctrl_type),
            OperandConstraint::LaneOf => ResolvedConstraint::Bound(ctrl_type.lane_type()),
            OperandConstraint::AsBool => ResolvedConstraint::Bound(ctrl_type.as_bool()),
            OperandConstraint::HalfWidth => ResolvedConstraint::Bound(
                ctrl_type.half_width().unwrap(),
            ),
            OperandConstraint::DoubleWidth => ResolvedConstraint::Bound(
                ctrl_type.double_width().unwrap(),
            ),
            OperandConstraint::HalfVector => ResolvedConstraint::Bound(
                ctrl_type.half_vector().unwrap(),
            ),
            OperandConstraint::DoubleVector => {
                proof {
                    vstd::arithmetic::power2::lemma2_to64();
                    assert forall|k: u8| vstd::arithmetic::power2::pow2(k as nat) == 2 implies k
                        == 1 by {
                        if k > 1 {
                            vstd::arithmetic::power2::lemma_pow2_strictly_increases(1, k as nat);
                        }
                    }
                }
                ResolvedConstraint::Bound(ctrl_type.by_factor(2).unwrap())
            },
        }
    }
}

} // verus!
