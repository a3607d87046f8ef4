//! Properties that relate several parts of the library, stated and proved once.

use vstd::prelude::*;
use crate::constraints::{ResolvedConstraint, ValueTypeSet};
use crate::name_index::{lemma_names_distinct, spec_parse};
use crate::opcodes::{lemma_type_set_members, type_set_at, Opcode, TYPE_SET_COUNT};
use crate::types::{LaneType, Type};

verus! {

/// Parsing the printed name of an opcode gives back that opcode, and only that one.
pub proof fn lemma_parse_name_round_trip(o: Opcode)
    ensures
        spec_parse(o.spec_name()) == Some(o),
{
    lemma_names_distinct();
}

/// A string that is not exactly the printed name of some opcode does not parse.
pub proof fn lemma_parse_rejects_other_names(s: Seq<char>)
    requires
        forall|o: Opcode| #[trigger] o.spec_name() != s,
    ensures
        spec_parse(s) is None,
{
}

/// Integer addition takes its controlling type from an input operand without requiring
/// it, has one result and two value arguments, and its result has the controlling type,
/// whatever that type is.
pub proof fn lemma_iadd_result_is_ctrl_type(t: Type)
    ensures
        Opcode::Iadd.spec_constraints().typevar_operand,
        !Opcode::Iadd.spec_constraints().typevar_operand_required,
        Opcode::Iadd.spec_constraints().results == 1,
        Opcode::Iadd.spec_constraints().value_arguments == 2,
        Opcode::Iadd.spec_constraints().result_rule(0).resolvable(t),
        Opcode::Iadd.spec_constraints().result_rule(0).spec_resolve(t) == ResolvedConstraint::Bound(
            t,
        ),
{
}

/// A bitcast does not take its controlling type from its input; its result has the
/// controlling type; its input ranges freely over a set that holds a floating point type,
/// whatever the controlling type is.
pub proof fn lemma_bitcast_input_is_free(t: Type)
    ensures
        !Opcode::Bitcast.spec_constraints().typevar_operand,
        Opcode::Bitcast.spec_constraints().result_rule(0).spec_resolve(t)
            == ResolvedConstraint::Bound(t),
        Opcode::Bitcast.spec_constraints().argument_rule(0).resolvable(t),
        match Opcode::Bitcast.spec_constraints().argument_rule(0).spec_resolve(t) {
            ResolvedConstraint::Free(set) => set.spec_contains(Type::spec_new(LaneType::F32, 0)),
            ResolvedConstraint::Bound(_) => false,
        },
{
    let c = Opcode::Bitcast.spec_constraints();
    match c.argument_rule(0).spec_resolve(t) {
        ResolvedConstraint::Free(set) => {
            let l = set.lanes.0;
            let f = set.floats.0;
            assert((l >> 0u16) & 1u16 == 1u16) by (bit_vector)
                requires
                    l == 511u16,
            ;
            assert((f >> 5u8) & 1u8 == 1u8) by (bit_vector)
                requires
                    f == 96u8,
            ;
        },
        ResolvedConstraint::Bound(_) => {},
    }
}

/// An integer comparison must take its controlling type from an input operand: its result
/// is a boolean type, never the controlling integer type.
pub proof fn lemma_icmp_requires_typevar_operand(t: Type)
    ensures
        Opcode::Icmp.spec_constraints().typevar_operand,
        Opcode::Icmp.spec_constraints().typevar_operand_required,
        match Opcode::Icmp.spec_constraints().result_rule(0).spec_resolve(t) {
            ResolvedConstraint::Bound(r) => r.lane.spec_is_bool() && r.log2_lanes == t.log2_lanes,
            ResolvedConstraint::Free(_) => false,
        },
{
}

/// A type set built from ranges of log2 lane counts and log2 integer widths, with no
/// float or boolean widths, holds exactly the integer types whose lane count and width
/// fall in those ranges.
pub proof fn lemma_integer_range_set(
    vts: ValueTypeSet,
    t: Type,
    lanes_lo: int,
    lanes_hi: int,
    ints_lo: int,
    ints_hi: int,
)
    requires
        forall|i: int| #[trigger] vts.lanes.has(i) <==> lanes_lo <= i < lanes_hi,
        forall|i: int| #[trigger] vts.ints.has(i) <==> ints_lo <= i < ints_hi,
        forall|i: int| !#[trigger] vts.floats.has(i),
        forall|i: int| !#[trigger] vts.bools.has(i),
    ensures
        vts.spec_contains(t) <==> t.lane.spec_is_int() && ints_lo <= t.lane.spec_log2_bits()
            < ints_hi && lanes_lo <= t.log2_lanes < lanes_hi,
{
}

/// The constraint tables are consistent: for every opcode and every controlling type it
/// permits (any type, for a monomorphic opcode), each result rule resolves to a concrete
/// type and each value argument rule can be resolved. So `result_type` and
/// `value_argument_constraint` can always be called with such a type.
pub proof fn lemma_constraints_resolve(o: Opcode, t: Type)
    requires
        t.wf(),
        match o.spec_constraints().spec_ctrl_typeset() {
            Some(set) => set.spec_contains(t),
            None => true,
        },
    ensures
        forall|n: int|
            0 <= n < o.spec_constraints().results ==> #[trigger] o.spec_constraints().result_rule(
                n,
            ).resolvable(t) && !(o.spec_constraints().result_rule(n) is Free),
        forall|n: int|
            0 <= n < o.spec_constraints().value_arguments ==> #[trigger] o.spec_constraints().argument_rule(
                n,
            ).resolvable(t),
{
    let c = o.spec_constraints();
    if c.typeset_offset < TYPE_SET_COUNT {
        lemma_type_set_members(c.typeset_offset as int);
        assert(type_set_at(c.typeset_offset as int).lanes.has(t.log2_lanes as int));
        assert(type_set_at(c.typeset_offset as int).spec_is_base_type(Type::spec_new(t.lane, 0)));
    }
}

} // verus!
