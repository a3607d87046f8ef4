//! Value types: a scalar lane type, optionally repeated in a SIMD vector.

use vstd::prelude::*;
use vstd::string::StringExecFns;

verus! {

/// The scalar type of one lane.
#[derive(Clone, Copy, Debug, PartialEq, Eq, Hash, Structural)]
pub enum LaneType {
    B1,
    B8,
    B16,
    B32,
    B64,
    I8,
    I16,
    I32,
    I64,
    F32,
    F64,
}

/// The most lanes a vector type may have is `1 << MAX_LOG2_LANES`.
pub const MAX_LOG2_LANES: u8 = 8;

/// A value type: a lane type and a number of lanes, which is a power of two.
#[derive(Clone, Copy, Debug, PartialEq, Eq, Hash, Structural)]
pub struct Type {
    pub lane: LaneType,
    pub log2_lanes: u8,
}

impl LaneType {
    /// log2 of the number of bits in one lane.
    pub open spec fn spec_log2_bits(self) -> u8 {
        match self {
            LaneType::B1 => 0,
            LaneType::B8 | LaneType::I8 => 3,
            LaneType::B16 | LaneType::I16 => 4,
            LaneType::B32 | LaneType::I32 | LaneType::F32 => 5,
            LaneType::B64 | LaneType::I64 | LaneType::F64 => 6,
        }
    }

    pub open spec fn spec_is_int(self) -> bool {
        self is I8 || self is I16 || self is I32 || self is I64
    }

    pub open spec fn spec_is_float(self) -> bool {
        self is F32 || self is F64
    }

    pub open spec fn spec_is_bool(self) -> bool {
        self is B1 || self is B8 || self is B16 || self is B32 || self is B64
    }

    /// The boolean lane type of the same width.
    pub open spec fn spec_as_bool(self) -> LaneType {
        match self {
            LaneType::B8 | LaneType::I8 => LaneType::B8,
            LaneType::B16 | LaneType::I16 => LaneType::B16,
            LaneType::B32 | LaneType::I32 | LaneType::F32 => LaneType::B32,
            LaneType::B64 | LaneType::I64 | LaneType::F64 => LaneType::B64,
            LaneType::B1 => LaneType::B1,
        }
    }

    /// The lane type of the same kind and half the width, if there is one.
    pub open spec fn spec_half_width(self) -> Option<LaneType> {
        match self {
            LaneType::B16 => Some(LaneType::B8),
            LaneType::B32 => Some(LaneType::B16),
            LaneType::B64 => Some(LaneType::B32),
            LaneType::I16 => Some(LaneType::I8),
            LaneType::I32 => Some(LaneType::I16),
            LaneType::I64 => Some(LaneType::I32),
            LaneType::F64 => Some(LaneType::F32),
            _ => None,
        }
    }

    /// The lane type of the same kind and twice the width, if there is one.
    pub open spec fn spec_double_width(self) -> Option<LaneType> {
        match self {
            LaneType::B8 => Some(LaneType::B16),
            LaneType::B16 => Some(LaneType::B32),
            LaneType::B32 => Some(LaneType::B64),
            LaneType::I8 => Some(LaneType::I16),
            LaneType::I16 => Some(LaneType::I32),
            LaneType::I32 => Some(LaneType::I64),
            LaneType::F32 => Some(LaneType::F64),
            _ => None,
        }
    }

    /// The printed name of the lane type.
    pub open spec fn spec_name(self) -> Seq<char> {
        match self {
            LaneType::B1 => "b1"@,
            LaneType::B8 => "b8"@,
            LaneType::B16 => "b16"@,
            LaneType::B32 => "b32"@,
            LaneType::B64 => "b64"@,
            LaneType::I8 => "i8"@,
            LaneType::I16 => "i16"@,
            LaneType::I32 => "i32"@,
            LaneType::I64 => "i64"@,
            LaneType::F32 => "f32"@,
            LaneType::F64 => "f64"@,
        }
    }

    pub fn log2_bits(self) -> (r: u8)
        ensures
            r == self.spec_log2_bits(),
    {
        match self {
            LaneType::B1 => 0,
            LaneType::B8 | LaneType::I8 => 3,
            LaneType::B16 | LaneType::I16 => 4,
            LaneType::B32 | LaneType::I32 | LaneType::F32 => 5,
            LaneType::B64 | LaneType::I64 | LaneType::F64 => 6,
        }
    }

    pub fn is_int(self) -> (r: bool)
        ensures
            r == self.spec_is_int(),
    {
        matches!(self, LaneType::I8 | LaneType::I16 | LaneType::I32 | LaneType::I64)
    }

    pub fn is_float(self) -> (r: bool)
        ensures
            r == self.spec_is_float(),
    {
        matches!(self, LaneType::F32 | LaneType::F64)
    }

    pub fn is_bool(self) -> (r: bool)
        ensures
            r == self.spec_is_bool(),
    {
        matches!(self, LaneType::B1 | LaneType::B8 | LaneType::B16 | LaneType::B32 | LaneType::B64)
    }

    pub fn as_bool(self) -> (r: LaneType)
        ensures
            r == self.spec_as_bool(),
    {
        match self {
            LaneType::B8 | LaneType::I8 => LaneType::B8,
            LaneType::B16 | LaneType::I16 => LaneType::B16,
            LaneType::B32 | LaneType::I32 | LaneType::F32 => LaneType::B32,
            LaneType::B64 | LaneType::I64 | LaneType::F64 => LaneType::B64,
            LaneType::B1 => LaneType::B1,
        }
    }

    pub fn half_width(self) -> (r: Option<LaneType>)
        ensures
            r == self.spec_half_width(),
    {
        match self {
            LaneType::B16 => Some(LaneType::B8),
            LaneType::B32 => Some(LaneType::B16),
            LaneType::B64 => Some(LaneType::B32),
            LaneType::I16 => Some(LaneType::I8),
            LaneType::I32 => Some(LaneType::I16),
            LaneType::I64 => Some(LaneType::I32),
            LaneType::F64 => Some(LaneType::F32),
            _ => None,
        }
    }

    pub fn double_width(self) -> (r: Option<LaneType>)
        ensures
            r == self.spec_double_width(),
    {
        match self {
            LaneType::B8 => Some(LaneType::B16),
            LaneType::B16 => Some(LaneType::B32),
            LaneType::B32 => Some(LaneType::B64),
            LaneType::I8 => Some(LaneType::I16),
            LaneType::I16 => Some(LaneType::I32),
            LaneType::I32 => Some(LaneType::I64),
            LaneType::F32 => Some(LaneType::F64),
            _ => None,
        }
    }

    pub fn name(self) -> (r: &'static str)
        ensures
            r@ == self.spec_name(),
    {
        match self {
            LaneType::B1 => "b1",
            LaneType::B8 => "b8",
            LaneType::B16 => "b16",
            LaneType::B32 => "b32",
            LaneType::B64 => "b64",
            LaneType::I8 => "i8",
            LaneType::I16 => "i16",
            LaneType::I32 => "i32",
            LaneType::I64 => "i64",
            LaneType::F32 => "f32",
            LaneType::F64 => "f64",
        }
    }
}

/// The decimal digits of `1 << k`, for the lane counts a vector type can have.
pub open spec fn lane_count_digits(k: u8) -> Seq<char> {
    match k {
        0 => "1"@,
        1 => "2"@,
        2 => "4"@,
        3 => "8"@,
        4 => "16"@,
        5 => "32"@,
        6 => "64"@,
        7 => "128"@,
        _ => "256"@,
    }
}

fn lane_count_str(k: u8) -> (r: &'static str)
    ensures
        r@ == lane_count_digits(k),
{
    match k {
        0 => "1",
        1 => "2",
        2 => "4",
        3 => "8",
        4 => "16",
        5 => "32",
        6 => "64",
        7 => "128",
        _ => "256",
    }
}

impl Type {
    /// A well-formed type has at most `1 << MAX_LOG2_LANES` lanes.
    pub open spec fn wf(self) -> bool {
        self.log2_lanes <= MAX_LOG2_LANES
    }

    /// The type with lane type `lane` and `1 << log2_lanes` lanes.
    pub open spec fn spec_new(lane: LaneType, log2_lanes: u8) -> Type {
        Type { lane, log2_lanes }
    }

    /// The printed name: the lane name, then `x` and the lane count for a vector.
    pub open spec fn spec_to_string(self) -> Seq<char> {
        if self.log2_lanes == 0 {
            self.lane.spec_name()
        } else {
            self.lane.spec_name() + "x"@ + lane_count_digits(self.log2_lanes)
        }
    }

    /// The scalar type with lane type `lane`.
    pub fn scalar(lane: LaneType) -> (r: Type)
        ensures
            r == Type::spec_new(lane, 0),
            r.wf(),
    {
        Type { lane, log2_lanes: 0 }
    }

    /// The type of one lane of this type.
    pub fn lane_type(self) -> (r: Type)
        ensures
            r == Type::spec_new(self.lane, 0),
    {
        Type { lane: self.lane, log2_lanes: 0 }
    }

    /// The lane type as a `LaneType`.
    pub fn lane(self) -> (r: LaneType)
        ensures
            r == self.lane,
    {
        self.lane
    }

    /// log2 of the number of bits in one lane.
    pub fn log2_lane_bits(self) -> (r: u8)
        ensures
            r == self.lane.spec_log2_bits(),
    {
        self.lane.log2_bits()
    }

    /// log2 of the number of lanes.
    pub fn log2_lane_count(self) -> (r: u8)
        ensures
            r == self.log2_lanes,
    {
        self.log2_lanes
    }

    /// The number of lanes.
    pub fn lane_count(self) -> (r: u16)
        requires
            self.wf(),
        ensures
            r as int == vstd::arithmetic::power2::pow2(self.log2_lanes as nat),
    {
        proof {
            vstd::arithmetic::power2::lemma2_to64();
        }
        let mut n: u16 = 1;
        let mut k: u8 = 0;
        while k < self.log2_lanes
            invariant
                k <= self.log2_lanes <= MAX_LOG2_LANES,
                n as int == vstd::arithmetic::power2::pow2(k as nat),
            decreases self.log2_lanes - k,
        {
            proof {
                vstd::arithmetic::power2::lemma2_to64();
                vstd::arithmetic::power2::lemma_pow2_unfold((k + 1) as nat);
                vstd::arithmetic::power2::lemma_pow2_strictly_increases((k + 1) as nat, 9);
            }
            n = n * 2;
            k = k + 1;
        }
        n
    }

    pub fn is_int(self) -> (r: bool)
        ensures
            r == self.lane.spec_is_int(),
    {
        self.lane.is_int()
    }

    pub fn is_float(self) -> (r: bool)
        ensures
            r == self.lane.spec_is_float(),
    {
        self.lane.is_float()
    }

    pub fn is_bool(self) -> (r: bool)
        ensures
            r == self.lane.spec_is_bool(),
    {
        self.lane.is_bool()
    }

    /// The type with the same lane count whose lanes are booleans of the same width.
    pub fn as_bool(self) -> (r: Type)
        ensures
            r == Type::spec_new(self.lane.spec_as_bool(), self.log2_lanes),
    {
        Type { lane: self.lane.as_bool(), log2_lanes: self.log2_lanes }
    }

    /// The type with lanes of half the width, if the lane type has such a counterpart.
    pub fn half_width(self) -> (r: Option<Type>)
        ensures
            r == match self.lane.spec_half_width() {
                Some(l) => Some(Type::spec_new(l, self.log2_lanes)),
                None => None,
            },
    {
        match self.lane.half_width() {
            Some(l) => Some(Type { lane: l, log2_lanes: self.log2_lanes }),
            None => None,
        }
    }

    /// The type with lanes of twice the width, if the lane type has such a counterpart.
    pub fn double_width(self) -> (r: Option<Type>)
        ensures
            r == match self.lane.spec_double_width() {
                Some(l) => Some(Type::spec_new(l, self.log2_lanes)),
                None => None,
            },
    {
        match self.lane.double_width() {
            Some(l) => Some(Type { lane: l, log2_lanes: self.log2_lanes }),
            None => None,
        }
    }

    /// The vector type with half as many lanes; `None` for a scalar.
    pub fn half_vector(self) -> (r: Option<Type>)
        ensures
            r == if self.log2_lanes > 0 {
                Some(Type::spec_new(self.lane, (self.log2_lanes - 1) as u8))
            } else {
                None
            },
    {
        if self.log2_lanes > 0 {
            Some(Type { lane: self.lane, log2_lanes: self.log2_lanes - 1 })
        } else {
            None
        }
    }

    /// The type with `n` times as many lanes. `None` unless `n` is a power of two and the
    /// result has at most `1 << MAX_LOG2_LANES` lanes.
    pub fn by_factor(self, n: u16) -> (r: Option<Type>)
        requires
            self.wf(),
        ensures
            match r {
                Some(t) => exists|k: u8|
                    vstd::arithmetic::power2::pow2(k as nat) == n as int && t == Type::spec_new(
                        self.lane,
                        (self.log2_lanes + k) as u8,
                    ) && t.wf(),
                None => forall|k: u8|
                    vstd::arithmetic::power2::pow2(k as nat) == n as int ==> self.log2_lanes + k
                        > MAX_LOG2_LANES,
            },
    {
        proof {
            vstd::arithmetic::power2::lemma2_to64();
        }
        let room: u8 = MAX_LOG2_LANES - self.log2_lanes;
        let mut p: u16 = 1;
        let mut k: u8 = 0;
        while k < room && p != n
            invariant
                self.log2_lanes + room == MAX_LOG2_LANES,
                k <= room,
                p as int == vstd::arithmetic::power2::pow2(k as nat),
                forall|j: u8| j < k ==> vstd::arithmetic::power2::pow2(j as nat) != n as int,
            decreases room - k,
        {
            proof {
                vstd::arithmetic::power2::lemma2_to64();
                vstd::arithmetic::power2::lemma_pow2_unfold((k + 1) as nat);
                vstd::arithmetic::power2::lemma_pow2_strictly_increases((k + 1) as nat, 9);
            }
            p = p * 2;
            k = k + 1;
        }
        if p == n {
            Some(Type { lane: self.lane, log2_lanes: self.log2_lanes + k })
        } else {
            proof {
                assert forall|j: u8|
                    vstd::arithmetic::power2::pow2(j as nat) == n as int implies self.log2_lanes + j
                    > MAX_LOG2_LANES by {
                    if j <= k {
                    } else {
                        vstd::arithmetic::power2::lemma_pow2_strictly_increases(k as nat, j as nat);
                    }
                }
            }
            None
        }
    }

    /// The printed name of the type, such as `i32` or `f32x4`.
    pub fn to_string(self) -> (r: String)
        ensures
            r@ == self.spec_to_string(),
    {
        let mut s = String::from_str(self.lane.name());
        if self.log2_lanes > 0 {
            s.append("x");
            s.append(lane_count_str(self.log2_lanes));
        }
        s
    }
}

} // verus!
