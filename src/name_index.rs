//! Parsing opcode names: an open-addressed hash table from printed names to opcodes,
//! built once from the opcode catalog and probed linearly.

use vstd::prelude::*;
use vstd::string::StringSliceAdditionalSpecFns;
use vstd::utf8::{encode_utf8, encode_utf8_decode_utf8};
use crate::opcodes::{lemma_opcode_of_name, Opcode, OPCODE_COUNT};

verus! {

/// The number of slots: a power of two above twice the number of opcodes, so probe
/// chains stay short and a free slot always remains.
pub const NAME_TABLE_SIZE: usize = 128;

/// One step of the string hash.
pub open spec fn hash_step(h: u32, b: u8) -> u32 {
    (h ^ (b as u32)).wrapping_add((h >> 6u32) | (h << 26u32))
}

/// The hash of a byte string.
pub open spec fn spec_simple_hash(bytes: Seq<u8>) -> u32
    decreases bytes.len(),
{
    if bytes.len() == 0 {
        5381
    } else {
        hash_step(spec_simple_hash(bytes.drop_last()), bytes.last())
    }
}

/// The slot where probing for the name `chars` starts.
pub open spec fn home_slot(chars: Seq<char>) -> int {
    spec_simple_hash(encode_utf8(chars)) as int % NAME_TABLE_SIZE as int
}

/// The `k`-th slot probed for the name `chars`.
pub open spec fn probe_slot(chars: Seq<char>, k: int) -> int {
    (home_slot(chars) + k) % NAME_TABLE_SIZE as int
}

/// The opcode whose printed name is `s`, if there is one.
pub open spec fn spec_parse(s: Seq<char>) -> Option<Opcode> {
    if exists|o: Opcode| #[trigger] o.spec_name() == s {
        Some(choose|o: Opcode| #[trigger] o.spec_name() == s)
    } else {
        None
    }
}

/// Hashes the bytes of `s`.
pub fn simple_hash(s: &str) -> (r: u32)
    ensures
        r == spec_simple_hash(s.spec_bytes()),
{
    let bytes = s.as_bytes();
    let mut h: u32 = 5381;
    let mut i: usize = 0;
    while i < bytes.len()
        invariant
            i <= bytes@.len(),
            h == spec_simple_hash(bytes@.subrange(0, i as int)),
        decreases bytes@.len() - i,
    {
        let b = bytes[i];
        assert(bytes@.subrange(0, i + 1).drop_last() =~= bytes@.subrange(0, i as int));
        h = (h ^ (b as u32)).wrapping_add((h >> 6u32) | (h << 26u32));
        i = i + 1;
    }
    assert(bytes@.subrange(0, i as int) =~= bytes@);
    h
}

/// Are `a` and `b` the same string? Compared byte for byte.
fn str_eq(a: &str, b: &str) -> (r: bool)
    ensures
        r == (a@ == b@),
{
    let x = a.as_bytes();
    let y = b.as_bytes();
    proof {
        encode_utf8_decode_utf8(a@);
        encode_utf8_decode_utf8(b@);
    }
    if x.len() != y.len() {
        return false;
    }
    let mut i: usize = 0;
    while i < x.len()
        invariant
            x@ == encode_utf8(a@),
            y@ == encode_utf8(b@),
            x@.len() == y@.len(),
            i <= x@.len(),
            forall|j: int| 0 <= j < i ==> x@[j] == y@[j],
        decreases x@.len() - i,
    {
        if x[i] != y[i] {
            assert(x@ != y@);
            return false;
        }
        i = i + 1;
    }
    assert(x@ =~= y@);
    true
}

/// The table that maps printed opcode names to opcodes.
pub struct OpcodeNameIndex {
    slots: Vec<Option<Opcode>>,
}

impl OpcodeNameIndex {
    /// `o` sits on its own probe chain, and every slot before it on the chain is taken.
    pub closed spec fn placed(self, o: Opcode) -> bool {
        exists|k: int|
            0 <= k < NAME_TABLE_SIZE && self.slots@[probe_slot(o.spec_name(), k)] == Some(o)
                && forall|j: int| 0 <= j < k ==> #[trigger] self.slots@[probe_slot(o.spec_name(), j)] is Some
    }

    /// Every opcode can be found by probing for its name.
    pub closed spec fn wf(self) -> bool {
        &&& self.slots@.len() == NAME_TABLE_SIZE
        &&& forall|o: Opcode| #[trigger] self.placed(o)
    }

    /// Builds the table from the opcode catalog.
    pub fn new() -> (r: OpcodeNameIndex)
        ensures
            r.wf(),
    {
        let mut slots: Vec<Option<Opcode>> = Vec::new();
        let mut i: usize = 0;
        while i < NAME_TABLE_SIZE
            invariant
                i <= NAME_TABLE_SIZE,
                slots@.len() == i,
                forall|j: int| 0 <= j < i ==> slots@[j] is None,
            decreases NAME_TABLE_SIZE - i,
        {
            slots.push(None);
            i = i + 1;
        }
        let ghost filled: Set<int> = Set::empty();
        let mut n: usize = 0;
        while n < OPCODE_COUNT
            invariant
                n <= OPCODE_COUNT,
                slots@.len() == NAME_TABLE_SIZE,
                filled.finite(),
                filled.len() == n,
                forall|j: int| 0 <= j < NAME_TABLE_SIZE ==> (filled.contains(j) <==> slots@[j] is Some),
                forall|j: int| #[trigger] filled.contains(j) ==> 0 <= j < NAME_TABLE_SIZE,
                forall|m: int| 0 <= m < n ==> (OpcodeNameIndex { slots }).placed(
                    #[trigger] Opcode::spec_from_ordinal(m),
                ),
            decreases OPCODE_COUNT - n,
        {
            let o = Opcode::from_ordinal(n);
            let h = (simple_hash(o.name()) as usize) % NAME_TABLE_SIZE;
            assert(h == home_slot(o.spec_name()));
            let mut k: usize = 0;
            while k < NAME_TABLE_SIZE && slots[(h + k) % NAME_TABLE_SIZE].is_some()
                invariant
                    k <= NAME_TABLE_SIZE,
                    h == home_slot(o.spec_name()),
                    h < NAME_TABLE_SIZE,
                    slots@.len() == NAME_TABLE_SIZE,
                    forall|j: int| 0 <= j < k ==> #[trigger] slots@[probe_slot(o.spec_name(), j)] is Some,
                decreases NAME_TABLE_SIZE - k,
            {
                k = k + 1;
            }
            if k == NAME_TABLE_SIZE {
                proof {
                    let all = vstd::set_lib::set_int_range(0, NAME_TABLE_SIZE as int);
                    vstd::set_lib::lemma_int_range(0, NAME_TABLE_SIZE as int);
                    assert forall|j: int| #[trigger] all.contains(j) implies filled.contains(j) by {
                        let d = (j - h + NAME_TABLE_SIZE) % (NAME_TABLE_SIZE as int);
                        assert(probe_slot(o.spec_name(), d) == j);
                        assert(slots@[probe_slot(o.spec_name(), d)] is Some);
                    }
                    vstd::set_lib::lemma_len_subset(all, filled);
                }
            }
            let idx = (h + k) % NAME_TABLE_SIZE;
            let ghost before = slots;
            slots.set(idx, Some(o));
            proof {
                assert(!filled.contains(idx as int));
                filled = filled.insert(idx as int);
                assert forall|m: int| 0 <= m < n + 1 implies (OpcodeNameIndex { slots }).placed(
                    #[trigger] Opcode::spec_from_ordinal(m),
                ) by {
                    let p = Opcode::spec_from_ordinal(m);
                    if m < n {
                        assert((OpcodeNameIndex { slots: before }).placed(p));
                        let kk = choose|kk: int|
                            0 <= kk < NAME_TABLE_SIZE && before@[probe_slot(p.spec_name(), kk)]
                                == Some(p) && forall|j: int| 0 <= j < kk ==> #[trigger] before@[probe_slot(
                                p.spec_name(),
                                j,
                            )] is Some;
                        assert(slots@[probe_slot(p.spec_name(), kk)] == Some(p));
                        assert forall|j: int| 0 <= j < kk implies #[trigger] slots@[probe_slot(
                            p.spec_name(),
                            j,
                        )] is Some by {
                            assert(before@[probe_slot(p.spec_name(), j)] is Some);
                        }
                    } else {
                        assert(slots@[probe_slot(o.spec_name(), k as int)] == Some(o));
                    }
                }
            }
            n = n + 1;
        }
        let r = OpcodeNameIndex { slots };
        assert forall|o: Opcode| #[trigger] r.placed(o) by {
            assert(Opcode::spec_from_ordinal(o.ordinal()) == o);
        }
        r
    }

    /// Looks up the opcode whose printed name is exactly `s`.
    pub fn parse(&self, s: &str) -> (r: Result<Opcode, &'static str>)
        requires
            self.wf(),
        ensures
            match r {
                Ok(o) => spec_parse(s@) == Some(o),
                Err(e) => spec_parse(s@) is None && e@ == "Unknown opcode"@,
            },
    {
        let h = (simple_hash(s) as usize) % NAME_TABLE_SIZE;
        assert(h == home_slot(s@));
        let mut k: usize = 0;
        while k < NAME_TABLE_SIZE
            invariant
                self.wf(),
                h == home_slot(s@),
                k <= NAME_TABLE_SIZE,
                forall|j: int|
                    0 <= j < k ==> match #[trigger] self.slots@[probe_slot(s@, j)] {
                        Some(p) => p.spec_name() != s@,
                        None => false,
                    },
            decreases NAME_TABLE_SIZE - k,
        {
            match self.slots[(h + k) % NAME_TABLE_SIZE] {
                None => {
                    proof {
                        self.lemma_absent(s@, k as int);
                    }
                    return Err("Unknown opcode");
                },
                Some(o) => {
                    if str_eq(o.name(), s) {
                        proof {
                            lemma_names_distinct();
                        }
                        return Ok(o);
                    }
                },
            }
            k = k + 1;
        }
        proof {
            self.lemma_absent(s@, k as int);
        }
        Err("Unknown opcode")
    }

    /// If the first `k` slots of the probe chain for `s` hold other names and the chain
    /// ends there (the next slot is free, or the whole table was probed), no opcode has
    /// the name `s`.
    proof fn lemma_absent(self, s: Seq<char>, k: int)
        requires
            self.wf(),
            0 <= k <= NAME_TABLE_SIZE,
            k < NAME_TABLE_SIZE ==> self.slots@[probe_slot(s, k)] is None,
            forall|j: int|
                0 <= j < k ==> match #[trigger] self.slots@[probe_slot(s, j)] {
                    Some(p) => p.spec_name() != s,
                    None => false,
                },
        ensures
            spec_parse(s) is None,
    {
        assert forall|o: Opcode| #[trigger] o.spec_name() != s by {
            if o.spec_name() == s {
                assert(self.placed(o));
                let kk = choose|kk: int|
                    0 <= kk < NAME_TABLE_SIZE && self.slots@[probe_slot(o.spec_name(), kk)]
                        == Some(o) && forall|j: int| 0 <= j < kk ==> #[trigger] self.slots@[probe_slot(
                        o.spec_name(),
                        j,
                    )] is Some;
                if kk < k {
                    assert(self.slots@[probe_slot(s, kk)] == Some(o));
                } else if kk == k {
                } else {
                    assert(self.slots@[probe_slot(s, k)] is Some);
                }
            }
        }
    }
}

/// Different opcodes have different printed names.
pub proof fn lemma_names_distinct()
    ensures
        forall|a: Opcode, b: Opcode| #[trigger] a.spec_name() == #[trigger] b.spec_name() ==> a == b,
{
    assert forall|a: Opcode, b: Opcode| #[trigger] a.spec_name() == #[trigger] b.spec_name() implies a
        == b by {
        lemma_opcode_of_name(a);
        lemma_opcode_of_name(b);
    }
}

impl core::str::FromStr for Opcode {
    type Err = &'static str;

    /// Parses an opcode from its printed name.
    fn from_str(s: &str) -> (r: Result<Opcode, &'static str>)
        ensures
            match r {
                Ok(o) => spec_parse(s@) == Some(o),
                Err(e) => spec_parse(s@) is None && e@ == "Unknown opcode"@,
            },
    {
        OpcodeNameIndex::new().parse(s)
    }
}

} // verus!
