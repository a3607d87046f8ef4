//! Entity references: small handles that name values, blocks and other function parts.

use vstd::prelude::*;
use vstd::string::StringExecFns;

verus! {

/// The decimal digits of `n`.
pub open spec fn decimal(n: nat) -> Seq<char>
    decreases n,
{
    if n < 10 {
        seq![digit_char(n)]
    } else {
        decimal(n / 10) + seq![digit_char(n % 10)]
    }
}

pub open spec fn digit_char(d: nat) -> char {
    if d == 0 {
        '0'
    } else if d == 1 {
        '1'
    } else if d == 2 {
        '2'
    } else if d == 3 {
        '3'
    } else if d == 4 {
        '4'
    } else if d == 5 {
        '5'
    } else if d == 6 {
        '6'
    } else if d == 7 {
        '7'
    } else if d == 8 {
        '8'
    } else {
        '9'
    }
}

fn digit_str(d: u32) -> (r: &'static str)
    requires
        d < 10,
    ensures
        r@ == seq![digit_char(d as nat)],
{
    proof {
        reveal_strlit("0");
        reveal_strlit("1");
        reveal_strlit("2");
        reveal_strlit("3");
        reveal_strlit("4");
        reveal_strlit("5");
        reveal_strlit("6");
        reveal_strlit("7");
        reveal_strlit("8");
        reveal_strlit("9");
    }
    let r = match d {
        0 => "0",
        1 => "1",
        2 => "2",
        3 => "3",
        4 => "4",
        5 => "5",
        6 => "6",
        7 => "7",
        8 => "8",
        _ => "9",
    };
    assert(r@ =~= seq![digit_char(d as nat)]);
    r
}

/// Appends the decimal digits of `n` to `s`.
pub fn push_decimal(s: &mut String, n: u32)
    ensures
        final(s)@ == old(s)@ + decimal(n as nat),
    decreases n,
{
    if n < 10 {
        s.append(digit_str(n));
    } else {
        push_decimal(s, n / 10);
        s.append(digit_str(n % 10));
        assert(final(s)@ =~= old(s)@ + decimal(n as nat));
    }
}

/// An SSA value.
#[derive(Clone, Copy, Debug, PartialEq, Eq, Hash, Structural)]
pub struct Value(pub u32);

impl Value {
    pub fn new(n: u32) -> (r: Value)
        ensures
            r.0 == n,
    {
        Value(n)
    }

    pub fn index(self) -> (r: u32)
        ensures
            r == self.0,
    {
        self.0
    }

    /// The printed name, such as `v7`.
    pub open spec fn spec_to_string(self) -> Seq<char> {
        "v"@ + decimal(self.0 as nat)
    }

    pub fn to_string(self) -> (r: String)
        ensures
            r@ == self.spec_to_string(),
    {
        let mut s = String::from_str("v");
        push_decimal(&mut s, self.0);
        s
    }
}

/// An extended basic block, the destination of branches.
#[derive(Clone, Copy, Debug, PartialEq, Eq, Hash, Structural)]
pub struct Ebb(pub u32);

impl Ebb {
    pub fn new(n: u32) -> (r: Ebb)
        ensures
            r.0 == n,
    {
        Ebb(n)
    }

    pub fn index(self) -> (r: u32)
        ensures
            r == self.0,
    {
        self.0
    }

    /// The printed name, such as `ebb7`.
    pub open spec fn spec_to_string(self) -> Seq<char> {
        "ebb"@ + decimal(self.0 as nat)
    }

    pub fn to_string(self) -> (r: String)
        ensures
            r@ == self.spec_to_string(),
    {
        let mut s = String::from_str("ebb");
        push_decimal(&mut s, self.0);
        s
    }
}

/// A jump table of a function.
#[derive(Clone, Copy, Debug, PartialEq, Eq, Hash, Structural)]
pub struct JumpTable(pub u32);

impl JumpTable {
    pub fn new(n: u32) -> (r: JumpTable)
        ensures
            r.0 == n,
    {
        JumpTable(n)
    }

    pub fn index(self) -> (r: u32)
        ensures
            r == self.0,
    {
        self.0
    }

    /// The printed name, such as `jt7`.
    pub open spec fn spec_to_string(self) -> Seq<char> {
        "jt"@ + decimal(self.0 as nat)
    }

    pub fn to_string(self) -> (r: String)
        ensures
            r@ == self.spec_to_string(),
    {
        let mut s = String::from_str("jt");
        push_decimal(&mut s, self.0);
        s
    }
}

/// A function signature referenced by an indirect call.
#[derive(Clone, Copy, Debug, PartialEq, Eq, Hash, Structural)]
pub struct SigRef(pub u32);

impl SigRef {
    pub fn new(n: u32) -> (r: SigRef)
        ensures
            r.0 == n,
    {
        SigRef(n)
    }

    pub fn index(self) -> (r: u32)
        ensures
            r == self.0,
    {
        self.0
    }

    /// The printed name, such as `sig7`.
    pub open spec fn spec_to_string(self) -> Seq<char> {
        "sig"@ + decimal(self.0 as nat)
    }

    pub fn to_string(self) -> (r: String)
        ensures
            r@ == self.spec_to_string(),
    {
        let mut s = String::from_str("sig");
        push_decimal(&mut s, self.0);
        s
    }
}

/// An external function referenced by a direct call.
#[derive(Clone, Copy, Debug, PartialEq, Eq, Hash, Structural)]
pub struct FuncRef(pub u32);

impl FuncRef {
    pub fn new(n: u32) -> (r: FuncRef)
        ensures
            r.0 == n,
    {
        FuncRef(n)
    }

    pub fn index(self) -> (r: u32)
        ensures
            r == self.0,
    {
        self.0
    }

    /// The printed name, such as `fn7`.
    pub open spec fn spec_to_string(self) -> Seq<char> {
        "fn"@ + decimal(self.0 as nat)
    }

    pub fn to_string(self) -> (r: String)
        ensures
            r@ == self.spec_to_string(),
    {
        let mut s = String::from_str("fn");
        push_decimal(&mut s, self.0);
        s
    }
}

/// A stack slot of a function.
#[derive(Clone, Copy, Debug, PartialEq, Eq, Hash, Structural)]
pub struct StackSlot(pub u32);

impl StackSlot {
    pub fn new(n: u32) -> (r: StackSlot)
        ensures
            r.0 == n,
    {
        StackSlot(n)
    }

    pub fn index(self) -> (r: u32)
        ensures
            r == self.0,
    {
        self.0
    }

    /// The printed name, such as `ss7`.
    pub open spec fn spec_to_string(self) -> Seq<char> {
        "ss"@ + decimal(self.0 as nat)
    }

    pub fn to_string(self) -> (r: String)
        ensures
            r@ == self.spec_to_string(),
    {
        let mut s = String::from_str("ss");
        push_decimal(&mut s, self.0);
        s
    }
}

} // verus!
