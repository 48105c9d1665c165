//! Event codes: a tagged index identifying one control of a controller.
//!
//! A code is a kind (button, axis or switch) plus a zero-based index within
//! that kind's sequence. Consumers rely on the packed 32-bit wire form
//! (high 16 bits the kind discriminant, low 16 bits the index), so that
//! packing is pinned down bit for bit here.

use vstd::prelude::*;

verus! {

/// Relies on String::push: appends the given character to the end of the
/// string.
pub assume_specification[ String::push ](s: &mut String, ch: char)
    ensures
        final(s)@ == old(s)@.push(ch),
;

/// Which family of control a code refers to: a button, an axis or a switch.
#[derive(Copy, Clone, Debug, PartialEq, Eq, PartialOrd, Ord, Hash, Structural)]
pub enum EvCodeKind {
    Button,
    Axis,
    Switch,
}

impl EvCodeKind {
    /// Wire discriminant of this kind: buttons 0, axes 1, switches 2.
    pub open spec fn code_spec(self) -> u32 {
        match self {
            EvCodeKind::Button => 0,
            EvCodeKind::Axis => 1,
            EvCodeKind::Switch => 2,
        }
    }

    pub fn code(self) -> (c: u32)
        ensures
            c == self.code_spec(),
    {
        match self {
            EvCodeKind::Button => 0,
            EvCodeKind::Axis => 1,
            EvCodeKind::Switch => 2,
        }
    }

    /// Human-readable name of the kind.
    pub fn label(self) -> (s: &'static str)
        ensures
            self == EvCodeKind::Button ==> s@ == "Button"@,
            self == EvCodeKind::Axis ==> s@ == "Axis"@,
            self == EvCodeKind::Switch ==> s@ == "Switch"@,
    {
        match self {
            EvCodeKind::Button => "Button",
            EvCodeKind::Axis => "Axis",
            EvCodeKind::Switch => "Switch",
        }
    }
}

/// The label of a kind, as the character sequence of its name.
pub open spec fn kind_label_spec(kind: EvCodeKind) -> Seq<char> {
    match kind {
        EvCodeKind::Button => "Button"@,
        EvCodeKind::Axis => "Axis"@,
        EvCodeKind::Switch => "Switch"@,
    }
}

/// The character of one decimal digit.
pub open spec fn digit_char_spec(d: nat) -> char {
    if d == 0 {
        '0'
    } else if d == 1 {
        '1'
    } else if d == 2 {
        '2'
    } else if d == 3 {
        '3'
    } else if d == 4 {
        '4'
    } else if d == 5 {
        '5'
    } else if d == 6 {
        '6'
    } else if d == 7 {
        '7'
    } else if d == 8 {
        '8'
    } else {
        '9'
    }
}

/// The decimal rendering of `n`, most significant digit first, without
/// leading zeros (a lone zero for 0).
pub open spec fn decimal_spec(n: nat) -> Seq<char>
    decreases n,
{
    if n < 10 {
        seq![digit_char_spec(n)]
    } else {
        decimal_spec(n / 10) + seq![digit_char_spec(n % 10)]
    }
}

fn digit_char(d: u32) -> (c: char)
    requires
        d < 10,
    ensures
        c == digit_char_spec(d as nat),
{
    if d == 0 {
        '0'
    } else if d == 1 {
        '1'
    } else if d == 2 {
        '2'
    } else if d == 3 {
        '3'
    } else if d == 4 {
        '4'
    } else if d == 5 {
        '5'
    } else if d == 6 {
        '6'
    } else if d == 7 {
        '7'
    } else if d == 8 {
        '8'
    } else {
        '9'
    }
}

fn push_decimal(n: u32, out: &mut String)
    ensures
        final(out)@ == old(out)@ + decimal_spec(n as nat),
    decreases n,
{
    if n < 10 {
        out.push(digit_char(n));
        proof {
            assert(out@ =~= old(out)@ + decimal_spec(n as nat));
        }
    } else {
        push_decimal(n / 10, out);
        out.push(digit_char(n % 10));
        proof {
            assert(out@ =~= old(out)@ + decimal_spec(n as nat));
        }
    }
}

/// A tagged index: equal iff kind and index match; ordered by (kind, index).
#[derive(Copy, Clone, Debug, PartialEq, Eq, PartialOrd, Ord, Hash, Structural)]
pub struct EvCode {
    pub kind: EvCodeKind,
    pub index: u32,
}

impl EvCode {
    /// The packed wire form: kind discriminant in the high 16 bits,
    /// index in the low 16 bits.
    pub open spec fn pack_spec(self) -> u32 {
        (self.kind.code_spec() << 16u32) | self.index
    }

    pub fn into_u32(self) -> (r: u32)
        ensures
            r == self.pack_spec(),
    {
        (self.kind.code() << 16u32) | self.index
    }

    /// Inverse of the wire form: the high 16 bits select the kind, the low
    /// 16 bits the index; an unknown discriminant has no code.
    pub open spec fn unpack_spec(v: u32) -> Option<EvCode> {
        if v >> 16u32 == 0 {
            Some(EvCode { kind: EvCodeKind::Button, index: v & 0xFFFFu32 })
        } else if v >> 16u32 == 1 {
            Some(EvCode { kind: EvCodeKind::Axis, index: v & 0xFFFFu32 })
        } else if v >> 16u32 == 2 {
            Some(EvCode { kind: EvCodeKind::Switch, index: v & 0xFFFFu32 })
        } else {
            None
        }
    }

    pub fn from_u32(v: u32) -> (r: Option<EvCode>)
        ensures
            r == Self::unpack_spec(v),
    {
        let tag: u32 = v >> 16u32;
        let index: u32 = v & 0xFFFFu32;
        if tag == 0 {
            Some(EvCode { kind: EvCodeKind::Button, index })
        } else if tag == 1 {
            Some(EvCode { kind: EvCodeKind::Axis, index })
        } else if tag == 2 {
            Some(EvCode { kind: EvCodeKind::Switch, index })
        } else {
            None
        }
    }

    /// The display form of a code: the kind's label, then the index in
    /// decimal between parentheses.
    pub open spec fn display_spec(self) -> Seq<char> {
        kind_label_spec(self.kind) + seq!['('] + decimal_spec(self.index as nat) + seq![')']
    }

    pub fn display_string(self) -> (s: String)
        ensures
            s@ == self.display_spec(),
    {
        let mut s: String = self.kind.label().to_owned();
        s.push('(');
        push_decimal(self.index, &mut s);
        s.push(')');
        proof {
            assert(s@ =~= self.display_spec());
        }
        s
    }
}

/// Packing then unpacking the 32-bit wire form recovers the original kind
/// and index exactly, for every index that fits in the low 16 bits.
pub proof fn lemma_pack_round_trip(c: EvCode)
    requires
        c.index <= 0xFFFF,
    ensures
        EvCode::unpack_spec(c.pack_spec()) == Some(c),
{
    let k: u32 = c.kind.code_spec();
    let i: u32 = c.index;
    assert((k <= 2 && i <= 0xFFFF) ==> (((k << 16u32) | i) >> 16u32 == k && ((k << 16u32) | i)
        & 0xFFFFu32 == i)) by (bit_vector);
}

} // verus!
