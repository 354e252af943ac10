use vstd::prelude::*;

verus! {

/// Raw value of the Descriptor Privilege-Level field.
#[derive(Debug, Clone, Copy, PartialEq, Eq, Structural)]
pub enum Dpl {
    Ring0,
    Ring1,
    Ring2,
    Ring3,
}

impl Dpl {
    /// The numeric value of a privilege level.
    pub open spec fn spec_bits(self) -> u8 {
        match self {
            Dpl::Ring0 => 0,
            Dpl::Ring1 => 1,
            Dpl::Ring2 => 2,
            Dpl::Ring3 => 3,
        }
    }

    pub fn from_bits(v: u8) -> (r: Self)
        requires
            v <= 3,
        ensures
            r.spec_bits() == v,
    {
        match v {
            0 => Dpl::Ring0,
            1 => Dpl::Ring1,
            2 => Dpl::Ring2,
            _ => Dpl::Ring3,
        }
    }

    pub fn into_bits(self) -> (r: u8)
        ensures
            r == self.spec_bits(),
            r <= 3,
    {
        match self {
            Dpl::Ring0 => 0,
            Dpl::Ring1 => 1,
            Dpl::Ring2 => 2,
            Dpl::Ring3 => 3,
        }
    }
}

} // verus!

verus! {

/// Raw value of the Table Indicator field.
#[derive(Debug, Clone, Copy, PartialEq, Eq, Structural)]
pub enum Ti {
    Gdt,
    Ldt,
}

impl Ti {
    /// The numeric value of a table indicator.
    pub open spec fn spec_bits(self) -> u8 {
        match self {
            Ti::Gdt => 0,
            Ti::Ldt => 1,
        }
    }

    pub fn from_bits(v: u8) -> (r: Self)
        requires
            v <= 1,
        ensures
            r.spec_bits() == v,
    {
        if v == 0 {
            Ti::Gdt
        } else {
            Ti::Ldt
        }
    }

    pub fn into_bits(self) -> (r: u8)
        ensures
            r == self.spec_bits(),
            r <= 1,
    {
        match self {
            Ti::Gdt => 0,
            Ti::Ldt => 1,
        }
    }
}

/// Raw value of a segment selector (the value of `CS`, `DS` and the like): the requested
/// privilege level in bits 0 and 1, the table indicator in bit 2 and the selector index in
/// bits 3 to 15.
#[derive(Debug, Clone, Copy, PartialEq, Eq, Structural)]
pub struct SegmentSelector {
    raw: u16,
}

impl SegmentSelector {
    pub closed spec fn bits(self) -> u16 {
        self.raw
    }

    /// A selector with every field zero.
    pub fn new() -> (r: Self)
        ensures
            r.bits() == 0,
    {
        SegmentSelector { raw: 0 }
    }

    pub fn from_bits(v: u16) -> (r: Self)
        ensures
            r.bits() == v,
    {
        SegmentSelector { raw: v }
    }

    pub fn into_bits(self) -> (r: u16)
        ensures
            r == self.bits(),
    {
        self.raw
    }

    /// Requested privilege level.
    pub fn rpl(self) -> (r: Dpl)
        ensures
            r.spec_bits() == self.bits() & 3u16,
    {
        let raw = self.raw;
        let v = raw & 3;
        assert(v <= 3) by (bit_vector)
            requires
                v == raw & 3u16,
        ;
        Dpl::from_bits(v as u8)
    }

    /// Table indicator.
    pub fn ti(self) -> (r: Ti)
        ensures
            r.spec_bits() == (self.bits() >> 2u16) & 1u16,
    {
        let raw = self.raw;
        let v = (raw >> 2) & 1;
        assert(v <= 1) by (bit_vector)
            requires
                v == (raw >> 2u16) & 1u16,
        ;
        Ti::from_bits(v as u8)
    }

    /// Selector index.
    pub fn si(self) -> (r: u16)
        ensures
            r == self.bits() >> 3u16,
            r < 8192,
    {
        let raw = self.raw;
        let v = raw >> 3;
        assert(v < 8192) by (bit_vector)
            requires
                v == raw >> 3u16,
        ;
        v
    }

    /// The same selector with another requested privilege level.
    pub fn with_rpl(self, rpl: Dpl) -> (r: Self)
        ensures
            r.bits() == (self.bits() & 0xfffcu16) | (rpl.spec_bits() as u16),
            r.bits() & 3u16 == rpl.spec_bits() as u16,
            (r.bits() >> 2u16) & 1u16 == (self.bits() >> 2u16) & 1u16,
            r.bits() >> 3u16 == self.bits() >> 3u16,
    {
        proof {
            lemma_selector_fields_independent(self.raw, rpl.spec_bits() as u16, 0, 0);
        }
        SegmentSelector { raw: (self.raw & 0xfffc) | (rpl.into_bits() as u16) }
    }

    /// The same selector with another table indicator.
    pub fn with_ti(self, ti: Ti) -> (r: Self)
        ensures
            r.bits() == (self.bits() & 0xfffbu16) | ((ti.spec_bits() as u16) << 2u16),
            (r.bits() >> 2u16) & 1u16 == ti.spec_bits() as u16,
            r.bits() & 3u16 == self.bits() & 3u16,
            r.bits() >> 3u16 == self.bits() >> 3u16,
    {
        proof {
            lemma_selector_fields_independent(self.raw, 0, ti.spec_bits() as u16, 0);
        }
        SegmentSelector { raw: (self.raw & 0xfffb) | ((ti.into_bits() as u16) << 2) }
    }

    /// The same selector with another index.
    pub fn with_si(self, si: u16) -> (r: Self)
        requires
            si < 8192,
        ensures
            r.bits() == (self.bits() & 7u16) | (si << 3u16),
            r.bits() >> 3u16 == si,
            r.bits() & 3u16 == self.bits() & 3u16,
            (r.bits() >> 2u16) & 1u16 == (self.bits() >> 2u16) & 1u16,
    {
        proof {
            lemma_selector_fields_independent(self.raw, 0, 0, si);
        }
        SegmentSelector { raw: (self.raw & 7) | (si << 3) }
    }
}

/// Setting one field of a selector leaves the other two as they were.
proof fn lemma_selector_fields_independent(raw: u16, rpl: u16, ti: u16, si: u16)
    requires
        rpl <= 3,
        ti <= 1,
        si < 8192,
    ensures
        (((raw & 0xfffcu16) | rpl) & 3u16) == rpl,
        ((((raw & 0xfffcu16) | rpl) >> 2u16) & 1u16) == (raw >> 2u16) & 1u16,
        (((raw & 0xfffcu16) | rpl) >> 3u16) == raw >> 3u16,
        ((((raw & 0xfffbu16) | (ti << 2u16)) >> 2u16) & 1u16) == ti,
        (((raw & 0xfffbu16) | (ti << 2u16)) & 3u16) == raw & 3u16,
        (((raw & 0xfffbu16) | (ti << 2u16)) >> 3u16) == raw >> 3u16,
        (((raw & 7u16) | (si << 3u16)) >> 3u16) == si,
        (((raw & 7u16) | (si << 3u16)) & 3u16) == raw & 3u16,
        ((((raw & 7u16) | (si << 3u16)) >> 2u16) & 1u16) == (raw >> 2u16) & 1u16,
{
    assert((((raw & 0xfffcu16) | rpl) & 3u16) == rpl) by (bit_vector)
        requires
            rpl <= 3,
    ;
    assert(((((raw & 0xfffcu16) | rpl) >> 2u16) & 1u16) == (raw >> 2u16) & 1u16) by (bit_vector)
        requires
            rpl <= 3,
    ;
    assert((((raw & 0xfffcu16) | rpl) >> 3u16) == raw >> 3u16) by (bit_vector)
        requires
            rpl <= 3,
    ;
    assert(((((raw & 0xfffbu16) | (ti << 2u16)) >> 2u16) & 1u16) == ti) by (bit_vector)
        requires
            ti <= 1,
    ;
    assert((((raw & 0xfffbu16) | (ti << 2u16)) & 3u16) == raw & 3u16) by (bit_vector)
        requires
            ti <= 1,
    ;
    assert((((raw & 0xfffbu16) | (ti << 2u16)) >> 3u16) == raw >> 3u16) by (bit_vector)
        requires
            ti <= 1,
    ;
    assert((((raw & 7u16) | (si << 3u16)) >> 3u16) == si) by (bit_vector)
        requires
            si < 8192,
    ;
    assert((((raw & 7u16) | (si << 3u16)) & 3u16) == raw & 3u16) by (bit_vector)
        requires
            si < 8192,
    ;
    assert(((((raw & 7u16) | (si << 3u16)) >> 2u16) & 1u16) == (raw >> 2u16) & 1u16) by (bit_vector)
        requires
            si < 8192,
    ;
}

} // verus!
