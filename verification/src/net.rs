//! Network primitive types: big-endian 16- and 32-bit integers and an IPv4
//! address value. Multi-byte wire fields are stored byte by byte, most
//! significant first, so that encoding a header is a plain concatenation of
//! field bytes.

use vstd::prelude::*;

verus! {

/// A 16-bit quantity in network byte order: `hi` is the most significant byte.
#[derive(Clone, Copy, PartialEq, Eq, Structural, Debug)]
pub struct N16 {
    pub hi: u8,
    pub lo: u8,
}

impl N16 {
    /// The numeric value the two bytes stand for.
    pub open spec fn spec_get(self) -> u16 {
        (self.hi * 256 + self.lo) as u16
    }

    /// The byte pair that stands for `v`.
    pub open spec fn spec_new(v: u16) -> N16 {
        N16 { hi: (v / 256) as u8, lo: (v % 256) as u8 }
    }

    pub fn new(v: u16) -> (r: N16)
        ensures
            r == N16::spec_new(v),
            r.spec_get() == v,
    {
        let r = N16 { hi: (v / 256) as u8, lo: (v % 256) as u8 };
        proof {
            assert(v / 256 < 256);
            assert((v / 256) * 256 + (v % 256) == v) by (nonlinear_arith);
        }
        r
    }

    pub fn get(&self) -> (r: u16)
        ensures
            r == self.spec_get(),
    {
        (self.hi as u16) * 256 + (self.lo as u16)
    }
}

/// Every byte pair decodes to the value it was built from.
pub broadcast proof fn lemma_n16_get_new(v: u16)
    ensures
        #[trigger] N16::spec_new(v).spec_get() == v,
{
    assert((v / 256) * 256 + (v % 256) == v) by (nonlinear_arith);
}

/// A 32-bit quantity in network byte order: `b0` is the most significant byte.
#[derive(Clone, Copy, PartialEq, Eq, Structural, Debug)]
pub struct N32 {
    pub b0: u8,
    pub b1: u8,
    pub b2: u8,
    pub b3: u8,
}

impl N32 {
    /// The numeric value the four bytes stand for.
    pub open spec fn spec_get(self) -> u32 {
        (self.b0 * 0x1000000 + self.b1 * 0x10000 + self.b2 * 0x100 + self.b3) as u32
    }

    /// The byte quadruple that stands for `v`.
    pub open spec fn spec_new(v: u32) -> N32 {
        N32 {
            b0: (v / 0x1000000) as u8,
            b1: ((v / 0x10000) % 0x100) as u8,
            b2: ((v / 0x100) % 0x100) as u8,
            b3: (v % 0x100) as u8,
        }
    }

    pub fn new(v: u32) -> (r: N32)
        ensures
            r == N32::spec_new(v),
            r.spec_get() == v,
    {
        proof {
            lemma_n32_get_new(v);
        }
        N32 {
            b0: (v / 0x1000000) as u8,
            b1: ((v / 0x10000) % 0x100) as u8,
            b2: ((v / 0x100) % 0x100) as u8,
            b3: (v % 0x100) as u8,
        }
    }

    pub fn get(&self) -> (r: u32)
        ensures
            r == self.spec_get(),
    {
        (self.b0 as u32) * 0x1000000 + (self.b1 as u32) * 0x10000 + (self.b2 as u32) * 0x100
            + (self.b3 as u32)
    }
}

/// Every byte quadruple decodes to the value it was built from.
pub broadcast proof fn lemma_n32_get_new(v: u32)
    ensures
        #[trigger] N32::spec_new(v).spec_get() == v,
{
    assert((v / 0x1000000) * 0x1000000 + ((v / 0x10000) % 0x100) * 0x10000 + ((v / 0x100) % 0x100)
        * 0x100 + (v % 0x100) == v) by (bit_vector);
}

/// An IPv4 address: four bytes, most significant first.
#[derive(Clone, Copy, PartialEq, Eq, Structural, Debug)]
pub struct IPv4Addr {
    pub b0: u8,
    pub b1: u8,
    pub b2: u8,
    pub b3: u8,
}

impl IPv4Addr {
    /// The four address bytes in wire order, as summed into the pseudo-header.
    pub open spec fn spec_bytes(self) -> Seq<u8> {
        seq![self.b0, self.b1, self.b2, self.b3]
    }
}

} // verus!
