//! Loads and stores on a register window, and the record kept of them.
use vstd::prelude::*;

verus! {

/// One load or store that reached the hardware: its width, the address it
/// went to, and the value that was read or written.
#[allow(inconsistent_fields)]
#[derive(Clone, Copy, Debug, PartialEq, Eq)]
pub enum Access {
    Read8 { addr: u64, value: u8 },
    Read16 { addr: u64, value: u16 },
    Read32 { addr: u64, value: u32 },
    Write8 { addr: u64, value: u8 },
    Write16 { addr: u64, value: u16 },
    Write32 { addr: u64, value: u32 },
}

impl Access {
    /// The address the access went to.
    pub open spec fn addr(self) -> u64 {
        match self {
            Access::Read8 { addr, .. } => addr,
            Access::Read16 { addr, .. } => addr,
            Access::Read32 { addr, .. } => addr,
            Access::Write8 { addr, .. } => addr,
            Access::Write16 { addr, .. } => addr,
            Access::Write32 { addr, .. } => addr,
        }
    }

    /// Whether the access is a store.
    pub open spec fn is_write(self) -> bool {
        self is Write8 || self is Write16 || self is Write32
    }

    /// Whether the access is a store to `addr`.
    pub open spec fn writes_to(self, addr: u64) -> bool {
        self.is_write() && self.addr() == addr
    }
}

/// A window of memory-mapped registers.
///
/// Every call is one access of the given width at `addr`, performed at once
/// and in program order. The trait promises nothing about the value a load
/// returns: that is up to the device.
///
/// A window may keep a record of the accesses made to it. One that does says
/// so by `records`, and then each call adds to `seen` exactly the access it
/// is. A window that keeps no record, as one on the hardware itself, leaves
/// both as they are given here and promises nothing.
pub trait Mmio {
    /// Whether the window keeps a record of the accesses made to it.
    open spec fn records(&self) -> bool {
        false
    }

    /// Every access that the window has recorded, oldest first.
    open spec fn seen(&self) -> Seq<Access> {
        Seq::empty()
    }

    fn read8(&mut self, addr: u64) -> (value: u8)
        ensures
            final(self).records() == old(self).records(),
            old(self).records() ==> final(self).seen() == old(self).seen() + fetch8(addr, value),
    ;

    fn read16(&mut self, addr: u64) -> (value: u16)
        ensures
            final(self).records() == old(self).records(),
            old(self).records() ==> final(self).seen() == old(self).seen() + fetch16(addr, value),
    ;

    fn read32(&mut self, addr: u64) -> (value: u32)
        ensures
            final(self).records() == old(self).records(),
            old(self).records() ==> final(self).seen() == old(self).seen() + fetch32(addr, value),
    ;

    fn write8(&mut self, addr: u64, value: u8)
        ensures
            final(self).records() == old(self).records(),
            old(self).records() ==> final(self).seen() == old(self).seen() + store8(addr, value),
    ;

    fn write16(&mut self, addr: u64, value: u16)
        ensures
            final(self).records() == old(self).records(),
            old(self).records() ==> final(self).seen() == old(self).seen() + store16(addr, value),
    ;

    fn write32(&mut self, addr: u64, value: u32)
        ensures
            final(self).records() == old(self).records(),
            old(self).records() ==> final(self).seen() == old(self).seen() + store32(addr, value),
    ;
}

/// A single 8-bit load that returned `seen`.
pub open spec fn fetch8(addr: u64, seen: u8) -> Seq<Access> {
    seq![Access::Read8 { addr, value: seen }]
}

/// A single 16-bit load that returned `seen`.
pub open spec fn fetch16(addr: u64, seen: u16) -> Seq<Access> {
    seq![Access::Read16 { addr, value: seen }]
}

/// A single 32-bit load that returned `seen`.
pub open spec fn fetch32(addr: u64, seen: u32) -> Seq<Access> {
    seq![Access::Read32 { addr, value: seen }]
}

/// A single 8-bit store of `value`.
pub open spec fn store8(addr: u64, value: u8) -> Seq<Access> {
    seq![Access::Write8 { addr, value }]
}

/// A single 16-bit store of `value`.
pub open spec fn store16(addr: u64, value: u16) -> Seq<Access> {
    seq![Access::Write16 { addr, value }]
}

/// A single 32-bit store of `value`.
pub open spec fn store32(addr: u64, value: u32) -> Seq<Access> {
    seq![Access::Write32 { addr, value }]
}

/// A load that returned `seen`, then a store of `stored` to the same 8-bit
/// register.
pub open spec fn update8(addr: u64, seen: u8, stored: u8) -> Seq<Access> {
    seq![Access::Read8 { addr, value: seen }, Access::Write8 { addr, value: stored }]
}

/// A load that returned `seen`, then a store of `stored` to the same 16-bit
/// register.
pub open spec fn update16(addr: u64, seen: u16, stored: u16) -> Seq<Access> {
    seq![Access::Read16 { addr, value: seen }, Access::Write16 { addr, value: stored }]
}

/// A load that returned `seen`, then a store of `stored` to the same 32-bit
/// register.
pub open spec fn update32(addr: u64, seen: u32, stored: u32) -> Seq<Access> {
    seq![Access::Read32 { addr, value: seen }, Access::Write32 { addr, value: stored }]
}

/// Read-modify-write that turns the bits of `mask` on.
pub open spec fn set_bits8(addr: u64, seen: u8, mask: u8) -> Seq<Access> {
    update8(addr, seen, seen | mask)
}

/// Read-modify-write that turns the bits of `mask` on.
pub open spec fn set_bits16(addr: u64, seen: u16, mask: u16) -> Seq<Access> {
    update16(addr, seen, seen | mask)
}

/// Read-modify-write that turns the bits of `mask` on.
pub open spec fn set_bits32(addr: u64, seen: u32, mask: u32) -> Seq<Access> {
    update32(addr, seen, seen | mask)
}

/// Read-modify-write that turns the bits of `mask` off.
pub open spec fn clear_bits8(addr: u64, seen: u8, mask: u8) -> Seq<Access> {
    update8(addr, seen, seen & !mask)
}

/// Read-modify-write that turns the bits of `mask` off.
pub open spec fn clear_bits16(addr: u64, seen: u16, mask: u16) -> Seq<Access> {
    update16(addr, seen, seen & !mask)
}

/// Read-modify-write that turns the bits of `mask` off.
pub open spec fn clear_bits32(addr: u64, seen: u32, mask: u32) -> Seq<Access> {
    update32(addr, seen, seen & !mask)
}

/// Read-modify-write that replaces the field under `mask` by `value`.
pub open spec fn put_field8(addr: u64, seen: u8, mask: u8, pos: u8, value: u8) -> Seq<Access> {
    update8(addr, seen, crate::bits::insert8(seen, mask, pos, value))
}

/// Read-modify-write that replaces the field under `mask` by `value`.
pub open spec fn put_field16(addr: u64, seen: u16, mask: u16, pos: u16, value: u16) -> Seq<
    Access,
> {
    update16(addr, seen, crate::bits::insert16(seen, mask, pos, value))
}

/// Read-modify-write that replaces the field under `mask` by `value`.
pub open spec fn put_field32(addr: u64, seen: u32, mask: u32, pos: u32, value: u32) -> Seq<
    Access,
> {
    update32(addr, seen, crate::bits::insert32(seen, mask, pos, value))
}

/// One 8-bit load of the same register after another, as many as there are
/// `replies`, each returning the reply in its place.
pub open spec fn spin8(addr: u64, replies: Seq<u8>) -> Seq<Access> {
    Seq::new(replies.len(), |i: int| Access::Read8 { addr, value: replies[i] })
}

/// One 16-bit load of the same register after another, as many as there are
/// `replies`, each returning the reply in its place.
pub open spec fn spin16(addr: u64, replies: Seq<u16>) -> Seq<Access> {
    Seq::new(replies.len(), |i: int| Access::Read16 { addr, value: replies[i] })
}

/// One 32-bit load of the same register after another, as many as there are
/// `replies`, each returning the reply in its place.
pub open spec fn spin32(addr: u64, replies: Seq<u32>) -> Seq<Access> {
    Seq::new(replies.len(), |i: int| Access::Read32 { addr, value: replies[i] })
}

} // verus!
