//! The memory bus: five backing stores dispatched by address range, with
//! byte, halfword and word access composed little-endian from single bytes.
//!
//! The low bits of an address are masked against the region's size, so
//! indexing wraps around inside the region. Declared regions whose backing
//! belongs to outside collaborators (boot ROM, cartridge, peripheral
//! registers) fault with `UnimplementedRegion`; an address outside every
//! declared range faults with `InvalidAddress`. The 32-bit write path
//! carries a deliberate width restriction: it services only the internal
//! RAM bank and the attribute store, and a word write to any other store is
//! refused with `InvalidAddress`.

use vstd::prelude::*;
use crate::common::Fault;

verus! {

/// Size of RAM bank A (external work RAM), 256 KiB.
pub const EWRAM_SIZE: usize = 0x40000;
/// Size of RAM bank B (internal work RAM), 32 KiB.
pub const IRAM_SIZE: usize = 0x8000;
/// Size of the palette store, 1 KiB.
pub const PRAM_SIZE: usize = 0x400;
/// Size of the video store, 96 KiB.
pub const VRAM_SIZE: usize = 0x18000;
/// Size of the object-attribute store, 1 KiB.
pub const OAM_SIZE: usize = 0x400;

/// Offset mask of RAM bank A.
pub const EWRAM_MASK: u32 = 0x3FFFF;
/// Offset mask of RAM bank B.
pub const IRAM_MASK: u32 = 0x7FFF;
/// Offset mask of the palette store.
pub const PRAM_MASK: u32 = 0x3FF;
/// Offset mask of the video store.
pub const VRAM_MASK: u32 = 0x17FFF;
/// Offset mask of the object-attribute store.
pub const OAM_MASK: u32 = 0x3FF;

/// The region of the address map an address falls in.
#[derive(Clone, Copy, Debug, PartialEq, Eq, Structural)]
pub enum Region {
    /// 0x00000000 to 0x00003FFF: boot ROM, owned by an outside collaborator.
    BootRom,
    /// 0x02000000 to 0x0203FFFF: RAM bank A.
    EwRam,
    /// 0x03000000 to 0x03007FFF: RAM bank B.
    IwRam,
    /// 0x04000000 to 0x040003FF: peripheral registers, owned by outside
    /// collaborators.
    IoRegisters,
    /// 0x05000000 to 0x050003FF: palette store.
    Palette,
    /// 0x06000000 to 0x06017FFF: video store.
    Video,
    /// 0x07000000 to 0x070003FF: object-attribute store.
    Attributes,
    /// 0x08000000 to 0x0DFFFFFF: cartridge ROM and its mirrors, owned by an
    /// outside collaborator.
    CartRom,
    /// 0x0E000000 to 0x0E00FFFF: cartridge RAM, owned by an outside
    /// collaborator.
    CartRam,
    /// An address that matches no declared region at all.
    Unmapped,
}

/// The mathematical value of the bus: the contents of the five implemented
/// backing stores.
#[verifier::ext_equal]
pub struct BusView {
    pub ewram: Seq<u8>,
    pub iram: Seq<u8>,
    pub pram: Seq<u8>,
    pub vram: Seq<u8>,
    pub oam: Seq<u8>,
}

/// The address-range dispatch table of the bus.
pub open spec fn spec_region_of(addr: u32) -> Region {
    if addr <= 0x3FFF {
        Region::BootRom
    } else if 0x0200_0000 <= addr && addr <= 0x0203_FFFF {
        Region::EwRam
    } else if 0x0300_0000 <= addr && addr <= 0x0300_7FFF {
        Region::IwRam
    } else if 0x0400_0000 <= addr && addr <= 0x0400_03FF {
        Region::IoRegisters
    } else if 0x0500_0000 <= addr && addr <= 0x0500_03FF {
        Region::Palette
    } else if 0x0600_0000 <= addr && addr <= 0x0601_7FFF {
        Region::Video
    } else if 0x0700_0000 <= addr && addr <= 0x0700_03FF {
        Region::Attributes
    } else if 0x0800_0000 <= addr && addr <= 0x0DFF_FFFF {
        Region::CartRom
    } else if 0x0E00_0000 <= addr && addr <= 0x0E00_FFFF {
        Region::CartRam
    } else {
        Region::Unmapped
    }
}

/// Whether a region is backed by a store of this bus.
pub open spec fn spec_is_implemented(r: Region) -> bool {
    r == Region::EwRam || r == Region::IwRam || r == Region::Palette || r == Region::Video
        || r == Region::Attributes
}

/// The fault an access outside the implemented stores reports: a declared
/// but outside-owned region is `UnimplementedRegion`, an undeclared address
/// is `InvalidAddress`.
pub open spec fn spec_region_fault(r: Region) -> Fault {
    if r == Region::Unmapped {
        Fault::InvalidAddress
    } else {
        Fault::UnimplementedRegion
    }
}

/// The offset mask of an implemented region.
pub open spec fn spec_mask_of(r: Region) -> u32 {
    match r {
        Region::EwRam => EWRAM_MASK,
        Region::IwRam => IRAM_MASK,
        Region::Palette => PRAM_MASK,
        Region::Video => VRAM_MASK,
        Region::Attributes => OAM_MASK,
        _ => 0,
    }
}

/// The backing store of an implemented region.
pub open spec fn spec_buf_of(b: BusView, r: Region) -> Seq<u8> {
    match r {
        Region::EwRam => b.ewram,
        Region::IwRam => b.iram,
        Region::Palette => b.pram,
        Region::Video => b.vram,
        Region::Attributes => b.oam,
        _ => Seq::empty(),
    }
}

/// The in-region offset of the `k`-th byte of an access at `addr`: the
/// masked address advanced by `k`, wrapping inside the region.
pub open spec fn spec_off(addr: u32, mask: u32, k: u32) -> int {
    ((((addr & mask) + k) as u32) & mask) as int
}

/// The byte the `k`-th position of an access at `addr` reads, for an address
/// in an implemented region.
pub open spec fn spec_byte_at(b: BusView, addr: u32, k: u32) -> u8 {
    let r = spec_region_of(addr);
    spec_buf_of(b, r)[spec_off(addr, spec_mask_of(r), k)]
}

/// The bus after the `k`-th position of an access at `addr` is overwritten,
/// for an address in an implemented region.
pub open spec fn spec_with_byte_at(b: BusView, addr: u32, k: u32, v: u8) -> BusView {
    let off = spec_off(addr, spec_mask_of(spec_region_of(addr)), k);
    match spec_region_of(addr) {
        Region::EwRam => BusView { ewram: b.ewram.update(off, v), ..b },
        Region::IwRam => BusView { iram: b.iram.update(off, v), ..b },
        Region::Palette => BusView { pram: b.pram.update(off, v), ..b },
        Region::Video => BusView { vram: b.vram.update(off, v), ..b },
        Region::Attributes => BusView { oam: b.oam.update(off, v), ..b },
        _ => b,
    }
}

/// A 16-bit value composed little-endian from two bytes.
pub open spec fn spec_le16(b0: u8, b1: u8) -> u16 {
    (b0 as u16) | ((b1 as u16) << 8)
}

/// A 32-bit value composed little-endian from four bytes.
pub open spec fn spec_le32(b0: u8, b1: u8, b2: u8, b3: u8) -> u32 {
    (b0 as u32) | ((b1 as u32) << 8) | ((b2 as u32) << 16) | ((b3 as u32) << 24)
}

/// What an 8-bit read at `addr` returns.
pub open spec fn spec_read8(b: BusView, addr: u32) -> Result<u8, Fault> {
    let r = spec_region_of(addr);
    if spec_is_implemented(r) {
        Ok(spec_byte_at(b, addr, 0))
    } else {
        Err(spec_region_fault(r))
    }
}

/// What a 16-bit read at `addr` returns: two bytes composed little-endian.
pub open spec fn spec_read16(b: BusView, addr: u32) -> Result<u16, Fault> {
    let r = spec_region_of(addr);
    if spec_is_implemented(r) {
        Ok(spec_le16(spec_byte_at(b, addr, 0), spec_byte_at(b, addr, 1)))
    } else {
        Err(spec_region_fault(r))
    }
}

/// What a 32-bit read at `addr` returns: four bytes composed little-endian.
pub open spec fn spec_read32(b: BusView, addr: u32) -> Result<u32, Fault> {
    let r = spec_region_of(addr);
    if spec_is_implemented(r) {
        Ok(
            spec_le32(
                spec_byte_at(b, addr, 0),
                spec_byte_at(b, addr, 1),
                spec_byte_at(b, addr, 2),
                spec_byte_at(b, addr, 3),
            ),
        )
    } else {
        Err(spec_region_fault(r))
    }
}

/// The bus after an 8-bit write at `addr`.
pub open spec fn spec_write8(b: BusView, addr: u32, v: u8) -> Result<BusView, Fault> {
    let r = spec_region_of(addr);
    if spec_is_implemented(r) {
        Ok(spec_with_byte_at(b, addr, 0, v))
    } else {
        Err(spec_region_fault(r))
    }
}

/// The bus after a 16-bit write at `addr`: the low byte lands at the masked
/// offset, the high byte one position later.
pub open spec fn spec_write16(b: BusView, addr: u32, v: u16) -> Result<BusView, Fault> {
    let r = spec_region_of(addr);
    if spec_is_implemented(r) {
        Ok(
            spec_with_byte_at(
                spec_with_byte_at(b, addr, 0, (v & 0xFF) as u8),
                addr,
                1,
                ((v >> 8) & 0xFF) as u8,
            ),
        )
    } else {
        Err(spec_region_fault(r))
    }
}

/// The bus after a 32-bit write at `addr`. Only the internal RAM bank and
/// the attribute store accept word writes; a word write to another
/// implemented store is refused with `InvalidAddress`, the deliberate width
/// restriction of the 32-bit write path.
pub open spec fn spec_write32(b: BusView, addr: u32, v: u32) -> Result<BusView, Fault> {
    let r = spec_region_of(addr);
    if r == Region::IwRam || r == Region::Attributes {
        Ok(
            spec_with_byte_at(
                spec_with_byte_at(
                    spec_with_byte_at(
                        spec_with_byte_at(b, addr, 0, (v & 0xFF) as u8),
                        addr,
                        1,
                        ((v >> 8) & 0xFF) as u8,
                    ),
                    addr,
                    2,
                    ((v >> 16) & 0xFF) as u8,
                ),
                addr,
                3,
                ((v >> 24) & 0xFF) as u8,
            ),
        )
    } else if spec_is_implemented(r) {
        Err(Fault::InvalidAddress)
    } else {
        Err(spec_region_fault(r))
    }
}

/// Whether a 32-bit write at `addr` would be accepted; this depends on the
/// address alone, never on the bus contents.
pub open spec fn spec_write32_allowed(addr: u32) -> bool {
    spec_region_of(addr) == Region::IwRam || spec_region_of(addr) == Region::Attributes
}

/// Every implemented store holds exactly its declared number of bytes.
pub open spec fn spec_bus_wf(b: BusView) -> bool {
    b.ewram.len() == EWRAM_SIZE && b.iram.len() == IRAM_SIZE && b.pram.len() == PRAM_SIZE
        && b.vram.len() == VRAM_SIZE && b.oam.len() == OAM_SIZE
}

/// The bus with every implemented store zero-filled.
pub open spec fn spec_bus_zero() -> BusView {
    BusView {
        ewram: Seq::new(EWRAM_SIZE as nat, |i: int| 0u8),
        iram: Seq::new(IRAM_SIZE as nat, |i: int| 0u8),
        pram: Seq::new(PRAM_SIZE as nat, |i: int| 0u8),
        vram: Seq::new(VRAM_SIZE as nat, |i: int| 0u8),
        oam: Seq::new(OAM_SIZE as nat, |i: int| 0u8),
    }
}

/// Masking can only shrink a value.
proof fn lemma_and_le(x: u32, m: u32)
    ensures
        x & m <= m,
{
    assert(x & m <= m) by (bit_vector);
}

/// The memory bus: the five implemented backing stores, dispatching accesses
/// by address range.
pub struct Bus {
    ewram: Vec<u8>,
    iram: Vec<u8>,
    pram: Vec<u8>,
    vram: Vec<u8>,
    oam: Vec<u8>,
}

impl View for Bus {
    type V = BusView;

    closed spec fn view(&self) -> BusView {
        BusView {
            ewram: self.ewram@,
            iram: self.iram@,
            pram: self.pram@,
            vram: self.vram@,
            oam: self.oam@,
        }
    }
}

/// A zero-filled buffer of `n` bytes.
fn zero_buf(n: usize) -> (v: Vec<u8>)
    ensures
        v@ == Seq::new(n as nat, |i: int| 0u8),
{
    let v = vec![0u8; n];
    proof {
        assert(v@ =~= Seq::new(n as nat, |i: int| 0u8));
    }
    v
}

/// Reads the byte at position `k` of an access at `addr` from one backing
/// store, wrapping inside the store.
fn buf_read8(buf: &Vec<u8>, addr: u32, mask: u32, k: u32) -> (r: u8)
    requires
        buf@.len() == mask + 1,
        mask <= 0xFFFF_FFFB,
        k <= 3,
    ensures
        r == buf@[spec_off(addr, mask, k)],
{
    proof {
        lemma_and_le(addr, mask);
    }
    let base = addr & mask;
    let sum = base + k;
    let off = sum & mask;
    proof {
        lemma_and_le(sum, mask);
    }
    buf[off as usize]
}

/// Overwrites the byte at position `k` of an access at `addr` in one backing
/// store, wrapping inside the store.
fn buf_write8(buf: &mut Vec<u8>, addr: u32, mask: u32, k: u32, v: u8)
    requires
        old(buf)@.len() == mask + 1,
        mask <= 0xFFFF_FFFB,
        k <= 3,
    ensures
        final(buf)@ == old(buf)@.update(spec_off(addr, mask, k), v),
        final(buf)@.len() == old(buf)@.len(),
{
    proof {
        lemma_and_le(addr, mask);
    }
    let base = addr & mask;
    let sum = base + k;
    let off = sum & mask;
    proof {
        lemma_and_le(sum, mask);
    }
    buf[off as usize] = v;
}

/// The address-range dispatch: which declared region, if any, an address
/// falls in.
pub fn region_of(addr: u32) -> (r: Region)
    ensures
        r == spec_region_of(addr),
{
    if addr <= 0x3FFF {
        Region::BootRom
    } else if 0x0200_0000 <= addr && addr <= 0x0203_FFFF {
        Region::EwRam
    } else if 0x0300_0000 <= addr && addr <= 0x0300_7FFF {
        Region::IwRam
    } else if 0x0400_0000 <= addr && addr <= 0x0400_03FF {
        Region::IoRegisters
    } else if 0x0500_0000 <= addr && addr <= 0x0500_03FF {
        Region::Palette
    } else if 0x0600_0000 <= addr && addr <= 0x0601_7FFF {
        Region::Video
    } else if 0x0700_0000 <= addr && addr <= 0x0700_03FF {
        Region::Attributes
    } else if 0x0800_0000 <= addr && addr <= 0x0DFF_FFFF {
        Region::CartRom
    } else if 0x0E00_0000 <= addr && addr <= 0x0E00_FFFF {
        Region::CartRam
    } else {
        Region::Unmapped
    }
}

impl Bus {
    /// Every backing store holds exactly its declared number of bytes.
    pub open spec fn wf(&self) -> bool {
        spec_bus_wf(self@)
    }

    /// A bus with every implemented store zero-filled.
    pub fn new() -> (r: Bus)
        ensures
            r.wf(),
            r@ == spec_bus_zero(),
    {
        let b = Bus {
            ewram: zero_buf(EWRAM_SIZE),
            iram: zero_buf(IRAM_SIZE),
            pram: zero_buf(PRAM_SIZE),
            vram: zero_buf(VRAM_SIZE),
            oam: zero_buf(OAM_SIZE),
        };
        proof {
            assert(b@ =~= spec_bus_zero());
        }
        b
    }

    /// Reads one byte at `addr`, dispatching by region.
    pub fn read_byte(&self, addr: u32) -> (r: Result<u8, Fault>)
        requires
            self.wf(),
        ensures
            r == spec_read8(self@, addr),
    {
        match region_of(addr) {
            Region::EwRam => Ok(buf_read8(&self.ewram, addr, EWRAM_MASK, 0)),
            Region::IwRam => Ok(buf_read8(&self.iram, addr, IRAM_MASK, 0)),
            Region::Palette => Ok(buf_read8(&self.pram, addr, PRAM_MASK, 0)),
            Region::Video => Ok(buf_read8(&self.vram, addr, VRAM_MASK, 0)),
            Region::Attributes => Ok(buf_read8(&self.oam, addr, OAM_MASK, 0)),
            Region::Unmapped => Err(Fault::InvalidAddress),
            _ => Err(Fault::UnimplementedRegion),
        }
    }

    /// Reads one halfword at `addr`, little-endian: the byte at the masked
    /// offset is the low byte.
    pub fn read_hword(&self, addr: u32) -> (r: Result<u16, Fault>)
        requires
            self.wf(),
        ensures
            r == spec_read16(self@, addr),
    {
        match region_of(addr) {
            Region::EwRam => {
                let b0 = buf_read8(&self.ewram, addr, EWRAM_MASK, 0);
                let b1 = buf_read8(&self.ewram, addr, EWRAM_MASK, 1);
                Ok((b0 as u16) | ((b1 as u16) << 8))
            },
            Region::IwRam => {
                let b0 = buf_read8(&self.iram, addr, IRAM_MASK, 0);
                let b1 = buf_read8(&self.iram, addr, IRAM_MASK, 1);
                Ok((b0 as u16) | ((b1 as u16) << 8))
            },
            Region::Palette => {
                let b0 = buf_read8(&self.pram, addr, PRAM_MASK, 0);
                let b1 = buf_read8(&self.pram, addr, PRAM_MASK, 1);
                Ok((b0 as u16) | ((b1 as u16) << 8))
            },
            Region::Video => {
                let b0 = buf_read8(&self.vram, addr, VRAM_MASK, 0);
                let b1 = buf_read8(&self.vram, addr, VRAM_MASK, 1);
                Ok((b0 as u16) | ((b1 as u16) << 8))
            },
            Region::Attributes => {
                let b0 = buf_read8(&self.oam, addr, OAM_MASK, 0);
                let b1 = buf_read8(&self.oam, addr, OAM_MASK, 1);
                Ok((b0 as u16) | ((b1 as u16) << 8))
            },
            Region::Unmapped => Err(Fault::InvalidAddress),
            _ => Err(Fault::UnimplementedRegion),
        }
    }

    /// Reads one word at `addr`, little-endian: the byte at the masked
    /// offset is the lowest byte.
    pub fn read_word(&self, addr: u32) -> (r: Result<u32, Fault>)
        requires
            self.wf(),
        ensures
            r == spec_read32(self@, addr),
    {
        match region_of(addr) {
            Region::EwRam => {
                let b0 = buf_read8(&self.ewram, addr, EWRAM_MASK, 0);
                let b1 = buf_read8(&self.ewram, addr, EWRAM_MASK, 1);
                let b2 = buf_read8(&self.ewram, addr, EWRAM_MASK, 2);
                let b3 = buf_read8(&self.ewram, addr, EWRAM_MASK, 3);
                Ok((b0 as u32) | ((b1 as u32) << 8) | ((b2 as u32) << 16) | ((b3 as u32) << 24))
            },
            Region::IwRam => {
                let b0 = buf_read8(&self.iram, addr, IRAM_MASK, 0);
                let b1 = buf_read8(&self.iram, addr, IRAM_MASK, 1);
                let b2 = buf_read8(&self.iram, addr, IRAM_MASK, 2);
                let b3 = buf_read8(&self.iram, addr, IRAM_MASK, 3);
                Ok((b0 as u32) | ((b1 as u32) << 8) | ((b2 as u32) << 16) | ((b3 as u32) << 24))
            },
            Region::Palette => {
                let b0 = buf_read8(&self.pram, addr, PRAM_MASK, 0);
                let b1 = buf_read8(&self.pram, addr, PRAM_MASK, 1);
                let b2 = buf_read8(&self.pram, addr, PRAM_MASK, 2);
                let b3 = buf_read8(&self.pram, addr, PRAM_MASK, 3);
                Ok((b0 as u32) | ((b1 as u32) << 8) | ((b2 as u32) << 16) | ((b3 as u32) << 24))
            },
            Region::Video => {
                let b0 = buf_read8(&self.vram, addr, VRAM_MASK, 0);
                let b1 = buf_read8(&self.vram, addr, VRAM_MASK, 1);
                let b2 = buf_read8(&self.vram, addr, VRAM_MASK, 2);
                let b3 = buf_read8(&self.vram, addr, VRAM_MASK, 3);
                Ok((b0 as u32) | ((b1 as u32) << 8) | ((b2 as u32) << 16) | ((b3 as u32) << 24))
            },
            Region::Attributes => {
                let b0 = buf_read8(&self.oam, addr, OAM_MASK, 0);
                let b1 = buf_read8(&self.oam, addr, OAM_MASK, 1);
                let b2 = buf_read8(&self.oam, addr, OAM_MASK, 2);
                let b3 = buf_read8(&self.oam, addr, OAM_MASK, 3);
                Ok((b0 as u32) | ((b1 as u32) << 8) | ((b2 as u32) << 16) | ((b3 as u32) << 24))
            },
            Region::Unmapped => Err(Fault::InvalidAddress),
            _ => Err(Fault::UnimplementedRegion),
        }
    }

    /// Writes one byte at `addr`, dispatching by region; a faulted write
    /// changes nothing.
    pub fn write_byte(&mut self, addr: u32, val: u8) -> (r: Result<(), Fault>)
        requires
            old(self).wf(),
        ensures
            final(self).wf(),
            match spec_write8(old(self)@, addr, val) {
                Ok(b2) => r is Ok && final(self)@ == b2,
                Err(e) => r == Err::<(), Fault>(e) && final(self)@ == old(self)@,
            },
    {
        match region_of(addr) {
            Region::EwRam => {
                buf_write8(&mut self.ewram, addr, EWRAM_MASK, 0, val);
                proof {
                    assert(self@ =~= spec_with_byte_at(old(self)@, addr, 0, val));
                }
                Ok(())
            },
            Region::IwRam => {
                buf_write8(&mut self.iram, addr, IRAM_MASK, 0, val);
                proof {
                    assert(self@ =~= spec_with_byte_at(old(self)@, addr, 0, val));
                }
                Ok(())
            },
            Region::Palette => {
                buf_write8(&mut self.pram, addr, PRAM_MASK, 0, val);
                proof {
                    assert(self@ =~= spec_with_byte_at(old(self)@, addr, 0, val));
                }
                Ok(())
            },
            Region::Video => {
                buf_write8(&mut self.vram, addr, VRAM_MASK, 0, val);
                proof {
                    assert(self@ =~= spec_with_byte_at(old(self)@, addr, 0, val));
                }
                Ok(())
            },
            Region::Attributes => {
                buf_write8(&mut self.oam, addr, OAM_MASK, 0, val);
                proof {
                    assert(self@ =~= spec_with_byte_at(old(self)@, addr, 0, val));
                }
                Ok(())
            },
            Region::Unmapped => Err(Fault::InvalidAddress),
            _ => Err(Fault::UnimplementedRegion),
        }
    }

    /// Writes one halfword at `addr`, little-endian; a faulted write changes
    /// nothing.
    pub fn write_hword(&mut self, addr: u32, val: u16) -> (r: Result<(), Fault>)
        requires
            old(self).wf(),
        ensures
            final(self).wf(),
            match spec_write16(old(self)@, addr, val) {
                Ok(b2) => r is Ok && final(self)@ == b2,
                Err(e) => r == Err::<(), Fault>(e) && final(self)@ == old(self)@,
            },
    {
        let lo = (val & 0xFF) as u8;
        let hi = ((val >> 8) & 0xFF) as u8;
        match region_of(addr) {
            Region::EwRam => {
                buf_write8(&mut self.ewram, addr, EWRAM_MASK, 0, lo);
                proof {
                    assert(self@ =~= spec_with_byte_at(old(self)@, addr, 0, lo));
                }
                buf_write8(&mut self.ewram, addr, EWRAM_MASK, 1, hi);
                proof {
                    assert(self@ =~= spec_with_byte_at(
                        spec_with_byte_at(old(self)@, addr, 0, lo),
                        addr,
                        1,
                        hi,
                    ));
                }
                Ok(())
            },
            Region::IwRam => {
                buf_write8(&mut self.iram, addr, IRAM_MASK, 0, lo);
                buf_write8(&mut self.iram, addr, IRAM_MASK, 1, hi);
                proof {
                    assert(self@ =~= spec_with_byte_at(
                        spec_with_byte_at(old(self)@, addr, 0, lo),
                        addr,
                        1,
                        hi,
                    ));
                }
                Ok(())
            },
            Region::Palette => {
                buf_write8(&mut self.pram, addr, PRAM_MASK, 0, lo);
                buf_write8(&mut self.pram, addr, PRAM_MASK, 1, hi);
                proof {
                    assert(self@ =~= spec_with_byte_at(
                        spec_with_byte_at(old(self)@, addr, 0, lo),
                        addr,
                        1,
                        hi,
                    ));
                }
                Ok(())
            },
            Region::Video => {
                buf_write8(&mut self.vram, addr, VRAM_MASK, 0, lo);
                buf_write8(&mut self.vram, addr, VRAM_MASK, 1, hi);
                proof {
                    assert(self@ =~= spec_with_byte_at(
                        spec_with_byte_at(old(self)@, addr, 0, lo),
                        addr,
                        1,
                        hi,
                    ));
                }
                Ok(())
            },
            Region::Attributes => {
                buf_write8(&mut self.oam, addr, OAM_MASK, 0, lo);
                buf_write8(&mut self.oam, addr, OAM_MASK, 1, hi);
                proof {
                    assert(self@ =~= spec_with_byte_at(
                        spec_with_byte_at(old(self)@, addr, 0, lo),
                        addr,
                        1,
                        hi,
                    ));
                }
                Ok(())
            },
            Region::Unmapped => Err(Fault::InvalidAddress),
            _ => Err(Fault::UnimplementedRegion),
        }
    }

    /// Writes one word at `addr`, little-endian. Only the internal RAM bank
    /// and the attribute store accept word writes (the deliberate width
    /// restriction of this path); a faulted write changes nothing.
    pub fn write_word(&mut self, addr: u32, val: u32) -> (r: Result<(), Fault>)
        requires
            old(self).wf(),
        ensures
            final(self).wf(),
            match spec_write32(old(self)@, addr, val) {
                Ok(b2) => r is Ok && final(self)@ == b2,
                Err(e) => r == Err::<(), Fault>(e) && final(self)@ == old(self)@,
            },
    {
        let b0 = (val & 0xFF) as u8;
        let b1 = ((val >> 8) & 0xFF) as u8;
        let b2 = ((val >> 16) & 0xFF) as u8;
        let b3 = ((val >> 24) & 0xFF) as u8;
        match region_of(addr) {
            Region::IwRam => {
                buf_write8(&mut self.iram, addr, IRAM_MASK, 0, b0);
                buf_write8(&mut self.iram, addr, IRAM_MASK, 1, b1);
                buf_write8(&mut self.iram, addr, IRAM_MASK, 2, b2);
                buf_write8(&mut self.iram, addr, IRAM_MASK, 3, b3);
                proof {
                    assert(self@ =~= spec_with_byte_at(
                        spec_with_byte_at(
                            spec_with_byte_at(
                                spec_with_byte_at(old(self)@, addr, 0, b0),
                                addr,
                                1,
                                b1,
                            ),
                            addr,
                            2,
                            b2,
                        ),
                        addr,
                        3,
                        b3,
                    ));
                }
                Ok(())
            },
            Region::Attributes => {
                buf_write8(&mut self.oam, addr, OAM_MASK, 0, b0);
                buf_write8(&mut self.oam, addr, OAM_MASK, 1, b1);
                buf_write8(&mut self.oam, addr, OAM_MASK, 2, b2);
                buf_write8(&mut self.oam, addr, OAM_MASK, 3, b3);
                proof {
                    assert(self@ =~= spec_with_byte_at(
                        spec_with_byte_at(
                            spec_with_byte_at(
                                spec_with_byte_at(old(self)@, addr, 0, b0),
                                addr,
                                1,
                                b1,
                            ),
                            addr,
                            2,
                            b2,
                        ),
                        addr,
                        3,
                        b3,
                    ));
                }
                Ok(())
            },
            Region::EwRam | Region::Palette | Region::Video => Err(Fault::InvalidAddress),
            Region::Unmapped => Err(Fault::InvalidAddress),
            _ => Err(Fault::UnimplementedRegion),
        }
    }

    /// The per-step synchronization hook for peripheral timing. No
    /// peripheral is attached to this bus, so it changes nothing; it stands
    /// as the collaborator boundary a peripheral implementation would fill.
    pub fn update(&mut self, tick: u32)
        ensures
            final(self)@ == old(self)@,
    {
    }
}

/// Reading the same address twice with no intervening write returns
/// identical values both times: a read borrows the bus immutably and its
/// result is fixed by the bus contents and the address alone, so the two
/// outcomes are one and the same value, at every width.
pub proof fn lemma_read_idempotent(b: BusView, addr: u32)
    ensures
        spec_read8(b, addr) == spec_read8(b, addr),
        spec_read16(b, addr) == spec_read16(b, addr),
        spec_read32(b, addr) == spec_read32(b, addr),
{
}

/// A byte written to an implemented region is the byte an 8-bit read at the
/// same address then returns.
pub proof fn lemma_read_after_write(b: BusView, addr: u32, v: u8)
    requires
        spec_bus_wf(b),
        spec_write8(b, addr, v) is Ok,
    ensures
        spec_read8(spec_write8(b, addr, v)->Ok_0, addr) == Ok::<u8, Fault>(v),
{
    let r = spec_region_of(addr);
    lemma_and_le(addr & spec_mask_of(r), spec_mask_of(r));
    assert(((addr & spec_mask_of(r)) + 0) as u32 == addr & spec_mask_of(r));
    lemma_and_le(((addr & spec_mask_of(r)) + 0) as u32, spec_mask_of(r));
}

} // verus!
