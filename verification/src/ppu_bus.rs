use vstd::prelude::*;
use crate::bus::Device;

verus! {

/// A store that the picture unit's bus hands accesses on to.
#[derive(Clone, Copy, Debug, PartialEq, Eq, Structural)]
pub enum PpuOwner {
    /// The cartridge, which holds the pattern tables.
    Cartridge,
    /// Video memory, which holds the name tables.
    VideoRam,
    /// Palette memory.
    Palette,
}

/// The owner of one address of the picture unit's address space.
#[derive(Clone, Copy, Debug, PartialEq, Eq, Structural)]
pub struct PpuTarget {
    pub to: PpuOwner,
    pub address: u16,
}

/// A read on the picture unit's bus: the byte is that which `to` gives when
/// read at `address` for `device`.
#[derive(Clone, Copy, Debug, PartialEq, Eq, Structural)]
pub struct PpuRead {
    pub to: PpuOwner,
    pub address: u16,
    pub device: Device,
}

/// A write on the picture unit's bus: the byte `data` is to be written to
/// `to` at `address` for `device`.
#[derive(Clone, Copy, Debug, PartialEq, Eq, Structural)]
pub struct PpuWrite {
    pub to: PpuOwner,
    pub address: u16,
    pub data: u8,
    pub device: Device,
}

/// Decoding of the picture unit's address space, which is 16 KiB wide and
/// repeats up to the end of the 16-bit range. The cartridge owns the first
/// 8 KiB; video memory owns `0x2000` to `0x2FFF`, which repeats up to
/// `0x3EFF`; palette memory owns the last 256 addresses.
pub open spec fn ppu_target(address: u16) -> PpuTarget {
    let folded = (address % 0x4000) as u16;
    if folded < 0x2000 {
        PpuTarget { to: PpuOwner::Cartridge, address: folded }
    } else if folded < 0x3000 {
        PpuTarget { to: PpuOwner::VideoRam, address: folded }
    } else if folded < 0x3F00 {
        PpuTarget { to: PpuOwner::VideoRam, address: (folded - 0x1000) as u16 }
    } else {
        PpuTarget { to: PpuOwner::Palette, address: folded }
    }
}

/// The bus of the picture unit. It holds no memory of its own: every access
/// is decoded and handed on to its owner.
pub struct PPUBus {}

impl PPUBus {
    /// Builds the bus.
    pub fn new() -> (bus: PPUBus) {
        PPUBus {  }
    }

    /// Decodes `address` to its owner. An address of `0x4000` or above is
    /// folded into the 16 KiB below and decoded again, once.
    pub fn route(address: u16) -> (target: PpuTarget)
        ensures
            target == ppu_target(address),
        decreases address,
    {
        match address {
            0x0000..=0x1FFF => PpuTarget { to: PpuOwner::Cartridge, address },
            0x2000..=0x3EFF => {
                assert(0x2000 <= address < 0x3000 ==> address & 0x2FFF == address) by (bit_vector);
                assert(0x3000 <= address < 0x3F00 ==> address & 0x2FFF == address - 0x1000)
                    by (bit_vector);
                PpuTarget { to: PpuOwner::VideoRam, address: address & 0x2FFF }
            },
            0x3F00..=0x3FFF => PpuTarget { to: PpuOwner::Palette, address },
            0x4000..=0xFFFF => {
                assert(address & 0x3FFF == address % 0x4000) by (bit_vector);
                Self::route(address & 0x3FFF)
            },
        }
    }

    /// Reads `address` for `device`: the read is handed on to the owner.
    pub fn read(&self, address: u16, device: Device) -> (read: PpuRead)
        ensures
            read == (PpuRead {
                to: ppu_target(address).to,
                address: ppu_target(address).address,
                device,
            }),
    {
        let target = Self::route(address);
        PpuRead { to: target.to, address: target.address, device }
    }

    /// Writes `data` to `address` for `device`: the write is handed on to the
    /// owner.
    pub fn write(&mut self, address: u16, data: u8, device: Device) -> (write: PpuWrite)
        ensures
            write == (PpuWrite {
                to: ppu_target(address).to,
                address: ppu_target(address).address,
                data,
                device,
            }),
    {
        let target = Self::route(address);
        PpuWrite { to: target.to, address: target.address, data, device }
    }
}

/// The picture unit's address space repeats every 16 KiB: an address is
/// decoded as the address masked with `0x3FFF` is, and masking a second time
/// changes nothing.
pub proof fn lemma_fold(address: u16)
    ensures
        ppu_target(address) == ppu_target(address & 0x3FFF),
        (address & 0x3FFF) & 0x3FFF == address & 0x3FFF,
        (address & 0x3FFF) < 0x4000,
        address < 0x4000 ==> address & 0x3FFF == address,
{
    assert(address & 0x3FFF == address % 0x4000) by (bit_vector);
    assert((address & 0x3FFF) & 0x3FFF == address & 0x3FFF) by (bit_vector);
}

/// Below `0x4000` the name tables are addressed by the address masked with
/// `0x2FFF`, and every other address is handed on as it is.
pub proof fn lemma_owner_ranges(address: u16)
    requires
        address < 0x4000,
    ensures
        address < 0x2000 ==> ppu_target(address) == (PpuTarget {
            to: PpuOwner::Cartridge,
            address,
        }),
        0x2000 <= address < 0x3F00 ==> ppu_target(address) == (PpuTarget {
            to: PpuOwner::VideoRam,
            address: address & 0x2FFF,
        }),
        0x2000 <= address < 0x3F00 ==> 0x2000 <= (address & 0x2FFF) < 0x3000,
        0x3F00 <= address ==> ppu_target(address) == (PpuTarget { to: PpuOwner::Palette, address }),
{
    assert(0x2000 <= address < 0x3000 ==> address & 0x2FFF == address) by (bit_vector);
    assert(0x3000 <= address < 0x3F00 ==> address & 0x2FFF == address - 0x1000) by (bit_vector);
}

/// Every address has one owner, and a mirror owns nothing itself: the
/// address that an owner is handed lies in the owner's own range, and is one
/// that the bus hands on unchanged.
pub proof fn lemma_targets_are_canonical(address: u16)
    ensures
        ({
            let target = ppu_target(address);
            &&& ppu_target(target.address) == target
            &&& target.to == PpuOwner::Cartridge <==> target.address < 0x2000
            &&& target.to == PpuOwner::VideoRam <==> 0x2000 <= target.address < 0x3000
            &&& target.to == PpuOwner::Palette <==> 0x3F00 <= target.address < 0x4000
        }),
{
}

} // verus!
