use vstd::prelude::*;
use crate::bus::Device;

verus! {

/// Bytes of working memory on the processor's bus.
pub const RAM_SIZE: usize = 0x800;

/// A hardware block that the processor's bus hands accesses on to.
#[derive(Clone, Copy, Debug, PartialEq, Eq, Structural)]
pub enum CpuOwner {
    /// The picture unit, through its register window and the transfer register.
    PictureUnit,
    /// The audio unit.
    AudioUnit,
    /// The input controller.
    Controller,
    /// The cartridge.
    Cartridge,
}

/// The owner of one address of the processor's address space.
#[derive(Clone, Copy, Debug, PartialEq, Eq, Structural)]
pub enum CpuTarget {
    /// A cell of working memory.
    Ram { index: u16 },
    /// A hardware block, addressed at `address`.
    Forward { to: CpuOwner, address: u16 },
    /// No owner: reads give zero and writes are dropped.
    OpenBus,
}

/// The outcome of a read on the processor's bus.
#[derive(Clone, Copy, Debug, PartialEq, Eq, Structural)]
pub enum CpuRead {
    /// The bus served the byte itself.
    Data { value: u8 },
    /// The byte is that which `to` gives when read at `address` for `device`.
    Forward { to: CpuOwner, address: u16, device: Device },
}

/// The outcome of a write on the processor's bus.
#[derive(Clone, Copy, Debug, PartialEq, Eq, Structural)]
pub enum CpuWrite {
    /// The bus dealt with the byte itself.
    Done,
    /// The byte `data` is to be written to `to` at `address` for `device`.
    Forward { to: CpuOwner, address: u16, data: u8, device: Device },
}

/// Decoding of the processor's address space. Working memory fills the first
/// 2 KiB and repeats up to `0x2000`; the eight picture-unit registers repeat
/// from `0x2000` up to `0x4000`; `0x4000` to `0x4017` are registers of the
/// audio unit, but for the transfer register `0x4014` of the picture unit and
/// the controller port `0x4016`; the cartridge owns `0x6000` and above; the
/// addresses in between have no owner.
pub open spec fn cpu_target(address: u16) -> CpuTarget {
    if address < 0x2000 {
        CpuTarget::Ram { index: (address % 0x800) as u16 }
    } else if address < 0x4000 {
        CpuTarget::Forward { to: CpuOwner::PictureUnit, address: (0x2000 + address % 8) as u16 }
    } else if address == 0x4014 {
        CpuTarget::Forward { to: CpuOwner::PictureUnit, address }
    } else if address == 0x4016 {
        CpuTarget::Forward { to: CpuOwner::Controller, address }
    } else if address <= 0x4017 {
        CpuTarget::Forward { to: CpuOwner::AudioUnit, address }
    } else if address >= 0x6000 {
        CpuTarget::Forward { to: CpuOwner::Cartridge, address }
    } else {
        CpuTarget::OpenBus
    }
}

/// What a read of `address` for `device` gives while working memory holds `ram`.
pub open spec fn cpu_read(ram: Seq<u8>, address: u16, device: Device) -> CpuRead {
    match cpu_target(address) {
        CpuTarget::Ram { index } => CpuRead::Data { value: ram[index as int] },
        CpuTarget::Forward { to, address } => CpuRead::Forward { to, address, device },
        CpuTarget::OpenBus => CpuRead::Data { value: 0 },
    }
}

/// Working memory after a write of `data` to `address`, where it held `ram`.
pub open spec fn cpu_ram_after_write(ram: Seq<u8>, address: u16, data: u8) -> Seq<u8> {
    match cpu_target(address) {
        CpuTarget::Ram { index } => ram.update(index as int, data),
        _ => ram,
    }
}

/// What a write of `data` to `address` for `device` asks of the hardware
/// blocks. The owner is handed the byte and the origin of the access as they
/// came.
pub open spec fn cpu_write(address: u16, data: u8, device: Device) -> CpuWrite {
    match cpu_target(address) {
        CpuTarget::Forward { to, address } => CpuWrite::Forward { to, address, data, device },
        _ => CpuWrite::Done,
    }
}

/// The bus of the processor: it owns the working memory and decodes every
/// access of the processor's address space.
pub struct CPUBus {
    ram: [u8; 0x800],
}

impl View for CPUBus {
    type V = Seq<u8>;

    /// The contents of working memory.
    closed spec fn view(&self) -> Seq<u8> {
        self.ram@
    }
}

impl CPUBus {
    /// Builds the bus with its working memory cleared.
    pub fn new() -> (bus: CPUBus)
        ensures
            bus@ == Seq::new(RAM_SIZE as nat, |i: int| 0u8),
    {
        CPUBus { ram: [0; 0x800] }
    }

    /// Decodes `address` to its owner.
    pub fn route(address: u16) -> (target: CpuTarget)
        ensures
            target == cpu_target(address),
    {
        match address {
            0x0000..=0x1FFF => {
                assert(address & 0x7FF == address % 0x800) by (bit_vector);
                CpuTarget::Ram { index: address & 0x7FF }
            },
            0x2000..=0x3FFF => {
                assert(0x2000 | (address & 0x7) == 0x2000 + address % 8) by (bit_vector);
                CpuTarget::Forward { to: CpuOwner::PictureUnit, address: 0x2000 | (address & 0x7) }
            },
            0x4000..=0x4013 => CpuTarget::Forward { to: CpuOwner::AudioUnit, address },
            0x4014 => CpuTarget::Forward { to: CpuOwner::PictureUnit, address },
            0x4015 => CpuTarget::Forward { to: CpuOwner::AudioUnit, address },
            0x4016 => CpuTarget::Forward { to: CpuOwner::Controller, address },
            0x4017 => CpuTarget::Forward { to: CpuOwner::AudioUnit, address },
            0x6000..=0xFFFF => CpuTarget::Forward { to: CpuOwner::Cartridge, address },
            _ => CpuTarget::OpenBus,
        }
    }

    /// Reads `address` for `device`. Working memory and unowned addresses are
    /// answered by the bus; every other read is handed on to its owner.
    pub fn read(&self, address: u16, device: Device) -> (read: CpuRead)
        ensures
            self@.len() == RAM_SIZE,
            read == cpu_read(self@, address, device),
    {
        match Self::route(address) {
            CpuTarget::Ram { index } => CpuRead::Data { value: self.ram[index as usize] },
            CpuTarget::Forward { to, address } => CpuRead::Forward { to, address, device },
            CpuTarget::OpenBus => CpuRead::Data { value: 0 },
        }
    }

    /// Writes `data` to `address` for `device`. Working memory takes the byte,
    /// an unowned address drops it, and every other write is handed on to its
    /// owner.
    pub fn write(&mut self, address: u16, data: u8, device: Device) -> (write: CpuWrite)
        ensures
            old(self)@.len() == RAM_SIZE,
            final(self)@.len() == RAM_SIZE,
            final(self)@ == cpu_ram_after_write(old(self)@, address, data),
            write == cpu_write(address, data, device),
    {
        match Self::route(address) {
            CpuTarget::Ram { index } => {
                self.ram[index as usize] = data;
                CpuWrite::Done
            },
            CpuTarget::Forward { to, address } => CpuWrite::Forward { to, address, data, device },
            CpuTarget::OpenBus => CpuWrite::Done,
        }
    }
}

/// Working memory repeats every 2 KiB below `0x2000`: an address of that
/// range and the address any number of times 2 KiB further up, wrapped round
/// at `0x2000`, name the same cell.
pub proof fn lemma_ram_mirrors(address: u16, k: nat)
    requires
        address < 0x2000,
    ensures
        cpu_target(address) == (CpuTarget::Ram { index: (address % 0x800) as u16 }),
        cpu_target(((address + 0x800 * k) % 0x2000) as u16) == cpu_target(address),
        address + 0x800 * k < 0x2000 ==> cpu_target((address + 0x800 * k) as u16) == cpu_target(
            address,
        ),
{
    let raised: int = address + 0x800 * k;
    let wrapped: int = raised % 0x2000;
    // The wrapped address differs from the raised one by a multiple of 8 KiB,
    // and so from the address itself by a multiple of 2 KiB.
    let turns: int = raised / 0x2000;
    assert(raised == 0x2000 * turns + wrapped);
    assert(0 <= wrapped < 0x2000);
    let steps: int = k - 4 * turns;
    assert(wrapped == address + 0x800 * steps);
    assert(wrapped % 0x800 == address % 0x800) by {
        lemma_shift_by_ram_sizes(address as int, steps);
    }
    assert(wrapped as u16 == wrapped);
    if raised < 0x2000 {
        assert(wrapped == raised);
    }
}

/// Moving an address by whole sizes of working memory keeps its cell.
proof fn lemma_shift_by_ram_sizes(address: int, steps: int)
    ensures
        (address + 0x800 * steps) % 0x800 == address % 0x800,
{
    assert((address + 0x800 * steps) % 0x800 == address % 0x800) by (nonlinear_arith);
}

/// Below `0x2000` the cell of an address is the address masked with `0x7FF`,
/// and lies within working memory.
pub proof fn lemma_ram_mask(address: u16)
    requires
        address < 0x2000,
    ensures
        cpu_target(address) == (CpuTarget::Ram { index: address & 0x7FF }),
        (address & 0x7FF) < RAM_SIZE,
{
    assert(address & 0x7FF == address % 0x800) by (bit_vector);
}

/// From `0x2000` up to `0x4000` an address names the picture-unit register
/// given by its low three bits. Two addresses of that range that lie a
/// multiple of eight apart name the same register.
pub proof fn lemma_register_window(address: u16, other: u16)
    requires
        0x2000 <= address < 0x4000,
        0x2000 <= other < 0x4000,
    ensures
        cpu_target(address) == (CpuTarget::Forward {
            to: CpuOwner::PictureUnit,
            address: (0x2000 + (address & 0x7)) as u16,
        }),
        cpu_target(address) == (CpuTarget::Forward {
            to: CpuOwner::PictureUnit,
            address: 0x2000 | (address & 0x7),
        }),
        (address & 0x7) == (other & 0x7) ==> cpu_target(address) == cpu_target(other),
        (address - other) % 8 == 0 ==> cpu_target(address) == cpu_target(other),
{
    assert(address & 0x7 == address % 8) by (bit_vector);
    assert(other & 0x7 == other % 8) by (bit_vector);
    assert(0x2000 | (address & 0x7) == 0x2000 + address % 8) by (bit_vector);
}

/// A byte written to working memory is read back through every mirror of its
/// address, and a write leaves every other cell as it was.
pub proof fn lemma_read_after_write(
    ram: Seq<u8>,
    written: u16,
    data: u8,
    read: u16,
    device: Device,
)
    requires
        ram.len() == RAM_SIZE,
        written < 0x2000,
        read < 0x2000,
    ensures
        cpu_read(cpu_ram_after_write(ram, written, data), read, device) == if read % 0x800
            == written % 0x800 {
            CpuRead::Data { value: data }
        } else {
            cpu_read(ram, read, device)
        },
{
}

/// A write outside of working memory leaves working memory as it was, and a
/// write to working memory or to an address without owner asks nothing of any
/// hardware block.
pub proof fn lemma_write_is_local(ram: Seq<u8>, address: u16, data: u8, device: Device)
    requires
        ram.len() == RAM_SIZE,
    ensures
        address >= 0x2000 ==> cpu_ram_after_write(ram, address, data) == ram,
        cpu_ram_after_write(ram, address, data).len() == ram.len(),
        address < 0x2000 || 0x4018 <= address < 0x6000 <==> cpu_write(address, data, device)
            == CpuWrite::Done,
        0x4018 <= address < 0x6000 <==> cpu_target(address) == CpuTarget::OpenBus,
{
}

/// Every address has one owner, and a mirror owns nothing itself: the cell of
/// an address lies within the 2 KiB of working memory, and the address that a
/// hardware block is handed is one that the bus hands on unchanged.
pub proof fn lemma_targets_are_canonical(address: u16)
    ensures
        match cpu_target(address) {
            CpuTarget::Ram { index } => index < RAM_SIZE && cpu_target(index) == cpu_target(address),
            CpuTarget::Forward { to, address: handed } => cpu_target(handed) == cpu_target(address),
            CpuTarget::OpenBus => 0x4018 <= address < 0x6000,
        },
{
}

/// An access that the bus hands on reaches its owner as it was issued: with
/// the origin that the caller named and, for a write, with the caller's byte,
/// whoever the owner is.
pub proof fn lemma_origin_is_passed_on(ram: Seq<u8>, address: u16, data: u8, device: Device)
    ensures
        cpu_target(address) matches CpuTarget::Forward { to, address: handed } ==> {
            &&& cpu_read(ram, address, device) == (CpuRead::Forward { to, address: handed, device })
            &&& cpu_write(address, data, device) == (CpuWrite::Forward {
                to,
                address: handed,
                data,
                device,
            })
        },
{
}

} // verus!
