use vstd::prelude::*;
use crate::mapper::{
    spec_mapper_prg_load, spec_mapper_prg_store, spec_mapper_wf, Mapper, MapperView, Nrom, NromView,
};
use crate::rom::{NesHeader, Rom};

verus! {

/// The CPU-side memory bus: 2 KiB of internal RAM (mirrored through $1FFF)
/// and the cartridge mapper for $6000 and above. The PPU, APU and input
/// registers in between have no collaborator attached in this core, so they
/// read as zero and swallow writes, as the open-bus region does.
#[derive(Debug)]
pub struct NesMemory {
    ram: Vec<u8>,
    mapper: Mapper,
}

/// Abstract bus state: the RAM contents and the mapper state.
#[verifier::ext_equal]
pub ghost struct MemView {
    pub ram: Seq<u8>,
    pub mapper: MapperView,
}

impl View for NesMemory {
    type V = MemView;

    closed spec fn view(&self) -> MemView {
        MemView { ram: self.ram@, mapper: self.mapper@ }
    }
}

/// Structural soundness of the bus: the RAM holds exactly 2 KiB and the
/// mapper is well formed.
pub open spec fn spec_mem_wf(m: MemView) -> bool {
    m.ram.len() == 2048 && spec_mapper_wf(m.mapper)
}

/// What a bus read returns: RAM through the 2 KiB mirror below $2000, zero
/// for the register and open-bus region up to $5FFF, the mapper from $6000.
pub open spec fn spec_bus_read(m: MemView, addr: u16) -> u8 {
    if addr < 0x2000 {
        m.ram[(addr & 0x07ff) as int]
    } else if addr < 0x6000 {
        0
    } else {
        spec_mapper_prg_load(m.mapper, addr)
    }
}

/// What a bus write leaves behind: a RAM cell through the mirror, nothing
/// for the register and open-bus region, a mapper store from $6000.
pub open spec fn spec_bus_write(m: MemView, addr: u16, val: u8) -> MemView {
    if addr < 0x2000 {
        MemView { ram: m.ram.update((addr & 0x07ff) as int, val), ..m }
    } else if addr < 0x6000 {
        m
    } else {
        MemView { mapper: spec_mapper_prg_store(m.mapper, addr, val), ..m }
    }
}

/// Two bytes read little-endian, the second from the following address.
pub open spec fn spec_bus_read_word(m: MemView, addr: u16) -> u16 {
    (spec_bus_read(m, addr) + spec_bus_read(m, ((addr + 1) % 0x10000) as u16) * 0x100) as u16
}

impl NesMemory {
    /// A bus with zeroed RAM and no cartridge: an NROM mapper over an empty
    /// image, whose every read is zero.
    pub fn new() -> (r: NesMemory)
        ensures
            spec_mem_wf(r@),
            r@.ram.len() == 2048,
            forall|i: int| 0 <= i < 2048 ==> r@.ram[i] == 0u8,
            r@.mapper matches MapperView::Nrom(n) && n.prg.len() == 0 && n.chr.len() == 0,
    {
        let rom = Rom {
            header: NesHeader {
                magic: [0x4e, 0x45, 0x53, 0x1a],
                prg_rom_size: 0,
                chr_rom_size: 0,
                flags_6: 0,
                flags_7: 0,
                prg_ram_size: 0,
                flags_9: 0,
                flags_10: 0,
                zero: [0, 0, 0, 0, 0],
            },
            prg: Vec::new(),
            chr: Vec::new(),
        };
        NesMemory { ram: crate::mapper::zero_vec(2048), mapper: Mapper::Nrom(Nrom { rom }) }
    }

    /// A bus with zeroed RAM around the given mapper.
    pub fn with_mapper(mapper: Mapper) -> (r: NesMemory)
        requires
            spec_mapper_wf(mapper@),
        ensures
            spec_mem_wf(r@),
            forall|i: int| 0 <= i < 2048 ==> r@.ram[i] == 0u8,
            r@.mapper == mapper@,
    {
        NesMemory { ram: crate::mapper::zero_vec(2048), mapper }
    }

    /// Zeroes the internal RAM; the mapper keeps its state.
    pub fn reset(&mut self)
        requires
            spec_mem_wf(old(self)@),
        ensures
            spec_mem_wf(final(self)@),
            final(self)@.ram.len() == 2048,
            forall|i: int| 0 <= i < 2048 ==> final(self)@.ram[i] == 0u8,
            final(self)@.mapper == old(self)@.mapper,
    {
        let mut i: usize = 0;
        while i < 2048
            invariant
                i <= 2048,
                self.ram@.len() == 2048,
                self.mapper == old(self).mapper,
                forall|j: int| 0 <= j < i ==> self.ram@[j] == 0u8,
            decreases 2048 - i,
        {
            self.ram.set(i, 0);
            i = i + 1;
        }
    }

    /// Reads one byte from the bus.
    pub fn load(&self, address: u16) -> (r: u8)
        requires
            spec_mem_wf(self@),
        ensures
            r == spec_bus_read(self@, address),
    {
        if address < 0x2000 {
            let idx = (address & 0x07ff) as usize;
            proof {
                assert(address & 0x07ff < 2048) by (bit_vector);
            }
            self.ram[idx]
        } else if address < 0x6000 {
            0
        } else {
            self.mapper.prg_load(address)
        }
    }

    /// Reads one byte from the bus; the name the CPU core uses.
    pub fn fetch(&self, address: u16) -> (r: u8)
        requires
            spec_mem_wf(self@),
        ensures
            r == spec_bus_read(self@, address),
    {
        self.load(address)
    }

    /// Writes one byte to the bus.
    pub fn store(&mut self, address: u16, value: u8)
        requires
            spec_mem_wf(old(self)@),
        ensures
            spec_mem_wf(final(self)@),
            final(self)@ == spec_bus_write(old(self)@, address, value),
    {
        if address < 0x2000 {
            let idx = (address & 0x07ff) as usize;
            proof {
                assert(address & 0x07ff < 2048) by (bit_vector);
            }
            self.ram.set(idx, value);
        } else if address < 0x6000 {
        } else {
            self.mapper.prg_store(address, value);
        }
    }

    /// Two addresses lie on the same 256-byte page exactly when their high
    /// bytes agree.
    pub fn is_same_page(address1: u16, address2: u16) -> (r: bool)
        ensures
            r == ((address1 >> 8) == (address2 >> 8)),
    {
        proof {
            assert(((address1 ^ address2) >> 8 == 0) == ((address1 >> 8) == (address2 >> 8)))
                by (bit_vector);
        }
        (address1 ^ address2) >> 8 == 0
    }
}

/// A value stored to an internal-RAM address is what a load of that address
/// returns immediately afterwards.
pub proof fn lemma_ram_round_trip(m: MemView, addr: u16, val: u8)
    requires
        spec_mem_wf(m),
        addr < 0x2000,
    ensures
        spec_bus_read(spec_bus_write(m, addr, val), addr) == val,
{
    assert(addr & 0x07ff < 2048) by (bit_vector);
}

/// The 2 KiB RAM mirror: a store becomes visible at every address of the
/// region that shares its low eleven bits, $0800, $1000 and $1800 above the
/// stored address among them.
pub proof fn lemma_ram_mirror(m: MemView, addr: u16, alias: u16, val: u8)
    requires
        spec_mem_wf(m),
        addr < 0x2000,
        alias < 0x2000,
        addr & 0x07ff == alias & 0x07ff,
    ensures
        spec_bus_read(spec_bus_write(m, addr, val), alias) == val,
{
    assert(addr & 0x07ff < 2048) by (bit_vector);
}

/// A store leaves every bus address it does not alias unchanged: RAM cells
/// with a different mirror index, and, for a RAM store, the whole mapper
/// region.
pub proof fn lemma_ram_write_other(m: MemView, addr: u16, other: u16, val: u8)
    requires
        spec_mem_wf(m),
        addr < 0x2000,
        other < 0x2000,
        addr & 0x07ff != other & 0x07ff,
    ensures
        spec_bus_read(spec_bus_write(m, addr, val), other) == spec_bus_read(m, other),
{
    assert(addr & 0x07ff < 2048 && other & 0x07ff < 2048) by (bit_vector);
}

} // verus!
