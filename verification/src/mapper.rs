use vstd::prelude::*;
use crate::rom::{Rom, RomError};

verus! {

/// What a mapper reports after a scanline: keep running, or raise an IRQ.
#[derive(Debug, PartialEq, Eq, Structural, Clone, Copy)]
pub enum MapperResult {
    Continue,
    Irq,
}

/// Nametable mirroring arrangements a cartridge can select.
#[derive(Debug, PartialEq, Eq, Structural, Clone, Copy)]
pub enum Mirroring {
    OneScreenLower,
    OneScreenUpper,
    Vertical,
    Horizontal,
}

/// Mapper 0 (NROM): fixed PRG, no registers. A 16 KiB PRG image is mirrored
/// into both halves of $8000-$FFFF; a 32 KiB image fills the region.
#[derive(Debug)]
pub struct Nrom {
    pub rom: Rom,
}

/// Mapper 1 (MMC1/SxROM): four internal registers loaded through a 5-bit
/// serial write protocol, and an 8 KiB CHR RAM buffer.
#[derive(Debug)]
pub struct SxRom {
    pub rom: Rom,
    /// control register ($8000-$9FFF); bits 2-3 select the PRG bank mode
    pub ctrl: u8,
    /// CHR bank 0 register ($A000-$BFFF)
    pub chr_bank_0: u8,
    /// CHR bank 1 register ($C000-$DFFF)
    pub chr_bank_1: u8,
    /// PRG bank register ($E000-$FFFF)
    pub prg_bank: u8,
    /// serial shift register: bits arrive at position `write_count`
    pub accum: u8,
    /// writes received toward the five that commit a register
    pub write_count: u8,
    /// 8 KiB CHR RAM
    pub chr_ram: Vec<u8>,
}

/// The cartridge side of the bus: one of the supported mappers.
#[derive(Debug)]
pub enum Mapper {
    Nrom(Nrom),
    Sx(SxRom),
}

/// Abstract state of an NROM cartridge.
#[verifier::ext_equal]
pub ghost struct NromView {
    pub prg: Seq<u8>,
    pub chr: Seq<u8>,
}

/// Abstract state of an MMC1 cartridge: the PRG image, how many 16 KiB banks
/// the header declares, the four registers, the shift register and its write
/// count, and the CHR RAM contents.
#[verifier::ext_equal]
pub ghost struct SxView {
    pub prg: Seq<u8>,
    pub prg_banks: u8,
    pub ctrl: u8,
    pub chr_bank_0: u8,
    pub chr_bank_1: u8,
    pub prg_bank: u8,
    pub accum: u8,
    pub write_count: u8,
    pub chr_ram: Seq<u8>,
}

/// Abstract state of whichever mapper is plugged in.
#[verifier::ext_equal]
pub ghost enum MapperView {
    Nrom(NromView),
    Sx(SxView),
}

impl View for Nrom {
    type V = NromView;

    open spec fn view(&self) -> NromView {
        NromView { prg: self.rom.prg@, chr: self.rom.chr@ }
    }
}

impl View for SxRom {
    type V = SxView;

    open spec fn view(&self) -> SxView {
        SxView {
            prg: self.rom.prg@,
            prg_banks: self.rom.header.prg_rom_size,
            ctrl: self.ctrl,
            chr_bank_0: self.chr_bank_0,
            chr_bank_1: self.chr_bank_1,
            prg_bank: self.prg_bank,
            accum: self.accum,
            write_count: self.write_count,
            chr_ram: self.chr_ram@,
        }
    }
}

impl View for Mapper {
    type V = MapperView;

    open spec fn view(&self) -> MapperView {
        match self {
            Mapper::Nrom(n) => MapperView::Nrom(n@),
            Mapper::Sx(s) => MapperView::Sx(s@),
        }
    }
}

/// What NROM returns for a CPU read: zero below $8000, otherwise the PRG
/// image indexed through a 32 KiB or mirrored 16 KiB window. An index past
/// the image reads as zero (open bus).
pub open spec fn spec_nrom_prg_load(v: NromView, addr: u16) -> u8 {
    if addr < 0x8000 {
        0
    } else if v.prg.len() > 16384 {
        if (addr & 0x7fff) < v.prg.len() {
            v.prg[(addr & 0x7fff) as int]
        } else {
            0
        }
    } else {
        if (addr & 0x3fff) < v.prg.len() {
            v.prg[(addr & 0x3fff) as int]
        } else {
            0
        }
    }
}

/// The 16 KiB PRG bank MMC1 presents at $8000-$BFFF, from control bits 2-3:
/// 0/1 switch 32 KiB (even bank), 2 fixes the first bank, 3 switches by the
/// PRG bank register.
pub open spec fn spec_sx_bank_low(v: SxView) -> u8 {
    let mode = (v.ctrl >> 2) & 3;
    if mode == 2 {
        0
    } else if mode == 3 {
        v.prg_bank
    } else {
        v.prg_bank & 0xfe
    }
}

/// The 16 KiB PRG bank MMC1 presents at $C000-$FFFF: the odd half of the
/// 32 KiB pair, the PRG bank register, or the fixed last bank.
pub open spec fn spec_sx_bank_high(v: SxView) -> u8 {
    let mode = (v.ctrl >> 2) & 3;
    if mode == 2 {
        v.prg_bank
    } else if mode == 3 {
        if v.prg_banks == 0 {
            0
        } else {
            (v.prg_banks - 1) as u8
        }
    } else {
        (v.prg_bank & 0xfe) | 1
    }
}

/// What MMC1 returns for a CPU read: zero below $8000, otherwise the selected
/// bank's byte at the 16 KiB offset. An index past the image reads as zero.
pub open spec fn spec_sx_prg_load(v: SxView, addr: u16) -> u8 {
    if addr < 0x8000 {
        0
    } else {
        let bank = if addr < 0xc000 {
            spec_sx_bank_low(v)
        } else {
            spec_sx_bank_high(v)
        };
        let idx = bank * 16384 + (addr & 0x3fff);
        if idx < v.prg.len() {
            v.prg[idx as int]
        } else {
            0
        }
    }
}

/// The MMC1 serial write protocol. A write below $8000 does nothing. A value
/// with bit 7 set resets the shift register and forces control bits 2-3 to 3.
/// Otherwise bit 0 of the value enters the shift register at the write-count
/// position; the fifth write commits the accumulated five bits to the
/// register selected by the address and clears the shift register.
pub open spec fn spec_sx_prg_store(v: SxView, addr: u16, val: u8) -> SxView {
    if addr < 0x8000 {
        v
    } else if val & 0x80 != 0 {
        SxView { accum: 0, write_count: 0, ctrl: v.ctrl | 0x0c, ..v }
    } else {
        let acc = v.accum | ((val & 1) << v.write_count);
        if v.write_count >= 4 {
            let committed = if addr <= 0x9fff {
                SxView { ctrl: acc, ..v }
            } else if addr <= 0xbfff {
                SxView { chr_bank_0: acc, ..v }
            } else if addr <= 0xdfff {
                SxView { chr_bank_1: acc, ..v }
            } else {
                SxView { prg_bank: acc, ..v }
            };
            SxView { accum: 0, write_count: 0, ..committed }
        } else {
            SxView { accum: acc, write_count: (v.write_count + 1) as u8, ..v }
        }
    }
}

/// A mapper read on the CPU bus.
pub open spec fn spec_mapper_prg_load(m: MapperView, addr: u16) -> u8 {
    match m {
        MapperView::Nrom(n) => spec_nrom_prg_load(n, addr),
        MapperView::Sx(s) => spec_sx_prg_load(s, addr),
    }
}

/// A mapper write on the CPU bus: NROM ignores it, MMC1 runs its serial
/// protocol.
pub open spec fn spec_mapper_prg_store(m: MapperView, addr: u16, val: u8) -> MapperView {
    match m {
        MapperView::Nrom(n) => MapperView::Nrom(n),
        MapperView::Sx(s) => MapperView::Sx(spec_sx_prg_store(s, addr, val)),
    }
}

/// What a mapper hands the PPU bus: NROM serves its CHR-ROM (zero past the
/// image), MMC1 serves its CHR RAM.
pub open spec fn spec_mapper_chr_load(m: MapperView, addr: u16) -> u8 {
    match m {
        MapperView::Nrom(n) => if addr < n.chr.len() {
            n.chr[addr as int]
        } else {
            0
        },
        MapperView::Sx(s) => s.chr_ram[addr as int],
    }
}

/// What a PPU-bus write leaves behind: NROM ignores it, MMC1 updates its
/// CHR RAM.
pub open spec fn spec_mapper_chr_store(m: MapperView, addr: u16, val: u8) -> MapperView {
    match m {
        MapperView::Nrom(n) => MapperView::Nrom(n),
        MapperView::Sx(s) => MapperView::Sx(
            SxView { chr_ram: s.chr_ram.update(addr as int, val), ..s },
        ),
    }
}

/// Structural soundness of a mapper: MMC1 carries a full 8 KiB CHR RAM and a
/// write count that never reaches five between stores.
pub open spec fn spec_mapper_wf(m: MapperView) -> bool {
    match m {
        MapperView::Nrom(_) => true,
        MapperView::Sx(s) => s.chr_ram.len() == 8192 && s.write_count < 5,
    }
}

impl Nrom {
    pub fn prg_load(&self, addr: u16) -> (r: u8)
        ensures
            r == spec_nrom_prg_load(self@, addr),
    {
        if addr < 0x8000 {
            0
        } else if self.rom.prg.len() > 16384 {
            let idx = (addr & 0x7fff) as usize;
            if idx < self.rom.prg.len() {
                self.rom.prg[idx]
            } else {
                0
            }
        } else {
            let idx = (addr & 0x3fff) as usize;
            if idx < self.rom.prg.len() {
                self.rom.prg[idx]
            } else {
                0
            }
        }
    }

    /// PRG-ROM cannot be written; the store is silently ignored.
    pub fn prg_store(&mut self, addr: u16, val: u8)
        ensures
            *final(self) == *old(self),
    {
    }

    /// CHR-ROM read; an index past the image reads as zero.
    pub fn chr_load(&self, addr: u16) -> (r: u8)
        ensures
            r == (if addr < self@.chr.len() {
                self@.chr[addr as int]
            } else {
                0u8
            }),
    {
        let idx = addr as usize;
        if idx < self.rom.chr.len() {
            self.rom.chr[idx]
        } else {
            0
        }
    }

    /// CHR-ROM cannot be written; the store is silently ignored.
    pub fn chr_store(&mut self, addr: u16, val: u8)
        ensures
            *final(self) == *old(self),
    {
    }

    /// NROM raises no interrupts.
    pub fn next_scanline(&mut self) -> (r: MapperResult)
        ensures
            *final(self) == *old(self),
            r == MapperResult::Continue,
    {
        MapperResult::Continue
    }
}

/// A vector of `len` zero bytes.
pub(crate) fn zero_vec(len: usize) -> (r: Vec<u8>)
    ensures
        r@.len() == len,
        forall|i: int| 0 <= i < len ==> r@[i] == 0u8,
{
    let mut out: Vec<u8> = Vec::new();
    let mut i: usize = 0;
    while i < len
        invariant
            i <= len,
            out@.len() == i,
            forall|j: int| 0 <= j < i ==> out@[j] == 0u8,
        decreases len - i,
    {
        out.push(0);
        i = i + 1;
    }
    out
}

impl SxRom {
    /// A fresh MMC1 board: registers clear, control in fix-last-bank mode
    /// (bits 2-3 set), shift register empty, CHR RAM zeroed.
    pub fn new(rom: Rom) -> (r: SxRom)
        ensures
            r@.prg == rom.prg@,
            r@.prg_banks == rom.header.prg_rom_size,
            r@.ctrl == 0x0c,
            r@.chr_bank_0 == 0,
            r@.chr_bank_1 == 0,
            r@.prg_bank == 0,
            r@.accum == 0,
            r@.write_count == 0,
            r@.chr_ram.len() == 8192,
            forall|i: int| 0 <= i < 8192 ==> r@.chr_ram[i] == 0u8,
            spec_mapper_wf(MapperView::Sx(r@)),
    {
        SxRom {
            rom,
            ctrl: 0x0c,
            chr_bank_0: 0,
            chr_bank_1: 0,
            prg_bank: 0,
            accum: 0,
            write_count: 0,
            chr_ram: zero_vec(8192),
        }
    }

    pub fn prg_load(&self, addr: u16) -> (r: u8)
        ensures
            r == spec_sx_prg_load(self@, addr),
    {
        if addr < 0x8000 {
            return 0;
        }
        let mode = (self.ctrl >> 2) & 3;
        let bank: u8 = if addr < 0xc000 {
            if mode == 2 {
                0
            } else if mode == 3 {
                self.prg_bank
            } else {
                self.prg_bank & 0xfe
            }
        } else {
            if mode == 2 {
                self.prg_bank
            } else if mode == 3 {
                if self.rom.header.prg_rom_size == 0 {
                    0
                } else {
                    self.rom.header.prg_rom_size - 1
                }
            } else {
                (self.prg_bank & 0xfe) | 1
            }
        };
        let idx: usize = bank as usize * 16384 + (addr & 0x3fff) as usize;
        if idx < self.rom.prg.len() {
            self.rom.prg[idx]
        } else {
            0
        }
    }

    /// One step of the serial write protocol; see `spec_sx_prg_store`.
    pub fn prg_store(&mut self, addr: u16, val: u8)
        requires
            spec_mapper_wf(MapperView::Sx(old(self)@)),
        ensures
            final(self)@ == spec_sx_prg_store(old(self)@, addr, val),
            spec_mapper_wf(MapperView::Sx(final(self)@)),
    {
        if addr < 0x8000 {
            return ;
        }
        if (val & 0x80) != 0 {
            self.write_count = 0;
            self.accum = 0;
            self.ctrl = self.ctrl | 0x0c;
            return ;
        }
        let acc = self.accum | ((val & 1) << self.write_count);
        if self.write_count >= 4 {
            if addr <= 0x9fff {
                self.ctrl = acc;
            } else if addr <= 0xbfff {
                self.chr_bank_0 = acc;
            } else if addr <= 0xdfff {
                self.chr_bank_1 = acc;
            } else {
                self.prg_bank = acc;
            }
            self.accum = 0;
            self.write_count = 0;
        } else {
            self.accum = acc;
            self.write_count = self.write_count + 1;
        }
    }

    /// CHR reads go to the private CHR RAM.
    pub fn chr_load(&self, addr: u16) -> (r: u8)
        requires
            addr < 0x2000,
            spec_mapper_wf(MapperView::Sx(self@)),
        ensures
            r == self@.chr_ram[addr as int],
    {
        self.chr_ram[addr as usize]
    }

    /// CHR writes go to the private CHR RAM.
    pub fn chr_store(&mut self, addr: u16, val: u8)
        requires
            addr < 0x2000,
            spec_mapper_wf(MapperView::Sx(old(self)@)),
        ensures
            final(self)@ == (SxView { chr_ram: old(self)@.chr_ram.update(addr as int, val), ..old(self)@ }),
            spec_mapper_wf(MapperView::Sx(final(self)@)),
    {
        self.chr_ram.set(addr as usize, val);
    }

    /// This level of MMC1 support raises no interrupts.
    pub fn next_scanline(&mut self) -> (r: MapperResult)
        ensures
            *final(self) == *old(self),
            r == MapperResult::Continue,
    {
        MapperResult::Continue
    }
}

impl Mapper {
    /// A CPU-bus read through whichever mapper is plugged in.
    pub fn prg_load(&self, addr: u16) -> (r: u8)
        ensures
            r == spec_mapper_prg_load(self@, addr),
    {
        match self {
            Mapper::Nrom(n) => n.prg_load(addr),
            Mapper::Sx(s) => s.prg_load(addr),
        }
    }

    /// A CPU-bus write through whichever mapper is plugged in.
    pub fn prg_store(&mut self, addr: u16, val: u8)
        requires
            spec_mapper_wf(old(self)@),
        ensures
            final(self)@ == spec_mapper_prg_store(old(self)@, addr, val),
            spec_mapper_wf(final(self)@),
    {
        match self {
            Mapper::Nrom(n) => n.prg_store(addr, val),
            Mapper::Sx(s) => s.prg_store(addr, val),
        }
    }

    /// A PPU-bus read through whichever mapper is plugged in.
    pub fn chr_load(&self, addr: u16) -> (r: u8)
        requires
            addr < 0x2000,
            spec_mapper_wf(self@),
        ensures
            r == spec_mapper_chr_load(self@, addr),
    {
        match self {
            Mapper::Nrom(n) => n.chr_load(addr),
            Mapper::Sx(s) => s.chr_load(addr),
        }
    }

    /// A PPU-bus write through whichever mapper is plugged in.
    pub fn chr_store(&mut self, addr: u16, val: u8)
        requires
            addr < 0x2000,
            spec_mapper_wf(old(self)@),
        ensures
            spec_mapper_wf(final(self)@),
            final(self)@ == spec_mapper_chr_store(old(self)@, addr, val),
    {
        match self {
            Mapper::Nrom(n) => n.chr_store(addr, val),
            Mapper::Sx(s) => s.chr_store(addr, val),
        }
    }

    /// Scanline notification from the PPU driver.
    pub fn next_scanline(&mut self) -> (r: MapperResult)
        ensures
            *final(self) == *old(self),
            r == MapperResult::Continue,
    {
        match self {
            Mapper::Nrom(n) => n.next_scanline(),
            Mapper::Sx(s) => s.next_scanline(),
        }
    }
}

/// Chooses the mapper implementation from the ROM's mapper id: 0 is NROM,
/// 1 is MMC1; anything else is `UnsupportedMapper`.
pub fn create_mapper(rom: Rom) -> (r: Result<Mapper, RomError>)
    ensures
        ({
            let id = (rom.header.flags_7 & 0xf0) | (rom.header.flags_6 >> 4);
            &&& id == 0 ==> (r matches Ok(m) && m@ == MapperView::Nrom(
                NromView { prg: rom.prg@, chr: rom.chr@ },
            ))
            &&& id == 1 ==> (r matches Ok(m) && m@ matches MapperView::Sx(s) && s.prg == rom.prg@
                && s.prg_banks == rom.header.prg_rom_size && s.ctrl == 0x0c && s.write_count == 0)
            &&& id != 0 && id != 1 ==> r == Err::<Mapper, RomError>(RomError::UnsupportedMapper(id))
            &&& r matches Ok(m) ==> spec_mapper_wf(m@)
        }),
{
    let id = rom.header.mapper();
    if id == 0 {
        Ok(Mapper::Nrom(Nrom { rom }))
    } else if id == 1 {
        Ok(Mapper::Sx(SxRom::new(rom)))
    } else {
        Err(RomError::UnsupportedMapper(id))
    }
}

impl crate::rom::NesHeader {
    /// The nametable arrangement flags_6 bit 0 selects: vertical mirroring
    /// when set, horizontal when clear.
    pub fn mirroring(&self) -> (r: Mirroring)
        ensures
            r == (if self.flags_6 & 1 != 0 {
                Mirroring::Vertical
            } else {
                Mirroring::Horizontal
            }),
    {
        if self.flags_6 & 1 != 0 {
            Mirroring::Vertical
        } else {
            Mirroring::Horizontal
        }
    }
}


/// Five writes with bit 7 clear to addresses in $E000-$FFFF, starting with
/// the shift register empty, leave the PRG-bank register holding the five
/// written low bits, the first write giving the lowest; the shift register
/// ends empty again.
pub proof fn lemma_mmc1_prg_bank_serial(
    v: SxView,
    a1: u16,
    a2: u16,
    a3: u16,
    a4: u16,
    a5: u16,
    d1: u8,
    d2: u8,
    d3: u8,
    d4: u8,
    d5: u8,
)
    requires
        v.write_count == 0,
        v.accum == 0,
        0xe000 <= a1,
        0xe000 <= a2,
        0xe000 <= a3,
        0xe000 <= a4,
        0xe000 <= a5,
        d1 & 0x80 == 0,
        d2 & 0x80 == 0,
        d3 & 0x80 == 0,
        d4 & 0x80 == 0,
        d5 & 0x80 == 0,
    ensures
        ({
            let v5 = spec_sx_prg_store(
                spec_sx_prg_store(
                    spec_sx_prg_store(spec_sx_prg_store(spec_sx_prg_store(v, a1, d1), a2, d2), a3, d3),
                    a4,
                    d4,
                ),
                a5,
                d5,
            );
            &&& v5.prg_bank == ((d1 & 1) | ((d2 & 1) << 1) | ((d3 & 1) << 2) | ((d4 & 1) << 3) | (
            (d5 & 1) << 4))
            &&& v5.write_count == 0
            &&& v5.accum == 0
        }),
{
    assert(((((0u8 | ((d1 & 1) << 0u8)) | ((d2 & 1) << 1u8)) | ((d3 & 1) << 2u8)) | ((d4 & 1)
        << 3u8)) | ((d5 & 1) << 4u8) == ((d1 & 1) | ((d2 & 1) << 1) | ((d3 & 1) << 2) | ((d4 & 1)
        << 3) | ((d5 & 1) << 4))) by (bit_vector);
}

/// A write with bit 7 set to the cartridge space, wherever the protocol
/// stands, empties the shift register and forces control bits 2-3 to 3, the
/// fix-last-bank PRG mode.
pub proof fn lemma_mmc1_reset_write(v: SxView, addr: u16, val: u8)
    requires
        0x8000 <= addr,
        val & 0x80 != 0,
    ensures
        spec_sx_prg_store(v, addr, val).accum == 0,
        spec_sx_prg_store(v, addr, val).write_count == 0,
        (spec_sx_prg_store(v, addr, val).ctrl >> 2) & 3 == 3,
{
    let c = v.ctrl;
    assert(((c | 0x0c) >> 2) & 3 == 3) by (bit_vector);
}

} // verus!
