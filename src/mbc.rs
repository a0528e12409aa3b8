use vstd::prelude::*;

verus! {

/// The byte at `i` of a cartridge image; reads past the end of the image
/// see an undriven bus and return 0xFF.
pub open spec fn rom_byte(rom: Seq<u8>, i: int) -> u8 {
    if 0 <= i < rom.len() {
        rom[i]
    } else {
        0xFF
    }
}

fn rom_at(rom: &Vec<u8>, i: usize) -> (r: u8)
    ensures
        r == rom_byte(rom@, i as int),
{
    if i < rom.len() {
        rom[i]
    } else {
        0xFF
    }
}

/// What a cartridge mapper holds, as plain values.
pub struct CartView {
    pub banked: bool,
    pub rom: Seq<u8>,
    pub rom_bank_number: u8,
    pub ram_enable: bool,
    pub banking_mode: u8,
}

impl CartView {
    /// The byte the cartridge drives for a CPU read of `dir` (0x0000..0x7FFF).
    pub open spec fn read(self, dir: int) -> u8 {
        if !self.banked {
            rom_byte(self.rom, dir)
        } else if self.banking_mode != 0 {
            0
        } else if dir <= 0x3FFF {
            rom_byte(self.rom, dir)
        } else {
            rom_byte(self.rom, (dir - 0x4000) + 0x4000 * self.rom_bank_number)
        }
    }

    /// The mapper after a CPU write of `val` to `dir` (0x0000..0x7FFF).
    pub open spec fn write(self, dir: int, val: u8) -> CartView {
        if !self.banked {
            self
        } else if dir < 0x2000 {
            CartView { ram_enable: val == 0x0A, ..self }
        } else if dir < 0x4000 {
            let bank = val % 32;
            CartView { rom_bank_number: if bank == 0 { 1 } else { bank }, ..self }
        } else if dir < 0x6000 {
            self
        } else {
            CartView { banking_mode: val, ..self }
        }
    }
}

/// A cartridge without bank switching: the image is mapped flat.
pub struct MBC0 {
    pub rom: Vec<u8>,
}

/// A cartridge with the simplest bank-switching controller.
pub struct MBC1 {
    pub rom: Vec<u8>,
    pub rom_bank_number: u8,
    pub ram_enable: bool,
    pub banking_mode: u8,
}

impl View for MBC0 {
    type V = CartView;

    open spec fn view(&self) -> CartView {
        CartView {
            banked: false,
            rom: self.rom@,
            rom_bank_number: 1,
            ram_enable: false,
            banking_mode: 0,
        }
    }
}

impl View for MBC1 {
    type V = CartView;

    open spec fn view(&self) -> CartView {
        CartView {
            banked: true,
            rom: self.rom@,
            rom_bank_number: self.rom_bank_number,
            ram_enable: self.ram_enable,
            banking_mode: self.banking_mode,
        }
    }
}

impl MBC0 {
    pub fn new(rom: Vec<u8>) -> (r: MBC0)
        ensures
            r@.rom == rom@,
            !r@.banked,
    {
        MBC0 { rom }
    }

    pub fn read(&self, dir: usize) -> (r: u8)
        ensures
            r == self@.read(dir as int),
    {
        rom_at(&self.rom, dir)
    }

    /// A cartridge without a controller ignores writes.
    pub fn write(&mut self, dir: usize, val: u8)
        ensures
            final(self)@ == old(self)@.write(dir as int, val),
    {
    }
}

impl MBC1 {
    pub fn new(rom: Vec<u8>) -> (r: MBC1)
        ensures
            r@ == (CartView {
                banked: true,
                rom: rom@,
                rom_bank_number: 1,
                ram_enable: false,
                banking_mode: 0,
            }),
    {
        MBC1 { rom, rom_bank_number: 1, ram_enable: false, banking_mode: 0 }
    }

    pub fn read(&self, dir: usize) -> (r: u8)
        requires
            dir <= 0x7FFF,
        ensures
            r == self@.read(dir as int),
    {
        if self.banking_mode == 0 {
            if dir <= 0x3FFF {
                rom_at(&self.rom, dir)
            } else {
                let bank = self.rom_bank_number as usize;
                rom_at(&self.rom, (dir - 0x4000) + 0x4000 * bank)
            }
        } else {
            0
        }
    }

    pub fn write(&mut self, dir: usize, val: u8)
        ensures
            final(self)@ == old(self)@.write(dir as int, val),
    {
        if dir < 0x2000 {
            self.ram_enable = val == 0x0A;
        } else if dir < 0x4000 {
            let bank = val % 32;
            self.rom_bank_number = if bank == 0 { 1 } else { bank };
        } else if dir < 0x6000 {
        } else {
            self.banking_mode = val;
        }
    }
}

/// The mapper a cartridge carries, chosen by the header byte at 0x0147.
pub enum Cartridge {
    NoBanking(MBC0),
    SimpleBanking(MBC1),
}

impl View for Cartridge {
    type V = CartView;

    open spec fn view(&self) -> CartView {
        match self {
            Cartridge::NoBanking(m) => m@,
            Cartridge::SimpleBanking(m) => m@,
        }
    }
}

impl Cartridge {
    pub fn read(&self, dir: usize) -> (r: u8)
        requires
            dir <= 0x7FFF,
        ensures
            r == self@.read(dir as int),
    {
        match self {
            Cartridge::NoBanking(m) => m.read(dir),
            Cartridge::SimpleBanking(m) => m.read(dir),
        }
    }

    pub fn write(&mut self, dir: usize, val: u8)
        ensures
            final(self)@ == old(self)@.write(dir as int, val),
    {
        match self {
            Cartridge::NoBanking(m) => m.write(dir, val),
            Cartridge::SimpleBanking(m) => m.write(dir, val),
        }
    }
}

} // verus!
