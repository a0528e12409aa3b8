use crate::bus::{interrupt_mask, Bus, BusView, Interrupts};
use crate::cpu::{elapsed, CpuView, CPU};
use crate::mbc::{CartView, Cartridge, MBC0, MBC1};
use vstd::prelude::*;

verus! {

/// Dots (and CPU cycles) in one frame: 456 dots times 154 lines.
pub const CYCLES_PER_FRAME: u64 = 70224;

/// The buttons and directions of the joypad.
#[derive(PartialEq, Eq, Structural, Clone, Copy, Debug)]
pub enum Keys {
    Down,
    Up,
    Left,
    Right,
    Start,
    Select,
    B,
    A,
}

/// Why a cartridge image cannot be loaded.
#[derive(PartialEq, Eq, Structural, Clone, Copy, Debug)]
pub enum LoadError {
    /// The image ends before its header's mapper byte at 0x0147.
    TooShort,
    /// The header names a mapper other than none (0x00) or the simple
    /// bank-switching one (0x01).
    UnsupportedMapper(u8),
}

/// The JOYP line of a key: a direction shares it with a button.
pub open spec fn key_mask(key: Keys) -> u8 {
    match key {
        Keys::Down | Keys::Start => 0x08,
        Keys::Up | Keys::Select => 0x04,
        Keys::Left | Keys::B => 0x02,
        Keys::Right | Keys::A => 0x01,
    }
}

/// JOYP after a key changes: its line reads 0 while pressed (active low).
pub open spec fn joyp_after(prev: u8, key: Keys, pressed: bool) -> u8 {
    if pressed {
        prev & !key_mask(key)
    } else {
        prev | key_mask(key)
    }
}

/// One step of the machine: a CPU step, then the PPU and timer advanced by
/// the cycles it took, then the serial hook: with 0x81 in SC the byte in SB
/// is handed out and SC cleared.
#[verifier::opaque]
pub open spec fn machine_step(c: CpuView) -> (CpuView, Option<u8>) {
    let s = c.step();
    let n = elapsed(c.cycles, s.cycles);
    let s2 = CpuView { bus: s.bus.cycle(n as nat), ..s };
    if s2.read(0xFF02) == 0x81 {
        (s2.store(0xFF02, 0), Some(s2.read(0xFF01)))
    } else {
        (s2, None)
    }
}

pub open spec fn opt_seq(o: Option<u8>) -> Seq<u8> {
    match o {
        Some(b) => seq![b],
        None => Seq::empty(),
    }
}

/// Machine steps from `done` cycles into a frame until a whole frame has
/// run, with the serial bytes handed out on the way.
#[verifier::opaque]
pub open spec fn run_frame(c: CpuView, done: nat) -> (CpuView, Seq<u8>)
    decreases (if done >= CYCLES_PER_FRAME { 0 } else { CYCLES_PER_FRAME - done }),
{
    if done >= CYCLES_PER_FRAME {
        (c, Seq::empty())
    } else {
        let n = elapsed(c.cycles, c.step().cycles);
        if n == 0 {
            (c, Seq::empty())
        } else {
            let (c1, o) = machine_step(c);
            let (c2, out) = run_frame(c1, (done + n) as nat);
            (c2, opt_seq(o) + out)
        }
    }
}

proof fn lemma_run_frame_step(c: CpuView, done: nat, n: nat)
    requires
        done < CYCLES_PER_FRAME,
        n == elapsed(c.cycles, c.step().cycles),
        n > 0,
    ensures
        run_frame(c, done) == (
            run_frame(machine_step(c).0, done + n).0,
            opt_seq(machine_step(c).1) + run_frame(machine_step(c).0, done + n).1,
        ),
{
    reveal(run_frame);
}

proof fn lemma_run_frame_done(c: CpuView, done: nat)
    requires
        done >= CYCLES_PER_FRAME,
    ensures
        run_frame(c, done) == (c, Seq::<u8>::empty()),
{
    reveal(run_frame);
}

pub struct GameBoy {
    pub cpu: CPU,
    pub enable_boot_rom: bool,
}

impl GameBoy {
    pub fn new(bus: Bus, enable_boot_rom: bool) -> (r: GameBoy)
        requires
            bus.wf(),
        ensures
            r.cpu@ == (CpuView {
                regs: Seq::new(8, |i: int| 0u8),
                pc: 0,
                sp: 0,
                bus: BusView { boot_enabled: enable_boot_rom, ..bus@ },
                cycles: 0,
                stop: false,
                halt: false,
                cycles_di: 0,
                cycles_ei: 0,
                ime: false,
                op: 0,
                invalid_op: None,
            }),
            r.cpu@.wf(),
            r.enable_boot_rom == enable_boot_rom,
    {
        GameBoy { cpu: CPU::new(bus.set_enable_boot_rom(enable_boot_rom)), enable_boot_rom }
    }

    /// Puts the cartridge image `rom` in the slot, with the mapper its
    /// header byte 0x0147 names.
    pub fn load_rom(&mut self, rom: Vec<u8>) -> (r: Result<(), LoadError>)
        requires
            old(self).cpu@.wf(),
        ensures
            rom@.len() <= 0x147 ==> r == Err::<(), LoadError>(LoadError::TooShort),
            rom@.len() > 0x147 && rom@[0x147] <= 1 ==> r == Ok::<(), LoadError>(()),
            rom@.len() > 0x147 && rom@[0x147] > 1 ==> r == Err::<(), LoadError>(
                LoadError::UnsupportedMapper(rom@[0x147]),
            ),
            r.is_err() ==> final(self).cpu@ == old(self).cpu@,
            r.is_ok() ==> rom@.len() > 0x147 && rom@[0x147] <= 1 && final(self).cpu@ == (CpuView {
                bus: BusView {
                    cart: Some(
                        CartView {
                            banked: rom@[0x147] == 1,
                            rom: rom@,
                            rom_bank_number: 1,
                            ram_enable: false,
                            banking_mode: 0,
                        },
                    ),
                    ..old(self).cpu@.bus
                },
                ..old(self).cpu@
            }),
            final(self).cpu@.wf(),
            final(self).enable_boot_rom == old(self).enable_boot_rom,
    {
        if rom.len() <= 0x147 {
            return Err(LoadError::TooShort);
        }
        let mbc = rom[0x147];
        match mbc {
            0x00 => self.cpu.bus.set_rom(Some(Cartridge::NoBanking(MBC0::new(rom)))),
            0x01 => self.cpu.bus.set_rom(Some(Cartridge::SimpleBanking(MBC1::new(rom)))),
            _ => {
                return Err(LoadError::UnsupportedMapper(mbc));
            },
        }
        Ok(())
    }

    pub fn reset(&mut self)
        requires
            old(self).cpu@.wf(),
        ensures
            final(self).cpu@ == old(self).cpu@.after_reset(old(self).enable_boot_rom),
            final(self).cpu@.wf(),
            final(self).cpu@.bus.cart == old(self).cpu@.bus.cart,
            final(self).enable_boot_rom == old(self).enable_boot_rom,
    {
        self.cpu.reset(self.enable_boot_rom);
    }

    /// The serial hook: with 0x81 in SC, hands out the byte in SB and
    /// clears SC.
    fn output_temp(&mut self) -> (r: Option<u8>)
        requires
            old(self).cpu@.ready(),
        ensures
            old(self).cpu@.read(0xFF02) == 0x81 ==> final(self).cpu@ == old(self).cpu@.store(0xFF02, 0)
                && r == Some(old(self).cpu@.read(0xFF01)),
            old(self).cpu@.read(0xFF02) != 0x81 ==> final(self).cpu@ == old(self).cpu@ && r
                == None::<u8>,
            final(self).cpu@.ready(),
            final(self).enable_boot_rom == old(self).enable_boot_rom,
    {
        if self.cpu.read(0xFF02) == 0x81 {
            let c = self.cpu.read(0xFF01);
            self.cpu.store(0xFF02, 0);
            Some(c)
        } else {
            None
        }
    }

    /// One machine step; returns the cycles it took and the byte the serial
    /// port handed out, if any.
    pub fn step(&mut self) -> (r: (u64, Option<u8>))
        requires
            old(self).cpu@.ready(),
        ensures
            (final(self).cpu@, r.1) == machine_step(old(self).cpu@),
            r.0 == elapsed(old(self).cpu@.cycles, old(self).cpu@.step().cycles),
            4 <= r.0 <= 32,
            final(self).cpu@.ready(),
            final(self).enable_boot_rom == old(self).enable_boot_rom,
    {
        proof {
            reveal(machine_step);
        }
        let n = self.cpu.cycle();
        self.cpu.bus.cycle(n as u8);
        let out = self.output_temp();
        (n, out)
    }

    /// Runs one frame, 70224 cycles, and returns the bytes the serial port
    /// handed out meanwhile.
    pub fn cycle(&mut self) -> (r: Vec<u8>)
        requires
            old(self).cpu@.ready(),
        ensures
            (final(self).cpu@, r@) == run_frame(old(self).cpu@, 0),
            final(self).cpu@.ready(),
    {
        let ghost c0 = self.cpu@;
        let mut out: Vec<u8> = Vec::new();
        let mut cycles: u64 = 0;
        while cycles < CYCLES_PER_FRAME
            invariant
                self.cpu@.ready(),
                cycles < CYCLES_PER_FRAME + 32,
                run_frame(c0, 0).0 == run_frame(self.cpu@, cycles as nat).0,
                run_frame(c0, 0).1 == out@ + run_frame(self.cpu@, cycles as nat).1,
            decreases CYCLES_PER_FRAME + 32 - cycles,
        {
            let ghost before = self.cpu@;
            let (n, o) = self.step();
            proof {
                lemma_run_frame_step(before, cycles as nat, n as nat);
            }
            let ghost out0 = out@;
            match o {
                Some(b) => out.push(b),
                None => {},
            }
            proof {
                assert(out0 + (opt_seq(o) + run_frame(self.cpu@, (cycles + n) as nat).1) =~= out@
                    + run_frame(self.cpu@, (cycles + n) as nat).1);
            }
            cycles = cycles + n;
        }
        proof {
            lemma_run_frame_done(self.cpu@, cycles as nat);
        }
        assert(out@ + Seq::<u8>::empty() =~= out@);
        out
    }

    /// Changes the state of a key: its JOYP line is set or cleared, and the
    /// joypad interrupt requested.
    pub fn set_input(&mut self, key: Keys, pressed: bool)
        requires
            old(self).cpu@.ready(),
        ensures
            final(self).cpu@ == (CpuView {
                bus: (BusView {
                    io: old(self).cpu@.bus.io.update(
                        0,
                        joyp_after(old(self).cpu@.read(0xFF00), key, pressed),
                    ),
                    ..old(self).cpu@.bus
                }).request(interrupt_mask(Interrupts::Joypad)),
                ..old(self).cpu@
            }),
            final(self).cpu@.ready(),
    {
        let prev_joyp = self.cpu.bus.read(0xFF00);
        let mask: u8 = match key {
            Keys::Down | Keys::Start => 0x08,
            Keys::Up | Keys::Select => 0x04,
            Keys::Left | Keys::B => 0x02,
            Keys::Right | Keys::A => 0x01,
        };
        let val = if pressed {
            prev_joyp & !mask
        } else {
            prev_joyp | mask
        };
        self.cpu.bus.set_joyp(val);
        self.cpu.bus.set_int(Interrupts::Joypad);
    }
}

} // verus!
