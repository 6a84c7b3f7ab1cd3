use vstd::prelude::*;
use crate::bus::Bus;
use crate::cpu::{Cpu, CpuError};
use crate::joypad::{with_key, Joypad, JoypadKey};
use crate::mbc::{new_mbc, MbcError};
use crate::ppu::Ppu;
use crate::rom::Rom;
use crate::screen::screen_bytes;

verus! {

/// The whole console: the CPU and, through its bus, everything else.
pub struct Gb {
    pub cpu: Cpu,
}

impl Gb {
    pub open spec fn wf(&self) -> bool {
        self.cpu.wf()
    }

    /// Builds the console around a cartridge: controller, pixel unit, bus,
    /// CPU. A cartridge whose controller is not supported is refused.
    pub fn new(rom: Rom) -> (r: Result<Gb, MbcError>)
        ensures
            r is Ok <==> crate::mbc::is_supported(rom.mbc_type),
            r is Err ==> r->Err_0 == MbcError::Unsupported(rom.mbc_type),
            r is Ok ==> r->Ok_0.wf() && r->Ok_0.cpu.is_power_on(),
    {
        let mbc = match new_mbc(rom) {
            Ok(m) => m,
            Err(e) => {
                return Err(e);
            },
        };
        let ppu = Ppu::new();
        let bus = Bus::new(ppu, mbc);
        Ok(Gb { cpu: Cpu::new(bus) })
    }

    pub fn reset(&mut self)
        requires
            old(self).wf(),
        ensures
            final(self).wf(),
            final(self).cpu == old(self).cpu.reset_spec(),
    {
        self.cpu.reset();
    }

    /// One CPU step, then as many machine cycles of the peripherals as the
    /// step took; a failed step stops before the peripherals.
    pub fn tick(&mut self) -> (r: Result<(), CpuError>)
        requires
            old(self).wf(),
        ensures
            final(self).wf(),
            exists|mid: Cpu|
                #![trigger old(self).cpu.step_spec(mid, r)]
                {
                    &&& old(self).cpu.step_spec(mid, r)
                    &&& r is Err ==> final(self).cpu == mid
                    &&& r is Ok ==> final(self).cpu == Cpu { bus: final(self).cpu.bus, ..mid }
                    &&& r is Ok ==> final(self).cpu.bus.ticked_times(mid.bus, mid.cycles as nat)
                },
    {
        let r = self.cpu.tick();
        if r.is_err() {
            return r;
        }
        let ghost mid = self.cpu;
        let n = self.cpu.cycles;
        let mut i: u8 = 0;
        while i < n
            invariant
                i <= n,
                n == mid.cycles,
                self.cpu.bus.wf(),
                self.cpu == (Cpu { bus: self.cpu.bus, ..mid }),
                self.cpu.bus.ticked_times(mid.bus, i as nat),
            decreases n - i,
        {
            let ghost before = self.cpu.bus;
            self.cpu.bus.tick();
            assert(before.ticked_times(mid.bus, i as nat) && self.cpu.bus.ticked_from(before));
            i += 1;
        }
        r
    }

    pub fn press(&mut self, key: JoypadKey)
        ensures
            final(self).cpu == (Cpu {
                bus: Bus {
                    joypad: Joypad { int: true, ..with_key(old(self).cpu.bus.joypad, key, true) },
                    ..old(self).cpu.bus
                },
                ..old(self).cpu
            }),
    {
        self.cpu.bus.joypad.press(key);
    }

    pub fn release(&mut self, key: JoypadKey)
        ensures
            final(self).cpu == (Cpu {
                bus: Bus {
                    joypad: with_key(old(self).cpu.bus.joypad, key, false),
                    ..old(self).cpu.bus
                },
                ..old(self).cpu
            }),
    {
        self.cpu.bus.joypad.release(key);
    }

    /// Copies the current frame into `frame` as RGBA bytes.
    pub fn render(&self, frame: &mut Vec<u8>)
        ensures
            final(frame)@ == screen_bytes(self.cpu.bus.ppu.pixels),
    {
        self.cpu.bus.ppu.render(frame);
    }
}

} // verus!
