//! The whole console: CPU and bus, stepped together.
use vstd::prelude::*;
use crate::gb_cpu::{CPUState, stepCPU, step_spec};
use crate::gb_memory::{MemoryMapState, MemView, stepTimer, tick_spec, power_on_spec};
use crate::gb_lcd::{stepLCD, step_lcd_spec, PaletteColor};
use crate::gb_joypad::{Button, ButtonState};

verus! {

pub const GAMEBOY_SCALE: u32 = 2;

pub struct GameBoyState {
    pub cpu: CPUState,
    pub mem: MemoryMapState,
}

/// The bus after the display controller and the timer have been fed
/// `cycles` cycles.
pub open spec fn devices_spec(m: MemView, cycles: u32) -> MemView {
    let (lcd, req) = step_lcd_spec(m.lcd, m.requestedInterrupts, cycles);
    tick_spec(MemView { lcd: lcd, requestedInterrupts: req, ..m }, cycles)
}

impl GameBoyState {
    /// A powered-on console with no cartridge.
    pub fn new() -> (r: GameBoyState)
        ensures
            r.cpu == CPUState::new_spec(),
            r.mem@ == power_on_spec(),
    {
        GameBoyState { cpu: CPUState::new(), mem: MemoryMapState::new() }
    }

    /// One step of the CPU, then the display controller and the timer fed
    /// the cycles it took. Returns those cycles.
    pub fn step(&mut self) -> (r: u32)
        ensures
            (final(self).cpu, final(self).mem@) == ({
                let (cpu, m) = step_spec(old(self).cpu, old(self).mem@);
                (cpu, devices_spec(m, cpu.instructionCycles))
            }),
            r == final(self).cpu.instructionCycles,
    {
        stepCPU(&mut self.cpu, &mut self.mem);
        let cycles = self.cpu.instructionCycles;
        stepLCD(&mut self.mem.lcd, &mut self.mem.requestedInterrupts, cycles);
        stepTimer(&mut self.mem, cycles);
        cycles
    }

    /// Records a press or a release of a button.
    pub fn set_button(&mut self, button: Button, pressed: bool)
        ensures
            final(self).cpu == old(self).cpu,
            final(self).mem@ == (MemView {
                joypad: old(self).mem.joypad.with_button(
                    button,
                    if pressed {
                        ButtonState::Down
                    } else {
                        ButtonState::Up
                    },
                ),
                ..old(self).mem@
            }),
    {
        let state = if pressed {
            ButtonState::Down
        } else {
            ButtonState::Up
        };
        self.mem.joypad.set_button(button, state);
    }

    /// The last completed frame, row by row.
    pub fn frame_ready(&self) -> (r: &[PaletteColor; 23040])
        ensures
            r@ == self.mem.lcd.screen@,
    {
        &self.mem.lcd.screen
    }
}

} // verus!
