use crate::vdp::{pixel, lemma_rendered_pixel_video, Vdp, VdpView};
use vstd::prelude::*;

verus! {

pub const CYCLES_PER_LINE: u64 = 228;

pub const LINES_PER_FRAME: u16 = 262;

/// `CYCLES_PER_LINE * LINES_PER_FRAME`.
pub const FRAME_CYCLES: u64 = 59736;

/// The first line past the visible area: VBlank starts and the frame is drawn.
pub const VBLANK_LINE: u16 = 192;

/// Cycles counted for an instruction that reports none (the CPU is halted).
pub const HALT_CYCLES: u32 = 4;

/// The byte that goes with an interrupt request.
pub const IRQ_DATA: u8 = 0xFF;

/// Frame timing: the current line, the cycles towards the next line and the
/// frame's end, and the line-interrupt down-counter.
pub struct Scheduler {
    pub vcounter: u16,
    pub cycle_accumulator: u64,
    pub line_interrupt_counter: u8,
    pub frame_cycles: u64,
}

/// What the host has to do after a scanline step.
#[derive(PartialEq, Eq, Structural, Clone, Copy, Debug)]
pub struct LineEvents {
    /// Assert a maskable interrupt with `IRQ_DATA`.
    pub irq: bool,
    /// The VDP frame buffer holds a new frame to present.
    pub frame_ready: bool,
}

/// The line after `v`, wrapping at the end of the frame.
pub open spec fn next_line(v: u16) -> u16 {
    if v + 1 >= LINES_PER_FRAME {
        0
    } else {
        (v + 1) as u16
    }
}

/// The V counter that the CPU reads on line `v`: NTSC skips six values.
pub open spec fn hardware_vcounter(v: u16) -> u8 {
    if v <= 218 {
        v as u8
    } else {
        (v - 6) as u8
    }
}

/// The cycles that an instruction reporting `c` cycles is counted for.
pub open spec fn instruction_cycles(c: u32) -> u64 {
    if c == 0 {
        HALT_CYCLES as u64
    } else {
        c as u64
    }
}

impl Scheduler {
    pub open spec fn wf(&self) -> bool {
        self.vcounter < LINES_PER_FRAME
    }

    /// Whether this line step raises the line interrupt: a visible line (or
    /// the first past it) on which the counter has run down.
    pub open spec fn raises_line_interrupt(&self) -> bool {
        self.vcounter <= VBLANK_LINE && self.line_interrupt_counter == 0
    }

    /// The line-interrupt counter after this line step, with `reload` the
    /// value of VDP register 10.
    pub open spec fn next_line_counter(&self, reload: u8) -> u8 {
        if self.vcounter <= VBLANK_LINE {
            if self.line_interrupt_counter == 0 {
                reload
            } else {
                (self.line_interrupt_counter - 1) as u8
            }
        } else {
            reload
        }
    }

    /// Timing at power-on: line 0, nothing counted.
    pub fn new() -> (r: Self)
        ensures
            r.wf(),
            r.vcounter == 0,
            r.cycle_accumulator == 0,
            r.line_interrupt_counter == 0,
            r.frame_cycles == 0,
    {
        Self { vcounter: 0, cycle_accumulator: 0, line_interrupt_counter: 0, frame_cycles: 0 }
    }

    /// Starts counting the cycles of a new frame.
    pub fn begin_frame(&mut self)
        ensures
            *final(self) == (Scheduler { frame_cycles: 0, ..*old(self) }),
    {
        self.frame_cycles = 0;
    }

    /// Whether the cycles of a whole frame have run.
    pub fn frame_complete(&self) -> (r: bool)
        ensures
            r == (self.frame_cycles >= FRAME_CYCLES),
    {
        self.frame_cycles >= FRAME_CYCLES
    }

    /// Counts one instruction that took `cycles` cycles (none: 4) towards the
    /// frame and the next line. Called between line steps, inside a frame.
    pub fn add_cycles(&mut self, cycles: u32)
        requires
            old(self).cycle_accumulator < CYCLES_PER_LINE,
            old(self).frame_cycles < FRAME_CYCLES,
        ensures
            *final(self) == (Scheduler {
                cycle_accumulator: (old(self).cycle_accumulator + instruction_cycles(cycles)) as u64,
                frame_cycles: (old(self).frame_cycles + instruction_cycles(cycles)) as u64,
                ..*old(self)
            }),
    {
        let run: u64 = if cycles == 0 {
            HALT_CYCLES as u64
        } else {
            cycles as u64
        };
        self.frame_cycles = self.frame_cycles + run;
        self.cycle_accumulator = self.cycle_accumulator + run;
    }

    /// Whether a whole line of cycles has accumulated.
    pub fn line_due(&self) -> (r: bool)
        ensures
            r == (self.cycle_accumulator >= CYCLES_PER_LINE),
    {
        self.cycle_accumulator >= CYCLES_PER_LINE
    }

    /// One scanline step: the line interrupt counts down (and raises its flag
    /// when it runs out), the line advances and the V counter follows; on
    /// line 192 VBlank is flagged and the frame rendered. Returns whether an
    /// enabled VDP interrupt is pending, and whether a frame is ready.
    pub fn step_scanline(&mut self, vdp: &mut Vdp) -> (e: LineEvents)
        requires
            old(self).wf(),
            old(self).cycle_accumulator >= CYCLES_PER_LINE,
            old(vdp).wf(),
        ensures
            final(self).wf(),
            final(vdp).wf(),
            final(self).vcounter == next_line(old(self).vcounter),
            final(self).cycle_accumulator == old(self).cycle_accumulator - CYCLES_PER_LINE,
            final(self).frame_cycles == old(self).frame_cycles,
            final(self).line_interrupt_counter == old(self).next_line_counter(
                old(vdp).registers@[10],
            ),
            final(vdp)@ == (VdpView {
                frame_buffer: final(vdp)@.frame_buffer,
                line_interrupt_flag: old(vdp).line_interrupt_flag
                    || old(self).raises_line_interrupt(),
                v_counter: hardware_vcounter(final(self).vcounter),
                h_counter: 0x80,
                vblank_flag: old(vdp).vblank_flag || final(self).vcounter == VBLANK_LINE,
                ..old(vdp)@
            }),
            final(self).vcounter != VBLANK_LINE ==> final(vdp).frame_buffer@
                == old(vdp).frame_buffer@,
            final(self).vcounter == VBLANK_LINE ==> forall|x: int, y: int|
                0 <= x < 256 && 0 <= y < 192 ==> #[trigger] pixel(final(vdp).frame_buffer@, x, y)
                    == old(vdp)@.rendered_pixel(x, y),
            e.frame_ready == (final(self).vcounter == VBLANK_LINE),
            e.irq == ((final(vdp).vblank_flag && old(vdp).registers@[1] & 0x20 != 0)
                || (final(vdp).line_interrupt_flag && old(vdp).registers@[0] & 0x10 != 0)),
    {
        let ghost start = vdp@;
        self.cycle_accumulator = self.cycle_accumulator - CYCLES_PER_LINE;
        let reg0 = vdp.registers[0];
        let reg1 = vdp.registers[1];
        let reg10 = vdp.registers[10];
        if self.vcounter <= VBLANK_LINE {
            if self.line_interrupt_counter == 0 {
                self.line_interrupt_counter = reg10;
                vdp.line_interrupt_flag = true;
            } else {
                self.line_interrupt_counter = self.line_interrupt_counter - 1;
            }
        } else {
            self.line_interrupt_counter = reg10;
        }
        self.vcounter = self.vcounter + 1;
        if self.vcounter >= LINES_PER_FRAME {
            self.vcounter = 0;
        }
        let hw: u8 = if self.vcounter <= 218 {
            self.vcounter as u8
        } else {
            (self.vcounter - 6) as u8
        };
        vdp.v_counter = hw;
        vdp.h_counter = 0x80;
        let frame_ready = self.vcounter == VBLANK_LINE;
        if frame_ready {
            vdp.vblank_flag = true;
            let ghost before = vdp@;
            vdp.render_frame();
            proof {
                lemma_rendered_pixel_video(before, start);
            }
        }
        let vblank_irq = vdp.vblank_flag && (reg1 & 0x20) != 0;
        let line_irq = vdp.line_interrupt_flag && (reg0 & 0x10) != 0;
        LineEvents { irq: vblank_irq || line_irq, frame_ready }
    }
}

} // verus!
