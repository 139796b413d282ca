//! The host-facing machine: it owns the CPU (and through it the bus and
//! devices) and the 160x144 ARGB frame buffer, advances whole frames, and
//! takes key events.

use vstd::prelude::*;

use crate::bus::BusV;
use crate::cpu::{Cpu, CpuV, cpu_wf, step_s};
use crate::gpu::{GpuMode, screen_s, HEIGHT, WIDTH};
use crate::joypad::{key_bit, key_is_direction, Joypad, JoypadKey};

verus! {

/// One machine step budget that spans several whole frames: a frame is
/// 70,224 cycles and every instruction costs at least four, so a frame
/// begins its vertical blank well within this many steps unless the
/// program itself holds the line counter back.
pub const FRAME_STEP_BUDGET: u32 = 70224;


/// The machine stepped out of an initial vertical blank: stepping stops
/// when the phase leaves VBlank or the fuel runs out, and returns the
/// remaining fuel with the state.
pub open spec fn leave_vblank_s(c: CpuV, fuel: nat) -> Result<(CpuV, nat), ()>
    decreases fuel,
{
    if fuel == 0 || !(c.bus.gpu.mode is VBlank) {
        Ok((c, fuel))
    } else {
        match step_s(c) {
            Err(()) => Err(()),
            Ok(c2) => leave_vblank_s(c2, (fuel - 1) as nat),
        }
    }
}

/// The machine stepped up to the next vertical blank: stepping stops when
/// the phase reaches VBlank or the fuel runs out.
pub open spec fn reach_vblank_s(c: CpuV, fuel: nat) -> Result<(CpuV, nat), ()>
    decreases fuel,
{
    if fuel == 0 || c.bus.gpu.mode is VBlank {
        Ok((c, fuel))
    } else {
        match step_s(c) {
            Err(()) => Err(()),
            Ok(c2) => reach_vblank_s(c2, (fuel - 1) as nat),
        }
    }
}

/// One whole frame of stepping: leave an initial vertical blank behind,
/// then step until the next one begins, all within `fuel` steps. The
/// result is the machine standing at the start of its vertical blank;
/// a failing step fails the frame, as does exhausting the fuel short of
/// the blank.
pub open spec fn drive_s(c: CpuV, fuel: nat) -> Result<CpuV, ()> {
    match leave_vblank_s(c, fuel) {
        Err(()) => Err(()),
        Ok((c1, f1)) => match reach_vblank_s(c1, f1) {
            Err(()) => Err(()),
            Ok((c2, _)) => {
                if c2.bus.gpu.mode is VBlank {
                    Ok(c2)
                } else {
                    Err(())
                }
            },
        },
    }
}

/// The machine: the CPU with its bus, and the frame buffer the host
/// displays.
pub struct Vm {
    pub cpu: Cpu,
    /// 160x144 ARGB words, row-major.
    pub buffer: Vec<u32>,
}

/// The machine is well formed when its CPU is and the frame buffer has
/// its fixed size.
pub open spec fn vm_wf(m: Vm) -> bool {
    &&& cpu_wf(m.cpu@)
    &&& m.buffer@.len() == WIDTH * HEIGHT
}

impl Vm {
    /// Builds the machine around a cartridge image, with a white frame
    /// buffer.
    pub fn new(binary: Vec<u8>) -> (r: Vm)
        requires
            binary.len() <= 0x8000,
        ensures
            r.cpu@ == (CpuV {
                regs: crate::cpu::regs_zero(),
                sp: 0,
                pc: 0x0100,
                bus: crate::bus::bus_reset_s(binary@),
                interrupt_state: crate::cpu::InterruptState::IDisable,
            }),
            r.buffer@ == Seq::new((WIDTH * HEIGHT) as nat, |i: int| 0u32),
            vm_wf(r),
    {
        let mut buffer: Vec<u32> = Vec::new();
        while buffer.len() < WIDTH * HEIGHT
            invariant
                buffer@.len() <= WIDTH * HEIGHT,
                buffer@ == Seq::new(buffer@.len(), |i: int| 0u32),
            decreases WIDTH * HEIGHT - buffer.len(),
        {
            buffer.push(0);
            proof {
                assert(buffer@ =~= Seq::new(buffer@.len(), |i: int| 0u32));
            }
        }
        Vm { cpu: Cpu::new(binary), buffer }
    }

    /// Runs one machine step, as `step_s` describes.
    pub fn step(&mut self) -> (r: Result<(), ()>)
        requires
            vm_wf(*old(self)),
        ensures
            vm_wf(*final(self)),
            final(self).buffer@ == old(self).buffer@,
            match step_s(old(self).cpu@) {
                Ok(c) => r is Ok && final(self).cpu@ == c,
                Err(()) => r is Err,
            },
    {
        self.cpu.step()
    }

    /// Renders the current picture-unit state into the frame buffer, as
    /// `screen_s` describes.
    pub fn render(&mut self)
        requires
            vm_wf(*old(self)),
        ensures
            vm_wf(*final(self)),
            (final(self).cpu@.bus.gpu, final(self).buffer@) == screen_s(
                old(self).cpu@.bus.gpu,
                old(self).buffer@,
            ),
            final(self).cpu@ == (CpuV {
                bus: BusV { gpu: final(self).cpu@.bus.gpu, ..old(self).cpu@.bus },
                ..old(self).cpu@
            }),
    {
        self.cpu.bus.gpu.build_screen(&mut self.buffer);
        proof {
            if old(self).cpu@.bus.gpu.lcdc.obj_display {
                crate::gpu::lemma_sprites_pass_len(
                    screen_s(old(self).cpu@.bus.gpu, old(self).buffer@).0,
                    if old(self).cpu@.bus.gpu.lcdc.bg_display {
                        crate::gpu::bg_buffer_s(old(self).cpu@.bus.gpu, old(self).buffer@)
                    } else {
                        old(self).buffer@
                    },
                    40,
                );
            }
        }
    }

    /// Steps the machine until the picture unit enters its vertical
    /// blank, then renders the frame buffer, which the host reads
    /// afterwards; the whole effect is `drive_s` followed by `screen_s`.
    /// An initial vertical blank is first left behind so the call spans
    /// one real frame boundary. Fails exactly where `drive_s` does: on an
    /// undecodable instruction or an unroutable access, or should the
    /// step budget elapse with no vertical blank reached, which a program
    /// can only cause by writing the line counter register every frame.
    pub fn advance_frame(&mut self) -> (r: Result<(), ()>)
        requires
            vm_wf(*old(self)),
        ensures
            vm_wf(*final(self)),
            match drive_s(old(self).cpu@, FRAME_STEP_BUDGET as nat) {
                Ok(c) => r is Ok && (final(self).cpu@.bus.gpu, final(self).buffer@) == screen_s(
                    c.bus.gpu,
                    old(self).buffer@,
                ) && final(self).cpu@ == (CpuV {
                    bus: BusV { gpu: final(self).cpu@.bus.gpu, ..c.bus },
                    ..c
                }),
                Err(()) => r is Err,
            },
            r is Ok ==> final(self).cpu@.bus.gpu.mode is VBlank,
    {
        let ghost c0 = self.cpu@;
        let ghost buf0 = self.buffer@;
        let mut fuel: u32 = FRAME_STEP_BUDGET;
        while fuel > 0 && matches!(self.cpu.bus.gpu.mode, GpuMode::VBlank)
            invariant
                vm_wf(*self),
                c0 == old(self).cpu@,
                self.buffer@ == buf0,
                leave_vblank_s(c0, FRAME_STEP_BUDGET as nat) == leave_vblank_s(
                    self.cpu@,
                    fuel as nat,
                ),
            decreases fuel,
        {
            let ghost pre = self.cpu@;
            match self.step() {
                Ok(()) => {},
                Err(()) => {
                    proof {
                        assert(leave_vblank_s(pre, fuel as nat) is Err);
                        assert(drive_s(c0, FRAME_STEP_BUDGET as nat) is Err);
                    }
                    return Err(());
                },
            }
            fuel = fuel - 1;
            proof {
                assert(leave_vblank_s(pre, (fuel + 1) as nat) == leave_vblank_s(
                    self.cpu@,
                    fuel as nat,
                ));
            }
        }
        proof {
            assert(leave_vblank_s(self.cpu@, fuel as nat) == Ok::<(CpuV, nat), ()>(
                (self.cpu@, fuel as nat),
            ));
        }
        let ghost c1 = self.cpu@;
        let ghost f1 = fuel as nat;
        while fuel > 0 && !matches!(self.cpu.bus.gpu.mode, GpuMode::VBlank)
            invariant
                vm_wf(*self),
                c0 == old(self).cpu@,
                self.buffer@ == buf0,
                leave_vblank_s(c0, FRAME_STEP_BUDGET as nat) == Ok::<(CpuV, nat), ()>((c1, f1)),
                reach_vblank_s(c1, f1) == reach_vblank_s(self.cpu@, fuel as nat),
            decreases fuel,
        {
            let ghost pre = self.cpu@;
            match self.step() {
                Ok(()) => {},
                Err(()) => {
                    proof {
                        assert(reach_vblank_s(pre, fuel as nat) is Err);
                        assert(drive_s(c0, FRAME_STEP_BUDGET as nat) is Err);
                    }
                    return Err(());
                },
            }
            fuel = fuel - 1;
            proof {
                assert(reach_vblank_s(pre, (fuel + 1) as nat) == reach_vblank_s(
                    self.cpu@,
                    fuel as nat,
                ));
            }
        }
        proof {
            assert(reach_vblank_s(self.cpu@, fuel as nat) == Ok::<(CpuV, nat), ()>(
                (self.cpu@, fuel as nat),
            ));
        }
        if matches!(self.cpu.bus.gpu.mode, GpuMode::VBlank) {
            proof {
                assert(drive_s(c0, FRAME_STEP_BUDGET as nat) == Ok::<CpuV, ()>(self.cpu@));
            }
            self.render();
            Ok(())
        } else {
            proof {
                assert(drive_s(c0, FRAME_STEP_BUDGET as nat) is Err);
            }
            Err(())
        }
    }

    /// Records a key press in the joypad matrix.
    pub fn press(&mut self, key: JoypadKey)
        ensures
            final(self).cpu@ == (CpuV {
                bus: BusV {
                    joypad: (if key_is_direction(key) {
                        Joypad {
                            p14: old(self).cpu@.bus.joypad.p14 & !key_bit(key),
                            ..old(self).cpu@.bus.joypad
                        }
                    } else {
                        Joypad {
                            p15: old(self).cpu@.bus.joypad.p15 & !key_bit(key),
                            ..old(self).cpu@.bus.joypad
                        }
                    }),
                    ..old(self).cpu@.bus
                },
                ..old(self).cpu@
            }),
            final(self).buffer@ == old(self).buffer@,
    {
        self.cpu.bus.joypad.presskey(key);
    }

    /// Records a key release in the joypad matrix.
    pub fn release(&mut self, key: JoypadKey)
        ensures
            final(self).cpu@ == (CpuV {
                bus: BusV {
                    joypad: (if key_is_direction(key) {
                        Joypad {
                            p14: old(self).cpu@.bus.joypad.p14 | key_bit(key),
                            ..old(self).cpu@.bus.joypad
                        }
                    } else {
                        Joypad {
                            p15: old(self).cpu@.bus.joypad.p15 | key_bit(key),
                            ..old(self).cpu@.bus.joypad
                        }
                    }),
                    ..old(self).cpu@.bus
                },
                ..old(self).cpu@
            }),
            final(self).buffer@ == old(self).buffer@,
    {
        self.cpu.bus.joypad.releasekey(key);
    }
}

} // verus!
