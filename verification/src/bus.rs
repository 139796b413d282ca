//! The memory bus: address-range dispatch over storage regions and the
//! memory-mapped devices, the interrupt latches, and DMA.

use vstd::prelude::*;

use crate::gpu::{Gpu, GpuV, gpu_wf, gpu_load_s, gpu_store_s, gpu_reset_s, lcdc_of_byte, lcdc_value, LCDC,
    VRAM_START, VRAM_END, OAM_START, OAM_END};
use crate::joypad::{Joypad, joypad_read_s, JOYPAD_ADDR};
use crate::memory::{Memory, MemV, Permission, mem_load_s, mem_store_s};
use crate::timer::{Timer, timer_wf, timer_load_s, timer_store_s, TIMER_START, TIMER_END};

verus! {

/// One bit per interrupt source, as latched at 0xFF0F (pending) and 0xFFFF
/// (enabled): bit 0 VBlank, bit 1 LCD-STAT, bit 2 Timer, bit 3 Serial,
/// bit 4 Joypad.
#[derive(Debug, Default, Clone, Copy, PartialEq, Eq, Structural)]
pub struct InterruptFlag {
    pub vblank: bool,
    pub lcdc: bool,
    pub timer: bool,
    pub serial: bool,
    pub joypad: bool,
}

/// The numeric value of an interrupt latch byte.
pub open spec fn interrupt_value(f: InterruptFlag) -> u8 {
    ((if f.vblank { 0x01u8 } else { 0u8 }) + (if f.lcdc { 0x02u8 } else { 0u8 }) + (if f.timer {
        0x04u8
    } else {
        0u8
    }) + (if f.serial { 0x08u8 } else { 0u8 }) + (if f.joypad { 0x10u8 } else { 0u8 })) as u8
}

/// The latch bits encoded by a byte.
pub open spec fn interrupt_of_byte(byte: u8) -> InterruptFlag {
    InterruptFlag {
        vblank: byte & 0x01 != 0,
        lcdc: byte & 0x02 != 0,
        timer: byte & 0x04 != 0,
        serial: byte & 0x08 != 0,
        joypad: byte & 0x10 != 0,
    }
}

impl InterruptFlag {
    /// Encodes the latch into its byte layout.
    pub fn to_byte(&self) -> (r: u8)
        ensures
            r == interrupt_value(*self),
    {
        (if self.vblank { 0x01u8 } else { 0u8 }) + (if self.lcdc { 0x02u8 } else { 0u8 })
            + (if self.timer { 0x04u8 } else { 0u8 }) + (if self.serial { 0x08u8 } else { 0u8 })
            + (if self.joypad { 0x10u8 } else { 0u8 })
    }

    /// Decodes a latch byte; bits 5..7 are ignored.
    pub fn from_byte(byte: u8) -> (r: InterruptFlag)
        ensures
            r == interrupt_of_byte(byte),
    {
        InterruptFlag {
            vblank: byte & 0x01 != 0,
            lcdc: byte & 0x02 != 0,
            timer: byte & 0x04 != 0,
            serial: byte & 0x08 != 0,
            joypad: byte & 0x10 != 0,
        }
    }
}

/// The capability set of an addressable bus client: byte load, byte store,
/// and the inclusive address range it answers for.
pub trait Device {
    fn load(&self, addr: u16) -> Result<u8, ()>;

    fn store(&mut self, addr: u16, value: u8) -> Result<(), ()>;

    fn range(&self) -> (u16, u16);
}

/// The mathematical value of the whole bus.
#[verifier::ext_equal]
pub struct BusV {
    pub cartridge: MemV,
    pub ram: MemV,
    pub hram: MemV,
    pub gpu: GpuV,
    pub timer: Timer,
    pub joypad: Joypad,
    pub interruptenb: InterruptFlag,
}

/// The bus: the storage regions, the memory-mapped devices, and the
/// interrupt-enable latch.
pub struct Bus {
    /// 0x0000..=0x7FFF, read-only.
    pub cartridge: Memory,
    /// Work RAM, 0xC000..=0xDFFF.
    pub ram: Memory,
    /// High RAM, 0xFF80..=0xFFFE.
    pub hram: Memory,
    /// The unusable hole 0xFEA0..=0xFEFF: reads 0, writes ignored.
    pub unusable: Memory,
    pub gpu: Gpu,
    pub timer: Timer,
    pub joypad: Joypad,
    /// IE, the interrupt-enable latch at 0xFFFF.
    pub interruptenb: InterruptFlag,
}

impl View for Bus {
    type V = BusV;

    open spec fn view(&self) -> BusV {
        BusV {
            cartridge: self.cartridge@,
            ram: self.ram@,
            hram: self.hram@,
            gpu: self.gpu@,
            timer: self.timer,
            joypad: self.joypad,
            interruptenb: self.interruptenb,
        }
    }
}

/// Well-formedness: the regions sit at their architected bases with their
/// architected sizes and permissions, and the devices are well formed.
pub open spec fn bus_wf(b: BusV) -> bool {
    &&& b.cartridge.base == 0 && b.cartridge.data.len() == 0x8000 && b.cartridge.perm
        is ReadOnly
    &&& b.ram.base == 0xc000 && b.ram.data.len() == 0x2000 && b.ram.perm is Normal
    &&& b.hram.base == 0xff80 && b.hram.data.len() == 0x7f && b.hram.perm is Normal
    &&& gpu_wf(b.gpu)
    &&& timer_wf(b.timer)
}

/// The pending-interrupt byte at 0xFF0F, derived from the VBlank and timer
/// request latches.
pub open spec fn pending_value(b: BusV) -> u8 {
    ((if b.gpu.is_interrupt { 0x01u8 } else { 0u8 }) + (if b.timer.is_interrupt {
        0x04u8
    } else {
        0u8
    }) ) as u8
}

/// Whether an address names a decoded I/O register: serial, sound, or the
/// picture unit's register file. Stores to these are accepted (and routed
/// where a register exists); loads return the register or 0.
pub open spec fn io_known(addr: u16) -> bool {
    ||| addr == 0xff01
    ||| addr == 0xff02
    ||| (0xff10 <= addr <= 0xff14)
    ||| (0xff16 <= addr <= 0xff1e)
    ||| (0xff20 <= addr <= 0xff26)
    ||| (0xff30 <= addr <= 0xff3f)
    ||| (0xff40 <= addr <= 0xff44)
    ||| addr == 0xff46
    ||| (0xff47 <= addr <= 0xff4b)
    ||| addr == 0xff7f
}

/// What a bus load returns: the storage regions and devices by address
/// range, the interrupt latches, the decoded picture-unit registers, 0 for
/// decoded-but-inert registers, and failure outside every region.
pub open spec fn bus_load_s(b: BusV, addr: u16) -> Result<u8, ()> {
    if addr <= 0x7fff {
        mem_load_s(b.cartridge, addr)
    } else if 0xc000 <= addr <= 0xdfff {
        mem_load_s(b.ram, addr)
    } else if 0xff80 <= addr <= 0xfffe {
        mem_load_s(b.hram, addr)
    } else if 0xfea0 <= addr <= 0xfeff {
        Ok(0u8)
    } else if VRAM_START <= addr <= VRAM_END || OAM_START <= addr <= OAM_END {
        gpu_load_s(b.gpu, addr)
    } else if TIMER_START <= addr <= TIMER_END {
        timer_load_s(b.timer, addr)
    } else if addr == JOYPAD_ADDR {
        Ok(joypad_read_s(b.joypad))
    } else if addr == 0xff0f {
        Ok(pending_value(b))
    } else if addr == 0xffff {
        Ok(interrupt_value(b.interruptenb))
    } else if addr == 0xff40 {
        Ok(lcdc_value(b.gpu.lcdc))
    } else if addr == 0xff42 {
        Ok(b.gpu.scy)
    } else if addr == 0xff43 {
        Ok(b.gpu.scx)
    } else if addr == 0xff44 {
        Ok(b.gpu.line)
    } else if addr == 0xff47 {
        Ok(b.gpu.bg_palette)
    } else if addr == 0xff48 {
        Ok(b.gpu.ob0_palette)
    } else if addr == 0xff49 {
        Ok(b.gpu.ob1_palette)
    } else if io_known(addr) {
        Ok(0u8)
    } else {
        Err(())
    }
}

/// The bus after the first `n` bytes of a DMA transfer from `src`: byte `i`
/// is loaded from `src + i` and stored into OAM at 0xFE00 + i, refreshing
/// the decoded sprite records; a source byte the bus cannot load fails the
/// transfer.
pub open spec fn dma_step_s(b: BusV, src: u16, n: nat) -> Result<BusV, ()>
    decreases n,
{
    if n == 0 {
        Ok(b)
    } else {
        match dma_step_s(b, src, (n - 1) as nat) {
            Err(()) => Err(()),
            Ok(b1) => match bus_load_s(b1, (src + (n - 1)) as u16) {
                Err(()) => Err(()),
                Ok(byte) => match gpu_store_s(b1.gpu, (0xfe00 + (n - 1)) as u16, byte) {
                    Err(()) => Err(()),
                    Ok(g) => Ok(BusV { gpu: g, ..b1 }),
                },
            },
        }
    }
}

/// What a bus store leaves behind: region and device writes by address
/// range, the interrupt latches, the decoded picture-unit registers (a
/// write to LY resets it to 0; a write to 0xFF46 runs DMA), silence for
/// decoded-but-inert registers, and failure outside every region.
pub open spec fn bus_store_s(b: BusV, addr: u16, value: u8) -> Result<BusV, ()> {
    if addr <= 0x7fff {
        Ok(b)
    } else if 0xc000 <= addr <= 0xdfff {
        match mem_store_s(b.ram, addr, value) {
            Ok(m) => Ok(BusV { ram: m, ..b }),
            Err(()) => Err(()),
        }
    } else if 0xff80 <= addr <= 0xfffe {
        match mem_store_s(b.hram, addr, value) {
            Ok(m) => Ok(BusV { hram: m, ..b }),
            Err(()) => Err(()),
        }
    } else if 0xfea0 <= addr <= 0xfeff {
        Ok(b)
    } else if VRAM_START <= addr <= VRAM_END || OAM_START <= addr <= OAM_END {
        match gpu_store_s(b.gpu, addr, value) {
            Ok(g) => Ok(BusV { gpu: g, ..b }),
            Err(()) => Err(()),
        }
    } else if TIMER_START <= addr <= TIMER_END {
        match timer_store_s(b.timer, addr, value) {
            Ok(t) => Ok(BusV { timer: t, ..b }),
            Err(()) => Err(()),
        }
    } else if addr == JOYPAD_ADDR {
        Ok(BusV { joypad: Joypad { mask: value, ..b.joypad }, ..b })
    } else if addr == 0xff0f {
        Ok(
            BusV {
                gpu: GpuV { is_interrupt: value & 0x01 != 0, ..b.gpu },
                timer: Timer { is_interrupt: value & 0x04 != 0, ..b.timer },
                ..b
            },
        )
    } else if addr == 0xffff {
        Ok(BusV { interruptenb: interrupt_of_byte(value), ..b })
    } else if addr == 0xff40 {
        Ok(BusV { gpu: GpuV { lcdc: lcdc_of_byte(value), ..b.gpu }, ..b })
    } else if addr == 0xff42 {
        Ok(BusV { gpu: GpuV { scy: value, ..b.gpu }, ..b })
    } else if addr == 0xff43 {
        Ok(BusV { gpu: GpuV { scx: value, ..b.gpu }, ..b })
    } else if addr == 0xff44 {
        Ok(BusV { gpu: GpuV { line: 0, ..b.gpu }, ..b })
    } else if addr == 0xff46 {
        dma_step_s(b, ((value as u16) * 256) as u16, 160)
    } else if addr == 0xff47 {
        Ok(BusV { gpu: GpuV { bg_palette: value, ..b.gpu }, ..b })
    } else if addr == 0xff48 {
        Ok(BusV { gpu: GpuV { ob0_palette: value, ..b.gpu }, ..b })
    } else if addr == 0xff49 {
        Ok(BusV { gpu: GpuV { ob1_palette: value, ..b.gpu }, ..b })
    } else if io_known(addr) {
        Ok(b)
    } else {
        Err(())
    }
}

/// What a 16-bit load returns: the two bytes at `addr` and `addr + 1`
/// (wrapping), low byte first.
pub open spec fn bus_load16_s(b: BusV, addr: u16) -> Result<u16, ()> {
    match (bus_load_s(b, addr), bus_load_s(b, addr.wrapping_add(1))) {
        (Ok(lo), Ok(hi)) => Ok((hi * 256 + lo) as u16),
        _ => Err(()),
    }
}

/// What a 16-bit store leaves behind: the low byte at `addr`, then the high
/// byte at `addr + 1` (wrapping).
pub open spec fn bus_store16_s(b: BusV, addr: u16, value: u16) -> Result<BusV, ()> {
    match bus_store_s(b, addr, (value % 256) as u8) {
        Err(()) => Err(()),
        Ok(b1) => bus_store_s(b1, addr.wrapping_add(1), (value / 256) as u8),
    }
}

/// Once a DMA transfer has failed after `k` bytes, extending it to more
/// bytes cannot succeed.
proof fn lemma_dma_err_sticks(b: BusV, src: u16, k: nat, n: nat)
    requires
        k <= n,
        dma_step_s(b, src, k) is Err,
    ensures
        dma_step_s(b, src, n) is Err,
    decreases n,
{
    if n > k {
        lemma_dma_err_sticks(b, src, k, (n - 1) as nat);
    }
}

/// The bus at reset around a cartridge image: the image padded with
/// zeroes to 32 KiB as the read-only region, zeroed RAM and high RAM, the
/// devices at reset, and no interrupt enabled.
pub open spec fn bus_reset_s(binary: Seq<u8>) -> BusV {
    BusV {
        cartridge: MemV {
            base: 0,
            data: binary + Seq::new((0x8000 - binary.len()) as nat, |i: int| 0u8),
            perm: Permission::ReadOnly,
        },
        ram: MemV { base: 0xc000, data: Seq::new(0x2000, |i: int| 0u8), perm: Permission::Normal },
        hram: MemV { base: 0xff80, data: Seq::new(0x7f, |i: int| 0u8), perm: Permission::Normal },
        gpu: gpu_reset_s(),
        timer: Timer {
            div: 0,
            tima: 0,
            tma: 0,
            tac: crate::timer::TimerControl {
                scale: crate::timer::TimerScale::X1,
                running: false,
            },
            div_counter: 0,
            timer_counter: 0,
            roundvalue: 0,
            is_interrupt: false,
        },
        joypad: Joypad { p14: 0x0f, p15: 0x0f, mask: 0x30 },
        interruptenb: InterruptFlag {
            vblank: false,
            lcdc: false,
            timer: false,
            serial: false,
            joypad: false,
        },
    }
}

impl Bus {
    /// Builds the bus around a cartridge image: the image, padded with
    /// zeroes to 32 KiB, becomes the read-only region at 0x0000; work RAM,
    /// high RAM and the unusable hole are zeroed; the devices are at reset.
    pub fn new(binary: Vec<u8>) -> (r: Bus)
        requires
            binary.len() <= 0x8000,
        ensures
            r@ == bus_reset_s(binary@),
            bus_wf(r@),
    {
        let cartridge = Memory::new(0x0000, 0x8000, binary, Permission::ReadOnly);
        let ram = Memory::new_empty(0xc000, 0x2000, Permission::Normal);
        let hram = Memory::new_empty(0xff80, 0x7f, Permission::Normal);
        let unusable = Memory::new_empty(0xfea0, 0x60, Permission::Invalid);
        Bus {
            cartridge,
            ram,
            hram,
            unusable,
            gpu: Gpu::new(),
            timer: Timer::new(),
            joypad: Joypad::new(),
            interruptenb: InterruptFlag {
                vblank: false,
                lcdc: false,
                timer: false,
                serial: false,
                joypad: false,
            },
        }
    }

    /// Reads the pending-interrupt byte served at 0xFF0F.
    fn load_interrupt(&self) -> (r: u8)
        ensures
            r == pending_value(self@),
    {
        (if self.gpu.is_interrupt { 0x01u8 } else { 0u8 }) + (if self.timer.is_interrupt {
            0x04u8
        } else {
            0u8
        })
    }

    /// Writes the pending-interrupt byte served at 0xFF0F: bit 0 drives the
    /// VBlank request latch, bit 2 the timer request latch.
    fn store_interrupt(&mut self, value: u8)
        ensures
            final(self)@ == (BusV {
                gpu: GpuV { is_interrupt: value & 0x01 != 0, ..old(self)@.gpu },
                timer: Timer { is_interrupt: value & 0x04 != 0, ..old(self)@.timer },
                ..old(self)@
            }),
    {
        self.gpu.is_interrupt = (value & 0x01) != 0;
        self.timer.is_interrupt = (value & 0x04) != 0;
    }

    /// Reads one byte, as `bus_load_s` describes.
    fn load(&self, addr: u16) -> (r: Result<u8, ()>)
        requires
            bus_wf(self@),
        ensures
            r == bus_load_s(self@, addr),
    {
        if addr <= 0x7fff {
            self.cartridge.load(addr)
        } else if 0xc000 <= addr && addr <= 0xdfff {
            self.ram.load(addr)
        } else if 0xff80 <= addr && addr <= 0xfffe {
            self.hram.load(addr)
        } else if 0xfea0 <= addr && addr <= 0xfeff {
            Ok(0)
        } else if (VRAM_START <= addr && addr <= VRAM_END) || (OAM_START <= addr && addr
            <= OAM_END) {
            self.gpu.load(addr)
        } else if TIMER_START <= addr && addr <= TIMER_END {
            self.timer.load(addr)
        } else if addr == JOYPAD_ADDR {
            Ok(self.joypad.load())
        } else if addr == 0xff0f {
            Ok(self.load_interrupt())
        } else if addr == 0xffff {
            Ok(self.interruptenb.to_byte())
        } else if addr == 0xff40 {
            Ok(self.gpu.lcdc.to_u8())
        } else if addr == 0xff42 {
            Ok(self.gpu.scy)
        } else if addr == 0xff43 {
            Ok(self.gpu.scx)
        } else if addr == 0xff44 {
            Ok(self.gpu.line)
        } else if addr == 0xff47 {
            Ok(self.gpu.bg_palette)
        } else if addr == 0xff48 {
            Ok(self.gpu.ob0_palette)
        } else if addr == 0xff49 {
            Ok(self.gpu.ob1_palette)
        } else if Self::io_reg(addr) {
            Ok(0)
        } else {
            Err(())
        }
    }

    /// Whether `addr` names a decoded I/O register, as `io_known` says.
    fn io_reg(addr: u16) -> (r: bool)
        ensures
            r == io_known(addr),
    {
        addr == 0xff01 || addr == 0xff02 || (0xff10 <= addr && addr <= 0xff14) || (0xff16 <= addr
            && addr <= 0xff1e) || (0xff20 <= addr && addr <= 0xff26) || (0xff30 <= addr && addr
            <= 0xff3f) || (0xff40 <= addr && addr <= 0xff44) || addr == 0xff46 || (0xff47 <= addr
            && addr <= 0xff4b) || addr == 0xff7f
    }

    /// Writes one byte, as `bus_store_s` describes. On failure partway
    /// through a DMA transfer the bytes already copied stay copied.
    fn store(&mut self, addr: u16, value: u8) -> (r: Result<(), ()>)
        requires
            bus_wf(old(self)@),
        ensures
            bus_wf(final(self)@),
            match bus_store_s(old(self)@, addr, value) {
                Ok(b) => r is Ok && final(self)@ == b,
                Err(()) => r is Err,
            },
    {
        if addr <= 0x7fff {
            let r = self.cartridge.store(addr, value);
            proof {
                assert(self@ =~= old(self)@);
            }
            Ok(())
        } else if 0xc000 <= addr && addr <= 0xdfff {
            let r = self.ram.store(addr, value);
            proof {
                assert(r is Ok);
                assert(self@ =~= (BusV {
                    ram: mem_store_s(old(self)@.ram, addr, value).unwrap(),
                    ..old(self)@
                }));
            }
            Ok(())
        } else if 0xff80 <= addr && addr <= 0xfffe {
            let r = self.hram.store(addr, value);
            proof {
                assert(r is Ok);
                assert(self@ =~= (BusV {
                    hram: mem_store_s(old(self)@.hram, addr, value).unwrap(),
                    ..old(self)@
                }));
            }
            Ok(())
        } else if 0xfea0 <= addr && addr <= 0xfeff {
            Ok(())
        } else if (VRAM_START <= addr && addr <= VRAM_END) || (OAM_START <= addr && addr
            <= OAM_END) {
            let r = self.gpu.store(addr, value);
            proof {
                assert(r is Ok);
                assert(self@ =~= (BusV {
                    gpu: gpu_store_s(old(self)@.gpu, addr, value).unwrap(),
                    ..old(self)@
                }));
            }
            Ok(())
        } else if TIMER_START <= addr && addr <= TIMER_END {
            let r = self.timer.store(addr, value);
            proof {
                assert(r is Ok);
                assert(self@ =~= (BusV {
                    timer: timer_store_s(old(self)@.timer, addr, value).unwrap(),
                    ..old(self)@
                }));
            }
            Ok(())
        } else if addr == JOYPAD_ADDR {
            self.joypad.store(value);
            Ok(())
        } else if addr == 0xff0f {
            self.store_interrupt(value);
            Ok(())
        } else if addr == 0xffff {
            self.interruptenb = InterruptFlag::from_byte(value);
            Ok(())
        } else if addr == 0xff40 {
            self.gpu.lcdc = LCDC::from_u8(value);
            Ok(())
        } else if addr == 0xff42 {
            self.gpu.scy = value;
            Ok(())
        } else if addr == 0xff43 {
            self.gpu.scx = value;
            Ok(())
        } else if addr == 0xff44 {
            self.gpu.line = 0;
            Ok(())
        } else if addr == 0xff46 {
            self.dma(value)
        } else if addr == 0xff47 {
            self.gpu.bg_palette = value;
            Ok(())
        } else if addr == 0xff48 {
            self.gpu.ob0_palette = value;
            Ok(())
        } else if addr == 0xff49 {
            self.gpu.ob1_palette = value;
            Ok(())
        } else if Self::io_reg(addr) {
            Ok(())
        } else {
            Err(())
        }
    }

    /// Copies 160 bytes from `value << 8` into OAM, refreshing the decoded
    /// sprite records, as `dma_step_s` describes.
    fn dma(&mut self, value: u8) -> (r: Result<(), ()>)
        requires
            bus_wf(old(self)@),
        ensures
            bus_wf(final(self)@),
            match dma_step_s(old(self)@, ((value as u16) * 256) as u16, 160) {
                Ok(b) => r is Ok && final(self)@ == b,
                Err(()) => r is Err,
            },
    {
        let src = (value as u16) * 256;
        let mut i: u16 = 0;
        let mut failed = false;
        while i < 160 && !failed
            invariant
                bus_wf(self@),
                i <= 160,
                src == value * 256,
                !failed ==> Ok::<BusV, ()>(self@) == dma_step_s(old(self)@, src, i as nat),
                failed ==> dma_step_s(old(self)@, src, 160) is Err,
            decreases 160 - i, (if failed { 0int } else { 1int }),
        {
            match self.load(src + i) {
                Ok(byte) => {
                    let rs = self.gpu.store(0xfe00 + i, byte);
                    proof {
                        assert(rs is Ok);
                        assert(self@ =~= (BusV {
                            gpu: gpu_store_s(
                                dma_step_s(old(self)@, src, i as nat).unwrap().gpu,
                                (0xfe00 + i) as u16,
                                byte,
                            ).unwrap(),
                            ..dma_step_s(old(self)@, src, i as nat).unwrap()
                        }));
                    }
                    i = i + 1;
                },
                Err(()) => {
                    proof {
                        assert(dma_step_s(old(self)@, src, (i + 1) as nat) is Err);
                        lemma_dma_err_sticks(old(self)@, src, (i + 1) as nat, 160);
                    }
                    failed = true;
                },
            }
        }
        if failed {
            Err(())
        } else {
            Ok(())
        }
    }

    /// Reads one byte anywhere on the bus, as `bus_load_s` describes.
    pub fn load8(&self, addr: u16) -> (r: Result<u8, ()>)
        requires
            bus_wf(self@),
        ensures
            r == bus_load_s(self@, addr),
    {
        self.load(addr)
    }

    /// Reads a little-endian 16-bit word, as `bus_load16_s` describes.
    pub fn load16(&self, addr: u16) -> (r: Result<u16, ()>)
        requires
            bus_wf(self@),
        ensures
            r == bus_load16_s(self@, addr),
    {
        let msb = match self.load(addr.wrapping_add(1)) {
            Ok(v) => v,
            Err(()) => {
                return Err(());
            },
        };
        let lsb = match self.load(addr) {
            Ok(v) => v,
            Err(()) => {
                return Err(());
            },
        };
        Ok((msb as u16) * 256 + (lsb as u16))
    }

    /// Writes one byte anywhere on the bus, as `bus_store_s` describes.
    pub fn store8(&mut self, addr: u16, value: u8) -> (r: Result<(), ()>)
        requires
            bus_wf(old(self)@),
        ensures
            bus_wf(final(self)@),
            match bus_store_s(old(self)@, addr, value) {
                Ok(b) => r is Ok && final(self)@ == b,
                Err(()) => r is Err,
            },
    {
        self.store(addr, value)
    }

    /// Writes a little-endian 16-bit word, low byte first, as
    /// `bus_store16_s` describes.
    pub fn store16(&mut self, addr: u16, value: u16) -> (r: Result<(), ()>)
        requires
            bus_wf(old(self)@),
        ensures
            bus_wf(final(self)@),
            match bus_store16_s(old(self)@, addr, value) {
                Ok(b) => r is Ok && final(self)@ == b,
                Err(()) => r is Err,
            },
    {
        let low = (value % 256) as u8;
        let high = (value / 256) as u8;
        match self.store(addr, low) {
            Ok(()) => self.store(addr.wrapping_add(1), high),
            Err(()) => Err(()),
        }
    }
}

} // verus!
