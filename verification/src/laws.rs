//! Laws of the machine: properties that tie several operations together,
//! stated over the same specification functions the executable contracts
//! use, and proved once for all inputs.

use vstd::prelude::*;

use crate::bus::{bus_load16_s, bus_load_s};
use crate::cpu::{commit_s, cpu_wf, exec_s, handle_int_s, hl_of, step_s, CpuV, InterruptState};
use crate::gpu::{gpu_update_s, gpu_wf, GpuMode, GpuV};
use crate::instruction::{spec_branches, spec_len, Condition, Instruction, Target};
use crate::register::{flags_of_byte, flags_value, high_byte, low_byte, word, FlagRegister};
use crate::timer::{timer_store_s, Timer};

verus! {

/// Length law: a non-branching instruction leaves PC advanced by exactly
/// its length minus the opcode byte, which the fetch already consumed; a
/// step as a whole therefore advances PC by exactly the instruction
/// length.
#[verifier::rlimit(100)]
pub proof fn lemma_nonbranching_pc_advance(c: CpuV, inst: Instruction)
    requires
        !spec_branches(inst),
        exec_s(c, inst) is Ok,
    ensures
        exec_s(c, inst).unwrap().0.pc == c.pc.wrapping_add((spec_len(inst) - 1) as u16),
{
    match inst {
        Instruction::LDIMM16(_) => {},
        Instruction::LDIMM8(_) => {},
        Instruction::LD16A => {},
        Instruction::LDA16 => {},
        Instruction::LDA16SP => {},
        Instruction::LD8A => {},
        Instruction::LDA8 => {},
        Instruction::LDRR(_, _) => {},
        Instruction::PUSH(_) => {},
        Instruction::POP(_) => {},
        Instruction::INC16(_) => {},
        Instruction::DEC16(_) => {},
        Instruction::INC8(_) => {},
        Instruction::DEC8(_) => {},
        Instruction::ADD(_) => {},
        Instruction::ADC(_) => {},
        Instruction::SUB(_) => {},
        Instruction::SBC(_) => {},
        Instruction::AND(_) => {},
        Instruction::XOR(_) => {},
        Instruction::OR(_) => {},
        Instruction::CMP(_) => {},
        Instruction::ADDHL(_) => {},
        _ => {},
    }
}

/// Decoding the flag byte written by an encode returns the same four
/// flags.
proof fn lemma_flags_decode_encode(f: FlagRegister)
    ensures
        flags_of_byte(flags_value(f)) == f,
{
    let z = f.zero;
    let s = f.subtract;
    let h = f.half_carry;
    let cc = f.carry;
    assert({
        let v = ((if z { 0x80u8 } else { 0u8 }) + (if s { 0x40u8 } else { 0u8 }) + (if h {
            0x20u8
        } else {
            0u8
        }) + (if cc { 0x10u8 } else { 0u8 })) as u8;
        (v & 0x80 != 0) == z && (v & 0x40 != 0) == s && (v & 0x20 != 0) == h && (v & 0x10 != 0)
            == cc
    }) by (bit_vector);
}

/// A 16-bit value splits into its two bytes and nothing else.
proof fn lemma_split16(v: u16)
    ensures
        high_byte(v) * 256 + low_byte(v) == v,
        word(high_byte(v), low_byte(v)) == v,
{
    vstd::arithmetic::div_mod::lemma_fundamental_div_mod(v as int, 256);
}

/// The two bytes of a pair come back out of the word they form.
proof fn lemma_join16(hi: u8, lo: u8)
    ensures
        high_byte(word(hi, lo)) == hi,
        low_byte(word(hi, lo)) == lo,
{
    vstd::arithmetic::div_mod::lemma_fundamental_div_mod_converse(
        hi * 256 + lo,
        256,
        hi as int,
        lo as int,
    );
}

/// Masking once fixes the value: a second mask with the same operand
/// changes nothing.
proof fn lemma_mask_absorb(x: u8, y: u8)
    ensures
        (x & y) & y == x & y,
        x & x == x,
{
    assert((x & y) & y == x & y && x & x == x) by (bit_vector);
}

/// Flag purity, first half: executing `AND t` twice in a row leaves A at
/// the value the first AND produced — masking is idempotent. This holds
/// for every register operand and for (HL); the immediate operand is read
/// from the moved PC the second time, so it is not covered.
#[verifier::rlimit(100)]
pub proof fn lemma_and_twice(c: CpuV, t: Target)
    requires
        !(t is D8),
        exec_s(c, Instruction::AND(t)) is Ok,
    ensures
        exec_s(exec_s(c, Instruction::AND(t)).unwrap().0, Instruction::AND(t)) is Ok,
        exec_s(exec_s(c, Instruction::AND(t)).unwrap().0, Instruction::AND(t)).unwrap().0.regs.a
            == exec_s(c, Instruction::AND(t)).unwrap().0.regs.a,
{
    let a = c.regs.a;
    let c1 = exec_s(c, Instruction::AND(t)).unwrap().0;
    match t {
        Target::A => {
            lemma_mask_absorb(a, a);
            lemma_mask_absorb(a & a, a & a);
        },
        Target::B => {
            lemma_mask_absorb(a, c.regs.b);
        },
        Target::C => {
            lemma_mask_absorb(a, c.regs.c);
        },
        Target::D => {
            lemma_mask_absorb(a, c.regs.d);
        },
        Target::E => {
            lemma_mask_absorb(a, c.regs.e);
        },
        Target::H => {
            lemma_mask_absorb(a, c.regs.h);
        },
        Target::L => {
            lemma_mask_absorb(a, c.regs.l);
        },
        Target::HL => {
            let v = bus_load_s(c.bus, hl_of(c.regs)).unwrap();
            assert(bus_load_s(c1.bus, hl_of(c1.regs)) == bus_load_s(c.bus, hl_of(c.regs)));
            lemma_mask_absorb(a, v);
        },
        _ => {},
    }
}

/// Flag purity, second half: `XOR A` always zeroes A and sets Z, whatever
/// A held.
pub proof fn lemma_xor_a(c: CpuV)
    ensures
        exec_s(c, Instruction::XOR(Target::A)) is Ok,
        exec_s(c, Instruction::XOR(Target::A)).unwrap().0.regs.a == 0,
        exec_s(c, Instruction::XOR(Target::A)).unwrap().0.regs.f.zero,
{
    let a = c.regs.a;
    assert(a ^ a == 0) by (bit_vector);
}

/// Round trip: `PUSH rr ; POP rr` with the stack inside writable RAM
/// (work RAM or high RAM) restores the pair and SP. For AF this includes
/// the flag byte: its low nibble is zero when written and is masked to
/// zero again when read back, so the four flags survive exactly.
#[verifier::rlimit(100)]
pub proof fn lemma_push_pop_round_trip(c: CpuV, t: Target)
    requires
        cpu_wf(c),
        0xc001 <= c.sp <= 0xdfff || 0xff81 <= c.sp <= 0xfffe,
        t is BC || t is DE || t is HL || t is AF,
    ensures
        exec_s(c, Instruction::PUSH(t)) is Ok,
        exec_s(exec_s(c, Instruction::PUSH(t)).unwrap().0, Instruction::POP(t)) is Ok,
        ({
            let c2 = exec_s(exec_s(c, Instruction::PUSH(t)).unwrap().0, Instruction::POP(t))
                .unwrap().0;
            c2.sp == c.sp && c2.regs.a == c.regs.a && c2.regs.b == c.regs.b && c2.regs.c
                == c.regs.c && c2.regs.d == c.regs.d && c2.regs.e == c.regs.e && c2.regs.h
                == c.regs.h && c2.regs.l == c.regs.l && c2.regs.f == c.regs.f
        }),
{
    let value = if t is BC {
        word(c.regs.b, c.regs.c)
    } else if t is DE {
        word(c.regs.d, c.regs.e)
    } else if t is HL {
        word(c.regs.h, c.regs.l)
    } else {
        word(c.regs.a, flags_value(c.regs.f))
    };
    lemma_split16(value);
    if t is BC {
        lemma_join16(c.regs.b, c.regs.c);
    } else if t is DE {
        lemma_join16(c.regs.d, c.regs.e);
    } else if t is HL {
        lemma_join16(c.regs.h, c.regs.l);
    } else {
        lemma_join16(c.regs.a, flags_value(c.regs.f));
        lemma_flags_decode_encode(c.regs.f);
    }
}

/// Call half of the call/return law: a taken CALL pushes the address of
/// the instruction after itself onto the stack (readable back from the
/// new SP), drops SP by two, and jumps to its operand.
pub proof fn lemma_call_pushes_return(c: CpuV)
    requires
        cpu_wf(c),
        0xc001 <= c.sp <= 0xdfff || 0xff81 <= c.sp <= 0xfffe,
        bus_load16_s(c.bus, c.pc) is Ok,
    ensures
        exec_s(c, Instruction::CALL(Condition::Always)) is Ok,
        ({
            let c1 = exec_s(c, Instruction::CALL(Condition::Always)).unwrap().0;
            c1.sp == c.sp.wrapping_sub(2) && c1.pc == bus_load16_s(c.bus, c.pc).unwrap()
                && bus_load16_s(c1.bus, c1.sp.wrapping_add(1)) == Ok::<u16, ()>(
                c.pc.wrapping_add(2),
            )
        }),
{
    lemma_split16(c.pc.wrapping_add(2));
}

/// Return half of the call/return law: RET jumps to the word at SP+1 and
/// raises SP by two. Together with `lemma_call_pushes_return`, a CALL
/// followed by any code that leaves SP and the two pushed stack bytes
/// alone returns to the instruction after the CALL.
pub proof fn lemma_ret_returns(c: CpuV, addr: u16)
    requires
        bus_load16_s(c.bus, c.sp.wrapping_add(1)) == Ok::<u16, ()>(addr),
    ensures
        exec_s(c, Instruction::RET(Condition::Always)) is Ok,
        exec_s(c, Instruction::RET(Condition::Always)).unwrap().0.pc == addr,
        exec_s(c, Instruction::RET(Condition::Always)).unwrap().0.sp == c.sp.wrapping_add(2),
{
}

/// Call/return law, composed: starting from a taken CALL, any
/// intermediate state that kept SP and the pushed return address intact
/// RETs to the instruction after the CALL, with SP balanced back to its
/// value before the CALL.
pub proof fn lemma_call_ret_round_trip(c: CpuV, mid: CpuV)
    requires
        cpu_wf(c),
        0xc001 <= c.sp <= 0xdfff || 0xff81 <= c.sp <= 0xfffe,
        bus_load16_s(c.bus, c.pc) is Ok,
        mid.sp == exec_s(c, Instruction::CALL(Condition::Always)).unwrap().0.sp,
        bus_load16_s(mid.bus, mid.sp.wrapping_add(1)) == bus_load16_s(
            exec_s(c, Instruction::CALL(Condition::Always)).unwrap().0.bus,
            mid.sp.wrapping_add(1),
        ),
    ensures
        exec_s(mid, Instruction::RET(Condition::Always)) is Ok,
        exec_s(mid, Instruction::RET(Condition::Always)).unwrap().0.pc == c.pc.wrapping_add(2),
        exec_s(mid, Instruction::RET(Condition::Always)).unwrap().0.sp == c.sp,
{
    lemma_call_pushes_return(c);
    lemma_ret_returns(mid, c.pc.wrapping_add(2));
}

/// HL post-increment/post-decrement law: `LD A,(HL+)` followed by
/// `LD A,(HL-)` leaves HL where it started.
pub proof fn lemma_hl_inc_dec(c: CpuV)
    requires
        bus_load_s(c.bus, hl_of(c.regs)) is Ok,
        bus_load_s(c.bus, hl_of(c.regs).wrapping_add(1)) is Ok,
    ensures
        exec_s(c, Instruction::LDRR(Target::HLINC, Target::A)) is Ok,
        ({
            let c1 = exec_s(c, Instruction::LDRR(Target::HLINC, Target::A)).unwrap().0;
            exec_s(c1, Instruction::LDRR(Target::HLDEC, Target::A)) is Ok && hl_of(
                exec_s(c1, Instruction::LDRR(Target::HLDEC, Target::A)).unwrap().0.regs,
            ) == hl_of(c.regs)
        }),
{
    let hl = hl_of(c.regs);
    let hl1 = hl.wrapping_add(1);
    lemma_join16(high_byte(hl1), low_byte(hl1));
    lemma_split16(hl1);
    let hl0 = hl1.wrapping_sub(1);
    lemma_join16(high_byte(hl0), low_byte(hl0));
    lemma_split16(hl0);
}

/// Interrupt deferral law: after `EI ; DI` the master state is disabled.
/// EI's deferred enable commits when EI's step ends; DI then defers a
/// disable which commits when DI's step ends, and a service dispatched in
/// DI's own step also leaves the state disabled — the disable wins either
/// way.
pub proof fn lemma_ei_then_di(c: CpuV, mid: CpuV)
    ensures
        exec_s(c, Instruction::EI) is Ok,
        commit_s(exec_s(c, Instruction::EI).unwrap().0.interrupt_state)
            == InterruptState::IEnable,
        exec_s(mid, Instruction::DI) is Ok,
        commit_s(exec_s(mid, Instruction::DI).unwrap().0.interrupt_state)
            == InterruptState::IDisable,
        ({
            let d = exec_s(mid, Instruction::DI).unwrap().0;
            handle_int_s(d) matches Ok((d2, clk)) ==> commit_s(d2.interrupt_state)
                == InterruptState::IDisable
        }),
{
}

/// DIV reset law: writing any value to 0xFF04 zeroes both the visible
/// DIV byte and the internal divider accumulator, and touches nothing
/// else in the timer.
pub proof fn lemma_div_reset(t: Timer, value: u8)
    ensures
        timer_store_s(t, 0xff04, value) == Ok::<Timer, ()>(
            Timer { div: 0, div_counter: 0, ..t },
        ),
{
}

/// EI's deferral at step granularity: a step that fetches the EI opcode
/// ends, after the deferred commit, with the master state enabled.
#[verifier::rlimit(100)]
pub proof fn lemma_ei_step_enables(c: CpuV)
    requires
        bus_load_s(c.bus, c.pc) == Ok::<u8, ()>(0xfb),
        step_s(c) is Ok,
    ensures
        step_s(c).unwrap().interrupt_state == InterruptState::IEnable,
{
    reveal(crate::cpu::step_s);
}

/// DI's override at step granularity: a step that fetches the DI opcode
/// ends with the master state disabled, whether or not an interrupt was
/// served inside that same step. With `lemma_ei_step_enables` this gives
/// the `EI ; DI` law over whole steps: the disable wins.
#[verifier::rlimit(100)]
pub proof fn lemma_di_step_disables(c: CpuV)
    requires
        bus_load_s(c.bus, c.pc) == Ok::<u8, ()>(0xf3),
        step_s(c) is Ok,
    ensures
        step_s(c).unwrap().interrupt_state == InterruptState::IDisable,
{
    reveal(crate::cpu::step_s);
}

/// One whole scanline of the picture unit: 80 + 172 + 204 cycles across a
/// visible line, or one 456-cycle vertical-blank line. Either form spends
/// exactly 456 cycles.
pub open spec fn line_step(g: GpuV) -> GpuV {
    if g.mode is VBlank {
        gpu_update_s(g, 456)
    } else {
        gpu_update_s(gpu_update_s(gpu_update_s(g, 80), 172), 204)
    }
}

/// The picture unit after `n` whole scanlines.
pub open spec fn run_lines(g: GpuV, n: nat) -> GpuV
    decreases n,
{
    if n == 0 {
        g
    } else {
        line_step(run_lines(g, (n - 1) as nat))
    }
}

/// Where a frame that started at line 0 stands after `n` of its 154
/// scanlines: visible lines count up with the interrupt latch untouched,
/// the 144th line enters the vertical blank and raises the latch, and
/// the 154th wraps back to line 0.
pub open spec fn frame_state(g: GpuV, n: nat) -> GpuV {
    if n <= 143 {
        GpuV { line: n as u8, ..g }
    } else if n <= 153 {
        GpuV { mode: GpuMode::VBlank, line: n as u8, is_interrupt: true, ..g }
    } else {
        GpuV { is_interrupt: true, ..g }
    }
}

/// Frame-shape helper: each of the 154 scanlines of a frame lands where
/// `frame_state` says.
pub proof fn lemma_run_lines(g: GpuV, n: nat)
    requires
        gpu_wf(g),
        g.mode is ScanlineOAM,
        g.clock == 0,
        g.line == 0,
        !g.is_interrupt,
        n <= 154,
    ensures
        run_lines(g, n) == frame_state(g, n),
    decreases n,
{
    if n > 0 {
        lemma_run_lines(g, (n - 1) as nat);
    }
}

/// Line-budget law: one frame is exactly 154 scanlines of 456 cycles
/// each — 70,224 cycles — after which the line counter has completed one
/// full cycle back to 0 in the OAM-scan phase, and the VBlank interrupt
/// was raised exactly once: the latch stays clear through the first 143
/// whole lines, rises at the transition into the vertical blank, and is
/// never raised again before the frame ends.
pub proof fn lemma_frame_budget(g: GpuV)
    requires
        gpu_wf(g),
        g.mode is ScanlineOAM,
        g.clock == 0,
        g.line == 0,
        !g.is_interrupt,
    ensures
        154 * 456 == 70224,
        run_lines(g, 154) == (GpuV { is_interrupt: true, ..g }),
        forall|n: nat| n <= 143 ==> !(#[trigger] run_lines(g, n)).is_interrupt,
        forall|n: nat| 144 <= n <= 154 ==> (#[trigger] run_lines(g, n)).is_interrupt,
{
    assert forall|n: nat| n <= 154 implies #[trigger] run_lines(g, n) == frame_state(g, n) by {
        lemma_run_lines(g, n);
    }
}

} // verus!
