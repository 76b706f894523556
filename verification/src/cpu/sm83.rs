use vstd::prelude::*;

verus! {

/// The SM83 core of the Game Boy Color.
///
/// The register file is public so that front ends and tests can inspect and
/// seed it; `f` keeps the flags in its upper nibble.
pub struct Sm83 {
    pub a: u8,
    pub f: u8,
    pub b: u8,
    pub c: u8,
    pub d: u8,
    pub e: u8,
    pub h: u8,
    pub l: u8,
    pub sp: u16,
    pub pc: u16,
    pub ime: bool,
    pub ime_pending: bool,
    pub halted: bool,
    pub stopped: bool,
    pub cycles: u64,
}

pub const FLAG_Z: u8 = 0x80;
pub const FLAG_N: u8 = 0x40;
pub const FLAG_H: u8 = 0x20;
pub const FLAG_C: u8 = 0x10;

/// What the CPU observes of its memory: the value each read returns
/// (`read_spec`) and the memory after each write (`write_spec`); the CPU
/// contracts are stated over these two functions. A model that says
/// nothing of its memory keeps the defaults: reads give 0 and writes change
/// nothing that the CPU can observe.
pub trait Sm83Model: Sized {
    open spec fn read_spec(&self, addr: u16) -> u8 {
        0
    }

    open spec fn write_spec(&self, addr: u16, val: u8) -> Self {
        *self
    }
}

/// The memory seen by the CPU, described by its model.
pub trait Sm83Bus: Sized {
    type Model: Sm83Model;

    /// The model of this bus; a bus that does not describe itself has an
    /// unspecified one.
    open spec fn model(&self) -> Self::Model {
        vstd::pervasive::arbitrary()
    }

    /// What the bus keeps between accesses.
    open spec fn inv(&self) -> bool {
        true
    }

    fn read(&self, addr: u16) -> (v: u8)
        requires
            self.inv(),
        ensures
            v == self.model().read_spec(addr),
    ;

    fn write(&mut self, addr: u16, val: u8)
        requires
            old(self).inv(),
        ensures
            final(self).model() == old(self).model().write_spec(addr, val),
            final(self).inv(),
    ;
}

// ---------------------------------------------------------------------------
// Mathematical model of the instruction set
// ---------------------------------------------------------------------------

/// A flag bit of the F register.
pub open spec fn flag_set(f: u8, mask: u8) -> bool {
    f & mask != 0
}

/// The F register holding the four given flags (low nibble clear).
pub open spec fn flags_byte(z: bool, n: bool, h: bool, c: bool) -> u8 {
    (if z { FLAG_Z } else { 0u8 }) | (if n { FLAG_N } else { 0u8 }) | (if h { FLAG_H } else { 0u8 })
        | (if c { FLAG_C } else { 0u8 })
}

/// A 16-bit register pair made of a high and a low byte.
pub open spec fn pair(hi: u8, lo: u8) -> u16 {
    ((hi as u16) << 8u16) | (lo as u16)
}

/// Two's-complement value of a byte read as a signed displacement.
pub open spec fn sext8(b: u8) -> int {
    if b < 128 {
        b as int
    } else {
        b as int - 256
    }
}

/// `x + d` modulo 2^16.
pub open spec fn add16_signed(x: u16, d: int) -> u16 {
    ((x as int + d) % 65536) as u16
}

pub open spec fn reg_af(cpu: Sm83) -> u16 {
    pair(cpu.a, cpu.f & 0xF0)
}

pub open spec fn reg_bc(cpu: Sm83) -> u16 {
    pair(cpu.b, cpu.c)
}

pub open spec fn reg_de(cpu: Sm83) -> u16 {
    pair(cpu.d, cpu.e)
}

pub open spec fn reg_hl(cpu: Sm83) -> u16 {
    pair(cpu.h, cpu.l)
}

pub open spec fn with_af(cpu: Sm83, v: u16) -> Sm83 {
    Sm83 { a: (v >> 8u16) as u8, f: (v & 0xF0) as u8, ..cpu }
}

pub open spec fn with_bc(cpu: Sm83, v: u16) -> Sm83 {
    Sm83 { b: (v >> 8u16) as u8, c: v as u8, ..cpu }
}

pub open spec fn with_de(cpu: Sm83, v: u16) -> Sm83 {
    Sm83 { d: (v >> 8u16) as u8, e: v as u8, ..cpu }
}

pub open spec fn with_hl(cpu: Sm83, v: u16) -> Sm83 {
    Sm83 { h: (v >> 8u16) as u8, l: v as u8, ..cpu }
}

pub open spec fn with_pc(cpu: Sm83, pc: u16) -> Sm83 {
    Sm83 { pc, ..cpu }
}

pub open spec fn with_a(cpu: Sm83, a: u8) -> Sm83 {
    Sm83 { a, ..cpu }
}

pub open spec fn with_f(cpu: Sm83, f: u8) -> Sm83 {
    Sm83 { f, ..cpu }
}

pub open spec fn carry(cpu: Sm83) -> u8 {
    if flag_set(cpu.f, FLAG_C) {
        1
    } else {
        0
    }
}

/// The CPU after fetching `n` bytes of the instruction stream.
pub open spec fn advance(cpu: Sm83, n: u16) -> Sm83 {
    with_pc(cpu, cpu.pc.wrapping_add(n))
}

pub open spec fn imm8<M: Sm83Model>(cpu: Sm83, bus: M) -> u8 {
    bus.read_spec(cpu.pc)
}

pub open spec fn imm16<M: Sm83Model>(cpu: Sm83, bus: M) -> u16 {
    (bus.read_spec(cpu.pc) as u16) | ((bus.read_spec(cpu.pc.wrapping_add(1)) as u16) << 8u16)
}

/// Pushing `val` on the stack: the CPU and the bus afterwards.
pub open spec fn push_spec<M: Sm83Model>(cpu: Sm83, bus: M, val: u16) -> (Sm83, M) {
    let sp1 = cpu.sp.wrapping_sub(1);
    let sp2 = sp1.wrapping_sub(1);
    (Sm83 { sp: sp2, ..cpu }, bus.write_spec(sp1, (val >> 8u16) as u8).write_spec(sp2, val as u8))
}

/// The word on top of the stack.
pub open spec fn pop_value<M: Sm83Model>(cpu: Sm83, bus: M) -> u16 {
    (bus.read_spec(cpu.sp) as u16) | ((bus.read_spec(cpu.sp.wrapping_add(1)) as u16) << 8u16)
}

pub open spec fn popped(cpu: Sm83) -> Sm83 {
    Sm83 { sp: cpu.sp.wrapping_add(2), ..cpu }
}

pub open spec fn alu_add_spec(cpu: Sm83, val: u8, c: u8) -> Sm83 {
    let a = cpu.a;
    let r = a.wrapping_add(val).wrapping_add(c);
    Sm83 {
        a: r,
        f: flags_byte(r == 0, false, (a & 0x0F) + (val & 0x0F) + c > 0x0F, a + val + c > 0xFF),
        ..cpu
    }
}

pub open spec fn alu_sub_spec(cpu: Sm83, val: u8, c: u8) -> Sm83 {
    let a = cpu.a;
    let r = a.wrapping_sub(val).wrapping_sub(c);
    Sm83 {
        a: r,
        f: flags_byte(r == 0, true, (a & 0x0F) < (val & 0x0F) + c, a < val + c),
        ..cpu
    }
}

pub open spec fn alu_and_spec(cpu: Sm83, val: u8) -> Sm83 {
    let r = cpu.a & val;
    Sm83 { a: r, f: flags_byte(r == 0, false, true, false), ..cpu }
}

pub open spec fn alu_xor_spec(cpu: Sm83, val: u8) -> Sm83 {
    let r = cpu.a ^ val;
    Sm83 { a: r, f: flags_byte(r == 0, false, false, false), ..cpu }
}

pub open spec fn alu_or_spec(cpu: Sm83, val: u8) -> Sm83 {
    let r = cpu.a | val;
    Sm83 { a: r, f: flags_byte(r == 0, false, false, false), ..cpu }
}

/// Compare: the flags of a subtraction, A unchanged.
pub open spec fn alu_cp_spec(cpu: Sm83, val: u8) -> Sm83 {
    with_a(alu_sub_spec(cpu, val, 0), cpu.a)
}

/// The ALU operation selected by bits 3..5 of opcodes 0x80..0xBF and 0xC6..0xFE.
pub open spec fn alu_op_spec(cpu: Sm83, op: u8, val: u8) -> Sm83 {
    if op == 0 {
        alu_add_spec(cpu, val, 0)
    } else if op == 1 {
        alu_add_spec(cpu, val, carry(cpu))
    } else if op == 2 {
        alu_sub_spec(cpu, val, 0)
    } else if op == 3 {
        alu_sub_spec(cpu, val, carry(cpu))
    } else if op == 4 {
        alu_and_spec(cpu, val)
    } else if op == 5 {
        alu_xor_spec(cpu, val)
    } else if op == 6 {
        alu_or_spec(cpu, val)
    } else {
        alu_cp_spec(cpu, val)
    }
}

/// INC of an 8-bit value: the result and the new flags (carry kept).
pub open spec fn inc_result(cpu: Sm83, val: u8) -> (u8, u8) {
    let r = val.wrapping_add(1);
    (r, flags_byte(r == 0, false, (val & 0x0F) + 1 > 0x0F, flag_set(cpu.f, FLAG_C)))
}

/// DEC of an 8-bit value: the result and the new flags (carry kept).
pub open spec fn dec_result(cpu: Sm83, val: u8) -> (u8, u8) {
    let r = val.wrapping_sub(1);
    (r, flags_byte(r == 0, true, (val & 0x0F) == 0, flag_set(cpu.f, FLAG_C)))
}

/// ADD HL,rr.
pub open spec fn add16_spec(cpu: Sm83, val: u16) -> Sm83 {
    let hl = reg_hl(cpu);
    with_f(
        with_hl(cpu, hl.wrapping_add(val)),
        flags_byte(
            flag_set(cpu.f, FLAG_Z),
            false,
            (hl & 0x0FFF) + (val & 0x0FFF) > 0x0FFF,
            hl + val > 0xFFFF,
        ),
    )
}

/// SP plus a signed immediate byte, with its flags (ADD SP,e8 and LD HL,SP+e8).
pub open spec fn sp_plus_e8(cpu: Sm83, b: u8) -> (u16, u8) {
    let sp = cpu.sp;
    (
        add16_signed(sp, sext8(b)),
        flags_byte(false, false, (sp & 0x0F) + (b & 0x0F) > 0x0F, (sp & 0xFF) + (b as u16) > 0xFF),
    )
}

/// Rotate and shift operations selected by bits 3..5 of a CB opcode below 0x40:
/// the result and the new flags.
pub open spec fn shift_result(cpu: Sm83, op: u8, val: u8) -> (u8, u8) {
    let old_c = carry(cpu);
    let (r, c) = if op == 0 {
        ((val << 1u8) | (val >> 7u8), val >> 7u8 != 0)
    } else if op == 1 {
        ((val >> 1u8) | ((val & 1) << 7u8), val & 1 != 0)
    } else if op == 2 {
        ((val << 1u8) | old_c, val >> 7u8 != 0)
    } else if op == 3 {
        ((val >> 1u8) | (old_c << 7u8), val & 1 != 0)
    } else if op == 4 {
        (val << 1u8, val >> 7u8 != 0)
    } else if op == 5 {
        ((val >> 1u8) | (val & 0x80), val & 1 != 0)
    } else if op == 6 {
        ((val >> 4u8) | (val << 4u8), false)
    } else {
        (val >> 1u8, val & 1 != 0)
    };
    (r, flags_byte(r == 0, false, false, c))
}

/// Register operand `idx` of an instruction (6 is the byte at HL).
pub open spec fn reg_read<M: Sm83Model>(cpu: Sm83, idx: u8, bus: M) -> u8 {
    if idx == 0 {
        cpu.b
    } else if idx == 1 {
        cpu.c
    } else if idx == 2 {
        cpu.d
    } else if idx == 3 {
        cpu.e
    } else if idx == 4 {
        cpu.h
    } else if idx == 5 {
        cpu.l
    } else if idx == 6 {
        bus.read_spec(reg_hl(cpu))
    } else {
        cpu.a
    }
}

/// Writing register operand `idx` (6 writes the byte at HL).
pub open spec fn reg_write<M: Sm83Model>(cpu: Sm83, idx: u8, val: u8, bus: M) -> (Sm83, M) {
    if idx == 0 {
        (Sm83 { b: val, ..cpu }, bus)
    } else if idx == 1 {
        (Sm83 { c: val, ..cpu }, bus)
    } else if idx == 2 {
        (Sm83 { d: val, ..cpu }, bus)
    } else if idx == 3 {
        (Sm83 { e: val, ..cpu }, bus)
    } else if idx == 4 {
        (Sm83 { h: val, ..cpu }, bus)
    } else if idx == 5 {
        (Sm83 { l: val, ..cpu }, bus)
    } else if idx == 6 {
        (cpu, bus.write_spec(reg_hl(cpu), val))
    } else {
        (Sm83 { a: val, ..cpu }, bus)
    }
}

/// Condition codes NZ, Z, NC, C selected by bits 3..4 of conditional jumps.
pub open spec fn cond_holds(cpu: Sm83, cc: u8) -> bool {
    if cc == 0 {
        !flag_set(cpu.f, FLAG_Z)
    } else if cc == 1 {
        flag_set(cpu.f, FLAG_Z)
    } else if cc == 2 {
        !flag_set(cpu.f, FLAG_C)
    } else {
        flag_set(cpu.f, FLAG_C)
    }
}

/// The decimal adjustment of A after a BCD addition or subtraction.
pub open spec fn daa_spec(cpu: Sm83) -> Sm83 {
    let a0 = cpu.a as int;
    let n = flag_set(cpu.f, FLAG_N);
    let h = flag_set(cpu.f, FLAG_H);
    let c = flag_set(cpu.f, FLAG_C);
    let a1 = if !n {
        let t = if h || a0 % 16 > 9 { a0 + 6 } else { a0 };
        if c || t > 0x9F { t + 0x60 } else { t }
    } else {
        let t = if h { (a0 - 6) % 256 } else { a0 };
        if c { (t - 0x60) % 65536 } else { t }
    };
    let r = (a1 % 256) as u8;
    Sm83 { a: r, f: flags_byte(r == 0, n, false, c || (a1 / 256) % 2 == 1), ..cpu }
}

/// The address of the interrupt vector for interrupt bit `bit`.
pub open spec fn lowest_pending(pending: u8) -> u8 {
    if pending & 1 != 0 {
        0
    } else if pending & 2 != 0 {
        1
    } else if pending & 4 != 0 {
        2
    } else if pending & 8 != 0 {
        3
    } else {
        4
    }
}

/// Interrupt dispatch: the CPU, the bus and the cycles it takes.
#[verifier::opaque]
pub open spec fn interrupt_spec<M: Sm83Model>(cpu: Sm83, bus: M) -> (Sm83, M, u32) {
    let ie = bus.read_spec(0xFFFF);
    let iflag = bus.read_spec(0xFF0F);
    let pending = ie & iflag & 0x1F;
    let cpu1 = if pending != 0 {
        Sm83 { halted: false, ..cpu }
    } else {
        cpu
    };
    if !cpu1.ime || pending == 0 {
        (cpu1, bus, 0)
    } else {
        let bit = lowest_pending(pending);
        let bus1 = bus.write_spec(0xFF0F, iflag & !(1u8 << bit));
        let (cpu2, bus2) = push_spec(Sm83 { ime: false, ..cpu1 }, bus1, cpu1.pc);
        (with_pc(cpu2, (0x0040 + (bit as u16) * 8) as u16), bus2, 20)
    }
}

/// Opcodes 0x00..0x3F; `cpu.pc` already points past the opcode.
#[verifier::opaque]
pub open spec fn exec_block0<M: Sm83Model>(cpu: Sm83, op: u8, bus: M) -> (Sm83, M, u32) {
    let col = op & 0x0F;
    let row = op >> 4u8;
    if op == 0x00 {
        (cpu, bus, 4)
    } else if op == 0x10 {
        (Sm83 { stopped: true, ..advance(cpu, 1) }, bus, 4)
    } else if col == 0x01 {
        let v = imm16(cpu, bus);
        let c1 = advance(cpu, 2);
        (if row == 0 {
            with_bc(c1, v)
        } else if row == 1 {
            with_de(c1, v)
        } else if row == 2 {
            with_hl(c1, v)
        } else {
            Sm83 { sp: v, ..c1 }
        }, bus, 12)
    } else if col == 0x02 {
        let addr = if row == 0 {
            reg_bc(cpu)
        } else if row == 1 {
            reg_de(cpu)
        } else {
            reg_hl(cpu)
        };
        let cpu1 = if row == 2 {
            with_hl(cpu, reg_hl(cpu).wrapping_add(1))
        } else if row == 3 {
            with_hl(cpu, reg_hl(cpu).wrapping_sub(1))
        } else {
            cpu
        };
        (cpu1, bus.write_spec(addr, cpu.a), 8)
    } else if col == 0x0A {
        let addr = if row == 0 {
            reg_bc(cpu)
        } else if row == 1 {
            reg_de(cpu)
        } else {
            reg_hl(cpu)
        };
        let cpu1 = if row == 2 {
            with_hl(cpu, reg_hl(cpu).wrapping_add(1))
        } else if row == 3 {
            with_hl(cpu, reg_hl(cpu).wrapping_sub(1))
        } else {
            cpu
        };
        (with_a(cpu1, bus.read_spec(addr)), bus, 8)
    } else if col == 0x03 || col == 0x0B {
        let inc = col == 0x03;
        (if row == 0 {
            with_bc(cpu, if inc { reg_bc(cpu).wrapping_add(1) } else { reg_bc(cpu).wrapping_sub(1) })
        } else if row == 1 {
            with_de(cpu, if inc { reg_de(cpu).wrapping_add(1) } else { reg_de(cpu).wrapping_sub(1) })
        } else if row == 2 {
            with_hl(cpu, if inc { reg_hl(cpu).wrapping_add(1) } else { reg_hl(cpu).wrapping_sub(1) })
        } else {
            Sm83 { sp: if inc { cpu.sp.wrapping_add(1) } else { cpu.sp.wrapping_sub(1) }, ..cpu }
        }, bus, 8)
    } else if col == 0x09 {
        let v = if row == 0 {
            reg_bc(cpu)
        } else if row == 1 {
            reg_de(cpu)
        } else if row == 2 {
            reg_hl(cpu)
        } else {
            cpu.sp
        };
        (add16_spec(cpu, v), bus, 8)
    } else if col == 0x04 || col == 0x05 || col == 0x0C || col == 0x0D {
        let idx = op >> 3u8;
        let val = reg_read(cpu, idx, bus);
        let (r, f) = if col == 0x04 || col == 0x0C {
            inc_result(cpu, val)
        } else {
            dec_result(cpu, val)
        };
        let (cpu1, bus1) = reg_write(with_f(cpu, f), idx, r, bus);
        (cpu1, bus1, if idx == 6 { 12 } else { 4 })
    } else if col == 0x06 || col == 0x0E {
        let idx = op >> 3u8;
        let v = imm8(cpu, bus);
        let (cpu1, bus1) = reg_write(advance(cpu, 1), idx, v, bus);
        (cpu1, bus1, if idx == 6 { 12 } else { 8 })
    } else if op == 0x07 || op == 0x0F || op == 0x17 || op == 0x1F {
        let (r, _f) = shift_result(cpu, op >> 3u8, cpu.a);
        let c = if op == 0x07 || op == 0x17 { cpu.a >> 7u8 != 0 } else { cpu.a & 1 != 0 };
        (Sm83 { a: r, f: flags_byte(false, false, false, c), ..cpu }, bus, 4)
    } else if op == 0x08 {
        let addr = imm16(cpu, bus);
        (
            advance(cpu, 2),
            bus.write_spec(addr, cpu.sp as u8).write_spec(addr.wrapping_add(1), (cpu.sp >> 8u16) as u8),
            20,
        )
    } else if op == 0x18 {
        let e = imm8(cpu, bus);
        let c1 = advance(cpu, 1);
        (with_pc(c1, add16_signed(c1.pc, sext8(e))), bus, 12)
    } else if op == 0x20 || op == 0x28 || op == 0x30 || op == 0x38 {
        let e = imm8(cpu, bus);
        let c1 = advance(cpu, 1);
        if cond_holds(cpu, (op >> 3u8) & 3) {
            (with_pc(c1, add16_signed(c1.pc, sext8(e))), bus, 12)
        } else {
            (c1, bus, 8)
        }
    } else if op == 0x27 {
        (daa_spec(cpu), bus, 4)
    } else if op == 0x2F {
        (
            Sm83 {
                a: !cpu.a,
                f: flags_byte(flag_set(cpu.f, FLAG_Z), true, true, flag_set(cpu.f, FLAG_C)),
                ..cpu
            },
            bus,
            4,
        )
    } else if op == 0x37 {
        (with_f(cpu, flags_byte(flag_set(cpu.f, FLAG_Z), false, false, true)), bus, 4)
    } else {
        // 0x3F: CCF
        (
            with_f(cpu, flags_byte(flag_set(cpu.f, FLAG_Z), false, false, !flag_set(cpu.f, FLAG_C))),
            bus,
            4,
        )
    }
}

/// Opcodes 0x40..0xBF: register loads, HALT and the 8-bit ALU.
#[verifier::opaque]
pub open spec fn exec_block12<M: Sm83Model>(cpu: Sm83, op: u8, bus: M) -> (Sm83, M, u32) {
    let src = op & 0x07;
    let dst = (op >> 3u8) & 0x07;
    if op == 0x76 {
        (Sm83 { halted: true, ..cpu }, bus, 4)
    } else if op < 0x80 {
        let v = reg_read(cpu, src, bus);
        let (cpu1, bus1) = reg_write(cpu, dst, v, bus);
        (cpu1, bus1, if src == 6 || dst == 6 { 8 } else { 4 })
    } else {
        let v = reg_read(cpu, src, bus);
        (alu_op_spec(cpu, dst, v), bus, if src == 6 { 8 } else { 4 })
    }
}

/// Opcodes 0xC0..0xFF other than the CB prefix.
#[verifier::opaque]
pub open spec fn exec_block3<M: Sm83Model>(cpu: Sm83, op: u8, bus: M) -> (Sm83, M, u32) {
    let col = op & 0x0F;
    let cc = (op >> 3u8) & 3;
    if op == 0xC0 || op == 0xC8 || op == 0xD0 || op == 0xD8 {
        if cond_holds(cpu, cc) {
            (with_pc(popped(cpu), pop_value(cpu, bus)), bus, 20)
        } else {
            (cpu, bus, 8)
        }
    } else if op == 0xC9 || op == 0xD9 {
        let c1 = with_pc(popped(cpu), pop_value(cpu, bus));
        (if op == 0xD9 { Sm83 { ime: true, ..c1 } } else { c1 }, bus, 16)
    } else if col == 0x01 {
        let v = pop_value(cpu, bus);
        let c1 = popped(cpu);
        (if op == 0xC1 {
            with_bc(c1, v)
        } else if op == 0xD1 {
            with_de(c1, v)
        } else if op == 0xE1 {
            with_hl(c1, v)
        } else {
            with_af(c1, v)
        }, bus, 12)
    } else if col == 0x05 {
        let v = if op == 0xC5 {
            reg_bc(cpu)
        } else if op == 0xD5 {
            reg_de(cpu)
        } else if op == 0xE5 {
            reg_hl(cpu)
        } else {
            reg_af(cpu)
        };
        let (c1, b1) = push_spec(cpu, bus, v);
        (c1, b1, 16)
    } else if op == 0xC2 || op == 0xCA || op == 0xD2 || op == 0xDA {
        let addr = imm16(cpu, bus);
        let c1 = advance(cpu, 2);
        if cond_holds(cpu, cc) {
            (with_pc(c1, addr), bus, 16)
        } else {
            (c1, bus, 12)
        }
    } else if op == 0xC3 {
        (with_pc(advance(cpu, 2), imm16(cpu, bus)), bus, 16)
    } else if op == 0xC4 || op == 0xCC || op == 0xD4 || op == 0xDC || op == 0xCD {
        let addr = imm16(cpu, bus);
        let c1 = advance(cpu, 2);
        if op == 0xCD || cond_holds(cpu, cc) {
            let (c2, b2) = push_spec(c1, bus, c1.pc);
            (with_pc(c2, addr), b2, 24)
        } else {
            (c1, bus, 12)
        }
    } else if col == 0x07 || col == 0x0F {
        let (c1, b1) = push_spec(cpu, bus, cpu.pc);
        (with_pc(c1, (op - 0xC7) as u16), b1, 16)
    } else if col == 0x06 || col == 0x0E {
        let v = imm8(cpu, bus);
        (alu_op_spec(advance(cpu, 1), (op >> 3u8) & 7, v), bus, 8)
    } else if op == 0xE0 {
        let offset = imm8(cpu, bus) as u16;
        (advance(cpu, 1), bus.write_spec((0xFF00 + offset) as u16, cpu.a), 12)
    } else if op == 0xF0 {
        let offset = imm8(cpu, bus) as u16;
        (with_a(advance(cpu, 1), bus.read_spec((0xFF00 + offset) as u16)), bus, 12)
    } else if op == 0xE2 {
        (cpu, bus.write_spec((0xFF00 + cpu.c as u16) as u16, cpu.a), 8)
    } else if op == 0xF2 {
        (with_a(cpu, bus.read_spec((0xFF00 + cpu.c as u16) as u16)), bus, 8)
    } else if op == 0xE8 {
        let (v, f) = sp_plus_e8(cpu, imm8(cpu, bus));
        (Sm83 { sp: v, f, ..advance(cpu, 1) }, bus, 16)
    } else if op == 0xF8 {
        let (v, f) = sp_plus_e8(cpu, imm8(cpu, bus));
        (with_hl(Sm83 { f, ..advance(cpu, 1) }, v), bus, 12)
    } else if op == 0xE9 {
        (with_pc(cpu, reg_hl(cpu)), bus, 4)
    } else if op == 0xF9 {
        (Sm83 { sp: reg_hl(cpu), ..cpu }, bus, 8)
    } else if op == 0xEA {
        (advance(cpu, 2), bus.write_spec(imm16(cpu, bus), cpu.a), 16)
    } else if op == 0xFA {
        (with_a(advance(cpu, 2), bus.read_spec(imm16(cpu, bus))), bus, 16)
    } else if op == 0xF3 {
        (Sm83 { ime: false, ..cpu }, bus, 4)
    } else if op == 0xFB {
        (Sm83 { ime_pending: true, ..cpu }, bus, 4)
    } else {
        // 0xD3, 0xDB, 0xDD, 0xE3, 0xE4, 0xEB, 0xEC, 0xED, 0xF4, 0xFC, 0xFD
        (cpu, bus, 4)
    }
}

/// A CB-prefixed opcode; `cpu.pc` already points past it.
#[verifier::opaque]
pub open spec fn exec_cb<M: Sm83Model>(cpu: Sm83, op: u8, bus: M) -> (Sm83, M, u32) {
    let idx = op & 0x07;
    let val = reg_read(cpu, idx, bus);
    let bit = (op >> 3u8) & 0x07;
    let group = op >> 6u8;
    if group == 1 {
        (
            with_f(
                cpu,
                flags_byte(val & (1u8 << bit) == 0, false, true, flag_set(cpu.f, FLAG_C)),
            ),
            bus,
            if idx == 6 { 12 } else { 8 },
        )
    } else {
        let (cpu1, r) = if group == 0 {
            let (r, f) = shift_result(cpu, bit, val);
            (with_f(cpu, f), r)
        } else if group == 2 {
            (cpu, val & !(1u8 << bit))
        } else {
            (cpu, val | (1u8 << bit))
        };
        let (cpu2, bus2) = reg_write(cpu1, idx, r, bus);
        (cpu2, bus2, if idx == 6 { 16 } else { 8 })
    }
}

/// One opcode; `cpu.pc` already points past it.
#[verifier::opaque]
pub open spec fn execute_spec<M: Sm83Model>(cpu: Sm83, op: u8, bus: M) -> (Sm83, M, u32) {
    if op < 0x40 {
        exec_block0(cpu, op, bus)
    } else if op < 0xC0 {
        exec_block12(cpu, op, bus)
    } else if op == 0xCB {
        exec_cb(advance(cpu, 1), imm8(cpu, bus), bus)
    } else {
        exec_block3(cpu, op, bus)
    }
}

/// One call of `step`: the CPU, the bus and the cycles it returns.
pub open spec fn step_spec<M: Sm83Model>(cpu: Sm83, bus: M) -> (Sm83, M, u32) {
    let cpu0 = if cpu.ime_pending {
        Sm83 { ime_pending: false, ime: true, ..cpu }
    } else {
        cpu
    };
    let (cpu1, bus1, ic) = interrupt_spec(cpu0, bus);
    if ic > 0 {
        (Sm83 { cycles: (cpu1.cycles + ic) as u64, ..cpu1 }, bus1, ic)
    } else if cpu1.halted {
        (Sm83 { cycles: (cpu1.cycles + 4) as u64, ..cpu1 }, bus1, 4)
    } else {
        let op = bus1.read_spec(cpu1.pc);
        let (cpu2, bus2, c) = execute_spec(advance(cpu1, 1), op, bus1);
        (Sm83 { cycles: (cpu2.cycles + c) as u64, ..cpu2 }, bus2, c)
    }
}

/// Interrupt dispatch takes 0 or 20 cycles and leaves the cycle counter alone.
pub proof fn lemma_interrupt_cycles<M: Sm83Model>(cpu: Sm83, bus: M)
    ensures
        interrupt_spec(cpu, bus).2 == 0 || interrupt_spec(cpu, bus).2 == 20,
        interrupt_spec(cpu, bus).0.cycles == cpu.cycles,
{
    reveal(interrupt_spec);
}

/// `execute_spec` never reports more than 24 cycles.
pub proof fn lemma_execute_cycles<M: Sm83Model>(cpu: Sm83, op: u8, bus: M)
    ensures
        4 <= execute_spec(cpu, op, bus).2 <= 24,
        execute_spec(cpu, op, bus).0.cycles == cpu.cycles,
{
    reveal(execute_spec);
    reveal(exec_block0);
    reveal(exec_block12);
    reveal(exec_block3);
    reveal(exec_cb);
}

proof fn lemma_add_mod(a: int, v: int, k: int)
    requires
        0 <= a < 256,
        0 <= v < 256,
        0 <= k <= 1,
    ensures
        (a + v + k) % 256 == if a + v + k > 255 { a + v + k - 256 } else { a + v + k },
        (a - v - k) % 256 == if a - v - k < 0 { a - v - k + 256 } else { a - v - k },
{
}

/// The additions ADD (`k` 0) and ADC (`k` the carry) give a + v + k
/// modulo 256, with H for a carry out of bit 3 and C for one out of bit 7.
proof fn lemma_alu_add_results(cpu: Sm83, v: u8, k: u8)
    requires
        k <= 1,
    ensures
        ({
            let a = cpu.a as int;
            let out = alu_add_spec(cpu, v, k);
            &&& out.a as int == (a + v + k) % 256
            &&& out.f == flags_byte(out.a == 0, false, a % 16 + v % 16 + k > 15, a + v + k > 255)
        }),
{
    crate::bits::lemma_u8_fields(cpu.a);
    crate::bits::lemma_u8_fields(v);
    lemma_add_mod(cpu.a as int, v as int, k as int);
}

/// The subtractions SUB (`k` 0) and SBC (`k` the carry) give a - v - k
/// modulo 256, with H for a borrow into bit 4 and C for one into bit 8.
proof fn lemma_alu_sub_results(cpu: Sm83, v: u8, k: u8)
    requires
        k <= 1,
    ensures
        ({
            let a = cpu.a as int;
            let out = alu_sub_spec(cpu, v, k);
            &&& out.a as int == (a - v - k) % 256
            &&& out.f == flags_byte(out.a == 0, true, a % 16 < v % 16 + k, a < v + k)
            &&& k == 0 ==> ((out.a == 0) == (a == v))
        }),
{
    crate::bits::lemma_u8_fields(cpu.a);
    crate::bits::lemma_u8_fields(v);
    lemma_add_mod(cpu.a as int, v as int, k as int);
}

/// The eight ALU operations on A and an operand `v`, with `c` the carry
/// before: ADD a + v, ADC a + v + c, SUB a - v, SBC a - v - c (modulo 256),
/// AND, XOR and OR bitwise, and CP, which leaves A; the flags are Z for a
/// zero result, N for the subtractions, H for a carry out of (or borrow
/// into) bit 4, and C for a carry out of (or borrow into) bit 8. The other
/// registers stay.
pub proof fn lemma_alu_results(cpu: Sm83, op: u8, v: u8)
    requires
        op <= 7,
    ensures
        ({
            let a = cpu.a as int;
            let c: int = if flag_set(cpu.f, FLAG_C) { 1 } else { 0 };
            let out = alu_op_spec(cpu, op, v);
            let r = out.a as int;
            &&& op == 0 ==> r == (a + v) % 256 && out.f == flags_byte(r == 0, false, a % 16 + v % 16 > 15, a + v > 255)
            &&& op == 1 ==> r == (a + v + c) % 256 && out.f == flags_byte(
                r == 0,
                false,
                a % 16 + v % 16 + c > 15,
                a + v + c > 255,
            )
            &&& op == 2 ==> r == (a - v) % 256 && out.f == flags_byte(a == v, true, a % 16 < v % 16, a < v)
            &&& op == 3 ==> r == (a - v - c) % 256 && out.f == flags_byte(
                r == 0,
                true,
                a % 16 < v % 16 + c,
                a < v + c,
            )
            &&& op == 4 ==> out.a == cpu.a & v && out.f == flags_byte(out.a == 0, false, true, false)
            &&& op == 5 ==> out.a == cpu.a ^ v && out.f == flags_byte(out.a == 0, false, false, false)
            &&& op == 6 ==> out.a == cpu.a | v && out.f == flags_byte(out.a == 0, false, false, false)
            &&& op == 7 ==> out.a == cpu.a && out.f == flags_byte(a == v, true, a % 16 < v % 16, a < v)
            &&& out.b == cpu.b && out.c == cpu.c && out.d == cpu.d && out.e == cpu.e
            &&& out.h == cpu.h && out.l == cpu.l && out.sp == cpu.sp && out.pc == cpu.pc
        }),
{
    if op == 0 {
        lemma_alu_add_results(cpu, v, 0);
    } else if op == 1 {
        lemma_alu_add_results(cpu, v, carry(cpu));
    } else if op == 2 || op == 7 {
        lemma_alu_sub_results(cpu, v, 0);
    } else if op == 3 {
        lemma_alu_sub_results(cpu, v, carry(cpu));
    }
}

/// Compare (CP r8 at 0xB8-0xBF, CP d8 at 0xFE) leaves A as it was, and
/// the memory too, and sets the flags of A minus the operand: Z when the two
/// are equal, N, H when A's low nibble is below the operand's, C when A is
/// below the operand.
pub proof fn lemma_cp_keeps_a<M: Sm83Model>(cpu: Sm83, op: u8, bus: M)
    requires
        0xB8 <= op <= 0xBF || op == 0xFE,
    ensures
        ({
            let v = if op == 0xFE {
                bus.read_spec(cpu.pc)
            } else {
                reg_read(cpu, (op - 0xB8) as u8, bus)
            };
            let after = execute_spec(cpu, op, bus);
            &&& after.0.a == cpu.a
            &&& after.0.f == flags_byte(cpu.a == v, true, cpu.a % 16 < v % 16, cpu.a < v)
            &&& after.1 == bus
        }),
{
    reveal(execute_spec);
    reveal(exec_block12);
    reveal(exec_block3);
    crate::bits::lemma_u8_fields(op);
    crate::bits::lemma_u8_fields(cpu.a);
    let v = if op == 0xFE {
        bus.read_spec(cpu.pc)
    } else {
        reg_read(cpu, (op - 0xB8) as u8, bus)
    };
    crate::bits::lemma_u8_fields(v);
    assert((op >> 3u8) & 7 == 7);
    let r = cpu.a.wrapping_sub(v).wrapping_sub(0);
    assert((r == 0) == (cpu.a == v));
    assert(alu_op_spec(cpu, 7, v) == Sm83 {
        f: flags_byte(cpu.a == v, true, cpu.a % 16 < v % 16, cpu.a < v),
        ..cpu
    });
    if op == 0xFE {
        assert(op & 0x0F == 0x0E);
        let c1 = advance(cpu, 1);
        assert(alu_op_spec(c1, 7, v).a == cpu.a);
        assert(execute_spec(cpu, op, bus) == exec_block3(cpu, op, bus));
        let col = op & 0x0F;
        assert(col == 0x0E);
        assert(imm8(cpu, bus) == v);
        assert(exec_block3(cpu, op, bus).0 == alu_op_spec(c1, (op >> 3u8) & 7, v));
        assert(exec_block3(cpu, op, bus).1 == bus);
    } else {
        assert(op & 0x07 == op - 0xB8);
        assert(execute_spec(cpu, op, bus) == exec_block12(cpu, op, bus));
        let src = op & 0x07;
        let dst = (op >> 3u8) & 0x07;
        assert(dst == 7);
        assert(src == (op - 0xB8) as u8);
        assert(reg_read(cpu, src, bus) == v);
        assert(op != 0x76 && op >= 0x80);
        assert(exec_block12(cpu, op, bus).0 == alu_op_spec(cpu, dst, reg_read(cpu, src, bus)));
    }
}

/// Every step takes between 4 and 24 cycles.
pub proof fn lemma_step_cycles<M: Sm83Model>(cpu: Sm83, bus: M)
    ensures
        4 <= step_spec(cpu, bus).2 <= 24,
{
    let cpu0 = if cpu.ime_pending {
        Sm83 { ime_pending: false, ime: true, ..cpu }
    } else {
        cpu
    };
    lemma_interrupt_cycles(cpu0, bus);
    let (cpu1, bus1, ic) = interrupt_spec(cpu0, bus);
    let op = bus1.read_spec(cpu1.pc);
    lemma_execute_cycles(advance(cpu1, 1), op, bus1);
}

// ---------------------------------------------------------------------------
// Executable core
// ---------------------------------------------------------------------------

/// The register state after the boot ROM has run.
pub open spec fn boot_state(cpu: Sm83) -> bool {
    &&& cpu.a == 0x11 && cpu.f == 0xB0 && cpu.b == 0x00 && cpu.c == 0x13
    &&& cpu.d == 0x00 && cpu.e == 0xD8 && cpu.h == 0x01 && cpu.l == 0x4D
    &&& cpu.sp == 0xFFFE && cpu.pc == 0x0100
    &&& !cpu.ime && !cpu.ime_pending && !cpu.halted && !cpu.stopped
    &&& cpu.cycles == 0
}

impl Default for Sm83 {
    fn default() -> (cpu: Self)
        ensures
            boot_state(cpu),
    {
        Self::new()
    }
}

impl Sm83 {
    /// The register state after the boot ROM has run.
    pub fn new() -> (cpu: Self)
        ensures
            boot_state(cpu),
    {
        Sm83 {
            a: 0x11,
            f: 0xB0,
            b: 0x00,
            c: 0x13,
            d: 0x00,
            e: 0xD8,
            h: 0x01,
            l: 0x4D,
            sp: 0xFFFE,
            pc: 0x0100,
            ime: false,
            ime_pending: false,
            halted: false,
            stopped: false,
            cycles: 0,
        }
    }

    fn af(&self) -> (r: u16)
        ensures
            r == reg_af(*self),
    {
        ((self.a as u16) << 8u16) | ((self.f & 0xF0) as u16)
    }

    fn bc(&self) -> (r: u16)
        ensures
            r == reg_bc(*self),
    {
        ((self.b as u16) << 8u16) | (self.c as u16)
    }

    fn de(&self) -> (r: u16)
        ensures
            r == reg_de(*self),
    {
        ((self.d as u16) << 8u16) | (self.e as u16)
    }

    fn hl(&self) -> (r: u16)
        ensures
            r == reg_hl(*self),
    {
        ((self.h as u16) << 8u16) | (self.l as u16)
    }

    fn set_af(&mut self, v: u16)
        ensures
            *final(self) == with_af(*old(self), v),
    {
        self.a = (v >> 8u16) as u8;
        self.f = (v & 0xF0) as u8;
    }

    fn set_bc(&mut self, v: u16)
        ensures
            *final(self) == with_bc(*old(self), v),
    {
        self.b = (v >> 8u16) as u8;
        self.c = v as u8;
    }

    fn set_de(&mut self, v: u16)
        ensures
            *final(self) == with_de(*old(self), v),
    {
        self.d = (v >> 8u16) as u8;
        self.e = v as u8;
    }

    fn set_hl(&mut self, v: u16)
        ensures
            *final(self) == with_hl(*old(self), v),
    {
        self.h = (v >> 8u16) as u8;
        self.l = v as u8;
    }

    fn flag(&self, mask: u8) -> (r: bool)
        ensures
            r == flag_set(self.f, mask),
    {
        self.f & mask != 0
    }

    fn make_flags(z: bool, n: bool, h: bool, c: bool) -> (f: u8)
        ensures
            f == flags_byte(z, n, h, c),
    {
        (if z { FLAG_Z } else { 0u8 }) | (if n { FLAG_N } else { 0u8 }) | (if h { FLAG_H } else { 0u8 })
            | (if c { FLAG_C } else { 0u8 })
    }

    fn carry_bit(&self) -> (c: u8)
        ensures
            c == carry(*self),
    {
        if self.flag(FLAG_C) {
            1
        } else {
            0
        }
    }

    fn read_byte<B: Sm83Bus>(&mut self, bus: &B) -> (v: u8)
        requires
            bus.inv(),
        ensures
            v == imm8(*old(self), bus.model()),
            *final(self) == advance(*old(self), 1),
    {
        let v = bus.read(self.pc);
        self.pc = self.pc.wrapping_add(1);
        v
    }

    fn read_word<B: Sm83Bus>(&mut self, bus: &B) -> (v: u16)
        requires
            bus.inv(),
        ensures
            v == imm16(*old(self), bus.model()),
            *final(self) == advance(*old(self), 2),
    {
        let lo = bus.read(self.pc) as u16;
        let hi = bus.read(self.pc.wrapping_add(1)) as u16;
        self.pc = self.pc.wrapping_add(2);
        lo | (hi << 8u16)
    }

    fn push<B: Sm83Bus>(&mut self, bus: &mut B, val: u16)
        requires
            old(bus).inv(),
        ensures
            final(bus).inv(),
            (*final(self), final(bus).model()) == push_spec(*old(self), old(bus).model(), val),
    {
        self.sp = self.sp.wrapping_sub(1);
        bus.write(self.sp, (val >> 8u16) as u8);
        self.sp = self.sp.wrapping_sub(1);
        bus.write(self.sp, val as u8);
    }

    fn pop<B: Sm83Bus>(&mut self, bus: &B) -> (v: u16)
        requires
            bus.inv(),
        ensures
            v == pop_value(*old(self), bus.model()),
            *final(self) == popped(*old(self)),
    {
        let lo = bus.read(self.sp) as u16;
        self.sp = self.sp.wrapping_add(1);
        let hi = bus.read(self.sp) as u16;
        self.sp = self.sp.wrapping_add(1);
        proof {
            assert(old(self).sp.wrapping_add(1).wrapping_add(1) == old(self).sp.wrapping_add(2));
        }
        lo | (hi << 8u16)
    }

    fn alu_add(&mut self, val: u8, c: u8)
        requires
            c <= 1,
        ensures
            *final(self) == alu_add_spec(*old(self), val, c),
    {
        let a = self.a;
        let r = a.wrapping_add(val).wrapping_add(c);
        let h = (a & 0x0F) as u16 + (val & 0x0F) as u16 + c as u16 > 0x0F;
        let cy = a as u16 + val as u16 + c as u16 > 0xFF;
        self.a = r;
        self.f = Self::make_flags(r == 0, false, h, cy);
    }

    fn alu_sub(&mut self, val: u8, c: u8)
        requires
            c <= 1,
        ensures
            *final(self) == alu_sub_spec(*old(self), val, c),
    {
        let a = self.a;
        let r = a.wrapping_sub(val).wrapping_sub(c);
        let h = ((a & 0x0F) as u16) < (val & 0x0F) as u16 + c as u16;
        let cy = (a as u16) < val as u16 + c as u16;
        self.a = r;
        self.f = Self::make_flags(r == 0, true, h, cy);
    }

    fn alu_op(&mut self, op: u8, val: u8)
        ensures
            *final(self) == alu_op_spec(*old(self), op, val),
    {
        if op == 0 {
            self.alu_add(val, 0);
        } else if op == 1 {
            let c = self.carry_bit();
            self.alu_add(val, c);
        } else if op == 2 {
            self.alu_sub(val, 0);
        } else if op == 3 {
            let c = self.carry_bit();
            self.alu_sub(val, c);
        } else if op == 4 {
            let r = self.a & val;
            self.a = r;
            self.f = Self::make_flags(r == 0, false, true, false);
        } else if op == 5 {
            let r = self.a ^ val;
            self.a = r;
            self.f = Self::make_flags(r == 0, false, false, false);
        } else if op == 6 {
            let r = self.a | val;
            self.a = r;
            self.f = Self::make_flags(r == 0, false, false, false);
        } else {
            let a = self.a;
            self.alu_sub(val, 0);
            self.a = a;
        }
    }

    fn alu_inc(&mut self, val: u8) -> (r: u8)
        ensures
            (r, final(self).f) == inc_result(*old(self), val),
            *final(self) == with_f(*old(self), final(self).f),
    {
        let r = val.wrapping_add(1);
        let c = self.flag(FLAG_C);
        self.f = Self::make_flags(r == 0, false, (val & 0x0F) as u16 + 1 > 0x0F, c);
        r
    }

    fn alu_dec(&mut self, val: u8) -> (r: u8)
        ensures
            (r, final(self).f) == dec_result(*old(self), val),
            *final(self) == with_f(*old(self), final(self).f),
    {
        let r = val.wrapping_sub(1);
        let c = self.flag(FLAG_C);
        self.f = Self::make_flags(r == 0, true, (val & 0x0F) == 0, c);
        r
    }

    fn alu_add16(&mut self, val: u16)
        ensures
            *final(self) == add16_spec(*old(self), val),
    {
        let hl = self.hl();
        let r = hl.wrapping_add(val);
        let z = self.flag(FLAG_Z);
        let h = (hl & 0x0FFF) as u32 + (val & 0x0FFF) as u32 > 0x0FFF;
        let c = hl as u32 + val as u32 > 0xFFFF;
        self.set_hl(r);
        self.f = Self::make_flags(z, false, h, c);
    }

    fn sp_plus_imm<B: Sm83Bus>(&mut self, bus: &B) -> (r: (u16, u8))
        requires
            bus.inv(),
        ensures
            r == sp_plus_e8(*old(self), imm8(*old(self), bus.model())),
            *final(self) == advance(*old(self), 1),
    {
        let b = self.read_byte(bus);
        let sp = self.sp;
        let v = if b < 128 {
            sp.wrapping_add(b as u16)
        } else {
            sp.wrapping_sub(256 - b as u16)
        };
        let h = (sp & 0x0F) as u32 + (b & 0x0F) as u32 > 0x0F;
        let c = (sp & 0xFF) as u32 + b as u32 > 0xFF;
        (v, Self::make_flags(false, false, h, c))
    }

    fn shift_op(&mut self, op: u8, val: u8) -> (r: u8)
        ensures
            (r, final(self).f) == shift_result(*old(self), op, val),
            *final(self) == with_f(*old(self), final(self).f),
    {
        let old_c = self.carry_bit();
        let (r, c) = if op == 0 {
            ((val << 1u8) | (val >> 7u8), val >> 7u8 != 0)
        } else if op == 1 {
            ((val >> 1u8) | ((val & 1) << 7u8), val & 1 != 0)
        } else if op == 2 {
            ((val << 1u8) | old_c, val >> 7u8 != 0)
        } else if op == 3 {
            ((val >> 1u8) | (old_c << 7u8), val & 1 != 0)
        } else if op == 4 {
            (val << 1u8, val >> 7u8 != 0)
        } else if op == 5 {
            ((val >> 1u8) | (val & 0x80), val & 1 != 0)
        } else if op == 6 {
            ((val >> 4u8) | (val << 4u8), false)
        } else {
            (val >> 1u8, val & 1 != 0)
        };
        self.f = Self::make_flags(r == 0, false, false, c);
        r
    }

    fn get_reg<B: Sm83Bus>(&self, idx: u8, bus: &B) -> (v: u8)
        requires
            bus.inv(),
        ensures
            v == reg_read(*self, idx, bus.model()),
    {
        if idx == 0 {
            self.b
        } else if idx == 1 {
            self.c
        } else if idx == 2 {
            self.d
        } else if idx == 3 {
            self.e
        } else if idx == 4 {
            self.h
        } else if idx == 5 {
            self.l
        } else if idx == 6 {
            bus.read(self.hl())
        } else {
            self.a
        }
    }

    fn set_reg<B: Sm83Bus>(&mut self, idx: u8, val: u8, bus: &mut B)
        requires
            old(bus).inv(),
        ensures
            final(bus).inv(),
            (*final(self), final(bus).model()) == reg_write(*old(self), idx, val, old(bus).model()),
    {
        if idx == 0 {
            self.b = val;
        } else if idx == 1 {
            self.c = val;
        } else if idx == 2 {
            self.d = val;
        } else if idx == 3 {
            self.e = val;
        } else if idx == 4 {
            self.h = val;
        } else if idx == 5 {
            self.l = val;
        } else if idx == 6 {
            bus.write(self.hl(), val);
        } else {
            self.a = val;
        }
    }

    fn cond(&self, cc: u8) -> (r: bool)
        ensures
            r == cond_holds(*self, cc),
    {
        if cc == 0 {
            !self.flag(FLAG_Z)
        } else if cc == 1 {
            self.flag(FLAG_Z)
        } else if cc == 2 {
            !self.flag(FLAG_C)
        } else {
            self.flag(FLAG_C)
        }
    }

    fn jump_relative(&mut self, e: u8)
        ensures
            *final(self) == with_pc(*old(self), add16_signed(old(self).pc, sext8(e))),
    {
        if e < 128 {
            self.pc = self.pc.wrapping_add(e as u16);
        } else {
            self.pc = self.pc.wrapping_sub(256 - e as u16);
        }
    }

    #[verifier::rlimit(30)]
    fn daa(&mut self)
        ensures
            *final(self) == daa_spec(*old(self)),
    {
        let a0 = self.a as u16;
        let n = self.flag(FLAG_N);
        let h = self.flag(FLAG_H);
        let c = self.flag(FLAG_C);
        proof {
            crate::bits::lemma_u16_nibble(a0);
        }
        let mut a: u16 = a0;
        if !n {
            if h || (a & 0x0F) > 9 {
                a = a + 0x06;
            }
            if c || a > 0x9F {
                a = a + 0x60;
            }
        } else {
            if h {
                a = if a >= 6 { a - 6 } else { a + 250 };
            }
            if c {
                a = if a >= 0x60 { a - 0x60 } else { (a as u32 + 0x10000 - 0x60) as u16 };
            }
        }
        let carry_out = c || a & 0x100 != 0;
        let r = a as u8;
        proof {
            assert(r == a % 256 && (a & 0x100 != 0 <==> (a / 256) % 2 == 1)) by (bit_vector)
                requires
                    r == a as u8,
            ;
        }
        self.a = r;
        self.f = Self::make_flags(r == 0, n, false, carry_out);
    }

    /// Dispatches a pending, enabled interrupt: clears its request bit, pushes
    /// PC and jumps to the vector. Returns the cycles taken (0 if none).
    pub fn handle_interrupts<B: Sm83Bus>(&mut self, bus: &mut B) -> (cycles: u32)
        requires
            old(bus).inv(),
        ensures
            final(bus).inv(),
            (*final(self), final(bus).model(), cycles) == interrupt_spec(*old(self), old(bus).model()),
    {
        reveal(interrupt_spec);
        let ie = bus.read(0xFFFF);
        let iflag = bus.read(0xFF0F);
        let pending = ie & iflag & 0x1F;

        if pending != 0 {
            self.halted = false;
        }

        if !self.ime || pending == 0 {
            return 0;
        }

        self.ime = false;

        let bit: u8 = if pending & 1 != 0 {
            0
        } else if pending & 2 != 0 {
            1
        } else if pending & 4 != 0 {
            2
        } else if pending & 8 != 0 {
            3
        } else {
            4
        };
        bus.write(0xFF0F, iflag & !(1u8 << bit));

        let pc = self.pc;
        self.push(bus, pc);
        self.pc = 0x0040 + (bit as u16) * 8;
        20
    }

    /// Runs one instruction (or services an interrupt, or idles while halted)
    /// and returns the cycles it took.
    pub fn step<B: Sm83Bus>(&mut self, bus: &mut B) -> (cycles: u32)
        requires
            old(bus).inv(),
            old(self).cycles + 24 <= u64::MAX,
        ensures
            final(bus).inv(),
            (*final(self), final(bus).model(), cycles) == step_spec(*old(self), old(bus).model()),
    {
        if self.ime_pending {
            self.ime_pending = false;
            self.ime = true;
        }

        proof {
            lemma_interrupt_cycles(*self, bus.model());
        }
        let int_cycles = self.handle_interrupts(bus);
        if int_cycles > 0 {
            self.cycles = self.cycles + int_cycles as u64;
            return int_cycles;
        }

        if self.halted {
            self.cycles = self.cycles + 4;
            return 4;
        }

        let opcode = self.read_byte(bus);
        proof {
            lemma_execute_cycles(*self, opcode, bus.model());
        }
        let cycles = self.execute(opcode, bus);
        self.cycles = self.cycles + cycles as u64;
        cycles
    }

    fn execute<B: Sm83Bus>(&mut self, opcode: u8, bus: &mut B) -> (cycles: u32)
        requires
            old(bus).inv(),
        ensures
            final(bus).inv(),
            (*final(self), final(bus).model(), cycles) == execute_spec(*old(self), opcode, old(bus).model()),
    {
        reveal(execute_spec);
        if opcode < 0x40 {
            self.execute_block0(opcode, bus)
        } else if opcode < 0xC0 {
            self.execute_block12(opcode, bus)
        } else if opcode == 0xCB {
            let cb_op = self.read_byte(bus);
            self.execute_cb(cb_op, bus)
        } else {
            self.execute_block3(opcode, bus)
        }
    }

    fn execute_block12<B: Sm83Bus>(&mut self, op: u8, bus: &mut B) -> (cycles: u32)
        requires
            old(bus).inv(),
            0x40 <= op < 0xC0,
        ensures
            final(bus).inv(),
            (*final(self), final(bus).model(), cycles) == exec_block12(*old(self), op, old(bus).model()),
    {
        reveal(exec_block12);
        let src = op & 0x07;
        let dst = (op >> 3u8) & 0x07;
        if op == 0x76 {
            self.halted = true;
            4
        } else if op < 0x80 {
            let v = self.get_reg(src, bus);
            self.set_reg(dst, v, bus);
            if src == 6 || dst == 6 {
                8
            } else {
                4
            }
        } else {
            let v = self.get_reg(src, bus);
            self.alu_op(dst, v);
            if src == 6 {
                8
            } else {
                4
            }
        }
    }

    fn execute_cb<B: Sm83Bus>(&mut self, op: u8, bus: &mut B) -> (cycles: u32)
        requires
            old(bus).inv(),
        ensures
            final(bus).inv(),
            (*final(self), final(bus).model(), cycles) == exec_cb(*old(self), op, old(bus).model()),
    {
        reveal(exec_cb);
        let idx = op & 0x07;
        let val = self.get_reg(idx, bus);
        let bit = (op >> 3u8) & 0x07;
        let group = op >> 6u8;
        proof {
            assert((op >> 3u8) & 0x07 < 8) by {
                crate::bits::lemma_and_le_u8((op >> 3u8), 0x07);
            }
        }
        if group == 1 {
            let c = self.flag(FLAG_C);
            self.f = Self::make_flags(val & (1u8 << bit) == 0, false, true, c);
            return if idx == 6 {
                12
            } else {
                8
            };
        }
        let r = if group == 0 {
            self.shift_op(bit, val)
        } else if group == 2 {
            val & !(1u8 << bit)
        } else {
            val | (1u8 << bit)
        };
        self.set_reg(idx, r, bus);
        if idx == 6 {
            16
        } else {
            8
        }
    }

    #[verifier::rlimit(60)]
    fn execute_block0<B: Sm83Bus>(&mut self, op: u8, bus: &mut B) -> (cycles: u32)
        requires
            old(bus).inv(),
            op < 0x40,
        ensures
            final(bus).inv(),
            (*final(self), final(bus).model(), cycles) == exec_block0(*old(self), op, old(bus).model()),
    {
        reveal(exec_block0);
        proof {
            crate::bits::lemma_u8_fields(op);
        }
        let col = op & 0x0F;
        let row = op >> 4u8;
        if op == 0x00 {
            4
        } else if op == 0x10 {
            self.stopped = true;
            self.pc = self.pc.wrapping_add(1);
            4
        } else if col == 0x01 {
            let v = self.read_word(bus);
            if row == 0 {
                self.set_bc(v);
            } else if row == 1 {
                self.set_de(v);
            } else if row == 2 {
                self.set_hl(v);
            } else {
                self.sp = v;
            }
            12
        } else if col == 0x02 || col == 0x0A {
            let addr = if row == 0 {
                self.bc()
            } else if row == 1 {
                self.de()
            } else {
                self.hl()
            };
            let hl = self.hl();
            if row == 2 {
                self.set_hl(hl.wrapping_add(1));
            } else if row == 3 {
                self.set_hl(hl.wrapping_sub(1));
            }
            if col == 0x02 {
                bus.write(addr, self.a);
            } else {
                self.a = bus.read(addr);
            }
            8
        } else if col == 0x03 || col == 0x0B {
            let inc = col == 0x03;
            if row == 0 {
                let v = self.bc();
                self.set_bc(if inc { v.wrapping_add(1) } else { v.wrapping_sub(1) });
            } else if row == 1 {
                let v = self.de();
                self.set_de(if inc { v.wrapping_add(1) } else { v.wrapping_sub(1) });
            } else if row == 2 {
                let v = self.hl();
                self.set_hl(if inc { v.wrapping_add(1) } else { v.wrapping_sub(1) });
            } else {
                self.sp = if inc { self.sp.wrapping_add(1) } else { self.sp.wrapping_sub(1) };
            }
            8
        } else if col == 0x09 {
            let v = if row == 0 {
                self.bc()
            } else if row == 1 {
                self.de()
            } else if row == 2 {
                self.hl()
            } else {
                self.sp
            };
            self.alu_add16(v);
            8
        } else if col == 0x04 || col == 0x05 || col == 0x0C || col == 0x0D {
            let idx = op >> 3u8;
            let val = self.get_reg(idx, bus);
            let r = if col == 0x04 || col == 0x0C {
                self.alu_inc(val)
            } else {
                self.alu_dec(val)
            };
            self.set_reg(idx, r, bus);
            if idx == 6 {
                12
            } else {
                4
            }
        } else if col == 0x06 || col == 0x0E {
            let idx = op >> 3u8;
            let v = self.read_byte(bus);
            self.set_reg(idx, v, bus);
            if idx == 6 {
                12
            } else {
                8
            }
        } else if op == 0x07 || op == 0x0F || op == 0x17 || op == 0x1F {
            let a = self.a;
            let r = self.shift_op(op >> 3u8, a);
            let c = if op == 0x07 || op == 0x17 {
                a >> 7u8 != 0
            } else {
                a & 1 != 0
            };
            self.a = r;
            self.f = Self::make_flags(false, false, false, c);
            4
        } else if op == 0x08 {
            let addr = self.read_word(bus);
            bus.write(addr, self.sp as u8);
            bus.write(addr.wrapping_add(1), (self.sp >> 8u16) as u8);
            20
        } else if op == 0x18 {
            let e = self.read_byte(bus);
            self.jump_relative(e);
            12
        } else if op == 0x20 || op == 0x28 || op == 0x30 || op == 0x38 {
            let taken = self.cond((op >> 3u8) & 3);
            let e = self.read_byte(bus);
            if taken {
                self.jump_relative(e);
                12
            } else {
                8
            }
        } else if op == 0x27 {
            self.daa();
            4
        } else if op == 0x2F {
            let z = self.flag(FLAG_Z);
            let c = self.flag(FLAG_C);
            self.a = !self.a;
            self.f = Self::make_flags(z, true, true, c);
            4
        } else if op == 0x37 {
            let z = self.flag(FLAG_Z);
            self.f = Self::make_flags(z, false, false, true);
            4
        } else {
            let z = self.flag(FLAG_Z);
            let c = self.flag(FLAG_C);
            self.f = Self::make_flags(z, false, false, !c);
            4
        }
    }

    #[verifier::rlimit(60)]
    fn execute_block3<B: Sm83Bus>(&mut self, op: u8, bus: &mut B) -> (cycles: u32)
        requires
            old(bus).inv(),
            op >= 0xC0,
            op != 0xCB,
        ensures
            final(bus).inv(),
            (*final(self), final(bus).model(), cycles) == exec_block3(*old(self), op, old(bus).model()),
    {
        reveal(exec_block3);
        proof {
            crate::bits::lemma_u8_fields(op);
        }
        let col = op & 0x0F;
        let cc = (op >> 3u8) & 3;
        if op == 0xC0 || op == 0xC8 || op == 0xD0 || op == 0xD8 {
            if self.cond(cc) {
                self.pc = self.pop(bus);
                20
            } else {
                8
            }
        } else if op == 0xC9 || op == 0xD9 {
            self.pc = self.pop(bus);
            if op == 0xD9 {
                self.ime = true;
            }
            16
        } else if col == 0x01 {
            let v = self.pop(bus);
            if op == 0xC1 {
                self.set_bc(v);
            } else if op == 0xD1 {
                self.set_de(v);
            } else if op == 0xE1 {
                self.set_hl(v);
            } else {
                self.set_af(v);
            }
            12
        } else if col == 0x05 {
            let v = if op == 0xC5 {
                self.bc()
            } else if op == 0xD5 {
                self.de()
            } else if op == 0xE5 {
                self.hl()
            } else {
                self.af()
            };
            self.push(bus, v);
            16
        } else if op == 0xC2 || op == 0xCA || op == 0xD2 || op == 0xDA {
            let taken = self.cond(cc);
            let addr = self.read_word(bus);
            if taken {
                self.pc = addr;
                16
            } else {
                12
            }
        } else if op == 0xC3 {
            self.pc = self.read_word(bus);
            16
        } else if op == 0xC4 || op == 0xCC || op == 0xD4 || op == 0xDC || op == 0xCD {
            let taken = op == 0xCD || self.cond(cc);
            let addr = self.read_word(bus);
            if taken {
                let pc = self.pc;
                self.push(bus, pc);
                self.pc = addr;
                24
            } else {
                12
            }
        } else if col == 0x07 || col == 0x0F {
            let pc = self.pc;
            self.push(bus, pc);
            self.pc = (op - 0xC7) as u16;
            16
        } else if col == 0x06 || col == 0x0E {
            let v = self.read_byte(bus);
            self.alu_op((op >> 3u8) & 7, v);
            8
        } else if op == 0xE0 {
            let offset = self.read_byte(bus) as u16;
            bus.write(0xFF00 + offset, self.a);
            12
        } else if op == 0xF0 {
            let offset = self.read_byte(bus) as u16;
            self.a = bus.read(0xFF00 + offset);
            12
        } else if op == 0xE2 {
            bus.write(0xFF00 + self.c as u16, self.a);
            8
        } else if op == 0xF2 {
            self.a = bus.read(0xFF00 + self.c as u16);
            8
        } else if op == 0xE8 {
            let (v, f) = self.sp_plus_imm(bus);
            self.sp = v;
            self.f = f;
            16
        } else if op == 0xF8 {
            let (v, f) = self.sp_plus_imm(bus);
            self.f = f;
            self.set_hl(v);
            12
        } else if op == 0xE9 {
            self.pc = self.hl();
            4
        } else if op == 0xF9 {
            self.sp = self.hl();
            8
        } else if op == 0xEA {
            let addr = self.read_word(bus);
            bus.write(addr, self.a);
            16
        } else if op == 0xFA {
            let addr = self.read_word(bus);
            self.a = bus.read(addr);
            16
        } else if op == 0xF3 {
            self.ime = false;
            4
        } else if op == 0xFB {
            self.ime_pending = true;
            4
        } else {
            // Opcodes that the SM83 does not define: consumed as a 4-cycle no-op.
            4
        }
    }
}

} // verus!
