use vstd::prelude::*;

verus! {

/// Processor modes of the ARM7TDMI.
#[derive(Debug, Clone, Copy, PartialEq, Eq, Structural)]
pub enum CpuMode {
    User,
    Fiq,
    Irq,
    Supervisor,
    Abort,
    Undefined,
    System,
}

/// The mode encoded in the low five bits of a status register; unknown
/// encodings read as User.
pub open spec fn mode_of(bits: u32) -> CpuMode {
    let m = bits & 0x1F;
    if m == 0x11 {
        CpuMode::Fiq
    } else if m == 0x12 {
        CpuMode::Irq
    } else if m == 0x13 {
        CpuMode::Supervisor
    } else if m == 0x17 {
        CpuMode::Abort
    } else if m == 0x1B {
        CpuMode::Undefined
    } else if m == 0x1F {
        CpuMode::System
    } else {
        CpuMode::User
    }
}

/// The five-bit encoding of a mode.
pub open spec fn mode_bits(m: CpuMode) -> u32 {
    match m {
        CpuMode::User => 0x10,
        CpuMode::Fiq => 0x11,
        CpuMode::Irq => 0x12,
        CpuMode::Supervisor => 0x13,
        CpuMode::Abort => 0x17,
        CpuMode::Undefined => 0x1B,
        CpuMode::System => 0x1F,
    }
}

/// The register bank used by a mode (User and System share bank 0).
pub open spec fn bank_of(m: CpuMode) -> int {
    match m {
        CpuMode::User | CpuMode::System => 0,
        CpuMode::Fiq => 1,
        CpuMode::Irq => 2,
        CpuMode::Supervisor => 3,
        CpuMode::Abort => 4,
        CpuMode::Undefined => 5,
    }
}

impl CpuMode {
    pub fn from_bits(bits: u32) -> (m: Self)
        ensures
            m == mode_of(bits),
    {
        let b = bits & 0x1F;
        if b == 0x11 {
            CpuMode::Fiq
        } else if b == 0x12 {
            CpuMode::Irq
        } else if b == 0x13 {
            CpuMode::Supervisor
        } else if b == 0x17 {
            CpuMode::Abort
        } else if b == 0x1B {
            CpuMode::Undefined
        } else if b == 0x1F {
            CpuMode::System
        } else {
            CpuMode::User
        }
    }

    /// The five-bit encoding of this mode.
    pub fn bits(self) -> (b: u32)
        ensures
            b == mode_bits(self),
    {
        match self {
            CpuMode::User => 0x10,
            CpuMode::Fiq => 0x11,
            CpuMode::Irq => 0x12,
            CpuMode::Supervisor => 0x13,
            CpuMode::Abort => 0x17,
            CpuMode::Undefined => 0x1B,
            CpuMode::System => 0x1F,
        }
    }

    fn bank_index(self) -> (i: usize)
        ensures
            i == bank_of(self),
            i < 6,
    {
        match self {
            CpuMode::User | CpuMode::System => 0,
            CpuMode::Fiq => 1,
            CpuMode::Irq => 2,
            CpuMode::Supervisor => 3,
            CpuMode::Abort => 4,
            CpuMode::Undefined => 5,
        }
    }
}

/// What the CPU observes of a bus: the value each read returns, and the
/// bus after each access (halfword and word reads may change it, as a
/// serial EEPROM does).
///
/// A model that says nothing of its bus keeps the defaults: reads give 0 and
/// no access changes what the CPU can observe.
pub trait BusModel: Sized {
    open spec fn read8_spec(&self, addr: u32) -> u8 {
        0
    }

    open spec fn read16_spec(&self, addr: u32) -> (u16, Self) {
        (0, *self)
    }

    open spec fn read32_spec(&self, addr: u32) -> (u32, Self) {
        (0, *self)
    }

    open spec fn write8_spec(&self, addr: u32, val: u8) -> Self {
        *self
    }

    open spec fn write16_spec(&self, addr: u32, val: u16) -> Self {
        *self
    }

    open spec fn write32_spec(&self, addr: u32, val: u32) -> Self {
        *self
    }
}

/// The memory seen by the CPU, described by its model.
pub trait Arm7Bus: Sized {
    type Model: BusModel;

    /// The model of this bus; a bus that does not describe itself has an
    /// unspecified one.
    open spec fn model(&self) -> Self::Model {
        vstd::pervasive::arbitrary()
    }

    /// What the bus keeps between accesses.
    open spec fn inv(&self) -> bool {
        true
    }

    fn read8(&self, addr: u32) -> (v: u8)
        requires
            self.inv(),
        ensures
            v == self.model().read8_spec(addr),
    ;

    fn read16(&mut self, addr: u32) -> (v: u16)
        requires
            old(self).inv(),
        ensures
            final(self).inv(),
            (v, final(self).model()) == old(self).model().read16_spec(addr),
    ;

    fn read32(&mut self, addr: u32) -> (v: u32)
        requires
            old(self).inv(),
        ensures
            final(self).inv(),
            (v, final(self).model()) == old(self).model().read32_spec(addr),
    ;

    fn write8(&mut self, addr: u32, val: u8)
        requires
            old(self).inv(),
        ensures
            final(self).inv(),
            final(self).model() == old(self).model().write8_spec(addr, val),
    ;

    fn write16(&mut self, addr: u32, val: u16)
        requires
            old(self).inv(),
        ensures
            final(self).inv(),
            final(self).model() == old(self).model().write16_spec(addr, val),
    ;

    fn write32(&mut self, addr: u32, val: u32)
        requires
            old(self).inv(),
        ensures
            final(self).inv(),
            final(self).model() == old(self).model().write32_spec(addr, val),
    ;
}

pub const CPSR_N: u32 = 0x8000_0000;
pub const CPSR_Z: u32 = 0x4000_0000;
pub const CPSR_C: u32 = 0x2000_0000;
pub const CPSR_V: u32 = 0x1000_0000;
pub const CPSR_I: u32 = 0x80;
pub const CPSR_F: u32 = 0x40;
pub const CPSR_T: u32 = 0x20;

/// The ARM7TDMI core used by the GBA (and as the Nintendo DS ARM7/ARM9).
pub struct Arm7Tdmi {
    pub regs: [u32; 16],
    pub cpsr: u32,
    pub spsr: [u32; 6],
    /// R8-R14 saved for each bank (index 5 is R13, 6 is R14).
    pub banked_regs: [[u32; 7]; 6],
    pub cycles: u64,
    pub halted: bool,
}

/// The architectural state of the core.
#[verifier::ext_equal]
pub struct ArmState {
    pub regs: Seq<u32>,
    pub cpsr: u32,
    pub spsr: Seq<u32>,
    pub banked: Seq<[u32; 7]>,
    pub cycles: u64,
    pub halted: bool,
}

impl View for Arm7Tdmi {
    type V = ArmState;

    open spec fn view(&self) -> ArmState {
        ArmState {
            regs: self.regs@,
            cpsr: self.cpsr,
            spsr: self.spsr@,
            banked: self.banked_regs@,
            cycles: self.cycles,
            halted: self.halted,
        }
    }
}

/// A well-formed state: sixteen registers, six saved status registers and six banks.
pub open spec fn arm_wf(s: ArmState) -> bool {
    s.regs.len() == 16 && s.spsr.len() == 6 && s.banked.len() == 6
}

// ---------------------------------------------------------------------------
// Model helpers
// ---------------------------------------------------------------------------

pub open spec fn set_bit(word: u32, mask: u32, on: bool) -> u32 {
    if on {
        word | mask
    } else {
        word & !mask
    }
}

pub open spec fn with_reg(s: ArmState, i: int, v: u32) -> ArmState {
    ArmState { regs: s.regs.update(i, v), ..s }
}

pub open spec fn with_cpsr(s: ArmState, cpsr: u32) -> ArmState {
    ArmState { cpsr, ..s }
}

/// N and Z set from a result.
pub open spec fn nz_of(cpsr: u32, r: u32) -> u32 {
    set_bit(set_bit(cpsr, CPSR_Z, r == 0), CPSR_N, r & 0x8000_0000 != 0)
}

pub open spec fn flag_c(cpsr: u32) -> bool {
    cpsr & CPSR_C != 0
}

/// Rotation of a word to the right by `r` bits (r < 32).
pub open spec fn rotr(x: u32, r: u32) -> u32 {
    if r == 0 {
        x
    } else {
        (x >> r) | (x << ((32 - r) as u32))
    }
}

/// Arithmetic (sign-propagating) shift right by `r` bits (r < 32).
pub open spec fn asr(x: u32, r: u32) -> u32 {
    if x & 0x8000_0000 != 0 {
        !((!x) >> r)
    } else {
        x >> r
    }
}

/// The barrel shifter for a nonzero amount: the result and the carry out.
pub open spec fn shift_spec(val: u32, shift_type: u32, amount: u32) -> (u32, bool) {
    if amount == 0 {
        (val, false)
    } else if shift_type == 0 {
        if amount >= 32 {
            (0, amount == 32 && val & 1 != 0)
        } else {
            (val << amount, val & (1u32 << ((32 - amount) as u32)) != 0)
        }
    } else if shift_type == 1 {
        if amount >= 32 {
            (0, amount == 32 && val & 0x8000_0000 != 0)
        } else {
            (val >> amount, val & (1u32 << ((amount - 1) as u32)) != 0)
        }
    } else if shift_type == 2 {
        if amount >= 32 {
            let c = val & 0x8000_0000 != 0;
            (if c { 0xFFFF_FFFF } else { 0 }, c)
        } else {
            (asr(val, amount), val & (1u32 << ((amount - 1) as u32)) != 0)
        }
    } else {
        let amt = amount & 31;
        if amt == 0 {
            (val, val & 0x8000_0000 != 0)
        } else {
            (rotr(val, amt), val & (1u32 << ((amt - 1) as u32)) != 0)
        }
    }
}

/// Sign extension of the low `bits` bits.
pub open spec fn sext(x: u32, bits: u32) -> u32 {
    if x & (1u32 << ((bits - 1) as u32)) != 0 {
        x | !(((1u32 << bits) - 1) as u32)
    } else {
        x
    }
}

/// Subtraction `a - b - (1 - carry_in)`: result, carry (not borrow) and overflow.
pub open spec fn sub_flags(a: u32, b: u32, borrow_in: u32) -> (u32, bool, bool) {
    let r = a.wrapping_sub(b).wrapping_sub(borrow_in);
    (r, a as int >= b as int + borrow_in as int, ((a ^ b) & (a ^ r)) >> 31u32 != 0)
}

/// Addition `a + b + carry_in`: result, carry and overflow.
pub open spec fn add_flags(a: u32, b: u32, carry_in: u32) -> (u32, bool, bool) {
    let r = a.wrapping_add(b).wrapping_add(carry_in);
    (r, a as int + b as int + carry_in as int > 0xFFFF_FFFF, (!(a ^ b) & (a ^ r)) >> 31u32 != 0)
}

/// The status word after an arithmetic operation that sets N, Z, C and V.
pub open spec fn arith_cpsr(cpsr: u32, res: (u32, bool, bool)) -> u32 {
    set_bit(set_bit(nz_of(cpsr, res.0), CPSR_C, res.1), CPSR_V, res.2)
}

/// The status word after a logical operation that sets N, Z and C.
pub open spec fn logic_cpsr(cpsr: u32, r: u32, c: bool) -> u32 {
    set_bit(nz_of(cpsr, r), CPSR_C, c)
}

pub open spec fn condition_spec(cpsr: u32, cond: u32) -> bool {
    let n = cpsr & CPSR_N != 0;
    let z = cpsr & CPSR_Z != 0;
    let c = cpsr & CPSR_C != 0;
    let v = cpsr & CPSR_V != 0;
    if cond == 0x0 {
        z
    } else if cond == 0x1 {
        !z
    } else if cond == 0x2 {
        c
    } else if cond == 0x3 {
        !c
    } else if cond == 0x4 {
        n
    } else if cond == 0x5 {
        !n
    } else if cond == 0x6 {
        v
    } else if cond == 0x7 {
        !v
    } else if cond == 0x8 {
        c && !z
    } else if cond == 0x9 {
        !c || z
    } else if cond == 0xA {
        n == v
    } else if cond == 0xB {
        n != v
    } else if cond == 0xC {
        !z && n == v
    } else if cond == 0xD {
        z || n != v
    } else {
        true
    }
}

/// Saving R8-R14 into a FIQ bank.
pub open spec fn fiq_saved(bank: [u32; 7], regs: Seq<u32>) -> [u32; 7] {
    vstd::array::spec_array_update(
        vstd::array::spec_array_update(
            vstd::array::spec_array_update(
                vstd::array::spec_array_update(
                    vstd::array::spec_array_update(
                        vstd::array::spec_array_update(vstd::array::spec_array_update(bank, 0, regs[8]), 1, regs[9]),
                        2,
                        regs[10],
                    ),
                    3,
                    regs[11],
                ),
                4,
                regs[12],
            ),
            5,
            regs[13],
        ),
        6,
        regs[14],
    )
}

/// Restoring R8-R14 from a FIQ bank.
pub open spec fn fiq_loaded(regs: Seq<u32>, bank: [u32; 7]) -> Seq<u32> {
    regs.update(8, bank[0]).update(9, bank[1]).update(10, bank[2]).update(11, bank[3]).update(
        12,
        bank[4],
    ).update(13, bank[5]).update(14, bank[6])
}

/// Changing mode: the banked registers of the old mode are saved and those
/// of the new mode loaded; the mode bits of CPSR are replaced.
pub open spec fn switch_mode_spec(s: ArmState, new_mode: CpuMode) -> ArmState {
    let old_mode = mode_of(s.cpsr);
    if old_mode == new_mode {
        s
    } else {
        let ob = bank_of(old_mode);
        let nb = bank_of(new_mode);
        let saved = if old_mode == CpuMode::Fiq {
            fiq_saved(s.banked[ob], s.regs)
        } else {
            vstd::array::spec_array_update(vstd::array::spec_array_update(s.banked[ob], 5, s.regs[13]), 6, s.regs[14])
        };
        let banked = s.banked.update(ob, saved);
        let regs = if new_mode == CpuMode::Fiq {
            fiq_loaded(s.regs, banked[nb])
        } else {
            s.regs.update(13, banked[nb][5]).update(14, banked[nb][6])
        };
        ArmState { regs, banked, cpsr: (s.cpsr & !0x1Fu32) | mode_bits(new_mode), ..s }
    }
}

/// Restoring CPSR from the SPSR of the current mode (exception return).
pub open spec fn restore_cpsr_spec(s: ArmState) -> ArmState {
    let new_cpsr = s.spsr[bank_of(mode_of(s.cpsr))];
    with_cpsr(switch_mode_spec(s, mode_of(new_cpsr)), new_cpsr)
}

/// Entering the IRQ exception (unless IRQs are masked).
pub open spec fn irq_spec(s: ArmState) -> ArmState {
    if s.cpsr & CPSR_I != 0 {
        s
    } else {
        let s1 = switch_mode_spec(s, CpuMode::Irq);
        let s2 = ArmState {
            spsr: s1.spsr.update(2, s.cpsr),
            regs: s1.regs.update(14, s1.regs[15].wrapping_add(4)).update(15, 0x18),
            cpsr: (s1.cpsr & !CPSR_T) | CPSR_I,
            halted: false,
            ..s1
        };
        s2
    }
}

// ---------------------------------------------------------------------------
// ARM state instructions (PC already advanced past the instruction)
// ---------------------------------------------------------------------------

/// The value of register `i` as an operand (PC reads 8 bytes ahead).
pub open spec fn operand_reg(s: ArmState, i: int) -> u32 {
    if i == 15 {
        s.regs[15].wrapping_add(4)
    } else {
        s.regs[i]
    }
}

/// Operand 2 of a data-processing instruction and the shifter carry.
pub open spec fn dp_operand2(s: ArmState, instr: u32) -> (u32, bool) {
    let old_c = flag_c(s.cpsr);
    if instr & 0x0200_0000 != 0 {
        let imm = instr & 0xFF;
        let rot = ((instr >> 8u32) & 0xF) * 2;
        let val = rotr(imm, rot as u32);
        (val, if rot == 0 { old_c } else { val & 0x8000_0000 != 0 })
    } else {
        let rm_val = operand_reg(s, (instr & 0xF) as int);
        let shift_type = (instr >> 5u32) & 3;
        let by_reg = instr & 0x10 != 0;
        let amount = if by_reg {
            s.regs[((instr >> 8u32) & 0xF) as int] & 0xFF
        } else {
            (instr >> 7u32) & 0x1F
        };
        if amount == 0 && !by_reg {
            if shift_type == 0 {
                (rm_val, old_c)
            } else if shift_type == 1 {
                (0, rm_val & 0x8000_0000 != 0)
            } else if shift_type == 2 {
                if rm_val & 0x8000_0000 != 0 {
                    (0xFFFF_FFFF, true)
                } else {
                    (0, false)
                }
            } else {
                ((rm_val >> 1u32) | (if old_c { 0x8000_0000u32 } else { 0u32 }), rm_val & 1 != 0)
            }
        } else if amount == 0 {
            (rm_val, old_c)
        } else {
            shift_spec(rm_val, shift_type, amount)
        }
    }
}

/// A data-processing instruction whose register-specified shift the
/// implementation does not define (LSR/ASR by a register holding 0).
pub open spec fn dp_undefined_shift(s: ArmState, instr: u32) -> bool {
    instr & 0x0200_0000 == 0 && instr & 0x10 != 0 && s.regs[((instr >> 8u32) & 0xF) as int] & 0xFF
        == 0 && ((instr >> 5u32) & 3 == 1 || (instr >> 5u32) & 3 == 2)
}

/// Data processing (AND ... MVN).
pub open spec fn dp_spec(s: ArmState, instr: u32) -> ArmState {
    let opcode = (instr >> 21u32) & 0xF;
    let set_flags = instr & 0x0010_0000 != 0;
    let rn = ((instr >> 16u32) & 0xF) as int;
    let rd = ((instr >> 12u32) & 0xF) as int;
    let op1 = operand_reg(s, rn);
    let (op2, carry_out) = dp_operand2(s, instr);
    let c_in: u32 = if flag_c(s.cpsr) { 1 } else { 0 };
    let logical = opcode == 0 || opcode == 1 || opcode == 8 || opcode == 9 || opcode >= 0xC;
    let result: u32 = if opcode == 0 || opcode == 8 {
        op1 & op2
    } else if opcode == 1 || opcode == 9 {
        op1 ^ op2
    } else if opcode == 2 || opcode == 0xA {
        sub_flags(op1, op2, 0).0
    } else if opcode == 3 {
        sub_flags(op2, op1, 0).0
    } else if opcode == 4 || opcode == 0xB {
        add_flags(op1, op2, 0).0
    } else if opcode == 5 {
        add_flags(op1, op2, c_in).0
    } else if opcode == 6 {
        sub_flags(op1, op2, (1 - c_in) as u32).0
    } else if opcode == 7 {
        sub_flags(op2, op1, (1 - c_in) as u32).0
    } else if opcode == 0xC {
        op1 | op2
    } else if opcode == 0xD {
        op2
    } else if opcode == 0xE {
        op1 & !op2
    } else {
        !op2
    };
    let arith = if opcode == 2 || opcode == 0xA {
        sub_flags(op1, op2, 0)
    } else if opcode == 3 {
        sub_flags(op2, op1, 0)
    } else if opcode == 4 || opcode == 0xB {
        add_flags(op1, op2, 0)
    } else if opcode == 5 {
        add_flags(op1, op2, c_in)
    } else if opcode == 6 {
        sub_flags(op1, op2, (1 - c_in) as u32)
    } else {
        sub_flags(op2, op1, (1 - c_in) as u32)
    };
    let test = 8 <= opcode <= 0xB;
    let cpsr1 = if set_flags || test {
        if logical {
            logic_cpsr(s.cpsr, result, carry_out)
        } else {
            arith_cpsr(s.cpsr, arith)
        }
    } else {
        s.cpsr
    };
    let s1 = if test {
        with_cpsr(s, cpsr1)
    } else {
        with_reg(with_cpsr(s, cpsr1), rd, result)
    };
    if rd == 15 && set_flags {
        restore_cpsr_spec(s1)
    } else {
        s1
    }
}

/// Setting the carry bit of a status word, then possibly the overflow bit,
/// leaves the carry as it was set.
pub proof fn lemma_carry_bit(x: u32, c: bool, v: bool)
    by (bit_vector)
    ensures
        (set_bit(set_bit(x, CPSR_C, c), CPSR_V, v) & CPSR_C != 0) == c,
        (set_bit(x, CPSR_C, c) & CPSR_C != 0) == c,
{
}

/// What a data-processing instruction writing a register other than R15
/// leaves, with `a` the value of Rn and `b` operand 2 and `c` the carry
/// before it: SUB a - b, RSB b - a, ADD a + b, ADC a + b + c, SBC
/// a - b - 1 + c, RSC b - a - 1 + c (all modulo 2^32), AND, EOR, ORR and
/// BIC bitwise, MOV b, MVN the complement of b; the compares write no
/// register. With S set (always for the compares) the carry is "no
/// borrow" for the subtractions, the carry out of bit 31 for the
/// additions, and the shifter's carry for the logical operations.
#[verifier::rlimit(40)]
pub proof fn lemma_dp_results(s: ArmState, instr: u32)
    requires
        arm_wf(s),
        (instr >> 12u32) & 0xF != 15,
    ensures
        ({
            let opcode = (instr >> 21u32) & 0xF;
            let rd = ((instr >> 12u32) & 0xF) as int;
            let a = operand_reg(s, ((instr >> 16u32) & 0xF) as int);
            let b = dp_operand2(s, instr).0;
            let shifter_carry = dp_operand2(s, instr).1;
            let c: int = if flag_c(s.cpsr) { 1 } else { 0 };
            let m = 0x1_0000_0000int;
            let out = dp_spec(s, instr);
            let r = out.regs[rd] as int;
            let flags = instr & 0x0010_0000 != 0 || 8 <= opcode <= 0xB;
            &&& opcode == 0 ==> out.regs[rd] == a & b
            &&& opcode == 1 ==> out.regs[rd] == a ^ b
            &&& opcode == 2 ==> r == (a - b) % m
            &&& opcode == 3 ==> r == (b - a) % m
            &&& opcode == 4 ==> r == (a + b) % m
            &&& opcode == 5 ==> r == (a + b + c) % m
            &&& opcode == 6 ==> r == (a - b - 1 + c) % m
            &&& opcode == 7 ==> r == (b - a - 1 + c) % m
            &&& opcode == 0xC ==> out.regs[rd] == a | b
            &&& opcode == 0xD ==> out.regs[rd] == b
            &&& opcode == 0xE ==> out.regs[rd] == a & !b
            &&& opcode == 0xF ==> out.regs[rd] == !b
            &&& 8 <= opcode <= 0xB ==> out.regs == s.regs
            &&& flags && (opcode == 2 || opcode == 0xA) ==> flag_c(out.cpsr) == (a >= b)
            &&& flags && opcode == 3 ==> flag_c(out.cpsr) == (b >= a)
            &&& flags && (opcode == 4 || opcode == 0xB) ==> flag_c(out.cpsr) == (a + b >= m)
            &&& flags && opcode == 5 ==> flag_c(out.cpsr) == (a + b + c >= m)
            &&& flags && opcode == 6 ==> flag_c(out.cpsr) == (a + c >= b + 1)
            &&& flags && opcode == 7 ==> flag_c(out.cpsr) == (b + c >= a + 1)
            &&& flags && (opcode <= 1 || opcode == 8 || opcode == 9 || opcode >= 0xC) ==> flag_c(out.cpsr)
                == shifter_carry
        }),
{
    let opcode = (instr >> 21u32) & 0xF;
    let rd = ((instr >> 12u32) & 0xF) as int;
    let a = operand_reg(s, ((instr >> 16u32) & 0xF) as int);
    let b = dp_operand2(s, instr).0;
    let c: u32 = if flag_c(s.cpsr) { 1 } else { 0 };
    let m = 0x1_0000_0000int;
    let out = dp_spec(s, instr);
    let r = out.regs[rd] as int;
    let logical = opcode == 0 || opcode == 1 || opcode == 8 || opcode == 9 || opcode >= 0xC;
    let arith = if opcode == 2 || opcode == 0xA {
        sub_flags(a, b, 0)
    } else if opcode == 3 {
        sub_flags(b, a, 0)
    } else if opcode == 4 || opcode == 0xB {
        add_flags(a, b, 0)
    } else if opcode == 5 {
        add_flags(a, b, c)
    } else if opcode == 6 {
        sub_flags(a, b, (1 - c) as u32)
    } else {
        sub_flags(b, a, (1 - c) as u32)
    };
    let result: u32 = if opcode == 0 || opcode == 8 {
        a & b
    } else if opcode == 1 || opcode == 9 {
        a ^ b
    } else if opcode == 0xC {
        a | b
    } else if opcode == 0xD {
        b
    } else if opcode == 0xE {
        a & !b
    } else if opcode == 0xF {
        !b
    } else {
        arith.0
    };
    crate::bits::lemma_and_le_u32(instr >> 12u32, 0xF);
    assert(0 <= rd < 15);
    crate::bits::lemma_and_le_u32(instr >> 21u32, 0xF);
    if opcode == 0 {
        assert(out.regs[rd] == result);
    } else if opcode == 1 {
        assert(out.regs[rd] == result);
    } else if opcode == 2 {
        assert(out.regs[rd] == result);
    } else if opcode == 3 {
        assert(out.regs[rd] == result);
    } else if opcode == 4 {
        assert(out.regs[rd] == result);
    } else if opcode == 5 {
        assert(out.regs[rd] == result);
    } else if opcode == 6 {
        assert(out.regs[rd] == result);
    } else if opcode == 7 {
        assert(out.regs[rd] == result);
    } else if opcode == 0xC {
        assert(out.regs[rd] == result);
    } else if opcode == 0xD {
        assert(out.regs[rd] == result);
    } else if opcode == 0xE {
        assert(out.regs[rd] == result);
    } else if opcode == 0xF {
        assert(out.regs[rd] == result);
    } else {
        assert(out.regs =~= s.regs);
    }
    if instr & 0x0010_0000 != 0 || 8 <= opcode <= 0xB {
        if logical {
            lemma_carry_bit(nz_of(s.cpsr, result), dp_operand2(s, instr).1, false);
            assert(out.cpsr == logic_cpsr(s.cpsr, result, dp_operand2(s, instr).1));
        } else {
            lemma_carry_bit(nz_of(s.cpsr, arith.0), arith.1, arith.2);
            assert(out.cpsr == arith_cpsr(s.cpsr, arith));
        }
    }
}

pub open spec fn mul_spec(s: ArmState, instr: u32) -> (ArmState, u32) {
    let accumulate = instr & 0x0020_0000 != 0;
    let set_flags = instr & 0x0010_0000 != 0;
    let rd = ((instr >> 16u32) & 0xF) as int;
    let rn = ((instr >> 12u32) & 0xF) as int;
    let rs = ((instr >> 8u32) & 0xF) as int;
    let rm = (instr & 0xF) as int;
    let prod = s.regs[rm].wrapping_mul(s.regs[rs]);
    let result = if accumulate {
        prod.wrapping_add(s.regs[rn])
    } else {
        prod
    };
    let s1 = with_reg(s, rd, result);
    (if set_flags { with_cpsr(s1, nz_of(s1.cpsr, result)) } else { s1 }, if accumulate { 2 } else { 1 })
}

/// A word sign-extended to 64 bits.
pub open spec fn sext64(x: u32) -> u64 {
    if x & 0x8000_0000 != 0 {
        (x as u64) | 0xFFFF_FFFF_0000_0000u64
    } else {
        x as u64
    }
}

pub open spec fn mull_spec(s: ArmState, instr: u32) -> (ArmState, u32) {
    let signed = instr & 0x0040_0000 != 0;
    let accumulate = instr & 0x0020_0000 != 0;
    let set_flags = instr & 0x0010_0000 != 0;
    let rdhi = ((instr >> 16u32) & 0xF) as int;
    let rdlo = ((instr >> 12u32) & 0xF) as int;
    let rs = ((instr >> 8u32) & 0xF) as int;
    let rm = (instr & 0xF) as int;
    let a: u64 = if signed { sext64(s.regs[rm]) } else { s.regs[rm] as u64 };
    let b: u64 = if signed { sext64(s.regs[rs]) } else { s.regs[rs] as u64 };
    let prod = a.wrapping_mul(b);
    let acc = ((s.regs[rdhi] as u64) << 32u64) | (s.regs[rdlo] as u64);
    let result = if accumulate {
        prod.wrapping_add(acc)
    } else {
        prod
    };
    let s1 = with_reg(with_reg(s, rdhi, (result >> 32u64) as u32), rdlo, result as u32);
    let s2 = if set_flags {
        with_cpsr(
            s1,
            set_bit(
                set_bit(s1.cpsr, CPSR_Z, result == 0),
                CPSR_N,
                result & 0x8000_0000_0000_0000 != 0,
            ),
        )
    } else {
        s1
    };
    (s2, if accumulate { 3 } else { 2 })
}

/// The byte mask selected by the field bits of MSR.
pub open spec fn msr_mask(mask_bits: u32) -> u32 {
    (if mask_bits & 1 != 0 { 0x0000_00FFu32 } else { 0u32 }) | (if mask_bits & 2 != 0 {
        0x0000_FF00u32
    } else {
        0u32
    }) | (if mask_bits & 4 != 0 { 0x00FF_0000u32 } else { 0u32 }) | (if mask_bits & 8 != 0 {
        0xFF00_0000u32
    } else {
        0u32
    })
}

pub open spec fn msr_spec(s: ArmState, instr: u32) -> ArmState {
    let use_spsr = instr & 0x0040_0000 != 0;
    let mask = msr_mask((instr >> 16u32) & 0xF);
    let val = if instr & 0x0200_0000 != 0 {
        rotr(instr & 0xFF, (((instr >> 8u32) & 0xF) * 2) as u32)
    } else {
        s.regs[(instr & 0xF) as int]
    };
    if use_spsr {
        let idx = bank_of(mode_of(s.cpsr));
        ArmState { spsr: s.spsr.update(idx, (s.spsr[idx] & !mask) | (val & mask)), ..s }
    } else {
        let new_cpsr = (s.cpsr & !mask) | (val & mask);
        let s1 = with_cpsr(s, new_cpsr);
        if (s.cpsr ^ new_cpsr) & 0x1F != 0 {
            // The bank switch sees the new mode bits as the current mode.
            switch_mode_spec(s1, mode_of(new_cpsr))
        } else {
            s1
        }
    }
}

/// The address register updated after a transfer.
pub open spec fn offset_addr(base: u32, offset: u32, up: bool) -> u32 {
    if up {
        base.wrapping_add(offset)
    } else {
        base.wrapping_sub(offset)
    }
}

/// LDR/STR/LDRB/STRB.
pub open spec fn single_transfer_spec<M: BusModel>(s: ArmState, instr: u32, bus: M) -> (
    ArmState,
    M,
    u32,
) {
    let pre = instr & 0x0100_0000 != 0;
    let up = instr & 0x0080_0000 != 0;
    let byte = instr & 0x0040_0000 != 0;
    let writeback = instr & 0x0020_0000 != 0;
    let load = instr & 0x0010_0000 != 0;
    let rn = ((instr >> 16u32) & 0xF) as int;
    let rd = ((instr >> 12u32) & 0xF) as int;
    let base = operand_reg(s, rn);
    let offset = if instr & 0x0200_0000 != 0 {
        shift_spec(s.regs[(instr & 0xF) as int], (instr >> 5u32) & 3, (instr >> 7u32) & 0x1F).0
    } else {
        instr & 0xFFF
    };
    let addr = if pre {
        offset_addr(base, offset, up)
    } else {
        base
    };
    let (s1, bus1) = if load {
        let (val, b1) = if byte {
            (bus.read8_spec(addr) as u32, bus)
        } else {
            let (w, b1) = bus.read32_spec(addr & !3u32);
            (rotr(w, ((addr & 3) * 8) as u32), b1)
        };
        if rd == 15 {
            (
                with_cpsr(
                    with_reg(s, 15, val & !1u32),
                    if val & 1 != 0 { s.cpsr | CPSR_T } else { s.cpsr },
                ),
                b1,
            )
        } else {
            (with_reg(s, rd, val), b1)
        }
    } else {
        let val = operand_reg(s, rd);
        (s, if byte { bus.write8_spec(addr, val as u8) } else { bus.write32_spec(addr & !3u32, val) })
    };
    let post_addr = if !pre {
        offset_addr(base, offset, up)
    } else {
        addr
    };
    let s2 = if (!pre || writeback) && rn != 15 {
        with_reg(s1, rn, post_addr)
    } else {
        s1
    };
    (s2, bus1, if load { 3 } else { 2 })
}

/// LDRH/STRH/LDRSB/LDRSH.
pub open spec fn halfword_transfer_spec<M: BusModel>(s: ArmState, instr: u32, bus: M) -> (
    ArmState,
    M,
    u32,
) {
    let pre = instr & 0x0100_0000 != 0;
    let up = instr & 0x0080_0000 != 0;
    let imm_offset = instr & 0x0040_0000 != 0;
    let writeback = instr & 0x0020_0000 != 0;
    let load = instr & 0x0010_0000 != 0;
    let rn = ((instr >> 16u32) & 0xF) as int;
    let rd = ((instr >> 12u32) & 0xF) as int;
    let sh = (instr >> 5u32) & 3;
    let base = s.regs[rn];
    let offset = if imm_offset {
        ((instr >> 4u32) & 0xF0) | (instr & 0xF)
    } else {
        s.regs[(instr & 0xF) as int]
    };
    let addr = if pre {
        offset_addr(base, offset, up)
    } else {
        base
    };
    let (s1, bus1) = if load {
        let (val, b1) = if sh == 1 {
            let (h, b1) = bus.read16_spec(addr & !1u32);
            (h as u32, b1)
        } else if sh == 2 {
            (sext(bus.read8_spec(addr) as u32, 8), bus)
        } else if sh == 3 {
            let (h, b1) = bus.read16_spec(addr & !1u32);
            (sext(h as u32, 16), b1)
        } else {
            (0u32, bus)
        };
        (with_reg(s, rd, val), b1)
    } else {
        (s, if sh == 1 { bus.write16_spec(addr & !1u32, s.regs[rd] as u16) } else { bus })
    };
    let post_addr = if !pre {
        offset_addr(base, offset, up)
    } else {
        addr
    };
    let s2 = if (!pre || writeback) && rn != 15 {
        with_reg(s1, rn, post_addr)
    } else {
        s1
    };
    (s2, bus1, if load { 3 } else { 2 })
}

/// Number of set bits among the low `n` bits of `x`.
pub open spec fn bits_set(x: u32, n: nat) -> nat
    decreases n,
{
    if n == 0 {
        0
    } else {
        bits_set(x, (n - 1) as nat) + if x & (1u32 << ((n - 1) as u32)) != 0 {
            1nat
        } else {
            0nat
        }
    }
}

pub proof fn lemma_bits_set_bound(x: u32, n: nat)
    ensures
        bits_set(x, n) <= n,
    decreases n,
{
    if n > 0 {
        lemma_bits_set_bound(x, (n - 1) as nat);
    }
}

/// The register transfers of LDM/STM (and the Thumb list transfers) for the
/// registers `i..n` of `rlist`, starting at `addr`: the state, the bus and the
/// address after the last transfer.
pub open spec fn block_from<M: BusModel>(
    s: ArmState,
    bus: M,
    rlist: u32,
    i: nat,
    n: nat,
    addr: u32,
    load: bool,
) -> (ArmState, M, u32)
    decreases n - i,
{
    if i >= n {
        (s, bus, addr)
    } else if rlist & (1u32 << (i as u32)) == 0 {
        block_from(s, bus, rlist, i + 1, n, addr, load)
    } else if load {
        let (v, b1) = bus.read32_spec(addr & !3u32);
        block_from(with_reg(s, i as int, v), b1, rlist, i + 1, n, addr.wrapping_add(4), load)
    } else {
        let val = operand_reg(s, i as int);
        block_from(
            s,
            bus.write32_spec(addr & !3u32, val),
            rlist,
            i + 1,
            n,
            addr.wrapping_add(4),
            load,
        )
    }
}

/// LDM/STM.
pub open spec fn block_transfer_spec<M: BusModel>(s: ArmState, instr: u32, bus: M) -> (
    ArmState,
    M,
    u32,
) {
    let pre = instr & 0x0100_0000 != 0;
    let up = instr & 0x0080_0000 != 0;
    let psr = instr & 0x0040_0000 != 0;
    let writeback = instr & 0x0020_0000 != 0;
    let load = instr & 0x0010_0000 != 0;
    let rn = ((instr >> 16u32) & 0xF) as int;
    let rlist = instr & 0xFFFF;
    let count = bits_set(rlist, 16) as u32;
    let bytes = (count * 4) as u32;
    let base = s.regs[rn];
    let start = if up {
        if pre {
            base.wrapping_add(4)
        } else {
            base
        }
    } else if pre {
        base.wrapping_sub(bytes)
    } else {
        base.wrapping_sub(bytes).wrapping_add(4)
    };
    let (s1, bus1, _end) = block_from(s, bus, rlist, 0, 16, start, load);
    let s2 = if writeback && rn != 15 {
        with_reg(
            s1,
            rn,
            if up {
                base.wrapping_add(bytes)
            } else {
                base.wrapping_sub(bytes)
            },
        )
    } else {
        s1
    };
    let s3 = if psr && load && rlist & 0x8000 != 0 {
        restore_cpsr_spec(s2)
    } else {
        s2
    };
    (s3, bus1, (count + if load { 2u32 } else { 1u32 }) as u32)
}

/// Branch target for B/BL: PC + 8 + 4 * offset.
pub open spec fn branch_target(pc: u32, instr: u32) -> u32 {
    pc.wrapping_add(4).wrapping_add(sext(instr & 0x00FF_FFFF, 24).wrapping_mul(4))
}

/// The class of an ARM-state instruction, in decoding order.
pub open spec fn arm_class(instr: u32) -> int {
    if instr & 0x0FFF_FFF0 == 0x012F_FF10 {
        0  // BX
    } else if (instr >> 24u32) & 0xF == 0xF {
        1  // SWI
    } else if instr & 0x0E00_0000 == 0x0A00_0000 {
        2  // B, BL
    } else if instr & 0x0E00_0000 == 0x0800_0000 {
        3  // LDM, STM
    } else if instr & 0x0C00_0000 == 0x0400_0000 {
        4  // LDR, STR
    } else if instr & 0x0E00_0090 == 0x0000_0090 && ((instr >> 4u32) & 0x9) == 0x9 && ((instr
        >> 4u32) & 0xF) != 0x9 {
        5  // halfword transfer
    } else if instr & 0x0FC0_00F0 == 0x0000_0090 {
        6  // MUL, MLA
    } else if instr & 0x0F80_00F0 == 0x0080_0090 {
        7  // long multiply
    } else if instr & 0x0FBF_0FFF == 0x010F_0000 {
        8  // MRS
    } else if instr & 0x0DB0_F000 == 0x0120_F000 {
        9  // MSR
    } else if instr & 0x0C00_0000 == 0 {
        10  // data processing
    } else {
        11
    }
}

/// Branch and exchange to an address in a register.
pub open spec fn bx_spec(s: ArmState, addr: u32) -> ArmState {
    if addr & 1 != 0 {
        with_reg(with_cpsr(s, s.cpsr | CPSR_T), 15, addr & !1u32)
    } else {
        with_reg(with_cpsr(s, s.cpsr & !CPSR_T), 15, addr & !3u32)
    }
}

/// One ARM-state instruction other than SWI, after the fetch.
#[verifier::opaque]
pub open spec fn arm_exec_spec<M: BusModel>(s: ArmState, instr: u32, bus: M) -> (ArmState, M, u32) {
    let class = arm_class(instr);
    if class == 0 {
        (bx_spec(s, s.regs[(instr & 0xF) as int]), bus, 3)
    } else if class == 2 {
        let s1 = if instr & 0x0100_0000 != 0 {
            with_reg(s, 14, s.regs[15])
        } else {
            s
        };
        (with_reg(s1, 15, branch_target(s.regs[15], instr)), bus, 3)
    } else if class == 3 {
        block_transfer_spec(s, instr, bus)
    } else if class == 4 {
        single_transfer_spec(s, instr, bus)
    } else if class == 5 {
        halfword_transfer_spec(s, instr, bus)
    } else if class == 6 {
        let (s1, c) = mul_spec(s, instr);
        (s1, bus, c)
    } else if class == 7 {
        let (s1, c) = mull_spec(s, instr);
        (s1, bus, c)
    } else if class == 8 {
        let rd = ((instr >> 12u32) & 0xF) as int;
        (
            with_reg(
                s,
                rd,
                if instr & 0x0040_0000 != 0 {
                    s.spsr[bank_of(mode_of(s.cpsr))]
                } else {
                    s.cpsr
                },
            ),
            bus,
            1,
        )
    } else if class == 9 {
        (msr_spec(s, instr), bus, 1)
    } else if class == 10 {
        (dp_spec(s, instr), bus, 1)
    } else {
        (s, bus, 1)
    }
}

// ---------------------------------------------------------------------------
// Thumb state instructions (PC already advanced past the instruction)
// ---------------------------------------------------------------------------

/// Thumb format 1: LSL/LSR/ASR by an immediate.
pub open spec fn thumb_shift_imm_spec(s: ArmState, instr: u32) -> ArmState {
    let op = (instr >> 11u32) & 3;
    let offset = (instr >> 6u32) & 0x1F;
    let val = s.regs[((instr >> 3u32) & 7) as int];
    let rd = (instr & 7) as int;
    let (r, cpsr1) = if op == 0 {
        if offset == 0 {
            (val, s.cpsr)
        } else {
            (val << offset, set_bit(s.cpsr, CPSR_C, val & (1u32 << ((32 - offset) as u32)) != 0))
        }
    } else if op == 1 {
        if offset == 0 {
            (0u32, set_bit(s.cpsr, CPSR_C, val & 0x8000_0000 != 0))
        } else {
            (val >> offset, set_bit(s.cpsr, CPSR_C, val & (1u32 << ((offset - 1) as u32)) != 0))
        }
    } else {
        if offset == 0 {
            let c = val & 0x8000_0000 != 0;
            (if c { 0xFFFF_FFFFu32 } else { 0u32 }, set_bit(s.cpsr, CPSR_C, c))
        } else {
            (asr(val, offset), set_bit(s.cpsr, CPSR_C, val & (1u32 << ((offset - 1) as u32)) != 0))
        }
    };
    with_cpsr(with_reg(s, rd, r), nz_of(cpsr1, r))
}

/// Thumb format 2: ADD/SUB with a register or a 3-bit immediate.
pub open spec fn thumb_add_sub_spec(s: ArmState, instr: u32) -> ArmState {
    let rn_imm = (instr >> 6u32) & 7;
    let op1 = s.regs[((instr >> 3u32) & 7) as int];
    let op2 = if instr & 0x400 != 0 {
        rn_imm
    } else {
        s.regs[rn_imm as int]
    };
    let res = if instr & 0x200 != 0 {
        sub_flags(op1, op2, 0)
    } else {
        add_flags(op1, op2, 0)
    };
    with_reg(with_cpsr(s, arith_cpsr(s.cpsr, res)), (instr & 7) as int, res.0)
}

/// Thumb format 3: MOV/CMP/ADD/SUB with an 8-bit immediate.
pub open spec fn thumb_imm_spec(s: ArmState, instr: u32) -> ArmState {
    let op = (instr >> 11u32) & 3;
    let rd = ((instr >> 8u32) & 7) as int;
    let imm = instr & 0xFF;
    if op == 0 {
        with_cpsr(with_reg(s, rd, imm), nz_of(s.cpsr, imm))
    } else if op == 1 {
        with_cpsr(s, arith_cpsr(s.cpsr, sub_flags(s.regs[rd], imm, 0)))
    } else if op == 2 {
        let res = add_flags(s.regs[rd], imm, 0);
        with_reg(with_cpsr(s, arith_cpsr(s.cpsr, res)), rd, res.0)
    } else {
        let res = sub_flags(s.regs[rd], imm, 0);
        with_reg(with_cpsr(s, arith_cpsr(s.cpsr, res)), rd, res.0)
    }
}

/// The register-specified shifts of Thumb format 4 (kind 2 LSL, 3 LSR, 4 ASR,
/// 7 ROR): the result and the status word with C updated.
pub open spec fn reg_shift_spec(a: u32, amt: u32, kind: u32, cpsr: u32) -> (u32, u32) {
    if amt == 0 {
        (a, cpsr)
    } else if kind == 2 {
        if amt < 32 {
            (a << amt, set_bit(cpsr, CPSR_C, a & (1u32 << ((32 - amt) as u32)) != 0))
        } else if amt == 32 {
            (0, set_bit(cpsr, CPSR_C, a & 1 != 0))
        } else {
            (0, set_bit(cpsr, CPSR_C, false))
        }
    } else if kind == 3 {
        if amt < 32 {
            (a >> amt, set_bit(cpsr, CPSR_C, a & (1u32 << ((amt - 1) as u32)) != 0))
        } else if amt == 32 {
            (0, set_bit(cpsr, CPSR_C, a & 0x8000_0000 != 0))
        } else {
            (0, set_bit(cpsr, CPSR_C, false))
        }
    } else if kind == 4 {
        if amt < 32 {
            (asr(a, amt), set_bit(cpsr, CPSR_C, a & (1u32 << ((amt - 1) as u32)) != 0))
        } else {
            let c = a & 0x8000_0000 != 0;
            (if c { 0xFFFF_FFFFu32 } else { 0u32 }, set_bit(cpsr, CPSR_C, c))
        }
    } else {
        let eff = amt & 31;
        if eff == 0 {
            (a, set_bit(cpsr, CPSR_C, a & 0x8000_0000 != 0))
        } else {
            (rotr(a, eff), set_bit(cpsr, CPSR_C, a & (1u32 << ((eff - 1) as u32)) != 0))
        }
    }
}

/// Thumb format 4: ALU operations on low registers.
pub open spec fn thumb_alu_spec(s: ArmState, instr: u32) -> ArmState {
    let op = (instr >> 6u32) & 0xF;
    let rd = (instr & 7) as int;
    let a = s.regs[rd];
    let b = s.regs[((instr >> 3u32) & 7) as int];
    let c_in: u32 = if flag_c(s.cpsr) { 1 } else { 0 };
    if op == 2 || op == 3 || op == 4 || op == 7 {
        let (r, cpsr1) = reg_shift_spec(a, b & 0xFF, op, s.cpsr);
        with_cpsr(with_reg(s, rd, r), nz_of(cpsr1, r))
    } else if op == 5 || op == 6 || op == 9 || op == 0xA || op == 0xB {
        let res = if op == 5 {
            add_flags(a, b, c_in)
        } else if op == 6 {
            sub_flags(a, b, (1 - c_in) as u32)
        } else if op == 9 {
            sub_flags(0, b, 0)
        } else if op == 0xA {
            sub_flags(a, b, 0)
        } else {
            add_flags(a, b, 0)
        };
        let s1 = with_cpsr(s, arith_cpsr(s.cpsr, res));
        if op == 0xA || op == 0xB {
            s1
        } else {
            with_reg(s1, rd, res.0)
        }
    } else {
        let r = if op == 0 || op == 8 {
            a & b
        } else if op == 1 {
            a ^ b
        } else if op == 0xC {
            a | b
        } else if op == 0xD {
            a.wrapping_mul(b)
        } else if op == 0xE {
            a & !b
        } else {
            !b
        };
        let s1 = with_cpsr(s, nz_of(s.cpsr, r));
        if op == 8 {
            s1
        } else {
            with_reg(s1, rd, r)
        }
    }
}

/// The arithmetic Thumb ALU operations on Rd's value `a` and Rs's value
/// `b`, with `c` the carry before: ADC writes a + b + c, SBC a - b - 1 + c,
/// NEG 0 - b, MUL a * b (modulo 2^32); CMP and CMN write no register. The
/// carry is "no borrow" for SBC, NEG and CMP and the carry out of bit 31
/// for ADC and CMN.
pub proof fn lemma_thumb_alu_results(s: ArmState, instr: u32)
    requires
        arm_wf(s),
    ensures
        ({
            let op = (instr >> 6u32) & 0xF;
            let rd = (instr & 7) as int;
            let a = s.regs[rd] as int;
            let b = s.regs[((instr >> 3u32) & 7) as int] as int;
            let c: int = if flag_c(s.cpsr) { 1 } else { 0 };
            let m = 0x1_0000_0000int;
            let out = thumb_alu_spec(s, instr);
            let r = out.regs[rd] as int;
            &&& op == 5 ==> r == (a + b + c) % m && flag_c(out.cpsr) == (a + b + c >= m)
            &&& op == 6 ==> r == (a - b - 1 + c) % m && flag_c(out.cpsr) == (a + c >= b + 1)
            &&& op == 9 ==> r == (0 - b) % m && flag_c(out.cpsr) == (b == 0)
            &&& op == 0xA ==> out.regs == s.regs && flag_c(out.cpsr) == (a >= b)
            &&& op == 0xB ==> out.regs == s.regs && flag_c(out.cpsr) == (a + b >= m)
            &&& op == 0xD ==> r == (a * b) % m
        }),
{
    let op = (instr >> 6u32) & 0xF;
    let rd = (instr & 7) as int;
    let a = s.regs[rd];
    let b = s.regs[((instr >> 3u32) & 7) as int];
    let c_in: u32 = if flag_c(s.cpsr) { 1 } else { 0 };
    crate::bits::lemma_and_le_u32(instr, 7);
    crate::bits::lemma_and_le_u32(instr >> 3u32, 7);
    let out = thumb_alu_spec(s, instr);
    if op == 5 || op == 6 || op == 9 || op == 0xA || op == 0xB {
        let res = if op == 5 {
            add_flags(a, b, c_in)
        } else if op == 6 {
            sub_flags(a, b, (1 - c_in) as u32)
        } else if op == 9 {
            sub_flags(0, b, 0)
        } else if op == 0xA {
            sub_flags(a, b, 0)
        } else {
            add_flags(a, b, 0)
        };
        lemma_carry_bit(nz_of(s.cpsr, res.0), res.1, res.2);
        assert(out.cpsr == arith_cpsr(s.cpsr, res));
        if op == 0xA || op == 0xB {
            assert(out.regs =~= s.regs);
        } else {
            assert(out.regs[rd] == res.0);
        }
    } else if op == 0xD {
        assert(out.regs[rd] == a.wrapping_mul(b));
    }
}

/// Thumb format 5: ADD/CMP/MOV on any register, and BX.
pub open spec fn thumb_hi_reg_spec(s: ArmState, instr: u32) -> ArmState {
    let op = (instr >> 8u32) & 3;
    let rs = ((((instr >> 6u32) & 1) << 3u32) | ((instr >> 3u32) & 7)) as int;
    let rd = ((((instr >> 7u32) & 1) << 3u32) | (instr & 7)) as int;
    if op == 0 {
        let v = s.regs[rd].wrapping_add(s.regs[rs]);
        with_reg(s, rd, if rd == 15 { v & !1u32 } else { v })
    } else if op == 1 {
        with_cpsr(s, arith_cpsr(s.cpsr, sub_flags(s.regs[rd], s.regs[rs], 0)))
    } else if op == 2 {
        let v = s.regs[rs];
        with_reg(s, rd, if rd == 15 { v & !1u32 } else { v })
    } else {
        bx_spec(s, s.regs[rs])
    }
}

/// The word-aligned PC used by PC-relative Thumb instructions.
pub open spec fn thumb_pc_base(s: ArmState) -> u32 {
    s.regs[15].wrapping_add(2) & !2u32
}

/// Thumb formats 6-11: loads and stores with a single register.
pub open spec fn thumb_transfer_spec<M: BusModel>(s: ArmState, instr: u32, bus: M, format: int) -> (
    ArmState,
    M,
    u32,
) {
    let rd3 = (instr & 7) as int;
    let rb = ((instr >> 3u32) & 7) as int;
    if format == 6 {
        let rd = ((instr >> 8u32) & 7) as int;
        let addr = thumb_pc_base(s).wrapping_add((instr & 0xFF) << 2u32);
        let (v, b1) = bus.read32_spec(addr & !3u32);
        (with_reg(s, rd, v), b1, 3)
    } else if format == 7 || format == 8 {
        let addr = s.regs[rb].wrapping_add(s.regs[((instr >> 6u32) & 7) as int]);
        let op = (instr >> 10u32) & 3;
        let rdv = s.regs[rd3];
        if format == 7 {
            if op == 0 {
                (s, bus.write32_spec(addr & !3u32, rdv), 2)
            } else if op == 1 {
                (s, bus.write8_spec(addr, rdv as u8), 2)
            } else if op == 2 {
                let (v, b1) = bus.read32_spec(addr & !3u32);
                (with_reg(s, rd3, v), b1, 3)
            } else {
                (with_reg(s, rd3, bus.read8_spec(addr) as u32), bus, 3)
            }
        } else {
            if op == 0 {
                (s, bus.write16_spec(addr & !1u32, rdv as u16), 2)
            } else if op == 1 {
                (with_reg(s, rd3, sext(bus.read8_spec(addr) as u32, 8)), bus, 3)
            } else if op == 2 {
                let (v, b1) = bus.read16_spec(addr & !1u32);
                (with_reg(s, rd3, v as u32), b1, 3)
            } else {
                let (v, b1) = bus.read16_spec(addr & !1u32);
                (with_reg(s, rd3, sext(v as u32, 16)), b1, 3)
            }
        }
    } else if format == 9 {
        let byte = instr & 0x1000 != 0;
        let offset = (instr >> 6u32) & 0x1F;
        let addr = if byte {
            s.regs[rb].wrapping_add(offset)
        } else {
            s.regs[rb].wrapping_add(offset << 2u32)
        };
        if instr & 0x800 != 0 {
            if byte {
                (with_reg(s, rd3, bus.read8_spec(addr) as u32), bus, 3)
            } else {
                let (v, b1) = bus.read32_spec(addr & !3u32);
                (with_reg(s, rd3, v), b1, 3)
            }
        } else {
            (
                s,
                if byte {
                    bus.write8_spec(addr, s.regs[rd3] as u8)
                } else {
                    bus.write32_spec(addr & !3u32, s.regs[rd3])
                },
                2,
            )
        }
    } else if format == 10 {
        let addr = s.regs[rb].wrapping_add(((instr >> 6u32) & 0x1F) << 1u32);
        if instr & 0x800 != 0 {
            let (v, b1) = bus.read16_spec(addr & !1u32);
            (with_reg(s, rd3, v as u32), b1, 3)
        } else {
            (s, bus.write16_spec(addr & !1u32, s.regs[rd3] as u16), 2)
        }
    } else {
        let rd = ((instr >> 8u32) & 7) as int;
        let addr = s.regs[13].wrapping_add((instr & 0xFF) << 2u32);
        if instr & 0x800 != 0 {
            let (v, b1) = bus.read32_spec(addr & !3u32);
            (with_reg(s, rd, v), b1, 3)
        } else {
            (s, bus.write32_spec(addr & !3u32, s.regs[rd]), 2)
        }
    }
}

/// Thumb formats 12 and 13: load address, adjust SP.
pub open spec fn thumb_address_spec(s: ArmState, instr: u32, format: int) -> ArmState {
    if format == 12 {
        let offset = (instr & 0xFF) << 2u32;
        with_reg(
            s,
            ((instr >> 8u32) & 7) as int,
            if instr & 0x800 != 0 {
                s.regs[13].wrapping_add(offset)
            } else {
                thumb_pc_base(s).wrapping_add(offset)
            },
        )
    } else {
        let offset = (instr & 0x7F) << 2u32;
        with_reg(
            s,
            13,
            if instr & 0x80 != 0 {
                s.regs[13].wrapping_sub(offset)
            } else {
                s.regs[13].wrapping_add(offset)
            },
        )
    }
}

/// Thumb format 14: PUSH/POP.
pub open spec fn thumb_push_pop_spec<M: BusModel>(s: ArmState, instr: u32, bus: M) -> (
    ArmState,
    M,
    u32,
) {
    let pop = instr & 0x800 != 0;
    let pc_lr = instr & 0x100 != 0;
    let rlist = instr & 0xFF;
    let n = bits_set(rlist, 8);
    let cycles = (n + (if pc_lr { 1nat } else { 0nat }) + (if pop { 2nat } else { 1nat })) as u32;
    if pop {
        let (s1, b1, addr) = block_from(s, bus, rlist, 0, 8, s.regs[13], true);
        if pc_lr {
            let (val, b2) = b1.read32_spec(addr & !3u32);
            let s2 = with_reg(s1, 15, val & !1u32);
            let s3 = if val & 1 == 0 {
                with_cpsr(s2, s2.cpsr & !CPSR_T)
            } else {
                s2
            };
            (with_reg(s3, 13, addr.wrapping_add(4)), b2, cycles)
        } else {
            (with_reg(s1, 13, addr), b1, cycles)
        }
    } else {
        let count = (n + if pc_lr { 1nat } else { 0nat }) as u32;
        let start = s.regs[13].wrapping_sub((count * 4) as u32);
        let s1 = with_reg(s, 13, start);
        let (s2, b1, addr) = block_from(s1, bus, rlist, 0, 8, start, false);
        (s2, if pc_lr { b1.write32_spec(addr & !3u32, s2.regs[14]) } else { b1 }, cycles)
    }
}

/// Thumb format 15: LDMIA/STMIA.
pub open spec fn thumb_multiple_spec<M: BusModel>(s: ArmState, instr: u32, bus: M) -> (
    ArmState,
    M,
    u32,
) {
    let load = instr & 0x800 != 0;
    let rb = ((instr >> 8u32) & 7) as int;
    let rlist = instr & 0xFF;
    let (s1, b1, addr) = block_from(s, bus, rlist, 0, 8, s.regs[rb], load);
    let s2 = if !load || rlist & (1u32 << (rb as u32)) == 0 {
        with_reg(s1, rb, addr)
    } else {
        s1
    };
    (s2, b1, (bits_set(rlist, 8) + if load { 2nat } else { 1nat }) as u32)
}

/// Thumb formats 16, 18 and 19: branches.
pub open spec fn thumb_branch_spec(s: ArmState, instr: u32, format: int) -> (ArmState, u32) {
    let next = s.regs[15].wrapping_add(2);
    if format == 16 {
        if condition_spec(s.cpsr, (instr >> 8u32) & 0xF) {
            (with_reg(s, 15, next.wrapping_add(sext(instr & 0xFF, 8).wrapping_mul(2))), 3)
        } else {
            (s, 1)
        }
    } else if format == 18 {
        (with_reg(s, 15, next.wrapping_add(sext(instr & 0x7FF, 11).wrapping_mul(2))), 3)
    } else if instr & 0x800 == 0 {
        (with_reg(s, 14, next.wrapping_add(sext(instr & 0x7FF, 11).wrapping_mul(4096))), 1)
    } else {
        let next_pc = s.regs[15];
        (
            with_reg(with_reg(s, 15, s.regs[14].wrapping_add((instr & 0x7FF) << 1u32)), 14, next_pc | 1),
            3,
        )
    }
}

/// The Thumb format of a halfword instruction (17 is SWI).
pub open spec fn thumb_format(instr: u32) -> int {
    let top = instr >> 13u32;
    if top == 0 {
        if (instr >> 11u32) & 3 == 3 {
            2
        } else {
            1
        }
    } else if top == 1 {
        3
    } else if top == 2 {
        if instr & 0x1000 != 0 {
            if instr & 0x200 == 0 {
                7
            } else {
                8
            }
        } else if instr & 0x800 != 0 {
            6
        } else if instr & 0x400 != 0 {
            5
        } else {
            4
        }
    } else if top == 3 {
        9
    } else if top == 4 {
        if instr & 0x1000 != 0 {
            11
        } else {
            10
        }
    } else if top == 5 {
        if instr & 0x1000 != 0 {
            if instr & 0x400 != 0 {
                14
            } else {
                13
            }
        } else {
            12
        }
    } else if top == 6 {
        if instr & 0x1000 != 0 {
            if (instr >> 8u32) & 0xF == 0xF {
                17
            } else {
                16
            }
        } else {
            15
        }
    } else if instr & 0x1000 != 0 {
        19
    } else {
        18
    }
}

/// One Thumb instruction other than SWI, after the fetch.
#[verifier::opaque]
pub open spec fn thumb_exec_spec<M: BusModel>(s: ArmState, instr: u32, bus: M) -> (ArmState, M, u32) {
    let f = thumb_format(instr);
    if f == 1 {
        (thumb_shift_imm_spec(s, instr), bus, 1)
    } else if f == 2 {
        (thumb_add_sub_spec(s, instr), bus, 1)
    } else if f == 3 {
        (thumb_imm_spec(s, instr), bus, 1)
    } else if f == 4 {
        (thumb_alu_spec(s, instr), bus, 1)
    } else if f == 5 {
        (thumb_hi_reg_spec(s, instr), bus, 1)
    } else if f == 12 || f == 13 {
        (thumb_address_spec(s, instr, f), bus, 1)
    } else if f == 14 {
        thumb_push_pop_spec(s, instr, bus)
    } else if f == 15 {
        thumb_multiple_spec(s, instr, bus)
    } else if f == 16 || f == 18 || f == 19 {
        let (s1, c) = thumb_branch_spec(s, instr, f);
        (s1, bus, c)
    } else {
        thumb_transfer_spec(s, instr, bus, f)
    }
}

// ---------------------------------------------------------------------------
// BIOS calls (SWI)
// ---------------------------------------------------------------------------

/// Magnitude of a word read as a two's-complement integer.
pub open spec fn abs32(x: u32) -> nat {
    if x < 0x8000_0000 {
        x as nat
    } else {
        (0x1_0000_0000 - x) as nat
    }
}

/// The word holding the two's-complement negation of `m`.
pub open spec fn neg32(m: nat) -> u32 {
    ((0x1_0000_0000 - m) % 0x1_0000_0000) as u32
}

/// The quotient that overflows 32 bits: i32::MIN / -1.
pub open spec fn div_overflows(num: u32, den: u32) -> bool {
    num == 0x8000_0000 && den == 0xFFFF_FFFF
}

/// Signed division truncating toward zero: R0 quotient, R1 remainder (sign of
/// the dividend), R3 magnitude of the quotient. A zero divisor changes nothing.
pub open spec fn div_spec(s: ArmState, num: u32, den: u32) -> ArmState {
    if den == 0 {
        s
    } else {
        let q = abs32(num) / abs32(den);
        let r = abs32(num) % abs32(den);
        let q_neg = (num >= 0x8000_0000) != (den >= 0x8000_0000);
        with_reg(
            with_reg(
                with_reg(s, 0, if q_neg { neg32(q) } else { q as u32 }),
                1,
                if num >= 0x8000_0000 { neg32(r) } else { r as u32 },
            ),
            3,
            q as u32,
        )
    }
}

/// The integer square root: the largest `r` with `r * r <= v`.
pub open spec fn is_isqrt(v: u32, r: u32) -> bool {
    r * r <= v && v < (r + 1) * (r + 1)
}

/// The integer square root is unique.
proof fn lemma_isqrt_unique(v: u32, a: u32, b: u32)
    requires
        is_isqrt(v, a),
        is_isqrt(v, b),
    ensures
        a == b,
{
    if a < b {
        assert((a + 1) * (a + 1) <= b * b) by (nonlinear_arith)
            requires
                a + 1 <= b,
        ;
    } else if b < a {
        assert((b + 1) * (b + 1) <= a * a) by (nonlinear_arith)
            requires
                b + 1 <= a,
        ;
    }
}

/// `count` words (or halfwords) copied from `src` to `dst`, or filled with
/// `fill`, from element `i` on.
pub open spec fn copy_units<M: BusModel>(
    bus: M,
    src: u32,
    dst: u32,
    count: nat,
    i: nat,
    word: bool,
    fill: Option<u32>,
) -> M
    decreases count - i,
{
    if i >= count {
        bus
    } else {
        let size: nat = if word { 4 } else { 2 };
        let off = ((i * size) % 0x1_0000_0000) as u32;
        if word {
            let (val, b1) = match fill {
                Some(v) => (v, bus),
                None => bus.read32_spec(src.wrapping_add(off)),
            };
            copy_units(b1.write32_spec(dst.wrapping_add(off), val), src, dst, count, i + 1, word, fill)
        } else {
            let (val, b1) = match fill {
                Some(v) => (v as u16, bus),
                None => bus.read16_spec(src.wrapping_add(off)),
            };
            copy_units(b1.write16_spec(dst.wrapping_add(off), val), src, dst, count, i + 1, word, fill)
        }
    }
}

/// CpuSet (word or halfword units) and CpuFastSet (words, count rounded down
/// to a multiple of 8).
pub open spec fn cpu_set_spec<M: BusModel>(s: ArmState, bus: M, fast: bool) -> M {
    let src = s.regs[0];
    let dst = s.regs[1];
    let ctrl = s.regs[2];
    let count = if fast {
        (ctrl & 0x1FFFFF) & !7u32
    } else {
        ctrl & 0x1FFFFF
    };
    let fill = ctrl & 0x0100_0000 != 0;
    let word = fast || ctrl & 0x0400_0000 != 0;
    if word {
        let (fill_val, b0) = if fill {
            bus.read32_spec(src)
        } else {
            (0u32, bus)
        };
        copy_units(b0, src, dst, count as nat, 0, true, if fill { Some(fill_val) } else { None })
    } else {
        let (fill_val, b0) = if fill {
            bus.read16_spec(src)
        } else {
            (0u16, bus)
        };
        copy_units(b0, src, dst, count as nat, 0, false, if fill { Some(fill_val as u32) } else { None })
    }
}

/// `len` zero bytes written from `start` upwards.
pub open spec fn zero_bytes<M: BusModel>(bus: M, start: u32, len: nat) -> M
    decreases len,
{
    if len == 0 {
        bus
    } else {
        zero_bytes(bus.write8_spec(start, 0), start.wrapping_add(1), (len - 1) as nat)
    }
}

/// RegisterRamReset: the memory regions and I/O registers selected by R0.
pub open spec fn ram_reset_spec<M: BusModel>(flags: u8, bus: M) -> M {
    let b1 = if flags & 0x01 != 0 { zero_bytes(bus, 0x0200_0000, 0x40000) } else { bus };
    let b2 = if flags & 0x02 != 0 { zero_bytes(b1, 0x0300_0000, 0x7E00) } else { b1 };
    let b3 = if flags & 0x04 != 0 { zero_bytes(b2, 0x0500_0000, 0x400) } else { b2 };
    let b4 = if flags & 0x08 != 0 { zero_bytes(b3, 0x0600_0000, 0x18000) } else { b3 };
    let b5 = if flags & 0x10 != 0 { zero_bytes(b4, 0x0700_0000, 0x400) } else { b4 };
    let b6 = if flags & 0x20 != 0 {
        zero_bytes(b5, 0x0400_0120, 0xB).write8_spec(0x0400_0134, 0).write8_spec(0x0400_0135, 0)
    } else {
        b5
    };
    let b7 = if flags & 0x40 != 0 {
        zero_bytes(b6, 0x0400_0060, 0x48).write8_spec(0x0400_0088, 0).write8_spec(0x0400_0089, 2)
    } else {
        b6
    };
    if flags & 0x80 != 0 {
        zero_bytes(
            zero_bytes(zero_bytes(zero_bytes(b7, 0x0400_0000, 0x56), 0x0400_00B0, 0x30), 0x0400_0100, 0x12),
            0x0400_0200,
            0xC,
        )
    } else {
        b7
    }
}

/// The affine parameters PA, PB, PC, PD for two scale factors (8.8 fixed
/// point) and an angle: the scales times cos and sin of the angle, in
/// 4096ths, shifted down by 12.
pub open spec fn affine_params_spec(scale_x: i32, scale_y: i32, angle: u8) -> (i16, i16, i16, i16) {
    let sin = bios_sin(angle) as i32;
    let cos = bios_sin(angle.wrapping_add(64)) as i32;
    (
        (scale_x.wrapping_mul(cos) >> 12u32) as i16,
        (0i32.wrapping_sub(scale_x.wrapping_mul(sin)) >> 12u32) as i16,
        (scale_y.wrapping_mul(sin) >> 12u32) as i16,
        (scale_y.wrapping_mul(cos) >> 12u32) as i16,
    )
}

/// One BgAffineSet entry: the 20-byte source at `src` (texture centre,
/// screen centre, scales, angle) read, and PA, PB, PC, PD and the start
/// point written as 16 bytes at `dst`.
pub open spec fn bg_affine_entry<M: BusModel>(bus: M, src: u32, dst: u32) -> M {
    let (tex_x, b1) = bus.read32_spec(src);
    let (tex_y, b2) = b1.read32_spec(src.wrapping_add(4));
    let (sx, b3) = b2.read16_spec(src.wrapping_add(8));
    let (sy, b4) = b3.read16_spec(src.wrapping_add(10));
    let (kx, b5) = b4.read16_spec(src.wrapping_add(12));
    let (ky, b6) = b5.read16_spec(src.wrapping_add(14));
    let (ang, b7) = b6.read16_spec(src.wrapping_add(16));
    let p = affine_params_spec(kx as i16 as i32, ky as i16 as i32, (ang >> 8u16) as u8);
    let scr_x = sx as i16 as i32;
    let scr_y = sy as i16 as i32;
    let dx = (tex_x as i32).wrapping_sub((p.0 as i32).wrapping_mul(scr_x).wrapping_add((p.1 as i32).wrapping_mul(scr_y)));
    let dy = (tex_y as i32).wrapping_sub((p.2 as i32).wrapping_mul(scr_x).wrapping_add((p.3 as i32).wrapping_mul(scr_y)));
    b7.write16_spec(dst, p.0 as u16).write16_spec(dst.wrapping_add(2), p.1 as u16).write16_spec(
        dst.wrapping_add(4),
        p.2 as u16,
    ).write16_spec(dst.wrapping_add(6), p.3 as u16).write32_spec(dst.wrapping_add(8), dx as u32).write32_spec(
        dst.wrapping_add(12),
        dy as u32,
    )
}

/// BgAffineSet from entry `i` on, of `count`.
pub open spec fn bg_affine_from<M: BusModel>(bus: M, src: u32, dst: u32, count: u32, i: nat) -> M
    decreases count - i,
{
    if i >= count {
        bus
    } else {
        bg_affine_from(
            bg_affine_entry(bus, src.wrapping_add((i as u32).wrapping_mul(20)), dst.wrapping_add((i as u32).wrapping_mul(16))),
            src,
            dst,
            count,
            i + 1,
        )
    }
}

/// One ObjAffineSet entry: scales and angle read from the 8 bytes at `src`,
/// PA, PB, PC, PD written `offset` bytes apart from `dst`.
pub open spec fn obj_affine_entry<M: BusModel>(bus: M, src: u32, dst: u32, offset: u32) -> M {
    let (kx, b1) = bus.read16_spec(src);
    let (ky, b2) = b1.read16_spec(src.wrapping_add(2));
    let (ang, b3) = b2.read16_spec(src.wrapping_add(4));
    let p = affine_params_spec(kx as i16 as i32, ky as i16 as i32, (ang >> 8u16) as u8);
    b3.write16_spec(dst, p.0 as u16).write16_spec(dst.wrapping_add(offset), p.1 as u16).write16_spec(
        dst.wrapping_add(offset.wrapping_mul(2)),
        p.2 as u16,
    ).write16_spec(dst.wrapping_add(offset.wrapping_mul(3)), p.3 as u16)
}

/// ObjAffineSet from entry `i` on, of `count`.
pub open spec fn obj_affine_from<M: BusModel>(bus: M, src: u32, dst: u32, count: u32, offset: u32, i: nat) -> M
    decreases count - i,
{
    if i >= count {
        bus
    } else {
        obj_affine_from(
            obj_affine_entry(
                bus,
                src.wrapping_add((i as u32).wrapping_mul(8)),
                dst.wrapping_add((i as u32).wrapping_mul(offset).wrapping_mul(4)),
                offset,
            ),
            src,
            dst,
            count,
            offset,
            i + 1,
        )
    }
}

/// The length (3-18) and displacement (1-4096) of an LZ77 back-reference
/// whose two bytes are `b1`, `b2`.
pub open spec fn lz77_ref(b1: u8, b2: u8) -> (u32, u32) {
    ((((b1 as u32) >> 4u32) + 3) as u32, (((((b1 as u32) & 0xF) << 8u32) | (b2 as u32)) + 1) as u32)
}

/// A back-reference written byte by byte: each of the `n` bytes is read
/// `disp` bytes behind the output position and written there. The bus and
/// the output position afterwards.
pub open spec fn lz77w_copy<M: BusModel>(bus: M, dst: u32, disp: u32, n: nat) -> (M, u32)
    decreases n,
{
    if n == 0 {
        (bus, dst)
    } else {
        let v = bus.read8_spec(dst.wrapping_sub(disp));
        lz77w_copy(bus.write8_spec(dst, v), dst.wrapping_add(1), disp, (n - 1) as nat)
    }
}

/// The tokens of one LZ77 flag byte from bit `bit` down, while output
/// remains: a set bit is a back-reference (clipped to what remains), a clear
/// bit a literal byte. The bus, source and output positions, and what
/// remains afterwards.
pub open spec fn lz77w_block<M: BusModel>(bus: M, src: u32, dst: u32, remaining: u32, flags: u8, bit: u32) -> (
    M,
    u32,
    u32,
    u32,
)
    decreases bit,
{
    if bit == 0 || remaining == 0 {
        (bus, src, dst, remaining)
    } else {
        let b = (bit - 1) as u32;
        if flags & (1u8 << b) != 0 {
            let (len0, disp) = lz77_ref(bus.read8_spec(src), bus.read8_spec(src.wrapping_add(1)));
            let len = if len0 > remaining { remaining } else { len0 };
            let (b2, d2) = lz77w_copy(bus, dst, disp, len as nat);
            lz77w_block(b2, src.wrapping_add(2), d2, (remaining - len) as u32, flags, b)
        } else {
            let v = bus.read8_spec(src);
            lz77w_block(bus.write8_spec(dst, v), src.wrapping_add(1), dst.wrapping_add(1), (remaining - 1) as u32, flags, b)
        }
    }
}

/// LZ77 decompression straight to the bus: flag bytes and their tokens
/// until nothing remains (at most `fuel` flag bytes).
pub open spec fn lz77w_run<M: BusModel>(bus: M, src: u32, dst: u32, remaining: u32, fuel: nat) -> M
    decreases fuel,
{
    if fuel == 0 || remaining == 0 {
        bus
    } else {
        let (b2, s2, d2, r2) = lz77w_block(bus, src.wrapping_add(1), dst, remaining, bus.read8_spec(src), 8);
        lz77w_run(b2, s2, d2, r2, (fuel - 1) as nat)
    }
}

/// LZ77UnCompWram: the header word at R0 gives the size, the data follows;
/// output goes to R1 byte by byte.
pub open spec fn lz77_wram_spec<M: BusModel>(s: ArmState, bus: M) -> M {
    let (header, b1) = bus.read32_spec(s.regs[0]);
    lz77w_run(b1, s.regs[0].wrapping_add(4), s.regs[1], header >> 8u32, (header >> 8u32) as nat)
}

/// The byte `disp` behind the end of `out` (the first byte when `out` is
/// shorter than that), or 0 when nothing is there.
pub open spec fn lz77v_back(out: Seq<u8>, disp: u32) -> u8 {
    let back = if out.len() >= disp { out.len() - disp } else { 0 };
    if back < out.len() {
        out[back]
    } else {
        0
    }
}

/// A back-reference copied within the output, from its `k`-th byte of
/// `len`, while the output is shorter than `size`.
pub open spec fn lz77v_copy(out: Seq<u8>, disp: u32, k: nat, len: nat, size: nat) -> Seq<u8>
    decreases len - k,
{
    if k >= len || out.len() >= size {
        out
    } else {
        lz77v_copy(out.push(lz77v_back(out, disp)), disp, k + 1, len, size)
    }
}

/// The tokens of one flag byte from bit `bit` down, into `out`; the source
/// position and output afterwards.
pub open spec fn lz77v_block<M: BusModel>(bus: M, src: u32, out: Seq<u8>, size: nat, flags: u8, bit: u32) -> (
    u32,
    Seq<u8>,
)
    decreases bit,
{
    if bit == 0 || out.len() >= size {
        (src, out)
    } else {
        let b = (bit - 1) as u32;
        if flags & (1u8 << b) != 0 {
            let (len, disp) = lz77_ref(bus.read8_spec(src), bus.read8_spec(src.wrapping_add(1)));
            lz77v_block(bus, src.wrapping_add(2), lz77v_copy(out, disp, 0, len as nat, size), size, flags, b)
        } else {
            lz77v_block(bus, src.wrapping_add(1), out.push(bus.read8_spec(src)), size, flags, b)
        }
    }
}

/// The decompressed bytes: flag bytes and their tokens until `size` bytes
/// are out (at most `fuel` flag bytes).
pub open spec fn lz77v_decode<M: BusModel>(bus: M, src: u32, out: Seq<u8>, size: nat, fuel: nat) -> Seq<u8>
    decreases fuel,
{
    if fuel == 0 || out.len() >= size {
        out
    } else {
        let (s2, o2) = lz77v_block(bus, src.wrapping_add(1), out, size, bus.read8_spec(src), 8);
        lz77v_decode(bus, s2, o2, size, (fuel - 1) as nat)
    }
}

/// The decompressed bytes written as halfwords from byte `i` on (an odd
/// last byte paired with 0).
pub open spec fn lz77v_write<M: BusModel>(bus: M, dst: u32, out: Seq<u8>, i: nat) -> M
    decreases out.len() + 2 - i,
{
    if i >= out.len() {
        bus
    } else {
        let lo = out[i as int] as u16;
        let hi = if i + 1 < out.len() { out[i + 1 as int] as u16 } else { 0u16 };
        lz77v_write(bus.write16_spec(dst.wrapping_add(i as u32), lo | (hi << 8u16)), dst, out, i + 2)
    }
}

/// LZ77UnCompVram: the whole output decompressed first, then written as
/// halfwords to R1.
pub open spec fn lz77_vram_spec<M: BusModel>(s: ArmState, bus: M) -> M {
    let (header, b1) = bus.read32_spec(s.regs[0]);
    let size = (header >> 8u32) as nat;
    lz77v_write(b1, s.regs[1], lz77v_decode(b1, s.regs[0].wrapping_add(4), Seq::empty(), size, size), 0)
}


/// A BIOS call left undefined: a signed division of the most negative value by -1.
pub open spec fn swi_traps(s: ArmState, num: u32) -> bool {
    (num == 0x06 && div_overflows(s.regs[0], s.regs[1])) || (num == 0x07 && div_overflows(s.regs[1], s.regs[0]))
}

/// The effect of a BIOS call (other numbers do nothing).
pub open spec fn swi_spec<M: BusModel>(s: ArmState, num: u32, bus: M) -> (ArmState, M) {
    if num == 0x01 {
        (s, ram_reset_spec(s.regs[0] as u8, bus))
    } else if num == 0x02 || num == 0x04 || num == 0x05 {
        (ArmState { halted: true, ..s }, bus)
    } else if num == 0x06 {
        (div_spec(s, s.regs[0], s.regs[1]), bus)
    } else if num == 0x07 {
        (div_spec(s, s.regs[1], s.regs[0]), bus)
    } else if num == 0x08 {
        (with_reg(s, 0, choose|r: u32| is_isqrt(s.regs[0], r)), bus)
    } else if num == 0x0B {
        (s, cpu_set_spec(s, bus, false))
    } else if num == 0x0C {
        (s, cpu_set_spec(s, bus, true))
    } else if num == 0x0E {
        (s, bg_affine_from(bus, s.regs[0], s.regs[1], s.regs[2], 0))
    } else if num == 0x0F {
        (s, obj_affine_from(bus, s.regs[0], s.regs[1], s.regs[2], s.regs[3], 0))
    } else if num == 0x11 {
        (s, lz77_wram_spec(s, bus))
    } else if num == 0x12 {
        (s, lz77_vram_spec(s, bus))
    } else {
        (s, bus)
    }
}

/// The sine table of the BIOS affine calls for a quarter turn, scaled by 4096.
pub open spec fn sin_quarter() -> Seq<i32> {
    seq![
        0i32, 101, 201, 301, 401, 501, 601, 700, 799, 897, 995, 1092, 1189, 1285, 1380, 1474,
        1567, 1660, 1751, 1842, 1931, 2019, 2106, 2191, 2276, 2359, 2440, 2520, 2598, 2675, 2751,
        2824, 2896, 2967, 3035, 3102, 3166, 3229, 3290, 3349, 3406, 3461, 3513, 3564, 3612, 3659,
        3703, 3745, 3784, 3822, 3857, 3889, 3920, 3948, 3973, 3996, 4017, 4036, 4052, 4065, 4076,
        4085, 4091, 4095, 4096
    ]
}

/// sin(2 pi a / 256) * 4096 rounded to the nearest integer.
pub open spec fn bios_sin(a: u8) -> int {
    let q = sin_quarter();
    if a < 64 {
        q[a as int] as int
    } else if a < 128 {
        q[128 - a] as int
    } else if a < 192 {
        -(q[a - 128] as int)
    } else {
        -(q[256 - a] as int)
    }
}

/// The SWI number of the instruction just executed.
pub open spec fn swi_number<M: BusModel>(s: ArmState, instr: u32, bus: M) -> u32 {
    if s.cpsr & CPSR_T != 0 {
        (bus.read16_spec(s.regs[15].wrapping_sub(2) & !1u32).0 & 0xFF) as u32
    } else {
        (instr >> 16u32) & 0xFF
    }
}

/// The bus after the Thumb SWI fetched its number.
pub open spec fn swi_bus<M: BusModel>(s: ArmState, bus: M) -> M {
    if s.cpsr & CPSR_T != 0 {
        bus.read16_spec(s.regs[15].wrapping_sub(2) & !1u32).1
    } else {
        bus
    }
}

/// The instruction at PC and the bus after fetching it.
pub open spec fn fetch<M: BusModel>(s: ArmState, bus: M) -> (u32, M) {
    if s.cpsr & CPSR_T != 0 {
        let (h, b1) = bus.read16_spec(s.regs[15] & !1u32);
        (h as u32, b1)
    } else {
        bus.read32_spec(s.regs[15] & !3u32)
    }
}

/// The state after fetching: PC advanced by the instruction size.
pub open spec fn advanced(s: ArmState) -> ArmState {
    with_reg(s, 15, s.regs[15].wrapping_add(if s.cpsr & CPSR_T != 0 { 2u32 } else { 4u32 }))
}

/// Whether the fetched instruction is a SWI that will execute.
pub open spec fn is_swi(s: ArmState, instr: u32) -> bool {
    if s.cpsr & CPSR_T != 0 {
        thumb_format(instr) == 17
    } else {
        condition_spec(s.cpsr, instr >> 28u32) && arm_class(instr) == 1
    }
}

/// The data-processing shift that the implementation does not define, when
/// it is the instruction fetched.
pub open spec fn step_undefined_shift(s: ArmState, instr: u32) -> bool {
    s.cpsr & CPSR_T == 0 && condition_spec(s.cpsr, instr >> 28u32) && arm_class(instr) == 10
        && dp_undefined_shift(s, instr)
}

/// One call of `step` that executes an instruction, when it is not a SWI.
pub open spec fn exec_spec<M: BusModel>(s: ArmState, instr: u32, bus: M) -> (ArmState, M, u32) {
    if s.cpsr & CPSR_T != 0 {
        thumb_exec_spec(s, instr, bus)
    } else if !condition_spec(s.cpsr, instr >> 28u32) {
        (s, bus, 1)
    } else {
        arm_exec_spec(s, instr, bus)
    }
}

/// Fetch, advance and execute, before the cycle counter is updated.
pub open spec fn run_spec<M: BusModel>(s: ArmState, bus: M) -> (ArmState, M, u32) {
    let (instr, b1) = fetch(s, bus);
    let s1 = advanced(s);
    if is_swi(s1, instr) {
        let num = swi_number(s1, instr, b1);
        let (s3, b3) = swi_spec(s1, num, swi_bus(s1, b1));
        (s3, b3, 3u32)
    } else {
        exec_spec(s1, instr, b1)
    }
}

/// What a call of `step` does: idles while halted; otherwise fetches,
/// advances PC and executes the instruction, and adds its cycles.
pub open spec fn step_spec<M: BusModel>(s: ArmState, bus: M) -> (ArmState, M, u32) {
    if s.halted {
        (ArmState { cycles: (s.cycles + 1) as u64, ..s }, bus, 1)
    } else {
        let (s2, b2, c) = run_spec(s, bus);
        (ArmState { cycles: (s.cycles + c) as u64, ..s2 }, b2, c)
    }
}

/// The cycle counter does not overflow in this step.
pub open spec fn step_cycles_fit<M: BusModel>(s: ArmState, bus: M) -> bool {
    if s.halted {
        s.cycles + 1 <= u64::MAX
    } else {
        s.cycles + run_spec(s, bus).2 <= u64::MAX
    }
}

/// The preconditions of `step`: no undefined shift and no trapping BIOS call.
pub open spec fn step_defined<M: BusModel>(s: ArmState, bus: M) -> bool {
    let (instr, b1) = fetch(s, bus);
    let s1 = advanced(s);
    s.halted || (!step_undefined_shift(s1, instr) && !(is_swi(s1, instr) && swi_traps(
        s1,
        swi_number(s1, instr, b1),
    )))
}

// ---------------------------------------------------------------------------
// Executable core
// ---------------------------------------------------------------------------

/// The state at the GBA cartridge entry point, in System mode.
pub open spec fn entry_state(cpu: Arm7Tdmi) -> bool {
    &&& cpu.regs[15] == 0x0800_0000
    &&& cpu.regs[13] == 0x0300_7F00
    &&& forall|i: int| 0 <= i < 13 ==> cpu.regs[i] == 0
    &&& cpu.regs[14] == 0
    &&& cpu.cpsr == 0x1F
    &&& forall|i: int| 0 <= i < 6 ==> cpu.spsr[i] == 0
    &&& forall|b: int, i: int|
        0 <= b < 6 && 0 <= i < 7 ==> cpu.banked_regs[b][i] == if b == 2 && i == 5 {
            0x0300_7FA0u32
        } else if b == 3 && i == 5 {
            0x0300_7FE0u32
        } else {
            0u32
        }
    &&& cpu.cycles == 0
    &&& !cpu.halted
}

impl Default for Arm7Tdmi {
    fn default() -> (cpu: Self)
        ensures
            entry_state(cpu),
    {
        Self::new()
    }
}

impl Arm7Tdmi {
    /// The state at the GBA cartridge entry point, in System mode.
    pub fn new() -> (cpu: Self)
        ensures
            entry_state(cpu),
    {
        let mut cpu = Arm7Tdmi {
            regs: [0;16],
            cpsr: 0x1F,
            spsr: [0;6],
            banked_regs: [[0;7];6],
            cycles: 0,
            halted: false,
        };
        cpu.regs[15] = 0x0800_0000;
        cpu.regs[13] = 0x0300_7F00;
        cpu.banked_regs[2][5] = 0x0300_7FA0;
        cpu.banked_regs[3][5] = 0x0300_7FE0;
        cpu
    }

    pub fn thumb_mode(&self) -> (t: bool)
        ensures
            t == (self.cpsr & CPSR_T != 0),
    {
        self.cpsr & CPSR_T != 0
    }

    fn condition_passed(&self, cond: u32) -> (r: bool)
        ensures
            r == condition_spec(self.cpsr, cond),
    {
        let n = self.cpsr & CPSR_N != 0;
        let z = self.cpsr & CPSR_Z != 0;
        let c = self.cpsr & CPSR_C != 0;
        let v = self.cpsr & CPSR_V != 0;
        if cond == 0x0 {
            z
        } else if cond == 0x1 {
            !z
        } else if cond == 0x2 {
            c
        } else if cond == 0x3 {
            !c
        } else if cond == 0x4 {
            n
        } else if cond == 0x5 {
            !n
        } else if cond == 0x6 {
            v
        } else if cond == 0x7 {
            !v
        } else if cond == 0x8 {
            c && !z
        } else if cond == 0x9 {
            !c || z
        } else if cond == 0xA {
            n == v
        } else if cond == 0xB {
            n != v
        } else if cond == 0xC {
            !z && n == v
        } else if cond == 0xD {
            z || n != v
        } else {
            true
        }
    }

    fn current_mode(&self) -> (m: CpuMode)
        ensures
            m == mode_of(self.cpsr),
    {
        CpuMode::from_bits(self.cpsr)
    }

    fn set_flag(&mut self, mask: u32, on: bool)
        ensures
            final(self)@ == with_cpsr(old(self)@, set_bit(old(self).cpsr, mask, on)),
    {
        if on {
            self.cpsr = self.cpsr | mask;
        } else {
            self.cpsr = self.cpsr & !mask;
        }
    }

    fn set_nz(&mut self, result: u32)
        ensures
            final(self)@ == with_cpsr(old(self)@, nz_of(old(self).cpsr, result)),
    {
        self.set_flag(CPSR_Z, result == 0);
        self.set_flag(CPSR_N, result & 0x8000_0000 != 0);
    }

    fn set_reg(&mut self, i: usize, v: u32)
        requires
            i < 16,
        ensures
            final(self)@ == with_reg(old(self)@, i as int, v),
    {
        self.regs[i] = v;
    }

    fn switch_mode(&mut self, new_mode: CpuMode)
        ensures
            final(self)@ =~~= switch_mode_spec(old(self)@, new_mode),
    {
        let old_mode = self.current_mode();
        if old_mode == new_mode {
            return;
        }
        let old_bank = old_mode.bank_index();
        let new_bank = new_mode.bank_index();

        if old_mode == CpuMode::Fiq {
            self.banked_regs[old_bank][0] = self.regs[8];
            self.banked_regs[old_bank][1] = self.regs[9];
            self.banked_regs[old_bank][2] = self.regs[10];
            self.banked_regs[old_bank][3] = self.regs[11];
            self.banked_regs[old_bank][4] = self.regs[12];
            self.banked_regs[old_bank][5] = self.regs[13];
            self.banked_regs[old_bank][6] = self.regs[14];
        } else {
            self.banked_regs[old_bank][5] = self.regs[13];
            self.banked_regs[old_bank][6] = self.regs[14];
        }

        if new_mode == CpuMode::Fiq {
            self.regs[8] = self.banked_regs[new_bank][0];
            self.regs[9] = self.banked_regs[new_bank][1];
            self.regs[10] = self.banked_regs[new_bank][2];
            self.regs[11] = self.banked_regs[new_bank][3];
            self.regs[12] = self.banked_regs[new_bank][4];
            self.regs[13] = self.banked_regs[new_bank][5];
            self.regs[14] = self.banked_regs[new_bank][6];
        } else {
            self.regs[13] = self.banked_regs[new_bank][5];
            self.regs[14] = self.banked_regs[new_bank][6];
        }

        self.cpsr = (self.cpsr & !0x1Fu32) | new_mode.bits();
    }

    fn restore_cpsr(&mut self)
        ensures
            final(self)@ =~~= restore_cpsr_spec(old(self)@),
    {
        let new_cpsr = self.spsr[self.current_mode().bank_index()];
        let new_mode = CpuMode::from_bits(new_cpsr);
        self.switch_mode(new_mode);
        self.cpsr = new_cpsr;
    }

    /// Takes the IRQ exception unless IRQs are masked in CPSR.
    pub fn handle_irq(&mut self)
        ensures
            final(self)@ =~~= irq_spec(old(self)@),
    {
        if self.cpsr & CPSR_I != 0 {
            return;
        }
        let old_cpsr = self.cpsr;
        self.switch_mode(CpuMode::Irq);
        self.spsr[2] = old_cpsr;
        self.regs[14] = self.regs[15].wrapping_add(4);
        self.cpsr = (self.cpsr & !CPSR_T) | CPSR_I;
        self.regs[15] = 0x0000_0018;
        self.halted = false;
    }

    fn rotate_right(x: u32, r: u32) -> (v: u32)
        requires
            r < 32,
        ensures
            v == rotr(x, r),
    {
        if r == 0 {
            x
        } else {
            (x >> r) | (x << (32 - r))
        }
    }

    fn arith_shift_right(x: u32, r: u32) -> (v: u32)
        requires
            r < 32,
        ensures
            v == asr(x, r),
    {
        if x & 0x8000_0000 != 0 {
            !((!x) >> r)
        } else {
            x >> r
        }
    }

    fn barrel_shift(val: u32, shift_type: u32, amount: u32) -> (r: (u32, bool))
        ensures
            r == shift_spec(val, shift_type, amount),
    {
        if amount == 0 {
            return (val, false);
        }
        if shift_type == 0 {
            if amount >= 32 {
                (0, amount == 32 && val & 1 != 0)
            } else {
                (val << amount, val & (1u32 << (32 - amount)) != 0)
            }
        } else if shift_type == 1 {
            if amount >= 32 {
                (0, amount == 32 && val & 0x8000_0000 != 0)
            } else {
                (val >> amount, val & (1u32 << (amount - 1)) != 0)
            }
        } else if shift_type == 2 {
            if amount >= 32 {
                let c = val & 0x8000_0000 != 0;
                (if c { 0xFFFF_FFFF } else { 0 }, c)
            } else {
                (Self::arith_shift_right(val, amount), val & (1u32 << (amount - 1)) != 0)
            }
        } else {
            let amt = amount & 31;
            proof {
                assert(amount & 31 < 32) by {
                    crate::bits::lemma_and_le_u32(amount, 31);
                }
            }
            if amt == 0 {
                (val, val & 0x8000_0000 != 0)
            } else {
                (Self::rotate_right(val, amt), val & (1u32 << (amt - 1)) != 0)
            }
        }
    }

    fn sign_extend(x: u32, bits: u32) -> (v: u32)
        requires
            1 <= bits < 32,
        ensures
            v == sext(x, bits),
    {
        proof {
            assert(1u32 << bits >= 1) by (bit_vector)
                requires
                    bits < 32,
            ;
        }
        if x & (1u32 << (bits - 1)) != 0 {
            x | !((1u32 << bits) - 1)
        } else {
            x
        }
    }

    fn operand(&self, i: usize) -> (v: u32)
        requires
            i < 16,
        ensures
            v == operand_reg(self@, i as int),
    {
        if i == 15 {
            self.regs[15].wrapping_add(4)
        } else {
            self.regs[i]
        }
    }

    fn sub_with_flags(a: u32, b: u32, borrow_in: u32) -> (r: (u32, bool, bool))
        requires
            borrow_in <= 1,
        ensures
            r == sub_flags(a, b, borrow_in),
    {
        let res = a.wrapping_sub(b).wrapping_sub(borrow_in);
        (res, a as u64 >= b as u64 + borrow_in as u64, ((a ^ b) & (a ^ res)) >> 31u32 != 0)
    }

    fn add_with_flags(a: u32, b: u32, carry_in: u32) -> (r: (u32, bool, bool))
        requires
            carry_in <= 1,
        ensures
            r == add_flags(a, b, carry_in),
    {
        let res = a.wrapping_add(b).wrapping_add(carry_in);
        (res, a as u64 + b as u64 + carry_in as u64 > 0xFFFF_FFFF, (!(a ^ b) & (a ^ res)) >> 31u32
            != 0)
    }

    fn set_arith_flags(&mut self, res: (u32, bool, bool))
        ensures
            final(self)@ == with_cpsr(old(self)@, arith_cpsr(old(self).cpsr, res)),
    {
        self.set_nz(res.0);
        self.set_flag(CPSR_C, res.1);
        self.set_flag(CPSR_V, res.2);
    }

    fn set_logic_flags(&mut self, r: u32, c: bool)
        ensures
            final(self)@ == with_cpsr(old(self)@, logic_cpsr(old(self).cpsr, r, c)),
    {
        self.set_nz(r);
        self.set_flag(CPSR_C, c);
    }

    fn dp_operand(&self, instr: u32) -> (r: (u32, bool))
        requires
            !dp_undefined_shift(self@, instr),
        ensures
            r == dp_operand2(self@, instr),
    {
        let old_c = self.cpsr & CPSR_C != 0;
        if instr & 0x0200_0000 != 0 {
            let imm = instr & 0xFF;
            proof {
                assert((instr >> 8u32) & 0xF <= 15) by {
                    crate::bits::lemma_and_le_u32((instr >> 8u32), 0xF);
                }
            }
            let rot = ((instr >> 8u32) & 0xF) * 2;
            let val = Self::rotate_right(imm, rot);
            (val, if rot == 0 { old_c } else { val & 0x8000_0000 != 0 })
        } else {
            proof {
                assert(instr & 0xF < 16) by {
                    crate::bits::lemma_and_le_u32(instr, 0xF);
                }
                assert((instr >> 8u32) & 0xF < 16) by {
                    crate::bits::lemma_and_le_u32((instr >> 8u32), 0xF);
                }
            }
            let rm_val = self.operand((instr & 0xF) as usize);
            let shift_type = (instr >> 5u32) & 3;
            let by_reg = instr & 0x10 != 0;
            let amount = if by_reg {
                self.regs[((instr >> 8u32) & 0xF) as usize] & 0xFF
            } else {
                (instr >> 7u32) & 0x1F
            };
            if amount == 0 && !by_reg {
                if shift_type == 0 {
                    (rm_val, old_c)
                } else if shift_type == 1 {
                    (0, rm_val & 0x8000_0000 != 0)
                } else if shift_type == 2 {
                    if rm_val & 0x8000_0000 != 0 {
                        (0xFFFF_FFFF, true)
                    } else {
                        (0, false)
                    }
                } else {
                    ((rm_val >> 1u32) | (if old_c { 0x8000_0000u32 } else { 0u32 }), rm_val & 1 != 0)
                }
            } else if amount == 0 {
                (rm_val, old_c)
            } else {
                Self::barrel_shift(rm_val, shift_type, amount)
            }
        }
    }

    #[verifier::rlimit(80)]
    fn arm_data_processing(&mut self, instr: u32) -> (cycles: u32)
        requires
            !dp_undefined_shift(old(self)@, instr),
        ensures
            final(self)@ =~~= dp_spec(old(self)@, instr),
            cycles == 1,
    {
        proof {
            assert((instr >> 21u32) & 0xF <= 15) by {
                crate::bits::lemma_and_le_u32((instr >> 21u32), 0xF);
            }
            assert((instr >> 16u32) & 0xF < 16) by {
                crate::bits::lemma_and_le_u32((instr >> 16u32), 0xF);
            }
            assert((instr >> 12u32) & 0xF < 16) by {
                crate::bits::lemma_and_le_u32((instr >> 12u32), 0xF);
            }
        }
        let opcode = (instr >> 21u32) & 0xF;
        let set_flags = instr & 0x0010_0000 != 0;
        let rn = ((instr >> 16u32) & 0xF) as usize;
        let rd = ((instr >> 12u32) & 0xF) as usize;
        let op1 = self.operand(rn);
        let (op2, carry_out) = self.dp_operand(instr);
        let c_in: u32 = if self.cpsr & CPSR_C != 0 {
            1
        } else {
            0
        };
        let logical = opcode == 0 || opcode == 1 || opcode == 8 || opcode == 9 || opcode >= 0xC;
        let arith = if opcode == 2 || opcode == 0xA {
            Self::sub_with_flags(op1, op2, 0)
        } else if opcode == 3 {
            Self::sub_with_flags(op2, op1, 0)
        } else if opcode == 4 || opcode == 0xB {
            Self::add_with_flags(op1, op2, 0)
        } else if opcode == 5 {
            Self::add_with_flags(op1, op2, c_in)
        } else if opcode == 6 {
            Self::sub_with_flags(op1, op2, 1 - c_in)
        } else {
            Self::sub_with_flags(op2, op1, 1 - c_in)
        };
        let result: u32 = if opcode == 0 || opcode == 8 {
            op1 & op2
        } else if opcode == 1 || opcode == 9 {
            op1 ^ op2
        } else if opcode == 0xC {
            op1 | op2
        } else if opcode == 0xD {
            op2
        } else if opcode == 0xE {
            op1 & !op2
        } else if opcode == 0xF {
            !op2
        } else {
            arith.0
        };
        let test = 8 <= opcode && opcode <= 0xB;
        if set_flags || test {
            if logical {
                self.set_logic_flags(result, carry_out);
            } else {
                self.set_arith_flags(arith);
            }
        }
        if !test {
            self.set_reg(rd, result);
        }
        if rd == 15 && set_flags {
            self.restore_cpsr();
        }
        1
    }

    fn arm_multiply(&mut self, instr: u32) -> (cycles: u32)
        ensures
            (final(self)@, cycles) =~~= mul_spec(old(self)@, instr),
    {
        proof {
            assert((instr >> 16u32) & 0xF < 16) by {
                crate::bits::lemma_and_le_u32((instr >> 16u32), 0xF);
            }
            assert((instr >> 12u32) & 0xF < 16) by {
                crate::bits::lemma_and_le_u32((instr >> 12u32), 0xF);
            }
            assert((instr >> 8u32) & 0xF < 16) by {
                crate::bits::lemma_and_le_u32((instr >> 8u32), 0xF);
            }
            assert(instr & 0xF < 16) by {
                crate::bits::lemma_and_le_u32(instr, 0xF);
            }
        }
        let accumulate = instr & 0x0020_0000 != 0;
        let set_flags = instr & 0x0010_0000 != 0;
        let rd = ((instr >> 16u32) & 0xF) as usize;
        let rn = ((instr >> 12u32) & 0xF) as usize;
        let rs = ((instr >> 8u32) & 0xF) as usize;
        let rm = (instr & 0xF) as usize;
        let prod = self.regs[rm].wrapping_mul(self.regs[rs]);
        let result = if accumulate {
            prod.wrapping_add(self.regs[rn])
        } else {
            prod
        };
        self.set_reg(rd, result);
        if set_flags {
            self.set_nz(result);
        }
        if accumulate {
            2
        } else {
            1
        }
    }

    fn sign_extend64(x: u32) -> (v: u64)
        ensures
            v == sext64(x),
    {
        if x & 0x8000_0000 != 0 {
            (x as u64) | 0xFFFF_FFFF_0000_0000u64
        } else {
            x as u64
        }
    }

    fn arm_multiply_long(&mut self, instr: u32) -> (cycles: u32)
        ensures
            (final(self)@, cycles) =~~= mull_spec(old(self)@, instr),
    {
        proof {
            assert((instr >> 16u32) & 0xF < 16) by {
                crate::bits::lemma_and_le_u32((instr >> 16u32), 0xF);
            }
            assert((instr >> 12u32) & 0xF < 16) by {
                crate::bits::lemma_and_le_u32((instr >> 12u32), 0xF);
            }
            assert((instr >> 8u32) & 0xF < 16) by {
                crate::bits::lemma_and_le_u32((instr >> 8u32), 0xF);
            }
            assert(instr & 0xF < 16) by {
                crate::bits::lemma_and_le_u32(instr, 0xF);
            }
        }
        let signed = instr & 0x0040_0000 != 0;
        let accumulate = instr & 0x0020_0000 != 0;
        let set_flags = instr & 0x0010_0000 != 0;
        let rdhi = ((instr >> 16u32) & 0xF) as usize;
        let rdlo = ((instr >> 12u32) & 0xF) as usize;
        let rs = ((instr >> 8u32) & 0xF) as usize;
        let rm = (instr & 0xF) as usize;
        let a: u64 = if signed {
            Self::sign_extend64(self.regs[rm])
        } else {
            self.regs[rm] as u64
        };
        let b: u64 = if signed {
            Self::sign_extend64(self.regs[rs])
        } else {
            self.regs[rs] as u64
        };
        let prod = a.wrapping_mul(b);
        let acc = ((self.regs[rdhi] as u64) << 32u64) | (self.regs[rdlo] as u64);
        let result = if accumulate {
            prod.wrapping_add(acc)
        } else {
            prod
        };
        self.set_reg(rdhi, (result >> 32u64) as u32);
        self.set_reg(rdlo, result as u32);
        if set_flags {
            self.set_flag(CPSR_Z, result == 0);
            self.set_flag(CPSR_N, result & 0x8000_0000_0000_0000 != 0);
        }
        if accumulate {
            3
        } else {
            2
        }
    }

    fn arm_msr(&mut self, instr: u32)
        ensures
            final(self)@ =~~= msr_spec(old(self)@, instr),
    {
        let use_spsr = instr & 0x0040_0000 != 0;
        let mask_bits = (instr >> 16u32) & 0xF;
        proof {
            assert((instr >> 8u32) & 0xF <= 15) by {
                crate::bits::lemma_and_le_u32((instr >> 8u32), 0xF);
            }
            assert(instr & 0xF < 16) by {
                crate::bits::lemma_and_le_u32(instr, 0xF);
            }
        }
        let val = if instr & 0x0200_0000 != 0 {
            Self::rotate_right(instr & 0xFF, ((instr >> 8u32) & 0xF) * 2)
        } else {
            self.regs[(instr & 0xF) as usize]
        };
        let mask = (if mask_bits & 1 != 0 { 0x0000_00FFu32 } else { 0u32 }) | (if mask_bits & 2 != 0 {
            0x0000_FF00u32
        } else {
            0u32
        }) | (if mask_bits & 4 != 0 { 0x00FF_0000u32 } else { 0u32 }) | (if mask_bits & 8 != 0 {
            0xFF00_0000u32
        } else {
            0u32
        });
        if use_spsr {
            let idx = self.current_mode().bank_index();
            self.spsr[idx] = (self.spsr[idx] & !mask) | (val & mask);
        } else {
            let old = self.cpsr;
            self.cpsr = (old & !mask) | (val & mask);
            if (old ^ self.cpsr) & 0x1F != 0 {
                let new_mode = CpuMode::from_bits(self.cpsr);
                self.switch_mode(new_mode);
            }
        }
    }

    fn arm_single_transfer<B: Arm7Bus>(&mut self, instr: u32, bus: &mut B) -> (cycles: u32)
        requires
            old(bus).inv(),
        ensures
            final(bus).inv(),
            (final(self)@, final(bus).model(), cycles) =~~= single_transfer_spec(
                old(self)@,
                instr,
                old(bus).model(),
            ),
    {
        proof {
            assert((instr >> 16u32) & 0xF < 16) by {
                crate::bits::lemma_and_le_u32((instr >> 16u32), 0xF);
            }
            assert((instr >> 12u32) & 0xF < 16) by {
                crate::bits::lemma_and_le_u32((instr >> 12u32), 0xF);
            }
            assert(instr & 0xF < 16) by {
                crate::bits::lemma_and_le_u32(instr, 0xF);
            }
            assert(forall|a: u32| #[trigger] (a & 3) * 8 < 32) by (bit_vector);
        }
        let pre = instr & 0x0100_0000 != 0;
        let up = instr & 0x0080_0000 != 0;
        let byte = instr & 0x0040_0000 != 0;
        let writeback = instr & 0x0020_0000 != 0;
        let load = instr & 0x0010_0000 != 0;
        let rn = ((instr >> 16u32) & 0xF) as usize;
        let rd = ((instr >> 12u32) & 0xF) as usize;

        let base = self.operand(rn);
        let offset = if instr & 0x0200_0000 != 0 {
            let rm = (instr & 0xF) as usize;
            Self::barrel_shift(self.regs[rm], (instr >> 5u32) & 3, (instr >> 7u32) & 0x1F).0
        } else {
            instr & 0xFFF
        };
        let addr = if pre {
            if up {
                base.wrapping_add(offset)
            } else {
                base.wrapping_sub(offset)
            }
        } else {
            base
        };

        if load {
            let val = if byte {
                bus.read8(addr) as u32
            } else {
                let v = bus.read32(addr & !3u32);
                Self::rotate_right(v, (addr & 3) * 8)
            };
            if rd == 15 {
                self.regs[15] = val & !1u32;
                if val & 1 != 0 {
                    self.cpsr = self.cpsr | CPSR_T;
                }
            } else {
                self.regs[rd] = val;
            }
        } else {
            let val = self.operand(rd);
            if byte {
                bus.write8(addr, val as u8);
            } else {
                bus.write32(addr & !3u32, val);
            }
        }

        let post_addr = if !pre {
            if up {
                base.wrapping_add(offset)
            } else {
                base.wrapping_sub(offset)
            }
        } else {
            addr
        };

        if (!pre || writeback) && rn != 15 {
            self.regs[rn] = post_addr;
        }

        if load {
            3
        } else {
            2
        }
    }

    fn arm_halfword_transfer<B: Arm7Bus>(&mut self, instr: u32, bus: &mut B) -> (cycles: u32)
        requires
            old(bus).inv(),
        ensures
            final(bus).inv(),
            (final(self)@, final(bus).model(), cycles) =~~= halfword_transfer_spec(
                old(self)@,
                instr,
                old(bus).model(),
            ),
    {
        proof {
            assert((instr >> 16u32) & 0xF < 16) by {
                crate::bits::lemma_and_le_u32((instr >> 16u32), 0xF);
            }
            assert((instr >> 12u32) & 0xF < 16) by {
                crate::bits::lemma_and_le_u32((instr >> 12u32), 0xF);
            }
            assert(instr & 0xF < 16) by {
                crate::bits::lemma_and_le_u32(instr, 0xF);
            }
        }
        let pre = instr & 0x0100_0000 != 0;
        let up = instr & 0x0080_0000 != 0;
        let imm_offset = instr & 0x0040_0000 != 0;
        let writeback = instr & 0x0020_0000 != 0;
        let load = instr & 0x0010_0000 != 0;
        let rn = ((instr >> 16u32) & 0xF) as usize;
        let rd = ((instr >> 12u32) & 0xF) as usize;
        let sh = (instr >> 5u32) & 3;

        let base = self.regs[rn];
        let offset = if imm_offset {
            ((instr >> 4u32) & 0xF0) | (instr & 0xF)
        } else {
            self.regs[(instr & 0xF) as usize]
        };
        let addr = if pre {
            if up {
                base.wrapping_add(offset)
            } else {
                base.wrapping_sub(offset)
            }
        } else {
            base
        };

        if load {
            let val = if sh == 1 {
                bus.read16(addr & !1u32) as u32
            } else if sh == 2 {
                Self::sign_extend(bus.read8(addr) as u32, 8)
            } else if sh == 3 {
                Self::sign_extend(bus.read16(addr & !1u32) as u32, 16)
            } else {
                0
            };
            self.regs[rd] = val;
        } else if sh == 1 {
            bus.write16(addr & !1u32, self.regs[rd] as u16);
        }

        let post_addr = if !pre {
            if up {
                base.wrapping_add(offset)
            } else {
                base.wrapping_sub(offset)
            }
        } else {
            addr
        };

        if (!pre || writeback) && rn != 15 {
            self.regs[rn] = post_addr;
        }

        if load {
            3
        } else {
            2
        }
    }

    fn count_registers(rlist: u32, n: u32) -> (c: u32)
        requires
            n <= 16,
        ensures
            c == bits_set(rlist, n as nat),
            c <= n,
    {
        let mut c: u32 = 0;
        let mut i: u32 = 0;
        while i < n
            invariant
                i <= n <= 16,
                c == bits_set(rlist, i as nat),
                c <= i,
            decreases n - i,
        {
            if rlist & (1u32 << i) != 0 {
                c = c + 1;
            }
            i = i + 1;
        }
        c
    }

    /// Transfers the registers `0..n` of `rlist` starting at `addr`; returns
    /// the address after the last transfer.
    fn transfer_list<B: Arm7Bus>(&mut self, bus: &mut B, rlist: u32, n: u32, addr: u32, load: bool) -> (end: u32)
        requires
            old(bus).inv(),
            n <= 16,
        ensures
            final(bus).inv(),
            (final(self)@, final(bus).model(), end) =~~= block_from(old(self)@, old(bus).model(), rlist, 0, n as nat, addr, load),
    {
        let mut i: u32 = 0;
        let mut a = addr;
        while i < n
            invariant
                bus.inv(),
                i <= n <= 16,
                block_from(self@, bus.model(), rlist, i as nat, n as nat, a, load) =~~= block_from(
                    old(self)@,
                    old(bus).model(),
                    rlist,
                    0,
                    n as nat,
                    addr,
                    load,
                ),
            decreases n - i,
        {
            if rlist & (1u32 << i) != 0 {
                if load {
                    let v = bus.read32(a & !3u32);
                    self.regs[i as usize] = v;
                } else {
                    let val = self.operand(i as usize);
                    bus.write32(a & !3u32, val);
                }
                a = a.wrapping_add(4);
            }
            i = i + 1;
        }
        a
    }

    fn arm_block_transfer<B: Arm7Bus>(&mut self, instr: u32, bus: &mut B) -> (cycles: u32)
        requires
            old(bus).inv(),
        ensures
            final(bus).inv(),
            (final(self)@, final(bus).model(), cycles) =~~= block_transfer_spec(
                old(self)@,
                instr,
                old(bus).model(),
            ),
    {
        proof {
            assert((instr >> 16u32) & 0xF < 16) by {
                crate::bits::lemma_and_le_u32((instr >> 16u32), 0xF);
            }
        }
        let pre = instr & 0x0100_0000 != 0;
        let up = instr & 0x0080_0000 != 0;
        let psr = instr & 0x0040_0000 != 0;
        let writeback = instr & 0x0020_0000 != 0;
        let load = instr & 0x0010_0000 != 0;
        let rn = ((instr >> 16u32) & 0xF) as usize;
        let rlist = instr & 0xFFFF;

        let count = Self::count_registers(rlist, 16);
        let base = self.regs[rn];

        let start_addr = if up {
            if pre {
                base.wrapping_add(4)
            } else {
                base
            }
        } else if pre {
            base.wrapping_sub(count * 4)
        } else {
            base.wrapping_sub(count * 4).wrapping_add(4)
        };

        self.transfer_list(bus, rlist, 16, start_addr, load);

        if writeback && rn != 15 {
            self.regs[rn] = if up {
                base.wrapping_add(count * 4)
            } else {
                base.wrapping_sub(count * 4)
            };
        }

        if psr && load && (rlist & 0x8000 != 0) {
            self.restore_cpsr();
        }

        count + if load {
            2
        } else {
            1
        }
    }

    fn arm_class_of(instr: u32) -> (c: u32)
        ensures
            c == arm_class(instr),
    {
        if instr & 0x0FFF_FFF0 == 0x012F_FF10 {
            0
        } else if (instr >> 24u32) & 0xF == 0xF {
            1
        } else if instr & 0x0E00_0000 == 0x0A00_0000 {
            2
        } else if instr & 0x0E00_0000 == 0x0800_0000 {
            3
        } else if instr & 0x0C00_0000 == 0x0400_0000 {
            4
        } else if instr & 0x0E00_0090 == 0x0000_0090 && ((instr >> 4u32) & 0x9) == 0x9 && ((instr
            >> 4u32) & 0xF) != 0x9 {
            5
        } else if instr & 0x0FC0_00F0 == 0x0000_0090 {
            6
        } else if instr & 0x0F80_00F0 == 0x0080_0090 {
            7
        } else if instr & 0x0FBF_0FFF == 0x010F_0000 {
            8
        } else if instr & 0x0DB0_F000 == 0x0120_F000 {
            9
        } else if instr & 0x0C00_0000 == 0 {
            10
        } else {
            11
        }
    }

    fn branch_exchange(&mut self, addr: u32)
        ensures
            final(self)@ =~~= bx_spec(old(self)@, addr),
    {
        if addr & 1 != 0 {
            self.cpsr = self.cpsr | CPSR_T;
            self.regs[15] = addr & !1u32;
        } else {
            self.cpsr = self.cpsr & !CPSR_T;
            self.regs[15] = addr & !3u32;
        }
    }

    /// Executes an ARM-state instruction other than SWI (PC already advanced).
    fn arm_execute<B: Arm7Bus>(&mut self, instr: u32, bus: &mut B) -> (cycles: u32)
        requires
            old(bus).inv(),
            arm_class(instr) != 1,
            arm_class(instr) == 10 ==> !dp_undefined_shift(old(self)@, instr),
        ensures
            final(bus).inv(),
            (final(self)@, final(bus).model(), cycles) =~~= arm_exec_spec(old(self)@, instr, old(bus).model()),
    {
        reveal(arm_exec_spec);
        let class = Self::arm_class_of(instr);
        if class == 0 {
            proof {
                assert(instr & 0xF < 16) by {
                    crate::bits::lemma_and_le_u32(instr, 0xF);
                }
            }
            let addr = self.regs[(instr & 0xF) as usize];
            self.branch_exchange(addr);
            3
        } else if class == 2 {
            let link = instr & 0x0100_0000 != 0;
            let pc = self.regs[15];
            if link {
                self.regs[14] = pc;
            }
            let off = Self::sign_extend(instr & 0x00FF_FFFF, 24);
            self.regs[15] = pc.wrapping_add(4).wrapping_add(off.wrapping_mul(4));
            3
        } else if class == 3 {
            self.arm_block_transfer(instr, bus)
        } else if class == 4 {
            self.arm_single_transfer(instr, bus)
        } else if class == 5 {
            self.arm_halfword_transfer(instr, bus)
        } else if class == 6 {
            self.arm_multiply(instr)
        } else if class == 7 {
            self.arm_multiply_long(instr)
        } else if class == 8 {
            proof {
                assert((instr >> 12u32) & 0xF < 16) by {
                    crate::bits::lemma_and_le_u32((instr >> 12u32), 0xF);
                }
            }
            let rd = ((instr >> 12u32) & 0xF) as usize;
            let v = if instr & 0x0040_0000 != 0 {
                self.spsr[self.current_mode().bank_index()]
            } else {
                self.cpsr
            };
            self.regs[rd] = v;
            1
        } else if class == 9 {
            self.arm_msr(instr);
            1
        } else if class == 10 {
            self.arm_data_processing(instr)
        } else {
            1
        }
    }
    fn thumb_move_shifted(&mut self, instr: u32) -> (cycles: u32)
        requires
            (instr >> 11u32) & 3 != 3,
        ensures
            final(self)@ =~~= thumb_shift_imm_spec(old(self)@, instr),
            cycles == 1,
    {
        proof {
            assert((instr >> 6u32) & 0x1F < 32) by {
                crate::bits::lemma_and_le_u32((instr >> 6u32), 0x1F);
            }
            assert((instr >> 3u32) & 7 < 8) by {
                crate::bits::lemma_and_le_u32((instr >> 3u32), 7);
            }
            assert(instr & 7 < 8) by {
                crate::bits::lemma_and_le_u32(instr, 7);
            }
        }
        let op = (instr >> 11u32) & 3;
        let offset = (instr >> 6u32) & 0x1F;
        let rs = ((instr >> 3u32) & 7) as usize;
        let rd = (instr & 7) as usize;
        let val = self.regs[rs];
        let result = if op == 0 {
            if offset == 0 {
                val
            } else {
                self.set_flag(CPSR_C, val & (1u32 << (32 - offset)) != 0);
                val << offset
            }
        } else if op == 1 {
            if offset == 0 {
                self.set_flag(CPSR_C, val & 0x8000_0000 != 0);
                0
            } else {
                self.set_flag(CPSR_C, val & (1u32 << (offset - 1)) != 0);
                val >> offset
            }
        } else {
            if offset == 0 {
                let c = val & 0x8000_0000 != 0;
                self.set_flag(CPSR_C, c);
                if c {
                    0xFFFF_FFFF
                } else {
                    0
                }
            } else {
                self.set_flag(CPSR_C, val & (1u32 << (offset - 1)) != 0);
                Self::arith_shift_right(val, offset)
            }
        };
        self.regs[rd] = result;
        self.set_nz(result);
        1
    }

    fn thumb_add_sub(&mut self, instr: u32) -> (cycles: u32)
        ensures
            final(self)@ =~~= thumb_add_sub_spec(old(self)@, instr),
            cycles == 1,
    {
        proof {
            assert((instr >> 6u32) & 7 < 8) by {
                crate::bits::lemma_and_le_u32((instr >> 6u32), 7);
            }
            assert((instr >> 3u32) & 7 < 8) by {
                crate::bits::lemma_and_le_u32((instr >> 3u32), 7);
            }
            assert(instr & 7 < 8) by {
                crate::bits::lemma_and_le_u32(instr, 7);
            }
        }
        let rn_imm = (instr >> 6u32) & 7;
        let op1 = self.regs[((instr >> 3u32) & 7) as usize];
        let op2 = if instr & 0x400 != 0 {
            rn_imm
        } else {
            self.regs[rn_imm as usize]
        };
        let res = if instr & 0x200 != 0 {
            Self::sub_with_flags(op1, op2, 0)
        } else {
            Self::add_with_flags(op1, op2, 0)
        };
        self.set_arith_flags(res);
        self.regs[(instr & 7) as usize] = res.0;
        1
    }

    fn thumb_imm_op(&mut self, instr: u32) -> (cycles: u32)
        ensures
            final(self)@ =~~= thumb_imm_spec(old(self)@, instr),
            cycles == 1,
    {
        proof {
            assert((instr >> 8u32) & 7 < 8) by {
                crate::bits::lemma_and_le_u32((instr >> 8u32), 7);
            }
        }
        let op = (instr >> 11u32) & 3;
        let rd = ((instr >> 8u32) & 7) as usize;
        let imm = instr & 0xFF;
        if op == 0 {
            self.regs[rd] = imm;
            self.set_nz(imm);
        } else if op == 1 {
            let res = Self::sub_with_flags(self.regs[rd], imm, 0);
            self.set_arith_flags(res);
        } else if op == 2 {
            let res = Self::add_with_flags(self.regs[rd], imm, 0);
            self.set_arith_flags(res);
            self.regs[rd] = res.0;
        } else {
            let res = Self::sub_with_flags(self.regs[rd], imm, 0);
            self.set_arith_flags(res);
            self.regs[rd] = res.0;
        }
        1
    }

    fn register_shift(&mut self, a: u32, amt: u32, kind: u32) -> (r: u32)
        ensures
            (r, final(self).cpsr) == reg_shift_spec(a, amt, kind, old(self).cpsr),
            final(self)@ == with_cpsr(old(self)@, final(self).cpsr),
    {
        if amt == 0 {
            a
        } else if kind == 2 {
            if amt < 32 {
                self.set_flag(CPSR_C, a & (1u32 << (32 - amt)) != 0);
                a << amt
            } else if amt == 32 {
                self.set_flag(CPSR_C, a & 1 != 0);
                0
            } else {
                self.set_flag(CPSR_C, false);
                0
            }
        } else if kind == 3 {
            if amt < 32 {
                self.set_flag(CPSR_C, a & (1u32 << (amt - 1)) != 0);
                a >> amt
            } else if amt == 32 {
                self.set_flag(CPSR_C, a & 0x8000_0000 != 0);
                0
            } else {
                self.set_flag(CPSR_C, false);
                0
            }
        } else if kind == 4 {
            if amt < 32 {
                self.set_flag(CPSR_C, a & (1u32 << (amt - 1)) != 0);
                Self::arith_shift_right(a, amt)
            } else {
                let c = a & 0x8000_0000 != 0;
                self.set_flag(CPSR_C, c);
                if c {
                    0xFFFF_FFFF
                } else {
                    0
                }
            }
        } else {
            let eff = amt & 31;
            proof {
                assert(amt & 31 < 32) by {
                    crate::bits::lemma_and_le_u32(amt, 31);
                }
            }
            if eff == 0 {
                self.set_flag(CPSR_C, a & 0x8000_0000 != 0);
                a
            } else {
                self.set_flag(CPSR_C, a & (1u32 << (eff - 1)) != 0);
                Self::rotate_right(a, eff)
            }
        }
    }

    #[verifier::rlimit(40)]
    fn thumb_alu(&mut self, instr: u32) -> (cycles: u32)
        ensures
            final(self)@ =~~= thumb_alu_spec(old(self)@, instr),
            cycles == 1,
    {
        proof {
            assert((instr >> 3u32) & 7 < 8) by {
                crate::bits::lemma_and_le_u32((instr >> 3u32), 7);
            }
            assert(instr & 7 < 8) by {
                crate::bits::lemma_and_le_u32(instr, 7);
            }
        }
        let op = (instr >> 6u32) & 0xF;
        let rd = (instr & 7) as usize;
        let a = self.regs[rd];
        let b = self.regs[((instr >> 3u32) & 7) as usize];
        let c_in: u32 = if self.cpsr & CPSR_C != 0 {
            1
        } else {
            0
        };
        if op == 2 || op == 3 || op == 4 || op == 7 {
            let r = self.register_shift(a, b & 0xFF, op);
            self.regs[rd] = r;
            self.set_nz(r);
        } else if op == 5 || op == 6 || op == 9 || op == 0xA || op == 0xB {
            let res = if op == 5 {
                Self::add_with_flags(a, b, c_in)
            } else if op == 6 {
                Self::sub_with_flags(a, b, 1 - c_in)
            } else if op == 9 {
                Self::sub_with_flags(0, b, 0)
            } else if op == 0xA {
                Self::sub_with_flags(a, b, 0)
            } else {
                Self::add_with_flags(a, b, 0)
            };
            self.set_arith_flags(res);
            if op != 0xA && op != 0xB {
                self.regs[rd] = res.0;
            }
        } else {
            let r = if op == 0 || op == 8 {
                a & b
            } else if op == 1 {
                a ^ b
            } else if op == 0xC {
                a | b
            } else if op == 0xD {
                a.wrapping_mul(b)
            } else if op == 0xE {
                a & !b
            } else {
                !b
            };
            self.set_nz(r);
            if op != 8 {
                self.regs[rd] = r;
            }
        }
        1
    }

    fn thumb_hi_reg(&mut self, instr: u32) -> (cycles: u32)
        ensures
            final(self)@ =~~= thumb_hi_reg_spec(old(self)@, instr),
            cycles == 1,
    {
        let op = (instr >> 8u32) & 3;
        let rs = ((((instr >> 6u32) & 1) << 3u32) | ((instr >> 3u32) & 7)) as usize;
        let rd = ((((instr >> 7u32) & 1) << 3u32) | (instr & 7)) as usize;
        proof {
            assert((((instr >> 6u32) & 1) << 3u32) | ((instr >> 3u32) & 7) < 16) by (bit_vector);
            assert((((instr >> 7u32) & 1) << 3u32) | (instr & 7) < 16) by (bit_vector);
        }
        if op == 0 {
            let v = self.regs[rd].wrapping_add(self.regs[rs]);
            self.regs[rd] = if rd == 15 {
                v & !1u32
            } else {
                v
            };
        } else if op == 1 {
            let res = Self::sub_with_flags(self.regs[rd], self.regs[rs], 0);
            self.set_arith_flags(res);
        } else if op == 2 {
            let v = self.regs[rs];
            self.regs[rd] = if rd == 15 {
                v & !1u32
            } else {
                v
            };
        } else {
            let addr = self.regs[rs];
            self.branch_exchange(addr);
        }
        1
    }

    #[verifier::rlimit(40)]
    fn thumb_transfer<B: Arm7Bus>(&mut self, instr: u32, bus: &mut B, format: u32) -> (cycles: u32)
        requires
            old(bus).inv(),
            6 <= format <= 11,
        ensures
            final(bus).inv(),
            (final(self)@, final(bus).model(), cycles) =~~= thumb_transfer_spec(
                old(self)@,
                instr,
                old(bus).model(),
                format as int,
            ),
    {
        proof {
            assert((instr >> 8u32) & 7 < 8) by {
                crate::bits::lemma_and_le_u32((instr >> 8u32), 7);
            }
            assert((instr >> 6u32) & 7 < 8) by {
                crate::bits::lemma_and_le_u32((instr >> 6u32), 7);
            }
            assert((instr >> 3u32) & 7 < 8) by {
                crate::bits::lemma_and_le_u32((instr >> 3u32), 7);
            }
            assert(instr & 7 < 8) by {
                crate::bits::lemma_and_le_u32(instr, 7);
            }
        }
        let rd3 = (instr & 7) as usize;
        let rb = ((instr >> 3u32) & 7) as usize;
        if format == 6 {
            let rd = ((instr >> 8u32) & 7) as usize;
            let addr = (self.regs[15].wrapping_add(2) & !2u32).wrapping_add((instr & 0xFF) << 2u32);
            self.regs[rd] = bus.read32(addr & !3u32);
            3
        } else if format == 7 || format == 8 {
            let addr = self.regs[rb].wrapping_add(self.regs[((instr >> 6u32) & 7) as usize]);
            let op = (instr >> 10u32) & 3;
            let rdv = self.regs[rd3];
            if format == 7 {
                if op == 0 {
                    bus.write32(addr & !3u32, rdv);
                    2
                } else if op == 1 {
                    bus.write8(addr, rdv as u8);
                    2
                } else if op == 2 {
                    self.regs[rd3] = bus.read32(addr & !3u32);
                    3
                } else {
                    self.regs[rd3] = bus.read8(addr) as u32;
                    3
                }
            } else {
                if op == 0 {
                    bus.write16(addr & !1u32, rdv as u16);
                    2
                } else if op == 1 {
                    self.regs[rd3] = Self::sign_extend(bus.read8(addr) as u32, 8);
                    3
                } else if op == 2 {
                    self.regs[rd3] = bus.read16(addr & !1u32) as u32;
                    3
                } else {
                    self.regs[rd3] = Self::sign_extend(bus.read16(addr & !1u32) as u32, 16);
                    3
                }
            }
        } else if format == 9 {
            let byte = instr & 0x1000 != 0;
            let offset = (instr >> 6u32) & 0x1F;
            proof {
                assert(((instr >> 6u32) & 0x1F) << 2u32 <= 124) by (bit_vector);
            }
            let addr = if byte {
                self.regs[rb].wrapping_add(offset)
            } else {
                self.regs[rb].wrapping_add(offset << 2u32)
            };
            if instr & 0x800 != 0 {
                self.regs[rd3] = if byte {
                    bus.read8(addr) as u32
                } else {
                    bus.read32(addr & !3u32)
                };
                3
            } else {
                if byte {
                    bus.write8(addr, self.regs[rd3] as u8);
                } else {
                    bus.write32(addr & !3u32, self.regs[rd3]);
                }
                2
            }
        } else if format == 10 {
            let addr = self.regs[rb].wrapping_add(((instr >> 6u32) & 0x1F) << 1u32);
            if instr & 0x800 != 0 {
                self.regs[rd3] = bus.read16(addr & !1u32) as u32;
                3
            } else {
                bus.write16(addr & !1u32, self.regs[rd3] as u16);
                2
            }
        } else {
            let rd = ((instr >> 8u32) & 7) as usize;
            let addr = self.regs[13].wrapping_add((instr & 0xFF) << 2u32);
            if instr & 0x800 != 0 {
                self.regs[rd] = bus.read32(addr & !3u32);
                3
            } else {
                bus.write32(addr & !3u32, self.regs[rd]);
                2
            }
        }
    }

    fn thumb_address(&mut self, instr: u32, format: u32) -> (cycles: u32)
        ensures
            final(self)@ =~~= thumb_address_spec(old(self)@, instr, format as int),
            cycles == 1,
    {
        if format == 12 {
            proof {
                assert((instr >> 8u32) & 7 < 8) by {
                    crate::bits::lemma_and_le_u32((instr >> 8u32), 7);
                }
            }
            let offset = (instr & 0xFF) << 2u32;
            let rd = ((instr >> 8u32) & 7) as usize;
            self.regs[rd] = if instr & 0x800 != 0 {
                self.regs[13].wrapping_add(offset)
            } else {
                (self.regs[15].wrapping_add(2) & !2u32).wrapping_add(offset)
            };
        } else {
            let offset = (instr & 0x7F) << 2u32;
            self.regs[13] = if instr & 0x80 != 0 {
                self.regs[13].wrapping_sub(offset)
            } else {
                self.regs[13].wrapping_add(offset)
            };
        }
        1
    }

    fn thumb_push_pop<B: Arm7Bus>(&mut self, instr: u32, bus: &mut B) -> (cycles: u32)
        requires
            old(bus).inv(),
        ensures
            final(bus).inv(),
            (final(self)@, final(bus).model(), cycles) =~~= thumb_push_pop_spec(old(self)@, instr, old(bus).model()),
    {
        let pop = instr & 0x800 != 0;
        let pc_lr = instr & 0x100 != 0;
        let rlist = instr & 0xFF;
        let n = Self::count_registers(rlist, 8);
        if pop {
            let base = self.regs[13];
            let mut addr = self.transfer_list(bus, rlist, 8, base, true);
            if pc_lr {
                let val = bus.read32(addr & !3u32);
                self.regs[15] = val & !1u32;
                if val & 1 == 0 {
                    self.cpsr = self.cpsr & !CPSR_T;
                }
                addr = addr.wrapping_add(4);
            }
            self.regs[13] = addr;
        } else {
            let count = n + if pc_lr {
                1
            } else {
                0
            };
            let start = self.regs[13].wrapping_sub(count * 4);
            self.regs[13] = start;
            let addr = self.transfer_list(bus, rlist, 8, start, false);
            if pc_lr {
                bus.write32(addr & !3u32, self.regs[14]);
            }
        }
        n + (if pc_lr {
            1
        } else {
            0
        }) + (if pop {
            2
        } else {
            1
        })
    }

    fn thumb_multiple_load_store<B: Arm7Bus>(&mut self, instr: u32, bus: &mut B) -> (cycles: u32)
        requires
            old(bus).inv(),
        ensures
            final(bus).inv(),
            (final(self)@, final(bus).model(), cycles) =~~= thumb_multiple_spec(old(self)@, instr, old(bus).model()),
    {
        proof {
            assert((instr >> 8u32) & 7 < 8) by {
                crate::bits::lemma_and_le_u32((instr >> 8u32), 7);
            }
        }
        let load = instr & 0x800 != 0;
        let rb = ((instr >> 8u32) & 7) as usize;
        let rlist = instr & 0xFF;
        let n = Self::count_registers(rlist, 8);
        let base = self.regs[rb];
        let addr = self.transfer_list(bus, rlist, 8, base, load);
        if !load || (rlist & (1u32 << (rb as u32))) == 0 {
            self.regs[rb] = addr;
        }
        n + if load {
            2
        } else {
            1
        }
    }

    fn thumb_branch(&mut self, instr: u32, format: u32) -> (cycles: u32)
        ensures
            (final(self)@, cycles) =~~= thumb_branch_spec(old(self)@, instr, format as int),
    {
        let next = self.regs[15].wrapping_add(2);
        if format == 16 {
            if self.condition_passed((instr >> 8u32) & 0xF) {
                let off = Self::sign_extend(instr & 0xFF, 8);
                self.regs[15] = next.wrapping_add(off.wrapping_mul(2));
                3
            } else {
                1
            }
        } else if format == 18 {
            let off = Self::sign_extend(instr & 0x7FF, 11);
            self.regs[15] = next.wrapping_add(off.wrapping_mul(2));
            3
        } else if instr & 0x800 == 0 {
            let off = Self::sign_extend(instr & 0x7FF, 11);
            self.regs[14] = next.wrapping_add(off.wrapping_mul(4096));
            1
        } else {
            let next_pc = self.regs[15];
            self.regs[15] = self.regs[14].wrapping_add((instr & 0x7FF) << 1u32);
            self.regs[14] = next_pc | 1;
            3
        }
    }

    fn thumb_format_of(instr: u32) -> (f: u32)
        ensures
            f == thumb_format(instr),
    {
        let top = instr >> 13u32;
        if top == 0 {
            if (instr >> 11u32) & 3 == 3 {
                2
            } else {
                1
            }
        } else if top == 1 {
            3
        } else if top == 2 {
            if instr & 0x1000 != 0 {
                if instr & 0x200 == 0 {
                    7
                } else {
                    8
                }
            } else if instr & 0x800 != 0 {
                6
            } else if instr & 0x400 != 0 {
                5
            } else {
                4
            }
        } else if top == 3 {
            9
        } else if top == 4 {
            if instr & 0x1000 != 0 {
                11
            } else {
                10
            }
        } else if top == 5 {
            if instr & 0x1000 != 0 {
                if instr & 0x400 != 0 {
                    14
                } else {
                    13
                }
            } else {
                12
            }
        } else if top == 6 {
            if instr & 0x1000 != 0 {
                if (instr >> 8u32) & 0xF == 0xF {
                    17
                } else {
                    16
                }
            } else {
                15
            }
        } else if instr & 0x1000 != 0 {
            19
        } else {
            18
        }
    }

    /// Executes a Thumb instruction other than SWI (PC already advanced).
    fn thumb_execute<B: Arm7Bus>(&mut self, instr: u32, bus: &mut B) -> (cycles: u32)
        requires
            old(bus).inv(),
            thumb_format(instr) != 17,
        ensures
            final(bus).inv(),
            (final(self)@, final(bus).model(), cycles) =~~= thumb_exec_spec(old(self)@, instr, old(bus).model()),
    {
        reveal(thumb_exec_spec);
        let f = Self::thumb_format_of(instr);
        if f == 1 {
            self.thumb_move_shifted(instr)
        } else if f == 2 {
            self.thumb_add_sub(instr)
        } else if f == 3 {
            self.thumb_imm_op(instr)
        } else if f == 4 {
            self.thumb_alu(instr)
        } else if f == 5 {
            self.thumb_hi_reg(instr)
        } else if f == 12 || f == 13 {
            self.thumb_address(instr, f)
        } else if f == 14 {
            self.thumb_push_pop(instr, bus)
        } else if f == 15 {
            self.thumb_multiple_load_store(instr, bus)
        } else if f == 16 || f == 18 || f == 19 {
            self.thumb_branch(instr, f)
        } else {
            self.thumb_transfer(instr, bus, f)
        }
    }

    // -----------------------------------------------------------------------
    // BIOS calls
    // -----------------------------------------------------------------------

    /// Magnitude of a word read as a two's-complement integer.
    fn magnitude(x: u32) -> (m: u32)
        ensures
            m == abs32(x),
    {
        if x < 0x8000_0000 {
            x
        } else {
            0u32.wrapping_sub(x)
        }
    }

    /// Div and DivArm: signed division truncating toward zero.
    fn swi_div(&mut self, num: u32, den: u32)
        ensures
            final(self)@ =~~= div_spec(old(self)@, num, den),
    {
        if den != 0 {
            let an = Self::magnitude(num);
            let ad = Self::magnitude(den);
            let q = an / ad;
            let r = an % ad;
            let q_neg = (num >= 0x8000_0000) != (den >= 0x8000_0000);
            self.regs[0] = if q_neg {
                0u32.wrapping_sub(q)
            } else {
                q
            };
            self.regs[1] = if num >= 0x8000_0000 {
                0u32.wrapping_sub(r)
            } else {
                r
            };
            self.regs[3] = q;
        }
    }

    /// Integer square root by bisection.
    fn isqrt(v: u32) -> (r: u32)
        ensures
            is_isqrt(v, r),
    {
        let vv = v as u64;
        let mut lo: u64 = 0;
        let mut hi: u64 = 0x1_0000;
        assert(0x1_0000u64 * 0x1_0000u64 == 0x1_0000_0000u64) by (nonlinear_arith);
        while hi - lo > 1
            invariant
                lo < hi <= 0x1_0000,
                lo * lo <= vv,
                vv < hi * hi,
                vv == v,
            decreases hi - lo,
        {
            let mid = lo + (hi - lo) / 2;
            assert(mid * mid <= 0x1_0000 * 0x1_0000) by (nonlinear_arith)
                requires
                    mid <= 0x1_0000,
            ;
            if mid * mid <= vv {
                lo = mid;
            } else {
                hi = mid;
            }
        }
        lo as u32
    }

    /// Copies (or fills) `count` units from `src` to `dst`.
    fn copy_loop<B: Arm7Bus>(bus: &mut B, src: u32, dst: u32, count: u32, word: bool, fill: Option<u32>)
        requires
            old(bus).inv(),
            count <= 0x1F_FFFF,
        ensures
            final(bus).inv(),
            final(bus).model() == copy_units(old(bus).model(), src, dst, count as nat, 0, word, fill),
    {
        let mut i: u32 = 0;
        while i < count
            invariant
                bus.inv(),
                i <= count <= 0x1F_FFFF,
                copy_units(bus.model(), src, dst, count as nat, i as nat, word, fill) == copy_units(
                    old(bus).model(),
                    src,
                    dst,
                    count as nat,
                    0,
                    word,
                    fill,
                ),
            decreases count - i,
        {
            if word {
                let off = i * 4;
                let val = match fill {
                    Some(v) => v,
                    None => bus.read32(src.wrapping_add(off)),
                };
                bus.write32(dst.wrapping_add(off), val);
            } else {
                let off = i * 2;
                let val = match fill {
                    Some(v) => v as u16,
                    None => bus.read16(src.wrapping_add(off)),
                };
                bus.write16(dst.wrapping_add(off), val);
            }
            i = i + 1;
        }
    }

    /// CpuSet (`fast == false`) and CpuFastSet.
    fn swi_cpu_set<B: Arm7Bus>(&self, bus: &mut B, fast: bool)
        requires
            old(bus).inv(),
        ensures
            final(bus).inv(),
            final(bus).model() == cpu_set_spec(self@, old(bus).model(), fast),
    {
        let src = self.regs[0];
        let dst = self.regs[1];
        let ctrl = self.regs[2];
        proof {
            assert((ctrl & 0x1F_FFFF) & !7u32 <= 0x1F_FFFF) by (bit_vector);
            assert(ctrl & 0x1F_FFFF <= 0x1F_FFFF) by {
                crate::bits::lemma_and_le_u32(ctrl, 0x1F_FFFF);
            }
        }
        let count = if fast {
            (ctrl & 0x1F_FFFF) & !7u32
        } else {
            ctrl & 0x1F_FFFF
        };
        let fill = ctrl & 0x0100_0000 != 0;
        let word = fast || ctrl & 0x0400_0000 != 0;
        if word {
            let fv = if fill {
                bus.read32(src)
            } else {
                0
            };
            Self::copy_loop(bus, src, dst, count, true, if fill { Some(fv) } else { None });
        } else {
            let fv = if fill {
                bus.read16(src)
            } else {
                0
            };
            Self::copy_loop(bus, src, dst, count, false, if fill { Some(fv as u32) } else { None });
        }
    }

    /// Writes `len` zero bytes from `start` upwards.
    fn zero_range<B: Arm7Bus>(bus: &mut B, start: u32, len: u32)
        requires
            old(bus).inv(),
        ensures
            final(bus).inv(),
            final(bus).model() == zero_bytes(old(bus).model(), start, len as nat),
    {
        let mut addr = start;
        let mut rem = len;
        while rem > 0
            invariant
                bus.inv(),
                zero_bytes(bus.model(), addr, rem as nat) == zero_bytes(old(bus).model(), start, len as nat),
            decreases rem,
        {
            bus.write8(addr, 0);
            addr = addr.wrapping_add(1);
            rem = rem - 1;
        }
    }

    /// RegisterRamReset.
    fn swi_register_ram_reset<B: Arm7Bus>(&self, bus: &mut B)
        requires
            old(bus).inv(),
        ensures
            final(bus).inv(),
            final(bus).model() == ram_reset_spec(self.regs[0] as u8, old(bus).model()),
    {
        let flags = self.regs[0] as u8;
        if flags & 0x01 != 0 {
            Self::zero_range(bus, 0x0200_0000, 0x40000);
        }
        if flags & 0x02 != 0 {
            // The top 0x200 bytes of IWRAM are kept.
            Self::zero_range(bus, 0x0300_0000, 0x7E00);
        }
        if flags & 0x04 != 0 {
            Self::zero_range(bus, 0x0500_0000, 0x400);
        }
        if flags & 0x08 != 0 {
            Self::zero_range(bus, 0x0600_0000, 0x18000);
        }
        if flags & 0x10 != 0 {
            Self::zero_range(bus, 0x0700_0000, 0x400);
        }
        if flags & 0x20 != 0 {
            Self::zero_range(bus, 0x0400_0120, 0xB);
            bus.write8(0x0400_0134, 0);
            bus.write8(0x0400_0135, 0);
        }
        if flags & 0x40 != 0 {
            Self::zero_range(bus, 0x0400_0060, 0x48);
            // The default sound bias.
            bus.write8(0x0400_0088, 0x00);
            bus.write8(0x0400_0089, 0x02);
        }
        if flags & 0x80 != 0 {
            Self::zero_range(bus, 0x0400_0000, 0x56);
            Self::zero_range(bus, 0x0400_00B0, 0x30);
            Self::zero_range(bus, 0x0400_0100, 0x12);
            Self::zero_range(bus, 0x0400_0200, 0xC);
        }
    }

    /// sin and cos of `angle` (a 256th of a turn), scaled by 4096.
    fn bios_sin_cos(angle: u8) -> (r: (i32, i32))
        ensures
            r.0 == bios_sin(angle),
            r.1 == bios_sin(angle.wrapping_add(64)),
    {
        let t: [i32; 65] = [
            0, 101, 201, 301, 401, 501, 601, 700, 799, 897, 995, 1092, 1189, 1285, 1380, 1474,
            1567, 1660, 1751, 1842, 1931, 2019, 2106, 2191, 2276, 2359, 2440, 2520, 2598, 2675,
            2751, 2824, 2896, 2967, 3035, 3102, 3166, 3229, 3290, 3349, 3406, 3461, 3513, 3564,
            3612, 3659, 3703, 3745, 3784, 3822, 3857, 3889, 3920, 3948, 3973, 3996, 4017, 4036,
            4052, 4065, 4076, 4085, 4091, 4095, 4096,
        ];
        assert(t@ =~= sin_quarter());
        let c_angle = angle.wrapping_add(64);
        (Self::table_sin(&t, angle), Self::table_sin(&t, c_angle))
    }

    fn table_sin(t: &[i32; 65], a: u8) -> (v: i32)
        requires
            t@ == sin_quarter(),
        ensures
            v == bios_sin(a),
    {
        if a < 64 {
            t[a as usize]
        } else if a < 128 {
            t[(128 - a) as usize]
        } else if a < 192 {
            0i32.wrapping_sub(t[(a - 128) as usize])
        } else {
            0i32.wrapping_sub(t[(256 - a as u32) as usize])
        }
    }

    /// The affine parameters PA, PB, PC, PD for two scale factors and an angle.
    fn affine_params(scale_x: i32, scale_y: i32, angle: u8) -> (r: (i16, i16, i16, i16))
        ensures
            r == affine_params_spec(scale_x, scale_y, angle),
    {
        let (sin, cos) = Self::bios_sin_cos(angle);
        let pa = (scale_x.wrapping_mul(cos) >> 12u32) as i16;
        let pb = (0i32.wrapping_sub(scale_x.wrapping_mul(sin)) >> 12u32) as i16;
        let pc = (scale_y.wrapping_mul(sin) >> 12u32) as i16;
        let pd = (scale_y.wrapping_mul(cos) >> 12u32) as i16;
        (pa, pb, pc, pd)
    }

    /// BgAffineSet: R2 entries of 20 bytes at R0 to entries of 16 bytes at R1.
    fn swi_bg_affine_set<B: Arm7Bus>(&self, bus: &mut B)
        requires
            old(bus).inv(),
        ensures
            final(bus).inv(),
            final(bus).model() == bg_affine_from(old(bus).model(), self.regs[0], self.regs[1], self.regs[2], 0),
    {
        let src = self.regs[0];
        let dst = self.regs[1];
        let count = self.regs[2];
        let mut i: u32 = 0;
        while i < count
            invariant
                bus.inv(),
                i <= count,
                bg_affine_from(bus.model(), src, dst, count, i as nat) == bg_affine_from(
                    old(bus).model(),
                    src,
                    dst,
                    count,
                    0,
                ),
            decreases count - i,
        {
            let src_entry = src.wrapping_add(i.wrapping_mul(20));
            let dst_entry = dst.wrapping_add(i.wrapping_mul(16));
            let ghost b_entry = bus.model();
            let tex_x = bus.read32(src_entry) as i32;
            let tex_y = bus.read32(src_entry.wrapping_add(4)) as i32;
            let scr_x = bus.read16(src_entry.wrapping_add(8)) as i16 as i32;
            let scr_y = bus.read16(src_entry.wrapping_add(10)) as i16 as i32;
            let scale_x = bus.read16(src_entry.wrapping_add(12)) as i16 as i32;
            let scale_y = bus.read16(src_entry.wrapping_add(14)) as i16 as i32;
            let angle = (bus.read16(src_entry.wrapping_add(16)) >> 8u16) as u8;
            let (pa, pb, pc, pd) = Self::affine_params(scale_x, scale_y, angle);
            let dx = tex_x.wrapping_sub((pa as i32).wrapping_mul(scr_x).wrapping_add((pb as i32).wrapping_mul(scr_y)));
            let dy = tex_y.wrapping_sub((pc as i32).wrapping_mul(scr_x).wrapping_add((pd as i32).wrapping_mul(scr_y)));
            bus.write16(dst_entry, pa as u16);
            bus.write16(dst_entry.wrapping_add(2), pb as u16);
            bus.write16(dst_entry.wrapping_add(4), pc as u16);
            bus.write16(dst_entry.wrapping_add(6), pd as u16);
            bus.write32(dst_entry.wrapping_add(8), dx as u32);
            bus.write32(dst_entry.wrapping_add(12), dy as u32);
            assert(bus.model() == bg_affine_entry(b_entry, src_entry, dst_entry));
            i = i + 1;
        }
    }

    /// ObjAffineSet: R2 entries of 8 bytes at R0; parameters R3 bytes apart at R1.
    fn swi_obj_affine_set<B: Arm7Bus>(&self, bus: &mut B)
        requires
            old(bus).inv(),
        ensures
            final(bus).inv(),
            final(bus).model() == obj_affine_from(
                old(bus).model(),
                self.regs[0],
                self.regs[1],
                self.regs[2],
                self.regs[3],
                0,
            ),
    {
        let src = self.regs[0];
        let dst = self.regs[1];
        let count = self.regs[2];
        let offset = self.regs[3];
        let mut i: u32 = 0;
        while i < count
            invariant
                bus.inv(),
                i <= count,
                obj_affine_from(bus.model(), src, dst, count, offset, i as nat) == obj_affine_from(
                    old(bus).model(),
                    src,
                    dst,
                    count,
                    offset,
                    0,
                ),
            decreases count - i,
        {
            let src_entry = src.wrapping_add(i.wrapping_mul(8));
            let dst_entry = dst.wrapping_add(i.wrapping_mul(offset).wrapping_mul(4));
            let ghost b_entry = bus.model();
            let scale_x = bus.read16(src_entry) as i16 as i32;
            let scale_y = bus.read16(src_entry.wrapping_add(2)) as i16 as i32;
            let angle = (bus.read16(src_entry.wrapping_add(4)) >> 8u16) as u8;
            let (pa, pb, pc, pd) = Self::affine_params(scale_x, scale_y, angle);
            bus.write16(dst_entry, pa as u16);
            bus.write16(dst_entry.wrapping_add(offset), pb as u16);
            bus.write16(dst_entry.wrapping_add(offset.wrapping_mul(2)), pc as u16);
            bus.write16(dst_entry.wrapping_add(offset.wrapping_mul(3)), pd as u16);
            assert(bus.model() == obj_affine_entry(b_entry, src_entry, dst_entry, offset));
            i = i + 1;
        }
    }

    /// LZ77UnCompWram: byte writes, back-references read from the output.
    fn swi_lz77_wram<B: Arm7Bus>(&self, bus: &mut B)
        requires
            old(bus).inv(),
        ensures
            final(bus).inv(),
            final(bus).model() == lz77_wram_spec(self@, old(bus).model()),
    {
        let src = self.regs[0];
        let dst = self.regs[1];
        let header = bus.read32(src);
        let mut remaining = header >> 8u32;
        let mut src_pos = src.wrapping_add(4);
        let mut dst_pos = dst;
        let ghost total = lz77_wram_spec(self@, old(bus).model());
        let ghost mut fuel: nat = remaining as nat;
        while remaining > 0
            invariant
                bus.inv(),
                remaining <= fuel,
                lz77w_run(bus.model(), src_pos, dst_pos, remaining, fuel) == total,
            decreases remaining,
        {
            let ghost b0 = bus.model();
            let ghost s0 = src_pos;
            let ghost d0 = dst_pos;
            let flags = bus.read8(src_pos);
            src_pos = src_pos.wrapping_add(1);
            let start = remaining;
            let mut bit: u32 = 8;
            while bit > 0 && remaining > 0
                invariant
                    bus.inv(),
                    bit <= 8,
                    remaining <= start,
                    start > 0,
                    bit < 8 ==> remaining < start,
                    lz77w_block(bus.model(), src_pos, dst_pos, remaining, flags, bit) == lz77w_block(
                        b0,
                        s0.wrapping_add(1),
                        d0,
                        start,
                        flags,
                        8,
                    ),
                decreases bit,
            {
                let ghost pb = bus.model();
                let ghost ps = src_pos;
                let ghost pd = dst_pos;
                let ghost pr = remaining;
                bit = bit - 1;
                if flags & (1u8 << bit) != 0 {
                    let r1 = bus.read8(src_pos);
                    let r2 = bus.read8(src_pos.wrapping_add(1));
                    let b1 = r1 as u32;
                    let b2 = r2 as u32;
                    src_pos = src_pos.wrapping_add(2);
                    proof {
                        assert(b1 < 256 && b2 < 256 ==> (b1 >> 4u32) < 16 && (((b1 & 0xF) << 8u32) | b2) < 4096) by (bit_vector);
                    }
                    let mut length = (b1 >> 4u32) + 3;
                    if length > remaining {
                        length = remaining;
                    }
                    let disp = (((b1 & 0xF) << 8u32) | b2) + 1;
                    assert(lz77_ref(r1, r2).1 == disp);
                    let before = remaining;
                    let ghost bc = bus.model();
                    let ghost dc = dst_pos;
                    let mut n = length;
                    while n > 0
                        invariant
                            bus.inv(),
                            n <= length <= before,
                            length >= 1,
                            remaining + (length - n) == before,
                            lz77w_copy(bus.model(), dst_pos, disp, n as nat) == lz77w_copy(bc, dc, disp, length as nat),
                        decreases n,
                    {
                        let val = bus.read8(dst_pos.wrapping_sub(disp));
                        bus.write8(dst_pos, val);
                        dst_pos = dst_pos.wrapping_add(1);
                        remaining = remaining - 1;
                        n = n - 1;
                    }
                    assert(lz77w_block(pb, ps, pd, pr, flags, (bit + 1) as u32) == lz77w_block(
                        bus.model(),
                        src_pos,
                        dst_pos,
                        remaining,
                        flags,
                        bit,
                    ));
                } else {
                    let val = bus.read8(src_pos);
                    src_pos = src_pos.wrapping_add(1);
                    bus.write8(dst_pos, val);
                    dst_pos = dst_pos.wrapping_add(1);
                    remaining = remaining - 1;
                    assert(lz77w_block(pb, ps, pd, pr, flags, (bit + 1) as u32) == lz77w_block(
                        bus.model(),
                        src_pos,
                        dst_pos,
                        remaining,
                        flags,
                        bit,
                    ));
                }
            }
            proof {
                fuel = (fuel - 1) as nat;
            }
        }
    }

    /// LZ77UnCompVram: decompresses first, then writes halfwords. A
    /// back-reference before any output reads as zero.
    fn swi_lz77_vram<B: Arm7Bus>(&self, bus: &mut B)
        requires
            old(bus).inv(),
        ensures
            final(bus).inv(),
            final(bus).model() == lz77_vram_spec(self@, old(bus).model()),
    {
        let src = self.regs[0];
        let dst = self.regs[1];
        let header = bus.read32(src);
        let size = (header >> 8u32) as usize;
        proof {
            assert(header >> 8u32 < 0x100_0000) by {
                crate::bits::lemma_u32_fields(header);
            }
        }
        let ghost hb = bus.model();
        let ghost decoded = lz77v_decode(hb, src.wrapping_add(4), Seq::empty(), size as nat, size as nat);
        let mut src_pos = src.wrapping_add(4);
        let mut out: Vec<u8> = Vec::new();
        let ghost mut fuel: nat = size as nat;
        while out.len() < size
            invariant
                bus.inv(),
                bus.model() == hb,
                out.len() <= size < 0x100_0000,
                size - out.len() <= fuel,
                lz77v_decode(hb, src_pos, out@, size as nat, fuel) == decoded,
            decreases size - out.len(),
        {
            let ghost s0 = src_pos;
            let ghost o0 = out@;
            let flags = bus.read8(src_pos);
            src_pos = src_pos.wrapping_add(1);
            let start = out.len();
            let mut bit: u32 = 8;
            while bit > 0 && out.len() < size
                invariant
                    bus.inv(),
                    bus.model() == hb,
                    bit <= 8,
                    start <= out.len() <= size < 0x100_0000,
                    start < size,
                    start == o0.len(),
                    bit < 8 ==> out.len() > start,
                    lz77v_block(hb, src_pos, out@, size as nat, flags, bit) == lz77v_block(
                        hb,
                        s0.wrapping_add(1),
                        o0,
                        size as nat,
                        flags,
                        8,
                    ),
                decreases bit,
            {
                let ghost ps = src_pos;
                let ghost po = out@;
                bit = bit - 1;
                if flags & (1u8 << bit) != 0 {
                    let r1 = bus.read8(src_pos);
                    let r2 = bus.read8(src_pos.wrapping_add(1));
                    let b1 = r1 as u32;
                    let b2 = r2 as u32;
                    src_pos = src_pos.wrapping_add(2);
                    proof {
                        assert(b1 < 256 && b2 < 256 ==> (b1 >> 4u32) < 16 && (((b1 & 0xF) << 8u32) | b2) < 4096) by (bit_vector);
                    }
                    let length = (b1 >> 4u32) + 3;
                    let d32 = (((b1 & 0xF) << 8u32) | b2) + 1;
                    let disp = d32 as usize;
                    assert(lz77_ref(r1, r2) == (length, d32));
                    let first = out.len();
                    let mut k: u32 = 0;
                    while k < length && out.len() < size
                        invariant
                            bus.inv(),
                            k <= length,
                            length >= 3,
                            out.len() == first + k,
                            first <= out.len() <= size < 0x100_0000,
                            disp == d32,
                            lz77v_copy(out@, d32, k as nat, length as nat, size as nat) == lz77v_copy(
                                po,
                                d32,
                                0,
                                length as nat,
                                size as nat,
                            ),
                        decreases length - k,
                    {
                        let back = out.len().saturating_sub(disp);
                        let val = if back < out.len() {
                            out[back]
                        } else {
                            0
                        };
                        assert(val == lz77v_back(out@, d32));
                        out.push(val);
                        k = k + 1;
                    }
                    assert(lz77v_block(hb, ps, po, size as nat, flags, (bit + 1) as u32) == lz77v_block(
                        hb,
                        src_pos,
                        out@,
                        size as nat,
                        flags,
                        bit,
                    ));
                } else {
                    let val = bus.read8(src_pos);
                    src_pos = src_pos.wrapping_add(1);
                    out.push(val);
                    assert(lz77v_block(hb, ps, po, size as nat, flags, (bit + 1) as u32) == lz77v_block(
                        hb,
                        src_pos,
                        out@,
                        size as nat,
                        flags,
                        bit,
                    ));
                }
            }
            proof {
                fuel = (fuel - 1) as nat;
            }
        }
        assert(out@ == decoded);
        let mut dst_pos = dst;
        let mut i: usize = 0;
        while i < out.len()
            invariant
                bus.inv(),
                i <= out.len() + 1,
                out.len() < 0x100_0000,
                out@ == decoded,
                dst_pos == dst.wrapping_add(i as u32),
                lz77v_write(bus.model(), dst, out@, i as nat) == lz77v_write(hb, dst, decoded, 0),
            decreases out.len() + 1 - i,
        {
            let lo = out[i] as u16;
            let hi = if i + 1 < out.len() {
                out[i + 1] as u16
            } else {
                0
            };
            bus.write16(dst_pos, lo | (hi << 8u16));
            dst_pos = dst_pos.wrapping_add(2);
            i = i + 2;
        }
    }

    /// Runs BIOS call `num`.
    fn handle_swi<B: Arm7Bus>(&mut self, num: u32, bus: &mut B)
        requires
            old(bus).inv(),
        ensures
            final(bus).inv(),
            !swi_traps(old(self)@, num) ==> (final(self)@, final(bus).model()) =~~= swi_spec(
                old(self)@,
                num,
                old(bus).model(),
            ),
    {
        if num == 0x01 {
            self.swi_register_ram_reset(bus);
        } else if num == 0x02 || num == 0x04 || num == 0x05 {
            // Halt, IntrWait, VBlankIntrWait
            self.halted = true;
        } else if num == 0x06 {
            let (n, d) = (self.regs[0], self.regs[1]);
            self.swi_div(n, d);
        } else if num == 0x07 {
            let (n, d) = (self.regs[1], self.regs[0]);
            self.swi_div(n, d);
        } else if num == 0x08 {
            let v = self.regs[0];
            let r = Self::isqrt(v);
            proof {
                let c = choose|x: u32| is_isqrt(v, x);
                lemma_isqrt_unique(v, c, r);
            }
            self.regs[0] = r;
        } else if num == 0x0B {
            self.swi_cpu_set(bus, false);
        } else if num == 0x0C {
            self.swi_cpu_set(bus, true);
        } else if num == 0x0E {
            self.swi_bg_affine_set(bus);
        } else if num == 0x0F {
            self.swi_obj_affine_set(bus);
        } else if num == 0x11 {
            self.swi_lz77_wram(bus);
        } else if num == 0x12 {
            self.swi_lz77_vram(bus);
        }
    }

    /// Fetches and executes one ARM-state instruction.
    fn step_arm<B: Arm7Bus>(&mut self, bus: &mut B) -> (cycles: u32)
        requires
            old(bus).inv(),
            !old(self).halted,
            old(self).cpsr & CPSR_T == 0,
            step_defined(old(self)@, old(bus).model()),
        ensures
            final(bus).inv(),
            (final(self)@, final(bus).model(), cycles) =~~= run_spec(old(self)@, old(bus).model()),
    {
        let pc = self.regs[15];
        let instr = bus.read32(pc & !3u32);
        self.regs[15] = pc.wrapping_add(4);
        assert(self@ =~~= advanced(old(self)@));
        if !self.condition_passed(instr >> 28u32) {
            return 1;
        }
        if Self::arm_class_of(instr) == 1 {
            let num = (instr >> 16u32) & 0xFF;
            self.handle_swi(num, bus);
            3
        } else {
            self.arm_execute(instr, bus)
        }
    }

    /// Fetches and executes one Thumb-state instruction.
    fn step_thumb<B: Arm7Bus>(&mut self, bus: &mut B) -> (cycles: u32)
        requires
            old(bus).inv(),
            !old(self).halted,
            old(self).cpsr & CPSR_T != 0,
            step_defined(old(self)@, old(bus).model()),
        ensures
            final(bus).inv(),
            (final(self)@, final(bus).model(), cycles) =~~= run_spec(old(self)@, old(bus).model()),
    {
        let pc = self.regs[15];
        let h = bus.read16(pc & !1u32);
        let instr = h as u32;
        self.regs[15] = pc.wrapping_add(2);
        assert(self@ =~~= advanced(old(self)@));
        if Self::thumb_format_of(instr) == 17 {
            let h2 = bus.read16(self.regs[15].wrapping_sub(2) & !1u32);
            let num = (h2 & 0xFF) as u32;
            self.handle_swi(num, bus);
            3
        } else {
            self.thumb_execute(instr, bus)
        }
    }

    /// Whether a data-processing instruction shifts by a register holding 0
    /// in its low byte with LSR or ASR, which `step` leaves undefined.
    fn undefined_shift(&self, instr: u32) -> (r: bool)
        ensures
            r == dp_undefined_shift(self@, instr),
    {
        let rs = ((instr >> 8u32) & 0xF) as usize;
        assert((instr >> 8u32) & 0xF < 16) by {
            crate::bits::lemma_and_le_u32((instr >> 8u32), 0xF);
        }
        let kind = (instr >> 5u32) & 3;
        instr & 0x0200_0000 == 0 && instr & 0x10 != 0 && self.regs[rs] & 0xFF == 0 && (kind == 1 || kind == 2)
    }

    /// Whether BIOS call `num` would divide the most negative value by -1.
    fn swi_would_trap(&self, num: u32) -> (r: bool)
        ensures
            r == swi_traps(self@, num),
    {
        (num == 0x06 && self.regs[0] == 0x8000_0000 && self.regs[1] == 0xFFFF_FFFF) || (num == 0x07
            && self.regs[1] == 0x8000_0000 && self.regs[0] == 0xFFFF_FFFF)
    }

    /// `step_arm` that stops before an instruction `step` leaves undefined,
    /// with PC restored.
    fn step_arm_checked<B: Arm7Bus>(&mut self, bus: &mut B) -> (r: Option<u32>)
        requires
            old(bus).inv(),
            !old(self).halted,
            old(self).cpsr & CPSR_T == 0,
        ensures
            final(bus).inv(),
            r is Some <==> step_defined(old(self)@, old(bus).model()),
            r matches Some(cycles) ==> (final(self)@, final(bus).model(), cycles) =~~= run_spec(old(self)@, old(bus).model()),
            r is None ==> final(self)@ =~~= old(self)@,
            r is None ==> final(bus).model() == swi_bus(advanced(old(self)@), fetch(old(self)@, old(bus).model()).1),
    {
        let pc = self.regs[15];
        let instr = bus.read32(pc & !3u32);
        self.regs[15] = pc.wrapping_add(4);
        assert(self@ =~~= advanced(old(self)@));
        if !self.condition_passed(instr >> 28u32) {
            return Some(1);
        }
        let class = Self::arm_class_of(instr);
        if class == 1 {
            let num = (instr >> 16u32) & 0xFF;
            if self.swi_would_trap(num) {
                self.regs[15] = pc;
                assert(self@ =~~= old(self)@);
                return None;
            }
            self.handle_swi(num, bus);
            Some(3)
        } else {
            if class == 10 && self.undefined_shift(instr) {
                self.regs[15] = pc;
                assert(self@ =~~= old(self)@);
                return None;
            }
            Some(self.arm_execute(instr, bus))
        }
    }

    /// `step_thumb` that stops before a BIOS call `step` leaves undefined,
    /// with PC restored.
    fn step_thumb_checked<B: Arm7Bus>(&mut self, bus: &mut B) -> (r: Option<u32>)
        requires
            old(bus).inv(),
            !old(self).halted,
            old(self).cpsr & CPSR_T != 0,
        ensures
            final(bus).inv(),
            r is Some <==> step_defined(old(self)@, old(bus).model()),
            r matches Some(cycles) ==> (final(self)@, final(bus).model(), cycles) =~~= run_spec(old(self)@, old(bus).model()),
            r is None ==> final(self)@ =~~= old(self)@,
            r is None ==> final(bus).model() == swi_bus(advanced(old(self)@), fetch(old(self)@, old(bus).model()).1),
    {
        let pc = self.regs[15];
        let h = bus.read16(pc & !1u32);
        let instr = h as u32;
        self.regs[15] = pc.wrapping_add(2);
        assert(self@ =~~= advanced(old(self)@));
        if Self::thumb_format_of(instr) == 17 {
            let h2 = bus.read16(self.regs[15].wrapping_sub(2) & !1u32);
            let num = (h2 & 0xFF) as u32;
            if self.swi_would_trap(num) {
                self.regs[15] = pc;
                assert(self@ =~~= old(self)@);
                return None;
            }
            self.handle_swi(num, bus);
            Some(3)
        } else {
            Some(self.thumb_execute(instr, bus))
        }
    }

    /// `step`, except that an instruction `step` leaves undefined (a shift by
    /// a zero register amount with LSR/ASR, or a BIOS division of the most
    /// negative value by -1) is not executed: the result is `None`, the
    /// registers are as before, and the bus is as after the fetch (and, for
    /// a Thumb SWI, the read of its number).
    pub fn step_checked<B: Arm7Bus>(&mut self, bus: &mut B) -> (r: Option<u32>)
        requires
            old(bus).inv(),
            old(self).cycles <= u64::MAX - 0xFFFF_FFFF,
        ensures
            final(bus).inv(),
            r is Some <==> step_defined(old(self)@, old(bus).model()),
            r matches Some(cycles) ==> (final(self)@, final(bus).model(), cycles) =~~= step_spec(old(self)@, old(bus).model()),
            r is None ==> final(self)@ =~~= old(self)@,
            r is None ==> final(bus).model() == swi_bus(advanced(old(self)@), fetch(old(self)@, old(bus).model()).1),
    {
        if self.halted {
            self.cycles = self.cycles + 1;
            return Some(1);
        }
        let before = self.cycles;
        let r = if self.thumb_mode() {
            self.step_thumb_checked(bus)
        } else {
            self.step_arm_checked(bus)
        };
        match r {
            Some(c) => {
                self.cycles = before + c as u64;
                Some(c)
            },
            None => None,
        }
    }

    /// Executes one instruction (or idles for a cycle while halted) and
    /// returns the cycles taken.
    ///
    /// The effect is `step_spec`.
    pub fn step<B: Arm7Bus>(&mut self, bus: &mut B) -> (cycles: u32)
        requires
            old(bus).inv(),
            step_defined(old(self)@, old(bus).model()),
            step_cycles_fit(old(self)@, old(bus).model()),
        ensures
            final(bus).inv(),
            (final(self)@, final(bus).model(), cycles) =~~= step_spec(old(self)@, old(bus).model()),
    {
        if self.halted {
            self.cycles = self.cycles + 1;
            return 1;
        }
        let before = self.cycles;
        let c = if self.thumb_mode() {
            self.step_thumb(bus)
        } else {
            self.step_arm(bus)
        };
        self.cycles = before + c as u64;
        c
    }
}

} // verus!
