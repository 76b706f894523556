use gbrust::cpu::arm7tdmi::{Arm7Bus, Arm7Tdmi, BusModel};
use gbrust::cpu::sm83::{Sm83, Sm83Bus, Sm83Model};

struct TestBus {
    mem: Vec<u8>,
}

impl TestBus {
    fn new() -> Self {
        Self { mem: vec![0; 0x10000] }
    }
}

struct FlatModel;

impl Sm83Model for FlatModel {}

impl Sm83Bus for TestBus {
    type Model = FlatModel;

    fn read(&self, addr: u16) -> u8 {
        self.mem[addr as usize]
    }

    fn write(&mut self, addr: u16, val: u8) {
        self.mem[addr as usize] = val;
    }
}

struct ArmTestBus {
    mem: Vec<u8>,
}

impl ArmTestBus {
    fn new() -> Self {
        Self { mem: vec![0; 0x10000000] }
    }
}

struct ArmFlatModel;

impl BusModel for ArmFlatModel {}

impl Arm7Bus for ArmTestBus {
    type Model = ArmFlatModel;

    fn read8(&self, addr: u32) -> u8 {
        let addr = addr as usize;
        if addr < self.mem.len() {
            self.mem[addr]
        } else {
            0
        }
    }
    fn read16(&mut self, addr: u32) -> u16 {
        let addr = (addr & !1) as usize;
        if addr + 1 < self.mem.len() {
            u16::from_le_bytes([self.mem[addr], self.mem[addr + 1]])
        } else {
            0
        }
    }
    fn read32(&mut self, addr: u32) -> u32 {
        let addr = (addr & !3) as usize;
        if addr + 3 < self.mem.len() {
            u32::from_le_bytes([self.mem[addr], self.mem[addr + 1], self.mem[addr + 2], self.mem[addr + 3]])
        } else {
            0
        }
    }
    fn write8(&mut self, addr: u32, val: u8) {
        let addr = addr as usize;
        if addr < self.mem.len() {
            self.mem[addr] = val;
        }
    }
    fn write16(&mut self, addr: u32, val: u16) {
        let addr = (addr & !1) as usize;
        let bytes = val.to_le_bytes();
        if addr + 1 < self.mem.len() {
            self.mem[addr] = bytes[0];
            self.mem[addr + 1] = bytes[1];
        }
    }
    fn write32(&mut self, addr: u32, val: u32) {
        let addr = (addr & !3) as usize;
        let bytes = val.to_le_bytes();
        if addr + 3 < self.mem.len() {
            self.mem[addr] = bytes[0];
            self.mem[addr + 1] = bytes[1];
            self.mem[addr + 2] = bytes[2];
            self.mem[addr + 3] = bytes[3];
        }
    }
}

fn write_arm(bus: &mut ArmTestBus, addr: u32, instr: u32) {
    bus.write32(addr, instr);
}

#[test]
fn tests_initial_state() {
    let cpu = Sm83::new();
    assert_eq!(cpu.a, 0x11);
    assert_eq!(cpu.f, 0xB0);
    assert_eq!(cpu.sp, 0xFFFE);
    assert_eq!(cpu.pc, 0x0100);
    assert!(!cpu.ime);
    assert!(!cpu.halted);
}

#[test]
fn nop_advances_pc() {
    let mut cpu = Sm83::new();
    let mut bus = TestBus::new();
    bus.mem[0x0100] = 0x00; // NOP
    let pc_before = cpu.pc;
    cpu.step(&mut bus);
    assert_eq!(cpu.pc, pc_before + 1);
}

#[test]
fn ld_bc_d16() {
    let mut cpu = Sm83::new();
    let mut bus = TestBus::new();
    bus.mem[0x0100] = 0x01; // LD BC, d16
    bus.mem[0x0101] = 0x34;
    bus.mem[0x0102] = 0x12;
    cpu.step(&mut bus);
    assert_eq!(cpu.b, 0x12);
    assert_eq!(cpu.c, 0x34);
}

#[test]
fn inc_a() {
    let mut cpu = Sm83::new();
    let mut bus = TestBus::new();
    cpu.a = 0x0F;
    bus.mem[0x0100] = 0x3C; // INC A
    cpu.step(&mut bus);
    assert_eq!(cpu.a, 0x10);
    // H flag should be set (half carry from 0x0F)
    assert_eq!(cpu.f & 0x20, 0x20);
    // N flag should be cleared
    assert_eq!(cpu.f & 0x40, 0x00);
}

#[test]
fn dec_a_to_zero() {
    let mut cpu = Sm83::new();
    let mut bus = TestBus::new();
    cpu.a = 0x01;
    bus.mem[0x0100] = 0x3D; // DEC A
    cpu.step(&mut bus);
    assert_eq!(cpu.a, 0x00);
    // Z flag should be set
    assert_eq!(cpu.f & 0x80, 0x80);
    // N flag should be set
    assert_eq!(cpu.f & 0x40, 0x40);
}

#[test]
fn ld_a_imm8() {
    let mut cpu = Sm83::new();
    let mut bus = TestBus::new();
    bus.mem[0x0100] = 0x3E; // LD A, d8
    bus.mem[0x0101] = 0x42;
    cpu.step(&mut bus);
    assert_eq!(cpu.a, 0x42);
}

#[test]
fn push_pop_bc() {
    let mut cpu = Sm83::new();
    let mut bus = TestBus::new();
    cpu.b = 0xAB;
    cpu.c = 0xCD;
    // PUSH BC
    bus.mem[0x0100] = 0xC5;
    cpu.step(&mut bus);
    let sp_after_push = cpu.sp;
    assert_eq!(sp_after_push, 0xFFFE - 2);
    // Verify stack contents
    assert_eq!(bus.mem[0xFFFD], 0xAB);
    assert_eq!(bus.mem[0xFFFC], 0xCD);

    // Zero out BC
    cpu.b = 0;
    cpu.c = 0;
    // POP BC
    bus.mem[cpu.pc as usize] = 0xC1;
    cpu.step(&mut bus);
    assert_eq!(cpu.b, 0xAB);
    assert_eq!(cpu.c, 0xCD);
    assert_eq!(cpu.sp, 0xFFFE);
}

#[test]
fn jp_nn() {
    let mut cpu = Sm83::new();
    let mut bus = TestBus::new();
    bus.mem[0x0100] = 0xC3; // JP nn
    bus.mem[0x0101] = 0x00;
    bus.mem[0x0102] = 0x02; // JP 0x0200
    cpu.step(&mut bus);
    assert_eq!(cpu.pc, 0x0200);
}

#[test]
fn call_and_ret() {
    let mut cpu = Sm83::new();
    let mut bus = TestBus::new();
    // CALL 0x0200
    bus.mem[0x0100] = 0xCD;
    bus.mem[0x0101] = 0x00;
    bus.mem[0x0102] = 0x02;
    cpu.step(&mut bus);
    assert_eq!(cpu.pc, 0x0200);
    let saved_sp = cpu.sp;

    // RET
    bus.mem[0x0200] = 0xC9;
    cpu.step(&mut bus);
    assert_eq!(cpu.pc, 0x0103);
    assert_eq!(cpu.sp, saved_sp + 2);
}

#[test]
fn xor_a_clears_to_zero() {
    let mut cpu = Sm83::new();
    let mut bus = TestBus::new();
    cpu.a = 0xFF;
    bus.mem[0x0100] = 0xAF; // XOR A
    cpu.step(&mut bus);
    assert_eq!(cpu.a, 0x00);
    assert_eq!(cpu.f & 0x80, 0x80); // Z set
}

#[test]
fn add_a_b() {
    let mut cpu = Sm83::new();
    let mut bus = TestBus::new();
    cpu.a = 0x3A;
    cpu.b = 0xC6;
    bus.mem[0x0100] = 0x80; // ADD A, B
    cpu.step(&mut bus);
    assert_eq!(cpu.a, 0x00); // 0x3A + 0xC6 = 0x100 -> wraps to 0x00
    assert_eq!(cpu.f & 0x80, 0x80); // Z set
    assert_eq!(cpu.f & 0x10, 0x10); // C set
}

#[test]
fn cb_bit_test() {
    let mut cpu = Sm83::new();
    let mut bus = TestBus::new();
    cpu.a = 0x80;
    bus.mem[0x0100] = 0xCB; // prefix
    bus.mem[0x0101] = 0x47; // BIT 0, A
    cpu.step(&mut bus);
    // Bit 0 of 0x80 is 0, so Z should be set
    assert_eq!(cpu.f & 0x80, 0x80);
}

#[test]
fn cb_swap_a() {
    let mut cpu = Sm83::new();
    let mut bus = TestBus::new();
    cpu.a = 0xF0;
    bus.mem[0x0100] = 0xCB;
    bus.mem[0x0101] = 0x37; // SWAP A
    cpu.step(&mut bus);
    assert_eq!(cpu.a, 0x0F);
}

#[test]
fn halt_behavior() {
    let mut cpu = Sm83::new();
    let mut bus = TestBus::new();
    bus.mem[0x0100] = 0x76; // HALT
    cpu.step(&mut bus);
    assert!(cpu.halted);
    // Subsequent steps should consume 4 cycles without advancing PC
    let pc = cpu.pc;
    let cycles = cpu.step(&mut bus);
    assert_eq!(cycles, 4);
    assert_eq!(cpu.pc, pc);
}

#[test]
fn initial_state() {
    let cpu = Arm7Tdmi::new();
    assert_eq!(cpu.regs[15], 0x0800_0000);
    assert_eq!(cpu.regs[13], 0x0300_7F00);
    assert!(!cpu.halted);
}

#[test]
fn arm_mov_imm() {
    let mut cpu = Arm7Tdmi::new();
    let mut bus = ArmTestBus::new();
    // MOV R0, #42 (0xE3A0002A)
    write_arm(&mut bus, 0x0800_0000, 0xE3A0_002A);
    cpu.step(&mut bus);
    assert_eq!(cpu.regs[0], 42);
}

#[test]
fn arm_add() {
    let mut cpu = Arm7Tdmi::new();
    let mut bus = ArmTestBus::new();
    cpu.regs[0] = 10;
    cpu.regs[1] = 20;
    // ADD R2, R0, R1 (0xE0802001)
    write_arm(&mut bus, 0x0800_0000, 0xE080_2001);
    cpu.step(&mut bus);
    assert_eq!(cpu.regs[2], 30);
}

#[test]
fn arm_sub() {
    let mut cpu = Arm7Tdmi::new();
    let mut bus = ArmTestBus::new();
    cpu.regs[0] = 50;
    cpu.regs[1] = 20;
    // SUB R2, R0, R1 (0xE0402001)
    write_arm(&mut bus, 0x0800_0000, 0xE040_2001);
    cpu.step(&mut bus);
    assert_eq!(cpu.regs[2], 30);
}

#[test]
fn arm_str_ldr() {
    let mut cpu = Arm7Tdmi::new();
    let mut bus = ArmTestBus::new();
    cpu.regs[0] = 0x0200_0000; // address
    cpu.regs[1] = 0xDEAD_BEEF;
    // STR R1, [R0] (0xE5801000)
    write_arm(&mut bus, 0x0800_0000, 0xE580_1000);
    cpu.step(&mut bus);
    assert_eq!(bus.read32(0x0200_0000), 0xDEAD_BEEF);

    // LDR R2, [R0] (0xE5902000)
    write_arm(&mut bus, cpu.regs[15], 0xE590_2000);
    cpu.step(&mut bus);
    assert_eq!(cpu.regs[2], 0xDEAD_BEEF);
}

#[test]
fn arm_branch() {
    let mut cpu = Arm7Tdmi::new();
    let mut bus = ArmTestBus::new();
    // B with offset 0: PC+8 semantics, target = PC+4+4+offset = PC+8
    write_arm(&mut bus, 0x0800_0000, 0xEA00_0000);
    cpu.step(&mut bus);
    assert_eq!(cpu.regs[15], 0x0800_0008);
}

#[test]
fn arm_cmp_sets_flags() {
    let mut cpu = Arm7Tdmi::new();
    let mut bus = ArmTestBus::new();
    cpu.regs[0] = 42;
    cpu.regs[1] = 42;
    // CMP R0, R1 (SUBS without dest) => 0xE1500001
    write_arm(&mut bus, 0x0800_0000, 0xE150_0001);
    cpu.step(&mut bus);
    // Z flag should be set
    assert!(cpu.cpsr & (1 << 30) != 0);
}

#[test]
fn arm_and() {
    let mut cpu = Arm7Tdmi::new();
    let mut bus = ArmTestBus::new();
    cpu.regs[0] = 0xFF00;
    cpu.regs[1] = 0x0FF0;
    // AND R2, R0, R1 (0xE0002001)
    write_arm(&mut bus, 0x0800_0000, 0xE000_2001);
    cpu.step(&mut bus);
    assert_eq!(cpu.regs[2], 0x0F00);
}

#[test]
fn arm_orr() {
    let mut cpu = Arm7Tdmi::new();
    let mut bus = ArmTestBus::new();
    cpu.regs[0] = 0xFF00;
    cpu.regs[1] = 0x00FF;
    // ORR R2, R0, R1 (0xE1802001)
    write_arm(&mut bus, 0x0800_0000, 0xE180_2001);
    cpu.step(&mut bus);
    assert_eq!(cpu.regs[2], 0xFFFF);
}

#[test]
fn arm_swi_cpuset_32bit_copy_preserves_halfwords() {
    let mut cpu = Arm7Tdmi::new();
    let mut bus = ArmTestBus::new();
    let src = 0x0200_0000;
    let dst = 0x0200_0100;
    let words = [
        0x5B5F_530E,
        0x3A5B_4B1F,
        0x3D27_210F,
        0x28A3_30E5,
    ];

    for (index, word) in words.iter().enumerate() {
        bus.write32(src + (index as u32) * 4, *word);
    }

    cpu.regs[0] = src;
    cpu.regs[1] = dst;
    cpu.regs[2] = 0x0400_0004;
    write_arm(&mut bus, 0x0800_0000, 0xEF0B_0000);
    cpu.step(&mut bus);

    for (index, word) in words.iter().enumerate() {
        assert_eq!(bus.read32(dst + (index as u32) * 4), *word);
    }
}

#[test]
fn arm_swi_cpufastset_copy_preserves_halfwords() {
    let mut cpu = Arm7Tdmi::new();
    let mut bus = ArmTestBus::new();
    let src = 0x0200_1000;
    let dst = 0x0200_1100;
    let words = [
        0x5B5F_530E,
        0x3A5B_4B1F,
        0x3D27_210F,
        0x28A3_30E5,
        0x779B_1C82,
        0x2E77_2F1F,
        0x2118_2D9F,
        0x0000_7FFF,
    ];

    for (index, word) in words.iter().enumerate() {
        bus.write32(src + (index as u32) * 4, *word);
    }

    cpu.regs[0] = src;
    cpu.regs[1] = dst;
    cpu.regs[2] = 8;
    write_arm(&mut bus, 0x0800_0000, 0xEF0C_0000);
    cpu.step(&mut bus);

    for (index, word) in words.iter().enumerate() {
        assert_eq!(bus.read32(dst + (index as u32) * 4), *word);
    }
}
