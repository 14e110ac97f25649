//! CPU instruction tests against the plain test memory.

use rgy::cpu::{Cpu, CpuState};
use rgy::mmu::Ram;

fn exec(cpu: &mut Cpu<Ram>) {
    let code = cpu.fetch_opcode();
    cpu.decode(code);
}

#[test]
fn op_00af() {
    let mut cpu = Cpu {
        state: CpuState::new(),
        sys: Ram::new(),
    };

    cpu.set_a(0x32);

    // xor a
    cpu.sys.write(&[0xaf]);
    exec(&mut cpu);

    assert_eq!(cpu.get_a(), 0x00);
}

#[test]
fn op_00f1() {
    // pop af
    let mut cpu = Cpu {
        state: CpuState::new(),
        sys: Ram::new(),
    };

    cpu.set_bc(0x1301);
    cpu.sys
        .write(&[0xc5, 0xf1, 0xf5, 0xd1, 0x79, 0xe6, 0xf0, 0xbb]);
    exec(&mut cpu); // push bc
    assert_eq!(cpu.get_bc(), 0x1301);
    exec(&mut cpu); // pop af
    assert_eq!(cpu.get_af(), 0x1300); // because the lower 4 bits of `f` are always zero
    exec(&mut cpu); // push af
    exec(&mut cpu); // pop de
    assert_eq!(cpu.get_de(), 0x1300);
    assert_eq!(cpu.get_c(), 0x01);
    exec(&mut cpu); // ld a,c
    assert_eq!(cpu.get_a(), 0x01);
    assert_eq!(cpu.get_c(), 0x01);
    exec(&mut cpu); // and 0xf0
    assert_eq!(cpu.get_a(), 0x00);
    assert_eq!(cpu.get_e(), 0x00);
    exec(&mut cpu); // cp e
    assert!(cpu.get_zf());
}

#[test]
fn push_pop_round_trip() {
    let mut cpu = Cpu {
        state: CpuState::new(),
        sys: Ram::new(),
    };
    cpu.set_sp(0xfffe);
    cpu.push(0xbeef);
    assert_eq!(cpu.get_sp(), 0xfffc);
    let v = cpu.pop();
    assert_eq!(v, 0xbeef);
    assert_eq!(cpu.get_sp(), 0xfffe);
}

#[test]
fn ld_r_r_leaves_state() {
    let mut cpu = Cpu {
        state: CpuState::new(),
        sys: Ram::new(),
    };
    cpu.set_b(0x42);
    cpu.set_c(0x24);
    cpu.sys.write(&[0x40]); // ld b,b
    exec(&mut cpu);
    assert_eq!(cpu.get_b(), 0x42);
    assert_eq!(cpu.get_c(), 0x24);
    assert_eq!(cpu.get_pc(), 1);
}

#[test]
fn decode_cycle_counts() {
    // nop: 4 cycles; ld bc,d16: 12; jr (taken): 12; push bc: 16
    let mut cpu = Cpu {
        state: CpuState::new(),
        sys: Ram::new(),
    };
    cpu.sys.write(&[0x00, 0x01, 0x34, 0x12, 0x18, 0x00, 0xc5]);
    let t = cpu.execute();
    assert_eq!(t, 4);
    let t = cpu.execute();
    assert_eq!(t, 12);
    assert_eq!(cpu.get_bc(), 0x1234);
    let t = cpu.execute();
    assert_eq!(t, 12);
    let t = cpu.execute();
    assert_eq!(t, 16);
}

#[test]
fn add_sets_flags() {
    let mut cpu = Cpu {
        state: CpuState::new(),
        sys: Ram::new(),
    };
    cpu.set_a(0x0f);
    cpu.sys.write(&[0xc6, 0x01]); // add a,0x01
    exec(&mut cpu);
    assert_eq!(cpu.get_a(), 0x10);
    assert!(!cpu.get_zf());
    assert!(cpu.get_hf());
    assert!(!cpu.get_cf());

    let mut cpu = Cpu {
        state: CpuState::new(),
        sys: Ram::new(),
    };
    cpu.set_a(0xff);
    cpu.sys.write(&[0xc6, 0x01]);
    exec(&mut cpu);
    assert_eq!(cpu.get_a(), 0x00);
    assert!(cpu.get_zf());
    assert!(cpu.get_cf());
}

#[test]
fn daa_adjusts_bcd() {
    let mut cpu = Cpu {
        state: CpuState::new(),
        sys: Ram::new(),
    };
    // 0x15 + 0x27 = 0x3c, daa turns it into 0x42
    cpu.set_a(0x15);
    cpu.sys.write(&[0xc6, 0x27, 0x27]); // add a,0x27; daa
    exec(&mut cpu);
    assert_eq!(cpu.get_a(), 0x3c);
    exec(&mut cpu);
    assert_eq!(cpu.get_a(), 0x42);
}

#[test]
fn illegal_opcode_freezes() {
    let mut cpu = Cpu {
        state: CpuState::new(),
        sys: Ram::new(),
    };
    cpu.sys.write(&[0xd3]);
    let code = cpu.fetch_opcode();
    let t = cpu.decode(code);
    assert_eq!(t, 0);
}
