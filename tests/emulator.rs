use chip8::{decode, key_index, Emulator, Fault, Instr, Step};

fn loaded(program: &[u8]) -> Emulator {
    let mut e = Emulator::new();
    e.load(program).unwrap();
    e
}

fn run(e: &mut Emulator, op: u16) -> Result<Step, Fault> {
    e.execute(op, 0)
}

#[test]
fn new_installs_font_and_zeroes_state() {
    let e = Emulator::new();
    assert_eq!(e.pc(), 0x200);
    assert_eq!(e.index(), 0);
    assert_eq!(e.memory(0), 0xF0);
    assert_eq!(e.memory(5), 0x20);
    assert_eq!(e.memory(79), 0x80);
    assert_eq!(e.memory(80), 0);
    assert_eq!(e.memory(0x200), 0);
    for r in 0..16 {
        assert_eq!(e.register(r), 0);
    }
    assert_eq!(e.delay_timer(), 0);
    assert_eq!(e.sound_timer(), 0);
    assert_eq!(e.get_display().len(), 2048);
    assert!(e.get_display().iter().all(|p| !*p));
}

#[test]
fn reset_matches_new() {
    let mut e = loaded(&[0x60, 0x05, 0xA3, 0x00, 0xF0, 0x55, 0x00, 0xE0]);
    e.keypress(3, true);
    run(&mut e, 0xD005).unwrap();
    run(&mut e, 0x6A07).unwrap();
    run(&mut e, 0xFA15).unwrap();
    run(&mut e, 0xFA18).unwrap();
    run(&mut e, 0x2300).unwrap();
    e.reset();
    let f = Emulator::new();
    assert_eq!(e.pc(), f.pc());
    assert_eq!(e.index(), f.index());
    assert_eq!(e.delay_timer(), f.delay_timer());
    assert_eq!(e.sound_timer(), f.sound_timer());
    assert_eq!(e.get_display(), f.get_display());
    for a in 0..4096 {
        assert_eq!(e.memory(a), f.memory(a));
    }
    for r in 0..16 {
        assert_eq!(e.register(r), f.register(r));
    }
    // the stack is empty again
    assert_eq!(run(&mut e, 0x00EE), Err(Fault::StackUnderflow));
}

#[test]
fn fetch_reads_big_endian_and_advances() {
    let mut e = loaded(&[0x12, 0x34, 0xAB, 0xCD]);
    assert_eq!(e.fetch(), Ok(0x1234));
    assert_eq!(e.pc(), 0x202);
    assert_eq!(e.fetch(), Ok(0xABCD));
    assert_eq!(e.pc(), 0x204);
}

#[test]
fn fetch_at_end_of_memory_faults() {
    let mut e = loaded(&[0x1F, 0xFF]);
    e.cycle().unwrap();
    assert_eq!(e.pc(), 0xFFF);
    assert_eq!(e.cycle(), Err(Fault::MemoryFault { address: 0xFFF }));
    assert_eq!(e.pc(), 0xFFF);
    let mut g = loaded(&[0x1F, 0xFE]);
    g.cycle().unwrap();
    assert_eq!(g.fetch(), Ok(0));
    assert_eq!(g.pc(), 0x1000);
}

#[test]
fn add_immediate_wraps_without_flag() {
    let mut e = Emulator::new();
    run(&mut e, 0x6FAA).unwrap();
    run(&mut e, 0x63FF).unwrap();
    run(&mut e, 0x7302).unwrap();
    assert_eq!(e.register(3), 0x01);
    assert_eq!(e.register(0xF), 0xAA);
}

#[test]
fn add_register_sets_carry() {
    let mut e = Emulator::new();
    run(&mut e, 0x60FF).unwrap();
    run(&mut e, 0x6102).unwrap();
    run(&mut e, 0x8014).unwrap();
    assert_eq!(e.register(0), 0x01);
    assert_eq!(e.register(0xF), 1);
    run(&mut e, 0x8014).unwrap();
    assert_eq!(e.register(0), 0x03);
    assert_eq!(e.register(0xF), 0);
}

#[test]
fn subtract_flag_means_no_borrow() {
    let mut e = Emulator::new();
    run(&mut e, 0x6005).unwrap();
    run(&mut e, 0x6103).unwrap();
    run(&mut e, 0x8015).unwrap();
    assert_eq!(e.register(0), 2);
    assert_eq!(e.register(0xF), 1);
    run(&mut e, 0x6203).unwrap();
    run(&mut e, 0x6305).unwrap();
    run(&mut e, 0x8235).unwrap();
    assert_eq!(e.register(2), 254);
    assert_eq!(e.register(0xF), 0);
}

#[test]
fn reverse_subtract_flag_means_no_borrow() {
    let mut e = Emulator::new();
    run(&mut e, 0x6003).unwrap();
    run(&mut e, 0x6105).unwrap();
    run(&mut e, 0x8017).unwrap();
    assert_eq!(e.register(0), 2);
    assert_eq!(e.register(0xF), 1);
    run(&mut e, 0x6205).unwrap();
    run(&mut e, 0x6303).unwrap();
    run(&mut e, 0x8237).unwrap();
    assert_eq!(e.register(2), 254);
    assert_eq!(e.register(0xF), 0);
}

#[test]
fn shifts_report_the_bit_shifted_out() {
    let mut e = Emulator::new();
    run(&mut e, 0x6081).unwrap();
    run(&mut e, 0x8006).unwrap();
    assert_eq!(e.register(0), 0x40);
    assert_eq!(e.register(0xF), 1);
    run(&mut e, 0x6181).unwrap();
    run(&mut e, 0x810E).unwrap();
    assert_eq!(e.register(1), 0x02);
    assert_eq!(e.register(0xF), 1);
    run(&mut e, 0x810E).unwrap();
    assert_eq!(e.register(1), 0x04);
    assert_eq!(e.register(0xF), 0);
}

#[test]
fn logic_operations() {
    let mut e = Emulator::new();
    run(&mut e, 0x600C).unwrap();
    run(&mut e, 0x610A).unwrap();
    run(&mut e, 0x8011).unwrap();
    assert_eq!(e.register(0), 0x0E);
    run(&mut e, 0x8012).unwrap();
    assert_eq!(e.register(0), 0x0A);
    run(&mut e, 0x8013).unwrap();
    assert_eq!(e.register(0), 0x00);
    run(&mut e, 0x8010).unwrap();
    assert_eq!(e.register(0), 0x0A);
}

#[test]
fn clear_turns_every_cell_off() {
    let mut e = Emulator::new();
    run(&mut e, 0xA000).unwrap();
    run(&mut e, 0xD005).unwrap();
    run(&mut e, 0x6020).unwrap();
    run(&mut e, 0xD005).unwrap();
    assert!(e.get_display().iter().any(|p| *p));
    assert_eq!(run(&mut e, 0x00E0), Ok(Step::Executed));
    assert!(e.get_display().iter().all(|p| !*p));
}

#[test]
fn call_then_return_resumes_after_call() {
    // 0x200: call 0x300; at 0x300: return
    let mut program = vec![0u8; 0x102];
    program[0] = 0x23;
    program[1] = 0x00;
    program[0x100] = 0x00;
    program[0x101] = 0xEE;
    let mut e = loaded(&program);
    e.cycle().unwrap();
    assert_eq!(e.pc(), 0x300);
    e.cycle().unwrap();
    assert_eq!(e.pc(), 0x202);
}

#[test]
fn stack_faults() {
    let mut e = Emulator::new();
    assert_eq!(run(&mut e, 0x00EE), Err(Fault::StackUnderflow));
    for _ in 0..16 {
        run(&mut e, 0x2400).unwrap();
    }
    assert_eq!(run(&mut e, 0x2400), Err(Fault::StackOverflow));
    assert_eq!(e.pc(), 0x400);
}

#[test]
fn draw_same_sprite_twice_restores_and_collides() {
    let mut e = Emulator::new();
    // glyph "0" at (10, 4)
    run(&mut e, 0x600A).unwrap();
    run(&mut e, 0x6104).unwrap();
    run(&mut e, 0xA000).unwrap();
    run(&mut e, 0xD015).unwrap();
    assert_eq!(e.register(0xF), 0);
    let d = e.get_display();
    assert!(d[4 * 64 + 10]);
    assert!(d[4 * 64 + 13]);
    assert!(!d[4 * 64 + 14]);
    assert!(!d[5 * 64 + 11]);
    assert_eq!(d.iter().filter(|p| **p).count(), 14);
    run(&mut e, 0xD015).unwrap();
    assert_eq!(e.register(0xF), 1);
    assert!(e.get_display().iter().all(|p| !*p));
}

#[test]
fn draw_wraps_around_edges() {
    let mut e = Emulator::new();
    run(&mut e, 0x603E).unwrap(); // x = 62
    run(&mut e, 0x611F).unwrap(); // y = 31
    run(&mut e, 0xA000).unwrap(); // 0xF0, 0x90, ...
    run(&mut e, 0xD012).unwrap();
    let d = e.get_display();
    assert!(d[31 * 64 + 62]);
    assert!(d[31 * 64 + 63]);
    assert!(d[31 * 64]);
    assert!(d[31 * 64 + 1]);
    assert!(d[62]);
    assert!(d[1]);
    assert!(!d[63]);
    assert!(!d[0]);
}

#[test]
fn draw_past_memory_faults() {
    let mut e = Emulator::new();
    run(&mut e, 0xAFFE).unwrap();
    assert_eq!(run(&mut e, 0xD003), Err(Fault::MemoryFault { address: 0xFFE }));
    assert!(e.get_display().iter().all(|p| !*p));
    assert_eq!(run(&mut e, 0xD002), Ok(Step::Executed));
}

#[test]
fn wait_key_without_key_repeats_instruction() {
    let mut e = loaded(&[0xF3, 0x0A]);
    e.cycle().unwrap();
    assert_eq!(e.pc(), 0x200);
    e.cycle().unwrap();
    assert_eq!(e.pc(), 0x200);
    e.keypress(9, true);
    e.keypress(5, true);
    e.cycle().unwrap();
    assert_eq!(e.pc(), 0x202);
    assert_eq!(e.register(3), 5);
}

#[test]
fn key_skips() {
    let mut e = Emulator::new();
    run(&mut e, 0x6007).unwrap();
    run(&mut e, 0xE09E).unwrap();
    assert_eq!(e.pc(), 0x200);
    run(&mut e, 0xE0A1).unwrap();
    assert_eq!(e.pc(), 0x202);
    e.keypress(7, true);
    run(&mut e, 0xE09E).unwrap();
    assert_eq!(e.pc(), 0x204);
    run(&mut e, 0xE0A1).unwrap();
    assert_eq!(e.pc(), 0x204);
    e.keypress(7, false);
    run(&mut e, 0xE0A1).unwrap();
    assert_eq!(e.pc(), 0x206);
}

#[test]
fn key_index_out_of_range_faults() {
    let mut e = Emulator::new();
    run(&mut e, 0x6010).unwrap();
    assert_eq!(run(&mut e, 0xE09E), Err(Fault::InvalidKey { key: 0x10 }));
    assert_eq!(run(&mut e, 0xE0A1), Err(Fault::InvalidKey { key: 0x10 }));
}

#[test]
fn timers_count_down_and_stop_at_zero() {
    let mut e = Emulator::new();
    run(&mut e, 0x6002).unwrap();
    run(&mut e, 0x6103).unwrap();
    run(&mut e, 0xF015).unwrap();
    run(&mut e, 0xF118).unwrap();
    assert!(e.timer());
    assert_eq!((e.delay_timer(), e.sound_timer()), (1, 2));
    assert!(e.timer());
    assert_eq!((e.delay_timer(), e.sound_timer()), (0, 1));
    assert!(e.timer());
    assert_eq!((e.delay_timer(), e.sound_timer()), (0, 0));
    for _ in 0..5 {
        assert!(!e.timer());
    }
    assert_eq!((e.delay_timer(), e.sound_timer()), (0, 0));
    run(&mut e, 0xF207).unwrap();
    assert_eq!(e.register(2), 0);
}

#[test]
fn end_to_end_addition() {
    let mut e = loaded(&[0x60, 0x0A, 0x61, 0x05, 0x80, 0x14]);
    for _ in 0..3 {
        assert_eq!(e.cycle(), Ok(Step::Executed));
    }
    assert_eq!(e.register(0), 0x0F);
    assert_eq!(e.register(0xF), 0);
    assert_eq!(e.pc(), 0x206);
}

#[test]
fn end_to_end_bcd() {
    let mut e = Emulator::new();
    run(&mut e, 0x60EA).unwrap();
    run(&mut e, 0xA300).unwrap();
    run(&mut e, 0xF033).unwrap();
    assert_eq!([e.memory(0x300), e.memory(0x301), e.memory(0x302)], [2, 3, 4]);
}

#[test]
fn bcd_past_memory_faults() {
    let mut e = Emulator::new();
    run(&mut e, 0xAFFE).unwrap();
    assert_eq!(run(&mut e, 0xF033), Err(Fault::MemoryFault { address: 0xFFE }));
}

#[test]
fn store_and_load_registers() {
    let mut e = Emulator::new();
    run(&mut e, 0x6011).unwrap();
    run(&mut e, 0x6122).unwrap();
    run(&mut e, 0x6233).unwrap();
    run(&mut e, 0xA400).unwrap();
    run(&mut e, 0xF155).unwrap();
    assert_eq!([e.memory(0x400), e.memory(0x401), e.memory(0x402)], [0x11, 0x22, 0]);
    assert_eq!(e.index(), 0x400);
    run(&mut e, 0xA401).unwrap();
    run(&mut e, 0xF265).unwrap();
    assert_eq!([e.register(0), e.register(1), e.register(2)], [0x22, 0, 0]);
    run(&mut e, 0xAFFF).unwrap();
    assert_eq!(run(&mut e, 0xF155), Err(Fault::MemoryFault { address: 0xFFF }));
    assert_eq!(run(&mut e, 0xF065), Ok(Step::Executed));
}

#[test]
fn index_arithmetic() {
    let mut e = Emulator::new();
    run(&mut e, 0x600B).unwrap();
    run(&mut e, 0xF029).unwrap();
    assert_eq!(e.index(), 55);
    run(&mut e, 0xF01E).unwrap();
    assert_eq!(e.index(), 66);
}

#[test]
fn jumps_and_skips() {
    let mut e = Emulator::new();
    run(&mut e, 0x1ABC).unwrap();
    assert_eq!(e.pc(), 0xABC);
    run(&mut e, 0x6010).unwrap();
    run(&mut e, 0xB100).unwrap();
    assert_eq!(e.pc(), 0x110);
    run(&mut e, 0x3010).unwrap();
    assert_eq!(e.pc(), 0x112);
    run(&mut e, 0x4010).unwrap();
    assert_eq!(e.pc(), 0x112);
    run(&mut e, 0x6110).unwrap();
    run(&mut e, 0x5010).unwrap();
    assert_eq!(e.pc(), 0x114);
    run(&mut e, 0x9010).unwrap();
    assert_eq!(e.pc(), 0x114);
}

#[test]
fn random_is_masked() {
    let mut e = Emulator::new();
    assert_eq!(e.execute(0xC50F, 0xAB), Ok(Step::Executed));
    assert_eq!(e.register(5), 0x0B);
    let mut g = loaded(&[0xC6, 0x00, 0xC7, 0xF0]);
    g.cycle().unwrap();
    assert_eq!(g.register(6), 0);
    g.cycle().unwrap();
    assert_eq!(g.register(7) & 0x0F, 0);
}

#[test]
fn unknown_instruction_is_a_no_op() {
    let mut e = loaded(&[0x00, 0x00]);
    assert_eq!(e.cycle(), Ok(Step::Unknown { op: 0x0000 }));
    assert_eq!(e.pc(), 0x202);
    assert_eq!(run(&mut e, 0x8AB9), Ok(Step::Unknown { op: 0x8AB9 }));
    assert_eq!(run(&mut e, 0xF0FF), Ok(Step::Unknown { op: 0xF0FF }));
    assert_eq!(e.pc(), 0x202);
}

#[test]
fn rom_too_large_is_refused() {
    let mut e = Emulator::new();
    assert_eq!(e.load(&vec![1u8; 4096 - 0x200 + 1]), Err(Fault::RomTooLarge { len: 3585 }));
    assert_eq!(e.memory(0x200), 0);
    assert_eq!(e.load(&vec![1u8; 4096 - 0x200]), Ok(()));
    assert_eq!(e.memory(0xFFF), 1);
}

#[test]
fn decode_table() {
    assert_eq!(decode(0x00E0), Instr::Clear);
    assert_eq!(decode(0x00EE), Instr::Return);
    assert_eq!(decode(0x8AB4), Instr::AddReg { x: 0xA, y: 0xB });
    assert_eq!(decode(0xD12F), Instr::Draw { x: 1, y: 2, n: 0xF });
    assert_eq!(decode(0xF40A), Instr::WaitKey { x: 4 });
    assert_eq!(decode(0x5121), Instr::Unknown { op: 0x5121 });
    assert_eq!(decode(0xE1A2), Instr::Unknown { op: 0xE1A2 });
    assert_eq!(decode(0xB123), Instr::JumpOffset { addr: 0x123 });
}

#[test]
fn keyboard_layout() {
    assert_eq!(key_index('x'), Some(0));
    assert_eq!(key_index('1'), Some(1));
    assert_eq!(key_index('4'), Some(0xC));
    assert_eq!(key_index('v'), Some(0xF));
    assert_eq!(key_index('z'), Some(0xA));
    assert_eq!(key_index('p'), None);
}
