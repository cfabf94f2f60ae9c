use chippy::bus::Bus;
use chippy::interpreter::{Interpreter, LoadError};
use chippy::machine::{Fault, Outcome};

fn boot(program: &[u8]) -> Interpreter {
    let mut it = Interpreter::new(Bus::new());
    assert_eq!(it.load_program(program), Ok(()));
    it
}

fn run(program: &[u8], steps: usize) -> Interpreter {
    let mut it = boot(program);
    for _ in 0..steps {
        assert!(it.step(0).is_ok());
    }
    it
}

fn lit(it: &Interpreter) -> Vec<usize> {
    (0..2048).filter(|p| it.bus.display.bits[*p]).collect()
}

#[test]
fn power_on_state() {
    let it = Interpreter::new(Bus::new());
    assert_eq!(it.pc, 0x200);
    assert_eq!(it.i, 0);
    assert_eq!(it.stack.len(), 0);
    assert_eq!(it.dt, 60);
    assert_eq!(it.st, 60);
    for x in 0..16 {
        assert_eq!(it.v[x], 0);
    }
    assert!(lit(&it).is_empty());
}

#[test]
fn add_scenario_three_instructions() {
    let mut it = boot(&[0x60, 0x05, 0x61, 0x03, 0x80, 0x14]);
    assert_eq!(it.execute_one(), Ok(Outcome::Next));
    assert_eq!(it.execute_one(), Ok(Outcome::Next));
    assert_eq!(it.execute_one(), Ok(Outcome::Next));
    assert_eq!(it.v[0], 8);
    assert_eq!(it.v[1], 3);
    assert_eq!(it.v[0xF], 0);
    assert_eq!(it.pc, 0x206);
}

#[test]
fn clear_turns_every_pixel_off() {
    let mut it = run(&[0xA0, 0x00, 0xD0, 0x05, 0x00, 0xE0], 2);
    assert!(!lit(&it).is_empty());
    assert_eq!(it.step(0), Ok(Outcome::Next));
    assert!(it.bus.display.bits.iter().all(|b| !*b));
    assert_eq!(it.bus.display.bits.len(), 2048);
    assert_eq!(it.pc, 0x206);
}

#[test]
fn delay_timer_counts_down_and_stays_at_zero() {
    let mut it = run(&[0x60, 0x03, 0xF0, 0x15], 2);
    assert_eq!(it.dt, 3);
    it.tick_timers();
    assert_eq!(it.dt, 2);
    it.tick_timers();
    it.tick_timers();
    assert_eq!(it.dt, 0);
    it.tick_timers();
    assert_eq!(it.dt, 0);
    assert_eq!(it.st, 56);
}

#[test]
fn timers_are_read_and_written_through_registers() {
    let it = run(&[0x62, 0x2A, 0xF2, 0x18, 0xF3, 0x07, 0xF2, 0x15, 0xF4, 0x07], 5);
    assert_eq!(it.st, 0x2A);
    assert_eq!(it.v[3], 60);
    assert_eq!(it.dt, 0x2A);
    assert_eq!(it.v[4], 0x2A);
}

#[test]
fn add_immediate_wraps_and_leaves_flag() {
    let it = run(&[0x6F, 0x07, 0x61, 0xFF, 0x71, 0x02], 3);
    assert_eq!(it.v[1], 1);
    assert_eq!(it.v[0xF], 7);
    let it = run(&[0x61, 0x10, 0x71, 0x22], 2);
    assert_eq!(it.v[1], 0x32);
    assert_eq!(it.v[0xF], 0);
}

#[test]
fn add_registers_sets_carry() {
    let it = run(&[0x60, 0xF0, 0x61, 0x20, 0x80, 0x14], 3);
    assert_eq!(it.v[0], 0x10);
    assert_eq!(it.v[0xF], 1);
    let it = run(&[0x60, 0xF0, 0x61, 0x0F, 0x80, 0x14], 3);
    assert_eq!(it.v[0], 0xFF);
    assert_eq!(it.v[0xF], 0);
}

#[test]
fn subtract_sets_flag_when_no_borrow() {
    let it = run(&[0x60, 0x05, 0x61, 0x03, 0x80, 0x15], 3);
    assert_eq!(it.v[0], 2);
    assert_eq!(it.v[0xF], 1);
    let it = run(&[0x60, 0x03, 0x61, 0x05, 0x80, 0x15], 3);
    assert_eq!(it.v[0], 254);
    assert_eq!(it.v[0xF], 0);
    let it = run(&[0x60, 0x09, 0x61, 0x09, 0x80, 0x15], 3);
    assert_eq!(it.v[0], 0);
    assert_eq!(it.v[0xF], 1);
}

#[test]
fn subtract_with_aliased_registers() {
    let it = run(&[0x63, 0x44, 0x83, 0x35], 2);
    assert_eq!(it.v[3], 0);
    assert_eq!(it.v[0xF], 1);
}

#[test]
fn reverse_subtract_sets_flag_when_no_borrow() {
    let it = run(&[0x60, 0x03, 0x61, 0x05, 0x80, 0x17], 3);
    assert_eq!(it.v[0], 2);
    assert_eq!(it.v[0xF], 1);
    let it = run(&[0x60, 0x05, 0x61, 0x03, 0x80, 0x17], 3);
    assert_eq!(it.v[0], 254);
    assert_eq!(it.v[0xF], 0);
}

#[test]
fn shifts_move_the_lost_bit_into_the_flag() {
    let it = run(&[0x60, 0x05, 0x80, 0x06], 2);
    assert_eq!(it.v[0], 2);
    assert_eq!(it.v[0xF], 1);
    let it = run(&[0x60, 0x04, 0x80, 0x06], 2);
    assert_eq!(it.v[0], 2);
    assert_eq!(it.v[0xF], 0);
    let it = run(&[0x60, 0x81, 0x80, 0x0E], 2);
    assert_eq!(it.v[0], 0x02);
    assert_eq!(it.v[0xF], 1);
    let it = run(&[0x60, 0x41, 0x80, 0x0E], 2);
    assert_eq!(it.v[0], 0x82);
    assert_eq!(it.v[0xF], 0);
}

#[test]
fn flag_register_is_written_last() {
    let it = run(&[0x6F, 0xC8, 0x61, 0x64, 0x8F, 0x14], 3);
    assert_eq!(it.v[0xF], 1);
    let it = run(&[0x6F, 0x05, 0x61, 0x03, 0x8F, 0x15], 3);
    assert_eq!(it.v[0xF], 1);
    let it = run(&[0x6F, 0x03, 0x8F, 0x06], 2);
    assert_eq!(it.v[0xF], 1);
}

#[test]
fn assign_and_bitwise_operations() {
    let prefix = [0x60, 0b1100_1010, 0x61, 0b1010_0110];
    let mut program = prefix.to_vec();
    program.extend_from_slice(&[0x80, 0x10]);
    assert_eq!(run(&program, 3).v[0], 0b1010_0110);
    program[5] = 0x11;
    assert_eq!(run(&program, 3).v[0], 0b1110_1110);
    program[5] = 0x12;
    assert_eq!(run(&program, 3).v[0], 0b1000_0010);
    program[5] = 0x13;
    let it = run(&program, 3);
    assert_eq!(it.v[0], 0b0110_1100);
    assert_eq!(it.v[1], 0b1010_0110);
    assert_eq!(it.v[0xF], 0);
}

#[test]
fn drawing_twice_restores_the_display() {
    let mut it = run(&[0x60, 0x0A, 0x61, 0x04, 0xA0, 0x00, 0xD0, 0x15, 0xD0, 0x15], 4);
    let glyph: [u8; 5] = [0xF0, 0x90, 0x90, 0x90, 0xF0];
    let mut expected: Vec<usize> = Vec::new();
    for r in 0..5 {
        for c in 0..8 {
            if glyph[r] & (0x80 >> c) != 0 {
                expected.push((4 + r) * 64 + 10 + c);
            }
        }
    }
    assert_eq!(lit(&it), expected);
    assert_eq!(it.v[0xF], 0);
    assert_eq!(it.step(0), Ok(Outcome::Next));
    assert!(lit(&it).is_empty());
    assert_eq!(it.v[0xF], 1);
}

#[test]
fn drawing_wraps_on_both_axes() {
    let it = run(&[0x60, 0x3E, 0x61, 0x1F, 0xA0, 0x00, 0xD0, 0x12], 4);
    assert_eq!(lit(&it), vec![1, 62, 31 * 64, 31 * 64 + 1, 31 * 64 + 62, 31 * 64 + 63]);
    assert_eq!(it.v[0xF], 0);
}

#[test]
fn drawing_wraps_large_coordinates() {
    let it = run(&[0x60, 0xFF, 0x61, 0xFF, 0xA0, 0x1A, 0xD0, 0x11], 4);
    assert_eq!(lit(&it), vec![31 * 64 + 63]);
}

#[test]
fn collision_is_accumulated_over_the_sprite() {
    let it = run(&[0xA0, 0x1A, 0xD0, 0x01, 0xA0, 0x00, 0xD0, 0x01], 4);
    assert_eq!(lit(&it), vec![1, 2, 3]);
    assert_eq!(it.v[0xF], 1);
}

#[test]
fn drawing_without_overlap_clears_the_flag() {
    let it = run(&[0x6F, 0x01, 0xA0, 0x1A, 0xD0, 0x01, 0x60, 0x08, 0xD0, 0x11], 5);
    assert_eq!(lit(&it), vec![0, 8]);
    assert_eq!(it.v[0xF], 0);
}

#[test]
fn drawing_no_rows_changes_no_pixel() {
    let it = run(&[0x6F, 0x01, 0xA0, 0x00, 0xD0, 0x00], 3);
    assert!(lit(&it).is_empty());
    assert_eq!(it.v[0xF], 0);
}

#[test]
fn call_then_return_continues_after_the_call() {
    let mut it = boot(&[0x22, 0x06, 0x00, 0x00, 0x00, 0x00, 0x00, 0xEE]);
    assert_eq!(it.step(0), Ok(Outcome::Jump(0x206)));
    assert_eq!(it.pc, 0x206);
    assert_eq!(it.stack.len(), 1);
    assert_eq!(it.step(0), Ok(Outcome::Jump(0x202)));
    assert_eq!(it.pc, 0x202);
    assert_eq!(it.stack.len(), 0);
}

#[test]
fn sixteen_nested_calls_then_overflow() {
    let mut program: Vec<u8> = Vec::new();
    for k in 0..16u16 {
        let target: u16 = 0x202 + 2 * k;
        program.push(0x20 | (target >> 8) as u8);
        program.push((target & 0xFF) as u8);
    }
    program.extend_from_slice(&[0x22, 0x20]);
    let mut it = boot(&program);
    for depth in 1..=16usize {
        assert!(it.step(0).is_ok());
        assert_eq!(it.stack.len(), depth);
    }
    assert_eq!(it.pc, 0x220);
    assert_eq!(it.step(0), Err(Fault::StackOverflow));
    assert_eq!(it.stack.len(), 16);
    assert_eq!(it.pc, 0x220);
}

#[test]
fn returns_unwind_sixteen_calls() {
    let mut program: Vec<u8> = Vec::new();
    for k in 0..16u16 {
        let target: u16 = 0x200 + 4 * (k + 1);
        program.push(0x20 | (target >> 8) as u8);
        program.push((target & 0xFF) as u8);
        program.extend_from_slice(&[0x00, 0xEE]);
    }
    program.extend_from_slice(&[0x00, 0xEE]);
    let mut it = boot(&program);
    for k in 0..16u16 {
        assert_eq!(it.step(0), Ok(Outcome::Jump(0x200 + 4 * (k + 1))));
        assert_eq!(it.stack.len(), k as usize + 1);
    }
    assert_eq!(it.pc, 0x240);
    for depth in (1..=16u16).rev() {
        let call_site: u16 = 0x200 + 4 * (depth - 1);
        assert_eq!(it.step(0), Ok(Outcome::Jump(call_site + 2)));
        assert_eq!(it.pc, call_site + 2);
        assert_eq!(it.stack.len(), depth as usize - 1);
    }
    assert_eq!(it.step(0), Err(Fault::StackUnderflow));
}

#[test]
fn return_on_empty_stack_underflows() {
    let mut it = boot(&[0x00, 0xEE]);
    assert_eq!(it.step(0), Err(Fault::StackUnderflow));
    assert_eq!(it.pc, 0x200);
    assert_eq!(it.stack.len(), 0);
}

#[test]
fn undefined_words_fault_with_word_and_address() {
    for word in [0x0000u16, 0x0123, 0x00E1, 0x5121, 0x9121, 0x8128, 0x812F, 0xE19F, 0xE000, 0xF1FF, 0xF100] {
        let mut it = boot(&[0x12, 0x04, 0x00, 0x00, (word >> 8) as u8, (word & 0xFF) as u8]);
        assert_eq!(it.step(0), Ok(Outcome::Jump(0x204)));
        assert_eq!(it.step(0), Err(Fault::InvalidOpcode { opcode: word, pc: 0x204 }));
        assert_eq!(it.execute_one(), Err(Fault::InvalidOpcode { opcode: word, pc: 0x204 }));
        assert_eq!(it.pc, 0x204);
    }
}

#[test]
fn fetch_past_the_end_of_memory_faults() {
    let mut it = boot(&[0x1F, 0xFF]);
    assert_eq!(it.step(0), Ok(Outcome::Jump(0xFFF)));
    assert_eq!(it.step(0), Err(Fault::IndexOutOfRange));
    assert_eq!(it.pc, 0xFFF);
}

#[test]
fn last_instruction_of_memory_executes() {
    let mut image: Vec<u8> = vec![0; 3584];
    image[0] = 0x1F;
    image[1] = 0xFE;
    image[3582] = 0x65;
    image[3583] = 0x09;
    let mut it = boot(&image);
    assert_eq!(it.step(0), Ok(Outcome::Jump(0xFFE)));
    assert_eq!(it.step(0), Ok(Outcome::Next));
    assert_eq!(it.v[5], 9);
    assert_eq!(it.pc, 0x1000);
    assert_eq!(it.step(0), Err(Fault::IndexOutOfRange));
}

#[test]
fn memory_accesses_past_the_end_fault() {
    let mut it = run(&[0xAF, 0xFE, 0x60, 0xFE, 0xF0, 0x33], 2);
    assert_eq!(it.step(0), Err(Fault::IndexOutOfRange));
    assert_eq!(it.bus.mem[0xFFE], 0);
    assert_eq!(it.bus.mem[0xFFF], 0);
    assert_eq!(it.pc, 0x204);
    let mut it = run(&[0xAF, 0xFF, 0xD0, 0x02], 1);
    assert_eq!(it.step(0), Err(Fault::IndexOutOfRange));
    let mut it = run(&[0xAF, 0xFF, 0x60, 0x07, 0xF1, 0x55], 2);
    assert_eq!(it.step(0), Err(Fault::IndexOutOfRange));
    assert_eq!(it.bus.mem[0xFFF], 0);
    let mut it = run(&[0xAF, 0xFF, 0xF1, 0x65], 1);
    assert_eq!(it.step(0), Err(Fault::IndexOutOfRange));
    let mut it = run(&[0xAF, 0xFF, 0x60, 0x07, 0xF0, 0x55, 0xD0, 0x01], 2);
    assert_eq!(it.step(0), Ok(Outcome::Next));
    assert_eq!(it.bus.mem[0xFFF], 7);
    assert_eq!(it.step(0), Ok(Outcome::Next));
}

#[test]
fn key_number_above_fifteen_faults() {
    let mut it = run(&[0x60, 0x10, 0xE0, 0x9E], 1);
    assert_eq!(it.step(0), Err(Fault::IndexOutOfRange));
    let mut it = run(&[0x60, 0x10, 0xE0, 0xA1], 1);
    assert_eq!(it.step(0), Err(Fault::IndexOutOfRange));
}

#[test]
fn conditional_skips() {
    let mut it = run(&[0x60, 0x11, 0x61, 0x11, 0x62, 0x12], 3);
    let cases: [(u16, bool); 8] = [
        (0x3011, true),
        (0x3012, false),
        (0x4012, true),
        (0x4011, false),
        (0x5010, true),
        (0x5020, false),
        (0x9020, true),
        (0x9010, false),
    ];
    for (word, skips) in cases {
        let at = it.pc;
        let mut image: Vec<u8> = vec![0; at as usize - 0x200];
        image.extend_from_slice(&[(word >> 8) as u8, (word & 0xFF) as u8]);
        assert_eq!(it.load_program(&image), Ok(()));
        if skips {
            assert_eq!(it.step(0), Ok(Outcome::Skip));
            assert_eq!(it.pc, at + 4);
        } else {
            assert_eq!(it.step(0), Ok(Outcome::Next));
            assert_eq!(it.pc, at + 2);
        }
    }
}

#[test]
fn jumps_set_the_program_counter() {
    let mut it = boot(&[0x13, 0x45]);
    assert_eq!(it.step(0), Ok(Outcome::Jump(0x345)));
    assert_eq!(it.pc, 0x345);
    let mut it = run(&[0x60, 0x04, 0xB3, 0x00], 1);
    assert_eq!(it.step(0), Ok(Outcome::Jump(0x304)));
    assert_eq!(it.pc, 0x304);
    let mut it = run(&[0x60, 0xFF, 0xBF, 0xFF], 1);
    assert_eq!(it.step(0), Ok(Outcome::Jump(0x10FE)));
    assert_eq!(it.step(0), Err(Fault::IndexOutOfRange));
}

#[test]
fn random_byte_is_masked() {
    let mut it = boot(&[0xC1, 0xF0, 0xC2, 0x00, 0xC3, 0x0F]);
    assert_eq!(it.step(0xAB), Ok(Outcome::Next));
    assert_eq!(it.v[1], 0xA0);
    assert_eq!(it.execute_one(), Ok(Outcome::Next));
    assert_eq!(it.v[2], 0);
    assert_eq!(it.execute_one(), Ok(Outcome::Next));
    assert!(it.v[3] <= 0x0F);
    assert_eq!(it.pc, 0x206);
}

#[test]
fn random_bytes_vary() {
    let mut seen = [false; 256];
    for _ in 0..400 {
        let mut it = boot(&[0xC0, 0xFF]);
        assert_eq!(it.execute_one(), Ok(Outcome::Next));
        seen[it.v[0] as usize] = true;
    }
    assert!(seen.iter().filter(|s| **s).count() > 50);
}

#[test]
fn key_skips_follow_the_keypad() {
    let mut it = run(&[0x60, 0x03, 0xE0, 0x9E, 0xE0, 0xA1, 0x00, 0x00, 0xE0, 0x9E, 0x00, 0x00, 0xE0, 0xA1], 1);
    assert_eq!(it.step(0), Ok(Outcome::Next));
    assert_eq!(it.step(0), Ok(Outcome::Skip));
    assert_eq!(it.pc, 0x208);
    it.bus.toggle_key(3);
    assert_eq!(it.step(0), Ok(Outcome::Skip));
    assert_eq!(it.pc, 0x20C);
    assert_eq!(it.step(0), Ok(Outcome::Next));
}

#[test]
fn wait_for_key_holds_until_a_key_is_down() {
    let mut it = boot(&[0xF1, 0x0A]);
    assert_eq!(it.step(0), Ok(Outcome::Wait));
    assert_eq!(it.execute_one(), Ok(Outcome::Wait));
    assert_eq!(it.pc, 0x200);
    assert_eq!(it.v[1], 0);
    it.bus.toggle_key(9);
    it.bus.toggle_key(7);
    assert_eq!(it.step(0), Ok(Outcome::Next));
    assert_eq!(it.v[1], 7);
    assert_eq!(it.pc, 0x202);
}

#[test]
fn index_register_arithmetic() {
    let it = run(&[0xA1, 0x23], 1);
    assert_eq!(it.i, 0x123);
    let it = run(&[0xAF, 0xFF, 0x60, 0xFF, 0xF0, 0x1E], 3);
    assert_eq!(it.i, 0x10FE);
    let it = run(&[0x60, 0xFF, 0xF0, 0x1E, 0x12, 0x02], 1 + 2 * 258 - 1);
    assert_eq!(it.i, 254);
}

#[test]
fn glyph_address_uses_the_low_nibble() {
    let it = run(&[0x60, 0x1A, 0xF0, 0x29], 2);
    assert_eq!(it.i, 50);
    let it = run(&[0x60, 0x0F, 0xF0, 0x29], 2);
    assert_eq!(it.i, 75);
    assert_eq!(&it.bus.mem[75..80], &[0xF0, 0x80, 0xF0, 0x80, 0x80]);
}

#[test]
fn decimal_digits_are_stored() {
    let it = run(&[0x60, 0xFE, 0xA3, 0x00, 0xF0, 0x33], 3);
    assert_eq!(&it.bus.mem[0x300..0x303], &[2, 5, 4]);
    let it = run(&[0x60, 0x07, 0xA3, 0x00, 0xF0, 0x33], 3);
    assert_eq!(&it.bus.mem[0x300..0x303], &[0, 0, 7]);
    let it = run(&[0x60, 0x6D, 0xAF, 0xFD, 0xF0, 0x33], 3);
    assert_eq!(&it.bus.mem[0xFFD..0x1000], &[1, 0, 9]);
}

#[test]
fn store_then_load_round_trips_registers() {
    let program = [
        0x60, 0x11, 0x61, 0x22, 0x62, 0x33, 0x63, 0x44, 0xA3, 0x00, 0xF2, 0x55, 0x60, 0x00, 0x61, 0x00,
        0x62, 0x00, 0x63, 0x00, 0xF2, 0x65,
    ];
    let it = run(&program, 6);
    assert_eq!(&it.bus.mem[0x300..0x304], &[0x11, 0x22, 0x33, 0x00]);
    assert_eq!(it.i, 0x300);
    let it = run(&program, 10);
    assert_eq!(it.v[2], 0);
    let it = run(&program, 11);
    assert_eq!(it.v[0], 0x11);
    assert_eq!(it.v[1], 0x22);
    assert_eq!(it.v[2], 0x33);
    assert_eq!(it.v[3], 0);
    assert_eq!(it.i, 0x300);
}

#[test]
fn store_all_sixteen_registers() {
    let mut program: Vec<u8> = Vec::new();
    for x in 0..16u8 {
        program.extend_from_slice(&[0x60 | x, 0xA0 + x]);
    }
    program.extend_from_slice(&[0xA4, 0x00, 0xFF, 0x55]);
    let it = run(&program, 18);
    for x in 0..16usize {
        assert_eq!(it.bus.mem[0x400 + x], 0xA0 + x as u8);
    }
    assert_eq!(it.bus.mem[0x410], 0);
    assert_eq!(it.bus.mem[0x3FF], 0);
}

#[test]
fn program_is_copied_to_the_start_address() {
    let it = boot(&[0xDE, 0xAD, 0xBE]);
    assert_eq!(&it.bus.mem[0x1FF..0x204], &[0, 0xDE, 0xAD, 0xBE, 0]);
    assert_eq!(it.bus.mem[0], 0xF0);
    assert_eq!(it.pc, 0x200);
}

#[test]
fn largest_program_fits() {
    let image: Vec<u8> = vec![0x5A; 3584];
    let it = boot(&image);
    assert_eq!(it.bus.mem[0x200], 0x5A);
    assert_eq!(it.bus.mem[0xFFF], 0x5A);
    assert_eq!(it.bus.mem[0x1FF], 0);
}

#[test]
fn oversized_program_is_refused_whole() {
    let mut it = boot(&[0x11, 0x22]);
    let image: Vec<u8> = vec![0x5A; 3585];
    assert_eq!(it.load_program(&image), Err(LoadError { len: 3585 }));
    assert_eq!(&it.bus.mem[0x200..0x203], &[0x11, 0x22, 0]);
    assert_eq!(it.bus.mem[0xFFF], 0);
}

#[test]
fn empty_program_changes_nothing() {
    let it = boot(&[]);
    assert!(it.bus.mem[0x200..].iter().all(|b| *b == 0));
}

#[test]
fn tick_runs_fifteen_instructions_then_the_timers() {
    let mut program: Vec<u8> = Vec::new();
    for _ in 0..20 {
        program.extend_from_slice(&[0x70, 0x01]);
    }
    let mut it = boot(&program);
    assert_eq!(it.tick(), Ok(()));
    assert_eq!(it.v[0], 15);
    assert_eq!(it.pc, 0x200 + 30);
    assert_eq!(it.dt, 59);
    assert_eq!(it.st, 59);
}

#[test]
fn tick_stops_at_the_first_fault() {
    let mut it = boot(&[0x70, 0x01, 0x70, 0x01, 0xFF, 0xFF]);
    assert_eq!(it.tick(), Err(Fault::InvalidOpcode { opcode: 0xFFFF, pc: 0x204 }));
    assert_eq!(it.v[0], 2);
    assert_eq!(it.pc, 0x204);
    assert_eq!(it.dt, 60);
    assert_eq!(it.st, 60);
}
