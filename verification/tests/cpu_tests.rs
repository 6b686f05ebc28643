use oxi8_cpu::cpu::CLOCK_RATE_HZ;
use oxi8_cpu::font::SPRITES;
use oxi8_cpu::machine::compute_alu;
use oxi8_cpu::{BoolDisplay, ConstantRand, Cpu, Display, Halt, Instruction, Key, KeyWait, Rand};

type TestCpu = Cpu<BoolDisplay, ConstantRand>;

fn cpu_with(rom: &[u8]) -> TestCpu {
    Cpu::new(rom, BoolDisplay::new(8), ConstantRand {})
}

fn run(cpu: &mut TestCpu, wx: u8, yz: u8) -> Result<u16, Halt> {
    cpu.execute_instruction(Instruction::new(wx, yz))
}

fn set_register(cpu: &mut TestCpu, x: u8, value: u8) {
    assert_eq!(run(cpu, 0x60 | x, value), Ok(cpu.get_pc() + 2));
}

fn set_address(cpu: &mut TestCpu, address: u16) {
    assert_eq!(run(cpu, 0xA0 | (address >> 8) as u8, address as u8), Ok(cpu.get_pc() + 2));
}

fn registers(cpu: &TestCpu) -> Vec<u8> {
    (0..16).map(|x| cpu.get_register(x)).collect()
}

fn memory(cpu: &TestCpu) -> Vec<u8> {
    (0..4096).map(|a| cpu.get_memory(a)).collect()
}

fn set_pixels(cpu: &TestCpu) -> Vec<(usize, usize)> {
    let mut set = Vec::new();
    for y in 0..cpu.display.height() {
        for x in 0..cpu.display.width() {
            if cpu.display.current_pixel(x, y) == 1 {
                set.push((x, y));
            }
        }
    }
    set
}

struct Counting {
    next: u8,
}

impl Rand for Counting {
    fn next(&mut self) -> u8 {
        self.next = self.next.wrapping_add(1);
        self.next
    }
}

#[test]
fn a_new_processor_holds_sprites_and_program() {
    let rom = [0x12, 0x34, 0x56];
    let cpu = cpu_with(&rom);
    let ram = memory(&cpu);
    assert_eq!(&ram[0..240], &SPRITES[..]);
    assert_eq!(&ram[0..5], &[0xF0, 0x90, 0x90, 0x90, 0xF0]);
    assert_eq!(&ram[75..80], &[0xF0, 0x80, 0xF0, 0x80, 0x80]);
    assert_eq!(&ram[80..90], &[0xFF, 0xFF, 0xC3, 0xC3, 0xC3, 0xC3, 0xC3, 0xC3, 0xFF, 0xFF]);
    assert_eq!(&ram[230..240], &[0xFF, 0xFF, 0xC0, 0xC0, 0xFF, 0xFF, 0xC0, 0xC0, 0xC0, 0xC0]);
    assert!(ram[240..512].iter().all(|&b| b == 0));
    assert_eq!(&ram[512..515], &rom);
    assert!(ram[515..].iter().all(|&b| b == 0));
    assert_eq!(cpu.get_pc(), 512);
    assert_eq!(cpu.get_address(), 0);
    assert_eq!(registers(&cpu), vec![0; 16]);
    assert_eq!(cpu.get_delay(), 0);
    assert_eq!(cpu.sound, 0);
    assert_eq!(cpu.get_stack_depth(), 0);
    assert_eq!(cpu.get_clock_rate_hz(), 500);
    assert_eq!(CLOCK_RATE_HZ, 500);
    assert_eq!(cpu.keyboard.wait_state(), KeyWait::Idle);
    for x in 0..8 {
        assert_eq!(cpu.get_flag_register(x), 0);
    }
}

#[test]
fn the_largest_program_fills_memory_to_the_end() {
    let rom = vec![0xAB; 4096 - 512];
    let cpu = cpu_with(&rom);
    assert_eq!(cpu.get_memory(512), 0xAB);
    assert_eq!(cpu.get_memory(4095), 0xAB);
    assert_eq!(cpu.get_memory(511), 0);
    let empty = cpu_with(&[]);
    assert_eq!(empty.get_memory(512), 0);
}

#[test]
fn load_then_add_gives_eight() {
    let mut cpu = cpu_with(&[0x60, 0x05, 0x70, 0x03]);
    let start = cpu.get_pc();
    assert_eq!(cpu.next_instruction(), Instruction::new(0x60, 0x05));
    assert_eq!(cpu.execute_next_instruction(), Ok(()));
    assert_eq!(cpu.next_instruction(), Instruction::new(0x70, 0x03));
    assert_eq!(cpu.execute_next_instruction(), Ok(()));
    assert_eq!(cpu.get_register(0), 8);
    assert_eq!(cpu.get_pc(), start + 4);
}

#[test]
fn clear_leaves_no_pixel_set() {
    let mut cpu = cpu_with(&[0x00, 0xE0]);
    cpu.display.set_pixel(0, 0, 1);
    cpu.display.set_pixel(63, 31, 1);
    cpu.display.set_pixel(17, 9, 1);
    assert_eq!(cpu.execute_next_instruction(), Ok(()));
    assert_eq!(set_pixels(&cpu), vec![]);
    assert_eq!(cpu.get_pc(), 514);
}

#[test]
fn execute_instruction_leaves_the_program_counter() {
    let mut cpu = cpu_with(&[]);
    assert_eq!(run(&mut cpu, 0x60, 0x05), Ok(514));
    assert_eq!(cpu.get_pc(), 512);
    assert_eq!(cpu.get_register(0), 5);
}

#[test]
fn add_immediate_wraps_and_leaves_the_flag() {
    let mut cpu = cpu_with(&[]);
    set_register(&mut cpu, 0x3, 0xFF);
    set_register(&mut cpu, 0xF, 0x77);
    assert_eq!(run(&mut cpu, 0x73, 0x03), Ok(514));
    assert_eq!(cpu.get_register(3), 0x02);
    assert_eq!(cpu.get_register(0xF), 0x77);
    assert_eq!(run(&mut cpu, 0x73, 0xFE), Ok(514));
    assert_eq!(cpu.get_register(3), 0x00);
}

#[test]
fn arithmetic_results_and_flags() {
    assert_eq!(compute_alu(0x0, 7, 9), Some((9, None)));
    assert_eq!(compute_alu(0x1, 0b1100, 0b1010), Some((0b1110, None)));
    assert_eq!(compute_alu(0x2, 0b1100, 0b1010), Some((0b1000, None)));
    assert_eq!(compute_alu(0x3, 0b1100, 0b1010), Some((0b0110, None)));
    assert_eq!(compute_alu(0x4, 200, 100), Some((44, Some(1))));
    assert_eq!(compute_alu(0x4, 200, 55), Some((255, Some(0))));
    assert_eq!(compute_alu(0x4, 255, 1), Some((0, Some(1))));
    assert_eq!(compute_alu(0x4, 255, 255), Some((254, Some(1))));
    assert_eq!(compute_alu(0x5, 10, 5), Some((5, Some(1))));
    assert_eq!(compute_alu(0x5, 5, 10), Some((251, Some(0))));
    assert_eq!(compute_alu(0x5, 7, 7), Some((0, Some(0))));
    assert_eq!(compute_alu(0x5, 0, 255), Some((1, Some(0))));
    assert_eq!(compute_alu(0x6, 5, 99), Some((2, Some(1))));
    assert_eq!(compute_alu(0x6, 4, 99), Some((2, Some(0))));
    assert_eq!(compute_alu(0x6, 255, 0), Some((127, Some(1))));
    assert_eq!(compute_alu(0x7, 5, 10), Some((5, Some(1))));
    assert_eq!(compute_alu(0x7, 10, 5), Some((251, Some(0))));
    assert_eq!(compute_alu(0x7, 7, 7), Some((0, Some(0))));
    assert_eq!(compute_alu(0xE, 0x81, 99), Some((0x02, Some(128))));
    assert_eq!(compute_alu(0xE, 0x7F, 99), Some((0xFE, Some(0))));
    assert_eq!(compute_alu(0xE, 0xFF, 0), Some((0xFE, Some(128))));
    assert_eq!(compute_alu(0xE, 0x80, 0), Some((0x00, Some(128))));
    for op in [0x8, 0x9, 0xA, 0xB, 0xC, 0xD, 0xF, 0x10, 0xFF] {
        assert_eq!(compute_alu(op, 1, 2), None);
    }
}

#[test]
fn arithmetic_instructions_write_result_and_flag() {
    let mut cpu = cpu_with(&[]);
    set_register(&mut cpu, 1, 200);
    set_register(&mut cpu, 2, 100);
    assert_eq!(run(&mut cpu, 0x81, 0x24), Ok(514));
    assert_eq!(cpu.get_register(1), 44);
    assert_eq!(cpu.get_register(2), 100);
    assert_eq!(cpu.get_register(0xF), 1);
    assert_eq!(run(&mut cpu, 0x81, 0x25), Ok(514));
    assert_eq!(cpu.get_register(1), 200);
    assert_eq!(cpu.get_register(0xF), 0);
    assert_eq!(run(&mut cpu, 0x81, 0x2E), Ok(514));
    assert_eq!(cpu.get_register(1), 144);
    assert_eq!(cpu.get_register(0xF), 128);
    assert_eq!(run(&mut cpu, 0x81, 0x26), Ok(514));
    assert_eq!(cpu.get_register(1), 72);
    assert_eq!(cpu.get_register(0xF), 0);
    assert_eq!(run(&mut cpu, 0x81, 0x27), Ok(514));
    assert_eq!(cpu.get_register(1), 28);
    assert_eq!(cpu.get_register(0xF), 1);
}

#[test]
fn logic_instructions_leave_the_flag() {
    let mut cpu = cpu_with(&[]);
    set_register(&mut cpu, 0xF, 9);
    set_register(&mut cpu, 1, 0b1100);
    set_register(&mut cpu, 2, 0b1010);
    assert_eq!(run(&mut cpu, 0x81, 0x21), Ok(514));
    assert_eq!(cpu.get_register(1), 0b1110);
    assert_eq!(run(&mut cpu, 0x81, 0x22), Ok(514));
    assert_eq!(cpu.get_register(1), 0b1010);
    set_register(&mut cpu, 1, 0b1100);
    assert_eq!(run(&mut cpu, 0x81, 0x23), Ok(514));
    assert_eq!(cpu.get_register(1), 0b0110);
    assert_eq!(run(&mut cpu, 0x83, 0x20), Ok(514));
    assert_eq!(cpu.get_register(3), 0b1010);
    assert_eq!(cpu.get_register(0xF), 9);
}

#[test]
fn a_result_in_the_flag_register_replaces_the_flag() {
    let mut cpu = cpu_with(&[]);
    set_register(&mut cpu, 0xF, 200);
    set_register(&mut cpu, 1, 100);
    assert_eq!(run(&mut cpu, 0x8F, 0x14), Ok(514));
    assert_eq!(cpu.get_register(0xF), 44);
    set_register(&mut cpu, 0xF, 3);
    assert_eq!(run(&mut cpu, 0x8F, 0x06), Ok(514));
    assert_eq!(cpu.get_register(0xF), 1);
}

#[test]
fn the_flag_register_as_second_operand_is_read_first() {
    let mut cpu = cpu_with(&[]);
    set_register(&mut cpu, 0xF, 200);
    set_register(&mut cpu, 1, 100);
    assert_eq!(run(&mut cpu, 0x81, 0xF4), Ok(514));
    assert_eq!(cpu.get_register(1), 44);
    assert_eq!(cpu.get_register(0xF), 1);
}

#[test]
fn an_unknown_arithmetic_operation_changes_nothing() {
    let mut cpu = cpu_with(&[]);
    set_register(&mut cpu, 1, 200);
    set_register(&mut cpu, 2, 100);
    let before = registers(&cpu);
    for z in [0x8, 0x9, 0xA, 0xB, 0xC, 0xD, 0xF] {
        let instruction = Instruction::new(0x81, 0x20 | z);
        assert_eq!(cpu.execute_instruction(instruction), Err(Halt::BadInstruction(instruction)));
        assert_eq!(registers(&cpu), before);
    }
}

#[test]
fn jump_and_jump_with_offset() {
    let mut cpu = cpu_with(&[]);
    assert_eq!(run(&mut cpu, 0x1A, 0xBC), Ok(0xABC));
    set_register(&mut cpu, 0, 0xFF);
    assert_eq!(run(&mut cpu, 0xB2, 0x00), Ok(0x2FF));
    assert_eq!(run(&mut cpu, 0xBF, 0xFF), Ok(0xFFF + 0xFF));
    assert_eq!(cpu.get_pc(), 512);
}

#[test]
fn call_and_return() {
    let mut cpu = cpu_with(&[0x22, 0x06, 0x61, 0x01, 0x00, 0x00, 0x62, 0x02, 0x00, 0xEE]);
    assert_eq!(cpu.execute_next_instruction(), Ok(()));
    assert_eq!(cpu.get_pc(), 0x206);
    assert_eq!(cpu.get_stack_depth(), 1);
    assert_eq!(cpu.execute_next_instruction(), Ok(()));
    assert_eq!(cpu.get_register(2), 2);
    assert_eq!(cpu.execute_next_instruction(), Ok(()));
    assert_eq!(cpu.get_pc(), 0x202);
    assert_eq!(cpu.get_stack_depth(), 0);
    assert_eq!(cpu.execute_next_instruction(), Ok(()));
    assert_eq!(cpu.get_register(1), 1);
}

#[test]
fn the_seventeenth_call_overflows_the_stack() {
    let mut cpu = cpu_with(&[0x22, 0x00]);
    for depth in 1..=16 {
        assert_eq!(cpu.execute_next_instruction(), Ok(()));
        assert_eq!(cpu.get_stack_depth(), depth);
        assert_eq!(cpu.get_pc(), 0x200);
    }
    assert_eq!(cpu.execute_next_instruction(), Err(Halt::StackOverflow));
    assert_eq!(cpu.get_stack_depth(), 16);
    assert_eq!(cpu.get_pc(), 0x200);
}

#[test]
fn a_return_without_a_call_underflows_the_stack() {
    let mut cpu = cpu_with(&[0x00, 0xEE]);
    assert_eq!(cpu.execute_next_instruction(), Err(Halt::StackUnderflow));
    assert_eq!(cpu.get_pc(), 512);
    assert_eq!(cpu.get_stack_depth(), 0);
}

#[test]
fn skips_on_a_byte() {
    let mut cpu = cpu_with(&[]);
    set_register(&mut cpu, 4, 0x42);
    assert_eq!(run(&mut cpu, 0x34, 0x42), Ok(516));
    assert_eq!(run(&mut cpu, 0x34, 0x43), Ok(514));
    assert_eq!(run(&mut cpu, 0x44, 0x42), Ok(514));
    assert_eq!(run(&mut cpu, 0x44, 0x43), Ok(516));
}

#[test]
fn skips_on_a_register() {
    let mut cpu = cpu_with(&[]);
    set_register(&mut cpu, 4, 0x42);
    set_register(&mut cpu, 5, 0x42);
    set_register(&mut cpu, 6, 0x43);
    assert_eq!(run(&mut cpu, 0x54, 0x50), Ok(516));
    assert_eq!(run(&mut cpu, 0x54, 0x60), Ok(514));
    assert_eq!(run(&mut cpu, 0x94, 0x50), Ok(514));
    assert_eq!(run(&mut cpu, 0x94, 0x60), Ok(516));
    for z in 1..16 {
        let equal = Instruction::new(0x54, 0x50 | z);
        assert_eq!(cpu.execute_instruction(equal), Err(Halt::BadInstruction(equal)));
        let differ = Instruction::new(0x94, 0x60 | z);
        assert_eq!(cpu.execute_instruction(differ), Err(Halt::BadInstruction(differ)));
    }
}

#[test]
fn load_address() {
    let mut cpu = cpu_with(&[]);
    assert_eq!(run(&mut cpu, 0xAF, 0xED), Ok(514));
    assert_eq!(cpu.get_address(), 0xFED);
}

#[test]
fn random_is_masked() {
    let mut cpu = cpu_with(&[]);
    assert_eq!(run(&mut cpu, 0xC1, 0xFF), Ok(514));
    assert_eq!(cpu.get_register(1), 4);
    assert_eq!(run(&mut cpu, 0xC2, 0x03), Ok(514));
    assert_eq!(cpu.get_register(2), 0);
    assert_eq!(run(&mut cpu, 0xC3, 0x0C), Ok(514));
    assert_eq!(cpu.get_register(3), 4);
}

#[test]
fn random_draws_one_byte_per_random_instruction() {
    let mut cpu = Cpu::new(&[], BoolDisplay::new(8), Counting { next: 0 });
    assert_eq!(cpu.execute_instruction(Instruction::new(0x61, 0x00)), Ok(514));
    assert_eq!(cpu.execute_instruction(Instruction::new(0xC1, 0xFF)), Ok(514));
    assert_eq!(cpu.get_register(1), 1);
    assert_eq!(cpu.execute_instruction(Instruction::new(0x62, 0x00)), Ok(514));
    assert_eq!(cpu.execute_instruction(Instruction::new(0xC2, 0xFF)), Ok(514));
    assert_eq!(cpu.get_register(2), 2);
    assert_eq!(cpu.execute_instruction(Instruction::new(0xC3, 0x01)), Ok(514));
    assert_eq!(cpu.get_register(3), 1);
}

#[test]
fn a_given_random_byte_is_used_as_it_is() {
    let mut cpu = cpu_with(&[0xC1, 0x0F, 0x62, 0x07]);
    assert_eq!(cpu.execute_instruction_with(Instruction::new(0xC0, 0xF0), 0xA5), Ok(514));
    assert_eq!(cpu.get_register(0), 0xA0);
    assert_eq!(cpu.execute_next_instruction_with(0xA5), Ok(()));
    assert_eq!(cpu.get_register(1), 0x05);
    assert_eq!(cpu.execute_next_instruction_with(0xA5), Ok(()));
    assert_eq!(cpu.get_register(2), 0x07);
    assert_eq!(cpu.get_pc(), 516);
}

#[test]
fn the_default_random_byte_is_four() {
    let mut source = ConstantRand {};
    assert_eq!(source.next(), 4);
    assert_eq!(source.next(), 4);
}

#[test]
fn draw_a_digit_and_draw_it_again() {
    let mut cpu = cpu_with(&[]);
    set_register(&mut cpu, 0, 8);
    set_register(&mut cpu, 1, 4);
    set_register(&mut cpu, 0xF, 9);
    assert_eq!(run(&mut cpu, 0xD0, 0x15), Ok(514));
    assert_eq!(cpu.get_register(0xF), 0);
    assert_eq!(
        set_pixels(&cpu),
        vec![
            (8, 4),
            (9, 4),
            (10, 4),
            (11, 4),
            (8, 5),
            (11, 5),
            (8, 6),
            (11, 6),
            (8, 7),
            (11, 7),
            (8, 8),
            (9, 8),
            (10, 8),
            (11, 8)
        ]
    );
    assert_eq!(run(&mut cpu, 0xD0, 0x15), Ok(514));
    assert_eq!(cpu.get_register(0xF), 1);
    assert_eq!(set_pixels(&cpu), vec![]);
}

#[test]
fn draw_reads_the_sprite_at_the_address_register() {
    let mut cpu = cpu_with(&[0x80, 0x40, 0x20]);
    set_address(&mut cpu, 0x201);
    set_register(&mut cpu, 2, 62);
    set_register(&mut cpu, 3, 31);
    assert_eq!(run(&mut cpu, 0xD2, 0x32), Ok(514));
    assert_eq!(set_pixels(&cpu), vec![(0, 0), (63, 31)]);
    assert_eq!(cpu.get_register(0xF), 0);
}

#[test]
fn draw_with_height_zero_draws_a_double_size_sprite() {
    let mut cpu = cpu_with(&[0xFF; 32]);
    set_address(&mut cpu, 0x200);
    set_register(&mut cpu, 0, 2);
    set_register(&mut cpu, 1, 3);
    assert_eq!(run(&mut cpu, 0xD0, 0x10), Ok(514));
    let mut expected = Vec::new();
    for y in 3..19 {
        for x in 2..10 {
            expected.push((x, y));
        }
    }
    assert_eq!(set_pixels(&cpu), expected);
    assert_eq!(cpu.get_register(0xF), 0);
    assert_eq!(run(&mut cpu, 0x00, 0xFF), Ok(514));
    assert_eq!(run(&mut cpu, 0xD0, 0x10), Ok(514));
    let mut expected = Vec::new();
    for y in 3..19 {
        for x in 2..18 {
            expected.push((x, y));
        }
    }
    assert_eq!(set_pixels(&cpu), expected);
    assert_eq!(run(&mut cpu, 0xD0, 0x10), Ok(514));
    assert_eq!(cpu.get_register(0xF), 1);
    assert_eq!(set_pixels(&cpu), vec![]);
}

#[test]
fn a_sprite_past_the_end_of_memory_is_out_of_range() {
    let mut cpu = cpu_with(&[]);
    set_address(&mut cpu, 0xFFF);
    assert_eq!(run(&mut cpu, 0xD0, 0x01), Ok(514));
    assert_eq!(run(&mut cpu, 0xD0, 0x02), Err(Halt::OutOfRange));
    set_address(&mut cpu, 0xFE0);
    assert_eq!(run(&mut cpu, 0xD0, 0x00), Ok(514));
    set_address(&mut cpu, 0xFE1);
    assert_eq!(run(&mut cpu, 0xD0, 0x00), Err(Halt::OutOfRange));
    assert_eq!(cpu.get_register(0xF), 0);
    assert_eq!(set_pixels(&cpu), vec![]);
}

#[test]
fn skips_on_a_key() {
    let mut cpu = cpu_with(&[]);
    set_register(&mut cpu, 1, 0xB);
    assert_eq!(run(&mut cpu, 0xE1, 0x9E), Ok(514));
    assert_eq!(run(&mut cpu, 0xE1, 0xA1), Ok(516));
    cpu.keyboard.toggle_key(Key::KB, true);
    assert_eq!(run(&mut cpu, 0xE1, 0x9E), Ok(516));
    assert_eq!(run(&mut cpu, 0xE1, 0xA1), Ok(514));
    cpu.toggle_key(Key::KB, false);
    assert_eq!(run(&mut cpu, 0xE1, 0x9E), Ok(514));
    let unknown = Instruction::new(0xE1, 0x9F);
    assert_eq!(cpu.execute_instruction(unknown), Err(Halt::BadInstruction(unknown)));
}

#[test]
fn a_key_number_above_fifteen_is_out_of_range() {
    let mut cpu = cpu_with(&[]);
    set_register(&mut cpu, 1, 16);
    assert_eq!(run(&mut cpu, 0xE1, 0x9E), Err(Halt::OutOfRange));
    assert_eq!(run(&mut cpu, 0xE1, 0xA1), Err(Halt::OutOfRange));
    let unknown = Instruction::new(0xE1, 0x00);
    assert_eq!(cpu.execute_instruction(unknown), Err(Halt::BadInstruction(unknown)));
}

#[test]
fn timers_are_set_and_read() {
    let mut cpu = cpu_with(&[]);
    set_register(&mut cpu, 1, 33);
    assert_eq!(run(&mut cpu, 0xF1, 0x15), Ok(514));
    assert_eq!(cpu.get_delay(), 33);
    assert_eq!(cpu.sound, 0);
    set_register(&mut cpu, 2, 44);
    assert_eq!(run(&mut cpu, 0xF2, 0x18), Ok(514));
    assert_eq!(cpu.sound, 44);
    assert_eq!(run(&mut cpu, 0xF3, 0x07), Ok(514));
    assert_eq!(cpu.get_register(3), 33);
}

#[test]
fn timers_count_down_to_zero_and_stay() {
    let mut cpu = cpu_with(&[]);
    set_register(&mut cpu, 1, 2);
    run(&mut cpu, 0xF1, 0x15).unwrap();
    set_register(&mut cpu, 1, 1);
    run(&mut cpu, 0xF1, 0x18).unwrap();
    cpu.decrement_timers();
    assert_eq!((cpu.get_delay(), cpu.sound), (1, 0));
    cpu.decrement_timers();
    assert_eq!((cpu.get_delay(), cpu.sound), (0, 0));
    cpu.decrement_timers();
    assert_eq!((cpu.get_delay(), cpu.sound), (0, 0));
}

#[test]
fn add_to_the_address_register() {
    let mut cpu = cpu_with(&[]);
    set_address(&mut cpu, 0xFFF);
    set_register(&mut cpu, 1, 0xFF);
    assert_eq!(run(&mut cpu, 0xF1, 0x1E), Ok(514));
    assert_eq!(cpu.get_address(), 0x10FE);
    assert_eq!(cpu.get_register(0xF), 0);
}

#[test]
fn an_address_past_sixteen_bits_is_out_of_range() {
    let mut cpu = cpu_with(&[]);
    set_address(&mut cpu, 0xFFF);
    set_register(&mut cpu, 1, 0xFF);
    let mut expected: u32 = 0xFFF;
    while expected + 0xFF <= 0xFFFF {
        assert_eq!(run(&mut cpu, 0xF1, 0x1E), Ok(514));
        expected += 0xFF;
        assert_eq!(cpu.get_address() as u32, expected);
    }
    assert_eq!(run(&mut cpu, 0xF1, 0x1E), Err(Halt::OutOfRange));
    assert_eq!(cpu.get_address() as u32, expected);
    set_register(&mut cpu, 1, (0xFFFF - expected) as u8);
    assert_eq!(run(&mut cpu, 0xF1, 0x1E), Ok(514));
    assert_eq!(cpu.get_address(), 0xFFFF);
    set_register(&mut cpu, 1, 1);
    assert_eq!(run(&mut cpu, 0xF1, 0x1E), Err(Halt::OutOfRange));
    set_register(&mut cpu, 1, 0);
    assert_eq!(run(&mut cpu, 0xF1, 0x1E), Ok(514));
    assert_eq!(cpu.get_address(), 0xFFFF);
}

#[test]
fn digit_sprite_addresses() {
    let mut cpu = cpu_with(&[]);
    set_register(&mut cpu, 1, 0xA);
    assert_eq!(run(&mut cpu, 0xF1, 0x29), Ok(514));
    assert_eq!(cpu.get_address(), 50);
    assert_eq!(run(&mut cpu, 0xF1, 0x30), Ok(514));
    assert_eq!(cpu.get_address(), 180);
    set_register(&mut cpu, 1, 0);
    assert_eq!(run(&mut cpu, 0xF1, 0x29), Ok(514));
    assert_eq!(cpu.get_address(), 0);
    assert_eq!(run(&mut cpu, 0xF1, 0x30), Ok(514));
    assert_eq!(cpu.get_address(), 80);
    set_register(&mut cpu, 1, 0xFF);
    assert_eq!(run(&mut cpu, 0xF1, 0x29), Ok(514));
    assert_eq!(cpu.get_address(), 1275);
    assert_eq!(run(&mut cpu, 0xF1, 0x30), Ok(514));
    assert_eq!(cpu.get_address(), 2630);
}

#[test]
fn decimal_digits() {
    let mut cpu = cpu_with(&[]);
    set_address(&mut cpu, 0x300);
    set_register(&mut cpu, 1, 254);
    assert_eq!(run(&mut cpu, 0xF1, 0x33), Ok(514));
    assert_eq!(memory(&cpu)[0x300..0x303], [2, 5, 4]);
    set_register(&mut cpu, 1, 7);
    assert_eq!(run(&mut cpu, 0xF1, 0x33), Ok(514));
    assert_eq!(memory(&cpu)[0x300..0x303], [0, 0, 7]);
    set_register(&mut cpu, 1, 100);
    assert_eq!(run(&mut cpu, 0xF1, 0x33), Ok(514));
    assert_eq!(memory(&cpu)[0x2FF..0x304], [0, 1, 0, 0, 0]);
}

#[test]
fn decimal_digits_past_the_end_of_memory_are_out_of_range() {
    let mut cpu = cpu_with(&[]);
    set_register(&mut cpu, 1, 123);
    set_address(&mut cpu, 0xFFD);
    assert_eq!(run(&mut cpu, 0xF1, 0x33), Ok(514));
    assert_eq!(memory(&cpu)[0xFFD..], [1, 2, 3]);
    set_register(&mut cpu, 1, 45);
    set_address(&mut cpu, 0xFFE);
    assert_eq!(run(&mut cpu, 0xF1, 0x33), Err(Halt::OutOfRange));
    assert_eq!(memory(&cpu)[0xFFD..], [1, 2, 3]);
}

#[test]
fn registers_to_memory_and_back() {
    let mut cpu = cpu_with(&[]);
    for x in 0..16 {
        set_register(&mut cpu, x, 0x10 + x);
    }
    set_address(&mut cpu, 0x400);
    assert_eq!(run(&mut cpu, 0xF3, 0x55), Ok(514));
    assert_eq!(memory(&cpu)[0x3FF..0x405], [0, 0x10, 0x11, 0x12, 0x13, 0]);
    assert_eq!(cpu.get_address(), 0x400);
    for x in 0..16 {
        set_register(&mut cpu, x, 0);
    }
    set_address(&mut cpu, 0x401);
    assert_eq!(run(&mut cpu, 0xF1, 0x65), Ok(514));
    let mut expected = vec![0; 16];
    expected[0] = 0x11;
    expected[1] = 0x12;
    assert_eq!(registers(&cpu), expected);
    set_address(&mut cpu, 0x000);
    assert_eq!(run(&mut cpu, 0xFF, 0x65), Ok(514));
    assert_eq!(registers(&cpu), SPRITES[0..16].to_vec());
}

#[test]
fn all_registers_to_the_end_of_memory() {
    let mut cpu = cpu_with(&[]);
    for x in 0..16 {
        set_register(&mut cpu, x, 0xA0 + x);
    }
    set_address(&mut cpu, 0xFF0);
    assert_eq!(run(&mut cpu, 0xFF, 0x55), Ok(514));
    assert_eq!(memory(&cpu)[0xFF0..], (0..16).map(|x| 0xA0 + x).collect::<Vec<u8>>()[..]);
    set_address(&mut cpu, 0xFF1);
    let before = memory(&cpu);
    assert_eq!(run(&mut cpu, 0xFF, 0x55), Err(Halt::OutOfRange));
    assert_eq!(memory(&cpu), before);
    let kept = registers(&cpu);
    assert_eq!(run(&mut cpu, 0xFF, 0x65), Err(Halt::OutOfRange));
    assert_eq!(registers(&cpu), kept);
    assert_eq!(run(&mut cpu, 0xFE, 0x65), Ok(514));
}

#[test]
fn registers_to_flag_registers_and_back() {
    let mut cpu = cpu_with(&[]);
    for x in 0..16 {
        set_register(&mut cpu, x, 0x30 + x);
    }
    assert_eq!(run(&mut cpu, 0xF2, 0x75), Ok(514));
    let flags: Vec<u8> = (0..8).map(|x| cpu.get_flag_register(x)).collect();
    assert_eq!(flags, vec![0x30, 0x31, 0x32, 0, 0, 0, 0, 0]);
    assert_eq!(run(&mut cpu, 0xF7, 0x75), Ok(514));
    let flags: Vec<u8> = (0..8).map(|x| cpu.get_flag_register(x)).collect();
    assert_eq!(flags, vec![0x30, 0x31, 0x32, 0x33, 0x34, 0x35, 0x36, 0x37]);
    for x in 0..16 {
        set_register(&mut cpu, x, 1);
    }
    assert_eq!(run(&mut cpu, 0xF4, 0x85), Ok(514));
    assert_eq!(registers(&cpu), vec![0x30, 0x31, 0x32, 0x33, 0x34, 1, 1, 1, 1, 1, 1, 1, 1, 1, 1, 1]);
}

#[test]
fn flag_registers_past_the_eighth_are_refused() {
    let mut cpu = cpu_with(&[]);
    for x in 0..16 {
        set_register(&mut cpu, x, 0x30 + x);
    }
    for x in 8..16 {
        assert_eq!(run(&mut cpu, 0xF0 | x, 0x75), Err(Halt::FlagIndex));
        assert_eq!(run(&mut cpu, 0xF0 | x, 0x85), Err(Halt::FlagIndex));
    }
    for x in 0..8 {
        assert_eq!(cpu.get_flag_register(x), 0);
    }
    assert_eq!(cpu.get_register(0), 0x30);
}

#[test]
fn wait_for_a_key_holds_the_program_counter() {
    let mut cpu = cpu_with(&[0xF5, 0x0A, 0x61, 0x01]);
    for _ in 0..10 {
        assert_eq!(cpu.execute_next_instruction(), Ok(()));
        assert_eq!(cpu.get_pc(), 512);
        assert_eq!(cpu.keyboard.wait_state(), KeyWait::Waiting);
        assert_eq!(cpu.get_register(5), 0);
    }
    cpu.keyboard.toggle_key(Key::KC, false);
    assert_eq!(cpu.execute_next_instruction(), Ok(()));
    assert_eq!(cpu.get_pc(), 512);
    cpu.keyboard.toggle_key(Key::KC, true);
    assert_eq!(cpu.keyboard.wait_state(), KeyWait::Pressed(0xC));
    assert_eq!(cpu.get_pc(), 512);
    assert_eq!(cpu.execute_next_instruction(), Ok(()));
    assert_eq!(cpu.get_pc(), 514);
    assert_eq!(cpu.get_register(5), 0xC);
    assert_eq!(cpu.keyboard.wait_state(), KeyWait::Idle);
    assert_eq!(cpu.execute_next_instruction(), Ok(()));
    assert_eq!(cpu.get_pc(), 516);
    assert_eq!(cpu.get_register(1), 1);
}

#[test]
fn a_key_held_before_the_wait_does_not_end_it() {
    let mut cpu = cpu_with(&[0xF5, 0x0A]);
    cpu.toggle_key(Key::K3, true);
    assert_eq!(cpu.execute_next_instruction(), Ok(()));
    assert_eq!(cpu.get_pc(), 512);
    assert_eq!(cpu.execute_next_instruction(), Ok(()));
    assert_eq!(cpu.get_pc(), 512);
    cpu.toggle_key(Key::K4, true);
    assert_eq!(cpu.execute_next_instruction(), Ok(()));
    assert_eq!(cpu.get_pc(), 514);
    assert_eq!(cpu.get_register(5), 4);
}

#[test]
fn wait_for_a_key_returns_the_same_address() {
    let mut cpu = cpu_with(&[]);
    assert_eq!(run(&mut cpu, 0xF5, 0x0A), Ok(512));
    assert_eq!(cpu.get_pc(), 512);
    cpu.toggle_key(Key::K9, true);
    assert_eq!(run(&mut cpu, 0xF5, 0x0A), Ok(514));
    assert_eq!(cpu.get_register(5), 9);
}

#[test]
fn requests_to_the_host_are_told_apart() {
    let mut cpu = cpu_with(&[0x61, 0x01, 0x00, 0x00]);
    assert_eq!(cpu.execute_next_instruction(), Ok(()));
    assert_eq!(cpu.execute_next_instruction(), Err(Halt::Freeze));
    assert_eq!(cpu.get_pc(), 514);
    assert_eq!(run(&mut cpu, 0x00, 0xFD), Err(Halt::Exit));
    assert!(Halt::Freeze.is_host_signal());
    assert!(Halt::Exit.is_host_signal());
    assert!(!Halt::StackOverflow.is_host_signal());
    assert!(!Halt::StackUnderflow.is_host_signal());
    assert!(!Halt::BadInstruction(Instruction::new(0, 1)).is_host_signal());
    assert!(!Halt::FlagIndex.is_host_signal());
    assert!(!Halt::OutOfRange.is_host_signal());
    assert_ne!(Halt::Freeze, Halt::Exit);
}

#[test]
fn unknown_instructions_are_refused() {
    let mut cpu = cpu_with(&[]);
    for (wx, yz) in [
        (0x01, 0x23),
        (0x00, 0xE1),
        (0x00, 0xFA),
        (0x01, 0xB0),
        (0x0C, 0x00),
        (0x00, 0xB5),
        (0xF1, 0x00),
        (0xF1, 0x08),
        (0xF1, 0x56),
        (0xF1, 0xFF),
    ] {
        let instruction = Instruction::new(wx, yz);
        assert_eq!(cpu.execute_instruction(instruction), Err(Halt::BadInstruction(instruction)));
    }
    assert_eq!(registers(&cpu), vec![0; 16]);
    assert_eq!(cpu.get_address(), 0);
}

#[test]
fn scroll_instructions() {
    let mut cpu = cpu_with(&[]);
    cpu.display.set_pixel(10, 10, 1);
    assert_eq!(run(&mut cpu, 0x00, 0xFB), Ok(514));
    assert_eq!(set_pixels(&cpu), vec![(12, 10)]);
    assert_eq!(run(&mut cpu, 0x00, 0xFC), Ok(514));
    assert_eq!(run(&mut cpu, 0x00, 0xFC), Ok(514));
    assert_eq!(set_pixels(&cpu), vec![(8, 10)]);
    assert_eq!(run(&mut cpu, 0x00, 0xC6), Ok(514));
    assert_eq!(set_pixels(&cpu), vec![(8, 13)]);
    assert_eq!(run(&mut cpu, 0x00, 0xC0), Ok(514));
    assert_eq!(set_pixels(&cpu), vec![(8, 13)]);
    assert_eq!(run(&mut cpu, 0x00, 0xCF), Ok(514));
    assert_eq!(set_pixels(&cpu), vec![(8, 20)]);
}

#[test]
fn resolution_instructions() {
    let mut cpu = cpu_with(&[]);
    cpu.display.set_pixel(10, 10, 1);
    assert_eq!(run(&mut cpu, 0x00, 0xFE), Ok(514));
    assert_eq!(set_pixels(&cpu), vec![(10, 10)]);
    assert_eq!(run(&mut cpu, 0x00, 0xFF), Ok(514));
    assert!(cpu.display.hires());
    assert_eq!(cpu.display.width(), 128);
    assert_eq!(set_pixels(&cpu), vec![]);
    cpu.display.set_pixel(100, 50, 1);
    assert_eq!(run(&mut cpu, 0x00, 0xFF), Ok(514));
    assert_eq!(set_pixels(&cpu), vec![(100, 50)]);
    assert_eq!(run(&mut cpu, 0x00, 0xFB), Ok(514));
    assert_eq!(set_pixels(&cpu), vec![(104, 50)]);
    assert_eq!(run(&mut cpu, 0x00, 0xC3), Ok(514));
    assert_eq!(set_pixels(&cpu), vec![(104, 53)]);
    assert_eq!(run(&mut cpu, 0x00, 0xFE), Ok(514));
    assert!(!cpu.display.hires());
    assert_eq!(set_pixels(&cpu), vec![]);
}

#[test]
fn a_program_counter_outside_memory_is_out_of_range() {
    let mut cpu = cpu_with(&[0x1F, 0xFF]);
    assert_eq!(cpu.execute_next_instruction(), Ok(()));
    assert_eq!(cpu.get_pc(), 0xFFF);
    assert!(!cpu.can_fetch());
    assert_eq!(cpu.execute_next_instruction(), Err(Halt::OutOfRange));
    assert_eq!(cpu.execute_instruction(Instruction::new(0x61, 0x01)), Err(Halt::OutOfRange));
    assert_eq!(cpu.execute_next_instruction_with(0), Err(Halt::OutOfRange));
    assert_eq!(cpu.get_register(1), 0);
    assert_eq!(cpu.get_pc(), 0xFFF);
}

#[test]
fn the_last_instruction_in_memory_can_run() {
    let mut rom = vec![0; 4096 - 512];
    rom[0] = 0x1F;
    rom[1] = 0xFE;
    rom[0xFFE - 0x200] = 0x61;
    rom[0xFFF - 0x200] = 0x07;
    let mut cpu = cpu_with(&rom);
    assert_eq!(cpu.execute_next_instruction(), Ok(()));
    assert_eq!(cpu.get_pc(), 0xFFE);
    assert!(cpu.can_fetch());
    assert_eq!(cpu.next_instruction(), Instruction::new(0x61, 0x07));
    assert_eq!(cpu.execute_next_instruction(), Ok(()));
    assert_eq!(cpu.get_register(1), 7);
    assert_eq!(cpu.get_pc(), 0x1000);
    assert_eq!(cpu.execute_next_instruction(), Err(Halt::OutOfRange));
}

#[test]
fn a_tick_of_the_host_runs_eight_instructions() {
    let mut rom = Vec::new();
    for _ in 0..40 {
        rom.extend_from_slice(&[0x70, 0x01]);
    }
    let mut cpu = cpu_with(&rom);
    run(&mut cpu, 0x61, 0x05).unwrap();
    run(&mut cpu, 0xF1, 0x15).unwrap();
    run(&mut cpu, 0xF1, 0x18).unwrap();
    assert_eq!(cpu.cycle_60hz(), Ok(()));
    assert_eq!(cpu.get_register(0), 8);
    assert_eq!(cpu.get_pc(), 512 + 16);
    assert_eq!((cpu.get_delay(), cpu.sound), (4, 4));
    assert_eq!(cpu.cycle_60hz(), Ok(()));
    assert_eq!(cpu.get_register(0), 16);
    assert_eq!((cpu.get_delay(), cpu.sound), (3, 3));
    cpu.set_clock_rate_hz(1000);
    assert_eq!(cpu.cycle_60hz(), Ok(()));
    assert_eq!(cpu.get_register(0), 32);
    cpu.set_clock_rate_hz(59);
    assert_eq!(cpu.cycle_60hz(), Ok(()));
    assert_eq!(cpu.get_register(0), 32);
    assert_eq!((cpu.get_delay(), cpu.sound), (1, 1));
}

#[test]
fn a_tick_of_the_host_ends_at_a_stop() {
    let mut cpu = cpu_with(&[0x70, 0x01, 0x70, 0x01, 0x00, 0xFD, 0x70, 0x01]);
    run(&mut cpu, 0x61, 0x05).unwrap();
    run(&mut cpu, 0xF1, 0x15).unwrap();
    assert_eq!(cpu.cycle_60hz(), Err(Halt::Exit));
    assert_eq!(cpu.get_register(0), 2);
    assert_eq!(cpu.get_pc(), 516);
    assert_eq!(cpu.get_delay(), 4);
    assert_eq!(cpu.cycle_60hz(), Err(Halt::Exit));
    assert_eq!(cpu.get_register(0), 2);
    assert_eq!(cpu.get_delay(), 3);
}

#[test]
fn one_period_runs_one_instruction() {
    let mut rom = Vec::new();
    for _ in 0..40 {
        rom.extend_from_slice(&[0x70, 0x01]);
    }
    let mut cpu = cpu_with(&rom);
    assert_eq!(cpu.cycle_at(1_999_999), Ok(()));
    assert_eq!(cpu.get_register(0), 0);
    assert_eq!(cpu.cycle_at(2_000_000), Ok(()));
    assert_eq!(cpu.get_register(0), 1);
    assert_eq!(cpu.get_pc(), 514);
    assert_eq!(cpu.cycle_at(3_999_999), Ok(()));
    assert_eq!(cpu.get_register(0), 1);
    assert_eq!(cpu.cycle_at(4_000_000), Ok(()));
    assert_eq!(cpu.get_register(0), 2);
}

#[test]
fn one_sixtieth_of_a_second_makes_one_tick() {
    let mut rom = vec![0x61, 0x0A, 0xF1, 0x15, 0xF1, 0x18];
    for _ in 0..40 {
        rom.extend_from_slice(&[0x70, 0x01]);
    }
    let mut cpu = cpu_with(&rom);
    for _ in 0..3 {
        assert_eq!(cpu.execute_next_instruction(), Ok(()));
    }
    assert_eq!((cpu.get_delay(), cpu.sound), (10, 10));
    assert_eq!(cpu.cycle_at(16_666_667), Ok(()));
    assert_eq!((cpu.get_delay(), cpu.sound), (9, 9));
    assert_eq!(cpu.get_register(0), 8);
    assert_eq!(cpu.cycle_at(33_333_332), Ok(()));
    assert_eq!((cpu.get_delay(), cpu.sound), (9, 9));
    assert_eq!(cpu.get_register(0), 16);
    assert_eq!(cpu.cycle_at(33_333_333), Ok(()));
    assert_eq!((cpu.get_delay(), cpu.sound), (8, 8));
    assert_eq!(cpu.get_register(0), 16);
}

#[test]
fn ticks_come_before_instructions() {
    let mut cpu = cpu_with(&[0x61, 0x0A, 0xF1, 0x15, 0x12, 0x04]);
    assert_eq!(cpu.cycle_at(50_000_000), Ok(()));
    assert_eq!(cpu.get_delay(), 10);
    assert_eq!(cpu.get_pc(), 0x204);
    assert_eq!(cpu.cycle_at(100_000_000), Ok(()));
    assert_eq!(cpu.get_delay(), 7);
}

#[test]
fn a_long_gap_is_caught_up_and_its_rest_dropped() {
    let mut rom = Vec::new();
    for _ in 0..100 {
        rom.extend_from_slice(&[0x70, 0x01]);
    }
    let mut cpu = cpu_with(&rom);
    assert_eq!(cpu.cycle_at(101_000_000), Ok(()));
    assert_eq!(cpu.get_register(0), 50);
    assert_eq!(cpu.cycle_at(102_000_000), Ok(()));
    assert_eq!(cpu.get_register(0), 50);
    assert_eq!(cpu.cycle_at(103_000_000), Ok(()));
    assert_eq!(cpu.get_register(0), 51);
}

#[test]
fn catching_up_ends_at_a_stop() {
    let mut cpu = cpu_with(&[0x70, 0x01, 0x00, 0x00, 0x70, 0x01]);
    assert_eq!(cpu.cycle_at(10_000_000), Err(Halt::Freeze));
    assert_eq!(cpu.get_register(0), 1);
    assert_eq!(cpu.get_pc(), 514);
    assert_eq!(cpu.cycle_at(11_000_000), Ok(()));
    assert_eq!(cpu.cycle_at(12_000_000), Err(Halt::Freeze));
}

#[test]
fn a_time_that_runs_backwards_has_nothing_due() {
    let mut cpu = cpu_with(&[0x70, 0x01, 0x70, 0x01, 0x70, 0x01]);
    assert_eq!(cpu.cycle_at(2_000_000), Ok(()));
    assert_eq!(cpu.cycle_at(0), Ok(()));
    assert_eq!(cpu.cycle_at(1_000_000), Ok(()));
    assert_eq!(cpu.get_register(0), 1);
}

#[test]
fn the_clock_rate_can_be_set_and_changed() {
    let mut cpu = cpu_with(&[]);
    assert_eq!(cpu.get_clock_rate_hz(), 500);
    cpu.set_clock_rate_hz(1000);
    assert_eq!(cpu.get_clock_rate_hz(), 1000);
    cpu.inc_clock_rate_hz(10);
    assert_eq!(cpu.get_clock_rate_hz(), 1010);
    cpu.inc_clock_rate_hz(-10);
    assert_eq!(cpu.get_clock_rate_hz(), 1000);
    cpu.inc_clock_rate_hz(-940);
    assert_eq!(cpu.get_clock_rate_hz(), 60);
    cpu.inc_clock_rate_hz(-1);
    assert_eq!(cpu.get_clock_rate_hz(), 60);
    cpu.inc_clock_rate_hz(i32::MIN);
    assert_eq!(cpu.get_clock_rate_hz(), 60);
    cpu.inc_clock_rate_hz(0);
    assert_eq!(cpu.get_clock_rate_hz(), 60);
    cpu.inc_clock_rate_hz(1_000_000_000 - 60);
    assert_eq!(cpu.get_clock_rate_hz(), 1_000_000_000);
    cpu.set_clock_rate_hz(1);
    assert_eq!(cpu.get_clock_rate_hz(), 1);
    cpu.inc_clock_rate_hz(58);
    assert_eq!(cpu.get_clock_rate_hz(), 1);
    cpu.inc_clock_rate_hz(59);
    assert_eq!(cpu.get_clock_rate_hz(), 60);
}

#[test]
fn a_new_clock_rate_changes_the_period() {
    let mut rom = Vec::new();
    for _ in 0..40 {
        rom.extend_from_slice(&[0x70, 0x01]);
    }
    let mut cpu = cpu_with(&rom);
    cpu.set_clock_rate_hz(1000);
    assert_eq!(cpu.cycle_at(999_999), Ok(()));
    assert_eq!(cpu.get_register(0), 0);
    assert_eq!(cpu.cycle_at(3_000_000), Ok(()));
    assert_eq!(cpu.get_register(0), 3);
}

#[test]
fn reset_restarts_the_program() {
    let mut cpu = cpu_with(&[0x22, 0x02, 0x61, 0x07, 0xA1, 0x23, 0xF1, 0x15, 0xF1, 0x18, 0xF1, 0x75, 0xF1, 0x55, 0xF0, 0x0A]);
    cpu.toggle_key(Key::K2, true);
    for _ in 0..8 {
        assert_eq!(cpu.execute_next_instruction(), Ok(()));
    }
    cpu.display.set_pixel(3, 3, 1);
    cpu.set_clock_rate_hz(700);
    assert_eq!(cpu.keyboard.wait_state(), KeyWait::Waiting);
    assert_eq!(cpu.get_stack_depth(), 1);
    let ram = memory(&cpu);
    assert_eq!(ram[0x123..0x125], [0, 7]);
    cpu.reset();
    assert_eq!(cpu.get_pc(), 512);
    assert_eq!(cpu.get_address(), 0);
    assert_eq!(registers(&cpu), vec![0; 16]);
    assert_eq!((cpu.get_delay(), cpu.sound), (0, 0));
    assert_eq!(cpu.get_stack_depth(), 0);
    assert_eq!(cpu.keyboard.wait_state(), KeyWait::Idle);
    assert_eq!(set_pixels(&cpu), vec![]);
    assert!(!cpu.display.hires());
    assert_eq!(memory(&cpu), ram);
    assert_eq!(cpu.get_flag_register(0), 0);
    assert_eq!(cpu.get_flag_register(1), 7);
    assert!(cpu.keyboard.key_pressed(2));
    assert_eq!(cpu.get_clock_rate_hz(), 700);
    assert_eq!(cpu.next_instruction(), Instruction::new(0x22, 0x02));
}

#[test]
fn reset_leaves_high_resolution() {
    let mut cpu = cpu_with(&[0x00, 0xFF]);
    assert_eq!(cpu.execute_next_instruction(), Ok(()));
    cpu.display.set_pixel(100, 50, 1);
    assert_eq!(cpu.display.get_scale(), 4);
    cpu.reset();
    assert!(!cpu.display.hires());
    assert_eq!(cpu.display.width(), 64);
    assert_eq!(cpu.display.height(), 32);
    assert_eq!(cpu.display.get_scale(), 8);
    assert_eq!(set_pixels(&cpu), vec![]);
}

#[test]
fn reset_sets_the_clocks_back() {
    let mut rom = Vec::new();
    for _ in 0..40 {
        rom.extend_from_slice(&[0x70, 0x01]);
    }
    let mut cpu = cpu_with(&rom);
    assert_eq!(cpu.cycle_at(10_000_000), Ok(()));
    assert_eq!(cpu.get_register(0), 5);
    cpu.reset();
    assert_eq!(cpu.cycle_at(4_000_000), Ok(()));
    assert_eq!(cpu.get_register(0), 2);
}

#[test]
fn the_clock_drives_a_program_that_loops() {
    let mut cpu = cpu_with(&[0x12, 0x00]);
    for _ in 0..5 {
        assert_eq!(cpu.cycle(), Ok(()));
        assert_eq!(cpu.get_pc(), 512);
    }
    cpu.reset();
    assert_eq!(cpu.cycle(), Ok(()));
    assert_eq!(cpu.get_pc(), 512);
}

#[test]
fn the_clock_stops_at_a_fault() {
    let mut cpu = cpu_with(&[0x00, 0xEE]);
    let mut outcome = cpu.cycle();
    while outcome == Ok(()) {
        outcome = cpu.cycle();
    }
    assert_eq!(outcome, Err(Halt::StackUnderflow));
    assert_eq!(cpu.get_pc(), 512);
}
