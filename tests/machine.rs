use rum::rumdis::{get, op, ra, rb, rc, rl, vl};
use rum::rumload::load;
use rum::um::{
    opcode0, opcode10, opcode11, opcode12, opcode13, opcode2, opcode3, opcode4, opcode5,
    opcode6, opcode8, opcode9, Event, Fault, VM,
};

fn standard(opcode: u32, a: u32, b: u32, c: u32) -> u32 {
    (opcode << 28) | (a << 6) | (b << 3) | c
}

fn load_imm(r: u32, v: u32) -> u32 {
    (13 << 28) | (r << 25) | v
}

const HALT: u32 = 0x7000_0000;

/// Runs `program` to completion, feeding `input` to opcode 11, and returns
/// the bytes emitted together with how the run ended.
fn run(program: Vec<u32>, input: &[u8]) -> (Vec<u8>, Result<VM, Fault>) {
    let mut vm = VM::new(program);
    let mut out = Vec::new();
    let mut pos = 0;
    for _ in 0..100_000 {
        match vm.step() {
            Ok(Event::Continue) => {}
            Ok(Event::Halt) => return (out, Ok(vm)),
            Ok(Event::Output(byte)) => out.push(byte),
            Ok(Event::Input(c)) => {
                let byte = input.get(pos).copied();
                pos += 1;
                opcode11(&mut vm, c, byte);
            }
            Err(f) => return (out, Err(f)),
        }
    }
    panic!("program did not stop");
}

#[test]
fn halt_only() {
    let (out, r) = run(vec![0x7000_0000], &[]);
    assert!(out.is_empty());
    assert!(r.is_ok());
}

#[test]
fn load_immediate_then_halt() {
    let (out, r) = run(vec![0xD200_0041, 0x7000_0000], &[]);
    assert!(out.is_empty());
    let vm = r.unwrap();
    assert_eq!(vm.register(1), 65);
    assert_eq!(vm.program_counter(), 1);
}

#[test]
fn emit_letter_a() {
    let (out, r) = run(vec![0xD200_0041, 0xA000_0001, 0x7000_0000], &[]);
    assert_eq!(out, vec![0x41]);
    assert!(r.is_ok());
}

#[test]
fn add_and_emit_three() {
    let program = vec![
        load_imm(1, 0x19),
        load_imm(2, 0x1A),
        standard(3, 3, 1, 2),
        standard(10, 0, 0, 3),
        HALT,
    ];
    let (out, r) = run(program, &[]);
    assert_eq!(out, vec![0x33]);
    assert!(r.is_ok());
}

#[test]
fn map_store_load_output() {
    let program = vec![
        load_imm(1, 1),
        standard(8, 0, 2, 1),
        load_imm(3, 0x42),
        load_imm(4, 0),
        standard(2, 2, 4, 3),
        standard(1, 5, 2, 4),
        standard(10, 0, 0, 5),
        HALT,
    ];
    let (out, r) = run(program, &[]);
    assert_eq!(out, vec![0x42]);
    let vm = r.unwrap();
    assert_ne!(vm.register(2), 0);
}

#[test]
fn program_load_loop() {
    let program = vec![
        load_imm(1, 2),
        standard(8, 0, 2, 1),
        load_imm(4, 16384),
        standard(4, 4, 4, 4),
        load_imm(3, 12),
        standard(4, 3, 3, 4),
        load_imm(5, 7),
        standard(4, 5, 5, 4),
        load_imm(6, 0),
        standard(2, 2, 6, 3),
        load_imm(6, 1),
        standard(2, 2, 6, 5),
        load_imm(7, 1),
        standard(12, 0, 2, 7),
    ];
    let (out, r) = run(program, &[]);
    assert!(out.is_empty());
    let vm = r.unwrap();
    assert_eq!(vm.segment_len(0), 2);
    assert_eq!(vm.segment_word(0, 0), 0xC000_0000);
    assert_eq!(vm.segment_word(0, 1), HALT);
    assert_eq!(vm.program_counter(), 1);
}

#[test]
fn decode_fault() {
    let (out, r) = run(vec![0xF000_0000], &[]);
    assert!(out.is_empty());
    assert_eq!(r.err(), Some(Fault::InvalidOpcode));
}

#[test]
fn opcode_fourteen_is_a_decode_fault() {
    let (_, r) = run(vec![0xE000_0000], &[]);
    assert_eq!(r.err(), Some(Fault::InvalidOpcode));
}

#[test]
fn division_by_zero_faults() {
    let (_, r) = run(vec![load_imm(1, 5), standard(5, 2, 1, 0), HALT], &[]);
    assert_eq!(r.err(), Some(Fault::DivisionByZero));
}

#[test]
fn unmap_of_segment_zero_faults() {
    let (_, r) = run(vec![standard(9, 0, 0, 0), HALT], &[]);
    assert_eq!(r.err(), Some(Fault::IllegalUnmap));
}

#[test]
fn unmap_twice_faults() {
    let program = vec![
        load_imm(1, 1),
        standard(8, 0, 2, 1),
        standard(9, 0, 0, 2),
        standard(9, 0, 0, 2),
        HALT,
    ];
    let (_, r) = run(program, &[]);
    assert_eq!(r.err(), Some(Fault::IllegalUnmap));
}

#[test]
fn unmap_of_never_mapped_identifier_faults() {
    let (_, r) = run(vec![load_imm(1, 3), standard(9, 0, 0, 1), HALT], &[]);
    assert_eq!(r.err(), Some(Fault::IllegalUnmap));
}

#[test]
fn output_of_256_faults() {
    let (out, r) = run(vec![load_imm(1, 256), standard(10, 0, 0, 1), HALT], &[]);
    assert!(out.is_empty());
    assert_eq!(r.err(), Some(Fault::OutputRange));
}

#[test]
fn empty_program_is_a_program_counter_fault() {
    let (_, r) = run(vec![], &[]);
    assert_eq!(r.err(), Some(Fault::ProgramCounter));
}

#[test]
fn running_off_the_end_is_a_program_counter_fault() {
    let (_, r) = run(vec![load_imm(1, 1)], &[]);
    assert_eq!(r.err(), Some(Fault::ProgramCounter));
}

#[test]
fn load_from_unmapped_segment_faults() {
    let (_, r) = run(vec![load_imm(1, 5), standard(1, 2, 1, 0), HALT], &[]);
    assert_eq!(r.err(), Some(Fault::IllegalAccess));
}

#[test]
fn store_past_segment_end_faults() {
    let program = vec![
        load_imm(1, 1),
        standard(8, 0, 2, 1),
        standard(2, 2, 1, 1),
        HALT,
    ];
    let (_, r) = run(program, &[]);
    assert_eq!(r.err(), Some(Fault::IllegalAccess));
}

#[test]
fn load_program_from_unmapped_segment_faults() {
    let (_, r) = run(vec![load_imm(1, 4), standard(12, 0, 1, 0), HALT], &[]);
    assert_eq!(r.err(), Some(Fault::IllegalAccess));
}

#[test]
fn fault_leaves_state_unchanged() {
    let mut vm = VM::new(vec![load_imm(1, 9), standard(5, 2, 1, 0)]);
    assert_eq!(vm.step(), Ok(Event::Continue));
    assert_eq!(vm.step(), Err(Fault::DivisionByZero));
    assert_eq!(vm.program_counter(), 1);
    assert_eq!(vm.register(1), 9);
    assert_eq!(vm.register(2), 0);
}

#[test]
fn input_then_end_of_input() {
    let program = vec![
        standard(11, 0, 0, 1),
        standard(11, 0, 0, 2),
        standard(10, 0, 0, 1),
        HALT,
    ];
    let (out, r) = run(program, b"A");
    assert_eq!(out, vec![b'A']);
    let vm = r.unwrap();
    assert_eq!(vm.register(1), 65);
    assert_eq!(vm.register(2), 0xFFFF_FFFF);
}

#[test]
fn echo_three_bytes() {
    let mut program = Vec::new();
    for _ in 0..3 {
        program.push(standard(11, 0, 0, 1));
        program.push(standard(10, 0, 0, 1));
    }
    program.push(HALT);
    let (out, r) = run(program, b"xyz");
    assert_eq!(out, b"xyz".to_vec());
    assert!(r.is_ok());
}

#[test]
fn registers_start_at_zero_and_stay_eight() {
    let (_, r) = run(vec![load_imm(7, 0x1FF_FFFF), HALT], &[]);
    let vm = r.unwrap();
    for i in 0..7 {
        assert_eq!(vm.register(i), 0);
    }
    assert_eq!(vm.register(7), 0x1FF_FFFF);
}

#[test]
fn segment_zero_stays_mapped() {
    let program = vec![
        load_imm(1, 3),
        standard(8, 0, 2, 1),
        standard(9, 0, 0, 2),
        HALT,
    ];
    let (_, r) = run(program, &[]);
    let vm = r.unwrap();
    assert!(vm.segment_is_mapped(0));
    assert!(!vm.segment_is_mapped(1));
    assert_eq!(vm.segment_len(0), 4);
}

#[test]
fn fresh_segment_is_zero_filled() {
    let mut vm = VM::new(vec![HALT]);
    opcode13(&mut vm, 1, 5);
    opcode8(&mut vm, 2, 1);
    let id = vm.register(2);
    assert_ne!(id, 0);
    assert_eq!(vm.segment_len(id), 5);
    for i in 0..5 {
        assert_eq!(vm.segment_word(id, i), 0);
    }
}

#[test]
fn fresh_segment_after_reuse_is_zero_filled() {
    let mut vm = VM::new(vec![HALT]);
    opcode13(&mut vm, 1, 2);
    opcode8(&mut vm, 2, 1);
    let id = vm.register(2);
    opcode13(&mut vm, 3, 77);
    opcode13(&mut vm, 4, 1);
    opcode2(&mut vm, 2, 4, 3);
    assert_eq!(vm.segment_word(id, 1), 77);
    opcode9(&mut vm, 2);
    opcode8(&mut vm, 5, 1);
    assert_eq!(vm.register(5), id);
    assert_eq!(vm.segment_word(id, 1), 0);
}

#[test]
fn unmapped_identifier_is_reused() {
    let mut vm = VM::new(vec![HALT]);
    opcode13(&mut vm, 1, 1);
    opcode8(&mut vm, 2, 1);
    opcode8(&mut vm, 3, 1);
    let first = vm.register(2);
    let second = vm.register(3);
    assert_ne!(first, second);
    opcode9(&mut vm, 2);
    assert!(!vm.segment_is_mapped(first));
    opcode8(&mut vm, 4, 1);
    assert_eq!(vm.register(4), first);
    assert!(vm.segment_is_mapped(first));
}

#[test]
fn addition_wraps() {
    let mut vm = VM::new(vec![HALT]);
    opcode6(&mut vm, 1, 0, 0);
    assert_eq!(vm.register(1), 0xFFFF_FFFF);
    opcode13(&mut vm, 2, 2);
    opcode3(&mut vm, 3, 1, 2);
    assert_eq!(vm.register(3), 1);
    opcode13(&mut vm, 4, 25);
    opcode13(&mut vm, 5, 26);
    opcode3(&mut vm, 6, 4, 5);
    assert_eq!(vm.register(6), 51);
}

#[test]
fn multiplication_wraps() {
    let mut vm = VM::new(vec![HALT]);
    opcode13(&mut vm, 1, 0x1_0000);
    opcode4(&mut vm, 2, 1, 1);
    assert_eq!(vm.register(2), 0);
    opcode13(&mut vm, 3, 0x1_0001);
    opcode4(&mut vm, 4, 3, 3);
    assert_eq!(vm.register(4), 0x2_0001);
    opcode13(&mut vm, 5, 6);
    opcode13(&mut vm, 6, 7);
    opcode4(&mut vm, 7, 5, 6);
    assert_eq!(vm.register(7), 42);
}

#[test]
fn division_truncates() {
    let mut vm = VM::new(vec![HALT]);
    opcode13(&mut vm, 1, 17);
    opcode13(&mut vm, 2, 5);
    opcode5(&mut vm, 3, 1, 2);
    assert_eq!(vm.register(3), 3);
}

#[test]
fn nand_of_self_is_not() {
    let mut vm = VM::new(vec![HALT]);
    opcode13(&mut vm, 1, 0x0F0F);
    opcode6(&mut vm, 2, 1, 1);
    assert_eq!(vm.register(2), !0x0F0Fu32);
    opcode13(&mut vm, 3, 0x00FF);
    opcode6(&mut vm, 4, 1, 3);
    opcode6(&mut vm, 5, 4, 4);
    assert_eq!(vm.register(5), 0x0F0F & 0x00FF);
    opcode6(&mut vm, 6, 3, 3);
    opcode6(&mut vm, 7, 2, 6);
    assert_eq!(vm.register(7), 0x0F0F | 0x00FF);
}

#[test]
fn conditional_move() {
    let mut vm = VM::new(vec![HALT]);
    opcode13(&mut vm, 1, 11);
    opcode0(&mut vm, 2, 1, 0);
    assert_eq!(vm.register(2), 0);
    opcode13(&mut vm, 3, 1);
    opcode0(&mut vm, 2, 1, 3);
    assert_eq!(vm.register(2), 11);
}

#[test]
fn load_immediate_range() {
    let mut vm = VM::new(vec![load_imm(3, 0x1FF_FFFF), HALT]);
    assert_eq!(vm.step(), Ok(Event::Continue));
    assert_eq!(vm.register(3), 0x1FF_FFFF);
    let mut vm = VM::new(vec![0xFFFF_FFFF & !(2 << 28), HALT]);
    assert_eq!(vm.step(), Ok(Event::Continue));
    assert_eq!(vm.register(7), 0x1FF_FFFF);
}

#[test]
fn jump_keeps_program() {
    let program = vec![load_imm(1, 3), standard(12, 0, 0, 1), HALT, HALT];
    let mut vm = VM::new(program.clone());
    assert_eq!(vm.step(), Ok(Event::Continue));
    assert_eq!(vm.step(), Ok(Event::Continue));
    assert_eq!(vm.program_counter(), 3);
    assert_eq!(vm.segment_len(0), 4);
    for (i, w) in program.iter().enumerate() {
        assert_eq!(vm.segment_word(0, i), *w);
    }
}

#[test]
fn clone_is_independent() {
    let mut vm = VM::new(vec![HALT]);
    opcode13(&mut vm, 1, 2);
    opcode8(&mut vm, 2, 1);
    let k = vm.register(2);
    opcode13(&mut vm, 3, 99);
    opcode2(&mut vm, 2, 0, 3);
    opcode12(&mut vm, 2, 0);
    assert_eq!(vm.segment_word(0, 0), 99);
    opcode13(&mut vm, 4, 1234);
    opcode2(&mut vm, 2, 0, 4);
    assert_eq!(vm.segment_word(k, 0), 1234);
    assert_eq!(vm.segment_word(0, 0), 99);
    assert_eq!(vm.program_counter(), 0);
}

#[test]
fn output_value_range() {
    let mut vm = VM::new(vec![HALT]);
    opcode13(&mut vm, 1, 255);
    opcode13(&mut vm, 2, 256);
    assert_eq!(opcode10(&vm, 1), Ok(255));
    assert_eq!(opcode10(&vm, 2), Err(Fault::OutputRange));
    assert_eq!(opcode10(&vm, 0), Ok(0));
}

#[test]
fn input_sets_register() {
    let mut vm = VM::new(vec![HALT]);
    opcode11(&mut vm, 4, Some(200));
    assert_eq!(vm.register(4), 200);
    opcode11(&mut vm, 4, None);
    assert_eq!(vm.register(4), u32::MAX);
}

#[test]
fn decoder_fields() {
    let w = 0xD200_0041;
    assert_eq!(op(w), 13);
    assert_eq!(get(&rl(), w), 1);
    assert_eq!(get(&vl(), w), 65);
    let s = standard(3, 5, 6, 7) | 0x0ABC_DE00;
    assert_eq!(op(s), 3);
    assert_eq!(get(&ra(), s), 5);
    assert_eq!(get(&rb(), s), 6);
    assert_eq!(get(&rc(), s), 7);
    assert_eq!(op(0xFFFF_FFFF), 15);
}

#[test]
fn loader_big_endian() {
    let words = load(&[0x70, 0, 0, 0, 0xD2, 0x00, 0x00, 0x41]).unwrap();
    assert_eq!(words, vec![0x7000_0000, 0xD200_0041]);
    assert_eq!(load(&[1, 2, 3, 4]).unwrap(), vec![0x0102_0304]);
}

#[test]
fn loader_rejects_partial_word() {
    assert_eq!(load(&[1, 2, 3]), None);
    assert_eq!(load(&[1, 2, 3, 4, 5]), None);
}

#[test]
fn loader_empty() {
    assert_eq!(load(&[]), Some(vec![]));
}
