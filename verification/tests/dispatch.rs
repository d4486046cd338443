use lc3_vm::dispatch::run;
use lc3_vm::dispatch::step;
use lc3_vm::dispatch::Progress;
use lc3_vm::image::read_image;
use lc3_vm::instructions::Conds;
use lc3_vm::memory::Context;
use lc3_vm::memory::Registers;
use lc3_vm::memory::PC_START;
use lc3_vm::traps::deliver;
use lc3_vm::traps::Effect;
use lc3_vm::traps::MachineError;
use lc3_vm::traps::Signal;

fn loaded(origin: u16, words: &[u16]) -> Context {
    let mut image = vec![(origin >> 8) as u8, origin as u8];
    for word in words {
        image.push((word >> 8) as u8);
        image.push(*word as u8);
    }
    let mut context = Context::new();
    assert_eq!(read_image(&mut context.Memory, &image), Ok(image.len() as u32));
    context.Reg[Registers::RPC.index()] = PC_START;
    context
}

fn pc_of(context: &Context) -> u16 {
    context.Reg[Registers::RPC.index()]
}

#[test]
fn halt_scenario() {
    let mut context = loaded(0x3000, &[0xF025]);
    let progress = run(&mut context, 1000);
    assert_eq!(progress.cycles, 1);
    assert_eq!(
        progress.outcome,
        Ok(Effect { signal: Signal::Halt, output: b"\nProgram Halted\n".to_vec() })
    );
    assert_eq!(pc_of(&context), 0x3001);
}

#[test]
fn opcode_zero_stops_the_machine() {
    let mut context = Context::new();
    context.Reg[Registers::RPC.index()] = PC_START;
    context.Reg[Registers::RCOND.index()] = Conds::FL_ZRO.mask();
    context.Memory[0x3000] = 0x0FFF;
    assert_eq!(step(&mut context), Ok(Effect { signal: Signal::Halt, output: vec![] }));
    assert_eq!(pc_of(&context), 0x3001);
}

#[test]
fn a_run_through_empty_memory_stops_at_once() {
    let mut context = Context::new();
    context.Reg[Registers::RPC.index()] = PC_START;
    let progress = run(&mut context, u64::MAX);
    assert_eq!(
        progress,
        Progress { cycles: 1, outcome: Ok(Effect { signal: Signal::Halt, output: vec![] }) }
    );
}

#[test]
fn step_moves_the_program_counter_before_the_instruction_runs() {
    let mut context = loaded(0x3000, &[0xE002, 0x0000, 0x0000]);
    assert_eq!(step(&mut context), Ok(Effect::quiet()));
    assert_eq!(context.Reg[Registers::R0.index()], 0x3003);
    assert_eq!(pc_of(&context), 0x3001);
}

#[test]
fn the_program_counter_wraps_around() {
    let mut context = Context::new();
    context.Memory[0xFFFF] = 0x1021;
    context.Reg[Registers::RPC.index()] = 0xFFFF;
    assert_eq!(step(&mut context), Ok(Effect::quiet()));
    assert_eq!(pc_of(&context), 0x0000);
    assert_eq!(context.Reg[Registers::R0.index()], 1);
}

#[test]
fn a_call_leaves_the_address_after_the_call_in_r7() {
    let mut context = loaded(0x3000, &[0x4810]);
    assert_eq!(step(&mut context), Ok(Effect::quiet()));
    assert_eq!(context.Reg[Registers::R7.index()], 0x3001);
    assert_eq!(pc_of(&context), 0x3011);
}

#[test]
fn a_call_through_a_register_leaves_the_address_after_the_call_in_r7() {
    let mut context = loaded(0x3000, &[0x4080]);
    context.Reg[Registers::R2.index()] = 0x5000;
    assert_eq!(step(&mut context), Ok(Effect::quiet()));
    assert_eq!(context.Reg[Registers::R7.index()], 0x3001);
    assert_eq!(pc_of(&context), 0x5000);
}

#[test]
fn an_invalid_trap_vector_is_fatal() {
    let mut context = loaded(0x3000, &[0x1021, 0xF0FF, 0x1021]);
    let progress = run(&mut context, 1000);
    assert_eq!(progress.cycles, 2);
    assert_eq!(progress.outcome, Err(MachineError::InvalidTrapVector { vector: 0xFF }));
    assert_eq!(pc_of(&context), 0x3002);
    assert_eq!(context.Reg[Registers::R0.index()], 1);
}

#[test]
fn reserved_opcodes_are_skipped() {
    let mut context = loaded(0x3000, &[0x8000, 0xD000, 0x1025, 0xF025]);
    let progress = run(&mut context, 1000);
    assert_eq!(progress.cycles, 4);
    assert_eq!(context.Reg[Registers::R0.index()], 5);
    assert!(matches!(progress.outcome, Ok(Effect { signal: Signal::Halt, .. })));
}

#[test]
fn a_run_stops_when_the_budget_is_spent() {
    let mut context = loaded(0x3000, &[0xE3FF, 0x1021, 0xC040]);
    let progress = run(&mut context, 10);
    assert_eq!(progress, Progress { cycles: 10, outcome: Ok(Effect::quiet()) });
    assert_eq!(context.Reg[Registers::R0.index()], 3);
    assert_eq!(pc_of(&context), 0x3001);
    let more = run(&mut context, 5);
    assert_eq!(more.cycles, 5);
    assert_eq!(context.Reg[Registers::R0.index()], 5);
}

#[test]
fn a_run_with_no_budget_does_nothing() {
    let mut context = loaded(0x3000, &[0x1021, 0xF025]);
    let before = context.clone();
    let progress = run(&mut context, 0);
    assert_eq!(progress, Progress { cycles: 0, outcome: Ok(Effect::quiet()) });
    assert!(context == before);
}

#[test]
fn a_run_returns_at_each_output() {
    let mut context = loaded(0x3000, &[0xE002, 0xF022, 0xF025, 0x0048, 0x0069, 0x0000]);
    let first = run(&mut context, 1000);
    assert_eq!(first.cycles, 2);
    assert_eq!(first.outcome, Ok(Effect { signal: Signal::Continue, output: b"Hi".to_vec() }));
    let second = run(&mut context, 1000);
    assert_eq!(second.cycles, 1);
    assert_eq!(
        second.outcome,
        Ok(Effect { signal: Signal::Halt, output: b"\nProgram Halted\n".to_vec() })
    );
}

#[test]
fn a_program_reads_a_character_and_writes_it_back() {
    let mut context = loaded(0x3000, &[0xF020, 0x1021, 0xF021, 0xF025]);
    let asked = run(&mut context, 1000);
    assert_eq!(asked.cycles, 1);
    assert_eq!(asked.outcome, Ok(Effect { signal: Signal::Read { echo: false }, output: vec![] }));
    assert_eq!(deliver(&mut context, Some(b'a'), false), Vec::<u8>::new());
    let wrote = run(&mut context, 1000);
    assert_eq!(wrote.cycles, 2);
    assert_eq!(wrote.outcome, Ok(Effect { signal: Signal::Continue, output: vec![b'b'] }));
    let halted = run(&mut context, 1000);
    assert_eq!(halted.cycles, 1);
    assert!(matches!(halted.outcome, Ok(Effect { signal: Signal::Halt, .. })));
}

#[test]
fn a_program_prompts_for_a_character() {
    let mut context = loaded(0x3000, &[0xF023, 0xF025]);
    let asked = run(&mut context, 1000);
    assert_eq!(asked.cycles, 1);
    assert_eq!(
        asked.outcome,
        Ok(Effect { signal: Signal::Read { echo: true }, output: b"Enter Character\n".to_vec() })
    );
    assert_eq!(deliver(&mut context, None, true), vec![0xFF, b'\n']);
    assert_eq!(context.Reg[Registers::R0.index()], 0x00FF);
}

#[test]
fn a_countdown_loop_runs_to_its_end() {
    // R0 = 5; loop: R1 += R0; R0 -= 1; BRp is opcode zero and cannot be used, so the
    // loop jumps through a register while R0 is positive.
    let program = [
        0x5020, // AND R0, R0, #0
        0x1025, // ADD R0, R0, #5
        0x5260, // AND R1, R1, #0
        0xE401, // LEA R2, #1      (R2 = 0x3005, the loop head)
        0xE604, // LEA R3, #4      (R3 = 0x3009, the exit)
        0x1240, // ADD R1, R1, R0
        0x103F, // ADD R0, R0, #-1
        0xC080, // JMP R2
        0x0000,
        0xF025, // HALT
    ];
    let mut context = loaded(0x3000, &program);
    let progress = run(&mut context, 13);
    assert_eq!(progress.cycles, 13);
    assert_eq!(context.Reg[Registers::R1.index()], 5 + 4 + 3);
    assert_eq!(context.Reg[Registers::R0.index()], 2);
    assert_eq!(context.Reg[Registers::R3.index()], 0x3009);
}
