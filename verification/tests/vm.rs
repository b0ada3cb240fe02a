use zkvm16::bus::BusDevice;
use zkvm16::constants::START_ADDRESS;
use zkvm16::error::VMError;
use zkvm16::memory::LinearMemory;
use zkvm16::register::RegisterId;
use zkvm16::utils::{build_simple_program, instruction_builder, load_program};
use zkvm16::vm::{Opcode, VM};

#[test]
fn test_vm_initialization() {
    let vm = VM::new();
    assert_eq!(vm.halted, false);
    assert_eq!(vm.trace_enabled, false);
    assert_eq!(vm.trace_buffer.len(), 0);
}

#[test]
fn test_set_memory() {
    let mut vm = VM::new();
    let dummy = LinearMemory::new(1024);
    vm.set_memory(dummy);
    assert_eq!(vm.memory.memory_range(), 1024);
}

#[test]
fn test_enable_trace() {
    let mut vm = VM::new();
    vm.enable_trace();
    assert!(vm.trace_enabled);
}

#[test]
fn test_tick_halted() {
    let mut vm = VM::new();
    vm.halted = true;
    let result = vm.tick();
    assert!(result.is_err());
    assert_eq!(result, Err(VMError::Halted));
}

#[test]
fn test_execute_instruction_dispatch_with_halt() {
    let mut vm = VM::new();
    let dummy = LinearMemory::new(1024);
    vm.set_memory(dummy);
    // Write a HALT instruction at address 0
    let halt_opcode: u16 = 0 << 12;
    vm.memory.write2(0, halt_opcode).unwrap();
    // Set PC to 0
    vm.registers
        .set_register_value(RegisterId::RPC.id(), 0)
        .unwrap();
    let result = vm.tick();
    assert!(vm.halted);
    assert!(result.is_ok());
}

#[test]
fn text_execute_instruction_registers_and_pc() {
    let program = build_simple_program();
    let mut vm = VM::new();

    let mut memory = LinearMemory::new(5000);
    load_program(&mut memory, &program);

    vm.set_memory(memory);
    let mut step = 0;
    let expected_pcs: Vec<u16> = vec![258, 260, 262, 264, 266, 268, 270];
    let expected_registers = vec![
        // Step 0
        [0, 0, 0, 0, 0, 258, 0, 0, 22789, 5],
        // Step 1
        [5, 0, 0, 0, 0, 260, 0, 0, 4240, 5],
        // Step 2
        [5, 0, 0, 0, 0, 262, 0, 0, 22787, 3],
        // Step 3
        [5, 3, 0, 0, 0, 264, 0, 0, 4496, 3],
        // Step 4
        [8, 3, 0, 0, 0, 266, 0, 0, 16400, 3],
        [8, 3, 0, 0, 0, 268, 0, 0, 24576, 3],
        [8, 3, 0, 0, 0, 270, 0, 0, 0, 3],
    ];
    let expected_mem = vec![4240, 22787, 4496, 16400, 24576, 0, 0];

    while !vm.halted {
        if let Err(e) = vm.tick() {
            println!("Vm error: {}", e.message());
            break;
        } else {
            // Test rpc step
            let rpc = vm
                .registers
                .get_register_read_only(RegisterId::RPC.id())
                .unwrap();
            assert_eq!(rpc.value, expected_pcs[step]);

            // test memory at location
            let mem = vm.memory.get_specific_memory_location(rpc.value as usize);
            assert_eq!(mem, expected_mem[step]);

            // Test register value at each step
            let actual: Vec<u16> = (0u8..10u8)
                .map(|i| vm.registers.get_register_read_only(i).unwrap().value)
                .collect();
            assert_eq!(actual, expected_registers[step]);

            step += 1;
        }
    }
    assert_eq!(step, 7);
}

#[test]
fn test_end_to_end_five_ticks() {
    // Load immediate 5 into an accumulator, load immediate 3 into a
    // second register, add them, store to the fixed output address, halt:
    // the output address holds 8 and the machine halts after exactly
    // five ticks.
    let rim = RegisterId::RIM.id();
    let program = vec![
        instruction_builder(0x01, 0x00, rim, 0x05),
        instruction_builder(0x01, 0x01, rim, 0x03),
        instruction_builder(0x04, 0x00, 0x01, 0x00),
        instruction_builder(0x06, 0x00, 0x00, 0x00),
        instruction_builder(0x00, 0x00, 0x00, 0x00),
    ];
    let mut memory = LinearMemory::new(5000);
    load_program(&mut memory, &program);
    let mut vm = VM::new();
    vm.set_memory(memory);

    let mut ticks = 0;
    while !vm.halted {
        vm.tick().unwrap();
        ticks += 1;
    }
    assert_eq!(ticks, 5);
    assert_eq!(vm.memory.read2(START_ADDRESS), Some(8));
}

#[test]
fn test_halt_program_halts_after_one_tick() {
    // A program consisting solely of a HALT instruction at the origin:
    // one tick halts the machine, and only the program counter and the
    // instruction register change.
    let mut memory = LinearMemory::new(5000);
    load_program(&mut memory, &vec![0u16]);
    let mut vm = VM::new();
    vm.set_memory(memory);

    let before: Vec<u16> = (0u8..10u8)
        .map(|i| vm.registers.get_register_read_only(i).unwrap().value)
        .collect();
    assert!(vm.tick().is_ok());
    assert!(vm.halted);
    let after: Vec<u16> = (0u8..10u8)
        .map(|i| vm.registers.get_register_read_only(i).unwrap().value)
        .collect();
    for i in 0..10usize {
        if i == RegisterId::RPC.id() as usize {
            assert_eq!(after[i], before[i] + 2);
        } else if i == RegisterId::RIR.id() as usize {
            assert_eq!(after[i], 0);
        } else {
            assert_eq!(after[i], before[i]);
        }
    }
    assert_eq!(vm.tick(), Err(VMError::Halted));
}

#[test]
fn test_add_overflow_is_fatal() {
    let mut vm = VM::new();
    vm.set_memory(LinearMemory::new(1024));
    vm.registers.set_register_value(0, 0xFFFF).unwrap();
    vm.registers.set_register_value(1, 1).unwrap();
    // ADD with destination R0 and source R1
    let add_word = instruction_builder(0x04, 0x00, 0x01, 0x00);
    let result = vm.execute_instruction(add_word);
    assert_eq!(result, Err(VMError::Overflow));
    // no wrapped result was written
    let r0 = vm.registers.get_register_read_only(0).unwrap().value;
    assert_eq!(r0, 0xFFFF);
}

#[test]
fn test_unknown_opcode_is_error() {
    let mut vm = VM::new();
    vm.set_memory(LinearMemory::new(1024));
    assert_eq!(
        vm.execute_instruction(0x7000),
        Err(VMError::OpcodeDoesNotExist)
    );
    assert!(Opcode::try_from(9).is_err());
    assert_eq!(Opcode::try_from(6).unwrap(), Opcode::STORE_OUT);
    assert_eq!(Opcode::try_from(0).unwrap().id(), 0);
}

#[test]
fn test_unknown_register_is_error() {
    let mut vm = VM::new();
    vm.set_memory(LinearMemory::new(1024));
    // COPY with destination field 10: no such register
    assert_eq!(
        vm.execute_instruction(0x1A00),
        Err(VMError::UnknownRegister)
    );
}

#[test]
fn test_fetch_failure_halts_machine() {
    // The fresh machine has an empty memory, so the first fetch fails.
    let mut vm = VM::new();
    assert_eq!(vm.tick(), Err(VMError::MemoryReadError));
    assert!(vm.halted);
}

#[test]
fn test_zero_immediate_keeps_register_contents() {
    // A zero immediate nibble leaves the immediate register untouched,
    // while a nonzero one overwrites it before use.
    let mut vm = VM::new();
    vm.set_memory(LinearMemory::new(1024));
    let rim = RegisterId::RIM.id();
    // LOAD_IMM with immediate 5 places 5 into the immediate register.
    let load5 = instruction_builder(0x05, rim, 0x00, 0x05);
    vm.execute_instruction(load5).unwrap();
    assert_eq!(vm.registers.get_register_read_only(rim).unwrap().value, 5);
    // LOAD_IMM with immediate 0 leaves the prior contents in place.
    let load0 = instruction_builder(0x05, rim, 0x00, 0x00);
    vm.execute_instruction(load0).unwrap();
    assert_eq!(vm.registers.get_register_read_only(rim).unwrap().value, 5);
}

#[test]
fn test_trace_entry_records_decoded_fields() {
    // Decoding the encoding of (opcode, dest, source, imm) reproduces the
    // four original fields; the trace entry records them.
    let word = instruction_builder(0x01, 0x07, 0x02, 0x09);
    let mut memory = LinearMemory::new(5000);
    load_program(&mut memory, &vec![word, 0u16]);
    let mut vm = VM::new();
    vm.set_memory(memory);
    vm.enable_trace();
    vm.tick().unwrap();
    assert_eq!(vm.trace_buffer.len(), 1);
    let entry = &vm.trace_buffer[0];
    assert_eq!(entry.pc, START_ADDRESS);
    assert_eq!(entry.opcode, Opcode::COPY);
    assert_eq!(entry.dst, 0x07);
    assert_eq!(entry.src, 0x02);
    assert_eq!(entry.imm, 0x09);
    assert_eq!(entry.registers.len(), 10);
}

#[test]
fn test_instruction_builder_masks_fields() {
    // Fields wider than four bits are truncated by design.
    assert_eq!(
        instruction_builder(0x15, 0x16, 0x10, 0x25),
        instruction_builder(0x05, 0x06, 0x00, 0x05)
    );
    assert_eq!(instruction_builder(0x05, 0x06, 0x00, 0x05), 22021);
}

#[test]
fn test_load_reads_memory_through_register() {
    let mut vm = VM::new();
    vm.set_memory(LinearMemory::new(1024));
    vm.memory.write2(0x200, 0xABCD).unwrap();
    vm.registers.set_register_value(1, 0x200).unwrap();
    // LOAD with destination R0 and address in R1
    let load_word = instruction_builder(0x02, 0x00, 0x01, 0x00);
    vm.execute_instruction(load_word).unwrap();
    assert_eq!(vm.registers.get_register_read_only(0).unwrap().value, 0xABCD);
    assert!(!vm.halted);
    // A load from an unreadable address halts the machine.
    vm.registers.set_register_value(1, 2000).unwrap();
    vm.execute_instruction(load_word).unwrap();
    assert!(vm.halted);
}

#[test]
fn test_write_stores_register_to_memory() {
    let mut vm = VM::new();
    vm.set_memory(LinearMemory::new(1024));
    vm.registers.set_register_value(1, 0x5E77).unwrap();
    vm.registers.set_register_value(2, 0x300).unwrap();
    // WRITE with address in destination R2 and value in source R1
    let write_word = instruction_builder(0x03, 0x02, 0x01, 0x00);
    vm.execute_instruction(write_word).unwrap();
    assert_eq!(vm.memory.read2(0x300), Some(0x5E77));
    assert!(!vm.halted);
    // A write to an unaddressable location halts the machine.
    vm.registers.set_register_value(2, 2000).unwrap();
    vm.execute_instruction(write_word).unwrap();
    assert!(vm.halted);
}

#[test]
fn test_error_messages() {
    assert_eq!(VMError::UnknownRegister.message(), "Unknown Register");
    assert_eq!(
        VMError::OutOfBounds.message(),
        "Memory access is out of bounds"
    );
    assert_eq!(VMError::Halted.message(), "Cannot use a Halted machine");
    assert_eq!(VMError::MemoryReadError.message(), "Memory read failed");
    assert_eq!(VMError::ConfigError.message(), "Else");
}
