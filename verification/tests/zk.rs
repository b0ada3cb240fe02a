use zkvm16::bus::BusDevice;
use zkvm16::error::VMError;
use zkvm16::field::{field_from_be_bytes, FieldElement};
use zkvm16::memory::LinearMemory;
use zkvm16::utils::{build_simple_program, load_program};
use zkvm16::vm::VM;
use zkvm16::zk::ZkContext;

fn run_traced_vm() -> VM<LinearMemory> {
    let program = build_simple_program();
    let mut memory = LinearMemory::new(5000);
    load_program(&mut memory, &program);
    let mut vm = VM::new();
    vm.set_memory(memory);
    vm.enable_trace();
    vm.enable_zk_output();
    while !vm.halted {
        vm.tick().unwrap();
    }
    vm
}

#[test]
fn test_reduction_never_reaches_modulus() {
    // Reducing the all-ones digest (2^256 - 1) yields a canonical field
    // element strictly below the modulus.
    let digest = vec![0xFFu8; 32];
    let fe = field_from_be_bytes(&digest);
    assert_eq!(
        fe.limbs_vec(),
        vec![
            0xac96341c4ffffffa,
            0x36fc76959f60cd29,
            0x666ea36f7879462e,
            0x0e0a77c19a07df2f,
        ]
    );
    assert!(fe.check_canonical());
}

#[test]
fn test_reduction_of_small_digest_is_identity() {
    // A digest below the modulus reduces to itself.
    let mut digest = vec![0u8; 32];
    digest[31] = 9;
    let fe = field_from_be_bytes(&digest);
    assert_eq!(fe.limbs_vec(), vec![9, 0, 0, 0]);
}

#[test]
fn test_field_zero() {
    assert_eq!(FieldElement::zero().limbs_vec(), vec![0, 0, 0, 0]);
}

#[test]
fn test_program_commitment_value() {
    // The private program commitment is the SHA-256 digest of the
    // serialized program words, reduced modulo the field modulus. The
    // limbs below pin the whole serialize-hash-reduce chain.
    let mut zk = ZkContext::new();
    assert_eq!(zk.private_program_sha254.limbs_vec(), vec![0, 0, 0, 0]);
    zk.set_public_program(build_simple_program()).unwrap();
    assert_eq!(
        zk.private_program_sha254.limbs_vec(),
        vec![
            0x257171479ce97590,
            0xd2d4e9a52b97e1c5,
            0x3b7c6acbc0715ea4,
            0x18f70b694c4bffea,
        ]
    );
    // The public value is the algebraic hash of the private one, not the
    // private value handed back unchanged.
    assert_ne!(
        zk.public_program_hash.limbs_vec(),
        zk.private_program_sha254.limbs_vec()
    );
}

#[test]
fn test_commitments_are_reproducible() {
    // Two independent runs of the identical program with tracing and
    // commitments enabled produce identical public and private sequences.
    let vm1 = run_traced_vm();
    let vm2 = run_traced_vm();

    assert_eq!(vm1.trace_buffer.len(), 7);
    assert_eq!(vm1.public_program_state.len(), 7);
    assert_eq!(vm1.private_program_state.len(), 7);
    assert_eq!(vm1.public_program_state.len(), vm2.public_program_state.len());
    assert_eq!(
        vm1.private_program_state.len(),
        vm2.private_program_state.len()
    );
    for i in 0..vm1.public_program_state.len() {
        assert_eq!(
            vm1.public_program_state[i].limbs_vec(),
            vm2.public_program_state[i].limbs_vec()
        );
        assert_eq!(
            vm1.private_program_state[i].limbs_vec(),
            vm2.private_program_state[i].limbs_vec()
        );
        // The algebraic hash moved every value.
        assert_ne!(
            vm1.public_program_state[i].limbs_vec(),
            vm1.private_program_state[i].limbs_vec()
        );
    }

    // The output commitment of the end state is reproducible too.
    let mut zk1 = ZkContext::new();
    let mut zk2 = ZkContext::new();
    zk1.set_public_output(&vm1.registers, &vm1.memory).unwrap();
    zk2.set_public_output(&vm2.registers, &vm2.memory).unwrap();
    assert_eq!(
        zk1.public_output_hash.limbs_vec(),
        zk2.public_output_hash.limbs_vec()
    );
    assert_eq!(
        zk1.private_output_sha254.limbs_vec(),
        zk2.private_output_sha254.limbs_vec()
    );
    assert_ne!(zk1.private_output_sha254.limbs_vec(), vec![0, 0, 0, 0]);
}

#[test]
fn test_pad_program_state() {
    let mut vm = run_traced_vm();
    let steps = vm.public_program_state.len();

    // Absent capacity is a configuration error.
    assert_eq!(vm.pad_program_state(None), Err(VMError::ConfigError));
    // A capacity below the number of real steps is a configuration error.
    assert_eq!(
        vm.pad_program_state(Some(steps - 1)),
        Err(VMError::ConfigError)
    );
    assert_eq!(vm.public_program_state.len(), steps);

    // Otherwise both sequences are zero-padded to the capacity.
    vm.pad_program_state(Some(steps + 3)).unwrap();
    assert_eq!(vm.public_program_state.len(), steps + 3);
    assert_eq!(vm.private_program_state.len(), steps + 3);
    for i in steps..steps + 3 {
        assert_eq!(vm.public_program_state[i].limbs_vec(), vec![0, 0, 0, 0]);
        assert_eq!(vm.private_program_state[i].limbs_vec(), vec![0, 0, 0, 0]);
    }
}

#[test]
fn test_trace_survives_halt() {
    // The run's trace remains inspectable after the machine halts.
    let vm = run_traced_vm();
    assert!(vm.halted);
    assert_eq!(vm.trace_buffer.len(), 7);
    assert_eq!(vm.trace_buffer[0].pc, 0x100);
    assert_eq!(vm.trace_buffer[6].pc, 0x10C);
}
