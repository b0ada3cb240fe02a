use vstd::prelude::*;

use crate::bus::{write16_mem, BusDevice};
use crate::constants::START_ADDRESS;
use crate::vm::{dst_bits, imm_bits, opcode_bits, src_bits};

verus! {

/// An instruction word packed from its four fields, each masked to its low
/// four bits first: wider inputs are truncated by design, not rejected.
pub open spec fn encode_instruction(opcode: u8, dest: u8, source: u8, immediate: u8) -> u16 {
    (((opcode & 0xF) as u16) << 12) | (((dest & 0xF) as u16) << 8) | (((source & 0xF) as u16)
        << 4) | ((immediate & 0xF) as u16)
}

/// Packs an opcode and three 4-bit operand fields into one instruction
/// word; each field is masked to its low four bits before packing.
pub fn instruction_builder(opcode: u8, dest: u8, source: u8, immediate: u8) -> (r: u16)
    ensures
        r == encode_instruction(opcode, dest, source, immediate),
{
    let opcode = (opcode & 0xF) as u16;
    let dest = (dest & 0xF) as u16;
    let source = (source & 0xF) as u16;
    let immediate = (immediate & 0xF) as u16;
    (opcode << 12) | (dest << 8) | (source << 4) | immediate
}

/// Decoding an encoded instruction recovers the four original fields
/// exactly, whenever each input already fits in four bits; wider inputs
/// are truncated by the encoder, so the round trip is lossy only then.
pub proof fn lemma_encode_decode_roundtrip(opcode: u8, dest: u8, source: u8, immediate: u8)
    requires
        opcode <= 15,
        dest <= 15,
        source <= 15,
        immediate <= 15,
    ensures
        opcode_bits(encode_instruction(opcode, dest, source, immediate)) == opcode,
        dst_bits(encode_instruction(opcode, dest, source, immediate)) == dest,
        src_bits(encode_instruction(opcode, dest, source, immediate)) == source,
        imm_bits(encode_instruction(opcode, dest, source, immediate)) == immediate,
{
    assert(((((((opcode & 0xF) as u16) << 12) | (((dest & 0xF) as u16) << 8) | (((source & 0xF) as u16) << 4) | ((immediate & 0xF) as u16)) >> 12) as u8) == opcode) by (bit_vector)
        requires
            opcode <= 15,
    ;
    assert((((((((opcode & 0xF) as u16) << 12) | (((dest & 0xF) as u16) << 8) | (((source & 0xF) as u16) << 4) | ((immediate & 0xF) as u16)) & 0x0F00) >> 8) as u8) == dest) by (bit_vector)
        requires
            dest <= 15,
    ;
    assert((((((((opcode & 0xF) as u16) << 12) | (((dest & 0xF) as u16) << 8) | (((source & 0xF) as u16) << 4) | ((immediate & 0xF) as u16)) & 0x00F0) >> 4) as u8) == source) by (bit_vector)
        requires
            source <= 15,
    ;
    assert((((((opcode & 0xF) as u16) << 12) | (((dest & 0xF) as u16) << 8) | (((source & 0xF) as u16) << 4) | ((immediate & 0xF) as u16)) & 0x000F) == immediate as u16) by (bit_vector)
        requires
            immediate <= 15,
    ;
}

/// The demonstration program: place 5 in the immediate register and copy
/// it to the first general register, place 3 and copy it to the second,
/// add them, and store the sum at the fixed output address. The zeroed
/// memory that follows acts as the halt instruction.
pub open spec fn simple_program() -> Seq<u16> {
    seq![
        encode_instruction(0x05, 0x09, 0x00, 0x05),
        encode_instruction(0x01, 0x00, 0x09, 0x00),
        encode_instruction(0x05, 0x09, 0x00, 0x03),
        encode_instruction(0x01, 0x01, 0x09, 0x00),
        encode_instruction(0x04, 0x00, 0x01, 0x00),
        encode_instruction(0x06, 0x00, 0x00, 0x00),
    ]
}

/// Builds the demonstration program.
pub fn build_simple_program() -> (r: Vec<u16>)
    ensures
        r@ == simple_program(),
{
    let load_imm_ix_rim = instruction_builder(0x05, 0x09, 0x00, 0x05);
    let copy_ix_r0 = instruction_builder(0x01, 0x00, 0x09, 0x00);
    let load_imm_ix_rim2 = instruction_builder(0x05, 0x09, 0x00, 0x03);
    let copy_ix_r1 = instruction_builder(0x01, 0x01, 0x09, 0x00);
    let add_ix = instruction_builder(0x04, 0x00, 0x01, 0x00);
    let store_out = instruction_builder(0x06, 0x00, 0x00, 0x00);

    let mut program: Vec<u16> = Vec::new();
    program.push(load_imm_ix_rim);
    program.push(copy_ix_r0);
    program.push(load_imm_ix_rim2);
    program.push(copy_ix_r1);
    program.push(add_ix);
    program.push(store_out);
    proof {
        assert(program@ =~= simple_program());
    }
    program
}

/// Memory after writing the program words at the load origin, two bytes
/// apart, in order; each write has the two-byte bus semantics.
pub open spec fn load_program_mem(mem: Seq<u8>, words: Seq<u16>) -> Seq<u8>
    decreases words.len(),
{
    if words.len() == 0 {
        mem
    } else {
        write16_mem(
            load_program_mem(mem, words.drop_last()),
            (START_ADDRESS + 2 * (words.len() - 1)) as u16,
            words.last(),
        )
    }
}

/// Writes the program into memory at the load origin, two bytes per word;
/// out-of-range writes leave their bytes unwritten, as on the bus.
pub fn load_program<M: BusDevice>(memory: &mut M, program: &Vec<u16>)
    requires
        program@.len() <= 0x7F80,
    ensures
        final(memory).bytes() == load_program_mem(old(memory).bytes(), program@),
{
    let mut i: usize = 0;
    while i < program.len()
        invariant
            i <= program@.len(),
            program@.len() <= 0x7F80,
            memory.bytes() == load_program_mem(old(memory).bytes(), program@.take(i as int)),
        decreases program@.len() - i,
    {
        let address_to_write: u16 = START_ADDRESS + 2 * (i as u16);
        let _ = memory.write2(address_to_write, program[i]);
        proof {
            assert(program@.take(i as int + 1).drop_last() =~= program@.take(i as int));
        }
        i = i + 1;
    }
    proof {
        assert(program@.take(program@.len() as int) =~= program@);
    }
}

} // verus!
