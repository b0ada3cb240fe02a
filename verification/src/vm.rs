use vstd::prelude::*;

use crate::bus::{read16_spec, word_at, write16_mem, write16_ok, BusDevice};
use crate::constants::{START_ADDRESS, VMWord};
use crate::error::VMError;
use crate::field::FieldElement;
use crate::memory::LinearMemory;
use crate::register::{Register, RegisterBank, RegisterId, NUM_REGS};
use crate::zk::{
    commit_private, commit_public, concat_bytes, u16_le_bytes, u16_vec_bytes, views_of, Sha256Hash,
    ZkContext,
};

verus! {

/// The VM configuration.
pub struct Config {}

/// The opcode bits of an instruction word (bits 15-12).
pub open spec fn opcode_bits(w: u16) -> u8 {
    (w >> 12) as u8
}

/// The destination-field bits of an instruction word (bits 11-8).
pub open spec fn dst_bits(w: u16) -> u8 {
    ((w & 0x0F00) >> 8) as u8
}

/// The source-field bits of an instruction word (bits 7-4).
pub open spec fn src_bits(w: u16) -> u8 {
    ((w & 0x00F0) >> 4) as u8
}

/// The immediate nibble of an instruction word (bits 3-0).
pub open spec fn imm_bits(w: u16) -> u16 {
    w & 0x000F
}

/// The instruction set: each opcode is one task the machine knows how to
/// perform.
#[derive(Debug, Copy, Clone, PartialEq, Eq, Structural)]
#[allow(non_camel_case_types)]
pub enum Opcode {
    HALT,
    COPY,
    LOAD,
    WRITE,
    ADD,
    LOAD_IMM,
    STORE_OUT,
}

impl Opcode {
    /// The numeric id of the opcode.
    pub open spec fn spec_id(&self) -> u8 {
        match self {
            Opcode::HALT => 0,
            Opcode::COPY => 1,
            Opcode::LOAD => 2,
            Opcode::WRITE => 3,
            Opcode::ADD => 4,
            Opcode::LOAD_IMM => 5,
            Opcode::STORE_OUT => 6,
        }
    }

    #[verifier::when_used_as_spec(spec_id)]
    pub fn id(&self) -> (r: u8)
        ensures
            r == self.spec_id(),
    {
        match self {
            Opcode::HALT => 0,
            Opcode::COPY => 1,
            Opcode::LOAD => 2,
            Opcode::WRITE => 3,
            Opcode::ADD => 4,
            Opcode::LOAD_IMM => 5,
            Opcode::STORE_OUT => 6,
        }
    }

    /// The opcode a raw 4-bit value names, if any.
    pub open spec fn spec_from(value: u8) -> Option<Opcode> {
        if value == 0 {
            Some(Opcode::HALT)
        } else if value == 1 {
            Some(Opcode::COPY)
        } else if value == 2 {
            Some(Opcode::LOAD)
        } else if value == 3 {
            Some(Opcode::WRITE)
        } else if value == 4 {
            Some(Opcode::ADD)
        } else if value == 5 {
            Some(Opcode::LOAD_IMM)
        } else if value == 6 {
            Some(Opcode::STORE_OUT)
        } else {
            None
        }
    }

    /// Maps a raw value to its opcode; any unmapped value is an error.
    pub fn try_from(value: u8) -> (r: Result<Opcode, VMError>)
        ensures
            Self::spec_from(value) matches Some(op) ==> r == Ok::<Opcode, VMError>(op),
            Self::spec_from(value) is None ==> r == Err::<Opcode, VMError>(
                VMError::OpcodeDoesNotExist,
            ),
    {
        match value {
            0 => Ok(Opcode::HALT),
            1 => Ok(Opcode::COPY),
            2 => Ok(Opcode::LOAD),
            3 => Ok(Opcode::WRITE),
            4 => Ok(Opcode::ADD),
            5 => Ok(Opcode::LOAD_IMM),
            6 => Ok(Opcode::STORE_OUT),
            _ => Err(VMError::OpcodeDoesNotExist),
        }
    }
}

/// One recorded snapshot of machine state, taken for one executed
/// instruction: the program counter at fetch time, the decoded fields, and
/// a full copy of the register values at the moment of the snapshot.
#[derive(Debug)]
pub struct TraceEntry {
    pub pc: VMWord,
    pub opcode: Opcode,
    pub dst: u8,
    pub src: u8,
    pub imm: VMWord,
    pub registers: Vec<u16>,
}

impl TraceEntry {
    pub fn new(
        pc: VMWord,
        opcode: Opcode,
        dst: u8,
        src: u8,
        imm: VMWord,
        registers: Vec<u16>,
    ) -> (r: Self)
        ensures
            r.pc == pc,
            r.opcode == opcode,
            r.dst == dst,
            r.src == src,
            r.imm == imm,
            r.registers == registers,
    {
        Self { pc, opcode, dst, src, imm, registers }
    }
}

/// The mathematical state of the machine: register values, memory bytes,
/// and the halted flag.
#[verifier::ext_equal]
pub struct MachineState {
    pub regs: Seq<u16>,
    pub mem: Seq<u8>,
    pub halted: bool,
}

/// Register values after resolving one operand field: if the field names
/// the immediate register and the immediate nibble is nonzero, that
/// register takes the nibble; otherwise nothing changes.
pub open spec fn resolve_regs(regs: Seq<u16>, field: u8, imm: u16) -> Seq<u16> {
    if field == RegisterId::RIM.spec_id() && imm != 0 {
        regs.update(field as int, imm)
    } else {
        regs
    }
}

/// The effect of dispatching one decoded opcode on the machine state,
/// given the resolved destination and source registers. `d` is the
/// destination register id, `dv` and `sv` the resolved values.
pub open spec fn spec_dispatch(s: MachineState, op: Opcode, d: u8, dv: u16, sv: u16) -> (
    MachineState,
    Result<(), VMError>,
) {
    match op {
        Opcode::HALT => (MachineState { halted: true, ..s }, Ok(())),
        Opcode::COPY => (MachineState { regs: s.regs.update(d as int, sv), ..s }, Ok(())),
        Opcode::LOAD => match read16_spec(s.mem, sv) {
            Some(v) => (MachineState { regs: s.regs.update(d as int, v), ..s }, Ok(())),
            None => (MachineState { halted: true, ..s }, Ok(())),
        },
        Opcode::WRITE => (
            MachineState {
                mem: write16_mem(s.mem, dv, sv),
                halted: s.halted || !write16_ok(s.mem, dv),
                ..s
            },
            Ok(()),
        ),
        Opcode::ADD => if sv + dv > 0xFFFF {
            (s, Err(VMError::Overflow))
        } else {
            (MachineState { regs: s.regs.update(d as int, (sv + dv) as u16), ..s }, Ok(()))
        },
        Opcode::LOAD_IMM => (s, Ok(())),
        Opcode::STORE_OUT => (
            MachineState {
                mem: write16_mem(s.mem, START_ADDRESS, sv),
                halted: s.halted || !write16_ok(s.mem, START_ADDRESS),
                ..s
            },
            Ok(()),
        ),
    }
}

/// The effect of executing one instruction word: decode, resolve the two
/// operand fields, dispatch. Errors leave the state as it was at the point
/// of failure.
pub open spec fn spec_execute(s: MachineState, instruction: u16) -> (
    MachineState,
    Result<(), VMError>,
) {
    let d = dst_bits(instruction);
    let sr = src_bits(instruction);
    let imm = imm_bits(instruction);
    match Opcode::spec_from(opcode_bits(instruction)) {
        None => (s, Err(VMError::OpcodeDoesNotExist)),
        Some(op) => {
            let regs1 = resolve_regs(s.regs, d, imm);
            if (d as usize) >= NUM_REGS {
                (s, Err(VMError::UnknownRegister))
            } else {
                let regs2 = resolve_regs(regs1, sr, imm);
                if (sr as usize) >= NUM_REGS {
                    (MachineState { regs: regs1, ..s }, Err(VMError::UnknownRegister))
                } else {
                    spec_dispatch(
                        MachineState { regs: regs2, ..s },
                        op,
                        d,
                        regs2[d as int],
                        regs2[sr as int],
                    )
                }
            }
        },
    }
}

/// The effect of one tick: fetch at the program counter, store the word
/// into the instruction register, advance the program counter, execute.
/// A tick on a halted machine is an error without side effects; every
/// other error halts the machine.
pub open spec fn spec_tick(s: MachineState) -> (MachineState, Result<(), VMError>) {
    if s.halted {
        (s, Err(VMError::Halted))
    } else {
        let a = s.regs[RegisterId::RPC.spec_id() as int];
        if read16_spec(s.mem, a) is None {
            (MachineState { halted: true, ..s }, Err(VMError::MemoryReadError))
        } else {
            let w = word_at(s.mem, a as int);
            let regs1 = s.regs.update(RegisterId::RIR.spec_id() as int, w);
            if a + 2 > 0xFFFF {
                (MachineState { regs: regs1, halted: true, ..s }, Err(VMError::Overflow))
            } else {
                let s2 = MachineState {
                    regs: regs1.update(RegisterId::RPC.spec_id() as int, (a + 2) as u16),
                    ..s
                };
                let t = spec_execute(s2, w);
                if t.1 is Ok {
                    t
                } else {
                    (MachineState { halted: true, ..t.0 }, t.1)
                }
            }
        }
    }
}

/// Whether executing `w` reaches the halt operation: the word decodes to
/// the halt opcode and both operand fields name known registers.
pub open spec fn exec_reaches_halt(w: u16) -> bool {
    &&& Opcode::spec_from(opcode_bits(w)) == Some(Opcode::HALT)
    &&& (dst_bits(w) as usize) < NUM_REGS
    &&& (src_bits(w) as usize) < NUM_REGS
}

/// Whether a tick from state `s` fetches a word and reaches the halt
/// operation.
pub open spec fn tick_reaches_halt(s: MachineState) -> bool {
    &&& !s.halted
    &&& read16_spec(s.mem, s.regs[RegisterId::RPC.spec_id() as int]) is Some
    &&& s.regs[RegisterId::RPC.spec_id() as int] + 2 <= 0xFFFF
    &&& exec_reaches_halt(word_at(s.mem, s.regs[RegisterId::RPC.spec_id() as int] as int))
}

/// Whether a tick from state `s` appends a trace entry when tracing is
/// enabled: the fetch and the program-counter advance succeed and the
/// opcode is known.
pub open spec fn tick_traces(s: MachineState, trace_enabled: bool) -> bool {
    &&& !s.halted
    &&& trace_enabled
    &&& read16_spec(s.mem, s.regs[RegisterId::RPC.spec_id() as int]) is Some
    &&& s.regs[RegisterId::RPC.spec_id() as int] + 2 <= 0xFFFF
    &&& Opcode::spec_from(
        opcode_bits(word_at(s.mem, s.regs[RegisterId::RPC.spec_id() as int] as int)),
    ) is Some
}

/// Whether `e` is the trace entry a tick from state `s` records: the
/// fetch-time program counter, the decoded fields, and the register
/// values after the instruction register and program counter updates.
pub open spec fn entry_matches(e: TraceEntry, s: MachineState) -> bool {
    let a = s.regs[RegisterId::RPC.spec_id() as int];
    let w = word_at(s.mem, a as int);
    &&& e.pc == a
    &&& Opcode::spec_from(opcode_bits(w)) == Some(e.opcode)
    &&& e.dst == dst_bits(w)
    &&& e.src == src_bits(w)
    &&& e.imm == imm_bits(w)
    &&& e.registers@ == s.regs.update(RegisterId::RIR.spec_id() as int, w).update(
        RegisterId::RPC.spec_id() as int,
        (a + 2) as u16,
    )
}

/// The preimage of one step's commitment: the memory word at the entry's
/// program counter, the register snapshot, the program counter itself and
/// the opcode id, each serialized, in this order.
pub open spec fn step_preimage(e: TraceEntry, mem: Seq<u8>) -> Seq<u8> {
    u16_le_bytes(word_at(mem, e.pc as int)) + u16_vec_bytes(e.registers@) + u16_le_bytes(e.pc)
        + u16_le_bytes(e.opcode.spec_id() as u16)
}

/// Whether every trace entry's program-counter word is addressable in the
/// given memory.
pub open spec fn trace_in_range(trace: Seq<TraceEntry>, mem: Seq<u8>) -> bool {
    forall|i: int| 0 <= i < trace.len() ==> (#[trigger] trace[i]).pc + 1 < mem.len()
}

/// The private commitments of all recorded steps, in execution order.
pub open spec fn spec_private_states(trace: Seq<TraceEntry>, mem: Seq<u8>) -> Seq<Seq<u64>> {
    Seq::new(trace.len(), |i: int| commit_private(step_preimage(trace[i], mem)))
}

/// The public commitments of all recorded steps, in execution order.
pub open spec fn spec_public_states(trace: Seq<TraceEntry>, mem: Seq<u8>) -> Seq<Seq<u64>> {
    Seq::new(trace.len(), |i: int| commit_public(step_preimage(trace[i], mem)))
}

/// The limb views of a sequence of field elements.
pub open spec fn fe_views(s: Seq<FieldElement>) -> Seq<Seq<u64>> {
    s.map_values(|f: FieldElement| f@)
}

/// The core instruction-set operations. Each method is invoked in
/// response to one opcode, with the resolved source and destination
/// registers.
pub trait VMOperations {
    /// The machine state the operations act on.
    spec fn op_state(&self) -> MachineState;

    /// Whether per-step commitments are produced at halt.
    spec fn op_zk_enabled(&self) -> bool;

    /// Whether trace entries are recorded.
    spec fn op_trace_enabled(&self) -> bool;

    /// The recorded trace.
    spec fn op_trace(&self) -> Seq<TraceEntry>;

    /// The public per-step commitments produced so far.
    spec fn op_public_states(&self) -> Seq<Seq<u64>>;

    /// The private per-step commitments produced so far.
    spec fn op_private_states(&self) -> Seq<Seq<u64>>;

    /// Halts the machine; with commitments enabled, first reduces the
    /// recorded trace into the per-step commitment sequences.
    fn halt(&mut self, source_reg: Register, destination_reg: Register) -> (r: Result<
        (),
        VMError,
    >)
        ensures
            r == Ok::<(), VMError>(()),
            final(self).op_state() == (MachineState { halted: true, ..old(self).op_state() }),
            final(self).op_trace() == old(self).op_trace(),
            final(self).op_zk_enabled() == old(self).op_zk_enabled(),
            final(self).op_trace_enabled() == old(self).op_trace_enabled(),
            old(self).op_zk_enabled() && trace_in_range(
                old(self).op_trace(),
                old(self).op_state().mem,
            ) ==> final(self).op_public_states() == spec_public_states(
                old(self).op_trace(),
                old(self).op_state().mem,
            ) && final(self).op_private_states() == spec_private_states(
                old(self).op_trace(),
                old(self).op_state().mem,
            ),
            !(old(self).op_zk_enabled() && trace_in_range(
                old(self).op_trace(),
                old(self).op_state().mem,
            )) ==> final(self).op_public_states() == old(self).op_public_states() && final(self).op_private_states() == old(self).op_private_states(),
    ;

    /// Writes the source register's value to memory at the address held
    /// in the destination register; a failed write halts the machine.
    fn write(&mut self, source_reg: Register, destination_reg: Register) -> (r: Result<
        (),
        VMError,
    >)
        ensures
            r == Ok::<(), VMError>(()),
            final(self).op_state() == (MachineState {
                mem: write16_mem(
                    old(self).op_state().mem,
                    destination_reg.value,
                    source_reg.value,
                ),
                halted: old(self).op_state().halted || !write16_ok(
                    old(self).op_state().mem,
                    destination_reg.value,
                ),
                ..old(self).op_state()
            }),
            final(self).op_trace() == old(self).op_trace(),
            final(self).op_zk_enabled() == old(self).op_zk_enabled(),
            final(self).op_trace_enabled() == old(self).op_trace_enabled(),
            final(self).op_public_states() == old(self).op_public_states(),
            final(self).op_private_states() == old(self).op_private_states(),
    ;

    /// Copies the source register's value into the destination register.
    fn copy(&mut self, source_reg: Register, destination_reg: Register) -> (r: Result<
        (),
        VMError,
    >)
        ensures
            r == Ok::<(), VMError>(()),
            final(self).op_state() == (MachineState {
                regs: old(self).op_state().regs.update(
                    destination_reg.id.spec_id() as int,
                    source_reg.value,
                ),
                ..old(self).op_state()
            }),
            final(self).op_trace() == old(self).op_trace(),
            final(self).op_zk_enabled() == old(self).op_zk_enabled(),
            final(self).op_trace_enabled() == old(self).op_trace_enabled(),
            final(self).op_public_states() == old(self).op_public_states(),
            final(self).op_private_states() == old(self).op_private_states(),
    ;

    /// Adds the two register values into the destination register;
    /// overflow is a fatal error, not a wrapped result.
    fn add(&mut self, source_reg: Register, destination_reg: Register) -> (r: Result<
        (),
        VMError,
    >)
        ensures
            source_reg.value + destination_reg.value > 0xFFFF ==> r == Err::<(), VMError>(
                VMError::Overflow,
            ) && final(self).op_state() == old(self).op_state(),
            source_reg.value + destination_reg.value <= 0xFFFF ==> r == Ok::<(), VMError>(())
                && final(self).op_state() == (MachineState {
                regs: old(self).op_state().regs.update(
                    destination_reg.id.spec_id() as int,
                    (source_reg.value + destination_reg.value) as u16,
                ),
                ..old(self).op_state()
            }),
            final(self).op_trace() == old(self).op_trace(),
            final(self).op_zk_enabled() == old(self).op_zk_enabled(),
            final(self).op_trace_enabled() == old(self).op_trace_enabled(),
            final(self).op_public_states() == old(self).op_public_states(),
            final(self).op_private_states() == old(self).op_private_states(),
    ;

    /// Loads the word at the address held in the source register into the
    /// destination register; a failed read halts the machine.
    fn load(&mut self, source_reg: Register, destination_reg: Register) -> (r: Result<
        (),
        VMError,
    >)
        ensures
            r == Ok::<(), VMError>(()),
            final(self).op_state() == (match read16_spec(
                old(self).op_state().mem,
                source_reg.value,
            ) {
                Some(v) => MachineState {
                    regs: old(self).op_state().regs.update(
                        destination_reg.id.spec_id() as int,
                        v,
                    ),
                    ..old(self).op_state()
                },
                None => MachineState { halted: true, ..old(self).op_state() },
            }),
            final(self).op_trace() == old(self).op_trace(),
            final(self).op_zk_enabled() == old(self).op_zk_enabled(),
            final(self).op_trace_enabled() == old(self).op_trace_enabled(),
            final(self).op_public_states() == old(self).op_public_states(),
            final(self).op_private_states() == old(self).op_private_states(),
    ;

    /// Does nothing: the immediate was already placed into the immediate
    /// register during operand resolution.
    fn load_imm(&mut self, source_reg: Register, destination_reg: Register) -> (r: Result<
        (),
        VMError,
    >)
        ensures
            r == Ok::<(), VMError>(()),
            final(self).op_state() == old(self).op_state(),
            final(self).op_trace() == old(self).op_trace(),
            final(self).op_zk_enabled() == old(self).op_zk_enabled(),
            final(self).op_trace_enabled() == old(self).op_trace_enabled(),
            final(self).op_public_states() == old(self).op_public_states(),
            final(self).op_private_states() == old(self).op_private_states(),
    ;

    /// Writes the source register's value to the fixed output address; a
    /// failed write halts the machine.
    fn store_out(&mut self, source_reg: Register, destination_reg: Register) -> (r: Result<
        (),
        VMError,
    >)
        ensures
            r == Ok::<(), VMError>(()),
            final(self).op_state() == (MachineState {
                mem: write16_mem(old(self).op_state().mem, START_ADDRESS, source_reg.value),
                halted: old(self).op_state().halted || !write16_ok(
                    old(self).op_state().mem,
                    START_ADDRESS,
                ),
                ..old(self).op_state()
            }),
            final(self).op_trace() == old(self).op_trace(),
            final(self).op_zk_enabled() == old(self).op_zk_enabled(),
            final(self).op_trace_enabled() == old(self).op_trace_enabled(),
            final(self).op_public_states() == old(self).op_public_states(),
            final(self).op_private_states() == old(self).op_private_states(),
    ;
}

/// The 16-bit virtual machine: a register bank, an exclusively owned
/// memory bus, the halted flag, and the trace and commitment pipeline.
#[derive(Debug)]
pub struct VM<M: BusDevice> {
    pub registers: RegisterBank,
    pub memory: M,
    pub halted: bool,
    pub trace_enabled: bool,
    pub trace_buffer: Vec<TraceEntry>,
    pub zk_output_enabled: bool,
    pub public_program_state: Vec<FieldElement>,
    pub private_program_state: Vec<FieldElement>,
}

impl VM<LinearMemory> {
    /// A fresh machine with an empty memory, a fully populated register
    /// bank, and nothing recorded.
    pub fn new() -> (r: Self)
        ensures
            r.registers.values() == RegisterBank::initial_values(),
            r.memory.bytes() == Seq::<u8>::empty(),
            !r.halted,
            !r.trace_enabled,
            r.trace_buffer@ == Seq::<TraceEntry>::empty(),
            !r.zk_output_enabled,
            r.public_program_state@ == Seq::<FieldElement>::empty(),
            r.private_program_state@ == Seq::<FieldElement>::empty(),
    {
        let memory = LinearMemory::new(0);
        proof {
            assert(memory.bytes() =~= Seq::<u8>::empty());
        }
        Self {
            registers: RegisterBank::new(),
            memory,
            halted: false,
            trace_enabled: false,
            trace_buffer: Vec::new(),
            zk_output_enabled: false,
            public_program_state: Vec::new(),
            private_program_state: Vec::new(),
        }
    }
}

impl<M: BusDevice> VM<M> {
    /// The mathematical state of this machine.
    pub open spec fn state(&self) -> MachineState {
        MachineState {
            regs: self.registers.values(),
            mem: self.memory.bytes(),
            halted: self.halted,
        }
    }

    /// Replaces the memory bus.
    pub fn set_memory(&mut self, memory: M)
        ensures
            final(self).memory == memory,
            final(self).registers == old(self).registers,
            final(self).halted == old(self).halted,
            final(self).trace_enabled == old(self).trace_enabled,
            final(self).trace_buffer == old(self).trace_buffer,
            final(self).zk_output_enabled == old(self).zk_output_enabled,
            final(self).public_program_state == old(self).public_program_state,
            final(self).private_program_state == old(self).private_program_state,
    {
        self.memory = memory;
    }

    /// Turns on per-instruction trace recording.
    pub fn enable_trace(&mut self)
        ensures
            final(self).trace_enabled,
            final(self).memory == old(self).memory,
            final(self).registers == old(self).registers,
            final(self).halted == old(self).halted,
            final(self).trace_buffer == old(self).trace_buffer,
            final(self).zk_output_enabled == old(self).zk_output_enabled,
            final(self).public_program_state == old(self).public_program_state,
            final(self).private_program_state == old(self).private_program_state,
    {
        self.trace_enabled = true;
    }

    /// Turns on commitment production at halt.
    pub fn enable_zk_output(&mut self)
        ensures
            final(self).zk_output_enabled,
            final(self).memory == old(self).memory,
            final(self).registers == old(self).registers,
            final(self).halted == old(self).halted,
            final(self).trace_enabled == old(self).trace_enabled,
            final(self).trace_buffer == old(self).trace_buffer,
            final(self).public_program_state == old(self).public_program_state,
            final(self).private_program_state == old(self).private_program_state,
    {
        self.zk_output_enabled = true;
    }

    /// Resolves one operand field to a register copy. If the field names
    /// the immediate register and the immediate nibble is nonzero, the
    /// nibble is first stored into that register; a zero nibble leaves the
    /// register's prior contents in place.
    pub fn resolve_register_or_immediate(&mut self, reg_i: u8, imm_value: u16) -> (r: Result<
        Register,
        VMError,
    >)
        ensures
            old(self).registers.values().len() == NUM_REGS,
            final(self).registers.values() == resolve_regs(
                old(self).registers.values(),
                reg_i,
                imm_value,
            ),
            (reg_i as usize) < NUM_REGS ==> (r matches Ok(reg) && reg.id.spec_id() == reg_i
                && reg.value == final(self).registers.values()[reg_i as int]),
            (reg_i as usize) >= NUM_REGS ==> r == Err::<Register, VMError>(
                VMError::UnknownRegister,
            ),
            final(self).memory == old(self).memory,
            final(self).halted == old(self).halted,
            final(self).trace_enabled == old(self).trace_enabled,
            final(self).trace_buffer == old(self).trace_buffer,
            final(self).zk_output_enabled == old(self).zk_output_enabled,
            final(self).public_program_state == old(self).public_program_state,
            final(self).private_program_state == old(self).private_program_state,
    {
        if reg_i == RegisterId::RIM.id() && imm_value != 0 {
            match self.registers.set_register_value(reg_i, imm_value) {
                Ok(()) => {},
                Err(e) => {
                    return Err(e);
                },
            }
        }
        self.registers.get_register_read_only(reg_i)
    }

    /// Appends one trace entry: the fetch-time program counter, the
    /// decoded fields, and a full copy of the current register values.
    pub fn trace(&mut self, pc: VMWord, opcode: Opcode, dst: u8, src: u8, imm: VMWord)
        ensures
            final(self).trace_buffer@.len() == old(self).trace_buffer@.len() + 1,
            final(self).trace_buffer@.drop_last() == old(self).trace_buffer@,
            ({
                let e = final(self).trace_buffer@.last();
                e.pc == pc && e.opcode == opcode && e.dst == dst && e.src == src && e.imm == imm
                    && e.registers@ == old(self).registers.values()
            }),
            final(self).registers == old(self).registers,
            final(self).memory == old(self).memory,
            final(self).halted == old(self).halted,
            final(self).trace_enabled == old(self).trace_enabled,
            final(self).zk_output_enabled == old(self).zk_output_enabled,
            final(self).public_program_state == old(self).public_program_state,
            final(self).private_program_state == old(self).private_program_state,
    {
        let snapshot = self.registers.values_vec();
        let entry = TraceEntry::new(pc, opcode, dst, src, imm, snapshot);
        self.trace_buffer.push(entry);
        proof {
            assert(self.trace_buffer@.drop_last() =~= old(self).trace_buffer@);
        }
    }

    /// Reduces the recorded trace into the two per-step commitment
    /// sequences: for each entry, the serialized memory word at its
    /// program counter, register snapshot, program counter and opcode id
    /// are hashed together, reduced into the field (the private value)
    /// and passed through the algebraic hash (the public value). Fails
    /// without effect if some entry's program counter is unaddressable.
    pub fn parse_private_inputs(&mut self) -> (r: Result<(), VMError>)
        ensures
            final(self).registers == old(self).registers,
            final(self).memory == old(self).memory,
            final(self).halted == old(self).halted,
            final(self).trace_enabled == old(self).trace_enabled,
            final(self).trace_buffer == old(self).trace_buffer,
            final(self).zk_output_enabled == old(self).zk_output_enabled,
            trace_in_range(old(self).trace_buffer@, old(self).memory.bytes()) ==> r is Ok
                && fe_views(final(self).public_program_state@) == spec_public_states(
                old(self).trace_buffer@,
                old(self).memory.bytes(),
            ) && fe_views(final(self).private_program_state@) == spec_private_states(
                old(self).trace_buffer@,
                old(self).memory.bytes(),
            ),
            !trace_in_range(old(self).trace_buffer@, old(self).memory.bytes()) ==> r == Err::<
                (),
                VMError,
            >(VMError::MemoryReadError) && final(self).public_program_state == old(self).public_program_state && final(self).private_program_state == old(self).private_program_state,
    {
        let mut pub_program_state: Vec<FieldElement> = Vec::new();
        let mut private_program_state: Vec<FieldElement> = Vec::new();
        let n = self.trace_buffer.len();
        let mut i: usize = 0;
        while i < n
            invariant
                i <= n,
                n == self.trace_buffer@.len(),
                self.registers == old(self).registers,
                self.memory == old(self).memory,
                self.halted == old(self).halted,
                self.trace_enabled == old(self).trace_enabled,
                self.trace_buffer == old(self).trace_buffer,
                self.zk_output_enabled == old(self).zk_output_enabled,
                self.public_program_state == old(self).public_program_state,
                self.private_program_state == old(self).private_program_state,
                pub_program_state@.len() == i,
                private_program_state@.len() == i,
                forall|k: int|
                    0 <= k < i ==> (#[trigger] self.trace_buffer@[k]).pc + 1
                        < self.memory.bytes().len(),
                forall|k: int|
                    0 <= k < i ==> (#[trigger] pub_program_state@[k])@ == commit_public(
                        step_preimage(self.trace_buffer@[k], self.memory.bytes()),
                    ),
                forall|k: int|
                    0 <= k < i ==> (#[trigger] private_program_state@[k])@ == commit_private(
                        step_preimage(self.trace_buffer@[k], self.memory.bytes()),
                    ),
            decreases n - i,
        {
            let pc = self.trace_buffer[i].pc;
            let idx = pc as usize;
            let range = self.memory.memory_range();
            if idx + 1 >= range {
                return Err(VMError::MemoryReadError);
            }
            let memory_at_location = self.memory.get_specific_memory_location(idx);

            let mem_bytes = crate::zk::serialize_u16(memory_at_location);
            let register_bytes = crate::zk::serialize_u16_vec(&self.trace_buffer[i].registers);
            let pc_bytes = crate::zk::serialize_u16(pc);
            let opcode_bytes = crate::zk::serialize_u16(self.trace_buffer[i].opcode.id() as u16);

            let mut parts: Vec<Vec<u8>> = Vec::new();
            parts.push(mem_bytes);
            parts.push(register_bytes);
            parts.push(pc_bytes);
            parts.push(opcode_bytes);
            let hashed_state = Sha256Hash::hash_multiple(&parts);
            proof {
                crate::zk::lemma_concat_bytes4(views_of(parts@));
                assert(concat_bytes(views_of(parts@)) =~= step_preimage(
                    self.trace_buffer@[i as int],
                    self.memory.bytes(),
                ));
            }
            let poseidon_hash = ZkContext::compute_poseidon_hash(&hashed_state);

            pub_program_state.push(poseidon_hash);
            private_program_state.push(hashed_state);
            i = i + 1;
        }
        proof {
            assert(fe_views(pub_program_state@) =~= spec_public_states(
                old(self).trace_buffer@,
                old(self).memory.bytes(),
            ));
            assert(fe_views(private_program_state@) =~= spec_private_states(
                old(self).trace_buffer@,
                old(self).memory.bytes(),
            ));
        }
        self.public_program_state = pub_program_state;
        self.private_program_state = private_program_state;
        Ok(())
    }

    /// Pads both per-step commitment sequences with the field's additive
    /// identity up to the externally configured capacity. A missing
    /// capacity, or one smaller than the number of recorded steps, is a
    /// configuration error and changes nothing.
    pub fn pad_program_state(&mut self, capacity: Option<usize>) -> (r: Result<(), VMError>)
        ensures
            final(self).registers == old(self).registers,
            final(self).memory == old(self).memory,
            final(self).halted == old(self).halted,
            final(self).trace_enabled == old(self).trace_enabled,
            final(self).trace_buffer == old(self).trace_buffer,
            final(self).zk_output_enabled == old(self).zk_output_enabled,
            capacity is None ==> r == Err::<(), VMError>(VMError::ConfigError)
                && final(self).public_program_state == old(self).public_program_state
                && final(self).private_program_state == old(self).private_program_state,
            capacity matches Some(c) ==> {
                &&& c < old(self).public_program_state@.len() ==> r == Err::<(), VMError>(
                    VMError::ConfigError,
                ) && final(self).public_program_state == old(self).public_program_state
                    && final(self).private_program_state == old(self).private_program_state
                &&& c >= old(self).public_program_state@.len() ==> {
                    &&& r == Ok::<(), VMError>(())
                    &&& final(self).public_program_state@.len() == c
                    &&& final(self).private_program_state@.len() == old(self).private_program_state@.len() + (c - old(self).public_program_state@.len())
                    &&& final(self).public_program_state@.take(
                        old(self).public_program_state@.len() as int,
                    ) == old(self).public_program_state@
                    &&& final(self).private_program_state@.take(
                        old(self).private_program_state@.len() as int,
                    ) == old(self).private_program_state@
                    &&& forall|k: int|
                        old(self).public_program_state@.len() <= k < c ==> (#[trigger] final(self).public_program_state@[k])@ == seq![0u64, 0u64, 0u64, 0u64]
                    &&& forall|k: int|
                        old(self).private_program_state@.len() <= k < final(self).private_program_state@.len() ==> (#[trigger] final(self).private_program_state@[k])@ == seq![0u64, 0u64, 0u64, 0u64]
                }
            },
    {
        let state = match capacity {
            Some(c) => c,
            None => {
                return Err(VMError::ConfigError);
            },
        };
        let current_state_len = self.public_program_state.len();
        if state < current_state_len {
            return Err(VMError::ConfigError);
        }
        let to_add = state - current_state_len;
        let mut i: usize = 0;
        while i < to_add
            invariant
                i <= to_add,
                self.registers == old(self).registers,
                self.memory == old(self).memory,
                self.halted == old(self).halted,
                self.trace_enabled == old(self).trace_enabled,
                self.trace_buffer == old(self).trace_buffer,
                self.zk_output_enabled == old(self).zk_output_enabled,
                self.public_program_state@.len() == old(self).public_program_state@.len() + i,
                self.private_program_state@.len() == old(self).private_program_state@.len() + i,
                self.public_program_state@.take(old(self).public_program_state@.len() as int)
                    == old(self).public_program_state@,
                self.private_program_state@.take(old(self).private_program_state@.len() as int)
                    == old(self).private_program_state@,
                forall|k: int|
                    old(self).public_program_state@.len() <= k
                        < self.public_program_state@.len() ==> (#[trigger] self
                        .public_program_state@[k])@ == seq![0u64, 0u64, 0u64, 0u64],
                forall|k: int|
                    old(self).private_program_state@.len() <= k
                        < self.private_program_state@.len() ==> (#[trigger] self
                        .private_program_state@[k])@ == seq![0u64, 0u64, 0u64, 0u64],
            decreases to_add - i,
        {
            self.public_program_state.push(FieldElement::zero());
            self.private_program_state.push(FieldElement::zero());
            proof {
                assert(self.public_program_state@.take(
                    old(self).public_program_state@.len() as int,
                ) =~= old(self).public_program_state@);
                assert(self.private_program_state@.take(
                    old(self).private_program_state@.len() as int,
                ) =~= old(self).private_program_state@);
            }
            i = i + 1;
        }
        Ok(())
    }

    /// Decodes and executes one instruction word: resolve the operand
    /// fields, then dispatch on the opcode.
    pub fn execute_instruction(&mut self, instruction: VMWord) -> (r: Result<(), VMError>)
        ensures
            ({
                let t = spec_execute(old(self).state(), instruction);
                final(self).state() == t.0 && r == t.1
            }),
            final(self).trace_buffer@ == old(self).trace_buffer@,
            final(self).trace_enabled == old(self).trace_enabled,
            final(self).zk_output_enabled == old(self).zk_output_enabled,
            exec_reaches_halt(instruction) && old(self).zk_output_enabled && trace_in_range(
                old(self).trace_buffer@,
                old(self).memory.bytes(),
            ) ==> fe_views(final(self).public_program_state@) == spec_public_states(
                old(self).trace_buffer@,
                old(self).memory.bytes(),
            ) && fe_views(final(self).private_program_state@) == spec_private_states(
                old(self).trace_buffer@,
                old(self).memory.bytes(),
            ),
            !(exec_reaches_halt(instruction) && old(self).zk_output_enabled && trace_in_range(
                old(self).trace_buffer@,
                old(self).memory.bytes(),
            )) ==> fe_views(final(self).public_program_state@) == fe_views(
                old(self).public_program_state@,
            ) && fe_views(final(self).private_program_state@) == fe_views(
                old(self).private_program_state@,
            ),
    {
        let opcode = match Opcode::try_from((instruction >> 12u16) as u8) {
            Ok(op) => op,
            Err(e) => {
                return Err(e);
            },
        };
        let dest_reg_i = ((instruction & 0x0F00) >> 8u16) as u8;
        let source_reg_i = ((instruction & 0x00F0) >> 4u16) as u8;
        let immediate_value = instruction & 0x000F;

        let dest_reg = match self.resolve_register_or_immediate(dest_reg_i, immediate_value) {
            Ok(reg) => reg,
            Err(e) => {
                return Err(e);
            },
        };
        let src_reg = match self.resolve_register_or_immediate(source_reg_i, immediate_value) {
            Ok(reg) => reg,
            Err(e) => {
                return Err(e);
            },
        };

        match opcode {
            Opcode::HALT => {
                let res = self.halt(src_reg, dest_reg);
                proof {
                    assert(self.state() =~= spec_execute(old(self).state(), instruction).0);
                }
                res
            },
            Opcode::WRITE => {
                let res = self.write(src_reg, dest_reg);
                proof {
                    assert(self.state() =~= spec_execute(old(self).state(), instruction).0);
                }
                res
            },
            Opcode::COPY => {
                let res = self.copy(src_reg, dest_reg);
                proof {
                    assert(self.state() =~= spec_execute(old(self).state(), instruction).0);
                }
                res
            },
            Opcode::ADD => {
                let res = self.add(src_reg, dest_reg);
                proof {
                    assert(self.state() =~= spec_execute(old(self).state(), instruction).0);
                }
                res
            },
            Opcode::LOAD => {
                let res = self.load(src_reg, dest_reg);
                proof {
                    assert(self.state() =~= spec_execute(old(self).state(), instruction).0);
                }
                res
            },
            Opcode::LOAD_IMM => {
                let res = self.load_imm(src_reg, dest_reg);
                proof {
                    assert(self.state() =~= spec_execute(old(self).state(), instruction).0);
                }
                res
            },
            Opcode::STORE_OUT => {
                let res = self.store_out(src_reg, dest_reg);
                proof {
                    assert(self.state() =~= spec_execute(old(self).state(), instruction).0);
                }
                res
            },
        }
    }

    /// Advances the machine by one instruction cycle: fetch the word at
    /// the program counter, store it in the instruction register, advance
    /// the program counter, record a trace entry if enabled, and execute.
    /// A tick on a halted machine is an error without side effects; every
    /// other error halts the machine.
    pub fn tick(&mut self) -> (r: Result<(), VMError>)
        ensures
            ({
                let t = spec_tick(old(self).state());
                final(self).state() == t.0 && r == t.1
            }),
            final(self).trace_enabled == old(self).trace_enabled,
            final(self).zk_output_enabled == old(self).zk_output_enabled,
            tick_traces(old(self).state(), old(self).trace_enabled) ==> final(self).trace_buffer@.len() == old(self).trace_buffer@.len() + 1 && final(self).trace_buffer@.drop_last() == old(self).trace_buffer@ && entry_matches(
                final(self).trace_buffer@.last(),
                old(self).state(),
            ),
            !tick_traces(old(self).state(), old(self).trace_enabled) ==> final(self).trace_buffer@ == old(self).trace_buffer@,
            tick_reaches_halt(old(self).state()) && old(self).zk_output_enabled && trace_in_range(
                final(self).trace_buffer@,
                old(self).memory.bytes(),
            ) ==> fe_views(final(self).public_program_state@) == spec_public_states(
                final(self).trace_buffer@,
                old(self).memory.bytes(),
            ) && fe_views(final(self).private_program_state@) == spec_private_states(
                final(self).trace_buffer@,
                old(self).memory.bytes(),
            ),
            !(tick_reaches_halt(old(self).state()) && old(self).zk_output_enabled
                && trace_in_range(final(self).trace_buffer@, old(self).memory.bytes()))
                ==> fe_views(final(self).public_program_state@) == fe_views(
                old(self).public_program_state@,
            ) && fe_views(final(self).private_program_state@) == fe_views(
                old(self).private_program_state@,
            ),
    {
        if self.halted {
            return Err(VMError::Halted);
        }
        let pc_reg = match self.registers.get_register_read_only(RegisterId::RPC.id()) {
            Ok(reg) => reg,
            Err(e) => {
                return Err(e);
            },
        };
        let fetch_addr = pc_reg.value;

        let raw_instruction: u16 = match self.memory.read2(fetch_addr) {
            Some(w) => w,
            None => {
                self.halted = true;
                return Err(VMError::MemoryReadError);
            },
        };

        match self.registers.set_register_value(RegisterId::RIR.id(), raw_instruction) {
            Ok(()) => {},
            Err(e) => {
                return Err(e);
            },
        }

        let mut pc_register = pc_reg;
        match pc_register.inc_program_counter() {
            Ok(()) => {},
            Err(e) => {
                self.halted = true;
                return Err(e);
            },
        }
        match self.registers.set_register_value(RegisterId::RPC.id(), pc_register.value) {
            Ok(()) => {},
            Err(e) => {
                return Err(e);
            },
        }

        if self.trace_enabled {
            match Opcode::try_from((raw_instruction >> 12u16) as u8) {
                Ok(op) => {
                    let dst = ((raw_instruction & 0x0F00) >> 8u16) as u8;
                    let src = ((raw_instruction & 0x00F0) >> 4u16) as u8;
                    let imm = raw_instruction & 0x000F;
                    self.trace(fetch_addr, op, dst, src, imm);
                },
                Err(_) => {},
            }
        }

        match self.execute_instruction(raw_instruction) {
            Ok(()) => Ok(()),
            Err(e) => {
                self.halted = true;
                Err(e)
            },
        }
    }
}

impl<M: BusDevice> VMOperations for VM<M> {
    open spec fn op_state(&self) -> MachineState {
        self.state()
    }

    open spec fn op_zk_enabled(&self) -> bool {
        self.zk_output_enabled
    }

    open spec fn op_trace_enabled(&self) -> bool {
        self.trace_enabled
    }

    open spec fn op_trace(&self) -> Seq<TraceEntry> {
        self.trace_buffer@
    }

    open spec fn op_public_states(&self) -> Seq<Seq<u64>> {
        fe_views(self.public_program_state@)
    }

    open spec fn op_private_states(&self) -> Seq<Seq<u64>> {
        fe_views(self.private_program_state@)
    }

    fn halt(&mut self, source_reg: Register, destination_reg: Register) -> (r: Result<
        (),
        VMError,
    >) {
        if self.zk_output_enabled {
            let _ = self.parse_private_inputs();
        }
        self.halted = true;
        Ok(())
    }

    fn write(&mut self, source_reg: Register, destination_reg: Register) -> (r: Result<
        (),
        VMError,
    >) {
        if self.memory.write2(destination_reg.value, source_reg.value).is_err() {
            self.halted = true;
        }
        Ok(())
    }

    fn copy(&mut self, source_reg: Register, destination_reg: Register) -> (r: Result<
        (),
        VMError,
    >) {
        match self.registers.set_register_value(destination_reg.id.id(), source_reg.value) {
            Ok(()) => Ok(()),
            Err(e) => Err(e),
        }
    }

    fn add(&mut self, source_reg: Register, destination_reg: Register) -> (r: Result<
        (),
        VMError,
    >) {
        let result = match source_reg.value.checked_add(destination_reg.value) {
            Some(v) => v,
            None => {
                return Err(VMError::Overflow);
            },
        };
        match self.registers.set_register_value(destination_reg.id.id(), result) {
            Ok(()) => Ok(()),
            Err(e) => Err(e),
        }
    }

    fn load(&mut self, source_reg: Register, destination_reg: Register) -> (r: Result<
        (),
        VMError,
    >) {
        if let Some(val) = self.memory.read2(source_reg.value) {
            match self.registers.set_register_value(destination_reg.id.id(), val) {
                Ok(()) => Ok(()),
                Err(e) => Err(e),
            }
        } else {
            self.halted = true;
            Ok(())
        }
    }

    fn load_imm(&mut self, source_reg: Register, destination_reg: Register) -> (r: Result<
        (),
        VMError,
    >) {
        Ok(())
    }

    fn store_out(&mut self, source_reg: Register, destination_reg: Register) -> (r: Result<
        (),
        VMError,
    >) {
        if self.memory.write2(START_ADDRESS, source_reg.value).is_err() {
            self.halted = true;
        }
        Ok(())
    }
}

/// A program consisting solely of a halt instruction at the origin halts
/// after exactly one tick: the tick succeeds, the machine is halted,
/// memory is untouched, no register changes but the instruction register
/// and the program counter, and the next tick is refused.
pub proof fn lemma_halt_program_single_tick(s: MachineState)
    requires
        !s.halted,
        read16_spec(s.mem, s.regs[RegisterId::RPC.spec_id() as int]) == Some(0u16),
        s.regs[RegisterId::RPC.spec_id() as int] + 2 <= 0xFFFF,
    ensures
        ({
            let a = s.regs[RegisterId::RPC.spec_id() as int];
            let t = spec_tick(s);
            &&& t.1 == Ok::<(), VMError>(())
            &&& t.0.halted
            &&& t.0.mem == s.mem
            &&& t.0.regs == s.regs.update(RegisterId::RIR.spec_id() as int, 0u16).update(
                RegisterId::RPC.spec_id() as int,
                (a + 2) as u16,
            )
            &&& spec_tick(t.0).1 == Err::<(), VMError>(VMError::Halted)
        }),
{
    assert((0u16 >> 12) as u8 == 0 && ((0u16 & 0x0F00) >> 8) as u8 == 0 && ((0u16 & 0x00F0)
        >> 4) as u8 == 0 && (0u16 & 0x000F) == 0) by (bit_vector);
}

/// An addition whose destination register holds 0xFFFF and whose source
/// register holds any nonzero value is a fatal overflow: executing the
/// instruction reports the overflow error, and no register takes a
/// wrapped result.
pub proof fn lemma_add_overflow_is_fatal(s: MachineState, w: u16)
    requires
        Opcode::spec_from(opcode_bits(w)) == Some(Opcode::ADD),
        (dst_bits(w) as usize) < NUM_REGS,
        (src_bits(w) as usize) < NUM_REGS,
        ({
            let regs2 = resolve_regs(
                resolve_regs(s.regs, dst_bits(w), imm_bits(w)),
                src_bits(w),
                imm_bits(w),
            );
            regs2[dst_bits(w) as int] == 0xFFFF && regs2[src_bits(w) as int] != 0
        }),
    ensures
        ({
            let regs2 = resolve_regs(
                resolve_regs(s.regs, dst_bits(w), imm_bits(w)),
                src_bits(w),
                imm_bits(w),
            );
            let t = spec_execute(s, w);
            &&& t.1 == Err::<(), VMError>(VMError::Overflow)
            &&& t.0.regs == regs2
            &&& t.0.regs[dst_bits(w) as int] == 0xFFFF
            &&& t.0.mem == s.mem
            &&& t.0.halted == s.halted
        }),
{
}

/// Determinism of the commitment pipeline: two runs that recorded the
/// same program counters, opcodes and register snapshots over the same
/// memory produce identical public and private commitment sequences.
pub proof fn lemma_commitments_deterministic(
    t1: Seq<TraceEntry>,
    t2: Seq<TraceEntry>,
    mem: Seq<u8>,
)
    requires
        t1.len() == t2.len(),
        forall|i: int|
            0 <= i < t1.len() ==> (#[trigger] t1[i]).pc == t2[i].pc && t1[i].opcode
                == t2[i].opcode && t1[i].registers@ == t2[i].registers@,
    ensures
        spec_public_states(t1, mem) == spec_public_states(t2, mem),
        spec_private_states(t1, mem) == spec_private_states(t2, mem),
{
    assert forall|i: int| 0 <= i < t1.len() implies step_preimage((#[trigger] t1[i]), mem)
        == step_preimage(t2[i], mem) by {
    }
    assert(spec_public_states(t1, mem) =~= spec_public_states(t2, mem));
    assert(spec_private_states(t1, mem) =~= spec_private_states(t2, mem));
}

} // verus!
