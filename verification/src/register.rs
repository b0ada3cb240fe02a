use vstd::prelude::*;

use crate::constants::{START_ADDRESS, VmAddr};
use crate::error::VMError;

verus! {

/// Number of registers in the bank; register ids run from 0 to this bound.
pub const NUM_REGS: usize = 10;

/// The fixed register set. `RR0` through `RR3` are general purpose; `RPC`
/// is the program counter, `RIR` holds the fetched instruction word, and
/// `RIM` holds immediate values.
#[derive(Clone, Copy, Debug, PartialEq, Eq, Structural)]
pub enum RegisterId {
    RR0,
    RR1,
    RR2,
    RR3,
    RSP,
    RPC,
    RBP,
    RFLAGS,
    RIR,
    RIM,
}

impl RegisterId {
    /// The numeric id of the register, its position in the fixed set.
    pub open spec fn spec_id(&self) -> u8 {
        match self {
            RegisterId::RR0 => 0,
            RegisterId::RR1 => 1,
            RegisterId::RR2 => 2,
            RegisterId::RR3 => 3,
            RegisterId::RSP => 4,
            RegisterId::RPC => 5,
            RegisterId::RBP => 6,
            RegisterId::RFLAGS => 7,
            RegisterId::RIR => 8,
            RegisterId::RIM => 9,
        }
    }

    #[verifier::when_used_as_spec(spec_id)]
    pub fn id(&self) -> (r: u8)
        ensures
            r == self.spec_id(),
    {
        match self {
            RegisterId::RR0 => 0,
            RegisterId::RR1 => 1,
            RegisterId::RR2 => 2,
            RegisterId::RR3 => 3,
            RegisterId::RSP => 4,
            RegisterId::RPC => 5,
            RegisterId::RBP => 6,
            RegisterId::RFLAGS => 7,
            RegisterId::RIR => 8,
            RegisterId::RIM => 9,
        }
    }
}

/// One register: an identity paired with a 16-bit value. Registers hold
/// copies of data; an address-valued register holds a numeric address.
#[derive(Clone, Copy, Debug)]
pub struct Register {
    pub id: RegisterId,
    pub value: VmAddr,
}

impl Register {
    pub fn new(register_type: RegisterId, value: u16) -> (r: Self)
        ensures
            r.id == register_type,
            r.value == value,
    {
        Self { id: register_type, value }
    }

    /// Advances the value by 2 (instructions are two bytes); fails with an
    /// overflow error, leaving the value unchanged, if the 16-bit range
    /// would be exceeded.
    pub fn inc_program_counter(&mut self) -> (r: Result<(), VMError>)
        ensures
            old(self).value + 2 <= 0xFFFF ==> r is Ok && final(self).value == old(self).value + 2
                && final(self).id == old(self).id,
            old(self).value + 2 > 0xFFFF ==> r == Err::<(), VMError>(VMError::Overflow)
                && *final(self) == *old(self),
    {
        match self.value.checked_add(2) {
            Some(v) => {
                self.value = v;
                Ok(())
            },
            None => Err(VMError::Overflow),
        }
    }
}

/// The bank of all registers, one per id in `0..NUM_REGS`, fully populated
/// at construction; no register is ever added or removed.
#[derive(Debug)]
pub struct RegisterBank {
    regs: Vec<Register>,
}

impl RegisterBank {
    #[verifier::type_invariant]
    spec fn wf(self) -> bool {
        &&& self.regs@.len() == NUM_REGS
        &&& forall|i: int|
            0 <= i < NUM_REGS ==> (#[trigger] self.regs@[i]).id.spec_id() == i
    }

    /// The register values by id.
    pub closed spec fn values(&self) -> Seq<u16> {
        self.regs@.map(|i: int, r: Register| r.value)
    }

    /// The register values a fresh bank holds: all zero, except the program
    /// counter, which starts at the program load origin.
    pub open spec fn initial_values() -> Seq<u16> {
        seq![0u16, 0u16, 0u16, 0u16, 0u16, START_ADDRESS, 0u16, 0u16, 0u16, 0u16]
    }

    pub fn new() -> (r: Self)
        ensures
            r.values() == Self::initial_values(),
    {
        let mut regs: Vec<Register> = Vec::new();
        regs.push(Register::new(RegisterId::RR0, 0x00));
        regs.push(Register::new(RegisterId::RR1, 0x00));
        regs.push(Register::new(RegisterId::RR2, 0x00));
        regs.push(Register::new(RegisterId::RR3, 0x00));
        regs.push(Register::new(RegisterId::RSP, 0x00));
        regs.push(Register::new(RegisterId::RPC, START_ADDRESS));
        regs.push(Register::new(RegisterId::RBP, 0x00));
        regs.push(Register::new(RegisterId::RFLAGS, 0x00));
        regs.push(Register::new(RegisterId::RIR, 0x00));
        regs.push(Register::new(RegisterId::RIM, 0x00));
        let bank = Self { regs };
        proof {
            assert(bank.values() =~= Self::initial_values());
        }
        bank
    }

    /// A read-only copy of the register with the given id; an id outside
    /// the fixed set is an error.
    pub fn get_register_read_only(&self, name: u8) -> (r: Result<Register, VMError>)
        ensures
            self.values().len() == NUM_REGS,
            name < NUM_REGS ==> (r matches Ok(reg) && reg.id.spec_id() == name && reg.value
                == self.values()[name as int]),
            name >= NUM_REGS ==> r == Err::<Register, VMError>(VMError::UnknownRegister),
    {
        proof {
            use_type_invariant(self);
        }
        if (name as usize) < NUM_REGS {
            Ok(self.regs[name as usize])
        } else {
            Err(VMError::UnknownRegister)
        }
    }

    /// Stores `value` into the register with the given id; an id outside
    /// the fixed set is an error and changes nothing.
    pub fn set_register_value(&mut self, name: u8, value: u16) -> (r: Result<(), VMError>)
        ensures
            old(self).values().len() == NUM_REGS,
            name < NUM_REGS ==> r is Ok
                && final(self).values() == old(self).values().update(name as int, value),
            name >= NUM_REGS ==> r == Err::<(), VMError>(VMError::UnknownRegister)
                && final(self).values() == old(self).values(),
    {
        proof {
            use_type_invariant(&*self);
        }
        if (name as usize) < NUM_REGS {
            let i = name as usize;
            let mut new_regs: Vec<Register> = Vec::new();
            let mut j: usize = 0;
            while j < NUM_REGS
                invariant
                    j <= NUM_REGS,
                    i < NUM_REGS,
                    self.regs@.len() == NUM_REGS,
                    new_regs@.len() == j,
                    forall|k: int|
                        0 <= k < j && k != i ==> new_regs@[k] == self.regs@[k],
                    i < j ==> new_regs@[i as int] == (Register {
                        id: self.regs@[i as int].id,
                        value,
                    }),
                decreases NUM_REGS - j,
            {
                if j == i {
                    let id = self.regs[i].id;
                    new_regs.push(Register { id, value });
                } else {
                    new_regs.push(self.regs[j]);
                }
                j = j + 1;
            }
            *self = RegisterBank { regs: new_regs };
            proof {
                assert(self.values() =~= old(self).values().update(name as int, value));
            }
            Ok(())
        } else {
            Err(VMError::UnknownRegister)
        }
    }

    /// The register values by id, as a vector.
    pub fn values_vec(&self) -> (r: Vec<u16>)
        ensures
            r@ == self.values(),
    {
        proof {
            use_type_invariant(self);
        }
        let mut out: Vec<u16> = Vec::new();
        let mut i: usize = 0;
        while i < NUM_REGS
            invariant
                i <= NUM_REGS,
                self.regs@.len() == NUM_REGS,
                out@ == self.values().subrange(0, i as int),
            decreases NUM_REGS - i,
        {
            out.push(self.regs[i].value);
            proof {
                assert(out@ =~= self.values().subrange(0, i as int + 1));
            }
            i = i + 1;
        }
        proof {
            assert(out@ =~= self.values());
        }
        out
    }
}

} // verus!
