use vstd::prelude::*;

use crate::bus::BusDevice;
use crate::constants::VmAddr;
use crate::error::VMError;

verus! {

/// A flat, byte-addressable memory of fixed capacity.
#[derive(Debug)]
pub struct LinearMemory {
    bytes: Vec<u8>,
    size: usize,
}

impl LinearMemory {
    #[verifier::type_invariant]
    spec fn wf(self) -> bool {
        self.bytes@.len() == self.size
    }

    /// A fresh memory of `n` zeroed bytes.
    pub fn new(n: usize) -> (r: Self)
        ensures
            r.bytes() == Seq::new(n as nat, |i: int| 0u8),
    {
        let mut bytes: Vec<u8> = Vec::new();
        let mut i: usize = 0;
        while i < n
            invariant
                i <= n,
                bytes@.len() == i,
                forall|j: int| 0 <= j < i ==> bytes@[j] == 0u8,
            decreases n - i,
        {
            bytes.push(0);
            i = i + 1;
        }
        proof {
            assert(bytes@ =~= Seq::new(n as nat, |i: int| 0u8));
        }
        Self { bytes, size: n }
    }
}

impl BusDevice for LinearMemory {
    closed spec fn bytes(&self) -> Seq<u8> {
        self.bytes@
    }

    fn read(&self, addr: VmAddr) -> (r: Option<u8>)
    {
        proof {
            use_type_invariant(self);
        }
        let addr_idx: usize = addr as usize;
        if addr_idx < self.size {
            Some(self.bytes[addr_idx])
        } else {
            None
        }
    }

    fn write(&mut self, addr: VmAddr, value: u8) -> (r: Result<(), VMError>)
    {
        proof {
            use_type_invariant(&*self);
        }
        let addr_idx: usize = addr as usize;
        if addr_idx < self.size {
            self.bytes[addr_idx] = value;
            Ok(())
        } else {
            Err(VMError::OutOfBounds)
        }
    }

    fn memory_range(&self) -> (r: usize)
    {
        proof {
            use_type_invariant(self);
        }
        self.size
    }

    fn as_bytes(&self) -> (r: &Vec<u8>)
    {
        &self.bytes
    }

    fn get_specific_memory_location(&self, idx: usize) -> (r: u16)
    {
        proof {
            use_type_invariant(self);
        }
        let low_byte = self.bytes[idx] as u16;
        let high_byte = self.bytes[idx + 1] as u16;
        proof {
            let l = low_byte;
            let h = high_byte;
            assert((h << 8) | l == l | (h << 8)) by (bit_vector);
        }
        (high_byte << 8) | low_byte
    }

    fn get_subset_of_memory(&self, start_addr: usize, end_addr: usize) -> (r: Vec<u8>)
    {
        let mut out: Vec<u8> = Vec::new();
        let mut i: usize = start_addr;
        while i < end_addr
            invariant
                start_addr <= i <= end_addr,
                end_addr <= self.bytes@.len(),
                out@ == self.bytes@.subrange(start_addr as int, i as int),
            decreases end_addr - i,
        {
            out.push(self.bytes[i]);
            proof {
                assert(out@ =~= self.bytes@.subrange(start_addr as int, i as int + 1));
            }
            i = i + 1;
        }
        out
    }
}

} // verus!
