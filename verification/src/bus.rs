use vstd::prelude::*;

use crate::constants::VmAddr;
use crate::error::VMError;

verus! {

/// The low byte of a 16-bit word.
pub open spec fn lo16(v: u16) -> u8 {
    (v & 0xff) as u8
}

/// The high byte of a 16-bit word.
pub open spec fn hi16(v: u16) -> u8 {
    ((v & 0xff00) >> 8) as u8
}

/// The 16-bit word formed from a low and a high byte (little-endian).
pub open spec fn word_from_bytes(lo: u8, hi: u8) -> u16 {
    (lo as u16) | ((hi as u16) << 8)
}

/// The little-endian word stored at byte index `i` of `mem`.
pub open spec fn word_at(mem: Seq<u8>, i: int) -> u16 {
    word_from_bytes(mem[i], mem[i + 1])
}

/// What a two-byte read at `addr` yields: the word, or nothing if either
/// byte is unaddressable.
pub open spec fn read16_spec(mem: Seq<u8>, addr: u16) -> Option<u16> {
    if addr < 0xFFFF && addr + 1 < mem.len() {
        Some(word_at(mem, addr as int))
    } else {
        None
    }
}

/// Whether a two-byte write at `addr` succeeds in full.
pub open spec fn write16_ok(mem: Seq<u8>, addr: u16) -> bool {
    addr < 0xFFFF && addr + 1 < mem.len()
}

/// Memory after a two-byte write of `v` at `addr`. The low byte is written
/// first; if the high byte cannot be written the low byte stays committed.
pub open spec fn write16_mem(mem: Seq<u8>, addr: u16, v: u16) -> Seq<u8> {
    if write16_ok(mem, addr) {
        mem.update(addr as int, lo16(v)).update(addr as int + 1, hi16(v))
    } else if (addr as int) < mem.len() {
        mem.update(addr as int, lo16(v))
    } else {
        mem
    }
}

/// Splitting a word into bytes and recombining them yields the word back.
pub proof fn lemma_word_bytes_roundtrip(v: u16)
    ensures
        word_from_bytes(lo16(v), hi16(v)) == v,
{
    assert((((v & 0xff) as u8) as u16) | (((((v & 0xff00) >> 8) as u8) as u16) << 8) == v)
        by (bit_vector);
}

/// A two-byte write followed by a two-byte read at the same address yields
/// the written value; where the write cannot complete, no byte beyond the
/// last valid one is touched, and a low byte already committed stays.
pub proof fn lemma_write16_read16_roundtrip(mem: Seq<u8>, addr: u16, v: u16)
    ensures
        write16_ok(mem, addr) ==> read16_spec(write16_mem(mem, addr, v), addr) == Some(v),
        !write16_ok(mem, addr) ==> write16_mem(mem, addr, v) == (if (addr as int) < mem.len() {
            mem.update(addr as int, lo16(v))
        } else {
            mem
        }),
{
    lemma_word_bytes_roundtrip(v);
}

/// A two-byte copy after a two-byte write of `v` at the source yields `v`
/// when read back at the destination.
pub proof fn lemma_copy16_after_write16(mem: Seq<u8>, src: u16, dst: u16, v: u16)
    requires
        write16_ok(mem, src),
        write16_ok(mem, dst),
    ensures
        ({
            let m1 = write16_mem(mem, src, v);
            &&& read16_spec(m1, src) == Some(v)
            &&& read16_spec(write16_mem(m1, dst, v), dst) == Some(v)
        }),
{
    let m1 = write16_mem(mem, src, v);
    lemma_write16_read16_roundtrip(mem, src, v);
    lemma_write16_read16_roundtrip(m1, dst, v);
}

/// Interface for read and write access to memory or devices at specific
/// addresses. `bytes()` is the abstract content of the device, one entry
/// per addressable byte.
pub trait BusDevice: Sized {
    spec fn bytes(&self) -> Seq<u8>;

    /// Reads the byte at `addr`; yields nothing exactly when `addr` is
    /// beyond the capacity.
    fn read(&self, addr: VmAddr) -> (r: Option<u8>)
        ensures
            r == (if (addr as int) < self.bytes().len() {
                Some(self.bytes()[addr as int])
            } else {
                None::<u8>
            }),
    ;

    /// Writes the byte at `addr`; fails without side effect exactly when
    /// `addr` is beyond the capacity.
    fn write(&mut self, addr: VmAddr, value: u8) -> (r: Result<(), VMError>)
        ensures
            (addr as int) < old(self).bytes().len() ==> r is Ok && final(self).bytes()
                == old(self).bytes().update(addr as int, value),
            (addr as int) >= old(self).bytes().len() ==> r == Err::<(), VMError>(
                VMError::OutOfBounds,
            ) && final(self).bytes() == old(self).bytes(),
    ;

    /// The total byte capacity.
    fn memory_range(&self) -> (r: usize)
        ensures
            r == self.bytes().len(),
    ;

    /// The raw content of the device.
    fn as_bytes(&self) -> (r: &Vec<u8>)
        ensures
            r@ == self.bytes(),
    ;

    /// Reads the little-endian word whose low byte sits at `addr`; yields
    /// nothing if either byte is unaddressable, exposing no partial value.
    fn read2(&self, addr: VmAddr) -> (r: Option<u16>)
        ensures
            r == read16_spec(self.bytes(), addr),
    {
        if let Some(x0) = self.read(addr) {
            if addr < 0xFFFF {
                if let Some(x1) = self.read(addr + 1) {
                    return Some((x0 as u16) | ((x1 as u16) << 8));
                }
            }
        }
        None
    }

    /// Writes `value` little-endian at `addr`, low byte first; returns the
    /// first error without attempting the second write.
    fn write2(&mut self, addr: VmAddr, value: u16) -> (r: Result<(), VMError>)
        ensures
            final(self).bytes() == write16_mem(old(self).bytes(), addr, value),
            write16_ok(old(self).bytes(), addr) ==> r is Ok,
            !write16_ok(old(self).bytes(), addr) ==> r == Err::<(), VMError>(
                VMError::OutOfBounds,
            ),
    {
        let low_byte = (value & 0xff) as u8;
        let high_byte = ((value & 0xff00) >> 8) as u8;

        match self.write(addr, low_byte) {
            Ok(()) => {},
            Err(e) => {
                return Err(e);
            },
        }
        if addr == 0xFFFF {
            return Err(VMError::OutOfBounds);
        }
        match self.write(addr + 1, high_byte) {
            Ok(()) => {},
            Err(e) => {
                return Err(e);
            },
        }
        Ok(())
    }

    /// Reads the word at `from_addr` and writes it at `to_addr`; fails with
    /// a dedicated error if the source is unreadable, and propagates any
    /// write error.
    fn copy(&mut self, from_addr: VmAddr, to_addr: VmAddr) -> (r: Result<(), VMError>)
        ensures
            read16_spec(old(self).bytes(), from_addr) is None ==> r == Err::<(), VMError>(
                VMError::CopyInstructionFail,
            ) && final(self).bytes() == old(self).bytes(),
            read16_spec(old(self).bytes(), from_addr) matches Some(v) ==> {
                &&& final(self).bytes() == write16_mem(old(self).bytes(), to_addr, v)
                &&& write16_ok(old(self).bytes(), to_addr) ==> r is Ok
                &&& !write16_ok(old(self).bytes(), to_addr) ==> r == Err::<(), VMError>(
                    VMError::OutOfBounds,
                )
            },
    {
        if let Some(word) = self.read2(from_addr) {
            if let Err(err) = self.write2(to_addr, word) {
                return Err(err);
            }
        } else {
            return Err(VMError::CopyInstructionFail);
        }
        Ok(())
    }

    /// The little-endian word at byte index `idx`; the caller must ensure
    /// `idx + 1` is addressable.
    fn get_specific_memory_location(&self, idx: usize) -> (r: u16)
        requires
            idx + 1 < self.bytes().len(),
        ensures
            r == word_at(self.bytes(), idx as int),
    ;

    /// The byte range `[start_addr, end_addr)`; the caller must ensure the
    /// range lies within the capacity.
    fn get_subset_of_memory(&self, start_addr: usize, end_addr: usize) -> (r: Vec<u8>)
        requires
            start_addr <= end_addr <= self.bytes().len(),
        ensures
            r@ == self.bytes().subrange(start_addr as int, end_addr as int),
    ;
}

} // verus!
