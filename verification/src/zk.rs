use vstd::prelude::*;

use ark_ff::PrimeField;
use light_poseidon::PoseidonHasher;
use sha2::Digest;

use crate::bus::{hi16, lo16, word_at, read16_spec, BusDevice};
use crate::constants::{START_ADDRESS, VMWord};
use crate::error::VMError;
use crate::field::{
    be_bytes_val, field_from_be_bytes, limbs_of_val, limbs_val, modulus, FieldElement,
};
use crate::register::{RegisterBank, RegisterId};

verus! {

/// The 32-byte SHA-256 digest of a byte string. The digest depends on the
/// input bytes alone; this name stands for it and is given meaning only by
/// the trusted wrapper below.
pub uninterp spec fn sha256_of(data: Seq<u8>) -> Seq<u8>;

/// The Poseidon hash (BN254, circom parameters, one input) of a canonical
/// field element, both sides as little-endian 64-bit limbs. The result
/// depends on the input limbs alone; this name stands for it and is given
/// meaning only by the trusted wrapper below.
pub uninterp spec fn poseidon_of(limbs: Seq<u64>) -> Seq<u64>;

/// The canonical serialized form of a 16-bit value: two little-endian
/// bytes.
pub open spec fn u16_le_bytes(x: u16) -> Seq<u8> {
    seq![lo16(x), hi16(x)]
}

/// A 64-bit value as eight little-endian bytes.
pub open spec fn u64_le_bytes(x: u64) -> Seq<u8> {
    seq![
        (x & 0xff) as u8,
        ((x >> 8) & 0xff) as u8,
        ((x >> 16) & 0xff) as u8,
        ((x >> 24) & 0xff) as u8,
        ((x >> 32) & 0xff) as u8,
        ((x >> 40) & 0xff) as u8,
        ((x >> 48) & 0xff) as u8,
        ((x >> 56) & 0xff) as u8,
    ]
}

/// A sequence of 16-bit words, each as two little-endian bytes.
pub open spec fn words_le_bytes(s: Seq<u16>) -> Seq<u8>
    decreases s.len(),
{
    if s.len() == 0 {
        Seq::empty()
    } else {
        words_le_bytes(s.drop_last()) + u16_le_bytes(s.last())
    }
}

/// The canonical serialized form of a vector of 16-bit words: the length
/// as eight little-endian bytes, then each word as two little-endian
/// bytes. Identical logical values always serialize to identical bytes,
/// which the commitments' reproducibility rests on.
pub open spec fn u16_vec_bytes(s: Seq<u16>) -> Seq<u8> {
    u64_le_bytes(s.len() as u64) + words_le_bytes(s)
}

/// The concatenation of several byte strings.
pub open spec fn concat_bytes(s: Seq<Seq<u8>>) -> Seq<u8>
    decreases s.len(),
{
    if s.len() == 0 {
        Seq::empty()
    } else {
        concat_bytes(s.drop_last()) + s.last()
    }
}

/// The views of a vector of byte vectors.
pub open spec fn views_of(s: Seq<Vec<u8>>) -> Seq<Seq<u8>> {
    s.map_values(|v: Vec<u8>| v@)
}

/// The concatenation of exactly four byte strings, spelled out.
pub(crate) proof fn lemma_concat_bytes4(v: Seq<Seq<u8>>)
    requires
        v.len() == 4,
    ensures
        concat_bytes(v) == v[0] + v[1] + v[2] + v[3],
{
    lemma_concat_bytes3(v.drop_last());
    assert(concat_bytes(v) == concat_bytes(v.drop_last()) + v.last());
    assert(v.drop_last()[0] == v[0] && v.drop_last()[1] == v[1] && v.drop_last()[2] == v[2]);
    assert(concat_bytes(v) =~= v[0] + v[1] + v[2] + v[3]);
}

/// The concatenation of exactly three byte strings, spelled out.
pub(crate) proof fn lemma_concat_bytes3(v: Seq<Seq<u8>>)
    requires
        v.len() == 3,
    ensures
        concat_bytes(v) == v[0] + v[1] + v[2],
{
    let v2 = v.drop_last();
    let v1 = v2.drop_last();
    let v0 = v1.drop_last();
    assert(v0.len() == 0);
    assert(concat_bytes(v1) == concat_bytes(v0) + v1.last());
    assert(concat_bytes(v2) == concat_bytes(v1) + v2.last());
    assert(concat_bytes(v) == concat_bytes(v2) + v.last());
    assert(concat_bytes(v) =~= v[0] + v[1] + v[2]);
}

/// The private commitment of a byte string: its SHA-256 digest read as a
/// big-endian integer and reduced modulo the field modulus, as limbs.
pub open spec fn commit_private(pre: Seq<u8>) -> Seq<u64> {
    limbs_of_val(be_bytes_val(sha256_of(pre)) % modulus())
}

/// The public commitment of a byte string: the Poseidon hash of its
/// private commitment.
pub open spec fn commit_public(pre: Seq<u8>) -> Seq<u64> {
    poseidon_of(commit_private(pre))
}

/// Relies on sha2::Sha256: the digest is 32 bytes long and is a function
/// of the input bytes alone.
#[verifier::external_body]
fn sha256(data: &Vec<u8>) -> (r: Vec<u8>)
    ensures
        r@ == sha256_of(data@),
        r@.len() == 32,
{
    sha2::Sha256::digest(data.as_slice()).to_vec()
}

/// Relies on light_poseidon::Poseidon over the BN254 scalar field with the
/// circom parameters for one input: hashing a canonical field element
/// yields a field element, returned through ark_ff::PrimeField::into_bigint
/// as canonical little-endian limbs below the modulus, and the result is a
/// function of the input limbs alone.
#[verifier::external_body]
fn poseidon_hash_limbs(limbs: &Vec<u64>) -> (r: Vec<u64>)
    requires
        limbs@.len() == 4,
        limbs_val(limbs@) < modulus(),
    ensures
        r@ == poseidon_of(limbs@),
        r@.len() == 4,
        limbs_val(r@) < modulus(),
{
    let input = ark_ff::BigInt::<4>([limbs[0], limbs[1], limbs[2], limbs[3]]);
    let element = ark_bn254::Fr::from_bigint(input).unwrap();
    let mut hasher = light_poseidon::Poseidon::<ark_bn254::Fr>::new_circom(1).unwrap();
    let hash = hasher.hash(&[element]).unwrap();
    hash.into_bigint().0.to_vec()
}

/// Serializes a 16-bit value into its canonical two little-endian bytes.
pub(crate) fn serialize_u16(x: u16) -> (r: Vec<u8>)
    ensures
        r@ == u16_le_bytes(x),
{
    let mut out: Vec<u8> = Vec::new();
    out.push((x & 0xff) as u8);
    out.push(((x & 0xff00) >> 8) as u8);
    proof {
        assert(out@ =~= u16_le_bytes(x));
    }
    out
}

/// Serializes a vector of 16-bit words into its canonical byte form: the
/// length as eight little-endian bytes, then each word as two
/// little-endian bytes.
pub(crate) fn serialize_u16_vec(v: &Vec<u16>) -> (r: Vec<u8>)
    ensures
        r@ == u16_vec_bytes(v@),
{
    let n = v.len() as u64;
    let mut out: Vec<u8> = Vec::new();
    out.push((n & 0xff) as u8);
    out.push(((n >> 8) & 0xff) as u8);
    out.push(((n >> 16) & 0xff) as u8);
    out.push(((n >> 24) & 0xff) as u8);
    out.push(((n >> 32) & 0xff) as u8);
    out.push(((n >> 40) & 0xff) as u8);
    out.push(((n >> 48) & 0xff) as u8);
    out.push(((n >> 56) & 0xff) as u8);
    proof {
        assert(out@ =~= u64_le_bytes(v@.len() as u64));
        assert(v@.take(0).len() == 0);
        assert(out@ =~= u64_le_bytes(v@.len() as u64) + words_le_bytes(v@.take(0)));
    }
    let mut i: usize = 0;
    while i < v.len()
        invariant
            i <= v@.len(),
            out@ == u64_le_bytes(v@.len() as u64) + words_le_bytes(v@.take(i as int)),
        decreases v@.len() - i,
    {
        let w = v[i];
        out.push((w & 0xff) as u8);
        out.push(((w & 0xff00) >> 8) as u8);
        proof {
            assert(v@.take(i as int + 1).drop_last() =~= v@.take(i as int));
            assert(v@.take(i as int + 1).last() == v@[i as int]);
            assert(out@ =~= u64_le_bytes(v@.len() as u64) + words_le_bytes(
                v@.take(i as int + 1),
            ));
        }
        i = i + 1;
    }
    proof {
        assert(v@.take(v@.len() as int) =~= v@);
    }
    out
}

/// General-purpose hashing into the proving field.
pub struct Sha256Hash {}

impl Sha256Hash {
    /// Hashes the input bytes with SHA-256 and reduces the digest modulo
    /// the field modulus, so the result fits the field and can feed the
    /// algebraic hash.
    pub fn hash(bytes: &Vec<u8>) -> (r: FieldElement)
        ensures
            r@ == commit_private(bytes@),
    {
        let digest = sha256(bytes);
        field_from_be_bytes(&digest)
    }

    /// Hashes the concatenation of several byte strings with SHA-256 and
    /// reduces the digest modulo the field modulus.
    pub fn hash_multiple(data: &Vec<Vec<u8>>) -> (r: FieldElement)
        ensures
            r@ == commit_private(concat_bytes(views_of(data@))),
    {
        let mut all: Vec<u8> = Vec::new();
        let mut i: usize = 0;
        proof {
            assert(views_of(data@).take(0).len() == 0);
            assert(all@ =~= concat_bytes(views_of(data@).take(0)));
        }
        while i < data.len()
            invariant
                i <= data@.len(),
                all@ == concat_bytes(views_of(data@).take(i as int)),
            decreases data@.len() - i,
        {
            let part = &data[i];
            let mut j: usize = 0;
            proof {
                assert(all@ =~= all@ + part@.take(0));
            }
            let ghost prefix = all@;
            while j < part.len()
                invariant
                    j <= part@.len(),
                    all@ == prefix + part@.take(j as int),
                decreases part@.len() - j,
            {
                all.push(part[j]);
                proof {
                    assert(all@ =~= prefix + part@.take(j as int + 1));
                }
                j = j + 1;
            }
            proof {
                let views = views_of(data@);
                assert(part@.take(part@.len() as int) =~= part@);
                assert(views.take(i as int + 1).drop_last() =~= views.take(i as int));
                assert(views.take(i as int + 1).last() == part@);
                assert(all@ =~= concat_bytes(views.take(i as int + 1)));
            }
            i = i + 1;
        }
        proof {
            assert(views_of(data@).take(data@.len() as int) =~= views_of(data@));
        }
        let digest = sha256(&all);
        field_from_be_bytes(&digest)
    }
}

/// The preimage of the output commitment: the word at the fixed output
/// address, the memory between the program origin and the final program
/// counter, and the serialized register values.
pub open spec fn output_preimage(regs: Seq<u16>, mem: Seq<u8>) -> Seq<u8> {
    u16_le_bytes(word_at(mem, START_ADDRESS as int)) + mem.subrange(
        START_ADDRESS as int,
        regs[RegisterId::RPC.spec_id() as int] as int,
    ) + u16_vec_bytes(regs)
}

/// Public and private commitments of a run: the program identity pair and
/// the end-state pair. Each public value is the Poseidon hash of the
/// corresponding private value; each private value is a SHA-256 digest
/// reduced into the field.
#[derive(Debug)]
pub struct ZkContext {
    pub public_program_hash: FieldElement,
    pub public_output_hash: FieldElement,
    pub private_program_sha254: FieldElement,
    pub private_output_sha254: FieldElement,
}

impl Default for ZkContext {
    fn default() -> (r: Self)
        ensures
            r.public_program_hash@ == seq![0u64, 0u64, 0u64, 0u64],
            r.public_output_hash@ == seq![0u64, 0u64, 0u64, 0u64],
            r.private_program_sha254@ == seq![0u64, 0u64, 0u64, 0u64],
            r.private_output_sha254@ == seq![0u64, 0u64, 0u64, 0u64],
    {
        Self {
            public_program_hash: FieldElement::zero(),
            public_output_hash: FieldElement::zero(),
            private_program_sha254: FieldElement::zero(),
            private_output_sha254: FieldElement::zero(),
        }
    }
}

impl ZkContext {
    pub fn new() -> (r: Self)
        ensures
            r.public_program_hash@ == seq![0u64, 0u64, 0u64, 0u64],
            r.public_output_hash@ == seq![0u64, 0u64, 0u64, 0u64],
            r.private_program_sha254@ == seq![0u64, 0u64, 0u64, 0u64],
            r.private_output_sha254@ == seq![0u64, 0u64, 0u64, 0u64],
    {
        Self::default()
    }

    /// Applies the algebraic permutation hash to one field element.
    pub fn compute_poseidon_hash(input: &FieldElement) -> (r: FieldElement)
        ensures
            r@ == poseidon_of(input@),
    {
        let limbs = input.limbs_vec();
        let out = poseidon_hash_limbs(&limbs);
        FieldElement::from_limbs(out)
    }

    /// Commits to the program words alone, before execution: the private
    /// value is the reduced SHA-256 digest of the serialized program, the
    /// public value its Poseidon hash.
    pub fn set_public_program(&mut self, program: Vec<VMWord>) -> (r: Result<(), VMError>)
        ensures
            r is Ok,
            final(self).private_program_sha254@ == commit_private(u16_vec_bytes(program@)),
            final(self).public_program_hash@ == commit_public(u16_vec_bytes(program@)),
            final(self).public_output_hash == old(self).public_output_hash,
            final(self).private_output_sha254 == old(self).private_output_sha254,
    {
        let serialized_program = serialize_u16_vec(&program);
        let sha_to_bn254_field = Sha256Hash::hash(&serialized_program);
        let poseidon_hashed = Self::compute_poseidon_hash(&sha_to_bn254_field);
        self.private_program_sha254 = sha_to_bn254_field;
        self.public_program_hash = poseidon_hashed;
        Ok(())
    }

    /// Commits to the end state of a run: the word at the fixed output
    /// address, the memory between the program origin and the program
    /// counter, and the register values, hashed and reduced as one
    /// preimage. The caller must ensure the program counter lies between
    /// the origin and the memory capacity; the commitment fails exactly
    /// when the output address is unreadable.
    pub fn set_public_output<M: BusDevice>(
        &mut self,
        registers: &RegisterBank,
        memory: &M,
    ) -> (r: Result<(), VMError>)
        requires
            START_ADDRESS <= registers.values()[RegisterId::RPC.spec_id() as int],
            registers.values()[RegisterId::RPC.spec_id() as int] <= memory.bytes().len(),
        ensures
            read16_spec(memory.bytes(), START_ADDRESS) is None ==> r == Err::<(), VMError>(
                VMError::MemoryReadError,
            ) && *final(self) == *old(self),
            read16_spec(memory.bytes(), START_ADDRESS) is Some ==> {
                &&& r is Ok
                &&& final(self).private_output_sha254@ == commit_private(
                    output_preimage(registers.values(), memory.bytes()),
                )
                &&& final(self).public_output_hash@ == commit_public(
                    output_preimage(registers.values(), memory.bytes()),
                )
                &&& final(self).public_program_hash == old(self).public_program_hash
                &&& final(self).private_program_sha254 == old(self).private_program_sha254
            },
    {
        let pc_reg = match registers.get_register_read_only(RegisterId::RPC.id()) {
            Ok(reg) => reg,
            Err(e) => {
                return Err(e);
            },
        };
        let pc = pc_reg.value as usize;
        let output_from_r0 = match memory.read2(START_ADDRESS) {
            Some(v) => v,
            None => {
                return Err(VMError::MemoryReadError);
            },
        };

        let output_state = serialize_u16(output_from_r0);
        let final_memory_subset = memory.get_subset_of_memory(START_ADDRESS as usize, pc);
        let register_values = registers.values_vec();
        let final_registers_state = serialize_u16_vec(&register_values);

        let mut parts: Vec<Vec<u8>> = Vec::new();
        parts.push(output_state);
        parts.push(final_memory_subset);
        parts.push(final_registers_state);
        let sha_to_bn254_field = Sha256Hash::hash_multiple(&parts);

        proof {
            let pre = output_preimage(registers.values(), memory.bytes());
            let views = views_of(parts@);
            lemma_concat_bytes3(views);
            assert(concat_bytes(views) =~= pre);
        }

        let poseidon_hash = Self::compute_poseidon_hash(&sha_to_bn254_field);
        self.public_output_hash = poseidon_hash;
        self.private_output_sha254 = sha_to_bn254_field;
        Ok(())
    }
}

} // verus!
