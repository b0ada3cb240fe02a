use vstd::prelude::*;

use vstd::arithmetic::div_mod::{
    lemma_fundamental_div_mod, lemma_mod_sub_multiples_vanish, lemma_small_mod,
};
use vstd::arithmetic::power2::{
    lemma2_to64, lemma2_to64_rest, lemma_pow2_adds, lemma_pow2_strictly_increases, pow2,
};

verus! {

/// Little-endian 64-bit limbs of the scalar-field modulus of the BN254
/// curve (the prime
/// 21888242871839275222246405745257275088548364400416034343698204186575808495617).
pub const MODULUS_LIMB_0: u64 = 0x43E1F593F0000001;

pub const MODULUS_LIMB_1: u64 = 0x2833E84879B97091;

pub const MODULUS_LIMB_2: u64 = 0xB85045B68181585D;

pub const MODULUS_LIMB_3: u64 = 0x30644E72E131A029;

/// The scalar-field modulus of the BN254 curve as an integer.
pub open spec fn modulus() -> int {
    0x30644E72E131A029B85045B68181585D2833E84879B9709143E1F593F0000001int
}

/// The value of four little-endian 64-bit limbs.
pub open spec fn limbs_val(s: Seq<u64>) -> int {
    s[0] + s[1] * 0x1_0000_0000_0000_0000int + s[2]
        * 0x1_0000_0000_0000_0000_0000_0000_0000_0000int + s[3]
        * 0x1_0000_0000_0000_0000_0000_0000_0000_0000_0000_0000_0000_0000int
}

/// The value of a byte sequence read as a big-endian unsigned integer.
pub open spec fn be_bytes_val(s: Seq<u8>) -> int
    decreases s.len(),
{
    if s.len() == 0 {
        0
    } else {
        256 * be_bytes_val(s.drop_last()) + s.last()
    }
}

/// Pins the powers of two used by the limb arithmetic to literals.
proof fn lemma_pow2_literals()
    ensures
        pow2(8) == 0x100,
        pow2(56) == 0x100_0000_0000_0000int,
        pow2(64) == 0x1_0000_0000_0000_0000int,
        pow2(128) == 0x1_0000_0000_0000_0000_0000_0000_0000_0000int,
        pow2(192) == 0x1_0000_0000_0000_0000_0000_0000_0000_0000_0000_0000_0000_0000int,
        pow2(248)
            == 0x100_0000_0000_0000_0000_0000_0000_0000_0000_0000_0000_0000_0000_0000_0000_0000int,
        pow2(256)
            == 0x1_0000_0000_0000_0000_0000_0000_0000_0000_0000_0000_0000_0000_0000_0000_0000_0000int,
{
    lemma2_to64();
    lemma2_to64_rest();
    lemma_pow2_adds(64, 64);
    lemma_pow2_adds(128, 64);
    lemma_pow2_adds(192, 56);
    lemma_pow2_adds(192, 64);
}

/// A big-endian byte sequence of length `n` denotes a value below `2^(8n)`.
pub proof fn lemma_be_bytes_val_bound(s: Seq<u8>)
    ensures
        0 <= be_bytes_val(s) < pow2(8 * s.len()),
    decreases s.len(),
{
    if s.len() == 0 {
        lemma2_to64();
    } else {
        lemma_be_bytes_val_bound(s.drop_last());
        lemma_pow2_adds(8 * (s.len() - 1) as nat, 8);
        lemma2_to64();
    }
}

/// Four 64-bit limbs denote a value below `2^256`.
pub proof fn lemma_limbs_val_bound(s: Seq<u64>)
    requires
        s.len() == 4,
    ensures
        0 <= limbs_val(s),
        limbs_val(s)
            < 0x1_0000_0000_0000_0000_0000_0000_0000_0000_0000_0000_0000_0000_0000_0000_0000_0000int,
{
}

/// The four little-endian 64-bit limbs that denote a given value.
pub open spec fn limbs_of_val(v: int) -> Seq<u64> {
    seq![
        (v % 0x1_0000_0000_0000_0000int) as u64,
        ((v / 0x1_0000_0000_0000_0000int) % 0x1_0000_0000_0000_0000int) as u64,
        ((v / 0x1_0000_0000_0000_0000_0000_0000_0000_0000int) % 0x1_0000_0000_0000_0000int) as u64,
        ((v / 0x1_0000_0000_0000_0000_0000_0000_0000_0000_0000_0000_0000_0000int)
            % 0x1_0000_0000_0000_0000int) as u64,
    ]
}

/// Reading the value of four limbs back into limbs yields the same limbs:
/// the base-2^64 representation is unique.
pub proof fn lemma_limbs_of_val_inverse(s: Seq<u64>)
    requires
        s.len() == 4,
    ensures
        limbs_of_val(limbs_val(s)) == s,
{
    let k1 = 0x1_0000_0000_0000_0000int;
    let k2 = 0x1_0000_0000_0000_0000_0000_0000_0000_0000int;
    let k3 = 0x1_0000_0000_0000_0000_0000_0000_0000_0000_0000_0000_0000_0000int;
    let v = limbs_val(s);
    let q1 = s[1] + s[2] * k1 + s[3] * k2;
    assert(v == q1 * k1 + s[0]) by (nonlinear_arith)
        requires
            v == s[0] + s[1] * k1 + s[2] * (k1 * k1) + s[3] * (k1 * k1 * k1),
            q1 == s[1] + s[2] * k1 + s[3] * (k1 * k1),
            k2 == k1 * k1,
            k3 == k1 * k1 * k1,
    ;
    vstd::arithmetic::div_mod::lemma_fundamental_div_mod_converse_mod(v, k1, q1, s[0] as int);
    vstd::arithmetic::div_mod::lemma_fundamental_div_mod_converse_div(v, k1, q1, s[0] as int);
    let q2 = s[2] + s[3] * k1;
    assert(q1 == q2 * k1 + s[1]) by (nonlinear_arith)
        requires
            q1 == s[1] + s[2] * k1 + s[3] * (k1 * k1),
            q2 == s[2] + s[3] * k1,
    ;
    vstd::arithmetic::div_mod::lemma_fundamental_div_mod_converse_mod(q1, k1, q2, s[1] as int);
    vstd::arithmetic::div_mod::lemma_fundamental_div_mod_converse_div(q1, k1, q2, s[1] as int);
    let r2 = s[0] + s[1] * k1;
    assert(v == q2 * k2 + r2) by (nonlinear_arith)
        requires
            v == s[0] + s[1] * k1 + s[2] * k2 + s[3] * (k1 * k2),
            q2 == s[2] + s[3] * k1,
            r2 == s[0] + s[1] * k1,
            k2 == k1 * k1,
            k3 == k1 * k2,
    ;
    assert(0 <= r2 < k2);
    vstd::arithmetic::div_mod::lemma_fundamental_div_mod_converse_mod(q2, k1, s[3] as int, s[2] as int);
    vstd::arithmetic::div_mod::lemma_fundamental_div_mod_converse_div(v, k2, q2, r2);
    let r3 = s[0] + s[1] * k1 + s[2] * k2;
    assert(v == s[3] * k3 + r3);
    assert(0 <= r3 < k3);
    vstd::arithmetic::div_mod::lemma_fundamental_div_mod_converse_div(v, k3, s[3] as int, r3);
    lemma_small_mod(s[3] as nat, k1 as nat);
    assert(limbs_of_val(v) =~= s);
}

/// A field element of the BN254 scalar field, held as four little-endian
/// 64-bit limbs whose value is always below the modulus.
#[derive(Debug)]
pub struct FieldElement {
    limbs: Vec<u64>,
}

impl View for FieldElement {
    type V = Seq<u64>;

    closed spec fn view(&self) -> Seq<u64> {
        self.limbs@
    }
}

impl FieldElement {
    #[verifier::type_invariant]
    spec fn wf(self) -> bool {
        &&& self.limbs@.len() == 4
        &&& limbs_val(self.limbs@) < modulus()
    }

    /// The additive identity of the field.
    pub fn zero() -> (r: Self)
        ensures
            r@ == seq![0u64, 0u64, 0u64, 0u64],
            limbs_val(r@) == 0,
    {
        let mut limbs: Vec<u64> = Vec::new();
        limbs.push(0);
        limbs.push(0);
        limbs.push(0);
        limbs.push(0);
        proof {
            assert(limbs@ =~= seq![0u64, 0u64, 0u64, 0u64]);
        }
        Self { limbs }
    }

    /// A field element from little-endian limbs already below the modulus.
    pub fn from_limbs(limbs: Vec<u64>) -> (r: Self)
        requires
            limbs@.len() == 4,
            limbs_val(limbs@) < modulus(),
        ensures
            r@ == limbs@,
    {
        Self { limbs }
    }

    /// The little-endian limbs of this element.
    pub fn limbs_vec(&self) -> (r: Vec<u64>)
        ensures
            r@ == self@,
            self@.len() == 4,
            limbs_val(self@) < modulus(),
    {
        proof {
            use_type_invariant(self);
        }
        let mut out: Vec<u64> = Vec::new();
        out.push(self.limbs[0]);
        out.push(self.limbs[1]);
        out.push(self.limbs[2]);
        out.push(self.limbs[3]);
        proof {
            assert(out@ =~= self.limbs@);
        }
        out
    }

    /// Every element's value lies below the modulus.
    pub fn check_canonical(&self) -> (r: bool)
        ensures
            r,
            self@.len() == 4,
            limbs_val(self@) < modulus(),
    {
        proof {
            use_type_invariant(self);
        }
        true
    }
}

/// The modulus as little-endian limbs.
fn modulus_limbs() -> (r: Vec<u64>)
    ensures
        r@.len() == 4,
        limbs_val(r@) == modulus(),
{
    let mut out: Vec<u64> = Vec::new();
    out.push(MODULUS_LIMB_0);
    out.push(MODULUS_LIMB_1);
    out.push(MODULUS_LIMB_2);
    out.push(MODULUS_LIMB_3);
    out
}

/// Shifts a four-limb value left by one byte and brings `b` in as the new
/// lowest byte.
fn shift_in_byte(l: &mut Vec<u64>, b: u8)
    requires
        old(l)@.len() == 4,
        0 <= limbs_val(old(l)@)
            < 0x100_0000_0000_0000_0000_0000_0000_0000_0000_0000_0000_0000_0000_0000_0000_0000int,
    ensures
        final(l)@.len() == 4,
        limbs_val(final(l)@) == 256 * limbs_val(old(l)@) + b,
{
    let l0 = l[0];
    let l1 = l[1];
    let l2 = l[2];
    let l3 = l[3];
    let bb = b as u64;
    proof {
        assert(l3 < 0x100_0000_0000_0000);
    }
    let n0 = (l0 << 8u64) | bb;
    let n1 = (l1 << 8u64) | (l0 >> 56u64);
    let n2 = (l2 << 8u64) | (l1 >> 56u64);
    let n3 = (l3 << 8u64) | (l2 >> 56u64);
    let mut out: Vec<u64> = Vec::new();
    out.push(n0);
    out.push(n1);
    out.push(n2);
    out.push(n3);
    proof {
        assert(n0 == (l0 % 0x100_0000_0000_0000) * 256 + bb && bb < 256) by (bit_vector)
            requires
                n0 == (l0 << 8u64) | bb,
                bb < 0x100,
        ;
        assert(n1 == (l1 % 0x100_0000_0000_0000) * 256 + l0 / 0x100_0000_0000_0000)
            by (bit_vector)
            requires
                n1 == (l1 << 8u64) | (l0 >> 56u64),
        ;
        assert(n2 == (l2 % 0x100_0000_0000_0000) * 256 + l1 / 0x100_0000_0000_0000)
            by (bit_vector)
            requires
                n2 == (l2 << 8u64) | (l1 >> 56u64),
        ;
        assert(n3 == (l3 % 0x100_0000_0000_0000) * 256 + l2 / 0x100_0000_0000_0000)
            by (bit_vector)
            requires
                n3 == (l3 << 8u64) | (l2 >> 56u64),
        ;
        lemma_fundamental_div_mod(l0 as int, 0x100_0000_0000_0000);
        lemma_fundamental_div_mod(l1 as int, 0x100_0000_0000_0000);
        lemma_fundamental_div_mod(l2 as int, 0x100_0000_0000_0000);
        lemma_fundamental_div_mod(l3 as int, 0x100_0000_0000_0000);
        assert(l3 / 0x100_0000_0000_0000 == 0) by {
            assert(l3 < 0x100_0000_0000_0000);
            lemma_small_mod(l3 as nat, 0x100_0000_0000_0000);
        }
        assert(out@ =~= seq![n0, n1, n2, n3]);
        assert(limbs_val(out@) == 256 * limbs_val(old(l)@) + b);
    }
    *l = out;
}

/// Reads a 32-byte big-endian sequence into four little-endian limbs.
fn bytes_be_to_limbs(d: &Vec<u8>) -> (r: Vec<u64>)
    requires
        d@.len() == 32,
    ensures
        r@.len() == 4,
        limbs_val(r@) == be_bytes_val(d@),
{
    let mut l: Vec<u64> = Vec::new();
    l.push(0);
    l.push(0);
    l.push(0);
    l.push(0);
    proof {
        assert(limbs_val(l@) == 0);
        assert(d@.take(0).len() == 0);
    }
    let mut i: usize = 0;
    while i < 32
        invariant
            d@.len() == 32,
            i <= 32,
            l@.len() == 4,
            limbs_val(l@) == be_bytes_val(d@.take(i as int)),
        decreases 32 - i,
    {
        proof {
            lemma_be_bytes_val_bound(d@.take(i as int));
            lemma_pow2_literals();
            if 8 * (i as nat) < 248 {
                lemma_pow2_strictly_increases(8 * (i as nat), 248);
            }
        }
        let b = d[i];
        shift_in_byte(&mut l, b);
        proof {
            let prefix = d@.take(i as int + 1);
            assert(prefix.drop_last() =~= d@.take(i as int));
            assert(prefix.last() == d@[i as int]);
        }
        i = i + 1;
    }
    proof {
        assert(d@.take(32) =~= d@);
    }
    l
}

/// Compares two four-limb values.
fn limbs_ge(a: &Vec<u64>, b: &Vec<u64>) -> (r: bool)
    requires
        a@.len() == 4,
        b@.len() == 4,
    ensures
        r == (limbs_val(a@) >= limbs_val(b@)),
{
    if a[3] != b[3] {
        return a[3] > b[3];
    }
    if a[2] != b[2] {
        return a[2] > b[2];
    }
    if a[1] != b[1] {
        return a[1] > b[1];
    }
    a[0] >= b[0]
}

/// Subtracts one four-limb value from a larger one, with borrow.
fn limbs_sub(a: &Vec<u64>, b: &Vec<u64>) -> (r: Vec<u64>)
    requires
        a@.len() == 4,
        b@.len() == 4,
        limbs_val(b@) <= limbs_val(a@),
    ensures
        r@.len() == 4,
        limbs_val(r@) == limbs_val(a@) - limbs_val(b@),
{
    let two64: u128 = 0x1_0000_0000_0000_0000;
    let t0: u128 = (a[0] as u128) + two64 - (b[0] as u128);
    let r0: u64 = if t0 >= two64 {
        (t0 - two64) as u64
    } else {
        t0 as u64
    };
    let c0: u128 = if t0 >= two64 {
        0
    } else {
        1
    };
    let t1: u128 = (a[1] as u128) + two64 - (b[1] as u128) - c0;
    let r1: u64 = if t1 >= two64 {
        (t1 - two64) as u64
    } else {
        t1 as u64
    };
    let c1: u128 = if t1 >= two64 {
        0
    } else {
        1
    };
    let t2: u128 = (a[2] as u128) + two64 - (b[2] as u128) - c1;
    let r2: u64 = if t2 >= two64 {
        (t2 - two64) as u64
    } else {
        t2 as u64
    };
    let c2: u128 = if t2 >= two64 {
        0
    } else {
        1
    };
    let t3: u128 = (a[3] as u128) + two64 - (b[3] as u128) - c2;
    let r3: u64 = if t3 >= two64 {
        (t3 - two64) as u64
    } else {
        t3 as u64
    };
    let c3: u128 = if t3 >= two64 {
        0
    } else {
        1
    };
    let mut out: Vec<u64> = Vec::new();
    out.push(r0);
    out.push(r1);
    out.push(r2);
    out.push(r3);
    proof {
        assert(out@ =~= seq![r0, r1, r2, r3]);
        assert(limbs_val(out@) == limbs_val(a@) - limbs_val(b@) + (c3 as int)
            * 0x1_0000_0000_0000_0000_0000_0000_0000_0000_0000_0000_0000_0000_0000_0000_0000_0000int);
        if c3 == 1 {
            lemma_limbs_val_bound(out@);
            assert(false);
        }
    }
    out
}

/// Reduces a 32-byte big-endian digest modulo the field modulus. The result
/// is always a canonical field element, strictly below the modulus, for
/// every possible digest.
pub fn field_from_be_bytes(digest: &Vec<u8>) -> (r: FieldElement)
    requires
        digest@.len() == 32,
    ensures
        limbs_val(r@) == be_bytes_val(digest@) % modulus(),
        limbs_val(r@) < modulus(),
        r@.len() == 4,
        r@ == limbs_of_val(be_bytes_val(digest@) % modulus()),
    {
    let mut x = bytes_be_to_limbs(digest);
    let p = modulus_limbs();
    while limbs_ge(&x, &p)
        invariant
            x@.len() == 4,
            p@.len() == 4,
            limbs_val(p@) == modulus(),
            0 <= limbs_val(x@),
            limbs_val(x@) % modulus() == be_bytes_val(digest@) % modulus(),
        decreases limbs_val(x@),
    {
        let ghost pre = limbs_val(x@);
        x = limbs_sub(&x, &p);
        proof {
            lemma_mod_sub_multiples_vanish(pre, modulus());
        }
    }
    proof {
        lemma_small_mod(limbs_val(x@) as nat, modulus() as nat);
        lemma_limbs_of_val_inverse(x@);
    }
    FieldElement::from_limbs(x)
}

} // verus!
