//! What a hash family has to offer to be used by the proof schemes: a value
//! type, a hash function into it, and the primitives of replication.

use vstd::prelude::*;
use crate::error::Error;
use crate::types::NODE_SIZE;

verus! {

/// A field element or digest: a value of fixed width, with one byte string
/// for each value.
pub trait Domain: Ord + Copy + Clone + Default + core::fmt::Debug + Eq + Send + Sync {
    /// The bytes of a value, least significant first.
    spec fn bytes(&self) -> Seq<u8>;

    /// The value that a byte string denotes, if it denotes one.
    spec fn from_bytes(raw: Seq<u8>) -> Option<Self>;

    /// A value has the width of a node, and its bytes denote it.
    proof fn lemma_bytes_denote_value(&self)
        ensures
            self.bytes().len() == NODE_SIZE,
            Self::from_bytes(self.bytes()) == Some(*self),
    ;

    /// A byte string denotes no value but the one whose bytes it is.
    proof fn lemma_denoted_value_has_bytes(raw: Seq<u8>)
        ensures
            Self::from_bytes(raw) matches Some(value) ==> value.bytes() == raw,
    ;

    fn serialize(&self) -> (out: Vec<u8>)
        ensures
            out@ == self.bytes(),
    ;

    fn into_bytes(&self) -> (out: Vec<u8>)
        ensures
            out@ == self.bytes(),
    ;

    fn try_from_bytes(raw: &[u8]) -> (r: Result<Self, Error>)
        ensures
            r == match Self::from_bytes(raw@) {
                Some(value) => Ok::<Self, Error>(value),
                None => Err::<Self, Error>(Error::Decoding),
            },
    ;

    /// Writes the bytes of the value to the front of `dest`.
    fn write_bytes(&self, dest: &mut [u8]) -> (r: Result<(), Error>)
        ensures
            final(dest)@.len() == old(dest)@.len(),
            r is Ok ==> final(dest)@.len() >= NODE_SIZE && final(dest)@.subrange(
                0,
                NODE_SIZE as int,
            ) == self.bytes(),
    ;
}

/// A hash function from byte strings into a domain, as plain computation
/// and as a gadget of an arithmetic circuit. The two agree: what the gadget
/// binds in the circuit stands for the digest of the bytes it was given.
pub trait HashFunction<T: Domain>: Clone + core::fmt::Debug + Eq + Send + Sync {
    /// A constraint system under construction.
    type ConstraintSystem;

    /// A byte bound in a circuit.
    type CircuitByte;

    /// A field element bound in a circuit.
    type CircuitElement;

    /// The generators and the like that the gadget is built from.
    type CircuitParams;

    /// Why constraints could not be emitted.
    type SynthesisError;

    /// The digest of a byte string.
    spec fn digest(data: Seq<u8>) -> T;

    /// The byte that a bound byte stands for.
    spec fn byte_value(byte: Self::CircuitByte) -> u8;

    /// The domain value that a bound field element stands for.
    spec fn element_value(element: Self::CircuitElement) -> T;

    fn hash(data: &[u8]) -> (d: T)
        ensures
            d == Self::digest(data@),
    ;

    /// The gadget that hashes the two children of a node at `height`.
    fn hash_leaf_circuit(
        cs: Self::ConstraintSystem,
        left: &[Self::CircuitByte],
        right: &[Self::CircuitByte],
        height: usize,
        params: &Self::CircuitParams,
    ) -> (r: Result<Self::CircuitElement, Self::SynthesisError>);

    /// The gadget that hashes a byte string.
    fn hash_circuit(
        cs: Self::ConstraintSystem,
        bits: &[Self::CircuitByte],
        params: &Self::CircuitParams,
    ) -> (r: Result<Self::CircuitElement, Self::SynthesisError>)
        ensures
            r matches Ok(out) ==> Self::element_value(out) == Self::digest(
                Seq::new(bits@.len(), |i: int| Self::byte_value(bits@[i])),
            ),
    ;
}

/// A hash family: a domain, a hash function into it, a key derivation
/// and a keyed permutation of the domain.
pub trait Hasher: Clone + core::fmt::Debug + Eq + Default + Send + Sync {
    type Domain: Domain;

    type Function: HashFunction<Self::Domain>;

    /// The key derived from the bytes of a node's parents, `m` of them.
    spec fn derived_key(data: Seq<u8>, m: usize) -> Self::Domain;

    /// The encoding of a value under a key.
    spec fn encoded(key: Self::Domain, value: Self::Domain) -> Self::Domain;

    /// The value that an encoding stands for under a key.
    spec fn decoded(key: Self::Domain, value: Self::Domain) -> Self::Domain;

    /// Decoding under a key undoes encoding under it.
    proof fn lemma_decoded_encoded(key: Self::Domain, value: Self::Domain)
        ensures
            Self::decoded(key, Self::encoded(key, value)) == value,
    ;

    fn kdf(data: &[u8], m: usize) -> (key: Self::Domain)
        ensures
            key == Self::derived_key(data@, m),
    ;

    fn sloth_encode(key: &Self::Domain, ciphertext: &Self::Domain) -> (out: Self::Domain)
        ensures
            out == Self::encoded(*key, *ciphertext),
    ;

    fn sloth_decode(key: &Self::Domain, ciphertext: &Self::Domain) -> (out: Self::Domain)
        ensures
            out == Self::decoded(*key, *ciphertext),
    ;

    fn name() -> String;
}

/// Reading back the bytes of a value gives the value.
pub proof fn lemma_try_from_bytes_round_trip<D: Domain>(value: D)
    ensures
        D::from_bytes(value.bytes()) == Some(value),
{
    value.lemma_bytes_denote_value();
}

/// A byte string of another width than a node's denotes no value.
pub proof fn lemma_wrong_width_denotes_nothing<D: Domain>(raw: Seq<u8>)
    requires
        raw.len() != NODE_SIZE,
    ensures
        D::from_bytes(raw) is None,
{
    D::lemma_denoted_value_has_bytes(raw);
    if let Some(value) = D::from_bytes(raw) {
        value.lemma_bytes_denote_value();
    }
}

/// Where the gadget hashes bound bytes that stand for `data`, the element
/// it binds stands for what `hash` returns on `data`.
pub proof fn lemma_circuit_hash_agrees<T: Domain, F: HashFunction<T>>(
    data: Seq<u8>,
    bits: Seq<F::CircuitByte>,
    out: F::CircuitElement,
)
    requires
        bits.len() == data.len(),
        forall|i: int| 0 <= i < bits.len() ==> F::byte_value(#[trigger] bits[i]) == data[i],
        F::element_value(out) == F::digest(Seq::new(bits.len(), |i: int| F::byte_value(bits[i]))),
    ensures
        F::element_value(out) == F::digest(data),
{
    assert(Seq::new(bits.len(), |i: int| F::byte_value(bits[i])) =~= data);
}

/// Decoding what was encoded, under the same key, gives the value back.
pub proof fn lemma_sloth_round_trip<H: Hasher>(key: H::Domain, value: H::Domain)
    ensures
        H::decoded(key, H::encoded(key, value)) == value,
{
    H::lemma_decoded_encoded(key, value);
}

} // verus!
