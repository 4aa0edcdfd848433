//! The expected-public-key descriptor: an X.509 SubjectPublicKeyInfo
//! structure (RFC 5280, section 4.1.2.7), held as its raw DER bytes.
//!
//! ```text
//!    SubjectPublicKeyInfo  ::=  SEQUENCE  {
//!         algorithm            AlgorithmIdentifier,
//!         subjectPublicKey     BIT STRING  }
//! ```
//!
//! DER encoding is canonical, so two descriptors hold the same algorithm
//! identifier and key material exactly when their raw bytes are equal;
//! equality, the sole operation key pinning needs, is byte equality.
use vstd::prelude::*;

use crate::error::HandshakeError;
use crate::pki;

verus! {

/// What [`Psk::deserialize`] yields on these bytes: the raw bytes of the
/// descriptor when a SubjectPublicKeyInfo structure starts the input
/// (trailing bytes are ignored) and that structure's own encoding parses
/// back to itself in full; nothing otherwise. The second condition rules
/// out encodings the lenient parser accepts but whose reported structure is
/// not itself a complete encoding (an outer SEQUENCE declaring more content
/// than its two fields cover), which could not round-trip.
pub open spec fn spec_deserialize(b: Seq<u8>) -> Option<Seq<u8>> {
    match pki::spki_parse_len(b) {
        Some(n) => {
            if pki::spki_parse_len(b.take(n)) == Some(n) {
                Some(b.take(n))
            } else {
                None
            }
        },
        None => None,
    }
}

/// The expected public key of the peer, as a parsed-and-validated
/// SubjectPublicKeyInfo structure held by its raw DER bytes. Immutable once
/// constructed; one descriptor is shared, read-only, across all handshakes a
/// verifier instance authenticates.
#[derive(Debug, Clone)]
pub struct Psk {
    pub(crate) raw: Vec<u8>,
}

impl View for Psk {
    type V = Seq<u8>;

    closed spec fn view(&self) -> Seq<u8> {
        self.raw@
    }
}

impl Psk {
    /// The descriptor's raw bytes form a complete, well-formed
    /// SubjectPublicKeyInfo structure. Established by [`Psk::deserialize`],
    /// the sole constructor, and never disturbed afterwards.
    pub open spec fn wf(&self) -> bool {
        pki::spki_parse_len(self@) == Some(self@.len() as int)
    }

    /// Constructs a descriptor from the DER bytes of a SubjectPublicKeyInfo
    /// structure, taking the structure's exact encoding and ignoring any
    /// trailing bytes; fails with a decode error exactly when no well-formed
    /// structure starts the input. The structure's encoding is parsed a
    /// second time and must come back whole: that establishes the
    /// round-trip by construction and rejects encodings only the parser's
    /// leniency let through. Never panics.
    pub fn deserialize(bytes: &[u8]) -> (r: Result<Psk, HandshakeError>)
        ensures
            r matches Ok(p) ==> {
                &&& spec_deserialize(bytes@) == Some(p@)
                &&& p.wf()
                &&& spec_deserialize(p@) == Some(p@)
            },
            r is Err <==> spec_deserialize(bytes@) is None,
            r matches Err(e) ==> e == HandshakeError::DecodeError,
    {
        match pki::parse_spki_prefix(bytes) {
            Some(raw) => {
                match pki::parse_spki_prefix(raw.as_slice()) {
                    Some(again) => {
                        if again.len() == raw.len() {
                            let p = Psk { raw };
                            proof {
                                lemma_roundtrip(&p);
                            }
                            Ok(p)
                        } else {
                            Err(HandshakeError::DecodeError)
                        }
                    },
                    None => Err(HandshakeError::DecodeError),
                }
            },
            None => Err(HandshakeError::DecodeError),
        }
    }

    /// The descriptor's raw bytes, read-only.
    pub(crate) fn raw_ref(&self) -> (r: &Vec<u8>)
        ensures
            r@ == self@,
    {
        &self.raw
    }

    /// The descriptor's serialization form: its raw DER bytes, exactly as
    /// they were consumed at construction.
    pub fn serialize(&self) -> (r: Vec<u8>)
        ensures
            r@ == self@,
    {
        clone_bytes(&self.raw)
    }
}

/// Round trip: serializing a descriptor and deserializing the result yields
/// an equal descriptor. Serialization returns the raw bytes unchanged, so
/// this is the statement that deserialization maps a descriptor's own bytes
/// back to exactly those bytes.
pub proof fn lemma_roundtrip(d: &Psk)
    requires
        d.wf(),
    ensures
        spec_deserialize(d@) == Some(d@),
{
    assert(d@.take(d@.len() as int) =~= d@);
}

/// Byte-for-byte comparison, the structural equality of descriptors.
pub(crate) fn bytes_eq(a: &Vec<u8>, b: &Vec<u8>) -> (r: bool)
    ensures
        r == (a@ == b@),
{
    if a.len() != b.len() {
        return false;
    }
    let mut i: usize = 0;
    while i < a.len()
        invariant
            i <= a.len(),
            a@.len() == b@.len(),
            forall|j: int| 0 <= j < i ==> a@[j] == b@[j],
        decreases a.len() - i,
    {
        if a[i] != b[i] {
            return false;
        }
        i = i + 1;
    }
    proof {
        assert(a@ =~= b@);
    }
    true
}

/// Byte-for-byte copy.
pub(crate) fn clone_bytes(a: &Vec<u8>) -> (r: Vec<u8>)
    ensures
        r@ == a@,
{
    let mut out: Vec<u8> = Vec::new();
    let mut i: usize = 0;
    while i < a.len()
        invariant
            i <= a.len(),
            out@ == a@.take(i as int),
        decreases a.len() - i,
    {
        out.push(a[i]);
        proof {
            assert(out@ =~= a@.take(i as int + 1));
        }
        i = i + 1;
    }
    proof {
        assert(a@.take(a@.len() as int) =~= a@);
    }
    out
}

impl PartialEq for Psk {
    /// Structural equality: same algorithm identifier and same key bytes,
    /// which by DER canonicity is equality of the raw bytes. Side-effect
    /// free; reports only whether the descriptors are equal.
    fn eq(&self, other: &Psk) -> (r: bool) {
        bytes_eq(&self.raw, &other.raw)
    }
}

impl Eq for Psk {

}

impl vstd::std_specs::cmp::PartialEqSpecImpl for Psk {
    open spec fn obeys_eq_spec() -> bool {
        true
    }

    open spec fn eq_spec(&self, other: &Psk) -> bool {
        self@ == other@
    }
}

} // verus!
