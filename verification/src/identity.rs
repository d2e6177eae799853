//! Caller identities: opaque byte strings of at most 29 bytes, with the
//! textual form that the platform prints and parses.

use candid::Principal;
use vstd::prelude::*;

verus! {

broadcast use vstd::array::group_array_axioms;

/// The longest byte string that is an identity.
pub const MAX_IDENTITY_BYTES: usize = 29;

/// The unique reference of a caller. Its view is its significant bytes.
#[derive(Clone, Copy, Debug, PartialEq, Eq, PartialOrd, Ord, Hash)]
pub struct Identity {
    len: u8,
    bytes: [u8; 29],
}

impl View for Identity {
    type V = Seq<u8>;

    closed spec fn view(&self) -> Seq<u8> {
        self.bytes@.subrange(0, self.len as int)
    }
}

/// The bytes that a textual identity decodes to, or `None` for a text that is
/// no identity.
pub uninterp spec fn principal_from_text(text: Seq<char>) -> Option<Seq<u8>>;

/// The textual form of an identity's bytes.
pub uninterp spec fn principal_text(bytes: Seq<u8>) -> Seq<char>;

/// Calls `candid::Principal::from_text` and hands out the bytes of the
/// principal it parsed. Trusted: the result is a function of the text alone,
/// and a principal never holds more than 29 bytes.
#[verifier::external_body]
fn decode_principal(text: &str) -> (decoded: Option<Vec<u8>>)
    ensures
        decoded matches Some(bytes) ==> principal_from_text(text@) == Some(bytes@) && bytes@.len()
            <= 29,
        decoded is None ==> principal_from_text(text@) is None,
{
    match Principal::from_text(text) {
        Ok(principal) => Some(principal.as_slice().to_vec()),
        Err(_) => None,
    }
}

/// Calls `candid::Principal::from_slice` and then `to_text` on it. Trusted:
/// the text is a function of the bytes alone. `from_slice` panics on more than
/// 29 bytes, which the precondition excludes.
#[verifier::external_body]
fn encode_principal(bytes: &[u8]) -> (text: String)
    requires
        bytes@.len() <= 29,
    ensures
        text@ == principal_text(bytes@),
{
    Principal::from_slice(bytes).to_text()
}

impl Identity {
    #[verifier::type_invariant]
    spec fn well_formed(self) -> bool {
        &&& self.len <= 29
        &&& forall|i: int| self.len <= i < 29 ==> self.bytes@[i] == 0
    }

    /// The number of significant bytes, never more than 29.
    pub fn len(&self) -> (n: usize)
        ensures
            n == self@.len(),
            n <= MAX_IDENTITY_BYTES,
    {
        proof {
            use_type_invariant(self);
        }
        self.len as usize
    }

    /// The identity of a caller that presented no credentials: the single
    /// byte 4.
    pub fn anonymous() -> (id: Identity)
        ensures
            id@ == seq![4u8],
    {
        let mut bytes = [0u8; 29];
        bytes[0] = 4;
        let id = Identity { len: 1, bytes };
        assert(id@ =~= seq![4u8]);
        id
    }

    /// The identity with the given bytes, or `None` where there are more than
    /// 29 of them.
    pub fn try_from_slice(slice: &[u8]) -> (made: Option<Identity>)
        ensures
            slice@.len() <= MAX_IDENTITY_BYTES ==> made is Some && made->0@ == slice@,
            slice@.len() > MAX_IDENTITY_BYTES ==> made is None,
    {
        if slice.len() > MAX_IDENTITY_BYTES {
            return None;
        }
        let mut bytes = [0u8; 29];
        let mut i: usize = 0;
        while i < slice.len()
            invariant
                i <= slice.len() <= 29,
                forall|j: int| 0 <= j < i ==> bytes@[j] == slice@[j],
                forall|j: int| i <= j < 29 ==> bytes@[j] == 0,
            decreases slice.len() - i,
        {
            bytes[i] = slice[i];
            i += 1;
        }
        let id = Identity { len: slice.len() as u8, bytes };
        assert(id@ =~= slice@);
        Some(id)
    }

    /// The identity with the given bytes.
    pub fn from_slice(slice: &[u8]) -> (id: Identity)
        requires
            slice@.len() <= MAX_IDENTITY_BYTES,
        ensures
            id@ == slice@,
    {
        Identity::try_from_slice(slice).unwrap()
    }

    /// The significant bytes.
    pub fn to_vec(&self) -> (bytes: Vec<u8>)
        ensures
            bytes@ == self@,
            bytes@.len() <= MAX_IDENTITY_BYTES,
    {
        proof {
            use_type_invariant(self);
        }
        let mut out: Vec<u8> = Vec::new();
        let mut i: usize = 0;
        while i < self.len as usize
            invariant
                i <= self.len <= 29,
                out@ == self.bytes@.subrange(0, i as int),
            decreases self.len - i,
        {
            out.push(self.bytes[i]);
            assert(self.bytes@.subrange(0, i + 1) =~= self.bytes@.subrange(0, i as int).push(
                self.bytes@[i as int],
            ));
            i += 1;
        }
        out
    }

    /// Whether two identities hold the same bytes.
    pub fn equals(&self, other: &Identity) -> (same: bool)
        ensures
            same == (self@ == other@),
    {
        proof {
            use_type_invariant(self);
            use_type_invariant(other);
        }
        if self.len != other.len {
            assert(self@.len() != other@.len());
            return false;
        }
        let mut i: usize = 0;
        while i < self.len as usize
            invariant
                i <= self.len <= 29,
                self.len == other.len,
                forall|j: int| 0 <= j < i ==> self.bytes@[j] == other.bytes@[j],
            decreases self.len - i,
        {
            if self.bytes[i] != other.bytes[i] {
                assert(self@[i as int] != other@[i as int]);
                return false;
            }
            i += 1;
        }
        assert(self@ =~= other@);
        true
    }

    /// Parses the textual form of an identity.
    pub fn from_text(text: &str) -> (parsed: Option<Identity>)
        ensures
            match principal_from_text(text@) {
                Some(bytes) => parsed is Some && parsed->0@ == bytes,
                None => parsed is None,
            },
    {
        match decode_principal(text) {
            Some(bytes) => Identity::try_from_slice(bytes.as_slice()),
            None => None,
        }
    }

    /// The textual form of the identity.
    pub fn to_text(&self) -> (text: String)
        ensures
            text@ == principal_text(self@),
    {
        let bytes = self.to_vec();
        encode_principal(bytes.as_slice())
    }
}

} // verus!
