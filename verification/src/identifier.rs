//! Key identity and provenance tags.
//!
//! A `KeyIdentifier` says where a key came from: a local key, a random
//! identity, or a key derived from a parent under a context label.
//! Two keys with equal identifiers hold the same material; decryption
//! with mismatched identifiers fails closed.  A derived identifier keeps
//! its parent as an in-memory back-reference only: it must never be
//! serialized, so the canonical byte form rejects it outright.

use vstd::bytes::{
    lemma_auto_spec_u128_to_from_le_bytes, spec_u128_from_le_bytes, spec_u128_to_le_bytes,
    u128_from_le_bytes, u128_to_le_bytes,
};
use vstd::prelude::*;
use vstd::slice::slice_subrange;

verus! {

/// The mathematical value of a `KeyIdentifier`.
pub enum KeyIdentifierView {
    Local,
    Uuid(u128),
    Derived { context: Seq<char>, derived_from: Option<Box<KeyIdentifierView>> },
}

/// A key's identity and provenance.
#[derive(Debug)]
pub enum KeyIdentifier {
    /// A key used locally, never persisted on its own.
    Local,
    /// A random 128-bit identity.
    Uuid(u128),
    /// A key derived from a parent under a context label; the parent
    /// link lives in memory only.
    Derived { context: String, derived_from: Option<Box<KeyIdentifier>> },
}

/// The value a `KeyIdentifier` stands for.
pub open spec fn id_value(id: KeyIdentifier) -> KeyIdentifierView
    decreases id,
{
    match id {
        KeyIdentifier::Local => KeyIdentifierView::Local,
        KeyIdentifier::Uuid(u) => KeyIdentifierView::Uuid(u),
        KeyIdentifier::Derived { context, derived_from } => KeyIdentifierView::Derived {
            context: context@,
            derived_from: match derived_from {
                Some(p) => Some(Box::new(id_value(*p))),
                None => None,
            },
        },
    }
}

impl View for KeyIdentifier {
    type V = KeyIdentifierView;

    open spec fn view(&self) -> KeyIdentifierView {
        id_value(*self)
    }
}

/// Two keys' identifiers did not match; decryption was refused.
#[derive(Debug, Clone, Copy, PartialEq, Eq, Structural)]
pub struct KeyMismatchError;

impl KeyIdentifier {
    /// The identifier of a local key.
    pub fn local() -> (r: Self)
        ensures
            r@ == KeyIdentifierView::Local,
    {
        KeyIdentifier::Local
    }

    /// A fresh random identity.
    pub fn uuid() -> (r: Self)
        ensures
            r@ is Uuid,
    {
        KeyIdentifier::Uuid(uuid_v4())
    }

    /// The identifier of a key derived from `derived_from` under
    /// `context`.
    pub fn derived(context: String, derived_from: Option<KeyIdentifier>) -> (r: Self)
        ensures
            r@ == (KeyIdentifierView::Derived {
                context: context@,
                derived_from: match derived_from {
                    Some(p) => Some(Box::new(p@)),
                    None => None,
                },
            }),
    {
        KeyIdentifier::Derived {
            context,
            derived_from: match derived_from {
                Some(p) => Some(Box::new(p)),
                None => None,
            },
        }
    }

    /// Compares two identifiers, in full, parent links included.
    pub fn equals(&self, other: &KeyIdentifier) -> (r: bool)
        ensures
            r == (self@ == other@),
        decreases *self,
    {
        match (self, other) {
            (KeyIdentifier::Local, KeyIdentifier::Local) => true,
            (KeyIdentifier::Uuid(a), KeyIdentifier::Uuid(b)) => a == b,
            (
                KeyIdentifier::Derived { context: c1, derived_from: p1 },
                KeyIdentifier::Derived { context: c2, derived_from: p2 },
            ) => {
                if !c1.eq(c2) {
                    return false;
                }
                match (p1, p2) {
                    (None, None) => true,
                    (Some(a), Some(b)) => a.equals(b),
                    _ => false,
                }
            },
            _ => false,
        }
    }

    /// A full copy of the identifier, parent links included.
    pub fn clone_id(&self) -> (r: Self)
        ensures
            r@ == self@,
        decreases *self,
    {
        match self {
            KeyIdentifier::Local => KeyIdentifier::Local,
            KeyIdentifier::Uuid(u) => KeyIdentifier::Uuid(*u),
            KeyIdentifier::Derived { context, derived_from } => KeyIdentifier::Derived {
                context: context.clone(),
                derived_from: match derived_from {
                    Some(p) => Some(Box::new(p.clone_id())),
                    None => None,
                },
            },
        }
    }

    /// Fails closed unless the two identifiers are equal: the check that
    /// runs before any decryption.
    pub fn verify_identifier(&self, other_key_id: &KeyIdentifier) -> (r: Result<
        (),
        KeyMismatchError,
    >)
        ensures
            self@ == other_key_id@ <==> r is Ok,
    {
        if self.equals(other_key_id) {
            Ok(())
        } else {
            Err(KeyMismatchError)
        }
    }
}

/// An attempt to serialize a derived identifier: a programming error,
/// never a storable value, because a derived identifier's context and
/// parent chain must stay in memory only.
#[derive(Debug, Clone, Copy, PartialEq, Eq, Structural)]
pub struct SerializeDeriveKeyError;

/// The byte form of a serializable identifier: a tag byte, then the
/// identity's bytes.
pub open spec fn spec_id_serialized(v: KeyIdentifierView) -> Seq<u8>
    recommends
        !(v is Derived),
{
    match v {
        KeyIdentifierView::Local => seq![0u8],
        KeyIdentifierView::Uuid(u) => seq![1u8] + spec_u128_to_le_bytes(u),
        KeyIdentifierView::Derived { .. } => Seq::empty(),
    }
}

/// The identifier a byte string decodes to, if any.
pub open spec fn spec_id_deserialized(b: Seq<u8>) -> Option<KeyIdentifierView> {
    if b =~= seq![0u8] {
        Some(KeyIdentifierView::Local)
    } else if b.len() == 17 && b[0] == 1 {
        Some(KeyIdentifierView::Uuid(spec_u128_from_le_bytes(b.skip(1))))
    } else {
        None
    }
}

impl KeyIdentifier {
    /// The canonical byte form: defined for local and random
    /// identities; serializing a derived identifier is rejected as a
    /// programming error, so a derivation context is never persisted.
    pub fn to_bytes(&self) -> (r: Result<Vec<u8>, SerializeDeriveKeyError>)
        ensures
            self@ is Derived <==> r is Err,
            r matches Ok(b) ==> b@ == spec_id_serialized(self@) && spec_id_deserialized(b@)
                == Some(self@),
    {
        proof {
            lemma_auto_spec_u128_to_from_le_bytes();
        }
        match self {
            KeyIdentifier::Local => {
                let mut out: Vec<u8> = Vec::new();
                out.push(0);
                assert(out@ =~= seq![0u8]);
                Ok(out)
            },
            KeyIdentifier::Uuid(u) => {
                let mut out: Vec<u8> = Vec::new();
                out.push(1);
                let mut bytes = u128_to_le_bytes(*u);
                out.append(&mut bytes);
                assert(out@ =~= seq![1u8] + spec_u128_to_le_bytes(*u));
                assert(out@.skip(1) =~= spec_u128_to_le_bytes(*u));
                assert(!(out@ =~= seq![0u8]));
                Ok(out)
            },
            KeyIdentifier::Derived { .. } => Err(SerializeDeriveKeyError),
        }
    }

    /// Decodes a canonical byte form; only local and random identities
    /// have one.
    pub fn from_bytes(bytes: &[u8]) -> (r: Option<KeyIdentifier>)
        ensures
            match r {
                Some(id) => spec_id_deserialized(bytes@) == Some(id@) && !(id@ is Derived),
                None => spec_id_deserialized(bytes@) is None,
            },
    {
        if bytes.len() == 1 && bytes[0] == 0 {
            assert(bytes@ =~= seq![0u8]);
            Some(KeyIdentifier::Local)
        } else if bytes.len() == 17 && bytes[0] == 1 {
            let u = u128_from_le_bytes(slice_subrange(bytes, 1, 17));
            assert(bytes@.skip(1) =~= bytes@.subrange(1, 17));
            Some(KeyIdentifier::Uuid(u))
        } else {
            assert(!(bytes@ =~= seq![0u8]));
            None
        }
    }
}

/// Relies on uuid's `Uuid::new_v4`: a fresh random version-4 identity,
/// read out as its 128-bit value.  Nothing can be said about the bits.
#[verifier::external_body]
fn uuid_v4() -> (r: u128)
{
    uuid::Uuid::new_v4().as_u128()
}

} // verus!
