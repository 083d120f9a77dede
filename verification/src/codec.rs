//! Canonical byte encoding of the values the cipher works on.
//!
//! Payloads are turned into bytes before encryption and recovered after
//! decryption.  The format is length-prefixed: a field is written as its
//! byte length in eight little-endian bytes followed by the bytes
//! themselves.  Decoding is proved to invert encoding, which is what makes
//! the encrypt/decrypt round trip of the cipher exact.

use vstd::bytes::{
    lemma_auto_spec_u64_to_from_le_bytes, spec_u64_from_le_bytes, spec_u64_to_le_bytes,
    u64_from_le_bytes, u64_to_le_bytes,
};
use vstd::prelude::*;
use vstd::slice::{slice_subrange, slice_to_vec};
use vstd::utf8::{encode_utf8, valid_utf8};

verus! {

/// A value that has a canonical byte form.
///
/// `spec_serialized` and `spec_deserialized` describe the format at the
/// level of the value's view; the executable functions are proved to
/// follow them, and `lemma_serialization_round_trip` shows that the
/// format loses nothing: decoding an encoded value gives the value back.
pub trait Serializable: View + Sized {
    /// Encodable values: their fields fit the format's length fields.
    spec fn spec_wf(v: Self::V) -> bool;

    /// The canonical byte form of a value.
    spec fn spec_serialized(v: Self::V) -> Seq<u8>;

    /// The value a byte string decodes to, if any.
    spec fn spec_deserialized(b: Seq<u8>) -> Option<Self::V>;

    /// Decoding inverts encoding.
    proof fn lemma_serialization_round_trip(v: Self::V)
        requires
            Self::spec_wf(v),
        ensures
            Self::spec_deserialized(Self::spec_serialized(v)) == Some(v),
    ;

    /// Encodes the value.
    fn serialize(&self) -> (r: Vec<u8>)
        ensures
            r@ == Self::spec_serialized(self@),
            Self::spec_wf(self@),
    ;

    /// Decodes a byte string; rejects exactly what the format rejects.
    fn deserialize(bytes: &[u8]) -> (r: Option<Self>)
        ensures
            match r {
                Some(x) => Self::spec_deserialized(bytes@) == Some(x@) && Self::spec_wf(x@),
                None => Self::spec_deserialized(bytes@) is None,
            },
    ;
}

/// A field written as its length in eight little-endian bytes, then its
/// bytes.
pub open spec fn length_prefixed(data: Seq<u8>) -> Seq<u8> {
    spec_u64_to_le_bytes(data.len() as u64) + data
}

/// Reading one length-prefixed field starting at `start`: the field's
/// bytes and the position just after them.
pub open spec fn parse_length_prefixed(b: Seq<u8>, start: int) -> Option<(Seq<u8>, int)> {
    if 0 <= start && start + 8 <= b.len() {
        let n = spec_u64_from_le_bytes(b.subrange(start, start + 8)) as int;
        if start + 8 + n <= b.len() {
            Some((b.subrange(start + 8, start + 8 + n), start + 8 + n))
        } else {
            None
        }
    } else {
        None
    }
}

/// Reading a field back out of an encoding recovers the field, whatever
/// follows it.
pub proof fn lemma_parse_length_prefixed(before: Seq<u8>, data: Seq<u8>, after: Seq<u8>)
    requires
        data.len() <= u64::MAX,
    ensures
        parse_length_prefixed(before + length_prefixed(data) + after, before.len() as int)
            == Some((data, before.len() + 8 + data.len() as int)),
{
    lemma_auto_spec_u64_to_from_le_bytes();
    let whole = before + length_prefixed(data) + after;
    let start = before.len() as int;
    assert(whole.subrange(start, start + 8) =~= spec_u64_to_le_bytes(data.len() as u64));
    assert(whole.subrange(start + 8, start + 8 + data.len()) =~= data);
}

/// Appends one length-prefixed field to a buffer.
pub fn push_length_prefixed(out: &mut Vec<u8>, data: &[u8])
    ensures
        final(out)@ == old(out)@ + length_prefixed(data@),
        data@.len() <= u64::MAX,
{
    let mut lenb = u64_to_le_bytes(data.len() as u64);
    out.append(&mut lenb);
    out.extend_from_slice(data);
    assert(out@ =~= old(out)@ + length_prefixed(data@));
}

/// Reads one length-prefixed field out of a buffer, starting at `start`.
pub fn read_length_prefixed(bytes: &[u8], start: usize) -> (r: Option<(Vec<u8>, usize)>)
    requires
        start <= bytes@.len(),
    ensures
        match r {
            Some(p) => parse_length_prefixed(bytes@, start as int) == Some((p.0@, p.1 as int)),
            None => parse_length_prefixed(bytes@, start as int) is None,
        },
{
    if bytes.len() - start < 8 {
        return None;
    }
    let lenb = slice_subrange(bytes, start, start + 8);
    let n64 = u64_from_le_bytes(lenb);
    if n64 > (bytes.len() - start - 8) as u64 {
        return None;
    }
    let n = n64 as usize;
    let field = slice_subrange(bytes, start + 8, start + 8 + n);
    Some((slice_to_vec(field), start + 8 + n))
}

/// Relies on std's `String::from_utf8`: it succeeds exactly on valid
/// UTF-8 and the returned string holds exactly the given bytes.
#[verifier::external_body]
pub(crate) fn string_from_utf8(bytes: Vec<u8>) -> (r: Option<String>)
    ensures
        r matches Some(s) ==> valid_utf8(bytes@) && encode_utf8(s@) == bytes@,
        r is None ==> !valid_utf8(bytes@),
{
    String::from_utf8(bytes).ok()
}

/// Raw bytes encode as themselves; every byte string decodes.
impl Serializable for Vec<u8> {
    open spec fn spec_wf(v: Seq<u8>) -> bool {
        true
    }

    open spec fn spec_serialized(v: Seq<u8>) -> Seq<u8> {
        v
    }

    open spec fn spec_deserialized(b: Seq<u8>) -> Option<Seq<u8>> {
        Some(b)
    }

    proof fn lemma_serialization_round_trip(v: Seq<u8>) {
    }

    fn serialize(&self) -> (r: Vec<u8>) {
        self.clone()
    }

    fn deserialize(bytes: &[u8]) -> (r: Option<Self>) {
        Some(slice_to_vec(bytes))
    }
}

} // verus!
