//! The envelope around every message after the handshake: an eight-byte id,
//! a four-byte variant tag, then the variant's payload.
use vstd::prelude::*;

use crate::bytes::{
    be_u32,
    be_u32_value,
    be_u64,
    be_u64_value,
    lemma_be_u32_value_of_bytes,
    lemma_be_u64_value_of_bytes,
    u32_from_be,
    u32_to_be,
    u64_from_be,
    u64_to_be,
};

verus! {

/// The error payload the server itself sends.
pub type Error = String;

pub const TAG_ERROR: u32 = 0;

pub const TAG_END: u32 = 1;

pub const TAG_REQUEST: u32 = 2;

pub const TAG_RESPONSE: u32 = 3;

pub const TAG_STREAM: u32 = 4;

/// Bytes of id and tag in front of the payload.
pub const HEADER_LEN: usize = 12;

/// The kind of a transmission; all but `End` carry one payload.
#[derive(Debug)]
pub enum Type<T> {
    Error(T),
    End,
    Request(T),
    Response(T),
    Stream(T),
}

/// A message after the handshake: a correlation id and a typed payload.
#[derive(Debug)]
pub struct Transmission<T> {
    pub id: u64,
    pub kind: Type<T>,
}

impl<T: View> View for Type<T> {
    type V = Type<T::V>;

    open spec fn view(&self) -> Type<T::V> {
        match self {
            Type::Error(p) => Type::Error(p@),
            Type::End => Type::End,
            Type::Request(p) => Type::Request(p@),
            Type::Response(p) => Type::Response(p@),
            Type::Stream(p) => Type::Stream(p@),
        }
    }
}

impl<T: View> View for Transmission<T> {
    type V = Transmission<T::V>;

    open spec fn view(&self) -> Transmission<T::V> {
        Transmission { id: self.id, kind: self.kind@ }
    }
}

/// Why bytes are not a transmission.
#[derive(Debug, PartialEq, Eq, Structural)]
pub enum DecodeError {
    /// Fewer bytes than an id and a tag take.
    Truncated,
    /// A tag that names no variant.
    UnknownTag(u32),
    /// Bytes after an `End`, which carries no payload.
    TrailingBytes,
}

/// The tag that stands for a variant on the wire.
pub open spec fn tag_of<T>(t: Type<T>) -> u32 {
    match t {
        Type::Error(_) => TAG_ERROR,
        Type::End => TAG_END,
        Type::Request(_) => TAG_REQUEST,
        Type::Response(_) => TAG_RESPONSE,
        Type::Stream(_) => TAG_STREAM,
    }
}

/// The payload bytes of a variant; none for `End`.
pub open spec fn payload_of(t: Type<Seq<u8>>) -> Seq<u8> {
    match t {
        Type::End => Seq::empty(),
        Type::Error(p) => p,
        Type::Request(p) => p,
        Type::Response(p) => p,
        Type::Stream(p) => p,
    }
}

/// The bytes of a transmission whose payload is already serialized.
pub open spec fn encoded(t: Transmission<Seq<u8>>) -> Seq<u8> {
    be_u64(t.id) + be_u32(tag_of(t.kind)) + payload_of(t.kind)
}

/// The variant a tag names, with `p` as its payload.
pub open spec fn type_of_tag(tag: u32, p: Seq<u8>) -> Type<Seq<u8>>
    recommends
        tag <= TAG_STREAM,
{
    if tag == TAG_ERROR {
        Type::Error(p)
    } else if tag == TAG_END {
        Type::End
    } else if tag == TAG_REQUEST {
        Type::Request(p)
    } else if tag == TAG_RESPONSE {
        Type::Response(p)
    } else {
        Type::Stream(p)
    }
}

/// What a sequence of bytes decodes to: the payload is every byte after the tag.
pub open spec fn decoded(b: Seq<u8>) -> Result<Transmission<Seq<u8>>, DecodeError> {
    if b.len() < HEADER_LEN {
        Err(DecodeError::Truncated)
    } else {
        let tag = be_u32_value(b.subrange(8, 12));
        let rest = b.subrange(12, b.len() as int);
        if tag > TAG_STREAM {
            Err(DecodeError::UnknownTag(tag))
        } else if tag == TAG_END && rest.len() > 0 {
            Err(DecodeError::TrailingBytes)
        } else {
            Ok(Transmission { id: be_u64_value(b.subrange(0, 8)), kind: type_of_tag(tag, rest) })
        }
    }
}

/// Decoding the bytes of a transmission gives that transmission, id and variant
/// included.
pub proof fn lemma_round_trip(t: Transmission<Seq<u8>>)
    ensures
        decoded(encoded(t)) == Ok::<Transmission<Seq<u8>>, DecodeError>(t),
{
    let b = encoded(t);
    lemma_be_u64_value_of_bytes(t.id);
    lemma_be_u32_value_of_bytes(tag_of(t.kind));
    assert(b.subrange(0, 8) =~= be_u64(t.id));
    assert(b.subrange(8, 12) =~= be_u32(tag_of(t.kind)));
    assert(b.subrange(12, b.len() as int) =~= payload_of(t.kind));
}

impl<T> Type<T> {
    /// The tag of this variant.
    pub fn tag(&self) -> (r: u32)
        ensures
            r == tag_of(*self),
    {
        match self {
            Type::Error(_) => TAG_ERROR,
            Type::End => TAG_END,
            Type::Request(_) => TAG_REQUEST,
            Type::Response(_) => TAG_RESPONSE,
            Type::Stream(_) => TAG_STREAM,
        }
    }
}

impl Transmission<Vec<u8>> {
    /// The wire bytes of this transmission: id, tag, payload.
    pub fn encode(&self) -> (r: Vec<u8>)
        requires
            payload_of(self.kind@).len() + HEADER_LEN <= usize::MAX,
        ensures
            r@ == encoded(self@),
    {
        let mut r = u64_to_be(self.id);
        let mut tag = u32_to_be(self.kind.tag());
        r.append(&mut tag);
        match &self.kind {
            Type::End => {},
            Type::Error(p) | Type::Request(p) | Type::Response(p) | Type::Stream(p) => {
                let mut i: usize = 0;
                while i < p.len()
                    invariant
                        i <= p@.len(),
                        r@ == be_u64(self.id) + be_u32(tag_of(self.kind@)) + p@.subrange(0, i as int),
                    decreases p@.len() - i,
                {
                    r.push(p[i]);
                    i += 1;
                    assert(p@.subrange(0, i as int) =~= p@.subrange(0, i - 1) + seq![p@[i - 1]]);
                }
                assert(p@.subrange(0, p@.len() as int) =~= p@);
            },
        }
        r
    }

    /// The transmission held in `b`, whose bytes after the tag are its payload.
    pub fn decode(b: &[u8]) -> (r: Result<Transmission<Vec<u8>>, DecodeError>)
        ensures
            match r {
                Ok(t) => decoded(b@) == Ok::<Transmission<Seq<u8>>, DecodeError>(t@),
                Err(e) => decoded(b@) == Err::<Transmission<Seq<u8>>, DecodeError>(e),
            },
    {
        if b.len() < HEADER_LEN {
            return Err(DecodeError::Truncated);
        }
        let id = u64_from_be(b, 0);
        let tag = u32_from_be(b, 8);
        if tag > TAG_STREAM {
            return Err(DecodeError::UnknownTag(tag));
        }
        if tag == TAG_END {
            if b.len() > HEADER_LEN {
                return Err(DecodeError::TrailingBytes);
            }
            return Ok(Transmission { id, kind: Type::End });
        }
        let mut p: Vec<u8> = Vec::new();
        let mut i: usize = HEADER_LEN;
        while i < b.len()
            invariant
                HEADER_LEN <= i <= b@.len(),
                p@ == b@.subrange(HEADER_LEN as int, i as int),
            decreases b@.len() - i,
        {
            p.push(b[i]);
            i += 1;
            assert(p@ =~= b@.subrange(HEADER_LEN as int, i as int));
        }
        let kind = if tag == TAG_ERROR {
            Type::Error(p)
        } else if tag == TAG_REQUEST {
            Type::Request(p)
        } else if tag == TAG_RESPONSE {
            Type::Response(p)
        } else {
            Type::Stream(p)
        };
        Ok(Transmission { id, kind })
    }
}

} // verus!
