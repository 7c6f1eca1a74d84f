use vstd::prelude::*;
use crate::error::{DecodeError, JdwpError};
use crate::wire::{parse_u8, Codec, Decode, Encode, Reader, WireModel};

verus! {

/// The kind of a reference type.
#[derive(Debug, Clone, Copy, PartialEq, Eq, Structural)]
pub enum TypeTag {
    Class,
    Interface,
    Array,
}

/// The type tag a wire byte stands for; other bytes stand for none.
pub open spec fn type_tag_of(v: u8) -> Option<TypeTag> {
    if v == 1 {
        Some(TypeTag::Class)
    } else if v == 2 {
        Some(TypeTag::Interface)
    } else if v == 3 {
        Some(TypeTag::Array)
    } else {
        None
    }
}

impl TypeTag {
    /// Maps a wire byte to its type tag.
    pub fn from_u8(v: u8) -> (r: Option<TypeTag>)
        ensures
            r == type_tag_of(v),
    {
        if v == 1 {
            Some(TypeTag::Class)
        } else if v == 2 {
            Some(TypeTag::Interface)
        } else if v == 3 {
            Some(TypeTag::Array)
        } else {
            None
        }
    }
}

impl WireModel for TypeTag {
    type Model = TypeTag;

    open spec fn model(&self) -> TypeTag {
        *self
    }
}

impl Decode for TypeTag {
    /// One byte, which must name a tag.
    open spec fn parse(b: Seq<u8>) -> Result<(TypeTag, Seq<u8>), DecodeError> {
        match parse_u8(b) {
            Ok((v, rest)) => match type_tag_of(v) {
                Some(t) => Ok((t, rest)),
                None => Err(DecodeError::InvalidTag(v)),
            },
            Err(e) => Err(e),
        }
    }

    fn decode(r: &mut Reader) -> (res: Result<TypeTag, DecodeError>) {
        match r.read_u8() {
            Ok(v) => match TypeTag::from_u8(v) {
                Some(t) => Ok(t),
                None => Err(DecodeError::InvalidTag(v)),
            },
            Err(e) => Err(e),
        }
    }
}

/// A point in executing code: a method of a class, and a byte-code index in it.
#[derive(Debug, Clone, Copy, PartialEq, Eq, Structural)]
pub struct Location {
    pub type_tag: TypeTag,
    pub class_id: u64,
    pub method_id: u64,
    pub location_idx: u64,
}

impl WireModel for Location {
    type Model = Location;

    open spec fn model(&self) -> Location {
        *self
    }
}

impl Decode for Location {
    /// A type tag, a class id, a method id and an index.
    open spec fn parse(b: Seq<u8>) -> Result<(Location, Seq<u8>), DecodeError> {
        match <(TypeTag, (u64, (u64, u64)))>::parse(b) {
            Ok(((t, (c, (m, i))), rest)) => Ok(
                (Location { type_tag: t, class_id: c, method_id: m, location_idx: i }, rest),
            ),
            Err(e) => Err(e),
        }
    }

    fn decode(r: &mut Reader) -> (res: Result<Location, DecodeError>) {
        match <(TypeTag, (u64, (u64, u64)))>::decode(r) {
            Ok((type_tag, (class_id, (method_id, location_idx)))) => Ok(
                Location { type_tag, class_id, method_id, location_idx },
            ),
            Err(e) => Err(e),
        }
    }
}

/// A reply body read as a whole `R`: every byte belongs to the value.
pub open spec fn parse_body<R: Decode>(body: Seq<u8>) -> Result<R::Model, JdwpError> {
    match R::parse(body) {
        Ok((m, rest)) => if rest.len() == 0 {
            Ok(m)
        } else {
            Err(JdwpError::Decode(DecodeError::TrailingBytes))
        },
        Err(e) => Err(JdwpError::Decode(e)),
    }
}

/// Decodes a reply body, which must hold exactly one `R`.
pub fn decode_body<R: Decode>(body: Vec<u8>) -> (r: Result<R, JdwpError>)
    ensures
        match parse_body::<R>(body@) {
            Ok(m) => r is Ok && r->Ok_0.model() == m,
            Err(e) => r == Err::<R, JdwpError>(e),
        },
{
    let mut reader = Reader::new(body);
    match R::decode(&mut reader) {
        Ok(v) => if reader.remaining() == 0 {
            Ok(v)
        } else {
            Err(JdwpError::Decode(DecodeError::TrailingBytes))
        },
        Err(e) => Err(JdwpError::Decode(e)),
    }
}

/// Serializes command arguments in their declared order.
pub fn request_payload<A: Encode>(args: &A) -> (r: Vec<u8>)
    requires
        A::encodable(args.model()),
    ensures
        r@ == A::encoding(args.model()),
{
    let mut out: Vec<u8> = Vec::new();
    args.encode(&mut out);
    assert(out@ =~= A::encoding(args.model()));
    out
}

/// Sends a command to the debuggee and returns the body of its successful reply.
pub trait CommandChannel {
    fn execute_cmd(&self, command_set: u8, command: u8, data: &[u8]) -> Result<Vec<u8>, JdwpError>;
}

/// Finishes a command from what the channel answered: a channel failure is passed on
/// unchanged, and a reply body is decoded as a whole `R`.
pub fn finish_call<R: Decode>(reply: Result<Vec<u8>, JdwpError>) -> (r: Result<R, JdwpError>)
    ensures
        match reply {
            Ok(body) => match parse_body::<R>(body@) {
                Ok(m) => r is Ok && r->Ok_0.model() == m,
                Err(e) => r == Err::<R, JdwpError>(e),
            },
            Err(e) => r == Err::<R, JdwpError>(e),
        },
{
    match reply {
        Ok(body) => decode_body::<R>(body),
        Err(e) => Err(e),
    }
}

/// Decoding the wire form of a value as a whole reply body gives the value back.
pub proof fn lemma_decode_encode<T: Codec>(m: T::Model)
    requires
        T::encodable(m),
    ensures
        parse_body::<T>(T::encoding(m)) == Ok::<T::Model, JdwpError>(m),
{
    T::lemma_round_trip(m, Seq::empty());
    assert(T::encoding(m) + Seq::<u8>::empty() =~= T::encoding(m));
}

} // verus!
