use vstd::prelude::*;
use crate::error::{DecodeError, JdwpError};
use crate::jdwp::{finish_call, request_payload, CommandChannel};
use crate::wire::{be_u64, Decode, Reader, WireModel};

verus! {

/// The ObjectReference command set.
pub const COMMAND_SET: u8 = 9;

/// The reference type command.
pub const REFERENCE_TYPE: u8 = 1;

/// Reply to the reference type command.
#[derive(Debug, Clone, PartialEq, Eq)]
pub struct ReferenceTypeReply {
    pub ref_type_tag: u8,
    pub type_id: u64,
}

impl WireModel for ReferenceTypeReply {
    type Model = <(u8, (u64, ())) as WireModel>::Model;

    open spec fn model(&self) -> Self::Model {
        (self.ref_type_tag.model(), (self.type_id.model(), ()))
    }
}

impl Decode for ReferenceTypeReply {
    /// The fields in declared order: ref_type_tag, type_id.
    open spec fn parse(b: Seq<u8>) -> Result<(Self::Model, Seq<u8>), DecodeError> {
        <(u8, (u64, ()))>::parse(b)
    }

    fn decode(r: &mut Reader) -> (res: Result<ReferenceTypeReply, DecodeError>) {
        match <(u8, (u64, ()))>::decode(r) {
            Ok((ref_type_tag, (type_id, ()))) => Ok(ReferenceTypeReply { ref_type_tag, type_id }),
            Err(e) => Err(e),
        }
    }
}

/// The command set, command and payload of the reference type command, with object_id in order.
pub fn reference_type_request(object_id: u64) -> (r: (u8, u8, Vec<u8>))
    ensures
        r.0 == COMMAND_SET,
        r.1 == REFERENCE_TYPE,
        r.2@ == be_u64(object_id),
{
    let payload = request_payload(&(object_id, ()));
    assert(payload@ =~= be_u64(object_id));
    (COMMAND_SET, REFERENCE_TYPE, payload)
}

/// Issues the reference type command and decodes its reply; a failure of the channel is
/// passed on.
pub fn reference_type<C: CommandChannel>(
    conn: &C,
    object_id: u64,
) -> (r: Result<ReferenceTypeReply, JdwpError>)
{
    let (command_set, command, payload) = reference_type_request(object_id);
    finish_call(conn.execute_cmd(command_set, command, payload.as_slice()))
}

} // verus!
