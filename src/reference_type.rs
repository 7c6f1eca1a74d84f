use vstd::prelude::*;
use crate::error::{DecodeError, JdwpError};
use crate::jdwp::{finish_call, request_payload, CommandChannel};
use crate::wire::{be_u64, Decode, Reader, WireModel};

verus! {

/// The ReferenceType command set.
pub const COMMAND_SET: u8 = 2;

/// The signature command.
pub const SIGNATURE: u8 = 1;

/// The fields command.
pub const FIELDS: u8 = 4;

/// The methods command.
pub const METHODS: u8 = 5;

/// Reply to the signature command.
#[derive(Debug, Clone, PartialEq, Eq)]
pub struct SignatureReply {
    pub signature: String,
}

impl WireModel for SignatureReply {
    type Model = <(String, ()) as WireModel>::Model;

    open spec fn model(&self) -> Self::Model {
        (self.signature.model(), ())
    }
}

impl Decode for SignatureReply {
    /// The fields in declared order: signature.
    open spec fn parse(b: Seq<u8>) -> Result<(Self::Model, Seq<u8>), DecodeError> {
        <(String, ())>::parse(b)
    }

    fn decode(r: &mut Reader) -> (res: Result<SignatureReply, DecodeError>) {
        match <(String, ())>::decode(r) {
            Ok((signature, ())) => Ok(SignatureReply { signature }),
            Err(e) => Err(e),
        }
    }
}

/// The command set, command and payload of the signature command, with reference_type_id in order.
pub fn signature_request(reference_type_id: u64) -> (r: (u8, u8, Vec<u8>))
    ensures
        r.0 == COMMAND_SET,
        r.1 == SIGNATURE,
        r.2@ == be_u64(reference_type_id),
{
    let payload = request_payload(&(reference_type_id, ()));
    assert(payload@ =~= be_u64(reference_type_id));
    (COMMAND_SET, SIGNATURE, payload)
}

/// Issues the signature command and decodes its reply; a failure of the channel is
/// passed on.
pub fn signature<C: CommandChannel>(
    conn: &C,
    reference_type_id: u64,
) -> (r: Result<SignatureReply, JdwpError>)
{
    let (command_set, command, payload) = signature_request(reference_type_id);
    finish_call(conn.execute_cmd(command_set, command, payload.as_slice()))
}

/// Reply to the fields command.
#[derive(Debug, Clone, PartialEq, Eq)]
pub struct FieldsReply {
    pub fields: Vec<Field>,
}

impl WireModel for FieldsReply {
    type Model = <(Vec<Field>, ()) as WireModel>::Model;

    open spec fn model(&self) -> Self::Model {
        (self.fields.model(), ())
    }
}

impl Decode for FieldsReply {
    /// The fields in declared order: fields.
    open spec fn parse(b: Seq<u8>) -> Result<(Self::Model, Seq<u8>), DecodeError> {
        <(Vec<Field>, ())>::parse(b)
    }

    fn decode(r: &mut Reader) -> (res: Result<FieldsReply, DecodeError>) {
        match <(Vec<Field>, ())>::decode(r) {
            Ok((fields, ())) => Ok(FieldsReply { fields }),
            Err(e) => Err(e),
        }
    }
}

/// One entry of the reply to the fields command.
#[derive(Debug, Clone, PartialEq, Eq)]
pub struct Field {
    pub field_id: u64,
    pub name: String,
    pub signature: String,
    pub mod_bits: i32,
}

impl WireModel for Field {
    type Model = <(u64, (String, (String, (i32, ())))) as WireModel>::Model;

    open spec fn model(&self) -> Self::Model {
        (
            self.field_id.model(),
            (self.name.model(), (self.signature.model(), (self.mod_bits.model(), ()))),
        )
    }
}

impl Decode for Field {
    /// The fields in declared order: field_id, name, signature, mod_bits.
    open spec fn parse(b: Seq<u8>) -> Result<(Self::Model, Seq<u8>), DecodeError> {
        <(u64, (String, (String, (i32, ()))))>::parse(b)
    }

    fn decode(r: &mut Reader) -> (res: Result<Field, DecodeError>) {
        match <(u64, (String, (String, (i32, ()))))>::decode(r) {
            Ok((field_id, (name, (signature, (mod_bits, ()))))) => Ok(
                Field { field_id, name, signature, mod_bits },
            ),
            Err(e) => Err(e),
        }
    }
}

/// The command set, command and payload of the fields command, with reference_type_id in order.
pub fn fields_request(reference_type_id: u64) -> (r: (u8, u8, Vec<u8>))
    ensures
        r.0 == COMMAND_SET,
        r.1 == FIELDS,
        r.2@ == be_u64(reference_type_id),
{
    let payload = request_payload(&(reference_type_id, ()));
    assert(payload@ =~= be_u64(reference_type_id));
    (COMMAND_SET, FIELDS, payload)
}

/// Issues the fields command and decodes its reply; a failure of the channel is
/// passed on.
pub fn fields<C: CommandChannel>(
    conn: &C,
    reference_type_id: u64,
) -> (r: Result<FieldsReply, JdwpError>)
{
    let (command_set, command, payload) = fields_request(reference_type_id);
    finish_call(conn.execute_cmd(command_set, command, payload.as_slice()))
}

/// Reply to the methods command.
#[derive(Debug, Clone, PartialEq, Eq)]
pub struct MethodReply {
    pub methods: Vec<Method>,
}

impl WireModel for MethodReply {
    type Model = <(Vec<Method>, ()) as WireModel>::Model;

    open spec fn model(&self) -> Self::Model {
        (self.methods.model(), ())
    }
}

impl Decode for MethodReply {
    /// The fields in declared order: methods.
    open spec fn parse(b: Seq<u8>) -> Result<(Self::Model, Seq<u8>), DecodeError> {
        <(Vec<Method>, ())>::parse(b)
    }

    fn decode(r: &mut Reader) -> (res: Result<MethodReply, DecodeError>) {
        match <(Vec<Method>, ())>::decode(r) {
            Ok((methods, ())) => Ok(MethodReply { methods }),
            Err(e) => Err(e),
        }
    }
}

/// One entry of the reply to the methods command.
#[derive(Debug, Clone, PartialEq, Eq)]
pub struct Method {
    pub method_id: u64,
    pub name: String,
    pub signature: String,
    pub mod_bits: i32,
}

impl WireModel for Method {
    type Model = <(u64, (String, (String, (i32, ())))) as WireModel>::Model;

    open spec fn model(&self) -> Self::Model {
        (
            self.method_id.model(),
            (self.name.model(), (self.signature.model(), (self.mod_bits.model(), ()))),
        )
    }
}

impl Decode for Method {
    /// The fields in declared order: method_id, name, signature, mod_bits.
    open spec fn parse(b: Seq<u8>) -> Result<(Self::Model, Seq<u8>), DecodeError> {
        <(u64, (String, (String, (i32, ()))))>::parse(b)
    }

    fn decode(r: &mut Reader) -> (res: Result<Method, DecodeError>) {
        match <(u64, (String, (String, (i32, ()))))>::decode(r) {
            Ok((method_id, (name, (signature, (mod_bits, ()))))) => Ok(
                Method { method_id, name, signature, mod_bits },
            ),
            Err(e) => Err(e),
        }
    }
}

/// The command set, command and payload of the methods command, with reference_type_id in order.
pub fn methods_request(reference_type_id: u64) -> (r: (u8, u8, Vec<u8>))
    ensures
        r.0 == COMMAND_SET,
        r.1 == METHODS,
        r.2@ == be_u64(reference_type_id),
{
    let payload = request_payload(&(reference_type_id, ()));
    assert(payload@ =~= be_u64(reference_type_id));
    (COMMAND_SET, METHODS, payload)
}

/// Issues the methods command and decodes its reply; a failure of the channel is
/// passed on.
pub fn methods<C: CommandChannel>(
    conn: &C,
    reference_type_id: u64,
) -> (r: Result<MethodReply, JdwpError>)
{
    let (command_set, command, payload) = methods_request(reference_type_id);
    finish_call(conn.execute_cmd(command_set, command, payload.as_slice()))
}

} // verus!
