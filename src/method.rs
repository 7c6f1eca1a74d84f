use vstd::prelude::*;
use crate::error::{DecodeError, JdwpError};
use crate::jdwp::{finish_call, request_payload, CommandChannel};
use crate::wire::{be_u64, Decode, Reader, WireModel};

verus! {

/// The Method command set.
pub const COMMAND_SET: u8 = 6;

/// The line table command.
pub const LINE_TABLE: u8 = 1;

/// Reply to the line table command.
#[derive(Debug, Clone, PartialEq, Eq)]
pub struct LineTableReply {
    pub start: i64,
    pub end: i64,
    pub lines: Vec<Line>,
}

impl WireModel for LineTableReply {
    type Model = <(i64, (i64, (Vec<Line>, ()))) as WireModel>::Model;

    open spec fn model(&self) -> Self::Model {
        (self.start.model(), (self.end.model(), (self.lines.model(), ())))
    }
}

impl Decode for LineTableReply {
    /// The fields in declared order: start, end, lines.
    open spec fn parse(b: Seq<u8>) -> Result<(Self::Model, Seq<u8>), DecodeError> {
        <(i64, (i64, (Vec<Line>, ())))>::parse(b)
    }

    fn decode(r: &mut Reader) -> (res: Result<LineTableReply, DecodeError>) {
        match <(i64, (i64, (Vec<Line>, ())))>::decode(r) {
            Ok((start, (end, (lines, ())))) => Ok(LineTableReply { start, end, lines }),
            Err(e) => Err(e),
        }
    }
}

/// One entry of the reply to the line table command.
#[derive(Debug, Clone, PartialEq, Eq)]
pub struct Line {
    pub line_code_index: i64,
    pub line_number: i32,
}

impl WireModel for Line {
    type Model = <(i64, (i32, ())) as WireModel>::Model;

    open spec fn model(&self) -> Self::Model {
        (self.line_code_index.model(), (self.line_number.model(), ()))
    }
}

impl Decode for Line {
    /// The fields in declared order: line_code_index, line_number.
    open spec fn parse(b: Seq<u8>) -> Result<(Self::Model, Seq<u8>), DecodeError> {
        <(i64, (i32, ()))>::parse(b)
    }

    fn decode(r: &mut Reader) -> (res: Result<Line, DecodeError>) {
        match <(i64, (i32, ()))>::decode(r) {
            Ok((line_code_index, (line_number, ()))) => Ok(Line { line_code_index, line_number }),
            Err(e) => Err(e),
        }
    }
}

/// The command set, command and payload of the line table command, with reference_type_id, method_id in order.
pub fn line_table_request(reference_type_id: u64, method_id: u64) -> (r: (u8, u8, Vec<u8>))
    ensures
        r.0 == COMMAND_SET,
        r.1 == LINE_TABLE,
        r.2@ == be_u64(reference_type_id) + be_u64(method_id),
{
    let payload = request_payload(&(reference_type_id, (method_id, ())));
    assert(payload@ =~= be_u64(reference_type_id) + be_u64(method_id));
    (COMMAND_SET, LINE_TABLE, payload)
}

/// Issues the line table command and decodes its reply; a failure of the channel is
/// passed on.
pub fn line_table<C: CommandChannel>(
    conn: &C,
    reference_type_id: u64,
    method_id: u64,
) -> (r: Result<LineTableReply, JdwpError>)
{
    let (command_set, command, payload) = line_table_request(reference_type_id, method_id);
    finish_call(conn.execute_cmd(command_set, command, payload.as_slice()))
}

} // verus!
