use vstd::prelude::*;
use crate::error::{DecodeError, JdwpError};
use crate::jdwp::{finish_call, request_payload, CommandChannel, Location};
use crate::wire::{be_u64, be_u32, unsigned32, Decode, Reader, WireModel};

verus! {

/// The ThreadReference command set.
pub const COMMAND_SET: u8 = 11;

/// The name command.
pub const NAME: u8 = 1;

/// The frames command.
pub const FRAMES: u8 = 6;

/// Reply to the name command.
#[derive(Debug, Clone, PartialEq, Eq)]
pub struct NameReply {
    pub name: String,
}

impl WireModel for NameReply {
    type Model = <(String, ()) as WireModel>::Model;

    open spec fn model(&self) -> Self::Model {
        (self.name.model(), ())
    }
}

impl Decode for NameReply {
    /// The fields in declared order: name.
    open spec fn parse(b: Seq<u8>) -> Result<(Self::Model, Seq<u8>), DecodeError> {
        <(String, ())>::parse(b)
    }

    fn decode(r: &mut Reader) -> (res: Result<NameReply, DecodeError>) {
        match <(String, ())>::decode(r) {
            Ok((name, ())) => Ok(NameReply { name }),
            Err(e) => Err(e),
        }
    }
}

/// The command set, command and payload of the name command, with thread_id in order.
pub fn name_request(thread_id: u64) -> (r: (u8, u8, Vec<u8>))
    ensures
        r.0 == COMMAND_SET,
        r.1 == NAME,
        r.2@ == be_u64(thread_id),
{
    let payload = request_payload(&(thread_id, ()));
    assert(payload@ =~= be_u64(thread_id));
    (COMMAND_SET, NAME, payload)
}

/// Issues the name command and decodes its reply; a failure of the channel is
/// passed on.
pub fn name<C: CommandChannel>(conn: &C, thread_id: u64) -> (r: Result<NameReply, JdwpError>)
{
    let (command_set, command, payload) = name_request(thread_id);
    finish_call(conn.execute_cmd(command_set, command, payload.as_slice()))
}

/// Reply to the frames command.
#[derive(Debug, Clone, PartialEq, Eq)]
pub struct FramesReply {
    pub frames: Vec<Frame>,
}

impl WireModel for FramesReply {
    type Model = <(Vec<Frame>, ()) as WireModel>::Model;

    open spec fn model(&self) -> Self::Model {
        (self.frames.model(), ())
    }
}

impl Decode for FramesReply {
    /// The fields in declared order: frames.
    open spec fn parse(b: Seq<u8>) -> Result<(Self::Model, Seq<u8>), DecodeError> {
        <(Vec<Frame>, ())>::parse(b)
    }

    fn decode(r: &mut Reader) -> (res: Result<FramesReply, DecodeError>) {
        match <(Vec<Frame>, ())>::decode(r) {
            Ok((frames, ())) => Ok(FramesReply { frames }),
            Err(e) => Err(e),
        }
    }
}

/// One entry of the reply to the frames command.
#[derive(Debug, Clone, PartialEq, Eq)]
pub struct Frame {
    pub frame_id: u64,
    pub location: Location,
}

impl WireModel for Frame {
    type Model = <(u64, (Location, ())) as WireModel>::Model;

    open spec fn model(&self) -> Self::Model {
        (self.frame_id.model(), (self.location.model(), ()))
    }
}

impl Decode for Frame {
    /// The fields in declared order: frame_id, location.
    open spec fn parse(b: Seq<u8>) -> Result<(Self::Model, Seq<u8>), DecodeError> {
        <(u64, (Location, ()))>::parse(b)
    }

    fn decode(r: &mut Reader) -> (res: Result<Frame, DecodeError>) {
        match <(u64, (Location, ()))>::decode(r) {
            Ok((frame_id, (location, ()))) => Ok(Frame { frame_id, location }),
            Err(e) => Err(e),
        }
    }
}

/// The command set, command and payload of the frames command, with thread_id, start_frame, length in order.
pub fn frames_request(thread_id: u64, start_frame: i32, length: i32) -> (r: (u8, u8, Vec<u8>))
    ensures
        r.0 == COMMAND_SET,
        r.1 == FRAMES,
        r.2@ == be_u64(thread_id) + be_u32(unsigned32(start_frame)) + be_u32(unsigned32(length)),
{
    let payload = request_payload(&(thread_id, (start_frame, (length, ()))));
    assert(payload@ =~= be_u64(thread_id) + be_u32(unsigned32(start_frame)) + be_u32(unsigned32(length)));
    (COMMAND_SET, FRAMES, payload)
}

/// Issues the frames command and decodes its reply; a failure of the channel is
/// passed on.
pub fn frames<C: CommandChannel>(
    conn: &C,
    thread_id: u64,
    start_frame: i32,
    length: i32,
) -> (r: Result<FramesReply, JdwpError>)
{
    let (command_set, command, payload) = frames_request(thread_id, start_frame, length);
    finish_call(conn.execute_cmd(command_set, command, payload.as_slice()))
}

} // verus!
