use vstd::prelude::*;
use crate::error::JdwpError;
use crate::virtual_machine::IdSizesReply;
use crate::wire::{be_u16, be_u32, lemma_u16_bytes, lemma_u32_bytes, u16_of, u32_of, write_u32};

verus! {

/// Size of a frame header: length, id, flags, and command set and command (or error code).
pub const HEADER_LEN: u32 = 11;

/// Flag bit that marks a frame as a reply.
pub const REPLY_FLAG: u8 = 0x80;

/// The JDWP error code for a query that a native method cannot answer.
pub const NATIVE_METHOD: u16 = 511;

/// The ASCII token `JDWP-Handshake`, sent by the debugger and echoed by the debuggee.
pub open spec fn handshake_bytes() -> Seq<u8> {
    seq![74u8, 68, 87, 80, 45, 72, 97, 110, 100, 115, 104, 97, 107, 101]
}

/// The handshake token to send.
pub fn handshake_token() -> (r: Vec<u8>)
    ensures
        r@ == handshake_bytes(),
{
    let r: Vec<u8> = vec![74u8, 68, 87, 80, 45, 72, 97, 110, 100, 115, 104, 97, 107, 101];
    assert(r@ =~= handshake_bytes());
    r
}

/// Accepts the debuggee's answer to the handshake only when it is the token itself.
pub fn check_handshake(reply: &[u8]) -> (r: Result<(), JdwpError>)
    ensures
        r is Ok <==> reply@ == handshake_bytes(),
        r is Err ==> r == Err::<(), JdwpError>(JdwpError::HandshakeFailed),
{
    let token = handshake_token();
    if reply.len() != token.len() {
        return Err(JdwpError::HandshakeFailed);
    }
    let mut i: usize = 0;
    while i < token.len()
        invariant
            token@ == handshake_bytes(),
            reply@.len() == token@.len(),
            i <= token@.len(),
            forall|k: int| 0 <= k < i ==> reply@[k] == token@[k],
        decreases token@.len() - i,
    {
        if reply[i] != token[i] {
            return Err(JdwpError::HandshakeFailed);
        }
        i = i + 1;
    }
    assert(reply@ =~= handshake_bytes());
    Ok(())
}

/// A request frame: total length, correlation id, flags 0, command set, command, payload.
pub open spec fn request_frame(id: u32, command_set: u8, command: u8, data: Seq<u8>) -> Seq<u8> {
    be_u32((data.len() + 11) as u32) + be_u32(id) + seq![0u8, command_set, command] + data
}

/// What a reply frame holds: the body of a successful reply, or why there is none.
pub open spec fn parse_reply(expected_id: u32, frame: Seq<u8>) -> Result<Seq<u8>, JdwpError> {
    if frame.len() < 11 || u32_of(frame) as int != frame.len() {
        Err(JdwpError::MalformedFrame)
    } else if u32_of(frame.subrange(4, 8)) != expected_id {
        Err(JdwpError::IdMismatch { expected: expected_id, found: u32_of(frame.subrange(4, 8)) })
    } else if frame[8] & REPLY_FLAG == 0 {
        Err(JdwpError::NotAReply)
    } else if u16_of(frame.subrange(9, 11)) != 0 {
        Err(JdwpError::ErrorCode(u16_of(frame.subrange(9, 11))))
    } else {
        Ok(frame.subrange(11, frame.len() as int))
    }
}

/// A reply that breaks the framing: the stream cannot be trusted after it.
pub open spec fn is_frame_fault(r: Result<Seq<u8>, JdwpError>) -> bool {
    match r {
        Err(JdwpError::MalformedFrame) | Err(JdwpError::IdMismatch { .. }) | Err(
            JdwpError::NotAReply,
        ) => true,
        _ => false,
    }
}

/// The header of a reply frame with a body of `body_len` bytes.
pub open spec fn reply_header(id: u32, flags: u8, error_code: u16, body_len: nat) -> Seq<u8> {
    be_u32((body_len + 11) as u32) + be_u32(id) + seq![flags] + be_u16(error_code)
}

/// Protocol state of one debuggee connection: the correlation counter, whether identifier
/// widths have been negotiated, and whether the connection has failed. The stream itself is
/// held by the caller, which sends the frames this state builds and hands back the replies.
///
/// Only eight-byte identifiers are supported: `set_id_sizes` refuses any other negotiated
/// width, so once the connection is ready all five widths (field, method, object, reference
/// type, frame) are eight bytes, the width every identifier codec here reads and writes.
pub struct JdwpConnection {
    next_id: u32,
    ready: bool,
    failed: bool,
}

/// The mathematical state of a connection.
pub struct ConnectionModel {
    pub next_id: nat,
    pub ready: bool,
    /// A malformed reply or a stream failure ended the connection.
    pub failed: bool,
}

/// The command that negotiates identifier widths, allowed before the connection is ready.
pub open spec fn is_id_sizes_command(command_set: u8, command: u8) -> bool {
    command_set == 1 && command == 7
}

/// What framing one request does to a connection, and the frame it yields.
pub open spec fn request_step(
    c: ConnectionModel,
    command_set: u8,
    command: u8,
    data: Seq<u8>,
) -> Result<(ConnectionModel, Seq<u8>), JdwpError> {
    if c.failed {
        Err(JdwpError::ConnectionFailed)
    } else if !c.ready && !is_id_sizes_command(command_set, command) {
        Err(JdwpError::NotReady)
    } else if c.next_id >= u32::MAX {
        Err(JdwpError::IdsExhausted)
    } else if data.len() + 11 > u32::MAX {
        Err(JdwpError::RequestTooLarge)
    } else {
        Ok(
            (
                ConnectionModel { next_id: c.next_id + 1, ..c },
                request_frame(c.next_id as u32, command_set, command, data),
            ),
        )
    }
}

impl View for JdwpConnection {
    type V = ConnectionModel;

    closed spec fn view(&self) -> ConnectionModel {
        ConnectionModel { next_id: self.next_id as nat, ready: self.ready, failed: self.failed }
    }
}

impl JdwpConnection {
    /// Opens the protocol state of a connection from the debuggee's handshake answer.
    pub fn new(handshake_reply: &[u8]) -> (r: Result<JdwpConnection, JdwpError>)
        ensures
            r is Ok <==> handshake_reply@ == handshake_bytes(),
            r matches Ok(c) ==> c@ == (ConnectionModel { next_id: 0, ready: false, failed: false }),
            r is Err ==> r->Err_0 == JdwpError::HandshakeFailed,
    {
        match check_handshake(handshake_reply) {
            Ok(()) => Ok(JdwpConnection { next_id: 0, ready: false, failed: false }),
            Err(e) => Err(e),
        }
    }

    /// The correlation id the next request will carry.
    pub fn next_id(&self) -> (r: u32)
        ensures
            r as nat == self@.next_id,
    {
        self.next_id
    }

    /// Whether identifier widths have been negotiated.
    pub fn is_ready(&self) -> (r: bool)
        ensures
            r == self@.ready,
    {
        self.ready
    }

    /// Whether the connection has ended.
    pub fn has_failed(&self) -> (r: bool)
        ensures
            r == self@.failed,
    {
        self.failed
    }

    /// Records that the stream to the debuggee failed: no further request is framed.
    pub fn mark_failed(&mut self)
        ensures
            final(self)@ == (ConnectionModel { failed: true, ..old(self)@ }),
    {
        self.failed = true;
    }

    /// Checks a reply frame against the request it answers and returns its body. A frame
    /// that is malformed, answers another request, or is no reply ends the connection; an
    /// error code does not.
    pub fn accept_reply(&mut self, expected_id: u32, frame: &[u8]) -> (r: Result<Vec<u8>, JdwpError>)
        ensures
            match parse_reply(expected_id, frame@) {
                Ok(body) => r is Ok && r->Ok_0@ == body,
                Err(e) => r == Err::<Vec<u8>, JdwpError>(e),
            },
            final(self)@ == (ConnectionModel {
                failed: old(self)@.failed || is_frame_fault(parse_reply(expected_id, frame@)),
                ..old(self)@
            }),
    {
        let r = read_reply(expected_id, frame);
        match r {
            Err(JdwpError::MalformedFrame) | Err(JdwpError::IdMismatch { .. }) | Err(
                JdwpError::NotAReply,
            ) => {
                self.failed = true;
            },
            _ => {},
        }
        r
    }

    /// Frames a request with the next correlation id, which is then used up.
    /// Returns the id and the frame.
    pub fn frame_request(&mut self, command_set: u8, command: u8, data: &[u8]) -> (r: Result<
        (u32, Vec<u8>),
        JdwpError,
    >)
        ensures
            match request_step(old(self)@, command_set, command, data@) {
                Ok((c, frame)) => r is Ok && r->Ok_0.0 as nat == old(self)@.next_id
                    && r->Ok_0.1@ == frame && final(self)@ == c,
                Err(e) => r == Err::<(u32, Vec<u8>), JdwpError>(e) && final(self)@ == old(self)@,
            },
    {
        if self.failed {
            return Err(JdwpError::ConnectionFailed);
        }
        if !self.ready && !(command_set == 1 && command == 7) {
            return Err(JdwpError::NotReady);
        }
        if self.next_id == u32::MAX {
            return Err(JdwpError::IdsExhausted);
        }
        if data.len() > (u32::MAX - HEADER_LEN) as usize {
            return Err(JdwpError::RequestTooLarge);
        }
        let id = self.next_id;
        self.next_id = id + 1;
        let mut frame: Vec<u8> = Vec::new();
        write_u32(&mut frame, data.len() as u32 + HEADER_LEN);
        write_u32(&mut frame, id);
        frame.push(0u8);
        frame.push(command_set);
        frame.push(command);
        let mut i: usize = 0;
        while i < data.len()
            invariant
                i <= data@.len(),
                frame@ == be_u32((data@.len() + 11) as u32) + be_u32(id) + seq![
                    0u8,
                    command_set,
                    command,
                ] + data@.subrange(0, i as int),
            decreases data@.len() - i,
        {
            frame.push(data[i]);
            i = i + 1;
            assert(frame@ =~= be_u32((data@.len() + 11) as u32) + be_u32(id) + seq![
                0u8,
                command_set,
                command,
            ] + data@.subrange(0, i as int));
        }
        assert(data@.subrange(0, data@.len() as int) =~= data@);
        Ok((id, frame))
    }

    /// Records the identifier widths the debuggee reported; only eight-byte identifiers are
    /// supported.
    pub fn set_id_sizes(&mut self, sizes: &IdSizesReply) -> (r: Result<(), JdwpError>)
        ensures
            r is Ok <==> all_ids_eight_bytes(sizes),
            r is Ok ==> final(self)@ == (ConnectionModel { ready: true, ..old(self)@ }),
            r is Err ==> r->Err_0 == JdwpError::UnsupportedIdSize && final(self)@ == old(self)@,
    {
        if sizes.field_id_size != 8 || sizes.method_id_size != 8 || sizes.object_id_size != 8
            || sizes.reference_type_id_size != 8 || sizes.frame_id_size != 8 {
            return Err(JdwpError::UnsupportedIdSize);
        }
        self.ready = true;
        Ok(())
    }
}

/// Every identifier width the debuggee reported is eight bytes.
pub open spec fn all_ids_eight_bytes(sizes: &IdSizesReply) -> bool {
    sizes.field_id_size == 8 && sizes.method_id_size == 8 && sizes.object_id_size == 8
        && sizes.reference_type_id_size == 8 && sizes.frame_id_size == 8
}

/// How many bytes of a reply follow its 4-byte length field.
pub fn reply_remaining_len(length_field: &[u8]) -> (r: Result<u32, JdwpError>)
    requires
        length_field@.len() == 4,
    ensures
        u32_of(length_field@) >= 11 ==> r == Ok::<u32, JdwpError>(
            (u32_of(length_field@) - 4) as u32,
        ),
        u32_of(length_field@) < 11 ==> r == Err::<u32, JdwpError>(JdwpError::MalformedFrame),
{
    let len = ((length_field[0] as u32) << 24u32) | ((length_field[1] as u32) << 16u32) | ((
    length_field[2] as u32) << 8u32) | (length_field[3] as u32);
    if len < HEADER_LEN {
        Err(JdwpError::MalformedFrame)
    } else {
        Ok(len - 4)
    }
}

/// Checks a whole reply frame against the request it answers and returns its body.
pub fn read_reply(expected_id: u32, frame: &[u8]) -> (r: Result<Vec<u8>, JdwpError>)
    ensures
        match parse_reply(expected_id, frame@) {
            Ok(body) => r is Ok && r->Ok_0@ == body,
            Err(e) => r == Err::<Vec<u8>, JdwpError>(e),
        },
{
    if frame.len() < 11 {
        return Err(JdwpError::MalformedFrame);
    }
    let len = ((frame[0] as u32) << 24u32) | ((frame[1] as u32) << 16u32) | ((frame[2] as u32)
        << 8u32) | (frame[3] as u32);
    if len as usize != frame.len() {
        return Err(JdwpError::MalformedFrame);
    }
    let id = ((frame[4] as u32) << 24u32) | ((frame[5] as u32) << 16u32) | ((frame[6] as u32)
        << 8u32) | (frame[7] as u32);
    if id != expected_id {
        return Err(JdwpError::IdMismatch { expected: expected_id, found: id });
    }
    if frame[8] & REPLY_FLAG == 0 {
        return Err(JdwpError::NotAReply);
    }
    let code = ((frame[9] as u16) << 8u16) | (frame[10] as u16);
    if code != 0 {
        return Err(JdwpError::ErrorCode(code));
    }
    let mut body: Vec<u8> = Vec::new();
    let mut i: usize = 11;
    while i < frame.len()
        invariant
            11 <= i <= frame@.len(),
            body@ == frame@.subrange(11, i as int),
        decreases frame@.len() - i,
    {
        body.push(frame[i]);
        i = i + 1;
        assert(body@ =~= frame@.subrange(11, i as int));
    }
    Ok(body)
}

/// The correlation id a frame carries.
pub open spec fn frame_id(frame: Seq<u8>) -> u32 {
    u32_of(frame.subrange(4, 8))
}

/// Two requests framed one after the other on a connection carry the connection's next id
/// and the id after it: ids strictly increase, so none repeats.
pub proof fn lemma_ids_increase(
    c: ConnectionModel,
    set1: u8,
    cmd1: u8,
    data1: Seq<u8>,
    set2: u8,
    cmd2: u8,
    data2: Seq<u8>,
)
    requires
        request_step(c, set1, cmd1, data1) is Ok,
        request_step(request_step(c, set1, cmd1, data1)->Ok_0.0, set2, cmd2, data2) is Ok,
    ensures
        ({
            let (c1, f1) = request_step(c, set1, cmd1, data1)->Ok_0;
            let (c2, f2) = request_step(c1, set2, cmd2, data2)->Ok_0;
            &&& frame_id(f1) == c.next_id
            &&& frame_id(f2) == frame_id(f1) + 1
            &&& c2.next_id == c.next_id + 2
        }),
{
    let (c1, f1) = request_step(c, set1, cmd1, data1)->Ok_0;
    let (c2, f2) = request_step(c1, set2, cmd2, data2)->Ok_0;
    lemma_frame_id(c.next_id as u32, set1, cmd1, data1);
    lemma_frame_id(c1.next_id as u32, set2, cmd2, data2);
}

proof fn lemma_frame_id(id: u32, command_set: u8, command: u8, data: Seq<u8>)
    ensures
        frame_id(request_frame(id, command_set, command, data)) == id,
{
    let f = request_frame(id, command_set, command, data);
    assert(f.subrange(4, 8) =~= be_u32(id));
    lemma_u32_bytes(id);
}

/// A reply with a nonzero error code is reported as that code, whatever bytes follow the
/// header: the body is not read.
pub proof fn lemma_error_code_reported(id: u32, error_code: u16, body: Seq<u8>)
    requires
        error_code != 0,
        body.len() + 11 <= u32::MAX,
    ensures
        parse_reply(id, reply_header(id, REPLY_FLAG, error_code, body.len()) + body) == Err::<
            Seq<u8>,
            JdwpError,
        >(JdwpError::ErrorCode(error_code)),
{
    let len = (body.len() + 11) as u32;
    let f = reply_header(id, REPLY_FLAG, error_code, body.len()) + body;
    assert(f.subrange(0, 4) =~= be_u32(len));
    assert(f.subrange(4, 8) =~= be_u32(id));
    assert(f.subrange(9, 11) =~= be_u16(error_code));
    lemma_u32_bytes(len);
    lemma_u32_bytes(id);
    lemma_u16_bytes(error_code);
    assert(u32_of(f) == u32_of(f.subrange(0, 4)));
    assert(f[8] == REPLY_FLAG);
    assert(0x80u8 & 0x80u8 != 0) by (bit_vector);
}

} // verus!
