use vstd::prelude::*;
use std::rc::Rc;
use crate::error::JdwpError;
use crate::jdwp::{CommandChannel, Location};
use crate::method::LineTableReply;
use crate::model;
use crate::model::Value;
use crate::reference_type::{FieldsReply, MethodReply};
use crate::resolve::{
    class_name, first_method_with_id, line_number_from_reply, method_name, resolves_line,
    signature_to_name,
};
use crate::thread_reference::FramesReply;
use crate::virtual_machine::AllThreadsReply;
use crate::{method, object_reference, reference_type, thread_reference, virtual_machine};

verus! {

/// A live debuggee reached through a JDWP connection. Every entity derived from it holds
/// the same shared connection, so identifiers are only ever sent back to the connection
/// that produced them.
pub struct JdwpJavaVirtualMachine<C: CommandChannel> {
    conn: Rc<C>,
}

impl<C: CommandChannel> JdwpJavaVirtualMachine<C> {
    /// The connection the debuggee is reached through.
    pub closed spec fn channel(&self) -> C {
        *self.conn
    }

    pub fn new(conn: C) -> (r: Self)
        ensures
            r.channel() == conn,
    {
        JdwpJavaVirtualMachine { conn: Rc::new(conn) }
    }

    /// One thread handle per id of an all-threads reply, in order, on this connection.
    pub fn threads_from_reply(&self, reply: &AllThreadsReply) -> (r: Vec<JdwpThreadReference<C>>)
        ensures
            r@.len() == reply.threads@.len(),
            forall|i: int|
                0 <= i < r@.len() ==> (#[trigger] r@[i]).thread_id() == reply.threads@[i]
                    && r@[i].channel() == self.channel(),
    {
        let mut threads: Vec<JdwpThreadReference<C>> = Vec::new();
        let mut i: usize = 0;
        while i < reply.threads.len()
            invariant
                i <= reply.threads@.len(),
                threads@.len() == i,
                forall|k: int|
                    0 <= k < i ==> #[trigger] threads@[k].thread_id() == reply.threads@[k]
                        && threads@[k].channel() == self.channel(),
            decreases reply.threads@.len() - i,
        {
            let thread_id = reply.threads[i];
            threads.push(JdwpThreadReference { conn: self.conn.clone(), thread_id });
            i = i + 1;
        }
        threads
    }
}

impl<C: CommandChannel> model::JavaVirtualMachine for JdwpJavaVirtualMachine<C> {
    type ThreadReference = JdwpThreadReference<C>;

    /// Every thread the debuggee lists, in its order, on this connection.
    fn all_threads(&self) -> (r: Result<Vec<JdwpThreadReference<C>>, JdwpError>)
        ensures
            r matches Ok(ts) ==> forall|i: int|
                0 <= i < ts@.len() ==> (#[trigger] ts@[i]).channel() == self.channel(),
    {
        match virtual_machine::all_threads(&*self.conn) {
            Ok(reply) => Ok(self.threads_from_reply(&reply)),
            Err(e) => Err(e),
        }
    }

    open spec fn modifiable(&self) -> bool {
        true
    }

    fn can_be_modified(&self) -> (r: bool) {
        true
    }

    fn suspend(&self) -> Result<(), JdwpError> {
        match virtual_machine::suspend(&*self.conn) {
            Ok(_) => Ok(()),
            Err(e) => Err(e),
        }
    }

    fn resume(&self) -> Result<(), JdwpError> {
        match virtual_machine::resume(&*self.conn) {
            Ok(_) => Ok(()),
            Err(e) => Err(e),
        }
    }
}

/// A thread of a live debuggee.
pub struct JdwpThreadReference<C: CommandChannel> {
    conn: Rc<C>,
    thread_id: u64,
}

impl<C: CommandChannel> JdwpThreadReference<C> {
    pub closed spec fn channel(&self) -> C {
        *self.conn
    }

    pub closed spec fn thread_id(&self) -> u64 {
        self.thread_id
    }

    /// One frame handle per frame of a frames reply, in order, with its location, on this
    /// connection.
    pub fn frames_from_reply(&self, reply: &FramesReply) -> (r: Vec<JdwpStackFrame<C>>)
        ensures
            r@.len() == reply.frames@.len(),
            forall|i: int|
                0 <= i < r@.len() ==> (#[trigger] r@[i]).frame_location() == reply.frames@[i].location
                    && r@[i].frame_id() == reply.frames@[i].frame_id && r@[i].channel()
                    == self.channel(),
    {
        let mut frames: Vec<JdwpStackFrame<C>> = Vec::new();
        let mut i: usize = 0;
        while i < reply.frames.len()
            invariant
                i <= reply.frames@.len(),
                frames@.len() == i,
                forall|k: int|
                    0 <= k < i ==> #[trigger] frames@[k].frame_location()
                        == reply.frames@[k].location && frames@[k].frame_id()
                        == reply.frames@[k].frame_id && frames@[k].channel() == self.channel(),
            decreases reply.frames@.len() - i,
        {
            let frame = &reply.frames[i];
            frames.push(
                JdwpStackFrame {
                    conn: self.conn.clone(),
                    frame_id: frame.frame_id,
                    location: frame.location,
                },
            );
            i = i + 1;
        }
        frames
    }
}

impl<C: CommandChannel> model::ObjectReference for JdwpThreadReference<C> {
    type ReferenceType = JdwpReferenceType<C>;

    closed spec fn id(&self) -> u64 {
        self.thread_id
    }

    fn unique_id(&self) -> (r: Result<u64, JdwpError>)
        ensures
            r == Ok::<u64, JdwpError>(self.thread_id()),
    {
        Ok(self.thread_id)
    }

    /// The thread's type, as the debuggee reports it, on this connection.
    fn reference_type(&self) -> (r: Result<JdwpReferenceType<C>, JdwpError>)
        ensures
            r matches Ok(t) ==> t.channel() == self.channel(),
    {
        match object_reference::reference_type(&*self.conn, self.thread_id) {
            Ok(r) => Ok(JdwpReferenceType { conn: self.conn.clone(), type_id: r.type_id }),
            Err(e) => Err(e),
        }
    }
}

impl<C: CommandChannel> model::ThreadReference for JdwpThreadReference<C> {
    type StackFrame = JdwpStackFrame<C>;

    fn name(&self) -> Result<String, JdwpError> {
        match thread_reference::name(&*self.conn, self.thread_id) {
            Ok(r) => Ok(r.name),
            Err(e) => Err(e),
        }
    }

    /// Fetches every frame: from the innermost, with length -1 for all that remain.
    fn frames(&self) -> (r: Result<Vec<JdwpStackFrame<C>>, JdwpError>)
        ensures
            r matches Ok(fs) ==> forall|i: int|
                0 <= i < fs@.len() ==> (#[trigger] fs@[i]).channel() == self.channel(),
    {
        match thread_reference::frames(&*self.conn, self.thread_id, 0, -1) {
            Ok(reply) => Ok(self.frames_from_reply(&reply)),
            Err(e) => Err(e),
        }
    }
}

/// A frame of a live debuggee's thread, with the location the frame reply gave.
pub struct JdwpStackFrame<C: CommandChannel> {
    conn: Rc<C>,
    frame_id: u64,
    location: Location,
}

impl<C: CommandChannel> JdwpStackFrame<C> {
    pub closed spec fn channel(&self) -> C {
        *self.conn
    }

    pub closed spec fn frame_id(&self) -> u64 {
        self.frame_id
    }

    pub closed spec fn frame_location(&self) -> Location {
        self.location
    }
}

impl<C: CommandChannel> model::StackFrame for JdwpStackFrame<C> {
    type Location = JdwpLocation<C>;

    /// The location the frame reply gave; no round trip.
    fn location(&self) -> (r: Result<JdwpLocation<C>, JdwpError>)
        ensures
            r is Ok && r->Ok_0.location() == self.frame_location() && r->Ok_0.channel()
                == self.channel(),
    {
        Ok(JdwpLocation { conn: self.conn.clone(), location: self.location })
    }
}

/// A location in a live debuggee.
pub struct JdwpLocation<C: CommandChannel> {
    conn: Rc<C>,
    location: Location,
}

impl<C: CommandChannel> JdwpLocation<C> {
    pub closed spec fn channel(&self) -> C {
        *self.conn
    }

    pub closed spec fn location(&self) -> Location {
        self.location
    }
}

impl<C: CommandChannel> model::Location for JdwpLocation<C> {
    type Method = JdwpMethod<C>;

    type ReferenceType = JdwpReferenceType<C>;

    /// Fetches the method's line table and resolves this location's index in it; a
    /// native-method error gives no line.
    fn line_number(&self) -> (r: Result<Option<u32>, JdwpError>)
        ensures
            r matches Ok(Some(n)) ==> exists|table: LineTableReply|
                resolves_line(&table, self.location().location_idx, Some(n)),
    {
        let reply = method::line_table(
            &*self.conn,
            self.location.class_id,
            self.location.method_id,
        );
        line_number_from_reply(reply, self.location.location_idx)
    }

    fn method(&self) -> (r: Result<JdwpMethod<C>, JdwpError>)
        ensures
            r is Ok && r->Ok_0.class_id() == self.location().class_id && r->Ok_0.method_id()
                == self.location().method_id && r->Ok_0.channel() == self.channel(),
    {
        Ok(
            JdwpMethod {
                conn: self.conn.clone(),
                class_id: self.location.class_id,
                method_id: self.location.method_id,
            },
        )
    }

    fn declaring_type(&self) -> (r: Result<JdwpReferenceType<C>, JdwpError>)
        ensures
            r is Ok && r->Ok_0.type_id() == self.location().class_id && r->Ok_0.channel()
                == self.channel(),
    {
        Ok(JdwpReferenceType { conn: self.conn.clone(), type_id: self.location.class_id })
    }
}

/// A reference type of a live debuggee.
pub struct JdwpReferenceType<C: CommandChannel> {
    conn: Rc<C>,
    type_id: u64,
}

impl<C: CommandChannel> JdwpReferenceType<C> {
    pub closed spec fn channel(&self) -> C {
        *self.conn
    }

    pub closed spec fn type_id(&self) -> u64 {
        self.type_id
    }
}

/// One field handle per field of a fields reply, in order, with the name the reply gave.
pub fn fields_from_reply(reply: &FieldsReply) -> (r: Vec<JdwpField>)
    ensures
        r@.len() == reply.fields@.len(),
        forall|i: int|
            0 <= i < r@.len() ==> #[trigger] r@[i].field_name() == reply.fields@[i].name@
                && r@[i].field_id() == reply.fields@[i].field_id,
{
    let mut fields: Vec<JdwpField> = Vec::new();
    let mut i: usize = 0;
    while i < reply.fields.len()
        invariant
            i <= reply.fields@.len(),
            fields@.len() == i,
            forall|k: int|
                0 <= k < i ==> #[trigger] fields@[k].field_name() == reply.fields@[k].name@
                    && fields@[k].field_id() == reply.fields@[k].field_id,
        decreases reply.fields@.len() - i,
    {
        let field = &reply.fields[i];
        fields.push(JdwpField { field_id: field.field_id, name: field.name.clone() });
        i = i + 1;
    }
    fields
}

impl<C: CommandChannel> model::ReferenceType for JdwpReferenceType<C> {
    type Field = JdwpField;

    /// The class name for the signature the debuggee reports.
    fn name(&self) -> (r: Result<String, JdwpError>)
        ensures
            r matches Ok(n) ==> exists|sig: Seq<char>| n@ == class_name(sig),
    {
        match reference_type::signature(&*self.conn, self.type_id) {
            Ok(r) => Ok(signature_to_name(r.signature.as_str())),
            Err(e) => Err(e),
        }
    }

    fn fields(&self) -> (r: Result<Vec<JdwpField>, JdwpError>)
        ensures
            r matches Ok(fs) ==> exists|reply: FieldsReply|
                fs@.len() == reply.fields@.len() && forall|i: int|
                    0 <= i < fs@.len() ==> #[trigger] fs@[i].field_name()
                        == reply.fields@[i].name@,
    {
        match reference_type::fields(&*self.conn, self.type_id) {
            Ok(reply) => Ok(fields_from_reply(&reply)),
            Err(e) => Err(e),
        }
    }

    /// Reading field values is not offered by this backend.
    fn get_value(&self, field: &JdwpField) -> (r: Result<Value, JdwpError>)
        ensures
            r == Err::<Value, JdwpError>(JdwpError::Unsupported),
    {
        Err(JdwpError::Unsupported)
    }
}

/// A method of a live debuggee: its id within its declaring class.
pub struct JdwpMethod<C: CommandChannel> {
    conn: Rc<C>,
    class_id: u64,
    method_id: u64,
}

impl<C: CommandChannel> JdwpMethod<C> {
    pub closed spec fn channel(&self) -> C {
        *self.conn
    }

    pub closed spec fn class_id(&self) -> u64 {
        self.class_id
    }

    pub closed spec fn method_id(&self) -> u64 {
        self.method_id
    }
}

impl<C: CommandChannel> model::TypeComponent for JdwpMethod<C> {
    /// Lists the declaring class's methods and picks the first with this method's id.
    fn name(&self) -> (r: Result<String, JdwpError>)
        ensures
            r matches Ok(n) ==> exists|reply: MethodReply, i: int|
                first_method_with_id(reply.methods@, i, self.method_id()) && n@
                    == #[trigger] reply.methods@[i].name@,
    {
        match reference_type::methods(&*self.conn, self.class_id) {
            Ok(r) => method_name(&r, self.method_id),
            Err(e) => Err(e),
        }
    }
}

impl<C: CommandChannel> model::Method for JdwpMethod<C> {

}

/// A field of a live debuggee, with the name its class listing gave.
pub struct JdwpField {
    field_id: u64,
    name: String,
}

impl JdwpField {
    pub closed spec fn field_id(&self) -> u64 {
        self.field_id
    }

    pub closed spec fn field_name(&self) -> Seq<char> {
        self.name@
    }
}

impl model::TypeComponent for JdwpField {
    /// The name the class listing gave; no round trip.
    fn name(&self) -> (r: Result<String, JdwpError>)
        ensures
            r is Ok && r->Ok_0@ == self.field_name(),
    {
        Ok(self.name.clone())
    }
}

impl model::Field for JdwpField {

}

} // verus!
