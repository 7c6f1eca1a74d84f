use vstd::prelude::*;
use crate::error::{DecodeError, JdwpError};
use crate::jdwp::{finish_call, request_payload, CommandChannel};
use crate::wire::{be_u32, unsigned32, string_bytes, Decode, Reader, WireModel};
use vstd::string::StringSliceAdditionalSpecFns;

verus! {

/// The VirtualMachine command set.
pub const COMMAND_SET: u8 = 1;

/// The version command.
pub const VERSION: u8 = 1;

/// The classes by signature command.
pub const CLASSES_BY_SIGNATURE: u8 = 2;

/// The all classes command.
pub const ALL_CLASSES: u8 = 3;

/// The all threads command.
pub const ALL_THREADS: u8 = 4;

/// The id sizes command.
pub const ID_SIZES: u8 = 7;

/// The suspend command.
pub const SUSPEND: u8 = 8;

/// The resume command.
pub const RESUME: u8 = 9;

/// The exit command.
pub const EXIT: u8 = 10;

/// Reply to the version command.
#[derive(Debug, Clone, PartialEq, Eq)]
pub struct VersionReply {
    pub description: String,
    pub jdwp_major: i32,
    pub jdwp_minor: i32,
    pub vm_version: String,
    pub vm_name: String,
}

impl WireModel for VersionReply {
    type Model = <(String, (i32, (i32, (String, (String, ()))))) as WireModel>::Model;

    open spec fn model(&self) -> Self::Model {
        (
            self.description.model(),
            (
                self.jdwp_major.model(),
                (self.jdwp_minor.model(), (self.vm_version.model(), (self.vm_name.model(), ()))),
            ),
        )
    }
}

impl Decode for VersionReply {
    /// The fields in declared order: description, jdwp_major, jdwp_minor, vm_version, vm_name.
    open spec fn parse(b: Seq<u8>) -> Result<(Self::Model, Seq<u8>), DecodeError> {
        <(String, (i32, (i32, (String, (String, ())))))>::parse(b)
    }

    fn decode(r: &mut Reader) -> (res: Result<VersionReply, DecodeError>) {
        match <(String, (i32, (i32, (String, (String, ())))))>::decode(r) {
            Ok((description, (jdwp_major, (jdwp_minor, (vm_version, (vm_name, ())))))) => Ok(
                VersionReply { description, jdwp_major, jdwp_minor, vm_version, vm_name },
            ),
            Err(e) => Err(e),
        }
    }
}

/// The command set, command and payload of the version command.
pub fn version_request() -> (r: (u8, u8, Vec<u8>))
    ensures
        r.0 == COMMAND_SET,
        r.1 == VERSION,
        r.2@ == Seq::<u8>::empty(),
{
    let payload = request_payload(&());
    assert(payload@ =~= Seq::<u8>::empty());
    (COMMAND_SET, VERSION, payload)
}

/// Issues the version command and decodes its reply; a failure of the channel is
/// passed on.
pub fn version<C: CommandChannel>(conn: &C) -> (r: Result<VersionReply, JdwpError>)
{
    let (command_set, command, payload) = version_request();
    finish_call(conn.execute_cmd(command_set, command, payload.as_slice()))
}

/// Reply to the classes by signature command.
#[derive(Debug, Clone, PartialEq, Eq)]
pub struct ClassesBySignatureReply {
    pub classes: Vec<ClassesBySignatureReplyClass>,
}

impl WireModel for ClassesBySignatureReply {
    type Model = <(Vec<ClassesBySignatureReplyClass>, ()) as WireModel>::Model;

    open spec fn model(&self) -> Self::Model {
        (self.classes.model(), ())
    }
}

impl Decode for ClassesBySignatureReply {
    /// The fields in declared order: classes.
    open spec fn parse(b: Seq<u8>) -> Result<(Self::Model, Seq<u8>), DecodeError> {
        <(Vec<ClassesBySignatureReplyClass>, ())>::parse(b)
    }

    fn decode(r: &mut Reader) -> (res: Result<ClassesBySignatureReply, DecodeError>) {
        match <(Vec<ClassesBySignatureReplyClass>, ())>::decode(r) {
            Ok((classes, ())) => Ok(ClassesBySignatureReply { classes }),
            Err(e) => Err(e),
        }
    }
}

/// One entry of the reply to the classes by signature command.
#[derive(Debug, Clone, PartialEq, Eq)]
pub struct ClassesBySignatureReplyClass {
    pub ref_type_tag: u8,
    pub type_id: u64,
    pub status: u32,
}

impl WireModel for ClassesBySignatureReplyClass {
    type Model = <(u8, (u64, (u32, ()))) as WireModel>::Model;

    open spec fn model(&self) -> Self::Model {
        (self.ref_type_tag.model(), (self.type_id.model(), (self.status.model(), ())))
    }
}

impl Decode for ClassesBySignatureReplyClass {
    /// The fields in declared order: ref_type_tag, type_id, status.
    open spec fn parse(b: Seq<u8>) -> Result<(Self::Model, Seq<u8>), DecodeError> {
        <(u8, (u64, (u32, ())))>::parse(b)
    }

    fn decode(r: &mut Reader) -> (res: Result<ClassesBySignatureReplyClass, DecodeError>) {
        match <(u8, (u64, (u32, ())))>::decode(r) {
            Ok((ref_type_tag, (type_id, (status, ())))) => Ok(
                ClassesBySignatureReplyClass { ref_type_tag, type_id, status },
            ),
            Err(e) => Err(e),
        }
    }
}

/// The command set, command and payload of the classes by signature command, with signature in order.
pub fn classes_by_signature_request(signature: &str) -> (r: (u8, u8, Vec<u8>))
    requires
        signature.spec_bytes().len() <= u32::MAX,
    ensures
        r.0 == COMMAND_SET,
        r.1 == CLASSES_BY_SIGNATURE,
        r.2@ == string_bytes(signature@),
{
    let payload = request_payload(&(signature, ()));
    assert(payload@ =~= string_bytes(signature@));
    (COMMAND_SET, CLASSES_BY_SIGNATURE, payload)
}

/// Issues the classes by signature command and decodes its reply; a failure of the channel is
/// passed on.
pub fn classes_by_signature<C: CommandChannel>(
    conn: &C,
    signature: &str,
) -> (r: Result<ClassesBySignatureReply, JdwpError>)
    ensures
        signature.spec_bytes().len() > u32::MAX ==> r == Err::<
            ClassesBySignatureReply,
            JdwpError,
        >(JdwpError::RequestTooLarge),
{
    if signature.as_bytes().len() > u32::MAX as usize {
        return Err(JdwpError::RequestTooLarge);
    }
    let (command_set, command, payload) = classes_by_signature_request(signature);
    finish_call(conn.execute_cmd(command_set, command, payload.as_slice()))
}

/// Reply to the all classes command.
#[derive(Debug, Clone, PartialEq, Eq)]
pub struct AllClassesReply {
    pub classes: Vec<AllClassesReplyClass>,
}

impl WireModel for AllClassesReply {
    type Model = <(Vec<AllClassesReplyClass>, ()) as WireModel>::Model;

    open spec fn model(&self) -> Self::Model {
        (self.classes.model(), ())
    }
}

impl Decode for AllClassesReply {
    /// The fields in declared order: classes.
    open spec fn parse(b: Seq<u8>) -> Result<(Self::Model, Seq<u8>), DecodeError> {
        <(Vec<AllClassesReplyClass>, ())>::parse(b)
    }

    fn decode(r: &mut Reader) -> (res: Result<AllClassesReply, DecodeError>) {
        match <(Vec<AllClassesReplyClass>, ())>::decode(r) {
            Ok((classes, ())) => Ok(AllClassesReply { classes }),
            Err(e) => Err(e),
        }
    }
}

/// One entry of the reply to the all classes command.
#[derive(Debug, Clone, PartialEq, Eq)]
pub struct AllClassesReplyClass {
    pub ref_type_tag: u8,
    pub type_id: u64,
    pub signature: String,
    pub status: u32,
}

impl WireModel for AllClassesReplyClass {
    type Model = <(u8, (u64, (String, (u32, ())))) as WireModel>::Model;

    open spec fn model(&self) -> Self::Model {
        (
            self.ref_type_tag.model(),
            (self.type_id.model(), (self.signature.model(), (self.status.model(), ()))),
        )
    }
}

impl Decode for AllClassesReplyClass {
    /// The fields in declared order: ref_type_tag, type_id, signature, status.
    open spec fn parse(b: Seq<u8>) -> Result<(Self::Model, Seq<u8>), DecodeError> {
        <(u8, (u64, (String, (u32, ()))))>::parse(b)
    }

    fn decode(r: &mut Reader) -> (res: Result<AllClassesReplyClass, DecodeError>) {
        match <(u8, (u64, (String, (u32, ()))))>::decode(r) {
            Ok((ref_type_tag, (type_id, (signature, (status, ()))))) => Ok(
                AllClassesReplyClass { ref_type_tag, type_id, signature, status },
            ),
            Err(e) => Err(e),
        }
    }
}

/// The command set, command and payload of the all classes command.
pub fn all_classes_request() -> (r: (u8, u8, Vec<u8>))
    ensures
        r.0 == COMMAND_SET,
        r.1 == ALL_CLASSES,
        r.2@ == Seq::<u8>::empty(),
{
    let payload = request_payload(&());
    assert(payload@ =~= Seq::<u8>::empty());
    (COMMAND_SET, ALL_CLASSES, payload)
}

/// Issues the all classes command and decodes its reply; a failure of the channel is
/// passed on.
pub fn all_classes<C: CommandChannel>(conn: &C) -> (r: Result<AllClassesReply, JdwpError>)
{
    let (command_set, command, payload) = all_classes_request();
    finish_call(conn.execute_cmd(command_set, command, payload.as_slice()))
}

/// Reply to the all threads command.
#[derive(Debug, Clone, PartialEq, Eq)]
pub struct AllThreadsReply {
    pub threads: Vec<u64>,
}

impl WireModel for AllThreadsReply {
    type Model = <(Vec<u64>, ()) as WireModel>::Model;

    open spec fn model(&self) -> Self::Model {
        (self.threads.model(), ())
    }
}

impl Decode for AllThreadsReply {
    /// The fields in declared order: threads.
    open spec fn parse(b: Seq<u8>) -> Result<(Self::Model, Seq<u8>), DecodeError> {
        <(Vec<u64>, ())>::parse(b)
    }

    fn decode(r: &mut Reader) -> (res: Result<AllThreadsReply, DecodeError>) {
        match <(Vec<u64>, ())>::decode(r) {
            Ok((threads, ())) => Ok(AllThreadsReply { threads }),
            Err(e) => Err(e),
        }
    }
}

/// The command set, command and payload of the all threads command.
pub fn all_threads_request() -> (r: (u8, u8, Vec<u8>))
    ensures
        r.0 == COMMAND_SET,
        r.1 == ALL_THREADS,
        r.2@ == Seq::<u8>::empty(),
{
    let payload = request_payload(&());
    assert(payload@ =~= Seq::<u8>::empty());
    (COMMAND_SET, ALL_THREADS, payload)
}

/// Issues the all threads command and decodes its reply; a failure of the channel is
/// passed on.
pub fn all_threads<C: CommandChannel>(conn: &C) -> (r: Result<AllThreadsReply, JdwpError>)
{
    let (command_set, command, payload) = all_threads_request();
    finish_call(conn.execute_cmd(command_set, command, payload.as_slice()))
}

/// Reply to the id sizes command.
#[derive(Debug, Clone, PartialEq, Eq)]
pub struct IdSizesReply {
    pub field_id_size: i32,
    pub method_id_size: i32,
    pub object_id_size: i32,
    pub reference_type_id_size: i32,
    pub frame_id_size: i32,
}

impl WireModel for IdSizesReply {
    type Model = <(i32, (i32, (i32, (i32, (i32, ()))))) as WireModel>::Model;

    open spec fn model(&self) -> Self::Model {
        (
            self.field_id_size.model(),
            (
                self.method_id_size.model(),
                (
                    self.object_id_size.model(),
                    (self.reference_type_id_size.model(), (self.frame_id_size.model(), ())),
                ),
            ),
        )
    }
}

impl Decode for IdSizesReply {
    /// The fields in declared order: field_id_size, method_id_size, object_id_size,
    /// reference_type_id_size, frame_id_size.
    open spec fn parse(b: Seq<u8>) -> Result<(Self::Model, Seq<u8>), DecodeError> {
        <(i32, (i32, (i32, (i32, (i32, ())))))>::parse(b)
    }

    fn decode(r: &mut Reader) -> (res: Result<IdSizesReply, DecodeError>) {
        match <(i32, (i32, (i32, (i32, (i32, ())))))>::decode(r) {
            Ok((
                field_id_size,
                (method_id_size, (object_id_size, (reference_type_id_size, (frame_id_size, ())))),
            )) => Ok(
                IdSizesReply {
                    field_id_size,
                    method_id_size,
                    object_id_size,
                    reference_type_id_size,
                    frame_id_size,
                },
            ),
            Err(e) => Err(e),
        }
    }
}

/// The command set, command and payload of the id sizes command.
pub fn id_sizes_request() -> (r: (u8, u8, Vec<u8>))
    ensures
        r.0 == COMMAND_SET,
        r.1 == ID_SIZES,
        r.2@ == Seq::<u8>::empty(),
{
    let payload = request_payload(&());
    assert(payload@ =~= Seq::<u8>::empty());
    (COMMAND_SET, ID_SIZES, payload)
}

/// Issues the id sizes command and decodes its reply; a failure of the channel is
/// passed on.
pub fn id_sizes<C: CommandChannel>(conn: &C) -> (r: Result<IdSizesReply, JdwpError>)
{
    let (command_set, command, payload) = id_sizes_request();
    finish_call(conn.execute_cmd(command_set, command, payload.as_slice()))
}

/// Reply to the suspend command.
#[derive(Debug, Clone, PartialEq, Eq)]
pub struct SuspendReply {
}

impl WireModel for SuspendReply {
    type Model = <() as WireModel>::Model;

    open spec fn model(&self) -> Self::Model {
        ()
    }
}

impl Decode for SuspendReply {
    /// No fields.
    open spec fn parse(b: Seq<u8>) -> Result<(Self::Model, Seq<u8>), DecodeError> {
        <()>::parse(b)
    }

    fn decode(r: &mut Reader) -> (res: Result<SuspendReply, DecodeError>) {
        match <()>::decode(r) {
            Ok(()) => Ok(SuspendReply {  }),
            Err(e) => Err(e),
        }
    }
}

/// The command set, command and payload of the suspend command.
pub fn suspend_request() -> (r: (u8, u8, Vec<u8>))
    ensures
        r.0 == COMMAND_SET,
        r.1 == SUSPEND,
        r.2@ == Seq::<u8>::empty(),
{
    let payload = request_payload(&());
    assert(payload@ =~= Seq::<u8>::empty());
    (COMMAND_SET, SUSPEND, payload)
}

/// Issues the suspend command and decodes its reply; a failure of the channel is
/// passed on.
pub fn suspend<C: CommandChannel>(conn: &C) -> (r: Result<SuspendReply, JdwpError>)
{
    let (command_set, command, payload) = suspend_request();
    finish_call(conn.execute_cmd(command_set, command, payload.as_slice()))
}

/// Reply to the resume command.
#[derive(Debug, Clone, PartialEq, Eq)]
pub struct ResumeReply {
}

impl WireModel for ResumeReply {
    type Model = <() as WireModel>::Model;

    open spec fn model(&self) -> Self::Model {
        ()
    }
}

impl Decode for ResumeReply {
    /// No fields.
    open spec fn parse(b: Seq<u8>) -> Result<(Self::Model, Seq<u8>), DecodeError> {
        <()>::parse(b)
    }

    fn decode(r: &mut Reader) -> (res: Result<ResumeReply, DecodeError>) {
        match <()>::decode(r) {
            Ok(()) => Ok(ResumeReply {  }),
            Err(e) => Err(e),
        }
    }
}

/// The command set, command and payload of the resume command.
pub fn resume_request() -> (r: (u8, u8, Vec<u8>))
    ensures
        r.0 == COMMAND_SET,
        r.1 == RESUME,
        r.2@ == Seq::<u8>::empty(),
{
    let payload = request_payload(&());
    assert(payload@ =~= Seq::<u8>::empty());
    (COMMAND_SET, RESUME, payload)
}

/// Issues the resume command and decodes its reply; a failure of the channel is
/// passed on.
pub fn resume<C: CommandChannel>(conn: &C) -> (r: Result<ResumeReply, JdwpError>)
{
    let (command_set, command, payload) = resume_request();
    finish_call(conn.execute_cmd(command_set, command, payload.as_slice()))
}

/// Reply to the exit command.
#[derive(Debug, Clone, PartialEq, Eq)]
pub struct ExitReply {
}

impl WireModel for ExitReply {
    type Model = <() as WireModel>::Model;

    open spec fn model(&self) -> Self::Model {
        ()
    }
}

impl Decode for ExitReply {
    /// No fields.
    open spec fn parse(b: Seq<u8>) -> Result<(Self::Model, Seq<u8>), DecodeError> {
        <()>::parse(b)
    }

    fn decode(r: &mut Reader) -> (res: Result<ExitReply, DecodeError>) {
        match <()>::decode(r) {
            Ok(()) => Ok(ExitReply {  }),
            Err(e) => Err(e),
        }
    }
}

/// The command set, command and payload of the exit command, with exit_code in order.
pub fn exit_request(exit_code: i32) -> (r: (u8, u8, Vec<u8>))
    ensures
        r.0 == COMMAND_SET,
        r.1 == EXIT,
        r.2@ == be_u32(unsigned32(exit_code)),
{
    let payload = request_payload(&(exit_code, ()));
    assert(payload@ =~= be_u32(unsigned32(exit_code)));
    (COMMAND_SET, EXIT, payload)
}

/// Issues the exit command and decodes its reply; a failure of the channel is
/// passed on.
pub fn exit<C: CommandChannel>(conn: &C, exit_code: i32) -> (r: Result<ExitReply, JdwpError>)
{
    let (command_set, command, payload) = exit_request(exit_code);
    finish_call(conn.execute_cmd(command_set, command, payload.as_slice()))
}

} // verus!
