use vstd::prelude::*;
use std::collections::HashMap;
use vstd::utf8::{decode_utf8, valid_utf8};
use crate::error::DecodeError;
use crate::wire::{
    decode_exact, parse_exact, parse_items, parse_u32, parse_u8, read_items, u64_of, Decode, Reader,
    WireModel,
};

verus! {

broadcast use vstd::std_specs::hash::group_hash_axioms;

/// What `String::from_utf8_lossy` makes of a byte string.
pub uninterp spec fn utf8_lossy(b: Seq<u8>) -> Seq<char>;

/// Relies on `String::from_utf8_lossy`: it depends on the bytes alone, and valid UTF-8 is
/// decoded unchanged.
#[verifier::external_body]
fn string_from_utf8_lossy(b: &[u8]) -> (r: String)
    ensures
        r@ == utf8_lossy(b@),
        valid_utf8(b@) ==> r@ == decode_utf8(b@),
{
    String::from_utf8_lossy(b).into_owned()
}

/// The kind of a top-level heap-dump record.
#[derive(Debug, Clone, Copy, PartialEq, Eq, Structural)]
pub enum RecordTag {
    Utf8String,
    LoadClass,
    UnloadClass,
    StackFrame,
    StackTrace,
    AllocSites,
    HeapSummary,
    StartThread,
    EndThread,
    HeapDump,
    CpuSamples,
    ControlSettings,
    HeapDumpSegment,
    HeapDumpEnd,
}

/// The RecordTag a wire byte stands for; other bytes stand for none.
pub open spec fn record_tag_of(v: u8) -> Option<RecordTag> {
    if v == 0x01 {
        Some(RecordTag::Utf8String)
    } else if v == 0x02 {
        Some(RecordTag::LoadClass)
    } else if v == 0x03 {
        Some(RecordTag::UnloadClass)
    } else if v == 0x04 {
        Some(RecordTag::StackFrame)
    } else if v == 0x05 {
        Some(RecordTag::StackTrace)
    } else if v == 0x06 {
        Some(RecordTag::AllocSites)
    } else if v == 0x07 {
        Some(RecordTag::HeapSummary)
    } else if v == 0x0A {
        Some(RecordTag::StartThread)
    } else if v == 0x0B {
        Some(RecordTag::EndThread)
    } else if v == 0x0C {
        Some(RecordTag::HeapDump)
    } else if v == 0x0D {
        Some(RecordTag::CpuSamples)
    } else if v == 0x0E {
        Some(RecordTag::ControlSettings)
    } else if v == 0x1C {
        Some(RecordTag::HeapDumpSegment)
    } else if v == 0x2C {
        Some(RecordTag::HeapDumpEnd)
    } else {
        None
    }
}

impl RecordTag {
    pub fn from_u8(v: u8) -> (r: Option<RecordTag>)
        ensures
            r == record_tag_of(v),
    {
        if v == 0x01 {
            Some(RecordTag::Utf8String)
        } else if v == 0x02 {
            Some(RecordTag::LoadClass)
        } else if v == 0x03 {
            Some(RecordTag::UnloadClass)
        } else if v == 0x04 {
            Some(RecordTag::StackFrame)
        } else if v == 0x05 {
            Some(RecordTag::StackTrace)
        } else if v == 0x06 {
            Some(RecordTag::AllocSites)
        } else if v == 0x07 {
            Some(RecordTag::HeapSummary)
        } else if v == 0x0A {
            Some(RecordTag::StartThread)
        } else if v == 0x0B {
            Some(RecordTag::EndThread)
        } else if v == 0x0C {
            Some(RecordTag::HeapDump)
        } else if v == 0x0D {
            Some(RecordTag::CpuSamples)
        } else if v == 0x0E {
            Some(RecordTag::ControlSettings)
        } else if v == 0x1C {
            Some(RecordTag::HeapDumpSegment)
        } else if v == 0x2C {
            Some(RecordTag::HeapDumpEnd)
        } else {
            None
        }
    }
}

impl WireModel for RecordTag {
    type Model = RecordTag;

    open spec fn model(&self) -> RecordTag {
        *self
    }
}

impl Decode for RecordTag {
    /// One byte, which must name a tag.
    open spec fn parse(b: Seq<u8>) -> Result<(RecordTag, Seq<u8>), DecodeError> {
        match parse_u8(b) {
            Ok((v, rest)) => match record_tag_of(v) {
                Some(t) => Ok((t, rest)),
                None => Err(DecodeError::InvalidTag(v)),
            },
            Err(e) => Err(e),
        }
    }

    fn decode(r: &mut Reader) -> (res: Result<RecordTag, DecodeError>) {
        match r.read_u8() {
            Ok(v) => match RecordTag::from_u8(v) {
                Some(t) => Ok(t),
                None => Err(DecodeError::InvalidTag(v)),
            },
            Err(e) => Err(e),
        }
    }
}

/// The type of a field or array element in a heap dump.
#[derive(Debug, Clone, Copy, PartialEq, Eq, Structural)]
pub enum FieldTag {
    ArrayObject,
    NormalObject,
    Boolean,
    Char,
    Float,
    Double,
    Byte,
    Short,
    Int,
    Long,
}

/// The FieldTag a wire byte stands for; other bytes stand for none.
pub open spec fn field_tag_of(v: u8) -> Option<FieldTag> {
    if v == 0x01 {
        Some(FieldTag::ArrayObject)
    } else if v == 0x02 {
        Some(FieldTag::NormalObject)
    } else if v == 0x04 {
        Some(FieldTag::Boolean)
    } else if v == 0x05 {
        Some(FieldTag::Char)
    } else if v == 0x06 {
        Some(FieldTag::Float)
    } else if v == 0x07 {
        Some(FieldTag::Double)
    } else if v == 0x08 {
        Some(FieldTag::Byte)
    } else if v == 0x09 {
        Some(FieldTag::Short)
    } else if v == 0x0A {
        Some(FieldTag::Int)
    } else if v == 0x0B {
        Some(FieldTag::Long)
    } else {
        None
    }
}

impl FieldTag {
    pub fn from_u8(v: u8) -> (r: Option<FieldTag>)
        ensures
            r == field_tag_of(v),
    {
        if v == 0x01 {
            Some(FieldTag::ArrayObject)
        } else if v == 0x02 {
            Some(FieldTag::NormalObject)
        } else if v == 0x04 {
            Some(FieldTag::Boolean)
        } else if v == 0x05 {
            Some(FieldTag::Char)
        } else if v == 0x06 {
            Some(FieldTag::Float)
        } else if v == 0x07 {
            Some(FieldTag::Double)
        } else if v == 0x08 {
            Some(FieldTag::Byte)
        } else if v == 0x09 {
            Some(FieldTag::Short)
        } else if v == 0x0A {
            Some(FieldTag::Int)
        } else if v == 0x0B {
            Some(FieldTag::Long)
        } else {
            None
        }
    }
}

impl WireModel for FieldTag {
    type Model = FieldTag;

    open spec fn model(&self) -> FieldTag {
        *self
    }
}

impl Decode for FieldTag {
    /// One byte, which must name a tag.
    open spec fn parse(b: Seq<u8>) -> Result<(FieldTag, Seq<u8>), DecodeError> {
        match parse_u8(b) {
            Ok((v, rest)) => match field_tag_of(v) {
                Some(t) => Ok((t, rest)),
                None => Err(DecodeError::InvalidTag(v)),
            },
            Err(e) => Err(e),
        }
    }

    fn decode(r: &mut Reader) -> (res: Result<FieldTag, DecodeError>) {
        match r.read_u8() {
            Ok(v) => match FieldTag::from_u8(v) {
                Some(t) => Ok(t),
                None => Err(DecodeError::InvalidTag(v)),
            },
            Err(e) => Err(e),
        }
    }
}

/// The kind of a sub-record inside a heap-dump record.
#[derive(Debug, Clone, Copy, PartialEq, Eq, Structural)]
pub enum DataDumpSubRecordTag {
    RootUnknown,
    JniGlobal,
    JniLocal,
    JavaFrame,
    NativeStack,
    StickyClass,
    ThreadBlock,
    MonitorUsed,
    ThreadObject,
    ClassDump,
    InstanceDump,
    ObjectArrayDump,
    PrimitiveArrayDump,
}

/// The DataDumpSubRecordTag a wire byte stands for; other bytes stand for none.
pub open spec fn data_dump_sub_record_tag_of(v: u8) -> Option<DataDumpSubRecordTag> {
    if v == 0xFF {
        Some(DataDumpSubRecordTag::RootUnknown)
    } else if v == 0x01 {
        Some(DataDumpSubRecordTag::JniGlobal)
    } else if v == 0x02 {
        Some(DataDumpSubRecordTag::JniLocal)
    } else if v == 0x03 {
        Some(DataDumpSubRecordTag::JavaFrame)
    } else if v == 0x04 {
        Some(DataDumpSubRecordTag::NativeStack)
    } else if v == 0x05 {
        Some(DataDumpSubRecordTag::StickyClass)
    } else if v == 0x06 {
        Some(DataDumpSubRecordTag::ThreadBlock)
    } else if v == 0x07 {
        Some(DataDumpSubRecordTag::MonitorUsed)
    } else if v == 0x08 {
        Some(DataDumpSubRecordTag::ThreadObject)
    } else if v == 0x20 {
        Some(DataDumpSubRecordTag::ClassDump)
    } else if v == 0x21 {
        Some(DataDumpSubRecordTag::InstanceDump)
    } else if v == 0x22 {
        Some(DataDumpSubRecordTag::ObjectArrayDump)
    } else if v == 0x23 {
        Some(DataDumpSubRecordTag::PrimitiveArrayDump)
    } else {
        None
    }
}

impl DataDumpSubRecordTag {
    pub fn from_u8(v: u8) -> (r: Option<DataDumpSubRecordTag>)
        ensures
            r == data_dump_sub_record_tag_of(v),
    {
        if v == 0xFF {
            Some(DataDumpSubRecordTag::RootUnknown)
        } else if v == 0x01 {
            Some(DataDumpSubRecordTag::JniGlobal)
        } else if v == 0x02 {
            Some(DataDumpSubRecordTag::JniLocal)
        } else if v == 0x03 {
            Some(DataDumpSubRecordTag::JavaFrame)
        } else if v == 0x04 {
            Some(DataDumpSubRecordTag::NativeStack)
        } else if v == 0x05 {
            Some(DataDumpSubRecordTag::StickyClass)
        } else if v == 0x06 {
            Some(DataDumpSubRecordTag::ThreadBlock)
        } else if v == 0x07 {
            Some(DataDumpSubRecordTag::MonitorUsed)
        } else if v == 0x08 {
            Some(DataDumpSubRecordTag::ThreadObject)
        } else if v == 0x20 {
            Some(DataDumpSubRecordTag::ClassDump)
        } else if v == 0x21 {
            Some(DataDumpSubRecordTag::InstanceDump)
        } else if v == 0x22 {
            Some(DataDumpSubRecordTag::ObjectArrayDump)
        } else if v == 0x23 {
            Some(DataDumpSubRecordTag::PrimitiveArrayDump)
        } else {
            None
        }
    }
}

impl WireModel for DataDumpSubRecordTag {
    type Model = DataDumpSubRecordTag;

    open spec fn model(&self) -> DataDumpSubRecordTag {
        *self
    }
}

impl Decode for DataDumpSubRecordTag {
    /// One byte, which must name a tag.
    open spec fn parse(b: Seq<u8>) -> Result<(DataDumpSubRecordTag, Seq<u8>), DecodeError> {
        match parse_u8(b) {
            Ok((v, rest)) => match data_dump_sub_record_tag_of(v) {
                Some(t) => Ok((t, rest)),
                None => Err(DecodeError::InvalidTag(v)),
            },
            Err(e) => Err(e),
        }
    }

    fn decode(r: &mut Reader) -> (res: Result<DataDumpSubRecordTag, DecodeError>) {
        match r.read_u8() {
            Ok(v) => match DataDumpSubRecordTag::from_u8(v) {
                Some(t) => Ok(t),
                None => Err(DecodeError::InvalidTag(v)),
            },
            Err(e) => Err(e),
        }
    }
}

/// The header of a heap dump: a NUL-terminated format name, the identifier size, and the
/// dump time in milliseconds as two 32-bit words.
#[derive(Debug, Clone, PartialEq, Eq)]
pub struct Header {
    pub format: String,
    pub identifier_size: u32,
    pub high_word_ms: u32,
    pub low_word_ms: u32,
}

/// Byte `i` of `b` is its first NUL.
pub open spec fn first_nul_at(b: Seq<u8>, i: int) -> bool {
    0 <= i < b.len() && b[i] == 0 && forall|k: int| 0 <= k < i ==> #[trigger] b[k] != 0
}

impl WireModel for Header {
    type Model = (Seq<char>, (u32, (u32, (u32, ()))));

    open spec fn model(&self) -> Self::Model {
        (self.format@, (self.identifier_size, (self.high_word_ms, (self.low_word_ms, ()))))
    }
}

impl Decode for Header {
    /// The format name up to the first NUL, read leniently as UTF-8, then three 4-byte words.
    open spec fn parse(b: Seq<u8>) -> Result<(Self::Model, Seq<u8>), DecodeError> {
        if exists|i: int| first_nul_at(b, i) {
            let i = choose|i: int| first_nul_at(b, i);
            match <(u32, (u32, (u32, ())))>::parse(b.subrange(i + 1, b.len() as int)) {
                Ok((words, rest)) => Ok(((utf8_lossy(b.subrange(0, i)), words), rest)),
                Err(e) => Err(e),
            }
        } else {
            Err(DecodeError::Truncated)
        }
    }

    fn decode(r: &mut Reader) -> (res: Result<Header, DecodeError>) {
        let mut name: Vec<u8> = Vec::new();
        loop
            invariant_except_break
                old(r)@ == name@ + r@,
            invariant
                r.wf(),
                forall|k: int| 0 <= k < name@.len() ==> #[trigger] name@[k] != 0,
            ensures
                first_nul_at(old(r)@, name@.len() as int),
                name@ == old(r)@.subrange(0, name@.len() as int),
                r@ == old(r)@.subrange(name@.len() as int + 1, old(r)@.len() as int),
            decreases r@.len(),
        {
            let ghost before = r@;
            let c = match r.read_u8() {
                Ok(c) => c,
                Err(e) => {
                    assert(old(r)@ =~= name@);
                    assert forall|i: int| !first_nul_at(old(r)@, i) by {
                        if 0 <= i < old(r)@.len() {
                            assert(old(r)@[i] == name@[i]);
                        }
                    }
                    return Err(e);
                },
            };
            if c == 0 {
                assert(old(r)@[name@.len() as int] == before[0]);
                assert forall|k: int| 0 <= k < name@.len() implies #[trigger] old(r)@[k] != 0 by {
                    assert(old(r)@[k] == name@[k]);
                }
                assert(old(r)@.subrange(0, name@.len() as int) =~= name@);
                assert(old(r)@.subrange(name@.len() as int + 1, old(r)@.len() as int) =~= r@);
                break;
            }
            name.push(c);
            assert(old(r)@ =~= name@ + r@);
        }
        proof {
            let n = name@.len() as int;
            assert forall|i: int| first_nul_at(old(r)@, i) implies i == n by {
                if i < n {
                    assert(old(r)@[i] != 0);
                } else if i > n {
                    assert(old(r)@[n] != 0);
                }
            }
        }
        let format = string_from_utf8_lossy(name.as_slice());
        match <(u32, (u32, (u32, ())))>::decode(r) {
            Ok((identifier_size, (high_word_ms, (low_word_ms, ())))) => Ok(
                Header { format, identifier_size, high_word_ms, low_word_ms },
            ),
            Err(e) => Err(e),
        }
    }
}

/// Reads a heap dump's header from the front of `r`.
pub fn parse_header(r: &mut Reader) -> (res: Result<Header, DecodeError>)
    requires
        old(r).wf(),
    ensures
        final(r).wf(),
        match Header::parse(old(r)@) {
            Ok((m, rest)) => res is Ok && res->Ok_0.model() == m && final(r)@ == rest,
            Err(e) => res == Err::<Header, DecodeError>(e),
        },
{
    Header::decode(r)
}

/// The header of a top-level record: its tag, a time offset, and its body's length.
#[derive(Debug, Clone, Copy, PartialEq, Eq, Structural)]
pub struct Record {
    pub tag: RecordTag,
    pub time: u32,
    pub bytes: u32,
}

impl WireModel for Record {
    type Model = Record;

    open spec fn model(&self) -> Record {
        *self
    }
}

impl Decode for Record {
    /// A tag byte, then two 4-byte words: time and length.
    open spec fn parse(b: Seq<u8>) -> Result<(Record, Seq<u8>), DecodeError> {
        match <(RecordTag, (u32, (u32, ())))>::parse(b) {
            Ok(((tag, (time, (bytes, ()))), rest)) => Ok((Record { tag, time, bytes }, rest)),
            Err(e) => Err(e),
        }
    }

    fn decode(r: &mut Reader) -> (res: Result<Record, DecodeError>) {
        match <(RecordTag, (u32, (u32, ())))>::decode(r) {
            Ok((tag, (time, (bytes, ())))) => Ok(Record { tag, time, bytes }),
            Err(e) => Err(e),
        }
    }
}

/// A string of the dump and the identifier other records name it by.
#[derive(Debug, Clone, PartialEq, Eq)]
pub struct Utf8StringRecord {
    pub identifier: u64,
    pub value: String,
}

/// A string record's body: an identifier, then the string's bytes, all the rest.
pub open spec fn parse_utf8_string_body(body: Seq<u8>) -> Result<(u64, Seq<char>), DecodeError> {
    if body.len() < 8 {
        Err(DecodeError::Truncated)
    } else {
        Ok((u64_of(body), utf8_lossy(body.subrange(8, body.len() as int))))
    }
}

/// Reads a string record from its whole body.
pub fn parse_utf8_string_record(body: Vec<u8>) -> (r: Result<Utf8StringRecord, DecodeError>)
    ensures
        match parse_utf8_string_body(body@) {
            Ok((id, s)) => r is Ok && r->Ok_0.identifier == id && r->Ok_0.value@ == s,
            Err(e) => r == Err::<Utf8StringRecord, DecodeError>(e),
        },
{
    let ghost b = body@;
    let mut reader = Reader::new(body);
    let identifier = match reader.read_u64() {
        Ok(id) => id,
        Err(e) => return Err(e),
    };
    let n = reader.remaining();
    let bytes = match reader.read_bytes(n) {
        Ok(b) => b,
        Err(e) => return Err(e),
    };
    assert(bytes@ =~= b.subrange(8, b.len() as int));
    let value = string_from_utf8_lossy(bytes.as_slice());
    Ok(Utf8StringRecord { identifier, value })
}

/// A class the dump saw loaded.
#[derive(Debug, Clone, Copy, PartialEq, Eq, Structural)]
pub struct LoadClassRecord {
    pub serial_num: u32,
    pub object_id: u64,
    pub strace_num: u32,
    pub strname_id: u64,
}

impl WireModel for LoadClassRecord {
    type Model = LoadClassRecord;

    open spec fn model(&self) -> LoadClassRecord {
        *self
    }
}

impl Decode for LoadClassRecord {
    /// Serial number, class object id, stack trace serial number, name string id.
    open spec fn parse(b: Seq<u8>) -> Result<(LoadClassRecord, Seq<u8>), DecodeError> {
        match <(u32, (u64, (u32, (u64, ()))))>::parse(b) {
            Ok(((serial_num, (object_id, (strace_num, (strname_id, ())))), rest)) => Ok(
                (LoadClassRecord { serial_num, object_id, strace_num, strname_id }, rest),
            ),
            Err(e) => Err(e),
        }
    }

    fn decode(r: &mut Reader) -> (res: Result<LoadClassRecord, DecodeError>) {
        match <(u32, (u64, (u32, (u64, ()))))>::decode(r) {
            Ok((serial_num, (object_id, (strace_num, (strname_id, ()))))) => Ok(
                LoadClassRecord { serial_num, object_id, strace_num, strname_id },
            ),
            Err(e) => Err(e),
        }
    }
}

/// A class the dump saw unloaded.
#[derive(Debug, Clone, Copy, PartialEq, Eq, Structural)]
pub struct UnloadClassRecord {
    pub serial_num: u32,
}

impl WireModel for UnloadClassRecord {
    type Model = UnloadClassRecord;

    open spec fn model(&self) -> UnloadClassRecord {
        *self
    }
}

impl Decode for UnloadClassRecord {
    /// A serial number.
    open spec fn parse(b: Seq<u8>) -> Result<(UnloadClassRecord, Seq<u8>), DecodeError> {
        match parse_u32(b) {
            Ok((serial_num, rest)) => Ok((UnloadClassRecord { serial_num }, rest)),
            Err(e) => Err(e),
        }
    }

    fn decode(r: &mut Reader) -> (res: Result<UnloadClassRecord, DecodeError>) {
        match r.read_u32() {
            Ok(serial_num) => Ok(UnloadClassRecord { serial_num }),
            Err(e) => Err(e),
        }
    }
}

/// One frame that stack traces of the dump refer to.
#[derive(Debug, Clone, Copy, PartialEq, Eq, Structural)]
pub struct StackFrameRecord {
    pub frame_id: u64,
    pub method_name_id: u64,
    pub method_sign_id: u64,
    pub source_name_id: u64,
    pub class_serial_num: u32,
    pub line_num: i32,
}

impl WireModel for StackFrameRecord {
    type Model = StackFrameRecord;

    open spec fn model(&self) -> StackFrameRecord {
        *self
    }
}

impl Decode for StackFrameRecord {
    /// Frame id, method name id, method signature id, source file name id, class serial
    /// number, line number.
    open spec fn parse(b: Seq<u8>) -> Result<(StackFrameRecord, Seq<u8>), DecodeError> {
        match <(u64, (u64, (u64, (u64, (u32, (i32, ()))))))>::parse(b) {
            Ok(((frame_id, (method_name_id, (method_sign_id, fields))), rest)) => {
                let (source_name_id, (class_serial_num, (line_num, ()))) = fields;
                Ok(
                    (
                        StackFrameRecord {
                            frame_id,
                            method_name_id,
                            method_sign_id,
                            source_name_id,
                            class_serial_num,
                            line_num,
                        },
                        rest,
                    ),
                )
            },
            Err(e) => Err(e),
        }
    }

    fn decode(r: &mut Reader) -> (res: Result<StackFrameRecord, DecodeError>) {
        match <(u64, (u64, (u64, (u64, (u32, (i32, ()))))))>::decode(r) {
            Ok((frame_id, (method_name_id, (method_sign_id, fields)))) => {
                let (source_name_id, (class_serial_num, (line_num, ()))) = fields;
                Ok(
                    StackFrameRecord {
                        frame_id,
                        method_name_id,
                        method_sign_id,
                        source_name_id,
                        class_serial_num,
                        line_num,
                    },
                )
            },
            Err(e) => Err(e),
        }
    }
}

/// The frames of one thread's stack.
#[derive(Debug, Clone, PartialEq, Eq)]
pub struct StackTraceRecord {
    pub serial_num: u32,
    pub thread_serial_num: u32,
    pub nframes: u32,
    pub frame_ids: Vec<u64>,
}

impl WireModel for StackTraceRecord {
    type Model = (u32, u32, u32, Seq<u64>);

    open spec fn model(&self) -> Self::Model {
        (self.serial_num, self.thread_serial_num, self.nframes, self.frame_ids@)
    }
}

impl Decode for StackTraceRecord {
    /// Serial number, thread serial number, a frame count, then that many frame ids.
    open spec fn parse(b: Seq<u8>) -> Result<(Self::Model, Seq<u8>), DecodeError> {
        match <(u32, (u32, (u32, ())))>::parse(b) {
            Ok(((serial, (thread, (n, ()))), rest)) => match parse_items::<u64>(rest, n as nat) {
                Ok((ids, rest2)) => Ok(((serial, thread, n, ids), rest2)),
                Err(e) => Err(e),
            },
            Err(e) => Err(e),
        }
    }

    fn decode(r: &mut Reader) -> (res: Result<StackTraceRecord, DecodeError>) {
        let words = match <(u32, (u32, (u32, ())))>::decode(r) {
            Ok(v) => v,
            Err(e) => return Err(e),
        };
        let (serial_num, (thread_serial_num, (nframes, ()))) = words;
        let ghost start = r@;
        let mut frame_ids: Vec<u64> = Vec::new();
        let mut i: u32 = 0;
        while i < nframes
            invariant
                r.wf(),
                i <= nframes,
                parse_items::<u64>(start, nframes as nat) == crate::wire::prepend_items(
                    frame_ids@,
                    parse_items::<u64>(r@, (nframes - i) as nat),
                ),
                Self::parse(old(r)@) == match parse_items::<u64>(start, nframes as nat) {
                    Ok((ids, rest2)) => Ok::<(Self::Model, Seq<u8>), DecodeError>(
                        ((serial_num, thread_serial_num, nframes, ids), rest2),
                    ),
                    Err(e) => Err(e),
                },
            decreases nframes - i,
        {
            let ghost cur = r@;
            let id = match r.read_u64() {
                Ok(id) => id,
                Err(e) => {
                    assert(parse_items::<u64>(cur, (nframes - i) as nat) == Err::<
                        (Seq<u64>, Seq<u8>),
                        DecodeError,
                    >(e));
                    return Err(e);
                },
            };
            proof {
                match parse_items::<u64>(r@, (nframes - i - 1) as nat) {
                    Ok((ms, r2)) => {
                        assert(frame_ids@ + (seq![id] + ms) =~= frame_ids@.push(id) + ms);
                    },
                    Err(e) => {},
                }
            }
            frame_ids.push(id);
            i = i + 1;
        }
        assert(frame_ids@ + Seq::<u64>::empty() =~= frame_ids@);
        Ok(StackTraceRecord { serial_num, thread_serial_num, nframes, frame_ids })
    }
}

/// The lookup tables a dump's records build: strings by identifier, frames by frame id,
/// and loaded classes by serial number.
pub struct TablesModel {
    pub strings: Map<u64, Seq<char>>,
    pub frames: Map<u64, StackFrameRecord>,
    pub classes: Map<u32, LoadClassRecord>,
}

/// What a record with tag `tag` and body `body` does to the tables. Records of other kinds
/// are skipped whole.
pub open spec fn apply_record(t: TablesModel, tag: RecordTag, body: Seq<u8>) -> Result<
    TablesModel,
    DecodeError,
> {
    match tag {
        RecordTag::Utf8String => match parse_utf8_string_body(body) {
            Ok((id, s)) => Ok(TablesModel { strings: t.strings.insert(id, s), ..t }),
            Err(e) => Err(e),
        },
        RecordTag::LoadClass => match parse_exact::<LoadClassRecord>(body) {
            Ok(c) => Ok(TablesModel { classes: t.classes.insert(c.serial_num, c), ..t }),
            Err(e) => Err(e),
        },
        RecordTag::UnloadClass => match parse_exact::<UnloadClassRecord>(body) {
            Ok(_) => Ok(t),
            Err(e) => Err(e),
        },
        RecordTag::StackFrame => match parse_exact::<StackFrameRecord>(body) {
            Ok(f) => Ok(TablesModel { frames: t.frames.insert(f.frame_id, f), ..t }),
            Err(e) => Err(e),
        },
        RecordTag::StackTrace => match parse_exact::<StackTraceRecord>(body) {
            Ok(_) => Ok(t),
            Err(e) => Err(e),
        },
        _ => Ok(t),
    }
}

/// One record read from the front of `b`: its header, and the tables and bytes after it.
pub open spec fn step_record(t: TablesModel, b: Seq<u8>) -> Result<
    (Record, TablesModel, Seq<u8>),
    DecodeError,
> {
    match Record::parse(b) {
        Ok((h, after)) => if after.len() < h.bytes {
            Err(DecodeError::Truncated)
        } else {
            match apply_record(t, h.tag, after.subrange(0, h.bytes as int)) {
                Ok(t2) => Ok((h, t2, after.subrange(h.bytes as int, after.len() as int))),
                Err(e) => Err(e),
            }
        },
        Err(e) => Err(e),
    }
}

/// Reads a heap dump record by record, keeping the tables that later records refer to.
pub struct HprofParser {
    reader: Reader,
    header: Header,
    strings_tab: HashMap<u64, String>,
    frame_tab: HashMap<u64, StackFrameRecord>,
    class_tab: HashMap<u32, LoadClassRecord>,
}

impl HprofParser {
    pub closed spec fn wf(&self) -> bool {
        self.reader.wf()
    }

    /// The bytes not read yet.
    pub closed spec fn rest(&self) -> Seq<u8> {
        self.reader@
    }

    pub closed spec fn tables(&self) -> TablesModel {
        TablesModel {
            strings: self.strings_tab@.map_values(|s: String| s@),
            frames: self.frame_tab@,
            classes: self.class_tab@,
        }
    }

    pub closed spec fn header_model(&self) -> <Header as WireModel>::Model {
        self.header.model()
    }

    /// Starts on a whole dump: reads its header, with all tables empty.
    pub fn new(bytes: Vec<u8>) -> (r: Result<HprofParser, DecodeError>)
        ensures
            match Header::parse(bytes@) {
                Ok((h, rest)) => r is Ok && r->Ok_0.wf() && r->Ok_0.rest() == rest
                    && r->Ok_0.header_model() == h && r->Ok_0.tables() == (TablesModel {
                    strings: Map::empty(),
                    frames: Map::empty(),
                    classes: Map::empty(),
                }),
                Err(e) => r == Err::<HprofParser, DecodeError>(e),
            },
    {
        let mut reader = Reader::new(bytes);
        let header = match parse_header(&mut reader) {
            Ok(h) => h,
            Err(e) => return Err(e),
        };
        let p = HprofParser {
            reader,
            header,
            strings_tab: HashMap::new(),
            frame_tab: HashMap::new(),
            class_tab: HashMap::new(),
        };
        assert(p.tables().strings =~= Map::<u64, Seq<char>>::empty());
        Ok(p)
    }

    pub fn header(&self) -> (r: &Header)
        ensures
            r.model() == self.header_model(),
    {
        &self.header
    }

    /// Whether every byte has been read.
    pub fn done_parsing(&self) -> (r: bool)
        requires
            self.wf(),
        ensures
            r == (self.rest().len() == 0),
    {
        self.reader.remaining() == 0
    }

    /// The string with identifier `id`.
    pub fn string(&self, id: u64) -> (r: Option<&String>)
        ensures
            r is Some <==> self.tables().strings.contains_key(id),
            r matches Some(s) ==> s@ == self.tables().strings[id],
    {
        self.strings_tab.get(&id)
    }

    /// The frame with id `id`.
    pub fn frame(&self, id: u64) -> (r: Option<StackFrameRecord>)
        ensures
            r is Some <==> self.tables().frames.contains_key(id),
            r matches Some(f) ==> f == self.tables().frames[id],
    {
        match self.frame_tab.get(&id) {
            Some(f) => Some(*f),
            None => None,
        }
    }

    /// The loaded class with serial number `serial`.
    pub fn class(&self, serial: u32) -> (r: Option<LoadClassRecord>)
        ensures
            r is Some <==> self.tables().classes.contains_key(serial),
            r matches Some(c) ==> c == self.tables().classes[serial],
    {
        match self.class_tab.get(&serial) {
            Some(c) => Some(*c),
            None => None,
        }
    }

    /// Reads the next record, adds what it defines to the tables, and returns its header.
    pub fn parse_record(&mut self) -> (r: Result<Record, DecodeError>)
        requires
            old(self).wf(),
        ensures
            final(self).wf(),
            match step_record(old(self).tables(), old(self).rest()) {
                Ok((h, t, rest)) => r == Ok::<Record, DecodeError>(h) && final(self).tables() == t
                    && final(self).rest() == rest && final(self).header_model() == old(
                    self,
                ).header_model(),
                Err(e) => r == Err::<Record, DecodeError>(e),
            },
    {
        let ghost t0 = self.tables();
        let record = match Record::decode(&mut self.reader) {
            Ok(h) => h,
            Err(e) => return Err(e),
        };
        let ghost after = self.reader@;
        let body = match self.reader.read_bytes(record.bytes as usize) {
            Ok(b) => b,
            Err(e) => return Err(e),
        };
        let ghost body_bytes = body@;
        assert(body_bytes == after.subrange(0, record.bytes as int));
        match record.tag {
            RecordTag::Utf8String => {
                let s = match parse_utf8_string_record(body) {
                    Ok(s) => s,
                    Err(e) => return Err(e),
                };
                let ghost sv = s.value@;
                self.strings_tab.insert(s.identifier, s.value);
                assert(self.tables().strings =~= t0.strings.insert(s.identifier, sv));
            },
            RecordTag::LoadClass => {
                let c = match decode_exact::<LoadClassRecord>(body) {
                    Ok(c) => c,
                    Err(e) => return Err(e),
                };
                self.class_tab.insert(c.serial_num, c);
            },
            RecordTag::UnloadClass => {
                match decode_exact::<UnloadClassRecord>(body) {
                    Ok(_) => {},
                    Err(e) => return Err(e),
                }
            },
            RecordTag::StackFrame => {
                let f = match decode_exact::<StackFrameRecord>(body) {
                    Ok(f) => f,
                    Err(e) => return Err(e),
                };
                self.frame_tab.insert(f.frame_id, f);
            },
            RecordTag::StackTrace => {
                match decode_exact::<StackTraceRecord>(body) {
                    Ok(_) => {},
                    Err(e) => return Err(e),
                }
            },
            _ => {},
        }
        Ok(record)
    }
}

/// How many records of each kind a scan of a dump read.
#[derive(Debug, Clone, Copy, PartialEq, Eq, Structural)]
pub struct RecordCounts {
    pub strings: u64,
    pub loads: u64,
    pub unloads: u64,
    pub frames: u64,
    pub traces: u64,
    pub heap_dumps: u64,
}

pub open spec fn no_records() -> RecordCounts {
    RecordCounts { strings: 0, loads: 0, unloads: 0, frames: 0, traces: 0, heap_dumps: 0 }
}

pub open spec fn total(c: RecordCounts) -> int {
    c.strings + c.loads + c.unloads + c.frames + c.traces + c.heap_dumps
}

/// `c` with one more record of kind `tag`; kinds not counted leave it as it is.
pub open spec fn count_record(c: RecordCounts, tag: RecordTag) -> RecordCounts {
    match tag {
        RecordTag::Utf8String => RecordCounts { strings: (c.strings + 1) as u64, ..c },
        RecordTag::LoadClass => RecordCounts { loads: (c.loads + 1) as u64, ..c },
        RecordTag::UnloadClass => RecordCounts { unloads: (c.unloads + 1) as u64, ..c },
        RecordTag::StackFrame => RecordCounts { frames: (c.frames + 1) as u64, ..c },
        RecordTag::StackTrace => RecordCounts { traces: (c.traces + 1) as u64, ..c },
        RecordTag::HeapDump => RecordCounts { heap_dumps: (c.heap_dumps + 1) as u64, ..c },
        _ => c,
    }
}

/// The scan stops after a record of kind `tag`: a heap dump, or a kind not read further.
pub open spec fn stops_after(tag: RecordTag) -> bool {
    !(tag is Utf8String || tag is LoadClass || tag is UnloadClass || tag is StackFrame
        || tag is StackTrace)
}

/// Reading a record takes at least its 9-byte header.
pub proof fn lemma_record_consumes(t: TablesModel, b: Seq<u8>)
    requires
        step_record(t, b) is Ok,
    ensures
        step_record(t, b)->Ok_0.2.len() + 9 <= b.len(),
{
}

/// What follows a header is part of the input.
pub proof fn lemma_header_rest_shorter(b: Seq<u8>)
    requires
        Header::parse(b) is Ok,
    ensures
        Header::parse(b)->Ok_0.1.len() <= b.len(),
{
    let i = choose|i: int| first_nul_at(b, i);
    let after = b.subrange(i + 1, b.len() as int);
    assert(after.len() <= b.len());
}

/// The counts a scan of the records in `b` ends with, from tables `t` and counts `c`: it
/// reads records until the bytes end or a record stops it.
pub open spec fn scan_records(t: TablesModel, b: Seq<u8>, c: RecordCounts) -> Result<
    RecordCounts,
    DecodeError,
>
    decreases b.len(),
{
    if b.len() == 0 {
        Ok(c)
    } else {
        match step_record(t, b) {
            Ok((h, t2, rest)) => if stops_after(h.tag) {
                Ok(count_record(c, h.tag))
            } else {
                if rest.len() < b.len() {
                    scan_records(t2, rest, count_record(c, h.tag))
                } else {
                    Ok(count_record(c, h.tag))
                }
            },
            Err(e) => Err(e),
        }
    }
}

/// Reads a whole dump: its header, then records until the bytes end or a heap dump or a
/// record of a kind not read further stops the scan. Returns how many of each were read.
pub fn parse_hprof_file(bytes: Vec<u8>) -> (r: Result<RecordCounts, DecodeError>)
    ensures
        match Header::parse(bytes@) {
            Ok((h, rest)) => r == scan_records(
                TablesModel { strings: Map::empty(), frames: Map::empty(), classes: Map::empty() },
                rest,
                no_records(),
            ),
            Err(e) => r == Err::<RecordCounts, DecodeError>(e),
        },
{
    let ghost input = bytes@;
    let len = bytes.len();
    let mut parser = match HprofParser::new(bytes) {
        Ok(p) => p,
        Err(e) => return Err(e),
    };
    let ghost start = parser.rest();
    proof {
        lemma_header_rest_shorter(input);
    }
    let mut counts = RecordCounts {
        strings: 0,
        loads: 0,
        unloads: 0,
        frames: 0,
        traces: 0,
        heap_dumps: 0,
    };
    loop
        invariant
            parser.wf(),
            input == bytes@,
            Header::parse(input) is Ok && Header::parse(input)->Ok_0.1 == start,
            start.len() <= len,
            total(counts) + parser.rest().len() <= start.len(),
            scan_records(
                TablesModel { strings: Map::empty(), frames: Map::empty(), classes: Map::empty() },
                start,
                no_records(),
            ) == scan_records(parser.tables(), parser.rest(), counts),
        decreases parser.rest().len(),
    {
        if parser.done_parsing() {
            return Ok(counts);
        }
        let ghost t = parser.tables();
        let ghost b = parser.rest();
        let record = match parser.parse_record() {
            Ok(h) => h,
            Err(e) => return Err(e),
        };
        proof {
            lemma_record_consumes(t, b);
        }
        match record.tag {
            RecordTag::Utf8String => counts.strings = counts.strings + 1,
            RecordTag::LoadClass => counts.loads = counts.loads + 1,
            RecordTag::UnloadClass => counts.unloads = counts.unloads + 1,
            RecordTag::StackFrame => counts.frames = counts.frames + 1,
            RecordTag::StackTrace => counts.traces = counts.traces + 1,
            RecordTag::HeapDump => {
                counts.heap_dumps = counts.heap_dumps + 1;
                return Ok(counts);
            },
            _ => return Ok(counts),
        }
    }
}

/// The size of a value of type `t` in a heap dump with 8-byte identifiers; array-object
/// is no value type.
pub open spec fn value_size(t: FieldTag) -> Option<nat> {
    match t {
        FieldTag::ArrayObject => None,
        FieldTag::Boolean | FieldTag::Byte => Some(1),
        FieldTag::Char | FieldTag::Short => Some(2),
        FieldTag::Float | FieldTag::Int => Some(4),
        FieldTag::Double | FieldTag::Long | FieldTag::NormalObject => Some(8),
    }
}

fn value_size_of(t: FieldTag) -> (r: Option<usize>)
    ensures
        r matches Some(n) ==> value_size(t) == Some(n as nat),
        r is None ==> value_size(t) is None,
{
    match t {
        FieldTag::ArrayObject => None,
        FieldTag::Boolean | FieldTag::Byte => Some(1),
        FieldTag::Char | FieldTag::Short => Some(2),
        FieldTag::Float | FieldTag::Int => Some(4),
        FieldTag::Double | FieldTag::Long | FieldTag::NormalObject => Some(8),
    }
}

/// The raw bytes of one value of type `t`.
pub open spec fn parse_value(t: FieldTag, b: Seq<u8>) -> Result<(Seq<u8>, Seq<u8>), DecodeError> {
    match value_size(t) {
        Some(n) => if b.len() >= n {
            Ok((b.subrange(0, n as int), b.subrange(n as int, b.len() as int)))
        } else {
            Err(DecodeError::Truncated)
        },
        None => Err(DecodeError::InvalidTag(1)),
    }
}

fn read_value(r: &mut Reader, t: FieldTag) -> (res: Result<Vec<u8>, DecodeError>)
    requires
        old(r).wf(),
    ensures
        final(r).wf(),
        match parse_value(t, old(r)@) {
            Ok((v, rest)) => res is Ok && res->Ok_0@ == v && final(r)@ == rest,
            Err(e) => res == Err::<Vec<u8>, DecodeError>(e),
        },
{
    match value_size_of(t) {
        Some(n) => r.read_bytes(n),
        None => Err(DecodeError::InvalidTag(1)),
    }
}

/// The bytes after the first `k`, when there are that many.
pub open spec fn skip_bytes(b: Seq<u8>, k: int) -> Result<Seq<u8>, DecodeError> {
    if b.len() >= k {
        Ok(b.subrange(k, b.len() as int))
    } else {
        Err(DecodeError::Truncated)
    }
}

fn skip_wide(r: &mut Reader, k: u64) -> (res: Result<(), DecodeError>)
    requires
        old(r).wf(),
    ensures
        final(r).wf(),
        match skip_bytes(old(r)@, k as int) {
            Ok(rest) => res is Ok && final(r)@ == rest,
            Err(e) => res == Err::<(), DecodeError>(e),
        },
{
    if k > r.remaining() as u64 {
        return Err(DecodeError::Truncated);
    }
    r.skip(k as usize)
}

/// A list with a 2-byte count.
pub open spec fn parse_counted<T: Decode>(b: Seq<u8>) -> Result<
    (Seq<T::Model>, Seq<u8>),
    DecodeError,
> {
    match crate::wire::parse_u16(b) {
        Ok((n, rest)) => parse_items::<T>(rest, n as nat),
        Err(e) => Err(e),
    }
}

fn read_counted<T: Decode>(r: &mut Reader) -> (res: Result<Vec<T>, DecodeError>)
    requires
        old(r).wf(),
    ensures
        final(r).wf(),
        match parse_counted::<T>(old(r)@) {
            Ok((ms, rest)) => res is Ok && res->Ok_0.model() == ms && final(r)@ == rest,
            Err(e) => res == Err::<Vec<T>, DecodeError>(e),
        },
{
    let n = match r.read_u16() {
        Ok(n) => n,
        Err(e) => return Err(e),
    };
    read_items::<T>(r, n as usize)
}

/// An entry of a class's constant pool.
#[derive(Debug, Clone, PartialEq, Eq)]
pub struct ConstantPoolEntry {
    pub index: u16,
    pub entry_type: FieldTag,
    pub value: Vec<u8>,
}

impl WireModel for ConstantPoolEntry {
    type Model = (u16, FieldTag, Seq<u8>);

    open spec fn model(&self) -> Self::Model {
        (self.index, self.entry_type, self.value@)
    }
}

impl Decode for ConstantPoolEntry {
    /// An index, a type tag, and a value of that type.
    open spec fn parse(b: Seq<u8>) -> Result<(Self::Model, Seq<u8>), DecodeError> {
        match <(u16, (FieldTag, ()))>::parse(b) {
            Ok(((index, (t, ())), rest)) => match parse_value(t, rest) {
                Ok((v, rest2)) => Ok(((index, t, v), rest2)),
                Err(e) => Err(e),
            },
            Err(e) => Err(e),
        }
    }

    fn decode(r: &mut Reader) -> (res: Result<ConstantPoolEntry, DecodeError>) {
        let (index, (entry_type, ())) = match <(u16, (FieldTag, ()))>::decode(r) {
            Ok(v) => v,
            Err(e) => return Err(e),
        };
        match read_value(r, entry_type) {
            Ok(value) => Ok(ConstantPoolEntry { index, entry_type, value }),
            Err(e) => Err(e),
        }
    }
}

/// A static field of a class and its value.
#[derive(Debug, Clone, PartialEq, Eq)]
pub struct StaticField {
    pub name_id: u64,
    pub field_type: FieldTag,
    pub value: Vec<u8>,
}

impl WireModel for StaticField {
    type Model = (u64, FieldTag, Seq<u8>);

    open spec fn model(&self) -> Self::Model {
        (self.name_id, self.field_type, self.value@)
    }
}

impl Decode for StaticField {
    /// A name string id, a type tag, and a value of that type.
    open spec fn parse(b: Seq<u8>) -> Result<(Self::Model, Seq<u8>), DecodeError> {
        match <(u64, (FieldTag, ()))>::parse(b) {
            Ok(((name_id, (t, ())), rest)) => match parse_value(t, rest) {
                Ok((v, rest2)) => Ok(((name_id, t, v), rest2)),
                Err(e) => Err(e),
            },
            Err(e) => Err(e),
        }
    }

    fn decode(r: &mut Reader) -> (res: Result<StaticField, DecodeError>) {
        let (name_id, (field_type, ())) = match <(u64, (FieldTag, ()))>::decode(r) {
            Ok(v) => v,
            Err(e) => return Err(e),
        };
        match read_value(r, field_type) {
            Ok(value) => Ok(StaticField { name_id, field_type, value }),
            Err(e) => Err(e),
        }
    }
}

/// An instance field of a class: its name and type.
#[derive(Debug, Clone, Copy, PartialEq, Eq, Structural)]
pub struct InstanceField {
    pub name_id: u64,
    pub field_type: FieldTag,
}

impl WireModel for InstanceField {
    type Model = InstanceField;

    open spec fn model(&self) -> InstanceField {
        *self
    }
}

impl Decode for InstanceField {
    /// A name string id and a type tag.
    open spec fn parse(b: Seq<u8>) -> Result<(InstanceField, Seq<u8>), DecodeError> {
        match <(u64, (FieldTag, ()))>::parse(b) {
            Ok(((name_id, (field_type, ())), rest)) => Ok(
                (InstanceField { name_id, field_type }, rest),
            ),
            Err(e) => Err(e),
        }
    }

    fn decode(r: &mut Reader) -> (res: Result<InstanceField, DecodeError>) {
        match <(u64, (FieldTag, ()))>::decode(r) {
            Ok((name_id, (field_type, ()))) => Ok(InstanceField { name_id, field_type }),
            Err(e) => Err(e),
        }
    }
}

/// The ids and sizes that open a class dump.
pub type ClassDumpIds = (u64, (u32, (u64, (u64, (u64, (u64, (u64, (u64, (u32, ())))))))));

/// A class dump: ids, the instance size, the constant pool, and the static and instance
/// fields.
#[derive(Debug, Clone, PartialEq, Eq)]
pub struct ClassDump {
    pub class_object_id: u64,
    pub strace_serial_num: u32,
    pub superclass_object_id: u64,
    pub class_loader_object_id: u64,
    pub signers_object_id: u64,
    pub pdomain_object_id: u64,
    pub reserved0: u64,
    pub reserved1: u64,
    pub instance_size_bytes: u32,
    pub constant_pool: Vec<ConstantPoolEntry>,
    pub static_fields: Vec<StaticField>,
    pub instance_fields: Vec<InstanceField>,
}

impl WireModel for ClassDump {
    type Model = (
        ClassDumpIds,
        Seq<(u16, FieldTag, Seq<u8>)>,
        Seq<(u64, FieldTag, Seq<u8>)>,
        Seq<InstanceField>,
    );

    open spec fn model(&self) -> Self::Model {
        (
            (self.class_object_id, (self.strace_serial_num, (self.superclass_object_id, (
            self.class_loader_object_id, (self.signers_object_id, (self.pdomain_object_id, (
            self.reserved0, (self.reserved1, (self.instance_size_bytes, ()))))))))),
            self.constant_pool.model(),
            self.static_fields.model(),
            self.instance_fields.model(),
        )
    }
}

impl Decode for ClassDump {
    /// The ids and instance size, then three lists with 2-byte counts: constant pool
    /// entries, static fields, instance fields.
    open spec fn parse(b: Seq<u8>) -> Result<(Self::Model, Seq<u8>), DecodeError> {
        match ClassDumpIds::parse(b) {
            Ok((ids, r1)) => match parse_counted::<ConstantPoolEntry>(r1) {
                Ok((pool, r2)) => match parse_counted::<StaticField>(r2) {
                    Ok((statics, r3)) => match parse_counted::<InstanceField>(r3) {
                        Ok((fields, r4)) => Ok(((ids, pool, statics, fields), r4)),
                        Err(e) => Err(e),
                    },
                    Err(e) => Err(e),
                },
                Err(e) => Err(e),
            },
            Err(e) => Err(e),
        }
    }

    fn decode(r: &mut Reader) -> (res: Result<ClassDump, DecodeError>) {
        let ids = match ClassDumpIds::decode(r) {
            Ok(v) => v,
            Err(e) => return Err(e),
        };
        let (
            class_object_id,
            (
                strace_serial_num,
                (
                    superclass_object_id,
                    (
                        class_loader_object_id,
                        (
                            signers_object_id,
                            (pdomain_object_id, (reserved0, (reserved1, (instance_size_bytes, ())))),
                        ),
                    ),
                ),
            ),
        ) = ids;
        let constant_pool = match read_counted::<ConstantPoolEntry>(r) {
            Ok(v) => v,
            Err(e) => return Err(e),
        };
        let static_fields = match read_counted::<StaticField>(r) {
            Ok(v) => v,
            Err(e) => return Err(e),
        };
        let instance_fields = match read_counted::<InstanceField>(r) {
            Ok(v) => v,
            Err(e) => return Err(e),
        };
        Ok(
            ClassDump {
                class_object_id,
                strace_serial_num,
                superclass_object_id,
                class_loader_object_id,
                signers_object_id,
                pdomain_object_id,
                reserved0,
                reserved1,
                instance_size_bytes,
                constant_pool,
                static_fields,
                instance_fields,
            },
        )
    }
}

/// An instance dump: its ids; the field values that follow are passed over.
#[derive(Debug, Clone, Copy, PartialEq, Eq, Structural)]
pub struct InstanceDump {
    pub object_id: u64,
    pub strace_serial_num: u32,
    pub class_object_id: u64,
    pub bytes_left: u32,
}

impl WireModel for InstanceDump {
    type Model = InstanceDump;

    open spec fn model(&self) -> InstanceDump {
        *self
    }
}

impl Decode for InstanceDump {
    /// Object id, stack trace serial number, class id, a byte count, then that many bytes.
    open spec fn parse(b: Seq<u8>) -> Result<(InstanceDump, Seq<u8>), DecodeError> {
        match <(u64, (u32, (u64, (u32, ()))))>::parse(b) {
            Ok(((object_id, (strace_serial_num, (class_object_id, (bytes_left, ())))), rest)) => {
                let d = InstanceDump { object_id, strace_serial_num, class_object_id, bytes_left };
                match skip_bytes(rest, bytes_left as int) {
                    Ok(rest2) => Ok((d, rest2)),
                    Err(e) => Err(e),
                }
            },
            Err(e) => Err(e),
        }
    }

    fn decode(r: &mut Reader) -> (res: Result<InstanceDump, DecodeError>) {
        let ids = match <(u64, (u32, (u64, (u32, ()))))>::decode(r) {
            Ok(v) => v,
            Err(e) => return Err(e),
        };
        let (object_id, (strace_serial_num, (class_object_id, (bytes_left, ())))) = ids;
        let d = InstanceDump { object_id, strace_serial_num, class_object_id, bytes_left };
        match skip_wide(r, bytes_left as u64) {
            Ok(()) => Ok(d),
            Err(e) => Err(e),
        }
    }
}

/// An object array dump: its ids and length; the element ids that follow are passed over.
#[derive(Debug, Clone, Copy, PartialEq, Eq, Structural)]
pub struct ObjectArrayDump {
    pub array_object_id: u64,
    pub strace_serial_num: u32,
    pub n_elements: u32,
    pub array_class_object_id: u64,
}

impl WireModel for ObjectArrayDump {
    type Model = ObjectArrayDump;

    open spec fn model(&self) -> ObjectArrayDump {
        *self
    }
}

impl Decode for ObjectArrayDump {
    /// Array id, stack trace serial number, length, class id, then one 8-byte id per element.
    open spec fn parse(b: Seq<u8>) -> Result<(ObjectArrayDump, Seq<u8>), DecodeError> {
        match <(u64, (u32, (u32, (u64, ()))))>::parse(b) {
            Ok(((array_object_id, (strace_serial_num, (n_elements, (class_id, ())))), rest)) => {
                let d = ObjectArrayDump {
                    array_object_id,
                    strace_serial_num,
                    n_elements,
                    array_class_object_id: class_id,
                };
                match skip_bytes(rest, n_elements as int * 8) {
                    Ok(rest2) => Ok((d, rest2)),
                    Err(e) => Err(e),
                }
            },
            Err(e) => Err(e),
        }
    }

    fn decode(r: &mut Reader) -> (res: Result<ObjectArrayDump, DecodeError>) {
        let ids = match <(u64, (u32, (u32, (u64, ()))))>::decode(r) {
            Ok(v) => v,
            Err(e) => return Err(e),
        };
        let (array_object_id, (strace_serial_num, (n_elements, (array_class_object_id, ())))) = ids;
        let d = ObjectArrayDump {
            array_object_id,
            strace_serial_num,
            n_elements,
            array_class_object_id,
        };
        match skip_wide(r, n_elements as u64 * 8) {
            Ok(()) => Ok(d),
            Err(e) => Err(e),
        }
    }
}

/// A primitive array dump: its ids, length and element type; the elements that follow are
/// passed over.
#[derive(Debug, Clone, Copy, PartialEq, Eq, Structural)]
pub struct PrimitiveArrayDump {
    pub array_object_id: u64,
    pub strace_serial_num: u32,
    pub n_elements: u32,
    pub element_type: FieldTag,
}

impl WireModel for PrimitiveArrayDump {
    type Model = PrimitiveArrayDump;

    open spec fn model(&self) -> PrimitiveArrayDump {
        *self
    }
}

impl Decode for PrimitiveArrayDump {
    /// Array id, stack trace serial number, length, element type, then the elements.
    open spec fn parse(b: Seq<u8>) -> Result<(PrimitiveArrayDump, Seq<u8>), DecodeError> {
        match <(u64, (u32, (u32, (FieldTag, ()))))>::parse(b) {
            Ok(((array_object_id, (strace_serial_num, (n_elements, (element_type, ())))), rest)) => {
                let d = PrimitiveArrayDump {
                    array_object_id,
                    strace_serial_num,
                    n_elements,
                    element_type,
                };
                match value_size(element_type) {
                    Some(size) => match skip_bytes(rest, n_elements as int * size as int) {
                        Ok(rest2) => Ok((d, rest2)),
                        Err(e) => Err(e),
                    },
                    None => Err(DecodeError::InvalidTag(1)),
                }
            },
            Err(e) => Err(e),
        }
    }

    fn decode(r: &mut Reader) -> (res: Result<PrimitiveArrayDump, DecodeError>) {
        let ids = match <(u64, (u32, (u32, (FieldTag, ()))))>::decode(r) {
            Ok(v) => v,
            Err(e) => return Err(e),
        };
        let (array_object_id, (strace_serial_num, (n_elements, (element_type, ())))) = ids;
        let size = match value_size_of(element_type) {
            Some(s) => s,
            None => return Err(DecodeError::InvalidTag(1)),
        };
        assert(size <= 8);
        assert(n_elements as int * size as int <= 0xffff_ffff * 8) by (nonlinear_arith)
            requires
                size <= 8,
                n_elements <= 0xffff_ffff,
        ;
        match skip_wide(r, n_elements as u64 * size as u64) {
            Ok(()) => Ok(
                PrimitiveArrayDump { array_object_id, strace_serial_num, n_elements, element_type },
            ),
            Err(e) => Err(e),
        }
    }
}

/// How many object sub-records of each kind a scan of a heap dump segment read.
#[derive(Debug, Clone, Copy, PartialEq, Eq, Structural)]
pub struct SubRecordCounts {
    pub class_dumps: u64,
    pub instance_dumps: u64,
    pub object_array_dumps: u64,
    pub primitive_array_dumps: u64,
}

pub open spec fn no_subrecords() -> SubRecordCounts {
    SubRecordCounts {
        class_dumps: 0,
        instance_dumps: 0,
        object_array_dumps: 0,
        primitive_array_dumps: 0,
    }
}

pub open spec fn subrecord_total(c: SubRecordCounts) -> int {
    c.class_dumps + c.instance_dumps + c.object_array_dumps + c.primitive_array_dumps
}

/// The sub-record kinds the scan reads: class, instance, object array and primitive array
/// dumps.
pub open spec fn is_object_dump(tag: DataDumpSubRecordTag) -> bool {
    tag is ClassDump || tag is InstanceDump || tag is ObjectArrayDump || tag is PrimitiveArrayDump
}

/// `c` with one more sub-record of kind `tag`.
pub open spec fn count_subrecord(c: SubRecordCounts, tag: DataDumpSubRecordTag) -> SubRecordCounts {
    match tag {
        DataDumpSubRecordTag::ClassDump => SubRecordCounts {
            class_dumps: (c.class_dumps + 1) as u64,
            ..c
        },
        DataDumpSubRecordTag::InstanceDump => SubRecordCounts {
            instance_dumps: (c.instance_dumps + 1) as u64,
            ..c
        },
        DataDumpSubRecordTag::ObjectArrayDump => SubRecordCounts {
            object_array_dumps: (c.object_array_dumps + 1) as u64,
            ..c
        },
        DataDumpSubRecordTag::PrimitiveArrayDump => SubRecordCounts {
            primitive_array_dumps: (c.primitive_array_dumps + 1) as u64,
            ..c
        },
        _ => c,
    }
}

/// One sub-record's tag, and the bytes after the sub-record when it is an object dump, or
/// after the tag otherwise.
pub open spec fn step_subrecord(b: Seq<u8>) -> Result<
    (DataDumpSubRecordTag, Seq<u8>),
    DecodeError,
> {
    match DataDumpSubRecordTag::parse(b) {
        Ok((tag, rest)) => match tag {
            DataDumpSubRecordTag::ClassDump => match ClassDump::parse(rest) {
                Ok((_, r2)) => Ok((tag, r2)),
                Err(e) => Err(e),
            },
            DataDumpSubRecordTag::InstanceDump => match InstanceDump::parse(rest) {
                Ok((_, r2)) => Ok((tag, r2)),
                Err(e) => Err(e),
            },
            DataDumpSubRecordTag::ObjectArrayDump => match ObjectArrayDump::parse(rest) {
                Ok((_, r2)) => Ok((tag, r2)),
                Err(e) => Err(e),
            },
            DataDumpSubRecordTag::PrimitiveArrayDump => match PrimitiveArrayDump::parse(rest) {
                Ok((_, r2)) => Ok((tag, r2)),
                Err(e) => Err(e),
            },
            _ => Ok((tag, rest)),
        },
        Err(e) => Err(e),
    }
}

/// The counts a scan of a heap dump segment ends with: it reads object dumps until the
/// bytes end or a sub-record of another kind stops it.
pub open spec fn scan_subrecords(b: Seq<u8>, c: SubRecordCounts) -> Result<
    SubRecordCounts,
    DecodeError,
>
    decreases b.len(),
{
    if b.len() == 0 {
        Ok(c)
    } else {
        match step_subrecord(b) {
            Ok((tag, rest)) => if !is_object_dump(tag) {
                Ok(c)
            } else if rest.len() < b.len() {
                scan_subrecords(rest, count_subrecord(c, tag))
            } else {
                Ok(count_subrecord(c, tag))
            },
            Err(e) => Err(e),
        }
    }
}

/// Reads the object dumps of a heap dump segment and counts them by kind.
pub fn parse_heap_dump_records(segment: Vec<u8>) -> (r: Result<SubRecordCounts, DecodeError>)
    ensures
        r == scan_subrecords(segment@, no_subrecords()),
{
    let len = segment.len();
    let mut reader = Reader::new(segment);
    let mut counts = SubRecordCounts {
        class_dumps: 0,
        instance_dumps: 0,
        object_array_dumps: 0,
        primitive_array_dumps: 0,
    };
    loop
        invariant
            reader.wf(),
            subrecord_total(counts) + reader@.len() <= len,
            scan_subrecords(segment@, no_subrecords()) == scan_subrecords(reader@, counts),
        decreases reader@.len(),
    {
        let before = reader.remaining();
        if before == 0 {
            return Ok(counts);
        }
        let tag = match DataDumpSubRecordTag::decode(&mut reader) {
            Ok(t) => t,
            Err(e) => return Err(e),
        };
        let read = match tag {
            DataDumpSubRecordTag::ClassDump => match ClassDump::decode(&mut reader) {
                Ok(_) => Ok(()),
                Err(e) => Err(e),
            },
            DataDumpSubRecordTag::InstanceDump => match InstanceDump::decode(&mut reader) {
                Ok(_) => Ok(()),
                Err(e) => Err(e),
            },
            DataDumpSubRecordTag::ObjectArrayDump => match ObjectArrayDump::decode(&mut reader) {
                Ok(_) => Ok(()),
                Err(e) => Err(e),
            },
            DataDumpSubRecordTag::PrimitiveArrayDump => {
                match PrimitiveArrayDump::decode(&mut reader) {
                    Ok(_) => Ok(()),
                    Err(e) => Err(e),
                }
            },
            _ => return Ok(counts),
        };
        match read {
            Ok(()) => {},
            Err(e) => return Err(e),
        }
        match tag {
            DataDumpSubRecordTag::ClassDump => counts.class_dumps = counts.class_dumps + 1,
            DataDumpSubRecordTag::InstanceDump => counts.instance_dumps = counts.instance_dumps + 1,
            DataDumpSubRecordTag::ObjectArrayDump => {
                counts.object_array_dumps = counts.object_array_dumps + 1
            },
            _ => counts.primitive_array_dumps = counts.primitive_array_dumps + 1,
        }
        if reader.remaining() >= before {
            return Ok(counts);
        }
    }
}

} // verus!
