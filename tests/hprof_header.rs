use libjdb::error::DecodeError;
use libjdb::hprof::{
    parse_header, parse_heap_dump_records, parse_hprof_file, parse_utf8_string_record,
    DataDumpSubRecordTag, FieldTag, HprofParser, LoadClassRecord, Record, RecordCounts, RecordTag,
    StackFrameRecord, SubRecordCounts,
};
use libjdb::wire::Reader;

fn header_bytes() -> Vec<u8> {
    let mut bytes = b"JAVA PROFILE 1.0.2\0".to_vec();
    bytes.extend_from_slice(&[0, 0, 0, 8, 0, 0, 1, 0x7F, 0x12, 0x34, 0x56, 0x78]);
    bytes
}

fn record(tag: u8, body: &[u8]) -> Vec<u8> {
    let mut r = vec![tag, 0, 0, 0, 1];
    r.extend_from_slice(&(body.len() as u32).to_be_bytes());
    r.extend_from_slice(body);
    r
}

fn string_body(id: u64, s: &str) -> Vec<u8> {
    let mut b = id.to_be_bytes().to_vec();
    b.extend_from_slice(s.as_bytes());
    b
}

fn load_class_body(serial: u32, object: u64, trace: u32, name: u64) -> Vec<u8> {
    let mut b = serial.to_be_bytes().to_vec();
    b.extend_from_slice(&object.to_be_bytes());
    b.extend_from_slice(&trace.to_be_bytes());
    b.extend_from_slice(&name.to_be_bytes());
    b
}

fn frame_body(frame: u64, line: i32) -> Vec<u8> {
    let mut b = frame.to_be_bytes().to_vec();
    for id in [21u64, 22, 23] {
        b.extend_from_slice(&id.to_be_bytes());
    }
    b.extend_from_slice(&7u32.to_be_bytes());
    b.extend_from_slice(&line.to_be_bytes());
    b
}

#[test]
fn header_fields_in_order() {
    let mut bytes = header_bytes();
    bytes.push(0xAA);
    let mut r = Reader::new(bytes);
    let h = parse_header(&mut r).unwrap();
    assert_eq!(h.format, "JAVA PROFILE 1.0.2");
    assert_eq!(h.identifier_size, 8);
    assert_eq!(h.high_word_ms, 0x17F);
    assert_eq!(h.low_word_ms, 0x12345678);
    assert_eq!(r.remaining(), 1);
}

#[test]
fn header_needs_terminator_and_words() {
    let mut r = Reader::new(b"JAVA PROFILE".to_vec());
    assert_eq!(parse_header(&mut r), Err(DecodeError::Truncated));
    let mut r = Reader::new(b"X\0\0\0\0\x08".to_vec());
    assert_eq!(parse_header(&mut r), Err(DecodeError::Truncated));
}

#[test]
fn header_name_is_read_leniently() {
    let mut r = Reader::new(vec![0xFF, 0, 0, 0, 0, 8, 0, 0, 0, 0, 0, 0, 0, 0]);
    let h = parse_header(&mut r).unwrap();
    assert_eq!(h.format, "\u{FFFD}");
}

#[test]
fn tags_map_closed() {
    assert_eq!(RecordTag::from_u8(0x01), Some(RecordTag::Utf8String));
    assert_eq!(RecordTag::from_u8(0x1C), Some(RecordTag::HeapDumpSegment));
    assert_eq!(RecordTag::from_u8(0x2C), Some(RecordTag::HeapDumpEnd));
    assert_eq!(RecordTag::from_u8(0x08), None);
    assert_eq!(FieldTag::from_u8(0x0B), Some(FieldTag::Long));
    assert_eq!(FieldTag::from_u8(0x03), None);
    assert_eq!(DataDumpSubRecordTag::from_u8(0xFF), Some(DataDumpSubRecordTag::RootUnknown));
    assert_eq!(DataDumpSubRecordTag::from_u8(0x23), Some(DataDumpSubRecordTag::PrimitiveArrayDump));
    assert_eq!(DataDumpSubRecordTag::from_u8(0x24), None);
}

#[test]
fn string_record_body() {
    let r = parse_utf8_string_record(string_body(0x42, "java/lang/Thread")).unwrap();
    assert_eq!(r.identifier, 0x42);
    assert_eq!(r.value, "java/lang/Thread");
    assert_eq!(parse_utf8_string_record(vec![1, 2, 3]), Err(DecodeError::Truncated));
}

#[test]
fn records_fill_tables() {
    let mut bytes = header_bytes();
    bytes.extend(record(0x01, &string_body(5, "run")));
    bytes.extend(record(0x02, &load_class_body(3, 0x1000, 0, 5)));
    bytes.extend(record(0x04, &frame_body(9, 42)));
    bytes.extend(record(0x01, &string_body(5, "main")));
    let mut p = HprofParser::new(bytes).unwrap();
    assert_eq!(p.header().identifier_size, 8);
    let r = p.parse_record().unwrap();
    assert_eq!(r, Record { tag: RecordTag::Utf8String, time: 1, bytes: 11 });
    assert_eq!(p.string(5).map(|s| s.as_str()), Some("run"));
    assert_eq!(p.parse_record().unwrap().tag, RecordTag::LoadClass);
    assert_eq!(
        p.class(3),
        Some(LoadClassRecord { serial_num: 3, object_id: 0x1000, strace_num: 0, strname_id: 5 })
    );
    assert_eq!(p.parse_record().unwrap().tag, RecordTag::StackFrame);
    assert_eq!(
        p.frame(9),
        Some(StackFrameRecord {
            frame_id: 9,
            method_name_id: 21,
            method_sign_id: 22,
            source_name_id: 23,
            class_serial_num: 7,
            line_num: 42,
        })
    );
    assert!(!p.done_parsing());
    p.parse_record().unwrap();
    assert_eq!(p.string(5).map(|s| s.as_str()), Some("main"));
    assert!(p.done_parsing());
    assert_eq!(p.frame(10), None);
    assert_eq!(p.class(4), None);
}

#[test]
fn record_body_must_match_its_length() {
    let mut bytes = header_bytes();
    let mut body = load_class_body(3, 1, 0, 5);
    body.push(0);
    bytes.extend(record(0x02, &body));
    let mut p = HprofParser::new(bytes).unwrap();
    assert_eq!(p.parse_record(), Err(DecodeError::TrailingBytes));
    let mut bytes = header_bytes();
    bytes.extend_from_slice(&[0x01, 0, 0, 0, 0, 0, 0, 0, 20, 1, 2]);
    let mut p = HprofParser::new(bytes).unwrap();
    assert_eq!(p.parse_record(), Err(DecodeError::Truncated));
    let mut bytes = header_bytes();
    bytes.extend(record(0x09, &[]));
    let mut p = HprofParser::new(bytes).unwrap();
    assert_eq!(p.parse_record(), Err(DecodeError::InvalidTag(9)));
}

#[test]
fn file_scan_counts_records() {
    let mut bytes = header_bytes();
    bytes.extend(record(0x01, &string_body(1, "a")));
    bytes.extend(record(0x01, &string_body(2, "b")));
    bytes.extend(record(0x02, &load_class_body(1, 2, 3, 1)));
    bytes.extend(record(0x03, &[0, 0, 0, 1]));
    bytes.extend(record(0x04, &frame_body(1, -1)));
    let mut trace = vec![0, 0, 0, 1, 0, 0, 0, 2, 0, 0, 0, 2];
    trace.extend_from_slice(&1u64.to_be_bytes());
    trace.extend_from_slice(&2u64.to_be_bytes());
    bytes.extend(record(0x05, &trace));
    bytes.extend(record(0x0C, &[0xFF, 0xFF]));
    bytes.extend(record(0x01, &string_body(3, "never read")));
    assert_eq!(
        parse_hprof_file(bytes),
        Ok(RecordCounts { strings: 2, loads: 1, unloads: 1, frames: 1, traces: 1, heap_dumps: 1 })
    );
}

#[test]
fn file_scan_stops_at_other_kinds() {
    let mut bytes = header_bytes();
    bytes.extend(record(0x01, &string_body(1, "a")));
    bytes.extend(record(0x0A, &[1, 2, 3]));
    bytes.extend(record(0x01, &string_body(2, "b")));
    let counts = parse_hprof_file(bytes).unwrap();
    assert_eq!(counts.strings, 1);
    assert_eq!(parse_hprof_file(header_bytes()), Ok(RecordCounts {
        strings: 0, loads: 0, unloads: 0, frames: 0, traces: 0, heap_dumps: 0
    }));
    assert_eq!(parse_hprof_file(b"JAVA".to_vec()), Err(DecodeError::Truncated));
}

fn class_dump() -> Vec<u8> {
    let mut b = vec![0x20];
    b.extend_from_slice(&1u64.to_be_bytes());
    b.extend_from_slice(&0u32.to_be_bytes());
    for id in 2u64..8 {
        b.extend_from_slice(&id.to_be_bytes());
    }
    b.extend_from_slice(&16u32.to_be_bytes());
    b.extend_from_slice(&1u16.to_be_bytes());
    b.extend_from_slice(&[0, 3, 0x0A, 0, 0, 0, 9]);
    b.extend_from_slice(&2u16.to_be_bytes());
    b.extend_from_slice(&11u64.to_be_bytes());
    b.extend_from_slice(&[0x04, 1]);
    b.extend_from_slice(&12u64.to_be_bytes());
    b.extend_from_slice(&[0x0B, 0, 0, 0, 0, 0, 0, 0, 5]);
    b.extend_from_slice(&1u16.to_be_bytes());
    b.extend_from_slice(&13u64.to_be_bytes());
    b.push(0x02);
    b
}

#[test]
fn segment_scan_counts_object_dumps() {
    let mut seg = class_dump();
    seg.push(0x21);
    seg.extend_from_slice(&1u64.to_be_bytes());
    seg.extend_from_slice(&0u32.to_be_bytes());
    seg.extend_from_slice(&2u64.to_be_bytes());
    seg.extend_from_slice(&3u32.to_be_bytes());
    seg.extend_from_slice(&[9, 9, 9]);
    seg.push(0x22);
    seg.extend_from_slice(&1u64.to_be_bytes());
    seg.extend_from_slice(&0u32.to_be_bytes());
    seg.extend_from_slice(&2u32.to_be_bytes());
    seg.extend_from_slice(&3u64.to_be_bytes());
    seg.extend_from_slice(&[0u8; 16]);
    seg.push(0x23);
    seg.extend_from_slice(&1u64.to_be_bytes());
    seg.extend_from_slice(&0u32.to_be_bytes());
    seg.extend_from_slice(&3u32.to_be_bytes());
    seg.push(0x09);
    seg.extend_from_slice(&[0u8; 6]);
    assert_eq!(
        parse_heap_dump_records(seg),
        Ok(SubRecordCounts {
            class_dumps: 1,
            instance_dumps: 1,
            object_array_dumps: 1,
            primitive_array_dumps: 1,
        })
    );
}

#[test]
fn segment_scan_stops_at_roots_and_rejects_short_dumps() {
    let mut seg = class_dump();
    seg.push(0x01);
    seg.extend_from_slice(&class_dump());
    assert_eq!(parse_heap_dump_records(seg).map(|c| c.class_dumps), Ok(1));
    let mut short = vec![0x23];
    short.extend_from_slice(&1u64.to_be_bytes());
    short.extend_from_slice(&0u32.to_be_bytes());
    short.extend_from_slice(&3u32.to_be_bytes());
    short.push(0x0B);
    short.extend_from_slice(&[0u8; 23]);
    assert_eq!(parse_heap_dump_records(short), Err(DecodeError::Truncated));
    let mut array_of_arrays = vec![0x23];
    array_of_arrays.extend_from_slice(&[0u8; 16]);
    array_of_arrays.push(0x01);
    assert_eq!(parse_heap_dump_records(array_of_arrays), Err(DecodeError::InvalidTag(1)));
}
