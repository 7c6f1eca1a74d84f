use libjdb::error::{DecodeError, JdwpError};
use libjdb::jdwp::{finish_call, CommandChannel};
use libjdb::method::line_table_request;
use libjdb::reference_type::signature_request;
use libjdb::thread_reference::{frames_request, name_request};
use libjdb::virtual_machine::{
    all_threads_request, classes_by_signature_request, exit_request, id_sizes, id_sizes_request,
    AllThreadsReply, IdSizesReply,
};

struct Answer(Result<Vec<u8>, JdwpError>);

impl CommandChannel for Answer {
    fn execute_cmd(&self, _set: u8, _cmd: u8, _data: &[u8]) -> Result<Vec<u8>, JdwpError> {
        self.0.clone()
    }
}

#[test]
fn request_builders_fix_ids_and_payload() {
    assert_eq!(all_threads_request(), (1, 4, vec![]));
    assert_eq!(id_sizes_request(), (1, 7, vec![]));
    assert_eq!(exit_request(-1), (1, 10, vec![0xFF, 0xFF, 0xFF, 0xFF]));
    assert_eq!(name_request(0x0102), (11, 1, vec![0, 0, 0, 0, 0, 0, 1, 2]));
    assert_eq!(
        frames_request(1, 0, -1),
        (11, 6, vec![0, 0, 0, 0, 0, 0, 0, 1, 0, 0, 0, 0, 0xFF, 0xFF, 0xFF, 0xFF])
    );
    assert_eq!(signature_request(9), (2, 1, vec![0, 0, 0, 0, 0, 0, 0, 9]));
    assert_eq!(
        line_table_request(3, 4),
        (6, 1, vec![0, 0, 0, 0, 0, 0, 0, 3, 0, 0, 0, 0, 0, 0, 0, 4])
    );
    assert_eq!(
        classes_by_signature_request("LA;"),
        (1, 2, vec![0, 0, 0, 3, b'L', b'A', b';'])
    );
}

#[test]
fn finish_call_passes_channel_errors_on() {
    let r: Result<AllThreadsReply, JdwpError> = finish_call(Err(JdwpError::ErrorCode(35)));
    assert_eq!(r, Err(JdwpError::ErrorCode(35)));
    let r: Result<AllThreadsReply, JdwpError> = finish_call(Err(JdwpError::ConnectionFailed));
    assert_eq!(r, Err(JdwpError::ConnectionFailed));
}

#[test]
fn finish_call_decodes_whole_body() {
    let r: Result<AllThreadsReply, JdwpError> =
        finish_call(Ok(vec![0, 0, 0, 1, 0, 0, 0, 0, 0, 0, 0, 7]));
    assert_eq!(r, Ok(AllThreadsReply { threads: vec![7] }));
    let r: Result<AllThreadsReply, JdwpError> = finish_call(Ok(vec![0, 0, 0, 1, 0]));
    assert_eq!(r, Err(JdwpError::Decode(DecodeError::Truncated)));
}

#[test]
fn id_sizes_errors_are_surfaced() {
    assert_eq!(id_sizes(&Answer(Err(JdwpError::ErrorCode(21)))), Err(JdwpError::ErrorCode(21)));
    assert_eq!(
        id_sizes(&Answer(Ok(vec![0, 0, 0, 8]))),
        Err(JdwpError::Decode(DecodeError::Truncated))
    );
    let mut body = Vec::new();
    for _ in 0..5 {
        body.extend_from_slice(&[0, 0, 0, 8]);
    }
    assert_eq!(
        id_sizes(&Answer(Ok(body))),
        Ok(IdSizesReply {
            field_id_size: 8,
            method_id_size: 8,
            object_id_size: 8,
            reference_type_id_size: 8,
            frame_id_size: 8,
        })
    );
}
