use libjdb::error::JdwpError;
use libjdb::method::{Line, LineTableReply};
use libjdb::reference_type::{Method, MethodReply};
use libjdb::resolve::{line_number, line_number_from_reply, method_name, signature_to_name};

fn table(start: i64, end: i64, lines: &[(i64, i32)]) -> LineTableReply {
    LineTableReply {
        start,
        end,
        lines: lines
            .iter()
            .map(|&(line_code_index, line_number)| Line { line_code_index, line_number })
            .collect(),
    }
}

#[test]
fn line_is_last_entry_at_or_before_index() {
    let t = table(0, 100, &[(0, 10), (50, 20), (90, 30)]);
    assert_eq!(line_number(&t, 60), Some(20));
    assert_eq!(line_number(&t, 5), Some(10));
    assert_eq!(line_number(&t, 50), Some(20));
    assert_eq!(line_number(&t, 95), Some(30));
}

#[test]
fn line_table_order_does_not_matter() {
    let t = table(0, 100, &[(90, 30), (0, 10), (50, 20)]);
    assert_eq!(line_number(&t, 60), Some(20));
    assert_eq!(line_number(&t, 89), Some(20));
}

#[test]
fn no_line_before_first_entry() {
    let t = table(0, 100, &[(10, 7)]);
    assert_eq!(line_number(&t, 3), None);
    assert_eq!(line_number(&table(0, 100, &[]), 3), None);
}

#[test]
fn native_bounds_have_no_line() {
    let t = table(-1, -1, &[(0, 10)]);
    assert_eq!(line_number(&t, 5), None);
}

#[test]
fn native_method_error_means_no_line() {
    assert_eq!(line_number_from_reply(Err(JdwpError::ErrorCode(511)), 60), Ok(None));
    assert_eq!(
        line_number_from_reply(Err(JdwpError::ErrorCode(101)), 60),
        Err(JdwpError::ErrorCode(101))
    );
    let t = table(0, 100, &[(0, 10), (50, 20), (90, 30)]);
    assert_eq!(line_number_from_reply(Ok(t), 60), Ok(Some(20)));
}

#[test]
fn signature_maps_to_class_name() {
    assert_eq!(signature_to_name("Ljava/lang/Thread;"), "java.lang.Thread");
    assert_eq!(signature_to_name("LMain;"), "Main");
    assert_eq!(signature_to_name("[I"), "[I");
    assert_eq!(signature_to_name(""), "");
}

#[test]
fn method_name_by_id() {
    let m = |id: u64, name: &str| Method {
        method_id: id,
        name: name.to_string(),
        signature: "()V".to_string(),
        mod_bits: 1,
    };
    let reply = MethodReply { methods: vec![m(1, "<init>"), m(7, "run"), m(7, "shadow")] };
    assert_eq!(method_name(&reply, 7), Ok("run".to_string()));
    assert_eq!(method_name(&reply, 1), Ok("<init>".to_string()));
    assert_eq!(method_name(&reply, 9), Err(JdwpError::NotFound));
}
