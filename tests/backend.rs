use libjdb::backend::JdwpJavaVirtualMachine;
use libjdb::error::JdwpError;
use libjdb::jdwp::CommandChannel;
use libjdb::model::{
    JavaVirtualMachine, Location, ObjectReference, ReferenceType, StackFrame, ThreadReference,
    TypeComponent,
};
use libjdb::stacktrace::{print_stacktraces, FrameTrace, ThreadTrace};
use libjdb::thread_reference;
use libjdb::wire::Encode;
use std::cell::RefCell;
use std::rc::Rc;

struct FakeVm {
    calls: Rc<RefCell<Vec<(u8, u8, Vec<u8>)>>>,
    native_line_table: bool,
}

fn put<T: Encode>(out: &mut Vec<u8>, v: T) {
    v.encode(out);
}

impl FakeVm {
    fn new() -> FakeVm {
        FakeVm { calls: Rc::new(RefCell::new(vec![])), native_line_table: false }
    }

    fn commands(&self) -> Vec<(u8, u8)> {
        self.calls.borrow().iter().map(|c| (c.0, c.1)).collect()
    }
}

impl CommandChannel for FakeVm {
    fn execute_cmd(&self, command_set: u8, command: u8, data: &[u8]) -> Result<Vec<u8>, JdwpError> {
        self.calls.borrow_mut().push((command_set, command, data.to_vec()));
        let arg = if data.len() >= 8 {
            u64::from_be_bytes(data[0..8].try_into().unwrap())
        } else {
            0
        };
        let mut b = Vec::new();
        match (command_set, command) {
            (1, 4) => put(&mut b, vec![1u64]),
            (1, 8) | (1, 9) => {}
            (9, 1) => {
                put(&mut b, 1u8);
                put(&mut b, 100u64);
            }
            (2, 1) => match arg {
                100 => put(&mut b, "Ljava/lang/Thread;"),
                200 => put(&mut b, "Lcom/example/App;"),
                _ => return Err(JdwpError::ErrorCode(21)),
            },
            (2, 4) => {
                put(&mut b, 2i32);
                for (id, name) in [(11u64, "tid"), (12u64, "name")] {
                    put(&mut b, id);
                    put(&mut b, name);
                    put(&mut b, "J");
                    put(&mut b, 2i32);
                }
            }
            (2, 5) => {
                put(&mut b, 2i32);
                for (id, name) in [(299u64, "<init>"), (300u64, "run")] {
                    put(&mut b, id);
                    put(&mut b, name);
                    put(&mut b, "()V");
                    put(&mut b, 1i32);
                }
            }
            (11, 1) => put(&mut b, "main"),
            (11, 6) => {
                put(&mut b, 1i32);
                put(&mut b, 5u64);
                put(&mut b, 1u8);
                put(&mut b, 200u64);
                put(&mut b, 300u64);
                put(&mut b, 60u64);
            }
            (6, 1) => {
                if self.native_line_table {
                    return Err(JdwpError::ErrorCode(511));
                }
                put(&mut b, 0i64);
                put(&mut b, 100i64);
                put(&mut b, 3i32);
                for (idx, line) in [(0i64, 10i32), (50, 20), (90, 30)] {
                    put(&mut b, idx);
                    put(&mut b, line);
                }
            }
            _ => return Err(JdwpError::ErrorCode(99)),
        }
        Ok(b)
    }
}

#[test]
fn threads_frames_and_locations() {
    let vm = JdwpJavaVirtualMachine::new(FakeVm::new());
    assert!(vm.can_be_modified());
    let threads = vm.all_threads().unwrap();
    assert_eq!(threads.len(), 1);
    let t = &threads[0];
    assert_eq!(t.unique_id(), Ok(1));
    assert_eq!(t.name(), Ok("main".to_string()));
    assert_eq!(t.reference_type().unwrap().name(), Ok("java.lang.Thread".to_string()));
    let names: Vec<String> =
        t.reference_type().unwrap().fields().unwrap().iter().map(|f| f.name().unwrap()).collect();
    assert_eq!(names, vec!["tid".to_string(), "name".to_string()]);
    let frames = t.frames().unwrap();
    assert_eq!(frames.len(), 1);
    let loc = frames[0].location().unwrap();
    assert_eq!(loc.line_number(), Ok(Some(20)));
    assert_eq!(loc.method().unwrap().name(), Ok("run".to_string()));
    assert_eq!(loc.declaring_type().unwrap().name(), Ok("com.example.App".to_string()));
}

#[test]
fn frames_request_asks_for_all_frames() {
    let fake = FakeVm::new();
    let reply = thread_reference::frames(&fake, 1, 0, -1).unwrap();
    assert_eq!(reply.frames.len(), 1);
    assert_eq!(reply.frames[0].frame_id, 5);
    let calls = fake.calls.borrow();
    assert_eq!(calls[0].0, 11);
    assert_eq!(calls[0].1, 6);
    assert_eq!(calls[0].2, vec![0, 0, 0, 0, 0, 0, 0, 1, 0, 0, 0, 0, 0xFF, 0xFF, 0xFF, 0xFF]);
}

#[test]
fn server_error_is_passed_on() {
    let fake = FakeVm::new();
    assert_eq!(thread_reference::name(&fake, 1).map(|r| r.name), Ok("main".to_string()));
    assert_eq!(
        libjdb::reference_type::signature(&fake, 555).map(|r| r.signature),
        Err(JdwpError::ErrorCode(21))
    );
}

#[test]
fn native_method_has_no_line_number() {
    let mut fake = FakeVm::new();
    fake.native_line_table = true;
    let vm = JdwpJavaVirtualMachine::new(fake);
    let threads = vm.all_threads().unwrap();
    let loc = threads[0].frames().unwrap()[0].location().unwrap();
    assert_eq!(loc.line_number(), Ok(None));
}

#[test]
fn stack_traces_suspend_then_resume() {
    let vm = JdwpJavaVirtualMachine::new(FakeVm::new());
    let traces = print_stacktraces(&vm).unwrap();
    assert_eq!(traces.len(), 1);
    assert_eq!(traces[0].unique_id, 1);
    assert_eq!(traces[0].name, "main");
    assert_eq!(
        traces[0].frames,
        vec![FrameTrace {
            declaring_type: "com.example.App".to_string(),
            method: "run".to_string(),
            line_number: Some(20),
        }]
    );
}

#[test]
fn suspend_and_resume_bracket_the_walk() {
    let fake = FakeVm::new();
    let log = Rc::clone(&fake.calls);
    let vm = JdwpJavaVirtualMachine::new(fake);
    print_stacktraces(&vm).unwrap();
    let commands: Vec<(u8, u8)> = log.borrow().iter().map(|c| (c.0, c.1)).collect();
    assert_eq!(commands.first(), Some(&(1, 8)));
    assert_eq!(commands.last(), Some(&(1, 9)));
    assert_eq!(commands.iter().filter(|c| **c == (1, 8)).count(), 1);
    assert_eq!(commands.iter().filter(|c| **c == (1, 9)).count(), 1);
    assert!(commands.contains(&(11, 6)));
}

#[test]
fn commands_are_issued_in_call_order() {
    let fake = FakeVm::new();
    libjdb::virtual_machine::suspend(&fake).unwrap();
    libjdb::virtual_machine::all_threads(&fake).unwrap();
    libjdb::virtual_machine::resume(&fake).unwrap();
    assert_eq!(fake.commands(), vec![(1, 8), (1, 4), (1, 9)]);
}

#[test]
fn frame_text_is_class_method_line() {
    let f = FrameTrace {
        declaring_type: "java.lang.Thread".to_string(),
        method: "run".to_string(),
        line_number: Some(20),
    };
    assert_eq!(f.text(), "java.lang.Thread.run():20");
    let native = FrameTrace { line_number: None, ..f.clone() };
    assert_eq!(native.text(), "java.lang.Thread.run()");
    let zero = FrameTrace { line_number: Some(0), ..f.clone() };
    assert_eq!(zero.text(), "java.lang.Thread.run():0");
    let big = FrameTrace { line_number: Some(u32::MAX), ..f };
    assert_eq!(big.text(), "java.lang.Thread.run():4294967295");
}

#[test]
fn thread_heading_names_id_and_name() {
    let t = ThreadTrace { unique_id: 1234, name: "main".to_string(), frames: vec![] };
    assert_eq!(t.heading(), "Thread 1234: main");
    let t = ThreadTrace { unique_id: u64::MAX, name: String::new(), frames: vec![] };
    assert_eq!(t.heading(), "Thread 18446744073709551615: ");
}

#[test]
fn stack_trace_text_end_to_end() {
    let vm = JdwpJavaVirtualMachine::new(FakeVm::new());
    let traces = print_stacktraces(&vm).unwrap();
    assert_eq!(traces[0].heading(), "Thread 1: main");
    assert_eq!(traces[0].frames[0].text(), "com.example.App.run():20");
}
