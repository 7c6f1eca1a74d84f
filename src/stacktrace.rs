use vstd::prelude::*;
use vstd::string::{StrSliceExecFns, StringExecFns};
use crate::error::JdwpError;
use crate::model::{
    JavaVirtualMachine, Location, ObjectReference, ReferenceType, StackFrame, ThreadReference,
    TypeComponent,
};

verus! {

/// One frame of a stack trace: where it is, by names.
#[derive(Debug, Clone, PartialEq, Eq)]
pub struct FrameTrace {
    pub declaring_type: String,
    pub method: String,
    pub line_number: Option<u32>,
}

/// The stack trace of one thread.
#[derive(Debug, Clone, PartialEq, Eq)]
pub struct ThreadTrace {
    pub unique_id: u64,
    pub name: String,
    pub frames: Vec<FrameTrace>,
}

/// The decimal digit for `d`, which is below ten.
pub open spec fn digit(d: nat) -> char {
    seq!['0', '1', '2', '3', '4', '5', '6', '7', '8', '9'][d as int]
}

/// The decimal form of `n`, without leading zeros.
pub open spec fn decimal(n: nat) -> Seq<char>
    decreases n,
{
    if n < 10 {
        seq![digit(n)]
    } else {
        decimal(n / 10).push(digit(n % 10))
    }
}

/// How a frame is shown: `Class.method()`, then `:line` where the line is known.
pub open spec fn frame_text(declaring_type: Seq<char>, method: Seq<char>, line: Option<u32>) -> Seq<
    char,
> {
    declaring_type + seq!['.'] + method + seq!['(', ')'] + match line {
        Some(n) => seq![':'] + decimal(n as nat),
        None => Seq::empty(),
    }
}

impl FrameTrace {
    /// The frame as shown in a stack trace.
    pub fn text(&self) -> (r: String)
        ensures
            r@ == frame_text(self.declaring_type@, self.method@, self.line_number),
    {
        let mut out = self.declaring_type.clone();
        proof {
            reveal_strlit(".");
            reveal_strlit("()");
            reveal_strlit(":");
        }
        out.append(".");
        out.append(self.method.as_str());
        out.append("()");
        match self.line_number {
            Some(n) => {
                out.append(":");
                push_decimal(&mut out, n as u64);
            },
            None => {},
        }
        assert(out@ =~= frame_text(self.declaring_type@, self.method@, self.line_number));
        out
    }
}

/// How a thread is introduced: `Thread id: name`.
pub open spec fn thread_text(unique_id: u64, name: Seq<char>) -> Seq<char> {
    "Thread "@ + decimal(unique_id as nat) + seq![':', ' '] + name
}

/// Appends the decimal form of `n`.
pub fn push_decimal(out: &mut String, n: u64)
    ensures
        final(out)@ == old(out)@ + decimal(n as nat),
    decreases n,
{
    if n >= 10 {
        push_decimal(out, n / 10);
    }
    let d = (n % 10) as usize;
    let digits = "0123456789";
    proof {
        reveal_strlit("0123456789");
    }
    out.append(digits.substring_char(d, d + 1));
    assert(digits@.subrange(d as int, d + 1) =~= seq![digit(d as nat)]);
    if n < 10 {
        assert(decimal(n as nat) =~= seq![digit(n as nat)]);
    }
    assert(final(out)@ =~= old(out)@ + decimal(n as nat));
}

impl ThreadTrace {
    /// The line that introduces the thread in a stack trace.
    pub fn heading(&self) -> (r: String)
        ensures
            r@ == thread_text(self.unique_id, self.name@),
    {
        let mut out = String::from_str("Thread ");
        proof {
            reveal_strlit("Thread ");
            reveal_strlit(": ");
        }
        push_decimal(&mut out, self.unique_id);
        out.append(": ");
        out.append(self.name.as_str());
        assert(out@ =~= thread_text(self.unique_id, self.name@));
        out
    }
}

/// Collects the stack trace of `thread`, innermost frame first.
pub fn print_stacktrace<T: ThreadReference>(thread: &T) -> (r: Result<ThreadTrace, JdwpError>)
    ensures
        r matches Ok(t) ==> t.unique_id == thread.id(),
{
    let unique_id = match thread.unique_id() {
        Ok(id) => id,
        Err(e) => return Err(e),
    };
    let name = match thread.name() {
        Ok(n) => n,
        Err(e) => return Err(e),
    };
    let frames = match thread.frames() {
        Ok(f) => f,
        Err(e) => return Err(e),
    };
    let mut traces: Vec<FrameTrace> = Vec::new();
    let mut i: usize = 0;
    while i < frames.len()
        decreases frames@.len() - i,
    {
        let location = match frames[i].location() {
            Ok(l) => l,
            Err(e) => return Err(e),
        };
        let line_number = match location.line_number() {
            Ok(n) => n,
            Err(e) => return Err(e),
        };
        let declaring_type = match location.declaring_type() {
            Ok(t) => match t.name() {
                Ok(n) => n,
                Err(e) => return Err(e),
            },
            Err(e) => return Err(e),
        };
        let method = match location.method() {
            Ok(m) => match m.name() {
                Ok(n) => n,
                Err(e) => return Err(e),
            },
            Err(e) => return Err(e),
        };
        traces.push(FrameTrace { declaring_type, method, line_number });
        i = i + 1;
    }
    Ok(ThreadTrace { unique_id, name, frames: traces })
}

/// Collects the stack trace of every thread. A debuggee that can be modified is suspended
/// first and resumed afterwards, also when collecting fails.
pub fn print_stacktraces<Jvm: JavaVirtualMachine>(jvm: &Jvm) -> (r: Result<
    Vec<ThreadTrace>,
    JdwpError,
>) {
    let modifiable = jvm.can_be_modified();
    if modifiable {
        match jvm.suspend() {
            Ok(()) => {},
            Err(e) => return Err(e),
        }
    }
    let collected = collect_traces(jvm);
    if modifiable {
        match jvm.resume() {
            Ok(()) => {},
            Err(e) => return Err(e),
        }
    }
    collected
}

fn collect_traces<Jvm: JavaVirtualMachine>(jvm: &Jvm) -> (r: Result<Vec<ThreadTrace>, JdwpError>) {
    let threads = match jvm.all_threads() {
        Ok(t) => t,
        Err(e) => return Err(e),
    };
    let mut traces: Vec<ThreadTrace> = Vec::new();
    let mut i: usize = 0;
    while i < threads.len()
        decreases threads@.len() - i,
    {
        match print_stacktrace(&threads[i]) {
            Ok(t) => traces.push(t),
            Err(e) => return Err(e),
        }
        i = i + 1;
    }
    Ok(traces)
}

} // verus!
