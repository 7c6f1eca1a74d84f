use vstd::prelude::*;
use vstd::string::{StrSliceExecFns, StringExecFns};
use crate::error::JdwpError;
use crate::frame::NATIVE_METHOD;
use crate::method::{Line, LineTableReply};
use crate::reference_type::{Method, MethodReply};

verus! {

/// A JNI class signature `Lpkg/Class;` without its leading `L` and trailing `;`; other
/// signatures are kept whole.
pub open spec fn strip_signature(s: Seq<char>) -> Seq<char> {
    if s.len() >= 2 && s[0] == 'L' && s[s.len() - 1] == ';' {
        s.subrange(1, s.len() - 1)
    } else {
        s
    }
}

/// `s` with each `/` replaced by `.`.
pub open spec fn dotted(s: Seq<char>) -> Seq<char> {
    s.map_values(|c: char| if c == '/' { '.' } else { c })
}

/// The Java name of the class with signature `sig`.
pub open spec fn class_name(sig: Seq<char>) -> Seq<char> {
    dotted(strip_signature(sig))
}

/// Maps a JNI signature such as `Ljava/lang/Thread;` to a class name such as
/// `java.lang.Thread`.
pub fn signature_to_name(sig: &str) -> (r: String)
    ensures
        r@ == class_name(sig@),
{
    let n = sig.unicode_len();
    let mut from: usize = 0;
    let mut to: usize = n;
    if n >= 2 && sig.get_char(0) == 'L' && sig.get_char(n - 1) == ';' {
        from = 1;
        to = n - 1;
    }
    assert(strip_signature(sig@) == sig@.subrange(from as int, to as int));
    let mut out = String::new();
    let mut i: usize = from;
    while i < to
        invariant
            from <= i <= to <= sig@.len(),
            out@ == dotted(sig@.subrange(from as int, i as int)),
        decreases to - i,
    {
        let c = sig.get_char(i);
        if c == '/' {
            proof {
                reveal_strlit(".");
            }
            out.append(".");
        } else {
            out.append(sig.substring_char(i, i + 1));
        }
        i = i + 1;
        assert(dotted(sig@.subrange(from as int, i as int)) =~= dotted(
            sig@.subrange(from as int, i - 1),
        ).push(if c == '/' { '.' } else { c }));
        assert(out@ =~= dotted(sig@.subrange(from as int, i as int)));
    }
    out
}

/// The code index of a line table entry is at or before byte-code index `index`.
pub open spec fn at_or_before(line: Line, index: u64) -> bool {
    line.line_code_index as int <= index as int
}

/// Entry `j` is the one that applies at `index`: the entry with the greatest code index at
/// or before it, and the later of two with the same code index.
pub open spec fn applies_at(lines: Seq<Line>, j: int, index: u64) -> bool {
    &&& 0 <= j < lines.len()
    &&& at_or_before(lines[j], index)
    &&& forall|k: int|
        0 <= k < lines.len() && at_or_before(#[trigger] lines[k], index) ==> (
        lines[k].line_code_index < lines[j].line_code_index || (lines[k].line_code_index
            == lines[j].line_code_index && k <= j))
}

/// A line table whose bounds are the native-method sentinel -1.
pub open spec fn is_native_table(table: &LineTableReply) -> bool {
    table.start == -1 && table.end == -1
}

/// `r` is the source line at byte-code index `index` by `table`: none for a native method,
/// none where no entry applies or the applicable entry's line is negative, and otherwise the
/// line of the applicable entry.
pub open spec fn resolves_line(table: &LineTableReply, index: u64, r: Option<u32>) -> bool {
    if is_native_table(table) {
        r is None
    } else {
        match r {
            Some(n) => exists|j: int|
                applies_at(table.lines@, j, index) && #[trigger] table.lines@[j].line_number as int
                    == n as int,
            None => forall|j: int|
                applies_at(table.lines@, j, index) ==> #[trigger] table.lines@[j].line_number < 0,
        }
    }
}

/// The source line at byte-code index `index` of a method with line table `table`.
pub fn line_number(table: &LineTableReply, index: u64) -> (r: Option<u32>)
    ensures
        resolves_line(table, index, r),
{
    if table.start == -1 && table.end == -1 {
        return None;
    }
    let lines = &table.lines;
    let mut best: Option<usize> = None;
    let mut k: usize = 0;
    while k < lines.len()
        invariant
            k <= lines@.len(),
            lines@ == table.lines@,
            best matches Some(j) ==> applies_at(lines@.subrange(0, k as int), j as int, index),
            best is None ==> forall|m: int|
                0 <= m < k ==> !at_or_before(#[trigger] lines@[m], index),
        decreases lines@.len() - k,
    {
        let code = lines[k].line_code_index;
        if code < 0 || code as u64 <= index {
            let take = match best {
                Some(j) => lines[j].line_code_index <= code,
                None => true,
            };
            if take {
                best = Some(k);
            }
        }
        k = k + 1;
    }
    assert(lines@.subrange(0, k as int) =~= lines@);
    match best {
        Some(j) => {
            let n = lines[j].line_number;
            if n < 0 {
                proof {
                    assert forall|i: int| applies_at(table.lines@, i, index) implies
                        #[trigger] table.lines@[i].line_number < 0 by {
                        assert(i == j as int);
                    }
                }
                None
            } else {
                Some(n as u32)
            }
        },
        None => None,
    }
}

/// The line number at `index` from the answer to a line-table query: a native-method error
/// means there is none; other errors are passed on.
pub fn line_number_from_reply(reply: Result<LineTableReply, JdwpError>, index: u64) -> (r: Result<
    Option<u32>,
    JdwpError,
>)
    ensures
        match reply {
            Ok(table) => r is Ok && resolves_line(&table, index, r->Ok_0),
            Err(JdwpError::ErrorCode(c)) => if c == NATIVE_METHOD {
                r == Ok::<Option<u32>, JdwpError>(None)
            } else {
                r == Err::<Option<u32>, JdwpError>(JdwpError::ErrorCode(c))
            },
            Err(e) => r == Err::<Option<u32>, JdwpError>(e),
        },
{
    match reply {
        Ok(table) => Ok(line_number(&table, index)),
        Err(JdwpError::ErrorCode(c)) => if c == NATIVE_METHOD {
            Ok(None)
        } else {
            Err(JdwpError::ErrorCode(c))
        },
        Err(e) => Err(e),
    }
}

/// Entry `i` is the first method listed with id `id`.
pub open spec fn first_method_with_id(methods: Seq<Method>, i: int, id: u64) -> bool {
    0 <= i < methods.len() && methods[i].method_id == id && forall|k: int|
        0 <= k < i ==> #[trigger] methods[k].method_id != id
}

/// The name of method `method_id` among the methods a class lists.
pub fn method_name(reply: &MethodReply, method_id: u64) -> (r: Result<String, JdwpError>)
    ensures
        r is Ok <==> exists|i: int|
            0 <= i < reply.methods@.len() && #[trigger] reply.methods@[i].method_id == method_id,
        r matches Ok(n) ==> exists|i: int|
            first_method_with_id(reply.methods@, i, method_id) && n@
                == #[trigger] reply.methods@[i].name@,
        r is Err ==> r->Err_0 == JdwpError::NotFound,
{
    let methods = &reply.methods;
    let mut i: usize = 0;
    while i < methods.len()
        invariant
            i <= methods@.len(),
            methods@ == reply.methods@,
            forall|k: int| 0 <= k < i ==> #[trigger] methods@[k].method_id != method_id,
        decreases methods@.len() - i,
    {
        if methods[i].method_id == method_id {
            let n = methods[i].name.clone();
            assert(n@ == reply.methods@[i as int].name@);
            assert(first_method_with_id(reply.methods@, i as int, method_id));
            return Ok(n);
        }
        i = i + 1;
    }
    Err(JdwpError::NotFound)
}

} // verus!
