use vstd::prelude::*;
use crate::error::JdwpError;

verus! {

/// A debuggee as a debugger sees it, whatever backend the data comes from.
pub trait JavaVirtualMachine {
    type ThreadReference: ThreadReference;

    fn all_threads(&self) -> Result<Vec<Self::ThreadReference>, JdwpError>;

    /// Whether the debuggee can be suspended and resumed.
    spec fn modifiable(&self) -> bool;

    /// Live backends can be suspended and resumed; static ones cannot.
    fn can_be_modified(&self) -> (r: bool)
        ensures
            r == self.modifiable(),
    ;

    fn suspend(&self) -> Result<(), JdwpError>;

    fn resume(&self) -> Result<(), JdwpError>;
}

/// An object of the debuggee.
pub trait ObjectReference {
    type ReferenceType: ReferenceType;

    /// The identifier of the object.
    spec fn id(&self) -> u64;

    fn unique_id(&self) -> (r: Result<u64, JdwpError>)
        ensures
            r matches Ok(v) ==> v == self.id(),
    ;

    fn reference_type(&self) -> Result<Self::ReferenceType, JdwpError>;
}

/// A thread of the debuggee.
pub trait ThreadReference: ObjectReference {
    type StackFrame: StackFrame;

    fn name(&self) -> Result<String, JdwpError>;

    /// All frames of the thread, innermost first.
    fn frames(&self) -> Result<Vec<Self::StackFrame>, JdwpError>;
}

/// One frame of a thread's stack.
pub trait StackFrame {
    type Location: Location;

    fn location(&self) -> Result<Self::Location, JdwpError>;
}

/// A point in executing code.
pub trait Location {
    type Method: Method;

    type ReferenceType: ReferenceType;

    /// The source line, where the method has line information.
    fn line_number(&self) -> Result<Option<u32>, JdwpError>;

    fn method(&self) -> Result<Self::Method, JdwpError>;

    fn declaring_type(&self) -> Result<Self::ReferenceType, JdwpError>;
}

/// A class, interface or array type.
pub trait ReferenceType {
    type Field: Field;

    fn name(&self) -> Result<String, JdwpError>;

    fn fields(&self) -> Result<Vec<Self::Field>, JdwpError>;

    fn get_value(&self, field: &Self::Field) -> Result<Value, JdwpError>;
}

/// A member of a type.
pub trait TypeComponent {
    fn name(&self) -> Result<String, JdwpError>;
}

pub trait Method: TypeComponent {

}

pub trait Field: TypeComponent {

}

/// A primitive value of the debuggee.
#[derive(Debug, Clone, Copy, PartialEq, Eq, Structural)]
pub enum Value {
    Byte(i8),
    Short(i16),
    Integer(i32),
    Long(i64),
}

} // verus!
