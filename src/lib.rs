pub mod backend;
pub mod error;
pub mod frame;
pub mod hprof;
pub mod jdwp;
pub mod method;
pub mod model;
pub mod object_reference;
pub mod resolve;
pub mod stacktrace;
pub mod reference_type;
pub mod thread_reference;
pub mod virtual_machine;
pub mod wire;
