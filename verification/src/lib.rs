//! In-memory representation of the heap values of a managed-language virtual
//! machine: plain instances, arrays of 32-bit integers and arrays of 64-bit
//! integers, with the accessors that the interpreter reads and writes them by.

pub mod decimal;
pub mod klass;
pub mod klass_repo;
pub mod laws;
pub mod object;
pub mod value;

pub use klass::{OtField, OtKlass};
pub use klass_repo::SharedKlassRepo;
pub use object::{ObjFault, OtObj};
pub use value::JvmValue;
