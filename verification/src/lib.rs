//! A growable list that lives in an interpreter's garbage-collected heap, as
//! native code sees it: value handles, typed references into the heap, and the
//! operations that create a list, grow it, and give access to its elements.

pub mod error;
pub mod gc;
pub mod list;
pub mod obj;

pub use error::{catch_exception, Error, OutOfRange};
pub use gc::{Gc, Heap};
pub use list::List;
pub use obj::Obj;
