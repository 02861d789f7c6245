//! Lisp-style cons cells: pairs that chain into proper and dotted lists.

pub mod cons;
pub mod render;
pub mod value;

pub use cons::{Cons, IntoIter, Iter};
pub use value::Value;
