//! Evaluation of `for ... of` loops for a small tree-walking interpreter:
//! scope frames per iteration, loop-head bindings, the iterator protocol and
//! the propagation of `break`, `continue` and `return`.
pub mod value;
pub mod environment;
pub mod node;
pub mod iterator;
pub mod interpreter;
pub mod for_of_loop;
pub mod laws;
pub mod display;
