//! Verified core of a dataflow task engine: points, flow tracking and the
//! decision logic of the task functions.
pub mod float_bits;
pub mod point;
pub mod fn_flow;
pub mod eval_cycle;
pub mod edge;
pub mod text;
pub mod functions;
pub mod assoc;
pub mod point_meta;
