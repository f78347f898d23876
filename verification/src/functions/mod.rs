//! The task functions: each node keeps its own state, its consumer polls its
//! inputs and hands their results to the node's evaluation step.
pub mod fn_enable;
pub mod fn_change;
pub mod fn_count;
pub mod fn_hold;
pub mod fn_edge;
pub mod fn_not;
pub mod fn_to_int;
pub mod fn_select;
pub mod fn_const;
pub mod fn_var;
pub mod fn_filter;
pub mod fn_debug;
pub mod fn_is_changed_value;
pub mod fn_input;
pub mod fn_rec_op_cycle_metric;
pub mod gather;
pub mod fn_or;
pub mod fn_eq;
pub mod fn_sub;
pub mod fn_div;
pub mod fn_pow;
pub mod fn_add;
pub mod fn_mul;
pub mod fn_bit_and;
pub mod fn_bit_xor;
pub mod fn_to_double;
pub mod fn_to_string;
pub mod fn_to_real;
pub mod fn_retain_read;
pub mod fn_retain_write;
pub mod fn_retain;
pub mod fn_to_api_queue;
pub mod fn_export;
pub mod fn_point;
pub mod fn_point_id;
pub mod fn_smooth;
pub mod fn_acc;
pub mod fn_builder;
pub mod fn_max;
pub mod fn_piecewise_step;
