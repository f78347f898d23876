# task_functions

The functions of a dataflow task: small nodes that read points from their
inputs, compute, and hand a point on. Every point travels as an `FnFlow`:
`New` when it was updated in the current evaluation cycle, `Old` when it comes
from a cache, and the nodes propagate this freshness.

The decision logic of each node is written in Verus and proved against its
contract: `src/` is the verified library.

- `point`, `float_bits`: the point model; floating-point values are held as
  their IEEE 754 bits, and the comparisons, roundings and tests the nodes need
  are proved on the bits.
- `fn_flow`, `point_meta`, `eval_cycle`, `edge`, `text`, `assoc`: freshness
  tracking, merged metadata, evaluation cycles, edge detection, identifiers and
  decimal text, name-keyed state.
- `functions`: one module per node. A node never polls its inputs: the caller
  polls them and hands their results to the node's evaluation step, so each
  step is a function of the node's state and its inputs' results. Where a node
  needs floating-point arithmetic, the step says which conversion or operation
  the caller performs and takes its result back.

`app/` wires the nodes into a graph of shared handles, performs the
floating-point arithmetic, sends the points produced over channels, and holds
the nodes that are floating-point computations throughout (piecewise linear
interpolation, time-weighted average, unit circle). The piecewise step function
is the library's: its range syntax is read by a verified scanner and its steps
compare the bits of `f64` values; `app/` reads its YAML configuration and the
decimal bounds as `f64`.

`tests/` exercises the library on concrete values.

## Building a function tree

`functions::fn_builder::plan` turns a configuration (`FnConf`) into a plan of
nodes (`NodePlan`): for each function name, which node stands for it, which
inputs and parameters it takes, what a missing input, an unknown name or a
wrong parameter gives, where an `enable` input wraps the node, which variables
are declared, and the value each input point starts from. Its contract is the
spec function `plan_spec`, stated slot by slot over a table of the functions'
slots (`schema`). `app/builder.rs` turns a plan into nodes, with the services
they use (send queues, retain store, configured point ids, the instance
counter).

## Not here

- The functions whose node types are not part of the available sources: the
  timers, the comparisons other than `FnEq`, `FnThreshold` (threshold and
  integral filter), `FnSql` and `FnSqlMetric` (SQL templates filled with
  input values), `FnToBool`, `FnBitOr`, `FnMin`. The plan names them and
  checks their inputs; `app/builder.rs` refuses to build them.
- `FnPlot`: a GUI window.
- The YAML readers of the piecewise functions are in `app/piecewise.rs`.
