# cuda_intrinsics

The verified core of a pipeline that turns calls of CUDA device intrinsics
(approximate math, per-warp WMMA tensor-core operations) into NVVM dialect
operations and lowers those to LLVM calls and inline PTX.

- `src/constant.rs`: constant-memory storage read by value on the device.
- `src/layout.rs`: the WMMA m16n16k16 fragment layout and the order of the
  raw intrinsics' operands.
- `src/ops.rs`: the NVVM dialect operations: names, operand and result counts.
- `src/ptx.rs`: the inline PTX statements of the WMMA operations and their
  rendering to template and constraint text.
- `src/lower.rs`: the lowering plan of each operation and its errors.
- `src/importer.rs`: the import plan of each intrinsic call and its errors.
- `src/text.rs`: decimal numbers.
- `app/`: the device-side stubs, the operations as registered with the IR
  framework, and the glue that performs the IR rewrites the library plans.
