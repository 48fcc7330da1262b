//! Verified core of the CUDA intrinsic pipeline: the device-side constant
//! storage, the WMMA fragment layout, the NVVM dialect operation table, the
//! inline-PTX templates that the lowering emits, and the argument checks
//! that the MIR importer and the lowering perform.

pub mod constant;
pub mod importer;
pub mod layout;
pub mod lower;
pub mod ops;
pub mod ptx;
pub mod text;
