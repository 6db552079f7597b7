//! Build-time helper that drives the protobuf compiler over a set of schema
//! files and compiles the generated upb minitable sources into a static library.

pub mod paths;
pub mod c_build;
pub mod codegen;

pub use codegen::{CodeGen, CodegenError, ProtocInvocation};
pub use paths::{get_path_for_arch, protoc_gen_upb_minitable_path, protoc_path};
pub use c_build::static_library_name;
