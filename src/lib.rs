//! Construction of WebAssembly binary modules and their serialization to the
//! MVP binary format.

pub mod leb;
pub mod types;
pub mod instr;
pub mod sections;
pub mod module;
