//! Verified core of the SimplicityHL jet tooling: the high-level type
//! language used to describe jet signatures, its canonical text form, the
//! portable wire format in which jet classifications cross plugin
//! boundaries, the host side of the byte-level plugin protocol, and the type
//! checker with the scope in which programs are analyzed.

pub mod analysis;
pub mod ast;
pub mod core_jets;
pub mod dynlib;
pub mod host;
pub mod jet;
pub mod parse;
pub mod plugin;
pub mod text;
pub mod types;
pub mod wire;
pub mod witness;
