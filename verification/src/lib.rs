//! A verified "javap"-style disassembly formatter.
//!
//! The crate renders an already-parsed class model — constant pool, access
//! flags, methods, instruction stream, exception tables — into the exact
//! human-readable listing a bytecode-inspection tool prints.  Every line of
//! output is pinned down by spec functions, and the executable formatters are
//! proved to produce exactly that text.  Decoding raw class-file bytes into
//! the model is a collaborator's job and is not done here.

pub mod flags;
pub mod instr;
pub mod method;
pub mod model;
pub mod pool;
pub mod render;
pub mod text;
